use powershell_init::resolve;

#[test]
fn flags_decide_when_no_override() {
    assert_eq!(resolve(false, false, false), (true, true));
    assert_eq!(resolve(true, false, false), (true, false));
    assert_eq!(resolve(false, true, false), (false, true));
    assert_eq!(resolve(true, true, false), (false, false));
}

#[test]
fn flags_decide_independently() {
    for disable_up_arrow in [false, true] {
        for disable_ctrl_r in [false, true] {
            let (bind_ctrl_r, bind_up_arrow) = resolve(disable_up_arrow, disable_ctrl_r, false);
            assert_eq!(bind_ctrl_r, !disable_ctrl_r);
            assert_eq!(bind_up_arrow, !disable_up_arrow);
        }
    }
}

#[test]
fn override_switches_both_off() {
    for disable_up_arrow in [false, true] {
        for disable_ctrl_r in [false, true] {
            assert_eq!(
                resolve(disable_up_arrow, disable_ctrl_r, true),
                (false, false)
            );
        }
    }
}

#[test]
fn result_is_ctrl_r_then_up_arrow() {
    // Only the up arrow is disabled: the first component stays on.
    let (bind_ctrl_r, bind_up_arrow) = resolve(true, false, false);
    assert!(bind_ctrl_r);
    assert!(!bind_up_arrow);
}
