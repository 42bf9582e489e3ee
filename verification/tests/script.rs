use powershell_init::{bool_literal, config_line, emit};

#[test]
fn booleans_use_powershell_literals() {
    assert_eq!(bool_literal(true), "$true");
    assert_eq!(bool_literal(false), "$false");
}

#[test]
fn boolean_literals_differ() {
    assert_ne!(bool_literal(true), bool_literal(false));
}

#[test]
fn config_line_for_each_pair() {
    assert_eq!(
        config_line(true, true),
        "Enable-AtuinSearchKeys -CtrlR $true -UpArrow $true"
    );
    assert_eq!(
        config_line(true, false),
        "Enable-AtuinSearchKeys -CtrlR $true -UpArrow $false"
    );
    assert_eq!(
        config_line(false, true),
        "Enable-AtuinSearchKeys -CtrlR $false -UpArrow $true"
    );
    assert_eq!(
        config_line(false, false),
        "Enable-AtuinSearchKeys -CtrlR $false -UpArrow $false"
    );
}

#[test]
fn config_line_has_no_line_end() {
    for bind_ctrl_r in [false, true] {
        for bind_up_arrow in [false, true] {
            let line = config_line(bind_ctrl_r, bind_up_arrow);
            assert!(!line.contains('\n'));
            assert!(!line.contains('\r'));
        }
    }
}

#[test]
fn config_lines_are_pairwise_distinct() {
    let pairs = [(false, false), (false, true), (true, false), (true, true)];
    for a in pairs {
        for b in pairs {
            assert_eq!(config_line(a.0, a.1) == config_line(b.0, b.1), a == b);
        }
    }
}

#[test]
fn emit_writes_asset_then_config_line() {
    assert_eq!(
        emit("function Enable-AtuinSearchKeys {}", true, false),
        "function Enable-AtuinSearchKeys {}\nEnable-AtuinSearchKeys -CtrlR $true -UpArrow $false\n"
    );
}

#[test]
fn emit_with_empty_asset() {
    assert_eq!(
        emit("", false, true),
        "\nEnable-AtuinSearchKeys -CtrlR $false -UpArrow $true\n"
    );
}

#[test]
fn emit_keeps_asset_verbatim() {
    let asset = "# caf\u{e9} \u{1F41A}\r\n$x = \"a`nb\"\n\n";
    let out = emit(asset, true, true);
    assert_eq!(
        out,
        "# caf\u{e9} \u{1F41A}\r\n$x = \"a`nb\"\n\n\nEnable-AtuinSearchKeys -CtrlR $true -UpArrow $true\n"
    );
    assert_eq!(&out.as_bytes()[..asset.len()], asset.as_bytes());
}

#[test]
fn asset_is_a_strict_prefix_and_one_line_follows() {
    let asset = "line one\nline two";
    for bind_ctrl_r in [false, true] {
        for bind_up_arrow in [false, true] {
            let out = emit(asset, bind_ctrl_r, bind_up_arrow);
            assert!(out.starts_with(asset));
            assert!(out.len() > asset.len());
            let rest = &out[asset.len()..];
            assert!(rest.starts_with('\n'));
            assert!(rest.ends_with('\n'));
            let line = &rest[1..rest.len() - 1];
            assert_eq!(line, config_line(bind_ctrl_r, bind_up_arrow));
            assert_eq!(rest.matches('\n').count(), 2);
            assert_eq!(out.matches("Enable-AtuinSearchKeys").count(), 1);
        }
    }
}

#[test]
fn config_line_comes_after_asset() {
    let asset = "ASSET";
    let out = emit(asset, true, true);
    let asset_at = out.find(asset).unwrap();
    let line_at = out.find("Enable-AtuinSearchKeys").unwrap();
    assert_eq!(asset_at, 0);
    assert!(line_at >= asset.len());
}
