//! The emitted text: the base script, then one configuration statement.
//!
//! The base script is opaque to this module and is copied as it stands. The
//! configuration statement calls the entry point that the base script
//! defines, so it always comes second.

use vstd::prelude::*;
use vstd::string::*;

verus! {

/// How PowerShell spells a boolean.
pub open spec fn bool_literal_text(value: bool) -> Seq<char> {
    if value {
        "$true"@
    } else {
        "$false"@
    }
}

/// The configuration statement, without a line end.
pub open spec fn config_line_text(bind_ctrl_r: bool, bind_up_arrow: bool) -> Seq<char> {
    "Enable-AtuinSearchKeys -CtrlR "@ + bool_literal_text(bind_ctrl_r) + " -UpArrow "@
        + bool_literal_text(bind_up_arrow)
}

/// The whole output: the base script and the configuration statement, each
/// closed by a line end.
pub open spec fn emitted_text(asset: Seq<char>, bind_ctrl_r: bool, bind_up_arrow: bool) -> Seq<
    char,
> {
    asset + "\n"@ + config_line_text(bind_ctrl_r, bind_up_arrow) + "\n"@
}

/// A text that holds no line break: neither a line feed nor a carriage
/// return.
pub open spec fn is_single_line(text: Seq<char>) -> bool {
    forall|i: int| 0 <= i < text.len() ==> text[i] != '\n' && text[i] != '\r'
}

/// The two boolean literals, character by character. They differ, so the
/// rendering loses nothing.
pub proof fn lemma_bool_literal_text()
    ensures
        bool_literal_text(true) == seq!['$', 't', 'r', 'u', 'e'],
        bool_literal_text(false) == seq!['$', 'f', 'a', 'l', 's', 'e'],
        bool_literal_text(true) != bool_literal_text(false),
{
    reveal_strlit("$true");
    reveal_strlit("$false");
    assert(bool_literal_text(true) =~= seq!['$', 't', 'r', 'u', 'e']);
    assert(bool_literal_text(false) =~= seq!['$', 'f', 'a', 'l', 's', 'e']);
    assert(bool_literal_text(true).len() != bool_literal_text(false).len());
}

/// The configuration statement is one line: it holds no line break, whatever
/// the two bindings are.
pub proof fn lemma_config_line_is_single_line(bind_ctrl_r: bool, bind_up_arrow: bool)
    ensures
        is_single_line(config_line_text(bind_ctrl_r, bind_up_arrow)),
        config_line_text(bind_ctrl_r, bind_up_arrow).len() > 0,
{
    reveal_strlit("Enable-AtuinSearchKeys -CtrlR ");
    reveal_strlit(" -UpArrow ");
    reveal_strlit("$true");
    reveal_strlit("$false");
}

/// The four statements that can be emitted, written out.
pub proof fn lemma_config_line_texts()
    ensures
        config_line_text(true, true) == "Enable-AtuinSearchKeys -CtrlR $true -UpArrow $true"@,
        config_line_text(true, false) == "Enable-AtuinSearchKeys -CtrlR $true -UpArrow $false"@,
        config_line_text(false, true) == "Enable-AtuinSearchKeys -CtrlR $false -UpArrow $true"@,
        config_line_text(false, false) == "Enable-AtuinSearchKeys -CtrlR $false -UpArrow $false"@,
{
    reveal_strlit("Enable-AtuinSearchKeys -CtrlR ");
    reveal_strlit(" -UpArrow ");
    reveal_strlit("$true");
    reveal_strlit("$false");
    reveal_strlit("Enable-AtuinSearchKeys -CtrlR $true -UpArrow $true");
    reveal_strlit("Enable-AtuinSearchKeys -CtrlR $true -UpArrow $false");
    reveal_strlit("Enable-AtuinSearchKeys -CtrlR $false -UpArrow $true");
    reveal_strlit("Enable-AtuinSearchKeys -CtrlR $false -UpArrow $false");
    assert(config_line_text(true, true)
        =~= "Enable-AtuinSearchKeys -CtrlR $true -UpArrow $true"@);
    assert(config_line_text(true, false)
        =~= "Enable-AtuinSearchKeys -CtrlR $true -UpArrow $false"@);
    assert(config_line_text(false, true)
        =~= "Enable-AtuinSearchKeys -CtrlR $false -UpArrow $true"@);
    assert(config_line_text(false, false)
        =~= "Enable-AtuinSearchKeys -CtrlR $false -UpArrow $false"@);
}

/// The configuration statement shows both bindings: two statements are equal
/// only if they were made from the same pair.
pub proof fn lemma_config_line_is_faithful(a: (bool, bool), b: (bool, bool))
    requires
        config_line_text(a.0, a.1) == config_line_text(b.0, b.1),
    ensures
        a == b,
{
    reveal_strlit("Enable-AtuinSearchKeys -CtrlR ");
    reveal_strlit(" -UpArrow ");
    reveal_strlit("$true");
    reveal_strlit("$false");
    let x = config_line_text(a.0, a.1);
    let y = config_line_text(b.0, b.1);
    // The character after the first `$` tells the first binding, the fourth
    // from the end tells the second.
    assert(x[31] == bool_literal_text(a.0)[1]);
    assert(y[31] == bool_literal_text(b.0)[1]);
    assert(x[x.len() - 4] == if a.1 { 't' } else { 'a' });
    assert(y[y.len() - 4] == if b.1 { 't' } else { 'a' });
}

/// The shape of the output: the base script is a strict prefix of it, a line
/// end follows, then the configuration statement, which is a single line, and
/// a last line end. Nothing else is in it.
pub proof fn lemma_output_structure(asset: Seq<char>, bind_ctrl_r: bool, bind_up_arrow: bool)
    ensures
        ({
            let out = emitted_text(asset, bind_ctrl_r, bind_up_arrow);
            let line = config_line_text(bind_ctrl_r, bind_up_arrow);
            &&& asset.is_prefix_of(out)
            &&& out.len() == asset.len() + 1 + line.len() + 1
            &&& out[asset.len() as int] == '\n'
            &&& out.subrange(asset.len() as int + 1, out.len() - 1) == line
            &&& out[out.len() - 1] == '\n'
            &&& is_single_line(line)
        }),
{
    reveal_strlit("\n");
    lemma_config_line_is_single_line(bind_ctrl_r, bind_up_arrow);
    let out = emitted_text(asset, bind_ctrl_r, bind_up_arrow);
    let line = config_line_text(bind_ctrl_r, bind_up_arrow);
    assert(out.subrange(asset.len() as int + 1, out.len() - 1) =~= line);
}

/// Renders a boolean as PowerShell's literal for it.
pub fn bool_literal(value: bool) -> (text: &'static str)
    ensures
        text@ == bool_literal_text(value),
{
    if value {
        "$true"
    } else {
        "$false"
    }
}

/// Builds the configuration statement for the two bindings.
pub fn config_line(bind_ctrl_r: bool, bind_up_arrow: bool) -> (line: String)
    ensures
        line@ == config_line_text(bind_ctrl_r, bind_up_arrow),
{
    let mut line = String::from_str("Enable-AtuinSearchKeys -CtrlR ");
    line.append(bool_literal(bind_ctrl_r));
    line.append(" -UpArrow ");
    line.append(bool_literal(bind_up_arrow));
    line
}

/// Builds the output: `asset` as it stands and a line end, then the
/// configuration statement and a line end.
pub fn emit(asset: &str, bind_ctrl_r: bool, bind_up_arrow: bool) -> (out: String)
    ensures
        out@ == emitted_text(asset@, bind_ctrl_r, bind_up_arrow),
        asset@.is_prefix_of(out@),
        out@.len() > asset@.len(),
{
    let mut out = String::from_str(asset);
    out.append("\n");
    let line = config_line(bind_ctrl_r, bind_up_arrow);
    out.append(line.as_str());
    out.append("\n");
    proof {
        lemma_output_structure(asset@, bind_ctrl_r, bind_up_arrow);
    }
    out
}

} // verus!
