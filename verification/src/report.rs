//! The closing summary of a run, as lines of text.

use crate::origin::texts;
use crate::tally::{Tally, TallyModel};
use vstd::prelude::*;
use vstd::string::StringExecFns;

verus! {

/// The text of one decimal digit.
pub open spec fn digit(d: nat) -> Seq<char> {
    if d == 0 {
        "0"@
    } else if d == 1 {
        "1"@
    } else if d == 2 {
        "2"@
    } else if d == 3 {
        "3"@
    } else if d == 4 {
        "4"@
    } else if d == 5 {
        "5"@
    } else if d == 6 {
        "6"@
    } else if d == 7 {
        "7"@
    } else if d == 8 {
        "8"@
    } else {
        "9"@
    }
}

/// A number in decimal, without sign or leading zeros.
pub open spec fn decimal(n: nat) -> Seq<char>
    decreases n,
{
    if n < 10 {
        digit(n)
    } else {
        decimal(n / 10) + digit(n % 10)
    }
}

/// The seven lines of the summary: a rule, the number of files met, the four
/// counts, and a rule.
pub open spec fn summary(total: nat, tally: TallyModel) -> Seq<Seq<char>> {
    seq![
        "--------------------------------------------------"@,
        "Total Scanned: "@ + decimal(total),
        "  -> ComfyUI: "@ + decimal(tally.comfy),
        "  -> WebUI/NovelAI: "@ + decimal(tally.webui),
        "  -> Skipped: "@ + decimal(tally.skipped),
        "  -> Errors: "@ + decimal(tally.errors),
        "--------------------------------------------------"@,
    ]
}

fn digit_text(d: usize) -> (text: &'static str)
    requires
        d < 10,
    ensures
        text@ == digit(d as nat),
{
    if d == 0 {
        "0"
    } else if d == 1 {
        "1"
    } else if d == 2 {
        "2"
    } else if d == 3 {
        "3"
    } else if d == 4 {
        "4"
    } else if d == 5 {
        "5"
    } else if d == 6 {
        "6"
    } else if d == 7 {
        "7"
    } else if d == 8 {
        "8"
    } else {
        "9"
    }
}

/// `n` written in decimal.
pub fn decimal_text(n: usize) -> (text: String)
    ensures
        text@ == decimal(n as nat),
    decreases n,
{
    if n < 10 {
        digit_text(n).to_owned()
    } else {
        let mut text = decimal_text(n / 10);
        text.append(digit_text(n % 10));
        text
    }
}

fn labelled(label: &str, n: usize) -> (line: String)
    ensures
        line@ == label@ + decimal(n as nat),
{
    let mut line = label.to_owned();
    line.append(decimal_text(n).as_str());
    line
}

/// The summary of a run that met `total` files and ended them as `tally` says.
pub fn summary_lines(total: usize, tally: &Tally) -> (lines: Vec<String>)
    ensures
        texts(lines@) == summary(total as nat, tally@),
{
    let mut lines: Vec<String> = Vec::new();
    lines.push("--------------------------------------------------".to_owned());
    lines.push(labelled("Total Scanned: ", total));
    lines.push(labelled("  -> ComfyUI: ", tally.comfy));
    lines.push(labelled("  -> WebUI/NovelAI: ", tally.webui));
    lines.push(labelled("  -> Skipped: ", tally.skipped));
    lines.push(labelled("  -> Errors: ", tally.errors));
    lines.push("--------------------------------------------------".to_owned());
    assert(texts(lines@) =~= summary(total as nat, tally@));
    lines
}

} // verus!
