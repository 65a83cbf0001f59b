//! How lines and prompts look on the terminal: an ANSI colour, a mark, the
//! text, and the reset sequence.

use vstd::prelude::*;

verus! {

/// ANSI red.
pub const RED: &'static str = "\x1b[31m";

/// ANSI green.
pub const GREEN: &'static str = "\x1b[32m";

/// ANSI yellow.
pub const YELLOW: &'static str = "\x1b[33m";

/// ANSI cyan.
pub const CYAN: &'static str = "\x1b[36m";

/// ANSI bold.
pub const BOLD: &'static str = "\x1b[1m";

/// ANSI reset of colour and weight.
pub const RESET: &'static str = "\x1b[0m";

/// Mark of a line that reports a success.
pub const SUCCESS_MARK: &'static str = "✔  ";

/// Mark of a line that reports progress.
pub const PROGRESS_MARK: &'static str = "➜  ";

/// Mark of a line that warns.
pub const CAUTION_MARK: &'static str = "⚠  ";

/// Mark of a line that reports an error.
pub const FAILURE_MARK: &'static str = "✖  ERROR: ";

/// The kind of a line shown to the user, which decides its colour and mark.
/// Lines of kind `Failure` go to the error stream, the others to the output.
#[derive(PartialEq, Eq, Structural, Clone, Copy, Debug)]
pub enum Tone {
    Success,
    Progress,
    Caution,
    Failure,
}

/// The colour and mark that start a line of the given tone.
pub open spec fn tone_lead(tone: Tone) -> Seq<char> {
    match tone {
        Tone::Success => GREEN@ + SUCCESS_MARK@,
        Tone::Progress => CYAN@ + PROGRESS_MARK@,
        Tone::Caution => YELLOW@ + CAUTION_MARK@,
        Tone::Failure => RED@ + FAILURE_MARK@,
    }
}

/// A line of the given tone with the text `text`, as it is printed.
pub open spec fn rendered(tone: Tone, text: Seq<char>) -> Seq<char> {
    tone_lead(tone) + text + RESET@
}

/// A question as it is printed before the answer is read.
pub open spec fn rendered_prompt(question: Seq<char>) -> Seq<char> {
    BOLD@ + question + RESET@ + seq![' ']
}

/// Renders a line of the given tone with the text `text`.
pub fn render_line(tone: Tone, text: &str) -> (res: String)
    ensures
        res@ == rendered(tone, text@),
{
    let (colour, mark) = match tone {
        Tone::Success => (GREEN, SUCCESS_MARK),
        Tone::Progress => (CYAN, PROGRESS_MARK),
        Tone::Caution => (YELLOW, CAUTION_MARK),
        Tone::Failure => (RED, FAILURE_MARK),
    };
    let mut s = String::from_str(colour);
    s.append(mark);
    s.append(text);
    s.append(RESET);
    s
}

/// Renders the question `question` as a prompt.
pub fn render_prompt(question: &str) -> (res: String)
    ensures
        res@ == rendered_prompt(question@),
{
    let mut s = String::from_str(BOLD);
    s.append(question);
    s.append(RESET);
    s.append(" ");
    proof {
        reveal_strlit(" ");
    }
    assert(s@ =~= rendered_prompt(question@));
    s
}

} // verus!
