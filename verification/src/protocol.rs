//! What the library asks of the program around it, and what that program
//! reports back. The library decides; the program performs each request (a
//! print, a question, a file-system call, a command) and answers with an event.

use vstd::prelude::*;

verus! {

/// A request to the program around the library. `S` is the type of a text
/// and `L` that of a list of texts.
#[derive(PartialEq, Eq, Debug)]
pub enum ActionOf<S, L> {
    /// Print `line` on the standard output. Answered by `Ack`.
    Show { line: S },
    /// Print `line` on the standard error. Answered by `Ack`.
    Complain { line: S },
    /// Print `prompt` without a line break and read one line of input.
    /// Answered by `Answer`.
    Ask { prompt: S },
    /// Tell whether the path `path` exists. Answered by `Exists`.
    Probe { path: S },
    /// Create the directory `path` and its parents. Answered by `Ack` or `Failed`.
    MakeDir { path: S },
    /// Make `path` the working directory. Answered by `Ack` or `Failed`.
    EnterDir { path: S },
    /// Tell the working directory. Answered by `Location`.
    WhereAmI,
    /// Tell the value of the environment variable `variable`, the path of the
    /// running program and the working directory. Answered by `Hints`.
    LookUp { variable: S },
    /// Copy the file `from` to `to`. Answered by `Ack` or `Failed`.
    Copy { from: S, to: S },
    /// Write `content` into the file `path`. Answered by `Ack` or `Failed`.
    Write { path: S, content: S },
    /// Run `program` with `args` and wait for it. Answered by `Exited`, or by
    /// `Failed` where it could not be started.
    Run { program: S, args: L },
    /// End the process with the exit code `code`.
    Exit { code: i32 },
}

/// An action with its texts held as `String`s.
pub type Action = ActionOf<String, Vec<String>>;

/// An action with its texts held as sequences of characters.
pub type ActionModel = ActionOf<Seq<char>, Seq<Seq<char>>>;

impl View for ActionOf<String, Vec<String>> {
    type V = ActionModel;

    open spec fn view(&self) -> ActionModel {
        match self {
            ActionOf::Show { line } => ActionOf::Show { line: line@ },
            ActionOf::Complain { line } => ActionOf::Complain { line: line@ },
            ActionOf::Ask { prompt } => ActionOf::Ask { prompt: prompt@ },
            ActionOf::Probe { path } => ActionOf::Probe { path: path@ },
            ActionOf::MakeDir { path } => ActionOf::MakeDir { path: path@ },
            ActionOf::EnterDir { path } => ActionOf::EnterDir { path: path@ },
            ActionOf::WhereAmI => ActionOf::WhereAmI,
            ActionOf::LookUp { variable } => ActionOf::LookUp { variable: variable@ },
            ActionOf::Copy { from, to } => ActionOf::Copy { from: from@, to: to@ },
            ActionOf::Write { path, content } => ActionOf::Write { path: path@, content: content@ },
            ActionOf::Run { program, args } => ActionOf::Run { program: program@, args: args.deep_view() },
            ActionOf::Exit { code } => ActionOf::Exit { code: *code },
        }
    }
}

/// What the program reports after performing an action.
#[derive(PartialEq, Eq, Debug)]
pub enum EventOf<S> {
    /// The action was done.
    Ack,
    /// The action failed; `detail` is the system's description of the error.
    Failed { detail: S },
    /// The line that the user typed, as read (with its line break).
    Answer { line: S },
    /// Whether the probed path exists.
    Exists { found: bool },
    /// The working directory.
    Location { path: S },
    /// The environment variable's value where it is set (and Unicode), the
    /// path of the running program where it is known, and the working
    /// directory where it is known.
    Hints { variable: Option<S>, executable: Option<S>, current: Option<S> },
    /// The command ended: whether it succeeded, and its exit code where it has one.
    Exited { success: bool, code: Option<i32> },
}

/// An event with its texts held as `String`s.
pub type Event = EventOf<String>;

/// An event with its texts held as sequences of characters.
pub type EventModel = EventOf<Seq<char>>;

/// The view of an optional text.
pub open spec fn option_view(o: Option<String>) -> Option<Seq<char>> {
    match o {
        Some(s) => Some(s@),
        None => None,
    }
}

impl View for EventOf<String> {
    type V = EventModel;

    open spec fn view(&self) -> EventModel {
        match self {
            EventOf::Ack => EventOf::Ack,
            EventOf::Failed { detail } => EventOf::Failed { detail: detail@ },
            EventOf::Answer { line } => EventOf::Answer { line: line@ },
            EventOf::Exists { found } => EventOf::Exists { found: *found },
            EventOf::Location { path } => EventOf::Location { path: path@ },
            EventOf::Hints { variable, executable, current } => EventOf::Hints {
                variable: option_view(*variable),
                executable: option_view(*executable),
                current: option_view(*current),
            },
            EventOf::Exited { success, code } => EventOf::Exited { success: *success, code: *code },
        }
    }
}

} // verus!
