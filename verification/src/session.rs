//! The decisions of the command: which questions to ask, when to stop, and
//! which project to build. The program around the library performs each
//! action and answers with an event; the session decides the next action.

use vstd::prelude::*;
use crate::strings::concat3;
use crate::display::{Tone, rendered, rendered_prompt, render_line, render_prompt};
use crate::paths::{path_debug_text, debug_path};
use crate::plan::{c_project_steps, cpp_project_steps, create_c_project, create_cpp_project};
use crate::protocol::{ActionOf, Action, ActionModel, EventOf, Event, EventModel, option_view};
use crate::runner::{
    Runner, RunnerModel, DirectiveOf, PhaseOf, pending, next_state, start_at,
};
use crate::unicode::{trimmed, uppercased, lowercased, trim_text, upper_text, lower_text};

verus! {

/// The language of a project: C, C++, or a text that names neither (held
/// as it was compared: trimmed and in upper case).
#[derive(PartialEq, Eq, Debug)]
pub enum LanguageOf<S> {
    C,
    Cpp,
    Other { text: S },
}

/// A language with its text held as a `String`.
pub type Language = LanguageOf<String>;

/// A language with its text held as a sequence of characters.
pub type LanguageModel = LanguageOf<Seq<char>>;

impl View for LanguageOf<String> {
    type V = LanguageModel;

    open spec fn view(&self) -> LanguageModel {
        match self {
            LanguageOf::C => LanguageOf::C,
            LanguageOf::Cpp => LanguageOf::Cpp,
            LanguageOf::Other { text } => LanguageOf::Other { text: text@ },
        }
    }
}

/// The language that a text, already trimmed and in upper case, names: `C`
/// is C, `C++` or `CPP` is C++, and any other text names neither.
pub open spec fn language_of_text(t: Seq<char>) -> LanguageModel {
    if t == "C"@ {
        LanguageOf::C
    } else if t == "C++"@ || t == "CPP"@ {
        LanguageOf::Cpp
    } else {
        LanguageOf::Other { text: t }
    }
}

/// The language that a text, already trimmed and in upper case, names.
pub fn language_of(t: String) -> (res: Language)
    ensures
        res@ == language_of_text(t@),
{
    if t == String::from_str("C") {
        LanguageOf::C
    } else if t == String::from_str("C++") || t == String::from_str("CPP") {
        LanguageOf::Cpp
    } else {
        LanguageOf::Other { text: t }
    }
}

/// The language that the answer `raw` names: trimmed and put in upper case,
/// as `language_of_text` reads it.
pub open spec fn language_named(raw: Seq<char>) -> LanguageModel {
    language_of_text(uppercased(trimmed(raw)))
}

/// The language that the answer `raw` names.
pub fn parse_language(raw: &str) -> (res: Language)
    ensures
        res@ == language_named(raw@),
{
    let trimmed_raw = trim_text(raw);
    language_of(upper_text(trimmed_raw.as_str()))
}

/// The answers, in lower case, that count as a yes.
pub open spec fn is_yes(t: Seq<char>) -> bool {
    t == "s"@ || t == "si"@ || t == "sí"@ || t == "yes"@ || t == "y"@
}

/// Whether a text, already in lower case, is a yes: `s`, `si`, `sí`, `yes` or `y`.
pub fn is_yes_text(t: &str) -> (res: bool)
    ensures
        res == is_yes(t@),
{
    let t = String::from_str(t);
    t == String::from_str("s") || t == String::from_str("si") || t == String::from_str("sí")
        || t == String::from_str("yes") || t == String::from_str("y")
}

/// Whether the answer `answer` agrees: in lower case it is a yes.
pub open spec fn agrees(answer: Seq<char>) -> bool {
    is_yes(lowercased(answer))
}

/// Whether the answer `answer` agrees.
pub fn accepts(answer: &str) -> (res: bool)
    ensures
        res == agrees(answer@),
{
    let t = lower_text(answer);
    is_yes_text(t.as_str())
}

/// Said when no arguments were given.
pub const INTERACTIVE: &'static str = "Modo interactivo — no se pasaron argumentos";

/// The question for the project's name.
pub const ASK_NAME: &'static str = "Nombre del proyecto:";

/// The question for the project's language.
pub const ASK_LANG: &'static str = "Lenguaje (C | C++ CPP):";

/// The question whether to go on into a directory that exists.
pub const ASK_CONTINUE: &'static str = "¿Continuar de todas formas? [s/N]:";

/// The error for an empty project name.
pub const EMPTY_NAME: &'static str = "El nombre del proyecto no puede estar vacío.";

/// Said when the user declines to go on.
pub const CANCELLED: &'static str = "Operación cancelada.";

/// The warning that the directory `name` exists.
pub open spec fn exists_text(name: Seq<char>) -> Seq<char> {
    "El directorio '"@ + name + "' ya existe."@
}

/// The error that the directory `name` could not be created.
pub open spec fn root_failure_text(name: Seq<char>, detail: Seq<char>) -> Seq<char> {
    "No se pudo crear el directorio '"@ + name + "': "@ + detail
}

/// The error that the directory `name` could not be entered.
pub open spec fn enter_failure_text(name: Seq<char>, detail: Seq<char>) -> Seq<char> {
    "No se pudo entrar en '"@ + name + "': "@ + detail
}

/// The report that the project `name` is being created in `place`.
pub open spec fn creating_text(name: Seq<char>, place: Seq<char>) -> Seq<char> {
    "Creando proyecto '"@ + name + "' en "@ + path_debug_text(place) + "..."@
}

/// The error for a language that is neither C nor C++.
pub open spec fn unknown_language_text(text: Seq<char>) -> Seq<char> {
    "Lenguaje desconocido: '"@ + text + "'. Usa C, C++ o CPP."@
}

/// `a` + `x` + `b` + `y`.
fn around_then(a: &str, x: &str, b: &str, y: &str) -> (res: String)
    ensures
        res@ == a@ + x@ + b@ + y@,
{
    let mut s = concat3(a, x, b);
    s.append(y);
    s
}

/// Where the command stands.
pub enum StageOf<S, G, R> {
    /// Saying that the command asks for what was not given.
    Greeting { given_lang: Option<S> },
    /// Asking for the project's name.
    AskingName { given_lang: Option<S> },
    /// Asking for the project's language.
    AskingLang { name: S },
    /// Asking whether the directory `name` exists.
    Checking { name: S, lang: G },
    /// Warning that the directory exists.
    Warning { name: S, lang: G },
    /// Asking whether to go on all the same.
    Confirming { name: S, lang: G },
    /// Creating the project's directory.
    Creating { name: S, lang: G },
    /// Entering the project's directory.
    Entering { name: S, lang: G },
    /// Asking for the working directory.
    Locating { name: S, lang: G },
    /// Reporting that the project is being created in `place`.
    Announcing { name: S, lang: G, place: S },
    /// Building the project's steps.
    Building { runner: R },
    /// Showing `line` (on the error stream where `to_error` is set) before
    /// ending with `code`.
    Stopping { line: S, to_error: bool, code: i32 },
    /// Over: the process ends with `code`.
    Done { code: i32 },
}

/// A stage as the session holds it.
pub type Stage = StageOf<String, Language, Runner>;

/// A stage with its texts held as sequences of characters.
pub type StageModel = StageOf<Seq<char>, LanguageModel, RunnerModel>;

impl View for StageOf<String, Language, Runner> {
    type V = StageModel;

    open spec fn view(&self) -> StageModel {
        match self {
            StageOf::Greeting { given_lang } => StageOf::Greeting { given_lang: option_view(*given_lang) },
            StageOf::AskingName { given_lang } => StageOf::AskingName { given_lang: option_view(*given_lang) },
            StageOf::AskingLang { name } => StageOf::AskingLang { name: name@ },
            StageOf::Checking { name, lang } => StageOf::Checking { name: name@, lang: lang@ },
            StageOf::Warning { name, lang } => StageOf::Warning { name: name@, lang: lang@ },
            StageOf::Confirming { name, lang } => StageOf::Confirming { name: name@, lang: lang@ },
            StageOf::Creating { name, lang } => StageOf::Creating { name: name@, lang: lang@ },
            StageOf::Entering { name, lang } => StageOf::Entering { name: name@, lang: lang@ },
            StageOf::Locating { name, lang } => StageOf::Locating { name: name@, lang: lang@ },
            StageOf::Announcing { name, lang, place } => StageOf::Announcing {
                name: name@,
                lang: lang@,
                place: place@,
            },
            StageOf::Building { runner } => StageOf::Building { runner: runner@ },
            StageOf::Stopping { line, to_error, code } => StageOf::Stopping {
                line: line@,
                to_error: *to_error,
                code: *code,
            },
            StageOf::Done { code } => StageOf::Done { code: *code },
        }
    }
}

/// The state of the command: whether to set up git, and the stage. A
/// runner that it holds is still running (`SessionModel::wf`).
pub struct Session {
    git: bool,
    stage: Stage,
}

/// The view of a session.
pub struct SessionModel {
    pub git: bool,
    pub stage: StageModel,
}

impl View for Session {
    type V = SessionModel;

    closed spec fn view(&self) -> SessionModel {
        SessionModel { git: self.git, stage: self.stage@ }
    }
}

/// Stopping with an error line and the exit code 1.
pub open spec fn failing(text: Seq<char>) -> StageModel {
    StageOf::Stopping { line: rendered(Tone::Failure, text), to_error: true, code: 1 }
}

/// Once the name and the raw language are known: an empty name ends the
/// command with an error; otherwise the command checks the directory.
pub open spec fn after_lang(name: Seq<char>, raw: Seq<char>) -> StageModel {
    if name.len() == 0 {
        failing(EMPTY_NAME@)
    } else {
        StageOf::Checking { name, lang: language_named(raw) }
    }
}

/// Once the name is known: the language is asked for where it was not given.
pub open spec fn after_name(name: Seq<char>, lang: Option<Seq<char>>) -> StageModel {
    match lang {
        Some(raw) => after_lang(name, raw),
        None => StageOf::AskingLang { name },
    }
}

/// The first stage, from the arguments given.
pub open spec fn opening(name: Option<Seq<char>>, lang: Option<Seq<char>>) -> StageModel {
    match name {
        Some(n) => after_name(n, lang),
        None => StageOf::Greeting { given_lang: lang },
    }
}

/// Building with the runner `r`, or, where its run is over, ending: with 0
/// on success, and with the reason and 1 on failure.
pub open spec fn building(r: RunnerModel) -> StageModel {
    match r.phase {
        PhaseOf::Finished { outcome } => match outcome {
            Ok(()) => StageOf::Done { code: 0 },
            Err(reason) => failing(reason),
        },
        _ => StageOf::Building { runner: r },
    }
}

/// The stage that follows the announcement: building the project in its
/// language, or an error for an unknown language.
pub open spec fn dispatch(name: Seq<char>, lang: LanguageModel, git: bool) -> StageModel {
    match lang {
        LanguageOf::C => building(start_at(c_project_steps(name, git), 0)),
        LanguageOf::Cpp => building(start_at(cpp_project_steps(name, git), 0)),
        LanguageOf::Other { text } => failing(unknown_language_text(text)),
    }
}

/// The action that the session asks for in the state `s`.
pub open spec fn session_pending(s: SessionModel) -> ActionModel {
    match s.stage {
        StageOf::Greeting { .. } => ActionOf::Show { line: rendered(Tone::Progress, INTERACTIVE@) },
        StageOf::AskingName { .. } => ActionOf::Ask { prompt: rendered_prompt(ASK_NAME@) },
        StageOf::AskingLang { .. } => ActionOf::Ask { prompt: rendered_prompt(ASK_LANG@) },
        StageOf::Checking { name, .. } => ActionOf::Probe { path: name },
        StageOf::Warning { name, .. } => ActionOf::Show { line: rendered(Tone::Caution, exists_text(name)) },
        StageOf::Confirming { .. } => ActionOf::Ask { prompt: rendered_prompt(ASK_CONTINUE@) },
        StageOf::Creating { name, .. } => ActionOf::MakeDir { path: name },
        StageOf::Entering { name, .. } => ActionOf::EnterDir { path: name },
        StageOf::Locating { .. } => ActionOf::WhereAmI,
        StageOf::Announcing { name, place, .. } => ActionOf::Show {
            line: rendered(Tone::Progress, creating_text(name, place)),
        },
        StageOf::Building { runner } => match pending(runner) {
            DirectiveOf::Do { action } => action,
            DirectiveOf::Finish { .. } => ActionOf::Exit { code: 0 },
        },
        StageOf::Stopping { line, to_error, .. } => if to_error {
            ActionOf::Complain { line }
        } else {
            ActionOf::Show { line }
        },
        StageOf::Done { code } => ActionOf::Exit { code },
    }
}

/// The stage after the event `e` in the state `s`. An event that does not
/// answer the pending action leaves the state as it is, so that the same
/// action is asked for again.
pub open spec fn next_stage(s: SessionModel, e: EventModel) -> StageModel {
    match (s.stage, e) {
        (StageOf::Greeting { given_lang }, EventOf::Ack) => StageOf::AskingName { given_lang },
        (StageOf::AskingName { given_lang }, EventOf::Answer { line }) => after_name(trimmed(line), given_lang),
        (StageOf::AskingLang { name }, EventOf::Answer { line }) => after_lang(name, trimmed(line)),
        (StageOf::Checking { name, lang }, EventOf::Exists { found }) => if found {
            StageOf::Warning { name, lang }
        } else {
            StageOf::Creating { name, lang }
        },
        (StageOf::Warning { name, lang }, EventOf::Ack) => StageOf::Confirming { name, lang },
        (StageOf::Confirming { name, lang }, EventOf::Answer { line }) => if agrees(trimmed(line)) {
            StageOf::Creating { name, lang }
        } else {
            StageOf::Stopping { line: rendered(Tone::Progress, CANCELLED@), to_error: false, code: 0 }
        },
        (StageOf::Creating { name, lang }, EventOf::Ack) => StageOf::Entering { name, lang },
        (StageOf::Creating { name, .. }, EventOf::Failed { detail }) => failing(
            root_failure_text(name, detail),
        ),
        (StageOf::Entering { name, lang }, EventOf::Ack) => StageOf::Locating { name, lang },
        (StageOf::Entering { name, .. }, EventOf::Failed { detail }) => failing(
            enter_failure_text(name, detail),
        ),
        (StageOf::Locating { name, lang }, EventOf::Location { path }) => StageOf::Announcing {
            name,
            lang,
            place: path,
        },
        (StageOf::Announcing { name, lang, .. }, EventOf::Ack) => dispatch(name, lang, s.git),
        (StageOf::Building { runner }, e) => building(next_state(runner, e)),
        (StageOf::Stopping { code, .. }, EventOf::Ack) => StageOf::Done { code },
        _ => s.stage,
    }
}

/// The session after the event `e` in the state `s`.
pub open spec fn next_session(s: SessionModel, e: EventModel) -> SessionModel {
    SessionModel { git: s.git, stage: next_stage(s, e) }
}

impl SessionModel {
    /// The state is consistent: a runner that is building has not ended its run.
    pub open spec fn wf(self) -> bool {
        match self.stage {
            StageOf::Building { runner } => !runner.is_finished(),
            _ => true,
        }
    }
}

/// Stopping with an error line and the exit code 1.
fn failing_stage(text: &str) -> (res: Stage)
    ensures
        res@ == failing(text@),
{
    StageOf::Stopping { line: render_line(Tone::Failure, text), to_error: true, code: 1 }
}

/// Once the name and the raw language are known.
fn after_lang_stage(name: String, raw: &str) -> (res: Stage)
    ensures
        res@ == after_lang(name@, raw@),
{
    if name.as_str().is_empty() {
        failing_stage(EMPTY_NAME)
    } else {
        StageOf::Checking { name, lang: parse_language(raw) }
    }
}

/// Once the name is known.
fn after_name_stage(name: String, lang: Option<String>) -> (res: Stage)
    ensures
        res@ == after_name(name@, option_view(lang)),
{
    match lang {
        Some(raw) => after_lang_stage(name, raw.as_str()),
        None => StageOf::AskingLang { name },
    }
}

/// Building with `runner`, or ending where its run is over.
fn building_stage(runner: Runner) -> (res: Stage)
    ensures
        res@ == building(runner@),
        (SessionModel { git: true, stage: res@ }).wf(),
{
    match runner.outcome() {
        Some(Ok(())) => StageOf::Done { code: 0 },
        Some(Err(reason)) => failing_stage(reason.as_str()),
        None => StageOf::Building { runner },
    }
}

/// Building the project `name` in `lang`, or an error for an unknown language.
fn dispatch_stage(name: &str, lang: Language, git: bool) -> (res: Stage)
    ensures
        res@ == dispatch(name@, lang@, git),
        (SessionModel { git, stage: res@ }).wf(),
{
    match lang {
        LanguageOf::C => building_stage(Runner::new(create_c_project(name, git))),
        LanguageOf::Cpp => building_stage(Runner::new(create_cpp_project(name, git))),
        LanguageOf::Other { text } => {
            let reason = concat3("Lenguaje desconocido: '", text.as_str(), "'. Usa C, C++ o CPP.");
            failing_stage(reason.as_str())
        },
    }
}

impl Session {
    /// A runner that the session holds has not ended its run.
    #[verifier::type_invariant]
    closed spec fn consistent(self) -> bool {
        self@.wf()
    }

    /// A session for the arguments given: the name, the language, and
    /// whether git set-up was turned off.
    pub fn new(name: Option<String>, lang: Option<String>, no_git: bool) -> (res: Session)
        ensures
            res@ == (SessionModel { git: !no_git, stage: opening(option_view(name), option_view(lang)) }),
    {
        let stage = match name {
            Some(n) => after_name_stage(n, lang),
            None => StageOf::Greeting { given_lang: lang },
        };
        Session { git: !no_git, stage }
    }

    /// The action that the session asks for now.
    pub fn pending(&self) -> (res: Action)
        ensures
            res@ == session_pending(self@),
    {
        match &self.stage {
            StageOf::Greeting { .. } => ActionOf::Show { line: render_line(Tone::Progress, INTERACTIVE) },
            StageOf::AskingName { .. } => ActionOf::Ask { prompt: render_prompt(ASK_NAME) },
            StageOf::AskingLang { .. } => ActionOf::Ask { prompt: render_prompt(ASK_LANG) },
            StageOf::Checking { name, .. } => ActionOf::Probe { path: name.clone() },
            StageOf::Warning { name, .. } => {
                let text = concat3("El directorio '", name.as_str(), "' ya existe.");
                ActionOf::Show { line: render_line(Tone::Caution, text.as_str()) }
            },
            StageOf::Confirming { .. } => ActionOf::Ask { prompt: render_prompt(ASK_CONTINUE) },
            StageOf::Creating { name, .. } => ActionOf::MakeDir { path: name.clone() },
            StageOf::Entering { name, .. } => ActionOf::EnterDir { path: name.clone() },
            StageOf::Locating { .. } => ActionOf::WhereAmI,
            StageOf::Announcing { name, place, .. } => {
                let shown = debug_path(place.as_str());
                let mut text = concat3("Creando proyecto '", name.as_str(), "' en ");
                text.append(shown.as_str());
                text.append("...");
                ActionOf::Show { line: render_line(Tone::Progress, text.as_str()) }
            },
            StageOf::Building { runner } => match runner.pending() {
                DirectiveOf::Do { action } => action,
                DirectiveOf::Finish { .. } => ActionOf::Exit { code: 0 },
            },
            StageOf::Stopping { line, to_error, .. } => if *to_error {
                ActionOf::Complain { line: line.clone() }
            } else {
                ActionOf::Show { line: line.clone() }
            },
            StageOf::Done { code } => ActionOf::Exit { code: *code },
        }
    }

    /// Takes in the outcome `event` of the last action, and says which
    /// action the session asks for next.
    pub fn advance(&mut self, event: Event) -> (res: Action)
        ensures
            final(self)@ == next_session(old(self)@, event@),
            res@ == session_pending(final(self)@),
    {
        let ghost before = self@;
        let mut stage: Stage = StageOf::Done { code: 0 };
        std::mem::swap(&mut stage, &mut self.stage);
        assert(stage@ == before.stage);
        let next: Stage = match (stage, event) {
            (StageOf::Greeting { given_lang }, EventOf::Ack) => StageOf::AskingName { given_lang },
            (StageOf::AskingName { given_lang }, EventOf::Answer { line }) => {
                let name = trim_text(line.as_str());
                after_name_stage(name, given_lang)
            },
            (StageOf::AskingLang { name }, EventOf::Answer { line }) => {
                let raw = trim_text(line.as_str());
                after_lang_stage(name, raw.as_str())
            },
            (StageOf::Checking { name, lang }, EventOf::Exists { found }) => if found {
                StageOf::Warning { name, lang }
            } else {
                StageOf::Creating { name, lang }
            },
            (StageOf::Warning { name, lang }, EventOf::Ack) => StageOf::Confirming { name, lang },
            (StageOf::Confirming { name, lang }, EventOf::Answer { line }) => {
                let answer = trim_text(line.as_str());
                if accepts(answer.as_str()) {
                    StageOf::Creating { name, lang }
                } else {
                    StageOf::Stopping {
                        line: render_line(Tone::Progress, CANCELLED),
                        to_error: false,
                        code: 0,
                    }
                }
            },
            (StageOf::Creating { name, lang }, EventOf::Ack) => StageOf::Entering { name, lang },
            (StageOf::Creating { name, .. }, EventOf::Failed { detail }) => {
                let text = around_then("No se pudo crear el directorio '", name.as_str(), "': ", detail.as_str());
                failing_stage(text.as_str())
            },
            (StageOf::Entering { name, lang }, EventOf::Ack) => StageOf::Locating { name, lang },
            (StageOf::Entering { name, .. }, EventOf::Failed { detail }) => {
                let text = around_then("No se pudo entrar en '", name.as_str(), "': ", detail.as_str());
                failing_stage(text.as_str())
            },
            (StageOf::Locating { name, lang }, EventOf::Location { path }) => StageOf::Announcing {
                name,
                lang,
                place: path,
            },
            (StageOf::Announcing { name, lang, .. }, EventOf::Ack) => dispatch_stage(name.as_str(), lang, self.git),
            (StageOf::Building { mut runner }, e) => {
                runner.advance(e);
                building_stage(runner)
            },
            (StageOf::Stopping { code, .. }, EventOf::Ack) => StageOf::Done { code },
            (other, _) => other,
        };
        self.stage = next;
        self.pending()
    }
}

} // verus!
