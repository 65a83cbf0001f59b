//! The texts of the lines that report on a run: what succeeded, and why a
//! step failed.

use vstd::prelude::*;
use crate::strings::concat3;
use crate::strings::{joined, decimal_text, join_with, decimal_of_i32};
use crate::paths::{path_debug_text, debug_path};

verus! {

/// Why creating the directory `path` failed, given the system's reason.
pub open spec fn mkdir_failure_text(path: Seq<char>, detail: Seq<char>) -> Seq<char> {
    "mkdir "@ + path + ": "@ + detail
}

/// Why creating the directory `path` failed, given the system's reason.
pub fn mkdir_failure(path: &str, detail: &str) -> (res: String)
    ensures
        res@ == mkdir_failure_text(path@, detail@),
{
    let mut s = concat3("mkdir ", path, ": ");
    s.append(detail);
    s
}

/// Why writing the file `path` failed, given the system's reason.
pub open spec fn write_failure_text(path: Seq<char>, detail: Seq<char>) -> Seq<char> {
    "Error escribiendo "@ + path + ": "@ + detail
}

/// Why writing the file `path` failed, given the system's reason.
pub fn write_failure(path: &str, detail: &str) -> (res: String)
    ensures
        res@ == write_failure_text(path@, detail@),
{
    let mut s = concat3("Error escribiendo ", path, ": ");
    s.append(detail);
    s
}

/// The report that the file `path` was written.
pub open spec fn written_text(path: Seq<char>) -> Seq<char> {
    "Creado: "@ + path
}

/// The report that the file `path` was written.
pub fn written(path: &str) -> (res: String)
    ensures
        res@ == written_text(path@),
{
    let mut s = String::from_str("Creado: ");
    s.append(path);
    s
}

/// A command line as the messages show it: the program, a space, and the
/// arguments separated by spaces.
pub open spec fn command_text(program: Seq<char>, args: Seq<Seq<char>>) -> Seq<char> {
    program + " "@ + joined(args, " "@)
}

/// A command line as the messages show it.
pub fn command_line(program: &str, args: &Vec<String>) -> (res: String)
    ensures
        res@ == command_text(program@, args.deep_view()),
{
    let rest = join_with(args, " ");
    concat3(program, " ", rest.as_str())
}

/// Why a command could not be started, given the system's reason.
pub open spec fn spawn_failure_text(program: Seq<char>, args: Seq<Seq<char>>, detail: Seq<char>) -> Seq<char> {
    "No se pudo ejecutar '"@ + command_text(program, args) + "': "@ + detail
}

/// Why a command could not be started, given the system's reason.
pub fn spawn_failure(program: &str, args: &Vec<String>, detail: &str) -> (res: String)
    ensures
        res@ == spawn_failure_text(program@, args.deep_view(), detail@),
{
    let cmd = command_line(program, args);
    let mut s = concat3("No se pudo ejecutar '", cmd.as_str(), "': ");
    s.append(detail);
    s
}

/// The exit code that a failed command is reported with: its own, or -1
/// where it has none (it was ended by a signal).
pub open spec fn reported_code(code: Option<i32>) -> int {
    match code {
        Some(c) => c as int,
        None => -1,
    }
}

/// Why a command that ran is counted as failed: it ended unsuccessfully.
pub open spec fn exit_failure_text(program: Seq<char>, args: Seq<Seq<char>>, code: Option<i32>) -> Seq<char> {
    "'"@ + command_text(program, args) + "' salió con código "@ + decimal_text(reported_code(code))
}

/// Why a command that ran is counted as failed: it ended unsuccessfully.
pub fn exit_failure(program: &str, args: &Vec<String>, code: Option<i32>) -> (res: String)
    ensures
        res@ == exit_failure_text(program@, args.deep_view(), code),
{
    let cmd = command_line(program, args);
    let shown: i32 = match code {
        Some(c) => c,
        None => -1,
    };
    let number = decimal_of_i32(shown);
    let mut s = concat3("'", cmd.as_str(), "' salió con código ");
    s.append(number.as_str());
    s
}

/// Why the project could not start: no copy of `nob.h` was found.
pub const HEADER_MISSING: &'static str = "ERROR @ No se encontró nob.h. Usa NOB_PATH o instálalo en /usr/local/share/InitProject/";

/// Why copying the header from `from` to `to` failed, given the system's reason.
pub open spec fn copy_failure_text(from: Seq<char>, to: Seq<char>, detail: Seq<char>) -> Seq<char> {
    "No se pudo copiar "@ + path_debug_text(from) + " → "@ + to + ": "@ + detail
}

/// Why copying the header from `from` to `to` failed, given the system's reason.
pub fn copy_failure(from: &str, to: &str, detail: &str) -> (res: String)
    ensures
        res@ == copy_failure_text(from@, to@, detail@),
{
    let shown = debug_path(from);
    let mut s = concat3("No se pudo copiar ", shown.as_str(), " → ");
    s.append(to);
    s.append(": ");
    s.append(detail);
    s
}

/// The report that the header was copied from `from`.
pub open spec fn copied_text(from: Seq<char>) -> Seq<char> {
    "nob.h copiado desde "@ + path_debug_text(from)
}

/// The report that the header was copied from `from`.
pub fn copied(from: &str) -> (res: String)
    ensures
        res@ == copied_text(from@),
{
    let shown = debug_path(from);
    let mut s = String::from_str("nob.h copiado desde ");
    s.append(shown.as_str());
    s
}

/// The report that the git repository was set up.
pub const GIT_READY: &'static str = "Repositorio git inicializado en rama 'main'.";

/// The report that a project in `lang` named `name` is complete.
pub open spec fn project_done_text(lang: Seq<char>, name: Seq<char>) -> Seq<char> {
    "Proyecto "@ + lang + " '"@ + name + "' creado con éxito."@
}

/// The report that a project in `lang` named `name` is complete.
pub fn project_done(lang: &str, name: &str) -> (res: String)
    ensures
        res@ == project_done_text(lang@, name@),
{
    let mut s = concat3("Proyecto ", lang, " '");
    s.append(name);
    s.append("' creado con éxito.");
    s
}

} // verus!
