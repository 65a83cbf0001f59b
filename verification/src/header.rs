//! Where `nob.h` is looked for, in order.

use vstd::prelude::*;
use crate::paths::{parent_of, joined_path, parent_dir, join_path};
use crate::protocol::option_view;

verus! {

/// The environment variable that may name the header.
pub const HEADER_VARIABLE: &'static str = "NOB_PATH";

/// The file name of the header, and the name of its copy in a project.
pub const HEADER_FILE: &'static str = "nob.h";

/// The directory of the system-wide copy of the header.
pub const SYSTEM_DIR: &'static str = "/usr/local/share/InitProject/";

/// The directory of the running program: the parent of its path, or `.`
/// where the path has no parent.
pub open spec fn program_dir(executable: Seq<char>) -> Seq<char> {
    match parent_of(executable) {
        Some(p) => p,
        None => "."@,
    }
}

/// The places where `file` is looked for, in the order in which they are
/// tried, once the paths beside the program and in the working directory
/// are known: the value of the environment variable where it is set; beside
/// the running program where its path is known; the system directory; and
/// the working directory.
pub open spec fn places(
    variable: Option<Seq<char>>,
    beside_program: Option<Seq<char>>,
    in_working_dir: Seq<char>,
    file: Seq<char>,
) -> Seq<Seq<char>> {
    let from_variable: Seq<Seq<char>> = match variable {
        Some(v) => seq![v],
        None => Seq::empty(),
    };
    let from_program: Seq<Seq<char>> = match beside_program {
        Some(p) => seq![p],
        None => Seq::empty(),
    };
    from_variable + from_program + seq![SYSTEM_DIR@ + file, in_working_dir]
}

/// The places where `file` is looked for, from what the program knows: the
/// environment variable's value, the program's path and the working directory
/// (an empty path where it is unknown).
pub open spec fn candidates(
    variable: Option<Seq<char>>,
    executable: Option<Seq<char>>,
    current: Option<Seq<char>>,
    file: Seq<char>,
) -> Seq<Seq<char>> {
    let beside_program: Option<Seq<char>> = match executable {
        Some(e) => Some(joined_path(program_dir(e), file)),
        None => None,
    };
    let working: Seq<char> = match current {
        Some(c) => c,
        None => Seq::empty(),
    };
    places(variable, beside_program, joined_path(working, file), file)
}

/// The places where `file` is looked for, once the paths beside the
/// program and in the working directory are known.
pub fn place_list(
    variable: Option<String>,
    beside_program: Option<String>,
    in_working_dir: String,
    file: &str,
) -> (res: Vec<String>)
    ensures
        res.deep_view() == places(option_view(variable), option_view(beside_program), in_working_dir@, file@),
{
    let ghost v_view = option_view(variable);
    let ghost p_view = option_view(beside_program);
    let mut res: Vec<String> = Vec::new();
    match variable {
        Some(v) => res.push(v),
        None => {},
    }
    match beside_program {
        Some(p) => res.push(p),
        None => {},
    }
    let mut system = String::from_str(SYSTEM_DIR);
    system.append(file);
    res.push(system);
    res.push(in_working_dir);
    assert(res.deep_view() =~= places(v_view, p_view, in_working_dir@, file@));
    res
}

/// The places where `file` is looked for, in the order in which they are tried.
pub fn header_candidates(
    variable: Option<String>,
    executable: Option<String>,
    current: Option<String>,
    file: &str,
) -> (res: Vec<String>)
    ensures
        res.deep_view() == candidates(
            option_view(variable),
            option_view(executable),
            option_view(current),
            file@,
        ),
{
    let beside_program = match executable {
        Some(e) => {
            let dir = match parent_dir(e.as_str()) {
                Some(p) => p,
                None => String::from_str("."),
            };
            Some(join_path(dir.as_str(), file))
        },
        None => None,
    };
    let working = match current {
        Some(c) => c,
        None => String::new(),
    };
    let in_working_dir = join_path(working.as_str(), file);
    place_list(variable, beside_program, in_working_dir, file)
}

} // verus!
