//! The steps that build a new project, in the order in which they run.

use vstd::prelude::*;
use crate::strings::concat3;
use crate::templates::{
    makefile, makefile_text, c_main_source, c_main_source_text, c_module_source,
    c_module_source_text, c_header, c_header_text, c_nob_source, c_nob_source_text, test_script,
    cmake_lists, cmake_lists_text, cpp_main_source, cpp_main_source_text, cpp_module_source,
    cpp_module_source_text, cpp_header, cpp_header_text, cpp_nob_source, cpp_nob_source_text,
    TEST_PY, readme, readme_text, GITIGNORE_C, GITIGNORE_CPP,
};
use crate::unicode::{uppercased, upper_text};
use crate::messages::{GIT_READY, project_done_text, project_done};

verus! {

/// One step of building a project. `S` is the type of a text and `L` that of
/// a list of texts: `Step` holds `String`s, and its view, `StepModel`, holds
/// sequences of characters.
#[derive(PartialEq, Eq, Debug)]
pub enum StepOf<S, L> {
    /// Create the directory `path` and its parents.
    MakeDir { path: S },
    /// Find `nob.h` and copy it into the project as `nob.h`.
    InstallHeader,
    /// Write `content` into the file `path`.
    Write { path: S, content: S },
    /// Run `program` with `args`; a failed run fails the project.
    Run { program: S, args: L },
    /// Report `text` as a success.
    Announce { text: S },
}

/// A step with its texts held as `String`s.
pub type Step = StepOf<String, Vec<String>>;

/// A step with its texts held as sequences of characters.
pub type StepModel = StepOf<Seq<char>, Seq<Seq<char>>>;

impl View for StepOf<String, Vec<String>> {
    type V = StepModel;

    open spec fn view(&self) -> StepModel {
        match self {
            StepOf::MakeDir { path } => StepOf::MakeDir { path: path@ },
            StepOf::InstallHeader => StepOf::InstallHeader,
            StepOf::Write { path, content } => StepOf::Write { path: path@, content: content@ },
            StepOf::Run { program, args } => StepOf::Run { program: program@, args: args.deep_view() },
            StepOf::Announce { text } => StepOf::Announce { text: text@ },
        }
    }
}

/// The views of a list of steps.
pub open spec fn steps_view(steps: Seq<Step>) -> Seq<StepModel> {
    steps.map_values(|s: Step| s@)
}

/// The list holding the one text `a`.
fn texts1(a: &str) -> (res: Vec<String>)
    ensures
        res.deep_view() == seq![a@],
{
    let mut res: Vec<String> = Vec::new();
    res.push(String::from_str(a));
    assert(res.deep_view() =~= seq![a@]);
    res
}

/// The list holding the texts `a`, `b` and `c`, in this order.
fn texts3(a: &str, b: &str, c: &str) -> (res: Vec<String>)
    ensures
        res.deep_view() == seq![a@, b@, c@],
{
    let mut res: Vec<String> = Vec::new();
    res.push(String::from_str(a));
    res.push(String::from_str(b));
    res.push(String::from_str(c));
    assert(res.deep_view() =~= seq![a@, b@, c@]);
    res
}

/// The list holding the texts `a` and `b`, in this order.
fn texts2(a: &str, b: &str) -> (res: Vec<String>)
    ensures
        res.deep_view() == seq![a@, b@],
{
    let mut res: Vec<String> = Vec::new();
    res.push(String::from_str(a));
    res.push(String::from_str(b));
    assert(res.deep_view() =~= seq![a@, b@]);
    res
}

/// The list holding the texts `a`, `b`, `c` and `d`, in this order.
fn texts4(a: &str, b: &str, c: &str, d: &str) -> (res: Vec<String>)
    ensures
        res.deep_view() == seq![a@, b@, c@, d@],
{
    let mut res: Vec<String> = Vec::new();
    res.push(String::from_str(a));
    res.push(String::from_str(b));
    res.push(String::from_str(c));
    res.push(String::from_str(d));
    assert(res.deep_view() =~= seq![a@, b@, c@, d@]);
    res
}

/// The step that runs `program` with the arguments `args`.
pub open spec fn run_model(program: Seq<char>, args: Seq<Seq<char>>) -> StepModel {
    StepOf::Run { program, args }
}

/// The step that runs `program` with the arguments `args`.
fn run_step(program: &str, args: Vec<String>) -> (res: Step)
    ensures
        res@ == run_model(program@, args.deep_view()),
{
    StepOf::Run { program: String::from_str(program), args }
}

/// The step that writes `content` into `path`.
fn write_step(path: String, content: String) -> (res: Step)
    ensures
        res@ == (StepModel::Write { path: path@, content: content@ }),
{
    StepOf::Write { path, content }
}

/// The step that writes the `README.md` of a project named `name` in `lang`.
pub open spec fn readme_step(name: Seq<char>, lang: Seq<char>) -> StepModel {
    StepOf::Write { path: "README.md"@, content: readme_text(name, lang) }
}

/// The step that writes the `README.md` of a project named `name` in `lang`.
pub fn write_readme(name: &str, lang: &str) -> (res: Step)
    ensures
        res@ == readme_step(name@, lang@),
{
    write_step(String::from_str("README.md"), readme(name, lang))
}

/// The step that writes the `.gitignore` of a C project.
pub open spec fn gitignore_c_step() -> StepModel {
    StepOf::Write { path: ".gitignore"@, content: GITIGNORE_C@ }
}

/// The step that writes the `.gitignore` of a C project.
pub fn write_gitignore_c() -> (res: Step)
    ensures
        res@ == gitignore_c_step(),
{
    write_step(String::from_str(".gitignore"), String::from_str(GITIGNORE_C))
}

/// The step that writes the `.gitignore` of a C++ project.
pub open spec fn gitignore_cpp_step() -> StepModel {
    StepOf::Write { path: ".gitignore"@, content: GITIGNORE_CPP@ }
}

/// The step that writes the `.gitignore` of a C++ project.
pub fn write_gitignore_cpp() -> (res: Step)
    ensures
        res@ == gitignore_cpp_step(),
{
    write_step(String::from_str(".gitignore"), String::from_str(GITIGNORE_CPP))
}

/// The steps that set up a git repository on the branch `main`.
pub open spec fn git_steps() -> Seq<StepModel> {
    seq![
        run_model("git"@, seq!["init"@]),
        run_model("git"@, seq!["branch"@, "-m"@, "main"@]),
        StepOf::Announce { text: GIT_READY@ },
    ]
}

/// The steps that set up a git repository on the branch `main`.
pub fn init_git() -> (res: Vec<Step>)
    ensures
        steps_view(res@) == git_steps(),
{
    let mut res: Vec<Step> = Vec::new();
    res.push(run_step("git", texts1("init")));
    res.push(run_step("git", texts3("branch", "-m", "main")));
    res.push(StepOf::Announce { text: String::from_str(GIT_READY) });
    assert(steps_view(res@) =~= git_steps());
    res
}

/// The steps of git set-up where they are asked for, and none otherwise.
pub open spec fn git_part(git: bool) -> Seq<StepModel> {
    if git { git_steps() } else { Seq::empty() }
}

/// The steps that build a C project named `name`, whose header guard uses
/// `upper`, with or without git.
pub open spec fn c_plan_steps(name: Seq<char>, upper: Seq<char>, git: bool) -> Seq<StepModel> {
    seq![
        StepOf::MakeDir { path: "src"@ },
        StepOf::MakeDir { path: "include"@ },
        StepOf::MakeDir { path: "test"@ },
        StepOf::MakeDir { path: "bin"@ },
        StepOf::InstallHeader,
        StepOf::Write { path: "Makefile"@, content: makefile_text(name) },
        StepOf::Write { path: "src/main.c"@, content: c_main_source_text(name) },
        StepOf::Write { path: "src/"@ + name + ".c"@, content: c_module_source_text(name) },
        StepOf::Write { path: "include/"@ + name + ".h"@, content: c_header_text(upper) },
        StepOf::Write { path: "nob.c"@, content: c_nob_source_text(name) },
        StepOf::Write { path: "test/test.py"@, content: TEST_PY@ },
        readme_step(name, "C"@),
        gitignore_c_step(),
        run_model("make"@, seq!["all"@]),
        run_model("make"@, seq!["lib"@]),
        run_model("make"@, seq!["clean"@]),
        run_model("make"@, seq!["run"@]),
    ] + git_part(git) + seq![StepOf::Announce { text: project_done_text("C"@, name) }]
}

/// The steps that build a C project named `name`, with or without git: the
/// header guard uses the upper-case form of the name.
pub open spec fn c_project_steps(name: Seq<char>, git: bool) -> Seq<StepModel> {
    c_plan_steps(name, uppercased(name), git)
}

/// Appends the git steps to `steps` where `git` asks for them.
fn push_git_part(steps: &mut Vec<Step>, git: bool)
    ensures
        steps_view(final(steps)@) == steps_view(old(steps)@) + git_part(git),
{
    if git {
        let mut more = init_git();
        let ghost before = steps@;
        steps.append(&mut more);
        assert(steps_view(steps@) =~= steps_view(before) + git_steps());
    } else {
        assert(steps_view(steps@) =~= steps_view(steps@) + git_part(git));
    }
}

/// The steps that build a C project named `name`, whose header guard uses
/// `upper`: its directories, `nob.h`, its files, a first build and test
/// library, a run, and git where `git` is set.
pub fn c_project_plan(name: &str, upper: &str, git: bool) -> (res: Vec<Step>)
    ensures
        steps_view(res@) == c_plan_steps(name@, upper@, git),
{
    let mut steps: Vec<Step> = Vec::new();
    steps.push(StepOf::MakeDir { path: String::from_str("src") });
    steps.push(StepOf::MakeDir { path: String::from_str("include") });
    steps.push(StepOf::MakeDir { path: String::from_str("test") });
    steps.push(StepOf::MakeDir { path: String::from_str("bin") });
    steps.push(StepOf::InstallHeader);
    steps.push(write_step(String::from_str("Makefile"), makefile(name)));
    steps.push(write_step(String::from_str("src/main.c"), c_main_source(name)));
    steps.push(write_step(concat3("src/", name, ".c"), c_module_source(name)));
    steps.push(write_step(concat3("include/", name, ".h"), c_header(upper)));
    steps.push(write_step(String::from_str("nob.c"), c_nob_source(name)));
    steps.push(write_step(String::from_str("test/test.py"), test_script()));
    steps.push(write_readme(name, "C"));
    steps.push(write_gitignore_c());
    steps.push(run_step("make", texts1("all")));
    steps.push(run_step("make", texts1("lib")));
    steps.push(run_step("make", texts1("clean")));
    steps.push(run_step("make", texts1("run")));
    let ghost fixed = steps@;
    push_git_part(&mut steps, git);
    let ghost with_git = steps@;
    steps.push(StepOf::Announce { text: project_done("C", name) });
    proof {
        assert(steps_view(fixed) =~= c_plan_steps(name@, upper@, git).take(17));
        assert(steps_view(steps@) =~= steps_view(with_git) + seq![StepOf::Announce { text: project_done_text("C"@, name@) }]);
        assert(steps_view(steps@) =~= c_plan_steps(name@, upper@, git));
    }
    steps
}

/// The steps that build a C project named `name`, with or without git.
pub fn create_c_project(name: &str, git: bool) -> (res: Vec<Step>)
    ensures
        steps_view(res@) == c_project_steps(name@, git),
{
    let upper = upper_text(name);
    c_project_plan(name, upper.as_str(), git)
}

/// The steps that build a C++ project named `name`, whose header guard uses
/// `upper`, with or without git.
pub open spec fn cpp_plan_steps(name: Seq<char>, upper: Seq<char>, git: bool) -> Seq<StepModel> {
    seq![
        StepOf::MakeDir { path: "src"@ },
        StepOf::MakeDir { path: "include"@ },
        StepOf::MakeDir { path: "test"@ },
        StepOf::MakeDir { path: "build"@ },
        StepOf::InstallHeader,
        StepOf::Write { path: "CMakeLists.txt"@, content: cmake_lists_text(name) },
        StepOf::Write { path: "src/main.cpp"@, content: cpp_main_source_text(name) },
        StepOf::Write { path: "src/"@ + name + ".cpp"@, content: cpp_module_source_text(name) },
        StepOf::Write { path: "include/"@ + name + ".h"@, content: cpp_header_text(upper) },
        StepOf::Write { path: "nob.c"@, content: cpp_nob_source_text(name) },
        readme_step(name, "C++"@),
        gitignore_cpp_step(),
        run_model("cmake"@, seq!["-S"@, "."@, "-B"@, "build"@]),
        run_model("cmake"@, seq!["--build"@, "build"@]),
    ] + git_part(git) + seq![StepOf::Announce { text: project_done_text("C++"@, name) }]
}

/// The steps that build a C++ project named `name`, with or without git:
/// the header guard uses the upper-case form of the name.
pub open spec fn cpp_project_steps(name: Seq<char>, git: bool) -> Seq<StepModel> {
    cpp_plan_steps(name, uppercased(name), git)
}

/// The steps that build a C++ project named `name`, whose header guard uses
/// `upper`: its directories, `nob.h`, its files, a CMake configuration and
/// build, and git where `git` is set.
pub fn cpp_project_plan(name: &str, upper: &str, git: bool) -> (res: Vec<Step>)
    ensures
        steps_view(res@) == cpp_plan_steps(name@, upper@, git),
{
    let mut steps: Vec<Step> = Vec::new();
    steps.push(StepOf::MakeDir { path: String::from_str("src") });
    steps.push(StepOf::MakeDir { path: String::from_str("include") });
    steps.push(StepOf::MakeDir { path: String::from_str("test") });
    steps.push(StepOf::MakeDir { path: String::from_str("build") });
    steps.push(StepOf::InstallHeader);
    steps.push(write_step(String::from_str("CMakeLists.txt"), cmake_lists(name)));
    steps.push(write_step(String::from_str("src/main.cpp"), cpp_main_source(name)));
    steps.push(write_step(concat3("src/", name, ".cpp"), cpp_module_source(name)));
    steps.push(write_step(concat3("include/", name, ".h"), cpp_header(upper)));
    steps.push(write_step(String::from_str("nob.c"), cpp_nob_source(name)));
    steps.push(write_readme(name, "C++"));
    steps.push(write_gitignore_cpp());
    steps.push(run_step("cmake", texts4("-S", ".", "-B", "build")));
    steps.push(run_step("cmake", texts2("--build", "build")));
    let ghost fixed = steps@;
    push_git_part(&mut steps, git);
    let ghost with_git = steps@;
    steps.push(StepOf::Announce { text: project_done("C++", name) });
    proof {
        assert(steps_view(fixed) =~= cpp_plan_steps(name@, upper@, git).take(14));
        assert(steps_view(steps@) =~= steps_view(with_git) + seq![StepOf::Announce { text: project_done_text("C++"@, name@) }]);
        assert(steps_view(steps@) =~= cpp_plan_steps(name@, upper@, git));
    }
    steps
}

/// The steps that build a C++ project named `name`, with or without git.
pub fn create_cpp_project(name: &str, git: bool) -> (res: Vec<Step>)
    ensures
        steps_view(res@) == cpp_project_steps(name@, git),
{
    let upper = upper_text(name);
    cpp_project_plan(name, upper.as_str(), git)
}

} // verus!
