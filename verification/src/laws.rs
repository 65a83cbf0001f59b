//! Properties of the runner, the plans and the session that hold for every
//! input, stated over the spec functions that the executable contracts use.

use vstd::prelude::*;
use crate::plan::{StepOf, StepModel, run_model, c_project_steps, cpp_project_steps, c_plan_steps, cpp_plan_steps, git_steps};
use crate::protocol::{ActionOf, ActionModel, EventOf, EventModel};
use crate::runner::{RunnerModel, PhaseOf, PhaseModel, DirectiveOf, DirectiveModel, pending, next_state, start_at, is_work};
use crate::display::{Tone, rendered, rendered_prompt};
use crate::messages::{exit_failure_text, copy_failure_text, HEADER_MISSING};
use crate::templates::{
    MAKEFILE_0, MAKEFILE_1, C_MAIN_0, C_MAIN_1, C_SOURCE_0, C_SOURCE_1, C_HEADER_0, C_HEADER_1, C_HEADER_2,
    C_NOB_0, C_NOB_1, CMAKE_0, CMAKE_1, CMAKE_2, CMAKE_3, CPP_MAIN_0, CPP_MAIN_1, CPP_MAIN_2, CPP_SOURCE_0,
    CPP_SOURCE_1, CPP_SOURCE_2, CPP_HEADER_0, CPP_HEADER_1, CPP_HEADER_2, CPP_NOB_0, CPP_NOB_1,
};
use crate::header::HEADER_FILE;
use crate::session::{
    SessionModel, StageOf, session_pending, next_session, after_lang, failing,
    building, dispatch, agrees, LanguageOf, LanguageModel, EMPTY_NAME, CANCELLED, unknown_language_text,
    StageModel, opening, language_named, INTERACTIVE, ASK_NAME, ASK_LANG,
};
use crate::unicode::{trimmed, uppercased};

verus! {

/// Steps run in order: whatever the event, the runner stays on the current
/// step or moves to the next one, never skipping or going back, and its
/// steps do not change. Its state stays consistent.
pub proof fn runner_keeps_order(r: RunnerModel, e: EventModel)
    requires
        r.wf(),
    ensures
        next_state(r, e).wf(),
        next_state(r, e).plan == r.plan,
        next_state(r, e).pos == r.pos || next_state(r, e).pos == r.pos + 1,
{
}

/// A finished run stays finished: no event makes the runner ask for more
/// work, and its outcome does not change.
pub proof fn finished_run_stays(r: RunnerModel, e: EventModel)
    requires
        r.is_finished(),
    ensures
        next_state(r, e) == r,
        pending(r) is Finish,
{
}

/// A run ends in success only once every step is done.
pub proof fn success_only_at_end(r: RunnerModel)
    requires
        r.wf(),
        pending(r) == (DirectiveModel::Finish { outcome: Ok(()) }),
    ensures
        r.pos == r.plan.len(),
{
}

/// A step whose work fails ends the run at once with a reason, and the run
/// then asks for nothing more.
pub proof fn failed_work_ends_run(r: RunnerModel, detail: Seq<char>)
    requires
        r.wf(),
        r.phase is Working,
    ensures
        next_state(r, EventOf::Failed { detail }).is_finished(),
        pending(next_state(r, EventOf::Failed { detail })) matches DirectiveOf::Finish { outcome } && outcome is Err,
{
}

/// The work that the runner asks for is the work of the current step, as
/// the step gives it.
pub proof fn work_is_current_step(r: RunnerModel)
    requires
        r.wf(),
        r.phase is Working,
    ensures
        is_work(r.plan[r.pos]),
        match r.plan[r.pos] {
            StepOf::MakeDir { path } => pending(r) == (DirectiveModel::Do { action: ActionOf::MakeDir { path } }),
            StepOf::Write { path, content } => pending(r) == (DirectiveModel::Do { action: ActionOf::Write { path, content } }),
            StepOf::Run { program, args } => pending(r) == (DirectiveOf::Do { action: ActionOf::Run { program, args } }),
            _ => false,
        },
{
}

/// A successful step is followed by the next step: after a directory is
/// made or a command succeeds, the runner starts the following step.
pub proof fn success_moves_on(r: RunnerModel, e: EventModel)
    requires
        r.wf(),
        r.phase is Working,
        (r.plan[r.pos] is MakeDir && e is Ack) || (r.plan[r.pos] is Run && (e matches EventOf::Exited { success, .. } && success)),
    ensures
        next_state(r, e) == start_at(r.plan, r.pos + 1),
{
}

/// The header that is copied is the first place that exists: while places
/// are reported missing the runner asks about the next one, and the first
/// place found is the one it copies into the project.
pub proof fn first_found_header_is_copied(r: RunnerModel, found: bool)
    requires
        r.wf(),
        r.phase is Probing,
    ensures
        match r.phase {
            PhaseOf::Probing { candidates, index } => if found {
                pending(next_state(r, EventOf::Exists { found })) == (DirectiveModel::Do {
                    action: ActionOf::Copy { from: candidates[index as int], to: HEADER_FILE@ },
                })
            } else if index + 1 < candidates.len() {
                pending(next_state(r, EventOf::Exists { found })) == (DirectiveModel::Do {
                    action: ActionOf::Probe { path: candidates[index + 1] },
                })
            } else {
                next_state(r, EventOf::Exists { found }).is_finished()
            },
            _ => false,
        },
{
}

/// A git repository is set up exactly when it is asked for: the steps of a
/// project contain the git steps where `git` is set, and no command runs
/// `git` otherwise.
pub proof fn git_only_when_asked(name: Seq<char>, git: bool)
    ensures
        git ==> c_project_steps(name, git).subrange(17, 20) == git_steps(),
        git ==> cpp_project_steps(name, git).subrange(14, 17) == git_steps(),
        !git ==> forall|i: int| 0 <= i < c_project_steps(name, git).len()
            ==> !(#[trigger] c_project_steps(name, git)[i] matches StepOf::Run { program, .. } && program == "git"@),
        !git ==> forall|i: int| 0 <= i < cpp_project_steps(name, git).len()
            ==> !(#[trigger] cpp_project_steps(name, git)[i] matches StepOf::Run { program, .. } && program == "git"@),
{
    reveal_strlit("git");
    reveal_strlit("make");
    reveal_strlit("cmake");
    if git {
        assert(c_project_steps(name, git).subrange(17, 20) =~= git_steps());
        assert(cpp_project_steps(name, git).subrange(14, 17) =~= git_steps());
    } else {
        let c = c_project_steps(name, git);
        assert forall|i: int| 0 <= i < c.len() implies !(#[trigger] c[i] matches StepOf::Run { program, .. }
            && program == "git"@) by {
            assert(c.len() == 18);
            if i < 13 {
                assert(!(c[i] is Run));
            } else if i < 17 {
                assert(c[i] matches StepOf::Run { program, .. } && program == "make"@);
                assert("make"@ != "git"@);
            } else {
                assert(c[i] is Announce);
            }
        }
        let p = cpp_project_steps(name, git);
        assert forall|i: int| 0 <= i < p.len() implies !(#[trigger] p[i] matches StepOf::Run { program, .. }
            && program == "git"@) by {
            assert(p.len() == 15);
            if i < 12 {
                assert(!(p[i] is Run));
            } else if i < 14 {
                assert(p[i] matches StepOf::Run { program, .. } && program == "cmake"@);
                assert("cmake"@ != "git"@);
            } else {
                assert(p[i] is Announce);
            }
        }
    }
}

/// The header is installed before any file is written or command is run,
/// in both kinds of project.
pub proof fn header_comes_first(name: Seq<char>, git: bool)
    ensures
        c_project_steps(name, git)[4] is InstallHeader,
        cpp_project_steps(name, git)[4] is InstallHeader,
        forall|i: int| 0 <= i < 4 ==> #[trigger] c_project_steps(name, git)[i] is MakeDir,
        forall|i: int| 0 <= i < 4 ==> #[trigger] cpp_project_steps(name, git)[i] is MakeDir,
{
}

/// An empty name ends the command with an error and the exit code 1,
/// before any directory is made.
pub proof fn empty_name_is_refused(raw: Seq<char>, git: bool)
    ensures
        after_lang(Seq::empty(), raw) == failing(EMPTY_NAME@),
        session_pending(SessionModel { git, stage: failing(EMPTY_NAME@) }) == (ActionModel::Complain {
            line: rendered(Tone::Failure, EMPTY_NAME@),
        }),
        session_pending(next_session(SessionModel { git, stage: failing(EMPTY_NAME@) }, EventOf::Ack))
            == (ActionModel::Exit { code: 1 }),
{
}

/// Declining to go on into a directory that exists ends the command with
/// the exit code 0, after saying so, and creates nothing.
pub proof fn declining_cancels(s: SessionModel, line: Seq<char>)
    requires
        s.stage is Confirming,
        !agrees(trimmed(line)),
    ensures
        session_pending(next_session(s, EventOf::Answer { line })) == (ActionModel::Show {
            line: rendered(Tone::Progress, CANCELLED@),
        }),
        session_pending(next_session(next_session(s, EventOf::Answer { line }), EventOf::Ack))
            == (ActionModel::Exit { code: 0 }),
{
}

/// Agreeing to go on into a directory that exists leads to creating the
/// project's directory.
pub proof fn agreeing_creates(git: bool, name: Seq<char>, lang: LanguageModel, line: Seq<char>)
    requires
        agrees(trimmed(line)),
    ensures
        session_pending(next_session(
            SessionModel { git, stage: StageOf::Confirming { name, lang } },
            EventOf::Answer { line },
        )) == (ActionModel::MakeDir { path: name }),
{
}

/// A directory that does not exist yet is created without a question.
pub proof fn new_directory_is_created(git: bool, name: Seq<char>, lang: LanguageModel)
    ensures
        session_pending(next_session(
            SessionModel { git, stage: StageOf::Checking { name, lang } },
            EventOf::Exists { found: false },
        )) == (ActionModel::MakeDir { path: name }),
{
}

/// A language that is neither C nor C++ ends the command with an error and
/// the exit code 1, and builds nothing.
pub proof fn unknown_language_is_refused(name: Seq<char>, text: Seq<char>, git: bool)
    ensures
        dispatch(name, LanguageOf::Other { text }, git) == failing(unknown_language_text(text)),
        session_pending(
            next_session(SessionModel { git, stage: failing(unknown_language_text(text)) }, EventOf::Ack),
        ) == (ActionModel::Exit { code: 1 }),
{
}

/// A project is built in its language with git as asked: C builds the C
/// steps and C++ the C++ steps, each with the session's git setting.
pub proof fn language_chooses_plan(name: Seq<char>, git: bool)
    ensures
        dispatch(name, LanguageOf::C, git) == building(start_at(c_project_steps(name, git), 0)),
        dispatch(name, LanguageOf::Cpp, git) == building(start_at(cpp_project_steps(name, git), 0)),
{
}

/// The end of a run decides how the command ends: success ends it with 0;
/// a failure shows its reason on the error stream and ends it with 1.
pub proof fn run_outcome_decides_exit(r: RunnerModel, git: bool)
    requires
        r.is_finished(),
    ensures
        r.phase matches PhaseOf::Finished { outcome } && outcome is Ok ==> session_pending(
            SessionModel { git, stage: building(r) },
        ) == (ActionModel::Exit { code: 0 }),
        r.phase matches PhaseOf::Finished { outcome } && outcome matches Err(reason) ==> {
            &&& session_pending(SessionModel { git, stage: building(r) }) == (ActionModel::Complain {
                line: rendered(Tone::Failure, reason),
            })
            &&& session_pending(next_session(SessionModel { git, stage: building(r) }, EventOf::Ack))
                == (ActionModel::Exit { code: 1 })
        },
{
}

/// Once the command is over it stays over: every event gets the same exit.
pub proof fn done_is_final(s: SessionModel, e: EventModel)
    requires
        s.stage is Done,
    ensures
        next_session(s, e) == s,
        session_pending(s) is Exit,
{
}

/// The answer to the pending request of `r` in which everything succeeds:
/// work is done, commands exit with 0, the header is found at the first
/// place tried, and reports are shown.
pub open spec fn success_event(r: RunnerModel) -> EventModel {
    match r.phase {
        PhaseOf::Working => match r.plan[r.pos] {
            StepOf::Run { .. } => EventOf::Exited { success: true, code: Some(0) },
            _ => EventOf::Ack,
        },
        PhaseOf::Locating => EventOf::Hints { variable: None, executable: None, current: None },
        PhaseOf::Probing { .. } => EventOf::Exists { found: true },
        _ => EventOf::Ack,
    }
}

/// The state after `n` requests that all succeed, from `r`.
pub open spec fn drive(r: RunnerModel, n: nat) -> RunnerModel
    decreases n,
{
    if n == 0 {
        r
    } else {
        drive(next_state(r, success_event(r)), (n - 1) as nat)
    }
}

/// How far along the current step the phase is.
pub open spec fn phase_rank(p: PhaseModel) -> int {
    match p {
        PhaseOf::Probing { .. } => 1,
        PhaseOf::Copying { .. } => 2,
        PhaseOf::Reporting => 3,
        PhaseOf::Copied { .. } => 3,
        _ => 0,
    }
}

/// What is left of a run that goes on: four units for each step not yet
/// done, less the progress within the current one.
pub open spec fn work_left(r: RunnerModel) -> int {
    if r.is_finished() {
        0
    } else {
        (r.plan.len() - r.pos) * 4 - phase_rank(r.phase)
    }
}

/// Whether the run is over and succeeded.
pub open spec fn succeeded(r: RunnerModel) -> bool {
    r.phase matches PhaseOf::Finished { outcome } && outcome is Ok
}

/// A run that has not failed and in which every request succeeds ends in
/// success.
proof fn succeeding_run_completes(r: RunnerModel)
    requires
        r.wf(),
        !(r.phase matches PhaseOf::Finished { outcome } && outcome is Err),
    ensures
        exists|n: nat| succeeded(#[trigger] drive(r, n)),
    decreases work_left(r),
{
    if r.is_finished() {
        assert(drive(r, 0) == r);
        assert(succeeded(drive(r, 0)));
    } else {
        let r2 = next_state(r, success_event(r));
        runner_keeps_order(r, success_event(r));
        assert(work_left(r2) < work_left(r));
        succeeding_run_completes(r2);
        let n = choose|n: nat| succeeded(#[trigger] drive(r2, n));
        assert(drive(r, n + 1) == drive(r2, n));
    }
}

/// Every plan can be carried out: from its start, a run in which every
/// request succeeds ends in success after finitely many requests, having
/// done every step.
pub proof fn every_plan_completes(plan: Seq<StepModel>)
    ensures
        exists|n: nat| {
            &&& succeeded(#[trigger] drive(start_at(plan, 0), n))
            &&& drive(start_at(plan, 0), n).pos == plan.len()
        },
{
    succeeding_run_completes(start_at(plan, 0));
    let n = choose|n: nat| succeeded(#[trigger] drive(start_at(plan, 0), n));
    drive_keeps_wf(start_at(plan, 0), n);
    assert(drive(start_at(plan, 0), n).pos == plan.len());
}

/// Requests keep the runner's state consistent.
proof fn drive_keeps_wf(r: RunnerModel, n: nat)
    requires
        r.wf(),
    ensures
        drive(r, n).wf(),
        drive(r, n).plan == r.plan,
    decreases n,
{
    if n > 0 {
        runner_keeps_order(r, success_event(r));
        drive_keeps_wf(next_state(r, success_event(r)), (n - 1) as nat);
    }
}

/// When the name is given and the language is not, the command's first
/// action is the question for the language, whatever the name and git
/// setting; the name is kept as given.
pub proof fn missing_language_is_asked(n: Seq<char>, no_git: bool)
    ensures
        opening(Some(n), None) == (StageModel::AskingLang { name: n }),
        session_pending(SessionModel { git: !no_git, stage: opening(Some(n), None) })
            == (ActionModel::Ask { prompt: rendered_prompt(ASK_LANG@) }),
{
}

/// When no name is given, the command first says that it asks, then asks
/// for the name; a language that was given is kept for later.
pub proof fn missing_name_is_asked(lang: Option<Seq<char>>, git: bool)
    ensures
        session_pending(SessionModel { git, stage: opening(None, lang) })
            == (ActionModel::Show { line: rendered(Tone::Progress, INTERACTIVE@) }),
        next_session(SessionModel { git, stage: opening(None, lang) }, EventOf::Ack)
            == (SessionModel { git, stage: StageModel::AskingName { given_lang: lang } }),
        session_pending(next_session(SessionModel { git, stage: opening(None, lang) }, EventOf::Ack))
            == (ActionModel::Ask { prompt: rendered_prompt(ASK_NAME@) }),
{
}

/// The answer for the name is trimmed; then the language is asked for
/// where it was not given, and otherwise the command goes on to the name's
/// check with the language that was given.
pub proof fn answered_name_is_used(line: Seq<char>, raw: Seq<char>, git: bool)
    ensures
        next_session(SessionModel { git, stage: StageModel::AskingName { given_lang: None } },
            EventOf::Answer { line }).stage == (StageModel::AskingLang { name: trimmed(line) }),
        trimmed(line).len() > 0 ==> next_session(
            SessionModel { git, stage: StageModel::AskingName { given_lang: Some(raw) } },
            EventOf::Answer { line },
        ).stage == (StageModel::Checking { name: trimmed(line), lang: language_named(raw) }),
{
}

/// With a name that is not empty and a language, both given or answered,
/// the command asks whether the directory named by the name exists; with an
/// empty name it refuses with an error and the exit code 1.
pub proof fn name_decides_check_or_refusal(n: Seq<char>, raw: Seq<char>, git: bool)
    ensures
        n.len() > 0 ==> opening(Some(n), Some(raw)) == (StageModel::Checking { name: n, lang: language_named(raw) }),
        n.len() > 0 ==> session_pending(SessionModel { git, stage: opening(Some(n), Some(raw)) })
            == (ActionModel::Probe { path: n }),
        n.len() == 0 ==> session_pending(SessionModel { git, stage: opening(Some(n), Some(raw)) })
            == (ActionModel::Complain { line: rendered(Tone::Failure, EMPTY_NAME@) }),
        n.len() == 0 ==> session_pending(next_session(SessionModel { git, stage: opening(Some(n), Some(raw)) }, EventOf::Ack))
            == (ActionModel::Exit { code: 1 }),
        n.len() > 0 ==> next_session(SessionModel { git, stage: StageModel::AskingLang { name: n } },
            EventOf::Answer { line: raw }).stage == (StageModel::Checking { name: n, lang: language_named(trimmed(raw)) }),
{
}

/// The language read from an answer depends on nothing but its trimmed,
/// upper-case form: `C` names C, `C++` and `CPP` name C++, and any other
/// form is an unknown language that keeps that form.
pub proof fn language_follows_normal_form(raw: Seq<char>)
    ensures
        uppercased(trimmed(raw)) == "C"@ ==> language_named(raw) == LanguageModel::C,
        uppercased(trimmed(raw)) == "CPP"@ ==> language_named(raw) == LanguageModel::Cpp,
        uppercased(trimmed(raw)) == "C++"@ ==> language_named(raw) == LanguageModel::Cpp,
        uppercased(trimmed(raw)) != "C"@ && uppercased(trimmed(raw)) != "CPP"@ && uppercased(trimmed(raw)) != "C++"@
            ==> language_named(raw) == (LanguageModel::Other { text: uppercased(trimmed(raw)) }),
{
    reveal_strlit("C");
    reveal_strlit("CPP");
    reveal_strlit("C++");
    assert("CPP"@.len() != "C"@.len());
    assert("C++"@.len() != "C"@.len());
}

/// Two answers with the same trimmed, upper-case form name the same language.
pub proof fn language_same_for_same_form(raw1: Seq<char>, raw2: Seq<char>)
    requires
        uppercased(trimmed(raw1)) == uppercased(trimmed(raw2)),
    ensures
        language_named(raw1) == language_named(raw2),
{
}

/// A command that ends unsuccessfully ends the run at once with its reason,
/// which names the command line and the exit code (-1 where it has none),
/// whatever the code.
pub proof fn failed_command_ends_run(r: RunnerModel, code: Option<i32>)
    requires
        r.wf(),
        r.phase is Working,
        r.plan[r.pos] is Run,
    ensures
        next_state(r, EventOf::Exited { success: false, code }).is_finished(),
        next_state(r, EventOf::Exited { success: false, code }).pos == r.pos,
        match r.plan[r.pos] {
            StepOf::Run { program, args } => pending(next_state(r, EventOf::Exited { success: false, code }))
                == (DirectiveModel::Finish { outcome: Err(exit_failure_text(program, args, code)) }),
            _ => false,
        },
{
}

/// A command that ends successfully, whatever its code, moves the run on to
/// the next step without ending it in failure.
pub proof fn successful_command_moves_on(r: RunnerModel, code: Option<i32>)
    requires
        r.wf(),
        r.phase is Working,
        r.plan[r.pos] is Run,
    ensures
        next_state(r, EventOf::Exited { success: true, code }).pos == r.pos + 1,
        !(next_state(r, EventOf::Exited { success: true, code }).phase matches PhaseOf::Finished { outcome } && outcome is Err),
{
}

/// The files of a C project carry its name as given: only the header's
/// guard uses the upper-case form, so every other step is the same whatever
/// that form is; and the Makefile, the sources, the header's path and the
/// build driver hold the name at their marked places.
pub proof fn c_files_carry_name(name: Seq<char>, upper1: Seq<char>, upper2: Seq<char>, git: bool)
    ensures
        c_plan_steps(name, upper1, git).len() == c_plan_steps(name, upper2, git).len(),
        forall|i: int| 0 <= i < c_plan_steps(name, upper1, git).len() && i != 8
            ==> #[trigger] c_plan_steps(name, upper1, git)[i] == c_plan_steps(name, upper2, git)[i],
        c_plan_steps(name, upper1, git)[5] == (StepModel::Write { path: "Makefile"@, content: MAKEFILE_0@ + name + MAKEFILE_1@ }),
        c_plan_steps(name, upper1, git)[6] == (StepModel::Write { path: "src/main.c"@, content: C_MAIN_0@ + name + C_MAIN_1@ }),
        c_plan_steps(name, upper1, git)[7] == (StepModel::Write {
            path: "src/"@ + name + ".c"@,
            content: C_SOURCE_0@ + name + C_SOURCE_1@,
        }),
        c_plan_steps(name, upper1, git)[8] == (StepModel::Write {
            path: "include/"@ + name + ".h"@,
            content: C_HEADER_0@ + upper1 + C_HEADER_1@ + upper1 + C_HEADER_2@,
        }),
        c_plan_steps(name, upper1, git)[9] == (StepModel::Write { path: "nob.c"@, content: C_NOB_0@ + name + C_NOB_1@ }),
{
    let a = c_plan_steps(name, upper1, git);
    let b = c_plan_steps(name, upper2, git);
    assert forall|i: int| 0 <= i < a.len() && i != 8 implies #[trigger] a[i] == b[i] by {
        if i < 17 {
        } else {
        }
    }
}

/// The files of a C++ project carry its name as given: only the header's
/// guard uses the upper-case form, so every other step is the same whatever
/// that form is; and CMakeLists.txt names the project, the source file that
/// the plan writes, and the executable by the name.
pub proof fn cpp_files_carry_name(name: Seq<char>, upper1: Seq<char>, upper2: Seq<char>, git: bool)
    ensures
        cpp_plan_steps(name, upper1, git).len() == cpp_plan_steps(name, upper2, git).len(),
        forall|i: int| 0 <= i < cpp_plan_steps(name, upper1, git).len() && i != 8
            ==> #[trigger] cpp_plan_steps(name, upper1, git)[i] == cpp_plan_steps(name, upper2, git)[i],
        cpp_plan_steps(name, upper1, git)[5] == (StepModel::Write {
            path: "CMakeLists.txt"@,
            content: CMAKE_0@ + name + CMAKE_1@ + name + CMAKE_2@ + name + CMAKE_3@,
        }),
        cpp_plan_steps(name, upper1, git)[6] == (StepModel::Write {
            path: "src/main.cpp"@,
            content: CPP_MAIN_0@ + name + CPP_MAIN_1@ + name + CPP_MAIN_2@,
        }),
        cpp_plan_steps(name, upper1, git)[7] == (StepModel::Write {
            path: "src/"@ + name + ".cpp"@,
            content: CPP_SOURCE_0@ + name + CPP_SOURCE_1@ + name + CPP_SOURCE_2@,
        }),
        cpp_plan_steps(name, upper1, git)[8] == (StepModel::Write {
            path: "include/"@ + name + ".h"@,
            content: CPP_HEADER_0@ + upper1 + CPP_HEADER_1@ + upper1 + CPP_HEADER_2@,
        }),
        cpp_plan_steps(name, upper1, git)[9] == (StepModel::Write { path: "nob.c"@, content: CPP_NOB_0@ + name + CPP_NOB_1@ }),
{
    let a = cpp_plan_steps(name, upper1, git);
    let b = cpp_plan_steps(name, upper2, git);
    assert forall|i: int| 0 <= i < a.len() && i != 8 implies #[trigger] a[i] == b[i] by {
        if i < 14 {
        } else {
        }
    }
}

/// A C project builds with `make all`, `make lib`, `make clean` and
/// `make run`, in this order, after writing its files; a C++ project
/// configures and builds with CMake; neither depends on the upper-case form.
pub proof fn build_commands(name: Seq<char>, upper: Seq<char>, git: bool)
    ensures
        c_plan_steps(name, upper, git).subrange(13, 17) == seq![
            run_model("make"@, seq!["all"@]),
            run_model("make"@, seq!["lib"@]),
            run_model("make"@, seq!["clean"@]),
            run_model("make"@, seq!["run"@]),
        ],
        forall|i: int| 5 <= i < 13 ==> #[trigger] c_plan_steps(name, upper, git)[i] is Write,
        cpp_plan_steps(name, upper, git).subrange(12, 14) == seq![
            run_model("cmake"@, seq!["-S"@, "."@, "-B"@, "build"@]),
            run_model("cmake"@, seq!["--build"@, "build"@]),
        ],
        forall|i: int| 5 <= i < 12 ==> #[trigger] cpp_plan_steps(name, upper, git)[i] is Write,
{
    assert(c_plan_steps(name, upper, git).subrange(13, 17) =~= seq![
        run_model("make"@, seq!["all"@]),
        run_model("make"@, seq!["lib"@]),
        run_model("make"@, seq!["clean"@]),
        run_model("make"@, seq!["run"@]),
    ]);
    assert(cpp_plan_steps(name, upper, git).subrange(12, 14) =~= seq![
        run_model("cmake"@, seq!["-S"@, "."@, "-B"@, "build"@]),
        run_model("cmake"@, seq!["--build"@, "build"@]),
    ]);
}

/// A failed copy of the header ends the run with its reason, and a place
/// list that runs out without the header ends it with the missing-header
/// error: neither counts as a success.
pub proof fn header_failures_end_run(r: RunnerModel, detail: Seq<char>)
    requires
        r.wf(),
    ensures
        r.phase matches PhaseOf::Copying { from } ==> pending(next_state(r, EventOf::Failed { detail }))
            == (DirectiveModel::Finish { outcome: Err(copy_failure_text(from, HEADER_FILE@, detail)) }),
        r.phase matches PhaseOf::Probing { candidates, index } && index + 1 >= candidates.len() ==> pending(
            next_state(r, EventOf::Exists { found: false }),
        ) == (DirectiveModel::Finish { outcome: Err(HEADER_MISSING@) }),
{
}

} // verus!
