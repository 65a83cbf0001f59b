//! What carrying out actions and steps does to the files of a project: a
//! model of the directory tree as a map from paths to contents and a set of
//! directories, with the effect of each action and of each step on it.
//! Commands are not part of the model: their own effects on files are left
//! out, and they change nothing in it.

use vstd::prelude::*;
use crate::plan::{StepOf, StepModel, c_project_steps, cpp_project_steps, gitignore_c_step, gitignore_cpp_step};
use crate::protocol::{ActionOf, ActionModel};
use crate::runner::{RunnerModel, PhaseOf, DirectiveOf, pending};
use crate::header::HEADER_FILE;
use crate::templates::GITIGNORE_CPP;

verus! {

/// The files, by path, with their contents, and the directories made.
#[verifier::ext_equal]
pub struct Tree {
    pub files: Map<Seq<char>, Seq<char>>,
    pub dirs: Set<Seq<char>>,
}

/// What a successful action does to the tree: a write puts the content in
/// place of whatever the file held; making a directory records it; a copy
/// puts the source's content in place of the target's. Other actions change
/// no file.
pub open spec fn apply_action(t: Tree, a: ActionModel) -> Tree {
    match a {
        ActionOf::Write { path, content } => Tree { files: t.files.insert(path, content), dirs: t.dirs },
        ActionOf::MakeDir { path } => Tree { files: t.files, dirs: t.dirs.insert(path) },
        ActionOf::Copy { from, to } => if t.files.contains_key(from) {
            Tree { files: t.files.insert(to, t.files[from]), dirs: t.dirs }
        } else {
            t
        },
        _ => t,
    }
}

/// What a successful step does to the tree, where `header` is the content of
/// the `nob.h` that is found.
pub open spec fn step_effect(t: Tree, step: StepModel, header: Seq<char>) -> Tree {
    match step {
        StepOf::MakeDir { path } => Tree { files: t.files, dirs: t.dirs.insert(path) },
        StepOf::InstallHeader => Tree { files: t.files.insert(HEADER_FILE@, header), dirs: t.dirs },
        StepOf::Write { path, content } => Tree { files: t.files.insert(path, content), dirs: t.dirs },
        _ => t,
    }
}

/// The tree after every step of `steps` has succeeded, in order.
pub open spec fn carry_out(t: Tree, steps: Seq<StepModel>, header: Seq<char>) -> Tree
    decreases steps.len(),
{
    if steps.len() == 0 {
        t
    } else {
        step_effect(carry_out(t, steps.drop_last(), header), steps.last(), header)
    }
}

/// The files that steps write, with the content each ends up with, and the
/// directories they make: a summary that does not depend on the tree.
#[verifier::ext_equal]
pub struct Changes {
    pub writes: Map<Seq<char>, Seq<char>>,
    pub made: Set<Seq<char>>,
}

/// The changes of `steps`, in order; a later write of a file wins.
pub open spec fn plan_changes(steps: Seq<StepModel>, header: Seq<char>) -> Changes
    decreases steps.len(),
{
    if steps.len() == 0 {
        Changes { writes: Map::empty(), made: Set::empty() }
    } else {
        let c = plan_changes(steps.drop_last(), header);
        match steps.last() {
            StepOf::MakeDir { path } => Changes { writes: c.writes, made: c.made.insert(path) },
            StepOf::InstallHeader => Changes { writes: c.writes.insert(HEADER_FILE@, header), made: c.made },
            StepOf::Write { path, content } => Changes { writes: c.writes.insert(path, content), made: c.made },
            _ => c,
        }
    }
}

/// The tree with the changes `c` laid over it.
pub open spec fn overlay(t: Tree, c: Changes) -> Tree {
    Tree { files: t.files.union_prefer_right(c.writes), dirs: t.dirs.union(c.made) }
}

/// Carrying out steps lays their changes over the tree.
pub proof fn carry_out_is_overlay(t: Tree, steps: Seq<StepModel>, header: Seq<char>)
    ensures
        carry_out(t, steps, header) == overlay(t, plan_changes(steps, header)),
    decreases steps.len(),
{
    if steps.len() == 0 {
        assert(overlay(t, plan_changes(steps, header)) =~= t);
    } else {
        carry_out_is_overlay(t, steps.drop_last(), header);
        let c = plan_changes(steps.drop_last(), header);
        assert(carry_out(t, steps, header) =~= overlay(t, plan_changes(steps, header)));
    }
}

/// Laying the same changes over a tree twice is the same as once.
proof fn overlay_twice(t: Tree, c: Changes)
    ensures
        overlay(overlay(t, c), c) == overlay(t, c),
{
    assert(overlay(overlay(t, c), c) =~= overlay(t, c));
}

/// Carrying out the same steps a second time, with the same header found,
/// leaves the files and directories as the first time: every file is written
/// over, not added to.
pub proof fn steps_twice_same_tree(t: Tree, steps: Seq<StepModel>, header: Seq<char>)
    ensures
        carry_out(carry_out(t, steps, header), steps, header) == carry_out(t, steps, header),
{
    carry_out_is_overlay(t, steps, header);
    carry_out_is_overlay(carry_out(t, steps, header), steps, header);
    overlay_twice(t, plan_changes(steps, header));
}

/// Building the same project a second time, with the same name, language,
/// git setting and header, leaves every file with the content of the first
/// build.
pub proof fn project_twice_same_files(t: Tree, name: Seq<char>, git: bool, header: Seq<char>)
    ensures
        carry_out(carry_out(t, c_project_steps(name, git), header), c_project_steps(name, git), header)
            == carry_out(t, c_project_steps(name, git), header),
        carry_out(carry_out(t, cpp_project_steps(name, git), header), cpp_project_steps(name, git), header)
            == carry_out(t, cpp_project_steps(name, git), header),
{
    steps_twice_same_tree(t, c_project_steps(name, git), header);
    steps_twice_same_tree(t, cpp_project_steps(name, git), header);
}

/// Writing the C `.gitignore` again leaves the tree as the first write did.
pub proof fn gitignore_rewrite_same(t: Tree, header: Seq<char>)
    ensures
        step_effect(step_effect(t, gitignore_c_step(), header), gitignore_c_step(), header)
            == step_effect(t, gitignore_c_step(), header),
        step_effect(step_effect(t, gitignore_cpp_step(), header), gitignore_cpp_step(), header)
            == step_effect(t, gitignore_cpp_step(), header),
{
    assert(step_effect(step_effect(t, gitignore_c_step(), header), gitignore_c_step(), header)
        =~= step_effect(t, gitignore_c_step(), header));
    assert(step_effect(step_effect(t, gitignore_cpp_step(), header), gitignore_cpp_step(), header)
        =~= step_effect(t, gitignore_cpp_step(), header));
}

/// Writing the C++ `.gitignore` after the C one replaces it whole: the file
/// then holds the C++ content only.
pub proof fn gitignore_cpp_replaces_c(t: Tree, header: Seq<char>)
    ensures
        step_effect(step_effect(t, gitignore_c_step(), header), gitignore_cpp_step(), header).files[".gitignore"@]
            == GITIGNORE_CPP@,
        step_effect(step_effect(t, gitignore_c_step(), header), gitignore_cpp_step(), header)
            == step_effect(t, gitignore_cpp_step(), header),
{
    assert(step_effect(step_effect(t, gitignore_c_step(), header), gitignore_cpp_step(), header)
        =~= step_effect(t, gitignore_cpp_step(), header));
}

/// The actions that the runner asks for have the effect of the step they
/// belong to: the work of a directory, file or command step has the step's
/// effect (whatever header is found); the copy of the header has the effect
/// of installing the content of the place where it was found; every other
/// request changes no file.
pub proof fn actions_have_step_effect(r: RunnerModel, t: Tree, header: Seq<char>)
    requires
        r.wf(),
        !r.is_finished(),
    ensures
        pending(r) matches DirectiveOf::Do { action } && match r.phase {
            PhaseOf::Working => apply_action(t, action) == step_effect(t, r.plan[r.pos], header),
            PhaseOf::Copying { from } => t.files.contains_key(from) ==> apply_action(t, action)
                == step_effect(t, r.plan[r.pos], t.files[from]),
            _ => apply_action(t, action) == t,
        },
{
}

} // verus!
