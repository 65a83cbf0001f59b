//! Carrying out the steps of a project one after another. The runner decides
//! what to ask of the program around it next, from the step at hand and the
//! outcome of the last request; the first failure ends the run.

use vstd::prelude::*;
use crate::plan::{StepOf, Step, StepModel, steps_view};
use crate::protocol::{ActionOf, EventOf, Event, EventModel};
use crate::display::{Tone, rendered, render_line};
use crate::header::{candidates, header_candidates, HEADER_VARIABLE, HEADER_FILE};
use crate::messages::{
    mkdir_failure_text, mkdir_failure, write_failure_text, write_failure, written_text, written,
    spawn_failure_text, spawn_failure, exit_failure_text, exit_failure, copy_failure_text,
    copy_failure, copied_text, copied, HEADER_MISSING,
};

verus! {

/// A copy of a list of texts.
fn copy_texts(v: &Vec<String>) -> (res: Vec<String>)
    ensures
        res.deep_view() == v.deep_view(),
{
    let mut res: Vec<String> = Vec::new();
    for i in 0..v.len()
        invariant
            res@.len() == i,
            forall|j: int| 0 <= j < i ==> #[trigger] res@[j]@ == v@[j]@,
    {
        res.push(v[i].clone());
    }
    assert(res.deep_view() =~= v.deep_view());
    res
}

/// What the runner wants next: an action of the program around it, or the
/// end of the run with its outcome (`Err` holds the reason of the failure).
#[derive(PartialEq, Eq, Debug)]
pub enum DirectiveOf<S, L> {
    Do { action: ActionOf<S, L> },
    Finish { outcome: Result<(), S> },
}

/// A directive with its texts held as `String`s.
pub type Directive = DirectiveOf<String, Vec<String>>;

/// A directive with its texts held as sequences of characters.
pub type DirectiveModel = DirectiveOf<Seq<char>, Seq<Seq<char>>>;

/// The view of an outcome.
pub open spec fn outcome_view(o: Result<(), String>) -> Result<(), Seq<char>> {
    match o {
        Ok(()) => Ok(()),
        Err(m) => Err(m@),
    }
}

impl View for DirectiveOf<String, Vec<String>> {
    type V = DirectiveModel;

    open spec fn view(&self) -> DirectiveModel {
        match self {
            DirectiveOf::Do { action } => DirectiveOf::Do { action: action@ },
            DirectiveOf::Finish { outcome } => DirectiveOf::Finish { outcome: outcome_view(*outcome) },
        }
    }
}

/// Where the runner stands within the current step.
#[derive(PartialEq, Eq, Debug)]
pub enum PhaseOf<S, L> {
    /// The step's work (a directory, a file or a command) has been asked for.
    Working,
    /// The hints for finding the header have been asked for.
    Locating,
    /// The existence of `candidates[index]` has been asked about.
    Probing { candidates: L, index: usize },
    /// The copy of the header found at `from` has been asked for.
    Copying { from: S },
    /// The report of the step's success has been asked to be shown.
    Reporting,
    /// The report that the header was copied from `from` has been asked to be shown.
    Copied { from: S },
    /// The run is over, with this outcome.
    Finished { outcome: Result<(), S> },
}

/// A phase with its texts held as `String`s.
pub type Phase = PhaseOf<String, Vec<String>>;

/// A phase with its texts held as sequences of characters.
pub type PhaseModel = PhaseOf<Seq<char>, Seq<Seq<char>>>;

impl View for PhaseOf<String, Vec<String>> {
    type V = PhaseModel;

    open spec fn view(&self) -> PhaseModel {
        match self {
            PhaseOf::Working => PhaseOf::Working,
            PhaseOf::Locating => PhaseOf::Locating,
            PhaseOf::Probing { candidates, index } => PhaseOf::Probing {
                candidates: candidates.deep_view(),
                index: *index,
            },
            PhaseOf::Copying { from } => PhaseOf::Copying { from: from@ },
            PhaseOf::Reporting => PhaseOf::Reporting,
            PhaseOf::Copied { from } => PhaseOf::Copied { from: from@ },
            PhaseOf::Finished { outcome } => PhaseOf::Finished { outcome: outcome_view(*outcome) },
        }
    }
}

/// The current step of a run and the phase within it.
struct Cursor {
    pos: usize,
    phase: Phase,
}

/// Carries out a list of steps in order. Its state is always consistent
/// (`RunnerModel::wf`).
pub struct Runner {
    plan: Vec<Step>,
    at: Cursor,
}

/// The state of a runner: its steps, the index of the current step, and the
/// phase within it.
pub struct RunnerModel {
    pub plan: Seq<StepModel>,
    pub pos: int,
    pub phase: PhaseModel,
}

impl View for Runner {
    type V = RunnerModel;

    closed spec fn view(&self) -> RunnerModel {
        RunnerModel { plan: steps_view(self.plan@), pos: self.at.pos as int, phase: self.at.phase@ }
    }
}

/// Whether a step's work is a single request (a directory, a file or a command).
pub open spec fn is_work(step: StepModel) -> bool {
    step is MakeDir || step is Write || step is Run
}

/// The phase in which a step starts.
pub open spec fn first_phase(step: StepModel) -> PhaseModel {
    match step {
        StepOf::InstallHeader => PhaseOf::Locating,
        StepOf::Announce { .. } => PhaseOf::Reporting,
        _ => PhaseOf::Working,
    }
}

/// The line that reports the success of a step that writes a file or announces.
pub open spec fn report_text(step: StepModel) -> Seq<char> {
    match step {
        StepOf::Write { path, .. } => written_text(path),
        StepOf::Announce { text } => text,
        _ => Seq::empty(),
    }
}

impl RunnerModel {
    /// The state is consistent: the current step exists unless the run is
    /// over, and the phase belongs to that step.
    pub open spec fn wf(self) -> bool {
        &&& 0 <= self.pos <= self.plan.len()
        &&& match self.phase {
            PhaseOf::Finished { outcome } => outcome is Ok ==> self.pos == self.plan.len(),
            PhaseOf::Working => self.pos < self.plan.len() && is_work(self.plan[self.pos]),
            PhaseOf::Reporting => self.pos < self.plan.len() && (self.plan[self.pos] is Write
                || self.plan[self.pos] is Announce),
            PhaseOf::Probing { candidates, index } => self.pos < self.plan.len()
                && self.plan[self.pos] is InstallHeader && index < candidates.len()
                && candidates.len() <= usize::MAX,
            _ => self.pos < self.plan.len() && self.plan[self.pos] is InstallHeader,
        }
    }

    /// The same steps, with the run over and this outcome.
    pub open spec fn finished(self, outcome: Result<(), Seq<char>>) -> RunnerModel {
        RunnerModel { phase: PhaseOf::Finished { outcome }, ..self }
    }

    /// The same steps and position, in the phase `phase`.
    pub open spec fn in_phase(self, phase: PhaseModel) -> RunnerModel {
        RunnerModel { phase, ..self }
    }

    /// Whether the run is over.
    pub open spec fn is_finished(self) -> bool {
        self.phase is Finished
    }
}

/// The state in which the step at `pos` starts, or the successful end of the
/// run where every step is done.
pub open spec fn start_at(plan: Seq<StepModel>, pos: int) -> RunnerModel {
    if 0 <= pos < plan.len() {
        RunnerModel { plan, pos, phase: first_phase(plan[pos]) }
    } else {
        RunnerModel { plan, pos: plan.len() as int, phase: PhaseOf::Finished { outcome: Ok(()) } }
    }
}

/// Asking about the existence of `found[index]`, or, where every place has
/// been tried, failing for want of the header.
pub open spec fn probe_from(r: RunnerModel, found: Seq<Seq<char>>, index: int) -> RunnerModel {
    if 0 <= index < found.len() {
        r.in_phase(PhaseOf::Probing { candidates: found, index: index as usize })
    } else {
        r.finished(Err(HEADER_MISSING@))
    }
}

/// What the runner asks for in the state `r`.
pub open spec fn pending(r: RunnerModel) -> DirectiveModel {
    match r.phase {
        PhaseOf::Working => match r.plan[r.pos] {
            StepOf::MakeDir { path } => DirectiveOf::Do { action: ActionOf::MakeDir { path } },
            StepOf::Write { path, content } => DirectiveOf::Do {
                action: ActionOf::Write { path, content },
            },
            StepOf::Run { program, args } => DirectiveOf::Do { action: ActionOf::Run { program, args } },
            _ => DirectiveOf::Finish { outcome: Ok(()) },
        },
        PhaseOf::Locating => DirectiveOf::Do { action: ActionOf::LookUp { variable: HEADER_VARIABLE@ } },
        PhaseOf::Probing { candidates, index } => DirectiveOf::Do {
            action: ActionOf::Probe { path: candidates[index as int] },
        },
        PhaseOf::Copying { from } => DirectiveOf::Do {
            action: ActionOf::Copy { from, to: HEADER_FILE@ },
        },
        PhaseOf::Reporting => DirectiveOf::Do {
            action: ActionOf::Show { line: rendered(Tone::Success, report_text(r.plan[r.pos])) },
        },
        PhaseOf::Copied { from } => DirectiveOf::Do {
            action: ActionOf::Show { line: rendered(Tone::Success, copied_text(from)) },
        },
        PhaseOf::Finished { outcome } => DirectiveOf::Finish { outcome },
    }
}

/// The state after the event `e` in the state `r`. An event that does not
/// answer the pending request leaves the state as it is, so that the same
/// request is made again.
pub open spec fn next_state(r: RunnerModel, e: EventModel) -> RunnerModel {
    match r.phase {
        PhaseOf::Working => match (r.plan[r.pos], e) {
            (StepOf::MakeDir { .. }, EventOf::Ack) => start_at(r.plan, r.pos + 1),
            (StepOf::MakeDir { path }, EventOf::Failed { detail }) => r.finished(
                Err(mkdir_failure_text(path, detail)),
            ),
            (StepOf::Write { .. }, EventOf::Ack) => r.in_phase(PhaseOf::Reporting),
            (StepOf::Write { path, .. }, EventOf::Failed { detail }) => r.finished(
                Err(write_failure_text(path, detail)),
            ),
            (StepOf::Run { program, args }, EventOf::Exited { success, code }) => if success {
                start_at(r.plan, r.pos + 1)
            } else {
                r.finished(Err(exit_failure_text(program, args, code)))
            },
            (StepOf::Run { program, args }, EventOf::Failed { detail }) => r.finished(
                Err(spawn_failure_text(program, args, detail)),
            ),
            _ => r,
        },
        PhaseOf::Locating => match e {
            EventOf::Hints { variable, executable, current } => probe_from(
                r,
                candidates(variable, executable, current, HEADER_FILE@),
                0,
            ),
            _ => r,
        },
        PhaseOf::Probing { candidates, index } => match e {
            EventOf::Exists { found } => if found {
                r.in_phase(PhaseOf::Copying { from: candidates[index as int] })
            } else {
                probe_from(r, candidates, index + 1)
            },
            _ => r,
        },
        PhaseOf::Copying { from } => match e {
            EventOf::Ack => r.in_phase(PhaseOf::Copied { from }),
            EventOf::Failed { detail } => r.finished(Err(copy_failure_text(from, HEADER_FILE@, detail))),
            _ => r,
        },
        PhaseOf::Reporting => match e {
            EventOf::Ack => start_at(r.plan, r.pos + 1),
            _ => r,
        },
        PhaseOf::Copied { .. } => match e {
            EventOf::Ack => start_at(r.plan, r.pos + 1),
            _ => r,
        },
        PhaseOf::Finished { .. } => r,
    }
}

/// The cursor at the start of the step at `pos`, or at the successful end.
fn start_cursor(plan: &Vec<Step>, pos: usize) -> (res: Cursor)
    requires
        pos <= plan@.len(),
    ensures
        ({
            let m = start_at(steps_view(plan@), pos as int);
            res.pos as int == m.pos && res.phase@ == m.phase
        }),
{
    if pos < plan.len() {
        let phase: Phase = match &plan[pos] {
            StepOf::InstallHeader => PhaseOf::Locating,
            StepOf::Announce { .. } => PhaseOf::Reporting,
            _ => PhaseOf::Working,
        };
        Cursor { pos, phase }
    } else {
        Cursor { pos: plan.len(), phase: PhaseOf::Finished { outcome: Ok(()) } }
    }
}

impl Runner {
    /// The runner's state is consistent.
    #[verifier::type_invariant]
    closed spec fn consistent(self) -> bool {
        self@.wf()
    }

    /// A runner at the start of `plan` (already over where `plan` is empty).
    pub fn new(plan: Vec<Step>) -> (res: Runner)
        ensures
            res@ == start_at(steps_view(plan@), 0),
    {
        let at = start_cursor(&plan, 0);
        Runner { plan, at }
    }

    /// Moves to the start of the step at `pos`, or to the successful end.
    fn enter(&mut self, pos: usize)
        requires
            pos <= old(self).plan@.len(),
        ensures
            final(self)@ == start_at(steps_view(old(self).plan@), pos as int),
    {
        let at = start_cursor(&self.plan, pos);
        self.at = at;
    }

    /// Ends the run with the failure `reason`.
    fn fail(&mut self, reason: String)
        ensures
            final(self)@ == old(self)@.finished(Err(reason@)),
    {
        proof {
            use_type_invariant(&*self);
        }
        self.at.phase = PhaseOf::Finished { outcome: Err(reason) };
    }

    /// Asks about the existence of `found[index]`, or fails for want of the
    /// header where every place has been tried.
    fn probe(&mut self, found: Vec<String>, index: usize)
        requires
            old(self)@.pos < old(self)@.plan.len(),
            old(self)@.plan[old(self)@.pos] is InstallHeader,
        ensures
            final(self)@ == probe_from(old(self)@, found.deep_view(), index as int),
    {
        proof {
            use_type_invariant(&*self);
        }
        if index < found.len() {
            self.at.phase = PhaseOf::Probing { candidates: found, index };
        } else {
            self.at.phase = PhaseOf::Finished { outcome: Err(String::from_str(HEADER_MISSING)) };
        }
    }

    /// Whether the run is over.
    pub fn is_finished(&self) -> (res: bool)
        ensures
            res == self@.is_finished(),
    {
        match &self.at.phase {
            PhaseOf::Finished { .. } => true,
            _ => false,
        }
    }

    /// The outcome of the run where it is over, and `None` while it goes on.
    pub fn outcome(&self) -> (res: Option<Result<(), String>>)
        ensures
            match self@.phase {
                PhaseOf::Finished { outcome } => res matches Some(o) && outcome_view(o) == outcome,
                _ => res is None,
            },
    {
        match &self.at.phase {
            PhaseOf::Finished { outcome } => Some(
                match outcome {
                    Ok(()) => Ok(()),
                    Err(m) => Err(m.clone()),
                },
            ),
            _ => None,
        }
    }

    /// What the runner asks for now.
    pub fn pending(&self) -> (res: Directive)
        ensures
            res@ == pending(self@),
    {
        proof {
            use_type_invariant(self);
        }
        let pos: usize = self.at.pos;
        match &self.at.phase {
            PhaseOf::Working => match &self.plan[pos] {
                StepOf::MakeDir { path } => DirectiveOf::Do {
                    action: ActionOf::MakeDir { path: path.clone() },
                },
                StepOf::Write { path, content } => DirectiveOf::Do {
                    action: ActionOf::Write { path: path.clone(), content: content.clone() },
                },
                StepOf::Run { program, args } => DirectiveOf::Do {
                    action: ActionOf::Run { program: program.clone(), args: copy_texts(args) },
                },
                _ => DirectiveOf::Finish { outcome: Ok(()) },
            },
            PhaseOf::Locating => DirectiveOf::Do {
                action: ActionOf::LookUp { variable: String::from_str(HEADER_VARIABLE) },
            },
            PhaseOf::Probing { candidates, index } => DirectiveOf::Do {
                action: ActionOf::Probe { path: candidates[*index].clone() },
            },
            PhaseOf::Copying { from } => DirectiveOf::Do {
                action: ActionOf::Copy { from: from.clone(), to: String::from_str(HEADER_FILE) },
            },
            PhaseOf::Reporting => {
                let text = match &self.plan[pos] {
                    StepOf::Write { path, .. } => written(path.as_str()),
                    StepOf::Announce { text } => text.clone(),
                    _ => String::new(),
                };
                DirectiveOf::Do { action: ActionOf::Show { line: render_line(Tone::Success, text.as_str()) } }
            },
            PhaseOf::Copied { from } => {
                let text = copied(from.as_str());
                DirectiveOf::Do { action: ActionOf::Show { line: render_line(Tone::Success, text.as_str()) } }
            },
            PhaseOf::Finished { outcome } => DirectiveOf::Finish {
                outcome: match outcome {
                    Ok(()) => Ok(()),
                    Err(m) => Err(m.clone()),
                },
            },
        }
    }

    /// Takes in the outcome `event` of the last request, and says what the
    /// runner asks for next.
    pub fn advance(&mut self, event: Event) -> (res: Directive)
        ensures
            final(self)@ == next_state(old(self)@, event@),
            res@ == pending(final(self)@),
    {
        proof {
            use_type_invariant(&*self);
        }
        let pos: usize = self.at.pos;
        proof {
            assert(self@.plan.len() == self.plan@.len());
        }
        match &self.at.phase {
            PhaseOf::Working => {
                assert(pos < self.plan.len());
                let failure: Option<String> = match (&self.plan[pos], &event) {
                    (StepOf::MakeDir { .. }, EventOf::Ack) => None,
                    (StepOf::MakeDir { path }, EventOf::Failed { detail }) => Some(
                        mkdir_failure(path.as_str(), detail.as_str()),
                    ),
                    (StepOf::Write { .. }, EventOf::Ack) => None,
                    (StepOf::Write { path, .. }, EventOf::Failed { detail }) => Some(
                        write_failure(path.as_str(), detail.as_str()),
                    ),
                    (StepOf::Run { program, args }, EventOf::Exited { success, code }) => if *success {
                        None
                    } else {
                        Some(exit_failure(program.as_str(), args, *code))
                    },
                    (StepOf::Run { program, args }, EventOf::Failed { detail }) => Some(
                        spawn_failure(program.as_str(), args, detail.as_str()),
                    ),
                    _ => {
                        return self.pending();
                    },
                };
                match failure {
                    Some(reason) => self.fail(reason),
                    None => {
                        let is_write = match &self.plan[pos] {
                            StepOf::Write { .. } => true,
                            _ => false,
                        };
                        if is_write {
                            self.at.phase = PhaseOf::Reporting;
                        } else {
                            self.enter(pos + 1);
                        }
                    },
                }
            },
            PhaseOf::Locating => match event {
                EventOf::Hints { variable, executable, current } => {
                    let found = header_candidates(variable, executable, current, HEADER_FILE);
                    self.probe(found, 0);
                },
                _ => {},
            },
            PhaseOf::Probing { candidates, index } => match event {
                EventOf::Exists { found } => {
                    let index: usize = *index;
                    assert(candidates.deep_view().len() == candidates.len());
                    if found {
                        let from = candidates[index].clone();
                        self.at.phase = PhaseOf::Copying { from };
                    } else {
                        let rest = copy_texts(candidates);
                        self.probe(rest, index + 1);
                    }
                },
                _ => {},
            },
            PhaseOf::Copying { from } => match event {
                EventOf::Ack => {
                    let from = from.clone();
                    self.at.phase = PhaseOf::Copied { from };
                },
                EventOf::Failed { detail } => {
                    let reason = copy_failure(from.as_str(), HEADER_FILE, detail.as_str());
                    self.fail(reason);
                },
                _ => {},
            },
            PhaseOf::Reporting | PhaseOf::Copied { .. } => {
                assert(pos < self.plan.len());
                match event {
                    EventOf::Ack => self.enter(pos + 1),
                    _ => {},
                }
            },
            PhaseOf::Finished { .. } => {},
        }
        self.pending()
    }
}

} // verus!
