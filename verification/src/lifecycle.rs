//! The life of an engine instance, step by step: what the host does to
//! build a snapshot, what it does to run from one, and in which order. The
//! host performs a step and reports how it went; a step that failed ends
//! the life, and nothing is done after it.

use crate::catalogue::Phase;
use vstd::prelude::*;

verus! {

/// A script that the engine executes.
#[derive(Clone, Copy, Debug, PartialEq, Eq, Structural)]
pub enum Script {
    /// The guest program itself.
    Primary,
    /// The adapter that sits on what the guest program set up.
    Adapter,
    /// The script that hands control to the guest program.
    Startup,
}

/// One step of the host.
#[derive(Clone, Copy, Debug, PartialEq, Eq, Structural)]
pub enum Step {
    /// Make a fresh engine that will capture its heap.
    CreateEngine,
    /// Make an engine from the embedded snapshot.
    RestoreEngine,
    /// Register the operations of the phase's catalogue.
    RegisterOps,
    /// Execute a script in the engine.
    Execute(Script),
    /// Serialise the engine's heap.
    TakeSnapshot,
    /// Write the serialised heap where the build wants it.
    WriteSnapshot,
}

/// The steps of a phase, in order.
pub open spec fn spec_plan(phase: Phase) -> Seq<Step> {
    match phase {
        Phase::Build => seq![
            Step::CreateEngine,
            Step::RegisterOps,
            Step::Execute(Script::Primary),
            Step::Execute(Script::Adapter),
            Step::TakeSnapshot,
            Step::WriteSnapshot,
        ],
        Phase::Run => seq![Step::RestoreEngine, Step::RegisterOps, Step::Execute(Script::Startup)],
    }
}

/// The steps of a phase, in order.
pub fn plan(phase: Phase) -> (steps: Vec<Step>)
    ensures
        steps@ == spec_plan(phase),
{
    let steps = match phase {
        Phase::Build => vec![
            Step::CreateEngine,
            Step::RegisterOps,
            Step::Execute(Script::Primary),
            Step::Execute(Script::Adapter),
            Step::TakeSnapshot,
            Step::WriteSnapshot,
        ],
        Phase::Run => vec![Step::RestoreEngine, Step::RegisterOps, Step::Execute(Script::Startup)],
    };
    assert(steps@ =~= spec_plan(phase));
    steps
}

/// Where a life stands.
#[derive(Clone, Copy, Debug, PartialEq, Eq, Structural)]
pub enum Status {
    /// A step is due.
    Underway,
    /// Every step was done.
    Complete,
    /// A step failed: the build is aborted, or the process ends.
    Failed,
}

/// The life of one engine instance.
#[derive(Debug)]
pub struct Lifecycle {
    phase: Phase,
    done: usize,
    failed: bool,
}

/// A `Lifecycle` as a plain value.
pub struct LifecycleView {
    pub phase: Phase,
    /// How many steps were done.
    pub done: nat,
    /// Whether the step after them failed.
    pub failed: bool,
}

impl LifecycleView {
    /// The step that is due, if one is.
    pub open spec fn due(self) -> Option<Step> {
        if !self.failed && self.done < spec_plan(self.phase).len() {
            Some(spec_plan(self.phase)[self.done as int])
        } else {
            None
        }
    }

    /// Where the life stands.
    pub open spec fn status(self) -> Status {
        if self.failed {
            Status::Failed
        } else if self.done < spec_plan(self.phase).len() {
            Status::Underway
        } else {
            Status::Complete
        }
    }

    /// The life after the host has reported on the step that was due.
    /// Where no step was due, a report changes nothing.
    pub open spec fn reported(self, succeeded: bool) -> LifecycleView {
        if self.due() is None {
            self
        } else if succeeded {
            LifecycleView { done: self.done + 1, ..self }
        } else {
            LifecycleView { failed: true, ..self }
        }
    }
}

impl View for Lifecycle {
    type V = LifecycleView;

    closed spec fn view(&self) -> LifecycleView {
        LifecycleView { phase: self.phase, done: self.done as nat, failed: self.failed }
    }
}

impl Lifecycle {
    /// No more steps are done than the phase has.
    pub open spec fn wf(&self) -> bool {
        self@.done <= spec_plan(self@.phase).len()
    }

    /// A life of the given phase with nothing done yet.
    pub fn start(phase: Phase) -> (r: Lifecycle)
        ensures
            r.wf(),
            r@ == (LifecycleView { phase, done: 0, failed: false }),
    {
        Lifecycle { phase, done: 0, failed: false }
    }

    /// The step that is due, if one is.
    pub fn next_step(&self) -> (r: Option<Step>)
        ensures
            r == self@.due(),
    {
        let steps = plan(self.phase);
        if !self.failed && self.done < steps.len() {
            Some(steps[self.done])
        } else {
            None
        }
    }

    /// Takes the host's report on the step that was due.
    pub fn report(&mut self, succeeded: bool)
        requires
            old(self).wf(),
        ensures
            final(self).wf(),
            final(self)@ == old(self)@.reported(succeeded),
    {
        if self.next_step().is_some() {
            if succeeded {
                self.done = self.done + 1;
            } else {
                self.failed = true;
            }
        }
    }

    /// Where the life stands.
    pub fn status(&self) -> (r: Status)
        ensures
            r == self@.status(),
    {
        if self.failed {
            Status::Failed
        } else if self.done < plan(self.phase).len() {
            Status::Underway
        } else {
            Status::Complete
        }
    }
}

/// The life that a run of reports leads to, from a given life on.
pub open spec fn after_reports(life: LifecycleView, reports: Seq<bool>) -> LifecycleView
    decreases reports.len(),
{
    if reports.len() == 0 {
        life
    } else {
        after_reports(life, reports.drop_last()).reported(reports.last())
    }
}

/// Whatever the host reports, from the start of a phase on: a step is due
/// only while every step before it in the plan has been done and none has
/// failed. So the snapshot is never written unless both scripts ran, the
/// primary one first, and the heap was serialised; and after a failure
/// nothing is due any more.
pub proof fn lemma_steps_in_order(phase: Phase, reports: Seq<bool>)
    ensures
        ({
            let life = after_reports(LifecycleView { phase, done: 0, failed: false }, reports);
            &&& life.phase == phase
            &&& life.done <= spec_plan(phase).len()
            &&& life.done <= reports.len()
            &&& forall|k: int| 0 <= k < life.done ==> #[trigger] reports[k]
            &&& (life.failed ==> life.done < reports.len() && !reports[life.done as int])
            &&& (life.failed ==> life.due() is None)
            &&& (life.due() matches Some(step) ==> life.done == reports.len() && step
                == spec_plan(phase)[life.done as int])
        }),
    decreases reports.len(),
{
    if reports.len() > 0 {
        lemma_steps_in_order(phase, reports.drop_last());
        let before = after_reports(
            LifecycleView { phase, done: 0, failed: false },
            reports.drop_last(),
        );
        let life = before.reported(reports.last());
        assert forall|k: int| 0 <= k < life.done implies #[trigger] reports[k] by {
            if k < before.done {
                assert(reports.drop_last()[k] == reports[k]);
            }
        }
        if before.failed {
            assert(reports.drop_last()[before.done as int] == reports[before.done as int]);
        }
    }
}

} // verus!
