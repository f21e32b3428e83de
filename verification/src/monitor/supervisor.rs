//! What the supervisor of one target does at each tick.
//!
//! A supervisor is a loop that runs outside this crate: at each tick it
//! looks up the record of its target, asks for the step to take, carries it
//! out, hands back what the probe found, and waits for the next tick. It is
//! running until it finds its target gone; from then on it is stopped and
//! stays so, whatever becomes of the identifier. The decisions are made
//! here.

use vstd::prelude::*;
use crate::monitor::manager::MonitorManager;
use crate::monitor::probe::{plan_probe, probe_plan_of, ProbePlan, ProbePlanView};
use crate::monitor::status::{StatusView, SystemStatus};

verus! {

/// Seconds a supervisor waits between two ticks, whatever the last check
/// found. The interval is the same for every target; the
/// `check_interval_seconds` of a [`crate::config::Config`] is kept with the
/// configuration and not consulted here.
pub const CHECK_INTERVAL_SECONDS: u64 = 30;

/// Whether a supervisor still has work to do.
#[derive(Debug, Clone, Copy, PartialEq, Eq, Structural)]
pub enum SupervisorState {
    Running,
    Stopped,
}

/// What a supervisor does at one tick.
#[derive(Debug, PartialEq, Eq)]
pub enum SupervisorStep {
    /// The target is gone: end the loop.
    Stop,
    /// The target is disabled: run no probe, touch no record, wait for the
    /// next tick.
    Skip,
    /// Run this probe once, report what it found, wait for the next tick.
    Probe(ProbePlan),
}

/// Mathematical content of a [`SupervisorStep`].
pub enum SupervisorStepView {
    Stop,
    Skip,
    Probe(ProbePlanView),
}

impl View for SupervisorStep {
    type V = SupervisorStepView;

    open spec fn view(&self) -> SupervisorStepView {
        match *self {
            SupervisorStep::Stop => SupervisorStepView::Stop,
            SupervisorStep::Skip => SupervisorStepView::Skip,
            SupervisorStep::Probe(plan) => SupervisorStepView::Probe(plan@),
        }
    }
}

/// The step that the record found for a target calls for.
pub open spec fn step_for(record: Option<StatusView>) -> SupervisorStepView {
    match record {
        None => SupervisorStepView::Stop,
        Some(status) => if status.config.enabled {
            SupervisorStepView::Probe(probe_plan_of(status.config))
        } else {
            SupervisorStepView::Skip
        },
    }
}

/// The step of a supervisor in `state` that finds `record` for its target:
/// a stopped supervisor does nothing but stop.
pub open spec fn step_in(state: SupervisorState, record: Option<StatusView>) -> SupervisorStepView {
    match state {
        SupervisorState::Stopped => SupervisorStepView::Stop,
        SupervisorState::Running => step_for(record),
    }
}

/// The state after a tick: a supervisor keeps running exactly as long as it
/// finds a record for its target.
pub open spec fn state_after(state: SupervisorState, record: Option<StatusView>) -> SupervisorState {
    if state == SupervisorState::Running && record is Some {
        SupervisorState::Running
    } else {
        SupervisorState::Stopped
    }
}

/// The state after a run of ticks, given what each of them found.
pub open spec fn state_after_ticks(
    state: SupervisorState,
    found: Seq<Option<StatusView>>,
) -> SupervisorState
    decreases found.len(),
{
    if found.len() == 0 {
        state
    } else {
        state_after(state_after_ticks(state, found.drop_last()), found.last())
    }
}

/// The view of a record that may be missing.
pub open spec fn record_view(record: Option<SystemStatus>) -> Option<StatusView> {
    match record {
        Some(status) => Some(status@),
        None => None,
    }
}

/// Decides the step of one tick from the record found for the target: stop
/// if there is none, skip if the target is disabled, else probe as its
/// configuration says.
pub fn decide_step(record: Option<SystemStatus>) -> (step: SupervisorStep)
    ensures
        step@ == step_for(record_view(record)),
{
    match record {
        None => SupervisorStep::Stop,
        Some(status) => {
            if status.config.enabled {
                SupervisorStep::Probe(plan_probe(&status.config))
            } else {
                SupervisorStep::Skip
            }
        },
    }
}

/// The supervisor of one target.
#[derive(Debug, PartialEq, Eq)]
pub struct Supervisor {
    /// The identifier of the target.
    pub id: u128,
    pub state: SupervisorState,
}

impl Supervisor {
    /// A running supervisor for the target `id`.
    pub fn new(id: u128) -> (supervisor: Self)
        ensures
            supervisor.id == id,
            supervisor.state == SupervisorState::Running,
    {
        Supervisor { id, state: SupervisorState::Running }
    }

    /// One tick: looks up the record of the target in `registry`, returns
    /// the step to take and moves to the state that follows. A running
    /// supervisor that finds no record stops; a stopped one stays stopped
    /// and is told to stop again.
    pub fn tick(&mut self, registry: &MonitorManager) -> (step: SupervisorStep)
        ensures
            step@ == step_in(old(self).state, registry@.lookup(old(self).id)),
            final(self).state == state_after(old(self).state, registry@.lookup(old(self).id)),
            final(self).id == old(self).id,
    {
        match self.state {
            SupervisorState::Stopped => SupervisorStep::Stop,
            SupervisorState::Running => {
                let record = registry.get_system(self.id);
                if record.is_none() {
                    self.state = SupervisorState::Stopped;
                }
                decide_step(record)
            },
        }
    }
}

/// Law: a supervisor stops when it finds its target gone, and only then: a
/// running supervisor is told to stop if and only if it finds no record, and
/// is stopped afterwards if and only if it was told to stop.
pub proof fn lemma_stops_exactly_without_record(record: Option<StatusView>)
    ensures
        step_in(SupervisorState::Running, record) == SupervisorStepView::Stop <==> record is None,
        state_after(SupervisorState::Running, record) == SupervisorState::Stopped <==> record
            is None,
{
}

/// Law: stopped is final. Whatever a stopped supervisor finds at later
/// ticks, it stays stopped and takes no step but to stop; and once a run of
/// ticks has met a missing record, the supervisor is stopped at its end.
pub proof fn lemma_stopped_is_final(state: SupervisorState, found: Seq<Option<StatusView>>)
    ensures
        state_after_ticks(SupervisorState::Stopped, found) == SupervisorState::Stopped,
        forall|record: Option<StatusView>|
            step_in(
                state_after_ticks(SupervisorState::Stopped, found),
                record,
            ) == SupervisorStepView::Stop,
        (exists|i: int| 0 <= i < found.len() && #[trigger] found[i] is None) ==> state_after_ticks(
            state,
            found,
        ) == SupervisorState::Stopped,
        state_after_ticks(state, found) == SupervisorState::Running <==> state
            == SupervisorState::Running && forall|i: int|
            0 <= i < found.len() ==> #[trigger] found[i] is Some,
    decreases found.len(),
{
    if found.len() > 0 {
        let before = found.drop_last();
        lemma_stopped_is_final(state, before);
        lemma_stopped_is_final(SupervisorState::Stopped, before);
        if state_after_ticks(state, found) == SupervisorState::Running {
            assert forall|i: int| 0 <= i < found.len() implies #[trigger] found[i] is Some by {
                if i < before.len() {
                    assert(before[i] is Some);
                }
            }
        }
        if state == SupervisorState::Running && forall|i: int|
            0 <= i < found.len() ==> #[trigger] found[i] is Some {
            assert forall|i: int| 0 <= i < before.len() implies #[trigger] before[i] is Some by {
                assert(found[i] is Some);
            }
        }
    }
}

} // verus!
