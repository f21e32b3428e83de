//! The registry of monitored targets.

use vstd::prelude::*;
use dashmap::DashMap;
use tokio::task::JoinHandle;
use crate::config::{SystemConfig, SystemConfigView};
use crate::monitor::clock::{current_time, Timestamp};
use crate::monitor::ident::{fresh_id, is_random_uuid};
use crate::monitor::probe::CheckReport;
use crate::monitor::status::{transition, Check, StatusView, SystemStatus, Transition};
use crate::monitor::store::{
    abort_task, copy_record, delete_record, has_record, new_records, new_tasks, put_record,
    put_task, record_ids, records, take_task, task_ids,
};
use crate::monitor::supervisor::{step_for, SupervisorStepView};

verus! {

/// Why a target could not be taken into the registry.
#[derive(Debug, Clone, Copy, PartialEq, Eq, Structural)]
pub enum MonitorError {
    /// The identifier meant for the new target belongs to a target that is
    /// monitored already.
    IdentifierInUse,
}

/// Mathematical content of a [`MonitorManager`]: the record of each target by
/// its identifier, and the identifiers whose supervisor task the registry
/// holds.
pub struct MonitorView {
    pub records: Map<u128, StatusView>,
    pub supervised: Set<u128>,
}

impl MonitorView {
    /// A registry without targets.
    pub open spec fn empty() -> MonitorView {
        MonitorView { records: Map::empty(), supervised: Set::empty() }
    }

    /// There are finitely many records, each stored under its own identifier
    /// and well-formed, and the supervised targets are exactly the targets
    /// that have a record.
    pub open spec fn wf(self) -> bool {
        &&& self.records.dom().finite()
        &&& forall|id: u128| #[trigger]
            self.records.contains_key(id) ==> self.records[id].id == id && self.records[id].wf()
        &&& self.supervised == self.records.dom()
    }

    /// The registry with one more target, not checked yet, and its
    /// supervisor.
    pub open spec fn with_target(
        self,
        id: u128,
        config: SystemConfigView,
        at: Timestamp,
    ) -> MonitorView {
        MonitorView {
            records: self.records.insert(id, StatusView::created(id, config, at)),
            supervised: self.supervised.insert(id),
        }
    }

    /// The registry without the target `id` and without its supervisor.
    pub open spec fn without_target(self, id: u128) -> MonitorView {
        MonitorView { records: self.records.remove(id), supervised: self.supervised.remove(id) }
    }

    /// Whether a check reported for `id` is folded into a record: the target
    /// must be there, and its counter of checks must have room for one more.
    pub open spec fn takes_check(self, id: u128) -> bool {
        self.records.contains_key(id) && self.records[id].total_checks < u64::MAX
    }

    /// The registry after a check was reported for `id`.
    pub open spec fn with_check(self, id: u128, check: Check) -> MonitorView {
        if self.takes_check(id) {
            MonitorView {
                records: self.records.insert(id, self.records[id].after_check(check)),
                supervised: self.supervised,
            }
        } else {
            self
        }
    }

    /// Whether some target is monitored under an identifier of the kind that
    /// is drawn for new targets: a random UUID.
    pub open spec fn uses_drawn_identifier(self) -> bool {
        exists|id: u128| is_random_uuid(id) && #[trigger] self.records.contains_key(id)
    }

    /// The record of `id`, if it is monitored.
    pub open spec fn lookup(self, id: u128) -> Option<StatusView> {
        if self.records.contains_key(id) {
            Some(self.records[id])
        } else {
            None
        }
    }

    /// What a running supervisor of `id` does at its next tick.
    pub open spec fn step(self, id: u128) -> SupervisorStepView {
        step_for(self.lookup(id))
    }
}

/// The views of a list of records, in order.
pub open spec fn status_views(list: Seq<SystemStatus>) -> Seq<StatusView> {
    Seq::new(list.len(), |i: int| list[i]@)
}

/// Whether `list` shows the records of a registry: each of them once, and
/// nothing else, in any order.
pub open spec fn is_listing(list: Seq<StatusView>, records: Map<u128, StatusView>) -> bool {
    &&& forall|i: int|
        0 <= i < list.len() ==> records.contains_key((#[trigger] list[i]).id) && records[list[i].id]
            == list[i]
    &&& forall|i: int, j: int|
        0 <= i < j < list.len() ==> (#[trigger] list[i]).id != (#[trigger] list[j]).id
    &&& forall|id: u128| #[trigger]
        records.contains_key(id) ==> exists|i: int|
            0 <= i < list.len() && (#[trigger] list[i]).id == id
}

/// A listing is as long as the registry has records, and only a registry of
/// finitely many records has one.
pub proof fn lemma_listing_counts(list: Seq<StatusView>, records: Map<u128, StatusView>)
    requires
        is_listing(list, records),
    ensures
        records.dom().finite(),
        records.dom().len() == list.len(),
{
    let ids = Seq::new(list.len(), |i: int| list[i].id);
    assert forall|id: u128| ids.to_set().contains(id) == records.dom().contains(id) by {
        if ids.to_set().contains(id) {
            let i = choose|i: int| 0 <= i < ids.len() && ids[i] == id;
            assert(list[i].id == id);
        }
        if records.contains_key(id) {
            let i = choose|i: int| 0 <= i < list.len() && (#[trigger] list[i]).id == id;
            assert(ids[i] == id);
        }
    }
    assert(ids.to_set() =~= records.dom());
    ids.unique_seq_to_set();
    vstd::seq_lib::seq_to_set_is_finite(ids);
}

/// The monitored targets, each with its status record, and the supervisor
/// tasks that check them.
pub struct MonitorManager {
    systems: DashMap<u128, SystemStatus>,
    monitoring_tasks: DashMap<u128, JoinHandle<()>>,
}

impl View for MonitorManager {
    type V = MonitorView;

    closed spec fn view(&self) -> MonitorView {
        MonitorView {
            records: records(self.systems).map_values(|status: SystemStatus| status@),
            supervised: task_ids(self.monitoring_tasks),
        }
    }
}

impl Default for MonitorManager {
    fn default() -> (manager: Self)
        ensures
            manager@ == MonitorView::empty(),
            manager@.wf(),
    {
        Self::new()
    }
}

impl MonitorManager {
    /// A registry without targets.
    pub fn new() -> (manager: Self)
        ensures
            manager@ == MonitorView::empty(),
            manager@.wf(),
    {
        let manager = MonitorManager { systems: new_records(), monitoring_tasks: new_tasks() };
        assert(manager@.records =~= Map::empty());
        manager
    }

    /// Takes a target into the registry under the identifier `id`: creates
    /// its record, stamped `created_at`, then has `start` start the
    /// supervisor of `id` and keeps the task it returns. An identifier that
    /// is in use is refused: the registry stays as it is and `start` is not
    /// called.
    pub fn add_system_as<F: FnOnce(u128) -> JoinHandle<()>>(
        &mut self,
        id: u128,
        created_at: Timestamp,
        config: SystemConfig,
        start: F,
    ) -> (outcome: Result<u128, MonitorError>)
        requires
            old(self)@.wf(),
            start.requires((id,)),
        ensures
            final(self)@.wf(),
            old(self)@.records.contains_key(id) ==> outcome is Err && outcome->Err_0
                == MonitorError::IdentifierInUse && final(self)@ == old(self)@,
            !old(self)@.records.contains_key(id) ==> outcome is Ok && outcome->Ok_0 == id
                && final(self)@ == old(self)@.with_target(id, config@, created_at),
    {
        if has_record(&self.systems, id) {
            Err(MonitorError::IdentifierInUse)
        } else {
            let status = SystemStatus::with_identity(id, config, created_at);
            put_record(&mut self.systems, id, status);
            let task = start(id);
            put_task(&mut self.monitoring_tasks, id, task);
            assert(self@.records =~= old(self)@.with_target(id, config@, created_at).records);
            Ok(id)
        }
    }

    /// Takes a target into the registry under a newly drawn identifier:
    /// creates its record, stamped with the current time, then has `start`
    /// start the supervisor of that identifier and keeps the task it
    /// returns. Returns the identifier. Should the identifier drawn be in
    /// use, the target is refused: the registry stays as it is and `start` is
    /// not called. The identifier drawn is a random UUID, so the target is
    /// taken in whenever no target is monitored under such an identifier, as
    /// in an empty registry.
    pub fn add_system<F: FnOnce(u128) -> JoinHandle<()>>(
        &mut self,
        config: SystemConfig,
        start: F,
    ) -> (outcome: Result<u128, MonitorError>)
        requires
            old(self)@.wf(),
            forall|id: u128| start.requires((id,)),
        ensures
            final(self)@.wf(),
            !old(self)@.uses_drawn_identifier() ==> outcome is Ok,
            outcome is Err ==> outcome->Err_0 == MonitorError::IdentifierInUse && final(self)@
                == old(self)@,
            outcome is Ok ==> is_random_uuid(outcome->Ok_0) && !old(self)@.records.contains_key(
                outcome->Ok_0,
            ) && final(self)@.records[outcome->Ok_0].last_check.is_clock_reading() && final(self)@
                == old(self)@.with_target(
                outcome->Ok_0,
                config@,
                final(self)@.records[outcome->Ok_0].last_check,
            ),
    {
        let id = fresh_id();
        let now = current_time();
        assert(old(self)@.records.contains_key(id) ==> old(self)@.uses_drawn_identifier());
        self.add_system_as(id, now, config, start)
    }

    /// Stops monitoring `id`: its record is deleted and its supervisor task
    /// is cancelled. An identifier that is not monitored changes nothing.
    pub fn remove_system(&mut self, id: u128)
        requires
            old(self)@.wf(),
        ensures
            final(self)@.wf(),
            final(self)@ == old(self)@.without_target(id),
            !old(self)@.records.contains_key(id) ==> final(self)@ == old(self)@,
    {
        delete_record(&mut self.systems, id);
        if let Some(task) = take_task(&mut self.monitoring_tasks, id) {
            abort_task(&task);
        }
        proof {
            assert(self@.records =~= old(self)@.records.remove(id));
            if !old(self)@.records.contains_key(id) {
                assert(old(self)@.records.remove(id) =~= old(self)@.records);
                assert(old(self)@.supervised.remove(id) =~= old(self)@.supervised);
            }
        }
    }

    /// Copies of all records, each once, in no particular order.
    pub fn get_systems(&self) -> (list: Vec<SystemStatus>)
        requires
            self@.wf(),
        ensures
            is_listing(status_views(list@), self@.records),
            self@.records.dom().finite(),
            list@.len() == self@.records.dom().len(),
    {
        let ids = record_ids(&self.systems);
        let mut list: Vec<SystemStatus> = Vec::new();
        let mut i: usize = 0;
        while i < ids.len()
            invariant
                i <= ids.len(),
                list.len() == i,
                forall|id: u128| ids@.contains(id) == records(self.systems).contains_key(id),
                forall|k: int| 0 <= k < i ==> list@[k] == records(self.systems)[#[trigger] ids@[k]],
            decreases ids.len() - i,
        {
            assert(ids@.contains(ids@[i as int]));
            if let Some(status) = copy_record(&self.systems, ids[i]) {
                list.push(status);
            }
            i += 1;
        }
        proof {
            let views = status_views(list@);
            assert forall|k: int| 0 <= k < views.len() implies (#[trigger] views[k]).id == ids@[k]
                && self@.records.contains_key(ids@[k]) && self@.records[ids@[k]] == views[k] by {
                assert(ids@.contains(ids@[k]));
                assert(self@.records.contains_key(ids@[k]));
            }
            assert forall|id: u128| #[trigger] self@.records.contains_key(id) implies exists|
                k: int,
            |
                0 <= k < views.len() && (#[trigger] views[k]).id == id by {
                assert(ids@.contains(id));
                let k = choose|k: int| 0 <= k < ids@.len() && ids@[k] == id;
                assert(views[k].id == id);
            }
            lemma_listing_counts(views, self@.records);
        }
        list
    }

    /// A copy of the record of `id`, if it is monitored.
    pub fn get_system(&self, id: u128) -> (found: Option<SystemStatus>)
        ensures
            (found is Some) == self@.records.contains_key(id),
            found is Some ==> found->Some_0@ == self@.records[id],
    {
        copy_record(&self.systems, id)
    }

    /// Folds the report of a check that ended at `now` into the record of
    /// `id`, as one replacement of the stored record, and returns the change
    /// of state, if there was one. Nothing changes if `id` is not monitored,
    /// or if its record has counted as many checks as the counter can hold.
    pub fn record_check_at(&mut self, id: u128, now: Timestamp, report: CheckReport) -> (event:
        Option<Transition>)
        requires
            old(self)@.wf(),
        ensures
            final(self)@.wf(),
            final(self)@ == old(self)@.with_check(id, report@.at(now)),
            event == if old(self)@.takes_check(id) {
                transition(old(self)@.records[id].is_online, report.is_online)
            } else {
                None
            },
    {
        match copy_record(&self.systems, id) {
            None => None,
            Some(status) => {
                let mut status = status;
                assert(old(self)@.records.contains_key(id));
                if status.total_checks == u64::MAX {
                    None
                } else {
                    let event = status.update_status_at(
                        now,
                        report.is_online,
                        report.response_time_ms,
                        report.error,
                    );
                    put_record(&mut self.systems, id, status);
                    assert(self@.records =~= old(self)@.with_check(id, report@.at(now)).records);
                    assert(self@.records.dom() =~= old(self)@.records.dom());
                    event
                }
            },
        }
    }

    /// Folds the report of a check that ended just now into the record of
    /// `id` and returns the change of state, if there was one. The time is
    /// read from the clock and is found in the record afterwards. Nothing
    /// changes if `id` is not monitored, or if its record has counted as
    /// many checks as the counter can hold.
    pub fn record_check(&mut self, id: u128, report: CheckReport) -> (event: Option<Transition>)
        requires
            old(self)@.wf(),
        ensures
            final(self)@.wf(),
            old(self)@.takes_check(id) ==> final(self)@ == old(self)@.with_check(
                id,
                report@.at(final(self)@.records[id].last_check),
            ) && event == transition(old(self)@.records[id].is_online, report.is_online),
            !old(self)@.takes_check(id) ==> final(self)@ == old(self)@ && event is None,
    {
        let now = current_time();
        self.record_check_at(id, now, report)
    }
}

} // verus!
