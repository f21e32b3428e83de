//! What holds of the registry over every order of additions, removals and
//! checks.

use vstd::prelude::*;
use crate::config::SystemConfigView;
use crate::monitor::clock::Timestamp;
use crate::monitor::manager::{is_listing, lemma_listing_counts, MonitorView};
use crate::monitor::status::{uptime_of, Check, StatusView};
use crate::monitor::supervisor::SupervisorStepView;

verus! {

/// One addition: the identifier drawn for the target, its configuration and
/// the time its record is created.
pub struct NewTarget {
    pub id: u128,
    pub config: SystemConfigView,
    pub at: Timestamp,
}

impl NewTarget {
    /// The record that the addition creates.
    pub open spec fn record(self) -> StatusView {
        StatusView::created(self.id, self.config, self.at)
    }
}

/// The additions carry identifiers that differ from one another and from
/// those in `registry`.
pub open spec fn fresh_and_distinct(registry: MonitorView, additions: Seq<NewTarget>) -> bool {
    &&& forall|k: int|
        0 <= k < additions.len() ==> !registry.records.contains_key((#[trigger] additions[k]).id)
    &&& forall|k: int, l: int|
        0 <= k < l < additions.len() ==> (#[trigger] additions[k]).id != (
        #[trigger] additions[l]).id
}

impl MonitorView {
    /// The registry after a run of additions, made one after the other.
    pub open spec fn with_targets(self, additions: Seq<NewTarget>) -> MonitorView
        decreases additions.len(),
    {
        if additions.len() == 0 {
            self
        } else {
            let last = additions.last();
            self.with_targets(additions.drop_last()).with_target(last.id, last.config, last.at)
        }
    }
}

/// Law: removing a target that is not monitored is no change at all. The
/// records, their number and the attached supervisors are what they were.
pub proof fn lemma_remove_unknown_changes_nothing(registry: MonitorView, id: u128)
    requires
        registry.wf(),
        !registry.records.contains_key(id),
    ensures
        registry.without_target(id) == registry,
        registry.without_target(id).records.dom() == registry.records.dom(),
        registry.without_target(id).supervised == registry.supervised,
{
    assert(registry.records.remove(id) =~= registry.records);
    assert(registry.supervised.remove(id) =~= registry.supervised);
}

/// Law: removal takes away one target and its supervisor and leaves every
/// other record and supervisor alone.
pub proof fn lemma_remove_spares_the_others(registry: MonitorView, id: u128, other: u128)
    requires
        registry.wf(),
        other != id,
    ensures
        registry.without_target(id).wf(),
        !registry.without_target(id).records.contains_key(id),
        !registry.without_target(id).supervised.contains(id),
        registry.without_target(id).lookup(other) == registry.lookup(other),
        registry.without_target(id).supervised.contains(other) == registry.supervised.contains(
            other,
        ),
{
}

/// Law: right after a target was added under an unused identifier, every
/// listing of the registry shows its record, exactly once, without a check
/// counted and offline; the listing is one longer than the registry was
/// large, and of length one if the registry was empty.
pub proof fn lemma_added_target_is_listed_once(
    registry: MonitorView,
    target: NewTarget,
    list: Seq<StatusView>,
)
    requires
        registry.wf(),
        !registry.records.contains_key(target.id),
        is_listing(list, registry.with_target(target.id, target.config, target.at).records),
    ensures
        exists|i: int|
            0 <= i < list.len() && #[trigger] list[i] == target.record() && list[i].total_checks
                == 0 && !list[i].is_online,
        forall|i: int, j: int|
            0 <= i < list.len() && 0 <= j < list.len() && (#[trigger] list[i]).id == target.id && (
            #[trigger] list[j]).id == target.id ==> i == j,
        list.len() == registry.records.dom().len() + 1,
        registry == MonitorView::empty() ==> list.len() == 1,
{
    let after = registry.with_target(target.id, target.config, target.at);
    assert(after.records.contains_key(target.id));
    let i = choose|i: int| 0 <= i < list.len() && (#[trigger] list[i]).id == target.id;
    assert(list[i] == target.record());
    lemma_listing_counts(list, after.records);
    assert(after.records.dom() =~= registry.records.dom().insert(target.id));
}

/// Law: once a target is removed, no check reported for it changes
/// anything, its supervisor is told to stop at its next tick, and no
/// supervisor is attached to it.
pub proof fn lemma_removed_target_gets_no_update(registry: MonitorView, id: u128, check: Check)
    ensures
        registry.without_target(id).with_check(id, check) == registry.without_target(id),
        registry.without_target(id).step(id) == SupervisorStepView::Stop,
        !registry.without_target(id).supervised.contains(id),
        registry.without_target(id).lookup(id) is None,
{
}

/// A check reported for a target leaves the registry well-formed, with the
/// same targets and the same supervisors.
pub proof fn lemma_check_keeps_well_formed(registry: MonitorView, id: u128, check: Check)
    requires
        registry.wf(),
    ensures
        registry.with_check(id, check).wf(),
        registry.with_check(id, check).records.dom() == registry.records.dom(),
        registry.with_check(id, check).supervised == registry.supervised,
{
    if registry.takes_check(id) {
        let after = registry.with_check(id, check);
        assert(after.records.dom() =~= registry.records.dom());
    }
}

/// Law: a check reported for one target leaves the record of every other
/// target as it was. Records are written by their own supervisor only.
pub proof fn lemma_check_touches_one_record(
    registry: MonitorView,
    id: u128,
    check: Check,
    other: u128,
)
    requires
        other != id,
    ensures
        registry.with_check(id, check).lookup(other) == registry.lookup(other),
{
}

/// What a run of additions under fresh, distinct identifiers leaves behind:
/// the records that were there, unchanged, and one new record for each
/// addition.
pub proof fn lemma_additions_described(registry: MonitorView, additions: Seq<NewTarget>)
    requires
        registry.wf(),
        fresh_and_distinct(registry, additions),
    ensures
        registry.with_targets(additions).wf(),
        forall|id: u128|
            registry.with_targets(additions).records.contains_key(id) <==> (
            registry.records.contains_key(id) || exists|k: int|
                0 <= k < additions.len() && (#[trigger] additions[k]).id == id),
        forall|id: u128| #[trigger]
            registry.records.contains_key(id) ==> registry.with_targets(additions).records[id]
                == registry.records[id],
        forall|k: int|
            0 <= k < additions.len() ==> registry.with_targets(additions).records[(
            #[trigger] additions[k]).id] == additions[k].record(),
        registry.with_targets(additions).records.dom().len() == registry.records.dom().len()
            + additions.len(),
    decreases additions.len(),
{
    if additions.len() > 0 {
        let before = additions.drop_last();
        let last = additions.last();
        let n = additions.len() - 1;
        // The additions before the last are fresh and distinct as well.
        assert forall|k: int| 0 <= k < n implies before[k] == additions[k] by {}
        assert(fresh_and_distinct(registry, before));
        lemma_additions_described(registry, before);
        let mid = registry.with_targets(before);
        let after = registry.with_targets(additions);
        // The last identifier is new to the registry they leave behind.
        assert(!mid.records.contains_key(last.id)) by {
            if mid.records.contains_key(last.id) {
                let k = choose|k: int| 0 <= k < before.len() && (#[trigger] before[k]).id == last.id;
                assert(additions[k].id != additions[n].id);
            }
        }
        assert forall|id: u128| after.records.contains_key(id) <==> (registry.records.contains_key(
            id,
        ) || exists|k: int| 0 <= k < additions.len() && (#[trigger] additions[k]).id == id) by {
            if mid.records.contains_key(id) && !registry.records.contains_key(id) {
                let k = choose|k: int| 0 <= k < before.len() && (#[trigger] before[k]).id == id;
                assert(additions[k].id == id);
            }
            if exists|k: int| 0 <= k < additions.len() && (#[trigger] additions[k]).id == id {
                let k = choose|k: int| 0 <= k < additions.len() && (#[trigger] additions[k]).id == id;
                if k < n {
                    assert(before[k].id == id);
                }
            }
        }
        assert forall|k: int| 0 <= k < additions.len() implies after.records[(
        #[trigger] additions[k]).id] == additions[k].record() by {
            if k < n {
                assert(additions[k].id != additions[n].id);
            }
        }
        assert(after.records.dom() =~= mid.records.dom().insert(last.id));
    }
}

/// Law: additions under fresh, distinct identifiers all end up in the
/// registry. Added to an empty registry, `n` targets give `n` records, and
/// every listing shows `n` records with `n` different identifiers.
pub proof fn lemma_every_addition_is_listed(additions: Seq<NewTarget>, list: Seq<StatusView>)
    requires
        fresh_and_distinct(MonitorView::empty(), additions),
        is_listing(list, MonitorView::empty().with_targets(additions).records),
    ensures
        list.len() == additions.len(),
        forall|i: int, j: int|
            0 <= i < j < list.len() ==> (#[trigger] list[i]).id != (#[trigger] list[j]).id,
        forall|k: int|
            0 <= k < additions.len() ==> exists|i: int|
                0 <= i < list.len() && #[trigger] list[i] == (#[trigger] additions[k]).record(),
{
    let empty = MonitorView::empty();
    let after = empty.with_targets(additions);
    lemma_additions_described(empty, additions);
    lemma_listing_counts(list, after.records);
    assert forall|k: int| 0 <= k < additions.len() implies exists|i: int|
        0 <= i < list.len() && #[trigger] list[i] == (#[trigger] additions[k]).record() by {
        let id = additions[k].id;
        assert(after.records.contains_key(id));
        let i = choose|i: int| 0 <= i < list.len() && (#[trigger] list[i]).id == id;
        assert(list[i] == additions[k].record());
    }
}

/// Law: the order of additions does not matter. Two runs that hold the same
/// additions, under fresh and distinct identifiers, leave the same registry.
pub proof fn lemma_additions_in_any_order(
    registry: MonitorView,
    first: Seq<NewTarget>,
    second: Seq<NewTarget>,
)
    requires
        registry.wf(),
        fresh_and_distinct(registry, first),
        fresh_and_distinct(registry, second),
        forall|target: NewTarget| first.contains(target) <==> second.contains(target),
    ensures
        registry.with_targets(first) == registry.with_targets(second),
{
    let a = registry.with_targets(first);
    let b = registry.with_targets(second);
    lemma_additions_described(registry, first);
    lemma_additions_described(registry, second);
    assert forall|id: u128| a.records.contains_key(id) implies b.records.contains_key(id)
        && a.records[id] == b.records[id] by {
        lemma_same_record(registry, first, second, id);
    }
    assert forall|id: u128| b.records.contains_key(id) implies a.records.contains_key(id) by {
        lemma_same_record(registry, second, first, id);
    }
    assert(a.records =~= b.records);
}

/// A record found after one run of additions is found, equal, after any run
/// that holds the same additions.
proof fn lemma_same_record(
    registry: MonitorView,
    first: Seq<NewTarget>,
    second: Seq<NewTarget>,
    id: u128,
)
    requires
        registry.wf(),
        fresh_and_distinct(registry, first),
        fresh_and_distinct(registry, second),
        forall|target: NewTarget| first.contains(target) ==> second.contains(target),
        registry.with_targets(first).records.contains_key(id),
    ensures
        registry.with_targets(second).records.contains_key(id),
        registry.with_targets(first).records[id] == registry.with_targets(second).records[id],
{
    lemma_additions_described(registry, first);
    lemma_additions_described(registry, second);
    if !registry.records.contains_key(id) {
        let k = choose|k: int| 0 <= k < first.len() && (#[trigger] first[k]).id == id;
        assert(first.contains(first[k]));
        assert(second.contains(first[k]));
        let l = choose|l: int| 0 <= l < second.len() && second[l] == first[k];
        assert(second[l].id == id);
    }
}

/// One operation on the registry.
pub enum Operation {
    /// A target is added; refused if its identifier is in use.
    Add(NewTarget),
    /// The target under this identifier is removed.
    Remove(u128),
    /// A check is reported for the target under this identifier.
    Report(u128, Check),
}

impl MonitorView {
    /// The registry after one operation.
    pub open spec fn after(self, operation: Operation) -> MonitorView {
        match operation {
            Operation::Add(target) => if self.records.contains_key(target.id) {
                self
            } else {
                self.with_target(target.id, target.config, target.at)
            },
            Operation::Remove(id) => self.without_target(id),
            Operation::Report(id, check) => self.with_check(id, check),
        }
    }

    /// The registry after a run of operations, applied in order.
    pub open spec fn after_all(self, operations: Seq<Operation>) -> MonitorView
        decreases operations.len(),
    {
        if operations.len() == 0 {
            self
        } else {
            self.after_all(operations.drop_last()).after(operations.last())
        }
    }
}

/// Law: removing a target twice is the same as removing it once.
pub proof fn lemma_remove_is_idempotent(registry: MonitorView, id: u128)
    ensures
        registry.without_target(id).without_target(id) == registry.without_target(id),
{
    let once = registry.without_target(id);
    assert(once.records.remove(id) =~= once.records);
    assert(once.supervised.remove(id) =~= once.supervised);
}

/// Every operation leaves a well-formed registry well-formed.
pub proof fn lemma_operation_keeps_well_formed(registry: MonitorView, operation: Operation)
    requires
        registry.wf(),
    ensures
        registry.after(operation).wf(),
{
    let after = registry.after(operation);
    match operation {
        Operation::Add(target) => {
            assert(after.supervised =~= after.records.dom());
        },
        Operation::Remove(id) => {
            assert(after.supervised =~= after.records.dom());
        },
        Operation::Report(id, check) => {
            lemma_check_keeps_well_formed(registry, id, check);
        },
    }
}

/// Law: whatever is added, removed and reported, in whatever order, the
/// registry that results from an empty one is well-formed. In every such
/// state the supervised targets are exactly the targets with a record, and
/// every record is stored under its own identifier, counts no more
/// successes than checks, and shows the uptime that its counters give.
pub proof fn lemma_every_reachable_registry_is_well_formed(operations: Seq<Operation>)
    ensures
        MonitorView::empty().after_all(operations).wf(),
        MonitorView::empty().after_all(operations).supervised == MonitorView::empty().after_all(
            operations,
        ).records.dom(),
        forall|id: u128| #[trigger]
            MonitorView::empty().after_all(operations).records.contains_key(id) ==> {
                let record = MonitorView::empty().after_all(operations).records[id];
                &&& record.id == id
                &&& record.successful_checks <= record.total_checks
                &&& record.uptime_basis_points == uptime_of(
                    record.successful_checks,
                    record.total_checks,
                )
            },
    decreases operations.len(),
{
    if operations.len() > 0 {
        lemma_every_reachable_registry_is_well_formed(operations.drop_last());
        lemma_operation_keeps_well_formed(
            MonitorView::empty().after_all(operations.drop_last()),
            operations.last(),
        );
    }
}

} // verus!
