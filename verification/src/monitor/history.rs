//! What holds of a status record over every run of checks.

use vstd::prelude::*;
use crate::config::SystemConfigView;
use crate::monitor::clock::Timestamp;
use crate::monitor::status::{
    state_before, successes, transition, uptime_of, Check, StatusView, Transition,
};

verus! {

/// A run of checks, cut after its first `k`, without the last of those, is
/// the run cut after `k - 1`.
proof fn lemma_take_drop_last(checks: Seq<Check>, k: int)
    requires
        0 < k <= checks.len(),
    ensures
        checks.take(k).drop_last() == checks.take(k - 1),
        checks.take(k).last() == checks[k - 1],
{
}

/// At most every check is a success.
pub proof fn lemma_successes_bounded(checks: Seq<Check>)
    ensures
        successes(checks) <= checks.len(),
    decreases checks.len(),
{
    if checks.len() > 0 {
        lemma_successes_bounded(checks.drop_last());
    }
}

/// The basis points are the share of successes rounded down: they stand
/// within one part in ten thousand below the exact ratio, and never above
/// 10 000 while the successes do not exceed the total.
pub proof fn lemma_uptime_is_floor_of_ratio(successful: nat, total: nat)
    requires
        total > 0,
    ensures
        uptime_of(successful, total) * total <= successful * 10_000,
        successful * 10_000 < (uptime_of(successful, total) + 1) * total,
        successful <= total ==> uptime_of(successful, total) <= 10_000,
        successful == total ==> uptime_of(successful, total) == 10_000,
{
    let scaled = successful * 10_000;
    let share = scaled / total;
    assert(share * total <= scaled < (share + 1) * total) by (nonlinear_arith)
        requires
            total > 0,
            scaled >= 0,
            share == scaled / total,
    ;
    if successful <= total {
        assert(share <= 10_000) by (nonlinear_arith)
            requires
                total > 0,
                scaled == successful * 10_000,
                successful <= total,
                share == scaled / total,
        ;
    }
    if successful == total {
        assert(share == 10_000) by (nonlinear_arith)
            requires
                total > 0,
                scaled == total * 10_000,
                share == scaled / total,
        ;
    }
}

/// The counters after any run of checks: every check counts once, every
/// success once more, and so the successes never exceed the total.
pub proof fn lemma_counters_after_checks(start: StatusView, checks: Seq<Check>)
    ensures
        start.after_checks(checks).total_checks == start.total_checks + checks.len(),
        start.after_checks(checks).successful_checks == start.successful_checks + successes(
            checks,
        ),
        start.successful_checks <= start.total_checks ==> start.after_checks(
            checks,
        ).successful_checks <= start.after_checks(checks).total_checks,
        start.after_checks(checks).id == start.id,
        start.after_checks(checks).config == start.config,
    decreases checks.len(),
{
    lemma_successes_bounded(checks);
    if checks.len() > 0 {
        lemma_counters_after_checks(start, checks.drop_last());
    }
}

/// Law: after every update of every run of checks, the successful checks do
/// not exceed the total.
pub proof fn lemma_successes_never_exceed_total(start: StatusView, checks: Seq<Check>)
    requires
        start.successful_checks <= start.total_checks,
    ensures
        forall|k: int|
            0 <= k <= checks.len() ==> (#[trigger] start.after_checks(
                checks.take(k),
            )).successful_checks <= start.after_checks(checks.take(k)).total_checks,
{
    assert forall|k: int| 0 <= k <= checks.len() implies (#[trigger] start.after_checks(
        checks.take(k),
    )).successful_checks <= start.after_checks(checks.take(k)).total_checks by {
        lemma_counters_after_checks(start, checks.take(k));
    }
}

/// Law: the uptime is never set on its own. After every update it is the
/// share of the two counters, whatever the record held before.
pub proof fn lemma_uptime_follows_counters(start: StatusView, checks: Seq<Check>)
    ensures
        forall|k: int|
            0 < k <= checks.len() ==> (#[trigger] start.after_checks(
                checks.take(k),
            )).uptime_basis_points == uptime_of(
                start.after_checks(checks.take(k)).successful_checks,
                start.after_checks(checks.take(k)).total_checks,
            ),
{
    assert forall|k: int| 0 < k <= checks.len() implies (#[trigger] start.after_checks(
        checks.take(k),
    )).uptime_basis_points == uptime_of(
        start.after_checks(checks.take(k)).successful_checks,
        start.after_checks(checks.take(k)).total_checks,
    ) by {
        lemma_take_drop_last(checks, k);
    }
}

/// Law: a record that was created and then only changed by checks shows an
/// uptime of 0 while it has no check, and the share of its counters from
/// then on; all that holds of a well-formed record holds of it throughout.
pub proof fn lemma_created_record_stays_well_formed(
    id: u128,
    config: SystemConfigView,
    at: Timestamp,
    checks: Seq<Check>,
)
    ensures
        StatusView::created(id, config, at).uptime_basis_points == 0,
        forall|k: int|
            0 <= k <= checks.len() ==> (#[trigger] StatusView::created(id, config, at).after_checks(
                checks.take(k),
            )).wf(),
{
    let start = StatusView::created(id, config, at);
    assert forall|k: int| 0 <= k <= checks.len() implies (#[trigger] start.after_checks(
        checks.take(k),
    )).wf() by {
        lemma_checks_keep_well_formed(start, checks.take(k));
    }
}

/// A well-formed record is well-formed after any run of checks.
pub proof fn lemma_checks_keep_well_formed(start: StatusView, checks: Seq<Check>)
    requires
        start.wf(),
    ensures
        start.after_checks(checks).wf(),
    decreases checks.len(),
{
    if checks.len() > 0 {
        lemma_checks_keep_well_formed(start, checks.drop_last());
    }
}

/// The state a record is in after the first `i` checks of a run: the
/// finding of the last of them, or the state it started in.
pub proof fn lemma_state_after_checks(start: StatusView, checks: Seq<Check>, i: int)
    requires
        0 <= i <= checks.len(),
    ensures
        start.after_checks(checks.take(i)).is_online == state_before(start.is_online, checks, i),
{
    if i > 0 {
        lemma_take_drop_last(checks, i);
    }
}

/// The event that check number `i` of a run gives rise to: what the update
/// rule reports when it folds that check into the record left by the checks
/// before it.
pub open spec fn event_at(start: StatusView, checks: Seq<Check>, i: int) -> Option<Transition> {
    transition(start.after_checks(checks.take(i)).is_online, checks[i].is_online)
}

/// Law: an event fires exactly where a run of equal findings begins. Check
/// number `i` reports "became online" if and only if it found the target
/// online and the check before it (or, for the first, the starting state)
/// did not; "became offline" likewise; and no check inside a run of equal
/// findings reports anything.
pub proof fn lemma_one_event_per_run(start: StatusView, checks: Seq<Check>, i: int)
    requires
        0 <= i < checks.len(),
    ensures
        event_at(start, checks, i) == Some(Transition::BecameOnline) <==> checks[i].is_online
            && !state_before(start.is_online, checks, i),
        event_at(start, checks, i) == Some(Transition::BecameOffline) <==> !checks[i].is_online
            && state_before(start.is_online, checks, i),
        event_at(start, checks, i) is None <==> checks[i].is_online == state_before(
            start.is_online,
            checks,
            i,
        ),
        i > 0 && checks[i].is_online == checks[i - 1].is_online ==> event_at(start, checks, i)
            is None,
{
    lemma_state_after_checks(start, checks, i);
}

/// Some check of the run found the target online.
pub open spec fn some_success(checks: Seq<Check>) -> bool {
    exists|i: int| 0 <= i < checks.len() && #[trigger] checks[i].is_online
}

/// Some check of the run found the target offline right after it had been
/// online: it ended an online spell.
pub open spec fn some_drop(initially: bool, checks: Seq<Check>) -> bool {
    exists|i: int|
        0 <= i < checks.len() && !(#[trigger] checks[i]).is_online && state_before(
            initially,
            checks,
            i,
        )
}

/// A run holds a success if its last check is one or the checks before hold one.
proof fn lemma_some_success_step(checks: Seq<Check>)
    requires
        checks.len() > 0,
    ensures
        some_success(checks) == (some_success(checks.drop_last()) || checks.last().is_online),
{
    let before = checks.drop_last();
    if some_success(before) {
        let w = choose|i: int| 0 <= i < before.len() && #[trigger] before[i].is_online;
        assert(checks[w].is_online);
    }
    if some_success(checks) {
        let w = choose|i: int| 0 <= i < checks.len() && #[trigger] checks[i].is_online;
        if w < before.len() {
            assert(before[w].is_online);
        }
    }
}

/// A run holds a drop if its last check is one or the checks before hold one.
proof fn lemma_some_drop_step(initially: bool, checks: Seq<Check>)
    requires
        checks.len() > 0,
    ensures
        some_drop(initially, checks) == (some_drop(initially, checks.drop_last()) || (
        !checks.last().is_online && state_before(initially, checks, checks.len() - 1))),
{
    let before = checks.drop_last();
    if some_drop(initially, before) {
        let w = choose|i: int|
            0 <= i < before.len() && !(#[trigger] before[i]).is_online && state_before(
                initially,
                before,
                i,
            );
        assert(!checks[w].is_online && state_before(initially, checks, w));
    }
    if some_drop(initially, checks) {
        let w = choose|i: int|
            0 <= i < checks.len() && !(#[trigger] checks[i]).is_online && state_before(
                initially,
                checks,
                i,
            );
        if w < before.len() {
            assert(!before[w].is_online && state_before(initially, before, w));
        }
    }
}

/// Law: after a run of checks the time of the last success is known if and
/// only if it was known before or some check succeeded, and the time at
/// which the target last went offline if and only if it was known before or
/// some check failed right after the target was online.
pub proof fn lemma_last_times_after_checks(start: StatusView, checks: Seq<Check>)
    ensures
        start.after_checks(checks).last_online is Some <==> start.last_online is Some
            || some_success(checks),
        start.after_checks(checks).last_offline is Some <==> start.last_offline is Some
            || some_drop(start.is_online, checks),
    decreases checks.len(),
{
    if checks.len() > 0 {
        let n = checks.len() - 1;
        lemma_last_times_after_checks(start, checks.drop_last());
        lemma_some_success_step(checks);
        lemma_some_drop_step(start.is_online, checks);
        lemma_state_after_checks(start, checks, n);
    }
}

} // verus!
