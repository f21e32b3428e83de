//! The status record of one target and the rule that folds a check into it.

use vstd::prelude::*;
use crate::config::{SystemConfig, SystemConfigView};
use crate::monitor::clock::{current_time, Timestamp};
use crate::monitor::ident::{fresh_id, is_random_uuid};

verus! {

/// A change of state that a check brought about.
#[derive(Debug, Clone, Copy, PartialEq, Eq, Structural)]
pub enum Transition {
    BecameOnline,
    BecameOffline,
}

/// What is known of one target: its latest check and the running counters.
///
/// The uptime is kept in basis points (hundredths of a percent), rounded
/// down, so that the record holds integers only.
#[derive(Debug, PartialEq, Eq)]
pub struct SystemStatus {
    /// The target's identifier: the 128 bits of a UUID. It is drawn when the
    /// record is created and owes nothing to the target's host or port.
    pub id: u128,
    /// The target, as it was when the record was created.
    pub config: SystemConfig,
    /// What the latest check found; `false` before the first check.
    pub is_online: bool,
    /// When the latest check ended; before the first, when the record was
    /// created.
    pub last_check: Timestamp,
    /// When the latest successful check ended.
    pub last_online: Option<Timestamp>,
    /// When the target was last found offline after having been online.
    pub last_offline: Option<Timestamp>,
    /// How long the latest check took, if it said so.
    pub response_time_ms: Option<u64>,
    /// Share of successful checks, in hundredths of a percent, rounded down.
    pub uptime_basis_points: u64,
    pub total_checks: u64,
    pub successful_checks: u64,
    /// The error of the latest check, if it gave one.
    pub error_message: Option<String>,
}

/// Mathematical content of a [`SystemStatus`]; the counters are unbounded.
pub struct StatusView {
    pub id: u128,
    pub config: SystemConfigView,
    pub is_online: bool,
    pub last_check: Timestamp,
    pub last_online: Option<Timestamp>,
    pub last_offline: Option<Timestamp>,
    pub response_time_ms: Option<u64>,
    pub uptime_basis_points: nat,
    pub total_checks: nat,
    pub successful_checks: nat,
    pub error_message: Option<Seq<char>>,
}

/// One finished check: when it ended and what it found.
pub struct Check {
    pub at: Timestamp,
    pub is_online: bool,
    pub response_time_ms: Option<u64>,
    pub error: Option<Seq<char>>,
}

/// The characters of an optional text.
pub open spec fn text_view(text: Option<String>) -> Option<Seq<char>> {
    match text {
        Some(s) => Some(s@),
        None => None,
    }
}

/// Share of successful checks in basis points, rounded down; 0 before the
/// first check.
pub open spec fn uptime_of(successful: nat, total: nat) -> nat {
    if total == 0 {
        0
    } else {
        successful * 10_000 / total
    }
}

/// The event of a check that found `is_online` on a target last seen as
/// `was_online`: none unless the two differ.
pub open spec fn transition(was_online: bool, is_online: bool) -> Option<Transition> {
    if is_online && !was_online {
        Some(Transition::BecameOnline)
    } else if !is_online && was_online {
        Some(Transition::BecameOffline)
    } else {
        None
    }
}

/// How many of `checks` found the target online.
pub open spec fn successes(checks: Seq<Check>) -> nat
    decreases checks.len(),
{
    if checks.len() == 0 {
        0
    } else {
        successes(checks.drop_last()) + if checks.last().is_online {
            1nat
        } else {
            0nat
        }
    }
}

/// The state that check number `i` of `checks` meets, on a target that was
/// `initially` online or not: the finding of the check before it.
pub open spec fn state_before(initially: bool, checks: Seq<Check>, i: int) -> bool {
    if i <= 0 {
        initially
    } else {
        checks[i - 1].is_online
    }
}

impl StatusView {
    /// The record of a target that has not been checked yet.
    pub open spec fn created(id: u128, config: SystemConfigView, at: Timestamp) -> StatusView {
        StatusView {
            id,
            config,
            is_online: false,
            last_check: at,
            last_online: None,
            last_offline: None,
            response_time_ms: None,
            uptime_basis_points: 0,
            total_checks: 0,
            successful_checks: 0,
            error_message: None,
        }
    }

    /// The update rule: the record after one more check.
    pub open spec fn after_check(self, check: Check) -> StatusView {
        let successful = if check.is_online {
            self.successful_checks + 1
        } else {
            self.successful_checks
        };
        StatusView {
            id: self.id,
            config: self.config,
            is_online: check.is_online,
            last_check: check.at,
            last_online: if check.is_online {
                Some(check.at)
            } else {
                self.last_online
            },
            last_offline: if !check.is_online && self.is_online {
                Some(check.at)
            } else {
                self.last_offline
            },
            response_time_ms: check.response_time_ms,
            uptime_basis_points: uptime_of(successful, self.total_checks + 1),
            total_checks: self.total_checks + 1,
            successful_checks: successful,
            error_message: check.error,
        }
    }

    /// The record after a run of checks, applied in order.
    pub open spec fn after_checks(self, checks: Seq<Check>) -> StatusView
        decreases checks.len(),
    {
        if checks.len() == 0 {
            self
        } else {
            self.after_checks(checks.drop_last()).after_check(checks.last())
        }
    }

    /// What holds of every record that was created and then only changed by
    /// checks.
    pub open spec fn wf(self) -> bool {
        &&& self.successful_checks <= self.total_checks
        &&& self.uptime_basis_points == uptime_of(self.successful_checks, self.total_checks)
        &&& (self.last_online is Some <==> self.successful_checks > 0)
        &&& (self.is_online ==> self.last_online == Some(self.last_check))
        &&& (self.last_offline is Some ==> 0 < self.successful_checks < self.total_checks)
        &&& (!self.is_online && self.successful_checks > 0 ==> self.last_offline is Some)
    }
}

impl View for SystemStatus {
    type V = StatusView;

    open spec fn view(&self) -> StatusView {
        StatusView {
            id: self.id,
            config: self.config@,
            is_online: self.is_online,
            last_check: self.last_check,
            last_online: self.last_online,
            last_offline: self.last_offline,
            response_time_ms: self.response_time_ms,
            uptime_basis_points: self.uptime_basis_points as nat,
            total_checks: self.total_checks as nat,
            successful_checks: self.successful_checks as nat,
            error_message: text_view(self.error_message),
        }
    }
}

impl Clone for SystemStatus {
    fn clone(&self) -> (copy: Self)
        ensures
            copy == *self,
    {
        SystemStatus {
            id: self.id,
            config: self.config.clone(),
            is_online: self.is_online,
            last_check: self.last_check,
            last_online: self.last_online,
            last_offline: self.last_offline,
            response_time_ms: self.response_time_ms,
            uptime_basis_points: self.uptime_basis_points,
            total_checks: self.total_checks,
            successful_checks: self.successful_checks,
            error_message: match &self.error_message {
                Some(text) => Some(text.clone()),
                None => None,
            },
        }
    }
}

/// Share of successful checks in basis points, rounded down.
pub fn uptime_basis_points(successful: u64, total: u64) -> (share: u64)
    requires
        successful <= total,
    ensures
        share == uptime_of(successful as nat, total as nat),
        share <= 10_000,
{
    if total == 0 {
        0
    } else {
        let scaled: u128 = (successful as u128) * 10_000;
        let share: u128 = scaled / (total as u128);
        assert(share <= 10_000) by (nonlinear_arith)
            requires
                share == (successful * 10_000) / (total as int),
                0 <= successful <= total,
                total > 0,
        ;
        share as u64
    }
}

impl SystemStatus {
    /// The record of a target that has not been checked yet, under the
    /// identifier and creation time given.
    pub fn with_identity(id: u128, config: SystemConfig, created_at: Timestamp) -> (status: Self)
        ensures
            status@ == StatusView::created(id, config@, created_at),
            status@.wf(),
    {
        SystemStatus {
            id,
            config,
            is_online: false,
            last_check: created_at,
            last_online: None,
            last_offline: None,
            response_time_ms: None,
            uptime_basis_points: 0,
            total_checks: 0,
            successful_checks: 0,
            error_message: None,
        }
    }

    /// The record of a target that has not been checked yet, under a newly
    /// drawn identifier and stamped with the current time.
    pub fn new(config: SystemConfig) -> (status: Self)
        ensures
            status@ == StatusView::created(status.id, config@, status.last_check),
            status@.wf(),
            is_random_uuid(status.id),
            status.last_check.is_clock_reading(),
    {
        let id = fresh_id();
        let now = current_time();
        Self::with_identity(id, config, now)
    }

    /// Folds a check that ended at `now` into the record and reports the
    /// change of state, if there was one.
    pub fn update_status_at(
        &mut self,
        now: Timestamp,
        is_online: bool,
        response_time: Option<u64>,
        error: Option<String>,
    ) -> (event: Option<Transition>)
        requires
            old(self).total_checks < u64::MAX,
            old(self).successful_checks <= old(self).total_checks,
        ensures
            final(self)@ == old(self)@.after_check(
                Check { at: now, is_online, response_time_ms: response_time, error: text_view(error) },
            ),
            event == transition(old(self).is_online, is_online),
            final(self).successful_checks <= final(self).total_checks,
            old(self)@.wf() ==> final(self)@.wf(),
    {
        self.last_check = now;
        self.total_checks += 1;
        self.error_message = error;
        self.response_time_ms = response_time;

        let mut event: Option<Transition> = None;
        if is_online {
            self.successful_checks += 1;
            self.last_online = Some(now);
            if !self.is_online {
                event = Some(Transition::BecameOnline);
            }
        } else if self.is_online {
            self.last_offline = Some(now);
            event = Some(Transition::BecameOffline);
        }
        self.is_online = is_online;
        self.uptime_basis_points = uptime_basis_points(self.successful_checks, self.total_checks);
        event
    }

    /// Folds a check that ended just now into the record and reports the
    /// change of state, if there was one. The time is read from the clock and
    /// is found in `last_check` afterwards.
    pub fn update_status(
        &mut self,
        is_online: bool,
        response_time: Option<u64>,
        error: Option<String>,
    ) -> (event: Option<Transition>)
        requires
            old(self).total_checks < u64::MAX,
            old(self).successful_checks <= old(self).total_checks,
        ensures
            final(self)@ == old(self)@.after_check(
                Check {
                    at: final(self).last_check,
                    is_online,
                    response_time_ms: response_time,
                    error: text_view(error),
                },
            ),
            event == transition(old(self).is_online, is_online),
            final(self).last_check.is_clock_reading(),
            final(self).successful_checks <= final(self).total_checks,
            old(self)@.wf() ==> final(self)@.wf(),
    {
        let now = current_time();
        self.update_status_at(now, is_online, response_time, error)
    }
}

} // verus!
