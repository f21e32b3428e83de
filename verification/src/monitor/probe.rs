//! What a probe is asked to do and how its result is read.
//!
//! The probes themselves talk to the network and live outside this crate.
//! Here is everything about them that is a matter of rule: which probe a
//! target gets, with which address, port and time limit, and what a finished
//! probe means for the target's record.
//!
//! A UDP probe only sends one datagram and waits for no answer. Its success
//! says that the send went through, not that anything received it: it is a
//! weaker signal than a ping reply or an accepted TCP connection.

use vstd::prelude::*;
use crate::config::{Protocol, SystemConfig, SystemConfigView};
use crate::monitor::status::Check;
use crate::monitor::clock::Timestamp;
use crate::monitor::text::{endpoint, endpoint_text};

verus! {

/// The port a TCP probe goes to when the target names none.
pub const DEFAULT_TCP_PORT: u16 = 80;

/// The port a UDP probe goes to when the target names none.
pub const DEFAULT_UDP_PORT: u16 = 53;

/// Seconds a probe may take. The limit is the same for every probe; the
/// `timeout_seconds` of a [`crate::config::Config`] is kept with the
/// configuration and not consulted here.
pub const PROBE_TIMEOUT_SECONDS: u64 = 5;

/// Why a probe failed.
#[derive(Debug, PartialEq, Eq)]
pub enum ProbeFailure {
    /// Host and port gave no address to talk to.
    Unresolved,
    /// The probe did not finish within its time limit.
    TimedOut,
    /// The ping utility ran and reported failure; holds what it wrote to its
    /// error stream.
    PingFailed(String),
    /// The system or the network refused; holds the error's own text.
    Transport(String),
}

impl ProbeFailure {
    /// The text kept in the record as the last error.
    pub open spec fn message_spec(self) -> Seq<char> {
        match self {
            ProbeFailure::Unresolved => "Could not resolve address"@,
            ProbeFailure::TimedOut => "deadline has elapsed"@,
            ProbeFailure::PingFailed(detail) => "Ping failed: "@ + detail@,
            ProbeFailure::Transport(detail) => detail@,
        }
    }

    /// The text kept in the record as the last error.
    pub fn message(&self) -> (text: String)
        ensures
            text@ == self.message_spec(),
    {
        match self {
            ProbeFailure::Unresolved => "Could not resolve address".to_string(),
            ProbeFailure::TimedOut => "deadline has elapsed".to_string(),
            ProbeFailure::PingFailed(detail) => {
                let mut text = "Ping failed: ".to_string();
                text.append(detail.as_str());
                text
            },
            ProbeFailure::Transport(detail) => detail.clone(),
        }
    }
}

/// The probe to run for a target.
#[derive(Debug, PartialEq, Eq)]
pub enum ProbePlan {
    /// Run the system's `ping` with these arguments; it succeeds if the
    /// utility exits successfully.
    Ping { arguments: Vec<String> },
    /// Resolve `address` and connect to the first address found, within
    /// `timeout_seconds`.
    Tcp { address: String, timeout_seconds: u64 },
    /// Bind a socket to `local_address` and send `payload` to `address`,
    /// within `timeout_seconds`.
    Udp { local_address: String, address: String, payload: Vec<u8>, timeout_seconds: u64 },
}

/// Mathematical content of a [`ProbePlan`].
pub enum ProbePlanView {
    Ping { arguments: Seq<Seq<char>> },
    Tcp { address: Seq<char>, timeout_seconds: u64 },
    Udp { local_address: Seq<char>, address: Seq<char>, payload: Seq<u8>, timeout_seconds: u64 },
}

/// The characters of each text of a list.
pub open spec fn texts(list: Seq<String>) -> Seq<Seq<char>> {
    Seq::new(list.len(), |i: int| list[i]@)
}

impl View for ProbePlan {
    type V = ProbePlanView;

    open spec fn view(&self) -> ProbePlanView {
        match *self {
            ProbePlan::Ping { arguments } => ProbePlanView::Ping { arguments: texts(arguments@) },
            ProbePlan::Tcp { address, timeout_seconds } => ProbePlanView::Tcp {
                address: address@,
                timeout_seconds,
            },
            ProbePlan::Udp {
                local_address,
                address,
                payload,
                timeout_seconds,
            } => ProbePlanView::Udp {
                local_address: local_address@,
                address: address@,
                payload: payload@,
                timeout_seconds,
            },
        }
    }
}

/// The port to use: the one given, or the protocol's own.
pub open spec fn port_or(port: Option<u16>, fallback: u16) -> u16 {
    match port {
        Some(p) => p,
        None => fallback,
    }
}

/// The arguments of one ping: a single packet, five seconds to wait for it.
pub open spec fn ping_arguments_of(host: Seq<char>) -> Seq<Seq<char>> {
    seq!["-c"@, "1"@, "-W"@, "5"@, host]
}

/// The probe that a target's protocol, host and port call for.
pub open spec fn probe_plan_of(target: SystemConfigView) -> ProbePlanView {
    match target.protocol {
        Protocol::Ping => ProbePlanView::Ping { arguments: ping_arguments_of(target.host) },
        Protocol::Tcp => ProbePlanView::Tcp {
            address: endpoint_text(target.host, port_or(target.port, 80)),
            timeout_seconds: 5,
        },
        Protocol::Udp => ProbePlanView::Udp {
            local_address: "0.0.0.0:0"@,
            address: endpoint_text(target.host, port_or(target.port, 53)),
            payload: seq![0x70u8, 0x69u8, 0x6eu8, 0x67u8],
            timeout_seconds: 5,
        },
    }
}

/// The arguments of one ping of `host`: a single packet, five seconds to
/// wait for it.
pub fn ping_arguments(host: &str) -> (arguments: Vec<String>)
    ensures
        texts(arguments@) == ping_arguments_of(host@),
{
    let mut arguments: Vec<String> = Vec::new();
    arguments.push("-c".to_string());
    arguments.push("1".to_string());
    arguments.push("-W".to_string());
    arguments.push("5".to_string());
    arguments.push(host.to_string());
    arguments
}

/// Reads the end of a run of the ping utility: success if it exited
/// successfully, else a failure that carries what it wrote to its error
/// stream.
pub fn ping_verdict(exited_successfully: bool, error_output: String) -> (verdict: Result<
    (),
    ProbeFailure,
>)
    ensures
        exited_successfully ==> verdict is Ok,
        !exited_successfully ==> verdict is Err && verdict->Err_0 == ProbeFailure::PingFailed(
            error_output,
        ),
{
    if exited_successfully {
        Ok(())
    } else {
        Err(ProbeFailure::PingFailed(error_output))
    }
}

/// Chooses the probe for a target: by its protocol, with port 80 for TCP and
/// 53 for UDP where the target names none.
pub fn plan_probe(target: &SystemConfig) -> (plan: ProbePlan)
    ensures
        plan@ == probe_plan_of(target@),
{
    match target.protocol {
        Protocol::Ping => ProbePlan::Ping { arguments: ping_arguments(target.host.as_str()) },
        Protocol::Tcp => {
            let port = match target.port {
                Some(p) => p,
                None => DEFAULT_TCP_PORT,
            };
            ProbePlan::Tcp {
                address: endpoint(target.host.as_str(), port),
                timeout_seconds: PROBE_TIMEOUT_SECONDS,
            }
        },
        Protocol::Udp => {
            let port = match target.port {
                Some(p) => p,
                None => DEFAULT_UDP_PORT,
            };
            let mut payload: Vec<u8> = Vec::new();
            payload.push(0x70);
            payload.push(0x69);
            payload.push(0x6e);
            payload.push(0x67);
            assert(payload@ =~= seq![0x70u8, 0x69u8, 0x6eu8, 0x67u8]);
            ProbePlan::Udp {
                local_address: "0.0.0.0:0".to_string(),
                address: endpoint(target.host.as_str(), port),
                payload,
                timeout_seconds: PROBE_TIMEOUT_SECONDS,
            }
        },
    }
}

/// What one finished probe says of its target.
#[derive(Debug, PartialEq, Eq)]
pub struct CheckReport {
    pub is_online: bool,
    pub response_time_ms: Option<u64>,
    pub error: Option<String>,
}

/// Mathematical content of a [`CheckReport`].
pub struct CheckReportView {
    pub is_online: bool,
    pub response_time_ms: Option<u64>,
    pub error: Option<Seq<char>>,
}

impl CheckReportView {
    /// The report as a check that ended at `at`.
    pub open spec fn at(self, at: Timestamp) -> Check {
        Check {
            at,
            is_online: self.is_online,
            response_time_ms: self.response_time_ms,
            error: self.error,
        }
    }
}

impl View for CheckReport {
    type V = CheckReportView;

    open spec fn view(&self) -> CheckReportView {
        CheckReportView {
            is_online: self.is_online,
            response_time_ms: self.response_time_ms,
            error: match self.error {
                Some(text) => Some(text@),
                None => None,
            },
        }
    }
}

/// Milliseconds as the record keeps them: the low 64 bits.
pub open spec fn stored_millis(elapsed_ms: u128) -> u64 {
    (elapsed_ms % 0x1_0000_0000_0000_0000u128) as u64
}

/// The report of a probe that took `elapsed_ms` and ended in `result`.
pub open spec fn outcome_of(result: Result<(), ProbeFailure>, elapsed_ms: u128) -> CheckReportView {
    match result {
        Ok(_) => CheckReportView {
            is_online: true,
            response_time_ms: Some(stored_millis(elapsed_ms)),
            error: None,
        },
        Err(failure) => CheckReportView {
            is_online: false,
            response_time_ms: None,
            error: Some(failure.message_spec()),
        },
    }
}

/// Reads the end of a probe. A success puts the target online with the time
/// the probe took; a failure puts it offline, with the failure's text and no
/// response time.
pub fn check_outcome(result: Result<(), ProbeFailure>, elapsed_ms: u128) -> (report: CheckReport)
    ensures
        report@ == outcome_of(result, elapsed_ms),
{
    match result {
        Ok(_) => {
            let low: u128 = elapsed_ms % 0x1_0000_0000_0000_0000u128;
            CheckReport { is_online: true, response_time_ms: Some(low as u64), error: None }
        },
        Err(failure) => CheckReport {
            is_online: false,
            response_time_ms: None,
            error: Some(failure.message()),
        },
    }
}

} // verus!
