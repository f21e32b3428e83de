//! An uptime monitor's engine.
//!
//! A monitor checks a set of targets again and again (by ping, by a TCP
//! connection or by a UDP datagram) and keeps for each of them a status
//! record: whether it is online, when it was last seen, how long it took to
//! answer, and which share of its checks succeeded.
//!
//! - [`config`] holds the target definitions and the list a monitor starts
//!   with.
//! - [`monitor`] holds the status records and the rule that folds a check
//!   into them, the plan of each probe, the decisions of a target's
//!   supervisor, and the registry of all monitored targets.
//! - [`display`] holds what a front end shows of a target.
//!
//! The crate does no input or output. Probes, timers and the tasks that run
//! the supervisors belong to the program around it, which asks this crate
//! what to do next and reports back what happened.

pub mod config;
pub mod display;
pub mod monitor;
