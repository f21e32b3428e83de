//! The monitoring engine: status records and the rule that folds a check
//! into them, probe plans, supervisor decisions, and the registry that
//! holds it all together.

pub mod clock;
pub mod history;
pub mod ident;
pub mod laws;
pub mod manager;
pub mod probe;
pub mod status;
pub mod store;
pub mod supervisor;
pub mod text;

pub use clock::Timestamp;
pub use manager::{MonitorError, MonitorManager, MonitorView};
pub use probe::{CheckReport, ProbeFailure, ProbePlan};
pub use status::{StatusView, SystemStatus, Transition};
pub use supervisor::{Supervisor, SupervisorState, SupervisorStep};
