//! Coordination of a fleet of robots: who is registered, which tasks wait, which zones are held,
//! and whose heartbeat has stopped.
//!
//! [`RobotCoordinator`] is a sequential state machine. Its view is a [`model::CoordinatorState`],
//! each operation states what it makes of that state, and [`laws`] says what follows for any
//! sequence of operations.
pub mod benchmark;
pub mod clock;
pub mod coordinator;
mod filtering;
pub mod laws;
pub mod messages;
pub mod model;
pub mod numerals;
pub mod robot;
pub mod stats;
pub mod task;
pub mod text;
pub mod trace;
pub mod zone;

pub use coordinator::dispatch::{DispatchOutcome, TaskClaim, WorkerStep};
pub use coordinator::heartbeats::MONITOR_INTERVAL_MS;
pub use coordinator::report::StatusReport;
pub use coordinator::RobotCoordinator;
pub use robot::{Robot, RobotStatus};
pub use stats::CoordinatorStats;
pub use task::Task;
pub use zone::ZoneGuard;
