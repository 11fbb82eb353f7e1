//! Tracking of background agent tasks: the task record and its status
//! machine, the persisted task table, the process monitor that decides when
//! a running task needs attention, and the browser bridge's framing and
//! decisions.

pub mod bridge;
pub mod cli;
pub mod detect;
pub mod elapsed;
pub mod monitor;
pub mod procstat;
pub mod store;
pub mod task;
pub mod tree;
