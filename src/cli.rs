use vstd::prelude::*;
use crate::task::{status_named, TaskStatus};

verus! {

/// The command line: one command, or none for the default listing.
pub struct Cli {
    pub command: Option<Commands>,
}

/// The commands of the command line.
pub enum Commands {
    /// List tasks: by default those needing attention.
    List { all: bool, status: Option<String> },
    /// Show one task in detail.
    Show { task_id: String },
    /// Delete one task.
    Clear { task_id: String },
    /// Delete every completed or failed task.
    ClearAll,
    /// Delete every task, after confirmation unless forced.
    Reset { force: bool },
    /// Show the listing again and again.
    Watch,
    /// Delete completed tasks older than the retention window.
    Cleanup { retention_secs: i64 },
    /// A report from a wrapper script.
    Report { action: ReportAction },
    /// Watch a process on behalf of a task.
    Monitor { task_id: String, pid: i32 },
}

/// The reports a wrapper script makes.
pub enum ReportAction {
    /// A task started in directory `cwd`.
    Start {
        task_id: String,
        agent_type: String,
        cwd: String,
        title: String,
        pid: Option<i32>,
        ppid: Option<i32>,
    },
    /// A task ended, with its exit code if known.
    Complete { task_id: String, exit_code: Option<i32> },
    /// A task waits for a person, for the given reason.
    NeedsAttention { task_id: String, reason: String },
}

/// The status a listing shows: the one named, all for `all`, and otherwise
/// those needing attention. An unknown name is an error.
pub fn list_filter(all: bool, status: Option<&str>) -> (r: Result<Option<TaskStatus>, String>)
    ensures
        match status {
            Some(s) => match status_named(s@) {
                Some(st) => r == Ok::<Option<TaskStatus>, String>(Some(st)),
                None => r is Err,
            },
            None => if all {
                r == Ok::<Option<TaskStatus>, String>(None)
            } else {
                r == Ok::<Option<TaskStatus>, String>(Some(TaskStatus::NeedsAttention))
            },
        },
{
    match status {
        Some(s) => match TaskStatus::from_str(s) {
            Ok(st) => Ok(Some(st)),
            Err(e) => Err(e),
        },
        None => if all { Ok(None) } else { Ok(Some(TaskStatus::NeedsAttention)) },
    }
}

} // verus!
