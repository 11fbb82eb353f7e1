use vstd::prelude::*;
use vstd::string::StringExecFns;
use crate::store::{Database, StoreError};
use crate::task::{completion_status, later, now_secs, same_record, str_eq, truncated, Task, TaskStatus, MAX_TITLE_LEN};

verus! {

/// Largest message body the bridge accepts, in bytes.
pub const MAX_MESSAGE_LEN: usize = 1048576;

/// The number that four bytes write, least significant first.
pub open spec fn le_u32(b: Seq<u8>) -> nat {
    b[0] as nat + b[1] as nat * 256 + b[2] as nat * 65536 + b[3] as nat * 16777216
}

/// Why a frame header is refused.
#[derive(Debug, Clone, Copy, PartialEq, Eq, Structural)]
pub enum FrameError {
    /// The announced body is longer than `MAX_MESSAGE_LEN`; it holds the length.
    TooLarge(u32),
}

/// The body length that a frame header announces, refused beyond
/// `MAX_MESSAGE_LEN`.
pub fn frame_body_len(header: [u8; 4]) -> (r: Result<usize, FrameError>)
    ensures
        le_u32(header@) <= MAX_MESSAGE_LEN ==> r == Ok::<usize, FrameError>(le_u32(header@) as usize),
        le_u32(header@) > MAX_MESSAGE_LEN ==> r == Err::<usize, FrameError>(FrameError::TooLarge(le_u32(header@) as u32)),
{
    let n: u32 = header[0] as u32 + header[1] as u32 * 256 + header[2] as u32 * 65536 + header[3] as u32 * 16777216;
    if n as usize > MAX_MESSAGE_LEN {
        Err(FrameError::TooLarge(n))
    } else {
        Ok(n as usize)
    }
}

/// A frame: the body's length in four bytes, least significant first, then
/// the body.
pub fn encode_frame(body: &[u8]) -> (r: Vec<u8>)
    requires
        body@.len() <= u32::MAX,
    ensures
        r@.len() == body@.len() + 4,
        le_u32(r@.subrange(0, 4)) == body@.len(),
        r@.subrange(4, r@.len() as int) == body@,
{
    let n = body.len();
    let mut r: Vec<u8> = Vec::new();
    r.push((n % 256) as u8);
    r.push((n / 256 % 256) as u8);
    r.push((n / 65536 % 256) as u8);
    r.push((n / 16777216 % 256) as u8);
    assert(r@.subrange(0, 4) == r@);
    let mut i: usize = 0;
    while i < n
        invariant
            n == body@.len(),
            n <= u32::MAX,
            i <= n,
            r@.len() == 4 + i,
            le_u32(r@.subrange(0, 4)) == n,
            r@.subrange(4, 4 + i as int) == body@.subrange(0, i as int),
        decreases n - i,
    {
        let ghost before = r@;
        r.push(body[i]);
        assert(r@.subrange(0, 4) == before.subrange(0, 4));
        assert(r@.subrange(4, 4 + i + 1) == r@.subrange(4, 4 + i as int).push(body@[i as int]));
        assert(r@.subrange(4, 4 + i as int) == before.subrange(4, 4 + i as int));
        assert(body@.subrange(0, i + 1) == body@.subrange(0, i as int).push(body@[i as int]));
        i = i + 1;
    }
    assert(body@.subrange(0, n as int) == body@);
    r
}

/// One status report from the browser.
pub struct BridgeMessage {
    pub msg_type: String,
    pub task_id: String,
    pub agent_type: String,
    /// `running`, `completed` or `needs_attention`.
    pub status: String,
    pub title: String,
    /// The task context to record on a new task, as JSON object text.
    pub context: Option<String>,
}

/// What a reported status asks for.
#[derive(Debug, Clone, Copy, PartialEq, Eq, Structural)]
pub enum BridgeEvent {
    Running,
    Completed,
    NeedsAttention,
    Unknown,
}

/// The event a status text reports.
pub open spec fn event_named(s: Seq<char>) -> BridgeEvent {
    if s == "running"@ {
        BridgeEvent::Running
    } else if s == "completed"@ {
        BridgeEvent::Completed
    } else if s == "needs_attention"@ {
        BridgeEvent::NeedsAttention
    } else {
        BridgeEvent::Unknown
    }
}

/// Reads the event a status text reports.
pub fn bridge_event(status: &str) -> (r: BridgeEvent)
    ensures
        r == event_named(status@),
{
    if str_eq(status, "running") {
        BridgeEvent::Running
    } else if str_eq(status, "completed") {
        BridgeEvent::Completed
    } else if str_eq(status, "needs_attention") {
        BridgeEvent::NeedsAttention
    } else {
        BridgeEvent::Unknown
    }
}

/// Reason recorded when the browser reports that a task needs attention.
pub open spec fn default_reason() -> Seq<char> {
    "Waiting for user action"@
}

/// What the store is to do for one report.
#[derive(Debug)]
pub enum BridgeAction {
    /// Store this new task.
    Insert(Task),
    /// Overwrite the stored task with this one.
    Update(Task),
    /// The report is about a task that is not stored; nothing to do.
    Missing,
    /// The status is not one the bridge knows; nothing to do.
    Ignore,
}

/// Decides what a report at time `now` does, given the task stored under its
/// `task_id`: `running` resumes a stored task or creates a new one,
/// `completed` completes with exit code 0, `needs_attention` flags with the
/// default reason.
pub fn plan_message(message: BridgeMessage, existing: Option<Task>, now: i64) -> (r: BridgeAction)
    ensures
        match event_named(message.status@) {
            BridgeEvent::Unknown => r is Ignore,
            BridgeEvent::Running => match existing {
                Some(t) => r matches BridgeAction::Update(u) && {
                    &&& same_record(u, t)
                    &&& u.status == TaskStatus::Running
                    &&& u.updated_at == later(t.updated_at, now)
                    &&& u.completed_at is None
                    &&& u.attention_reason is None
                    &&& u.exit_code == t.exit_code
                },
                None => r matches BridgeAction::Insert(u) && {
                    &&& u.id is None
                    &&& u.task_id@ == message.task_id@
                    &&& u.agent_type@ == message.agent_type@
                    &&& u.title@ == truncated(message.title@, MAX_TITLE_LEN as nat)
                    &&& u.status == TaskStatus::Running
                    &&& u.created_at == now
                    &&& u.updated_at == now
                    &&& u.completed_at is None
                    &&& u.pid is None
                    &&& u.ppid is None
                    &&& u.monitor_pid is None
                    &&& u.attention_reason is None
                    &&& u.exit_code is None
                    &&& u.context == message.context
                    &&& u.metadata is None
                },
            },
            BridgeEvent::Completed => match existing {
                Some(t) => r matches BridgeAction::Update(u) && {
                    &&& same_record(u, t)
                    &&& u.status == completion_status(Some(0i32))
                    &&& u.updated_at == later(t.updated_at, now)
                    &&& u.exit_code == Some(0i32)
                    &&& u.completed_at == Some(now)
                    &&& u.attention_reason is None
                },
                None => r is Missing,
            },
            BridgeEvent::NeedsAttention => match existing {
                Some(t) => r matches BridgeAction::Update(u) && {
                    &&& same_record(u, t)
                    &&& u.status == TaskStatus::NeedsAttention
                    &&& u.updated_at == later(t.updated_at, now)
                    &&& (u.attention_reason matches Some(s) && s@ == default_reason())
                    &&& u.completed_at == t.completed_at
                    &&& u.exit_code == t.exit_code
                },
                None => r is Missing,
            },
        },
{
    match bridge_event(message.status.as_str()) {
        BridgeEvent::Unknown => BridgeAction::Ignore,
        BridgeEvent::Running => match existing {
            Some(mut t) => {
                t.set_running_at(now);
                BridgeAction::Update(t)
            },
            None => {
                let mut t = Task::create(message.task_id, message.agent_type, message.title.as_str(), None, None, now);
                t.context = message.context;
                BridgeAction::Insert(t)
            },
        },
        BridgeEvent::Completed => match existing {
            Some(mut t) => {
                t.complete_at(Some(0), now);
                BridgeAction::Update(t)
            },
            None => BridgeAction::Missing,
        },
        BridgeEvent::NeedsAttention => match existing {
            Some(mut t) => {
                t.mark_needs_attention_at(String::from_str("Waiting for user action"), now);
                BridgeAction::Update(t)
            },
            None => BridgeAction::Missing,
        },
    }
}

/// What handling one report did.
#[derive(Debug, Clone, Copy, PartialEq, Eq, Structural)]
pub enum BridgeOutcome {
    Created,
    Resumed,
    Completed,
    FlaggedAttention,
    NotFound,
    UnknownStatus,
}

/// Applies one report to the store: looks the task up, decides with
/// `plan_message`, and writes the result.
pub fn process_message(db: &Database, message: BridgeMessage) -> (r: Result<BridgeOutcome, StoreError>)
    ensures
        r matches Ok(BridgeOutcome::UnknownStatus) <==> event_named(message.status@) == BridgeEvent::Unknown,
        r matches Ok(BridgeOutcome::Resumed) ==> event_named(message.status@) == BridgeEvent::Running,
        r matches Ok(BridgeOutcome::Created) ==> event_named(message.status@) == BridgeEvent::Running,
        r matches Ok(BridgeOutcome::Completed) ==> event_named(message.status@) == BridgeEvent::Completed,
        r matches Ok(BridgeOutcome::FlaggedAttention) ==> event_named(message.status@) == BridgeEvent::NeedsAttention,
        r matches Ok(BridgeOutcome::NotFound) ==> event_named(message.status@) == BridgeEvent::Completed
            || event_named(message.status@) == BridgeEvent::NeedsAttention,
{
    let event = bridge_event(message.status.as_str());
    if event == BridgeEvent::Unknown {
        return Ok(BridgeOutcome::UnknownStatus);
    }
    let existing = match db.get_task_by_id(message.task_id.as_str()) {
        Ok(t) => t,
        Err(e) => {
            return Err(e);
        },
    };
    let now = now_secs();
    match plan_message(message, existing, now) {
        BridgeAction::Insert(t) => match db.insert_task(&t) {
            Ok(_) => Ok(BridgeOutcome::Created),
            Err(e) => Err(e),
        },
        BridgeAction::Update(t) => match db.update_task(&t) {
            Ok(()) => Ok(
                if event == BridgeEvent::Running {
                    BridgeOutcome::Resumed
                } else if event == BridgeEvent::Completed {
                    BridgeOutcome::Completed
                } else {
                    BridgeOutcome::FlaggedAttention
                },
            ),
            Err(e) => Err(e),
        },
        BridgeAction::Missing => Ok(BridgeOutcome::NotFound),
        BridgeAction::Ignore => Ok(BridgeOutcome::UnknownStatus),
    }
}

} // verus!
