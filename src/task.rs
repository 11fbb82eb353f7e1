use vstd::prelude::*;
use vstd::string::StrSliceExecFns;
use vstd::string::StringExecFns;

verus! {

/// Longest title kept on a task, in characters.
pub const MAX_TITLE_LEN: usize = 100;

/// Where a task stands in its lifecycle.
#[derive(Debug, Clone, Copy, PartialEq, Eq, Structural)]
pub enum TaskStatus {
    Running,
    Completed,
    NeedsAttention,
    Failed,
}

/// The text under which a status is stored.
pub open spec fn status_name(s: TaskStatus) -> Seq<char> {
    match s {
        TaskStatus::Running => "running"@,
        TaskStatus::Completed => "completed"@,
        TaskStatus::NeedsAttention => "needs_attention"@,
        TaskStatus::Failed => "failed"@,
    }
}

/// The status stored under a text, if any.
pub open spec fn status_named(s: Seq<char>) -> Option<TaskStatus> {
    if s == "running"@ {
        Some(TaskStatus::Running)
    } else if s == "completed"@ {
        Some(TaskStatus::Completed)
    } else if s == "needs_attention"@ {
        Some(TaskStatus::NeedsAttention)
    } else if s == "failed"@ {
        Some(TaskStatus::Failed)
    } else {
        None
    }
}

/// Character-wise equality of two strings.
pub fn str_eq(a: &str, b: &str) -> (r: bool)
    ensures
        r == (a@ == b@),
{
    let n = a.unicode_len();
    if n != b.unicode_len() {
        return false;
    }
    let mut i: usize = 0;
    while i < n
        invariant
            n == a@.len(),
            n == b@.len(),
            i <= n,
            a@.subrange(0, i as int) == b@.subrange(0, i as int),
        decreases n - i,
    {
        if a.get_char(i) != b.get_char(i) {
            assert(a@[i as int] != b@[i as int]);
            return false;
        }
        assert(a@.subrange(0, i + 1) == a@.subrange(0, i as int).push(a@[i as int]));
        assert(b@.subrange(0, i + 1) == b@.subrange(0, i as int).push(b@[i as int]));
        i = i + 1;
    }
    assert(a@ == a@.subrange(0, n as int));
    assert(b@ == b@.subrange(0, n as int));
    true
}

impl TaskStatus {
    /// The text under which this status is stored.
    pub fn as_str(&self) -> (r: &'static str)
        ensures
            r@ == status_name(*self),
    {
        match self {
            TaskStatus::Running => "running",
            TaskStatus::Completed => "completed",
            TaskStatus::NeedsAttention => "needs_attention",
            TaskStatus::Failed => "failed",
        }
    }

    /// Reads a stored status; any other text is an error that names it.
    pub fn from_str(s: &str) -> (r: Result<TaskStatus, String>)
        ensures
            r matches Ok(st) ==> status_named(s@) == Some(st),
            r is Err <==> status_named(s@) is None,
            r matches Err(m) ==> m@ == "Invalid task status: "@ + s@,
    {
        if str_eq(s, "running") {
            Ok(TaskStatus::Running)
        } else if str_eq(s, "completed") {
            Ok(TaskStatus::Completed)
        } else if str_eq(s, "needs_attention") {
            Ok(TaskStatus::NeedsAttention)
        } else if str_eq(s, "failed") {
            Ok(TaskStatus::Failed)
        } else {
            let mut msg = String::from_str("Invalid task status: ");
            msg.append(s);
            Err(msg)
        }
    }
}

/// Each status reads back from the text it is stored under.
pub proof fn lemma_status_name_round_trip(s: TaskStatus)
    ensures
        status_named(status_name(s)) == Some(s),
{
    reveal_strlit("running");
    reveal_strlit("completed");
    reveal_strlit("needs_attention");
    reveal_strlit("failed");
    // The four names already differ in their first character.
    assert("running"@[0] == 'r' && "completed"@[0] == 'c');
    assert("needs_attention"@[0] == 'n' && "failed"@[0] == 'f');
}

/// `s` cut to at most `max_len` characters: a longer text keeps its first
/// `max_len - 3` characters followed by `...`.
pub open spec fn truncated(s: Seq<char>, max_len: nat) -> Seq<char> {
    if s.len() <= max_len {
        s
    } else {
        s.subrange(0, max_len - 3) + "..."@
    }
}

/// Cuts `s` to at most `max_len` characters, marking a cut with `...`.
pub fn truncate(s: &str, max_len: usize) -> (r: String)
    requires
        3 <= max_len,
    ensures
        r@ == truncated(s@, max_len as nat),
        r@.len() == if s@.len() <= max_len { s@.len() } else { max_len as nat },
{
    proof {
        reveal_strlit("...");
    }
    let n = s.unicode_len();
    if n <= max_len {
        String::from_str(s)
    } else {
        let mut r = String::from_str(s.substring_char(0, max_len - 3));
        r.append("...");
        r
    }
}

/// Relies on std's `SystemTime::now` and chrono's `From<SystemTime>` for
/// `DateTime<Utc>` and `DateTime::timestamp`: the current time in whole
/// seconds since the Unix epoch, negative for a clock set before it. The
/// conversion fails only outside chrono's range of about 262,000 years around
/// the epoch, which a system clock does not reach. Nothing is known of the
/// value.
#[verifier::external_body]
pub(crate) fn now_secs() -> (r: i64) {
    chrono::DateTime::<chrono::Utc>::from(std::time::SystemTime::now()).timestamp()
}

/// `a - b`, held to the range of `i64`.
pub open spec fn clamped_diff(a: i64, b: i64) -> i64 {
    let c = a - b;
    if c < i64::MIN { i64::MIN } else if c > i64::MAX { i64::MAX } else { c as i64 }
}

/// Computes `clamped_diff`.
pub fn clamped_sub(a: i64, b: i64) -> (r: i64)
    ensures
        r == clamped_diff(a, b),
{
    if b >= 0 {
        if a < i64::MIN + b { i64::MIN } else { a - b }
    } else {
        if a > i64::MAX + b { i64::MAX } else { a - b }
    }
}

/// One tracked unit of agent activity. Times are whole seconds since the
/// Unix epoch; `context` and `metadata` hold JSON object text.
#[derive(Debug, Clone, PartialEq)]
pub struct Task {
    pub id: Option<i64>,
    pub task_id: String,
    pub agent_type: String,
    pub title: String,
    pub status: TaskStatus,
    pub created_at: i64,
    pub updated_at: i64,
    pub completed_at: Option<i64>,
    pub pid: Option<i32>,
    pub ppid: Option<i32>,
    pub monitor_pid: Option<i32>,
    pub attention_reason: Option<String>,
    pub exit_code: Option<i32>,
    /// Where the work happens, as the text of a JSON object with the keys
    /// `url`, `project_path` and `session_id` and any others.
    pub context: Option<String>,
    /// Free-form values, as the text of a JSON object.
    pub metadata: Option<String>,
}

/// `u` keeps every field of `t` that no status change touches.
pub open spec fn same_record(u: Task, t: Task) -> bool {
    &&& u.id == t.id
    &&& u.task_id == t.task_id
    &&& u.agent_type == t.agent_type
    &&& u.title == t.title
    &&& u.created_at == t.created_at
    &&& u.pid == t.pid
    &&& u.ppid == t.ppid
    &&& u.monitor_pid == t.monitor_pid
    &&& u.context == t.context
    &&& u.metadata == t.metadata
}

/// The later of two times.
pub open spec fn later(a: i64, b: i64) -> i64 {
    if a < b { b } else { a }
}

/// The status that a completion with this exit code gives.
pub open spec fn completion_status(exit_code: Option<i32>) -> TaskStatus {
    match exit_code {
        Some(c) => if c != 0 { TaskStatus::Failed } else { TaskStatus::Completed },
        None => TaskStatus::Completed,
    }
}

impl Task {
    /// The record's own rules: a short title, an update time no earlier than
    /// the creation time, and a reason for attention only while attention is
    /// needed.
    pub open spec fn wf(&self) -> bool {
        &&& self.title@.len() <= MAX_TITLE_LEN
        &&& self.created_at <= self.updated_at
        &&& self.attention_reason is Some ==> self.status == TaskStatus::NeedsAttention
    }

    /// A new running task created at time `now`, with its title cut to
    /// `MAX_TITLE_LEN` characters.
    pub fn create(
        task_id: String,
        agent_type: String,
        title: &str,
        pid: Option<i32>,
        ppid: Option<i32>,
        now: i64,
    ) -> (t: Task)
        ensures
            t.wf(),
            t.id is None,
            t.task_id@ == task_id@,
            t.agent_type@ == agent_type@,
            t.title@ == truncated(title@, MAX_TITLE_LEN as nat),
            title@.len() <= MAX_TITLE_LEN ==> t.title@ == title@,
            title@.len() > MAX_TITLE_LEN ==> t.title@.len() == MAX_TITLE_LEN
                && t.title@.subrange(MAX_TITLE_LEN - 3, MAX_TITLE_LEN as int) == "..."@,
            t.status == TaskStatus::Running,
            t.created_at == now,
            t.updated_at == now,
            t.completed_at is None,
            t.pid == pid,
            t.ppid == ppid,
            t.monitor_pid is None,
            t.attention_reason is None,
            t.exit_code is None,
            t.context is None,
            t.metadata is None,
    {
        proof {
            reveal_strlit("...");
            let cut = title@.subrange(0, MAX_TITLE_LEN - 3) + "..."@;
            if title@.len() > MAX_TITLE_LEN {
                assert(cut.subrange(MAX_TITLE_LEN - 3, MAX_TITLE_LEN as int) == "..."@);
            }
        }
        Task {
            id: None,
            task_id,
            agent_type,
            title: truncate(title, MAX_TITLE_LEN),
            status: TaskStatus::Running,
            created_at: now,
            updated_at: now,
            completed_at: None,
            pid,
            ppid,
            monitor_pid: None,
            attention_reason: None,
            exit_code: None,
            context: None,
            metadata: None,
        }
    }

    /// A new running task, created now.
    pub fn new(
        task_id: String,
        agent_type: String,
        title: String,
        pid: Option<i32>,
        ppid: Option<i32>,
    ) -> (t: Task)
        ensures
            t.wf(),
            t.id is None,
            t.task_id@ == task_id@,
            t.agent_type@ == agent_type@,
            t.title@ == truncated(title@, MAX_TITLE_LEN as nat),
            t.status == TaskStatus::Running,
            t.created_at == t.updated_at,
            t.completed_at is None,
            t.pid == pid,
            t.ppid == ppid,
            t.monitor_pid is None,
            t.attention_reason is None,
            t.exit_code is None,
            t.context is None,
            t.metadata is None,
    {
        let now = now_secs();
        Task::create(task_id, agent_type, title.as_str(), pid, ppid, now)
    }

    /// Ends the task at time `now`: Failed for a non-zero exit code,
    /// Completed otherwise.
    pub fn complete_at(&mut self, exit_code: Option<i32>, now: i64)
        ensures
            final(self).status == completion_status(exit_code),
            final(self).exit_code == exit_code,
            final(self).completed_at == Some(now),
            final(self).updated_at == later(old(self).updated_at, now),
            final(self).attention_reason is None,
            old(self).wf() ==> final(self).wf(),
            final(self).id == old(self).id,
            final(self).task_id == old(self).task_id,
            final(self).agent_type == old(self).agent_type,
            final(self).title == old(self).title,
            final(self).created_at == old(self).created_at,
            final(self).pid == old(self).pid,
            final(self).ppid == old(self).ppid,
            final(self).monitor_pid == old(self).monitor_pid,
            final(self).context == old(self).context,
            final(self).metadata == old(self).metadata,
    {
        self.status = match exit_code {
            Some(c) => if c != 0 { TaskStatus::Failed } else { TaskStatus::Completed },
            None => TaskStatus::Completed,
        };
        self.exit_code = exit_code;
        self.completed_at = Some(now);
        if self.updated_at < now {
            self.updated_at = now;
        }
        self.attention_reason = None;
    }

    /// Ends the task now: Failed for a non-zero exit code, Completed
    /// otherwise.
    pub fn complete(&mut self, exit_code: Option<i32>)
        ensures
            final(self).status == completion_status(exit_code),
            final(self).exit_code == exit_code,
            final(self).completed_at is Some,
            final(self).updated_at >= old(self).updated_at,
            final(self).attention_reason is None,
            old(self).wf() ==> final(self).wf(),
            final(self).id == old(self).id,
            final(self).task_id == old(self).task_id,
            final(self).agent_type == old(self).agent_type,
            final(self).title == old(self).title,
            final(self).created_at == old(self).created_at,
            final(self).pid == old(self).pid,
            final(self).ppid == old(self).ppid,
            final(self).monitor_pid == old(self).monitor_pid,
            final(self).context == old(self).context,
            final(self).metadata == old(self).metadata,
    {
        let now = now_secs();
        self.complete_at(exit_code, now);
    }

    /// Pauses the task at time `now` until a person looks at it, keeping
    /// `reason` as given.
    pub fn mark_needs_attention_at(&mut self, reason: String, now: i64)
        ensures
            final(self).status == TaskStatus::NeedsAttention,
            final(self).attention_reason == Some(reason),
            final(self).updated_at == later(old(self).updated_at, now),
            old(self).wf() ==> final(self).wf(),
            final(self).completed_at == old(self).completed_at,
            final(self).exit_code == old(self).exit_code,
            final(self).id == old(self).id,
            final(self).task_id == old(self).task_id,
            final(self).agent_type == old(self).agent_type,
            final(self).title == old(self).title,
            final(self).created_at == old(self).created_at,
            final(self).pid == old(self).pid,
            final(self).ppid == old(self).ppid,
            final(self).monitor_pid == old(self).monitor_pid,
            final(self).context == old(self).context,
            final(self).metadata == old(self).metadata,
    {
        self.status = TaskStatus::NeedsAttention;
        self.attention_reason = Some(reason);
        if self.updated_at < now {
            self.updated_at = now;
        }
    }

    /// Pauses the task now until a person looks at it, keeping `reason` as
    /// given.
    pub fn mark_needs_attention(&mut self, reason: String)
        ensures
            final(self).status == TaskStatus::NeedsAttention,
            final(self).attention_reason == Some(reason),
            final(self).updated_at >= old(self).updated_at,
            old(self).wf() ==> final(self).wf(),
            final(self).completed_at == old(self).completed_at,
            final(self).exit_code == old(self).exit_code,
            final(self).id == old(self).id,
            final(self).task_id == old(self).task_id,
            final(self).agent_type == old(self).agent_type,
            final(self).title == old(self).title,
            final(self).created_at == old(self).created_at,
            final(self).pid == old(self).pid,
            final(self).ppid == old(self).ppid,
            final(self).monitor_pid == old(self).monitor_pid,
            final(self).context == old(self).context,
            final(self).metadata == old(self).metadata,
    {
        let now = now_secs();
        self.mark_needs_attention_at(reason, now);
    }

    /// Resumes the task at time `now`: it is running again and no longer
    /// completed.
    pub fn set_running_at(&mut self, now: i64)
        ensures
            final(self).status == TaskStatus::Running,
            final(self).completed_at is None,
            final(self).attention_reason is None,
            final(self).updated_at == later(old(self).updated_at, now),
            old(self).wf() ==> final(self).wf(),
            final(self).exit_code == old(self).exit_code,
            final(self).id == old(self).id,
            final(self).task_id == old(self).task_id,
            final(self).agent_type == old(self).agent_type,
            final(self).title == old(self).title,
            final(self).created_at == old(self).created_at,
            final(self).pid == old(self).pid,
            final(self).ppid == old(self).ppid,
            final(self).monitor_pid == old(self).monitor_pid,
            final(self).context == old(self).context,
            final(self).metadata == old(self).metadata,
    {
        self.status = TaskStatus::Running;
        self.completed_at = None;
        self.attention_reason = None;
        if self.updated_at < now {
            self.updated_at = now;
        }
    }

    /// Resumes the task now: it is running again and no longer completed.
    pub fn set_running(&mut self)
        ensures
            final(self).status == TaskStatus::Running,
            final(self).completed_at is None,
            final(self).attention_reason is None,
            final(self).updated_at >= old(self).updated_at,
            old(self).wf() ==> final(self).wf(),
            final(self).exit_code == old(self).exit_code,
            final(self).id == old(self).id,
            final(self).task_id == old(self).task_id,
            final(self).agent_type == old(self).agent_type,
            final(self).title == old(self).title,
            final(self).created_at == old(self).created_at,
            final(self).pid == old(self).pid,
            final(self).ppid == old(self).ppid,
            final(self).monitor_pid == old(self).monitor_pid,
            final(self).context == old(self).context,
            final(self).metadata == old(self).metadata,
    {
        let now = now_secs();
        self.set_running_at(now);
    }
}

} // verus!
