use vstd::prelude::*;
use crate::task::{clamped_sub, lemma_status_name_round_trip, now_secs, status_name, status_named, Task, TaskStatus};

verus! {

#[verifier::external_type_specification]
#[verifier::external_body]
pub struct ExConnection(rusqlite::Connection);

#[verifier::external_type_specification]
#[verifier::external_body]
pub struct ExSqlError(rusqlite::Error);

/// Default age, in seconds, past which completed tasks are cleaned up.
pub const DEFAULT_RETENTION_SECS: i64 = 3600;

/// Version of the table layout that this library writes.
pub const SCHEMA_VERSION: i32 = 1;

/// SQLite's extended result code for a broken UNIQUE constraint.
pub const SQLITE_CONSTRAINT_UNIQUE: i32 = 2067;

const VERSION_TABLE_SQL: &'static str = "CREATE TABLE IF NOT EXISTS schema_version (version INTEGER PRIMARY KEY)";

const SCHEMA_SQL: &'static str = "CREATE TABLE tasks (
        id INTEGER PRIMARY KEY AUTOINCREMENT,
        task_id TEXT UNIQUE NOT NULL,
        agent_type TEXT NOT NULL,
        title TEXT NOT NULL,
        status TEXT NOT NULL,
        created_at INTEGER NOT NULL,
        updated_at INTEGER NOT NULL,
        completed_at INTEGER,
        pid INTEGER,
        ppid INTEGER,
        monitor_pid INTEGER,
        attention_reason TEXT,
        exit_code INTEGER,
        context TEXT,
        metadata TEXT
    );
    CREATE INDEX idx_status ON tasks(status);
    CREATE INDEX idx_updated_at ON tasks(updated_at);
    CREATE INDEX idx_pid ON tasks(pid);
    CREATE INDEX idx_completed_at ON tasks(completed_at);
    INSERT INTO schema_version (version) VALUES (1);";

const WAL_SQL: &'static str = "PRAGMA journal_mode=WAL;";

const SELECT_VERSION_SQL: &'static str = "SELECT version FROM schema_version";

const INSERT_SQL: &'static str = "INSERT INTO tasks (
        task_id, agent_type, title, status, created_at, updated_at,
        completed_at, pid, ppid, monitor_pid, attention_reason,
        exit_code, context, metadata
    ) VALUES (?1, ?2, ?3, ?4, ?5, ?6, ?7, ?8, ?9, ?10, ?11, ?12, ?13, ?14)";

const UPDATE_SQL: &'static str = "UPDATE tasks SET
        agent_type = ?2, title = ?3, status = ?4, created_at = ?5, updated_at = ?6,
        completed_at = ?7, pid = ?8, ppid = ?9, monitor_pid = ?10,
        attention_reason = ?11, exit_code = ?12, context = ?13, metadata = ?14
    WHERE task_id = ?1";

const SELECT_ONE_SQL: &'static str = "SELECT id, task_id, agent_type, title, status, created_at, updated_at,
        completed_at, pid, ppid, monitor_pid, attention_reason, exit_code, context, metadata
    FROM tasks WHERE task_id = ?1";

const SELECT_LIST_SQL: &'static str = "SELECT id, task_id, agent_type, title, status, created_at, updated_at,
        completed_at, pid, ppid, monitor_pid, attention_reason, exit_code, context, metadata
    FROM tasks WHERE ?1 IS NULL OR status = ?1 ORDER BY updated_at DESC";

const DELETE_SQL: &'static str = "DELETE FROM tasks WHERE task_id = ?1";

const CLEANUP_SQL: &'static str = "DELETE FROM tasks WHERE status = 'completed' AND completed_at < ?1";

/// The columns of one stored task, in table order.
pub type RowColumns = (
    i64,
    String,
    String,
    String,
    String,
    i64,
    i64,
    Option<i64>,
    Option<i32>,
    Option<i32>,
    Option<i32>,
    Option<String>,
    Option<i32>,
    Option<String>,
    Option<String>,
);

/// Whether `s` is the text of one JSON object.
pub uninterp spec fn json_object_ok(s: Seq<char>) -> bool;

/// Relies on serde_json's `from_str`: whether `s` parses as a JSON object,
/// which depends on the text alone.
#[verifier::external_body]
fn is_json_object(s: &str) -> (r: bool)
    ensures
        r == json_object_ok(s@),
{
    serde_json::from_str::<serde_json::Map<String, serde_json::Value>>(s).is_ok()
}

/// Relies on rusqlite's `Connection::open`: opens, or creates, the database
/// file at `path`.
#[verifier::external_body]
fn open_connection(path: &str) -> (r: Result<rusqlite::Connection, rusqlite::Error>) {
    rusqlite::Connection::open(path)
}

/// Relies on rusqlite's `Connection::execute_batch`: runs the statements of
/// `sql` in order.
#[verifier::external_body]
fn execute_batch(conn: &rusqlite::Connection, sql: &str) -> (r: Result<(), rusqlite::Error>) {
    conn.execute_batch(sql)
}

/// Relies on rusqlite's `Connection::query_row` and `OptionalExtension::optional`:
/// the recorded schema version, `None` when none is recorded.
#[verifier::external_body]
fn query_schema_version(conn: &rusqlite::Connection) -> (r: Result<Option<i32>, rusqlite::Error>) {
    rusqlite::OptionalExtension::optional(conn.query_row(SELECT_VERSION_SQL, (), |row| row.get(0)))
}

/// Relies on rusqlite's `Connection::execute`: runs one statement with the
/// given parameters and gives the number of rows it changed.
pub assume_specification<P: rusqlite::Params>[ rusqlite::Connection::execute::<P> ](
    conn: &rusqlite::Connection,
    sql: &str,
    params: P,
) -> (r: rusqlite::Result<usize>);

/// Relies on rusqlite's `Connection::last_insert_rowid`: the id of the row
/// that the last successful insert made.
#[verifier::external_body]
fn last_insert_rowid(conn: &rusqlite::Connection) -> (r: i64) {
    conn.last_insert_rowid()
}

/// Relies on rusqlite's `Connection::query_row` and `OptionalExtension::optional`:
/// the row whose `task_id` column equals `task_id`, if any.
#[verifier::external_body]
fn query_task_row(conn: &rusqlite::Connection, task_id: &str) -> (r: Result<Option<RowColumns>, rusqlite::Error>)
    ensures
        r matches Ok(Some(c)) ==> c.1@ == task_id@,
{
    rusqlite::OptionalExtension::optional(conn.query_row(SELECT_ONE_SQL, (task_id,), |row| RowColumns::try_from(row)))
}

/// Relies on rusqlite's `Connection::prepare` and `Statement::query_map`: the
/// rows whose status column equals `status`, or all rows for `None`, latest
/// update first.
#[verifier::external_body]
fn query_task_rows(conn: &rusqlite::Connection, status: Option<&str>) -> (r: Result<Vec<RowColumns>, rusqlite::Error>)
    ensures
        r matches Ok(v) ==> forall|i: int| 0 <= i < v@.len() ==> (status matches Some(s) ==> (#[trigger] v@[i]).4@ == s@),
        r matches Ok(v) ==> forall|i: int, j: int| 0 <= i < j < v@.len() ==> (#[trigger] v@[i]).6 >= (#[trigger] v@[j]).6,
{
    let mut stmt = conn.prepare(SELECT_LIST_SQL)?;
    let rows = stmt.query_map((status,), |row| RowColumns::try_from(row))?;
    rows.collect()
}

/// Relies on rusqlite's `Error::sqlite_error`: the extended result code of
/// an error that SQLite itself reported.
#[verifier::external_body]
fn sqlite_extended_code(e: &rusqlite::Error) -> (r: Option<i32>) {
    e.sqlite_error().map(|f| f.extended_code)
}

/// Why a store operation failed.
#[derive(Debug)]
pub enum StoreError {
    /// A task with the same `task_id` is already stored.
    DuplicateKey,
    /// No task with the given `task_id` is stored.
    NotFound,
    /// A stored status is none of the known names; it holds the text read.
    InvalidStatus(String),
    /// The task's `context` or `metadata` is not the text of a JSON object.
    InvalidJson,
    /// The file holds an older table layout, of the given version.
    SchemaTooOld(i32),
    /// The database engine failed.
    Engine(rusqlite::Error),
}

/// An optional text as a sequence of characters.
pub open spec fn opt_view(o: Option<String>) -> Option<Seq<char>> {
    match o {
        Some(s) => Some(s@),
        None => None,
    }
}

/// A stored JSON column as it is read back: kept when it is a JSON object,
/// absent otherwise.
pub open spec fn checked_json(o: Option<String>) -> Option<Seq<char>> {
    match o {
        Some(s) => if json_object_ok(s@) { Some(s@) } else { None },
        None => None,
    }
}

/// The task's JSON columns, where present, each hold a JSON object: the tasks
/// that the store accepts.
pub open spec fn json_columns_ok(t: Task) -> bool {
    &&& (t.context matches Some(c) ==> json_object_ok(c@))
    &&& (t.metadata matches Some(m) ==> json_object_ok(m@))
}

/// Whether the store accepts `task`: its context and metadata, where
/// present, are JSON objects.
pub fn task_json_ok(task: &Task) -> (r: bool)
    ensures
        r == json_columns_ok(*task),
{
    let context_ok = match &task.context {
        Some(c) => is_json_object(c.as_str()),
        None => true,
    };
    let metadata_ok = match &task.metadata {
        Some(m) => is_json_object(m.as_str()),
        None => true,
    };
    context_ok && metadata_ok
}

/// Reads a stored JSON column; text that is not a JSON object is dropped.
pub fn read_json_column(o: Option<String>) -> (r: Option<String>)
    ensures
        opt_view(r) == checked_json(o),
{
    match o {
        Some(s) => if is_json_object(s.as_str()) { Some(s) } else { None },
        None => None,
    }
}

fn clone_text(o: &Option<String>) -> (r: Option<String>)
    ensures
        r == *o,
{
    match o {
        Some(s) => Some(s.clone()),
        None => None,
    }
}

/// The columns that store `task`; a task not stored yet has id 0, which the
/// insert does not write.
pub open spec fn columns_of(t: Task) -> (i64, Seq<char>, Seq<char>, Seq<char>, Seq<char>, i64, i64, Option<i64>,
    Option<i32>, Option<i32>, Option<i32>, Option<Seq<char>>, Option<i32>, Option<Seq<char>>, Option<Seq<char>>) {
    (
        match t.id { Some(i) => i, None => 0 },
        t.task_id@,
        t.agent_type@,
        t.title@,
        status_name(t.status),
        t.created_at,
        t.updated_at,
        t.completed_at,
        t.pid,
        t.ppid,
        t.monitor_pid,
        opt_view(t.attention_reason),
        t.exit_code,
        opt_view(t.context),
        opt_view(t.metadata),
    )
}

/// The columns of `c` as sequences of characters.
pub open spec fn columns_view(c: RowColumns) -> (i64, Seq<char>, Seq<char>, Seq<char>, Seq<char>, i64, i64, Option<i64>,
    Option<i32>, Option<i32>, Option<i32>, Option<Seq<char>>, Option<i32>, Option<Seq<char>>, Option<Seq<char>>) {
    (c.0, c.1@, c.2@, c.3@, c.4@, c.5, c.6, c.7, c.8, c.9, c.10, opt_view(c.11), c.12, opt_view(c.13), opt_view(c.14))
}

/// Writes `task` as table columns.
pub fn task_to_columns(task: &Task) -> (c: RowColumns)
    ensures
        columns_view(c) == columns_of(*task),
{
    let id = match task.id {
        Some(i) => i,
        None => 0,
    };
    let status = String::from_str(task.status.as_str());
    (
        id,
        task.task_id.clone(),
        task.agent_type.clone(),
        task.title.clone(),
        status,
        task.created_at,
        task.updated_at,
        task.completed_at,
        task.pid,
        task.ppid,
        task.monitor_pid,
        clone_text(&task.attention_reason),
        task.exit_code,
        clone_text(&task.context),
        clone_text(&task.metadata),
    )
}

/// `t` is what the columns `c` read as.
pub open spec fn decoded(t: Task, c: RowColumns) -> bool {
            &&& Some(t.status) == status_named(c.4@)
            &&& t.id == Some(c.0)
            &&& t.task_id@ == c.1@
            &&& t.agent_type@ == c.2@
            &&& t.title@ == c.3@
            &&& t.created_at == c.5
            &&& t.updated_at == c.6
            &&& t.completed_at == c.7
            &&& t.pid == c.8
            &&& t.ppid == c.9
            &&& t.monitor_pid == c.10
            &&& opt_view(t.attention_reason) == opt_view(c.11)
            &&& t.exit_code == c.12
            &&& opt_view(t.context) == checked_json(c.13)
            &&& opt_view(t.metadata) == checked_json(c.14)
}

/// Reads a task from table columns. A status that is none of the known
/// names fails; a JSON column that is not a JSON object reads as absent.
pub fn task_from_columns(c: RowColumns) -> (r: Result<Task, StoreError>)
    ensures
        status_named(c.4@) is None <==> r is Err,
        r matches Err(e) ==> (e matches StoreError::InvalidStatus(s) && s@ == c.4@),
        r matches Ok(t) ==> decoded(t, c),
{
    let status = match TaskStatus::from_str(c.4.as_str()) {
        Ok(s) => s,
        Err(_) => {
            return Err(StoreError::InvalidStatus(c.4));
        },
    };
    Ok(Task {
        id: Some(c.0),
        task_id: c.1,
        agent_type: c.2,
        title: c.3,
        status,
        created_at: c.5,
        updated_at: c.6,
        completed_at: c.7,
        pid: c.8,
        ppid: c.9,
        monitor_pid: c.10,
        attention_reason: c.11,
        exit_code: c.12,
        context: read_json_column(c.13),
        metadata: read_json_column(c.14),
    })
}


/// Reads the row of a lookup by `task_id`, if there was one.
pub fn optional_task_from_columns(c: Option<RowColumns>) -> (r: Result<Option<Task>, StoreError>)
    ensures
        match c {
            None => r matches Ok(None),
            Some(c) => {
                &&& (status_named(c.4@) is None <==> r is Err)
                &&& (r matches Err(e) ==> (e matches StoreError::InvalidStatus(s) && s@ == c.4@))
                &&& (r matches Ok(o) ==> (o matches Some(t) && decoded(t, c)))
            },
        },
{
    match c {
        None => Ok(None),
        Some(c) => match task_from_columns(c) {
            Ok(t) => Ok(Some(t)),
            Err(e) => Err(e),
        },
    }
}

/// Reads the rows of a listing, in order; the first row with an unknown
/// status fails the whole listing.
pub fn tasks_from_columns(rows: Vec<RowColumns>) -> (r: Result<Vec<Task>, StoreError>)
    ensures
        r is Err <==> exists|i: int| 0 <= i < rows@.len() && status_named((#[trigger] rows@[i]).4@) is None,
        r matches Err(e) ==> e is InvalidStatus,
        r matches Ok(v) ==> v@.len() == rows@.len() && forall|i: int| 0 <= i < v@.len() ==> decoded(#[trigger] v@[i], rows@[i]),
{
    let ghost orig = rows@;
    let n = rows.len();
    let mut rest = rows;
    let mut out: Vec<Task> = Vec::new();
    let mut i: usize = 0;
    while i < n
        invariant
            n == orig.len(),
            orig == rows@,
            i <= n,
            rest@ == orig.subrange(i as int, n as int),
            out@.len() == i,
            forall|k: int| 0 <= k < i ==> decoded(#[trigger] out@[k], orig[k]),
            forall|k: int| 0 <= k < i ==> status_named((#[trigger] orig[k]).4@) is Some,
        decreases n - i,
    {
        assert(rest@[0] == orig[i as int]);
        let c = rest.remove(0);
        assert(rest@ == orig.subrange(i + 1, n as int));
        match task_from_columns(c) {
            Ok(t) => {
                out.push(t);
            },
            Err(e) => {
                assert(status_named(orig[i as int].4@) is None);
                assert(exists|j: int| 0 <= j < orig.len() && status_named((#[trigger] orig[j]).4@) is None);
                return Err(e);
            },
        }
        i = i + 1;
    }
    Ok(out)
}

/// What opening a store does after reading its recorded schema version.
#[derive(Debug, Clone, Copy, PartialEq, Eq, Structural)]
pub enum SchemaStep {
    /// Nothing recorded: a fresh file, whose tables are to be made.
    Create,
    /// The current layout.
    Ready,
    /// An older layout, which this library cannot migrate.
    TooOld(i32),
}

/// Decides what to do with a file whose recorded schema version is `version`.
pub fn schema_step(version: Option<i32>) -> (r: SchemaStep)
    ensures
        r == match version {
            None => SchemaStep::Create,
            Some(v) => if v < SCHEMA_VERSION { SchemaStep::TooOld(v) } else { SchemaStep::Ready },
        },
{
    match version {
        None => SchemaStep::Create,
        Some(v) => if v < SCHEMA_VERSION { SchemaStep::TooOld(v) } else { SchemaStep::Ready },
    }
}

/// The error of a failed insert, given the SQLite extended code the engine
/// reported with it: a broken UNIQUE constraint (on `task_id`) is a
/// duplicate key.
pub fn insert_error(e: rusqlite::Error, code: Option<i32>) -> (r: StoreError)
    ensures
        code == Some(SQLITE_CONSTRAINT_UNIQUE) ==> r is DuplicateKey,
        code != Some(SQLITE_CONSTRAINT_UNIQUE) ==> r is Engine,
{
    match code {
        Some(c) => if c == SQLITE_CONSTRAINT_UNIQUE { StoreError::DuplicateKey } else { StoreError::Engine(e) },
        None => StoreError::Engine(e),
    }
}

/// The outcome of an update that changed `changed` rows: none means that no
/// task had the key.
pub fn update_result(changed: usize) -> (r: Result<(), StoreError>)
    ensures
        changed == 0 <==> r is Err,
        r matches Err(e) ==> e is NotFound,
{
    if changed == 0 { Err(StoreError::NotFound) } else { Ok(()) }
}

/// The durable table of tasks. Every participant opens it on its own; the
/// engine's write-ahead log lets readers go on while one writer commits.
pub struct Database {
    conn: rusqlite::Connection,
}

impl Database {
    /// Opens the store at `path`, creating the file and its tables when
    /// absent.
    pub fn open(path: &str) -> (r: Result<Database, StoreError>)
        ensures
            r matches Err(e) ==> (e is Engine || (e matches StoreError::SchemaTooOld(v) && v < SCHEMA_VERSION)),
    {
        let conn = match open_connection(path) {
            Ok(c) => c,
            Err(e) => {
                return Err(StoreError::Engine(e));
            },
        };
        if let Err(e) = execute_batch(&conn, WAL_SQL) {
            return Err(StoreError::Engine(e));
        }
        let db = Database { conn };
        match db.initialize() {
            Ok(()) => Ok(db),
            Err(e) => Err(e),
        }
    }

    fn initialize(&self) -> (r: Result<(), StoreError>)
        ensures
            r matches Err(e) ==> (e is Engine || (e matches StoreError::SchemaTooOld(v) && v < SCHEMA_VERSION)),
    {
        if let Err(e) = execute_batch(&self.conn, VERSION_TABLE_SQL) {
            return Err(StoreError::Engine(e));
        }
        let version = match query_schema_version(&self.conn) {
            Ok(v) => v,
            Err(e) => {
                return Err(StoreError::Engine(e));
            },
        };
        match schema_step(version) {
            SchemaStep::Create => match execute_batch(&self.conn, SCHEMA_SQL) {
                Ok(()) => Ok(()),
                Err(e) => Err(StoreError::Engine(e)),
            },
            SchemaStep::Ready => Ok(()),
            SchemaStep::TooOld(v) => Err(StoreError::SchemaTooOld(v)),
        }
    }

    /// Stores a new task and gives the id the store assigned. Fails with
    /// `InvalidJson` when its context or metadata is not a JSON object, and
    /// with `DuplicateKey` when a task with the same `task_id` is stored.
    pub fn insert_task(&self, task: &Task) -> (r: Result<i64, StoreError>)
        ensures
            !json_columns_ok(*task) <==> r matches Err(StoreError::InvalidJson),
            r matches Err(e) ==> (e is InvalidJson || e is DuplicateKey || e is Engine),
    {
        if !task_json_ok(task) {
            return Err(StoreError::InvalidJson);
        }
        let c = task_to_columns(task);
        match self.conn.execute(INSERT_SQL, (&c.1, &c.2, &c.3, &c.4, c.5, c.6, c.7, c.8, c.9, c.10, &c.11, c.12, &c.13, &c.14)) {
            Ok(_) => Ok(last_insert_rowid(&self.conn)),
            Err(e) => {
                let code = sqlite_extended_code(&e);
                Err(insert_error(e, code))
            },
        }
    }

    /// Overwrites the stored task with the same `task_id`, every column but
    /// the id. Fails with `InvalidJson` when its context or metadata is not a
    /// JSON object, and with `NotFound` when there is no such task.
    pub fn update_task(&self, task: &Task) -> (r: Result<(), StoreError>)
        ensures
            !json_columns_ok(*task) <==> r matches Err(StoreError::InvalidJson),
            r matches Err(e) ==> (e is InvalidJson || e is NotFound || e is Engine),
    {
        if !task_json_ok(task) {
            return Err(StoreError::InvalidJson);
        }
        let c = task_to_columns(task);
        match self.conn.execute(UPDATE_SQL, (&c.1, &c.2, &c.3, &c.4, c.5, c.6, c.7, c.8, c.9, c.10, &c.11, c.12, &c.13, &c.14)) {
            Ok(n) => update_result(n),
            Err(e) => Err(StoreError::Engine(e)),
        }
    }

    /// The stored task with this `task_id`; `None`, not an error, when there
    /// is none.
    pub fn get_task_by_id(&self, task_id: &str) -> (r: Result<Option<Task>, StoreError>)
        ensures
            r matches Ok(Some(t)) ==> t.task_id@ == task_id@ && t.id is Some,
            r matches Err(e) ==> (e is InvalidStatus || e is Engine),
    {
        match query_task_row(&self.conn, task_id) {
            Ok(c) => optional_task_from_columns(c),
            Err(e) => Err(StoreError::Engine(e)),
        }
    }

    /// The stored tasks, latest update first: all of them, or those with the
    /// given status.
    pub fn list_tasks(&self, status_filter: Option<TaskStatus>) -> (r: Result<Vec<Task>, StoreError>)
        ensures
            r matches Ok(v) ==> forall|i: int| 0 <= i < v@.len()
                ==> (status_filter matches Some(s) ==> (#[trigger] v@[i]).status == s),
            r matches Ok(v) ==> forall|i: int, j: int| 0 <= i < j < v@.len()
                ==> (#[trigger] v@[i]).updated_at >= (#[trigger] v@[j]).updated_at,
            r matches Err(e) ==> (e is InvalidStatus || e is Engine),
    {
        let name = match status_filter {
            Some(s) => Some(s.as_str()),
            None => None,
        };
        let rows = match query_task_rows(&self.conn, name) {
            Ok(rows) => rows,
            Err(e) => {
                return Err(StoreError::Engine(e));
            },
        };
        let ghost cols = rows@;
        let r = tasks_from_columns(rows);
        proof {
            if let Ok(v) = &r {
                assert forall|i: int, j: int| 0 <= i < j < v@.len()
                    implies (#[trigger] v@[i]).updated_at >= (#[trigger] v@[j]).updated_at by {
                    assert(decoded(v@[i], cols[i]) && decoded(v@[j], cols[j]));
                }
            }
            if let Some(s) = status_filter {
                if let Ok(v) = &r {
                    assert forall|i: int| 0 <= i < v@.len() implies (#[trigger] v@[i]).status == s by {
                        lemma_status_name_round_trip(s);
                        assert(cols[i].4@ == status_name(s));
                    }
                }
            }
        }
        r
    }

    /// Removes the task with this `task_id`; true if there was one.
    pub fn delete_task(&self, task_id: &str) -> (r: Result<bool, StoreError>)
        ensures
            r matches Err(e) ==> e is Engine,
    {
        match self.conn.execute(DELETE_SQL, (task_id,)) {
            Ok(n) => Ok(n > 0),
            Err(e) => Err(StoreError::Engine(e)),
        }
    }

    /// Removes each of `tasks` by its `task_id`, stopping at the first engine
    /// failure; gives how many tasks were handled.
    pub fn clear_tasks(&self, tasks: &Vec<Task>) -> (r: Result<usize, StoreError>)
        ensures
            r matches Ok(n) ==> n == tasks@.len(),
            r matches Err(e) ==> e is Engine,
    {
        let mut i: usize = 0;
        while i < tasks.len()
            invariant
                i <= tasks@.len(),
            decreases tasks@.len() - i,
        {
            if let Err(e) = self.delete_task(tasks[i].task_id.as_str()) {
                return Err(e);
            }
            i = i + 1;
        }
        Ok(i)
    }

    /// Removes the Completed tasks whose completion time is before
    /// `clamped_diff(now, older_than_secs)`, and gives how many went.
    pub fn cleanup_old_completed_at(&self, older_than_secs: i64, now: i64) -> (r: Result<usize, StoreError>)
        ensures
            r matches Err(e) ==> e is Engine,
    {
        let before = clamped_sub(now, older_than_secs);
        match self.conn.execute(CLEANUP_SQL, (before,)) {
            Ok(n) => Ok(n),
            Err(e) => Err(StoreError::Engine(e)),
        }
    }

    /// Removes the Completed tasks that completed more than
    /// `older_than_secs` seconds ago, and gives how many went.
    pub fn cleanup_old_completed(&self, older_than_secs: i64) -> (r: Result<usize, StoreError>)
        ensures
            r matches Err(e) ==> e is Engine,
    {
        let now = now_secs();
        self.cleanup_old_completed_at(older_than_secs, now)
    }
}

/// A task that the store accepts, written as columns, reads back as itself:
/// every field is kept but the id, which becomes the stored one.
pub proof fn lemma_columns_round_trip(t: Task, c: RowColumns)
    requires
        columns_view(c) == columns_of(t),
    ensures
        status_named(c.4@) == Some(t.status),
        json_columns_ok(t) ==> forall|u: Task| decoded(u, c) ==> {
            &&& u.status == t.status
            &&& u.id == Some(columns_of(t).0)
            &&& u.task_id@ == t.task_id@
            &&& u.agent_type@ == t.agent_type@
            &&& u.title@ == t.title@
            &&& u.created_at == t.created_at
            &&& u.updated_at == t.updated_at
            &&& u.completed_at == t.completed_at
            &&& u.pid == t.pid
            &&& u.ppid == t.ppid
            &&& u.monitor_pid == t.monitor_pid
            &&& opt_view(u.attention_reason) == opt_view(t.attention_reason)
            &&& u.exit_code == t.exit_code
            &&& opt_view(u.context) == opt_view(t.context)
            &&& opt_view(u.metadata) == opt_view(t.metadata)
        },
{
    lemma_status_name_round_trip(t.status);
    assert forall|u: Task| decoded(u, c) implies opt_view(u.context) == checked_json(t.context) by {
        match t.context {
            Some(s) => assert(c.13 matches Some(x) && x@ == s@),
            None => assert(c.13 is None),
        }
    }
    assert forall|u: Task| decoded(u, c) implies opt_view(u.metadata) == checked_json(t.metadata) by {
        match t.metadata {
            Some(s) => assert(c.14 matches Some(x) && x@ == s@),
            None => assert(c.14 is None),
        }
    }
}

} // verus!
