use agent_inbox::store::{task_from_columns, task_json_ok, Database, StoreError, DEFAULT_RETENTION_SECS};
use agent_inbox::task::{Task, TaskStatus};
use tempfile::NamedTempFile;

fn create_test_db() -> (Database, NamedTempFile) {
    let temp_file = NamedTempFile::new().unwrap();
    let db = Database::open(temp_file.path().to_str().unwrap()).unwrap();
    (db, temp_file)
}

#[test]
fn test_database_creation() {
    let (_db, _temp) = create_test_db();
}

#[test]
fn test_insert_and_retrieve_task() {
    let (db, _temp) = create_test_db();

    let task = Task::new(
        "test-123".to_string(),
        "claude_code".to_string(),
        "Test task".to_string(),
        Some(1234),
        Some(1233),
    );

    let id = db.insert_task(&task).unwrap();
    assert!(id > 0);

    let retrieved = db.get_task_by_id("test-123").unwrap();
    assert!(retrieved.is_some());

    let retrieved = retrieved.unwrap();
    assert_eq!(retrieved.task_id, "test-123");
    assert_eq!(retrieved.agent_type, "claude_code");
    assert_eq!(retrieved.status, TaskStatus::Running);
}

#[test]
fn test_update_task() {
    let (db, _temp) = create_test_db();

    let mut task = Task::new(
        "test-123".to_string(),
        "claude_code".to_string(),
        "Test task".to_string(),
        Some(1234),
        None,
    );

    db.insert_task(&task).unwrap();

    task.complete(Some(0));
    db.update_task(&task).unwrap();

    let retrieved = db.get_task_by_id("test-123").unwrap().unwrap();
    assert_eq!(retrieved.status, TaskStatus::Completed);
    assert_eq!(retrieved.exit_code, Some(0));
}

#[test]
fn test_list_tasks() {
    let (db, _temp) = create_test_db();

    let task1 = Task::new("test-1".to_string(), "claude_code".to_string(), "Task 1".to_string(), None, None);
    let mut task2 = Task::new("test-2".to_string(), "opencode".to_string(), "Task 2".to_string(), None, None);
    task2.complete(Some(0));

    db.insert_task(&task1).unwrap();
    db.insert_task(&task2).unwrap();

    let all_tasks = db.list_tasks(None).unwrap();
    assert_eq!(all_tasks.len(), 2);

    let running_tasks = db.list_tasks(Some(TaskStatus::Running)).unwrap();
    assert_eq!(running_tasks.len(), 1);
    assert_eq!(running_tasks[0].task_id, "test-1");

    let completed_tasks = db.list_tasks(Some(TaskStatus::Completed)).unwrap();
    assert_eq!(completed_tasks.len(), 1);
    assert_eq!(completed_tasks[0].task_id, "test-2");
}

#[test]
fn test_delete_task() {
    let (db, _temp) = create_test_db();

    let task = Task::new("test-123".to_string(), "claude_code".to_string(), "Test task".to_string(), None, None);

    db.insert_task(&task).unwrap();

    let deleted = db.delete_task("test-123").unwrap();
    assert!(deleted);

    let retrieved = db.get_task_by_id("test-123").unwrap();
    assert!(retrieved.is_none());
}

#[test]
fn test_cleanup_old_completed() {
    let (db, _temp) = create_test_db();

    let mut task = Task::new("test-123".to_string(), "claude_code".to_string(), "Test task".to_string(), None, None);

    task.complete(Some(0));
    db.insert_task(&task).unwrap();

    let deleted = db.cleanup_old_completed(1).unwrap();
    assert_eq!(deleted, 0);

    let deleted = db.cleanup_old_completed(-1).unwrap();
    assert_eq!(deleted, 1);
}

#[test]
fn round_trip_keeps_every_field() {
    let (db, _temp) = create_test_db();
    let mut task = Task::create("rt".to_string(), "claude_web".to_string(), "Round trip", Some(7), Some(6), 1000);
    task.monitor_pid = Some(8);
    task.context = Some("{\"url\":\"https://example.com\",\"project_path\":null}".to_string());
    task.metadata = Some("{\"k\":1}".to_string());
    task.mark_needs_attention_at("why".to_string(), 1200);
    task.exit_code = Some(5);
    let id = db.insert_task(&task).unwrap();
    let got = db.get_task_by_id("rt").unwrap().unwrap();
    let mut expected = task.clone();
    expected.id = Some(id);
    assert_eq!(got, expected);
}

#[test]
fn duplicate_task_id_is_refused() {
    let (db, _temp) = create_test_db();
    let a = Task::create("dup".to_string(), "a".to_string(), "first", None, None, 1);
    let b = Task::create("dup".to_string(), "b".to_string(), "second", None, None, 2);
    db.insert_task(&a).unwrap();
    assert!(matches!(db.insert_task(&b), Err(StoreError::DuplicateKey)));
    assert_eq!(db.get_task_by_id("dup").unwrap().unwrap().title, "first");
}

#[test]
fn update_of_missing_task_is_not_found() {
    let (db, _temp) = create_test_db();
    let t = Task::create("ghost".to_string(), "a".to_string(), "x", None, None, 1);
    assert!(matches!(db.update_task(&t), Err(StoreError::NotFound)));
}

#[test]
fn delete_of_missing_task_is_false() {
    let (db, _temp) = create_test_db();
    assert!(!db.delete_task("nothing").unwrap());
}

#[test]
fn cleanup_by_age() {
    let (db, _temp) = create_test_db();
    let now = 1_700_000_000i64;
    let mut old = Task::create("old".to_string(), "a".to_string(), "x", None, None, now - 9000);
    old.complete_at(Some(0), now - 7200);
    let mut recent = Task::create("recent".to_string(), "a".to_string(), "x", None, None, now - 100);
    recent.complete_at(Some(0), now - 10);
    let mut failed = Task::create("failed".to_string(), "a".to_string(), "x", None, None, now - 9000);
    failed.complete_at(Some(1), now - 7200);
    let mut paused = Task::create("paused".to_string(), "a".to_string(), "x", None, None, now - 9000);
    paused.complete_at(Some(0), now - 7200);
    paused.mark_needs_attention_at("r".to_string(), now - 7100);
    let running = Task::create("running".to_string(), "a".to_string(), "x", None, None, now - 9000);
    for t in [&old, &recent, &failed, &paused, &running] {
        db.insert_task(t).unwrap();
    }
    assert_eq!(db.cleanup_old_completed_at(DEFAULT_RETENTION_SECS, now).unwrap(), 1);
    assert!(db.get_task_by_id("old").unwrap().is_none());
    for id in ["recent", "failed", "paused", "running"] {
        assert!(db.get_task_by_id(id).unwrap().is_some());
    }
}

#[test]
fn list_running_out_of_three() {
    let (db, _temp) = create_test_db();
    let running = Task::create("r".to_string(), "a".to_string(), "x", None, None, 10);
    let mut completed = Task::create("c".to_string(), "a".to_string(), "x", None, None, 10);
    completed.complete_at(Some(0), 20);
    let mut failed = Task::create("f".to_string(), "a".to_string(), "x", None, None, 10);
    failed.complete_at(Some(9), 30);
    db.insert_task(&running).unwrap();
    db.insert_task(&completed).unwrap();
    db.insert_task(&failed).unwrap();
    let listed = db.list_tasks(Some(TaskStatus::Running)).unwrap();
    assert_eq!(listed.len(), 1);
    assert_eq!(listed[0].task_id, "r");
    let all = db.list_tasks(None).unwrap();
    let order: Vec<&str> = all.iter().map(|t| t.task_id.as_str()).collect();
    assert_eq!(order, vec!["f", "c", "r"]);
}

#[test]
fn clear_tasks_removes_each() {
    let (db, _temp) = create_test_db();
    let a = Task::create("a".to_string(), "x".to_string(), "x", None, None, 1);
    let b = Task::create("b".to_string(), "x".to_string(), "x", None, None, 2);
    db.insert_task(&a).unwrap();
    db.insert_task(&b).unwrap();
    let all = db.list_tasks(None).unwrap();
    assert_eq!(db.clear_tasks(&all).unwrap(), 2);
    assert!(db.list_tasks(None).unwrap().is_empty());
}

#[test]
fn unknown_stored_status_is_an_error() {
    let cols = (
        3i64, "t".to_string(), "a".to_string(), "x".to_string(), "exited".to_string(),
        1i64, 2i64, None, None, None, None, None, None, None, None,
    );
    match task_from_columns(cols) {
        Err(StoreError::InvalidStatus(s)) => assert_eq!(s, "exited"),
        other => panic!("unexpected {:?}", other),
    }
}

#[test]
fn malformed_json_reads_as_absent() {
    let cols = (
        3i64, "t".to_string(), "a".to_string(), "x".to_string(), "failed".to_string(),
        1i64, 2i64, Some(2i64), Some(1), None, None, None, Some(4), Some("{not json".to_string()),
        Some("[1,2]".to_string()),
    );
    let t = task_from_columns(cols).unwrap();
    assert_eq!(t.status, TaskStatus::Failed);
    assert_eq!(t.id, Some(3));
    assert_eq!(t.context, None);
    assert_eq!(t.metadata, None);
    assert_eq!(t.exit_code, Some(4));
    let good = (
        3i64, "t".to_string(), "a".to_string(), "x".to_string(), "running".to_string(),
        1i64, 2i64, None, None, None, None, None, None, Some("{\"url\":null}".to_string()), None,
    );
    assert_eq!(task_from_columns(good).unwrap().context, Some("{\"url\":null}".to_string()));
}

#[test]
fn non_object_json_is_refused() {
    let (db, _temp) = create_test_db();
    let mut t = Task::create("j".to_string(), "a".to_string(), "x", None, None, 1);
    assert!(task_json_ok(&t));
    t.context = Some("x".to_string());
    assert!(!task_json_ok(&t));
    assert!(matches!(db.insert_task(&t), Err(StoreError::InvalidJson)));
    assert!(db.get_task_by_id("j").unwrap().is_none());
    t.context = Some("{}".to_string());
    db.insert_task(&t).unwrap();
    t.metadata = Some("[1]".to_string());
    assert!(matches!(db.update_task(&t), Err(StoreError::InvalidJson)));
    assert_eq!(db.get_task_by_id("j").unwrap().unwrap().metadata, None);
}
