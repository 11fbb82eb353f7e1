use agent_inbox::detect::{default_detectors, evaluate_all, Detector, ProcessSample};
use agent_inbox::monitor::{MonitorAction, TaskMonitor, DEFAULT_POLL_INTERVAL_MS};
use agent_inbox::task::{Task, TaskStatus};
use agent_inbox::tree::process_tree;

fn running_task() -> Task {
    Task::create("m1".to_string(), "claude_code".to_string(), "watch me", Some(100), None, 1000)
}

fn idle_monitor(threshold_ms: u64) -> TaskMonitor {
    let d = Detector::CpuIdle { threshold_ms, reason: "idle".to_string() };
    TaskMonitor::with_detectors(vec![d], 5000, 1000)
}

#[test]
fn unchanged_cpu_adds_one_interval() {
    let mut m = idle_monitor(u64::MAX);
    let tree = vec![100];
    assert!(matches!(m.poll(true, Some(running_task()), &tree, &vec![Some(50)], 1005), MonitorAction::Continue));
    assert_eq!(m.history[0].idle_ms, 0);
    assert!(matches!(m.poll(true, Some(running_task()), &tree, &vec![Some(50)], 1010), MonitorAction::Continue));
    assert_eq!(m.history[0].idle_ms, 5000);
    assert!(matches!(m.poll(true, Some(running_task()), &tree, &vec![Some(50)], 1015), MonitorAction::Continue));
    assert_eq!(m.history[0].idle_ms, 10000);
    assert!(matches!(m.poll(true, Some(running_task()), &tree, &vec![Some(51)], 1020), MonitorAction::Continue));
    assert_eq!(m.history[0].idle_ms, 0);
    assert_eq!(m.last_check, 1020);
}

#[test]
fn unreadable_sample_changes_nothing() {
    let mut m = idle_monitor(u64::MAX);
    let tree = vec![100];
    m.poll(true, Some(running_task()), &tree, &vec![Some(50)], 1005);
    m.poll(true, Some(running_task()), &tree, &vec![Some(50)], 1010);
    assert_eq!(m.history[0].idle_ms, 5000);
    m.poll(true, Some(running_task()), &tree, &vec![None], 1015);
    assert_eq!(m.history[0].idle_ms, 5000);
    m.poll(true, Some(running_task()), &tree, &vec![Some(50)], 1020);
    assert_eq!(m.history[0].idle_ms, 0);
}

#[test]
fn idle_is_counted_per_process() {
    let mut m = idle_monitor(u64::MAX);
    let tree = vec![100, 101];
    m.poll(true, Some(running_task()), &tree, &vec![Some(1), Some(7)], 1005);
    m.poll(true, Some(running_task()), &tree, &vec![Some(2), Some(7)], 1010);
    assert_eq!(m.history[0].idle_ms, 0);
    assert_eq!(m.history[1].idle_ms, 5000);
}

#[test]
fn idle_child_flags_the_task() {
    let mut m = idle_monitor(10000);
    let tree = vec![100, 101];
    let cpu = vec![Some(1), Some(7)];
    assert!(matches!(m.poll(true, Some(running_task()), &tree, &cpu, 1005), MonitorAction::Continue));
    assert!(matches!(m.poll(true, Some(running_task()), &tree, &vec![Some(2), Some(7)], 1010), MonitorAction::Continue));
    match m.poll(true, Some(running_task()), &tree, &vec![Some(3), Some(7)], 1015) {
        MonitorAction::Save(t) => {
            assert_eq!(t.status, TaskStatus::NeedsAttention);
            assert_eq!(t.attention_reason, Some("idle".to_string()));
            assert_eq!(t.updated_at, 1015);
        },
        other => panic!("unexpected {:?}", other),
    }
    assert!(m.stopped);
    assert!(matches!(m.poll(true, Some(running_task()), &tree, &cpu, 1020), MonitorAction::Stop));
}

#[test]
fn dead_root_completes_and_stops() {
    let mut m = TaskMonitor::new();
    match m.poll(false, Some(running_task()), &vec![], &vec![], 2000) {
        MonitorAction::Save(t) => {
            assert_eq!(t.status, TaskStatus::Completed);
            assert_eq!(t.exit_code, None);
            assert_eq!(t.completed_at, Some(2000));
        },
        other => panic!("unexpected {:?}", other),
    }
    assert!(m.stopped);
    assert!(matches!(m.poll(true, Some(running_task()), &vec![100], &vec![Some(1)], 2005), MonitorAction::Stop));
}

#[test]
fn dead_root_without_task_just_stops() {
    let mut m = TaskMonitor::new();
    assert!(matches!(m.poll(false, None, &vec![], &vec![], 2000), MonitorAction::Stop));
    assert!(m.stopped);
}

#[test]
fn deleted_or_finished_task_stops() {
    let mut m = TaskMonitor::new();
    assert!(matches!(m.poll(true, None, &vec![100], &vec![Some(1)], 2000), MonitorAction::Stop));
    let mut m = TaskMonitor::new();
    let mut t = running_task();
    t.mark_needs_attention_at("elsewhere".to_string(), 1500);
    assert!(matches!(m.poll(true, Some(t), &vec![100], &vec![Some(1)], 2000), MonitorAction::Stop));
    let mut m = TaskMonitor::new();
    let mut t = running_task();
    t.complete_at(Some(1), 1500);
    assert!(matches!(m.poll(true, Some(t), &vec![100], &vec![Some(1)], 2000), MonitorAction::Stop));
}

#[test]
fn default_monitor_settings() {
    let m = TaskMonitor::new();
    assert_eq!(m.poll_interval_ms, DEFAULT_POLL_INTERVAL_MS);
    assert_eq!(m.detectors.len(), 1);
    assert!(!m.stopped);
    assert_eq!(default_detectors().len(), 1);
}

#[test]
fn first_matching_detector_wins() {
    let ds = vec![
        Detector::CpuIdle { threshold_ms: 100, reason: "first".to_string() },
        Detector::CpuIdle { threshold_ms: 0, reason: "second".to_string() },
    ];
    let t = running_task();
    let s = |pid, idle_ms| ProcessSample { pid, last_check: 0, previous_cpu: Some(1), current_cpu: Some(1), idle_ms };
    assert_eq!(evaluate_all(&ds, &t, &vec![s(1, 50), s(2, 200)]), Some("second".to_string()));
    assert_eq!(evaluate_all(&ds, &t, &vec![s(1, 200), s(2, 50)]), Some("first".to_string()));
    let gone = ProcessSample { pid: 3, last_check: 0, previous_cpu: Some(1), current_cpu: None, idle_ms: 500 };
    assert_eq!(evaluate_all(&ds, &t, &vec![gone]), None);
    assert_eq!(evaluate_all(&ds, &t, &vec![]), None);
}

#[test]
fn tree_collects_descendants_once() {
    let links = vec![(2, 1), (3, 2), (4, 1), (5, 9), (6, 3), (1, 0)];
    let mut tree = process_tree(1, &links);
    assert_eq!(tree[0], 1);
    tree.sort();
    assert_eq!(tree, vec![1, 2, 3, 4, 6]);
    assert_eq!(process_tree(42, &links), vec![42]);
    let cycle = vec![(2, 1), (1, 2)];
    let mut c = process_tree(1, &cycle);
    c.sort();
    assert_eq!(c, vec![1, 2]);
}
