use queue::display::{status_json, status_text};
use queue::state::QueueState;

#[test]
fn test_status_empty() {
    let state = QueueState::new("main".to_string());
    let out = status_text(&state, Some(0));
    assert!(out.contains("Status: idle"));
    assert!(out.contains("No commands running or pending."));
    assert_eq!(out, "Queue: main\nStatus: idle\n\nNo commands running or pending.\n");
}

#[test]
fn test_status_empty_json() {
    let state = QueueState::new("main".to_string());
    let v = status_json(&state, Some(0));
    assert_eq!(v.status, "idle");
    assert!(v.running.is_none());
    assert_eq!(v.total_pending, 0);
    assert!(v.lock.is_none());
}
