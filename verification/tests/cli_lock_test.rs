use queue::display::{lock_success_text, status_json, status_text};
use queue::error::{QueueError, EXIT_RELEASE_FAILED, EXIT_TIMEOUT};
use queue::lock::{LockInfo, LockRecord};
use queue::manager::{
    check_wait_limits, decide_lock_start, decide_run_start, decide_wait_notice, ExplicitLock, QueueManager,
    StartDecision,
};
use queue::state::QueueState;

fn is_uuid_v4(s: &str) -> bool {
    let b = s.as_bytes();
    if b.len() != 36 {
        return false;
    }
    for (i, c) in b.iter().enumerate() {
        let ok = match i {
            8 | 13 | 18 | 23 => *c == b'-',
            14 => *c == b'4',
            19 => matches!(*c, b'8' | b'9' | b'a' | b'b'),
            _ => c.is_ascii_digit() || (b'a'..=b'f').contains(c),
        };
        if !ok {
            return false;
        }
    }
    true
}

fn manager() -> QueueManager {
    QueueManager::new("testq", "/tmp/queue-tests".to_string()).unwrap()
}

fn lock_testq(reason: &str) -> LockInfo {
    manager().new_lock(reason, 4242)
}

fn locked_state(lock: &LockInfo) -> QueueState {
    let mut state = QueueState::new("testq".to_string());
    state.record_lock(lock, false);
    state
}

#[test]
fn test_lock_unlocked_queue() {
    let lock = lock_testq("E2E Tests");
    let out = lock_success_text(&lock, false);
    assert!(is_uuid_v4(&lock.token));
    assert!(out.contains(&lock.token));
    assert_eq!(
        out,
        format!("🔒 Queue \"testq\" locked successfully.\nToken: {}\nReason: E2E Tests", lock.token)
    );
}

#[test]
fn test_lock_raw_output() {
    let lock = lock_testq("E2E Tests");
    let out = format!("{}\n", lock_success_text(&lock, true));
    assert!(out.ends_with('\n'));
    assert!(is_uuid_v4(out.trim_end_matches('\n')));
    assert_eq!(out.len(), 37);
}

#[test]
fn test_queue_run_blocked_by_lock() {
    let lock = lock_testq("E2E Tests");
    let m = manager();
    // The command is first in line and holds the execution lock, but the queue is locked.
    let d = decide_run_start(true, true, true, ExplicitLock::Live);
    assert_eq!(d, StartDecision::Wait);
    assert!(m.release_lock(&LockRecord::Present(lock.clone()), Some("nope"), false).is_err());
    // After two seconds of waiting with `--timeout 2` the run gives up.
    let e = check_wait_limits(true, Some(2), 2).unwrap();
    assert!(matches!(e, QueueError::Timeout));
    assert_eq!(e.wait_exit_code(), 124);
}

#[test]
fn test_release_with_valid_token() {
    let lock = lock_testq("E2E Tests");
    let token = lock_success_text(&lock, true).trim().to_string();
    assert!(manager().release_lock(&LockRecord::Present(lock.clone()), Some(token.as_str()), false).is_ok());
}

#[test]
fn test_release_with_invalid_token() {
    let lock = lock_testq("E2E Tests");
    let r = manager().release_lock(&LockRecord::Present(lock.clone()), Some("wrong-token"), false);
    assert!(matches!(r, Err(QueueError::InvalidToken)));
    assert_eq!(EXIT_RELEASE_FAILED, 1);
}

#[test]
fn test_release_unlocked_queue() {
    let r = manager().release_lock(&LockRecord::Missing, Some("some-token"), false);
    assert!(matches!(r, Err(QueueError::QueueNotLocked)));
    assert_eq!(EXIT_RELEASE_FAILED, 1);
}

#[test]
fn test_force_release_without_token() {
    let lock = lock_testq("E2E Tests");
    assert!(manager().release_lock(&LockRecord::Present(lock.clone()), None, true).is_ok());
}

#[test]
fn test_force_release_unlocked_queue() {
    let r = manager().release_lock(&LockRecord::Missing, None, true);
    assert!(matches!(r, Err(QueueError::QueueNotLocked)));
    assert_eq!(EXIT_RELEASE_FAILED, 1);
}

#[test]
fn test_status_locked_queue() {
    let lock = lock_testq("E2E Tests");
    let out = status_text(&locked_state(&lock), Some(0));
    assert!(out.contains("🔒 Locked: E2E Tests"));
}

#[test]
fn test_status_locked_queue_json() {
    let lock = lock_testq("E2E Tests");
    let v = status_json(&locked_state(&lock), Some(0));
    assert_eq!(v.status, "locked");
    assert_eq!(v.lock.unwrap().reason, "E2E Tests");
}

#[test]
fn test_lock_timeout() {
    let _held = lock_testq("E2E Tests");
    // A second lock request waits while the first lock is live...
    assert_eq!(decide_lock_start(true, true, ExplicitLock::Live), StartDecision::Wait);
    // ...and gives up after `--timeout 1`.
    let e = check_wait_limits(true, Some(1), 1).unwrap();
    assert_eq!(e.wait_exit_code(), EXIT_TIMEOUT);
}

#[test]
fn test_lock_raw_waiting_message() {
    let _held = lock_testq("E2E Tests");
    // With `--raw` the waiting request shows no notice.
    assert_eq!(decide_wait_notice(true, false, false, ExplicitLock::Live), None);
    assert!(decide_wait_notice(false, false, false, ExplicitLock::Live).is_some());
}

#[test]
fn test_status_unlocked_queue_no_lock_info() {
    let state = QueueState::new("testq".to_string());
    let out = status_text(&state, Some(0));
    assert!(!out.contains("🔒 Locked"));
}
