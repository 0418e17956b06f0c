use queue::error::{QueueError, EXIT_INTERRUPTED, EXIT_TIMEOUT};
use queue::manager::{
    check_wait_limits, decide_lock_start, decide_run_start, explicit_lock_state, ExplicitLock, StartDecision,
};
use queue::state::{is_my_turn, ticket_file_name};

#[test]
fn test_sequential_execution() {
    // Two commands enqueued one after the other: the second waits while the first
    // holds the execution lock, and starts once it is first and the lock is free.
    let first = ticket_file_name(1_000, "a");
    let second = ticket_file_name(2_000, "b");
    let both = vec![second.clone(), first.clone()];
    assert!(is_my_turn(&both, &first));
    assert!(!is_my_turn(&both, &second));
    assert_eq!(decide_run_start(true, true, true, ExplicitLock::Absent), StartDecision::Start);
    assert_eq!(decide_run_start(false, false, false, ExplicitLock::Absent), StartDecision::Wait);
    let only_second = vec![second.clone()];
    assert!(is_my_turn(&only_second, &second));
    assert_eq!(decide_run_start(true, true, true, ExplicitLock::Absent), StartDecision::Start);
}

#[test]
fn test_timeout_aborts_wait() {
    // A running command holds the queue; a second one with `--timeout 1` gives up
    // after a second with exit code 124.
    assert_eq!(decide_run_start(false, false, false, ExplicitLock::Absent), StartDecision::Wait);
    assert!(check_wait_limits(true, Some(1), 0).is_none());
    let e = check_wait_limits(true, Some(1), 1).unwrap();
    assert!(matches!(e, QueueError::Timeout));
    assert_eq!(e.wait_exit_code(), EXIT_TIMEOUT);
}

#[test]
fn interruption_comes_before_timeout() {
    let e = check_wait_limits(false, Some(1), 100).unwrap();
    assert!(matches!(e, QueueError::Cancelled));
    assert_eq!(e.wait_exit_code(), EXIT_INTERRUPTED);
    assert!(check_wait_limits(true, None, u64::MAX).is_none());
}

#[test]
fn stale_lock_still_holds_the_queue() {
    assert_eq!(explicit_lock_state(true, true), ExplicitLock::Stale);
    assert_eq!(explicit_lock_state(true, false), ExplicitLock::Live);
    assert_eq!(explicit_lock_state(false, true), ExplicitLock::Absent);
    // A lock whose holder is gone is not cleared by a waiting command or lock request.
    assert_eq!(decide_run_start(true, true, true, ExplicitLock::Stale), StartDecision::Wait);
    assert_eq!(decide_lock_start(true, true, ExplicitLock::Stale), StartDecision::Wait);
    assert_eq!(decide_lock_start(true, true, ExplicitLock::Absent), StartDecision::Start);
}
