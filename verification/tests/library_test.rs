use queue::cleanup::{cleanup_stale_entries, probe_entries, probes_match, start_times_close, take_stale_given};
use queue::cli::join_with_spaces;
use queue::runner::{exit_code_from_spawn_failure, SpawnFailure};
use queue::display::{
    high_depth_text, lock_timeout_text, lock_waiting_text, queue_busy_waiting_text, release_success_text,
    seconds_since_text, stale_entry_text, status_json, status_text,
};
use queue::error::QueueError;
use queue::lock::{probe_holder, LockInfo, LockRecord};
use queue::manager::{
    decide_run_start, decide_wait_notice, decide_wait_step, lock_holder_pid, lock_state_of, now_text, ExplicitLock,
    QueueManager, StartDecision, WaitNotice, WaitStep,
};
use queue::state::{
    has_json_extension, order_ticket_names, ticket_file_name, ticket_matches_id, EntryStatus, QueueEntry, QueueState,
    WaiterEntry,
};

fn entry(id: &str, command: &str, status: EntryStatus, pid: u32, at: &str) -> QueueEntry {
    QueueEntry {
        id: id.to_string(),
        command: command.to_string(),
        status,
        pid,
        process_start_time: 0,
        enqueued_at: at.to_string(),
        started_at: None,
        completed_at: None,
        exit_code: None,
    }
}

const T0: i64 = 1_786_000_000_000_000_000;

#[test]
fn ticket_names_are_zero_padded() {
    assert_eq!(ticket_file_name(42, "abc"), "00000000000000000042-abc.json");
    assert_eq!(ticket_file_name(-5, "x"), "-0000000000000000005-x.json");
    assert_eq!(ticket_file_name(i64::MAX, "z"), "09223372036854775807-z.json");
}

#[test]
fn ticket_names_sort_by_time() {
    let names = vec![
        ticket_file_name(900, "zz"),
        "notes.txt".to_string(),
        ticket_file_name(10_000, "aa"),
        ticket_file_name(30, "mm"),
        ".json".to_string(),
    ];
    let ordered = order_ticket_names(&names);
    assert_eq!(
        ordered,
        vec![ticket_file_name(30, "mm"), ticket_file_name(900, "zz"), ticket_file_name(10_000, "aa")]
    );
    assert!(ticket_file_name(30, "zz") < ticket_file_name(900, "aa"));
    assert!(has_json_extension(&ticket_file_name(30, "zz")));
    // The head of the order is the one whose turn it is, and nobody else's.
    assert!(queue::state::is_my_turn(&names, &ordered[0]));
    assert!(!queue::state::is_my_turn(&names, &ordered[1]));
    assert!(!queue::state::is_my_turn(&names, "notes.txt"));
}

#[test]
fn json_extension_and_ticket_owner() {
    assert!(has_json_extension("a.json"));
    assert!(!has_json_extension(".json"));
    assert!(!has_json_extension("a.json.tmp"));
    let name = ticket_file_name(7, "id-1");
    assert!(ticket_matches_id(&name, "id-1"));
    assert!(!ticket_matches_id(&name, "2"));
    assert!(!ticket_matches_id("id-1.json", "id-1"));
}

#[test]
fn empty_waiter_directory_is_everyones_turn() {
    assert!(queue::state::is_my_turn(&vec![], "00000000000000000001-a.json"));
    assert!(queue::state::is_my_turn(&vec!["readme".to_string()], "x.json"));
}

#[test]
fn queue_names_are_checked() {
    assert!(QueueManager::new("main", "/tmp/q".to_string()).is_ok());
    assert!(QueueManager::new("deploy-ios_2", "/tmp/q".to_string()).is_ok());
    match QueueManager::new("a/b", "/tmp/q".to_string()) {
        Err(e) => assert_eq!(e.message(), "Queue state error: Invalid queue name: must be alphanumeric"),
        Ok(_) => panic!("a name with a slash is refused"),
    }
    assert!(QueueManager::new("a%b", "/tmp/q".to_string()).is_err());
    assert!(QueueManager::new("über", "/tmp/q".to_string()).is_ok());
    assert!(QueueManager::new("", "/tmp/q".to_string()).is_err());
    assert!(QueueManager::new("a.b", "/tmp/q".to_string()).is_err());
}

#[test]
fn queue_file_paths() {
    let m = QueueManager::new("main", "/tmp/q".to_string()).unwrap();
    assert_eq!(m.state_file_path(), "/tmp/q/main.state.json");
    assert_eq!(m.state_lock_path(), "/tmp/q/main.state.lock");
    assert_eq!(m.exec_lock_path(), "/tmp/q/main.lock");
    assert_eq!(m.lock_info_path(), "/tmp/q/main.lock.json");
    assert_eq!(m.waiters_dir_path(), "/tmp/q/main/waiters");
    assert_eq!(m.queue_name(), "main");
    assert_eq!(m.state_dir(), "/tmp/q");
}

#[test]
fn queues_in_one_directory_keep_apart() {
    let a = QueueManager::new("a", "/tmp/q".to_string()).unwrap();
    let b = QueueManager::new("b", "/tmp/q".to_string()).unwrap();
    let pa = vec![a.state_file_path(), a.state_lock_path(), a.exec_lock_path(), a.lock_info_path(), a.waiters_dir_path()];
    let pb = vec![b.state_file_path(), b.state_lock_path(), b.exec_lock_path(), b.lock_info_path(), b.waiters_dir_path()];
    for (i, x) in pa.iter().enumerate() {
        for (j, y) in pa.iter().enumerate() {
            assert_eq!(x == y, i == j);
        }
        for y in pb.iter() {
            assert_ne!(x, y);
        }
    }
    assert_eq!(b.waiters_dir_path(), "/tmp/q/b/waiters");
}

#[test]
fn start_times_allow_five_seconds_of_drift() {
    assert!(start_times_close(100, 105));
    assert!(start_times_close(105, 100));
    assert!(!start_times_close(100, 106));
    assert!(start_times_close(u64::MAX, 0));
    assert!(!start_times_close(u64::MAX - 10, 0));
}

#[test]
fn stale_entries_go_finished_ones_stay() {
    let mut state = QueueState::new("main".to_string());
    state.entries.push(entry("a", "x", EntryStatus::Running, 1, ""));
    state.entries.push(entry("b", "y", EntryStatus::Completed, 2, ""));
    state.entries.push(entry("c", "z", EntryStatus::Pending, 3, ""));
    state.entries.push(entry("d", "w", EntryStatus::Pending, 4, ""));
    let gone = take_stale_given(&mut state, &vec![false, false, true, false]);
    let kept: Vec<&str> = state.entries.iter().map(|e| e.id.as_str()).collect();
    let removed: Vec<&str> = gone.iter().map(|e| e.id.as_str()).collect();
    assert_eq!(kept, vec!["b", "c"]);
    assert_eq!(removed, vec!["a", "d"]);
}

#[test]
fn entries_leave_and_start() {
    let m = QueueManager::new("main", "/tmp/q".to_string()).unwrap();
    let mut state = QueueState::new("main".to_string());
    state.entries.push(entry("a", "x", EntryStatus::Completed, 1, ""));
    state.entries.push(entry("b", "y", EntryStatus::Completed, 2, ""));
    let probes = probe_entries(&state);
    assert!(probes_match(&state, &probes));
    let (removed, depth) = m.enqueue_entry(&mut state, entry("c", "z", EntryStatus::Completed, 3, ""), &probes);
    assert_eq!(depth, None);
    assert!(removed.is_empty());
    assert_eq!(state.entries.len(), 3);
    assert!(state.first_entry_is("a"));
    let started = state.mark_running("b", "2026-08-16T09:30:00+00:00".to_string()).unwrap();
    assert_eq!(started.status, EntryStatus::Running);
    assert_eq!(state.entries[1].started_at.as_deref(), Some("2026-08-16T09:30:00+00:00"));
    assert!(state.mark_running("nope", String::new()).is_none());
    m.complete_entry(&mut state, "a", 0);
    let ids: Vec<&str> = state.entries.iter().map(|e| e.id.as_str()).collect();
    assert_eq!(ids, vec!["b", "c"]);
    assert!(state.first_entry_is("b"));
}

#[test]
fn deep_queue_warns() {
    let m = QueueManager::new("main", "/tmp/q".to_string()).unwrap();
    let mut state = QueueState::new("main".to_string());
    for i in 0..100 {
        state.entries.push(entry(&format!("e{}", i), "x", EntryStatus::Completed, 1, ""));
    }
    let probes = probe_entries(&state);
    let (_, depth) = m.enqueue_entry(&mut state, entry("new", "z", EntryStatus::Completed, 3, ""), &probes);
    assert_eq!(depth, Some(100));
    assert_eq!(high_depth_text(100), "queue: Warning: High queue depth (100 entries). Commands may take a long time to execute.");
    assert_eq!(state.entries.last().unwrap().id, "new");
}

#[test]
fn elapsed_seconds_round_toward_zero() {
    let t = "2026-08-16T09:30:00Z";
    let base = seconds_since_text(Some(0), "1970-01-01T00:00:00Z");
    assert_eq!(base, 0);
    assert_eq!(seconds_since_text(Some(10_500_000_000), "1970-01-01T00:00:00Z"), 10);
    assert_eq!(seconds_since_text(Some(-1_500_000_000), "1970-01-01T00:00:00Z"), -1);
    assert_eq!(seconds_since_text(None, t), 0);
    assert_eq!(seconds_since_text(Some(5), "not a time"), 0);
    // Times outside the years that an i64 of nanoseconds covers still count.
    assert_eq!(seconds_since_text(Some(0), "2300-01-01T00:00:00Z"), -10_413_792_000);
    assert_eq!(seconds_since_text(Some(0), "1600-01-01T00:00:00+00:00"), 11_676_096_000);
    assert_eq!(seconds_since_text(Some(1_500_000_000), "1970-01-01T00:00:00.250Z"), 1);
}

#[test]
fn status_report_lists_running_pending_and_waiters() {
    let mut state = QueueState::new("main".to_string());
    let mut run = entry("abc12345-1111-4111-8111-111111111111", "sleep 60", EntryStatus::Running, 12345, "1970-01-01T00:00:00Z");
    run.started_at = Some("2026-08-15T17:00:00Z".to_string());
    state.entries.push(run);
    state.entries.push(entry("def67890-2222", "make build", EntryStatus::Pending, 23456, "2026-08-15T17:01:15Z"));
    state.entries.push(entry("ghi11223", "cargo test", EntryStatus::Pending, 34567, "2026-08-15T17:01:45Z"));
    state.waiters.push(WaiterEntry {
        id: "aa-bb".to_string(),
        command_type: "lock".to_string(),
        command: "Deploy staging".to_string(),
        pid: 7,
        queued_at: "2026-08-15T17:02:00Z".to_string(),
    });
    // 2026-08-15T17:02:30Z
    let now = Some(1_786_813_350_000_000_000i64);
    let out = status_text(&state, now);
    let expected = "Queue: main\nStatus: active\n\n\
Running:\n  [abc12345] sleep 60  (started 2m 30s ago, PID 12345)\n\n\
Pending (2):\n  1. [def67890] make build  (waiting 1m 15s, PID 23456)\n  2. [ghi11223] cargo test  (waiting 0m 45s, PID 34567)\n\n\
Waiters (1):\n  1. [aa] Deploy staging (lock)  (waiting 0m 30s, PID 7)\n";
    assert_eq!(out, expected);
    let v = status_json(&state, now);
    assert_eq!(v.status, "active");
    assert_eq!(v.total_pending, 2);
    assert_eq!(v.pending[1].position, 2);
    assert_eq!(v.pending[1].waiting_seconds, 45);
    assert_eq!(v.running.unwrap().elapsed_seconds, 150);
    assert_eq!(v.waiters[0].command_type, "lock");
}

#[test]
fn status_report_of_a_stale_lock() {
    let m = QueueManager::new("ios", "/tmp/q".to_string()).unwrap();
    let lock = LockInfo::held_by("ios".to_string(), "E2E Tests".to_string(), "tok".to_string(), "t".to_string(), 9);
    let empty = QueueState::new("ios".to_string());
    let probes = probe_entries(&empty);
    let (state, removed) = m.status_snapshot(empty, &probes, LockRecord::Missing, None, vec![]);
    assert!(removed.is_empty());
    assert!(!state.locked);
    assert!(state.lock_token.is_none());
    let mut state = state;
    state.record_lock(&lock, true);
    let out = status_text(&state, Some(T0));
    assert_eq!(
        out,
        "Queue: ios\nStatus: locked\n\n🔒 Locked: E2E Tests\n   Token: tok\n   By:    PID 9\n   State: STALE (PID 9 is dead)\n\n"
    );
}

#[test]
fn snapshot_records_a_live_lock() {
    let m = QueueManager::new("ios", "/tmp/q".to_string()).unwrap();
    let me: u32 = 1;
    let lock = m.new_lock("E2E Tests", me);
    let rec = LockRecord::Present(lock.clone());
    let holder = probe_holder(&rec);
    assert_eq!(holder.unwrap().pid(), me);
    assert_eq!(lock_state_of(&rec, &holder), ExplicitLock::Live);
    let empty = QueueState::new("ios".to_string());
    let probes = probe_entries(&empty);
    let (state, _) = m.status_snapshot(empty, &probes, rec, holder, vec![]);
    assert!(state.locked);
    assert_eq!(state.lock_stale, Some(false));
    assert_eq!(state.lock_reason.as_deref(), Some("E2E Tests"));
    assert_eq!(state.locked_by, Some(format!("PID {}", me)));
    assert_eq!(state.lock_token, Some(lock.token.clone()));
    // Once released with its token, the lock file is gone and the status shows no lock.
    assert!(m.release_lock(&LockRecord::Present(lock.clone()), Some(lock.token.as_str()), false).is_ok());
    let (state, _) = m.status_snapshot(state, &vec![], LockRecord::Missing, None, vec![]);
    assert!(!state.locked);
    assert!(state.lock_token.is_none());
}

#[test]
fn unreadable_lock_file_is_a_stale_lock() {
    let m = QueueManager::new("ios", "/tmp/q".to_string()).unwrap();
    let rec = LockRecord::Unreadable;
    let holder = probe_holder(&rec);
    assert!(holder.is_none());
    assert_eq!(lock_state_of(&rec, &holder), ExplicitLock::Stale);
    assert!(matches!(m.release_lock(&rec, None, false), Err(QueueError::InvalidToken)));
    assert!(matches!(m.release_lock(&rec, Some("tok"), false), Err(QueueError::InvalidToken)));
    assert!(m.release_lock(&rec, None, true).is_ok());
    let empty = QueueState::new("ios".to_string());
    let (state, _) = m.status_snapshot(empty, &vec![], rec, None, vec![]);
    assert!(state.locked);
    assert_eq!(state.lock_stale, Some(true));
    assert!(state.lock_token.is_none());
    assert_eq!(lock_state_of(&LockRecord::Missing, &None), ExplicitLock::Absent);
}

#[test]
fn dead_processes_leave_the_queue() {
    // No process has this pid, so its active entries are stale; finished entries stay.
    let gone_pid: u32 = 4_000_000_000;
    let mut state = QueueState::new("main".to_string());
    state.entries.push(entry("a", "x", EntryStatus::Pending, gone_pid, ""));
    state.entries.push(entry("b", "y", EntryStatus::Completed, gone_pid, ""));
    state.entries.push(entry("c", "z", EntryStatus::Running, gone_pid, ""));
    let probes = probe_entries(&state);
    assert_eq!(probes.len(), 3);
    assert_eq!(probes[0].unwrap().pid(), gone_pid);
    assert!(probes[1].is_none());
    assert!(probes_match(&state, &probes));
    assert!(!probes_match(&state, &vec![None, None, None]));
    let removed = cleanup_stale_entries(&mut state, &probes);
    assert_eq!(removed, 2);
    assert_eq!(state.entries.len(), 1);
    assert_eq!(state.entries[0].id, "b");
}

#[test]
fn lock_holder_is_the_caller() {
    assert_eq!(lock_holder_pid(4242), 4242);
    assert_eq!(lock_holder_pid(1), 1);
}

#[test]
fn messages() {
    assert_eq!(
        lock_waiting_text("ios", Some("Integration tests"), Some("PID 12345")),
        "⏳ Queue \"ios\" is currently locked.\n   Reason: Integration tests\n   Locked by: PID 12345\n   Waiting for lock to be released..."
    );
    assert_eq!(
        lock_waiting_text("ios", None, None),
        "⏳ Queue \"ios\" is currently locked.\n   Waiting for lock to be released..."
    );
    assert_eq!(
        queue_busy_waiting_text("ios"),
        "⏳ Queue \"ios\" is currently active. Waiting for it to become available..."
    );
    assert_eq!(lock_timeout_text("ios", 30), "⏱️  Timeout: could not acquire lock on queue \"ios\" within 30 seconds.");
    assert_eq!(release_success_text("ios", true, false), "{\"status\":\"released\",\"queue\":\"ios\"}");
    assert_eq!(release_success_text("ios", false, false), "🔓 Queue \"ios\" released successfully.");
    assert_eq!(release_success_text("ios", false, true), "🔓 Queue \"ios\" force-released.");
    assert_eq!(decide_wait_notice(false, false, false, ExplicitLock::Stale), Some(WaitNotice::Locked));
    assert_eq!(stale_entry_text(&entry("e1", "x", EntryStatus::Pending, 99, "")), "Warning: Removing stale entry e1 (PID 99 is dead)");
    assert_eq!(join_with_spaces(&vec!["E2E".to_string(), "Tests".to_string()]), "E2E Tests");
    assert_eq!(join_with_spaces(&vec![]), "");
    assert_eq!(decide_wait_notice(false, false, false, ExplicitLock::Absent), Some(WaitNotice::Busy));
    assert_eq!(decide_wait_notice(false, false, true, ExplicitLock::Live), None);
    assert_eq!(decide_wait_notice(false, true, false, ExplicitLock::Live), None);
}

#[test]
fn error_messages_and_codes() {
    assert_eq!(QueueError::Timeout.message(), "Timeout waiting for lock");
    assert_eq!(QueueError::LockError("busy".to_string()).message(), "Lock acquisition failed: busy");
    assert_eq!(QueueError::InvalidToken.message(), "Invalid token provided for lock release");
    assert_eq!(QueueError::QueueNotLocked.message(), "Queue is not currently locked");
    assert_eq!(QueueError::Cancelled.message(), "Cancelled by user signal");
    assert_eq!(QueueError::Io("x".to_string()).wait_exit_code(), 125);
    assert_eq!(queue::runner::exit_code_from_status(None, Some(9)), 137);
    assert_eq!(queue::runner::exit_code_from_status(None, None), 125);
    assert_eq!(exit_code_from_spawn_failure(SpawnFailure::NotFound), 127);
    assert_eq!(exit_code_from_spawn_failure(SpawnFailure::NotExecutable), 126);
    assert_eq!(exit_code_from_spawn_failure(SpawnFailure::Other), 125);
}

#[test]
fn new_entries_and_waiters() {
    let e = QueueEntry::new("echo hi".to_string(), 10, 20);
    assert_eq!(e.id.len(), 36);
    assert_eq!(e.status, EntryStatus::Pending);
    assert_ne!(QueueEntry::new("a".to_string(), 1, 1).id, e.id);
    let w = WaiterEntry::for_run(&e);
    assert_eq!(w.id, e.id);
    assert_eq!(w.command_type, "run");
    let l = WaiterEntry::for_lock("E2E", 5);
    assert_eq!(l.command_type, "lock");
    assert_eq!(l.command, "E2E");
    assert!(seconds_since_text(Some(i64::MAX), &e.enqueued_at) > 0);
}

#[test]
fn wait_steps() {
    assert!(matches!(decide_wait_step(false, None, 0, true), WaitStep::GiveUp(QueueError::Cancelled)));
    assert!(matches!(decide_wait_step(true, Some(3), 3, true), WaitStep::GiveUp(QueueError::Timeout)));
    assert!(matches!(decide_wait_step(true, Some(3), 2, true), WaitStep::TryStart));
    assert!(matches!(decide_wait_step(true, None, 1000, false), WaitStep::Sleep));
}

#[test]
fn stored_part_keeps_only_entries() {
    let mut state = QueueState::new("main".to_string());
    state.version = 2;
    state.entries.push(entry("a", "x", EntryStatus::Pending, 1, ""));
    let lock = LockInfo::held_by("main".to_string(), "r".to_string(), "tok".to_string(), "t".to_string(), 9);
    state.record_lock(&lock, false);
    let stored = state.stored_part();
    assert_eq!(stored.version, 2);
    assert_eq!(stored.entries.len(), 1);
    assert_eq!(stored.entries[0].id, "a");
    assert!(!stored.locked);
    assert!(stored.lock_token.is_none());
}

#[test]
fn clock_texts_are_utc_rfc3339() {
    let t = now_text();
    assert!(t.ends_with("+00:00"));
    assert!(t.len() == 25 || t.len() == 29 || t.len() == 32 || t.len() == 35);
    assert_eq!(&t[10..11], "T");
    let m = QueueManager::new("main", "/tmp/q".to_string()).unwrap();
    assert!(m.new_lock("r", 1).locked_at.ends_with("+00:00"));
    assert!(QueueEntry::new("x".to_string(), 1, 1).enqueued_at.ends_with("+00:00"));
    assert!(WaiterEntry::for_lock("r", 1).queued_at.ends_with("+00:00"));
}

#[test]
fn one_queue_line_does_not_hold_another() {
    // Queue "a" has an older waiter in its own line; queue "b" keeps its own line.
    let a = QueueManager::new("a", "/tmp/q".to_string()).unwrap();
    let b = QueueManager::new("b", "/tmp/q".to_string()).unwrap();
    assert_ne!(a.waiters_dir_path(), b.waiters_dir_path());
    let older_on_a = ticket_file_name(1_000, "x");
    let mine_on_b = ticket_file_name(2_000, "y");
    assert!(!queue::state::is_my_turn(&vec![older_on_a.clone(), mine_on_b.clone()], &mine_on_b));
    let line_b = vec![mine_on_b.clone()];
    assert!(queue::state::is_my_turn(&line_b, &mine_on_b));
    assert_eq!(decide_run_start(true, true, true, ExplicitLock::Absent), StartDecision::Start);
}

#[test]
fn queue_names_with_odd_characters_are_refused() {
    assert!(QueueManager::new("a?b", "/tmp/q".to_string()).is_err());
    let m = QueueManager::new("main", "\\\\server\\share".to_string()).unwrap();
    assert!(m.state_file_path().ends_with("main.state.json"));
}
