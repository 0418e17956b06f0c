//! A queue and its decisions: what a queue may be called, where its files lie, how
//! an entry joins, when a waiting command may start or a lock be taken, when a
//! wait ends early, and what a release is answered. The waiting loops themselves,
//! with their file locks, reads, writes and sleeps, run in the command-line
//! program, which asks these functions at each step.
use vstd::prelude::*;
use crate::cleanup::{ProcessObservation, ProcessProbe, alive_from, alive_given, reported_start_time, start_times_match, kept_entries, observe_process, probes_fit, stale_entries, take_stale_entries};
use crate::error::QueueError;
use crate::ids::{fresh_uuid_text, is_drawn_uuid};
use crate::lock::{LockInfo, LockRecord, PresenceProbe, holder_fits, holder_text, record_is_stale, record_stale, release_decision, release_outcome, reports_lock_record};
use crate::paths::{QueueFile, lemma_plain_file, path_shaped, plain_queue_name, queue_path};
use crate::platform::{
    char_alphanumeric, is_alphanumeric, is_ascii_alphanumeric, is_path_boundary, is_uuid_v4_text, join_path, joined_path, joins_as,
    plain_dir, utc_now, clock_text,
};
use crate::state::{QueueEntry, QueueState, WaiterEntry, first_in_line, same_but_entries};
use crate::text::push_str;

verus! {

/// A queue name is not empty and is made of alphanumeric characters, `-` and `_`.
pub open spec fn valid_queue_name(name: Seq<char>) -> bool {
    &&& name.len() > 0
    &&& forall|i: int| 0 <= i < name.len() ==> {
        let c = #[trigger] name[i];
        char_alphanumeric(c) || c == '-' || c == '_'
    }
}

/// A queue name written in ASCII: not empty, and made of ASCII letters and
/// digits, `-` and `_`. Every such name is valid.
pub open spec fn ascii_queue_name(name: Seq<char>) -> bool {
    &&& name.len() > 0
    &&& forall|i: int| 0 <= i < name.len() ==> {
        let c = #[trigger] name[i];
        is_ascii_alphanumeric(c) || c == '-' || c == '_'
    }
}

/// A named queue whose files lie in a state directory.
#[derive(Debug)]
pub struct QueueManager {
    queue_name: String,
    state_dir: String,
}

/// Why a wait ends early, if it does: an interruption comes first, then an
/// expired timeout (`waited_secs` at least `timeout_secs`).
pub open spec fn wait_limit(running: bool, timeout_secs: Option<u64>, waited_secs: u64) -> Option<QueueError> {
    if !running {
        Some(QueueError::Cancelled)
    } else if timeout_secs matches Some(t) && waited_secs >= t {
        Some(QueueError::Timeout)
    } else {
        None
    }
}

/// The explicit lock file of a queue, as read, with its holder's liveness.
#[derive(Debug, Clone, Copy, PartialEq, Eq, Structural)]
pub enum ExplicitLock {
    /// No lock file.
    Absent,
    /// A lock whose holder is gone, or a lock file that does not read. It still
    /// holds the queue: only a forced release clears it.
    Stale,
    /// A lock whose holder lives.
    Live,
}

/// What the lock file `rec` amounts to, given the probe of its holder.
pub open spec fn lock_state(rec: LockRecord, holder: Option<PresenceProbe>) -> ExplicitLock {
    match rec {
        LockRecord::Missing => ExplicitLock::Absent,
        _ => if record_stale(rec, holder) {
            ExplicitLock::Stale
        } else {
            ExplicitLock::Live
        },
    }
}

/// What a waiting command does at a step.
#[derive(Debug, Clone, Copy, PartialEq, Eq, Structural)]
pub enum StartDecision {
    /// Go ahead.
    Start,
    /// Keep waiting.
    Wait,
}

/// A queued command starts when its entry heads the queue, its ticket heads the
/// line, it holds the execution lock, and no explicit lock stands, live or stale.
pub open spec fn run_start(first_in_queue: bool, my_turn: bool, exec_acquired: bool, lock: ExplicitLock) -> StartDecision {
    if first_in_queue && my_turn && exec_acquired && lock == ExplicitLock::Absent {
        StartDecision::Start
    } else {
        StartDecision::Wait
    }
}

/// A lock request takes the lock when its ticket heads the line, it holds the
/// execution lock (no command runs), and no explicit lock stands, live or stale.
pub open spec fn lock_start(my_turn: bool, exec_acquired: bool, lock: ExplicitLock) -> StartDecision {
    if my_turn && exec_acquired && lock == ExplicitLock::Absent {
        StartDecision::Start
    } else {
        StartDecision::Wait
    }
}

/// The one notice that a waiting lock request shows.
#[derive(Debug, Clone, Copy, PartialEq, Eq, Structural)]
pub enum WaitNotice {
    /// The queue is locked by someone else.
    Locked,
    /// The queue is busy running commands.
    Busy,
}

/// A waiting lock request tells, once, why it waits, unless its output is raw or JSON.
pub open spec fn wait_notice(raw: bool, json: bool, already_shown: bool, lock: ExplicitLock) -> Option<WaitNotice> {
    if !raw && !json && !already_shown {
        Some(if lock != ExplicitLock::Absent { WaitNotice::Locked } else { WaitNotice::Busy })
    } else {
        None
    }
}

/// Whether the name is a valid queue name.
pub fn is_valid_queue_name(name: &str) -> (r: bool)
    ensures
        r == valid_queue_name(name@),
        r ==> plain_queue_name(name@),
        ascii_queue_name(name@) ==> r,
{
    let n = name.unicode_len();
    if n == 0 {
        return false;
    }
    let mut i: usize = 0;
    while i < n
        invariant
            n == name@.len(),
            i <= n,
            forall|j: int| 0 <= j < i ==> {
                let c = #[trigger] name@[j];
                char_alphanumeric(c) || c == '-' || c == '_'
            },
            forall|j: int| 0 <= j < i ==> !is_path_boundary(#[trigger] name@[j]) && name@[j] != '.' && name@[j] != '?',
        decreases n - i,
    {
        let c = name.get_char(i);
        let alnum = is_alphanumeric(c);
        if !(alnum || c == '-' || c == '_') {
            assert(name@[i as int] == c);
            assert(!(is_ascii_alphanumeric(name@[i as int]) || name@[i as int] == '-' || name@[i as int] == '_'));
            return false;
        }
        i = i + 1;
    }
    true
}

/// The UTC clock's reading as RFC 3339 text: it ends with `+00:00` and, when the
/// reading lies in the nanosecond range, reads back as that instant (see
/// `clock_text`).
pub fn now_text() -> (r: String)
    ensures
        clock_text(r@),
{
    utc_now().text
}

impl QueueManager {
    /// The queue's name.
    pub closed spec fn name(&self) -> Seq<char> {
        self.queue_name@
    }

    /// The directory that holds the queue's files.
    pub closed spec fn dir(&self) -> Seq<char> {
        self.state_dir@
    }

    /// A queue's name is one plain path component without a dot.
    #[verifier::type_invariant]
    closed spec fn name_is_plain(self) -> bool {
        plain_queue_name(self.queue_name@)
    }

    /// The queue `queue_name` with its files in `state_dir`; refused with a state
    /// error when the name is empty or holds anything but alphanumeric
    /// characters, `-` and `_`.
    pub fn new(queue_name: &str, state_dir: String) -> (r: Result<Self, QueueError>)
        ensures
            valid_queue_name(queue_name@) <==> r is Ok,
            ascii_queue_name(queue_name@) ==> r is Ok,
            r matches Ok(m) ==> m.name() == queue_name@ && m.dir() == state_dir@ && plain_queue_name(m.name()),
            r matches Err(e) ==> e matches QueueError::State(msg) && msg@ == "Invalid queue name: must be alphanumeric"@,
    {
        if !is_valid_queue_name(queue_name) {
            return Err(QueueError::State(String::from_str("Invalid queue name: must be alphanumeric")));
        }
        Ok(QueueManager { queue_name: String::from_str(queue_name), state_dir })
    }

    /// The queue's name.
    pub fn queue_name(&self) -> (r: &str)
        ensures
            r@ == self.name(),
    {
        self.queue_name.as_str()
    }

    /// The directory that holds the queue's files.
    pub fn state_dir(&self) -> (r: &str)
        ensures
            r@ == self.dir(),
    {
        self.state_dir.as_str()
    }

    /// The path of a file that lies directly in the state directory: the queue
    /// name followed by `suffix`.
    fn queue_file_path(&self, suffix: &str) -> (r: String)
        requires
            forall|i: int| 0 <= i < suffix@.len() ==> !is_path_boundary(#[trigger] suffix@[i]),
        ensures
            r@ == joined_path(self.dir(), self.name() + suffix@),
            plain_dir(self.dir()) ==> joins_as(r@, self.dir(), self.name() + suffix@),
    {
        proof {
            use_type_invariant(self);
            lemma_plain_file(self.name(), suffix@);
        }
        let mut file = self.queue_name.clone();
        push_str(&mut file, suffix);
        join_path(self.state_dir.as_str(), file.as_str())
    }

    /// The file that stores the queue's entries: `<name>.state.json` in the state directory.
    pub fn state_file_path(&self) -> (r: String)
        ensures
            r@ == queue_path(self.dir(), self.name(), QueueFile::State),
            plain_dir(self.dir()) ==> path_shaped(self.dir(), self.name(), QueueFile::State),
    {
        proof { reveal_strlit(".state.json"); }
        self.queue_file_path(".state.json")
    }

    /// The file locked while the entries are read or written: `<name>.state.lock`.
    pub fn state_lock_path(&self) -> (r: String)
        ensures
            r@ == queue_path(self.dir(), self.name(), QueueFile::StateLock),
            plain_dir(self.dir()) ==> path_shaped(self.dir(), self.name(), QueueFile::StateLock),
    {
        proof { reveal_strlit(".state.lock"); }
        self.queue_file_path(".state.lock")
    }

    /// The file locked while a command runs: `<name>.lock`.
    pub fn exec_lock_path(&self) -> (r: String)
        ensures
            r@ == queue_path(self.dir(), self.name(), QueueFile::ExecLock),
            plain_dir(self.dir()) ==> path_shaped(self.dir(), self.name(), QueueFile::ExecLock),
    {
        proof { reveal_strlit(".lock"); }
        self.queue_file_path(".lock")
    }

    /// The file that holds the explicit lock: `<name>.lock.json`.
    pub fn lock_info_path(&self) -> (r: String)
        ensures
            r@ == queue_path(self.dir(), self.name(), QueueFile::LockInfo),
            plain_dir(self.dir()) ==> path_shaped(self.dir(), self.name(), QueueFile::LockInfo),
    {
        proof { reveal_strlit(".lock.json"); }
        self.queue_file_path(".lock.json")
    }

    /// The directory of the queue's waiters' tickets: `<name>/waiters` in the state
    /// directory, so that each queue has a line of its own.
    pub fn waiters_dir_path(&self) -> (r: String)
        ensures
            r@ == queue_path(self.dir(), self.name(), QueueFile::Waiters),
            plain_dir(self.dir()) ==> path_shaped(self.dir(), self.name(), QueueFile::Waiters),
    {
        proof {
            use_type_invariant(self);
            lemma_plain_file(self.name(), Seq::empty());
            assert(self.name() + Seq::<char>::empty() =~= self.name());
            reveal_strlit("waiters");
            assert(crate::platform::is_plain_name("waiters"@));
        }
        let queue_dir = join_path(self.state_dir.as_str(), self.queue_name.as_str());
        proof {
            if plain_dir(self.dir()) {
                let q = queue_dir@;
                let d = self.dir();
                let n = self.name();
                if q == d + n {
                    if d.len() >= 3 {
                        assert(q[0] == d[0] && q[1] == d[1] && q[2] == d[2]);
                    } else if d.len() == 2 {
                        assert(q[2] == n[0]);
                    } else if d.len() == 1 {
                        assert(q[1] == n[0]);
                    } else {
                        assert(q[0] == n[0]);
                    }
                } else {
                    let c = q[d.len() as int];
                    assert(q == d + seq![c] + n);
                    if d.len() >= 3 {
                        assert(q[0] == d[0] && q[1] == d[1] && q[2] == d[2]);
                    } else if d.len() == 2 {
                        assert(q[2] == c);
                    } else {
                        assert(q[1] == c);
                        assert(q[2] == n[0]);
                    }
                }
            }
        }
        join_path(queue_dir.as_str(), "waiters")
    }

    /// The start time, in seconds from the epoch, of the process `pid` as the
    /// process table reports it now, or 0 when the table does not show it: what a
    /// probe of `pid` reported (see `reported_start_time`).
    pub fn get_process_start_time(pid: u32) -> (r: u64)
        ensures
            exists|p: ProcessProbe| #[trigger] p.asked() == pid && r == reported_start_time(p.answer()),
    {
        match observe_process(pid).seen() {
            ProcessObservation::StartedAt(t) => t,
            _ => 0,
        }
    }

    /// Adds `entry` at the end of the queue after removing the stale entries (the
    /// active entries whose process is dead, as `probes` of their pids say), and
    /// gives back the entries removed and, when the queue still held so many
    /// entries (100 or more) that a long wait is likely, how many it held.
    pub fn enqueue_entry(&self, state: &mut QueueState, entry: QueueEntry, probes: &Vec<Option<ProcessProbe>>) -> (r: (Vec<QueueEntry>, Option<usize>))
        requires
            probes_fit(old(state).entries@, probes@),
        ensures
            ({
                let alive = alive_from(old(state).entries@, probes@);
                let kept = kept_entries(old(state).entries@, alive);
                &&& r.0@ == stale_entries(old(state).entries@, alive)
                &&& final(state).entries@ == kept.push(entry)
                &&& r.1 == (if kept.len() >= 100 { Some(kept.len() as usize) } else { None })
            }),
            same_but_entries(*final(state), *old(state)),
    {
        let removed = take_stale_entries(state, probes);
        let depth = state.entries.len();
        let high = if state.depth_is_high() { Some(depth) } else { None };
        state.enqueue(entry);
        (removed, high)
    }

    /// Removes the finished entry `entry_id` from the queue. (The entry leaves the
    /// queue whatever its exit code, so its final status is not kept.)
    pub fn complete_entry(&self, state: &mut QueueState, entry_id: &str, exit_code: i32)
        ensures
            final(state).entries@ == crate::state::entries_without(old(state).entries@, entry_id@),
            same_but_entries(*final(state), *old(state)),
    {
        let _ = exit_code;
        state.remove_entry(entry_id);
    }

    /// A status snapshot of the loaded state: the stale entries removed (as the
    /// `probes` of their pids say, and given back, so that the caller stores the
    /// cleaned state), the explicit lock file `lock` reported with its holder's
    /// liveness (as the probe `holder` says), and this queue's `waiters` attached.
    pub fn status_snapshot(
        &self,
        state: QueueState,
        probes: &Vec<Option<ProcessProbe>>,
        lock: LockRecord,
        holder: Option<PresenceProbe>,
        waiters: Vec<WaiterEntry>,
    ) -> (r: (QueueState, Vec<QueueEntry>))
        requires
            probes_fit(state.entries@, probes@),
            holder_fits(lock, holder),
        ensures
            r.0.entries@ == kept_entries(state.entries@, alive_from(state.entries@, probes@)),
            r.1@ == stale_entries(state.entries@, alive_from(state.entries@, probes@)),
            r.0.queue_name == state.queue_name,
            r.0.version == state.version,
            r.0.waiters == waiters,
            reports_lock_record(r.0, lock, holder),
    {
        let mut state = state;
        let removed = take_stale_entries(&mut state, probes);
        let stale = record_is_stale(&lock, &holder);
        match &lock {
            LockRecord::Present(l) => state.record_lock(l, stale),
            LockRecord::Unreadable => state.record_unreadable_lock(),
            LockRecord::Missing => state.record_no_lock(),
        }
        state.waiters = waiters;
        (state, removed)
    }

    /// What a release with `token` (or forced) is answered, given the queue's
    /// lock file `current`: granted when there is a lock file and the release is
    /// forced or carries the lock's token (a file that does not read has no token,
    /// so only force releases it); refused as not locked or as an invalid token
    /// otherwise. On `Ok` the caller removes the lock file.
    pub fn release_lock(&self, current: &LockRecord, token: Option<&str>, force: bool) -> (r: Result<(), QueueError>)
        ensures
            r == release_outcome(*current, match token { Some(t) => Some(t@), None => None }, force),
            r is Ok <==> match *current {
                LockRecord::Missing => false,
                LockRecord::Unreadable => force,
                LockRecord::Present(l) => force || (token matches Some(t) && t@ == l.token@),
            },
    {
        release_decision(current, token, force)
    }

    /// The explicit lock this queue gets for `reason`, held by process
    /// `holder_pid`: a fresh random token, the current time.
    pub fn new_lock(&self, reason: &str, holder_pid: u32) -> (r: LockInfo)
        ensures
            r.queue_name@ == self.name(),
            r.reason@ == reason@,
            r.pid == holder_pid,
            is_uuid_v4_text(r.token@),
            is_drawn_uuid(r.token@),
            r.locked_by matches Some(b) && b@ == holder_text(holder_pid),
            clock_text(r.locked_at@),
    {
        let token = fresh_uuid_text();
        let now = utc_now();
        LockInfo::held_by(self.queue_name.clone(), String::from_str(reason), token, now.text, holder_pid)
    }
}

impl QueueEntry {
    /// A new pending entry for `command`, enqueued by process `pid` (started at
    /// `process_start_time`): a fresh random id, the current time.
    pub fn new(command: String, pid: u32, process_start_time: u64) -> (r: Self)
        ensures
            is_uuid_v4_text(r.id@),
            is_drawn_uuid(r.id@),
            r.command == command,
            r.status == crate::state::EntryStatus::Pending,
            r.pid == pid,
            r.process_start_time == process_start_time,
            clock_text(r.enqueued_at@),
            r.started_at.is_none(),
            r.completed_at.is_none(),
            r.exit_code.is_none(),
    {
        let id = fresh_uuid_text();
        let now = utc_now();
        QueueEntry::pending(id, command, pid, process_start_time, now.text)
    }
}

impl WaiterEntry {
    /// The waiter that stands in line for the queued `entry`: same id, command and pid.
    pub fn for_run(entry: &QueueEntry) -> (r: Self)
        ensures
            r.id == entry.id,
            r.command_type@ == "run"@,
            r.command == entry.command,
            r.pid == entry.pid,
            clock_text(r.queued_at@),
    {
        WaiterEntry {
            id: entry.id.clone(),
            command_type: String::from_str("run"),
            command: entry.command.clone(),
            pid: entry.pid,
            queued_at: now_text(),
        }
    }

    /// The waiter that stands in line to lock the queue for `reason`, from process
    /// `pid`: a fresh random id.
    pub fn for_lock(reason: &str, pid: u32) -> (r: Self)
        ensures
            is_uuid_v4_text(r.id@),
            is_drawn_uuid(r.id@),
            r.command_type@ == "lock"@,
            r.command@ == reason@,
            r.pid == pid,
            clock_text(r.queued_at@),
    {
        WaiterEntry {
            id: fresh_uuid_text(),
            command_type: String::from_str("lock"),
            command: String::from_str(reason),
            pid,
            queued_at: now_text(),
        }
    }
}

/// The process named as a lock's holder: the process that takes the lock,
/// `own_pid` (its holder is then recorded as `PID <own_pid>`).
pub fn lock_holder_pid(own_pid: u32) -> (r: u32)
    ensures
        r == own_pid,
{
    own_pid
}

/// Why the wait ends now, if it does: `Cancelled` once the user interrupted,
/// else `Timeout` once the timeout has passed.
pub fn check_wait_limits(running: bool, timeout_secs: Option<u64>, waited_secs: u64) -> (r: Option<QueueError>)
    ensures
        r == wait_limit(running, timeout_secs, waited_secs),
{
    if !running {
        return Some(QueueError::Cancelled);
    }
    match timeout_secs {
        Some(t) => if waited_secs >= t {
            Some(QueueError::Timeout)
        } else {
            None
        },
        None => None,
    }
}

/// The explicit lock as read: none, or one whose holder is stale or live.
pub fn explicit_lock_state(present: bool, stale: bool) -> (r: ExplicitLock)
    ensures
        r == (if !present { ExplicitLock::Absent } else if stale { ExplicitLock::Stale } else { ExplicitLock::Live }),
{
    if !present {
        ExplicitLock::Absent
    } else if stale {
        ExplicitLock::Stale
    } else {
        ExplicitLock::Live
    }
}

/// What the lock file `rec` amounts to, given the probe `holder` of its holder:
/// no file, a stale lock (an unreadable file, or a holder known to be gone), or
/// a live one.
pub fn lock_state_of(rec: &LockRecord, holder: &Option<PresenceProbe>) -> (r: ExplicitLock)
    ensures
        r == lock_state(*rec, *holder),
{
    match rec {
        LockRecord::Missing => ExplicitLock::Absent,
        _ => {
            let stale = record_is_stale(rec, holder);
            explicit_lock_state(true, stale)
        },
    }
}

/// What a waiting command or lock request does at a step, before it tries to
/// start.
#[derive(Debug)]
pub enum WaitStep {
    /// Leave the line (a queued command also drops its entry) and end with this error.
    GiveUp(QueueError),
    /// Try the execution lock, then read the lock file, and ask whether to start.
    TryStart,
    /// Sleep and look again.
    Sleep,
}

/// A wait ends at its limit; otherwise a waiter tries to start only when it is
/// ready (a queued command: its entry heads the queue and its ticket the line; a
/// lock request: its ticket heads the line), and sleeps else.
pub open spec fn wait_step(limit: Option<QueueError>, ready: bool) -> WaitStep {
    match limit {
        Some(e) => WaitStep::GiveUp(e),
        None => if ready {
            WaitStep::TryStart
        } else {
            WaitStep::Sleep
        },
    }
}

/// What a waiter does now: give up at the limit of its wait (see `wait_limit`),
/// else try to start when it is ready, else sleep.
pub fn decide_wait_step(running: bool, timeout_secs: Option<u64>, waited_secs: u64, ready: bool) -> (r: WaitStep)
    ensures
        r == wait_step(wait_limit(running, timeout_secs, waited_secs), ready),
{
    match check_wait_limits(running, timeout_secs, waited_secs) {
        Some(e) => WaitStep::GiveUp(e),
        None => if ready {
            WaitStep::TryStart
        } else {
            WaitStep::Sleep
        },
    }
}

/// Whether a queued command starts now.
pub fn decide_run_start(first_in_queue: bool, my_turn: bool, exec_acquired: bool, lock: ExplicitLock) -> (r: StartDecision)
    ensures
        r == run_start(first_in_queue, my_turn, exec_acquired, lock),
{
    if first_in_queue && my_turn && exec_acquired {
        match lock {
            ExplicitLock::Absent => StartDecision::Start,
            _ => StartDecision::Wait,
        }
    } else {
        StartDecision::Wait
    }
}

/// Whether a lock request takes the lock now.
pub fn decide_lock_start(my_turn: bool, exec_acquired: bool, lock: ExplicitLock) -> (r: StartDecision)
    ensures
        r == lock_start(my_turn, exec_acquired, lock),
{
    if my_turn && exec_acquired {
        match lock {
            ExplicitLock::Absent => StartDecision::Start,
            _ => StartDecision::Wait,
        }
    } else {
        StartDecision::Wait
    }
}

/// The notice a waiting lock request shows now, if any.
pub fn decide_wait_notice(raw: bool, json: bool, already_shown: bool, lock: ExplicitLock) -> (r: Option<WaitNotice>)
    ensures
        r == wait_notice(raw, json, already_shown, lock),
{
    if !raw && !json && !already_shown {
        match lock {
            ExplicitLock::Absent => Some(WaitNotice::Busy),
            _ => Some(WaitNotice::Locked),
        }
    } else {
        None
    }
}

/// An explicit lock holds every start, also when its holder is gone: while a
/// lock file stands, no queued command runs and no other lock is taken, whoever's
/// turn it is. Only a release removes it.
pub proof fn law_lock_blocks_starts(first_in_queue: bool, my_turn: bool, exec_acquired: bool, lock: ExplicitLock)
    requires
        lock != ExplicitLock::Absent,
    ensures
        run_start(first_in_queue, my_turn, exec_acquired, lock) == StartDecision::Wait,
        lock_start(my_turn, exec_acquired, lock) == StartDecision::Wait,
{
}

/// A lock file that does not read, or whose holder is gone, still locks the
/// queue; a lock file that reads and whose holder's probe finds it (or cannot
/// tell) is live.
pub proof fn law_stale_lock_still_locks(rec: LockRecord, holder: Option<PresenceProbe>)
    requires
        holder_fits(rec, holder),
    ensures
        (lock_state(rec, holder) == ExplicitLock::Absent) <==> rec is Missing,
        rec is Unreadable ==> lock_state(rec, holder) == ExplicitLock::Stale,
{
}

/// Nothing starts out of turn or beside a running command: a command starts only
/// at the head of the queue and of the line, holding the execution lock, with no
/// lock file; a lock is taken only at the head of the line, holding the execution
/// lock, with no lock file.
pub proof fn law_start_needs_turn(first_in_queue: bool, my_turn: bool, exec_acquired: bool, lock: ExplicitLock)
    ensures
        run_start(first_in_queue, my_turn, exec_acquired, lock) == StartDecision::Start <==> first_in_queue && my_turn
            && exec_acquired && lock == ExplicitLock::Absent,
        lock_start(my_turn, exec_acquired, lock) == StartDecision::Start <==> my_turn && exec_acquired && lock
            == ExplicitLock::Absent,
{
}

/// An interruption ends a wait whatever the timeout; without a timeout a wait
/// only ends by interruption; with one, it ends once the time waited reaches it.
pub proof fn law_wait_limits(timeout_secs: Option<u64>, waited_secs: u64, t: u64)
    ensures
        wait_limit(false, timeout_secs, waited_secs) == Some(QueueError::Cancelled),
        wait_limit(true, None, waited_secs) == None::<QueueError>,
        wait_limit(true, Some(t), waited_secs) == (if waited_secs >= t { Some(QueueError::Timeout) } else { None }),
{
}

/// A lock shows in the status until it is released: the status taken while the
/// lock `l` stands reports the queue locked, with the lock's token and reason; a
/// release with that token is granted; and once its file is gone, the status
/// reports the queue unlocked, with no token.
pub proof fn law_status_follows_lock_and_release(
    l: LockInfo,
    holder: Option<PresenceProbe>,
    while_locked: QueueState,
    after_release: QueueState,
)
    requires
        reports_lock_record(while_locked, LockRecord::Present(l), holder),
        reports_lock_record(after_release, LockRecord::Missing, None),
    ensures
        while_locked.locked,
        while_locked.lock_token == Some(l.token),
        while_locked.lock_reason == Some(l.reason),
        release_outcome(LockRecord::Present(l), Some(l.token@), false) is Ok,
        !after_release.locked,
        after_release.lock_token is None,
{
}

/// Waiters of one queue never delay another. Two queues of one state directory
/// share no file: not their waiters' directories (so a ticket of queue `a` never
/// stands in queue `b`'s line), nor their entries, execution locks or lock files.
/// And a waiter of `b` whose ticket `mine` is alone in `b`'s line, that heads
/// `b`'s queue, holds `b`'s execution lock and finds no lock file of `b` starts,
/// whatever `a`'s line, lock or running command is.
pub proof fn law_queues_do_not_delay_each_other(
    d: Seq<char>,
    a: Seq<char>,
    ka: QueueFile,
    b: Seq<char>,
    kb: QueueFile,
    mine: Seq<char>,
)
    requires
        plain_dir(d),
        plain_queue_name(a),
        plain_queue_name(b),
        a != b,
        path_shaped(d, a, ka),
        path_shaped(d, b, kb),
    ensures
        queue_path(d, a, ka) != queue_path(d, b, kb),
        first_in_line(seq![mine], mine),
        run_start(true, first_in_line(seq![mine], mine), true, ExplicitLock::Absent) == StartDecision::Start,
        lock_start(first_in_line(seq![mine], mine), true, ExplicitLock::Absent) == StartDecision::Start,
{
    crate::paths::law_queue_files_are_isolated(d, a, ka, b, kb);
    crate::text::lemma_lex_lt_asymmetric(mine, mine);
    assert(seq![mine][0] == mine);
}

/// A wait ends at its limit whether or not the waiter is ready to start: an
/// interruption gives up with `Cancelled` at once, a timeout that has run out
/// gives up with `Timeout`, and without either the waiter tries to start exactly
/// when it is ready and otherwise sleeps; it never gives up before its limit.
pub proof fn law_wait_gives_up_at_its_limit(timeout_secs: Option<u64>, waited_secs: u64, ready: bool, t: u64)
    ensures
        wait_step(wait_limit(false, timeout_secs, waited_secs), ready) == WaitStep::GiveUp(QueueError::Cancelled),
        waited_secs >= t ==> wait_step(wait_limit(true, Some(t), waited_secs), ready) == WaitStep::GiveUp(
            QueueError::Timeout,
        ),
        waited_secs < t ==> wait_step(wait_limit(true, Some(t), waited_secs), ready) == (if ready {
            WaitStep::TryStart
        } else {
            WaitStep::Sleep
        }),
        wait_step(wait_limit(true, None, waited_secs), ready) == (if ready {
            WaitStep::TryStart
        } else {
            WaitStep::Sleep
        }),
{
}

/// The start time recorded for a process is the one the process table reported
/// for it, so a later report of the same process (started at that time, give or
/// take the allowed drift) counts it as alive: a command's own entry is not
/// taken for stale. A process the table did not show is recorded as started at 0.
pub proof fn law_recorded_start_time_keeps_process_alive(t: u64, later: u64)
    requires
        later <= t + 5 && t <= later + 5,
    ensures
        reported_start_time(ProcessObservation::StartedAt(t)) == t,
        alive_given(ProcessObservation::StartedAt(later), reported_start_time(ProcessObservation::StartedAt(t))),
        alive_given(ProcessObservation::StartedAt(t), reported_start_time(ProcessObservation::StartedAt(t))),
        reported_start_time(ProcessObservation::Absent) == 0,
        reported_start_time(ProcessObservation::Unknown) == 0,
{
}

} // verus!
