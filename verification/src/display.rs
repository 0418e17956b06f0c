//! What `status` reports, as a JSON-ready view and as text, and the messages of
//! `lock` and `release`.
use vstd::prelude::*;
use crate::platform::{parse_rfc3339, rfc3339_instant};
use crate::state::{EntryStatus, QueueEntry, QueueState, WaiterEntry, clone_opt_string};
use crate::text::{dec_int, dec_nat, push_i64, push_str, push_u64};

verus! {

/// The running command in a status report.
#[derive(Debug)]
pub struct RunningJson {
    pub id: String,
    pub command: String,
    pub pid: u32,
    pub started_at: String,
    pub elapsed_seconds: i64,
}

/// A pending command in a status report, with its place in line (from 1).
#[derive(Debug)]
pub struct PendingJson {
    pub id: String,
    pub command: String,
    pub pid: u32,
    pub enqueued_at: String,
    pub waiting_seconds: i64,
    pub position: usize,
}

/// A waiter in a status report.
#[derive(Debug)]
pub struct WaiterJson {
    pub id: String,
    pub command_type: String,
    pub command: String,
    pub pid: u32,
    pub queued_at: String,
}

/// The explicit lock in a status report.
#[derive(Debug)]
pub struct LockJson {
    pub reason: String,
    pub token: String,
    pub locked_at: String,
    pub locked_by: Option<String>,
    pub pid: u32,
    pub is_stale: bool,
}

/// A status report.
#[derive(Debug)]
pub struct StatusJson {
    pub queue_name: String,
    /// `locked`, `idle` or `active`.
    pub status: String,
    pub lock: Option<LockJson>,
    pub running: Option<RunningJson>,
    pub pending: Vec<PendingJson>,
    pub total_pending: usize,
    pub waiters: Vec<WaiterJson>,
}

/// Division that rounds toward zero, as Rust's integer `/` does.
pub open spec fn tdiv(a: int, b: int) -> int {
    if a >= 0 { a / b } else { -((-a) / b) }
}

/// The remainder that goes with `tdiv`, as Rust's integer `%` gives it.
pub open spec fn trem(a: int, b: int) -> int {
    a - b * tdiv(a, b)
}

/// Whole seconds from `then` (seconds after the epoch and nanoseconds past them)
/// to `now` (nanoseconds after the epoch), rounded toward zero; 0 when either is
/// unknown.
pub open spec fn seconds_between(now: Option<i64>, then: Option<(i64, u32)>) -> i64 {
    match (now, then) {
        (Some(n), Some((s, ns))) => tdiv(n - (s * 1_000_000_000 + ns), 1_000_000_000) as i64,
        _ => 0,
    }
}

/// Whole seconds from the RFC 3339 time `text` to `now`; 0 when the text does not parse.
pub open spec fn seconds_since(now: Option<i64>, text: Seq<char>) -> i64 {
    seconds_between(now, rfc3339_instant(text))
}

/// The text of an optional string, empty when there is none.
pub open spec fn text_or_empty(o: Option<String>) -> Seq<char> {
    match o {
        Some(s) => s@,
        None => Seq::empty(),
    }
}

/// The last entry of `s` that runs, if any (a report shows one running command).
pub open spec fn last_running(s: Seq<QueueEntry>) -> Option<QueueEntry>
    decreases s.len(),
{
    if s.len() == 0 {
        None
    } else if s.last().status == EntryStatus::Running {
        Some(s.last())
    } else {
        last_running(s.drop_last())
    }
}

/// The pending entries of `s`, in queue order.
pub open spec fn pending_entries(s: Seq<QueueEntry>) -> Seq<QueueEntry> {
    s.filter(|e: QueueEntry| e.status == EntryStatus::Pending)
}

/// `r` reports the running entry `e` at `now`.
pub open spec fn reports_running(r: RunningJson, e: QueueEntry, now: Option<i64>) -> bool {
    &&& r.id == e.id
    &&& r.command == e.command
    &&& r.pid == e.pid
    &&& r.started_at@ == text_or_empty(e.started_at)
    &&& r.elapsed_seconds == match e.started_at {
        Some(t) => seconds_since(now, t@),
        None => 0,
    }
}

/// `p` reports the pending entry `e`, at place `position`, at `now`.
pub open spec fn reports_pending(p: PendingJson, e: QueueEntry, position: int, now: Option<i64>) -> bool {
    &&& p.id == e.id
    &&& p.command == e.command
    &&& p.pid == e.pid
    &&& p.enqueued_at == e.enqueued_at
    &&& p.waiting_seconds == seconds_since(now, e.enqueued_at@)
    &&& p.position == position
}

/// `w` reports the waiter `x`.
pub open spec fn reports_waiter(w: WaiterJson, x: WaiterEntry) -> bool {
    &&& w.id == x.id
    &&& w.command_type == x.command_type
    &&& w.command == x.command
    &&& w.pid == x.pid
    &&& w.queued_at == x.queued_at
}

/// `running` and `pending` report the entries of `s` at `now`: the last running
/// entry, and the pending ones in order, numbered from 1.
pub open spec fn reports_activity(running: Option<RunningJson>, pending: Seq<PendingJson>, s: Seq<QueueEntry>, now: Option<i64>) -> bool {
    &&& match (running, last_running(s)) {
        (Some(r), Some(e)) => reports_running(r, e, now),
        (None, None) => true,
        _ => false,
    }
    &&& pending.len() == pending_entries(s).len()
    &&& forall|k: int| 0 <= k < pending.len() ==> reports_pending(#[trigger] pending[k], pending_entries(s)[k], k + 1, now)
}

/// The word for a queue's status: `locked` when an explicit lock stands, else
/// `idle` when nothing runs or waits in it, else `active`.
pub open spec fn status_word(locked: bool, idle: bool) -> Seq<char> {
    if locked { "locked"@ } else if idle { "idle"@ } else { "active"@ }
}

/// `l` reports the lock facts recorded in `state`.
pub open spec fn reports_lock(l: LockJson, state: QueueState) -> bool {
    &&& l.reason@ == text_or_empty(state.lock_reason)
    &&& l.token@ == text_or_empty(state.lock_token)
    &&& l.locked_at@ == text_or_empty(state.locked_at)
    &&& l.locked_by == state.locked_by
    &&& l.pid == match state.lock_pid { Some(p) => p, None => 0 }
    &&& l.is_stale == match state.lock_stale { Some(b) => b, None => false }
}

/// Whole seconds from the RFC 3339 time `text` to `now`, rounded toward zero.
pub fn seconds_since_text(now: Option<i64>, text: &str) -> (r: i64)
    ensures
        r == seconds_since(now, text@),
{
    let then = parse_rfc3339(text);
    match (now, then) {
        (Some(n), Some((ts, tn))) => {
            let t: i128 = ts as i128 * 1_000_000_000 + tn as i128;
            let d: i128 = n as i128 - t;
            let q: i128 = if d >= 0 {
                d / 1_000_000_000
            } else {
                -((-d) / 1_000_000_000)
            };
            assert(-9_223_372_036_854_775_808 <= q <= 9_223_372_036_854_775_807) by (nonlinear_arith)
                requires
                    -400_000_000_000_000_000_000 <= d <= 400_000_000_000_000_000_000,
                    q == tdiv(d as int, 1_000_000_000),
            {
            }
            q as i64
        },
        _ => 0,
    }
}

fn opt_text(o: &Option<String>) -> (r: String)
    ensures
        r@ == text_or_empty(*o),
{
    match o {
        Some(s) => s.clone(),
        None => String::new(),
    }
}

/// The running entry and the pending entries of `state`, as a report at `now` shows them.
pub fn collect_activity(state: &QueueState, now: Option<i64>) -> (r: (Option<RunningJson>, Vec<PendingJson>))
    ensures
        reports_activity(r.0, r.1@, state.entries@, now),
{
    let n = state.entries.len();
    let mut running: Option<RunningJson> = None;
    let mut pending: Vec<PendingJson> = Vec::new();
    let mut i: usize = 0;
    while i < n
        invariant
            n == state.entries@.len(),
            i <= n,
            reports_activity(running, pending@, state.entries@.take(i as int), now),
        decreases n - i,
    {
        let ghost s = state.entries@;
        proof {
            reveal_with_fuel(Seq::filter, 1);
            assert(s.take(i + 1).drop_last() =~= s.take(i as int));
            assert(s.take(i + 1).last() == s[i as int]);
        }
        let e = &state.entries[i];
        match e.status {
            EntryStatus::Running => {
                let elapsed = match &e.started_at {
                    Some(t) => seconds_since_text(now, t.as_str()),
                    None => 0,
                };
                running = Some(RunningJson {
                    id: e.id.clone(),
                    command: e.command.clone(),
                    pid: e.pid,
                    started_at: opt_text(&e.started_at),
                    elapsed_seconds: elapsed,
                });
                assert(pending_entries(s.take(i + 1)) =~= pending_entries(s.take(i as int)));
            },
            EntryStatus::Pending => {
                let waiting = seconds_since_text(now, e.enqueued_at.as_str());
                let position = pending.len() + 1;
                let ghost before = pending@;
                pending.push(PendingJson {
                    id: e.id.clone(),
                    command: e.command.clone(),
                    pid: e.pid,
                    enqueued_at: e.enqueued_at.clone(),
                    waiting_seconds: waiting,
                    position,
                });
                proof {
                    let pe = pending_entries(s.take(i + 1));
                    assert(pe =~= pending_entries(s.take(i as int)).push(s[i as int]));
                    assert forall|k: int| 0 <= k < pending@.len() implies reports_pending(#[trigger] pending@[k], pe[k], k + 1, now) by {
                        if k < before.len() {
                            assert(pending@[k] == before[k]);
                        }
                    }
                }
            },
            _ => {
                assert(pending_entries(s.take(i + 1)) =~= pending_entries(s.take(i as int)));
            },
        }
        i = i + 1;
    }
    assert(state.entries@.take(n as int) =~= state.entries@);
    (running, pending)
}

/// The status report of `state` at `now` (nanoseconds after the epoch), as JSON
/// shows it.
pub fn status_json(state: &QueueState, now: Option<i64>) -> (r: StatusJson)
    ensures
        r.queue_name == state.queue_name,
        reports_activity(r.running, r.pending@, state.entries@, now),
        r.status@ == status_word(state.locked, r.running is None && r.pending@.len() == 0),
        r.total_pending == r.pending@.len(),
        state.locked ==> (r.lock matches Some(l) && reports_lock(l, *state)),
        !state.locked ==> r.lock is None,
        r.waiters@.len() == state.waiters@.len(),
        forall|k: int| 0 <= k < r.waiters@.len() ==> reports_waiter(#[trigger] r.waiters@[k], state.waiters@[k]),
{
    let (running, pending) = collect_activity(state, now);
    let idle = running.is_none() && pending.len() == 0;
    let lock = if state.locked {
        Some(LockJson {
            reason: opt_text(&state.lock_reason),
            token: opt_text(&state.lock_token),
            locked_at: opt_text(&state.locked_at),
            locked_by: clone_opt_string(&state.locked_by),
            pid: match state.lock_pid { Some(p) => p, None => 0 },
            is_stale: match state.lock_stale { Some(b) => b, None => false },
        })
    } else {
        None
    };
    let mut waiters: Vec<WaiterJson> = Vec::new();
    let n = state.waiters.len();
    let mut i: usize = 0;
    while i < n
        invariant
            n == state.waiters@.len(),
            i <= n,
            waiters@.len() == i,
            forall|k: int| 0 <= k < i ==> reports_waiter(#[trigger] waiters@[k], state.waiters@[k]),
        decreases n - i,
    {
        let w = &state.waiters[i];
        waiters.push(WaiterJson {
            id: w.id.clone(),
            command_type: w.command_type.clone(),
            command: w.command.clone(),
            pid: w.pid,
            queued_at: w.queued_at.clone(),
        });
        i = i + 1;
    }
    let status = if state.locked {
        String::from_str("locked")
    } else if idle {
        String::from_str("idle")
    } else {
        String::from_str("active")
    };
    let total_pending = pending.len();
    StatusJson {
        queue_name: state.queue_name.clone(),
        status,
        lock,
        running,
        pending,
        total_pending,
        waiters,
    }
}

/// `e` seconds as `<m>m <s>s`, minutes and seconds rounded toward zero.
pub open spec fn mins_secs(e: int) -> Seq<char> {
    dec_int(tdiv(e, 60)) + "m "@ + dec_int(trem(e, 60)) + "s"@
}

/// Seconds since a running entry started; 0 when it has no start time.
pub open spec fn running_secs(e: QueueEntry, now: Option<i64>) -> i64 {
    match e.started_at {
        Some(t) => seconds_since(now, t@),
        None => 0,
    }
}

/// The report line of the running entry `e`.
pub open spec fn running_line(e: QueueEntry, now: Option<i64>) -> Seq<char> {
    "  ["@ + crate::text::before_dash(e.id@) + "] "@ + e.command@ + "  (started "@
        + mins_secs(running_secs(e, now) as int) + " ago, PID "@ + dec_nat(e.pid as nat) + ")\n"@
}

/// The report line of the pending entry `e` at place `position`.
pub open spec fn pending_line(e: QueueEntry, position: int, now: Option<i64>) -> Seq<char> {
    "  "@ + dec_nat(position as nat) + ". ["@ + crate::text::before_dash(e.id@) + "] "@ + e.command@
        + "  (waiting "@ + mins_secs(seconds_since(now, e.enqueued_at@) as int) + ", PID "@
        + dec_nat(e.pid as nat) + ")\n"@
}

/// The report lines of the pending entries `ps`, numbered from 1.
pub open spec fn pending_lines(ps: Seq<QueueEntry>, now: Option<i64>) -> Seq<char>
    decreases ps.len(),
{
    if ps.len() == 0 {
        Seq::empty()
    } else {
        pending_lines(ps.drop_last(), now) + pending_line(ps.last(), ps.len() as int, now)
    }
}

/// The report line of the waiter `w` at place `position`.
pub open spec fn waiter_line(w: WaiterEntry, position: int, now: Option<i64>) -> Seq<char> {
    "  "@ + dec_nat(position as nat) + ". ["@ + crate::text::before_dash(w.id@) + "] "@ + w.command@ + " ("@
        + w.command_type@ + ")  (waiting "@ + mins_secs(seconds_since(now, w.queued_at@) as int) + ", PID "@
        + dec_nat(w.pid as nat) + ")\n"@
}

/// The report lines of the waiters `ws`, numbered from 1.
pub open spec fn waiter_lines(ws: Seq<WaiterEntry>, now: Option<i64>) -> Seq<char>
    decreases ws.len(),
{
    if ws.len() == 0 {
        Seq::empty()
    } else {
        waiter_lines(ws.drop_last(), now) + waiter_line(ws.last(), ws.len() as int, now)
    }
}

/// The first lock lines of a report of a locked queue: reason and token.
pub open spec fn lock_head(state: QueueState) -> Seq<char> {
    "\n"@ + "🔒 Locked: "@ + text_or_empty(state.lock_reason) + "\n"@ + "   Token: "@
        + text_or_empty(state.lock_token) + "\n"@
}

/// The holder line of a report of a locked queue, when the holder is known.
pub open spec fn holder_line(state: QueueState) -> Seq<char> {
    match state.locked_by {
        Some(by) => "   By:    "@ + by@ + "\n"@,
        None => Seq::empty(),
    }
}

/// The staleness line of a report of a locked queue, when its holder is gone.
pub open spec fn stale_line(state: QueueState) -> Seq<char> {
    if state.lock_stale == Some(true) {
        "   State: STALE (PID "@ + dec_nat((match state.lock_pid { Some(p) => p, None => 0u32 }) as nat)
            + " is dead)\n"@
    } else {
        Seq::empty()
    }
}

/// The lock lines of a report of a locked queue.
pub open spec fn lock_lines(state: QueueState) -> Seq<char> {
    lock_head(state) + holder_line(state) + stale_line(state)
}

/// Nothing runs and nothing is pending in `state`.
pub open spec fn is_idle(state: QueueState) -> bool {
    last_running(state.entries@) is None && pending_entries(state.entries@).len() == 0
}

/// The running part of a report.
pub open spec fn running_block(state: QueueState, now: Option<i64>) -> Seq<char> {
    match last_running(state.entries@) {
        Some(e) => "Running:\n"@ + running_line(e, now) + "\n"@,
        None => Seq::empty(),
    }
}

/// The pending part of a report.
pub open spec fn pending_block(state: QueueState, now: Option<i64>) -> Seq<char> {
    let pe = pending_entries(state.entries@);
    if pe.len() > 0 {
        "Pending ("@ + dec_nat(pe.len()) + "):\n"@ + pending_lines(pe, now) + "\n"@
    } else {
        Seq::empty()
    }
}

/// The waiters part of a report.
pub open spec fn waiter_block(state: QueueState, now: Option<i64>) -> Seq<char> {
    if state.waiters@.len() > 0 {
        "Waiters ("@ + dec_nat(state.waiters@.len()) + "):\n"@ + waiter_lines(state.waiters@, now)
    } else {
        Seq::empty()
    }
}

/// The body of a report of a queue that has something to show.
pub open spec fn activity_lines(state: QueueState, now: Option<i64>) -> Seq<char> {
    running_block(state, now) + pending_block(state, now) + waiter_block(state, now)
}

/// The head of a report: the queue, its status, its lock, an empty line.
pub open spec fn status_head(state: QueueState) -> Seq<char> {
    "Queue: "@ + state.queue_name@ + "\n"@ + "Status: "@ + status_word(state.locked, is_idle(state)) + "\n"@
        + (if state.locked { lock_lines(state) } else { Seq::empty() }) + "\n"@
}

/// The text report of `state` at `now`.
pub open spec fn status_text_of(state: QueueState, now: Option<i64>) -> Seq<char> {
    status_head(state) + if is_idle(state) && !state.locked && state.waiters@.len() == 0 {
        "No commands running or pending.\n"@
    } else {
        activity_lines(state, now)
    }
}

/// Appends `e` seconds as `<m>m <s>s`.
pub fn push_mins_secs(s: &mut String, e: i64)
    ensures
        final(s)@ == old(s)@ + mins_secs(e as int),
{
    let a: i128 = e as i128;
    let m: i128 = if a >= 0 { a / 60 } else { -((-a) / 60) };
    assert(m == tdiv(a as int, 60));
    assert(-153722867280912931 <= m <= 153722867280912930) by (nonlinear_arith)
        requires
            -9_223_372_036_854_775_808 <= a <= 9_223_372_036_854_775_807,
            m == tdiv(a as int, 60),
    {
    }
    let rem: i128 = a - 60 * m;
    assert(-60 < rem < 60) by (nonlinear_arith)
        requires
            rem == a - 60 * m,
            m == tdiv(a as int, 60),
    {
    }
    push_i64(s, m as i64);
    push_str(s, "m ");
    push_i64(s, rem as i64);
    push_str(s, "s");
    assert(final(s)@ =~= old(s)@ + mins_secs(e as int));
}

fn push_running_line(s: &mut String, r: &RunningJson, Ghost(e): Ghost<QueueEntry>, Ghost(now): Ghost<Option<i64>>)
    requires
        reports_running(*r, e, now),
    ensures
        final(s)@ == old(s)@ + running_line(e, now),
{
    push_str(s, "  [");
    crate::text::push_before_dash(s, r.id.as_str());
    push_str(s, "] ");
    push_str(s, r.command.as_str());
    push_str(s, "  (started ");
    push_mins_secs(s, r.elapsed_seconds);
    push_str(s, " ago, PID ");
    push_u64(s, r.pid as u64);
    push_str(s, ")\n");
    assert(final(s)@ =~= old(s)@ + running_line(e, now));
}

fn push_pending_line(s: &mut String, p: &PendingJson, Ghost(e): Ghost<QueueEntry>, Ghost(position): Ghost<int>, Ghost(now): Ghost<Option<i64>>)
    requires
        reports_pending(*p, e, position, now),
    ensures
        final(s)@ == old(s)@ + pending_line(e, position, now),
{
    push_str(s, "  ");
    push_u64(s, p.position as u64);
    push_str(s, ". [");
    crate::text::push_before_dash(s, p.id.as_str());
    push_str(s, "] ");
    push_str(s, p.command.as_str());
    push_str(s, "  (waiting ");
    push_mins_secs(s, p.waiting_seconds);
    push_str(s, ", PID ");
    push_u64(s, p.pid as u64);
    push_str(s, ")\n");
    assert(final(s)@ =~= old(s)@ + pending_line(e, position, now));
}

fn push_waiter_line(s: &mut String, w: &WaiterEntry, position: usize, now: Option<i64>)
    ensures
        final(s)@ == old(s)@ + waiter_line(*w, position as int, now),
{
    let waiting = seconds_since_text(now, w.queued_at.as_str());
    push_str(s, "  ");
    push_u64(s, position as u64);
    push_str(s, ". [");
    crate::text::push_before_dash(s, w.id.as_str());
    push_str(s, "] ");
    push_str(s, w.command.as_str());
    push_str(s, " (");
    push_str(s, w.command_type.as_str());
    push_str(s, ")  (waiting ");
    push_mins_secs(s, waiting);
    push_str(s, ", PID ");
    push_u64(s, w.pid as u64);
    push_str(s, ")\n");
    assert(final(s)@ =~= old(s)@ + waiter_line(*w, position as int, now));
}

fn push_lock_lines(s: &mut String, state: &QueueState)
    ensures
        final(s)@ == old(s)@ + lock_lines(*state),
{
    let ghost s0 = s@;
    push_str(s, "\n");
    push_str(s, "🔒 Locked: ");
    push_str(s, opt_text(&state.lock_reason).as_str());
    push_str(s, "\n");
    push_str(s, "   Token: ");
    push_str(s, opt_text(&state.lock_token).as_str());
    push_str(s, "\n");
    assert(s@ =~= s0 + lock_head(*state));
    let ghost s1 = s@;
    match &state.locked_by {
        Some(by) => {
            push_str(s, "   By:    ");
            push_str(s, by.as_str());
            push_str(s, "\n");
        },
        None => {},
    }
    assert(s@ =~= s1 + holder_line(*state));
    let ghost s2 = s@;
    let stale = match state.lock_stale { Some(b) => b, None => false };
    if stale {
        push_str(s, "   State: STALE (PID ");
        let pid: u32 = match state.lock_pid { Some(p) => p, None => 0 };
        push_u64(s, pid as u64);
        push_str(s, " is dead)\n");
    }
    assert(s@ =~= s2 + stale_line(*state));
    assert(s@ =~= s0 + lock_lines(*state));
}

fn push_status_head(s: &mut String, state: &QueueState, idle: bool)
    requires
        idle == is_idle(*state),
    ensures
        final(s)@ == old(s)@ + status_head(*state),
{
    let ghost s0 = s@;
    push_str(s, "Queue: ");
    push_str(s, state.queue_name.as_str());
    push_str(s, "\n");
    push_str(s, "Status: ");
    if state.locked {
        push_str(s, "locked");
    } else if idle {
        push_str(s, "idle");
    } else {
        push_str(s, "active");
    }
    push_str(s, "\n");
    let ghost s1 = s@;
    if state.locked {
        push_lock_lines(s, state);
    }
    assert(s@ =~= s1 + (if state.locked { lock_lines(*state) } else { Seq::empty() }));
    push_str(s, "\n");
    assert(s@ =~= s0 + status_head(*state));
}

fn push_running_block(s: &mut String, running: &Option<RunningJson>, Ghost(state): Ghost<QueueState>, Ghost(now): Ghost<Option<i64>>)
    requires
        match (*running, last_running(state.entries@)) {
            (Some(r), Some(e)) => reports_running(r, e, now),
            (None, None) => true,
            _ => false,
        },
    ensures
        final(s)@ == old(s)@ + running_block(state, now),
{
    let ghost s0 = s@;
    match running {
        Some(r) => {
            push_str(s, "Running:\n");
            push_running_line(s, r, Ghost(last_running(state.entries@)->0), Ghost(now));
            push_str(s, "\n");
        },
        None => {},
    }
    assert(s@ =~= s0 + running_block(state, now));
}

fn push_pending_block(s: &mut String, pending: &Vec<PendingJson>, Ghost(state): Ghost<QueueState>, Ghost(now): Ghost<Option<i64>>)
    requires
        pending@.len() == pending_entries(state.entries@).len(),
        forall|j: int| 0 <= j < pending@.len() ==> reports_pending(#[trigger] pending@[j], pending_entries(state.entries@)[j], j + 1, now),
    ensures
        final(s)@ == old(s)@ + pending_block(state, now),
{
    let ghost pe = pending_entries(state.entries@);
    let ghost s0 = s@;
    let np = pending.len();
    if np > 0 {
        push_str(s, "Pending (");
        push_u64(s, np as u64);
        push_str(s, "):\n");
        let ghost start = s@;
        let mut k: usize = 0;
        while k < np
            invariant
                np == pending@.len(),
                np == pe.len(),
                k <= np,
                forall|j: int| 0 <= j < pending@.len() ==> reports_pending(#[trigger] pending@[j], pe[j], j + 1, now),
                s@ == start + pending_lines(pe.take(k as int), now),
            decreases np - k,
        {
            proof {
                assert(pe.take(k + 1).drop_last() =~= pe.take(k as int));
                assert(pe.take(k + 1).last() == pe[k as int]);
            }
            push_pending_line(s, &pending[k], Ghost(pe[k as int]), Ghost(k + 1), Ghost(now));
            k = k + 1;
        }
        assert(pe.take(np as int) =~= pe);
        push_str(s, "\n");
    }
    assert(s@ =~= s0 + pending_block(state, now));
}

fn push_waiter_block(s: &mut String, state: &QueueState, now: Option<i64>)
    ensures
        final(s)@ == old(s)@ + waiter_block(*state, now),
{
    let ghost s0 = s@;
    let nw = state.waiters.len();
    if nw > 0 {
        push_str(s, "Waiters (");
        push_u64(s, nw as u64);
        push_str(s, "):\n");
        let ghost start = s@;
        let mut k: usize = 0;
        while k < nw
            invariant
                nw == state.waiters@.len(),
                k <= nw,
                s@ == start + waiter_lines(state.waiters@.take(k as int), now),
            decreases nw - k,
        {
            proof {
                assert(state.waiters@.take(k + 1).drop_last() =~= state.waiters@.take(k as int));
                assert(state.waiters@.take(k + 1).last() == state.waiters@[k as int]);
            }
            push_waiter_line(s, &state.waiters[k], k + 1, now);
            k = k + 1;
        }
        assert(state.waiters@.take(nw as int) =~= state.waiters@);
    }
    assert(s@ =~= s0 + waiter_block(*state, now));
}

/// The text report of `state` at `now` (nanoseconds after the epoch): the queue,
/// its status, its lock, what runs, what is pending and who waits.
pub fn status_text(state: &QueueState, now: Option<i64>) -> (r: String)
    ensures
        r@ == status_text_of(*state, now),
{
    let (running, pending) = collect_activity(state, now);
    let idle = running.is_none() && pending.len() == 0;
    let mut s = String::new();
    push_status_head(&mut s, state, idle);
    let ghost head = s@;
    if idle && !state.locked && state.waiters.len() == 0 {
        push_str(&mut s, "No commands running or pending.\n");
        assert(s@ =~= status_text_of(*state, now));
        return s;
    }
    push_running_block(&mut s, &running, Ghost(*state), Ghost(now));
    let ghost s1 = s@;
    push_pending_block(&mut s, &pending, Ghost(*state), Ghost(now));
    let ghost s2 = s@;
    push_waiter_block(&mut s, state, now);
    assert(s@ =~= head + activity_lines(*state, now));
    assert(s@ =~= status_text_of(*state, now));
    s
}

/// What a successful `lock` prints: the queue, the token and the reason.
pub open spec fn lock_success_message(queue: Seq<char>, token: Seq<char>, reason: Seq<char>) -> Seq<char> {
    "🔒 Queue \""@ + queue + "\" locked successfully.\nToken: "@ + token + "\nReason: "@ + reason
}

/// The text a successful `lock` prints for the lock `info` (without the final
/// line break): the token alone when `raw`, else the queue, token and reason.
pub fn lock_success_text(info: &crate::lock::LockInfo, raw: bool) -> (r: String)
    ensures
        raw ==> r@ == info.token@,
        !raw ==> r@ == lock_success_message(info.queue_name@, info.token@, info.reason@),
{
    if raw {
        return info.token.clone();
    }
    let mut s = String::new();
    push_str(&mut s, "🔒 Queue \"");
    push_str(&mut s, info.queue_name.as_str());
    push_str(&mut s, "\" locked successfully.\nToken: ");
    push_str(&mut s, info.token.as_str());
    push_str(&mut s, "\nReason: ");
    push_str(&mut s, info.reason.as_str());
    assert(s@ =~= lock_success_message(info.queue_name@, info.token@, info.reason@));
    s
}

/// An optional text, by its characters.
pub open spec fn str_opt(o: Option<&str>) -> Option<Seq<char>> {
    match o {
        Some(t) => Some(t@),
        None => None,
    }
}

/// The notice of a lock request that waits on a locked queue: the lock's reason
/// and holder, where the lock file gives them, each on a line of its own.
pub open spec fn lock_waiting_message(queue: Seq<char>, reason: Option<Seq<char>>, holder: Option<Seq<char>>) -> Seq<char> {
    "⏳ Queue \""@ + queue + "\" is currently locked.\n"@
        + match reason { Some(r) => "   Reason: "@ + r + "\n"@, None => Seq::empty() }
        + match holder { Some(h) => "   Locked by: "@ + h + "\n"@, None => Seq::empty() }
        + "   Waiting for lock to be released..."@
}

/// The notice of a lock request that waits on a locked queue.
pub fn lock_waiting_text(queue_name: &str, reason: Option<&str>, holder: Option<&str>) -> (r: String)
    ensures
        r@ == lock_waiting_message(queue_name@, str_opt(reason), str_opt(holder)),
{
    let mut s = String::new();
    push_str(&mut s, "⏳ Queue \"");
    push_str(&mut s, queue_name);
    push_str(&mut s, "\" is currently locked.\n");
    let ghost head = s@;
    match reason {
        Some(r) => {
            push_str(&mut s, "   Reason: ");
            push_str(&mut s, r);
            push_str(&mut s, "\n");
        },
        None => {},
    }
    let ghost mid = s@;
    assert(mid =~= head + match str_opt(reason) { Some(r) => "   Reason: "@ + r + "\n"@, None => Seq::empty() });
    match holder {
        Some(h) => {
            push_str(&mut s, "   Locked by: ");
            push_str(&mut s, h);
            push_str(&mut s, "\n");
        },
        None => {},
    }
    let ghost low = s@;
    assert(low =~= mid + match str_opt(holder) { Some(h) => "   Locked by: "@ + h + "\n"@, None => Seq::empty() });
    push_str(&mut s, "   Waiting for lock to be released...");
    assert(s@ =~= lock_waiting_message(queue_name@, str_opt(reason), str_opt(holder)));
    s
}

/// The notice of a lock request that waits on a busy queue.
pub fn queue_busy_waiting_text(queue_name: &str) -> (r: String)
    ensures
        r@ == "⏳ Queue \""@ + queue_name@ + "\" is currently active. Waiting for it to become available..."@,
{
    let mut s = String::new();
    push_str(&mut s, "⏳ Queue \"");
    push_str(&mut s, queue_name);
    push_str(&mut s, "\" is currently active. Waiting for it to become available...");
    assert(s@ =~= "⏳ Queue \""@ + queue_name@ + "\" is currently active. Waiting for it to become available..."@);
    s
}

/// The message of a lock request that gave up after `timeout_secs` seconds.
pub fn lock_timeout_text(queue_name: &str, timeout_secs: u64) -> (r: String)
    ensures
        r@ == "⏱️  Timeout: could not acquire lock on queue \""@ + queue_name@ + "\" within "@
            + dec_nat(timeout_secs as nat) + " seconds."@,
{
    let mut s = String::new();
    push_str(&mut s, "⏱️  Timeout: could not acquire lock on queue \"");
    push_str(&mut s, queue_name);
    push_str(&mut s, "\" within ");
    push_u64(&mut s, timeout_secs);
    push_str(&mut s, " seconds.");
    assert(s@ =~= "⏱️  Timeout: could not acquire lock on queue \""@ + queue_name@ + "\" within "@
        + dec_nat(timeout_secs as nat) + " seconds."@);
    s
}

/// What a successful `release` prints: a JSON object, or a sentence that says
/// whether the release was forced.
pub fn release_success_text(queue_name: &str, json: bool, forced: bool) -> (r: String)
    ensures
        json ==> r@ == "{\"status\":\"released\",\"queue\":\""@ + queue_name@ + "\"}"@,
        !json && forced ==> r@ == "🔓 Queue \""@ + queue_name@ + "\" force-released."@,
        !json && !forced ==> r@ == "🔓 Queue \""@ + queue_name@ + "\" released successfully."@,
{
    let mut s = String::new();
    if json {
        push_str(&mut s, "{\"status\":\"released\",\"queue\":\"");
        push_str(&mut s, queue_name);
        push_str(&mut s, "\"}");
        assert(s@ =~= "{\"status\":\"released\",\"queue\":\""@ + queue_name@ + "\"}"@);
    } else {
        push_str(&mut s, "🔓 Queue \"");
        push_str(&mut s, queue_name);
        if forced {
            push_str(&mut s, "\" force-released.");
            assert(s@ =~= "🔓 Queue \""@ + queue_name@ + "\" force-released."@);
        } else {
            push_str(&mut s, "\" released successfully.");
            assert(s@ =~= "🔓 Queue \""@ + queue_name@ + "\" released successfully."@);
        }
    }
    s
}

/// The notice of a command that joined the queue and waits for its turn.
pub fn enqueued_text(queue_name: &str) -> (r: String)
    ensures
        r@ == "queue: Enqueued in '"@ + queue_name@ + "'. Waiting for turn..."@,
{
    let mut s = String::new();
    push_str(&mut s, "queue: Enqueued in '");
    push_str(&mut s, queue_name);
    push_str(&mut s, "'. Waiting for turn...");
    assert(s@ =~= "queue: Enqueued in '"@ + queue_name@ + "'. Waiting for turn..."@);
    s
}

/// The warning of a queue that already holds `depth` entries.
pub fn high_depth_text(depth: usize) -> (r: String)
    ensures
        r@ == "queue: Warning: High queue depth ("@ + dec_nat(depth as nat)
            + " entries). Commands may take a long time to execute."@,
{
    let mut s = String::new();
    push_str(&mut s, "queue: Warning: High queue depth (");
    push_u64(&mut s, depth as u64);
    push_str(&mut s, " entries). Commands may take a long time to execute.");
    assert(s@ =~= "queue: Warning: High queue depth ("@ + dec_nat(depth as nat)
        + " entries). Commands may take a long time to execute."@);
    s
}

/// The warning for a stale entry that is being removed.
pub fn stale_entry_text(entry: &QueueEntry) -> (r: String)
    ensures
        r@ == "Warning: Removing stale entry "@ + entry.id@ + " (PID "@ + dec_nat(entry.pid as nat) + " is dead)"@,
{
    let mut s = String::new();
    push_str(&mut s, "Warning: Removing stale entry ");
    push_str(&mut s, entry.id.as_str());
    push_str(&mut s, " (PID ");
    push_u64(&mut s, entry.pid as u64);
    push_str(&mut s, " is dead)");
    assert(s@ =~= "Warning: Removing stale entry "@ + entry.id@ + " (PID "@ + dec_nat(entry.pid as nat) + " is dead)"@);
    s
}

/// A report shows a UUID id by its first eight characters, the part before its
/// first dash.
pub proof fn law_short_id_of_uuid(id: Seq<char>)
    requires
        crate::platform::is_uuid_v4_text(id),
    ensures
        crate::text::before_dash(id) == id.take(8),
{
    assert forall|j: int| 0 <= j < 8 implies id[j] != '-' by {
        assert(crate::platform::is_lower_hex(id[j]));
    }
    crate::text::lemma_before_dash_prefix(id, 8);
}

/// A locked queue reports `locked` whatever runs or waits in it; an unlocked
/// queue reports `idle` when nothing runs or waits, else `active`.
pub proof fn law_status_word(idle: bool)
    ensures
        status_word(true, idle) == "locked"@,
        status_word(false, true) == "idle"@,
        status_word(false, false) == "active"@,
{
}

} // verus!
