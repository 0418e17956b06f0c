//! Stale entries: an entry that waits or runs belongs to a live process; when that
//! process is gone (or its pid now belongs to a process started at another time),
//! the entry is removed.
use vstd::prelude::*;
use crate::platform::{find_process, process_start_time, system_with_all};
use crate::state::{EntryStatus, QueueEntry, QueueState, same_but_entries};

verus! {

/// How far, in seconds, a process's reported start time may drift from the one
/// recorded for its entry.
pub const START_TIME_DRIFT: u64 = 5;

/// Two start times, in seconds, that are at most five seconds apart, counted as
/// `i64` differences are (modulo 2^64).
pub open spec fn start_times_match(actual: u64, expected: u64) -> bool {
    let d: int = if actual >= expected { actual - expected } else { expected - actual };
    d <= START_TIME_DRIFT || d >= 0x1_0000_0000_0000_0000 - START_TIME_DRIFT
}

/// What the process table says of a pid.
#[derive(Debug, Clone, Copy, PartialEq, Eq, Structural)]
pub enum ProcessObservation {
    /// The process table could not be read.
    Unknown,
    /// No process has that pid.
    Absent,
    /// A process with that pid started at this time (seconds from the epoch).
    StartedAt(u64),
}

/// Whether a process observed as `obs` is the one that recorded `expected_start`:
/// it is there and started then. When the process table cannot be read, the
/// process counts as alive, so that nothing is removed on a guess.
pub open spec fn alive_given(obs: ProcessObservation, expected_start: u64) -> bool {
    match obs {
        ProcessObservation::Unknown => true,
        ProcessObservation::Absent => false,
        ProcessObservation::StartedAt(t) => start_times_match(t, expected_start),
    }
}

/// An entry that waits or runs, and so needs a live process.
pub open spec fn is_active(e: QueueEntry) -> bool {
    e.status == EntryStatus::Pending || e.status == EntryStatus::Running
}

/// The entries of `s` that stay, given whether each one's process is alive: the
/// finished ones and the active ones whose process lives.
pub open spec fn kept_entries(s: Seq<QueueEntry>, alive: Seq<bool>) -> Seq<QueueEntry>
    decreases s.len(),
{
    if s.len() == 0 {
        s
    } else {
        let rest = kept_entries(s.drop_last(), alive.take(s.len() - 1));
        if is_active(s.last()) && !alive[s.len() - 1] {
            rest
        } else {
            rest.push(s.last())
        }
    }
}

/// The entries of `s` that go: active ones whose process is dead.
pub open spec fn stale_entries(s: Seq<QueueEntry>, alive: Seq<bool>) -> Seq<QueueEntry>
    decreases s.len(),
{
    if s.len() == 0 {
        s
    } else {
        let rest = stale_entries(s.drop_last(), alive.take(s.len() - 1));
        if is_active(s.last()) && !alive[s.len() - 1] {
            rest.push(s.last())
        } else {
            rest
        }
    }
}

/// Whether two start times match within the allowed drift.
pub fn start_times_close(actual: u64, expected: u64) -> (r: bool)
    ensures
        r == start_times_match(actual, expected),
{
    let d: u64 = if actual >= expected { actual - expected } else { expected - actual };
    d <= START_TIME_DRIFT || d >= u64::MAX - (START_TIME_DRIFT - 1)
}

/// What the process table said of a pid, together with the pid that was asked.
/// Only `observe_process` makes one, so the pid it carries is the one probed.
#[derive(Debug, Clone, Copy)]
pub struct ProcessProbe {
    pid: u32,
    seen: ProcessObservation,
}

impl ProcessProbe {
    /// The pid that was probed.
    pub closed spec fn asked(&self) -> u32 {
        self.pid
    }

    /// What the process table said of it.
    pub closed spec fn answer(&self) -> ProcessObservation {
        self.seen
    }

    /// The pid that was probed.
    pub fn pid(&self) -> (r: u32)
        ensures
            r == self.asked(),
    {
        self.pid
    }

    /// What the process table said of it.
    pub fn seen(&self) -> (r: ProcessObservation)
        ensures
            r == self.answer(),
    {
        self.seen
    }
}

/// Reads what the process table says of `pid`. What it says is the machine's;
/// the probe records which pid was asked.
pub fn observe_process(pid: u32) -> (r: ProcessProbe)
    ensures
        r.asked() == pid,
{
    let seen = match system_with_all() {
        None => ProcessObservation::Unknown,
        Some(sys) => match find_process(&sys, pid) {
            None => ProcessObservation::Absent,
            Some(p) => ProcessObservation::StartedAt(process_start_time(p)),
        },
    };
    ProcessProbe { pid, seen }
}

/// `probes` fit the entries `s`: one per entry, a probe of the entry's own pid
/// for each active entry and none for a finished one.
pub open spec fn probes_fit(s: Seq<QueueEntry>, probes: Seq<Option<ProcessProbe>>) -> bool {
    &&& probes.len() == s.len()
    &&& forall|i: int| 0 <= i < s.len() ==> {
        &&& (#[trigger] probes[i] is Some <==> is_active(s[i]))
        &&& (probes[i] matches Some(p) ==> p.asked() == s[i].pid)
    }
}

/// Whether each entry of `s` still belongs to a live process, as `probes` say:
/// a finished entry (not probed) counts as alive.
pub open spec fn alive_from(s: Seq<QueueEntry>, probes: Seq<Option<ProcessProbe>>) -> Seq<bool> {
    Seq::new(
        s.len(),
        |i: int| match probes[i] {
            Some(p) => alive_given(p.answer(), s[i].process_start_time),
            None => true,
        },
    )
}

/// Whether a process observed as `obs` is alive and is the one that started at
/// `expected_start`.
pub fn is_alive_given(obs: ProcessObservation, expected_start: u64) -> (r: bool)
    ensures
        r == alive_given(obs, expected_start),
{
    match obs {
        ProcessObservation::Unknown => true,
        ProcessObservation::Absent => false,
        ProcessObservation::StartedAt(t) => start_times_close(t, expected_start),
    }
}

/// The start time that a process table answer reports: the process's start when
/// the table shows the process, 0 otherwise.
pub open spec fn reported_start_time(obs: ProcessObservation) -> u64 {
    match obs {
        ProcessObservation::StartedAt(t) => t,
        _ => 0,
    }
}

/// Whether the process `pid` is alive and started at `expected_start_time` (give
/// or take five seconds): `is_alive_given` of what a probe of `pid` says now.
pub fn is_process_alive(pid: u32, expected_start_time: u64) -> (r: bool)
    ensures
        exists|p: ProcessProbe| #[trigger] p.asked() == pid && r == alive_given(p.answer(), expected_start_time),
{
    let probe = observe_process(pid);
    is_alive_given(probe.seen(), expected_start_time)
}

/// Probes the process of each active entry, in order; finished entries are not probed.
pub fn probe_entries(state: &QueueState) -> (r: Vec<Option<ProcessProbe>>)
    ensures
        probes_fit(state.entries@, r@),
{
    let n = state.entries.len();
    let mut probes: Vec<Option<ProcessProbe>> = Vec::new();
    let mut i: usize = 0;
    while i < n
        invariant
            n == state.entries@.len(),
            i <= n,
            probes@.len() == i,
            forall|j: int| 0 <= j < i ==> {
                &&& (#[trigger] probes@[j] is Some <==> is_active(state.entries@[j]))
                &&& (probes@[j] matches Some(p) ==> p.asked() == state.entries@[j].pid)
            },
        decreases n - i,
    {
        let e = &state.entries[i];
        let probe = match e.status {
            EntryStatus::Pending | EntryStatus::Running => Some(observe_process(e.pid)),
            _ => None,
        };
        probes.push(probe);
        i = i + 1;
    }
    probes
}

/// Whether `probes` fit the entries of `state` (see `probes_fit`).
pub fn probes_match(state: &QueueState, probes: &Vec<Option<ProcessProbe>>) -> (r: bool)
    ensures
        r == probes_fit(state.entries@, probes@),
{
    let n = state.entries.len();
    if probes.len() != n {
        return false;
    }
    let mut i: usize = 0;
    while i < n
        invariant
            n == state.entries@.len(),
            n == probes@.len(),
            i <= n,
            forall|j: int| 0 <= j < i ==> {
                &&& (#[trigger] probes@[j] is Some <==> is_active(state.entries@[j]))
                &&& (probes@[j] matches Some(p) ==> p.asked() == state.entries@[j].pid)
            },
        decreases n - i,
    {
        let e = &state.entries[i];
        let active = match e.status {
            EntryStatus::Pending | EntryStatus::Running => true,
            _ => false,
        };
        let ok = match &probes[i] {
            Some(p) => active && p.pid() == e.pid,
            None => !active,
        };
        if !ok {
            return false;
        }
        i = i + 1;
    }
    true
}

/// Whether each entry of `state` still belongs to a live process, as `probes` say.
pub fn liveness(state: &QueueState, probes: &Vec<Option<ProcessProbe>>) -> (r: Vec<bool>)
    requires
        probes_fit(state.entries@, probes@),
    ensures
        r@ == alive_from(state.entries@, probes@),
{
    let n = state.entries.len();
    let mut alive: Vec<bool> = Vec::new();
    let mut i: usize = 0;
    while i < n
        invariant
            n == state.entries@.len(),
            probes_fit(state.entries@, probes@),
            i <= n,
            alive@ =~= alive_from(state.entries@, probes@).take(i as int),
        decreases n - i,
    {
        let a = match &probes[i] {
            Some(p) => is_alive_given(p.seen(), state.entries[i].process_start_time),
            None => true,
        };
        alive.push(a);
        i = i + 1;
    }
    alive
}

/// Removes the active entries whose process is dead, as `alive` says for each
/// entry, and gives them back in their order; the other entries stay in theirs.
pub fn take_stale_given(state: &mut QueueState, alive: &Vec<bool>) -> (removed: Vec<QueueEntry>)
    requires
        alive@.len() == old(state).entries@.len(),
    ensures
        final(state).entries@ == kept_entries(old(state).entries@, alive@),
        removed@ == stale_entries(old(state).entries@, alive@),
        same_but_entries(*final(state), *old(state)),
{
    let n = state.entries.len();
    let ghost orig = state.entries@;
    let mut kept: Vec<QueueEntry> = Vec::new();
    let mut gone: Vec<QueueEntry> = Vec::new();
    let mut i: usize = 0;
    while i < n
        invariant
            n == orig.len(),
            alive@.len() == n,
            state.entries@ == orig,
            i <= n,
            kept@ == kept_entries(orig.take(i as int), alive@.take(i as int)),
            gone@ == stale_entries(orig.take(i as int), alive@.take(i as int)),
        decreases n - i,
    {
        proof {
            assert(orig.take(i + 1).drop_last() =~= orig.take(i as int));
            assert(alive@.take(i + 1).take(i as int) =~= alive@.take(i as int));
        }
        let e = &state.entries[i];
        let active = match e.status {
            EntryStatus::Pending | EntryStatus::Running => true,
            _ => false,
        };
        if active && !alive[i] {
            gone.push(e.clone());
        } else {
            kept.push(e.clone());
        }
        i = i + 1;
    }
    proof {
        assert(orig.take(n as int) =~= orig);
        assert(alive@.take(n as int) =~= alive@);
    }
    let mut rest = kept;
    std::mem::swap(&mut state.entries, &mut rest);
    gone
}

/// Removes the active entries whose process is dead, as the probes of their
/// pids say, and gives them back in their order; the others stay in theirs.
pub fn take_stale_entries(state: &mut QueueState, probes: &Vec<Option<ProcessProbe>>) -> (removed: Vec<QueueEntry>)
    requires
        probes_fit(old(state).entries@, probes@),
    ensures
        final(state).entries@ == kept_entries(old(state).entries@, alive_from(old(state).entries@, probes@)),
        removed@ == stale_entries(old(state).entries@, alive_from(old(state).entries@, probes@)),
        same_but_entries(*final(state), *old(state)),
{
    let alive = liveness(state, probes);
    take_stale_given(state, &alive)
}

/// Removes the stale entries (active entries whose process is dead, as the probes
/// of their pids say) and says how many went.
pub fn cleanup_stale_entries(state: &mut QueueState, probes: &Vec<Option<ProcessProbe>>) -> (removed: usize)
    requires
        probes_fit(old(state).entries@, probes@),
    ensures
        final(state).entries@ == kept_entries(old(state).entries@, alive_from(old(state).entries@, probes@)),
        removed == stale_entries(old(state).entries@, alive_from(old(state).entries@, probes@)).len(),
        same_but_entries(*final(state), *old(state)),
{
    let gone = take_stale_entries(state, probes);
    gone.len()
}

/// Cleaning up splits the entries: every entry either stays or goes.
pub proof fn law_cleanup_splits_entries(s: Seq<QueueEntry>, alive: Seq<bool>)
    requires
        alive.len() == s.len(),
    ensures
        kept_entries(s, alive).len() + stale_entries(s, alive).len() == s.len(),
    decreases s.len(),
{
    if s.len() > 0 {
        law_cleanup_splits_entries(s.drop_last(), alive.take(s.len() - 1));
    }
}

/// Cleaning up never removes a finished entry, nor one whose process lives: what
/// goes is exactly the active entries with a dead process.
pub proof fn law_cleanup_removes_only_dead(s: Seq<QueueEntry>, alive: Seq<bool>)
    requires
        alive.len() == s.len(),
    ensures
        forall|e: QueueEntry| #[trigger] stale_entries(s, alive).contains(e) ==> is_active(e),
        forall|i: int| 0 <= i < s.len() && (!is_active(s[i]) || alive[i]) ==> #[trigger] kept_entries(s, alive).contains(s[i]),
    decreases s.len(),
{
    if s.len() > 0 {
        let s0 = s.drop_last();
        let a0 = alive.take(s.len() - 1);
        law_cleanup_removes_only_dead(s0, a0);
        let k0 = kept_entries(s0, a0);
        let g0 = stale_entries(s0, a0);
        assert forall|e: QueueEntry| #[trigger] stale_entries(s, alive).contains(e) implies is_active(e) by {
            if is_active(s.last()) && !alive[s.len() - 1] {
                assert(stale_entries(s, alive) == g0.push(s.last()));
                if e != s.last() {
                    let j = choose|j: int| 0 <= j < g0.push(s.last()).len() && g0.push(s.last())[j] == e;
                    assert(g0[j] == e);
                    assert(g0.contains(e));
                }
            } else {
                assert(stale_entries(s, alive) == g0);
                assert(g0.contains(e));
            }
        }
        assert forall|i: int| 0 <= i < s.len() && (!is_active(s[i]) || alive[i]) implies #[trigger] kept_entries(s, alive).contains(s[i]) by {
            if i < s.len() - 1 {
                assert(s0[i] == s[i]);
                assert(a0[i] == alive[i]);
                assert(k0.contains(s0[i]));
                let j = choose|j: int| 0 <= j < k0.len() && k0[j] == s0[i];
                if !(is_active(s.last()) && !alive[s.len() - 1]) {
                    assert(k0.push(s.last())[j] == s[i]);
                }
            } else {
                assert(k0.push(s.last())[k0.len() as int] == s[i]);
            }
        }
    }
}

/// The drift allowance is symmetric: which of the two times is the recorded one
/// does not matter.
pub proof fn law_start_time_match_symmetric(a: u64, b: u64)
    ensures
        start_times_match(a, b) == start_times_match(b, a),
{
}

/// Cleaning up keeps the queue's order: the entries that stay are entries of the
/// old queue, at increasing old positions, so none overtakes another.
pub proof fn law_cleanup_keeps_order(s: Seq<QueueEntry>, alive: Seq<bool>)
    requires
        alive.len() == s.len(),
    ensures
        exists|idx: Seq<int>| {
            &&& #[trigger] idx.len() == kept_entries(s, alive).len()
            &&& forall|k: int| 0 <= k < idx.len() ==> 0 <= #[trigger] idx[k] < s.len()
                && kept_entries(s, alive)[k] == s[idx[k]]
            &&& forall|k: int, l: int| 0 <= k < l < idx.len() ==> #[trigger] idx[k] < #[trigger] idx[l]
        },
    decreases s.len(),
{
    if s.len() == 0 {
        let idx = Seq::<int>::empty();
        assert(idx.len() == kept_entries(s, alive).len());
    } else {
        let s0 = s.drop_last();
        let a0 = alive.take(s.len() - 1);
        law_cleanup_keeps_order(s0, a0);
        let k0 = kept_entries(s0, a0);
        let idx0 = choose|idx: Seq<int>| {
            &&& #[trigger] idx.len() == k0.len()
            &&& forall|k: int| 0 <= k < idx.len() ==> 0 <= #[trigger] idx[k] < s0.len() && k0[k] == s0[idx[k]]
            &&& forall|k: int, l: int| 0 <= k < l < idx.len() ==> #[trigger] idx[k] < #[trigger] idx[l]
        };
        if is_active(s.last()) && !alive[s.len() - 1] {
            assert(kept_entries(s, alive) == k0);
            assert forall|k: int| 0 <= k < idx0.len() implies 0 <= #[trigger] idx0[k] < s.len()
                && kept_entries(s, alive)[k] == s[idx0[k]] by {
                assert(s0[idx0[k]] == s[idx0[k]]);
            }
            assert(idx0.len() == kept_entries(s, alive).len());
        } else {
            let idx = idx0.push(s.len() - 1);
            assert(kept_entries(s, alive) == k0.push(s.last()));
            assert forall|k: int| 0 <= k < idx.len() implies 0 <= #[trigger] idx[k] < s.len()
                && kept_entries(s, alive)[k] == s[idx[k]] by {
                if k < idx0.len() {
                    assert(idx[k] == idx0[k]);
                    assert(s0[idx0[k]] == s[idx0[k]]);
                }
            }
            assert forall|k: int, l: int| 0 <= k < l < idx.len() implies #[trigger] idx[k] < #[trigger] idx[l] by {
                if l < idx0.len() {
                    assert(idx[k] == idx0[k] && idx[l] == idx0[l]);
                } else {
                    assert(idx[k] == idx0[k]);
                }
            }
            assert(idx.len() == kept_entries(s, alive).len());
        }
    }
}

/// What an answer of the process table says of an entry's liveness: a process
/// the table does not show is dead; one that started within five seconds of the
/// recorded start is alive, one that started more than five seconds off (and
/// not so far that the difference wraps around) is another process, so the
/// entry is dead; when the table cannot be read, the entry counts as alive.
pub proof fn law_liveness_of_an_answer(t: u64, expected: u64)
    ensures
        !alive_given(ProcessObservation::Absent, expected),
        alive_given(ProcessObservation::Unknown, expected),
        (t <= expected + 5 && expected <= t + 5) ==> alive_given(ProcessObservation::StartedAt(t), expected),
        (t > expected + 5 && t - expected < 0x1_0000_0000_0000_0000 - 5) ==> !alive_given(
            ProcessObservation::StartedAt(t),
            expected,
        ),
        (expected > t + 5 && expected - t < 0x1_0000_0000_0000_0000 - 5) ==> !alive_given(
            ProcessObservation::StartedAt(t),
            expected,
        ),
{
}

} // verus!
