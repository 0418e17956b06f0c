//! The persisted queue state (its entries), the waiters that stand in line for a
//! queue, and the rules of the waiter ticket files: their names, which of them
//! count, their order, and whose turn it is.
use vstd::prelude::*;
use vstd::multiset::Multiset;
use crate::text::{str_eq, pow10, fixed_digits, lex_lt_at, lemma_fixed_digits_order, lemma_lex_lt_extend, lemma_lex_lt_asymmetric, lex_lt, ends_with, pad20, push_pad20, push_char, push_str, str_lt, str_ends_with};

verus! {

/// Where a queue entry stands in its life.
#[derive(Debug, Clone, Copy, PartialEq, Eq, Structural)]
pub enum EntryStatus {
    Pending,
    Running,
    Completed,
    Failed,
    Cancelled,
}

/// A command in a queue, with the process that enqueued it.
#[derive(Debug)]
pub struct QueueEntry {
    pub id: String,
    pub command: String,
    pub status: EntryStatus,
    pub pid: u32,
    pub process_start_time: u64,
    /// RFC 3339 time of enqueueing.
    pub enqueued_at: String,
    pub started_at: Option<String>,
    pub completed_at: Option<String>,
    pub exit_code: Option<i32>,
}

/// A process standing in line for a queue, to run a command or to lock it.
#[derive(Debug)]
pub struct WaiterEntry {
    pub id: String,
    /// `"run"` or `"lock"`.
    pub command_type: String,
    /// The command, or the reason for a lock.
    pub command: String,
    pub pid: u32,
    /// RFC 3339 time at which the waiter joined the line.
    pub queued_at: String,
}

/// A queue's entries as stored, and the lock and waiter facts gathered for a
/// status report (these are not stored).
#[derive(Debug)]
pub struct QueueState {
    pub queue_name: String,
    pub entries: Vec<QueueEntry>,
    pub version: u32,
    pub locked: bool,
    pub lock_reason: Option<String>,
    pub lock_token: Option<String>,
    pub locked_at: Option<String>,
    pub locked_by: Option<String>,
    pub lock_pid: Option<u32>,
    pub lock_stale: Option<bool>,
    pub waiters: Vec<WaiterEntry>,
}

/// Copies an optional string.
pub fn clone_opt_string(o: &Option<String>) -> (r: Option<String>)
    ensures
        r == *o,
{
    match o {
        Some(s) => Some(s.clone()),
        None => None,
    }
}

impl Clone for QueueEntry {
    fn clone(&self) -> (r: Self)
        ensures
            r == *self,
    {
        QueueEntry {
            id: self.id.clone(),
            command: self.command.clone(),
            status: self.status,
            pid: self.pid,
            process_start_time: self.process_start_time,
            enqueued_at: self.enqueued_at.clone(),
            started_at: clone_opt_string(&self.started_at),
            completed_at: clone_opt_string(&self.completed_at),
            exit_code: self.exit_code,
        }
    }
}

impl Clone for WaiterEntry {
    fn clone(&self) -> (r: Self)
        ensures
            r == *self,
    {
        WaiterEntry {
            id: self.id.clone(),
            command_type: self.command_type.clone(),
            command: self.command.clone(),
            pid: self.pid,
            queued_at: self.queued_at.clone(),
        }
    }
}

/// Everything but the entries is the same in `a` and `b`.
pub open spec fn same_but_entries(a: QueueState, b: QueueState) -> bool {
    &&& a.queue_name == b.queue_name
    &&& a.version == b.version
    &&& a.locked == b.locked
    &&& a.lock_reason == b.lock_reason
    &&& a.lock_token == b.lock_token
    &&& a.locked_at == b.locked_at
    &&& a.locked_by == b.locked_by
    &&& a.lock_pid == b.lock_pid
    &&& a.lock_stale == b.lock_stale
    &&& a.waiters == b.waiters
}

/// The entries of `s` whose id is not `id`, in their order.
pub open spec fn entries_without(s: Seq<QueueEntry>, id: Seq<char>) -> Seq<QueueEntry> {
    s.filter(|e: QueueEntry| e.id@ != id)
}

/// The position of the first entry of `s` with id `id`, if there is one.
pub open spec fn first_with_id(s: Seq<QueueEntry>, id: Seq<char>, k: int) -> bool {
    &&& 0 <= k < s.len()
    &&& s[k].id@ == id
    &&& forall|j: int| 0 <= j < k ==> s[j].id@ != id
}

/// The number of entries from which the queue warns of a long wait.
pub const HIGH_QUEUE_DEPTH: usize = 100;

impl QueueEntry {
    /// A pending entry with the given identity and no start, end or exit code yet.
    pub fn pending(id: String, command: String, pid: u32, process_start_time: u64, enqueued_at: String) -> (r: Self)
        ensures
            r.id == id,
            r.command == command,
            r.status == EntryStatus::Pending,
            r.pid == pid,
            r.process_start_time == process_start_time,
            r.enqueued_at == enqueued_at,
            r.started_at.is_none(),
            r.completed_at.is_none(),
            r.exit_code.is_none(),
    {
        QueueEntry {
            id,
            command,
            status: EntryStatus::Pending,
            pid,
            process_start_time,
            enqueued_at,
            started_at: None,
            completed_at: None,
            exit_code: None,
        }
    }
}

impl QueueState {
    /// An empty queue of the given name, at format version 1, unlocked, with no waiters.
    pub fn new(queue_name: String) -> (r: Self)
        ensures
            r.queue_name == queue_name,
            r.entries@.len() == 0,
            r.version == 1,
            !r.locked,
            r.lock_reason.is_none(),
            r.lock_token.is_none(),
            r.locked_at.is_none(),
            r.locked_by.is_none(),
            r.lock_pid.is_none(),
            r.lock_stale.is_none(),
            r.waiters@.len() == 0,
    {
        QueueState {
            queue_name,
            entries: Vec::new(),
            version: 1,
            locked: false,
            lock_reason: None,
            lock_token: None,
            locked_at: None,
            locked_by: None,
            lock_pid: None,
            lock_stale: None,
            waiters: Vec::new(),
        }
    }

    /// What is stored of the state: its name, version and entries; the lock and
    /// waiter facts of a status report are left out.
    pub fn stored_part(&self) -> (r: Self)
        ensures
            r.queue_name == self.queue_name,
            r.version == self.version,
            r.entries@ == self.entries@,
            !r.locked,
            r.lock_reason.is_none(),
            r.lock_token.is_none(),
            r.locked_at.is_none(),
            r.locked_by.is_none(),
            r.lock_pid.is_none(),
            r.lock_stale.is_none(),
            r.waiters@.len() == 0,
    {
        let mut r = QueueState::new(self.queue_name.clone());
        r.version = self.version;
        let n = self.entries.len();
        let mut i: usize = 0;
        while i < n
            invariant
                n == self.entries@.len(),
                i <= n,
                r.entries@ == self.entries@.take(i as int),
                r.queue_name == self.queue_name,
                r.version == self.version,
                !r.locked,
                r.lock_reason.is_none(),
                r.lock_token.is_none(),
                r.locked_at.is_none(),
                r.locked_by.is_none(),
                r.lock_pid.is_none(),
                r.lock_stale.is_none(),
                r.waiters@.len() == 0,
            decreases n - i,
        {
            r.entries.push(self.entries[i].clone());
            assert(self.entries@.take(i + 1) =~= self.entries@.take(i as int).push(self.entries@[i as int]));
            i = i + 1;
        }
        assert(self.entries@.take(n as int) =~= self.entries@);
        r
    }

    /// Appends an entry at the end of the queue.
    pub fn enqueue(&mut self, entry: QueueEntry)
        ensures
            final(self).entries@ == old(self).entries@.push(entry),
            same_but_entries(*final(self), *old(self)),
    {
        self.entries.push(entry);
    }

    /// Whether the queue holds so many entries that a long wait is likely.
    pub fn depth_is_high(&self) -> (r: bool)
        ensures
            r == (self.entries@.len() >= HIGH_QUEUE_DEPTH),
    {
        self.entries.len() >= HIGH_QUEUE_DEPTH
    }

    /// Whether the first entry of the queue has id `id`.
    pub fn first_entry_is(&self, id: &str) -> (r: bool)
        ensures
            r == (self.entries@.len() > 0 && self.entries@[0].id@ == id@),
    {
        if self.entries.len() == 0 {
            false
        } else {
            str_eq(self.entries[0].id.as_str(), id)
        }
    }

    /// Removes every entry with id `id`, keeping the others in their order.
    pub fn remove_entry(&mut self, id: &str)
        ensures
            final(self).entries@ == entries_without(old(self).entries@, id@),
            same_but_entries(*final(self), *old(self)),
    {
        let mut kept: Vec<QueueEntry> = Vec::new();
        let n = self.entries.len();
        let ghost orig = self.entries@;
        let mut i: usize = 0;
        while i < n
            invariant
                n == orig.len(),
                self.entries@ == orig,
                i <= n,
                kept@ == entries_without(orig.take(i as int), id@),
            decreases n - i,
        {
            reveal_with_fuel(Seq::filter, 1);
            assert(orig.take(i + 1).drop_last() =~= orig.take(i as int));
            if !str_eq(self.entries[i].id.as_str(), id) {
                kept.push(self.entries[i].clone());
            }
            i = i + 1;
        }
        assert(orig.take(n as int) =~= orig);
        self.entries = kept;
    }

    /// Marks the first entry with id `id` as running since `started_at`, and gives
    /// back that entry as it now is; `None`, with nothing changed, when no entry
    /// has that id.
    pub fn mark_running(&mut self, id: &str, started_at: String) -> (r: Option<QueueEntry>)
        ensures
            same_but_entries(*final(self), *old(self)),
            match r {
                Some(e) => exists|k: int| {
                    &&& #[trigger] first_with_id(old(self).entries@, id@, k)
                    &&& e == QueueEntry {
                        status: EntryStatus::Running,
                        started_at: Some(started_at),
                        ..old(self).entries@[k]
                    }
                    &&& final(self).entries@ == old(self).entries@.update(k, e)
                },
                None => {
                    &&& forall|k: int| 0 <= k < old(self).entries@.len() ==> old(self).entries@[k].id@ != id@
                    &&& final(self).entries@ == old(self).entries@
                },
            },
    {
        let n = self.entries.len();
        let mut i: usize = 0;
        while i < n
            invariant
                n == self.entries@.len(),
                *self == *old(self),
                i <= n,
                forall|j: int| 0 <= j < i ==> self.entries@[j].id@ != id@,
            decreases n - i,
        {
            if str_eq(self.entries[i].id.as_str(), id) {
                let ghost before = self.entries@;
                let mut e = self.entries[i].clone();
                e.status = EntryStatus::Running;
                e.started_at = Some(started_at);
                let out = e.clone();
                self.entries.set(i, e);
                assert(first_with_id(before, id@, i as int));
                return Some(out);
            }
            i = i + 1;
        }
        None
    }
}

/// `.json`
pub open spec fn json_suffix() -> Seq<char> {
    seq!['.', 'j', 's', 'o', 'n']
}

/// The file name of the waiter ticket made at `timestamp_nanos` for waiter `id`:
/// the time zero-padded to twenty characters, a dash, the id, `.json`. The fixed
/// width makes the names sort as the times do.
pub open spec fn ticket_name(timestamp_nanos: int, id: Seq<char>) -> Seq<char> {
    pad20(timestamp_nanos) + seq!['-'] + id + json_suffix()
}

/// A file name whose extension is `json`: it ends with `.json`, and something
/// stands before that dot (a name like `.json` has no extension).
pub open spec fn is_json_name(name: Seq<char>) -> bool {
    name.len() > json_suffix().len() && ends_with(name, json_suffix())
}

/// The ticket file names among `names`: those with the `json` extension, in their order.
pub open spec fn ticket_names(names: Seq<Seq<char>>) -> Seq<Seq<char>> {
    names.filter(|n: Seq<char>| is_json_name(n))
}

/// The characters of each string.
pub open spec fn views(s: Seq<String>) -> Seq<Seq<char>> {
    s.map_values(|x: String| x@)
}

/// `mine` is among `names` and no name there comes before it: the ticket whose
/// turn it is.
pub open spec fn first_in_line(names: Seq<Seq<char>>, mine: Seq<char>) -> bool {
    &&& names.contains(mine)
    &&& forall|i: int| 0 <= i < names.len() ==> !lex_lt(#[trigger] names[i], mine)
}

/// `s` is in order: no name comes before one that stands ahead of it.
pub open spec fn is_ordered(s: Seq<Seq<char>>) -> bool {
    forall|i: int, j: int| 0 <= i < j < s.len() ==> !lex_lt(#[trigger] s[j], #[trigger] s[i])
}

/// The file name of a waiter ticket for waiter `id`, made at `timestamp_nanos`.
pub fn ticket_file_name(timestamp_nanos: i64, id: &str) -> (r: String)
    ensures
        r@ == ticket_name(timestamp_nanos as int, id@),
{
    let mut s = String::new();
    push_pad20(&mut s, timestamp_nanos);
    push_char(&mut s, '-');
    push_str(&mut s, id);
    push_str(&mut s, ".json");
    proof {
        reveal_strlit(".json");
        assert(s@ =~= ticket_name(timestamp_nanos as int, id@));
    }
    s
}

/// Whether the file name `name` has the extension `json`.
pub fn has_json_extension(name: &str) -> (r: bool)
    ensures
        r == is_json_name(name@),
{
    proof {
        reveal_strlit(".json");
        assert(".json"@ =~= json_suffix());
    }
    name.unicode_len() > 5 && str_ends_with(name, ".json")
}

/// Whether the ticket file `name` belongs to waiter `id`: it ends with the dash,
/// the id and `.json`.
pub fn ticket_matches_id(name: &str, id: &str) -> (r: bool)
    ensures
        r == ends_with(name@, seq!['-'] + id@ + json_suffix()),
{
    let mut suffix = String::new();
    push_char(&mut suffix, '-');
    push_str(&mut suffix, id);
    push_str(&mut suffix, ".json");
    proof {
        reveal_strlit(".json");
        assert(suffix@ =~= seq!['-'] + id@ + json_suffix());
    }
    str_ends_with(name, suffix.as_str())
}

/// The ticket names among `names` (those with the `json` extension), in their order.
pub fn select_ticket_names(names: &Vec<String>) -> (r: Vec<String>)
    ensures
        views(r@) == ticket_names(views(names@)),
{
    let mut out: Vec<String> = Vec::new();
    let n = names.len();
    let mut i: usize = 0;
    while i < n
        invariant
            n == names@.len(),
            i <= n,
            views(out@) == ticket_names(views(names@).take(i as int)),
        decreases n - i,
    {
        reveal_with_fuel(Seq::filter, 1);
        assert(views(names@).take(i + 1).drop_last() =~= views(names@).take(i as int));
        assert(views(names@).take(i + 1).last() == names@[i as int]@);
        if has_json_extension(names[i].as_str()) {
            out.push(names[i].clone());
            assert(views(out@) =~= views(names@).take(i as int).filter(|n: Seq<char>| is_json_name(n)).push(names@[i as int]@));
        }
        i = i + 1;
    }
    assert(views(names@).take(n as int) =~= views(names@));
    out
}

/// Whether it is the turn of the waiter whose ticket file is named `mine`, given
/// the names of the files in the waiters' directory: the turn goes to the first
/// ticket in name order, and to everyone when there is no ticket at all.
pub fn is_my_turn(names: &Vec<String>, mine: &str) -> (r: bool)
    ensures
        r == (ticket_names(views(names@)).len() == 0 || first_in_line(ticket_names(views(names@)), mine@)),
{
    let tickets = select_ticket_names(names);
    let ghost t = views(tickets@);
    let n = tickets.len();
    if n == 0 {
        return true;
    }
    let mut found = false;
    let mut i: usize = 0;
    while i < n
        invariant
            n == tickets@.len(),
            t == views(tickets@),
            t == ticket_names(views(names@)),
            i <= n,
            found == views(tickets@).take(i as int).contains(mine@),
            forall|j: int| 0 <= j < i ==> !lex_lt(#[trigger] t[j], mine@),
        decreases n - i,
    {
        proof {
            broadcast use vstd::seq_lib::group_seq_properties;
            assert(views(tickets@).take(i + 1) =~= views(tickets@).take(i as int).push(tickets@[i as int]@));
        }
        if str_lt(tickets[i].as_str(), mine) {
            proof {
                assert(t[i as int] == tickets@[i as int]@);
                assert(lex_lt(t[i as int], mine@));
            }
            return false;
        }
        if str_eq(tickets[i].as_str(), mine) {
            found = true;
        }
        i = i + 1;
    }
    assert(views(tickets@).take(n as int) =~= t);
    found
}

/// The position of a name in `s` that no other name of `s` comes before.
fn position_of_first(s: &Vec<String>) -> (k: usize)
    requires
        s@.len() > 0,
    ensures
        k < s@.len(),
        forall|j: int| 0 <= j < s@.len() ==> !lex_lt(#[trigger] s@[j]@, s@[k as int]@),
{
    let n = s.len();
    let mut best: usize = 0;
    let mut j: usize = 1;
    proof {
        crate::text::lemma_lex_lt_asymmetric(s@[0]@, s@[0]@);
    }
    while j < n
        invariant
            n == s@.len(),
            1 <= j <= n,
            best < j,
            forall|i: int| 0 <= i < j ==> !lex_lt(#[trigger] s@[i]@, s@[best as int]@),
        decreases n - j,
    {
        if str_lt(s[j].as_str(), s[best].as_str()) {
            proof {
                assert forall|i: int| 0 <= i < j + 1 implies !lex_lt(#[trigger] s@[i]@, s@[j as int]@) by {
                    if i == j {
                        crate::text::lemma_lex_lt_asymmetric(s@[i]@, s@[i]@);
                    } else if lex_lt(s@[i]@, s@[j as int]@) {
                        crate::text::lemma_lex_lt_transitive(s@[i]@, s@[j as int]@, s@[best as int]@);
                    }
                }
            }
            best = j;
        }
        j = j + 1;
    }
    best
}

/// The ticket names among `names` (those with the `json` extension) in name order:
/// the order in which their waiters stand in line.
pub fn order_ticket_names(names: &Vec<String>) -> (r: Vec<String>)
    ensures
        views(r@).to_multiset() == ticket_names(views(names@)).to_multiset(),
        is_ordered(views(r@)),
{
    broadcast use vstd::seq_lib::group_to_multiset_ensures;

    let mut rest = select_ticket_names(names);
    let ghost all = views(rest@);
    let mut out: Vec<String> = Vec::new();
    while rest.len() > 0
        invariant
            all == ticket_names(views(names@)),
            views(out@).to_multiset().add(views(rest@).to_multiset()) == all.to_multiset(),
            is_ordered(views(out@)),
            forall|a: int, b: int|
                0 <= a < out@.len() && 0 <= b < rest@.len() ==> !lex_lt(
                    #[trigger] rest@[b]@,
                    #[trigger] out@[a]@,
                ),
        decreases rest@.len(),
    {
        let k = position_of_first(&rest);
        let ghost before_rest = rest@;
        let ghost before_out = out@;
        let m = rest.remove(k);
        proof {
            assert(views(rest@) =~= views(before_rest).remove(k as int));
            assert(views(before_rest)[k as int] == m@);
        }
        out.push(m);
        proof {
            assert(views(out@) =~= views(before_out).push(m@));
            let vr = views(before_rest);
            let vo = views(before_out);
            assert(views(rest@).to_multiset() == vr.to_multiset().remove(m@)) by {
                vstd::seq_lib::to_multiset_remove(vr, k as int);
            }
            assert(views(out@).to_multiset() == vo.to_multiset().insert(m@)) by {
                vstd::seq_lib::to_multiset_build(vo, m@);
            }
            assert(vr.to_multiset().count(m@) > 0) by {
                vstd::seq_lib::to_multiset_contains(vr, m@);
                assert(vr[k as int] == m@);
                assert(vr.contains(m@));
            }
            broadcast use vstd::multiset::group_multiset_axioms;
            assert(views(out@).to_multiset().add(views(rest@).to_multiset()) =~= all.to_multiset());
            assert forall|i: int, j: int| 0 <= i < j < views(out@).len() implies !lex_lt(
                #[trigger] views(out@)[j],
                #[trigger] views(out@)[i],
            ) by {
                if j == before_out.len() {
                    assert(views(out@)[j] == before_rest[k as int]@);
                    assert(views(out@)[i] == out@[i]@);
                    assert(out@[i] == before_out[i]);
                } else {
                    assert(views(before_out)[j] == views(out@)[j]);
                    assert(views(before_out)[i] == views(out@)[i]);
                }
            }
            assert forall|a: int, b: int|
                0 <= a < out@.len() && 0 <= b < rest@.len() implies !lex_lt(
                    #[trigger] rest@[b]@,
                    #[trigger] out@[a]@,
                ) by {
                let bb = if b < k { b } else { b + 1 };
                assert(rest@[b] == before_rest[bb]);
                if a < before_out.len() {
                    assert(out@[a] == before_out[a]);
                }
            }
        }
    }
    proof {
        assert(views(rest@).to_multiset() =~= Multiset::empty());
        assert(views(out@).to_multiset().add(Multiset::empty()) =~= views(out@).to_multiset());
    }
    out
}

/// Tickets keep arrival order: a ticket made at an earlier (non-negative) time has
/// a name that sorts before that of a ticket made later, whatever the two ids.
pub proof fn law_ticket_names_follow_time(ta: int, ida: Seq<char>, tb: int, idb: Seq<char>)
    requires
        0 <= ta < tb <= i64::MAX,
    ensures
        lex_lt(ticket_name(ta, ida), ticket_name(tb, idb)),
{
    reveal_with_fuel(pow10, 21);
    assert(tb < pow10(20));
    lemma_fixed_digits_order(ta as nat, tb as nat, 20);
    let a = fixed_digits(ta as nat, 20);
    let b = fixed_digits(tb as nat, 20);
    let i = choose|i: int| 0 <= i < 20 && #[trigger] lex_lt_at(a, b, i);
    let p = seq!['-'] + ida + json_suffix();
    let q = seq!['-'] + idb + json_suffix();
    lemma_lex_lt_extend(a, b, i, p, q);
    assert(ticket_name(ta, ida) =~= a + p);
    assert(ticket_name(tb, idb) =~= b + q);
}

/// Every ticket name carries the `json` extension, so it is counted as a ticket.
pub proof fn law_ticket_name_is_counted(t: int, id: Seq<char>)
    ensures
        is_json_name(ticket_name(t, id)),
{
    let n = ticket_name(t, id);
    assert(n.subrange(n.len() - 5, n.len() as int) =~= json_suffix());
}

/// Only one waiter has its turn: two names that are both first in line are the same.
pub proof fn law_one_turn_at_a_time(names: Seq<Seq<char>>, a: Seq<char>, b: Seq<char>)
    requires
        first_in_line(names, a),
        first_in_line(names, b),
    ensures
        a == b,
{
    if a != b {
        let i = choose|i: int| 0 <= i < names.len() && names[i] == a;
        let j = choose|j: int| 0 <= j < names.len() && names[j] == b;
        assert(!lex_lt(names[i], b));
        assert(!lex_lt(names[j], a));
        crate::text::lemma_lex_lt_total(a, b);
    }
}

/// First come, first served: while the ticket of an earlier arrival is still in
/// line, a later arrival does not have its turn.
pub proof fn law_later_ticket_waits(names: Seq<Seq<char>>, ta: int, ida: Seq<char>, tb: int, idb: Seq<char>)
    requires
        0 <= ta < tb <= i64::MAX,
        names.contains(ticket_name(ta, ida)),
    ensures
        !first_in_line(names, ticket_name(tb, idb)),
{
    law_ticket_names_follow_time(ta, ida, tb, idb);
    let i = choose|i: int| 0 <= i < names.len() && names[i] == ticket_name(ta, ida);
    assert(lex_lt(names[i], ticket_name(tb, idb)));
}

/// The turn goes as sorting would give it: when the ticket names are put in
/// order, the waiter whose ticket heads that order is the one whose turn it is.
pub proof fn law_turn_is_head_of_order(names: Seq<Seq<char>>, ordered: Seq<Seq<char>>, mine: Seq<char>)
    requires
        ordered.to_multiset() == ticket_names(names).to_multiset(),
        is_ordered(ordered),
        ordered.len() > 0,
    ensures
        first_in_line(ticket_names(names), mine) <==> ordered[0] == mine,
{
    let t = ticket_names(names);
    vstd::seq_lib::to_multiset_contains(ordered, mine);
    vstd::seq_lib::to_multiset_contains(t, mine);
    vstd::seq_lib::to_multiset_contains(ordered, ordered[0]);
    vstd::seq_lib::to_multiset_contains(t, ordered[0]);
    assert(ordered.contains(ordered[0]));
    if ordered[0] == mine {
        assert forall|i: int| 0 <= i < t.len() implies !lex_lt(#[trigger] t[i], mine) by {
            vstd::seq_lib::to_multiset_contains(t, t[i]);
            vstd::seq_lib::to_multiset_contains(ordered, t[i]);
            assert(t.contains(t[i]));
            let j = choose|j: int| 0 <= j < ordered.len() && ordered[j] == t[i];
            if j == 0 {
                lemma_lex_lt_asymmetric(mine, mine);
            } else {
                assert(!lex_lt(ordered[j], ordered[0]));
            }
        }
    }
    if first_in_line(t, mine) {
        let j = choose|j: int| 0 <= j < ordered.len() && ordered[j] == mine;
        let i = choose|i: int| 0 <= i < t.len() && t[i] == ordered[0];
        assert(!lex_lt(t[i], mine));
        if j > 0 {
            assert(!lex_lt(ordered[j], ordered[0]));
            if ordered[0] != mine {
                crate::text::lemma_lex_lt_total(ordered[0], mine);
            }
        }
    }
}

} // verus!
