//! Explicit locks: who holds a queue, since when and why, whether the holder is
//! still alive, and when a release is granted.
use vstd::prelude::*;
use crate::error::QueueError;
use crate::platform::{find_process, refresh_process, system_empty};
use crate::state::{QueueState, clone_opt_string};
use crate::text::{dec_nat, push_str, push_u64, str_eq};

verus! {

/// An explicit lock on a queue, as stored beside the queue's state.
#[derive(Debug)]
pub struct LockInfo {
    pub queue_name: String,
    /// The token that releases the lock.
    pub token: String,
    pub reason: String,
    /// RFC 3339 time at which the lock was taken.
    pub locked_at: String,
    pub locked_by: Option<String>,
    /// The process that holds the lock.
    pub pid: u32,
}

impl Clone for LockInfo {
    fn clone(&self) -> (r: Self)
        ensures
            r == *self,
    {
        LockInfo {
            queue_name: self.queue_name.clone(),
            token: self.token.clone(),
            reason: self.reason.clone(),
            locked_at: self.locked_at.clone(),
            locked_by: clone_opt_string(&self.locked_by),
            pid: self.pid,
        }
    }
}

/// How a lock holder is named: `PID <pid>`.
pub open spec fn holder_text(pid: u32) -> Seq<char> {
    "PID "@ + dec_nat(pid as nat)
}

/// The explicit lock file of a queue, as read.
#[derive(Debug)]
pub enum LockRecord {
    /// There is no lock file.
    Missing,
    /// There is a lock file, but it does not read as a lock: it counts as a
    /// stale lock, which only a forced release clears.
    Unreadable,
    /// The lock that the file holds.
    Present(LockInfo),
}

/// What a release asks of the lock file `current` gives: `Ok` when there is a lock
/// file and the release is forced or carries that lock's token (an unreadable
/// file has no token, so only force releases it).
pub open spec fn release_outcome(current: LockRecord, token: Option<Seq<char>>, force: bool) -> Result<(), QueueError> {
    match current {
        LockRecord::Missing => Err(QueueError::QueueNotLocked),
        LockRecord::Unreadable => if force {
            Ok(())
        } else {
            Err(QueueError::InvalidToken)
        },
        LockRecord::Present(l) => if force || token == Some(l.token@) {
            Ok(())
        } else {
            Err(QueueError::InvalidToken)
        },
    }
}

/// Whether the process table still shows a process.
#[derive(Debug, Clone, Copy, PartialEq, Eq, Structural)]
pub enum ProcessPresence {
    /// The process table could not be read.
    Unknown,
    Absent,
    Present,
}

/// A lock is stale when its holder is known to be gone.
pub open spec fn stale_given(p: ProcessPresence) -> bool {
    p == ProcessPresence::Absent
}

impl LockInfo {
    /// The lock taken on `queue_name` for `reason` by process `pid` at `locked_at`,
    /// released by `token`; its holder is named `PID <pid>`.
    pub fn held_by(queue_name: String, reason: String, token: String, locked_at: String, pid: u32) -> (r: Self)
        ensures
            r.queue_name == queue_name,
            r.reason == reason,
            r.token == token,
            r.locked_at == locked_at,
            r.pid == pid,
            r.locked_by matches Some(b) && b@ == holder_text(pid),
    {
        let mut by = String::new();
        push_str(&mut by, "PID ");
        push_u64(&mut by, pid as u64);
        LockInfo { queue_name, token, reason, locked_at, locked_by: Some(by), pid }
    }
}

/// Whether the process table showed a pid, together with the pid that was asked.
/// Only `observe_presence` makes one, so the pid it carries is the one probed.
#[derive(Debug, Clone, Copy)]
pub struct PresenceProbe {
    pid: u32,
    seen: ProcessPresence,
}

impl PresenceProbe {
    /// The pid that was probed.
    pub closed spec fn asked(&self) -> u32 {
        self.pid
    }

    /// What the process table said of it.
    pub closed spec fn answer(&self) -> ProcessPresence {
        self.seen
    }

    /// The pid that was probed.
    pub fn pid(&self) -> (r: u32)
        ensures
            r == self.asked(),
    {
        self.pid
    }

    /// What the process table said of it.
    pub fn seen(&self) -> (r: ProcessPresence)
        ensures
            r == self.answer(),
    {
        self.seen
    }
}

/// Reads whether the process `pid` is still in the process table. What it says is
/// the machine's; the probe records which pid was asked.
pub fn observe_presence(pid: u32) -> (r: PresenceProbe)
    ensures
        r.asked() == pid,
{
    let seen = match system_empty() {
        None => ProcessPresence::Unknown,
        Some(mut sys) => {
            refresh_process(&mut sys, pid);
            match find_process(&sys, pid) {
                None => ProcessPresence::Absent,
                Some(_) => ProcessPresence::Present,
            }
        },
    };
    PresenceProbe { pid, seen }
}

/// Whether a lock whose holder was observed as `p` is stale: only a holder known
/// to be gone makes it so.
pub fn is_stale_given(p: ProcessPresence) -> (r: bool)
    ensures
        r == stale_given(p),
{
    match p {
        ProcessPresence::Absent => true,
        _ => false,
    }
}

/// Whether the lock's holder process is gone: `is_stale_given` of what the
/// process table says now (a table that cannot be read leaves the lock live).
pub fn is_lock_stale(lock_info: &LockInfo) -> (r: bool)
    ensures
        exists|p: PresenceProbe| #[trigger] p.asked() == lock_info.pid && r == stale_given(p.answer()),
{
    is_stale_given(observe_presence(lock_info.pid).seen())
}

/// The holder probe fits the lock file: a probe of the holder's pid for a lock
/// that reads, and none otherwise.
pub open spec fn holder_fits(rec: LockRecord, holder: Option<PresenceProbe>) -> bool {
    match rec {
        LockRecord::Present(l) => holder matches Some(h) && h.asked() == l.pid,
        _ => holder is None,
    }
}

/// Whether the lock of a lock file is stale: an unreadable file always is; a lock
/// that reads is when its holder's probe finds the holder gone.
pub open spec fn record_stale(rec: LockRecord, holder: Option<PresenceProbe>) -> bool {
    match rec {
        LockRecord::Present(_) => match holder {
            Some(h) => stale_given(h.answer()),
            None => false,
        },
        _ => true,
    }
}

/// Probes the holder of the lock that the file holds, if it reads.
pub fn probe_holder(rec: &LockRecord) -> (r: Option<PresenceProbe>)
    ensures
        holder_fits(*rec, r),
{
    match rec {
        LockRecord::Present(l) => Some(observe_presence(l.pid)),
        _ => None,
    }
}

/// Whether the lock of a lock file is stale, given the probe of its holder.
pub fn record_is_stale(rec: &LockRecord, holder: &Option<PresenceProbe>) -> (r: bool)
    ensures
        r == record_stale(*rec, *holder),
{
    match rec {
        LockRecord::Present(_) => match holder {
            Some(h) => is_stale_given(h.seen()),
            None => false,
        },
        _ => true,
    }
}

/// Whether a release with `token` (or forced) is granted on the lock file `current`.
pub fn release_decision(current: &LockRecord, token: Option<&str>, force: bool) -> (r: Result<(), QueueError>)
    ensures
        r == release_outcome(*current, match token { Some(t) => Some(t@), None => None }, force),
{
    match current {
        LockRecord::Missing => Err(QueueError::QueueNotLocked),
        LockRecord::Unreadable => if force {
            Ok(())
        } else {
            Err(QueueError::InvalidToken)
        },
        LockRecord::Present(l) => {
            let matches = match token {
                Some(t) => str_eq(t, l.token.as_str()),
                None => false,
            };
            if force || matches {
                Ok(())
            } else {
                Err(QueueError::InvalidToken)
            }
        },
    }
}

impl QueueState {
    /// Records, for a status report, the explicit lock `info` and whether its
    /// holder is gone.
    pub fn record_lock(&mut self, info: &LockInfo, stale: bool)
        ensures
            final(self).locked,
            final(self).lock_reason == Some(info.reason),
            final(self).lock_token == Some(info.token),
            final(self).locked_at == Some(info.locked_at),
            final(self).locked_by == info.locked_by,
            final(self).lock_pid == Some(info.pid),
            final(self).lock_stale == Some(stale),
            final(self).queue_name == old(self).queue_name,
            final(self).entries == old(self).entries,
            final(self).version == old(self).version,
            final(self).waiters == old(self).waiters,
    {
        self.locked = true;
        self.lock_reason = Some(info.reason.clone());
        self.lock_token = Some(info.token.clone());
        self.locked_at = Some(info.locked_at.clone());
        self.locked_by = clone_opt_string(&info.locked_by);
        self.lock_pid = Some(info.pid);
        self.lock_stale = Some(stale);
    }

    /// Records, for a status report, a lock file that does not read: the queue is
    /// locked by a stale lock of which nothing else is known.
    pub fn record_unreadable_lock(&mut self)
        ensures
            final(self).locked,
            final(self).lock_reason is None,
            final(self).lock_token is None,
            final(self).locked_at is None,
            final(self).locked_by is None,
            final(self).lock_pid is None,
            final(self).lock_stale == Some(true),
            final(self).queue_name == old(self).queue_name,
            final(self).entries == old(self).entries,
            final(self).version == old(self).version,
            final(self).waiters == old(self).waiters,
    {
        self.locked = true;
        self.lock_reason = None;
        self.lock_token = None;
        self.locked_at = None;
        self.locked_by = None;
        self.lock_pid = None;
        self.lock_stale = Some(true);
    }

    /// Records, for a status report, that there is no lock file: the queue is unlocked.
    pub fn record_no_lock(&mut self)
        ensures
            !final(self).locked,
            final(self).lock_reason is None,
            final(self).lock_token is None,
            final(self).locked_at is None,
            final(self).locked_by is None,
            final(self).lock_pid is None,
            final(self).lock_stale is None,
            final(self).queue_name == old(self).queue_name,
            final(self).entries == old(self).entries,
            final(self).version == old(self).version,
            final(self).waiters == old(self).waiters,
    {
        self.locked = false;
        self.lock_reason = None;
        self.lock_token = None;
        self.locked_at = None;
        self.locked_by = None;
        self.lock_pid = None;
        self.lock_stale = None;
    }
}

/// `after` reports the lock file `rec` (with its holder's probe): a lock that
/// reads with all its facts, an unreadable one as a stale lock, and no lock file
/// as an unlocked queue.
pub open spec fn reports_lock_record(after: QueueState, rec: LockRecord, holder: Option<PresenceProbe>) -> bool {
    match rec {
        LockRecord::Present(l) => {
            &&& after.locked
            &&& after.lock_reason == Some(l.reason)
            &&& after.lock_token == Some(l.token)
            &&& after.locked_at == Some(l.locked_at)
            &&& after.locked_by == l.locked_by
            &&& after.lock_pid == Some(l.pid)
            &&& after.lock_stale == Some(record_stale(rec, holder))
        },
        LockRecord::Unreadable => {
            &&& after.locked
            &&& after.lock_reason is None
            &&& after.lock_token is None
            &&& after.locked_at is None
            &&& after.locked_by is None
            &&& after.lock_pid is None
            &&& after.lock_stale == Some(true)
        },
        LockRecord::Missing => {
            &&& !after.locked
            &&& after.lock_reason is None
            &&& after.lock_token is None
            &&& after.locked_at is None
            &&& after.locked_by is None
            &&& after.lock_pid is None
            &&& after.lock_stale is None
        },
    }
}

/// A lock is released by its own token: whoever took it can give it back.
pub proof fn law_own_token_releases(l: LockInfo)
    ensures
        release_outcome(LockRecord::Present(l), Some(l.token@), false) is Ok,
{
}

/// A lock is kept against any other token: a release without force and without
/// the lock's token is refused as an invalid token, and the lock stays.
pub proof fn law_wrong_token_refused(l: LockInfo, token: Option<Seq<char>>)
    requires
        token != Some(l.token@),
    ensures
        release_outcome(LockRecord::Present(l), token, false) == Err::<(), QueueError>(QueueError::InvalidToken),
{
}

/// A forced release always succeeds on a locked queue, also when its lock file
/// does not read; nothing, not even force, releases a queue that is not locked.
pub proof fn law_force_and_unlocked(l: LockInfo, token: Option<Seq<char>>, force: bool)
    ensures
        release_outcome(LockRecord::Present(l), token, true) is Ok,
        release_outcome(LockRecord::Unreadable, token, true) is Ok,
        release_outcome(LockRecord::Missing, token, force) == Err::<(), QueueError>(QueueError::QueueNotLocked),
{
}

} // verus!
