//! Where a queue's files lie in its state directory, and why two queues that
//! share a directory never share a file: a queue name is one plain path
//! component without a dot, and every file kind has its own suffix.
use vstd::prelude::*;
use crate::platform::{is_path_boundary, is_plain_name, joined_path, joins_as, plain_dir};

verus! {

/// A name that can stand for a queue in a path: not empty, and holding no path
/// boundary character, no dot and no `?`.
pub open spec fn plain_queue_name(n: Seq<char>) -> bool {
    &&& n.len() > 0
    &&& forall|i: int| 0 <= i < n.len() ==> !is_path_boundary(#[trigger] n[i]) && n[i] != '.' && n[i] != '?'
}

/// The files of a queue.
#[derive(Debug, Clone, Copy, PartialEq, Eq, Structural)]
pub enum QueueFile {
    /// `<name>.state.json`: the entries.
    State,
    /// `<name>.state.lock`: locked while the entries are read or written.
    StateLock,
    /// `<name>.lock`: locked while a command runs.
    ExecLock,
    /// `<name>.lock.json`: the explicit lock.
    LockInfo,
    /// `<name>/waiters`: the directory of the waiters' tickets.
    Waiters,
}

/// The suffix that follows the queue name in the name of a file that lies
/// directly in the state directory.
pub open spec fn file_suffix(k: QueueFile) -> Seq<char> {
    match k {
        QueueFile::State => ".state.json"@,
        QueueFile::StateLock => ".state.lock"@,
        QueueFile::ExecLock => ".lock"@,
        QueueFile::LockInfo => ".lock.json"@,
        QueueFile::Waiters => Seq::empty(),
    }
}

/// The path of the file `k` of queue `n` in the state directory `d`.
pub open spec fn queue_path(d: Seq<char>, n: Seq<char>, k: QueueFile) -> Seq<char> {
    match k {
        QueueFile::Waiters => joined_path(joined_path(d, n), "waiters"@),
        _ => joined_path(d, n + file_suffix(k)),
    }
}

/// The path of the file `k` of queue `n` is built by the joins it is named by:
/// each appends its name to the directory, after a separator or directly.
pub open spec fn path_shaped(d: Seq<char>, n: Seq<char>, k: QueueFile) -> bool {
    match k {
        QueueFile::Waiters => {
            &&& joins_as(joined_path(d, n), d, n)
            &&& joins_as(queue_path(d, n, k), joined_path(d, n), "waiters"@)
        },
        _ => joins_as(queue_path(d, n, k), d, n + file_suffix(k)),
    }
}

/// A plain queue name followed by a suffix without path boundaries is a plain name.
pub proof fn lemma_plain_file(n: Seq<char>, suffix: Seq<char>)
    requires
        plain_queue_name(n),
        forall|i: int| 0 <= i < suffix.len() ==> !is_path_boundary(#[trigger] suffix[i]),
    ensures
        is_plain_name(n + suffix),
{
    assert forall|i: int| 0 <= i < (n + suffix).len() implies !is_path_boundary(#[trigger] (n + suffix)[i]) by {
        if i >= n.len() {
            assert((n + suffix)[i] == suffix[i - n.len()]);
        }
    }
}

/// One join of a directory gives different paths for different plain names.
proof fn lemma_join_file_injective(p: Seq<char>, d: Seq<char>, f1: Seq<char>, f2: Seq<char>)
    requires
        joins_as(p, d, f1),
        joins_as(p, d, f2),
        is_plain_name(f1),
        is_plain_name(f2),
    ensures
        f1 == f2,
{
    let l = d.len() as int;
    if p == d + f1 {
        assert(p[l] == f1[0]);
        if p == d + f2 {
            assert(f1 =~= p.subrange(l, p.len() as int));
            assert(f2 =~= p.subrange(l, p.len() as int));
        } else {
            assert(p[l] == (d + seq![p[l]] + f2)[l]);
            assert(!is_path_boundary(f1[0]));
        }
    } else {
        assert(is_path_boundary(p[l]));
        if p == d + f2 {
            assert(p[l] == f2[0]);
            assert(!is_path_boundary(f2[0]));
        } else {
            assert forall|i: int| 0 <= i < f1.len() implies f1[i] == p[l + 1 + i] by {
                assert(p[l + 1 + i] == (d + seq![p[l]] + f1)[l + 1 + i]);
            }
            assert forall|i: int| 0 <= i < f2.len() implies f2[i] == p[l + 1 + i] by {
                assert(p[l + 1 + i] == (d + seq![p[l]] + f2)[l + 1 + i]);
            }
            assert(f1 =~= f2);
        }
    }
}

/// Joining one name to two directories that end with a character other than a
/// path boundary gives the same path only for the same directory.
proof fn lemma_join_dir_injective(p: Seq<char>, q1: Seq<char>, q2: Seq<char>, f: Seq<char>)
    requires
        joins_as(p, q1, f),
        joins_as(p, q2, f),
        q1.len() > 0 && !is_path_boundary(q1.last()),
        q2.len() > 0 && !is_path_boundary(q2.last()),
    ensures
        q1 == q2,
{
    let m = p.len() - f.len();
    let u = p.subrange(0, m);
    let sep1 = !(p == q1 + f);
    let sep2 = !(p == q2 + f);
    if sep1 {
        assert(u =~= q1 + seq![p[q1.len() as int]]);
        assert(is_path_boundary(u.last()));
    } else {
        assert(u =~= q1);
        assert(!is_path_boundary(u.last()));
    }
    if sep2 {
        assert(u =~= q2 + seq![p[q2.len() as int]]);
        assert(is_path_boundary(u.last()));
        assert(q2 =~= u.drop_last());
    } else {
        assert(u =~= q2);
    }
    if sep1 {
        assert(q1 =~= u.drop_last());
    }
    assert(q1 =~= q2);
}

/// A queue name followed by a suffix that begins with a dot splits there again.
proof fn lemma_split_at_dot(n1: Seq<char>, s1: Seq<char>, n2: Seq<char>, s2: Seq<char>)
    requires
        plain_queue_name(n1),
        plain_queue_name(n2),
        s1.len() > 0 && s1[0] == '.',
        s2.len() > 0 && s2[0] == '.',
        n1 + s1 == n2 + s2,
    ensures
        n1 == n2,
        s1 == s2,
{
    let t = n1 + s1;
    if n1.len() < n2.len() {
        assert(t[n1.len() as int] == s1[0]);
        assert(t[n1.len() as int] == (n2 + s2)[n1.len() as int]);
        assert(n2[n1.len() as int] != '.');
    } else if n2.len() < n1.len() {
        assert((n2 + s2)[n2.len() as int] == s2[0]);
        assert(t[n2.len() as int] == n1[n2.len() as int]);
        assert(n1[n2.len() as int] != '.');
    }
    assert(n1 =~= t.subrange(0, n1.len() as int));
    assert(n2 =~= (n2 + s2).subrange(0, n2.len() as int));
    assert(s1 =~= t.subrange(n1.len() as int, t.len() as int));
    assert(s2 =~= (n2 + s2).subrange(n2.len() as int, t.len() as int));
}

/// The suffixes of the files that lie directly in the state directory differ, and
/// each begins with a dot and holds no path boundary.
proof fn lemma_file_suffixes(k1: QueueFile, k2: QueueFile)
    requires
        k1 != QueueFile::Waiters,
        k2 != QueueFile::Waiters,
    ensures
        file_suffix(k1).len() > 0 && file_suffix(k1)[0] == '.',
        forall|i: int| 0 <= i < file_suffix(k1).len() ==> !is_path_boundary(#[trigger] file_suffix(k1)[i]),
        file_suffix(k1).last() == 'n' || file_suffix(k1).last() == 'k',
        file_suffix(k1) == file_suffix(k2) ==> k1 == k2,
{
    reveal_strlit(".state.json");
    reveal_strlit(".state.lock");
    reveal_strlit(".lock");
    reveal_strlit(".lock.json");
    if file_suffix(k1) == file_suffix(k2) && k1 != k2 {
        let a = file_suffix(k1);
        let b = file_suffix(k2);
        assert(a.len() == b.len());
        assert(a[7] == b[7]);
        assert(a[6] == b[6]);
    }
}

/// The path of a queue file ends with the last character of what was joined last.
proof fn lemma_path_last(p: Seq<char>, d: Seq<char>, f: Seq<char>)
    requires
        joins_as(p, d, f),
        f.len() > 0,
    ensures
        p.len() > 0 && p.last() == f.last(),
{
    if p == d + f {
        assert(p[p.len() - 1] == f[f.len() - 1]);
    } else {
        assert(p[p.len() - 1] == (d + seq![p[d.len() as int]] + f)[p.len() - 1]);
    }
}

/// Queues stay apart: in one state directory, the files of two queues (the
/// entries, the state lock, the execution lock, the explicit lock and the
/// waiters' directory) lie at the same path only when they are the same file of
/// the same queue. This holds of every path built as the path functions build
/// theirs (`path_shaped`), for plain queue names and a directory without a
/// Windows verbatim prefix.
pub proof fn law_queue_files_are_isolated(d: Seq<char>, n1: Seq<char>, k1: QueueFile, n2: Seq<char>, k2: QueueFile)
    requires
        plain_dir(d),
        plain_queue_name(n1),
        plain_queue_name(n2),
        path_shaped(d, n1, k1),
        path_shaped(d, n2, k2),
    ensures
        queue_path(d, n1, k1) == queue_path(d, n2, k2) <==> n1 == n2 && k1 == k2,
{
    let p1 = queue_path(d, n1, k1);
    let p2 = queue_path(d, n2, k2);
    reveal_strlit("waiters");
    assert(is_plain_name("waiters"@));
    lemma_plain_file(n1, Seq::empty());
    lemma_plain_file(n2, Seq::empty());
    assert(n1 + Seq::<char>::empty() =~= n1);
    assert(n2 + Seq::<char>::empty() =~= n2);
    if p1 == p2 {
        if k1 == QueueFile::Waiters && k2 == QueueFile::Waiters {
            let q1 = joined_path(d, n1);
            let q2 = joined_path(d, n2);
            lemma_path_last(q1, d, n1);
            lemma_path_last(q2, d, n2);
            assert(!is_path_boundary(n1[n1.len() - 1]));
            assert(!is_path_boundary(n2[n2.len() - 1]));
            lemma_join_dir_injective(p1, q1, q2, "waiters"@);
            lemma_join_file_injective(q1, d, n1, n2);
        } else if k1 == QueueFile::Waiters {
            lemma_file_suffixes(k2, k2);
            lemma_plain_file(n2, file_suffix(k2));
            lemma_path_last(p1, joined_path(d, n1), "waiters"@);
            lemma_path_last(p2, d, n2 + file_suffix(k2));
            assert((n2 + file_suffix(k2)).last() == file_suffix(k2).last());
        } else if k2 == QueueFile::Waiters {
            lemma_file_suffixes(k1, k1);
            lemma_plain_file(n1, file_suffix(k1));
            lemma_path_last(p2, joined_path(d, n2), "waiters"@);
            lemma_path_last(p1, d, n1 + file_suffix(k1));
            assert((n1 + file_suffix(k1)).last() == file_suffix(k1).last());
        } else {
            lemma_file_suffixes(k1, k2);
            lemma_file_suffixes(k2, k1);
            lemma_plain_file(n1, file_suffix(k1));
            lemma_plain_file(n2, file_suffix(k2));
            lemma_join_file_injective(p1, d, n1 + file_suffix(k1), n2 + file_suffix(k2));
            lemma_split_at_dot(n1, file_suffix(k1), n2, file_suffix(k2));
        }
    }
}

} // verus!
