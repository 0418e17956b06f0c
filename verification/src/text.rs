//! Text building blocks: decimal numerals, zero-padded numerals, character-wise
//! string order, and a few string predicates used by the queue's file names and
//! its status output.
use vstd::prelude::*;

verus! {

/// The character of the decimal digit `d` (`0 <= d < 10`).
pub open spec fn digit_char(d: int) -> char {
    ((48 + d) as u32) as char
}

/// Decimal numeral of a natural number, without leading zeros (`0` is `"0"`).
pub open spec fn dec_nat(n: nat) -> Seq<char>
    decreases n,
{
    if n < 10 {
        seq![digit_char(n as int)]
    } else {
        dec_nat(n / 10).push(digit_char((n % 10) as int))
    }
}

/// Decimal numeral of an integer: a `-` sign before the digits of a negative one.
pub open spec fn dec_int(n: int) -> Seq<char> {
    if n < 0 {
        seq!['-'] + dec_nat((-n) as nat)
    } else {
        dec_nat(n as nat)
    }
}

/// The `w` lowest decimal digits of `n`, most significant first.
pub open spec fn fixed_digits(n: nat, w: nat) -> Seq<char>
    decreases w,
{
    if w == 0 {
        Seq::empty()
    } else {
        fixed_digits(n / 10, (w - 1) as nat).push(digit_char((n % 10) as int))
    }
}

/// Ten to the power `w`.
pub open spec fn pow10(w: nat) -> nat
    decreases w,
{
    if w == 0 {
        1
    } else {
        10 * pow10((w - 1) as nat)
    }
}

/// `n` written with at least 20 characters, padded with zeros after the sign:
/// what Rust's `{:020}` writes for an `i64`.
pub open spec fn pad20(n: int) -> Seq<char> {
    if n < 0 {
        seq!['-'] + fixed_digits((-n) as nat, 19)
    } else {
        fixed_digits(n as nat, 20)
    }
}

/// `a` and `b` agree before position `i`, and position `i` is where `a` comes first:
/// either `a` ends there and `b` goes on, or `a` holds a smaller character there.
pub open spec fn lex_lt_at(a: Seq<char>, b: Seq<char>, i: int) -> bool {
    &&& 0 <= i <= a.len()
    &&& i <= b.len()
    &&& a.subrange(0, i) == b.subrange(0, i)
    &&& if i < a.len() {
        i < b.len() && (a[i] as int) < (b[i] as int)
    } else {
        i < b.len()
    }
}

/// Strict lexicographic order of strings, character by character (which is also
/// the byte order of their UTF-8 encodings).
pub open spec fn lex_lt(a: Seq<char>, b: Seq<char>) -> bool {
    exists|i: int| #[trigger] lex_lt_at(a, b, i)
}

/// `a` ends with `suffix`.
pub open spec fn ends_with(a: Seq<char>, suffix: Seq<char>) -> bool {
    suffix.len() <= a.len() && a.subrange(a.len() - suffix.len(), a.len() as int) == suffix
}

/// The text before the first `-` of `s`, or all of `s` when it holds none
/// (what `s.split('-').next()` gives).
pub open spec fn before_dash(s: Seq<char>) -> Seq<char>
    decreases s.len(),
{
    if s.len() == 0 {
        s
    } else if s[0] == '-' {
        Seq::empty()
    } else {
        seq![s[0]] + before_dash(s.drop_first())
    }
}

/// Appends one character to a string (`String::push`).
#[verifier::external_body]
pub(crate) fn push_char(s: &mut String, c: char)
    ensures
        final(s)@ == old(s)@.push(c),
{
    s.push(c);
}

/// Appends a string slice to a string.
pub fn push_str(s: &mut String, t: &str)
    ensures
        final(s)@ == old(s)@ + t@,
{
    s.append(t);
}

fn digit(d: u64) -> (c: char)
    requires
        d < 10,
    ensures
        c == digit_char(d as int),
{
    let b: u8 = 48u8 + (d as u8);
    b as char
}

/// Appends the decimal numeral of `n`.
pub fn push_u64(s: &mut String, n: u64)
    ensures
        final(s)@ == old(s)@ + dec_nat(n as nat),
    decreases n,
{
    if n >= 10 {
        push_u64(s, n / 10);
    }
    let c = digit(n % 10);
    push_char(s, c);
    assert(final(s)@ =~= old(s)@ + dec_nat(n as nat)) by {
        if n >= 10 {
            assert(dec_nat(n as nat) == dec_nat((n / 10) as nat).push(digit_char((n % 10) as int)));
        }
    }
}

/// Appends the decimal numeral of `n`, with a `-` sign when it is negative.
pub fn push_i64(s: &mut String, n: i64)
    ensures
        final(s)@ == old(s)@ + dec_int(n as int),
{
    if n < 0 {
        push_char(s, '-');
        let m: u64 = if n == i64::MIN {
            9223372036854775808u64
        } else {
            (-n) as u64
        };
        push_u64(s, m);
        assert(final(s)@ =~= old(s)@ + dec_int(n as int));
    } else {
        push_u64(s, n as u64);
    }
}

/// Appends exactly `w` decimal digits: the `w` lowest digits of `n`.
pub fn push_fixed(s: &mut String, n: u64, w: usize)
    ensures
        final(s)@ == old(s)@ + fixed_digits(n as nat, w as nat),
    decreases w,
{
    if w > 0 {
        push_fixed(s, n / 10, w - 1);
        let c = digit(n % 10);
        push_char(s, c);
        assert(final(s)@ =~= old(s)@ + fixed_digits(n as nat, w as nat));
    } else {
        assert(final(s)@ =~= old(s)@ + fixed_digits(n as nat, w as nat));
    }
}

/// Appends `n` as Rust's `{:020}` writes an `i64`.
pub fn push_pad20(s: &mut String, n: i64)
    ensures
        final(s)@ == old(s)@ + pad20(n as int),
{
    if n < 0 {
        push_char(s, '-');
        let m: u64 = if n == i64::MIN {
            9223372036854775808u64
        } else {
            (-n) as u64
        };
        push_fixed(s, m, 19);
        assert(final(s)@ =~= old(s)@ + pad20(n as int));
    } else {
        push_fixed(s, n as u64, 20);
    }
}

/// Whether `a` comes strictly before `b` in character order.
pub fn str_lt(a: &str, b: &str) -> (r: bool)
    ensures
        r == lex_lt(a@, b@),
{
    let la = a.unicode_len();
    let lb = b.unicode_len();
    let mut i: usize = 0;
    while i < la && i < lb && a.get_char(i) == b.get_char(i)
        invariant
            la == a@.len(),
            lb == b@.len(),
            i <= la,
            i <= lb,
            forall|j: int| 0 <= j < i ==> a@[j] == b@[j],
        decreases la - i,
    {
        i = i + 1;
    }
    let r = if i < la && i < lb {
        less(a.get_char(i), b.get_char(i))
    } else {
        i == la && i < lb
    };
    proof {
        assert(a@.subrange(0, i as int) =~= b@.subrange(0, i as int));
        if r {
            assert(lex_lt_at(a@, b@, i as int));
        } else {
            assert forall|j: int| !lex_lt_at(a@, b@, j) by {
                if lex_lt_at(a@, b@, j) {
                    if j < i {
                        assert(a@[j] == b@[j]);
                    } else if j > i {
                        assert(a@.subrange(0, j)[i as int] == b@.subrange(0, j)[i as int]);
                    }
                }
            }
        }
    }
    r
}

fn less(a: char, b: char) -> (r: bool)
    ensures
        r == ((a as int) < (b as int)),
{
    a < b
}

/// Whether `a` ends with `suffix`.
pub fn str_ends_with(a: &str, suffix: &str) -> (r: bool)
    ensures
        r == ends_with(a@, suffix@),
{
    let la = a.unicode_len();
    let ls = suffix.unicode_len();
    if ls > la {
        return false;
    }
    let off = la - ls;
    let mut i: usize = 0;
    while i < ls
        invariant
            la == a@.len(),
            ls == suffix@.len(),
            off == la - ls,
            i <= ls,
            forall|j: int| 0 <= j < i ==> a@[off + j] == suffix@[j],
        decreases ls - i,
    {
        if a.get_char(off + i) != suffix.get_char(i) {
            assert(a@.subrange(off as int, la as int)[i as int] == a@[off + i]);
            return false;
        }
        i = i + 1;
    }
    assert(a@.subrange(off as int, la as int) =~= suffix@);
    true
}

/// Lexicographic order is irreflexive and asymmetric.
pub proof fn lemma_lex_lt_asymmetric(a: Seq<char>, b: Seq<char>)
    ensures
        !(lex_lt(a, b) && lex_lt(b, a)),
        !lex_lt(a, a),
{
    if lex_lt(a, b) && lex_lt(b, a) {
        let i = choose|i: int| lex_lt_at(a, b, i);
        let j = choose|j: int| lex_lt_at(b, a, j);
        if i < j {
            assert(a.subrange(0, j)[i] == b.subrange(0, j)[i]);
        } else if j < i {
            assert(a.subrange(0, i)[j] == b.subrange(0, i)[j]);
        }
    }
    if lex_lt(a, a) {
        let i = choose|i: int| lex_lt_at(a, a, i);
    }
}

/// Lexicographic order is transitive.
pub proof fn lemma_lex_lt_transitive(a: Seq<char>, b: Seq<char>, c: Seq<char>)
    requires
        lex_lt(a, b),
        lex_lt(b, c),
    ensures
        lex_lt(a, c),
{
    let i = choose|i: int| lex_lt_at(a, b, i);
    let j = choose|j: int| lex_lt_at(b, c, j);
    if i <= j {
        assert(a.subrange(0, i) =~= c.subrange(0, i)) by {
            assert forall|k: int| 0 <= k < i implies a.subrange(0, i)[k] == c.subrange(0, i)[k] by {
                assert(a.subrange(0, i)[k] == b.subrange(0, i)[k]);
                assert(b.subrange(0, j)[k] == c.subrange(0, j)[k]);
            }
        }
        if i < j {
            assert(b.subrange(0, j)[i] == c.subrange(0, j)[i]);
        }
        assert(lex_lt_at(a, c, i));
    } else {
        assert(a.subrange(0, j) =~= c.subrange(0, j)) by {
            assert forall|k: int| 0 <= k < j implies a.subrange(0, j)[k] == c.subrange(0, j)[k] by {
                assert(a.subrange(0, i)[k] == b.subrange(0, i)[k]);
                assert(b.subrange(0, j)[k] == c.subrange(0, j)[k]);
            }
        }
        assert(a.subrange(0, i)[j] == b.subrange(0, i)[j]);
        assert(lex_lt_at(a, c, j));
    }
}

/// Equal-length zero-padded numerals are ordered as the numbers they write.
pub proof fn lemma_fixed_digits_order(a: nat, b: nat, w: nat)
    requires
        a < b < pow10(w),
    ensures
        exists|i: int| 0 <= i < w && #[trigger] lex_lt_at(fixed_digits(a, w), fixed_digits(b, w), i),
        fixed_digits(a, w).len() == w,
        fixed_digits(b, w).len() == w,
    decreases w,
{
    lemma_fixed_digits_len(a, w);
    lemma_fixed_digits_len(b, w);
    if w == 0 {
    } else {
        let w1 = (w - 1) as nat;
        let fa = fixed_digits(a / 10, w1);
        let fb = fixed_digits(b / 10, w1);
        lemma_fixed_digits_len(a / 10, w1);
        lemma_fixed_digits_len(b / 10, w1);
        assert(fixed_digits(a, w) == fa.push(digit_char((a % 10) as int)));
        assert(fixed_digits(b, w) == fb.push(digit_char((b % 10) as int)));
        assert(a / 10 <= b / 10);
        if a / 10 == b / 10 {
            assert(a % 10 < b % 10);
            let i = w1 as int;
            assert(fixed_digits(a, w).subrange(0, i) =~= fa);
            assert(fixed_digits(b, w).subrange(0, i) =~= fb);
            assert(lex_lt_at(fixed_digits(a, w), fixed_digits(b, w), i));
        } else {
            assert(b / 10 < pow10(w1)) by (nonlinear_arith)
                requires
                    b < pow10(w),
                    pow10(w) == 10 * pow10(w1),
            ;
            lemma_fixed_digits_order(a / 10, b / 10, w1);
            let i = choose|i: int| 0 <= i < w1 && #[trigger] lex_lt_at(fa, fb, i);
            assert(fixed_digits(a, w).subrange(0, i) =~= fa.subrange(0, i));
            assert(fixed_digits(b, w).subrange(0, i) =~= fb.subrange(0, i));
            assert(lex_lt_at(fixed_digits(a, w), fixed_digits(b, w), i));
        }
    }
}

/// `fixed_digits(n, w)` has exactly `w` characters.
pub proof fn lemma_fixed_digits_len(n: nat, w: nat)
    ensures
        fixed_digits(n, w).len() == w,
    decreases w,
{
    if w > 0 {
        lemma_fixed_digits_len(n / 10, (w - 1) as nat);
    }
}

/// A difference within the first `i` positions of `a` and `b` decides the order of
/// any extensions of them.
pub proof fn lemma_lex_lt_extend(a: Seq<char>, b: Seq<char>, i: int, p: Seq<char>, q: Seq<char>)
    requires
        lex_lt_at(a, b, i),
        i < a.len(),
    ensures
        lex_lt_at(a + p, b + q, i),
        lex_lt(a + p, b + q),
{
    assert((a + p).subrange(0, i) =~= a.subrange(0, i));
    assert((b + q).subrange(0, i) =~= b.subrange(0, i));
}

/// Whether two string slices hold the same characters.
pub fn str_eq(a: &str, b: &str) -> (r: bool)
    ensures
        r == (a@ == b@),
{
    let la = a.unicode_len();
    let lb = b.unicode_len();
    if la != lb {
        return false;
    }
    let mut i: usize = 0;
    while i < la
        invariant
            la == a@.len(),
            lb == b@.len(),
            la == lb,
            i <= la,
            forall|j: int| 0 <= j < i ==> a@[j] == b@[j],
        decreases la - i,
    {
        if a.get_char(i) != b.get_char(i) {
            return false;
        }
        i = i + 1;
    }
    assert(a@ =~= b@);
    true
}

/// The first position before `m`, from `k` on, where `a` and `b` differ.
proof fn first_difference(a: Seq<char>, b: Seq<char>, m: int, k: int) -> (r: int)
    requires
        0 <= k <= m <= a.len(),
        m <= b.len(),
        forall|j: int| 0 <= j < k ==> a[j] == b[j],
        exists|j: int| k <= j < m && a[j] != b[j],
    ensures
        k <= r < m,
        a[r] != b[r],
        forall|j: int| 0 <= j < r ==> a[j] == b[j],
    decreases m - k,
{
    if a[k] != b[k] {
        k
    } else {
        first_difference(a, b, m, k + 1)
    }
}

/// Two different strings are ordered one way or the other.
pub proof fn lemma_lex_lt_total(a: Seq<char>, b: Seq<char>)
    requires
        a != b,
    ensures
        lex_lt(a, b) || lex_lt(b, a),
{
    let m = if a.len() < b.len() { a.len() as int } else { b.len() as int };
    if forall|k: int| 0 <= k < m ==> a[k] == b[k] {
        assert(a.subrange(0, m) =~= b.subrange(0, m));
        if a.len() < b.len() {
            assert(lex_lt_at(a, b, m));
        } else if b.len() < a.len() {
            assert(lex_lt_at(b, a, m));
        } else {
            assert(a =~= b);
        }
    } else {
        let k = first_difference(a, b, m, 0);
        assert(a.subrange(0, k) =~= b.subrange(0, k));
        assert((a[k] as int) != (b[k] as int));
        if (a[k] as int) < (b[k] as int) {
            assert(lex_lt_at(a, b, k));
        } else {
            assert(lex_lt_at(b, a, k));
        }
    }
}

/// `s` holds no `-` before position `i`, and a `-` or its end at `i`: then the text
/// before its first dash is its first `i` characters.
pub proof fn lemma_before_dash_prefix(s: Seq<char>, i: int)
    requires
        0 <= i <= s.len(),
        forall|j: int| 0 <= j < i ==> s[j] != '-',
        i == s.len() || s[i] == '-',
    ensures
        before_dash(s) == s.take(i),
    decreases i,
{
    if s.len() == 0 {
        assert(s.take(i) =~= s);
    } else if i == 0 {
        assert(s.take(i) =~= Seq::<char>::empty());
    } else {
        let t = s.drop_first();
        assert forall|j: int| 0 <= j < i - 1 implies t[j] != '-' by {
            assert(t[j] == s[j + 1]);
        }
        if i < s.len() {
            assert(t[i - 1] == s[i]);
        }
        lemma_before_dash_prefix(t, i - 1);
        assert(seq![s[0]] + t.take(i - 1) =~= s.take(i));
    }
}

/// Appends the text before the first `-` of `id` (all of it when it has none).
pub fn push_before_dash(s: &mut String, id: &str)
    ensures
        final(s)@ == old(s)@ + before_dash(id@),
{
    let n = id.unicode_len();
    let mut i: usize = 0;
    while i < n && id.get_char(i) != '-'
        invariant
            n == id@.len(),
            i <= n,
            forall|j: int| 0 <= j < i ==> id@[j] != '-',
            s@ == old(s)@ + id@.take(i as int),
        decreases n - i,
    {
        let c = id.get_char(i);
        push_char(s, c);
        assert(id@.take(i + 1) =~= id@.take(i as int).push(c));
        i = i + 1;
    }
    proof {
        lemma_before_dash_prefix(id@, i as int);
    }
}

} // verus!
