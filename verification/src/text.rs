//! Character-level string operations, stated over `Seq<char>`.
//!
//! Each function here does what the `str` method of the same name does;
//! its contract states that behaviour as a spec function.

use vstd::prelude::*;

verus! {

/// The Unicode `White_Space` property, the set that `char::is_whitespace`
/// tests for.
pub open spec fn spec_is_whitespace(c: char) -> bool {
    ||| ('\u{9}' <= c && c <= '\u{d}')
    ||| c == ' '
    ||| c == '\u{85}'
    ||| c == '\u{a0}'
    ||| c == '\u{1680}'
    ||| ('\u{2000}' <= c && c <= '\u{200a}')
    ||| c == '\u{2028}'
    ||| c == '\u{2029}'
    ||| c == '\u{202f}'
    ||| c == '\u{205f}'
    ||| c == '\u{3000}'
}

/// Whether `c` is white space in the sense of Unicode's `White_Space`.
pub fn is_whitespace(c: char) -> (r: bool)
    ensures
        r == spec_is_whitespace(c),
{
    ('\u{9}' <= c && c <= '\u{d}') || c == ' ' || c == '\u{85}' || c == '\u{a0}' || c
        == '\u{1680}' || ('\u{2000}' <= c && c <= '\u{200a}') || c == '\u{2028}' || c
        == '\u{2029}' || c == '\u{202f}' || c == '\u{205f}' || c == '\u{3000}'
}

/// A decimal digit, `0` to `9` (`char::is_digit(10)`).
pub open spec fn spec_is_decimal_digit(c: char) -> bool {
    '0' <= c && c <= '9'
}

/// Whether `c` is a decimal digit.
pub fn is_decimal_digit(c: char) -> (r: bool)
    ensures
        r == spec_is_decimal_digit(c),
{
    '0' <= c && c <= '9'
}

/// A set of characters that trimming removes from the ends of a string.
#[derive(Clone, Copy, Debug, PartialEq, Eq)]
pub enum CharSet {
    /// Unicode white space.
    WhiteSpace,
    /// The one given character.
    Only(char),
}

impl CharSet {
    pub open spec fn has(self, c: char) -> bool {
        match self {
            CharSet::WhiteSpace => spec_is_whitespace(c),
            CharSet::Only(d) => c == d,
        }
    }

    /// Whether `c` belongs to the set.
    pub fn contains(&self, c: char) -> (r: bool)
        ensures
            r == self.has(c),
    {
        match self {
            CharSet::WhiteSpace => is_whitespace(c),
            CharSet::Only(d) => c == *d,
        }
    }
}

/// `s` without its leading characters of `set`.
pub open spec fn spec_trim_start_by(s: Seq<char>, set: CharSet) -> Seq<char>
    decreases s.len(),
{
    if s.len() > 0 && set.has(s[0]) {
        spec_trim_start_by(s.drop_first(), set)
    } else {
        s
    }
}

/// `s` without its trailing characters of `set`.
pub open spec fn spec_trim_end_by(s: Seq<char>, set: CharSet) -> Seq<char>
    decreases s.len(),
{
    if s.len() > 0 && set.has(s.last()) {
        spec_trim_end_by(s.drop_last(), set)
    } else {
        s
    }
}

/// `s` without its leading and trailing characters of `set`.
pub open spec fn spec_trim_by(s: Seq<char>, set: CharSet) -> Seq<char> {
    spec_trim_end_by(spec_trim_start_by(s, set), set)
}

/// `s` without leading and trailing white space (`str::trim`).
pub open spec fn spec_trim(s: Seq<char>) -> Seq<char> {
    spec_trim_by(s, CharSet::WhiteSpace)
}

proof fn lemma_trim_start_by_skip(s: Seq<char>, set: CharSet, a: int)
    requires
        0 <= a <= s.len(),
        forall|i: int| 0 <= i < a ==> set.has(#[trigger] s[i]),
        a < s.len() ==> !set.has(s[a]),
    ensures
        spec_trim_start_by(s, set) == s.skip(a),
    decreases a,
{
    if a == 0 {
        assert(s.skip(0) =~= s);
    } else {
        let t = s.drop_first();
        assert forall|i: int| 0 <= i < a - 1 implies set.has(#[trigger] t[i]) by {
            assert(t[i] == s[i + 1]);
        }
        lemma_trim_start_by_skip(t, set, a - 1);
        assert(t.skip(a - 1) =~= s.skip(a));
    }
}

proof fn lemma_trim_end_by_take(s: Seq<char>, set: CharSet, b: int)
    requires
        0 <= b <= s.len(),
        forall|i: int| b <= i < s.len() ==> set.has(#[trigger] s[i]),
        b > 0 ==> !set.has(s[b - 1]),
    ensures
        spec_trim_end_by(s, set) == s.take(b),
    decreases s.len() - b,
{
    if b == s.len() {
        assert(s.take(b) =~= s);
    } else {
        let t = s.drop_last();
        assert(set.has(s[s.len() - 1]));
        assert forall|i: int| b <= i < t.len() implies set.has(#[trigger] t[i]) by {
            assert(t[i] == s[i]);
        }
        lemma_trim_end_by_take(t, set, b);
        assert(t.take(b) =~= s.take(b));
    }
}

/// `s` without its leading and trailing characters of `set`
/// (`str::trim_matches` with a character pattern, and `str::trim`).
pub fn trim_by<'a>(s: &'a str, set: CharSet) -> (r: &'a str)
    ensures
        r@ == spec_trim_by(s@, set),
{
    let n = s.unicode_len();
    let mut a: usize = 0;
    loop
        invariant
            n == s@.len(),
            a <= n,
            forall|i: int| 0 <= i < a ==> set.has(#[trigger] s@[i]),
        ensures
            a <= n,
            forall|i: int| 0 <= i < a ==> set.has(#[trigger] s@[i]),
            a < n ==> !set.has(s@[a as int]),
        decreases n - a,
    {
        if a == n {
            break;
        }
        if !set.contains(s.get_char(a)) {
            break;
        }
        a = a + 1;
    }
    let mut b: usize = n;
    loop
        invariant
            n == s@.len(),
            a <= b <= n,
            forall|i: int| b <= i < n ==> set.has(#[trigger] s@[i]),
        ensures
            a <= b <= n,
            forall|i: int| b <= i < n ==> set.has(#[trigger] s@[i]),
            b > a ==> !set.has(s@[b - 1]),
        decreases b,
    {
        if b == a {
            break;
        }
        if !set.contains(s.get_char(b - 1)) {
            break;
        }
        b = b - 1;
    }
    proof {
        lemma_trim_start_by_skip(s@, set, a as int);
        let t = s@.skip(a as int);
        assert forall|i: int| b - a <= i < t.len() implies set.has(#[trigger] t[i]) by {
            assert(t[i] == s@[i + a]);
        }
        if b > a {
            assert(t[b - a - 1] == s@[b - 1]);
        }
        lemma_trim_end_by_take(t, set, b - a);
        assert(t.take(b - a) =~= s@.subrange(a as int, b as int));
    }
    s.substring_char(a, b)
}

/// `s` without leading and trailing white space (`str::trim`).
pub fn trim<'a>(s: &'a str) -> (r: &'a str)
    ensures
        r@ == spec_trim(s@),
{
    trim_by(s, CharSet::WhiteSpace)
}

/// `p` occurs in `s` at position `i`.
pub open spec fn spec_occurs_at(s: Seq<char>, i: int, p: Seq<char>) -> bool {
    0 <= i && i + p.len() <= s.len() && s.subrange(i, i + p.len()) == p
}

/// `s` begins with `p` (`str::starts_with`).
pub open spec fn spec_starts_with(s: Seq<char>, p: Seq<char>) -> bool {
    spec_occurs_at(s, 0, p)
}

/// `s` ends with `p` (`str::ends_with`).
pub open spec fn spec_ends_with(s: Seq<char>, p: Seq<char>) -> bool {
    p.len() <= s.len() && spec_occurs_at(s, s.len() - p.len(), p)
}

/// Whether `p` occurs in `s` at character position `i`.
fn occurs_at(s: &str, n: usize, i: usize, p: &str, m: usize) -> (r: bool)
    requires
        n == s@.len(),
        m == p@.len(),
        i <= n,
    ensures
        r == spec_occurs_at(s@, i as int, p@),
{
    if m > n - i {
        return false;
    }
    let mut j: usize = 0;
    while j < m
        invariant
            n == s@.len(),
            m == p@.len(),
            i + m <= n,
            j <= m,
            forall|k: int| 0 <= k < j ==> s@[i + k] == #[trigger] p@[k],
        decreases m - j,
    {
        if s.get_char(i + j) != p.get_char(j) {
            assert(s@.subrange(i as int, i + m)[j as int] != p@[j as int]);
            return false;
        }
        j = j + 1;
    }
    assert(s@.subrange(i as int, i + m) =~= p@);
    true
}

/// Whether `s` begins with `p`.
pub fn starts_with(s: &str, p: &str) -> (r: bool)
    ensures
        r == spec_starts_with(s@, p@),
{
    occurs_at(s, s.unicode_len(), 0, p, p.unicode_len())
}

/// Whether `s` ends with `p`.
pub fn ends_with(s: &str, p: &str) -> (r: bool)
    ensures
        r == spec_ends_with(s@, p@),
{
    let n = s.unicode_len();
    let m = p.unicode_len();
    if m > n {
        false
    } else {
        occurs_at(s, n, n - m, p, m)
    }
}

/// Whether `a` and `b` hold the same characters.
pub fn str_eq(a: &str, b: &str) -> (r: bool)
    ensures
        r == (a@ == b@),
{
    let n = a.unicode_len();
    let m = b.unicode_len();
    if n != m {
        return false;
    }
    let r = occurs_at(a, n, 0, b, m);
    proof {
        if r {
            assert(a@ =~= a@.subrange(0, n as int));
        } else {
            assert(a@.subrange(0, n as int) =~= a@);
        }
    }
    r
}

/// `s` with every leading copy of `p` removed, one after another
/// (`str::trim_start_matches` with a string pattern).
pub open spec fn spec_trim_start_matches(s: Seq<char>, p: Seq<char>) -> Seq<char>
    decreases s.len(),
{
    if p.len() > 0 && spec_starts_with(s, p) {
        spec_trim_start_matches(s.skip(p.len() as int), p)
    } else {
        s
    }
}

/// `s` with every trailing copy of `p` removed, one after another
/// (`str::trim_end_matches` with a string pattern).
pub open spec fn spec_trim_end_matches(s: Seq<char>, p: Seq<char>) -> Seq<char>
    decreases s.len(),
{
    if p.len() > 0 && spec_ends_with(s, p) {
        spec_trim_end_matches(s.take(s.len() - p.len()), p)
    } else {
        s
    }
}

/// `s` with every leading copy of `p` removed.
pub fn trim_start_matches<'a>(s: &'a str, p: &str) -> (r: &'a str)
    ensures
        r@ == spec_trim_start_matches(s@, p@),
{
    let n = s.unicode_len();
    let m = p.unicode_len();
    if m == 0 {
        return s;
    }
    let mut i: usize = 0;
    assert(s@.skip(0) =~= s@);
    loop
        invariant
            n == s@.len(),
            m == p@.len(),
            m > 0,
            i <= n,
            spec_trim_start_matches(s@, p@) == spec_trim_start_matches(s@.skip(i as int), p@),
        ensures
            i <= n,
            spec_trim_start_matches(s@, p@) == s@.skip(i as int),
        decreases n - i,
    {
        let ghost t = s@.skip(i as int);
        if occurs_at(s, n, i, p, m) {
            assert(t.subrange(0, m as int) =~= s@.subrange(i as int, i + m));
            assert(t.skip(m as int) =~= s@.skip(i + m));
            i = i + m;
        } else {
            assert(!spec_starts_with(t, p@)) by {
                if spec_starts_with(t, p@) {
                    assert(t.subrange(0, m as int) =~= s@.subrange(i as int, i + m));
                }
            }
            break;
        }
    }
    assert(s@.skip(i as int) =~= s@.subrange(i as int, n as int));
    s.substring_char(i, n)
}

/// `s` with every trailing copy of `p` removed.
pub fn trim_end_matches<'a>(s: &'a str, p: &str) -> (r: &'a str)
    ensures
        r@ == spec_trim_end_matches(s@, p@),
{
    let n = s.unicode_len();
    let m = p.unicode_len();
    if m == 0 {
        return s;
    }
    let mut e: usize = n;
    assert(s@.take(n as int) =~= s@);
    loop
        invariant
            n == s@.len(),
            m == p@.len(),
            m > 0,
            e <= n,
            spec_trim_end_matches(s@, p@) == spec_trim_end_matches(s@.take(e as int), p@),
        ensures
            e <= n,
            spec_trim_end_matches(s@, p@) == s@.take(e as int),
        decreases e,
    {
        let ghost t = s@.take(e as int);
        if m <= e && occurs_at(s, n, e - m, p, m) {
            assert(t.subrange(e - m, e as int) =~= s@.subrange(e - m, e as int));
            assert(t.take(e - m) =~= s@.take(e - m));
            e = e - m;
        } else {
            assert(!spec_ends_with(t, p@)) by {
                if spec_ends_with(t, p@) {
                    assert(t.subrange(e - m, e as int) =~= s@.subrange(e - m, e as int));
                }
            }
            break;
        }
    }
    assert(s@.take(e as int) =~= s@.subrange(0, e as int));
    s.substring_char(0, e)
}

/// The first `n` characters of `s`, or all of `s` where it is shorter.
pub open spec fn spec_truncate(s: Seq<char>, n: nat) -> Seq<char> {
    if s.len() <= n {
        s
    } else {
        s.take(n as int)
    }
}

/// A copy of the first `n` characters of `s` (all of `s` where it is
/// shorter).
pub fn truncate(s: &str, n: usize) -> (r: String)
    ensures
        r@ == spec_truncate(s@, n as nat),
{
    let len = s.unicode_len();
    if len <= n {
        String::from_str(s)
    } else {
        assert(s@.subrange(0, n as int) =~= s@.take(n as int));
        String::from_str(s.substring_char(0, n))
    }
}

/// Truncating twice to the same length gives what truncating once gave.
pub proof fn lemma_truncate_idempotent(s: Seq<char>, n: nat)
    ensures
        spec_truncate(spec_truncate(s, n), n) == spec_truncate(s, n),
        spec_truncate(s, n).len() <= n,
        spec_truncate(s, n).len() <= s.len(),
{
}


proof fn lemma_trim_start_by_shape(s: Seq<char>, set: CharSet)
    ensures
        spec_trim_start_by(s, set).len() <= s.len(),
        spec_trim_start_by(s, set) == s.skip(s.len() - spec_trim_start_by(s, set).len()),
        spec_trim_start_by(s, set).len() > 0 ==> !set.has(spec_trim_start_by(s, set)[0]),
        forall|i: int|
            0 <= i < s.len() - spec_trim_start_by(s, set).len() ==> set.has(#[trigger] s[i]),
    decreases s.len(),
{
    if s.len() > 0 && set.has(s[0]) {
        lemma_trim_start_by_shape(s.drop_first(), set);
        let r = spec_trim_start_by(s.drop_first(), set);
        assert forall|i: int| 0 <= i < s.len() - r.len() implies set.has(#[trigger] s[i]) by {
            if i > 0 {
                assert(s[i] == s.drop_first()[i - 1]);
            }
        }
        assert(s.drop_first().skip(s.drop_first().len() - r.len()) =~= s.skip(s.len() - r.len()));
    } else {
        assert(s.skip(0) =~= s);
    }
}

proof fn lemma_trim_end_by_shape(s: Seq<char>, set: CharSet)
    ensures
        spec_trim_end_by(s, set).len() <= s.len(),
        spec_trim_end_by(s, set) == s.take(spec_trim_end_by(s, set).len() as int),
        spec_trim_end_by(s, set).len() > 0 ==> !set.has(spec_trim_end_by(s, set).last()),
        forall|i: int| spec_trim_end_by(s, set).len() <= i < s.len() ==> set.has(#[trigger] s[i]),
    decreases s.len(),
{
    if s.len() > 0 && set.has(s.last()) {
        lemma_trim_end_by_shape(s.drop_last(), set);
        let r = spec_trim_end_by(s.drop_last(), set);
        assert forall|i: int| r.len() <= i < s.len() implies set.has(#[trigger] s[i]) by {
            if i < s.len() - 1 {
                assert(s[i] == s.drop_last()[i]);
            }
        }
        assert(s.drop_last().take(r.len() as int) =~= s.take(r.len() as int));
    } else {
        assert(s.take(s.len() as int) =~= s);
    }
}

/// What trimming keeps neither begins nor ends with a character of the
/// set, and is a run of consecutive characters of the untrimmed string;
/// trimming it again changes nothing.
pub proof fn law_trim_by_leaves_no_set_char_at_ends(s: Seq<char>, set: CharSet)
    ensures
        spec_trim_by(s, set).len() > 0 ==> !set.has(spec_trim_by(s, set)[0]) && !set.has(
            spec_trim_by(s, set).last(),
        ),
        exists|a: int, b: int|
            0 <= a <= b <= s.len() && #[trigger] s.subrange(a, b) == spec_trim_by(s, set),
        spec_trim_by(spec_trim_by(s, set), set) == spec_trim_by(s, set),
{
    let t = spec_trim_start_by(s, set);
    let r = spec_trim_end_by(t, set);
    lemma_trim_start_by_shape(s, set);
    lemma_trim_end_by_shape(t, set);
    let a = s.len() - t.len();
    assert(s.subrange(a, a + r.len()) =~= r);
    if r.len() > 0 {
        assert(r[0] == t[0]);
    }
    // Trimming again finds nothing to take at either end.
    assert(spec_trim_start_by(r, set) == r);
    assert(spec_trim_end_by(r, set) == r);
}

/// After every trailing copy of a non-empty `p` is removed, the string no
/// longer ends with `p`.
pub proof fn law_trim_end_matches_leaves_no_suffix(s: Seq<char>, p: Seq<char>)
    requires
        p.len() > 0,
    ensures
        !spec_ends_with(spec_trim_end_matches(s, p), p),
        spec_trim_end_matches(s, p).len() <= s.len(),
        spec_trim_end_matches(s, p) == s.take(spec_trim_end_matches(s, p).len() as int),
    decreases s.len(),
{
    if spec_ends_with(s, p) {
        let t = s.take(s.len() - p.len());
        law_trim_end_matches_leaves_no_suffix(t, p);
        let r = spec_trim_end_matches(t, p);
        assert(t.take(r.len() as int) =~= s.take(r.len() as int));
    } else {
        assert(s.take(s.len() as int) =~= s);
    }
}

/// After every leading copy of a non-empty `p` is removed, the string no
/// longer begins with `p`.
pub proof fn law_trim_start_matches_leaves_no_prefix(s: Seq<char>, p: Seq<char>)
    requires
        p.len() > 0,
    ensures
        !spec_starts_with(spec_trim_start_matches(s, p), p),
        spec_trim_start_matches(s, p).len() <= s.len(),
        spec_trim_start_matches(s, p) == s.skip(s.len() - spec_trim_start_matches(s, p).len()),
    decreases s.len(),
{
    if spec_starts_with(s, p) {
        let t = s.skip(p.len() as int);
        law_trim_start_matches_leaves_no_prefix(t, p);
        let r = spec_trim_start_matches(t, p);
        assert(t.skip(t.len() - r.len()) =~= s.skip(s.len() - r.len()));
    } else {
        assert(s.skip(0) =~= s);
    }
}


/// Trimming removes characters of the set only, and all of them at the
/// ends: what is kept is `s[a..b]`, every character before `a` and from
/// `b` on is in the set, and (by the law above) the kept run neither
/// begins nor ends with one.
pub proof fn law_trim_by_removes_only_set_chars(s: Seq<char>, set: CharSet)
    ensures
        exists|a: int, b: int|
            {
                &&& 0 <= a <= b <= s.len()
                &&& #[trigger] s.subrange(a, b) == spec_trim_by(s, set)
                &&& forall|i: int| 0 <= i < a ==> set.has(#[trigger] s[i])
                &&& forall|i: int| b <= i < s.len() ==> set.has(#[trigger] s[i])
            },
{
    let t = spec_trim_start_by(s, set);
    let r = spec_trim_end_by(t, set);
    lemma_trim_start_by_shape(s, set);
    lemma_trim_end_by_shape(t, set);
    let a = s.len() - t.len();
    let b = a + r.len();
    assert(s.subrange(a, b) =~= r);
    assert forall|i: int| b <= i < s.len() implies set.has(#[trigger] s[i]) by {
        assert(s[i] == t[i - a]);
    }
}

/// Truncating keeps the first `min(len, n)` characters and nothing else.
pub proof fn law_truncate_keeps_a_prefix(s: Seq<char>, n: nat)
    ensures
        spec_truncate(s, n).len() == if s.len() <= n {
            s.len()
        } else {
            n
        },
        spec_truncate(s, n) == s.subrange(0, spec_truncate(s, n).len() as int),
{
    assert(s.subrange(0, s.len() as int) =~= s);
}


/// Removing leading copies of `p` stops at the first position where `p`
/// does not occur, and takes off exactly one `p` per step: a string not
/// beginning with `p` is kept whole, and `p` put in front of a string is
/// removed along with whatever that string loses.
pub proof fn law_trim_start_matches_steps(s: Seq<char>, p: Seq<char>)
    requires
        p.len() > 0,
    ensures
        !spec_starts_with(s, p) ==> spec_trim_start_matches(s, p) == s,
        spec_trim_start_matches(p + s, p) == spec_trim_start_matches(s, p),
{
    let ps = p + s;
    assert(ps.subrange(0, p.len() as int) =~= p);
    assert(ps.skip(p.len() as int) =~= s);
}

/// Removing trailing copies of `p` stops at the first position from the
/// end where `p` does not occur, and takes off exactly one `p` per step.
pub proof fn law_trim_end_matches_steps(s: Seq<char>, p: Seq<char>)
    requires
        p.len() > 0,
    ensures
        !spec_ends_with(s, p) ==> spec_trim_end_matches(s, p) == s,
        spec_trim_end_matches(s + p, p) == spec_trim_end_matches(s, p),
{
    let sp = s + p;
    assert(sp.subrange(sp.len() - p.len(), sp.len() as int) =~= p);
    assert(sp.take(sp.len() - p.len()) =~= s);
}

} // verus!
