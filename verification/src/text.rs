//! Character-sequence utilities shared by the header parsers: whitespace
//! trimming, locating the first occurrence of a character, locating the
//! Basic scheme token, and placeholder substitution.
use vstd::prelude::*;
use vstd::string::StrSliceExecFns;
use vstd::string::StringExecFns;

verus! {

/// A character counts as surrounding whitespace when credential fields are
/// trimmed: the White_Space characters of Unicode.
pub open spec fn is_space(c: char) -> bool {
    ||| ('\u{9}' <= c && c <= '\u{d}')
    ||| c == ' '
    ||| c == '\u{85}'
    ||| c == '\u{a0}'
    ||| c == '\u{1680}'
    ||| ('\u{2000}' <= c && c <= '\u{200a}')
    ||| c == '\u{2028}'
    ||| c == '\u{2029}'
    ||| c == '\u{202f}'
    ||| c == '\u{205f}'
    ||| c == '\u{3000}'
}

/// Executable form of `is_space`.
pub fn is_space_char(c: char) -> (r: bool)
    ensures
        r == is_space(c),
{
    ('\u{9}' <= c && c <= '\u{d}') || c == ' ' || c == '\u{85}' || c == '\u{a0}' || c == '\u{1680}'
        || ('\u{2000}' <= c && c <= '\u{200a}') || c == '\u{2028}' || c == '\u{2029}' || c
        == '\u{202f}' || c == '\u{205f}' || c == '\u{3000}'
}

/// The sequence with its leading whitespace removed.
pub open spec fn trim_front(s: Seq<char>) -> Seq<char>
    decreases s.len(),
{
    if s.len() > 0 && is_space(s[0]) {
        trim_front(s.drop_first())
    } else {
        s
    }
}

/// The sequence with its trailing whitespace removed.
pub open spec fn trim_back(s: Seq<char>) -> Seq<char>
    decreases s.len(),
{
    if s.len() > 0 && is_space(s[s.len() - 1]) {
        trim_back(s.drop_last())
    } else {
        s
    }
}

/// The sequence with whitespace removed from both ends.
pub open spec fn trimmed(s: Seq<char>) -> Seq<char> {
    trim_back(trim_front(s))
}

proof fn lemma_trim_front_skip(s: Seq<char>, a: int)
    requires
        0 <= a <= s.len(),
        forall|j: int| 0 <= j < a ==> is_space(s[j]),
        a < s.len() ==> !is_space(s[a]),
    ensures
        trim_front(s) == s.skip(a),
    decreases a,
{
    if a == 0 {
        assert(s.skip(0) =~= s);
    } else {
        assert(is_space(s[0]));
        lemma_trim_front_skip(s.drop_first(), a - 1);
        assert(s.drop_first().skip(a - 1) =~= s.skip(a));
    }
}

proof fn lemma_trim_back_take(s: Seq<char>, b: int)
    requires
        0 <= b <= s.len(),
        forall|j: int| b <= j < s.len() ==> is_space(s[j]),
        b > 0 ==> !is_space(s[b - 1]),
    ensures
        trim_back(s) == s.take(b),
    decreases s.len() - b,
{
    if b == s.len() {
        assert(s.take(b) =~= s);
    } else {
        assert(is_space(s[s.len() - 1]));
        lemma_trim_back_take(s.drop_last(), b);
        assert(s.drop_last().take(b) =~= s.take(b));
    }
}

/// Returns a fresh string holding `s` with whitespace removed from both ends.
pub fn trim_str(s: &str) -> (r: String)
    ensures
        r@ == trimmed(s@),
{
    let n = s.unicode_len();
    let mut a: usize = 0;
    while a < n && is_space_char(s.get_char(a))
        invariant
            0 <= a <= n,
            n == s@.len(),
            forall|j: int| 0 <= j < a ==> is_space(s@[j]),
        decreases n - a,
    {
        a = a + 1;
    }
    let mut b: usize = n;
    while b > a && is_space_char(s.get_char(b - 1))
        invariant
            a <= b <= n,
            n == s@.len(),
            forall|j: int| b <= j < n ==> is_space(s@[j]),
        decreases b,
    {
        b = b - 1;
    }
    proof {
        lemma_trim_front_skip(s@, a as int);
        let t = s@.skip(a as int);
        assert(forall|j: int| b - a <= j < t.len() ==> is_space(t[j]));
        if b > a {
            assert(!is_space(t[b - a - 1]));
        }
        lemma_trim_back_take(t, b - a);
        assert(t.take(b - a) =~= s@.subrange(a as int, b as int));
    }
    let part = s.substring_char(a, b);
    part.to_owned()
}

/// Index of the first occurrence of `c` in `s`, or `s.len()` when `c` does
/// not occur.
pub open spec fn find_first(s: Seq<char>, c: char) -> int
    decreases s.len(),
{
    if s.len() == 0 {
        0
    } else if s[0] == c {
        0
    } else {
        1 + find_first(s.drop_first(), c)
    }
}

/// `find_first` is the unique index below which `c` does not occur, and at
/// which it occurs unless it equals the length.
pub proof fn lemma_find_first_is(s: Seq<char>, c: char, i: int)
    requires
        0 <= i <= s.len(),
        forall|j: int| 0 <= j < i ==> s[j] != c,
        i < s.len() ==> s[i] == c,
    ensures
        find_first(s, c) == i,
    decreases i,
{
    if s.len() == 0 {
    } else if i == 0 {
    } else {
        assert(s[0] != c);
        lemma_find_first_is(s.drop_first(), c, i - 1);
    }
}

/// The Basic scheme word stands at index `i` of `s`, compared letter by
/// letter without regard to ASCII case.
pub open spec fn scheme_word_at(s: Seq<char>, i: int) -> bool {
    &&& 0 <= i
    &&& i + 5 <= s.len()
    &&& (s[i] == 'b' || s[i] == 'B')
    &&& (s[i + 1] == 'a' || s[i + 1] == 'A')
    &&& (s[i + 2] == 's' || s[i + 2] == 'S')
    &&& (s[i + 3] == 'i' || s[i + 3] == 'I')
    &&& (s[i + 4] == 'c' || s[i + 4] == 'C')
}

/// `s` contains the Basic scheme word somewhere, in any ASCII case.
pub open spec fn contains_scheme_word(s: Seq<char>) -> bool {
    exists|i: int| scheme_word_at(s, i)
}

/// The scheme word stands at `i` and one space follows it, so a payload
/// starts at `i + 6`.
pub open spec fn scheme_prefix_at(s: Seq<char>, i: int) -> bool {
    &&& scheme_word_at(s, i)
    &&& i + 6 <= s.len()
    &&& s[i + 5] == ' '
}

/// `s` holds the scheme word followed by a space somewhere.
pub open spec fn has_scheme_prefix(s: Seq<char>) -> bool {
    exists|i: int| scheme_prefix_at(s, i)
}

/// Index of the first scheme-plus-space occurrence; meaningful only when
/// `has_scheme_prefix(s)` holds.
pub open spec fn first_scheme_prefix(s: Seq<char>) -> int
    decreases s.len(),
{
    if s.len() == 0 {
        0
    } else if scheme_prefix_at(s, 0) {
        0
    } else {
        1 + first_scheme_prefix(s.drop_first())
    }
}

proof fn lemma_scheme_prefix_shift(s: Seq<char>, i: int)
    requires
        s.len() > 0,
        i >= 0,
    ensures
        scheme_prefix_at(s.drop_first(), i) == scheme_prefix_at(s, i + 1),
{
}

/// `first_scheme_prefix` is the unique index below which no scheme prefix
/// stands, and at which one stands.
pub proof fn lemma_first_scheme_prefix_is(s: Seq<char>, i: int)
    requires
        0 <= i <= s.len(),
        forall|j: int| 0 <= j < i ==> !scheme_prefix_at(s, j),
        scheme_prefix_at(s, i),
    ensures
        first_scheme_prefix(s) == i,
    decreases i,
{
    if i == 0 {
    } else {
        assert(!scheme_prefix_at(s, 0));
        lemma_scheme_prefix_shift(s, i - 1);
        assert(scheme_prefix_at(s.drop_first(), i - 1));
        assert(forall|j: int| 0 <= j < i - 1 ==> !scheme_prefix_at(s.drop_first(), j)) by {
            assert forall|j: int| 0 <= j < i - 1 implies !scheme_prefix_at(s.drop_first(), j) by {
                lemma_scheme_prefix_shift(s, j);
            }
        }
        lemma_first_scheme_prefix_is(s.drop_first(), i - 1);
    }
}

/// `t` with every occurrence of `pat` replaced by `sub`, scanning left to
/// right without overlap; an empty pattern replaces nothing.
pub open spec fn replaced(t: Seq<char>, pat: Seq<char>, sub: Seq<char>) -> Seq<char>
    decreases t.len(),
{
    if pat.len() == 0 || t.len() < pat.len() {
        t
    } else if t.take(pat.len() as int) == pat {
        sub + replaced(t.skip(pat.len() as int), pat, sub)
    } else {
        seq![t[0]] + replaced(t.drop_first(), pat, sub)
    }
}

proof fn lemma_replaced_short(t: Seq<char>, pat: Seq<char>, sub: Seq<char>)
    requires
        pat.len() == 0 || t.len() < pat.len(),
    ensures
        replaced(t, pat, sub) == t,
{
}

/// The characters of `t` starting at `i` begin with `pat`.
fn window_matches(t: &str, pat: &str, i: usize, m: usize, n: usize) -> (r: bool)
    requires
        n == t@.len(),
        m == pat@.len(),
        i + m <= n,
    ensures
        r == (t@.subrange(i as int, i as int + m as int) == pat@),
{
    let mut k: usize = 0;
    while k < m
        invariant
            0 <= k <= m,
            n == t@.len(),
            m == pat@.len(),
            i + m <= n,
            forall|j: int| 0 <= j < k ==> t@[i + j] == pat@[j],
        decreases m - k,
    {
        if t.get_char(i + k) != pat.get_char(k) {
            proof {
                assert(t@.subrange(i as int, i as int + m as int)[k as int] != pat@[k as int]);
            }
            return false;
        }
        k = k + 1;
    }
    proof {
        assert(t@.subrange(i as int, i as int + m as int) =~= pat@);
    }
    true
}

/// Returns a fresh string holding `t` with every occurrence of `pat`
/// replaced by `sub`.
pub fn replace_all(t: &str, pat: &str, sub: &str) -> (r: String)
    ensures
        r@ == replaced(t@, pat@, sub@),
{
    let n = t.unicode_len();
    let m = pat.unicode_len();
    let mut out = String::new();
    if m == 0 {
        let copy = t.to_owned();
        proof {
            lemma_replaced_short(t@, pat@, sub@);
        }
        return copy;
    }
    let mut i: usize = 0;
    proof {
        assert(t@.skip(0) =~= t@);
        assert(out@ + replaced(t@, pat@, sub@) =~= replaced(t@, pat@, sub@));
    }
    while i < n
        invariant
            0 <= i <= n,
            n == t@.len(),
            m == pat@.len(),
            m >= 1,
            out@ + replaced(t@.skip(i as int), pat@, sub@) == replaced(t@, pat@, sub@),
        decreases n - i,
    {
        let ghost pre = out@;
        let ghost tail = t@.skip(i as int);
        if m <= n - i {
            let is_match = window_matches(t, pat, i, m, n);
            proof {
                assert(tail.take(m as int) =~= t@.subrange(i as int, i as int + m as int));
            }
            if is_match {
                out.append(sub);
                proof {
                    assert(tail.skip(m as int) =~= t@.skip(i as int + m as int));
                    assert(replaced(tail, pat@, sub@) == sub@ + replaced(
                        t@.skip(i as int + m as int),
                        pat@,
                        sub@,
                    ));
                    assert((pre + sub@) + replaced(t@.skip(i as int + m as int), pat@, sub@) =~= pre
                        + (sub@ + replaced(t@.skip(i as int + m as int), pat@, sub@)));
                }
                i = i + m;
            } else {
                let one = t.substring_char(i, i + 1);
                out.append(one);
                proof {
                    assert(seq![tail[0]] =~= t@.subrange(i as int, i as int + 1));
                    assert(tail.drop_first() =~= t@.skip(i as int + 1));
                    assert(replaced(tail, pat@, sub@) == seq![tail[0]] + replaced(
                        t@.skip(i as int + 1),
                        pat@,
                        sub@,
                    ));
                    assert((pre + one@) + replaced(t@.skip(i as int + 1), pat@, sub@) =~= pre + (
                    seq![tail[0]] + replaced(t@.skip(i as int + 1), pat@, sub@)));
                }
                i = i + 1;
            }
        } else {
            let rest = t.substring_char(i, n);
            out.append(rest);
            proof {
                lemma_replaced_short(tail, pat@, sub@);
                assert(t@.subrange(i as int, n as int) =~= tail);
            }
            i = n;
        }
    }
    proof {
        assert(t@.skip(n as int) =~= Seq::<char>::empty());
        lemma_replaced_short(t@.skip(n as int), pat@, sub@);
        assert(out@ + Seq::<char>::empty() =~= out@);
    }
    out
}

} // verus!
