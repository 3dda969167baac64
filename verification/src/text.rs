//! Character-level helpers on text: whitespace, trimming and searching.

use vstd::prelude::*;
use vstd::slice::slice_subrange;

verus! {

/// Whether `c` has the Unicode property `White_Space`.
pub open spec fn is_whitespace(c: char) -> bool {
    ||| ('\u{9}' <= c && c <= '\u{d}')
    ||| c == ' '
    ||| c == '\u{85}'
    ||| c == '\u{a0}'
    ||| c == '\u{1680}'
    ||| ('\u{2000}' <= c && c <= '\u{200a}')
    ||| c == '\u{2028}'
    ||| c == '\u{2029}'
    ||| c == '\u{202f}'
    ||| c == '\u{205f}'
    ||| c == '\u{3000}'
}

/// `s` without the whitespace at its start.
pub open spec fn trim_start(s: Seq<char>) -> Seq<char>
    decreases s.len(),
{
    if s.len() > 0 && is_whitespace(s[0]) {
        trim_start(s.drop_first())
    } else {
        s
    }
}

/// `s` without the whitespace at its end.
pub open spec fn trim_end(s: Seq<char>) -> Seq<char>
    decreases s.len(),
{
    if s.len() > 0 && is_whitespace(s.last()) {
        trim_end(s.drop_last())
    } else {
        s
    }
}

/// `s` without the whitespace at either end.
pub open spec fn trimmed(s: Seq<char>) -> Seq<char> {
    trim_end(trim_start(s))
}

/// Whether `s` is non-empty and its last character is `c`.
pub open spec fn ends_with(s: Seq<char>, c: char) -> bool {
    s.len() > 0 && s.last() == c
}

/// The number of characters of `s` that stand before the first `c`; the whole
/// length where `c` does not occur.
pub open spec fn prefix_len(s: Seq<char>, c: char) -> nat
    decreases s.len(),
{
    if s.len() == 0 || s[0] == c {
        0
    } else {
        1 + prefix_len(s.drop_first(), c)
    }
}

/// `prefix_len(s, c)` is the one index `k` with no `c` before it and either a
/// `c` at it or the end of `s`.
pub proof fn lemma_prefix_len(s: Seq<char>, c: char, k: int)
    requires
        0 <= k <= s.len(),
        forall|i: int| 0 <= i < k ==> s[i] != c,
        k == s.len() || s[k] == c,
    ensures
        prefix_len(s, c) == k,
    decreases k,
{
    if k > 0 {
        let t = s.drop_first();
        assert(forall|i: int| 0 <= i < k - 1 ==> t[i] == s[i + 1]);
        lemma_prefix_len(t, c, k - 1);
    }
}

/// `prefix_len` never exceeds the length, and reaches it exactly when the
/// character does not occur.
pub proof fn lemma_prefix_len_bounds(s: Seq<char>, c: char)
    ensures
        prefix_len(s, c) <= s.len(),
        prefix_len(s, c) == s.len() <==> !s.contains(c),
        forall|i: int| 0 <= i < prefix_len(s, c) ==> s[i] != c,
        prefix_len(s, c) < s.len() ==> s[prefix_len(s, c) as int] == c,
    decreases s.len(),
{
    if s.len() == 0 {
        assert(!s.contains(c));
    } else if s[0] == c {
        assert(s.contains(c));
    } else {
        let t = s.drop_first();
        lemma_prefix_len_bounds(t, c);
        let k = prefix_len(t, c) as int;
        assert forall|i: int| 0 <= i < k + 1 implies s[i] != c by {
            if i > 0 {
                assert(s[i] == t[i - 1]);
            }
        }
        if k < t.len() {
            assert(s[k + 1] == t[k]);
            assert(s.contains(c));
        } else {
            assert forall|i: int| 0 <= i < s.len() implies s[i] != c by {}
        }
    }
}

/// Removing `k` leading whitespace characters, where the next character is
/// none, is `trim_start`.
pub proof fn lemma_trim_start(s: Seq<char>, k: int)
    requires
        0 <= k <= s.len(),
        forall|i: int| 0 <= i < k ==> is_whitespace(s[i]),
        k == s.len() || !is_whitespace(s[k]),
    ensures
        trim_start(s) == s.subrange(k, s.len() as int),
    decreases k,
{
    if k > 0 {
        let t = s.drop_first();
        assert(forall|i: int| 0 <= i < k - 1 ==> t[i] == s[i + 1]);
        lemma_trim_start(t, k - 1);
        assert(t.subrange(k - 1, t.len() as int) =~= s.subrange(k, s.len() as int));
    } else {
        assert(s.subrange(0, s.len() as int) =~= s);
    }
}

/// Keeping the first `k` characters, where all behind them are whitespace
/// and the last one kept is none, is `trim_end`.
pub proof fn lemma_trim_end(s: Seq<char>, k: int)
    requires
        0 <= k <= s.len(),
        forall|i: int| k <= i < s.len() ==> is_whitespace(s[i]),
        k == 0 || !is_whitespace(s[k - 1]),
    ensures
        trim_end(s) == s.subrange(0, k),
    decreases s.len() - k,
{
    if k < s.len() {
        let t = s.drop_last();
        lemma_trim_end(t, k);
        assert(t.subrange(0, k) =~= s.subrange(0, k));
    } else {
        assert(s.subrange(0, s.len() as int) =~= s);
    }
}

/// Exec counterpart of [`is_whitespace`].
pub fn char_is_whitespace(c: char) -> (r: bool)
    ensures
        r == is_whitespace(c),
{
    ('\u{9}' <= c && c <= '\u{d}') || c == ' ' || c == '\u{85}' || c == '\u{a0}' || c == '\u{1680}'
        || ('\u{2000}' <= c && c <= '\u{200a}') || c == '\u{2028}' || c == '\u{2029}' || c
        == '\u{202f}' || c == '\u{205f}' || c == '\u{3000}'
}

/// The characters of `s`, in order.
pub fn chars_of(s: &str) -> (chars: Vec<char>)
    ensures
        chars@ == s@,
{
    broadcast use vstd::string::group_string_axioms;

    let mut chars: Vec<char> = Vec::new();
    for c in it: s.chars()
        invariant
            it.seq() == s@,
            chars@ == s@.take(it.index() as int),
    {
        chars.push(c);
        assert(chars@ =~= s@.take(it.index() + 1));
    }
    assert(chars@ =~= s@);
    chars
}

/// The index of the first `c` in `s`.
pub fn find_char(s: &[char], c: char) -> (r: Option<usize>)
    ensures
        match r {
            Some(i) => i < s@.len() && i == prefix_len(s@, c) && s@.contains(c),
            None => !s@.contains(c) && prefix_len(s@, c) == s@.len(),
        },
{
    let n: usize = s.len();
    let mut i: usize = 0;
    proof {
        lemma_prefix_len_bounds(s@, c);
    }
    while i < n
        invariant
            i <= n,
            n == s@.len(),
            forall|j: int| 0 <= j < i ==> s@[j] != c,
        decreases n - i,
    {
        if s[i] == c {
            proof {
                lemma_prefix_len(s@, c, i as int);
            }
            return Some(i);
        }
        i += 1;
    }
    proof {
        lemma_prefix_len(s@, c, n as int);
    }
    None
}

/// Whether `c` occurs in `s`.
pub fn contains_char(s: &[char], c: char) -> (r: bool)
    ensures
        r == s@.contains(c),
{
    find_char(s, c).is_some()
}

/// Whether the last character of `s` is `c`.
pub fn ends_with_char(s: &[char], c: char) -> (r: bool)
    ensures
        r == ends_with(s@, c),
{
    let n: usize = s.len();
    n > 0 && s[n - 1] == c
}

/// Whether the characters `s` spell `word`.
pub fn spells(s: &[char], word: &str) -> (r: bool)
    ensures
        r == (s@ == word@),
{
    broadcast use vstd::string::group_string_axioms;

    let n: usize = s.len();
    let mut i: usize = 0;
    let mut same: bool = true;
    for c in it: word.chars()
        invariant
            it.seq() == word@,
            n == s@.len(),
            same ==> i == it.index() && i <= n && s@.take(i as int) == word@.take(i as int),
            !same ==> s@ != word@,
    {
        if same {
            if i < n && s[i] == c {
                i += 1;
                assert(s@.take(i as int) =~= s@.take(i - 1).push(c));
                assert(word@.take(i as int) =~= word@.take(i - 1).push(c));
            } else {
                same = false;
            }
        }
    }
    assert(word@.take(word@.len() as int) =~= word@);
    assert(s@.take(n as int) =~= s@);
    same && i == n
}

/// Where the trimmed part of `s` begins and ends: the bounds of what is
/// left of `s` without the whitespace at either end.
pub fn trim_bounds(s: &[char]) -> (r: (usize, usize))
    ensures
        r.0 <= r.1 <= s@.len(),
        s@.subrange(r.0 as int, r.1 as int) == trimmed(s@),
{
    let n: usize = s.len();
    let mut start: usize = 0;
    while start < n && char_is_whitespace(s[start])
        invariant
            start <= n,
            n == s@.len(),
            forall|j: int| 0 <= j < start ==> is_whitespace(s@[j]),
        decreases n - start,
    {
        start += 1;
    }
    let mut end: usize = n;
    while end > start && char_is_whitespace(s[end - 1])
        invariant
            start <= end <= n,
            n == s@.len(),
            forall|j: int| end <= j < n ==> is_whitespace(s@[j]),
        decreases end,
    {
        end -= 1;
    }
    proof {
        let t = s@.subrange(start as int, n as int);
        lemma_trim_start(s@, start as int);
        lemma_trim_end(t, end - start);
        assert(t.subrange(0, end - start) =~= s@.subrange(start as int, end as int));
    }
    (start, end)
}

/// Whether `s`, without the whitespace around it, is `word`.
pub fn trimmed_spells(s: &str, word: &str) -> (r: bool)
    ensures
        r == (trimmed(s@) == word@),
{
    let chars: Vec<char> = chars_of(s);
    let (start, end) = trim_bounds(chars.as_slice());
    spells(slice_subrange(chars.as_slice(), start, end), word)
}

} // verus!
