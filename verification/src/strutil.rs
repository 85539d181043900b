//! Character-exact string helpers: splitting a hotkey combination on
//! `'+'`, substring search, and prefix tests.

use vstd::prelude::*;

verus! {

/// Whether `n` occurs in `h` starting at position `i`.
pub open spec fn is_substring_at(h: Seq<char>, n: Seq<char>, i: int) -> bool {
    0 <= i && i + n.len() <= h.len() && h.subrange(i, i + n.len()) == n
}

/// Whether `n` occurs anywhere in `h`.
pub open spec fn seq_contains_seq(h: Seq<char>, n: Seq<char>) -> bool {
    exists|i: int| is_substring_at(h, n, i)
}

/// Whether `p` is a prefix of `h`.
pub open spec fn seq_starts_with(h: Seq<char>, p: Seq<char>) -> bool {
    is_substring_at(h, p, 0)
}

/// The position of the first `'+'` in `s` (meaningful only when one occurs).
pub open spec fn first_plus_index(s: Seq<char>) -> int
    decreases s.len(),
{
    if s.len() == 0 {
        0
    } else if s[0] == '+' {
        0
    } else {
        1 + first_plus_index(s.drop_first())
    }
}

/// The first `'+'` is in bounds, holds a `'+'`, and nothing before it does.
pub proof fn lemma_first_plus_index(s: Seq<char>)
    requires
        s.contains('+'),
    ensures
        0 <= first_plus_index(s) < s.len(),
        s[first_plus_index(s)] == '+',
        forall|j: int| 0 <= j < first_plus_index(s) ==> s[j] != '+',
    decreases s.len(),
{
    if s.len() == 0 {
    } else if s[0] == '+' {
    } else {
        let w = choose|w: int| 0 <= w < s.len() && s[w] == '+';
        assert(s.drop_first()[w - 1] == '+');
        assert(s.drop_first().contains('+'));
        lemma_first_plus_index(s.drop_first());
        assert forall|j: int| 0 <= j < first_plus_index(s) implies s[j] != '+' by {
            if j > 0 {
                assert(s.drop_first()[j - 1] != '+');
            }
        }
    }
}

/// The parts of `s` between its `'+'` separators, in order. Splitting
/// never yields an empty list: a string without `'+'` is one part.
pub open spec fn split_plus(s: Seq<char>) -> Seq<Seq<char>>
    decreases s.len(),
    via split_plus_dec
{
    if s.contains('+') {
        seq![s.take(first_plus_index(s))] + split_plus(s.skip(first_plus_index(s) + 1))
    } else {
        seq![s]
    }
}

#[via_fn]
proof fn split_plus_dec(s: Seq<char>) {
    if s.contains('+') {
        lemma_first_plus_index(s);
    }
}

/// A split always has at least one part.
pub proof fn lemma_split_plus_nonempty(s: Seq<char>)
    ensures
        split_plus(s).len() >= 1,
    decreases s.len(),
{
    if s.contains('+') {
        lemma_first_plus_index(s);
    }
}

/// Splitting a string that opens with a separator-free part `a`
/// followed by `'+'` peels `a` off the front.
pub proof fn lemma_split_plus_step(a: Seq<char>, b: Seq<char>)
    requires
        !a.contains('+'),
    ensures
        split_plus(a + seq!['+'] + b) == seq![a] + split_plus(b),
{
    let s = a + seq!['+'] + b;
    assert(s[a.len() as int] == '+');
    assert(s.contains('+'));
    lemma_first_plus_index(s);
    let f = first_plus_index(s);
    assert(f >= a.len()) by {
        if f < a.len() {
            assert(a[f] == s[f]);
        }
    }
    assert(f <= a.len()) by {
        if f > a.len() {
            assert(s[a.len() as int] != '+');
        }
    }
    assert(s.take(f) =~= a);
    assert(s.skip(f + 1) =~= b);
}

/// Decides whether `n` occurs in `h` starting exactly at `i`.
fn match_at(hay: &str, needle: &str, i: usize, hay_len: usize, needle_len: usize) -> (r: bool)
    requires
        hay_len == hay@.len(),
        needle_len == needle@.len(),
        i + needle_len <= hay_len,
    ensures
        r == is_substring_at(hay@, needle@, i as int),
{
    let mut j: usize = 0;
    while j < needle_len
        invariant
            0 <= j <= needle_len,
            hay_len == hay@.len(),
            needle_len == needle@.len(),
            i + needle_len <= hay_len,
            forall|k: int| 0 <= k < j ==> hay@[i + k] == needle@[k],
        decreases needle_len - j,
    {
        if hay.get_char(i + j) != needle.get_char(j) {
            proof {
                let sub = hay@.subrange(i as int, i as int + needle@.len());
                assert(sub[j as int] == hay@[i + j]);
            }
            return false;
        }
        j += 1;
    }
    proof {
        assert(hay@.subrange(i as int, i as int + needle@.len()) =~= needle@);
    }
    true
}

/// Substring search, e.g. whether a key's name mentions the hotkey's
/// main key.
pub fn str_contains(hay: &str, needle: &str) -> (r: bool)
    ensures
        r == seq_contains_seq(hay@, needle@),
{
    let hay_len = hay.unicode_len();
    let needle_len = needle.unicode_len();
    if needle_len > hay_len {
        return false;
    }
    if needle_len == 0 {
        proof {
            assert(hay@.subrange(0, 0) =~= needle@);
            assert(is_substring_at(hay@, needle@, 0));
        }
        return true;
    }
    let limit = hay_len - needle_len;
    let mut i: usize = 0;
    while i <= limit
        invariant
            hay_len == hay@.len(),
            needle_len == needle@.len(),
            1 <= needle_len <= hay_len,
            limit == hay_len - needle_len,
            0 <= i <= limit + 1,
            forall|k: int| 0 <= k < i ==> !is_substring_at(hay@, needle@, k),
        decreases limit + 1 - i,
    {
        if match_at(hay, needle, i, hay_len, needle_len) {
            return true;
        }
        i += 1;
    }
    false
}

/// Prefix test, e.g. whether a log target names this application.
pub fn str_starts_with(hay: &str, prefix: &str) -> (r: bool)
    ensures
        r == seq_starts_with(hay@, prefix@),
{
    let hay_len = hay.unicode_len();
    let prefix_len = prefix.unicode_len();
    if prefix_len > hay_len {
        return false;
    }
    match_at(hay, prefix, 0, hay_len, prefix_len)
}

/// Character-exact equality of two string slices.
pub fn str_eq_str(a: &str, b: &str) -> (r: bool)
    ensures
        r == (a@ == b@),
{
    let a_len = a.unicode_len();
    let b_len = b.unicode_len();
    if a_len != b_len {
        return false;
    }
    let r = match_at(a, b, 0, a_len, b_len);
    proof {
        assert(a@.subrange(0, a@.len() as int) =~= a@);
    }
    r
}

/// Splits `s` on `'+'`, e.g. a hotkey combination into its key names.
pub fn split_parts(s: &str) -> (parts: Vec<String>)
    ensures
        parts@.map_values(|p: String| p@) == split_plus(s@),
        parts@.len() >= 1,
{
    let n = s.unicode_len();
    let mut parts: Vec<String> = Vec::new();
    let mut start: usize = 0;
    let mut i: usize = 0;
    proof {
        assert(s@.skip(0) =~= s@);
        assert(parts@.map_values(|p: String| p@) + split_plus(s@) =~= split_plus(s@));
    }
    while i < n
        invariant
            0 <= start <= i <= n,
            n == s@.len(),
            split_plus(s@) == parts@.map_values(|p: String| p@) + split_plus(
                s@.skip(start as int),
            ),
            forall|j: int| start <= j < i ==> s@[j] != '+',
        decreases n - i,
    {
        if s.get_char(i) == '+' {
            let piece = s.substring_char(start, i).to_owned();
            proof {
                let sub = s@.subrange(start as int, i as int);
                assert(!sub.contains('+')) by {
                    if sub.contains('+') {
                        let j = choose|j: int| 0 <= j < sub.len() && sub[j] == '+';
                        assert(s@[start + j] == '+');
                    }
                }
                lemma_split_plus_step(sub, s@.skip(i as int + 1));
                assert(s@.skip(start as int) =~= sub + seq!['+'] + s@.skip(i as int + 1));
                assert(parts@.push(piece).map_values(|p: String| p@) =~= parts@.map_values(
                    |p: String| p@,
                ).push(piece@));
            }
            parts.push(piece);
            start = i + 1;
        }
        i += 1;
    }
    let piece = s.substring_char(start, n).to_owned();
    proof {
        let sub = s@.subrange(start as int, n as int);
        assert(!sub.contains('+')) by {
            if sub.contains('+') {
                let j = choose|j: int| 0 <= j < sub.len() && sub[j] == '+';
                assert(s@[start + j] == '+');
            }
        }
        assert(s@.skip(start as int) =~= sub);
        assert(parts@.push(piece).map_values(|p: String| p@) =~= parts@.map_values(
            |p: String| p@,
        ).push(piece@));
        assert(parts@.map_values(|p: String| p@).push(piece@) =~= parts@.map_values(
            |p: String| p@,
        ) + seq![sub]);
    }
    parts.push(piece);
    parts
}

} // verus!
