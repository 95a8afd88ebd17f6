//! Verified helpers for the character-level string manipulation that the
//! engine needs: concatenation, locating the last occurrence of a separator,
//! taking the piece of a string before or after that separator, prefix tests,
//! equality, and trimming.

use vstd::prelude::*;

verus! {

/// Whether the character `c` occurs anywhere in `s`.
pub open spec fn contains_char(s: Seq<char>, c: char) -> bool {
    exists|i: int| 0 <= i < s.len() && s[i] == c
}

/// The index of the last occurrence of `c` in `s`, or `-1` when `c` does not
/// occur.
pub open spec fn last_index_of(s: Seq<char>, c: char) -> int
    decreases s.len(),
{
    if s.len() == 0 {
        -1
    } else if s[s.len() - 1] == c {
        s.len() - 1
    } else {
        last_index_of(s.drop_last(), c)
    }
}

/// The part of `s` after the last occurrence of `c` (the whole of `s` when
/// `c` does not occur, since then `last_index_of` is `-1`).
pub open spec fn after_last(s: Seq<char>, c: char) -> Seq<char> {
    s.subrange(last_index_of(s, c) + 1, s.len() as int)
}

/// The part of `s` strictly before the last occurrence of `c`.
pub open spec fn before_last(s: Seq<char>, c: char) -> Seq<char>
    recommends
        contains_char(s, c),
{
    s.subrange(0, last_index_of(s, c))
}

/// `last_index_of` finds an occurrence of `c` when there is one, finds the
/// last one, and is `-1` exactly when there is none.
pub proof fn lemma_last_index_of(s: Seq<char>, c: char)
    ensures
        contains_char(s, c) <==> 0 <= last_index_of(s, c),
        0 <= last_index_of(s, c) ==> {
            &&& last_index_of(s, c) < s.len()
            &&& s[last_index_of(s, c)] == c
            &&& forall|j: int| last_index_of(s, c) < j < s.len() ==> s[j] != c
        },
        !contains_char(s, c) ==> last_index_of(s, c) == -1,
    decreases s.len(),
{
    if s.len() == 0 {
        assert(!contains_char(s, c));
    } else if s[s.len() - 1] == c {
        assert(contains_char(s, c));
    } else {
        lemma_last_index_of(s.drop_last(), c);
        if contains_char(s, c) {
            let i = choose|i: int| 0 <= i < s.len() && s[i] == c;
            assert(s.drop_last()[i] == c);
            assert(contains_char(s.drop_last(), c));
        }
        if contains_char(s.drop_last(), c) {
            let i = choose|i: int| 0 <= i < s.drop_last().len() && s.drop_last()[i] == c;
            assert(s[i] == c);
            assert(contains_char(s, c));
        }
        assert forall|j: int| last_index_of(s, c) < j < s.len() implies s[j] != c by {
            if j < s.len() - 1 {
                assert(s[j] == s.drop_last()[j]);
            }
        }
    }
}

/// An index that holds `c` and is followed by no further `c` is exactly
/// `last_index_of`.
pub proof fn lemma_last_index_unique(s: Seq<char>, c: char, i: int)
    requires
        0 <= i < s.len(),
        s[i] == c,
        forall|j: int| i < j < s.len() ==> s[j] != c,
    ensures
        last_index_of(s, c) == i,
{
    lemma_last_index_of(s, c);
    assert(contains_char(s, c));
    let l = last_index_of(s, c);
    if l < i {
        assert(s[i] != c);
    }
    if l > i {
        assert(s[l] != c);
    }
}

/// The index of the last occurrence of `c` in `s`, if any.
pub fn rfind_char(s: &str, c: char) -> (r: Option<usize>)
    ensures
        match r {
            Some(i) => i < s@.len() && last_index_of(s@, c) == i && s@[i as int] == c,
            None => !contains_char(s@, c) && last_index_of(s@, c) == -1,
        },
{
    let n = s.unicode_len();
    let mut best: Option<usize> = None;
    let mut i: usize = 0;
    while i < n
        invariant
            i <= n,
            n == s@.len(),
            match best {
                Some(b) => b < i && s@[b as int] == c && forall|j: int| b < j < i ==> s@[j] != c,
                None => forall|j: int| 0 <= j < i ==> s@[j] != c,
            },
        decreases n - i,
    {
        let ch = s.get_char(i);
        if ch == c {
            best = Some(i);
        }
        i = i + 1;
    }
    proof {
        match best {
            Some(b) => lemma_last_index_unique(s@, c, b as int),
            None => {
                assert(!contains_char(s@, c));
                lemma_last_index_of(s@, c);
            },
        }
    }
    best
}

/// Whether `c` occurs anywhere in `s`.
pub fn str_contains_char(s: &str, c: char) -> (b: bool)
    ensures
        b == contains_char(s@, c),
{
    match rfind_char(s, c) {
        Some(_) => true,
        None => false,
    }
}

/// The part of `s` after the last occurrence of `c`, or `None` when `c` does
/// not occur in `s`.
pub fn last_segment_after(s: &str, c: char) -> (r: Option<String>)
    ensures
        r is Some <==> contains_char(s@, c),
        r matches Some(t) ==> t@ == after_last(s@, c),
{
    let n = s.unicode_len();
    match rfind_char(s, c) {
        Some(i) => Some(s.substring_char(i + 1, n).to_owned()),
        None => None,
    }
}

/// The part of `s` strictly before the last occurrence of `c`, or `None`
/// when `c` does not occur in `s`.
pub fn prefix_before_last(s: &str, c: char) -> (r: Option<String>)
    ensures
        r is Some <==> contains_char(s@, c),
        r matches Some(t) ==> t@ == before_last(s@, c),
{
    match rfind_char(s, c) {
        Some(i) => Some(s.substring_char(0, i).to_owned()),
        None => None,
    }
}

/// Whether `p` is a prefix of `s`.
pub open spec fn has_prefix(s: Seq<char>, p: Seq<char>) -> bool {
    p.len() <= s.len() && forall|i: int| 0 <= i < p.len() ==> s[i] == p[i]
}

/// Whether the string `s` starts with `p`.
pub fn starts_with_str(s: &str, p: &str) -> (b: bool)
    ensures
        b == has_prefix(s@, p@),
{
    let n = s.unicode_len();
    let m = p.unicode_len();
    if m > n {
        return false;
    }
    let mut i: usize = 0;
    while i < m
        invariant
            i <= m,
            m <= n,
            n == s@.len(),
            m == p@.len(),
            forall|j: int| 0 <= j < i ==> s@[j] == p@[j],
        decreases m - i,
    {
        if s.get_char(i) != p.get_char(i) {
            return false;
        }
        i = i + 1;
    }
    true
}

/// Whether two strings hold the same characters.
pub fn str_eq(a: &str, b: &str) -> (r: bool)
    ensures
        r == (a@ == b@),
{
    let n = a.unicode_len();
    let m = b.unicode_len();
    if n != m {
        return false;
    }
    let mut i: usize = 0;
    while i < n
        invariant
            i <= n,
            n == a@.len(),
            n == b@.len(),
            forall|j: int| 0 <= j < i ==> a@[j] == b@[j],
        decreases n - i,
    {
        if a.get_char(i) != b.get_char(i) {
            return false;
        }
        i = i + 1;
    }
    proof {
        assert(a@ =~= b@);
    }
    true
}

/// `s` with every trailing occurrence of `c` removed.
pub open spec fn trim_end_spec(s: Seq<char>, c: char) -> Seq<char>
    decreases s.len(),
{
    if s.len() > 0 && s[s.len() - 1] == c {
        trim_end_spec(s.drop_last(), c)
    } else {
        s
    }
}

/// The string `s` with every trailing occurrence of `c` removed.
pub fn trim_end_char(s: &str, c: char) -> (r: String)
    ensures
        r@ == trim_end_spec(s@, c),
{
    let n = s.unicode_len();
    let mut e = n;
    proof {
        assert(s@.subrange(0, n as int) =~= s@);
    }
    loop
        invariant_except_break
            e <= n,
            n == s@.len(),
            trim_end_spec(s@, c) == trim_end_spec(s@.subrange(0, e as int), c),
        ensures
            e <= n,
            n == s@.len(),
            trim_end_spec(s@, c) == s@.subrange(0, e as int),
        decreases e,
    {
        if e == 0 {
            proof {
                assert(s@.subrange(0, 0) =~= Seq::<char>::empty());
            }
            break;
        }
        if s.get_char(e - 1) != c {
            break;
        }
        proof {
            assert(s@.subrange(0, e as int).drop_last() =~= s@.subrange(0, e as int - 1));
        }
        e = e - 1;
    }
    s.substring_char(0, e).to_owned()
}

/// The concatenation of two string slices.
pub fn concat2(a: &str, b: &str) -> (r: String)
    ensures
        r@ == a@ + b@,
{
    let mut s = a.to_owned();
    s.append(b);
    s
}

/// The concatenation of three string slices.
pub fn concat3(a: &str, b: &str, c: &str) -> (r: String)
    ensures
        r@ == a@ + b@ + c@,
{
    let mut s = a.to_owned();
    s.append(b);
    s.append(c);
    s
}

/// The concatenation of four string slices.
pub fn concat4(a: &str, b: &str, c: &str, d: &str) -> (r: String)
    ensures
        r@ == a@ + b@ + c@ + d@,
{
    let mut s = a.to_owned();
    s.append(b);
    s.append(c);
    s.append(d);
    s
}

/// The concatenation of five string slices.
pub fn concat5(a: &str, b: &str, c: &str, d: &str, e: &str) -> (r: String)
    ensures
        r@ == a@ + b@ + c@ + d@ + e@,
{
    let mut s = a.to_owned();
    s.append(b);
    s.append(c);
    s.append(d);
    s.append(e);
    s
}

} // verus!
