//! Character-level helpers on strings: conversion, prefixes, splitting on a
//! delimiter and literal replacement.

use vstd::prelude::*;

verus! {

/// Specifies `String::push` of the standard library: the character is appended
/// to the end of the string and nothing else changes.
pub assume_specification[ String::push ](s: &mut String, c: char)
    ensures
        final(s)@ == old(s)@.push(c),
;

/// The characters of `s`, in order.
pub fn chars_of(s: &str) -> (out: Vec<char>)
    ensures
        out@ == s@,
{
    let mut out: Vec<char> = Vec::new();
    for c in it: s.chars()
        invariant
            it.seq() == s@,
            out@ == it.seq().take(it.index()),
    {
        out.push(c);
    }
    out
}

/// The string made of the characters `v[from..to]`.
pub fn string_of(v: &Vec<char>, from: usize, to: usize) -> (out: String)
    requires
        from <= to <= v.len(),
    ensures
        out@ == v@.subrange(from as int, to as int),
{
    let mut out = String::new();
    let mut i: usize = from;
    while i < to
        invariant
            from <= i <= to <= v.len(),
            out@ == v@.subrange(from as int, i as int),
        decreases to - i,
    {
        out.push(v[i]);
        i += 1;
    }
    out
}

/// The view of an optional string.
pub open spec fn text_of(o: Option<String>) -> Option<Seq<char>> {
    match o {
        Some(s) => Some(s@),
        None => None,
    }
}

/// A copy of an optional string.
pub fn copy_text(o: &Option<String>) -> (out: Option<String>)
    ensures
        text_of(out) == text_of(*o),
{
    match o {
        Some(s) => Some(s.clone()),
        None => None,
    }
}

/// `p` occurs in `s` at position `at`.
pub open spec fn occurs_at(s: Seq<char>, p: Seq<char>, at: int) -> bool {
    0 <= at && at + p.len() <= s.len() && s.subrange(at, at + p.len()) == p
}

/// The parts of `s[start..]` between occurrences of the delimiter `d`, given
/// that none starts in `start..at`. Occurrences are taken from left to right
/// and do not overlap. An empty delimiter separates nothing.
pub open spec fn split_from(s: Seq<char>, d: Seq<char>, start: int, at: int) -> Seq<Seq<char>>
    decreases s.len() - at,
{
    if d.len() == 0 || start < 0 || at < start || at + d.len() > s.len() {
        seq![s.subrange(start, s.len() as int)]
    } else if occurs_at(s, d, at) {
        seq![s.subrange(start, at)] + split_from(s, d, at + d.len(), at + d.len())
    } else {
        split_from(s, d, start, at + 1)
    }
}

/// The parts of `s` between occurrences of the delimiter `d`.
pub open spec fn split(s: Seq<char>, d: Seq<char>) -> Seq<Seq<char>> {
    split_from(s, d, 0, 0)
}

/// `s[at..]` with every occurrence of `pat` replaced by `to`, occurrences taken
/// from left to right without overlap. An empty pattern replaces nothing.
pub open spec fn replace_from(s: Seq<char>, pat: Seq<char>, to: Seq<char>, at: int) -> Seq<char>
    decreases s.len() - at,
{
    if at < 0 || at >= s.len() {
        Seq::empty()
    } else if pat.len() > 0 && occurs_at(s, pat, at) {
        to + replace_from(s, pat, to, at + pat.len())
    } else {
        seq![s[at]] + replace_from(s, pat, to, at + 1)
    }
}

/// `s` with every occurrence of `pat` replaced by `to`.
pub open spec fn replace_all(s: Seq<char>, pat: Seq<char>, to: Seq<char>) -> Seq<char> {
    replace_from(s, pat, to, 0)
}

/// The views of a list of strings.
pub open spec fn views(v: Seq<String>) -> Seq<Seq<char>> {
    Seq::new(v.len(), |i: int| v[i]@)
}

/// Whether `p` occurs in `s` at position `at`.
pub fn matches_at(s: &Vec<char>, p: &Vec<char>, at: usize) -> (r: bool)
    ensures
        r == occurs_at(s@, p@, at as int),
{
    if p.len() > s.len() || at > s.len() - p.len() {
        return false;
    }
    let mut i: usize = 0;
    while i < p.len()
        invariant
            i <= p.len(),
            at + p.len() <= s.len(),
            forall|j: int| 0 <= j < i ==> s@[at + j] == p@[j],
        decreases p.len() - i,
    {
        if s[at + i] != p[i] {
            assert(s@.subrange(at as int, at + p.len())[i as int] != p@[i as int]);
            return false;
        }
        i += 1;
    }
    assert(s@.subrange(at as int, at + p.len()) =~= p@);
    true
}

/// Whether `s` begins with `p`.
pub fn starts_with(s: &Vec<char>, p: &str) -> (r: bool)
    ensures
        r == p@.is_prefix_of(s@),
{
    let pat = chars_of(p);
    matches_at(s, &pat, 0)
}

/// Whether `s` is exactly `p`.
pub fn is_text(s: &Vec<char>, p: &str) -> (r: bool)
    ensures
        r == (s@ == p@),
{
    let pat = chars_of(p);
    let r = pat.len() == s.len() && matches_at(s, &pat, 0);
    proof {
        if r {
            assert(s@.subrange(0, s@.len() as int) =~= s@);
        }
        if s@ == p@ {
            assert(s@.subrange(0, s@.len() as int) =~= s@);
        }
    }
    r
}

/// Splits `s` on the delimiter `d`.
pub fn split_on(s: &Vec<char>, d: &Vec<char>) -> (parts: Vec<String>)
    ensures
        views(parts@) == split(s@, d@),
{
    let mut parts: Vec<String> = Vec::new();
    let n = s.len();
    if d.len() == 0 || d.len() > n {
        parts.push(string_of(s, 0, n));
        assert(views(parts@) =~= split(s@, d@));
        return parts;
    }
    let last = n - d.len();
    let mut start: usize = 0;
    let mut at: usize = 0;
    while at <= last
        invariant
            0 < d.len() <= n,
            n == s.len(),
            last == n - d.len(),
            start <= at <= n,
            split(s@, d@) == views(parts@) + split_from(s@, d@, start as int, at as int),
        decreases n - at,
    {
        if matches_at(s, d, at) {
            let ghost before = views(parts@);
            parts.push(string_of(s, start, at));
            assert(views(parts@) =~= before.push(s@.subrange(start as int, at as int)));
            at = at + d.len();
            start = at;
            assert(views(parts@) + split_from(s@, d@, start as int, at as int) =~= split(s@, d@));
        } else {
            at = at + 1;
        }
    }
    let ghost before = views(parts@);
    parts.push(string_of(s, start, n));
    assert(views(parts@) =~= before.push(s@.subrange(start as int, n as int)));
    assert(views(parts@) =~= split(s@, d@));
    parts
}

/// Replaces every occurrence of `pat` in `s` by `to`.
pub fn replace(s: &Vec<char>, pat: &Vec<char>, to: &Vec<char>) -> (out: Vec<char>)
    ensures
        out@ == replace_all(s@, pat@, to@),
{
    let mut out: Vec<char> = Vec::new();
    let n = s.len();
    let mut at: usize = 0;
    while at < n
        invariant
            n == s.len(),
            at <= n,
            replace_all(s@, pat@, to@) == out@ + replace_from(s@, pat@, to@, at as int),
        decreases n - at,
    {
        if pat.len() > 0 && matches_at(s, pat, at) {
            let ghost before = out@;
            let mut j: usize = 0;
            while j < to.len()
                invariant
                    j <= to.len(),
                    out@ == before + to@.subrange(0, j as int),
                decreases to.len() - j,
            {
                out.push(to[j]);
                j += 1;
            }
            assert(to@.subrange(0, to@.len() as int) =~= to@);
            at = at + pat.len();
            assert(out@ + replace_from(s@, pat@, to@, at as int) =~= replace_all(s@, pat@, to@));
        } else {
            out.push(s[at]);
            at = at + 1;
            assert(out@ + replace_from(s@, pat@, to@, at as int) =~= replace_all(s@, pat@, to@));
        }
    }
    assert(out@ + replace_from(s@, pat@, to@, at as int) =~= out@);
    out
}

/// The characters of `v` from position `from` on.
pub fn skip_chars(v: &Vec<char>, from: usize) -> (out: Vec<char>)
    requires
        from <= v.len(),
    ensures
        out@ == v@.skip(from as int),
{
    let mut out: Vec<char> = Vec::new();
    let mut i: usize = from;
    while i < v.len()
        invariant
            from <= i <= v.len(),
            out@ == v@.subrange(from as int, i as int),
        decreases v.len() - i,
    {
        out.push(v[i]);
        i += 1;
    }
    out
}

/// Where the delimiter does not occur, nothing is split off: scanning from
/// any position gives the single part that is the whole text.
pub proof fn lemma_split_without_delimiter(s: Seq<char>, d: Seq<char>, at: int)
    requires
        0 <= at,
        forall|i: int| !occurs_at(s, d, i),
    ensures
        split_from(s, d, 0, at) == seq![s.subrange(0, s.len() as int)],
    decreases s.len() - at,
{
    if d.len() == 0 || at + d.len() > s.len() {
    } else {
        assert(!occurs_at(s, d, at));
        lemma_split_without_delimiter(s, d, at + 1);
    }
}

} // verus!
