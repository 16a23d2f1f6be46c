//! Text primitives shared by the record and farm formats: conversion
//! between strings and characters, comparison with a literal, and
//! lowercasing.

use vstd::prelude::*;

verus! {

/// `String::push` appends exactly one character at the end of the string.
pub assume_specification[ String::push ](s: &mut String, c: char)
    ensures
        final(s)@ == old(s)@.push(c),
;

/// The Unicode lowercase form of a text, as `str::to_lowercase` computes it.
pub uninterp spec fn minuscules(s: Seq<char>) -> Seq<char>;

/// Every character lies in the first 256 code points.
pub open spec fn est_latin1(s: Seq<char>) -> bool {
    forall|i: int| 0 <= i < s.len() ==> (#[trigger] s[i] as u32) < 0x100
}

/// Lowercase mapping of the first 256 code points: the letters `A` to `Z`
/// and `U+00C0` to `U+00DE` (the multiplication sign `U+00D7` left out) move
/// up by 32, every other character stays.
pub open spec fn minuscule_latin1(c: char) -> char {
    let n = c as u32;
    if (0x41 <= n <= 0x5A) || (0xC0 <= n <= 0xDE && n != 0xD7) {
        (n + 32) as char
    } else {
        c
    }
}

/// Character-wise lowercase form of a text of the first 256 code points.
pub open spec fn minuscules_latin1(s: Seq<char>) -> Seq<char> {
    s.map_values(|c: char| minuscule_latin1(c))
}

/// Calls `str::to_lowercase`. The result is named `minuscules`; for a text
/// made only of the first 256 code points it is claimed to be the
/// character-wise mapping `minuscules_latin1`, which is what the Unicode
/// character database gives for these characters (none of them expands to
/// several characters or depends on its neighbours).
#[verifier::external_body]
pub(crate) fn en_minuscules(s: &str) -> (r: String)
    ensures
        r@ == minuscules(s@),
        est_latin1(s@) ==> r@ == minuscules_latin1(s@),
{
    s.to_lowercase()
}

/// The characters of `s`, in order.
pub fn chars_of(s: &str) -> (v: Vec<char>)
    ensures
        v@ == s@,
{
    let mut v: Vec<char> = Vec::new();
    for c in it: s.chars()
        invariant
            v@ == it.seq().take(it.index() as int),
            it.seq() == s@,
    {
        v.push(c);
    }
    v
}

/// Appends the characters of `t` to `out`.
pub fn push_chars(out: &mut String, t: &[char])
    ensures
        final(out)@ == old(out)@ + t@,
{
    let mut i: usize = 0;
    while i < t.len()
        invariant
            i <= t.len(),
            out@ == old(out)@ + t@.take(i as int),
        decreases t.len() - i,
    {
        out.push(t[i]);
        i += 1;
    }
}

/// The string made of the characters of `t`.
pub fn string_of(t: &[char]) -> (s: String)
    ensures
        s@ == t@,
{
    let mut s = String::new();
    push_chars(&mut s, t);
    s
}

/// Appends the text `t` to `out`.
pub fn push_text(out: &mut String, t: &str)
    ensures
        final(out)@ == old(out)@ + t@,
{
    let ghost avant = out@;
    for c in it: t.chars()
        invariant
            out@ == avant + it.seq().take(it.index() as int),
            it.seq() == t@,
    {
        out.push(c);
    }
}

/// Whether the characters of `champ` spell exactly the text `t`.
pub fn same_text(champ: &[char], t: &str) -> (r: bool)
    ensures
        r == (champ@ == t@),
{
    let mut i: usize = 0;
    for c in it: t.chars()
        invariant
            it.seq() == t@,
            i == it.index(),
            i <= champ.len(),
            champ@.take(i as int) == t@.take(i as int),
    {
        if i >= champ.len() || champ[i] != c {
            return false;
        }
        i += 1;
    }
    proof {
        assert(t@.take(t@.len() as int) == t@);
        if i == champ.len() {
            assert(champ@.take(i as int) == champ@);
        }
    }
    i == champ.len()
}

} // verus!
