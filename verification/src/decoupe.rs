//! Splitting a text on a separator character, and into lines.

use vstd::prelude::*;
use vstd::slice::slice_subrange;

verus! {

/// The fields of `s` between the occurrences of `sep`: one more than there
/// are separators, an empty text giving one empty field.
pub open spec fn spec_decouper(s: Seq<char>, sep: char) -> Seq<Seq<char>>
    decreases s.len(),
{
    if s.len() == 0 {
        seq![Seq::<char>::empty()]
    } else {
        let avant = spec_decouper(s.drop_last(), sep);
        if s.last() == sep {
            avant.push(Seq::<char>::empty())
        } else {
            avant.update(avant.len() - 1, avant.last().push(s.last()))
        }
    }
}

/// `l` without one trailing carriage return, if it has one.
pub open spec fn sans_retour(l: Seq<char>) -> Seq<char> {
    if l.len() > 0 && l.last() == '\r' {
        l.drop_last()
    } else {
        l
    }
}

/// The lines of a text. A line ends at a line feed, which does not belong
/// to it, nor does a carriage return just before the line feed. What
/// follows the last line feed is a line too, unless it is empty.
pub open spec fn spec_lignes(s: Seq<char>) -> Seq<Seq<char>> {
    let parts = spec_decouper(s, '\n');
    let finies = parts.drop_last().map_values(|l: Seq<char>| sans_retour(l));
    if parts.last().len() > 0 {
        finies.push(parts.last())
    } else {
        finies
    }
}

/// The texts `ls`, each followed by a line feed.
pub open spec fn jointes(ls: Seq<Seq<char>>) -> Seq<char>
    decreases ls.len(),
{
    if ls.len() == 0 {
        Seq::<char>::empty()
    } else {
        jointes(ls.drop_last()) + ls.last() + seq!['\n']
    }
}

/// The views of a sequence of slices.
pub open spec fn vues(v: Seq<&[char]>) -> Seq<Seq<char>> {
    v.map_values(|t: &[char]| t@)
}

/// Two texts without the character `c`, put together, hold no `c`.
pub proof fn lemma_suite_sans(a: Seq<char>, b: Seq<char>, c: char)
    requires
        !a.contains(c),
        !b.contains(c),
    ensures
        !(a + b).contains(c),
{
    if (a + b).contains(c) {
        let i = choose|i: int| 0 <= i < (a + b).len() && (a + b)[i] == c;
        if i < a.len() {
            assert(a[i] == c);
        } else {
            assert(b[i - a.len()] == c);
        }
    }
}

/// A split always has at least one field.
pub proof fn lemma_decouper_non_vide(s: Seq<char>, sep: char)
    ensures
        spec_decouper(s, sep).len() >= 1,
    decreases s.len(),
{
    if s.len() > 0 {
        lemma_decouper_non_vide(s.drop_last(), sep);
    }
}

/// Appending a text without separator lengthens the last field by it.
pub proof fn lemma_decouper_suite(a: Seq<char>, b: Seq<char>, sep: char)
    requires
        !b.contains(sep),
    ensures
        spec_decouper(a + b, sep) == spec_decouper(a, sep).update(
            spec_decouper(a, sep).len() - 1,
            spec_decouper(a, sep).last() + b,
        ),
    decreases b.len(),
{
    let d = spec_decouper(a, sep);
    lemma_decouper_non_vide(a, sep);
    if b.len() > 0 {
        let b0 = b.drop_last();
        assert(!b0.contains(sep)) by {
            if b0.contains(sep) {
                let i = choose|i: int| 0 <= i < b0.len() && b0[i] == sep;
                assert(b[i] == sep);
            }
        }
        assert(b.last() != sep) by {
            assert(b[b.len() - 1] == b.last());
        }
        lemma_decouper_suite(a, b0, sep);
        assert((a + b).drop_last() == a + b0);
        assert(d.last() + b == (d.last() + b0).push(b.last()));
    }
}

/// A text without separator is one field.
pub proof fn lemma_decouper_un_champ(s: Seq<char>, sep: char)
    requires
        !s.contains(sep),
    ensures
        spec_decouper(s, sep) == seq![s],
{
    lemma_decouper_suite(Seq::<char>::empty(), s, sep);
}

/// After a separator a new field begins: a text without separator that
/// follows it is the last field.
pub proof fn lemma_decouper_champ(a: Seq<char>, b: Seq<char>, sep: char)
    requires
        !b.contains(sep),
    ensures
        spec_decouper(a + seq![sep] + b, sep) == spec_decouper(a, sep).push(b),
{
    let a1 = a + seq![sep];
    assert(a1.drop_last() == a);
    lemma_decouper_suite(a1, b, sep);
}

/// Texts without line feed, each followed by one, split at the line feeds
/// into themselves and an empty rest.
pub proof fn lemma_decouper_jointes(ls: Seq<Seq<char>>)
    requires
        forall|i: int| 0 <= i < ls.len() ==> !(#[trigger] ls[i]).contains('\n'),
    ensures
        spec_decouper(jointes(ls), '\n') == ls.push(Seq::<char>::empty()),
    decreases ls.len(),
{
    if ls.len() > 0 {
        let avant = ls.drop_last();
        lemma_decouper_jointes(avant);
        lemma_decouper_suite(jointes(avant), ls.last(), '\n');
        assert(jointes(ls).drop_last() == jointes(avant) + ls.last());
    }
}

/// Splits `t` at each occurrence of `sep`.
pub fn decouper<'a>(t: &'a [char], sep: char) -> (champs: Vec<&'a [char]>)
    ensures
        vues(champs@) == spec_decouper(t@, sep),
        champs.len() >= 1,
{
    let mut champs: Vec<&'a [char]> = Vec::new();
    let mut debut: usize = 0;
    let mut i: usize = 0;
    assert(t@.subrange(0, 0) == Seq::<char>::empty());
    while i < t.len()
        invariant
            debut <= i <= t.len(),
            spec_decouper(t@.take(i as int), sep) == vues(champs@).push(
                t@.subrange(debut as int, i as int),
            ),
        decreases t.len() - i,
    {
        assert(t@.take(i + 1).drop_last() == t@.take(i as int));
        if t[i] == sep {
            let champ = slice_subrange(t, debut, i);
            champs.push(champ);
            debut = i + 1;
            assert(t@.subrange(debut as int, i + 1) == Seq::<char>::empty());
        } else {
            assert(t@.subrange(debut as int, i + 1) == t@.subrange(debut as int, i as int).push(
                t@[i as int],
            ));
        }
        i += 1;
    }
    assert(t@.take(t.len() as int) == t@);
    champs.push(slice_subrange(t, debut, t.len()));
    champs
}

/// `l` without one trailing carriage return, if it has one.
pub fn retirer_retour<'a>(l: &'a [char]) -> (r: &'a [char])
    ensures
        r@ == sans_retour(l@),
{
    let n: usize = l.len();
    if n > 0 && l[n - 1] == '\r' {
        slice_subrange(l, 0, n - 1)
    } else {
        l
    }
}

/// The lines of `t`.
pub fn lignes<'a>(t: &'a [char]) -> (ls: Vec<&'a [char]>)
    ensures
        vues(ls@) == spec_lignes(t@),
{
    let parts = decouper(t, '\n');
    let n: usize = parts.len();
    let ghost finies = vues(parts@).drop_last().map_values(|l: Seq<char>| sans_retour(l));
    let mut ls: Vec<&'a [char]> = Vec::new();
    let mut k: usize = 0;
    while k + 1 < n
        invariant
            n == parts.len(),
            n >= 1,
            k + 1 <= n,
            finies == vues(parts@).drop_last().map_values(|l: Seq<char>| sans_retour(l)),
            vues(ls@) == finies.take(k as int),
        decreases n - k,
    {
        ls.push(retirer_retour(parts[k]));
        assert(finies.take(k + 1) == finies.take(k as int).push(finies[k as int]));
        k += 1;
    }
    let dernier = parts[n - 1];
    if dernier.len() > 0 {
        let ghost avant = vues(ls@);
        ls.push(dernier);
        assert(vues(ls@) == avant.push(dernier@));
    }
    ls
}

} // verus!
