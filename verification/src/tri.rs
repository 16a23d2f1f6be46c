//! Stable sorting of a list of creatures, by level or by category.

use crate::pokemon::{vue_liste, Pokemon, PokemonView};
use vstd::prelude::*;
use vstd::seq_lib::{to_multiset_insert, to_multiset_remove};

verus! {

/// What a list is sorted by.
#[derive(Debug, Clone, Copy, PartialEq, Eq, Structural)]
pub enum Critere {
    /// Highest level first.
    NiveauDecroissant,
    /// Display names of the categories in lexicographic order.
    TypeCroissant,
}

/// The number by which a creature is placed: the smaller comes first.
pub open spec fn cle(c: Critere, p: PokemonView) -> int {
    match c {
        Critere::NiveauDecroissant => -(p.niveau as int),
        Critere::TypeCroissant => p.pokemon_type.spec_rang() as int,
    }
}

/// No creature comes before one with a smaller key.
pub open spec fn est_trie(c: Critere, s: Seq<PokemonView>) -> bool {
    forall|i: int, j: int| 0 <= i < j < s.len() ==> cle(c, s[i]) <= cle(c, s[j])
}

/// The creatures of `s` whose key is `k`, in the order they have in `s`.
pub open spec fn groupe(c: Critere, s: Seq<PokemonView>, k: int) -> Seq<PokemonView> {
    s.filter(|p: PokemonView| cle(c, p) == k)
}

/// `apres` is `avant` sorted, the creatures of equal key in the order they
/// had: it holds the same creatures, each as often, it is sorted, and for
/// every key the creatures with that key follow each other as before.
pub open spec fn est_tri_stable(c: Critere, avant: Seq<PokemonView>, apres: Seq<PokemonView>) -> bool {
    &&& apres.len() == avant.len()
    &&& apres.to_multiset() == avant.to_multiset()
    &&& est_trie(c, apres)
    &&& forall|k: int| #[trigger] groupe(c, apres, k) == groupe(c, avant, k)
}

/// A list by level is sorted when the levels never increase.
pub proof fn lemma_trie_par_niveau(s: Seq<PokemonView>)
    ensures
        est_trie(Critere::NiveauDecroissant, s) <==> forall|i: int, j: int|
            0 <= i < j < s.len() ==> s[i].niveau >= s[j].niveau,
{
    if est_trie(Critere::NiveauDecroissant, s) {
        assert forall|i: int, j: int| 0 <= i < j < s.len() implies s[i].niveau >= s[j].niveau by {
            assert(cle(Critere::NiveauDecroissant, s[i]) <= cle(Critere::NiveauDecroissant, s[j]));
        }
    }
    if forall|i: int, j: int| 0 <= i < j < s.len() ==> s[i].niveau >= s[j].niveau {
        assert forall|i: int, j: int| 0 <= i < j < s.len() implies cle(
            Critere::NiveauDecroissant,
            s[i],
        ) <= cle(Critere::NiveauDecroissant, s[j]) by {
            assert(s[i].niveau >= s[j].niveau);
        }
    }
}

/// No creature of `s` has the key `k`: its group is empty.
proof fn lemma_groupe_vide(c: Critere, s: Seq<PokemonView>, k: int)
    requires
        forall|m: int| 0 <= m < s.len() ==> cle(c, #[trigger] s[m]) != k,
    ensures
        groupe(c, s, k).len() == 0,
    decreases s.len(),
{
    reveal(Seq::filter);
    if s.len() > 0 {
        let avant = s.drop_last();
        assert forall|m: int| 0 <= m < avant.len() implies cle(c, #[trigger] avant[m]) != k by {
            assert(avant[m] == s[m]);
        }
        lemma_groupe_vide(c, avant, k);
    }
}

/// Moving a creature towards the front, past creatures of other keys
/// only, changes no group.
pub proof fn lemma_deplacer_groupe(c: Critere, s: Seq<PokemonView>, i: int, j: int, k: int)
    requires
        0 <= j <= i < s.len(),
        forall|m: int| j <= m < i ==> cle(c, #[trigger] s[m]) != cle(c, s[i]),
    ensures
        groupe(c, s.remove(i).insert(j, s[i]), k) == groupe(c, s, k),
{
    let f = |p: PokemonView| cle(c, p) == k;
    let x = s[i];
    let a = s.subrange(0, j);
    let b = s.subrange(j, i);
    let un = seq![x];
    let d = s.subrange(i + 1, s.len() as int);
    let t = s.remove(i).insert(j, x);
    assert(s == a + b + un + d);
    assert(t == a + un + b + d);
    Seq::filter_distributes_over_add(a + b + un, d, f);
    Seq::filter_distributes_over_add(a + b, un, f);
    Seq::filter_distributes_over_add(a, b, f);
    Seq::filter_distributes_over_add(a + un + b, d, f);
    Seq::filter_distributes_over_add(a + un, b, f);
    Seq::filter_distributes_over_add(a, un, f);
    if cle(c, x) == k {
        assert forall|m: int| 0 <= m < b.len() implies cle(c, #[trigger] b[m]) != k by {
            assert(b[m] == s[j + m]);
        }
        lemma_groupe_vide(c, b, k);
    } else {
        lemma_groupe_vide(c, un, k);
    }
}

/// Moving a creature changes neither which creatures the list holds nor
/// how often.
pub proof fn lemma_deplacer_multiset(s: Seq<PokemonView>, i: int, j: int)
    requires
        0 <= j <= i < s.len(),
    ensures
        s.remove(i).insert(j, s[i]).to_multiset() == s.to_multiset(),
{
    to_multiset_remove(s, i);
    to_multiset_insert(s.remove(i), j, s[i]);
    s.to_multiset_ensures();
}

/// The key of a creature.
fn cle_de(c: Critere, p: &Pokemon) -> (k: i64)
    ensures
        k == cle(c, p@),
{
    match c {
        Critere::NiveauDecroissant => -(p.niveau as i64),
        Critere::TypeCroissant => p.pokemon_type.rang() as i64,
    }
}

/// Sorts `v` by `c`, the creatures of equal key staying in the order they
/// had.
pub fn trier(v: &mut Vec<Pokemon>, c: Critere)
    ensures
        est_tri_stable(c, vue_liste(old(v)@), vue_liste(final(v)@)),
{
    let ghost depart = vue_liste(v@);
    let n: usize = v.len();
    let mut i: usize = 0;
    while i < n
        invariant
            i <= n == v.len(),
            depart.len() == n,
            vue_liste(v@).to_multiset() == depart.to_multiset(),
            est_trie(c, vue_liste(v@).take(i as int)),
            forall|k: int| #[trigger] groupe(c, vue_liste(v@), k) == groupe(c, depart, k),
        decreases n - i,
    {
        let ghost s = vue_liste(v@);
        let k_i = cle_de(c, &v[i]);
        let mut j: usize = i;
        while j > 0 && cle_de(c, &v[j - 1]) > k_i
            invariant
                j <= i < n == v.len(),
                s == vue_liste(v@),
                k_i == cle(c, s[i as int]),
                forall|m: int| j <= m < i ==> cle(c, #[trigger] s[m]) > k_i,
            decreases j,
        {
            j -= 1;
        }
        let x = v.remove(i);
        v.insert(j, x);
        proof {
            let t = vue_liste(v@);
            assert(t == s.remove(i as int).insert(j as int, s[i as int]));
            lemma_deplacer_multiset(s, i as int, j as int);
            assert forall|k: int| #[trigger] groupe(c, t, k) == groupe(c, depart, k) by {
                lemma_deplacer_groupe(c, s, i as int, j as int, k);
            }
            let avant = s.take(i as int);
            let apres = t.take(i + 1);
            assert forall|a: int, b: int| 0 <= a < b < apres.len() implies cle(c, apres[a]) <= cle(
                c,
                apres[b],
            ) by {
                if b < j {
                    assert(apres[a] == avant[a] && apres[b] == avant[b]);
                } else if b == j {
                    assert(apres[a] == avant[a]);
                    if j > 0 {
                        assert(cle(c, avant[j - 1]) <= k_i);
                        if a < j - 1 {
                            assert(cle(c, avant[a]) <= cle(c, avant[j - 1]));
                        }
                    }
                } else if a < j {
                    assert(apres[a] == avant[a] && apres[b] == avant[b - 1]);
                } else if a == j {
                    assert(apres[b] == s[b - 1]);
                } else {
                    assert(apres[a] == avant[a - 1] && apres[b] == avant[b - 1]);
                }
            }
        }
        i += 1;
    }
    assert(vue_liste(v@).take(n as int) == vue_liste(v@));
}

} // verus!
