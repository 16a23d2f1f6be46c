//! The saved form of a farm, a text of lines: its name on the first, then
//! one creature on each. Reading skips the lines that denote no creature.

use crate::decimal::{decimal, lemma_decimal_valeur};
use crate::decoupe::{
    jointes, lemma_decouper_jointes, lemma_suite_sans, lignes, sans_retour, spec_lignes,
};
use crate::elevage::{Elevage, ElevageView, Erreur};
use crate::pokemon::{lecture_rend, vue_liste, Pokemon, PokemonView};
use crate::texte::{chars_of, push_text, string_of};
use vstd::prelude::*;

verus! {

/// The creatures that the lines `ls` denote, in order; a line that denotes
/// none is passed over.
pub open spec fn pokemons_lus(ls: Seq<Seq<char>>) -> Seq<PokemonView>
    decreases ls.len(),
{
    if ls.len() == 0 {
        Seq::empty()
    } else {
        let avant = pokemons_lus(ls.drop_last());
        match PokemonView::spec_from_string(ls.last()) {
            Some(p) => avant.push(p),
            None => avant,
        }
    }
}

impl ElevageView {
    /// The lines of the saved form: the name, then each creature's text
    /// form.
    pub open spec fn lignes(self) -> Seq<Seq<char>> {
        seq![self.nom] + self.pokemons.map_values(|p: PokemonView| p.spec_to_string_format())
    }

    /// The saved form: each line followed by a line feed.
    pub open spec fn spec_sauvegarder(self) -> Seq<char> {
        jointes(self.lignes())
    }

    /// The farm that a saved text denotes: its first line is the name,
    /// the others are its creatures. A text without any line denotes none.
    pub open spec fn spec_charger(texte: Seq<char>) -> Option<ElevageView> {
        let ls = spec_lignes(texte);
        if ls.len() == 0 {
            None
        } else {
            Some(ElevageView { nom: ls[0], pokemons: pokemons_lus(ls.drop_first()) })
        }
    }

    /// A farm that its saved form gives back: the name holds no line feed
    /// and does not end in a carriage return, and the name of each creature
    /// holds neither a line feed nor a vertical bar, its level and
    /// experience fitting in 32 bits.
    pub open spec fn est_enregistrable(self) -> bool {
        &&& !self.nom.contains('\n')
        &&& self.nom.len() > 0 ==> self.nom.last() != '\r'
        &&& forall|i: int|
            0 <= i < self.pokemons.len() ==> (#[trigger] self.pokemons[i]).est_enregistrable()
                && !self.pokemons[i].nom.contains('\n')
    }
}

/// The view of what reading a saved text gave.
pub open spec fn vue_resultat(r: Result<Elevage, Erreur>) -> Option<ElevageView> {
    match r {
        Ok(e) => Some(e@),
        Err(_) => None,
    }
}

/// Reading the saved text `texte` gives `r`, and gives back every farm of
/// which `texte` is the saved form.
pub open spec fn chargement_rend(texte: Seq<char>, r: Option<ElevageView>) -> bool {
    &&& r == ElevageView::spec_charger(texte)
    &&& forall|e: ElevageView|
        e.est_enregistrable() && texte == #[trigger] e.spec_sauvegarder() ==> r == Some(e)
}

/// A line that denotes no creature changes nothing in what is read.
pub proof fn lemma_ligne_invalide_ignoree(
    avant: Seq<Seq<char>>,
    ligne: Seq<char>,
    apres: Seq<Seq<char>>,
)
    requires
        PokemonView::spec_from_string(ligne) is None,
    ensures
        pokemons_lus(avant + seq![ligne] + apres) == pokemons_lus(avant + apres),
    decreases apres.len(),
{
    if apres.len() == 0 {
        assert(avant + seq![ligne] + apres == avant.push(ligne));
        assert(avant.push(ligne).drop_last() == avant);
    } else {
        let a0 = apres.drop_last();
        lemma_ligne_invalide_ignoree(avant, ligne, a0);
        assert((avant + seq![ligne] + apres).drop_last() == avant + seq![ligne] + a0);
        assert((avant + apres).drop_last() == avant + a0);
    }
}

/// Lines that each denote a creature give as many creatures.
pub proof fn lemma_lignes_valides(ls: Seq<Seq<char>>)
    requires
        forall|i: int| 0 <= i < ls.len() ==> PokemonView::spec_from_string(#[trigger] ls[i]) is Some,
    ensures
        pokemons_lus(ls).len() == ls.len(),
    decreases ls.len(),
{
    if ls.len() > 0 {
        let avant = ls.drop_last();
        assert forall|i: int| 0 <= i < avant.len() implies PokemonView::spec_from_string(
            #[trigger] avant[i],
        ) is Some by {
            assert(avant[i] == ls[i]);
        }
        lemma_lignes_valides(avant);
    }
}

/// A saved text with a first line, in which one of the other lines denotes
/// no creature and each of the rest denotes one, is read as a farm with
/// one creature for each of the rest.
pub proof fn lemma_charger_une_ligne_invalide(texte: Seq<char>, k: int)
    requires
        1 <= k < spec_lignes(texte).len(),
        PokemonView::spec_from_string(spec_lignes(texte)[k]) is None,
        forall|i: int|
            1 <= i < spec_lignes(texte).len() && i != k ==> PokemonView::spec_from_string(
                #[trigger] spec_lignes(texte)[i],
            ) is Some,
    ensures
        ElevageView::spec_charger(texte) is Some,
        ElevageView::spec_charger(texte)->0.nom == spec_lignes(texte)[0],
        ElevageView::spec_charger(texte)->0.pokemons.len() == spec_lignes(texte).len() - 2,
        ElevageView::spec_charger(texte)->0.pokemons == pokemons_lus(
            spec_lignes(texte).drop_first().remove(k - 1),
        ),
{
    let corps = spec_lignes(texte).drop_first();
    let avant = corps.subrange(0, k - 1);
    let apres = corps.subrange(k, corps.len() as int);
    assert(corps == avant + seq![corps[k - 1]] + apres);
    lemma_ligne_invalide_ignoree(avant, corps[k - 1], apres);
    let reste = avant + apres;
    assert forall|i: int| 0 <= i < reste.len() implies PokemonView::spec_from_string(
        #[trigger] reste[i],
    ) is Some by {
        if i < k - 1 {
            assert(reste[i] == spec_lignes(texte)[i + 1]);
        } else {
            assert(reste[i] == spec_lignes(texte)[i + 2]);
        }
    }
    lemma_lignes_valides(reste);
}

/// The text form of a creature whose name holds no line feed holds none
/// and does not end in a carriage return.
pub proof fn lemma_format_sur_une_ligne(p: PokemonView)
    requires
        !p.nom.contains('\n'),
    ensures
        !p.spec_to_string_format().contains('\n'),
        p.spec_to_string_format().len() > 0,
        p.spec_to_string_format().last() != '\r',
{
    reveal_strlit("Feu");
    reveal_strlit("Eau");
    reveal_strlit("Plante");
    reveal_strlit("Électrik");
    reveal_strlit("Normal");
    reveal_strlit("Vol");
    reveal_strlit("Combat");
    reveal_strlit("Psy");
    reveal_strlit("Mâle");
    reveal_strlit("Femelle");
    lemma_decimal_valeur(p.niveau);
    lemma_decimal_valeur(p.experience);
    let b = seq!['|'];
    let t1 = p.nom + b;
    let t2 = t1 + decimal(p.niveau);
    let t3 = t2 + b;
    let t4 = t3 + p.pokemon_type.spec_as_str();
    let t5 = t4 + b;
    let t6 = t5 + decimal(p.experience);
    let t7 = t6 + b;
    lemma_suite_sans(p.nom, b, '\n');
    lemma_suite_sans(t1, decimal(p.niveau), '\n');
    lemma_suite_sans(t2, b, '\n');
    lemma_suite_sans(t3, p.pokemon_type.spec_as_str(), '\n');
    lemma_suite_sans(t4, b, '\n');
    lemma_suite_sans(t5, decimal(p.experience), '\n');
    lemma_suite_sans(t6, b, '\n');
    lemma_suite_sans(t7, p.genre.spec_as_str(), '\n');
}

/// The saved form of a farm splits into its lines again.
pub proof fn lemma_lignes_de_la_sauvegarde(e: ElevageView)
    requires
        e.est_enregistrable(),
    ensures
        spec_lignes(e.spec_sauvegarder()) == e.lignes(),
{
    let ls = e.lignes();
    assert forall|i: int| 0 <= i < ls.len() implies !(#[trigger] ls[i]).contains('\n') && (ls[i].len()
        > 0 ==> ls[i].last() != '\r') by {
        if i > 0 {
            lemma_format_sur_une_ligne(e.pokemons[i - 1]);
        }
    }
    lemma_decouper_jointes(ls);
    let f = |l: Seq<char>| sans_retour(l);
    assert(ls.map_values(f) == ls) by {
        assert forall|i: int| 0 <= i < ls.len() implies ls.map_values(f)[i] == ls[i] by {
            assert(sans_retour(ls[i]) == ls[i]);
        }
    }
}

/// Lines of which each is read as the creature it is the text form of
/// are read as these creatures.
pub proof fn lemma_relecture(ps: Seq<PokemonView>)
    requires
        forall|i: int|
            0 <= i < ps.len() ==> PokemonView::spec_from_string(
                (#[trigger] ps[i]).spec_to_string_format(),
            ) == Some(ps[i]),
    ensures
        pokemons_lus(ps.map_values(|p: PokemonView| p.spec_to_string_format())) == ps,
    decreases ps.len(),
{
    let f = |p: PokemonView| p.spec_to_string_format();
    if ps.len() == 0 {
        assert(pokemons_lus(ps.map_values(f)) == ps);
    } else {
        let avant = ps.drop_last();
        assert forall|i: int| 0 <= i < avant.len() implies PokemonView::spec_from_string(
            (#[trigger] avant[i]).spec_to_string_format(),
        ) == Some(avant[i]) by {
            assert(avant[i] == ps[i]);
        }
        lemma_relecture(avant);
        assert(ps.map_values(f).drop_last() == avant.map_values(f));
    }
}

/// Saving a farm after one creature was removed, and reading the text
/// again, gives the farm without that creature: the creatures before it
/// at their places, those after it one place up, each with its five
/// fields. `relu` is whatever `Elevage::charger` answers on the saved
/// text, as its contract `chargement_rend` says.
pub proof fn lemma_suppression_puis_relecture(e: ElevageView, i: int, relu: Option<ElevageView>)
    requires
        e.est_enregistrable(),
        0 <= i < e.pokemons.len(),
        chargement_rend(e.sans(i).spec_sauvegarder(), relu),
    ensures
        relu == Some(e.sans(i)),
        relu->0.nom == e.nom,
        relu->0.pokemons.len() == e.pokemons.len() - 1,
        forall|j: int| 0 <= j < i ==> relu->0.pokemons[j] == e.pokemons[j],
        forall|j: int| i <= j < e.pokemons.len() - 1 ==> relu->0.pokemons[j] == e.pokemons[j + 1],
{
    let s = e.sans(i);
    assert forall|j: int| 0 <= j < s.pokemons.len() implies (#[trigger] s.pokemons[j]).est_enregistrable()
        && !s.pokemons[j].nom.contains('\n') by {
        if j < i {
            assert(s.pokemons[j] == e.pokemons[j]);
        } else {
            assert(s.pokemons[j] == e.pokemons[j + 1]);
        }
    }
}

/// Saving a farm and reading the text again gives the farm back: `relu`
/// is whatever `Elevage::charger` answers on the saved text, as its
/// contract `chargement_rend` says.
pub proof fn lemma_sauvegarder_puis_charger(e: ElevageView, relu: Option<ElevageView>)
    requires
        e.est_enregistrable(),
        chargement_rend(e.spec_sauvegarder(), relu),
    ensures
        relu == Some(e),
{
}

impl Elevage {
    /// The saved form of the farm.
    pub fn sauvegarder(&self) -> (r: String)
        ensures
            r@ == self@.spec_sauvegarder(),
    {
        let ghost ls = self@.lignes();
        let mut r = String::new();
        push_text(&mut r, self.nom_elevage.as_str());
        r.push('\n');
        assert(r@ == jointes(ls.take(1))) by {
            reveal_with_fuel(jointes, 2);
        }
        let n: usize = self.pokemons.len();
        let mut i: usize = 0;
        while i < n
            invariant
                i <= n == self.pokemons.len(),
                ls == self@.lignes(),
                ls.len() == n + 1,
                r@ == jointes(ls.take(i + 1)),
            decreases n - i,
        {
            let ligne = self.pokemons[i].to_string_format();
            push_text(&mut r, ligne.as_str());
            r.push('\n');
            assert(ls.take(i + 2).drop_last() == ls.take(i + 1));
            i += 1;
        }
        assert(ls.take(n + 1) == ls);
        r
    }

    /// Reads a farm from its saved form. A text without any line gives an
    /// error; a line after the first that denotes no creature is passed
    /// over. The saved form of a farm is read as that farm.
    pub fn charger(contenu: &str) -> (r: Result<Self, Erreur>)
        ensures
            chargement_rend(contenu@, vue_resultat(r)),
            r is Err ==> r == Err::<Elevage, Erreur>(Erreur::EnTeteManquant),
    {
        let lettres = chars_of(contenu);
        let ls = lignes(lettres.as_slice());
        let ghost lv = spec_lignes(contenu@);
        if ls.len() == 0 {
            assert forall|e: ElevageView|
                e.est_enregistrable() && contenu@ == #[trigger] e.spec_sauvegarder() implies false by {
                lemma_lignes_de_la_sauvegarde(e);
            }
            return Err(Erreur::EnTeteManquant);
        }
        let nom_elevage = string_of(ls[0]);
        let mut pokemons: Vec<Pokemon> = Vec::new();
        let n: usize = ls.len();
        let mut i: usize = 1;
        while i < n
            invariant
                1 <= i <= n == ls.len(),
                lv.len() == n,
                forall|k: int| 0 <= k < ls@.len() ==> (#[trigger] ls@[k])@ == lv[k],
                vue_liste(pokemons@) == pokemons_lus(lv.drop_first().take(i - 1)),
                forall|k: int|
                    1 <= k < i ==> lecture_rend(
                        #[trigger] lv[k],
                        PokemonView::spec_from_string(lv[k]),
                    ),
            decreases n - i,
        {
            assert(lv.drop_first().take(i as int).drop_last() == lv.drop_first().take(i - 1));
            if let Some(p) = Pokemon::from_chars(ls[i]) {
                pokemons.push(p);
            }
            i += 1;
        }
        assert(lv.drop_first().take(n - 1) == lv.drop_first());
        let r = Elevage { pokemons, nom_elevage };
        assert forall|e: ElevageView|
            e.est_enregistrable() && contenu@ == #[trigger] e.spec_sauvegarder() implies Some(r@)
            == Some(e) by {
            lemma_lignes_de_la_sauvegarde(e);
            let ps = e.pokemons;
            let f = |p: PokemonView| p.spec_to_string_format();
            assert(lv.drop_first() == ps.map_values(f));
            assert forall|k: int| 0 <= k < ps.len() implies PokemonView::spec_from_string(
                (#[trigger] ps[k]).spec_to_string_format(),
            ) == Some(ps[k]) by {
                assert(lecture_rend(lv[k + 1], PokemonView::spec_from_string(lv[k + 1])));
            }
            lemma_relecture(ps);
            assert(r@.pokemons == ps);
        }
        Ok(r)
    }
}

} // verus!
