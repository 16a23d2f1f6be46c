//! A named breeding farm: an ordered list of creatures that can be
//! trained, bred, sorted and removed.

use crate::hasard::{indice_au_hasard, pile_ou_face};
use crate::pokemon::{vue_liste, Pokemon, PokemonView};
use crate::texte::{chars_of, push_chars, push_text};
use crate::tri::{cle, est_tri_stable, lemma_trie_par_niveau, trier, Critere};
use crate::types::{avant_lexicographique, Genre};
use vstd::prelude::*;
use vstd::slice::slice_subrange;

verus! {

/// Why an operation on a farm did nothing.
#[derive(Debug, Clone, Copy, PartialEq, Eq, Structural)]
pub enum Erreur {
    /// An index lies outside the list, or both parents are the same.
    IndexInvalide,
    /// The two creatures cannot breed with each other.
    ReproductionImpossible,
    /// A saved text has no first line to take the name from.
    EnTeteManquant,
}

/// First word of the name of a newborn.
#[derive(Debug, Clone, Copy, PartialEq, Eq, Structural)]
pub enum Prefixe {
    Mystere,
    Junior,
    Petit,
    Mini,
    Pousse,
}

impl Prefixe {
    /// The word itself.
    pub open spec fn spec_as_str(self) -> Seq<char> {
        match self {
            Prefixe::Mystere => "Mystère"@,
            Prefixe::Junior => "Junior"@,
            Prefixe::Petit => "Petit"@,
            Prefixe::Mini => "Mini"@,
            Prefixe::Pousse => "Pousse"@,
        }
    }

    /// The word itself.
    pub fn as_str(&self) -> (r: &'static str)
        ensures
            r@ == self.spec_as_str(),
    {
        match self {
            Prefixe::Mystere => "Mystère",
            Prefixe::Junior => "Junior",
            Prefixe::Petit => "Petit",
            Prefixe::Mini => "Mini",
            Prefixe::Pousse => "Pousse",
        }
    }

    /// The word at place `k` of the five; beyond the fourth place, the last.
    pub fn numero(k: usize) -> (r: Self)
        ensures
            r == match k {
                0 => Prefixe::Mystere,
                1 => Prefixe::Junior,
                2 => Prefixe::Petit,
                3 => Prefixe::Mini,
                _ => Prefixe::Pousse,
            },
    {
        if k == 0 {
            Prefixe::Mystere
        } else if k == 1 {
            Prefixe::Junior
        } else if k == 2 {
            Prefixe::Petit
        } else if k == 3 {
            Prefixe::Mini
        } else {
            Prefixe::Pousse
        }
    }
}

/// Number of words a newborn's name can begin with.
pub const NOMBRE_PREFIXES: usize = 5;

/// A farm: its name and its creatures, in order.
pub struct Elevage {
    pub pokemons: Vec<Pokemon>,
    pub nom_elevage: String,
}

/// What a farm is, as plain mathematical values.
pub struct ElevageView {
    pub nom: Seq<char>,
    pub pokemons: Seq<PokemonView>,
}

impl View for Elevage {
    type V = ElevageView;

    open spec fn view(&self) -> ElevageView {
        ElevageView { nom: self.nom_elevage@, pokemons: vue_liste(self.pokemons@) }
    }
}

/// The name of a newborn: the word, a space, and the first two characters
/// of the first parent's name, or all of it if it has fewer.
pub open spec fn nom_bebe(parent: Seq<char>, prefixe: Prefixe) -> Seq<char> {
    prefixe.spec_as_str() + seq![' '] + (if parent.len() <= 2 {
        parent
    } else {
        parent.take(2)
    })
}

/// The newborn of a first parent: of its category, at level one and
/// without experience.
pub open spec fn spec_bebe(parent: PokemonView, genre: Genre, prefixe: Prefixe) -> PokemonView {
    PokemonView {
        nom: nom_bebe(parent.nom, prefixe),
        niveau: 1,
        pokemon_type: parent.pokemon_type,
        experience: 0,
        genre,
    }
}

impl ElevageView {
    /// The farm with `p` added at the end.
    pub open spec fn avec(self, p: PokemonView) -> ElevageView {
        ElevageView { pokemons: self.pokemons.push(p), ..self }
    }

    /// The farm without the creature at place `i`, the following ones moved
    /// up by one.
    pub open spec fn sans(self, i: int) -> ElevageView {
        ElevageView { pokemons: self.pokemons.remove(i), ..self }
    }

    /// The farm after the creature at place `i` has gained `xp`.
    pub open spec fn entraine(self, i: int, xp: nat) -> ElevageView {
        ElevageView {
            pokemons: self.pokemons.update(i, self.pokemons[i].apres_experience(xp)),
            ..self
        }
    }

    /// The farm after every creature has gained `xp`.
    pub open spec fn tous_entraines(self, xp: nat) -> ElevageView {
        ElevageView {
            pokemons: self.pokemons.map_values(|p: PokemonView| p.apres_experience(xp)),
            ..self
        }
    }

    /// What stands in the way of breeding the creatures at places `i` and
    /// `j`, if anything: the places must lie in the list and differ, and
    /// the two creatures must be able to breed.
    pub open spec fn obstacle(self, i: int, j: int) -> Option<Erreur> {
        if !(0 <= i < self.pokemons.len() && 0 <= j < self.pokemons.len()) || i == j {
            Some(Erreur::IndexInvalide)
        } else if !self.pokemons[i].peut_se_reproduire(self.pokemons[j]) {
            Some(Erreur::ReproductionImpossible)
        } else {
            None
        }
    }

    /// Whether the level of every creature still fits in 32 bits after a
    /// gain of `xp`.
    pub open spec fn gain_possible(self, xp: nat) -> bool {
        forall|i: int| 0 <= i < self.pokemons.len() ==> (#[trigger] self.pokemons[i]).gain_possible(xp)
    }
}

impl Elevage {
    /// An empty farm called `nom`.
    pub fn new(nom: &str) -> (r: Self)
        ensures
            r@ == (ElevageView { nom: nom@, pokemons: Seq::empty() }),
    {
        let r = Elevage { pokemons: Vec::new(), nom_elevage: nom.to_owned() };
        assert(vue_liste(r.pokemons@) == Seq::<PokemonView>::empty());
        r
    }

    /// Adds a creature at the end and returns its place.
    pub fn ajouter_pokemon(&mut self, pokemon: Pokemon) -> (index: usize)
        ensures
            final(self)@ == old(self)@.avec(pokemon@),
            index == old(self)@.pokemons.len(),
    {
        self.pokemons.push(pokemon);
        assert(vue_liste(self.pokemons@) == vue_liste(old(self).pokemons@).push(pokemon@));
        self.pokemons.len() - 1
    }

    /// Lets the creature at place `index` gain `xp`. Outside the list
    /// nothing changes and the answer is `false`.
    pub fn entrainer_pokemon(&mut self, index: usize, xp: u32) -> (r: bool)
        requires
            index < old(self)@.pokemons.len() ==> old(self)@.pokemons[index as int].gain_possible(
                xp as nat,
            ),
        ensures
            r == (index < old(self)@.pokemons.len()),
            !r ==> *final(self) == *old(self),
            r ==> final(self)@ == old(self)@.entraine(index as int, xp as nat),
    {
        if index >= self.pokemons.len() {
            return false;
        }
        self.pokemons[index].gagner_experience(xp);
        assert(vue_liste(self.pokemons@) == vue_liste(old(self).pokemons@).update(
            index as int,
            old(self)@.pokemons[index as int].apres_experience(xp as nat),
        ));
        true
    }

    /// Whether the level of every creature still fits in 32 bits after a
    /// gain of `xp`.
    pub fn peut_entrainer_tous(&self, xp: u32) -> (r: bool)
        ensures
            r == self@.gain_possible(xp as nat),
    {
        let n: usize = self.pokemons.len();
        let mut i: usize = 0;
        while i < n
            invariant
                i <= n == self.pokemons.len(),
                forall|k: int|
                    0 <= k < i ==> (#[trigger] self@.pokemons[k]).gain_possible(xp as nat),
            decreases n - i,
        {
            assert(self@.pokemons[i as int] == self.pokemons@[i as int]@);
            if !self.pokemons[i].peut_gagner_experience(xp) {
                return false;
            }
            i += 1;
        }
        true
    }

    /// Lets every creature gain `xp`.
    pub fn entrainer_tous_les_pokemons(&mut self, xp: u32)
        requires
            old(self)@.gain_possible(xp as nat),
        ensures
            final(self)@ == old(self)@.tous_entraines(xp as nat),
    {
        let ghost avant = vue_liste(self.pokemons@);
        let n: usize = self.pokemons.len();
        let mut i: usize = 0;
        while i < n
            invariant
                i <= n == self.pokemons.len(),
                avant == old(self)@.pokemons,
                avant.len() == n,
                self.nom_elevage == old(self).nom_elevage,
                old(self)@.gain_possible(xp as nat),
                forall|k: int|
                    0 <= k < i ==> (#[trigger] self.pokemons@[k])@ == avant[k].apres_experience(
                        xp as nat,
                    ),
                forall|k: int| i <= k < n ==> (#[trigger] self.pokemons@[k])@ == avant[k],
            decreases n - i,
        {
            self.pokemons[i].gagner_experience(xp);
            i += 1;
        }
        assert(vue_liste(self.pokemons@) == avant.map_values(
            |p: PokemonView| p.apres_experience(xp as nat),
        ));
    }

    /// Says what stands in the way of breeding the creatures at places
    /// `index1` and `index2`.
    pub fn verifier_reproduction(&self, index1: usize, index2: usize) -> (r: Result<(), Erreur>)
        ensures
            match self@.obstacle(index1 as int, index2 as int) {
                Some(e) => r == Err::<(), Erreur>(e),
                None => r is Ok,
            },
    {
        if index1 >= self.pokemons.len() || index2 >= self.pokemons.len() || index1 == index2 {
            return Err(Erreur::IndexInvalide);
        }
        if self.pokemons[index1].peut_se_reproduire(&self.pokemons[index2]) {
            Ok(())
        } else {
            Err(Erreur::ReproductionImpossible)
        }
    }

    /// Breeds the creatures at places `index1` and `index2`, the sex of the
    /// newborn and the first word of its name being given. The newborn is
    /// added at the end. Where something stands in the way nothing
    /// changes and the answer is `false`.
    pub fn naissance(&mut self, index1: usize, index2: usize, genre: Genre, prefixe: Prefixe) -> (r:
        bool)
        ensures
            r == old(self)@.obstacle(index1 as int, index2 as int).is_none(),
            !r ==> *final(self) == *old(self),
            r ==> final(self)@ == old(self)@.avec(
                spec_bebe(old(self)@.pokemons[index1 as int], genre, prefixe),
            ),
    {
        if self.verifier_reproduction(index1, index2).is_err() {
            return false;
        }
        let parent = &self.pokemons[index1];
        let lettres = chars_of(parent.nom.as_str());
        let debut = slice_subrange(
            lettres.as_slice(),
            0,
            if lettres.len() <= 2 {
                lettres.len()
            } else {
                2
            },
        );
        let mut nom = String::new();
        push_text(&mut nom, prefixe.as_str());
        nom.push(' ');
        push_chars(&mut nom, debut);
        assert(nom@ == nom_bebe(parent@.nom, prefixe)) by {
            if lettres@.len() <= 2 {
                assert(debut@ == lettres@);
            }
        }
        let bebe = Pokemon::new(nom, parent.pokemon_type, genre);
        self.pokemons.push(bebe);
        assert(vue_liste(self.pokemons@) == vue_liste(old(self).pokemons@).push(bebe@));
        true
    }

    /// Breeds the creatures at places `index1` and `index2`. The sex of the
    /// newborn and the first word of its name are drawn at random. Where
    /// something stands in the way nothing changes and the answer is
    /// `false`.
    pub fn tenter_reproduction(&mut self, index1: usize, index2: usize) -> (r: bool)
        ensures
            r == old(self)@.obstacle(index1 as int, index2 as int).is_none(),
            !r ==> *final(self) == *old(self),
            r ==> exists|genre: Genre, prefixe: Prefixe|
                final(self)@ == old(self)@.avec(
                    #[trigger] spec_bebe(old(self)@.pokemons[index1 as int], genre, prefixe),
                ),
    {
        if self.verifier_reproduction(index1, index2).is_err() {
            return false;
        }
        let genre = if pile_ou_face() {
            Genre::Male
        } else {
            Genre::Femelle
        };
        let prefixe = Prefixe::numero(indice_au_hasard(NOMBRE_PREFIXES));
        self.naissance(index1, index2, genre, prefixe)
    }

    /// Sorts the creatures by level, the highest first. Creatures of the
    /// same level stay in the order they had.
    pub fn trier_par_niveau(&mut self)
        ensures
            final(self)@.nom == old(self)@.nom,
            est_tri_stable(Critere::NiveauDecroissant, old(self)@.pokemons, final(self)@.pokemons),
            forall|i: int, j: int|
                0 <= i < j < final(self)@.pokemons.len() ==> final(self)@.pokemons[i].niveau
                    >= final(self)@.pokemons[j].niveau,
    {
        trier(&mut self.pokemons, Critere::NiveauDecroissant);
        proof {
            lemma_trie_par_niveau(self@.pokemons);
        }
    }

    /// Sorts the creatures by the display name of their category, in
    /// lexicographic order: no creature stands after one whose category
    /// comes later. Creatures of the same category stay in the order they
    /// had.
    pub fn trier_par_type(&mut self)
        ensures
            final(self)@.nom == old(self)@.nom,
            est_tri_stable(Critere::TypeCroissant, old(self)@.pokemons, final(self)@.pokemons),
            forall|i: int, j: int|
                0 <= i < j < final(self)@.pokemons.len() ==> !avant_lexicographique(
                    final(self)@.pokemons[j].pokemon_type.spec_as_str(),
                    final(self)@.pokemons[i].pokemon_type.spec_as_str(),
                ),
    {
        trier(&mut self.pokemons, Critere::TypeCroissant);
        proof {
            let ps = self@.pokemons;
            assert forall|i: int, j: int| 0 <= i < j < ps.len() implies !avant_lexicographique(
                ps[j].pokemon_type.spec_as_str(),
                ps[i].pokemon_type.spec_as_str(),
            ) by {
                assert(cle(Critere::TypeCroissant, ps[i]) <= cle(Critere::TypeCroissant, ps[j]));
                ps[j].pokemon_type.lemma_rang_ordre_des_noms(ps[i].pokemon_type);
            }
        }
    }

    /// Removes the creature at place `index`; those after it move up by
    /// one. Outside the list nothing changes and the answer is `false`.
    pub fn supprimer_pokemon(&mut self, index: usize) -> (r: bool)
        ensures
            r == (index < old(self)@.pokemons.len()),
            !r ==> *final(self) == *old(self),
            r ==> final(self)@ == old(self)@.sans(index as int),
    {
        if index >= self.pokemons.len() {
            return false;
        }
        let _ = self.pokemons.remove(index);
        assert(vue_liste(self.pokemons@) == vue_liste(old(self).pokemons@).remove(index as int));
        true
    }
}

} // verus!
