//! A creature record: construction, experience, breeding eligibility and
//! its one-line text form.

use crate::decimal::{
    decimal, lemma_decimal_valeur, lemma_parse_decimal, parse_u32, push_decimal, spec_parse_u32,
};
use crate::decoupe::{
    decouper, lemma_decouper_champ, lemma_decouper_un_champ, spec_decouper, vues,
};
use crate::texte::{chars_of, push_text, string_of};
use crate::types::{Genre, PokemonType};
use vstd::prelude::*;

verus! {

/// Level from which a creature can breed.
pub const NIVEAU_REPRODUCTION: u32 = 5;

/// A creature.
#[derive(Debug, Clone)]
pub struct Pokemon {
    pub nom: String,
    pub niveau: u32,
    pub pokemon_type: PokemonType,
    pub experience: u32,
    pub genre: Genre,
}

/// What a creature is, as plain mathematical values.
pub struct PokemonView {
    pub nom: Seq<char>,
    pub niveau: nat,
    pub pokemon_type: PokemonType,
    pub experience: nat,
    pub genre: Genre,
}

impl View for Pokemon {
    type V = PokemonView;

    open spec fn view(&self) -> PokemonView {
        PokemonView {
            nom: self.nom@,
            niveau: self.niveau as nat,
            pokemon_type: self.pokemon_type,
            experience: self.experience as nat,
            genre: self.genre,
        }
    }
}

/// The views of a list of creatures, in order.
pub open spec fn vue_liste(s: Seq<Pokemon>) -> Seq<PokemonView> {
    s.map_values(|p: Pokemon| p@)
}

/// The view of an optional creature.
pub open spec fn vue_option(r: Option<Pokemon>) -> Option<PokemonView> {
    match r {
        Some(p) => Some(p@),
        None => None,
    }
}

impl PokemonView {
    /// A record in normal form: the level is at least one and the
    /// experience is less than what makes a level.
    pub open spec fn est_valide(self) -> bool {
        self.niveau >= 1 && self.experience < 100
    }

    /// Whether the level still fits in 32 bits after a gain of `xp`.
    pub open spec fn gain_possible(self, xp: nat) -> bool {
        self.niveau + (self.experience + xp) / 100 <= u32::MAX
    }

    /// The record after it has gained `xp`: every full hundred of experience
    /// has become one level.
    pub open spec fn apres_experience(self, xp: nat) -> PokemonView {
        PokemonView {
            niveau: self.niveau + (self.experience + xp) / 100,
            experience: (self.experience + xp) % 100,
            ..self
        }
    }

    /// A record that its text form gives back: the name holds no vertical
    /// bar, and level and experience fit in 32 bits.
    pub open spec fn est_enregistrable(self) -> bool {
        !self.nom.contains('|') && self.niveau <= u32::MAX && self.experience <= u32::MAX
    }

    /// Two creatures can breed when both have reached the breeding level,
    /// are of the same category and of different sex.
    pub open spec fn peut_se_reproduire(self, autre: PokemonView) -> bool {
        self.pokemon_type == autre.pokemon_type && self.genre != autre.genre && self.niveau
            >= NIVEAU_REPRODUCTION && autre.niveau >= NIVEAU_REPRODUCTION
    }

    /// The five fields of the text form, in order.
    pub open spec fn champs(self) -> Seq<Seq<char>> {
        seq![
            self.nom,
            decimal(self.niveau),
            self.pokemon_type.spec_as_str(),
            decimal(self.experience),
            self.genre.spec_as_str(),
        ]
    }

    /// The text form: the five fields with a vertical bar between them.
    pub open spec fn spec_to_string_format(self) -> Seq<char> {
        self.nom + seq!['|'] + decimal(self.niveau) + seq!['|'] + self.pokemon_type.spec_as_str()
            + seq!['|'] + decimal(self.experience) + seq!['|'] + self.genre.spec_as_str()
    }

    /// The text shown to a user.
    pub open spec fn spec_to_display_string(self) -> Seq<char> {
        "Pokémon: "@ + self.nom + " | Type: "@ + self.pokemon_type.spec_as_str() + " | Niveau: "@
            + decimal(self.niveau) + " | XP: "@ + decimal(self.experience) + "/100 | Genre: "@
            + self.genre.spec_as_str()
    }

    /// The record that a line denotes: exactly five fields between vertical
    /// bars, of which the second and fourth are numbers and the third and
    /// fifth name a category and a sex. Any other line denotes nothing.
    pub open spec fn spec_from_string(s: Seq<char>) -> Option<PokemonView> {
        let c = spec_decouper(s, '|');
        if c.len() != 5 {
            None
        } else {
            match (
                spec_parse_u32(c[1]),
                PokemonType::spec_from_str(c[2]),
                spec_parse_u32(c[3]),
                Genre::spec_from_str(c[4]),
            ) {
                (Some(niveau), Some(pokemon_type), Some(experience), Some(genre)) => Some(
                    PokemonView {
                        nom: c[0],
                        niveau: niveau as nat,
                        pokemon_type,
                        experience: experience as nat,
                        genre,
                    },
                ),
                _ => None,
            }
        }
    }
}

/// Reading `s` gives `r`, and gives back every record of which `s` is the
/// text form.
pub open spec fn lecture_rend(s: Seq<char>, r: Option<PokemonView>) -> bool {
    &&& r == PokemonView::spec_from_string(s)
    &&& forall|p: PokemonView|
        p.est_enregistrable() && s == #[trigger] p.spec_to_string_format() ==> r == Some(p)
}

/// Writing a record and reading the line again gives the record back,
/// in all five fields: `relu` is whatever `Pokemon::from_string` answers on
/// the text form of `p`, as its contract `lecture_rend` says.
pub proof fn lemma_ecrire_puis_lire(p: PokemonView, relu: Option<PokemonView>)
    requires
        p.est_enregistrable(),
        lecture_rend(p.spec_to_string_format(), relu),
    ensures
        relu == Some(p),
{
}

/// Breeding eligibility does not depend on which of the two is asked.
pub proof fn lemma_peut_se_reproduire_symetrique(a: PokemonView, b: PokemonView)
    ensures
        a.peut_se_reproduire(b) == b.peut_se_reproduire(a),
{
}

/// A gain of experience leaves a record in normal form, whatever it was,
/// provided its level was at least one.
pub proof fn lemma_apres_experience_valide(p: PokemonView, xp: nat)
    requires
        p.niveau >= 1,
    ensures
        p.apres_experience(xp).est_valide(),
{
}

/// No display name of a category or a sex holds a vertical bar.
pub proof fn lemma_affichage_sans_barre(t: PokemonType, g: Genre)
    ensures
        !t.spec_as_str().contains('|'),
        !g.spec_as_str().contains('|'),
{
    reveal_strlit("Feu");
    reveal_strlit("Eau");
    reveal_strlit("Plante");
    reveal_strlit("Électrik");
    reveal_strlit("Normal");
    reveal_strlit("Vol");
    reveal_strlit("Combat");
    reveal_strlit("Psy");
    reveal_strlit("Mâle");
    reveal_strlit("Femelle");
}

/// The text form of a record whose name holds no vertical bar splits at
/// the bars into its five fields.
pub proof fn lemma_champs_du_format(p: PokemonView)
    requires
        !p.nom.contains('|'),
    ensures
        spec_decouper(p.spec_to_string_format(), '|') == p.champs(),
{
    let b = seq!['|'];
    lemma_decimal_valeur(p.niveau);
    lemma_decimal_valeur(p.experience);
    lemma_affichage_sans_barre(p.pokemon_type, p.genre);
    let c = p.champs();
    let t0 = c[0];
    let t1 = t0 + b + c[1];
    let t2 = t1 + b + c[2];
    let t3 = t2 + b + c[3];
    lemma_decouper_un_champ(t0, '|');
    lemma_decouper_champ(t0, c[1], '|');
    lemma_decouper_champ(t1, c[2], '|');
    lemma_decouper_champ(t2, c[3], '|');
    lemma_decouper_champ(t3, c[4], '|');
}

impl Pokemon {
    /// A new creature at level one, without experience.
    pub fn new(nom: String, pokemon_type: PokemonType, genre: Genre) -> (r: Self)
        ensures
            r@ == (PokemonView { nom: nom@, niveau: 1, pokemon_type, experience: 0, genre }),
            r@.est_valide(),
    {
        Pokemon { nom, niveau: 1, pokemon_type, experience: 0, genre }
    }

    /// A creature with the five fields as given.
    pub fn from_details(
        nom: String,
        niveau: u32,
        pokemon_type: PokemonType,
        experience: u32,
        genre: Genre,
    ) -> (r: Self)
        ensures
            r@ == (PokemonView {
                nom: nom@,
                niveau: niveau as nat,
                pokemon_type,
                experience: experience as nat,
                genre,
            }),
    {
        Pokemon { nom, niveau, pokemon_type, experience, genre }
    }

    /// Whether the level still fits in 32 bits after a gain of `xp`.
    pub fn peut_gagner_experience(&self, xp: u32) -> (r: bool)
        ensures
            r == self@.gain_possible(xp as nat),
    {
        let total: u64 = self.experience as u64 + xp as u64;
        self.niveau as u64 + total / 100 <= 0xFFFF_FFFF
    }

    /// Adds `xp` to the experience and turns every full hundred into one
    /// level. Returns the number of levels gained.
    pub fn gagner_experience(&mut self, xp: u32) -> (gagnes: u32)
        requires
            old(self)@.gain_possible(xp as nat),
        ensures
            final(self)@ == old(self)@.apres_experience(xp as nat),
            gagnes == (old(self).experience + xp) / 100,
            final(self).experience < 100,
    {
        let ghost total: int = self.experience + xp;
        let mut reste: u64 = self.experience as u64 + xp as u64;
        let mut gagnes: u32 = 0;
        while reste >= 100
            invariant
                total == old(self).experience + xp,
                old(self).niveau + total / 100 <= u32::MAX,
                reste + 100 * gagnes == total,
                self.niveau == old(self).niveau + gagnes,
                self.nom == old(self).nom,
                self.pokemon_type == old(self).pokemon_type,
                self.genre == old(self).genre,
            decreases reste,
        {
            self.niveau += 1;
            gagnes += 1;
            reste -= 100;
        }
        self.experience = reste as u32;
        gagnes
    }

    /// Whether the two creatures can breed.
    pub fn peut_se_reproduire(&self, autre: &Pokemon) -> (r: bool)
        ensures
            r == self@.peut_se_reproduire(autre@),
    {
        self.pokemon_type == autre.pokemon_type && self.genre != autre.genre && self.niveau
            >= NIVEAU_REPRODUCTION && autre.niveau >= NIVEAU_REPRODUCTION
    }

    /// The text form of the record, on one line.
    pub fn to_string_format(&self) -> (r: String)
        ensures
            r@ == self@.spec_to_string_format(),
    {
        let mut r = String::new();
        push_text(&mut r, self.nom.as_str());
        r.push('|');
        push_decimal(&mut r, self.niveau);
        r.push('|');
        push_text(&mut r, self.pokemon_type.as_str());
        r.push('|');
        push_decimal(&mut r, self.experience);
        r.push('|');
        push_text(&mut r, self.genre.as_str());
        r
    }

    /// The text shown to a user.
    pub fn to_display_string(&self) -> (r: String)
        ensures
            r@ == self@.spec_to_display_string(),
    {
        let mut r = String::new();
        push_text(&mut r, "Pokémon: ");
        push_text(&mut r, self.nom.as_str());
        push_text(&mut r, " | Type: ");
        push_text(&mut r, self.pokemon_type.as_str());
        push_text(&mut r, " | Niveau: ");
        push_decimal(&mut r, self.niveau);
        push_text(&mut r, " | XP: ");
        push_decimal(&mut r, self.experience);
        push_text(&mut r, "/100 | Genre: ");
        push_text(&mut r, self.genre.as_str());
        r
    }

    /// Reads a record from the characters of one line. The text form of a
    /// record is read as that record.
    pub fn from_chars(t: &[char]) -> (r: Option<Self>)
        ensures
            lecture_rend(t@, vue_option(r)),
    {
        let champs = decouper(t, '|');
        assert(vues(champs@).len() == champs@.len());
        if champs.len() != 5 {
            assert forall|p: PokemonView|
                p.est_enregistrable() && t@ == #[trigger] p.spec_to_string_format() implies false by {
                lemma_champs_du_format(p);
            }
            return None;
        }
        let niveau = parse_u32(champs[1]);
        let texte_type = string_of(champs[2]);
        let pokemon_type = PokemonType::from_str(texte_type.as_str());
        let experience = parse_u32(champs[3]);
        let texte_genre = string_of(champs[4]);
        let genre = Genre::from_str(texte_genre.as_str());
        let r = match (niveau, pokemon_type, experience, genre) {
            (Some(niveau), Some(pokemon_type), Some(experience), Some(genre)) => Some(
                Pokemon::from_details(string_of(champs[0]), niveau, pokemon_type, experience, genre),
            ),
            _ => None,
        };
        assert forall|p: PokemonView|
            p.est_enregistrable() && t@ == #[trigger] p.spec_to_string_format() implies vue_option(
            r,
        ) == Some(p) by {
            lemma_champs_du_format(p);
            lemma_parse_decimal(p.niveau as u32);
            lemma_parse_decimal(p.experience as u32);
        }
        r
    }

    /// Reads a record from one line. The text form of a record is read as
    /// that record.
    pub fn from_string(s: &str) -> (r: Option<Self>)
        ensures
            lecture_rend(s@, vue_option(r)),
    {
        let v = chars_of(s);
        Self::from_chars(v.as_slice())
    }
}

} // verus!
