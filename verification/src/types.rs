//! The two closed enumerations of a record, each with its display name and
//! the case-insensitive reading of a name.

use crate::texte::{chars_of, en_minuscules, est_latin1, minuscules, minuscules_latin1, same_text};
use vstd::prelude::*;

verus! {

/// Elemental category of a creature.
#[derive(Debug, Clone, Copy, PartialEq, Eq, Structural)]
pub enum PokemonType {
    Feu,
    Eau,
    Plante,
    Electrik,
    Normal,
    Vol,
    Combat,
    Psy,
}

/// Sex of a creature.
#[derive(Debug, Clone, Copy, PartialEq, Eq, Structural)]
pub enum Genre {
    Male,
    Femelle,
}

/// Whether `a` comes strictly before `b` in lexicographic order, the
/// characters compared by code point.
pub open spec fn avant_lexicographique(a: Seq<char>, b: Seq<char>) -> bool
    decreases a.len(),
{
    if b.len() == 0 {
        false
    } else if a.len() == 0 {
        true
    } else if a[0] != b[0] {
        (a[0] as u32) < (b[0] as u32)
    } else {
        avant_lexicographique(a.drop_first(), b.drop_first())
    }
}

/// No text comes strictly before itself.
pub proof fn lemma_irreflexif(a: Seq<char>)
    ensures
        !avant_lexicographique(a, a),
    decreases a.len(),
{
    if a.len() > 0 {
        lemma_irreflexif(a.drop_first());
    }
}

impl PokemonType {
    /// Display name of the category.
    pub open spec fn spec_as_str(self) -> Seq<char> {
        match self {
            PokemonType::Feu => "Feu"@,
            PokemonType::Eau => "Eau"@,
            PokemonType::Plante => "Plante"@,
            PokemonType::Electrik => "Électrik"@,
            PokemonType::Normal => "Normal"@,
            PokemonType::Vol => "Vol"@,
            PokemonType::Combat => "Combat"@,
            PokemonType::Psy => "Psy"@,
        }
    }

    /// The category that a lowercase name denotes, if any. `Electrik` has
    /// two spellings, with and without the accent.
    pub open spec fn spec_from_lowercase(s: Seq<char>) -> Option<PokemonType> {
        if s == "feu"@ {
            Some(PokemonType::Feu)
        } else if s == "eau"@ {
            Some(PokemonType::Eau)
        } else if s == "plante"@ {
            Some(PokemonType::Plante)
        } else if s == "electrik"@ || s == "électrik"@ {
            Some(PokemonType::Electrik)
        } else if s == "normal"@ {
            Some(PokemonType::Normal)
        } else if s == "vol"@ {
            Some(PokemonType::Vol)
        } else if s == "combat"@ {
            Some(PokemonType::Combat)
        } else if s == "psy"@ {
            Some(PokemonType::Psy)
        } else {
            None
        }
    }

    /// The category that a name denotes, whatever its case.
    pub open spec fn spec_from_str(s: Seq<char>) -> Option<PokemonType> {
        Self::spec_from_lowercase(minuscules(s))
    }

    /// The eight categories, in the order of their declaration.
    pub open spec fn spec_all_types() -> Seq<PokemonType> {
        seq![
            PokemonType::Feu,
            PokemonType::Eau,
            PokemonType::Plante,
            PokemonType::Electrik,
            PokemonType::Normal,
            PokemonType::Vol,
            PokemonType::Combat,
            PokemonType::Psy,
        ]
    }

    /// Place of the category among the eight when they are ordered by
    /// display name.
    pub open spec fn spec_rang(self) -> nat {
        match self {
            PokemonType::Combat => 0,
            PokemonType::Eau => 1,
            PokemonType::Feu => 2,
            PokemonType::Normal => 3,
            PokemonType::Plante => 4,
            PokemonType::Psy => 5,
            PokemonType::Vol => 6,
            PokemonType::Electrik => 7,
        }
    }

    /// The ranks order the categories as the lexicographic order of their
    /// display names does.
    pub proof fn lemma_rang_ordre_des_noms(self, autre: PokemonType)
        ensures
            self.spec_rang() < autre.spec_rang() <==> avant_lexicographique(
                self.spec_as_str(),
                autre.spec_as_str(),
            ),
    {
        reveal_with_fuel(avant_lexicographique, 3);
        reveal_strlit("Feu");
        reveal_strlit("Eau");
        reveal_strlit("Plante");
        reveal_strlit("Électrik");
        reveal_strlit("Normal");
        reveal_strlit("Vol");
        reveal_strlit("Combat");
        reveal_strlit("Psy");
        if self == autre {
            lemma_irreflexif(self.spec_as_str());
        }
    }

    /// The lowercase form of a display name, letter by letter, denotes the
    /// category it belongs to.
    pub proof fn lemma_affichage_reconnu(self)
        ensures
            est_latin1(self.spec_as_str()),
            Self::spec_from_lowercase(minuscules_latin1(self.spec_as_str())) == Some(self),
    {
        reveal_strlit("Feu");
        reveal_strlit("Eau");
        reveal_strlit("Plante");
        reveal_strlit("Électrik");
        reveal_strlit("Normal");
        reveal_strlit("Vol");
        reveal_strlit("Combat");
        reveal_strlit("Psy");
        reveal_strlit("feu");
        reveal_strlit("eau");
        reveal_strlit("plante");
        reveal_strlit("electrik");
        reveal_strlit("électrik");
        reveal_strlit("normal");
        reveal_strlit("vol");
        reveal_strlit("combat");
        reveal_strlit("psy");
        let bas = minuscules_latin1(self.spec_as_str());
        assert("feu"@[0] == 'f' && "eau"@[0] == 'e' && "plante"@[0] == 'p');
        assert("vol"@[0] == 'v' && "combat"@[0] == 'c' && "psy"@[0] == 'p');
        match self {
            PokemonType::Feu => {
                assert(bas =~= "feu"@);
            },
            PokemonType::Eau => {
                assert(bas =~= "eau"@);
            },
            PokemonType::Plante => {
                assert(bas =~= "plante"@);
            },
            PokemonType::Electrik => {
                assert(bas =~= "électrik"@);
            },
            PokemonType::Normal => {
                assert(bas =~= "normal"@);
            },
            PokemonType::Vol => {
                assert(bas =~= "vol"@);
            },
            PokemonType::Combat => {
                assert(bas =~= "combat"@);
            },
            PokemonType::Psy => {
                assert(bas =~= "psy"@);
            },
        }
    }

    /// Display name of the category.
    pub fn as_str(&self) -> (r: &'static str)
        ensures
            r@ == self.spec_as_str(),
    {
        match self {
            PokemonType::Feu => "Feu",
            PokemonType::Eau => "Eau",
            PokemonType::Plante => "Plante",
            PokemonType::Electrik => "Électrik",
            PokemonType::Normal => "Normal",
            PokemonType::Vol => "Vol",
            PokemonType::Combat => "Combat",
            PokemonType::Psy => "Psy",
        }
    }

    /// Reads a name that is already in lowercase.
    pub fn from_lowercase(s: &str) -> (r: Option<Self>)
        ensures
            r == Self::spec_from_lowercase(s@),
    {
        let v = chars_of(s);
        let t = v.as_slice();
        if same_text(t, "feu") {
            Some(PokemonType::Feu)
        } else if same_text(t, "eau") {
            Some(PokemonType::Eau)
        } else if same_text(t, "plante") {
            Some(PokemonType::Plante)
        } else if same_text(t, "electrik") || same_text(t, "électrik") {
            Some(PokemonType::Electrik)
        } else if same_text(t, "normal") {
            Some(PokemonType::Normal)
        } else if same_text(t, "vol") {
            Some(PokemonType::Vol)
        } else if same_text(t, "combat") {
            Some(PokemonType::Combat)
        } else if same_text(t, "psy") {
            Some(PokemonType::Psy)
        } else {
            None
        }
    }

    /// Reads a name in any case. A display name is read as its category.
    pub fn from_str(s: &str) -> (r: Option<Self>)
        ensures
            r == Self::spec_from_str(s@),
            est_latin1(s@) ==> r == Self::spec_from_lowercase(minuscules_latin1(s@)),
            forall|t: PokemonType| s@ == #[trigger] t.spec_as_str() ==> r == Some(t),
    {
        let bas = en_minuscules(s);
        let r = Self::from_lowercase(bas.as_str());
        assert forall|t: PokemonType| s@ == #[trigger] t.spec_as_str() implies r == Some(t) by {
            t.lemma_affichage_reconnu();
        }
        r
    }

    /// Place of the category among the eight when they are ordered by
    /// display name.
    pub fn rang(&self) -> (r: u8)
        ensures
            r == self.spec_rang(),
    {
        match self {
            PokemonType::Combat => 0,
            PokemonType::Eau => 1,
            PokemonType::Feu => 2,
            PokemonType::Normal => 3,
            PokemonType::Plante => 4,
            PokemonType::Psy => 5,
            PokemonType::Vol => 6,
            PokemonType::Electrik => 7,
        }
    }

    /// The eight categories, in the order of their declaration.
    pub fn get_all_types() -> (v: Vec<Self>)
        ensures
            v@ == Self::spec_all_types(),
            forall|t: PokemonType| v@.contains(t),
    {
        let mut v: Vec<PokemonType> = Vec::new();
        v.push(PokemonType::Feu);
        v.push(PokemonType::Eau);
        v.push(PokemonType::Plante);
        v.push(PokemonType::Electrik);
        v.push(PokemonType::Normal);
        v.push(PokemonType::Vol);
        v.push(PokemonType::Combat);
        v.push(PokemonType::Psy);
        assert forall|t: PokemonType| v@.contains(t) by {
            match t {
                PokemonType::Feu => assert(v@[0] == t),
                PokemonType::Eau => assert(v@[1] == t),
                PokemonType::Plante => assert(v@[2] == t),
                PokemonType::Electrik => assert(v@[3] == t),
                PokemonType::Normal => assert(v@[4] == t),
                PokemonType::Vol => assert(v@[5] == t),
                PokemonType::Combat => assert(v@[6] == t),
                PokemonType::Psy => assert(v@[7] == t),
            }
        }
        v
    }
}

impl Genre {
    /// Display name of the sex.
    pub open spec fn spec_as_str(self) -> Seq<char> {
        match self {
            Genre::Male => "Mâle"@,
            Genre::Femelle => "Femelle"@,
        }
    }

    /// The sex that a lowercase name denotes, if any: the name in full,
    /// with or without the accent, or its first letter.
    pub open spec fn spec_from_lowercase(s: Seq<char>) -> Option<Genre> {
        if s == "male"@ || s == "mâle"@ || s == "m"@ {
            Some(Genre::Male)
        } else if s == "femelle"@ || s == "f"@ {
            Some(Genre::Femelle)
        } else {
            None
        }
    }

    /// The sex that a name denotes, whatever its case.
    pub open spec fn spec_from_str(s: Seq<char>) -> Option<Genre> {
        Self::spec_from_lowercase(minuscules(s))
    }

    /// The lowercase form of a display name, letter by letter, denotes the
    /// sex it belongs to.
    pub proof fn lemma_affichage_reconnu(self)
        ensures
            est_latin1(self.spec_as_str()),
            Self::spec_from_lowercase(minuscules_latin1(self.spec_as_str())) == Some(self),
    {
        reveal_strlit("Mâle");
        reveal_strlit("Femelle");
        reveal_strlit("male");
        reveal_strlit("mâle");
        reveal_strlit("m");
        reveal_strlit("femelle");
        reveal_strlit("f");
        let bas = minuscules_latin1(self.spec_as_str());
        match self {
            Genre::Male => {
                assert(bas =~= "mâle"@);
            },
            Genre::Femelle => {
                assert(bas =~= "femelle"@);
            },
        }
    }

    /// Display name of the sex.
    pub fn as_str(&self) -> (r: &'static str)
        ensures
            r@ == self.spec_as_str(),
    {
        match self {
            Genre::Male => "Mâle",
            Genre::Femelle => "Femelle",
        }
    }

    /// Reads a name that is already in lowercase.
    pub fn from_lowercase(s: &str) -> (r: Option<Self>)
        ensures
            r == Self::spec_from_lowercase(s@),
    {
        let v = chars_of(s);
        let t = v.as_slice();
        if same_text(t, "male") || same_text(t, "mâle") || same_text(t, "m") {
            Some(Genre::Male)
        } else if same_text(t, "femelle") || same_text(t, "f") {
            Some(Genre::Femelle)
        } else {
            None
        }
    }

    /// Reads a name in any case. A display name is read as its sex.
    pub fn from_str(s: &str) -> (r: Option<Self>)
        ensures
            r == Self::spec_from_str(s@),
            est_latin1(s@) ==> r == Self::spec_from_lowercase(minuscules_latin1(s@)),
            forall|g: Genre| s@ == #[trigger] g.spec_as_str() ==> r == Some(g),
    {
        let bas = en_minuscules(s);
        let r = Self::from_lowercase(bas.as_str());
        assert forall|g: Genre| s@ == #[trigger] g.spec_as_str() implies r == Some(g) by {
            g.lemma_affichage_reconnu();
        }
        r
    }
}

} // verus!
