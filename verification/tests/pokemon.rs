use elevage_pokemon::pokemon::Pokemon;
use elevage_pokemon::types::{Genre, PokemonType};

fn creature(nom: &str, niveau: u32, t: PokemonType, experience: u32, g: Genre) -> Pokemon {
    Pokemon::from_details(nom.to_string(), niveau, t, experience, g)
}

fn memes_champs(a: &Pokemon, b: &Pokemon) -> bool {
    a.nom == b.nom
        && a.niveau == b.niveau
        && a.pokemon_type == b.pokemon_type
        && a.experience == b.experience
        && a.genre == b.genre
}

#[test]
fn nouveau_pokemon_au_niveau_un() {
    let p = Pokemon::new("Pikachu".to_string(), PokemonType::Electrik, Genre::Male);
    assert_eq!(p.nom, "Pikachu");
    assert_eq!(p.niveau, 1);
    assert_eq!(p.pokemon_type, PokemonType::Electrik);
    assert_eq!(p.experience, 0);
    assert_eq!(p.genre, Genre::Male);
}

#[test]
fn pokemon_avec_ses_cinq_champs() {
    let p = creature("Carapuce", 12, PokemonType::Eau, 34, Genre::Femelle);
    assert_eq!(p.nom, "Carapuce");
    assert_eq!(p.niveau, 12);
    assert_eq!(p.pokemon_type, PokemonType::Eau);
    assert_eq!(p.experience, 34);
    assert_eq!(p.genre, Genre::Femelle);
}

#[test]
fn experience_sans_changement_de_niveau() {
    let mut p = creature("A", 3, PokemonType::Feu, 10, Genre::Male);
    assert_eq!(p.gagner_experience(50), 0);
    assert_eq!(p.niveau, 3);
    assert_eq!(p.experience, 60);
}

#[test]
fn experience_qui_fait_un_niveau() {
    let mut p = creature("A", 3, PokemonType::Feu, 50, Genre::Male);
    assert_eq!(p.gagner_experience(70), 1);
    assert_eq!(p.niveau, 4);
    assert_eq!(p.experience, 20);
}

#[test]
fn experience_qui_fait_juste_un_niveau() {
    let mut p = creature("A", 1, PokemonType::Feu, 0, Genre::Male);
    assert_eq!(p.gagner_experience(100), 1);
    assert_eq!(p.niveau, 2);
    assert_eq!(p.experience, 0);
    assert_eq!(p.gagner_experience(99), 0);
    assert_eq!(p.niveau, 2);
    assert_eq!(p.experience, 99);
    assert_eq!(p.gagner_experience(1), 1);
    assert_eq!(p.niveau, 3);
    assert_eq!(p.experience, 0);
}

#[test]
fn experience_qui_fait_plusieurs_niveaux() {
    let mut p = creature("A", 1, PokemonType::Feu, 99, Genre::Male);
    assert_eq!(p.gagner_experience(250), 3);
    assert_eq!(p.niveau, 4);
    assert_eq!(p.experience, 49);
}

#[test]
fn experience_nulle() {
    let mut p = creature("A", 7, PokemonType::Feu, 42, Genre::Male);
    assert_eq!(p.gagner_experience(0), 0);
    assert_eq!(p.niveau, 7);
    assert_eq!(p.experience, 42);
}

#[test]
fn experience_selon_la_formule() {
    for e in [0u32, 1, 37, 99] {
        for xp in [0u32, 1, 10, 63, 99, 100, 101, 1000, 12345] {
            let mut p = creature("A", 5, PokemonType::Psy, e, Genre::Femelle);
            let gagnes = p.gagner_experience(xp);
            assert_eq!(gagnes, (e + xp) / 100);
            assert_eq!(p.niveau, 5 + (e + xp) / 100);
            assert_eq!(p.experience, (e + xp) % 100);
            assert_eq!(p.nom, "A");
            assert_eq!(p.pokemon_type, PokemonType::Psy);
            assert_eq!(p.genre, Genre::Femelle);
        }
    }
}

#[test]
fn experience_au_dela_de_trente_deux_bits() {
    let mut p = creature("A", 1, PokemonType::Feu, 4294967295, Genre::Male);
    assert_eq!(p.gagner_experience(5), 42949673);
    assert_eq!(p.niveau, 42949674);
    assert_eq!(p.experience, 0);
}

#[test]
fn experience_remise_sous_cent() {
    let mut p = creature("A", 2, PokemonType::Feu, 250, Genre::Male);
    assert_eq!(p.gagner_experience(0), 2);
    assert_eq!(p.niveau, 4);
    assert_eq!(p.experience, 50);
}

#[test]
fn reproduction_possible() {
    let a = creature("Aqua", 5, PokemonType::Eau, 0, Genre::Male);
    let b = creature("Mare", 5, PokemonType::Eau, 0, Genre::Femelle);
    assert!(a.peut_se_reproduire(&b));
    assert!(b.peut_se_reproduire(&a));
}

#[test]
fn reproduction_refusee() {
    let a = creature("a", 5, PokemonType::Eau, 0, Genre::Male);
    let meme_genre = creature("b", 5, PokemonType::Eau, 0, Genre::Male);
    let autre_type = creature("c", 5, PokemonType::Feu, 0, Genre::Femelle);
    let trop_jeune = creature("d", 4, PokemonType::Eau, 99, Genre::Femelle);
    assert!(!a.peut_se_reproduire(&meme_genre));
    assert!(!a.peut_se_reproduire(&autre_type));
    assert!(!a.peut_se_reproduire(&trop_jeune));
    assert!(!trop_jeune.peut_se_reproduire(&a));
    assert!(!a.peut_se_reproduire(&a));
}

#[test]
fn reproduction_symetrique() {
    let mut tous = Vec::new();
    for t in [PokemonType::Eau, PokemonType::Feu] {
        for g in [Genre::Male, Genre::Femelle] {
            for n in [1u32, 4, 5, 6] {
                tous.push(creature("x", n, t, 0, g));
            }
        }
    }
    for a in &tous {
        for b in &tous {
            assert_eq!(a.peut_se_reproduire(b), b.peut_se_reproduire(a));
        }
    }
}

#[test]
fn format_d_une_ligne() {
    let p = creature("Pikachu", 5, PokemonType::Electrik, 42, Genre::Male);
    assert_eq!(p.to_string_format(), "Pikachu|5|Électrik|42|Mâle");
    let q = creature("Léa", 100, PokemonType::Eau, 0, Genre::Femelle);
    assert_eq!(q.to_string_format(), "Léa|100|Eau|0|Femelle");
    let r = creature("", 0, PokemonType::Psy, 4294967295, Genre::Femelle);
    assert_eq!(r.to_string_format(), "|0|Psy|4294967295|Femelle");
}

#[test]
fn texte_affiche() {
    let p = creature("Pikachu", 5, PokemonType::Electrik, 42, Genre::Male);
    assert_eq!(
        p.to_display_string(),
        "Pokémon: Pikachu | Type: Électrik | Niveau: 5 | XP: 42/100 | Genre: Mâle"
    );
}

#[test]
fn ligne_lue() {
    let p = Pokemon::from_string("Pikachu|5|Électrik|42|Mâle").unwrap();
    assert!(memes_champs(&p, &creature("Pikachu", 5, PokemonType::Electrik, 42, Genre::Male)));
    let q = Pokemon::from_string("Bulbi|12|PLANTE|+7|f").unwrap();
    assert!(memes_champs(&q, &creature("Bulbi", 12, PokemonType::Plante, 7, Genre::Femelle)));
    let r = Pokemon::from_string("|0|electrik|250|M").unwrap();
    assert!(memes_champs(&r, &creature("", 0, PokemonType::Electrik, 250, Genre::Male)));
    let s = Pokemon::from_string(" a b |007|feu|0|male").unwrap();
    assert!(memes_champs(&s, &creature(" a b ", 7, PokemonType::Feu, 0, Genre::Male)));
}

#[test]
fn ligne_refusee() {
    assert!(Pokemon::from_string("").is_none());
    assert!(Pokemon::from_string("Pikachu").is_none());
    assert!(Pokemon::from_string("Pikachu|5|Électrik|42").is_none());
    assert!(Pokemon::from_string("Pikachu|5|Électrik|42|Mâle|").is_none());
    assert!(Pokemon::from_string("Pika|chu|5|Électrik|42|Mâle").is_none());
    assert!(Pokemon::from_string("Pikachu|cinq|Électrik|42|Mâle").is_none());
    assert!(Pokemon::from_string("Pikachu|-5|Électrik|42|Mâle").is_none());
    assert!(Pokemon::from_string("Pikachu||Électrik|42|Mâle").is_none());
    assert!(Pokemon::from_string("Pikachu|5|Glace|42|Mâle").is_none());
    assert!(Pokemon::from_string("Pikachu|5|Électrik|4 2|Mâle").is_none());
    assert!(Pokemon::from_string("Pikachu|5|Électrik|4294967296|Mâle").is_none());
    assert!(Pokemon::from_string("Pikachu|5|Électrik|42|Neutre").is_none());
    assert!(Pokemon::from_string("Pikachu|5|Électrik|42|Mâle ").is_none());
    assert!(Pokemon::from_string("||||").is_none());
}

#[test]
fn ecrire_puis_lire_rend_le_pokemon() {
    for t in PokemonType::get_all_types() {
        for g in [Genre::Male, Genre::Femelle] {
            for (nom, niveau, experience) in
                [("Pikachu", 1u32, 0u32), ("", 0, 99), ("É l", 4294967295, 4294967295), ("a\rb", 7, 100)]
            {
                let p = creature(nom, niveau, t, experience, g);
                let relu = Pokemon::from_string(&p.to_string_format()).unwrap();
                assert!(memes_champs(&relu, &p));
            }
        }
    }
}

#[test]
fn nom_avec_barre_non_relu() {
    let p = creature("a|b", 1, PokemonType::Feu, 0, Genre::Male);
    assert!(Pokemon::from_string(&p.to_string_format()).is_none());
}

#[test]
fn lecture_depuis_des_caracteres() {
    let v: Vec<char> = "Mew|9|psy|1|F".chars().collect();
    let p = Pokemon::from_chars(&v).unwrap();
    assert!(memes_champs(&p, &creature("Mew", 9, PokemonType::Psy, 1, Genre::Femelle)));
    assert!(Pokemon::from_chars(&[]).is_none());
}

#[test]
fn gain_possible_ou_non() {
    let p = creature("A", 4294967295, PokemonType::Feu, 0, Genre::Male);
    assert!(p.peut_gagner_experience(0));
    assert!(p.peut_gagner_experience(99));
    assert!(!p.peut_gagner_experience(100));
    let q = creature("A", 4294967294, PokemonType::Feu, 99, Genre::Male);
    assert!(q.peut_gagner_experience(100));
    assert!(!q.peut_gagner_experience(101));
    let r = creature("A", 1, PokemonType::Feu, 4294967295, Genre::Male);
    assert!(r.peut_gagner_experience(4294967295));
    let mut s = creature("A", 4294967294, PokemonType::Feu, 99, Genre::Male);
    assert_eq!(s.gagner_experience(100), 1);
    assert_eq!(s.niveau, 4294967295);
    assert_eq!(s.experience, 99);
}
