use elevage_pokemon::elevage::{Elevage, Erreur};
use elevage_pokemon::pokemon::Pokemon;
use elevage_pokemon::types::{Genre, PokemonType};

fn creature(nom: &str, niveau: u32, t: PokemonType, experience: u32, g: Genre) -> Pokemon {
    Pokemon::from_details(nom.to_string(), niveau, t, experience, g)
}

fn etat(e: &Elevage) -> Vec<String> {
    let mut v = vec![e.nom_elevage.clone()];
    for p in &e.pokemons {
        v.push(p.to_string_format());
    }
    v
}

fn trois() -> Elevage {
    let mut e = Elevage::new("Ma ferme");
    e.ajouter_pokemon(creature("Pikachu", 5, PokemonType::Electrik, 42, Genre::Male));
    e.ajouter_pokemon(creature("Carapuce", 12, PokemonType::Eau, 0, Genre::Femelle));
    e.ajouter_pokemon(creature("Léa", 1, PokemonType::Psy, 99, Genre::Femelle));
    e
}

#[test]
fn texte_sauvegarde() {
    assert_eq!(
        trois().sauvegarder(),
        "Ma ferme\nPikachu|5|Électrik|42|Mâle\nCarapuce|12|Eau|0|Femelle\nLéa|1|Psy|99|Femelle\n"
    );
}

#[test]
fn sauvegarde_puis_chargement_d_un_elevage_vide() {
    let e = Elevage::new("Test");
    let texte = e.sauvegarder();
    assert_eq!(texte, "Test\n");
    let relu = Elevage::charger(&texte).unwrap();
    assert_eq!(relu.nom_elevage, "Test");
    assert_eq!(relu.pokemons.len(), 0);
}

#[test]
fn sauvegarde_puis_chargement() {
    let e = trois();
    let relu = Elevage::charger(&e.sauvegarder()).unwrap();
    assert_eq!(etat(&relu), etat(&e));
    assert_eq!(relu.pokemons[0].nom, "Pikachu");
    assert_eq!(relu.pokemons[0].niveau, 5);
    assert_eq!(relu.pokemons[0].pokemon_type, PokemonType::Electrik);
    assert_eq!(relu.pokemons[0].experience, 42);
    assert_eq!(relu.pokemons[0].genre, Genre::Male);
}

#[test]
fn sauvegarde_puis_chargement_de_noms_vides() {
    let mut e = Elevage::new("");
    e.ajouter_pokemon(creature("", 0, PokemonType::Feu, 0, Genre::Male));
    let texte = e.sauvegarder();
    assert_eq!(texte, "\n|0|Feu|0|Mâle\n");
    let relu = Elevage::charger(&texte).unwrap();
    assert_eq!(etat(&relu), etat(&e));
}

#[test]
fn suppression_puis_sauvegarde_et_chargement() {
    for i in 0..3 {
        let mut e = trois();
        let avant = etat(&e);
        assert!(e.supprimer_pokemon(i));
        let relu = Elevage::charger(&e.sauvegarder()).unwrap();
        let mut attendu = avant.clone();
        attendu.remove(i + 1);
        assert_eq!(etat(&relu), attendu);
        assert_eq!(relu.pokemons.len(), 2);
    }
}

#[test]
fn ligne_invalide_ignoree() {
    let texte = "Test\nPikachu|5|Électrik|42|Mâle\nn'importe quoi\nCarapuce|12|Eau|0|Femelle\n";
    let e = Elevage::charger(texte).unwrap();
    assert_eq!(e.nom_elevage, "Test");
    assert_eq!(e.pokemons.len(), 2);
    assert_eq!(etat(&e), vec!["Test", "Pikachu|5|Électrik|42|Mâle", "Carapuce|12|Eau|0|Femelle"]);
}

#[test]
fn ligne_invalide_a_chaque_place() {
    let bonnes = ["a|1|Feu|0|Mâle", "b|2|Eau|10|Femelle", "c|3|Vol|20|Mâle", "d|4|Psy|30|Femelle"];
    for mauvaise in ["", "x", "a|1|Feu|0", "a|un|Feu|0|Mâle", "a|1|Feu|0|Mâle|", "|||||"] {
        for place in 0..=bonnes.len() {
            let mut lignes: Vec<&str> = bonnes.to_vec();
            lignes.insert(place, mauvaise);
            let mut texte = String::from("Test\n");
            for l in &lignes {
                texte.push_str(l);
                texte.push('\n');
            }
            let e = Elevage::charger(&texte).unwrap();
            assert_eq!(e.pokemons.len(), bonnes.len());
            assert_eq!(etat(&e)[1..], bonnes.map(String::from)[..]);
        }
    }
}

#[test]
fn chargement_sans_en_tete() {
    assert_eq!(Elevage::charger("").err(), Some(Erreur::EnTeteManquant));
}

#[test]
fn chargement_d_un_en_tete_seul() {
    let e = Elevage::charger("Nom").unwrap();
    assert_eq!(e.nom_elevage, "Nom");
    assert!(e.pokemons.is_empty());
    let f = Elevage::charger("\n").unwrap();
    assert_eq!(f.nom_elevage, "");
    assert!(f.pokemons.is_empty());
    let g = Elevage::charger("a|1|Feu|0|Mâle\n").unwrap();
    assert_eq!(g.nom_elevage, "a|1|Feu|0|Mâle");
    assert!(g.pokemons.is_empty());
}

#[test]
fn chargement_avec_retours_chariot() {
    let e = Elevage::charger("Test\r\nPikachu|5|Électrik|42|Mâle\r\nTortank|3|eau|1|f").unwrap();
    assert_eq!(etat(&e), vec!["Test", "Pikachu|5|Électrik|42|Mâle", "Tortank|3|Eau|1|Femelle"]);
}

#[test]
fn chargement_de_formes_tolerees() {
    let e = Elevage::charger("T\nA|+3|FEU|007|M\nB|1|ELECTRIK|0|femelle\n").unwrap();
    assert_eq!(etat(&e), vec!["T", "A|3|Feu|7|Mâle", "B|1|Électrik|0|Femelle"]);
}

#[test]
fn nom_d_elevage_finissant_par_un_retour_chariot() {
    let e = Elevage::new("Test\r");
    let relu = Elevage::charger(&e.sauvegarder()).unwrap();
    assert_eq!(relu.nom_elevage, "Test");
}

#[test]
fn nom_de_pokemon_sur_deux_lignes_coupe() {
    let mut e = Elevage::new("Test");
    e.ajouter_pokemon(creature("a\nb", 1, PokemonType::Feu, 0, Genre::Male));
    e.ajouter_pokemon(creature("c", 2, PokemonType::Eau, 0, Genre::Male));
    let relu = Elevage::charger(&e.sauvegarder()).unwrap();
    assert_eq!(etat(&relu), vec!["Test", "b|1|Feu|0|Mâle", "c|2|Eau|0|Mâle"]);
}
