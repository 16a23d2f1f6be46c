use elevage_pokemon::decimal::{parse_u32, push_decimal};
use elevage_pokemon::decoupe::{decouper, lignes};
use elevage_pokemon::texte::{chars_of, push_chars, push_text, same_text, string_of};

fn lire(s: &str) -> Option<u32> {
    parse_u32(chars_of(s).as_slice())
}

fn ecrire(n: u32) -> String {
    let mut s = String::new();
    push_decimal(&mut s, n);
    s
}

fn champs(s: &str, sep: char) -> Vec<String> {
    let v = chars_of(s);
    decouper(v.as_slice(), sep).into_iter().map(string_of).collect()
}

fn en_lignes(s: &str) -> Vec<String> {
    let v = chars_of(s);
    lignes(v.as_slice()).into_iter().map(string_of).collect()
}

#[test]
fn nombres_lus() {
    assert_eq!(lire("0"), Some(0));
    assert_eq!(lire("5"), Some(5));
    assert_eq!(lire("42"), Some(42));
    assert_eq!(lire("007"), Some(7));
    assert_eq!(lire("+5"), Some(5));
    assert_eq!(lire("+0012"), Some(12));
    assert_eq!(lire("4294967295"), Some(4294967295));
    assert_eq!(lire("0000000000004294967295"), Some(4294967295));
}

#[test]
fn nombres_refuses() {
    assert_eq!(lire(""), None);
    assert_eq!(lire("+"), None);
    assert_eq!(lire("-"), None);
    assert_eq!(lire("-5"), None);
    assert_eq!(lire("-0"), None);
    assert_eq!(lire("++5"), None);
    assert_eq!(lire("5+"), None);
    assert_eq!(lire(" 5"), None);
    assert_eq!(lire("5 "), None);
    assert_eq!(lire("12a"), None);
    assert_eq!(lire("1_000"), None);
    assert_eq!(lire("1.5"), None);
    assert_eq!(lire("٣"), None);
    assert_eq!(lire("4294967296"), None);
    assert_eq!(lire("99999999999999999999999999"), None);
}

#[test]
fn nombres_lus_comme_la_bibliotheque_standard() {
    let cas = [
        "", "0", "1", "+1", "-1", "+", "00", "10", "4294967295", "4294967296", "42949672950",
        "abc", "1a", "a1", " 1", "1 ", "+-1", "+ 1", "١", "18446744073709551616",
    ];
    for c in cas {
        assert_eq!(lire(c), c.parse::<u32>().ok());
    }
}

#[test]
fn nombres_ecrits() {
    assert_eq!(ecrire(0), "0");
    assert_eq!(ecrire(7), "7");
    assert_eq!(ecrire(10), "10");
    assert_eq!(ecrire(100), "100");
    assert_eq!(ecrire(1905), "1905");
    assert_eq!(ecrire(4294967295), "4294967295");
}

#[test]
fn nombre_ecrit_a_la_suite() {
    let mut s = String::from("n=");
    push_decimal(&mut s, 256);
    assert_eq!(s, "n=256");
}

#[test]
fn nombre_ecrit_puis_relu() {
    for n in [0u32, 1, 9, 10, 11, 99, 100, 101, 65535, 65536, 1000000, 4294967294, 4294967295] {
        assert_eq!(lire(&ecrire(n)), Some(n));
        assert_eq!(ecrire(n), n.to_string());
    }
}

#[test]
fn champs_separes() {
    assert_eq!(champs("a|b|c", '|'), vec!["a", "b", "c"]);
    assert_eq!(champs("abc", '|'), vec!["abc"]);
    assert_eq!(champs("", '|'), vec![""]);
    assert_eq!(champs("|", '|'), vec!["", ""]);
    assert_eq!(champs("a|", '|'), vec!["a", ""]);
    assert_eq!(champs("|a", '|'), vec!["", "a"]);
    assert_eq!(champs("a||b", '|'), vec!["a", "", "b"]);
    assert_eq!(champs("é|ü", '|'), vec!["é", "ü"]);
}

#[test]
fn champs_comme_la_bibliotheque_standard() {
    for c in ["", "|", "||", "a", "a|b", "|a|", "ab|cd|ef|gh|ij", "x||y|"] {
        let attendu: Vec<String> = c.split('|').map(String::from).collect();
        assert_eq!(champs(c, '|'), attendu);
    }
}

#[test]
fn lignes_d_un_texte() {
    assert_eq!(en_lignes(""), Vec::<String>::new());
    assert_eq!(en_lignes("\n"), vec![""]);
    assert_eq!(en_lignes("a"), vec!["a"]);
    assert_eq!(en_lignes("a\n"), vec!["a"]);
    assert_eq!(en_lignes("a\nb"), vec!["a", "b"]);
    assert_eq!(en_lignes("a\nb\n"), vec!["a", "b"]);
    assert_eq!(en_lignes("a\n\nb"), vec!["a", "", "b"]);
    assert_eq!(en_lignes("\n\n"), vec!["", ""]);
}

#[test]
fn lignes_et_retours_chariot() {
    assert_eq!(en_lignes("a\r\nb\r\n"), vec!["a", "b"]);
    assert_eq!(en_lignes("a\r\n"), vec!["a"]);
    assert_eq!(en_lignes("a\r"), vec!["a\r"]);
    assert_eq!(en_lignes("a\rb\n"), vec!["a\rb"]);
    assert_eq!(en_lignes("a\r\r\n"), vec!["a\r"]);
    assert_eq!(en_lignes("\r\n"), vec![""]);
    assert_eq!(en_lignes("\r"), vec!["\r"]);
}

#[test]
fn lignes_comme_la_bibliotheque_standard() {
    for c in ["", "\n", "a", "a\n", "a\r\n", "a\nb", "a\r\nb\r\n", "\n\n", "x\n\ny\n", "a\rb\nc"] {
        let attendu: Vec<String> = c.lines().map(String::from).collect();
        assert_eq!(en_lignes(c), attendu);
    }
}

#[test]
fn caracteres_et_retour() {
    assert_eq!(chars_of("aé|"), vec!['a', 'é', '|']);
    assert_eq!(chars_of(""), Vec::<char>::new());
    assert_eq!(string_of(&['É', 'a']), "Éa");
    assert_eq!(string_of(&[]), "");
    let mut s = String::from("x");
    push_chars(&mut s, &['y', 'z']);
    push_text(&mut s, "été");
    assert_eq!(s, "xyzété");
}

#[test]
fn meme_texte() {
    assert!(same_text(&['f', 'e', 'u'], "feu"));
    assert!(same_text(&[], ""));
    assert!(!same_text(&['f', 'e'], "feu"));
    assert!(!same_text(&['f', 'e', 'u', 'x'], "feu"));
    assert!(!same_text(&['f', 'e', 'v'], "feu"));
    assert!(!same_text(&[], "f"));
    assert!(!same_text(&['f'], ""));
    assert!(same_text(&['é'], "é"));
}
