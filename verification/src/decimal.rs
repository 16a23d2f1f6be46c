//! Decimal notation of unsigned 32-bit numbers: writing, reading, and the
//! proof that reading gives back what was written.

use vstd::prelude::*;

verus! {

/// The character of the digit `d`.
pub open spec fn chiffre(d: nat) -> char
    recommends
        d < 10,
{
    (0x30 + d) as char
}

/// Whether `c` is one of `0` to `9`.
pub open spec fn est_chiffre(c: char) -> bool {
    0x30 <= c as u32 <= 0x39
}

/// The value of the digit character `c`.
pub open spec fn valeur_chiffre(c: char) -> nat
    recommends
        est_chiffre(c),
{
    (c as u32 - 0x30) as nat
}

/// Decimal notation of `n`, without sign or leading zeros.
pub open spec fn decimal(n: nat) -> Seq<char>
    decreases n,
{
    if n < 10 {
        seq![chiffre(n)]
    } else {
        decimal(n / 10).push(chiffre(n % 10))
    }
}

/// Whether every character of `s` is a digit.
pub open spec fn tous_chiffres(s: Seq<char>) -> bool {
    forall|i: int| 0 <= i < s.len() ==> est_chiffre(#[trigger] s[i])
}

/// The number that the digits `s` denote in base ten.
pub open spec fn valeur(s: Seq<char>) -> nat
    decreases s.len(),
{
    if s.len() == 0 {
        0
    } else {
        valeur(s.drop_last()) * 10 + valeur_chiffre(s.last())
    }
}

/// `s` without one leading plus sign, if it has one.
pub open spec fn sans_signe(s: Seq<char>) -> Seq<char> {
    if s.len() > 0 && s[0] == '+' {
        s.drop_first()
    } else {
        s
    }
}

/// Reading of an unsigned 32-bit number: an optional plus sign, then at
/// least one digit and nothing but digits, whose value fits in 32 bits.
pub open spec fn spec_parse_u32(s: Seq<char>) -> Option<u32> {
    let chiffres = sans_signe(s);
    if chiffres.len() > 0 && tous_chiffres(chiffres) && valeur(chiffres) <= u32::MAX {
        Some(valeur(chiffres) as u32)
    } else {
        None
    }
}

/// A prefix of a digit sequence never denotes more than the whole.
pub proof fn lemma_valeur_prefixe(s: Seq<char>, i: int)
    requires
        0 <= i <= s.len(),
    ensures
        valeur(s.take(i)) <= valeur(s),
    decreases s.len() - i,
{
    if i == s.len() {
        assert(s.take(i) == s);
    } else {
        lemma_valeur_prefixe(s, i + 1);
        assert(s.take(i + 1).drop_last() == s.take(i));
    }
}

/// The notation of a number is made of digits only, is not empty, and
/// denotes that number.
pub proof fn lemma_decimal_valeur(n: nat)
    ensures
        decimal(n).len() > 0,
        tous_chiffres(decimal(n)),
        valeur(decimal(n)) == n,
    decreases n,
{
    if n < 10 {
        let s = decimal(n);
        assert(valeur(s) == valeur(s.drop_last()) * 10 + valeur_chiffre(s.last()));
    } else {
        lemma_decimal_valeur(n / 10);
        let s = decimal(n);
        assert(s.drop_last() == decimal(n / 10));
        assert forall|i: int| 0 <= i < s.len() implies est_chiffre(#[trigger] s[i]) by {}
    }
}

/// Reading the notation of a number gives the number back.
pub proof fn lemma_parse_decimal(n: u32)
    ensures
        spec_parse_u32(decimal(n as nat)) == Some(n),
{
    lemma_decimal_valeur(n as nat);
}

/// Appends the decimal notation of `n` to `out`.
pub fn push_decimal(out: &mut String, n: u32)
    ensures
        final(out)@ == old(out)@ + decimal(n as nat),
    decreases n,
{
    if n >= 10 {
        push_decimal(out, n / 10);
    }
    let d: u8 = (n % 10) as u8;
    out.push((d + 48) as char);
}

/// Reads the characters of `champ` as an unsigned 32-bit number.
pub fn parse_u32(champ: &[char]) -> (r: Option<u32>)
    ensures
        r == spec_parse_u32(champ@),
{
    let fin: usize = champ.len();
    let depart: usize = if 0 < fin && champ[0] == '+' {
        1
    } else {
        0
    };
    let ghost chiffres = champ@.subrange(depart as int, fin as int);
    if depart == fin {
        return None;
    }
    let mut acc: u64 = 0;
    let mut i: usize = depart;
    while i < fin
        invariant
            depart <= i <= fin == champ.len(),
            chiffres == champ@.subrange(depart as int, fin as int),
            chiffres == sans_signe(champ@),
            tous_chiffres(chiffres.take(i - depart)),
            acc == valeur(chiffres.take(i - depart)),
            acc <= u32::MAX,
        decreases fin - i,
    {
        let c = champ[i];
        let ghost avant = chiffres.take(i - depart);
        let ghost apres = chiffres.take(i - depart + 1);
        assert(apres.drop_last() == avant);
        let code: u32 = c as u32;
        if code < 48 || code > 57 {
            assert(!est_chiffre(chiffres[i - depart]));
            return None;
        }
        let d: u64 = (code - 48) as u64;
        acc = acc * 10 + d;
        assert forall|k: int| 0 <= k < apres.len() implies est_chiffre(#[trigger] apres[k]) by {
            if k < avant.len() {
                assert(apres[k] == avant[k]);
            }
        }
        if acc > 0xFFFF_FFFF {
            proof {
                lemma_valeur_prefixe(chiffres, i - depart + 1);
            }
            return None;
        }
        i += 1;
    }
    assert(chiffres.take(i - depart) == chiffres);
    Some(acc as u32)
}

} // verus!
