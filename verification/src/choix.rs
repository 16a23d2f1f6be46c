//! How the numbers typed by a user become values: a place in the list, a
//! category, a sex, an amount of experience. A number outside its range
//! gives nothing, and a default value stands in for it.

use crate::types::{Genre, PokemonType};
use vstd::prelude::*;

verus! {

/// Least amount of experience a training session gives.
pub const XP_MINIMUM: usize = 10;

/// Greatest amount of experience a training session gives.
pub const XP_MAXIMUM: usize = 100;

/// Amount that stands in for one outside the range.
pub const XP_PAR_DEFAUT: u32 = 10;

/// The place in a list of `longueur` creatures that the number `numero`,
/// counted from one, denotes.
pub open spec fn spec_index(numero: int, longueur: int) -> Option<int> {
    if 1 <= numero <= longueur {
        Some(numero - 1)
    } else {
        None
    }
}

/// The category that the number `numero` denotes: the eight categories are
/// numbered from one in the order of their declaration.
pub open spec fn spec_type(numero: int) -> Option<PokemonType> {
    if 1 <= numero <= PokemonType::spec_all_types().len() {
        Some(PokemonType::spec_all_types()[numero - 1])
    } else {
        None
    }
}

/// The sex that the number `numero` denotes.
pub open spec fn spec_genre(numero: int) -> Option<Genre> {
    if numero == 1 {
        Some(Genre::Male)
    } else if numero == 2 {
        Some(Genre::Femelle)
    } else {
        None
    }
}

/// The amount of experience that the number `n` denotes.
pub open spec fn spec_xp(n: int) -> Option<int> {
    if XP_MINIMUM <= n <= XP_MAXIMUM {
        Some(n)
    } else {
        None
    }
}

/// The place, counted from zero, of the creature that a user calls
/// `numero` in a list of `longueur` creatures.
pub fn index_du_numero(numero: usize, longueur: usize) -> (r: Option<usize>)
    ensures
        match spec_index(numero as int, longueur as int) {
            Some(i) => r == Some(i as usize),
            None => r is None,
        },
{
    if 1 <= numero && numero <= longueur {
        Some(numero - 1)
    } else {
        None
    }
}

/// The category that a user calls `numero`.
pub fn type_du_numero(numero: usize) -> (r: Option<PokemonType>)
    ensures
        r == spec_type(numero as int),
{
    let tous = PokemonType::get_all_types();
    if 1 <= numero && numero <= tous.len() {
        Some(tous[numero - 1])
    } else {
        None
    }
}

/// The category that a user calls `numero`, or `Normal` where the number
/// denotes none.
pub fn type_retenu(numero: usize) -> (r: PokemonType)
    ensures
        r == match spec_type(numero as int) {
            Some(t) => t,
            None => PokemonType::Normal,
        },
{
    match type_du_numero(numero) {
        Some(t) => t,
        None => PokemonType::Normal,
    }
}

/// The sex that a user calls `numero`.
pub fn genre_du_numero(numero: usize) -> (r: Option<Genre>)
    ensures
        r == spec_genre(numero as int),
{
    if numero == 1 {
        Some(Genre::Male)
    } else if numero == 2 {
        Some(Genre::Femelle)
    } else {
        None
    }
}

/// The sex that a user calls `numero`, or `Male` where the number denotes
/// none.
pub fn genre_retenu(numero: usize) -> (r: Genre)
    ensures
        r == match spec_genre(numero as int) {
            Some(g) => g,
            None => Genre::Male,
        },
{
    match genre_du_numero(numero) {
        Some(g) => g,
        None => Genre::Male,
    }
}

/// The amount of experience `n`, where it lies in the range.
pub fn xp_du_nombre(n: usize) -> (r: Option<u32>)
    ensures
        match spec_xp(n as int) {
            Some(x) => r == Some(x as u32),
            None => r is None,
        },
{
    if XP_MINIMUM <= n && n <= XP_MAXIMUM {
        Some(n as u32)
    } else {
        None
    }
}

/// The amount of experience `n`, or the default amount where `n` lies
/// outside the range.
pub fn xp_retenu(n: usize) -> (r: u32)
    ensures
        r == match spec_xp(n as int) {
            Some(x) => x,
            None => XP_PAR_DEFAUT as int,
        },
{
    match xp_du_nombre(n) {
        Some(x) => x,
        None => XP_PAR_DEFAUT,
    }
}

} // verus!
