//! A breeding farm of creatures: records with levels and experience,
//! breeding rules, stable sorting, and a line-oriented saved form, each
//! operation with its contract.

pub mod choix;
pub mod decimal;
pub mod decoupe;
pub mod elevage;
pub mod hasard;
pub mod pokemon;
pub mod sauvegarde;
pub mod texte;
pub mod tri;
pub mod types;
