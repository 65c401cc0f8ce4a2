//! Sheet-level configuration: bounds on a character's name and description.
//!
//! The configuration is an explicitly constructed value handed to the
//! validator, loaded once by the caller and read-only thereafter.

use vstd::prelude::*;

verus! {

/// Bounds on the length of a character's name, counted in characters.
#[derive(Clone, Copy)]
pub struct CharacterNameConfig {
    pub min_length: i32,
    pub max_length: i32,
}

/// Bound on the length of a character's description, counted in characters.
#[derive(Clone, Copy)]
pub struct CharacterDescriptionConfig {
    pub max_length: i32,
}

/// The sheet-level configuration a sheet is validated under.
#[derive(Clone, Copy)]
pub struct CharacterSheetConfig {
    pub name: CharacterNameConfig,
    pub description: CharacterDescriptionConfig,
}

} // verus!
