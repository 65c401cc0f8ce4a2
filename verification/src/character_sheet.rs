//! Instance data of a single character: the sheet a player owns and edits.

use vstd::prelude::*;

pub mod config;

verus! {

/// Reference copy identifying which template a sheet was built against.
#[derive(Clone)]
pub struct Template {
    pub name: String,
    pub version: [u8; 3],
}

/// A skill entry on a sheet: points the player has put into the skill.
#[derive(Clone)]
pub struct Skill {
    pub name: String,
    pub value: i64,
}

/// An attribute entry on a sheet, with the skills grouped under it.
#[derive(Clone)]
pub struct Attribute {
    pub name: String,
    pub value: i64,
    pub skills: Option<Vec<Skill>>,
}

/// A character sheet: a player's instance data, checked against a template.
#[derive(Clone)]
pub struct CharacterSheet {
    pub name: String,
    pub template: Template,
    pub description: Option<String>,
    pub health: i64,
    pub armor_class: i64,
    pub weapon_proficiencies: Vec<String>,
    pub perks: Option<Vec<String>>,
    pub attributes: Vec<Attribute>,
}

impl CharacterSheet {
    /// The perk names this sheet holds: empty when it records none.
    pub open spec fn held_perks(&self) -> Seq<String> {
        match self.perks {
            None => Seq::empty(),
            Some(h) => h@,
        }
    }
}

} // verus!
