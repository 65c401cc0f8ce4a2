//! Pieces shared by several template entities: the fixed modifiers a perk
//! applies to named attributes or skills, and declared prerequisites.

use vstd::prelude::*;

verus! {

/// A perk's fixed bonus (or malus) to the attribute of the given name.
#[derive(Debug, Clone)]
pub struct AttributeModifier {
    pub name: String,
    pub modifier: i64,
}

/// A perk's fixed bonus (or malus) to the skill of the given name.
#[derive(Debug, Clone)]
pub struct SkillModifier {
    pub name: String,
    pub modifier: i64,
}

/// A prerequisite on an attribute: its value must reach the threshold.
#[derive(Debug, Clone)]
pub struct AttributeRequirement {
    pub name: String,
    pub greater_than_or_equal_to: i64,
}

/// A prerequisite on a skill: its value must reach the threshold.
#[derive(Debug, Clone)]
pub struct SkillRequirement {
    pub name: String,
    pub greater_than_or_equal_to: i64,
}

/// Declared prerequisites. They are part of the template data but are not
/// consulted by the validation pipeline.
#[derive(Debug, Clone)]
pub struct Requirements {
    pub perks: Option<Vec<String>>,
    pub attributes: Option<Vec<AttributeRequirement>>,
    pub skills: Option<Vec<SkillRequirement>>,
}

} // verus!
