//! The perks a template declares: optional traits that cost perk points and
//! carry fixed modifiers.

use vstd::prelude::*;

use crate::character_template::common::{AttributeModifier, SkillModifier};

verus! {

/// A perk a character may hold, at the given point cost.
#[derive(Clone)]
pub struct Perk {
    pub name: String,
    pub description: String,
    pub point_cost: i64,
    pub attributes: Option<Vec<AttributeModifier>>,
    pub skills: Option<Vec<SkillModifier>>,
    pub base_health_modifier: Option<i64>,
    pub base_armor_class_modifier: Option<i64>,
}

} // verus!
