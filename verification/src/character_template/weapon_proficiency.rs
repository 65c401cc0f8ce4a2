//! The weapon proficiencies a template declares, grouped by category.

use vstd::prelude::*;

use crate::character_template::common::Requirements;

verus! {

/// All weapon categories a template knows about.
#[derive(Clone)]
pub struct WeaponProficiency {
    pub categories: Vec<WeaponCategory>,
}

/// One category of weapons, such as blades or sidearms.
#[derive(Clone)]
pub struct WeaponCategory {
    pub category: String,
    pub weapons: Vec<Weapon>,
}

/// A single weapon, with its declared (unenforced) prerequisites.
#[derive(Clone)]
pub struct Weapon {
    pub weapon: String,
    pub required: Option<Requirements>,
}

} // verus!
