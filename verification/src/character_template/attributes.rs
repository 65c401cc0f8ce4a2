//! The attributes a template declares, each with its list of skills.

use vstd::prelude::*;

use crate::character_template::common::Requirements;

verus! {

/// A skill declared by a template under one of its attributes.
#[derive(Clone)]
pub struct Skill {
    pub name: String,
    pub description: String,
}

/// An attribute declared by a template. Skill names are unique within an
/// attribute; this is guaranteed by the template author and not re-checked.
#[derive(Clone)]
pub struct Attribute {
    pub name: String,
    pub description: String,
    pub skills: Option<Vec<Skill>>,
    pub required: Option<Requirements>,
}

} // verus!
