//! The authoritative ruleset a sheet is validated against: attributes,
//! skills, perks, weapon proficiencies, and the point budgets for each.

use vstd::prelude::*;

pub mod attributes;
pub mod common;
pub mod perk;
pub mod weapon_proficiency;

use crate::character_sheet;
use crate::character_sheet::CharacterSheet;
use attributes::Attribute;
use perk::Perk;
use weapon_proficiency::WeaponProficiency;

verus! {

/// A point budget: how many points may be spent in total, and, optionally,
/// how many may go to a single attribute or skill. An absent cap means the
/// cap is unbounded.
#[derive(Clone, Copy)]
pub struct Points {
    pub given_points: i64,
    pub max_points_per_allotment: Option<i64>,
}

/// The perk budget: total points that perks may cost, and, optionally, a cap
/// on how many perks may be held. An absent cap means the count is unbounded.
#[derive(Clone, Copy)]
pub struct PerkPoints {
    pub given_points: i64,
    pub max_perks: Option<i64>,
}

/// The three independent budgets a sheet must respect. An absent skill or
/// perk budget leaves that side unconstrained.
#[derive(Clone, Copy)]
pub struct Allotment {
    pub attributes: Points,
    pub skills: Option<Points>,
    pub perks: Option<PerkPoints>,
}

/// The template: read-only configuration for the process lifetime. Attribute
/// names are unique within a template; this is guaranteed by the template
/// author and not re-checked.
#[derive(Clone)]
pub struct CharacterTemplate {
    pub name: String,
    pub version: [u8; 3],
    pub description: String,
    pub base_health: i64,
    pub base_armor_class: i64,
    pub allotments: Allotment,
    pub weapon_proficiencies: Option<WeaponProficiency>,
    pub perks: Option<Vec<Perk>>,
    pub attributes: Vec<Attribute>,
}

/// No two attributes in the list share a name.
pub open spec fn distinct_attr_names(tattrs: Seq<Attribute>) -> bool {
    forall|a: int, b: int|
        #![trigger tattrs[a].name@, tattrs[b].name@]
        0 <= a < b < tattrs.len() ==> tattrs[a].name@ != tattrs[b].name@
}

/// The sheet attribute `sa` is the blank copy of the template attribute `ta`:
/// same name, zero points, and the template's skills copied with zero points.
pub open spec fn base_attr_of(ta: Attribute, sa: character_sheet::Attribute) -> bool {
    &&& sa.name@ == ta.name@
    &&& sa.value == 0
    &&& match (ta.skills, sa.skills) {
        (Option::None, Option::None) => true,
        (Option::Some(ts), Option::Some(ss)) => {
            &&& ss@.len() == ts@.len()
            &&& forall|j: int|
                0 <= j < ts@.len() ==> (#[trigger] ss@[j]).name@ == ts@[j].name@ && ss@[j].value
                    == 0
        },
        _ => false,
    }
}

impl CharacterTemplate {
    /// The perks this template declares: empty when it declares none.
    pub open spec fn declared_perks(&self) -> Seq<Perk> {
        match self.perks {
            None => Seq::empty(),
            Some(p) => p@,
        }
    }

    /// Attribute names are unique within a template.
    pub open spec fn distinct_attribute_names(&self) -> bool {
        distinct_attr_names(self.attributes@)
    }

    /// The template's budgets are well formed: every declared total and cap
    /// is non-negative.
    pub open spec fn wf_budgets(&self) -> bool {
        &&& 0 <= self.allotments.attributes.given_points
        &&& (self.allotments.attributes.max_points_per_allotment matches Some(m) ==> 0 <= m)
        &&& (self.allotments.skills matches Some(p) ==> {
            &&& 0 <= p.given_points
            &&& (p.max_points_per_allotment matches Some(m) ==> 0 <= m)
        })
        &&& (self.allotments.perks matches Some(p) ==> {
            &&& 0 <= p.given_points
            &&& (p.max_perks matches Some(m) ==> 0 <= m)
        })
    }

    /// The sheet `s` is a blank character derived from this template: every
    /// template attribute present with value 0, no perks held (but a perk
    /// list present exactly when the template declares one), no description,
    /// and the template's base health and armor class.
    pub open spec fn is_base_of(&self, s: &CharacterSheet) -> bool {
        &&& s.template.name@ == self.name@
        &&& s.template.version@ == self.version@
        &&& s.description is None
        &&& s.health == self.base_health
        &&& s.armor_class == self.base_armor_class
        &&& s.weapon_proficiencies@.len() == 0
        &&& match (self.perks, s.perks) {
            (Option::None, Option::None) => true,
            (Option::Some(_), Option::Some(p)) => p@.len() == 0,
            _ => false,
        }
        &&& s.attributes@.len() == self.attributes@.len()
        &&& forall|i: int|
            0 <= i < self.attributes@.len() ==> base_attr_of(
                self.attributes@[i],
                #[trigger] s.attributes@[i],
            )
    }

    /// Build the canonical "new character" sheet for this template: a blank
    /// sheet with an empty name, every attribute and skill at zero points,
    /// and no perks held.
    pub fn get_base_character_sheet(&self) -> (r: CharacterSheet)
        ensures
            r.name@ == Seq::<char>::empty(),
            self.is_base_of(&r),
    {
        let mut sheet_attributes: Vec<character_sheet::Attribute> = Vec::new();
        let n = self.attributes.len();
        for i in 0..n
            invariant
                n == self.attributes@.len(),
                sheet_attributes@.len() == i,
                forall|k: int|
                    0 <= k < i ==> base_attr_of(
                        self.attributes@[k],
                        #[trigger] sheet_attributes@[k],
                    ),
        {
            let ta = &self.attributes[i];
            let skills: Option<Vec<character_sheet::Skill>> = match &ta.skills {
                None => None,
                Some(ts) => {
                    let mut sk: Vec<character_sheet::Skill> = Vec::new();
                    let m = ts.len();
                    for j in 0..m
                        invariant
                            m == ts@.len(),
                            sk@.len() == j,
                            forall|k: int|
                                0 <= k < j ==> (#[trigger] sk@[k]).name@ == ts@[k].name@
                                    && sk@[k].value == 0,
                    {
                        sk.push(character_sheet::Skill { name: ts[j].name.clone(), value: 0 });
                    }
                    Some(sk)
                },
            };
            sheet_attributes.push(
                character_sheet::Attribute { name: ta.name.clone(), value: 0, skills },
            );
        }
        CharacterSheet {
            name: String::new(),
            template: character_sheet::Template { name: self.name.clone(), version: self.version },
            description: None,
            health: self.base_health,
            armor_class: self.base_armor_class,
            weapon_proficiencies: Vec::new(),
            perks: match &self.perks {
                None => None,
                Some(_) => Some(Vec::new()),
            },
            attributes: sheet_attributes,
        }
    }
}

} // verus!
