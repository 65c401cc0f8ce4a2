//! The sheet validation engine: checks a character sheet against a template
//! and a sheet-level configuration, reporting the first violated rule.

use vstd::prelude::*;
use vstd::string::StrSliceExecFns;

use crate::character_sheet;
use crate::character_sheet::config::CharacterSheetConfig;
use crate::character_sheet::CharacterSheet;
use crate::character_template::attributes;
use crate::character_template::base_attr_of;
use crate::character_template::perk::Perk;
use crate::character_template::CharacterTemplate;
use crate::character_template::PerkPoints;
use crate::{abs_part, pos_part};

verus! {

/// The closed set of rules a sheet can violate. A failed check reports the
/// first violation encountered, never an aggregate.
#[derive(Debug, PartialEq)]
pub enum CharacterSheetError {
    NameTooShort,
    NameTooLong,
    DescriptionTooLong,
    NameMismatch,
    VersionMismatch,
    PerksNotAllowed,
    PerkNotAllowed(String),
    NotEnoughPerkPoints(i64),
    TooManyPerks { selected_perks: i64, max_perks: i64 },
    AttributeNotAllowed(String),
    TooManyAttributePoints { attribute: String, allotted_points: i64, max_points: i64 },
    NegativeAttributePoints { offending_attribute: String, points: i64 },
    AttributePointsExceeded(i64),
    SkillNotAllowed(String),
    SheetSkillsNotPresentInTemplateAttribute { attribute: String, skills: Vec<String> },
    SkillsMissingInAttribute(String),
    TooManySkillPoints { skill: String, allotted_points: i64, max_points: i64 },
    NegativeSkillPoints { offending_skill: String, points: i64 },
    SkillPointsExceeded(i64),
}

/// The mathematical image of a `CharacterSheetError`: the same variants over
/// character sequences and unbounded integers. Contracts speak of this type.
pub enum SheetViolation {
    NameTooShort,
    NameTooLong,
    DescriptionTooLong,
    NameMismatch,
    VersionMismatch,
    PerksNotAllowed,
    PerkNotAllowed(Seq<char>),
    NotEnoughPerkPoints(int),
    TooManyPerks { selected_perks: int, max_perks: int },
    AttributeNotAllowed(Seq<char>),
    TooManyAttributePoints { attribute: Seq<char>, allotted_points: int, max_points: int },
    NegativeAttributePoints { offending_attribute: Seq<char>, points: int },
    AttributePointsExceeded(int),
    SkillNotAllowed(Seq<char>),
    SheetSkillsNotPresentInTemplateAttribute { attribute: Seq<char>, skills: Seq<Seq<char>> },
    SkillsMissingInAttribute(Seq<char>),
    TooManySkillPoints { skill: Seq<char>, allotted_points: int, max_points: int },
    NegativeSkillPoints { offending_skill: Seq<char>, points: int },
    SkillPointsExceeded(int),
}

impl View for CharacterSheetError {
    type V = SheetViolation;

    open spec fn view(&self) -> SheetViolation {
        match self {
            CharacterSheetError::NameTooShort => SheetViolation::NameTooShort,
            CharacterSheetError::NameTooLong => SheetViolation::NameTooLong,
            CharacterSheetError::DescriptionTooLong => SheetViolation::DescriptionTooLong,
            CharacterSheetError::NameMismatch => SheetViolation::NameMismatch,
            CharacterSheetError::VersionMismatch => SheetViolation::VersionMismatch,
            CharacterSheetError::PerksNotAllowed => SheetViolation::PerksNotAllowed,
            CharacterSheetError::PerkNotAllowed(name) => SheetViolation::PerkNotAllowed(name@),
            CharacterSheetError::NotEnoughPerkPoints(points) => SheetViolation::NotEnoughPerkPoints(*points as int),
            CharacterSheetError::TooManyPerks { selected_perks, max_perks } => (SheetViolation::TooManyPerks {
                selected_perks: *selected_perks as int,
                max_perks: *max_perks as int,
            }),
            CharacterSheetError::AttributeNotAllowed(name) => SheetViolation::AttributeNotAllowed(name@),
            CharacterSheetError::TooManyAttributePoints { attribute, allotted_points, max_points } => (SheetViolation::TooManyAttributePoints {
                attribute: attribute@,
                allotted_points: *allotted_points as int,
                max_points: *max_points as int,
            }),
            CharacterSheetError::NegativeAttributePoints { offending_attribute, points } => (SheetViolation::NegativeAttributePoints {
                offending_attribute: offending_attribute@,
                points: *points as int,
            }),
            CharacterSheetError::AttributePointsExceeded(points) => SheetViolation::AttributePointsExceeded(*points as int),
            CharacterSheetError::SkillNotAllowed(name) => SheetViolation::SkillNotAllowed(name@),
            CharacterSheetError::SheetSkillsNotPresentInTemplateAttribute { attribute, skills } => (SheetViolation::SheetSkillsNotPresentInTemplateAttribute {
                attribute: attribute@,
                skills: skills.deep_view(),
            }),
            CharacterSheetError::SkillsMissingInAttribute(name) => SheetViolation::SkillsMissingInAttribute(name@),
            CharacterSheetError::TooManySkillPoints { skill, allotted_points, max_points } => (SheetViolation::TooManySkillPoints {
                skill: skill@,
                allotted_points: *allotted_points as int,
                max_points: *max_points as int,
            }),
            CharacterSheetError::NegativeSkillPoints { offending_skill, points } => (SheetViolation::NegativeSkillPoints {
                offending_skill: offending_skill@,
                points: *points as int,
            }),
            CharacterSheetError::SkillPointsExceeded(points) => SheetViolation::SkillPointsExceeded(*points as int),
        }
    }
}

/// The violation a check reported: `None` for success.
pub open spec fn violation_of(r: Result<(), CharacterSheetError>) -> Option<SheetViolation> {
    match r {
        Ok(_) => None,
        Err(e) => Some(e@),
    }
}

/// Rule: the sheet's name, counted in characters, lies within the configured
/// bounds.
pub open spec fn name_rule(sheet: &CharacterSheet, config: CharacterSheetConfig) -> Option<SheetViolation> {
    if (sheet.name@.len() as int) < config.name.min_length as int {
        Some(SheetViolation::NameTooShort)
    } else if (sheet.name@.len() as int) > config.name.max_length as int {
        Some(SheetViolation::NameTooLong)
    } else {
        None
    }
}

/// Rule: the sheet's description, when present, does not exceed the
/// configured length, counted in characters.
pub open spec fn description_rule(sheet: &CharacterSheet, config: CharacterSheetConfig) -> Option<SheetViolation> {
    match sheet.description {
        Some(d) => if (d@.len() as int) > config.description.max_length as int {
            Some(SheetViolation::DescriptionTooLong)
        } else {
            None
        },
        None => None,
    }
}

/// Rule: the sheet references the template by its exact name.
pub open spec fn template_name_rule(template: &CharacterTemplate, sheet: &CharacterSheet) -> Option<SheetViolation> {
    if sheet.template.name@ == template.name@ {
        None
    } else {
        Some(SheetViolation::NameMismatch)
    }
}

/// Rule: the sheet references the template's exact three-component version.
pub open spec fn version_rule(template: &CharacterTemplate, sheet: &CharacterSheet) -> Option<SheetViolation> {
    if sheet.template.version@ == template.version@ {
        None
    } else {
        Some(SheetViolation::VersionMismatch)
    }
}

/// Some template perk carries the given name.
pub open spec fn template_has_perk(tperks: Seq<Perk>, name: Seq<char>) -> bool {
    exists|i: int| 0 <= i < tperks.len() && tperks[i].name@ == name
}

/// The first held perk name, from position `i` on, that no template perk
/// declares.
pub open spec fn first_unknown_perk_from(tperks: Seq<Perk>, held: Seq<String>, i: int) -> Option<Seq<char>>
    decreases held.len() - i,
{
    if i < 0 || i >= held.len() {
        None
    } else if !template_has_perk(tperks, held[i]@) {
        Some(held[i]@)
    } else {
        first_unknown_perk_from(tperks, held, i + 1)
    }
}

/// Rule: every perk the sheet holds must be declared by the template. A
/// template without perks allows only an empty (or absent) perk list.
pub open spec fn perk_membership_rule(template: &CharacterTemplate, sheet: &CharacterSheet) -> Option<SheetViolation> {
    match sheet.perks {
        None => None,
        Some(held) => match template.perks {
            None => if held@.len() == 0 {
                None
            } else {
                Some(SheetViolation::PerksNotAllowed)
            },
            Some(tperks) => match first_unknown_perk_from(tperks@, held@, 0) {
                Some(name) => Some(SheetViolation::PerkNotAllowed(name)),
                None => None,
            },
        },
    }
}

/// Some template attribute carries the given name.
pub open spec fn template_has_attribute(tattrs: Seq<attributes::Attribute>, name: Seq<char>) -> bool {
    exists|i: int| 0 <= i < tattrs.len() && tattrs[i].name@ == name
}

/// The first sheet attribute name, from position `i` on, that no template
/// attribute declares.
pub open spec fn first_unknown_attribute_from(
    tattrs: Seq<attributes::Attribute>,
    sattrs: Seq<character_sheet::Attribute>,
    i: int,
) -> Option<Seq<char>>
    decreases sattrs.len() - i,
{
    if i < 0 || i >= sattrs.len() {
        None
    } else if !template_has_attribute(tattrs, sattrs[i].name@) {
        Some(sattrs[i].name@)
    } else {
        first_unknown_attribute_from(tattrs, sattrs, i + 1)
    }
}

/// Rule: every attribute on the sheet must be declared by the template.
pub open spec fn attribute_membership_rule(template: &CharacterTemplate, sheet: &CharacterSheet) -> Option<SheetViolation> {
    match first_unknown_attribute_from(template.attributes@, sheet.attributes@, 0) {
        Some(name) => Some(SheetViolation::AttributeNotAllowed(name)),
        None => None,
    }
}

/// The per-attribute cap: the declared cap, or unbounded when absent.
pub open spec fn attribute_cap(template: &CharacterTemplate) -> int {
    match template.allotments.attributes.max_points_per_allotment {
        Some(m) => m as int,
        None => i64::MAX as int,
    }
}

/// One pass over the sheet's attributes from position `i` with `acc` points
/// already counted: the first per-item violation, or the budget violation
/// once the total is known, or nothing.
pub open spec fn attribute_scan(
    sattrs: Seq<character_sheet::Attribute>,
    cap: int,
    given: int,
    acc: int,
    i: int,
) -> Option<SheetViolation>
    decreases sattrs.len() - i,
{
    if i < 0 || i >= sattrs.len() {
        if acc > given {
            Some(SheetViolation::AttributePointsExceeded(acc))
        } else {
            None
        }
    } else if sattrs[i].value < 0 {
        Some(
            (SheetViolation::NegativeAttributePoints {
                offending_attribute: sattrs[i].name@,
                points: sattrs[i].value as int,
            }),
        )
    } else if sattrs[i].value as int > cap {
        Some(
            (SheetViolation::TooManyAttributePoints {
                attribute: sattrs[i].name@,
                allotted_points: sattrs[i].value as int,
                max_points: cap,
            }),
        )
    } else {
        attribute_scan(sattrs, cap, given, acc + sattrs[i].value, i + 1)
    }
}

/// Rule: every attribute value is non-negative and within the per-attribute
/// cap, and the values sum to at most the attribute budget.
pub open spec fn attribute_allotment_rule(
    template: &CharacterTemplate,
    sheet: &CharacterSheet,
) -> Option<SheetViolation> {
    attribute_scan(
        sheet.attributes@,
        attribute_cap(template),
        template.allotments.attributes.given_points as int,
        0,
        0,
    )
}

/// Sum of the non-negative parts of the attribute values from position `i`
/// on: an upper bound on every partial sum the attribute pass computes.
pub open spec fn attr_points_bound_from(sattrs: Seq<character_sheet::Attribute>, i: int) -> int
    decreases sattrs.len() - i,
{
    if i < 0 || i >= sattrs.len() {
        0
    } else {
        pos_part(sattrs[i].value as int) + attr_points_bound_from(sattrs, i + 1)
    }
}

proof fn lemma_attr_points_bound_nonneg(sattrs: Seq<character_sheet::Attribute>, i: int)
    ensures
        0 <= attr_points_bound_from(sattrs, i),
    decreases sattrs.len() - i,
{
    if 0 <= i < sattrs.len() {
        lemma_attr_points_bound_nonneg(sattrs, i + 1);
    }
}

/// Point cost of the first template perk carrying the given name, or zero
/// when no template perk does.
pub open spec fn perk_cost_from(tperks: Seq<Perk>, name: Seq<char>, i: int) -> int
    decreases tperks.len() - i,
{
    if i < 0 || i >= tperks.len() {
        0
    } else if tperks[i].name@ == name {
        tperks[i].point_cost as int
    } else {
        perk_cost_from(tperks, name, i + 1)
    }
}

/// One pass over the held perks from position `i` with `acc` points already
/// counted: an undeclared perk, or the budget violation once the total cost
/// is known, or nothing.
pub open spec fn perk_cost_scan(
    tperks: Seq<Perk>,
    held: Seq<String>,
    given: int,
    acc: int,
    i: int,
) -> Option<SheetViolation>
    decreases held.len() - i,
{
    if i < 0 || i >= held.len() {
        if acc > given {
            Some(SheetViolation::NotEnoughPerkPoints(acc))
        } else {
            None
        }
    } else if !template_has_perk(tperks, held[i]@) {
        Some(SheetViolation::PerkNotAllowed(held[i]@))
    } else {
        perk_cost_scan(tperks, held, given, acc + perk_cost_from(tperks, held[i]@, 0), i + 1)
    }
}

/// Rule, applied only when the template declares a perk budget: the held
/// perk count respects `max_perks`, and the held perks' total cost respects
/// the budget. A held perk the template does not declare is reported as not
/// allowed rather than assumed present.
pub open spec fn perk_allotment_rule(
    template: &CharacterTemplate,
    sheet: &CharacterSheet,
) -> Option<SheetViolation> {
    match template.allotments.perks {
        None => None,
        Some(pp) => {
            let held = sheet.held_perks();
            match pp.max_perks {
                Some(m) => {
                    if held.len() > m {
                        Some(
                            (SheetViolation::TooManyPerks {
                                selected_perks: held.len() as int,
                                max_perks: m as int,
                            }),
                        )
                    } else {
                        perk_cost_scan(template.declared_perks(), held, pp.given_points as int, 0, 0)
                    }
                },
                None => perk_cost_scan(template.declared_perks(), held, pp.given_points as int, 0, 0),
            }
        },
    }
}

/// Sum of the absolute costs of the held perks from position `i` on: an
/// upper bound on the magnitude of every partial sum the perk pass computes.
pub open spec fn perk_cost_bound_from(tperks: Seq<Perk>, held: Seq<String>, i: int) -> int
    decreases held.len() - i,
{
    if i < 0 || i >= held.len() {
        0
    } else {
        abs_part(perk_cost_from(tperks, held[i]@, 0)) + perk_cost_bound_from(tperks, held, i + 1)
    }
}

proof fn lemma_perk_cost_bound_nonneg(tperks: Seq<Perk>, held: Seq<String>, i: int)
    ensures
        0 <= perk_cost_bound_from(tperks, held, i),
    decreases held.len() - i,
{
    if 0 <= i < held.len() {
        lemma_perk_cost_bound_nonneg(tperks, held, i + 1);
    }
}

/// Index of the first template attribute carrying the given name.
pub open spec fn find_template_attr_from(
    tattrs: Seq<attributes::Attribute>,
    name: Seq<char>,
    i: int,
) -> Option<int>
    decreases tattrs.len() - i,
{
    if i < 0 || i >= tattrs.len() {
        None
    } else if tattrs[i].name@ == name {
        Some(i)
    } else {
        find_template_attr_from(tattrs, name, i + 1)
    }
}

/// Some declared skill of a template attribute carries the given name.
pub open spec fn template_skills_have(tskills: Seq<attributes::Skill>, name: Seq<char>) -> bool {
    exists|j: int| 0 <= j < tskills.len() && tskills[j].name@ == name
}

/// The first sheet skill name, from position `j` on, that the template
/// attribute does not declare.
pub open spec fn first_unknown_skill_from(
    tskills: Seq<attributes::Skill>,
    sskills: Seq<character_sheet::Skill>,
    j: int,
) -> Option<Seq<char>>
    decreases sskills.len() - j,
{
    if j < 0 || j >= sskills.len() {
        None
    } else if !template_skills_have(tskills, sskills[j].name@) {
        Some(sskills[j].name@)
    } else {
        first_unknown_skill_from(tskills, sskills, j + 1)
    }
}

/// The names of a sheet attribute's skills, in order.
pub open spec fn skill_names(sskills: Seq<character_sheet::Skill>) -> Seq<Seq<char>> {
    sskills.map_values(|s: character_sheet::Skill| s.name@)
}

/// The skill-shape rule for one sheet attribute: its skill list must be
/// present exactly when the template attribute declares skills, and every
/// sheet skill must be declared. A sheet attribute the template does not
/// declare is reported as not allowed rather than assumed present.
pub open spec fn skill_shape_at(
    template: &CharacterTemplate,
    sa: character_sheet::Attribute,
) -> Option<SheetViolation> {
    match find_template_attr_from(template.attributes@, sa.name@, 0) {
        None => Some(SheetViolation::AttributeNotAllowed(sa.name@)),
        Some(ti) => match (sa.skills, template.attributes@[ti].skills) {
            (Option::None, Option::None) => None,
            (Option::None, Option::Some(_)) => Some(
                SheetViolation::SkillsMissingInAttribute(sa.name@),
            ),
            (Option::Some(ss), Option::None) => {
                if ss@.len() == 0 {
                    None
                } else {
                    Some(
                        (SheetViolation::SheetSkillsNotPresentInTemplateAttribute {
                            attribute: sa.name@,
                            skills: skill_names(ss@),
                        }),
                    )
                }
            },
            (Option::Some(ss), Option::Some(ts)) => match first_unknown_skill_from(ts@, ss@, 0) {
                Some(name) => Some(SheetViolation::SkillNotAllowed(name)),
                None => None,
            },
        },
    }
}

/// The first skill-shape violation among the sheet's attributes from
/// position `i` on.
pub open spec fn skill_shape_from(
    template: &CharacterTemplate,
    sattrs: Seq<character_sheet::Attribute>,
    i: int,
) -> Option<SheetViolation>
    decreases sattrs.len() - i,
{
    if i < 0 || i >= sattrs.len() {
        None
    } else if skill_shape_at(template, sattrs[i]) is Some {
        skill_shape_at(template, sattrs[i])
    } else {
        skill_shape_from(template, sattrs, i + 1)
    }
}

/// Rule: every sheet attribute's skill list matches the shape the template
/// declares for it, and names only declared skills.
pub open spec fn skill_shape_rule(
    template: &CharacterTemplate,
    sheet: &CharacterSheet,
) -> Option<SheetViolation> {
    skill_shape_from(template, sheet.attributes@, 0)
}

/// The skill budget total: the declared total, or unbounded when the
/// template declares no skill budget (skill totals are then unconstrained).
pub open spec fn skill_budget_given(template: &CharacterTemplate) -> int {
    match template.allotments.skills {
        Some(p) => p.given_points as int,
        None => i64::MAX as int,
    }
}

/// The per-skill cap: the declared cap, or unbounded when absent.
pub open spec fn skill_budget_cap(template: &CharacterTemplate) -> int {
    match template.allotments.skills {
        Some(p) => match p.max_points_per_allotment {
            Some(m) => m as int,
            None => i64::MAX as int,
        },
        None => i64::MAX as int,
    }
}

/// One pass over one attribute's skills from position `j` with `acc` points
/// already counted: the accumulated total, or the first per-item violation.
/// A negative skill value is reported under the owning attribute's name.
pub open spec fn skill_scan(
    attr_name: Seq<char>,
    sskills: Seq<character_sheet::Skill>,
    cap: int,
    acc: int,
    j: int,
) -> Result<int, SheetViolation>
    decreases sskills.len() - j,
{
    if j < 0 || j >= sskills.len() {
        Ok(acc)
    } else if sskills[j].value < 0 {
        Err(
            (SheetViolation::NegativeSkillPoints {
                offending_skill: attr_name,
                points: sskills[j].value as int,
            }),
        )
    } else if sskills[j].value as int > cap {
        Err(
            (SheetViolation::TooManySkillPoints {
                skill: sskills[j].name@,
                allotted_points: sskills[j].value as int,
                max_points: cap,
            }),
        )
    } else {
        skill_scan(attr_name, sskills, cap, acc + sskills[j].value, j + 1)
    }
}

/// One pass over the sheet's attributes from position `i`, accumulating all
/// their skill points: the first per-item violation, or the budget violation
/// once the total is known, or nothing.
pub open spec fn skill_alloc_from(
    sattrs: Seq<character_sheet::Attribute>,
    cap: int,
    given: int,
    acc: int,
    i: int,
) -> Option<SheetViolation>
    decreases sattrs.len() - i,
{
    if i < 0 || i >= sattrs.len() {
        if acc > given {
            Some(SheetViolation::SkillPointsExceeded(acc))
        } else {
            None
        }
    } else {
        match sattrs[i].skills {
            Option::None => skill_alloc_from(sattrs, cap, given, acc, i + 1),
            Option::Some(ss) => match skill_scan(sattrs[i].name@, ss@, cap, acc, 0) {
                Result::Err(v) => Some(v),
                Result::Ok(acc2) => skill_alloc_from(sattrs, cap, given, acc2, i + 1),
            },
        }
    }
}

/// Rule: every skill value is non-negative and within the per-skill cap,
/// and the values of all skills of all attributes sum to at most the skill
/// budget.
pub open spec fn skill_allotment_rule(
    template: &CharacterTemplate,
    sheet: &CharacterSheet,
) -> Option<SheetViolation> {
    skill_alloc_from(
        sheet.attributes@,
        skill_budget_cap(template),
        skill_budget_given(template),
        0,
        0,
    )
}

/// Sum of the non-negative parts of one attribute's skill values from
/// position `j` on.
pub open spec fn skill_points_bound_from(sskills: Seq<character_sheet::Skill>, j: int) -> int
    decreases sskills.len() - j,
{
    if j < 0 || j >= sskills.len() {
        0
    } else {
        pos_part(sskills[j].value as int) + skill_points_bound_from(sskills, j + 1)
    }
}

proof fn lemma_skill_points_bound_nonneg(sskills: Seq<character_sheet::Skill>, j: int)
    ensures
        0 <= skill_points_bound_from(sskills, j),
    decreases sskills.len() - j,
{
    if 0 <= j < sskills.len() {
        lemma_skill_points_bound_nonneg(sskills, j + 1);
    }
}

/// Sum of the non-negative parts of all skill values of all attributes from
/// position `i` on: an upper bound on every partial sum the skill pass
/// computes.
pub open spec fn sheet_skill_bound_from(sattrs: Seq<character_sheet::Attribute>, i: int) -> int
    decreases sattrs.len() - i,
{
    if i < 0 || i >= sattrs.len() {
        0
    } else {
        (match sattrs[i].skills {
            Option::None => 0,
            Option::Some(ss) => skill_points_bound_from(ss@, 0),
        }) + sheet_skill_bound_from(sattrs, i + 1)
    }
}

proof fn lemma_sheet_skill_bound_nonneg(sattrs: Seq<character_sheet::Attribute>, i: int)
    ensures
        0 <= sheet_skill_bound_from(sattrs, i),
    decreases sattrs.len() - i,
{
    if 0 <= i < sattrs.len() {
        match sattrs[i].skills {
            Option::None => {},
            Option::Some(ss) => {
                lemma_skill_points_bound_nonneg(ss@, 0);
            },
        }
        lemma_sheet_skill_bound_nonneg(sattrs, i + 1);
    }
}

/// The machine-size bound validation needs: the point totals the passes
/// accumulate all fit in a 64-bit signed integer. Every sheet a real
/// machine can hold satisfies this.
pub open spec fn sheet_fits(template: &CharacterTemplate, sheet: &CharacterSheet) -> bool {
    &&& sheet.held_perks().len() <= i64::MAX
    &&& perk_cost_bound_from(template.declared_perks(), sheet.held_perks(), 0) <= i64::MAX
    &&& attr_points_bound_from(sheet.attributes@, 0) <= i64::MAX
    &&& sheet_skill_bound_from(sheet.attributes@, 0) <= i64::MAX
}

/// The first rule the sheet violates, in the fixed order of the checks:
/// name length, description length, template name, template version, perk
/// membership, perk allotment, attribute membership, attribute allotment,
/// skill shape, skill allotment.
pub open spec fn first_violation(
    template: &CharacterTemplate,
    sheet: &CharacterSheet,
    config: CharacterSheetConfig,
) -> Option<SheetViolation> {
    if name_rule(sheet, config) is Some {
        name_rule(sheet, config)
    } else if description_rule(sheet, config) is Some {
        description_rule(sheet, config)
    } else if template_name_rule(template, sheet) is Some {
        template_name_rule(template, sheet)
    } else if version_rule(template, sheet) is Some {
        version_rule(template, sheet)
    } else if perk_membership_rule(template, sheet) is Some {
        perk_membership_rule(template, sheet)
    } else if perk_allotment_rule(template, sheet) is Some {
        perk_allotment_rule(template, sheet)
    } else if attribute_membership_rule(template, sheet) is Some {
        attribute_membership_rule(template, sheet)
    } else if attribute_allotment_rule(template, sheet) is Some {
        attribute_allotment_rule(template, sheet)
    } else if skill_shape_rule(template, sheet) is Some {
        skill_shape_rule(template, sheet)
    } else {
        skill_allotment_rule(template, sheet)
    }
}

/// Whether some template perk with this name exists in `perks`.
fn has_perk_named(perks: &Vec<Perk>, name: &String) -> (r: bool)
    ensures
        r == template_has_perk(perks@, name@),
{
    let n = perks.len();
    for i in 0..n
        invariant
            n == perks@.len(),
            forall|k: int| 0 <= k < i ==> (#[trigger] perks@[k]).name@ != name@,
    {
        if perks[i].name == *name {
            return true;
        }
    }
    false
}

/// Whether some template attribute with this name exists in `attrs`.
fn has_attribute_named(attrs: &Vec<attributes::Attribute>, name: &String) -> (r: bool)
    ensures
        r == template_has_attribute(attrs@, name@),
{
    let n = attrs.len();
    for i in 0..n
        invariant
            n == attrs@.len(),
            forall|k: int| 0 <= k < i ==> (#[trigger] attrs@[k]).name@ != name@,
    {
        if attrs[i].name == *name {
            return true;
        }
    }
    false
}

/// Whether some declared skill with this name exists in `skills`.
fn has_template_skill_named(skills: &Vec<attributes::Skill>, name: &String) -> (r: bool)
    ensures
        r == template_skills_have(skills@, name@),
{
    let n = skills.len();
    for j in 0..n
        invariant
            n == skills@.len(),
            forall|k: int| 0 <= k < j ==> (#[trigger] skills@[k]).name@ != name@,
    {
        if skills[j].name == *name {
            return true;
        }
    }
    false
}

/// The point cost of the first template perk with this name, when one exists.
fn find_perk_cost(perks: &Vec<Perk>, name: &String) -> (r: Option<i64>)
    ensures
        match r {
            Some(c) => template_has_perk(perks@, name@) && c as int == perk_cost_from(
                perks@,
                name@,
                0,
            ),
            None => !template_has_perk(perks@, name@),
        },
{
    let n = perks.len();
    for i in 0..n
        invariant
            n == perks@.len(),
            forall|k: int| 0 <= k < i ==> (#[trigger] perks@[k]).name@ != name@,
            perk_cost_from(perks@, name@, 0) == perk_cost_from(perks@, name@, i as int),
    {
        if perks[i].name == *name {
            return Some(perks[i].point_cost);
        }
    }
    None
}

/// The first template attribute with this name, when one exists.
fn find_template_attribute<'t>(attrs: &'t Vec<attributes::Attribute>, name: &String) -> (r: Option<
    &'t attributes::Attribute,
>)
    ensures
        match r {
            Some(ta) => find_template_attr_from(attrs@, name@, 0) matches Some(ti) && 0 <= ti
                < attrs@.len() && *ta == attrs@[ti],
            None => find_template_attr_from(attrs@, name@, 0) is None,
        },
{
    let n = attrs.len();
    for i in 0..n
        invariant
            n == attrs@.len(),
            find_template_attr_from(attrs@, name@, 0) == find_template_attr_from(
                attrs@,
                name@,
                i as int,
            ),
    {
        if attrs[i].name == *name {
            return Some(&attrs[i]);
        }
    }
    None
}

/// Copies of the names of a sheet attribute's skills, in order.
fn clone_skill_names(sskills: &Vec<character_sheet::Skill>) -> (r: Vec<String>)
    ensures
        r.deep_view() == skill_names(sskills@),
{
    let mut names: Vec<String> = Vec::new();
    let m = sskills.len();
    for j in 0..m
        invariant
            m == sskills@.len(),
            names@.len() == j,
            forall|k: int| 0 <= k < j ==> (#[trigger] names@[k])@ == sskills@[k].name@,
    {
        names.push(sskills[j].name.clone());
    }
    proof {
        assert(names.deep_view() =~= skill_names(sskills@));
    }
    names
}

/// Position of the first sheet skill the template attribute does not
/// declare, when one exists.
fn find_unknown_skill(
    tskills: &Vec<attributes::Skill>,
    sskills: &Vec<character_sheet::Skill>,
) -> (r: Option<usize>)
    ensures
        match r {
            Some(j) => 0 <= j < sskills@.len() && first_unknown_skill_from(tskills@, sskills@, 0)
                == Some(sskills@[j as int].name@),
            None => first_unknown_skill_from(tskills@, sskills@, 0) is None,
        },
{
    let m = sskills.len();
    for j in 0..m
        invariant
            m == sskills@.len(),
            first_unknown_skill_from(tskills@, sskills@, 0) == first_unknown_skill_from(
                tskills@,
                sskills@,
                j as int,
            ),
    {
        if !has_template_skill_named(tskills, &sskills[j].name) {
            return Some(j);
        }
    }
    None
}

/// Walk one attribute's skills, adding their values to `total`: the new
/// total, or the first violation among them.
fn scan_attribute_skills(
    attr_name: &String,
    skills: &Vec<character_sheet::Skill>,
    cap: i64,
    total: i64,
) -> (r: Result<i64, CharacterSheetError>)
    requires
        0 <= total,
        total as int + skill_points_bound_from(skills@, 0) <= i64::MAX,
    ensures
        match r {
            Ok(t2) => skill_scan(attr_name@, skills@, cap as int, total as int, 0) == Ok::<
                int,
                SheetViolation,
            >(t2 as int) && total <= t2 && t2 as int <= total + skill_points_bound_from(skills@, 0),
            Err(e) => skill_scan(attr_name@, skills@, cap as int, total as int, 0) == Err::<
                int,
                SheetViolation,
            >(e@),
        },
{
    let mut t: i64 = total;
    let m = skills.len();
    for j in 0..m
        invariant
            m == skills@.len(),
            0 <= total <= t,
            t as int + skill_points_bound_from(skills@, j as int) <= total
                + skill_points_bound_from(skills@, 0),
            total as int + skill_points_bound_from(skills@, 0) <= i64::MAX,
            skill_scan(attr_name@, skills@, cap as int, total as int, 0) == skill_scan(
                attr_name@,
                skills@,
                cap as int,
                t as int,
                j as int,
            ),
    {
        let sk = &skills[j];
        if sk.value < 0 {
            return Err(
                CharacterSheetError::NegativeSkillPoints {
                    offending_skill: attr_name.clone(),
                    points: sk.value,
                },
            );
        }
        if sk.value > cap {
            return Err(
                CharacterSheetError::TooManySkillPoints {
                    skill: sk.name.clone(),
                    allotted_points: sk.value,
                    max_points: cap,
                },
            );
        }
        proof {
            lemma_skill_points_bound_nonneg(skills@, j as int + 1);
        }
        t = t + sk.value;
    }
    Ok(t)
}

/// Compares a character sheet against a template under a sheet-level
/// configuration.
pub struct CharacterSheetValidator<'a> {
    pub template: &'a CharacterTemplate,
    pub sheet: &'a CharacterSheet,
    pub config: CharacterSheetConfig,
}

impl<'a> CharacterSheetValidator<'a> {
    /// Pair a template with the sheet to be checked, under the given
    /// configuration.
    pub fn new(
        template: &'a CharacterTemplate,
        sheet: &'a CharacterSheet,
        config: CharacterSheetConfig,
    ) -> (r: Self)
        ensures
            r.template == template,
            r.sheet == sheet,
            r.config == config,
    {
        Self { template, sheet, config }
    }

    /// Check the sheet's name length against the configured bounds.
    pub fn validate_character_name(&self) -> (r: Result<(), CharacterSheetError>)
        ensures
            violation_of(r) == name_rule(self.sheet, self.config),
    {
        let len = self.sheet.name.as_str().unicode_len();
        if self.config.name.min_length > 0 && len < self.config.name.min_length as usize {
            return Err(CharacterSheetError::NameTooShort);
        }
        if self.config.name.max_length < 0 || len > self.config.name.max_length as usize {
            return Err(CharacterSheetError::NameTooLong);
        }
        Ok(())
    }

    /// Check the sheet's description length, when one is present, against
    /// the configured bound.
    pub fn validate_character_desc(&self) -> (r: Result<(), CharacterSheetError>)
        ensures
            violation_of(r) == description_rule(self.sheet, self.config),
    {
        if let Some(description) = &self.sheet.description {
            let len = description.as_str().unicode_len();
            if self.config.description.max_length < 0 || len > self.config.description.max_length as usize {
                return Err(CharacterSheetError::DescriptionTooLong);
            }
        }
        Ok(())
    }

    /// Check that the sheet names this template.
    fn check_template_name(&self) -> (r: Result<(), CharacterSheetError>)
        ensures
            violation_of(r) == template_name_rule(self.template, self.sheet),
    {
        if self.sheet.template.name == self.template.name {
            return Ok(());
        }
        Err(CharacterSheetError::NameMismatch)
    }

    /// Check that the sheet was built against this template version.
    fn check_version(&self) -> (r: Result<(), CharacterSheetError>)
        ensures
            violation_of(r) == version_rule(self.template, self.sheet),
    {
        let sv = &self.sheet.template.version;
        let tv = &self.template.version;
        if sv[0] == tv[0] && sv[1] == tv[1] && sv[2] == tv[2] {
            proof {
                assert(self.sheet.template.version@ =~= self.template.version@);
            }
            return Ok(());
        }
        Err(CharacterSheetError::VersionMismatch)
    }

    /// Check that every perk the sheet holds is declared by the template.
    fn check_perks(&self) -> (r: Result<(), CharacterSheetError>)
        ensures
            violation_of(r) == perk_membership_rule(self.template, self.sheet),
    {
        let held = match &self.sheet.perks {
            None => {
                return Ok(());
            },
            Some(h) => h,
        };
        match &self.template.perks {
            None => {
                if held.len() == 0 {
                    Ok(())
                } else {
                    Err(CharacterSheetError::PerksNotAllowed)
                }
            },
            Some(tperks) => {
                let n = held.len();
                for i in 0..n
                    invariant
                        n == held@.len(),
                        self.sheet.perks matches Some(h) && h@ == held@,
                        self.template.perks matches Some(t) && t@ == tperks@,
                        first_unknown_perk_from(tperks@, held@, 0) == first_unknown_perk_from(
                            tperks@,
                            held@,
                            i as int,
                        ),
                {
                    if !has_perk_named(tperks, &held[i]) {
                        return Err(CharacterSheetError::PerkNotAllowed(held[i].clone()));
                    }
                }
                Ok(())
            },
        }
    }

    /// Check that every attribute on the sheet is declared by the template.
    fn check_attributes(&self) -> (r: Result<(), CharacterSheetError>)
        ensures
            violation_of(r) == attribute_membership_rule(self.template, self.sheet),
    {
        let n = self.sheet.attributes.len();
        for i in 0..n
            invariant
                n == self.sheet.attributes@.len(),
                first_unknown_attribute_from(
                    self.template.attributes@,
                    self.sheet.attributes@,
                    0,
                ) == first_unknown_attribute_from(
                    self.template.attributes@,
                    self.sheet.attributes@,
                    i as int,
                ),
        {
            if !has_attribute_named(&self.template.attributes, &self.sheet.attributes[i].name) {
                return Err(
                    CharacterSheetError::AttributeNotAllowed(self.sheet.attributes[i].name.clone()),
                );
            }
        }
        Ok(())
    }

    /// Check the held perks' count and total cost against the template's
    /// perk budget, when one is declared.
    fn check_perk_allotment(&self) -> (r: Result<(), CharacterSheetError>)
        requires
            self.sheet.held_perks().len() <= i64::MAX,
            perk_cost_bound_from(self.template.declared_perks(), self.sheet.held_perks(), 0)
                <= i64::MAX,
        ensures
            violation_of(r) == perk_allotment_rule(self.template, self.sheet),
    {
        let pp = match self.template.allotments.perks {
            None => {
                return Ok(());
            },
            Some(pp) => pp,
        };
        let held_count: i64 = match &self.sheet.perks {
            None => 0,
            Some(h) => h.len() as i64,
        };
        if let Some(m) = pp.max_perks {
            if held_count > m {
                return Err(
                    CharacterSheetError::TooManyPerks { selected_perks: held_count, max_perks: m },
                );
            }
        }
        let mut total: i64 = 0;
        if let Some(held) = &self.sheet.perks {
            let ghost tperks = self.template.declared_perks();
            let n = held.len();
            for i in 0..n
                invariant
                    n == held@.len(),
                    self.sheet.perks matches Some(h) && h@ == held@,
                    self.template.allotments.perks matches Some(p) && p == pp,
                    pp.max_perks matches Some(mm) ==> held@.len() <= mm,
                    tperks == self.template.declared_perks(),
                    abs_part(total as int) + perk_cost_bound_from(tperks, held@, i as int)
                        <= perk_cost_bound_from(tperks, held@, 0),
                    perk_cost_bound_from(tperks, held@, 0) <= i64::MAX,
                    perk_cost_scan(tperks, held@, pp.given_points as int, 0, 0) == perk_cost_scan(
                        tperks,
                        held@,
                        pp.given_points as int,
                        total as int,
                        i as int,
                    ),
            {
                let cost = match &self.template.perks {
                    None => None,
                    Some(tp) => find_perk_cost(tp, &held[i]),
                };
                match cost {
                    None => {
                        return Err(CharacterSheetError::PerkNotAllowed(held[i].clone()));
                    },
                    Some(c) => {
                        proof {
                            lemma_perk_cost_bound_nonneg(tperks, held@, i as int + 1);
                        }
                        total = total + c;
                    },
                }
            }
        }
        if total > pp.given_points {
            return Err(CharacterSheetError::NotEnoughPerkPoints(total));
        }
        Ok(())
    }

    /// Check every attribute value and the attribute total against the
    /// template's attribute budget.
    fn check_attribute_allotment(&self) -> (r: Result<(), CharacterSheetError>)
        requires
            attr_points_bound_from(self.sheet.attributes@, 0) <= i64::MAX,
        ensures
            violation_of(r) == attribute_allotment_rule(self.template, self.sheet),
    {
        let cap: i64 = match self.template.allotments.attributes.max_points_per_allotment {
            Some(m) => m,
            None => i64::MAX,
        };
        let given: i64 = self.template.allotments.attributes.given_points;
        let mut total: i64 = 0;
        let n = self.sheet.attributes.len();
        for i in 0..n
            invariant
                n == self.sheet.attributes@.len(),
                0 <= total,
                cap as int == attribute_cap(self.template),
                given == self.template.allotments.attributes.given_points,
                total as int + attr_points_bound_from(self.sheet.attributes@, i as int)
                    <= attr_points_bound_from(self.sheet.attributes@, 0),
                attr_points_bound_from(self.sheet.attributes@, 0) <= i64::MAX,
                attribute_scan(
                    self.sheet.attributes@,
                    cap as int,
                    given as int,
                    total as int,
                    i as int,
                ) == attribute_allotment_rule(self.template, self.sheet),
        {
            let attr = &self.sheet.attributes[i];
            if attr.value < 0 {
                return Err(
                    CharacterSheetError::NegativeAttributePoints {
                        offending_attribute: attr.name.clone(),
                        points: attr.value,
                    },
                );
            }
            if attr.value > cap {
                return Err(
                    CharacterSheetError::TooManyAttributePoints {
                        attribute: attr.name.clone(),
                        allotted_points: attr.value,
                        max_points: cap,
                    },
                );
            }
            proof {
                lemma_attr_points_bound_nonneg(self.sheet.attributes@, i as int + 1);
            }
            total = total + attr.value;
        }
        if total > given {
            return Err(CharacterSheetError::AttributePointsExceeded(total));
        }
        Ok(())
    }

    /// Check that every sheet attribute's skill list matches the shape the
    /// template declares for it and names only declared skills.
    fn check_skills(&self) -> (r: Result<(), CharacterSheetError>)
        ensures
            violation_of(r) == skill_shape_rule(self.template, self.sheet),
    {
        let n = self.sheet.attributes.len();
        for i in 0..n
            invariant
                n == self.sheet.attributes@.len(),
                skill_shape_from(self.template, self.sheet.attributes@, 0) == skill_shape_from(
                    self.template,
                    self.sheet.attributes@,
                    i as int,
                ),
        {
            let attribute = &self.sheet.attributes[i];
            let ta = match find_template_attribute(&self.template.attributes, &attribute.name) {
                None => {
                    return Err(CharacterSheetError::AttributeNotAllowed(attribute.name.clone()));
                },
                Some(ta) => ta,
            };
            match (&attribute.skills, &ta.skills) {
                (None, None) => {},
                (None, Some(_)) => {
                    return Err(
                        CharacterSheetError::SkillsMissingInAttribute(attribute.name.clone()),
                    );
                },
                (Some(ss), None) => {
                    if ss.len() > 0 {
                        return Err(
                            CharacterSheetError::SheetSkillsNotPresentInTemplateAttribute {
                                attribute: attribute.name.clone(),
                                skills: clone_skill_names(ss),
                            },
                        );
                    }
                },
                (Some(ss), Some(ts)) => {
                    if let Some(j) = find_unknown_skill(ts, ss) {
                        return Err(CharacterSheetError::SkillNotAllowed(ss[j].name.clone()));
                    }
                },
            }
        }
        Ok(())
    }

    /// Check every skill value and the total of all skill points against the
    /// template's skill budget; an absent skill budget constrains nothing
    /// beyond non-negativity.
    fn check_skill_allotment(&self) -> (r: Result<(), CharacterSheetError>)
        requires
            sheet_skill_bound_from(self.sheet.attributes@, 0) <= i64::MAX,
        ensures
            violation_of(r) == skill_allotment_rule(self.template, self.sheet),
    {
        let given: i64 = match &self.template.allotments.skills {
            Some(p) => p.given_points,
            None => i64::MAX,
        };
        let cap: i64 = match &self.template.allotments.skills {
            Some(p) => match p.max_points_per_allotment {
                Some(m) => m,
                None => i64::MAX,
            },
            None => i64::MAX,
        };
        let mut total: i64 = 0;
        let n = self.sheet.attributes.len();
        for i in 0..n
            invariant
                n == self.sheet.attributes@.len(),
                0 <= total,
                given as int == skill_budget_given(self.template),
                cap as int == skill_budget_cap(self.template),
                total as int + sheet_skill_bound_from(self.sheet.attributes@, i as int)
                    <= sheet_skill_bound_from(self.sheet.attributes@, 0),
                sheet_skill_bound_from(self.sheet.attributes@, 0) <= i64::MAX,
                skill_alloc_from(
                    self.sheet.attributes@,
                    cap as int,
                    given as int,
                    total as int,
                    i as int,
                ) == skill_allotment_rule(self.template, self.sheet),
        {
            let attribute = &self.sheet.attributes[i];
            if let Some(ss) = &attribute.skills {
                proof {
                    lemma_sheet_skill_bound_nonneg(self.sheet.attributes@, i as int + 1);
                }
                match scan_attribute_skills(&attribute.name, ss, cap, total) {
                    Err(e) => {
                        return Err(e);
                    },
                    Ok(t2) => {
                        total = t2;
                    },
                }
            }
        }
        if total > given {
            return Err(CharacterSheetError::SkillPointsExceeded(total));
        }
        Ok(())
    }

    /// Check the sheet against the template and configuration: every rule in
    /// its fixed order, stopping at the first violation.
    pub fn check(&self) -> (r: Result<(), CharacterSheetError>)
        requires
            sheet_fits(self.template, self.sheet),
        ensures
            violation_of(r) == first_violation(self.template, self.sheet, self.config),
    {
        let r = self.validate_character_name();
        if r.is_err() {
            return r;
        }
        let r = self.validate_character_desc();
        if r.is_err() {
            return r;
        }
        let r = self.check_template_name();
        if r.is_err() {
            return r;
        }
        let r = self.check_version();
        if r.is_err() {
            return r;
        }
        let r = self.check_perks();
        if r.is_err() {
            return r;
        }
        let r = self.check_perk_allotment();
        if r.is_err() {
            return r;
        }
        let r = self.check_attributes();
        if r.is_err() {
            return r;
        }
        let r = self.check_attribute_allotment();
        if r.is_err() {
            return r;
        }
        let r = self.check_skills();
        if r.is_err() {
            return r;
        }
        self.check_skill_allotment()
    }
}

/// Sum of the sheet's attribute values from position `i` on.
pub open spec fn attr_points_from(sattrs: Seq<character_sheet::Attribute>, i: int) -> int
    decreases sattrs.len() - i,
{
    if i < 0 || i >= sattrs.len() {
        0
    } else {
        sattrs[i].value + attr_points_from(sattrs, i + 1)
    }
}

proof fn lemma_attribute_scan_accepts(
    sattrs: Seq<character_sheet::Attribute>,
    cap: int,
    given: int,
    acc: int,
    i: int,
)
    requires
        forall|k: int| i <= k < sattrs.len() ==> 0 <= (#[trigger] sattrs[k]).value,
        forall|k: int| i <= k < sattrs.len() ==> (#[trigger] sattrs[k]).value as int <= cap,
        acc + attr_points_from(sattrs, i) <= given,
    ensures
        attribute_scan(sattrs, cap, given, acc, i) is None,
    decreases sattrs.len() - i,
{
    if 0 <= i < sattrs.len() {
        lemma_attribute_scan_accepts(sattrs, cap, given, acc + sattrs[i].value, i + 1);
    }
}

/// Law: a sheet whose attribute values are all non-negative, all within the
/// per-attribute cap, and summing to at most the attribute budget passes the
/// attribute-allotment rule.
pub proof fn lemma_attribute_allotment_accepts(template: &CharacterTemplate, sheet: &CharacterSheet)
    requires
        forall|i: int|
            0 <= i < sheet.attributes@.len() ==> 0 <= (#[trigger] sheet.attributes@[i]).value,
        forall|i: int|
            0 <= i < sheet.attributes@.len() ==> (#[trigger] sheet.attributes@[i]).value as int
                <= attribute_cap(template),
        attr_points_from(sheet.attributes@, 0) <= template.allotments.attributes.given_points,
    ensures
        attribute_allotment_rule(template, sheet) is None,
{
    lemma_attribute_scan_accepts(
        sheet.attributes@,
        attribute_cap(template),
        template.allotments.attributes.given_points as int,
        0,
        0,
    );
}

proof fn lemma_attribute_scan_negative(
    sattrs: Seq<character_sheet::Attribute>,
    cap: int,
    given: int,
    acc: int,
    i: int,
    j: int,
)
    requires
        0 <= i <= j < sattrs.len(),
        sattrs[j].value < 0,
        forall|k: int| i <= k < j ==> 0 <= (#[trigger] sattrs[k]).value,
        forall|k: int| i <= k < j ==> (#[trigger] sattrs[k]).value as int <= cap,
    ensures
        attribute_scan(sattrs, cap, given, acc, i) == Some(
            (SheetViolation::NegativeAttributePoints {
                offending_attribute: sattrs[j].name@,
                points: sattrs[j].value as int,
            }),
        ),
    decreases j - i,
{
    if i < j {
        lemma_attribute_scan_negative(sattrs, cap, given, acc + sattrs[i].value, i + 1, j);
    }
}

/// Law: a negative attribute value is reported as negative attribute points,
/// naming the offending attribute and its value, whatever the attributes
/// after it hold and whatever the totals are, provided the attributes before
/// it pass their per-item checks.
pub proof fn lemma_negative_attribute_reported(
    template: &CharacterTemplate,
    sheet: &CharacterSheet,
    i: int,
)
    requires
        0 <= i < sheet.attributes@.len(),
        sheet.attributes@[i].value < 0,
        forall|k: int| 0 <= k < i ==> 0 <= (#[trigger] sheet.attributes@[k]).value,
        forall|k: int|
            0 <= k < i ==> (#[trigger] sheet.attributes@[k]).value as int <= attribute_cap(
                template,
            ),
    ensures
        attribute_allotment_rule(template, sheet) == Some(
            (SheetViolation::NegativeAttributePoints {
                offending_attribute: sheet.attributes@[i].name@,
                points: sheet.attributes@[i].value as int,
            }),
        ),
{
    lemma_attribute_scan_negative(
        sheet.attributes@,
        attribute_cap(template),
        template.allotments.attributes.given_points as int,
        0,
        0,
        i,
    );
}

/// Law: when the sheet holds more perks than the template's declared cap,
/// the count violation is reported — before the point budget is considered,
/// also when the point budget too would fail.
pub proof fn lemma_too_many_perks_first(
    template: &CharacterTemplate,
    sheet: &CharacterSheet,
    budget: PerkPoints,
    max: i64,
)
    requires
        template.allotments.perks == Some(budget),
        budget.max_perks == Some(max),
        sheet.held_perks().len() > max,
        perk_cost_scan(
            template.declared_perks(),
            sheet.held_perks(),
            budget.given_points as int,
            0,
            0,
        ) is Some,
    ensures
        perk_allotment_rule(template, sheet) == Some(
            (SheetViolation::TooManyPerks {
                selected_perks: sheet.held_perks().len() as int,
                max_perks: max as int,
            }),
        ),
{
}

proof fn lemma_base_attrs_member(
    tattrs: Seq<attributes::Attribute>,
    sattrs: Seq<character_sheet::Attribute>,
    i: int,
)
    requires
        sattrs.len() == tattrs.len(),
        forall|k: int| 0 <= k < tattrs.len() ==> base_attr_of(tattrs[k], #[trigger] sattrs[k]),
        0 <= i,
    ensures
        first_unknown_attribute_from(tattrs, sattrs, i) is None,
    decreases sattrs.len() - i,
{
    if i < sattrs.len() {
        assert(base_attr_of(tattrs[i], sattrs[i]));
        assert(template_has_attribute(tattrs, sattrs[i].name@));
        lemma_base_attrs_member(tattrs, sattrs, i + 1);
    }
}

proof fn lemma_base_attr_points_zero(
    tattrs: Seq<attributes::Attribute>,
    sattrs: Seq<character_sheet::Attribute>,
    i: int,
)
    requires
        sattrs.len() == tattrs.len(),
        forall|k: int| 0 <= k < tattrs.len() ==> base_attr_of(tattrs[k], #[trigger] sattrs[k]),
        0 <= i,
    ensures
        attr_points_from(sattrs, i) == 0,
    decreases sattrs.len() - i,
{
    if i < sattrs.len() {
        assert(base_attr_of(tattrs[i], sattrs[i]));
        lemma_base_attr_points_zero(tattrs, sattrs, i + 1);
    }
}

proof fn lemma_find_distinct_attr(tattrs: Seq<attributes::Attribute>, j: int, i: int)
    requires
        0 <= j <= i < tattrs.len(),
        crate::character_template::distinct_attr_names(tattrs),
    ensures
        find_template_attr_from(tattrs, tattrs[i].name@, j) == Some(i),
    decreases i - j,
{
    if j < i {
        assert(tattrs[j].name@ != tattrs[i].name@);
        lemma_find_distinct_attr(tattrs, j + 1, i);
    }
}

proof fn lemma_base_skills_member(
    ts: Seq<attributes::Skill>,
    ss: Seq<character_sheet::Skill>,
    j: int,
)
    requires
        ss.len() == ts.len(),
        forall|k: int| 0 <= k < ts.len() ==> (#[trigger] ss[k]).name@ == ts[k].name@,
        0 <= j,
    ensures
        first_unknown_skill_from(ts, ss, j) is None,
    decreases ss.len() - j,
{
    if j < ss.len() {
        assert(template_skills_have(ts, ss[j].name@));
        lemma_base_skills_member(ts, ss, j + 1);
    }
}

proof fn lemma_base_shape_from(
    template: &CharacterTemplate,
    sattrs: Seq<character_sheet::Attribute>,
    i: int,
)
    requires
        template.distinct_attribute_names(),
        sattrs.len() == template.attributes@.len(),
        forall|k: int|
            0 <= k < sattrs.len() ==> base_attr_of(template.attributes@[k], #[trigger] sattrs[k]),
        0 <= i,
    ensures
        skill_shape_from(template, sattrs, i) is None,
    decreases sattrs.len() - i,
{
    if i < sattrs.len() {
        assert(base_attr_of(template.attributes@[i], sattrs[i]));
        lemma_find_distinct_attr(template.attributes@, 0, i);
        match (sattrs[i].skills, template.attributes@[i].skills) {
            (Option::Some(ss), Option::Some(ts)) => {
                lemma_base_skills_member(ts@, ss@, 0);
            },
            _ => {},
        }
        assert(skill_shape_at(template, sattrs[i]) is None);
        lemma_base_shape_from(template, sattrs, i + 1);
    }
}

proof fn lemma_zero_skill_scan(
    attr_name: Seq<char>,
    sskills: Seq<character_sheet::Skill>,
    cap: int,
    acc: int,
    j: int,
)
    requires
        0 <= cap,
        forall|k: int| 0 <= k < sskills.len() ==> (#[trigger] sskills[k]).value == 0,
        0 <= j,
    ensures
        skill_scan(attr_name, sskills, cap, acc, j) == Ok::<int, SheetViolation>(acc),
    decreases sskills.len() - j,
{
    if j < sskills.len() {
        lemma_zero_skill_scan(attr_name, sskills, cap, acc, j + 1);
    }
}

proof fn lemma_base_skill_alloc(
    tattrs: Seq<attributes::Attribute>,
    sattrs: Seq<character_sheet::Attribute>,
    cap: int,
    given: int,
    acc: int,
    i: int,
)
    requires
        sattrs.len() == tattrs.len(),
        forall|k: int| 0 <= k < tattrs.len() ==> base_attr_of(tattrs[k], #[trigger] sattrs[k]),
        0 <= cap,
        acc <= given,
        0 <= i,
    ensures
        skill_alloc_from(sattrs, cap, given, acc, i) is None,
    decreases sattrs.len() - i,
{
    if i < sattrs.len() {
        assert(base_attr_of(tattrs[i], sattrs[i]));
        match sattrs[i].skills {
            Option::None => {},
            Option::Some(ss) => {
                assert(forall|k: int|
                    0 <= k < ss@.len() ==> (#[trigger] ss@[k]).value == 0);
                lemma_zero_skill_scan(sattrs[i].name@, ss@, cap, acc, 0);
            },
        }
        lemma_base_skill_alloc(tattrs, sattrs, cap, given, acc, i + 1);
    }
}

/// Law: a blank sheet derived from a template — its name then set to any
/// length the configuration allows — always validates against that template.
/// Holds for every template with well-formed budgets and unique attribute
/// names.
pub proof fn lemma_base_sheet_checks(
    template: &CharacterTemplate,
    sheet: &CharacterSheet,
    config: CharacterSheetConfig,
)
    requires
        template.wf_budgets(),
        template.distinct_attribute_names(),
        template.is_base_of(sheet),
        config.name.min_length as int <= sheet.name@.len(),
        sheet.name@.len() as int <= config.name.max_length as int,
    ensures
        first_violation(template, sheet, config) is None,
{
    assert(name_rule(sheet, config) is None);
    assert(description_rule(sheet, config) is None);
    assert(template_name_rule(template, sheet) is None);
    assert(version_rule(template, sheet) is None);
    assert(perk_membership_rule(template, sheet) is None);
    assert(perk_allotment_rule(template, sheet) is None);
    lemma_base_attrs_member(template.attributes@, sheet.attributes@, 0);
    assert(attribute_membership_rule(template, sheet) is None);
    lemma_base_attr_points_zero(template.attributes@, sheet.attributes@, 0);
    assert(attribute_cap(template) >= 0);
    lemma_attribute_scan_accepts(
        sheet.attributes@,
        attribute_cap(template),
        template.allotments.attributes.given_points as int,
        0,
        0,
    );
    assert(attribute_allotment_rule(template, sheet) is None);
    lemma_base_shape_from(template, sheet.attributes@, 0);
    assert(skill_shape_rule(template, sheet) is None);
    assert(skill_budget_cap(template) >= 0);
    assert(skill_budget_given(template) >= 0);
    lemma_base_skill_alloc(
        template.attributes@,
        sheet.attributes@,
        skill_budget_cap(template),
        skill_budget_given(template),
        0,
        0,
    );
    assert(skill_allotment_rule(template, sheet) is None);
}

} // verus!
