//! The roll resolution engine: a uniform base roll of 1 to 20 plus every
//! modifier that applies to the named attribute or skill.

use vstd::prelude::*;

use rand::Rng;

use crate::abs_part;
use crate::character_sheet;
use crate::character_sheet::CharacterSheet;
use crate::character_template::common::{AttributeModifier, SkillModifier};
use crate::character_template::perk::Perk;
use crate::character_template::CharacterTemplate;

verus! {

/// The ways a roll can fail: the sheet does not know the requested target.
#[derive(Debug, PartialEq)]
pub enum RollError {
    InvalidAttribute(String),
    InvalidSkill(String),
}

/// The mathematical image of a `RollError`: the same variants over character
/// sequences. Contracts speak of this type.
pub enum RollFailure {
    InvalidAttribute(Seq<char>),
    InvalidSkill(Seq<char>),
}

impl View for RollError {
    type V = RollFailure;

    open spec fn view(&self) -> RollFailure {
        match self {
            RollError::InvalidAttribute(name) => RollFailure::InvalidAttribute(name@),
            RollError::InvalidSkill(name) => RollFailure::InvalidSkill(name@),
        }
    }
}

/// What a roll is aimed at: an attribute or a skill, by name.
pub enum RollTarget {
    Attribute(String),
    Skill(String),
}

impl RollTarget {
    /// The name the roll is aimed at, whatever the target's kind.
    pub open spec fn name(&self) -> Seq<char> {
        match self {
            RollTarget::Attribute(name) => name@,
            RollTarget::Skill(name) => name@,
        }
    }

    /// The target's name as an owned string.
    pub fn to_string(&self) -> (r: String)
        ensures
            r@ == self.name(),
    {
        match self {
            RollTarget::Attribute(attr) => attr.clone(),
            RollTarget::Skill(skill) => skill.clone(),
        }
    }

    /// The target's name as a borrowed slice.
    pub fn as_str(&self) -> (r: &str)
        ensures
            r@ == self.name(),
    {
        match self {
            RollTarget::Attribute(attr) => attr.as_str(),
            RollTarget::Skill(skill) => skill.as_str(),
        }
    }
}

/// Sum of the modifiers among `mods`, from position `k` on, aimed at `name`.
pub open spec fn attr_mods_sum_from(mods: Seq<AttributeModifier>, name: Seq<char>, k: int) -> int
    decreases mods.len() - k,
{
    if k < 0 || k >= mods.len() {
        0
    } else {
        (if mods[k].name@ == name {
            mods[k].modifier as int
        } else {
            0
        }) + attr_mods_sum_from(mods, name, k + 1)
    }
}

/// Sum of the absolute modifiers among `mods`, from position `k` on, aimed
/// at `name`: a bound on every partial sum over the list.
pub open spec fn attr_mods_bound_from(mods: Seq<AttributeModifier>, name: Seq<char>, k: int) -> int
    decreases mods.len() - k,
{
    if k < 0 || k >= mods.len() {
        0
    } else {
        (if mods[k].name@ == name {
            abs_part(mods[k].modifier as int)
        } else {
            0
        }) + attr_mods_bound_from(mods, name, k + 1)
    }
}

proof fn lemma_attr_mods_bound_nonneg(mods: Seq<AttributeModifier>, name: Seq<char>, k: int)
    ensures
        0 <= attr_mods_bound_from(mods, name, k),
    decreases mods.len() - k,
{
    if 0 <= k < mods.len() {
        lemma_attr_mods_bound_nonneg(mods, name, k + 1);
    }
}

/// Sum of the modifiers among `mods`, from position `k` on, aimed at `name`.
pub open spec fn skill_mods_sum_from(mods: Seq<SkillModifier>, name: Seq<char>, k: int) -> int
    decreases mods.len() - k,
{
    if k < 0 || k >= mods.len() {
        0
    } else {
        (if mods[k].name@ == name {
            mods[k].modifier as int
        } else {
            0
        }) + skill_mods_sum_from(mods, name, k + 1)
    }
}

/// Sum of the absolute modifiers among `mods`, from position `k` on, aimed
/// at `name`: a bound on every partial sum over the list.
pub open spec fn skill_mods_bound_from(mods: Seq<SkillModifier>, name: Seq<char>, k: int) -> int
    decreases mods.len() - k,
{
    if k < 0 || k >= mods.len() {
        0
    } else {
        (if mods[k].name@ == name {
            abs_part(mods[k].modifier as int)
        } else {
            0
        }) + skill_mods_bound_from(mods, name, k + 1)
    }
}

proof fn lemma_skill_mods_bound_nonneg(mods: Seq<SkillModifier>, name: Seq<char>, k: int)
    ensures
        0 <= skill_mods_bound_from(mods, name, k),
    decreases mods.len() - k,
{
    if 0 <= k < mods.len() {
        lemma_skill_mods_bound_nonneg(mods, name, k + 1);
    }
}

/// Whether the held perk names contain the given name.
pub open spec fn holds_perk(held: Seq<String>, name: Seq<char>) -> bool {
    exists|i: int| 0 <= i < held.len() && held[i]@ == name
}

/// Sum, over the template perks from position `i` on that the sheet holds,
/// of their attribute modifiers aimed at `name`.
pub open spec fn perk_attr_modifier_from(
    tperks: Seq<Perk>,
    held: Seq<String>,
    name: Seq<char>,
    i: int,
) -> int
    decreases tperks.len() - i,
{
    if i < 0 || i >= tperks.len() {
        0
    } else {
        (if holds_perk(held, tperks[i].name@) {
            match tperks[i].attributes {
                Option::Some(mods) => attr_mods_sum_from(mods@, name, 0),
                Option::None => 0,
            }
        } else {
            0
        }) + perk_attr_modifier_from(tperks, held, name, i + 1)
    }
}

/// Bound on the magnitudes of all partial sums the attribute-modifier pass
/// forms.
pub open spec fn perk_attr_bound_from(
    tperks: Seq<Perk>,
    held: Seq<String>,
    name: Seq<char>,
    i: int,
) -> int
    decreases tperks.len() - i,
{
    if i < 0 || i >= tperks.len() {
        0
    } else {
        (if holds_perk(held, tperks[i].name@) {
            match tperks[i].attributes {
                Option::Some(mods) => attr_mods_bound_from(mods@, name, 0),
                Option::None => 0,
            }
        } else {
            0
        }) + perk_attr_bound_from(tperks, held, name, i + 1)
    }
}

proof fn lemma_perk_attr_bound_nonneg(tperks: Seq<Perk>, held: Seq<String>, name: Seq<char>, i: int)
    ensures
        0 <= perk_attr_bound_from(tperks, held, name, i),
    decreases tperks.len() - i,
{
    if 0 <= i < tperks.len() {
        match tperks[i].attributes {
            Option::Some(mods) => {
                lemma_attr_mods_bound_nonneg(mods@, name, 0);
            },
            Option::None => {},
        }
        lemma_perk_attr_bound_nonneg(tperks, held, name, i + 1);
    }
}

/// Sum, over the template perks from position `i` on that the sheet holds,
/// of their skill modifiers aimed at `name`.
pub open spec fn perk_skill_modifier_from(
    tperks: Seq<Perk>,
    held: Seq<String>,
    name: Seq<char>,
    i: int,
) -> int
    decreases tperks.len() - i,
{
    if i < 0 || i >= tperks.len() {
        0
    } else {
        (if holds_perk(held, tperks[i].name@) {
            match tperks[i].skills {
                Option::Some(mods) => skill_mods_sum_from(mods@, name, 0),
                Option::None => 0,
            }
        } else {
            0
        }) + perk_skill_modifier_from(tperks, held, name, i + 1)
    }
}

/// Bound on the magnitudes of all partial sums the skill-modifier pass forms.
pub open spec fn perk_skill_bound_from(
    tperks: Seq<Perk>,
    held: Seq<String>,
    name: Seq<char>,
    i: int,
) -> int
    decreases tperks.len() - i,
{
    if i < 0 || i >= tperks.len() {
        0
    } else {
        (if holds_perk(held, tperks[i].name@) {
            match tperks[i].skills {
                Option::Some(mods) => skill_mods_bound_from(mods@, name, 0),
                Option::None => 0,
            }
        } else {
            0
        }) + perk_skill_bound_from(tperks, held, name, i + 1)
    }
}

proof fn lemma_perk_skill_bound_nonneg(
    tperks: Seq<Perk>,
    held: Seq<String>,
    name: Seq<char>,
    i: int,
)
    ensures
        0 <= perk_skill_bound_from(tperks, held, name, i),
    decreases tperks.len() - i,
{
    if 0 <= i < tperks.len() {
        match tperks[i].skills {
            Option::Some(mods) => {
                lemma_skill_mods_bound_nonneg(mods@, name, 0);
            },
            Option::None => {},
        }
        lemma_perk_skill_bound_nonneg(tperks, held, name, i + 1);
    }
}

/// The perk modifier applied to a roll: the summed modifiers, of the
/// target's kind and aimed at the target's name, of every perk the sheet
/// holds. Zero when the template declares no perks or the sheet records
/// none.
pub open spec fn spec_perk_modifier(
    template: &CharacterTemplate,
    sheet: &CharacterSheet,
    target: &RollTarget,
) -> int {
    if template.perks is None || sheet.perks is None {
        0
    } else {
        match target {
            RollTarget::Attribute(name) => perk_attr_modifier_from(
                template.declared_perks(),
                sheet.held_perks(),
                name@,
                0,
            ),
            RollTarget::Skill(name) => perk_skill_modifier_from(
                template.declared_perks(),
                sheet.held_perks(),
                name@,
                0,
            ),
        }
    }
}

/// Bound on the magnitude of the perk modifier and of every partial sum
/// formed while computing it.
pub open spec fn perk_modifier_bound(
    template: &CharacterTemplate,
    sheet: &CharacterSheet,
    target: &RollTarget,
) -> int {
    if template.perks is None || sheet.perks is None {
        0
    } else {
        match target {
            RollTarget::Attribute(name) => perk_attr_bound_from(
                template.declared_perks(),
                sheet.held_perks(),
                name@,
                0,
            ),
            RollTarget::Skill(name) => perk_skill_bound_from(
                template.declared_perks(),
                sheet.held_perks(),
                name@,
                0,
            ),
        }
    }
}

/// Index of the first sheet attribute with this name.
pub open spec fn find_attr_from(
    sattrs: Seq<character_sheet::Attribute>,
    name: Seq<char>,
    i: int,
) -> Option<int>
    decreases sattrs.len() - i,
{
    if i < 0 || i >= sattrs.len() {
        None
    } else if sattrs[i].name@ == name {
        Some(i)
    } else {
        find_attr_from(sattrs, name, i + 1)
    }
}

/// Whether a skill list contains a skill with this name.
pub open spec fn sheet_skills_have(sskills: Seq<character_sheet::Skill>, name: Seq<char>) -> bool {
    exists|j: int| 0 <= j < sskills.len() && sskills[j].name@ == name
}

/// Index of the first sheet attribute owning a skill with this name.
pub open spec fn find_skill_owner_from(
    sattrs: Seq<character_sheet::Attribute>,
    name: Seq<char>,
    i: int,
) -> Option<int>
    decreases sattrs.len() - i,
{
    if i < 0 || i >= sattrs.len() {
        None
    } else if sattrs[i].skills matches Some(ss) && sheet_skills_have(ss@, name) {
        Some(i)
    } else {
        find_skill_owner_from(sattrs, name, i + 1)
    }
}

/// Value of the first skill with this name, or zero when none carries it.
pub open spec fn skill_value_from(
    sskills: Seq<character_sheet::Skill>,
    name: Seq<char>,
    j: int,
) -> int
    decreases sskills.len() - j,
{
    if j < 0 || j >= sskills.len() {
        0
    } else if sskills[j].name@ == name {
        sskills[j].value as int
    } else {
        skill_value_from(sskills, name, j + 1)
    }
}

/// The total modifier for the roll target, or the failure when the sheet
/// cannot resolve it. An attribute target adds the attribute's value and
/// the perk modifier; a skill target adds the skill's value, its owning
/// attribute's value, and the perk modifier.
pub open spec fn spec_modifier(
    template: &CharacterTemplate,
    sheet: &CharacterSheet,
    target: &RollTarget,
) -> Result<int, RollFailure> {
    match target {
        RollTarget::Attribute(name) => match find_attr_from(sheet.attributes@, name@, 0) {
            Some(i) => Ok(
                sheet.attributes@[i].value + spec_perk_modifier(template, sheet, target),
            ),
            None => Err(RollFailure::InvalidAttribute(name@)),
        },
        RollTarget::Skill(name) => match find_skill_owner_from(sheet.attributes@, name@, 0) {
            Some(i) => match sheet.attributes@[i].skills {
                Option::Some(ss) => Ok(
                    skill_value_from(ss@, name@, 0) + sheet.attributes@[i].value
                        + spec_perk_modifier(template, sheet, target),
                ),
                Option::None => Err(RollFailure::InvalidSkill(name@)),
            },
            None => Err(RollFailure::InvalidSkill(name@)),
        },
    }
}

/// Bound on the magnitude of the total modifier and of every partial sum
/// formed while computing it.
pub open spec fn modifier_bound(
    template: &CharacterTemplate,
    sheet: &CharacterSheet,
    target: &RollTarget,
) -> int {
    perk_modifier_bound(template, sheet, target) + (match target {
        RollTarget::Attribute(name) => match find_attr_from(sheet.attributes@, name@, 0) {
            Some(i) => abs_part(sheet.attributes@[i].value as int),
            None => 0,
        },
        RollTarget::Skill(name) => match find_skill_owner_from(sheet.attributes@, name@, 0) {
            Some(i) => abs_part(sheet.attributes@[i].value as int) + (
            match sheet.attributes@[i].skills {
                Option::Some(ss) => abs_part(skill_value_from(ss@, name@, 0)),
                Option::None => 0,
            }),
            None => 0,
        },
    })
}

/// The machine-size bound roll resolution needs: the modifier sums it forms,
/// and the final value with the base roll added, all fit in a 64-bit signed
/// integer. Every sheet a real machine can hold satisfies this.
pub open spec fn roll_fits(
    template: &CharacterTemplate,
    sheet: &CharacterSheet,
    target: &RollTarget,
) -> bool {
    modifier_bound(template, sheet, target) + 20 <= i64::MAX
}

/// Relies on rand's `thread_rng` and `Rng::gen_range`: a draw from the
/// inclusive range 1..=20 lies within that range. Nothing more is assumed
/// of the draw.
#[verifier::external_body]
fn roll_d20() -> (r: i64)
    ensures
        1 <= r <= 20,
{
    let mut rng = rand::thread_rng();
    rng.gen_range(1..=20)
}

/// The outcome of one resolved roll: `value` is the base `roll` plus
/// `modifier`.
#[derive(Debug)]
pub struct CharacterRollResult {
    pub target: String,
    pub value: i64,
    pub roll: i64,
    pub modifier: i64,
}

/// Resolves one roll of a sheet against its template.
pub struct CharacterRoll<'a> {
    pub template: &'a CharacterTemplate,
    pub sheet: &'a CharacterSheet,
    pub roll_type: RollTarget,
}

/// Whether the held perk names contain the given name.
fn holds_perk_named(held: &Vec<String>, name: &String) -> (r: bool)
    ensures
        r == holds_perk(held@, name@),
{
    let n = held.len();
    for i in 0..n
        invariant
            n == held@.len(),
            forall|k: int| 0 <= k < i ==> (#[trigger] held@[k])@ != name@,
    {
        if held[i] == *name {
            return true;
        }
    }
    false
}

/// Sum the attribute modifiers aimed at `name`.
fn sum_attr_mods(mods: &Vec<AttributeModifier>, name: &String) -> (r: i64)
    requires
        attr_mods_bound_from(mods@, name@, 0) <= i64::MAX,
    ensures
        r as int == attr_mods_sum_from(mods@, name@, 0),
        abs_part(r as int) <= attr_mods_bound_from(mods@, name@, 0),
{
    let mut total: i64 = 0;
    let m = mods.len();
    for k in 0..m
        invariant
            m == mods@.len(),
            attr_mods_sum_from(mods@, name@, 0) == total as int + attr_mods_sum_from(
                mods@,
                name@,
                k as int,
            ),
            abs_part(total as int) + attr_mods_bound_from(mods@, name@, k as int)
                <= attr_mods_bound_from(mods@, name@, 0),
            attr_mods_bound_from(mods@, name@, 0) <= i64::MAX,
    {
        if mods[k].name == *name {
            proof {
                lemma_attr_mods_bound_nonneg(mods@, name@, k as int + 1);
            }
            total = total + mods[k].modifier;
        }
    }
    total
}

/// Sum the skill modifiers aimed at `name`.
fn sum_skill_mods(mods: &Vec<SkillModifier>, name: &String) -> (r: i64)
    requires
        skill_mods_bound_from(mods@, name@, 0) <= i64::MAX,
    ensures
        r as int == skill_mods_sum_from(mods@, name@, 0),
        abs_part(r as int) <= skill_mods_bound_from(mods@, name@, 0),
{
    let mut total: i64 = 0;
    let m = mods.len();
    for k in 0..m
        invariant
            m == mods@.len(),
            skill_mods_sum_from(mods@, name@, 0) == total as int + skill_mods_sum_from(
                mods@,
                name@,
                k as int,
            ),
            abs_part(total as int) + skill_mods_bound_from(mods@, name@, k as int)
                <= skill_mods_bound_from(mods@, name@, 0),
            skill_mods_bound_from(mods@, name@, 0) <= i64::MAX,
    {
        if mods[k].name == *name {
            proof {
                lemma_skill_mods_bound_nonneg(mods@, name@, k as int + 1);
            }
            total = total + mods[k].modifier;
        }
    }
    total
}

/// The first sheet attribute with this name, when one exists.
fn find_sheet_attribute<'s>(
    sattrs: &'s Vec<character_sheet::Attribute>,
    name: &String,
) -> (r: Option<&'s character_sheet::Attribute>)
    ensures
        match r {
            Some(attr) => find_attr_from(sattrs@, name@, 0) matches Some(i) && 0 <= i
                < sattrs@.len() && *attr == sattrs@[i],
            None => find_attr_from(sattrs@, name@, 0) is None,
        },
{
    let n = sattrs.len();
    for i in 0..n
        invariant
            n == sattrs@.len(),
            find_attr_from(sattrs@, name@, 0) == find_attr_from(sattrs@, name@, i as int),
    {
        if sattrs[i].name == *name {
            return Some(&sattrs[i]);
        }
    }
    None
}

/// Whether some skill with this name exists in `sskills`.
fn has_sheet_skill_named(sskills: &Vec<character_sheet::Skill>, name: &String) -> (r: bool)
    ensures
        r == sheet_skills_have(sskills@, name@),
{
    let m = sskills.len();
    for j in 0..m
        invariant
            m == sskills@.len(),
            forall|k: int| 0 <= k < j ==> (#[trigger] sskills@[k]).name@ != name@,
    {
        if sskills[j].name == *name {
            return true;
        }
    }
    false
}

/// The first sheet attribute owning a skill with this name, when one exists.
fn find_skill_owner<'s>(
    sattrs: &'s Vec<character_sheet::Attribute>,
    name: &String,
) -> (r: Option<&'s character_sheet::Attribute>)
    ensures
        match r {
            Some(attr) => {
                &&& find_skill_owner_from(sattrs@, name@, 0) matches Some(i) && 0 <= i
                    < sattrs@.len() && *attr == sattrs@[i]
                &&& attr.skills matches Some(ss) && sheet_skills_have(ss@, name@)
            },
            None => find_skill_owner_from(sattrs@, name@, 0) is None,
        },
{
    let n = sattrs.len();
    for i in 0..n
        invariant
            n == sattrs@.len(),
            find_skill_owner_from(sattrs@, name@, 0) == find_skill_owner_from(
                sattrs@,
                name@,
                i as int,
            ),
    {
        let owns = match &sattrs[i].skills {
            Some(ss) => has_sheet_skill_named(ss, name),
            None => false,
        };
        if owns {
            return Some(&sattrs[i]);
        }
    }
    None
}

/// Value of the first skill with this name, or zero when none carries it.
fn skill_value_of(sskills: &Vec<character_sheet::Skill>, name: &String) -> (r: i64)
    ensures
        r as int == skill_value_from(sskills@, name@, 0),
{
    let m = sskills.len();
    for j in 0..m
        invariant
            m == sskills@.len(),
            skill_value_from(sskills@, name@, 0) == skill_value_from(sskills@, name@, j as int),
    {
        if sskills[j].name == *name {
            return sskills[j].value;
        }
    }
    0
}

impl<'a> CharacterRoll<'a> {
    /// Pair a template and sheet with the target of one roll.
    pub fn new(
        template: &'a CharacterTemplate,
        sheet: &'a CharacterSheet,
        roll_type: RollTarget,
    ) -> (r: Self)
        ensures
            r.template == template,
            r.sheet == sheet,
            r.roll_type == roll_type,
    {
        Self { template, sheet, roll_type }
    }

    /// The summed perk modifier for the roll target.
    pub fn perk_modifier(&self) -> (r: i64)
        requires
            perk_modifier_bound(self.template, self.sheet, &self.roll_type) <= i64::MAX,
        ensures
            r as int == spec_perk_modifier(self.template, self.sheet, &self.roll_type),
            abs_part(r as int) <= perk_modifier_bound(self.template, self.sheet, &self.roll_type),
    {
        let tperks = match &self.template.perks {
            None => {
                return 0;
            },
            Some(t) => t,
        };
        let sperks = match &self.sheet.perks {
            None => {
                return 0;
            },
            Some(s) => s,
        };
        let mut total: i64 = 0;
        let n = tperks.len();
        match &self.roll_type {
            RollTarget::Attribute(name) => {
                for i in 0..n
                    invariant
                        n == tperks@.len(),
                        self.template.perks matches Some(t) && t@ == tperks@,
                        self.sheet.perks matches Some(s) && s@ == sperks@,
                        self.roll_type matches RollTarget::Attribute(nm) && nm@ == name@,
                        perk_attr_modifier_from(tperks@, sperks@, name@, 0) == total as int
                            + perk_attr_modifier_from(tperks@, sperks@, name@, i as int),
                        abs_part(total as int) + perk_attr_bound_from(
                            tperks@,
                            sperks@,
                            name@,
                            i as int,
                        ) <= perk_attr_bound_from(tperks@, sperks@, name@, 0),
                        perk_attr_bound_from(tperks@, sperks@, name@, 0) <= i64::MAX,
                {
                    if holds_perk_named(sperks, &tperks[i].name) {
                        if let Some(mods) = &tperks[i].attributes {
                            proof {
                                lemma_perk_attr_bound_nonneg(tperks@, sperks@, name@, i as int + 1);
                                lemma_attr_mods_bound_nonneg(mods@, name@, 0);
                            }
                            let m = sum_attr_mods(mods, name);
                            total = total + m;
                        }
                    }
                }
                total
            },
            RollTarget::Skill(name) => {
                for i in 0..n
                    invariant
                        n == tperks@.len(),
                        self.template.perks matches Some(t) && t@ == tperks@,
                        self.sheet.perks matches Some(s) && s@ == sperks@,
                        self.roll_type matches RollTarget::Skill(nm) && nm@ == name@,
                        perk_skill_modifier_from(tperks@, sperks@, name@, 0) == total as int
                            + perk_skill_modifier_from(tperks@, sperks@, name@, i as int),
                        abs_part(total as int) + perk_skill_bound_from(
                            tperks@,
                            sperks@,
                            name@,
                            i as int,
                        ) <= perk_skill_bound_from(tperks@, sperks@, name@, 0),
                        perk_skill_bound_from(tperks@, sperks@, name@, 0) <= i64::MAX,
                {
                    if holds_perk_named(sperks, &tperks[i].name) {
                        if let Some(mods) = &tperks[i].skills {
                            proof {
                                lemma_perk_skill_bound_nonneg(
                                    tperks@,
                                    sperks@,
                                    name@,
                                    i as int + 1,
                                );
                                lemma_skill_mods_bound_nonneg(mods@, name@, 0);
                            }
                            let m = sum_skill_mods(mods, name);
                            total = total + m;
                        }
                    }
                }
                total
            },
        }
    }

    /// The modifier for an attribute target: the named sheet attribute's
    /// value plus the perk modifier.
    pub fn get_attribute_modifier(&self) -> (r: Result<i64, RollError>)
        requires
            self.roll_type is Attribute,
            modifier_bound(self.template, self.sheet, &self.roll_type) <= i64::MAX,
        ensures
            match r {
                Ok(m) => spec_modifier(self.template, self.sheet, &self.roll_type) == Ok::<
                    int,
                    RollFailure,
                >(m as int) && abs_part(m as int) <= modifier_bound(
                    self.template,
                    self.sheet,
                    &self.roll_type,
                ),
                Err(e) => spec_modifier(self.template, self.sheet, &self.roll_type) == Err::<
                    int,
                    RollFailure,
                >(e@),
            },
    {
        let name = match &self.roll_type {
            RollTarget::Attribute(name) => name,
            RollTarget::Skill(name) => name,
        };
        match find_sheet_attribute(&self.sheet.attributes, name) {
            Some(attr) => {
                let perk_mod = self.perk_modifier();
                Ok(attr.value + perk_mod)
            },
            None => Err(RollError::InvalidAttribute(name.clone())),
        }
    }

    /// The modifier for a skill target: the named skill's value, plus the
    /// value of the attribute owning it, plus the perk modifier.
    pub fn get_skill_modifier(&self) -> (r: Result<i64, RollError>)
        requires
            self.roll_type is Skill,
            modifier_bound(self.template, self.sheet, &self.roll_type) <= i64::MAX,
        ensures
            match r {
                Ok(m) => spec_modifier(self.template, self.sheet, &self.roll_type) == Ok::<
                    int,
                    RollFailure,
                >(m as int) && abs_part(m as int) <= modifier_bound(
                    self.template,
                    self.sheet,
                    &self.roll_type,
                ),
                Err(e) => spec_modifier(self.template, self.sheet, &self.roll_type) == Err::<
                    int,
                    RollFailure,
                >(e@),
            },
    {
        let name = match &self.roll_type {
            RollTarget::Attribute(name) => name,
            RollTarget::Skill(name) => name,
        };
        let perk_mod = self.perk_modifier();
        match find_skill_owner(&self.sheet.attributes, name) {
            Some(attr) => {
                let skill_value = match &attr.skills {
                    Some(ss) => skill_value_of(ss, name),
                    None => 0,
                };
                Ok(skill_value + attr.value + perk_mod)
            },
            None => Err(RollError::InvalidSkill(name.clone())),
        }
    }

    /// Resolve the roll: a base roll in [1, 20] plus the target's total
    /// modifier. Fails exactly when the sheet cannot resolve the target.
    pub fn roll(&self) -> (r: Result<CharacterRollResult, RollError>)
        requires
            roll_fits(self.template, self.sheet, &self.roll_type),
        ensures
            match r {
                Ok(res) => {
                    &&& spec_modifier(self.template, self.sheet, &self.roll_type) == Ok::<
                        int,
                        RollFailure,
                    >(res.modifier as int)
                    &&& 1 <= res.roll <= 20
                    &&& res.value == res.roll + res.modifier
                    &&& res.target@ == self.roll_type.name()
                },
                Err(e) => spec_modifier(self.template, self.sheet, &self.roll_type) == Err::<
                    int,
                    RollFailure,
                >(e@),
            },
    {
        let base_roll = roll_d20();
        let modifier = match &self.roll_type {
            RollTarget::Attribute(_) => self.get_attribute_modifier(),
            RollTarget::Skill(_) => self.get_skill_modifier(),
        };
        let modifier = match modifier {
            Err(e) => {
                return Err(e);
            },
            Ok(m) => m,
        };
        Ok(
            CharacterRollResult {
                target: self.roll_type.to_string(),
                value: base_roll + modifier,
                roll: base_roll,
                modifier,
            },
        )
    }
}

} // verus!
