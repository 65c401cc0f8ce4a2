use char_validator::character_roll::{CharacterRoll, RollError, RollTarget};
use char_validator::character_sheet::CharacterSheet;
use char_validator::character_template::attributes::{Attribute, Skill};
use char_validator::character_template::common::{AttributeModifier, SkillModifier};
use char_validator::character_template::perk::Perk;
use char_validator::character_template::{Allotment, CharacterTemplate, PerkPoints, Points};

fn template_skill(name: &str) -> Skill {
    Skill {
        name: name.to_string(),
        description: String::new(),
    }
}

fn template_attribute(name: &str, skills: Option<Vec<Skill>>) -> Attribute {
    Attribute {
        name: name.to_string(),
        description: String::new(),
        skills,
        required: None,
    }
}

fn standard_template() -> CharacterTemplate {
    CharacterTemplate {
        name: "Standard".to_string(),
        version: [1, 0, 0],
        description: "The standard ruleset".to_string(),
        base_health: 10,
        base_armor_class: 10,
        allotments: Allotment {
            attributes: Points {
                given_points: 15,
                max_points_per_allotment: Some(8),
            },
            skills: Some(Points {
                given_points: 10,
                max_points_per_allotment: Some(5),
            }),
            perks: Some(PerkPoints {
                given_points: 4,
                max_perks: Some(3),
            }),
        },
        weapon_proficiencies: None,
        perks: Some(vec![
            Perk {
                name: "Force Sensitive".to_string(),
                description: String::new(),
                point_cost: 2,
                attributes: Some(vec![AttributeModifier {
                    name: "Strength".to_string(),
                    modifier: 2,
                }]),
                skills: Some(vec![SkillModifier {
                    name: "Acrobatics".to_string(),
                    modifier: 1,
                }]),
                base_health_modifier: None,
                base_armor_class_modifier: None,
            },
            Perk {
                name: "Small Frame".to_string(),
                description: String::new(),
                point_cost: 1,
                attributes: None,
                skills: None,
                base_health_modifier: None,
                base_armor_class_modifier: None,
            },
        ]),
        attributes: vec![
            template_attribute("Strength", None),
            template_attribute(
                "Dexterity",
                Some(vec![template_skill("Acrobatics"), template_skill("Stealth")]),
            ),
            template_attribute("Constitution", None),
        ],
    }
}

fn sample_sheet(template: &CharacterTemplate) -> CharacterSheet {
    let mut sheet = template.get_base_character_sheet();
    sheet.name = "Sample".to_string();
    sheet.attributes[0].value = 4;
    sheet.attributes[1].value = 3;
    sheet.attributes[1].skills.as_mut().unwrap()[0].value = 2;
    sheet.perks = Some(vec!["Force Sensitive".to_string()]);
    sheet
}

#[test]
fn test_roll_attribute() {
    let template = standard_template();
    let sheet = sample_sheet(&template);

    let character = CharacterRoll::new(&template, &sheet, RollTarget::Attribute("Strength".to_string()));

    let roll = character.roll();
    assert!(roll.is_ok());
}

#[test]
fn test_roll_fake_attribute() {
    let template = standard_template();
    let sheet = sample_sheet(&template);

    let character = CharacterRoll::new(&template, &sheet, RollTarget::Attribute("Fake".to_string()));

    let roll = character.roll();
    assert!(roll.is_err());
    assert!(roll.unwrap_err() == RollError::InvalidAttribute("Fake".to_string()));
}

#[test]
fn test_roll_skill() {
    let template = standard_template();
    let sheet = sample_sheet(&template);

    let character = CharacterRoll::new(&template, &sheet, RollTarget::Skill("Acrobatics".to_string()));

    let roll = character.roll();
    assert!(roll.is_ok());
}

#[test]
fn roll_stays_within_die_and_adds_modifier() {
    let template = standard_template();
    let sheet = sample_sheet(&template);

    for _ in 0..100 {
        let character =
            CharacterRoll::new(&template, &sheet, RollTarget::Attribute("Strength".to_string()));
        let result = character.roll().unwrap();
        assert!(1 <= result.roll && result.roll <= 20);
        assert_eq!(result.value, result.roll + result.modifier);
        assert_eq!(result.target, "Strength");
    }
}

#[test]
fn attribute_modifier_adds_perk_bonus() {
    let template = standard_template();
    let sheet = sample_sheet(&template);

    // Strength 4, plus 2 from the held Force Sensitive perk
    let character =
        CharacterRoll::new(&template, &sheet, RollTarget::Attribute("Strength".to_string()));
    assert_eq!(character.get_attribute_modifier(), Ok(6));
}

#[test]
fn skill_modifier_adds_owner_and_perk_bonus() {
    let template = standard_template();
    let sheet = sample_sheet(&template);

    // Acrobatics 2, plus its owner Dexterity 3, plus 1 from Force Sensitive
    let character =
        CharacterRoll::new(&template, &sheet, RollTarget::Skill("Acrobatics".to_string()));
    assert_eq!(character.get_skill_modifier(), Ok(6));
}

#[test]
fn perk_modifier_is_zero_without_held_perks() {
    let template = standard_template();
    let mut sheet = sample_sheet(&template);
    sheet.perks = None;

    let character =
        CharacterRoll::new(&template, &sheet, RollTarget::Attribute("Strength".to_string()));
    assert_eq!(character.perk_modifier(), 0);
    assert_eq!(character.get_attribute_modifier(), Ok(4));
}

#[test]
fn unheld_perks_contribute_nothing() {
    let template = standard_template();
    let mut sheet = sample_sheet(&template);
    // Small Frame carries no modifiers, and Force Sensitive is no longer held
    sheet.perks = Some(vec!["Small Frame".to_string()]);

    let character =
        CharacterRoll::new(&template, &sheet, RollTarget::Attribute("Strength".to_string()));
    assert_eq!(character.get_attribute_modifier(), Ok(4));
}

#[test]
fn rolling_unknown_skill_fails() {
    let template = standard_template();
    let mut sheet = sample_sheet(&template);
    // no attribute owns a skill named Acrobatics once Dexterity's list is emptied
    sheet.attributes[1].skills = Some(vec![]);

    let character =
        CharacterRoll::new(&template, &sheet, RollTarget::Skill("Acrobatics".to_string()));

    let roll = character.roll();
    assert!(roll.is_err());
    assert_eq!(
        roll.unwrap_err(),
        RollError::InvalidSkill("Acrobatics".to_string())
    );
}

#[test]
fn roll_target_names() {
    let attribute = RollTarget::Attribute("Strength".to_string());
    let skill = RollTarget::Skill("Acrobatics".to_string());

    assert_eq!(attribute.to_string(), "Strength");
    assert_eq!(attribute.as_str(), "Strength");
    assert_eq!(skill.to_string(), "Acrobatics");
    assert_eq!(skill.as_str(), "Acrobatics");
}
