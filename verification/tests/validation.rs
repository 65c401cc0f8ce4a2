use char_validator::character_sheet::config::{
    CharacterDescriptionConfig, CharacterNameConfig, CharacterSheetConfig,
};
use char_validator::character_sheet::{
    Attribute as SheetAttribute, CharacterSheet, Skill as SheetSkill,
};
use char_validator::character_sheet_validator::{CharacterSheetError, CharacterSheetValidator};
use char_validator::character_template::attributes::{Attribute, Skill};
use char_validator::character_template::common::{AttributeModifier, SkillModifier};
use char_validator::character_template::perk::Perk;
use char_validator::character_template::{Allotment, CharacterTemplate, PerkPoints, Points};

fn sheet_config() -> CharacterSheetConfig {
    CharacterSheetConfig {
        name: CharacterNameConfig {
            min_length: 3,
            max_length: 20,
        },
        description: CharacterDescriptionConfig { max_length: 100 },
    }
}

fn template_skill(name: &str) -> Skill {
    Skill {
        name: name.to_string(),
        description: String::new(),
    }
}

fn template_attribute(name: &str, skills: Option<Vec<Skill>>) -> Attribute {
    Attribute {
        name: name.to_string(),
        description: String::new(),
        skills,
        required: None,
    }
}

fn template_perk(
    name: &str,
    cost: i64,
    attributes: Option<Vec<AttributeModifier>>,
    skills: Option<Vec<SkillModifier>>,
) -> Perk {
    Perk {
        name: name.to_string(),
        description: String::new(),
        point_cost: cost,
        attributes,
        skills,
        base_health_modifier: None,
        base_armor_class_modifier: None,
    }
}

fn standard_template() -> CharacterTemplate {
    CharacterTemplate {
        name: "Standard".to_string(),
        version: [1, 0, 0],
        description: "The standard ruleset".to_string(),
        base_health: 10,
        base_armor_class: 10,
        allotments: Allotment {
            attributes: Points {
                given_points: 15,
                max_points_per_allotment: Some(8),
            },
            skills: Some(Points {
                given_points: 10,
                max_points_per_allotment: Some(5),
            }),
            perks: Some(PerkPoints {
                given_points: 4,
                max_perks: Some(3),
            }),
        },
        weapon_proficiencies: None,
        perks: Some(vec![
            template_perk(
                "Force Sensitive",
                2,
                Some(vec![AttributeModifier {
                    name: "Strength".to_string(),
                    modifier: 2,
                }]),
                Some(vec![SkillModifier {
                    name: "Acrobatics".to_string(),
                    modifier: 1,
                }]),
            ),
            template_perk("Small Frame", 1, None, None),
            template_perk("Charismatic", 2, None, None),
        ]),
        attributes: vec![
            template_attribute("Strength", None),
            template_attribute(
                "Dexterity",
                Some(vec![template_skill("Acrobatics"), template_skill("Stealth")]),
            ),
            template_attribute("Constitution", None),
            template_attribute("Intelligence", Some(vec![template_skill("Lore")])),
            template_attribute("Wisdom", Some(vec![template_skill("Perception")])),
            template_attribute("Charisma", Some(vec![template_skill("Persuasion")])),
        ],
    }
}

fn get_unfailable_sheet(template: &CharacterTemplate) -> CharacterSheet {
    let mut sheet = template.get_base_character_sheet();
    let config = sheet_config();
    sheet.name = (0..config.name.min_length).map(|_| 'a').collect();
    sheet
}

fn get_template_and_sheet() -> (CharacterTemplate, CharacterSheet) {
    let template = standard_template();
    let sheet = get_unfailable_sheet(&template);
    (template, sheet)
}

fn check(template: &CharacterTemplate, sheet: &CharacterSheet) -> Result<(), CharacterSheetError> {
    CharacterSheetValidator::new(template, sheet, sheet_config()).check()
}

#[test]
fn unfailable_sheet_test() {
    let (template, sheet) = get_template_and_sheet();

    let response = check(&template, &sheet);

    assert!(response.is_ok());
}

#[test]
fn short_name_test() {
    let (template, mut sheet) = get_template_and_sheet();
    sheet.name = "".to_string();

    let response = check(&template, &sheet);

    assert!(response.is_err());
    assert_eq!(response.unwrap_err(), CharacterSheetError::NameTooShort);
}

#[test]
fn long_name_test() {
    let (template, mut sheet) = get_template_and_sheet();

    let config = sheet_config();
    sheet.name = (0..config.name.max_length + 1).map(|_| 'a').collect();

    let response = check(&template, &sheet);

    assert!(response.is_err());
    assert_eq!(response.unwrap_err(), CharacterSheetError::NameTooLong);
}

#[test]
fn template_name_test() {
    let (template, mut sheet) = get_template_and_sheet();
    sheet.template.name = "Not the same name".to_string();

    let response = check(&template, &sheet);

    assert!(response.is_err());
    assert_eq!(response.unwrap_err(), CharacterSheetError::NameMismatch);
}

#[test]
fn template_version_test() {
    let (template, mut sheet) = get_template_and_sheet();
    sheet.template.version = [0, 0, 0];

    let response = check(&template, &sheet);

    assert!(response.is_err());
    assert_eq!(response.unwrap_err(), CharacterSheetError::VersionMismatch);
}

#[test]
fn perks_not_allowed_test() {
    let (template, mut sheet) = get_template_and_sheet();

    sheet.perks = Some(vec!["Perk".to_string()]);

    let response = check(&template, &sheet);

    assert!(response.is_err());
    assert_eq!(
        response.unwrap_err(),
        CharacterSheetError::PerkNotAllowed("Perk".to_string())
    );
}

#[test]
fn perks_not_enough_points_test() {
    let (template, mut sheet) = get_template_and_sheet();

    sheet.perks = Some(vec![
        "Force Sensitive".to_string(),
        "Small Frame".to_string(),
        "Charismatic".to_string(),
    ]);

    let response = check(&template, &sheet);

    assert!(response.is_err());
    assert_eq!(
        response.unwrap_err(),
        CharacterSheetError::NotEnoughPerkPoints(5)
    );
}

#[test]
fn attribute_not_allowed_test() {
    let (template, mut sheet) = get_template_and_sheet();

    sheet.attributes.push(SheetAttribute {
        name: "Not an attribute".to_string(),
        value: 0,
        skills: None,
    });

    let response = check(&template, &sheet);

    assert!(response.is_err());
    assert_eq!(
        response.unwrap_err(),
        CharacterSheetError::AttributeNotAllowed("Not an attribute".to_string())
    );
}

#[test]
fn attribute_points_exceeded_test() {
    let (template, mut sheet) = get_template_and_sheet();

    let max_points_per_allotment = &template.allotments.attributes.max_points_per_allotment;
    let given_points = template.allotments.attributes.given_points;

    sheet
        .attributes
        .iter_mut()
        .for_each(|a| a.value = max_points_per_allotment.unwrap_or(given_points));

    let points_assigned = sheet.attributes.iter().map(|a| a.value).sum::<i64>();

    let response = check(&template, &sheet);

    assert!(response.is_err());
    assert_eq!(
        response.unwrap_err(),
        CharacterSheetError::AttributePointsExceeded(points_assigned)
    );
}

#[test]
fn attribute_too_many_points_test() {
    let (template, mut sheet) = get_template_and_sheet();

    sheet.attributes[0].value = template.allotments.attributes.given_points + 1;

    let response = check(&template, &sheet);

    assert!(response.is_err());
    assert_eq!(
        response.unwrap_err(),
        CharacterSheetError::TooManyAttributePoints {
            attribute: sheet.attributes[0].name.clone(),
            allotted_points: template.allotments.attributes.given_points + 1,
            max_points: template
                .allotments
                .attributes
                .max_points_per_allotment
                .unwrap_or(i64::MAX),
        }
    );
}

#[test]
fn negative_attribute_points_test() {
    let (template, mut sheet) = get_template_and_sheet();

    sheet.attributes[0].value = -1;

    let response = check(&template, &sheet);

    assert!(response.is_err());
    assert_eq!(
        response.unwrap_err(),
        CharacterSheetError::NegativeAttributePoints {
            offending_attribute: sheet.attributes[0].name.clone(),
            points: -1,
        }
    );
}

#[test]
fn skills_not_allowed_test() {
    let (template, mut sheet) = get_template_and_sheet();

    sheet.attributes[0].skills = Some(vec![SheetSkill {
        name: "Not a skill".to_string(),
        value: 0,
    }]);

    let response = check(&template, &sheet);

    let expected_error = CharacterSheetError::SheetSkillsNotPresentInTemplateAttribute {
        attribute: sheet.attributes[0].name.clone(),
        skills: vec!["Not a skill".to_string()],
    };

    assert!(response.is_err());
    assert_eq!(response.unwrap_err(), expected_error);
}

#[test]
fn skill_points_exceeded_test() {
    let (template, mut sheet) = get_template_and_sheet();

    let max_points_per_allotment = template
        .allotments
        .skills
        .as_ref()
        .unwrap()
        .max_points_per_allotment;
    let given_points = template.allotments.skills.as_ref().unwrap().given_points;

    let attr = sheet
        .attributes
        .iter_mut()
        .find(|f| f.skills.as_ref().is_some_and(|f| !f.is_empty()));

    if attr.is_none() {
        panic!("No attribute with skills found, unable to test skill points exceeded");
    }

    let attr = attr.unwrap();
    attr.skills.as_mut().unwrap()[0].value = max_points_per_allotment.unwrap_or(given_points) + 1;

    let expected_response = CharacterSheetError::TooManySkillPoints {
        skill: attr.skills.as_ref().unwrap()[0].name.clone(),
        allotted_points: max_points_per_allotment.unwrap_or(given_points) + 1,
        max_points: max_points_per_allotment.unwrap_or(i64::MAX),
    };

    let response = check(&template, &sheet);

    assert!(response.is_err());
    assert_eq!(response.unwrap_err(), expected_response);
}

#[test]
fn negative_skill_points_test() {
    let (template, mut sheet) = get_template_and_sheet();

    let attr = sheet
        .attributes
        .iter_mut()
        .find(|f| f.skills.as_ref().is_some_and(|f| !f.is_empty()));

    if attr.is_none() {
        panic!("No attribute with skills found, unable to test negative skill points");
    }

    let attr = attr.unwrap();
    attr.skills.as_mut().unwrap()[0].value = -1;

    let expected_response = CharacterSheetError::NegativeSkillPoints {
        offending_skill: attr.name.clone(),
        points: -1,
    };

    let response = check(&template, &sheet);

    assert!(response.is_err());
    assert_eq!(response.unwrap_err(), expected_response);
}

#[test]
fn skills_too_many_points_test() {
    let (template, mut sheet) = get_template_and_sheet();

    let max_points_per_allotment = template
        .allotments
        .skills
        .as_ref()
        .unwrap()
        .max_points_per_allotment;
    let given_points = template.allotments.skills.as_ref().unwrap().given_points;
    let skill_value = max_points_per_allotment.unwrap_or(given_points);

    let mut total_points_allocated: i64 = 0;
    sheet
        .attributes
        .iter_mut()
        .filter(|attr| attr.skills.as_ref().is_some_and(|f| !f.is_empty()))
        .for_each(|s| {
            s.skills.as_mut().unwrap()[0].value = skill_value;
            total_points_allocated += skill_value;
        });

    let expected_response = CharacterSheetError::SkillPointsExceeded(total_points_allocated);

    let response = check(&template, &sheet);

    assert!(response.is_err());
    assert_eq!(response.unwrap_err(), expected_response);
}

#[test]
fn description_too_long_test() {
    let (template, mut sheet) = get_template_and_sheet();

    let config = sheet_config();
    sheet.description = Some((0..config.description.max_length + 1).map(|_| 'd').collect());

    let response = check(&template, &sheet);

    assert!(response.is_err());
    assert_eq!(response.unwrap_err(), CharacterSheetError::DescriptionTooLong);
}

#[test]
fn valid_nonzero_sheet_test() {
    let (template, mut sheet) = get_template_and_sheet();

    sheet.attributes[0].value = 8;
    sheet.attributes[1].value = 7;
    sheet.attributes[1].skills.as_mut().unwrap()[0].value = 5;
    sheet.attributes[3].skills.as_mut().unwrap()[0].value = 5;
    sheet.perks = Some(vec!["Force Sensitive".to_string(), "Small Frame".to_string()]);

    let response = check(&template, &sheet);

    assert!(response.is_ok());
}

#[test]
fn budget_exceeded_without_single_cap_violation_test() {
    let (template, mut sheet) = get_template_and_sheet();

    // given_points is 15 and the per-attribute cap is 8: two values of 8
    // break the budget while no single value breaks the cap
    sheet.attributes[0].value = 8;
    sheet.attributes[1].value = 8;

    let response = check(&template, &sheet);

    assert!(response.is_err());
    assert_eq!(
        response.unwrap_err(),
        CharacterSheetError::AttributePointsExceeded(16)
    );
}

#[test]
fn negative_attribute_reported_before_later_faults_test() {
    let (template, mut sheet) = get_template_and_sheet();

    sheet.attributes[0].value = -5;
    sheet.attributes[1].value = 100;

    let response = check(&template, &sheet);

    assert!(response.is_err());
    assert_eq!(
        response.unwrap_err(),
        CharacterSheetError::NegativeAttributePoints {
            offending_attribute: sheet.attributes[0].name.clone(),
            points: -5,
        }
    );
}

#[test]
fn too_many_perks_reported_before_point_budget_test() {
    let (template, mut sheet) = get_template_and_sheet();

    // four perks held against a cap of three, costing 7 against a budget of 4:
    // the count violation wins
    sheet.perks = Some(vec![
        "Force Sensitive".to_string(),
        "Small Frame".to_string(),
        "Charismatic".to_string(),
        "Force Sensitive".to_string(),
    ]);

    let response = check(&template, &sheet);

    assert!(response.is_err());
    assert_eq!(
        response.unwrap_err(),
        CharacterSheetError::TooManyPerks {
            selected_perks: 4,
            max_perks: 3,
        }
    );
}

#[test]
fn perkless_template_rejects_held_perk_test() {
    let mut template = standard_template();
    template.perks = None;
    template.allotments.perks = None;
    let mut sheet = get_unfailable_sheet(&template);

    sheet.perks = Some(vec!["Fire Gaze".to_string()]);

    let response = check(&template, &sheet);

    assert!(response.is_err());
    assert_eq!(response.unwrap_err(), CharacterSheetError::PerksNotAllowed);
}

#[test]
fn perkless_template_accepts_empty_perk_list_test() {
    let mut template = standard_template();
    template.perks = None;
    template.allotments.perks = None;
    let mut sheet = get_unfailable_sheet(&template);

    sheet.perks = Some(vec![]);

    let response = check(&template, &sheet);

    assert!(response.is_ok());
}

#[test]
fn unknown_skill_name_test() {
    let (template, mut sheet) = get_template_and_sheet();

    // Dexterity declares skills, so an undeclared name among them is the
    // skill-membership violation
    sheet.attributes[1].skills.as_mut().unwrap()[0].name = "Juggling".to_string();

    let response = check(&template, &sheet);

    assert!(response.is_err());
    assert_eq!(
        response.unwrap_err(),
        CharacterSheetError::SkillNotAllowed("Juggling".to_string())
    );
}

#[test]
fn skills_missing_in_attribute_test() {
    let (template, mut sheet) = get_template_and_sheet();

    sheet.attributes[1].skills = None;

    let response = check(&template, &sheet);

    assert!(response.is_err());
    assert_eq!(
        response.unwrap_err(),
        CharacterSheetError::SkillsMissingInAttribute("Dexterity".to_string())
    );
}

#[test]
fn base_sheet_shape_test() {
    let template = standard_template();
    let sheet = template.get_base_character_sheet();

    assert_eq!(sheet.name, "");
    assert_eq!(sheet.template.name, template.name);
    assert_eq!(sheet.template.version, template.version);
    assert!(sheet.description.is_none());
    assert_eq!(sheet.health, template.base_health);
    assert_eq!(sheet.armor_class, template.base_armor_class);
    assert!(sheet.weapon_proficiencies.is_empty());
    assert_eq!(sheet.perks, Some(vec![]));
    assert_eq!(sheet.attributes.len(), template.attributes.len());
    for (sa, ta) in sheet.attributes.iter().zip(template.attributes.iter()) {
        assert_eq!(sa.name, ta.name);
        assert_eq!(sa.value, 0);
        match (&sa.skills, &ta.skills) {
            (None, None) => {}
            (Some(ss), Some(ts)) => {
                assert_eq!(ss.len(), ts.len());
                for (s, t) in ss.iter().zip(ts.iter()) {
                    assert_eq!(s.name, t.name);
                    assert_eq!(s.value, 0);
                }
            }
            _ => panic!("base sheet skill shape does not mirror the template"),
        }
    }
}
