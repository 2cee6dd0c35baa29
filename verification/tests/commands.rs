use litrpg::commands::library::{
    ClassChanges, create_class, create_skill, delete_class, delete_skill, first_rank_effect_count, update_class,
    update_skill,
};
use litrpg::commands::parse::{parse_attr_arg, parse_category, parse_kill_arg, parse_name_list, parse_skill_type};
use litrpg::commands::update::{
    UpdateOpts, add_attr_to, add_class_to, add_skill_to, apply_progression, apply_roster_changes, remove_attr_from,
    remove_class_from, remove_skill_from,
};
use litrpg::commands::{ClearTarget, CommandErrorOf, create_character, skill_labels};
use litrpg::models::attribute::{AttributeKind, Attributes};
use litrpg::models::character::Character;
use litrpg::models::class::ClassDefinition;
use litrpg::models::grade::Grade;
use litrpg::models::skill::{MasteryRank, RankDefinition, SkillCategory, SkillDefinition, SkillType};

fn character() -> Character {
    Character::new("Kael".to_string(), Attributes::new(5, 5, 5, 5, 5, 5), None)
}

fn skill(name: &str, category: SkillCategory, skill_type: SkillType) -> SkillDefinition {
    SkillDefinition {
        name: name.to_string(),
        category,
        skill_type,
        description: String::new(),
        ranks: vec![],
    }
}

fn class(name: &str, skills: &[&str]) -> ClassDefinition {
    ClassDefinition {
        name: name.to_string(),
        description: String::new(),
        skills: skills.iter().map(|s| s.to_string()).collect(),
        passive_name: String::new(),
        passive_description: String::new(),
        bonus_str: 1,
        bonus_agi: 0,
        bonus_end: 0,
        bonus_int: 0,
        bonus_wis: 0,
        bonus_per: 0,
        bonus_free_points: 2,
    }
}

#[test]
fn create_character_builds_grade_g_human() {
    let c = create_character(false, "Kael".to_string(), 7, 6, 5, 4, 4, 4, Some("Sword Affinity".to_string())).unwrap();
    assert_eq!(c.name, "Kael");
    assert_eq!(c.race, "Human");
    assert_eq!(c.grade, Grade::G);
    assert_eq!(c.level, 0);
    assert_eq!(c.attributes, Attributes::new(7, 6, 5, 4, 4, 4));
    let innate = c.innate_skill.unwrap();
    assert_eq!(innate.definition_name, "Sword Affinity");
    assert_eq!(innate.level, 0);
}

#[test]
fn create_character_refuses_duplicate_and_out_of_range() {
    let dup = create_character(true, "Kael".to_string(), 5, 5, 5, 5, 5, 5, None);
    assert!(matches!(dup, Err(CommandErrorOf::CharacterExists(n)) if n == "Kael"));
    let bad = create_character(false, "Kael".to_string(), 5, 11, 0, 5, 5, 5, None);
    assert!(matches!(bad, Err(CommandErrorOf::AttributeOutOfRange(AttributeKind::Agility, 11))));
}

#[test]
fn parse_attr_arg_cases() {
    assert!(matches!(parse_attr_arg("str:3"), Ok((AttributeKind::Strength, 3))));
    assert!(matches!(parse_attr_arg("per:+12"), Ok((AttributeKind::Perception, 12))));
    assert!(matches!(parse_attr_arg("str"), Err(CommandErrorOf::InvalidAttrFormat(_))));
    assert!(matches!(parse_attr_arg("str:1:2"), Err(CommandErrorOf::InvalidAttrFormat(_))));
    assert!(matches!(parse_attr_arg("luck:1"), Err(CommandErrorOf::UnknownAttribute(s)) if s == "luck"));
    assert!(matches!(parse_attr_arg("agi:x"), Err(CommandErrorOf::InvalidPointValue)));
    assert!(matches!(parse_attr_arg("agi:4294967296"), Err(CommandErrorOf::InvalidPointValue)));
}

#[test]
fn parse_kill_arg_cases() {
    assert!(matches!(parse_kill_arg("12:3"), Ok((12, 3))));
    assert!(matches!(parse_kill_arg("12"), Err(CommandErrorOf::InvalidKillFormat(_))));
    assert!(matches!(parse_kill_arg("a:3"), Err(CommandErrorOf::InvalidEnemyLevel)));
    assert!(matches!(parse_kill_arg("3:b"), Err(CommandErrorOf::InvalidKillCount)));
}

#[test]
fn parse_category_and_type_ignore_case() {
    assert!(matches!(parse_category("Acquired"), Ok(SkillCategory::Acquired)));
    assert!(matches!(parse_category("INNATE"), Ok(SkillCategory::Innate)));
    assert!(matches!(parse_category("class"), Ok(SkillCategory::Class)));
    assert!(matches!(parse_category("Profession"), Ok(SkillCategory::Class)));
    assert!(matches!(parse_category("PROFESSION"), Ok(SkillCategory::Class)));
    assert!(matches!(parse_category("spell"), Err(CommandErrorOf::UnknownCategory(s)) if s == "spell"));
    assert!(matches!(parse_skill_type("Passive"), Ok(SkillType::Passive)));
    assert!(matches!(parse_skill_type("ACTIVE"), Ok(SkillType::Active)));
    assert!(matches!(parse_skill_type("toggle"), Err(CommandErrorOf::UnknownType(_))));
}

#[test]
fn parse_name_list_trims_and_drops_empty() {
    let names = parse_name_list(" Hammer Strike , Metal Shaping,, ");
    assert_eq!(names, vec!["Hammer Strike".to_string(), "Metal Shaping".to_string()]);
    assert!(parse_name_list("").is_empty());
}

#[test]
fn progression_grade_up_and_level_cap() {
    let mut c = character();
    let opts = UpdateOpts { grade_up: true, level_up: Some(150), ..UpdateOpts::default() };
    apply_progression(&mut c, &opts, &[]).unwrap();
    assert_eq!(c.grade, Grade::F);
    assert_eq!(c.level, 100);
    // Grade F: (3 + 0) * 2 points per level.
    assert_eq!(c.unspent_attribute_points, 600);
}

#[test]
fn progression_refused_at_max_grade() {
    let mut c = character();
    c.grade = Grade::SSS;
    let opts = UpdateOpts { grade_up: true, ..UpdateOpts::default() };
    assert!(matches!(apply_progression(&mut c, &opts, &[]), Err(CommandErrorOf::MaxGrade)));
}

#[test]
fn progression_applies_class_bonuses() {
    let mut c = character();
    add_class_to(&mut c, &"Warrior".to_string(), &[class("Warrior", &[])]).unwrap();
    let opts = UpdateOpts { level_up: Some(2), ..UpdateOpts::default() };
    apply_progression(&mut c, &opts, &[class("Warrior", &[])]).unwrap();
    assert_eq!(c.level, 2);
    assert_eq!(c.attributes.strength, 7);
    // 3 per level plus 2 free points per level from the class.
    assert_eq!(c.unspent_attribute_points, 10);
}

#[test]
fn skills_add_and_remove() {
    let lib = vec![skill("Shadow Step", SkillCategory::Acquired, SkillType::Active)];
    let mut c = character();
    add_skill_to(&mut c, &"Shadow Step".to_string(), &lib).unwrap();
    assert_eq!(c.skills.len(), 1);
    assert_eq!(c.skills[0].rank, MasteryRank::Novice);
    assert_eq!(c.skills[0].level, 0);
    assert!(matches!(add_skill_to(&mut c, &"Shadow Step".to_string(), &lib), Err(CommandErrorOf::SkillAlreadyOwned(_))));
    assert!(matches!(add_skill_to(&mut c, &"Fireball".to_string(), &lib), Err(CommandErrorOf::SkillNotInLibrary(_))));
    remove_skill_from(&mut c, &"Shadow Step".to_string()).unwrap();
    assert!(c.skills.is_empty());
    assert!(matches!(remove_skill_from(&mut c, &"Shadow Step".to_string()), Err(CommandErrorOf::SkillNotOnCharacter(_))));
}

#[test]
fn classes_add_grant_skills_and_respect_slots() {
    let lib = vec![class("Blacksmith", &["Hammer Strike", "Metal Shaping"]), class("Rogue", &[])];
    let mut c = character();
    add_class_to(&mut c, &"Blacksmith".to_string(), &lib).unwrap();
    assert_eq!(c.classes.len(), 1);
    assert_eq!(c.skills.len(), 2);
    assert_eq!(c.skills[1].definition_name, "Metal Shaping");
    assert!(matches!(add_class_to(&mut c, &"Rogue".to_string(), &lib), Err(CommandErrorOf::ClassSlotLimit)));
    c.class_slots = 3;
    assert!(matches!(add_class_to(&mut c, &"Blacksmith".to_string(), &lib), Err(CommandErrorOf::ClassAlreadyOwned(_))));
    assert!(matches!(add_class_to(&mut c, &"Mage".to_string(), &lib), Err(CommandErrorOf::ClassNotInLibrary(_))));
    remove_class_from(&mut c, &"Blacksmith".to_string()).unwrap();
    assert!(c.classes.is_empty());
    assert_eq!(c.skills.len(), 2);
    assert!(matches!(remove_class_from(&mut c, &"Blacksmith".to_string()), Err(CommandErrorOf::ClassNotOnCharacter(_))));
}

#[test]
fn attributes_add_and_remove_points() {
    let mut c = character();
    c.unspent_attribute_points = 4;
    add_attr_to(&mut c, &"str:3".to_string()).unwrap();
    assert_eq!(c.attributes.strength, 8);
    assert_eq!(c.unspent_attribute_points, 1);
    assert!(matches!(add_attr_to(&mut c, &"agi:2".to_string()), Err(CommandErrorOf::NotEnoughPoints(1, 2))));
    remove_attr_from(&mut c, &"str:3".to_string()).unwrap();
    assert_eq!(c.attributes.strength, 5);
    assert_eq!(c.unspent_attribute_points, 4);
    assert!(matches!(remove_attr_from(&mut c, &"wis:5".to_string()), Err(CommandErrorOf::CannotReduceBelowOne(AttributeKind::Wisdom))));
}

#[test]
fn roster_changes_apply_in_order() {
    let skills = vec![skill("Fireball", SkillCategory::Acquired, SkillType::Active)];
    let classes = vec![class("Mage", &["Mana Shield"])];
    let mut c = character();
    c.unspent_attribute_points = 2;
    let opts = UpdateOpts {
        add_skill: vec!["Fireball".to_string()],
        add_class: vec!["Mage".to_string()],
        add_attr: vec!["int:2".to_string()],
        ..UpdateOpts::default()
    };
    apply_roster_changes(&mut c, &opts, &classes, &skills).unwrap();
    let names: Vec<&str> = c.skills.iter().map(|s| s.definition_name.as_str()).collect();
    assert_eq!(names, vec!["Fireball", "Mana Shield"]);
    assert_eq!(c.attributes.intelligence, 7);
    assert_eq!(c.unspent_attribute_points, 0);
}

#[test]
fn skill_library_create_update_delete() {
    let mut lib: Vec<SkillDefinition> = Vec::new();
    let names = vec!["Fire Damage".to_string(), "Burn DOT".to_string()];
    let descs = vec!["Burns the target".to_string()];
    create_skill(&mut lib, "Fireball", "acquired", "active", "Launches a ball of fire", &names,
        &[20.0f64.to_bits()], &[0, 5], &descs).unwrap();
    assert_eq!(lib.len(), 1);
    assert_eq!(lib[0].ranks.len(), 1);
    assert_eq!(lib[0].ranks[0].rank, MasteryRank::Novice);
    let effects = &lib[0].ranks[0].effects;
    assert_eq!(effects.len(), 2);
    assert_eq!(effects[0].description, "Burns the target");
    assert_eq!(effects[1].description, "");
    assert_eq!(f64::from_bits(effects[0].base_value_bits), 20.0);
    assert_eq!(effects[1].base_value_bits, 0);
    assert_eq!(effects[1].unlock_level, 5);
    assert_eq!(first_rank_effect_count(&lib[0]), 2);

    let dup = create_skill(&mut lib, "Fireball", "acquired", "active", "", &[], &[], &[], &[]);
    assert!(matches!(dup, Err(CommandErrorOf::SkillExists(_))));
    let bad = create_skill(&mut lib, "Ice", "spell", "active", "", &[], &[], &[], &[]);
    assert!(matches!(bad, Err(CommandErrorOf::UnknownCategory(_))));
    assert_eq!(lib.len(), 1);

    update_skill(&mut lib, "Fireball", Some("Hot"), None, Some("passive"), &["Scorch".to_string()],
        &[], &[], &[], &["Burn DOT".to_string()]).unwrap();
    assert_eq!(lib[0].description, "Hot");
    assert_eq!(lib[0].skill_type, SkillType::Passive);
    let effect_names: Vec<String> = lib[0].ranks[0].effects.iter().map(|e| e.name.clone().unwrap()).collect();
    assert_eq!(effect_names, vec!["Fire Damage".to_string(), "Scorch".to_string()]);
    assert!(matches!(update_skill(&mut lib, "Ice", None, None, None, &[], &[], &[], &[], &[]), Err(CommandErrorOf::SkillNotFound(_))));

    delete_skill(&mut lib, "Fireball").unwrap();
    assert!(lib.is_empty());
    assert!(matches!(delete_skill(&mut lib, "Fireball"), Err(CommandErrorOf::SkillNotFound(_))));
}

#[test]
fn update_skill_adds_novice_rank_when_missing() {
    let mut lib = vec![skill("Iron Skin", SkillCategory::Acquired, SkillType::Passive)];
    update_skill(&mut lib, "Iron Skin", None, Some("innate"), None, &["Armor".to_string()], &[], &[3], &[], &[]).unwrap();
    assert_eq!(lib[0].category, SkillCategory::Innate);
    assert_eq!(lib[0].ranks.len(), 1);
    assert_eq!(lib[0].ranks[0].rank, MasteryRank::Novice);
    assert_eq!(lib[0].ranks[0].effects[0].unlock_level, 3);
}

#[test]
fn create_then_delete_skill_restores_library() {
    let mut lib = vec![skill("Iron Skin", SkillCategory::Acquired, SkillType::Passive)];
    create_skill(&mut lib, "Fireball", "acquired", "active", "", &[], &[], &[], &[]).unwrap();
    delete_skill(&mut lib, "Fireball").unwrap();
    assert_eq!(lib.len(), 1);
    assert_eq!(lib[0].name, "Iron Skin");
}

#[test]
fn class_library_create_update_delete() {
    let mut lib: Vec<ClassDefinition> = Vec::new();
    create_class(&mut lib, class("Blacksmith", &["Hammer Strike"])).unwrap();
    assert!(matches!(create_class(&mut lib, class("Blacksmith", &[])), Err(CommandErrorOf::ClassExists(_))));
    let changes = ClassChanges { bonus_str: Some(4), description: Some("Forge".to_string()), ..ClassChanges::default() };
    update_class(&mut lib, "Blacksmith", changes, &["Metal Shaping".to_string()], &["Hammer Strike".to_string()]).unwrap();
    assert_eq!(lib[0].bonus_str, 4);
    assert_eq!(lib[0].bonus_free_points, 2);
    assert_eq!(lib[0].description, "Forge");
    assert_eq!(lib[0].skills, vec!["Metal Shaping".to_string()]);
    assert!(matches!(update_class(&mut lib, "Mage", ClassChanges::default(), &[], &[]), Err(CommandErrorOf::ClassNotFound(_))));
    delete_class(&mut lib, "Blacksmith").unwrap();
    assert!(lib.is_empty());
    assert!(matches!(delete_class(&mut lib, "Blacksmith"), Err(CommandErrorOf::ClassNotFound(_))));
}

#[test]
fn skill_labels_from_library() {
    let lib = vec![skill("Fireball", SkillCategory::Acquired, SkillType::Active), skill("Aura", SkillCategory::Innate, SkillType::Passive)];
    let mut c = character();
    add_skill_to(&mut c, &"Aura".to_string(), &lib).unwrap();
    c.skills.push(litrpg::models::character::CharacterSkill { definition_name: "Gone".to_string(), rank: MasteryRank::Novice, level: 0 });
    let labels = skill_labels(&c.skills, &lib);
    assert_eq!(labels[0], ("Innate".to_string(), "Passive".to_string()));
    assert_eq!(labels[1], ("Unknown".to_string(), "Unknown".to_string()));
}

#[test]
fn clear_targets() {
    assert_eq!(ClearTarget::Characters.clears(), (true, false, false));
    assert_eq!(ClearTarget::Skills.clears(), (false, true, false));
    assert_eq!(ClearTarget::Classes.clears(), (false, false, true));
    assert_eq!(ClearTarget::All.clears(), (true, true, true));
    assert_eq!(ClearTarget::Classes.label(), "class library");
    assert_eq!(ClearTarget::All.label(), "all data");
}

#[test]
fn rank_definition_effects_survive_in_skill() {
    let mut lib = vec![SkillDefinition {
        name: "Slash".to_string(),
        category: SkillCategory::Acquired,
        skill_type: SkillType::Active,
        description: String::new(),
        ranks: vec![RankDefinition { rank: MasteryRank::Novice, description: String::new(), effects: vec![] }],
    }];
    update_skill(&mut lib, "Slash", None, None, None, &["Cut".to_string()], &[], &[], &["Sharp".to_string()], &[]).unwrap();
    assert_eq!(lib[0].ranks[0].effects[0].description, "Sharp");
}
