use litrpg::models::attribute::{AttributeKind, Attributes};
use litrpg::models::character::Character;
use litrpg::models::class::ClassDefinition;
use litrpg::models::grade::Grade;
use litrpg::models::innate_skill::InnateSkillDefinition;
use litrpg::models::profession::ProfessionDefinition;
use litrpg::models::skill::{
    MasteryRank, RankDefinition, SkillCategory, SkillDefinition, SkillEffect, SkillType,
};
use litrpg::models::tree::{TreeChain, TreeDefinition, TreeMilestone};
use litrpg::formulas::tree_points::{sequential_tree_cost, tree_points_for_skill_level};

#[test]
fn test_attribute_default_values() {
    let attrs = Attributes::new(5, 3, 4, 7, 2, 8);
    assert_eq!(attrs.strength, 5);
    assert_eq!(attrs.agility, 3);
    assert_eq!(attrs.endurance, 4);
    assert_eq!(attrs.intelligence, 7);
    assert_eq!(attrs.wisdom, 2);
    assert_eq!(attrs.perception, 8);
}

#[test]
fn test_attribute_validation_clamps_to_range() {
    let attrs = Attributes::new_clamped(0, 15, 5, 5, 5, 5);
    assert_eq!(attrs.strength, 1);
    assert_eq!(attrs.agility, 10);
}

#[test]
fn test_add_points() {
    let mut attrs = Attributes::new(5, 5, 5, 5, 5, 5);
    attrs.add(AttributeKind::Strength, 10);
    assert_eq!(attrs.strength, 15);
}

#[test]
fn test_get_by_kind() {
    let attrs = Attributes::new(1, 2, 3, 4, 5, 6);
    assert_eq!(attrs.get(AttributeKind::Strength), 1);
    assert_eq!(attrs.get(AttributeKind::Perception), 6);
}

#[test]
fn test_tree_points_from_skill_level() {
    assert_eq!(tree_points_for_skill_level(MasteryRank::Novice), 1);
    assert_eq!(tree_points_for_skill_level(MasteryRank::Apprentice), 2);
    assert_eq!(tree_points_for_skill_level(MasteryRank::Grandmaster), 7);
}

#[test]
fn test_sequential_tree_cost() {
    assert_eq!(sequential_tree_cost(40, 0), 40);
    assert_eq!(sequential_tree_cost(40, 1), 200);
    assert_eq!(sequential_tree_cost(40, 2), 1000);
    assert_eq!(sequential_tree_cost(40, 3), 5000);
}

#[test]
fn test_new_character() {
    let attrs = Attributes::new_clamped(5, 5, 5, 5, 5, 5);
    let character = Character::new("Kael".to_string(), attrs, None);
    assert_eq!(character.name, "Kael");
    assert_eq!(character.grade, Grade::G);
    assert_eq!(character.race, "Human");
    assert_eq!(character.level, 0);
    assert_eq!(f64::from_bits(character.xp_bits), 0.0);
    assert_eq!(character.unspent_attribute_points, 0);
    assert_eq!(character.classes.len(), 0);
    assert_eq!(character.class_slots, 1);
    assert!(character.innate_skill.is_none());
}

#[test]
fn test_attribute_points_per_level_base() {
    let attrs = Attributes::new_clamped(5, 5, 5, 5, 5, 5);
    let character = Character::new("Test".to_string(), attrs, None);
    assert_eq!(character.attribute_points_per_level(), 3);
}

#[test]
fn test_attribute_points_per_level_grade_scaling() {
    let attrs = Attributes::new_clamped(5, 5, 5, 5, 5, 5);
    let mut character = Character::new("Test".to_string(), attrs, None);
    character.grade = Grade::E;
    assert_eq!(character.attribute_points_per_level(), 12);
}

#[test]
fn test_class_definition_creation() {
    let cls = ClassDefinition {
        name: "Blacksmith".to_string(),
        description: "Craft weapons and armor".to_string(),
        skills: vec!["Forging".to_string(), "Tempering".to_string()],
        passive_name: "Forgeborn".to_string(),
        passive_description: "Increases crafting quality".to_string(),
        bonus_str: 0, bonus_agi: 0, bonus_end: 0,
        bonus_int: 0, bonus_wis: 0, bonus_per: 0,
        bonus_free_points: 0,
    };
    assert_eq!(cls.name, "Blacksmith");
    assert_eq!(cls.skills.len(), 2);
}

#[test]
fn test_grade_numeric() {
    assert_eq!(Grade::G.numeric(), 0);
    assert_eq!(Grade::F.numeric(), 1);
    assert_eq!(Grade::A.numeric(), 6);
    assert_eq!(Grade::S.numeric(), 7);
}

#[test]
fn test_grade_display() {
    assert_eq!(Grade::G.name(), "G");
    assert_eq!(Grade::SS.name(), "SS");
}

#[test]
fn test_grade_from_numeric() {
    assert_eq!(Grade::from_numeric(0), Grade::G);
    assert_eq!(Grade::from_numeric(6), Grade::A);
    assert_eq!(Grade::from_numeric(99), Grade::S);
}

#[test]
fn test_innate_skill_max_level_capped_at_100() {
    let skill = InnateSkillDefinition {
        name: "Sword Affinity".to_string(),
        skill_type: SkillType::Passive,
        description: "Natural sword talent".to_string(),
        max_level: 150,
        growable: true,
        effects: vec![],
        evolutions: vec![],
    };
    assert_eq!(skill.effective_max_level(), 100);
}

#[test]
fn test_profession_definition_creation() {
    let prof = ProfessionDefinition {
        name: "Blacksmith".to_string(),
        description: "Craft weapons and armor".to_string(),
        skills: vec!["Forging".to_string(), "Tempering".to_string()],
        passive_name: "Forgeborn".to_string(),
        passive_description: "Increases crafting quality".to_string(),
    };
    assert_eq!(prof.name, "Blacksmith");
    assert_eq!(prof.skills.len(), 2);
}

#[test]
fn test_mastery_rank_max_level() {
    assert_eq!(MasteryRank::Novice.max_level(), 10);
    assert_eq!(MasteryRank::Apprentice.max_level(), 25);
    assert_eq!(MasteryRank::Journeyman.max_level(), 50);
    assert_eq!(MasteryRank::Advanced.max_level(), 100);
    assert_eq!(MasteryRank::Expert.max_level(), 250);
    assert_eq!(MasteryRank::Master.max_level(), 500);
    assert_eq!(MasteryRank::Grandmaster.max_level(), 1000);
}

#[test]
fn test_mastery_rank_tree_points_per_level() {
    assert_eq!(MasteryRank::Novice.tree_points_per_level(), 1);
    assert_eq!(MasteryRank::Apprentice.tree_points_per_level(), 2);
    assert_eq!(MasteryRank::Grandmaster.tree_points_per_level(), 7);
}

#[test]
fn test_mastery_rank_next() {
    assert_eq!(MasteryRank::Novice.next(), Some(MasteryRank::Apprentice));
    assert_eq!(MasteryRank::Grandmaster.next(), None);
}

#[test]
fn test_skill_effect_hidden_before_unlock() {
    let effect = SkillEffect {
        name: Some("Hidden Power".to_string()),
        description: "Unleashes latent energy".to_string(),
        base_value_bits: 50.0f64.to_bits(),
        unlock_level: 5,
    };
    assert!(!effect.is_unlocked(4));
    assert!(effect.is_unlocked(5));
}

#[test]
fn test_skill_creation() {
    let skill = SkillDefinition {
        name: "Fireball".to_string(),
        category: SkillCategory::Acquired,
        skill_type: SkillType::Active,
        description: "Launches a ball of fire".to_string(),
        ranks: vec![RankDefinition {
            rank: MasteryRank::Novice,
            description: "A weak fireball".to_string(),
            effects: vec![SkillEffect {
                name: Some("Fire Damage".to_string()),
                description: "Burns the target".to_string(),
                base_value_bits: 20.0f64.to_bits(),
                unlock_level: 0,
            }],
        }],
    };
    assert_eq!(skill.name, "Fireball");
    assert_eq!(skill.ranks.len(), 1);
}

fn milestones(a: &str, b: &str, c: &str, d: &str) -> [TreeMilestone; 4] {
    [
        TreeMilestone { description: a.to_string() },
        TreeMilestone { description: b.to_string() },
        TreeMilestone { description: c.to_string() },
        TreeMilestone { description: d.to_string() },
    ]
}

#[test]
fn test_sequential_tree_cost_scaling() {
    let chain = TreeChain { name: "Swordsman".to_string(), base_cost: 40, trees: vec![] };
    assert_eq!(chain.cost_for_step(0), 40);
    assert_eq!(chain.cost_for_step(1), 200);
    assert_eq!(chain.cost_for_step(2), 1000);
    assert_eq!(chain.cost_for_step(3), 5000);
}

#[test]
fn test_milestone_thresholds() {
    let tree = TreeDefinition {
        name: "Swordsman I".to_string(),
        description: "Basic sword training".to_string(),
        max_points: 40,
        milestones: milestones("25% bonus", "50% bonus", "75% bonus", "100% bonus"),
        requirements: vec![],
    };
    assert_eq!(tree.milestone_threshold(0), 10);
    assert_eq!(tree.milestone_threshold(1), 20);
    assert_eq!(tree.milestone_threshold(2), 30);
    assert_eq!(tree.milestone_threshold(3), 40);
}

#[test]
fn test_milestones_reached() {
    let tree = TreeDefinition {
        name: "Test".to_string(),
        description: "Test".to_string(),
        max_points: 100,
        milestones: milestones("M1", "M2", "M3", "M4"),
        requirements: vec![],
    };
    assert_eq!(tree.milestones_reached(24), 0);
    assert_eq!(tree.milestones_reached(25), 1);
    assert_eq!(tree.milestones_reached(74), 2);
    assert_eq!(tree.milestones_reached(100), 4);
}
