use std::path::PathBuf;

use litrpg::models::attribute::Attributes;
use litrpg::models::character::Character;
use litrpg::models::class::ClassDefinition;
use litrpg::models::grade::Grade;
use litrpg::models::profession::ProfessionDefinition;
use litrpg::models::skill::{MasteryRank, SkillCategory, SkillDefinition, SkillEffect, SkillType};
use litrpg::models::tree::{TreeChain, UnlockRequirement};
use litrpg::text::{decimal_text, is_whitespace, matches_search, parse_u32, trim};
use litrpg::ui::app::{App, DataReloader, FileStamps, GlobalOutcome, Tab, handle_global_key};
use litrpg::ui::character_creation::{CharacterAction, CharacterCreationState, CreationStep, Mode as CharMode, innate_skill_names, progress_bar};
use litrpg::ui::input::{Key, KeyCode};
use litrpg::ui::profession_library::{Mode as ProfMode, ProfessionAction, ProfessionLibraryState, ProfessionWizard, WizardStep as ProfStep};
use litrpg::ui::skill_library::{EffectField, Mode as SkillMode, SkillAction, SkillField, SkillLibraryState};
use litrpg::ui::system_panel::{PanelAction, PopupMode, Section, SystemPanelState};
use litrpg::ui::tree_library::{Mode as TreeMode, TreeAction, TreeLibraryState, TreeWizard, WizardStep as TreeStep};
use litrpg::ui::divider;

fn key(code: KeyCode) -> Key {
    Key::plain(code)
}

fn ch(c: char) -> Key {
    Key::plain(KeyCode::Char(c))
}

fn ctrl(c: char) -> Key {
    Key { code: KeyCode::Char(c), ctrl: true, shift: false }
}

fn app() -> App {
    App::new(PathBuf::from("/tmp/litrpg-test-data"))
}

fn type_text<F: FnMut(Key)>(text: &str, mut press: F) {
    for c in text.chars() {
        press(ch(c));
    }
}

fn skill(name: &str, category: SkillCategory, skill_type: SkillType) -> SkillDefinition {
    SkillDefinition { name: name.to_string(), category, skill_type, description: String::new(), ranks: vec![] }
}

#[test]
fn global_keys() {
    let mut a = app();
    assert_eq!(handle_global_key(&mut a, key(KeyCode::Tab), false), GlobalOutcome::Consumed);
    assert_eq!(a.active_tab, Tab::SystemPanel);
    assert_eq!(handle_global_key(&mut a, key(KeyCode::Tab), true), GlobalOutcome::Dispatch);
    assert_eq!(a.active_tab, Tab::SystemPanel);
    assert_eq!(handle_global_key(&mut a, ch('?'), false), GlobalOutcome::Consumed);
    assert!(a.show_help);
    assert_eq!(handle_global_key(&mut a, ch('r'), false), GlobalOutcome::Reload);
    assert_eq!(handle_global_key(&mut a, ch('x'), false), GlobalOutcome::Dispatch);
    assert_eq!(handle_global_key(&mut a, ch('q'), false), GlobalOutcome::Consumed);
    assert!(a.show_quit_confirm);
    assert_eq!(handle_global_key(&mut a, ch('n'), false), GlobalOutcome::Consumed);
    assert!(!a.show_quit_confirm);
    assert!(a.running);
    handle_global_key(&mut a, ch('q'), false);
    assert_eq!(handle_global_key(&mut a, ch('y'), false), GlobalOutcome::Consumed);
    assert!(!a.running);
}

#[test]
fn tab_cycle_returns_after_four() {
    let mut t = Tab::Character;
    for _ in 0..4 {
        t = t.next();
    }
    assert_eq!(t, Tab::Character);
    assert_eq!(Tab::ProfessionLibrary.label(), "Profession Library");
}

#[test]
fn reloader_reloads_changed_files_once() {
    let mut r = DataReloader::new(0);
    assert!(!r.check_due(1999));
    assert!(r.check_due(2000));
    assert_eq!(r.last_check_ms, 2000);
    let seen = FileStamps {
        skills: Some(5),
        classes: None,
        trees: Some(7),
        professions: Some(9),
        characters_dir: Some(1),
        active_character: Some(3),
    };
    let plan = r.plan_reload(seen, true);
    assert!(plan.skills && !plan.classes && plan.trees && plan.professions && plan.characters && plan.active_character);
    let again = r.plan_reload(seen, true);
    assert!(!again.skills && !again.trees && !again.professions && !again.characters && !again.active_character);
    let later = r.plan_reload(FileStamps { skills: Some(6), ..seen }, false);
    assert!(later.skills && !later.active_character);
    assert_eq!(r.mtime_active_char, None);
    r.forget_stamps();
    let forced = r.plan_reload(seen, true);
    assert!(forced.skills && forced.trees && forced.characters && forced.active_character);
}

#[test]
fn character_wizard_creates_character() {
    let mut s = CharacterCreationState::new();
    let mut a = app();
    a.skill_library = vec![
        skill("Fireball", SkillCategory::Acquired, SkillType::Active),
        skill("Sword Affinity", SkillCategory::Innate, SkillType::Passive),
    ];
    assert!(matches!(s.handle_input(ch('a'), &mut a), CharacterAction::Nothing));
    assert_eq!(s.mode, CharMode::Wizard(CreationStep::Name));
    assert!(matches!(s.handle_input(key(KeyCode::Enter), &mut a), CharacterAction::Nothing));
    assert_eq!(s.mode, CharMode::Wizard(CreationStep::Name));
    type_text("Kaelx", |k| { s.handle_input(k, &mut a); });
    s.handle_input(key(KeyCode::Backspace), &mut a);
    assert_eq!(s.name, "Kael");
    s.handle_input(key(KeyCode::Enter), &mut a);
    assert_eq!(s.mode, CharMode::Wizard(CreationStep::Attributes));
    for _ in 0..7 {
        s.handle_input(ch('l'), &mut a);
    }
    s.handle_input(ch('j'), &mut a);
    for _ in 0..6 {
        s.handle_input(ch('h'), &mut a);
    }
    assert_eq!(s.attribute_values, [10, 1, 5, 5, 5, 5]);
    s.handle_input(key(KeyCode::Enter), &mut a);
    assert_eq!(s.mode, CharMode::Wizard(CreationStep::InnateSkill));
    s.handle_input(ch('j'), &mut a);
    s.handle_input(ch('j'), &mut a);
    assert_eq!(s.innate_cursor, 1);
    s.handle_input(key(KeyCode::Enter), &mut a);
    assert_eq!(s.innate_skill_index, Some(0));
    assert!(matches!(s.handle_input(key(KeyCode::Enter), &mut a), CharacterAction::SaveNew));
    assert_eq!(s.mode, CharMode::List);
    let c = a.current_character.as_ref().unwrap();
    assert_eq!(c.name, "Kael");
    assert_eq!(c.grade, Grade::G);
    assert_eq!(c.attributes, Attributes::new(10, 1, 5, 5, 5, 5));
    let innate = c.innate_skill.as_ref().unwrap();
    assert_eq!(innate.definition_name, "Sword Affinity");
    assert_eq!(innate.level, 1);
}

#[test]
fn character_list_load_and_delete() {
    let mut s = CharacterCreationState::new();
    let mut a = app();
    s.set_saved_names(vec!["Aria".to_string(), "Kael".to_string()]);
    s.handle_input(ch('l'), &mut a);
    assert_eq!(s.selected, 1);
    assert!(matches!(s.handle_input(key(KeyCode::Enter), &mut a), CharacterAction::Load(n) if n == "Kael"));
    a.open_character(Character::new("Kael".to_string(), Attributes::new(5, 5, 5, 5, 5, 5), None));
    assert_eq!(a.active_tab, Tab::SystemPanel);
    s.handle_input(ch('d'), &mut a);
    assert_eq!(s.mode, CharMode::ConfirmDelete);
    assert!(matches!(s.handle_input(ch('y'), &mut a), CharacterAction::Delete(Some(n)) if n == "Kael"));
    assert!(a.current_character.is_none());
    s.after_delete(vec!["Aria".to_string()]);
    assert_eq!(s.selected, 0);
    // The action card opens the wizard.
    s.handle_input(ch('l'), &mut a);
    assert_eq!(s.selected, 1);
    s.handle_input(key(KeyCode::Enter), &mut a);
    assert_eq!(s.mode, CharMode::Wizard(CreationStep::Name));
}

#[test]
fn innate_names_and_progress_bar() {
    let lib = vec![
        skill("Aura", SkillCategory::Innate, SkillType::Passive),
        skill("Slash", SkillCategory::Acquired, SkillType::Active),
        skill("Instinct", SkillCategory::Innate, SkillType::Active),
    ];
    assert_eq!(innate_skill_names(&lib), vec!["Aura".to_string(), "Instinct".to_string()]);
    assert_eq!(progress_bar(7, 10), "\u{2588}\u{2588}\u{2588}\u{2588}\u{2588}\u{2588}\u{2588}\u{2591}\u{2591}\u{2591}");
    assert_eq!(progress_bar(3, 2), "\u{2588}\u{2588}\u{2588}");
    assert_eq!(divider(6), "  \u{2500}\u{2500}");
}

fn panel_app() -> App {
    let mut a = app();
    a.current_character = Some(Character::new("Kael".to_string(), Attributes::new(5, 5, 5, 5, 5, 5), None));
    a.skill_library = vec![skill("Slash", SkillCategory::Acquired, SkillType::Active)];
    a.class_library = vec![ClassDefinition {
        name: "Warrior".to_string(),
        description: String::new(),
        skills: vec!["Slash".to_string(), "Guard".to_string()],
        passive_name: String::new(),
        passive_description: String::new(),
        bonus_str: 2,
        bonus_agi: 0,
        bonus_end: 0,
        bonus_int: 0,
        bonus_wis: 0,
        bonus_per: 0,
        bonus_free_points: 0,
    }];
    a
}

#[test]
fn panel_rows_and_level_up() {
    let mut s = SystemPanelState::new();
    let mut a = panel_app();
    let nav = s.build_nav(&a);
    assert_eq!(nav.len(), 10);
    assert_eq!(nav[3], Section::Attribute(0));
    assert_eq!(nav[9], Section::TotalEffects);
    assert_eq!(s.cursor_prefix(&nav, Section::Class), "  >> ");
    assert_eq!(s.cursor_prefix(&nav, Section::Grade), "     ");
    s.handle_input(ch('j'), &mut a);
    assert!(matches!(s.handle_input(ch('+'), &mut a), PanelAction::Nothing));
    assert_eq!(a.current_character.as_ref().unwrap().grade, Grade::F);
    s.handle_input(ch('j'), &mut a);
    let action = s.handle_input(ch('+'), &mut a);
    assert!(matches!(action, PanelAction::SpendXp { level: 0, grade: 1 }));
    let c = a.current_character.as_ref().unwrap();
    assert_eq!(c.level, 1);
    assert_eq!(c.unspent_attribute_points, 6);
    s.handle_input(ch('j'), &mut a);
    s.handle_input(ch('+'), &mut a);
    let c = a.current_character.as_ref().unwrap();
    assert_eq!(c.attributes.strength, 6);
    assert_eq!(c.unspent_attribute_points, 5);
    s.handle_input(ch('-'), &mut a);
    s.handle_input(ch('-'), &mut a);
    let c = a.current_character.as_ref().unwrap();
    assert_eq!(c.attributes.strength, 4);
    assert_eq!(c.unspent_attribute_points, 7);
}

#[test]
fn panel_pickers_and_kill_entry() {
    let mut s = SystemPanelState::new();
    let mut a = panel_app();
    // Enter on the class row opens the class picker.
    s.handle_input(key(KeyCode::Enter), &mut a);
    assert_eq!(s.popup, PopupMode::AddClass);
    assert_eq!(s.class_picker_list, vec!["Warrior".to_string()]);
    s.handle_input(key(KeyCode::Enter), &mut a);
    assert_eq!(s.popup, PopupMode::Closed);
    let c = a.current_character.as_ref().unwrap();
    assert_eq!(c.classes.len(), 1);
    assert_eq!(c.skills.len(), 2);
    // Every library skill is held: the skill picker stays closed.
    s.handle_input(ch('a'), &mut a);
    assert_eq!(s.popup, PopupMode::Closed);
    // Skill rows: level up, then rank up at the cap.
    s.cursor = 9;
    for _ in 0..10 {
        s.handle_input(ch('+'), &mut a);
    }
    assert_eq!(a.current_character.as_ref().unwrap().skills[0].level, 10);
    s.handle_input(ch('+'), &mut a);
    let sk = &a.current_character.as_ref().unwrap().skills[0];
    assert_eq!(sk.rank, MasteryRank::Apprentice);
    assert_eq!(sk.level, 0);
    s.handle_input(ch('d'), &mut a);
    assert_eq!(a.current_character.as_ref().unwrap().skills.len(), 1);
    // Kill entry on the level row.
    s.cursor = 2;
    s.handle_input(key(KeyCode::Enter), &mut a);
    assert_eq!(s.popup, PopupMode::KillEntry);
    s.handle_input(ch('1'), &mut a);
    s.handle_input(ch('x'), &mut a);
    s.handle_input(ch('2'), &mut a);
    s.handle_input(key(KeyCode::Tab), &mut a);
    s.handle_input(ch('3'), &mut a);
    assert_eq!(s.kill_enemy_level, "12");
    assert_eq!(s.kill_count, "3");
    let action = s.handle_input(key(KeyCode::Enter), &mut a);
    assert!(matches!(action, PanelAction::AwardKills { enemy_level: 12, kills: 3 }));
    assert_eq!(s.popup, PopupMode::Closed);
}

#[test]
fn kill_entry_defaults_to_character_level() {
    let mut s = SystemPanelState::new();
    let mut a = panel_app();
    a.current_character.as_mut().unwrap().level = 7;
    s.cursor = 2;
    s.handle_input(key(KeyCode::Enter), &mut a);
    let action = s.handle_input(key(KeyCode::Enter), &mut a);
    assert!(matches!(action, PanelAction::AwardKills { enemy_level: 7, kills: 0 }));
}

#[test]
fn profession_wizard_adds_profession() {
    let mut s = ProfessionLibraryState::new();
    let mut a = app();
    s.handle_input(ch('a'), &mut a);
    assert_eq!(s.mode, ProfMode::Wizard(ProfStep::Name));
    type_text("Smith", |k| { s.handle_input(k, &mut a); });
    s.handle_input(key(KeyCode::Enter), &mut a);
    type_text("Forges", |k| { s.handle_input(k, &mut a); });
    s.handle_input(key(KeyCode::Enter), &mut a);
    assert_eq!(s.mode, ProfMode::Wizard(ProfStep::Skills));
    type_text("Hammer", |k| { s.handle_input(k, &mut a); });
    s.handle_input(key(KeyCode::Enter), &mut a);
    type_text("Anvil", |k| { s.handle_input(k, &mut a); });
    s.handle_input(key(KeyCode::Enter), &mut a);
    s.handle_input(ctrl('n'), &mut a);
    assert_eq!(s.mode, ProfMode::Wizard(ProfStep::Passive));
    type_text("Heat", |k| { s.handle_input(k, &mut a); });
    s.handle_input(key(KeyCode::Enter), &mut a);
    assert_eq!(s.handle_input(key(KeyCode::Enter), &mut a), ProfessionAction::Save);
    assert_eq!(a.profession_library.len(), 1);
    let p = &a.profession_library[0];
    assert_eq!(p.name, "Smith");
    assert_eq!(p.description, "Forges");
    assert_eq!(p.skills, vec!["Hammer".to_string(), "Anvil".to_string()]);
    assert_eq!(p.passive_name, "Heat");
    assert_eq!(s.mode, ProfMode::Browse);
}

#[test]
fn profession_search_and_delete() {
    let mut s = ProfessionLibraryState::new();
    let mut a = app();
    let prof = |n: &str| ProfessionDefinition {
        name: n.to_string(),
        description: String::new(),
        skills: vec![],
        passive_name: String::new(),
        passive_description: String::new(),
    };
    a.profession_library = vec![prof("Blacksmith"), prof("Alchemist"), prof("Smithy")];
    s.handle_input(ch('/'), &mut a);
    type_text("SMITH", |k| { s.handle_input(k, &mut a); });
    s.handle_input(key(KeyCode::Enter), &mut a);
    assert_eq!(s.filtered_indices(&a), vec![0, 2]);
    s.handle_input(ch('l'), &mut a);
    s.handle_input(ch('d'), &mut a);
    assert_eq!(s.mode, ProfMode::ConfirmDelete);
    assert_eq!(s.handle_input(ch('y'), &mut a), ProfessionAction::Save);
    let names: Vec<&str> = a.profession_library.iter().map(|p| p.name.as_str()).collect();
    assert_eq!(names, vec!["Blacksmith", "Alchemist"]);
    let w = ProfessionWizard::new();
    assert!(w.name.is_empty());
    let cards = ProfessionLibraryState::build_profession_cards(&a.profession_library, &[0, 1]);
    assert_eq!(cards.len(), 3);
    assert_eq!(cards[0].lines[0], "0 base skills");
    assert!(cards[2].is_action);
}

#[test]
fn skill_form_creates_skill_with_effect() {
    let mut s = SkillLibraryState::new();
    let mut a = app();
    s.handle_input(ch('a'), &mut a);
    assert_eq!(s.mode, SkillMode::SkillForm);
    assert!(s.wants_tab());
    type_text("Fireball", |k| { s.handle_input(k, &mut a); });
    s.handle_input(key(KeyCode::Tab), &mut a);
    assert_eq!(s.skill_field, SkillField::Category);
    s.handle_input(ch('l'), &mut a);
    assert_eq!(s.skill_category, SkillCategory::Innate);
    s.handle_input(Key { code: KeyCode::Tab, ctrl: false, shift: true }, &mut a);
    assert_eq!(s.skill_field, SkillField::Name);
    for _ in 0..4 {
        s.handle_input(key(KeyCode::Tab), &mut a);
    }
    assert_eq!(s.skill_field, SkillField::Effects);
    s.handle_input(ch('a'), &mut a);
    assert_eq!(s.mode, SkillMode::EffectForm);
    type_text("Burn", |k| { s.handle_input(k, &mut a); });
    s.handle_input(key(KeyCode::Tab), &mut a);
    s.handle_input(key(KeyCode::Tab), &mut a);
    assert_eq!(s.effect_field, EffectField::BaseValue);
    type_text("2x0.5", |k| { s.handle_input(k, &mut a); });
    assert_eq!(s.effect_base, "20.5");
    s.handle_input(key(KeyCode::Tab), &mut a);
    type_text("3a", |k| { s.handle_input(k, &mut a); });
    assert_eq!(s.effect_unlock, "3");
    assert_eq!(s.handle_input(ctrl('s'), &mut a), SkillAction::StoreEffect);
    let bits = s.effect_base.parse::<f64>().unwrap_or(0.0).to_bits();
    s.store_effect(bits);
    assert_eq!(s.mode, SkillMode::SkillForm);
    assert_eq!(s.skill_effects.len(), 1);
    assert_eq!(s.handle_input(ctrl('s'), &mut a), SkillAction::Save);
    assert_eq!(a.skill_library.len(), 1);
    let d = &a.skill_library[0];
    assert_eq!(d.name, "Fireball");
    assert_eq!(d.category, SkillCategory::Innate);
    assert_eq!(d.ranks.len(), 1);
    assert_eq!(d.ranks[0].rank, MasteryRank::Novice);
    let e: &SkillEffect = &d.ranks[0].effects[0];
    assert_eq!(e.name.as_deref(), Some("Burn"));
    assert_eq!(f64::from_bits(e.base_value_bits), 20.5);
    assert_eq!(e.unlock_level, 3);
}

#[test]
fn skill_effect_edit_loads_texts() {
    let mut s = SkillLibraryState::new();
    let mut a = app();
    s.handle_input(ch('a'), &mut a);
    s.skill_field = SkillField::Effects;
    s.skill_effects.push(SkillEffect { name: None, description: "d".to_string(), base_value_bits: 1.5f64.to_bits(), unlock_level: 42 });
    assert_eq!(s.handle_input(ch('e'), &mut a), SkillAction::ShowEffectBase(0));
    assert_eq!(s.mode, SkillMode::EffectForm);
    assert_eq!(s.effect_unlock, "42");
    assert_eq!(s.effect_name, "");
    s.set_effect_base("1.5".to_string());
    s.handle_input(ctrl('s'), &mut a);
    s.store_effect(1.5f64.to_bits());
    let e = &s.skill_effects[0];
    assert_eq!(e.name, None);
    assert_eq!(e.unlock_level, 42);
    assert_eq!(s.skill_effects.len(), 1);
}

#[test]
fn skill_browse_filters_and_deletes() {
    let mut s = SkillLibraryState::new();
    let mut a = app();
    a.skill_library = vec![
        skill("Fireball", SkillCategory::Acquired, SkillType::Active),
        skill("Ice Lance", SkillCategory::Acquired, SkillType::Active),
        skill("Fire Ward", SkillCategory::Acquired, SkillType::Passive),
    ];
    s.handle_input(ch('/'), &mut a);
    type_text("fire", |k| { s.handle_input(k, &mut a); });
    s.handle_input(key(KeyCode::Esc), &mut a);
    assert_eq!(s.filtered_indices(&a), vec![0, 2]);
    s.handle_input(ch('l'), &mut a);
    s.handle_input(ch('e'), &mut a);
    assert_eq!(s.mode, SkillMode::SkillForm);
    assert_eq!(s.skill_name, "Fire Ward");
    assert_eq!(s.editing_index, Some(2));
    s.handle_input(key(KeyCode::Esc), &mut a);
    s.handle_input(ch('d'), &mut a);
    assert_eq!(s.handle_input(ch('y'), &mut a), SkillAction::Save);
    assert_eq!(a.skill_library.len(), 2);
    assert_eq!(a.skill_library[1].name, "Ice Lance");
    s.handle_input(key(KeyCode::Esc), &mut a);
    assert!(s.search_query.is_empty());
}

#[test]
fn tree_wizard_saves_new_chain_and_extends_it() {
    let mut s = TreeLibraryState::new();
    let mut a = app();
    s.handle_input(ch('a'), &mut a);
    type_text("Might", |k| { s.handle_input(k, &mut a); });
    s.handle_input(key(KeyCode::Enter), &mut a);
    assert_eq!(s.mode, TreeMode::Wizard(TreeStep::BaseCost));
    type_text("5x0", |k| { s.handle_input(k, &mut a); });
    assert_eq!(s.wizard.base_cost, "50");
    s.handle_input(key(KeyCode::Enter), &mut a);
    type_text("Strong", |k| { s.handle_input(k, &mut a); });
    s.handle_input(key(KeyCode::Enter), &mut a);
    assert_eq!(s.mode, TreeMode::Wizard(TreeStep::Milestones));
    type_text("A", |k| { s.handle_input(k, &mut a); });
    s.handle_input(ch('j'), &mut a);
    type_text("B", |k| { s.handle_input(k, &mut a); });
    s.handle_input(key(KeyCode::Enter), &mut a);
    type_text("12", |k| { s.handle_input(k, &mut a); });
    s.handle_input(key(KeyCode::Enter), &mut a);
    s.handle_input(ch('l'), &mut a);
    type_text("Mace", |k| { s.handle_input(k, &mut a); });
    s.handle_input(key(KeyCode::Enter), &mut a);
    assert_eq!(s.wizard.requirements.len(), 2);
    assert_eq!(s.handle_input(ctrl('d'), &mut a), TreeAction::Save);
    assert_eq!(a.tree_library.len(), 1);
    let chain: &TreeChain = &a.tree_library[0];
    assert_eq!(chain.name, "Might");
    assert_eq!(chain.base_cost, 50);
    assert_eq!(chain.trees[0].max_points, 50);
    assert_eq!(chain.trees[0].milestones[0].description, "A");
    assert_eq!(chain.trees[0].milestones[1].description, "B");
    assert!(matches!(chain.trees[0].requirements[0], UnlockRequirement::Level { value: 12, .. }));
    assert!(matches!(&chain.trees[0].requirements[1], UnlockRequirement::Skill { skill_name, .. } if skill_name == "Mace"));
    // Add a second tree to the chain under the cursor.
    s.handle_input(ch('c'), &mut a);
    assert_eq!(s.wizard.chain_name, "Might");
    type_text("Might II", |k| { s.handle_input(k, &mut a); });
    s.handle_input(key(KeyCode::Enter), &mut a);
    s.handle_input(ch('1'), &mut a);
    s.handle_input(key(KeyCode::Enter), &mut a);
    s.handle_input(ch('x'), &mut a);
    s.handle_input(key(KeyCode::Enter), &mut a);
    s.handle_input(key(KeyCode::Enter), &mut a);
    s.handle_input(ctrl('d'), &mut a);
    assert_eq!(a.tree_library.len(), 1);
    assert_eq!(a.tree_library[0].trees.len(), 2);
    assert_eq!(a.tree_library[0].trees[1].name, "Might II");
    let built = TreeWizard::new().build_tree();
    assert_eq!(built.max_points, 40);
}

#[test]
fn text_helpers_and_wrappers() {
    assert!(matches_search("Fireball", "FIRE"));
    assert!(matches_search("Fireball", ""));
    assert!(!matches_search("Fireball", "ice"));
    assert_eq!(trim("  Hammer Strike \t"), "Hammer Strike");
    assert_eq!(decimal_text(0), "0");
    assert_eq!(decimal_text(4096), "4096");
    assert_eq!(parse_u32(&decimal_text(4294967295)), Some(4294967295));
    assert_eq!(parse_u32("4294967296"), None);
    assert_eq!(parse_u32("+7"), Some(7));
    assert_eq!(parse_u32(""), None);
}

#[test]
fn whitespace_agrees_with_std_on_every_char() {
    for n in 0u32..0x110000 {
        if let Some(c) = char::from_u32(n) {
            assert_eq!(is_whitespace(c), c.is_whitespace(), "U+{:04X}", n);
        }
    }
    assert_eq!(trim("\u{3000}Ogham\u{1680}Strike\u{a0}\u{2029}"), "Ogham\u{1680}Strike");
}
