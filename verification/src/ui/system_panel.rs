//! System Panel tab: shows and edits the active character.
//!
//! The rows the cursor visits are the class, the grade, the level, the six
//! attributes, each skill and the total effects. j/k move, +/- adjust the
//! value under the cursor, Enter opens the class picker, the kill entry,
//! or expands a skill or the total effects, `a` adds a skill and `d`
//! removes the class or the skill under the cursor. What needs floating
//! point experience is handed back to the caller as an action.
use vstd::prelude::*;
use crate::collections::keep_where;
use crate::commands::update::{character_has_class, character_has_skill, grant_class, granted_class, has_class_named, has_skill_named, novice_skill};
use crate::models::attribute::{AttributeKind, attribute_at};
use crate::models::character::{Character, CharacterSkill, CharacterSkillView, CharacterView, classes_view, graded_up, level_up_fits, leveled, skills_view, MAX_LEVEL};
use crate::models::class::ClassDefinition;
use crate::models::grade::{grade_index, grade_next};
use crate::models::skill::{MasteryRank, SkillCategory, SkillDefinition, SkillType, lemma_rank_roundtrip, rank_at, rank_index, rank_max_level};
use crate::text::{is_digit, parse_u32, parse_u32_spec, strings_view};
use crate::ui::app::App;
use crate::ui::input::{Key, KeyCode, is_down, is_up};

verus! {

/// Rows the cursor can be on.
#[derive(Debug, Clone, Copy, PartialEq, Eq, Structural)]
pub enum Section {
    Class,
    Grade,
    Level,
    Attribute(usize),
    Skill(usize),
    TotalEffects,
}

/// Popups for data entry.
#[derive(Debug, Clone, Copy, PartialEq, Eq, Structural)]
pub enum PopupMode {
    Closed,
    KillEntry,
    AddSkill,
    AddClass,
}

/// What the caller must do after a key press on this tab.
#[derive(Debug, Clone, Copy, PartialEq, Eq, Structural)]
pub enum PanelAction {
    Nothing,
    /// A level was bought: take the experience required to leave `level`
    /// at grade number `grade` off the character's experience, not going
    /// below zero.
    SpendXp { level: u32, grade: u32 },
    /// Add the experience of `kills` kills of enemies of `enemy_level`,
    /// then level up while the experience covers the next level.
    AwardKills { enemy_level: u32, kills: u32 },
    /// A counter would overflow; nothing was changed.
    Overflow,
}

/// All state for the System Panel tab.
pub struct SystemPanelState {
    pub cursor: usize,
    pub expanded_skills: Vec<bool>,
    pub expanded_effects: bool,
    pub popup: PopupMode,
    pub kill_enemy_level: String,
    pub kill_count: String,
    /// Kill entry field being typed into: 0 enemy level, 1 kill count.
    pub kill_field: usize,
    pub skill_picker_cursor: usize,
    pub skill_picker_list: Vec<String>,
    pub class_picker_cursor: usize,
    pub class_picker_list: Vec<String>,
}

/// The row at a position, for a character with `skill_count` skills.
pub open spec fn section_at(skill_count: nat, i: int) -> Section {
    if i == 0 {
        Section::Class
    } else if i == 1 {
        Section::Grade
    } else if i == 2 {
        Section::Level
    } else if i < 9 {
        Section::Attribute((i - 3) as usize)
    } else if i < 9 + skill_count {
        Section::Skill((i - 9) as usize)
    } else {
        Section::TotalEffects
    }
}

/// The rows the cursor visits, top to bottom (none without a character).
pub open spec fn panel_nav(c: Option<Character>) -> Seq<Section> {
    match c {
        None => Seq::empty(),
        Some(ch) => Seq::new(ch.skills@.len() + 10, |i: int| section_at(ch.skills@.len(), i)),
    }
}

/// The row under the cursor, if any.
pub open spec fn cursor_section(c: Option<Character>, cursor: int) -> Option<Section> {
    let nav = panel_nav(c);
    if 0 <= cursor < nav.len() { Some(nav[cursor]) } else { None }
}

/// Library skill names the character does not hold, in library order.
pub open spec fn unowned_skill_names(lib: Seq<SkillDefinition>, owned: Seq<CharacterSkillView>) -> Seq<Seq<char>> {
    keep_where(lib.map_values(|d: SkillDefinition| d.name@), |n: Seq<char>| !has_skill_named(owned, n))
}

/// Library class names the character does not hold, in library order.
pub open spec fn unowned_class_names(lib: Seq<ClassDefinition>, owned: Seq<crate::models::class::CharacterClassView>) -> Seq<Seq<char>> {
    keep_where(lib.map_values(|d: ClassDefinition| d.name@), |n: Seq<char>| !has_class_named(owned, n))
}

/// The character after `+` on a row, with the action it asks for. Grade:
/// next grade (level and experience reset). Level: one level-up below the
/// cap. Attribute: one unspent point moves into it. Skill: one level, or
/// the next rank at level 0 once the rank's cap is reached.
pub open spec fn incremented(c: Character, section: Option<Section>, lib: Seq<ClassDefinition>) -> (CharacterView, PanelAction) {
    match section {
        Some(Section::Grade) => match grade_next(c.grade) {
            Some(g) => (graded_up(c, g)@, PanelAction::Nothing),
            None => (c@, PanelAction::Nothing),
        },
        Some(Section::Level) => if c.level < MAX_LEVEL {
            if level_up_fits(c, lib) {
                (leveled(c, lib)@, PanelAction::SpendXp { level: c.level, grade: grade_index(c.grade) as u32 })
            } else {
                (c@, PanelAction::Overflow)
            }
        } else {
            (c@, PanelAction::Nothing)
        },
        Some(Section::Attribute(i)) => if c.unspent_attribute_points > 0 {
            let k = attribute_at(i as int);
            if c.attributes.value(k) < u32::MAX {
                (CharacterView {
                    attributes: c.attributes.with_value(k, (c.attributes.value(k) + 1) as u32),
                    unspent_attribute_points: (c.unspent_attribute_points - 1) as u32,
                    ..c@
                }, PanelAction::Nothing)
            } else {
                (c@, PanelAction::Overflow)
            }
        } else {
            (c@, PanelAction::Nothing)
        },
        Some(Section::Skill(i)) => if i < c.skills@.len() {
            let s = c@.skills[i as int];
            if s.level < rank_max_level(s.rank) {
                (CharacterView { skills: c@.skills.update(i as int, CharacterSkillView { level: (s.level + 1) as u32, ..s }), ..c@ }, PanelAction::Nothing)
            } else if s.rank != MasteryRank::Grandmaster {
                (CharacterView { skills: c@.skills.update(i as int, CharacterSkillView { rank: rank_at(rank_index(s.rank) + 1int), level: 0, ..s }), ..c@ }, PanelAction::Nothing)
            } else {
                (c@, PanelAction::Nothing)
            }
        } else {
            (c@, PanelAction::Nothing)
        },
        _ => (c@, PanelAction::Nothing),
    }
}

/// The character after `-` on a row: on an attribute above 1, one point
/// goes back to the unspent pool.
pub open spec fn decremented(c: Character, section: Option<Section>) -> (CharacterView, PanelAction) {
    match section {
        Some(Section::Attribute(i)) => {
            let k = attribute_at(i as int);
            if c.attributes.value(k) > 1 {
                if c.unspent_attribute_points < u32::MAX {
                    (CharacterView {
                        attributes: c.attributes.with_value(k, (c.attributes.value(k) - 1) as u32),
                        unspent_attribute_points: (c.unspent_attribute_points + 1) as u32,
                        ..c@
                    }, PanelAction::Nothing)
                } else {
                    (c@, PanelAction::Overflow)
                }
            } else {
                (c@, PanelAction::Nothing)
            }
        },
        _ => (c@, PanelAction::Nothing),
    }
}

/// The character after `d` on a row: the first class, or the skill under
/// the cursor, is removed.
pub open spec fn deleted(c: Character, section: Option<Section>) -> CharacterView {
    match section {
        Some(Section::Class) => if c.classes@.len() > 0 {
            CharacterView { classes: c@.classes.subrange(1, c.classes@.len() as int), ..c@ }
        } else {
            c@
        },
        Some(Section::Skill(i)) => if i < c.skills@.len() {
            CharacterView { skills: c@.skills.remove(i as int), ..c@ }
        } else {
            c@
        },
        _ => c@,
    }
}

/// The app's character is `c0` changed into one whose view is `v`, the
/// rest of the app untouched.
pub open spec fn character_became(a0: App, a1: App, v: CharacterView) -> bool {
    &&& a1 == (App { current_character: a1.current_character, ..a0 })
    &&& a1.current_character matches Some(c1) && c1@ == v && c1.name == a0.current_character->0.name
}

/// Enemy level and kill count of a kill entry: unparsable text gives the
/// character's level and no kills.
pub open spec fn kill_numbers(enemy: Seq<char>, count: Seq<char>, level: u32) -> (u32, u32) {
    (
        match parse_u32_spec(enemy) { Some(v) => v, None => level },
        match parse_u32_spec(count) { Some(v) => v, None => 0 },
    )
}

/// The cursor after moving one row up or down within `max_index`.
pub open spec fn moved(cursor: usize, key: Key, max_index: int) -> usize {
    if is_up(key) {
        if cursor > 0 { (cursor - 1) as usize } else { cursor }
    } else if is_down(key) {
        if cursor < max_index { (cursor + 1) as usize } else { cursor }
    } else {
        cursor
    }
}

/// A picker popup (list of names, cursor): j/k move within the list, Enter
/// takes the name under the cursor, Esc closes.
pub open spec fn picker_cursor_after(cursor: usize, key: Key, len: nat) -> usize {
    moved(cursor, key, if len > 0 { len - 1 } else { 0 })
}

impl SystemPanelState {
    /// Bounds the key handlers rely on.
    pub open spec fn wf(&self) -> bool {
        self.kill_field <= 1
    }

    pub fn new() -> (s: Self)
        ensures
            s.wf(),
            s.cursor == 0,
            s.expanded_skills@.len() == 0,
            !s.expanded_effects,
            s.popup == PopupMode::Closed,
            s.kill_enemy_level@.len() == 0,
            s.kill_count@.len() == 0,
            s.kill_field == 0,
            s.skill_picker_cursor == 0,
            s.skill_picker_list@.len() == 0,
            s.class_picker_cursor == 0,
            s.class_picker_list@.len() == 0,
    {
        SystemPanelState {
            cursor: 0,
            expanded_skills: Vec::new(),
            expanded_effects: false,
            popup: PopupMode::Closed,
            kill_enemy_level: String::new(),
            kill_count: String::new(),
            kill_field: 0,
            skill_picker_cursor: 0,
            skill_picker_list: Vec::new(),
            class_picker_cursor: 0,
            class_picker_list: Vec::new(),
        }
    }

    /// Build the ordered list of rows from the current character.
    pub fn build_nav(&self, app: &App) -> (nav: Vec<Section>)
        requires
            app.current_character matches Some(c) ==> c.skills@.len() + 10 <= usize::MAX,
        ensures
            nav@ == panel_nav(app.current_character),
    {
        let mut nav: Vec<Section> = Vec::new();
        match &app.current_character {
            None => {
                assert(nav@ =~= panel_nav(app.current_character));
                nav
            },
            Some(c) => {
                let n = c.skills.len();
                let ghost full = panel_nav(app.current_character);
                let mut i: usize = 0;
                while i < n + 10
                    invariant
                        n == c.skills@.len(),
                        n + 10 <= usize::MAX,
                        full == panel_nav(app.current_character),
                        full.len() == n + 10,
                        i <= n + 10,
                        nav@ == full.take(i as int),
                    decreases n + 10 - i,
                {
                    let s = if i == 0 {
                        Section::Class
                    } else if i == 1 {
                        Section::Grade
                    } else if i == 2 {
                        Section::Level
                    } else if i < 9 {
                        Section::Attribute(i - 3)
                    } else if i < 9 + n {
                        Section::Skill(i - 9)
                    } else {
                        Section::TotalEffects
                    };
                    nav.push(s);
                    assert(nav@ =~= full.take(i + 1));
                    i = i + 1;
                }
                assert(full.take(i as int) =~= full);
                nav
            },
        }
    }

    /// The row under the cursor, if any.
    fn section_under_cursor(&self, app: &App) -> (r: Option<Section>)
        requires
            app.current_character matches Some(c) ==> c.skills@.len() + 10 <= usize::MAX,
        ensures
            r == cursor_section(app.current_character, self.cursor as int),
    {
        match &app.current_character {
            None => None,
            Some(c) => {
                let n = c.skills.len();
                let i = self.cursor;
                if i >= n + 10 {
                    None
                } else if i == 0 {
                    Some(Section::Class)
                } else if i == 1 {
                    Some(Section::Grade)
                } else if i == 2 {
                    Some(Section::Level)
                } else if i < 9 {
                    Some(Section::Attribute(i - 3))
                } else if i < 9 + n {
                    Some(Section::Skill(i - 9))
                } else {
                    Some(Section::TotalEffects)
                }
            },
        }
    }

    /// Cursor marker for a row: "  >> " on the cursor's row, else five spaces.
    pub fn cursor_prefix(&self, nav: &[Section], section: Section) -> (s: &'static str)
        ensures
            s@ == (if self.cursor < nav@.len() && nav@[self.cursor as int] == section { "  >> "@ } else { "     "@ }),
    {
        if self.cursor < nav.len() && nav[self.cursor] == section {
            "  >> "
        } else {
            "     "
        }
    }

    /// Keep one expansion flag per skill: extra flags are dropped, missing
    /// ones added collapsed.
    pub fn sync_expanded(&mut self, skill_count: usize)
        ensures
            final(self).expanded_skills@ == (if skill_count <= old(self).expanded_skills@.len() {
                old(self).expanded_skills@.take(skill_count as int)
            } else {
                old(self).expanded_skills@ + Seq::new((skill_count - old(self).expanded_skills@.len()) as nat, |_i: int| false)
            }),
            *final(self) == (SystemPanelState { expanded_skills: final(self).expanded_skills, ..*old(self) }),
    {
        if self.expanded_skills.len() > skill_count {
            self.expanded_skills.truncate(skill_count);
        } else {
            let ghost start = self.expanded_skills@;
            while self.expanded_skills.len() < skill_count
                invariant
                    *self == (SystemPanelState { expanded_skills: self.expanded_skills, ..*old(self) }),
                    start == old(self).expanded_skills@,
                    start.len() <= self.expanded_skills@.len() <= skill_count,
                    self.expanded_skills@ == start + Seq::new((self.expanded_skills@.len() - start.len()) as nat, |_i: int| false),
                decreases skill_count - self.expanded_skills@.len(),
            {
                let ghost before = self.expanded_skills@;
                self.expanded_skills.push(false);
                assert(self.expanded_skills@ =~= start + Seq::new((self.expanded_skills@.len() - start.len()) as nat, |_i: int| false));
            }
        }
    }

    /// Handle a key press: the open popup gets it first, otherwise the rows.
    pub fn handle_input(&mut self, key: Key, app: &mut App) -> (action: PanelAction)
        requires
            old(self).wf(),
            old(app).current_character matches Some(c) ==> c.skills@.len() + 10 <= usize::MAX,
        ensures
            final(self).wf(),
            old(self).popup == PopupMode::KillEntry ==> kill_step(*old(self), *final(self), key, *old(app), *final(app), action),
            old(self).popup == PopupMode::AddSkill ==> add_skill_step(*old(self), *final(self), key, *old(app), *final(app), action),
            old(self).popup == PopupMode::AddClass ==> add_class_step(*old(self), *final(self), key, *old(app), *final(app), action),
            old(self).popup == PopupMode::Closed ==> rows_step(*old(self), *final(self), key, *old(app), *final(app), action),
    {
        match self.popup {
            PopupMode::KillEntry => self.handle_kill_entry(key, app),
            PopupMode::AddSkill => self.handle_add_skill(key, app),
            PopupMode::AddClass => self.handle_add_class(key, app),
            PopupMode::Closed => self.handle_rows(key, app),
        }
    }

    fn handle_rows(&mut self, key: Key, app: &mut App) -> (action: PanelAction)
        requires
            old(self).wf(),
            old(self).popup == PopupMode::Closed,
            old(app).current_character matches Some(c) ==> c.skills@.len() + 10 <= usize::MAX,
        ensures
            final(self).wf(),
            rows_step(*old(self), *final(self), key, *old(app), *final(app), action),
    {
        let section = self.section_under_cursor(app);
        let max: usize = match &app.current_character {
            Some(c) => c.skills.len() + 9,
            None => 0,
        };
        if key.code == KeyCode::Up || key.code == KeyCode::Char('k') {
            if self.cursor > 0 { self.cursor = self.cursor - 1; }
            PanelAction::Nothing
        } else if key.code == KeyCode::Down || key.code == KeyCode::Char('j') {
            if self.cursor < max { self.cursor = self.cursor + 1; }
            PanelAction::Nothing
        } else if key.code == KeyCode::Enter {
            match section {
                Some(Section::Class) => { self.open_add_class(app); },
                Some(Section::Level) => {
                    self.popup = PopupMode::KillEntry;
                    self.kill_enemy_level.clear();
                    self.kill_count.clear();
                    self.kill_field = 0;
                },
                Some(Section::Skill(i)) => {
                    if i < self.expanded_skills.len() {
                        let e = self.expanded_skills[i];
                        self.expanded_skills.set(i, !e);
                    }
                },
                Some(Section::TotalEffects) => { self.expanded_effects = !self.expanded_effects; },
                _ => {},
            }
            PanelAction::Nothing
        } else if key.code == KeyCode::Char('+') || key.code == KeyCode::Char('=') {
            increment(app, section)
        } else if key.code == KeyCode::Char('-') {
            decrement(app, section)
        } else if key.code == KeyCode::Char('a') {
            self.open_add_skill(app);
            PanelAction::Nothing
        } else if key.code == KeyCode::Char('d') {
            if let Some(Section::Skill(i)) = section {
                if app.current_character.is_some() && i < app.current_character.as_ref().unwrap().skills.len() && i < self.expanded_skills.len() {
                    self.expanded_skills.remove(i);
                }
            }
            delete_row(app, section);
            PanelAction::Nothing
        } else {
            PanelAction::Nothing
        }
    }

    /// Fill the skill picker with the library skills the character lacks
    /// and open it, unless there are none.
    fn open_add_skill(&mut self, app: &App)
        ensures
            open_skill_picker(*old(self), *final(self), *app),
    {
        match &app.current_character {
            None => {},
            Some(c) => {
                let list = unowned_skills(&app.skill_library, &c.skills);
                let empty = list.len() == 0;
                self.skill_picker_list = list;
                if !empty {
                    self.skill_picker_cursor = 0;
                    self.popup = PopupMode::AddSkill;
                }
            },
        }
    }

    /// Fill the class picker with the library classes the character lacks
    /// and open it, unless the class slots are full or there are none.
    fn open_add_class(&mut self, app: &App)
        ensures
            open_class_picker(*old(self), *final(self), *app),
    {
        match &app.current_character {
            None => {},
            Some(c) => {
                if c.classes.len() as u32 >= c.class_slots {
                    return;
                }
                let list = unowned_classes(&app.class_library, &c.classes);
                let empty = list.len() == 0;
                self.class_picker_list = list;
                if !empty {
                    self.class_picker_cursor = 0;
                    self.popup = PopupMode::AddClass;
                }
            },
        }
    }

    fn handle_add_skill(&mut self, key: Key, app: &mut App) -> (action: PanelAction)
        requires
            old(self).wf(),
            old(self).popup == PopupMode::AddSkill,
        ensures
            final(self).wf(),
            add_skill_step(*old(self), *final(self), key, *old(app), *final(app), action),
    {
        let len = self.skill_picker_list.len();
        if key.code == KeyCode::Up || key.code == KeyCode::Char('k') {
            if self.skill_picker_cursor > 0 { self.skill_picker_cursor = self.skill_picker_cursor - 1; }
        } else if key.code == KeyCode::Down || key.code == KeyCode::Char('j') {
            if len > 0 && self.skill_picker_cursor < len - 1 { self.skill_picker_cursor = self.skill_picker_cursor + 1; }
        } else if key.code == KeyCode::Enter {
            if self.skill_picker_cursor < len {
                let name = self.skill_picker_list[self.skill_picker_cursor].clone();
                match &mut app.current_character {
                    Some(c) => {
                        let ghost before = c.skills@;
                        c.skills.push(CharacterSkill { definition_name: name, rank: MasteryRank::Novice, level: 0 });
                        assert(skills_view(c.skills@) =~= skills_view(before).push(novice_skill(name@)));
                    },
                    None => {},
                }
            }
            self.popup = PopupMode::Closed;
        } else if key.code == KeyCode::Esc {
            self.popup = PopupMode::Closed;
        }
        PanelAction::Nothing
    }

    fn handle_add_class(&mut self, key: Key, app: &mut App) -> (action: PanelAction)
        requires
            old(self).wf(),
            old(self).popup == PopupMode::AddClass,
        ensures
            final(self).wf(),
            add_class_step(*old(self), *final(self), key, *old(app), *final(app), action),
    {
        let len = self.class_picker_list.len();
        if key.code == KeyCode::Up || key.code == KeyCode::Char('k') {
            if self.class_picker_cursor > 0 { self.class_picker_cursor = self.class_picker_cursor - 1; }
        } else if key.code == KeyCode::Down || key.code == KeyCode::Char('j') {
            if len > 0 && self.class_picker_cursor < len - 1 { self.class_picker_cursor = self.class_picker_cursor + 1; }
        } else if key.code == KeyCode::Enter {
            if self.class_picker_cursor < len {
                let name = self.class_picker_list[self.class_picker_cursor].clone();
                let lib = &app.class_library;
                match &mut app.current_character {
                    Some(c) => { grant_class(c, &name, lib); },
                    None => {},
                }
            }
            self.popup = PopupMode::Closed;
        } else if key.code == KeyCode::Esc {
            self.popup = PopupMode::Closed;
        }
        PanelAction::Nothing
    }

    fn handle_kill_entry(&mut self, key: Key, app: &mut App) -> (action: PanelAction)
        requires
            old(self).wf(),
            old(self).popup == PopupMode::KillEntry,
        ensures
            final(self).wf(),
            kill_step(*old(self), *final(self), key, *old(app), *final(app), action),
    {
        match key.code {
            KeyCode::Char(c) => {
                if '0' <= c && c <= '9' {
                    if self.kill_field == 0 {
                        self.kill_enemy_level.push(c);
                    } else {
                        self.kill_count.push(c);
                    }
                }
                PanelAction::Nothing
            },
            KeyCode::Backspace => {
                if self.kill_field == 0 {
                    self.kill_enemy_level.pop();
                } else {
                    self.kill_count.pop();
                }
                PanelAction::Nothing
            },
            KeyCode::Tab => {
                self.kill_field = 1 - self.kill_field;
                PanelAction::Nothing
            },
            KeyCode::Enter => {
                self.popup = PopupMode::Closed;
                match &app.current_character {
                    Some(c) => {
                        let enemy_level = match parse_u32(self.kill_enemy_level.as_str()) {
                            Some(v) => v,
                            None => c.level,
                        };
                        let kills = match parse_u32(self.kill_count.as_str()) {
                            Some(v) => v,
                            None => 0,
                        };
                        PanelAction::AwardKills { enemy_level, kills }
                    },
                    None => PanelAction::Nothing,
                }
            },
            KeyCode::Esc => {
                self.popup = PopupMode::Closed;
                PanelAction::Nothing
            },
            _ => PanelAction::Nothing,
        }
    }
}

/// Opening the skill picker: with a character, the list becomes the
/// library skills it lacks; when that list is not empty the picker opens
/// with its cursor on the first name.
pub open spec fn open_skill_picker(s0: SystemPanelState, s1: SystemPanelState, a: App) -> bool {
    match a.current_character {
        None => s1 == s0,
        Some(c) => {
            let list = unowned_skill_names(a.skill_library@, skills_view(c.skills@));
            &&& strings_view(s1.skill_picker_list@) == list
            &&& s1 == (if list.len() > 0 {
                SystemPanelState { skill_picker_list: s1.skill_picker_list, skill_picker_cursor: 0, popup: PopupMode::AddSkill, ..s0 }
            } else {
                SystemPanelState { skill_picker_list: s1.skill_picker_list, ..s0 }
            })
        },
    }
}

/// Opening the class picker: with a character that has a free class slot,
/// the list becomes the library classes it lacks; when that list is not
/// empty the picker opens with its cursor on the first name.
pub open spec fn open_class_picker(s0: SystemPanelState, s1: SystemPanelState, a: App) -> bool {
    match a.current_character {
        None => s1 == s0,
        Some(c) => if c.classes@.len() as u32 >= c.class_slots {
            s1 == s0
        } else {
            let list = unowned_class_names(a.class_library@, classes_view(c.classes@));
            &&& strings_view(s1.class_picker_list@) == list
            &&& s1 == (if list.len() > 0 {
                SystemPanelState { class_picker_list: s1.class_picker_list, class_picker_cursor: 0, popup: PopupMode::AddClass, ..s0 }
            } else {
                SystemPanelState { class_picker_list: s1.class_picker_list, ..s0 }
            })
        },
    }
}

/// Keys on the rows (no popup open).
pub open spec fn rows_step(s0: SystemPanelState, s1: SystemPanelState, key: Key, a0: App, a1: App, action: PanelAction) -> bool {
    let section = cursor_section(a0.current_character, s0.cursor as int);
    let nav_len = panel_nav(a0.current_character).len();
    let max_index = if nav_len > 0 { nav_len - 1 } else { 0 };
    if is_up(key) || is_down(key) {
        action == PanelAction::Nothing && a1 == a0 && s1 == (SystemPanelState { cursor: moved(s0.cursor, key, max_index), ..s0 })
    } else if key.code == KeyCode::Enter {
        &&& action == PanelAction::Nothing
        &&& a1 == a0
        &&& match section {
            Some(Section::Class) => open_class_picker(s0, s1, a0),
            Some(Section::Level) => {
                &&& s1 == (SystemPanelState { popup: PopupMode::KillEntry, kill_field: 0, kill_enemy_level: s1.kill_enemy_level, kill_count: s1.kill_count, ..s0 })
                &&& s1.kill_enemy_level@.len() == 0
                &&& s1.kill_count@.len() == 0
            },
            Some(Section::Skill(i)) => if i < s0.expanded_skills@.len() {
                s1 == (SystemPanelState { expanded_skills: s1.expanded_skills, ..s0 })
                    && s1.expanded_skills@ == s0.expanded_skills@.update(i as int, !s0.expanded_skills@[i as int])
            } else {
                s1 == s0
            },
            Some(Section::TotalEffects) => s1 == (SystemPanelState { expanded_effects: !s0.expanded_effects, ..s0 }),
            _ => s1 == s0,
        }
    } else if key.code == KeyCode::Char('+') || key.code == KeyCode::Char('=') {
        s1 == s0 && match a0.current_character {
            None => action == PanelAction::Nothing && a1 == a0,
            Some(c) => {
                let (v, act) = incremented(c, section, a0.class_library@);
                action == act && character_became(a0, a1, v)
            },
        }
    } else if key.code == KeyCode::Char('-') {
        s1 == s0 && match a0.current_character {
            None => action == PanelAction::Nothing && a1 == a0,
            Some(c) => {
                let (v, act) = decremented(c, section);
                action == act && character_became(a0, a1, v)
            },
        }
    } else if key.code == KeyCode::Char('a') {
        action == PanelAction::Nothing && a1 == a0 && open_skill_picker(s0, s1, a0)
    } else if key.code == KeyCode::Char('d') {
        &&& action == PanelAction::Nothing
        &&& match a0.current_character {
            None => a1 == a0 && s1 == s0,
            Some(c) => {
                &&& character_became(a0, a1, deleted(c, section))
                &&& match section {
                    Some(Section::Skill(i)) => if i < c.skills@.len() && i < s0.expanded_skills@.len() {
                        s1 == (SystemPanelState { expanded_skills: s1.expanded_skills, ..s0 })
                            && s1.expanded_skills@ == s0.expanded_skills@.remove(i as int)
                    } else {
                        s1 == s0
                    },
                    _ => s1 == s0,
                }
            },
        }
    } else {
        action == PanelAction::Nothing && a1 == a0 && s1 == s0
    }
}

/// Keys in the add-skill picker.
pub open spec fn add_skill_step(s0: SystemPanelState, s1: SystemPanelState, key: Key, a0: App, a1: App, action: PanelAction) -> bool {
    let len = s0.skill_picker_list@.len();
    &&& action == PanelAction::Nothing
    &&& if is_up(key) || is_down(key) {
        a1 == a0 && s1 == (SystemPanelState { skill_picker_cursor: picker_cursor_after(s0.skill_picker_cursor, key, len), ..s0 })
    } else if key.code == KeyCode::Enter {
        &&& s1 == (SystemPanelState { popup: PopupMode::Closed, ..s0 })
        &&& if s0.skill_picker_cursor < len && a0.current_character is Some {
            let c = a0.current_character->0;
            let name = s0.skill_picker_list@[s0.skill_picker_cursor as int]@;
            character_became(a0, a1, CharacterView { skills: c@.skills.push(novice_skill(name)), ..c@ })
        } else {
            a1 == a0
        }
    } else if key.code == KeyCode::Esc {
        a1 == a0 && s1 == (SystemPanelState { popup: PopupMode::Closed, ..s0 })
    } else {
        a1 == a0 && s1 == s0
    }
}

/// Keys in the add-class picker: Enter gives the character the class under
/// the cursor with the skills it grants.
pub open spec fn add_class_step(s0: SystemPanelState, s1: SystemPanelState, key: Key, a0: App, a1: App, action: PanelAction) -> bool {
    let len = s0.class_picker_list@.len();
    &&& action == PanelAction::Nothing
    &&& if is_up(key) || is_down(key) {
        a1 == a0 && s1 == (SystemPanelState { class_picker_cursor: picker_cursor_after(s0.class_picker_cursor, key, len), ..s0 })
    } else if key.code == KeyCode::Enter {
        &&& s1 == (SystemPanelState { popup: PopupMode::Closed, ..s0 })
        &&& if s0.class_picker_cursor < len && a0.current_character is Some {
            let c = a0.current_character->0;
            let name = s0.class_picker_list@[s0.class_picker_cursor as int]@;
            character_became(a0, a1, granted_class(c@, name, a0.class_library@))
        } else {
            a1 == a0
        }
    } else if key.code == KeyCode::Esc {
        a1 == a0 && s1 == (SystemPanelState { popup: PopupMode::Closed, ..s0 })
    } else {
        a1 == a0 && s1 == s0
    }
}

/// Keys in the kill entry: digits go to the current field, Backspace
/// erases, Tab switches field, Enter asks to award the kills, Esc closes.
pub open spec fn kill_step(s0: SystemPanelState, s1: SystemPanelState, key: Key, a0: App, a1: App, action: PanelAction) -> bool {
    &&& a1 == a0
    &&& match key.code {
        KeyCode::Char(c) => action == PanelAction::Nothing && if is_digit(c) {
            if s0.kill_field == 0 {
                s1 == (SystemPanelState { kill_enemy_level: s1.kill_enemy_level, ..s0 }) && s1.kill_enemy_level@ == s0.kill_enemy_level@.push(c)
            } else {
                s1 == (SystemPanelState { kill_count: s1.kill_count, ..s0 }) && s1.kill_count@ == s0.kill_count@.push(c)
            }
        } else {
            s1 == s0
        },
        KeyCode::Backspace => action == PanelAction::Nothing && if s0.kill_field == 0 {
            s1 == (SystemPanelState { kill_enemy_level: s1.kill_enemy_level, ..s0 })
                && s1.kill_enemy_level@ == (if s0.kill_enemy_level@.len() > 0 { s0.kill_enemy_level@.drop_last() } else { s0.kill_enemy_level@ })
        } else {
            s1 == (SystemPanelState { kill_count: s1.kill_count, ..s0 })
                && s1.kill_count@ == (if s0.kill_count@.len() > 0 { s0.kill_count@.drop_last() } else { s0.kill_count@ })
        },
        KeyCode::Tab => action == PanelAction::Nothing && s1 == (SystemPanelState { kill_field: (1 - s0.kill_field) as usize, ..s0 }),
        KeyCode::Enter => {
            &&& s1 == (SystemPanelState { popup: PopupMode::Closed, ..s0 })
            &&& action == (match a0.current_character {
                Some(c) => {
                    let (e, k) = kill_numbers(s0.kill_enemy_level@, s0.kill_count@, c.level);
                    PanelAction::AwardKills { enemy_level: e, kills: k }
                },
                None => PanelAction::Nothing,
            })
        },
        KeyCode::Esc => action == PanelAction::Nothing && s1 == (SystemPanelState { popup: PopupMode::Closed, ..s0 }),
        _ => action == PanelAction::Nothing && s1 == s0,
    }
}

/// The library skill names the character lacks.
fn unowned_skills(lib: &Vec<SkillDefinition>, owned: &Vec<CharacterSkill>) -> (names: Vec<String>)
    ensures
        strings_view(names@) == unowned_skill_names(lib@, skills_view(owned@)),
{
    let ghost f = |d: SkillDefinition| d.name@;
    let ghost all = lib@.map_values(f);
    let ghost keep = |n: Seq<char>| !has_skill_named(skills_view(owned@), n);
    let mut names: Vec<String> = Vec::new();
    let mut i: usize = 0;
    assert(all.take(0) =~= Seq::<Seq<char>>::empty());
    while i < lib.len()
        invariant
            i <= lib@.len(),
            all == lib@.map_values(f),
            f == (|d: SkillDefinition| d.name@),
            keep == (|n: Seq<char>| !has_skill_named(skills_view(owned@), n)),
            strings_view(names@) == keep_where(all.take(i as int), keep),
        decreases lib@.len() - i,
    {
        assert(all.take(i + 1).drop_last() =~= all.take(i as int));
        assert(all.take(i + 1).last() == lib@[i as int].name@);
        let ghost before = names@;
        if !character_has_skill(owned, &lib[i].name) {
            let n = lib[i].name.clone();
            names.push(n);
            assert(strings_view(before.push(n)) =~= strings_view(before).push(n@));
        }
        i = i + 1;
    }
    assert(all.take(i as int) =~= all);
    names
}

/// The library class names the character lacks.
fn unowned_classes(lib: &Vec<ClassDefinition>, owned: &Vec<crate::models::class::CharacterClass>) -> (names: Vec<String>)
    ensures
        strings_view(names@) == unowned_class_names(lib@, classes_view(owned@)),
{
    let ghost f = |d: ClassDefinition| d.name@;
    let ghost all = lib@.map_values(f);
    let ghost keep = |n: Seq<char>| !has_class_named(classes_view(owned@), n);
    let mut names: Vec<String> = Vec::new();
    let mut i: usize = 0;
    assert(all.take(0) =~= Seq::<Seq<char>>::empty());
    while i < lib.len()
        invariant
            i <= lib@.len(),
            all == lib@.map_values(f),
            f == (|d: ClassDefinition| d.name@),
            keep == (|n: Seq<char>| !has_class_named(classes_view(owned@), n)),
            strings_view(names@) == keep_where(all.take(i as int), keep),
        decreases lib@.len() - i,
    {
        assert(all.take(i + 1).drop_last() =~= all.take(i as int));
        assert(all.take(i + 1).last() == lib@[i as int].name@);
        let ghost before = names@;
        if !character_has_class(owned, &lib[i].name) {
            let n = lib[i].name.clone();
            names.push(n);
            assert(strings_view(before.push(n)) =~= strings_view(before).push(n@));
        }
        i = i + 1;
    }
    assert(all.take(i as int) =~= all);
    names
}

/// `+` on a row of the active character.
fn increment(app: &mut App, section: Option<Section>) -> (action: PanelAction)
    requires
        section matches Some(Section::Attribute(i)) ==> i < 6,
    ensures
        match old(app).current_character {
            None => action == PanelAction::Nothing && *final(app) == *old(app),
            Some(c) => {
                let (v, act) = incremented(c, section, old(app).class_library@);
                action == act && character_became(*old(app), *final(app), v)
            },
        },
{
    let lib = &app.class_library;
    match &mut app.current_character {
        None => PanelAction::Nothing,
        Some(c) => {
            let ghost c0 = *c;
            match section {
                Some(Section::Grade) => {
                    c.grade_up();
                    PanelAction::Nothing
                },
                Some(Section::Level) => {
                    if c.level < MAX_LEVEL {
                        let level = c.level;
                        let grade = c.grade.numeric();
                        if c.try_level_up(lib) {
                            PanelAction::SpendXp { level, grade }
                        } else {
                            PanelAction::Overflow
                        }
                    } else {
                        PanelAction::Nothing
                    }
                },
                Some(Section::Attribute(i)) => {
                    if c.unspent_attribute_points > 0 {
                        let kind = AttributeKind::from_index(i);
                        if c.attributes.get(kind) < u32::MAX {
                            c.attributes.add(kind, 1);
                            c.unspent_attribute_points = c.unspent_attribute_points - 1;
                            PanelAction::Nothing
                        } else {
                            PanelAction::Overflow
                        }
                    } else {
                        PanelAction::Nothing
                    }
                },
                Some(Section::Skill(i)) => {
                    if i < c.skills.len() {
                        let name = c.skills[i].definition_name.clone();
                        let rank = c.skills[i].rank;
                        let level = c.skills[i].level;
                        let cap = rank.max_level();
                        let ghost before = c.skills@;
                        if level < cap {
                            c.skills.set(i, CharacterSkill { definition_name: name, rank, level: level + 1 });
                            assert(skills_view(c.skills@) =~= skills_view(before).update(i as int, CharacterSkillView { level: (level + 1) as u32, ..before[i as int]@ }));
                        } else {
                            match rank.next() {
                                Some(n) => {
                                    proof { lemma_rank_roundtrip(n); }
                                    c.skills.set(i, CharacterSkill { definition_name: name, rank: n, level: 0 });
                                    assert(skills_view(c.skills@) =~= skills_view(before).update(i as int, CharacterSkillView { rank: n, level: 0, ..before[i as int]@ }));
                                },
                                None => {},
                            }
                        }
                    }
                    PanelAction::Nothing
                },
                _ => PanelAction::Nothing,
            }
        },
    }
}

/// `-` on a row of the active character.
fn decrement(app: &mut App, section: Option<Section>) -> (action: PanelAction)
    requires
        section matches Some(Section::Attribute(i)) ==> i < 6,
    ensures
        match old(app).current_character {
            None => action == PanelAction::Nothing && *final(app) == *old(app),
            Some(c) => {
                let (v, act) = decremented(c, section);
                action == act && character_became(*old(app), *final(app), v)
            },
        },
{
    match &mut app.current_character {
        None => PanelAction::Nothing,
        Some(c) => {
            match section {
                Some(Section::Attribute(i)) => {
                    let kind = AttributeKind::from_index(i);
                    if c.attributes.get(kind) > 1 {
                        if c.unspent_attribute_points < u32::MAX {
                            c.attributes.subtract(kind, 1);
                            c.unspent_attribute_points = c.unspent_attribute_points + 1;
                            PanelAction::Nothing
                        } else {
                            PanelAction::Overflow
                        }
                    } else {
                        PanelAction::Nothing
                    }
                },
                _ => PanelAction::Nothing,
            }
        },
    }
}

/// `d` on a row of the active character.
fn delete_row(app: &mut App, section: Option<Section>)
    ensures
        match old(app).current_character {
            None => *final(app) == *old(app),
            Some(c) => character_became(*old(app), *final(app), deleted(c, section)),
        },
{
    match &mut app.current_character {
        None => {},
        Some(c) => {
            match section {
                Some(Section::Class) => {
                    if c.classes.len() > 0 {
                        let ghost before = c.classes@;
                        c.classes.remove(0);
                        assert(classes_view(c.classes@) =~= classes_view(before).subrange(1, before.len() as int));
                    }
                },
                Some(Section::Skill(i)) => {
                    if i < c.skills.len() {
                        let ghost before = c.skills@;
                        c.skills.remove(i);
                        assert(skills_view(c.skills@) =~= skills_view(before).remove(i as int));
                    }
                },
                _ => {},
            }
        },
    }
}

/// Where the library files a character skill: its category and type, by
/// the first library skill with its name.
pub fn skill_category_for(skill: &CharacterSkill, app: &App) -> (r: Option<SkillCategory>)
    ensures
        r == (match crate::collections::first_where(app.skill_library@, |d: SkillDefinition| d.name@ == skill.definition_name@) {
            Some(i) => Some(app.skill_library@[i].category),
            None => None,
        }),
{
    match library_index(&app.skill_library, &skill.definition_name) {
        Some(i) => Some(app.skill_library[i].category),
        None => None,
    }
}

/// The type of a character skill, by the first library skill with its name.
pub fn skill_type_for(skill: &CharacterSkill, app: &App) -> (r: Option<SkillType>)
    ensures
        r == (match crate::collections::first_where(app.skill_library@, |d: SkillDefinition| d.name@ == skill.definition_name@) {
            Some(i) => Some(app.skill_library@[i].skill_type),
            None => None,
        }),
{
    match library_index(&app.skill_library, &skill.definition_name) {
        Some(i) => Some(app.skill_library[i].skill_type),
        None => None,
    }
}

/// Index of the first library skill with this name.
fn library_index(lib: &Vec<SkillDefinition>, name: &String) -> (r: Option<usize>)
    ensures
        match r {
            Some(i) => i < lib@.len() && crate::collections::first_where(lib@, |d: SkillDefinition| d.name@ == name@) == Some(i as int),
            None => crate::collections::first_where(lib@, |d: SkillDefinition| d.name@ == name@) is None,
        },
{
    let ghost pred = |d: SkillDefinition| d.name@ == name@;
    let r = crate::collections::position_where(
        lib,
        |d: &SkillDefinition| -> (b: bool)
            ensures b == (d.name@ == name@)
        { d.name == *name },
        Ghost(pred),
    );
    proof {
        crate::collections::lemma_first_where(lib@, pred);
        match r {
            Some(i) => { crate::collections::lemma_first_where_unique(lib@, pred, i as int); },
            None => {},
        }
    }
    r
}

/// The heading a character skill is listed under: 0 active, 1 passive,
/// 2 innate, 3 class. Innate and class skills go by the library category;
/// the rest by type, active when the library lacks the skill.
pub open spec fn skill_group(lib: Seq<SkillDefinition>, name: Seq<char>) -> nat {
    match crate::collections::first_where(lib, |d: SkillDefinition| d.name@ == name) {
        Some(i) => if lib[i].category == SkillCategory::Innate {
            2
        } else if lib[i].category == SkillCategory::Class {
            3
        } else if lib[i].skill_type == SkillType::Passive {
            1
        } else {
            0
        },
        None => 0,
    }
}

/// Indices of the skills listed under heading `g`, in order.
pub open spec fn group_indices(lib: Seq<SkillDefinition>, skills: Seq<CharacterSkill>, g: nat) -> Seq<usize> {
    keep_where(Seq::new(skills.len(), |i: int| i as usize), |i: usize| skill_group(lib, skills[i as int].definition_name@) == g)
}

/// Split the character's skills into the four headings of the panel:
/// active, passive, innate and class, each keeping the skills' order.
pub fn skill_groups(character: &Character, app: &App) -> (r: (Vec<usize>, Vec<usize>, Vec<usize>, Vec<usize>))
    ensures
        r.0@ == group_indices(app.skill_library@, character.skills@, 0),
        r.1@ == group_indices(app.skill_library@, character.skills@, 1),
        r.2@ == group_indices(app.skill_library@, character.skills@, 2),
        r.3@ == group_indices(app.skill_library@, character.skills@, 3),
{
    let ghost lib = app.skill_library@;
    let ghost sk = character.skills@;
    let ghost idx = Seq::new(sk.len(), |i: int| i as usize);
    let mut active: Vec<usize> = Vec::new();
    let mut passive: Vec<usize> = Vec::new();
    let mut innate: Vec<usize> = Vec::new();
    let mut class: Vec<usize> = Vec::new();
    let n = character.skills.len();
    let mut i: usize = 0;
    assert(idx.take(0) =~= Seq::<usize>::empty());
    while i < n
        invariant
            n == sk.len(),
            sk == character.skills@,
            lib == app.skill_library@,
            idx == Seq::new(sk.len(), |i: int| i as usize),
            i <= n,
            active@ == keep_where(idx.take(i as int), |j: usize| skill_group(lib, sk[j as int].definition_name@) == 0),
            passive@ == keep_where(idx.take(i as int), |j: usize| skill_group(lib, sk[j as int].definition_name@) == 1),
            innate@ == keep_where(idx.take(i as int), |j: usize| skill_group(lib, sk[j as int].definition_name@) == 2),
            class@ == keep_where(idx.take(i as int), |j: usize| skill_group(lib, sk[j as int].definition_name@) == 3),
        decreases n - i,
    {
        assert(idx.take(i + 1).drop_last() =~= idx.take(i as int));
        assert(idx.take(i + 1).last() == i);
        let skill = &character.skills[i];
        let cat = skill_category_for(skill, app);
        let stype = skill_type_for(skill, app);
        match cat {
            Some(SkillCategory::Innate) => innate.push(i),
            Some(SkillCategory::Class) => class.push(i),
            _ => match stype {
                Some(SkillType::Passive) => passive.push(i),
                _ => active.push(i),
            },
        }
        i = i + 1;
    }
    assert(idx.take(n as int) =~= idx);
    (active, passive, innate, class)
}

/// The kill entry only ever holds digits: typing other characters is
/// ignored and erasing keeps the rest.
pub proof fn lemma_kill_entry_holds_digits(
    s0: SystemPanelState,
    s1: SystemPanelState,
    key: Key,
    a0: App,
    a1: App,
    action: PanelAction,
)
    requires
        crate::text::all_digits(s0.kill_enemy_level@),
        crate::text::all_digits(s0.kill_count@),
        kill_step(s0, s1, key, a0, a1, action),
    ensures
        crate::text::all_digits(s1.kill_enemy_level@),
        crate::text::all_digits(s1.kill_count@),
{
    assert forall|i: int| 0 <= i < s1.kill_enemy_level@.len() implies is_digit(#[trigger] s1.kill_enemy_level@[i]) by {
        if i < s0.kill_enemy_level@.len() {
            assert(s1.kill_enemy_level@[i] == s0.kill_enemy_level@[i]);
        }
    }
    assert forall|i: int| 0 <= i < s1.kill_count@.len() implies is_digit(#[trigger] s1.kill_count@[i]) by {
        if i < s0.kill_count@.len() {
            assert(s1.kill_count@[i] == s0.kill_count@[i]);
        }
    }
}

/// Every skill's level lies within its rank's cap.
pub open spec fn skills_within_caps(skills: Seq<CharacterSkillView>) -> bool {
    forall|j: int| 0 <= j < skills.len() ==> #[trigger] skills[j].level <= rank_max_level(skills[j].rank)
}

/// Every attribute is at least 1.
pub open spec fn attributes_at_least_one(a: crate::models::attribute::Attributes) -> bool {
    forall|k: AttributeKind| #[trigger] a.value(k) >= 1
}

/// `+` on a row keeps every skill level within its rank's cap, and on an
/// attribute it only moves a point out of the unspent pool: the attributes'
/// total plus the unspent points stay the same.
pub proof fn lemma_increment_keeps_caps_and_points(c: Character, section: Option<Section>, lib: Seq<ClassDefinition>)
    ensures
        skills_within_caps(c@.skills) ==> skills_within_caps(incremented(c, section, lib).0.skills),
        section matches Some(Section::Attribute(_)) ==> ({
            let v = incremented(c, section, lib).0;
            v.attributes.total() + v.unspent_attribute_points == c.attributes.total() + c.unspent_attribute_points
        }),
{
    let v = incremented(c, section, lib).0;
    match section {
        Some(Section::Grade) => {
            match grade_next(c.grade) {
                Some(g) => { assert(graded_up(c, g)@.skills == c@.skills); },
                None => {},
            }
        },
        Some(Section::Level) => {
            if c.level < MAX_LEVEL && level_up_fits(c, lib) {
                assert(leveled(c, lib).skills == c.skills);
                assert(leveled(c, lib)@.skills == c@.skills);
            }
        },
        Some(Section::Skill(i)) => {
            if i < c.skills@.len() && skills_within_caps(c@.skills) {
                let s = c@.skills[i as int];
                assert forall|j: int| 0 <= j < v.skills.len() implies #[trigger] v.skills[j].level <= rank_max_level(v.skills[j].rank) by {
                    if j != i as int {
                        assert(v.skills[j] == c@.skills[j]);
                    }
                }
            }
        },
        _ => {},
    }
}

/// `-` on a row only moves a point from an attribute back into the unspent
/// pool: the attributes' total plus the unspent points stay the same, and
/// no attribute goes below 1 when none was.
pub proof fn lemma_decrement_keeps_points(c: Character, section: Option<Section>)
    ensures
        ({
            let v = decremented(c, section).0;
            &&& v.attributes.total() + v.unspent_attribute_points == c.attributes.total() + c.unspent_attribute_points
            &&& attributes_at_least_one(c.attributes) ==> attributes_at_least_one(v.attributes)
            &&& v.skills == c@.skills
        }),
{
    let v = decremented(c, section).0;
    if attributes_at_least_one(c.attributes) {
        match section {
            Some(Section::Attribute(i)) => {
                let k = attribute_at(i as int);
                assert forall|m: AttributeKind| #[trigger] v.attributes.value(m) >= 1 by {
                    assert(c.attributes.value(m) >= 1);
                }
            },
            _ => {},
        }
    }
}

} // verus!
