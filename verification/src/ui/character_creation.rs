//! Character tab: browse saved characters and create new ones.
//!
//! Default view: the grid of saved characters. `a` (or Enter on the action
//! card) starts a four-step creation wizard: name, attributes (1 to 10 each),
//! an optional innate skill from the library, and confirmation, which creates
//! a Grade G, level 0 character. Files are read and written by the caller, as
//! the returned action asks.
use vstd::prelude::*;
use crate::collections::keep_where;
use crate::models::attribute::{Attributes, clamp_1_10};
use crate::models::character::{Character, CharacterInnateSkill, CharacterInnateSkillView, CharacterView};
use crate::models::grade::Grade;
use crate::models::skill::{SkillCategory, SkillDefinition};
use crate::text::strings_view;
use crate::ui::app::App;
use crate::ui::card_grid::{direction_of, key_direction, navigate_handler_grid, navigated_selection, scrolled_to, handler_columns, handler_rows};
use crate::ui::input::{Key, KeyCode, is_down, is_left, is_right, is_up};

verus! {

/// Steps in the creation wizard.
#[derive(Debug, Clone, Copy, PartialEq, Eq, Structural)]
pub enum CreationStep {
    Name,
    Attributes,
    InnateSkill,
    Confirm,
}

/// Whether we're browsing the character list, running the creation wizard
/// or confirming a deletion.
#[derive(Debug, Clone, Copy, PartialEq, Eq, Structural)]
pub enum Mode {
    List,
    Wizard(CreationStep),
    ConfirmDelete,
}

/// What the caller must do after a key press on this tab.
#[derive(Debug, Clone)]
pub enum CharacterAction {
    /// Nothing.
    Nothing,
    /// Load the named character; when that succeeds, hand it to
    /// `App::open_character`.
    Load(String),
    /// Save the new character, now `app.current_character`, then refresh
    /// the list of saved characters.
    SaveNew,
    /// Delete the named character (if any), then refresh the list and call
    /// `after_delete` with it.
    Delete(Option<String>),
}

/// All state for the Character tab.
pub struct CharacterCreationState {
    pub mode: Mode,
    /// Currently selected card (the last card is the "new character" one).
    pub selected: usize,
    /// Scroll offset for the card grid.
    pub scroll_offset: usize,
    /// Cached list of saved character names.
    pub saved_names: Vec<String>,
    /// Wizard: the name typed so far.
    pub name: String,
    /// Wizard: attribute values, in the order of `AttributeKind::all`.
    pub attribute_values: [u32; 6],
    /// Wizard: the highlighted attribute.
    pub selected_attribute: usize,
    /// Wizard: chosen innate skill, as an index into the library's innate
    /// skills (None = no innate skill).
    pub innate_skill_index: Option<usize>,
    /// Wizard: highlighted line of the innate list (0 = none, then skills).
    pub innate_cursor: usize,
}

/// The names of the library's innate skills, in library order.
pub open spec fn innate_names(lib: Seq<SkillDefinition>) -> Seq<Seq<char>> {
    keep_where(lib, |d: SkillDefinition| d.category == SkillCategory::Innate).map_values(|d: SkillDefinition| d.name@)
}

/// The names of the library's innate skills, in library order.
pub fn innate_skill_names(lib: &Vec<SkillDefinition>) -> (names: Vec<String>)
    ensures
        strings_view(names@) == innate_names(lib@),
{
    let ghost pred = |d: SkillDefinition| d.category == SkillCategory::Innate;
    let ghost f = |d: SkillDefinition| d.name@;
    let mut names: Vec<String> = Vec::new();
    let mut i: usize = 0;
    assert(lib@.take(0) =~= Seq::<SkillDefinition>::empty());
    assert(strings_view(names@) =~= keep_where(lib@.take(0), pred).map_values(f));
    while i < lib.len()
        invariant
            i <= lib@.len(),
            pred == (|d: SkillDefinition| d.category == SkillCategory::Innate),
            f == (|d: SkillDefinition| d.name@),
            strings_view(names@) == keep_where(lib@.take(i as int), pred).map_values(f),
        decreases lib@.len() - i,
    {
        let ghost prev = keep_where(lib@.take(i as int), pred);
        assert(lib@.take(i + 1).drop_last() =~= lib@.take(i as int));
        assert(lib@.take(i + 1).last() == lib@[i as int]);
        let ghost before = names@;
        if lib[i].category == SkillCategory::Innate {
            let n = lib[i].name.clone();
            names.push(n);
            assert(strings_view(before.push(n)) =~= strings_view(before).push(n@));
            assert(prev.push(lib@[i as int]).map_values(f) =~= prev.map_values(f).push(f(lib@[i as int])));
        }
        i = i + 1;
    }
    assert(lib@.take(i as int) =~= lib@);
    names
}

/// The view of a freshly created character: Grade G Human at level 0 with
/// no experience, skills or classes, one class slot.
pub open spec fn new_character_view(name: Seq<char>, attributes: Attributes, innate: Option<CharacterInnateSkillView>) -> CharacterView {
    CharacterView {
        name,
        grade: Grade::G,
        race: "Human"@,
        level: 0,
        xp_bits: 0,
        attributes,
        unspent_attribute_points: 0,
        skills: Seq::empty(),
        innate_skill: innate,
        classes: Seq::empty(),
        class_slots: 1,
        bonus_attribute_points_per_level: 0,
    }
}

/// The attributes the wizard's values give, each clamped to 1 to 10.
pub open spec fn clamped_attributes(v: [u32; 6]) -> Attributes {
    Attributes {
        strength: clamp_1_10(v[0]),
        agility: clamp_1_10(v[1]),
        endurance: clamp_1_10(v[2]),
        intelligence: clamp_1_10(v[3]),
        wisdom: clamp_1_10(v[4]),
        perception: clamp_1_10(v[5]),
    }
}

impl CharacterCreationState {
    /// Bounds the key handlers rely on: a valid highlighted attribute and
    /// counters far from overflow.
    pub open spec fn wf(&self) -> bool {
        &&& self.selected_attribute < 6
        &&& self.saved_names@.len() < usize::MAX / 2
        &&& self.selected < usize::MAX / 2
        &&& self.scroll_offset < usize::MAX / 2
    }

    /// `s1` is this state with a fresh wizard at its first step: empty name,
    /// every attribute at 5, first attribute highlighted, no innate skill.
    pub open spec fn wizard_started(self, s1: Self) -> bool {
        &&& s1 == (CharacterCreationState {
            mode: Mode::Wizard(CreationStep::Name),
            name: s1.name,
            attribute_values: s1.attribute_values,
            selected_attribute: 0,
            innate_skill_index: None,
            innate_cursor: 0,
            ..self
        })
        &&& s1.name@.len() == 0
        &&& s1.attribute_values@ == seq![5u32, 5, 5, 5, 5, 5]
    }

    pub fn new() -> (s: Self)
        ensures
            s.wf(),
            s.mode == Mode::List,
            s.selected == 0,
            s.scroll_offset == 0,
            s.saved_names@.len() == 0,
            s.name@.len() == 0,
            s.attribute_values@ == seq![5u32, 5, 5, 5, 5, 5],
            s.selected_attribute == 0,
            s.innate_skill_index is None,
            s.innate_cursor == 0,
    {
        let s = CharacterCreationState {
            mode: Mode::List,
            selected: 0,
            scroll_offset: 0,
            saved_names: Vec::new(),
            name: String::new(),
            attribute_values: [5; 6],
            selected_attribute: 0,
            innate_skill_index: None,
            innate_cursor: 0,
        };
        assert(s.attribute_values@ =~= seq![5u32, 5, 5, 5, 5, 5]);
        s
    }

    /// Replace the cached list of saved character names.
    pub fn set_saved_names(&mut self, names: Vec<String>)
        requires
            old(self).wf(),
            names@.len() < usize::MAX / 2,
        ensures
            final(self).wf(),
            *final(self) == (CharacterCreationState { saved_names: names, ..*old(self) }),
    {
        self.saved_names = names;
    }

    /// After a deletion: take the refreshed list of names and keep the
    /// selection on a card that still exists.
    pub fn after_delete(&mut self, names: Vec<String>)
        requires
            old(self).wf(),
            names@.len() < usize::MAX / 2,
        ensures
            final(self).wf(),
            final(self).saved_names == names,
            final(self).selected == (if old(self).selected > 0 && old(self).selected >= names@.len() {
                if names@.len() > 0 { (names@.len() - 1) as usize } else { 0 }
            } else {
                old(self).selected
            }),
            *final(self) == (CharacterCreationState { saved_names: names, selected: final(self).selected, ..*old(self) }),
    {
        self.saved_names = names;
        if self.selected > 0 && self.selected >= self.saved_names.len() {
            self.selected = self.saved_names.len().saturating_sub(1);
        }
    }

    /// Clear the wizard fields and start at its first step.
    fn start_wizard(&mut self)
        ensures
            old(self).wizard_started(*final(self)),
    {
        self.name = String::new();
        self.attribute_values = [5; 6];
        assert(self.attribute_values@ =~= seq![5u32, 5, 5, 5, 5, 5]);
        self.selected_attribute = 0;
        self.innate_skill_index = None;
        self.innate_cursor = 0;
        self.mode = Mode::Wizard(CreationStep::Name);
    }

    /// Handle a key press. Navigation, the wizard and deletion change the
    /// state here; files are left to the caller, as the action says.
    pub fn handle_input(&mut self, key: Key, app: &mut App) -> (action: CharacterAction)
        requires
            old(self).wf(),
            old(self).mode == Mode::Wizard(CreationStep::Confirm) && key.code == KeyCode::Enter ==>
                match old(self).innate_skill_index {
                    Some(i) => i < innate_names(old(app).skill_library@).len(),
                    None => true,
                },
        ensures
            final(self).wf(),
            old(self).mode == Mode::List ==> Self::list_step(*old(self), *final(self), key, action) && *final(app) == *old(app),
            old(self).mode is Wizard ==> Self::wizard_step(*old(self), *final(self), key, *old(app), *final(app), action),
            old(self).mode == Mode::ConfirmDelete ==> Self::delete_step(*old(self), *final(self), key, *old(app), *final(app), action),
    {
        match self.mode {
            Mode::List => self.handle_list_input(key),
            Mode::Wizard(step) => self.handle_wizard_input(key, app, step),
            Mode::ConfirmDelete => self.handle_delete_input(key, app),
        }
    }

    /// List mode: navigate the grid (the last card being the action card),
    /// open a character or the wizard, or ask to delete.
    pub open spec fn list_step(s0: Self, s1: Self, key: Key, action: CharacterAction) -> bool {
        let total = s0.saved_names@.len() + 1int;
        match key_direction(key) {
            Some(d) => {
                let sel = navigated_selection(d, s0.selected as int, total, handler_columns());
                &&& action is Nothing
                &&& s1 == (CharacterCreationState {
                    selected: sel as usize,
                    scroll_offset: scrolled_to(sel / handler_columns(), s0.scroll_offset as int, handler_rows()) as usize,
                    ..s0
                })
            },
            None => if key.code == KeyCode::Enter {
                if s0.selected == s0.saved_names@.len() {
                    action is Nothing && s0.wizard_started(s1)
                } else if s0.selected < s0.saved_names@.len() {
                    action matches CharacterAction::Load(n) && n@ == s0.saved_names@[s0.selected as int]@ && s1 == s0
                } else {
                    action is Nothing && s1 == s0
                }
            } else if key.code == KeyCode::Char('a') {
                action is Nothing && s0.wizard_started(s1)
            } else if key.code == KeyCode::Char('d') && s0.selected < s0.saved_names@.len() {
                action is Nothing && s1 == (CharacterCreationState { mode: Mode::ConfirmDelete, ..s0 })
            } else {
                action is Nothing && s1 == s0
            },
        }
    }

    fn handle_list_input(&mut self, key: Key) -> (action: CharacterAction)
        requires
            old(self).wf(),
            old(self).mode == Mode::List,
        ensures
            final(self).wf(),
            Self::list_step(*old(self), *final(self), key, action),
    {
        let total = self.saved_names.len() + 1;
        match direction_of(key) {
            Some(d) => {
                let (sel, scroll) = navigate_handler_grid(d, self.selected, total, self.scroll_offset);
                self.selected = sel;
                self.scroll_offset = scroll;
                return CharacterAction::Nothing;
            },
            None => {},
        }
        match key.code {
            KeyCode::Enter => {
                if self.selected == self.saved_names.len() {
                    self.start_wizard();
                    CharacterAction::Nothing
                } else if self.selected < self.saved_names.len() {
                    CharacterAction::Load(self.saved_names[self.selected].clone())
                } else {
                    CharacterAction::Nothing
                }
            },
            KeyCode::Char('a') => {
                self.start_wizard();
                CharacterAction::Nothing
            },
            KeyCode::Char('d') => {
                if self.selected < self.saved_names.len() {
                    self.mode = Mode::ConfirmDelete;
                }
                CharacterAction::Nothing
            },
            _ => CharacterAction::Nothing,
        }
    }

    /// Wizard steps. Name: type and erase characters, Enter (with a name)
    /// goes on, Esc leaves. Attributes: j/k pick, l/h raise and lower within
    /// 1 to 10, Enter goes on, Esc goes back. Innate skill: j/k move over
    /// "none" and the library's innate skills, Enter records the choice,
    /// Esc goes back. Confirm: Enter creates the character and makes it the
    /// active one, Esc goes back.
    pub open spec fn wizard_step(s0: Self, s1: Self, key: Key, a0: App, a1: App, action: CharacterAction) -> bool {
        let step = s0.mode->Wizard_0;
        let sa = s0.selected_attribute as int;
        match step {
            CreationStep::Name => {
                &&& action is Nothing
                &&& a1 == a0
                &&& s1 == (match key.code {
                    KeyCode::Char(c) => CharacterCreationState { name: s1.name, ..s0 },
                    KeyCode::Backspace => CharacterCreationState { name: s1.name, ..s0 },
                    KeyCode::Enter => if s0.name@.len() > 0 {
                        CharacterCreationState { mode: Mode::Wizard(CreationStep::Attributes), ..s0 }
                    } else {
                        s0
                    },
                    KeyCode::Esc => CharacterCreationState { mode: Mode::List, ..s0 },
                    _ => s0,
                })
                &&& (key.code matches KeyCode::Char(c) ==> s1.name@ == s0.name@.push(c))
                &&& (key.code == KeyCode::Backspace ==> s1.name@ == (if s0.name@.len() > 0 { s0.name@.drop_last() } else { s0.name@ }))
            },
            CreationStep::Attributes => {
                &&& action is Nothing
                &&& a1 == a0
                &&& s1 == (if is_up(key) {
                    CharacterCreationState { selected_attribute: if sa > 0 { (sa - 1) as usize } else { 0 }, ..s0 }
                } else if is_down(key) {
                    CharacterCreationState { selected_attribute: if sa < 5 { (sa + 1) as usize } else { 5 }, ..s0 }
                } else if is_right(key) {
                    if s0.attribute_values[sa] < 10 {
                        CharacterCreationState { attribute_values: s1.attribute_values, ..s0 }
                    } else {
                        s0
                    }
                } else if is_left(key) {
                    if s0.attribute_values[sa] > 1 {
                        CharacterCreationState { attribute_values: s1.attribute_values, ..s0 }
                    } else {
                        s0
                    }
                } else if key.code == KeyCode::Enter {
                    CharacterCreationState { mode: Mode::Wizard(CreationStep::InnateSkill), ..s0 }
                } else if key.code == KeyCode::Esc {
                    CharacterCreationState { mode: Mode::Wizard(CreationStep::Name), ..s0 }
                } else {
                    s0
                })
                &&& (!is_up(key) && !is_down(key) && is_right(key) && s0.attribute_values[sa] < 10 ==>
                    s1.attribute_values@ == s0.attribute_values@.update(sa, (s0.attribute_values[sa] + 1) as u32))
                &&& (!is_up(key) && !is_down(key) && !is_right(key) && is_left(key) && s0.attribute_values[sa] > 1 ==>
                    s1.attribute_values@ == s0.attribute_values@.update(sa, (s0.attribute_values[sa] - 1) as u32))
            },
            CreationStep::InnateSkill => {
                let count = innate_names(a0.skill_library@).len();
                let c = s0.innate_cursor as int;
                &&& action is Nothing
                &&& a1 == a0
                &&& s1 == (if is_up(key) {
                    CharacterCreationState { innate_cursor: if c > 0 { (c - 1) as usize } else { 0 }, ..s0 }
                } else if is_down(key) {
                    CharacterCreationState { innate_cursor: if c < count { (c + 1) as usize } else { s0.innate_cursor }, ..s0 }
                } else if key.code == KeyCode::Enter {
                    CharacterCreationState {
                        innate_skill_index: if c == 0 { None } else { Some((c - 1) as usize) },
                        mode: Mode::Wizard(CreationStep::Confirm),
                        ..s0
                    }
                } else if key.code == KeyCode::Esc {
                    CharacterCreationState { mode: Mode::Wizard(CreationStep::Attributes), ..s0 }
                } else {
                    s0
                })
            },
            CreationStep::Confirm => {
                if key.code == KeyCode::Enter {
                    let innate = match s0.innate_skill_index {
                        Some(i) => Some(CharacterInnateSkillView { name: innate_names(a0.skill_library@)[i as int], level: 1 }),
                        None => None,
                    };
                    &&& action is SaveNew
                    &&& s1 == (CharacterCreationState { mode: Mode::List, ..s0 })
                    &&& a1 == (App { current_character: a1.current_character, ..a0 })
                    &&& a1.current_character matches Some(c)
                        && c@ == new_character_view(s0.name@, clamped_attributes(s0.attribute_values), innate)
                } else if key.code == KeyCode::Esc {
                    action is Nothing && a1 == a0 && s1 == (CharacterCreationState { mode: Mode::Wizard(CreationStep::InnateSkill), ..s0 })
                } else {
                    action is Nothing && a1 == a0 && s1 == s0
                }
            },
        }
    }

    fn handle_wizard_input(&mut self, key: Key, app: &mut App, step: CreationStep) -> (action: CharacterAction)
        requires
            old(self).wf(),
            old(self).mode == Mode::Wizard(step),
            step == CreationStep::Confirm && key.code == KeyCode::Enter ==>
                match old(self).innate_skill_index {
                    Some(i) => i < innate_names(old(app).skill_library@).len(),
                    None => true,
                },
        ensures
            final(self).wf(),
            Self::wizard_step(*old(self), *final(self), key, *old(app), *final(app), action),
    {
        match step {
            CreationStep::Name => {
                match key.code {
                    KeyCode::Char(c) => { self.name.push(c); },
                    KeyCode::Backspace => { self.name.pop(); },
                    KeyCode::Enter => {
                        if !self.name.as_str().is_empty() {
                            self.mode = Mode::Wizard(CreationStep::Attributes);
                        }
                    },
                    KeyCode::Esc => { self.mode = Mode::List; },
                    _ => {},
                }
                CharacterAction::Nothing
            },
            CreationStep::Attributes => {
                let sa = self.selected_attribute;
                if key.code == KeyCode::Up || key.code == KeyCode::Char('k') {
                    if sa > 0 { self.selected_attribute = sa - 1; }
                } else if key.code == KeyCode::Down || key.code == KeyCode::Char('j') {
                    if sa < 5 { self.selected_attribute = sa + 1; }
                } else if key.code == KeyCode::Right || key.code == KeyCode::Char('l') {
                    if self.attribute_values[sa] < 10 {
                        self.attribute_values[sa] = self.attribute_values[sa] + 1;
                    }
                } else if key.code == KeyCode::Left || key.code == KeyCode::Char('h') {
                    if self.attribute_values[sa] > 1 {
                        self.attribute_values[sa] = self.attribute_values[sa] - 1;
                    }
                } else if key.code == KeyCode::Enter {
                    self.mode = Mode::Wizard(CreationStep::InnateSkill);
                } else if key.code == KeyCode::Esc {
                    self.mode = Mode::Wizard(CreationStep::Name);
                }
                CharacterAction::Nothing
            },
            CreationStep::InnateSkill => {
                let names = innate_skill_names(&app.skill_library);
                let count = names.len();
                if key.code == KeyCode::Up || key.code == KeyCode::Char('k') {
                    if self.innate_cursor > 0 { self.innate_cursor = self.innate_cursor - 1; }
                } else if key.code == KeyCode::Down || key.code == KeyCode::Char('j') {
                    if self.innate_cursor < count { self.innate_cursor = self.innate_cursor + 1; }
                } else if key.code == KeyCode::Enter {
                    self.innate_skill_index = if self.innate_cursor == 0 { None } else { Some(self.innate_cursor - 1) };
                    self.mode = Mode::Wizard(CreationStep::Confirm);
                } else if key.code == KeyCode::Esc {
                    self.mode = Mode::Wizard(CreationStep::Attributes);
                }
                CharacterAction::Nothing
            },
            CreationStep::Confirm => {
                match key.code {
                    KeyCode::Enter => {
                        let v = self.attribute_values;
                        let attrs = Attributes::new_clamped(v[0], v[1], v[2], v[3], v[4], v[5]);
                        let innate = match self.innate_skill_index {
                            Some(idx) => {
                                let names = innate_skill_names(&app.skill_library);
                                Some(CharacterInnateSkill { definition_name: names[idx].clone(), level: 1 })
                            },
                            None => None,
                        };
                        let character = Character::new(self.name.clone(), attrs, innate);
                        assert(crate::models::character::skills_view(character.skills@) =~= Seq::empty());
                        assert(crate::models::character::classes_view(character.classes@) =~= Seq::empty());
                        assert(attrs == clamped_attributes(self.attribute_values));
                        app.current_character = Some(character);
                        self.mode = Mode::List;
                        CharacterAction::SaveNew
                    },
                    KeyCode::Esc => {
                        self.mode = Mode::Wizard(CreationStep::InnateSkill);
                        CharacterAction::Nothing
                    },
                    _ => CharacterAction::Nothing,
                }
            },
        }
    }

    /// Delete confirmation: `y` asks to delete the selected character (and
    /// unloads it if it is the active one), `n` or Esc cancels.
    pub open spec fn delete_step(s0: Self, s1: Self, key: Key, a0: App, a1: App, action: CharacterAction) -> bool {
        if key.code == KeyCode::Char('y') {
            &&& s1 == (CharacterCreationState { mode: Mode::List, ..s0 })
            &&& if s0.selected < s0.saved_names@.len() {
                let n = s0.saved_names@[s0.selected as int]@;
                &&& action matches CharacterAction::Delete(Some(m)) && m@ == n
                &&& a1 == (match a0.current_character {
                    Some(c) => if c.name@ == n { App { current_character: None, ..a0 } } else { a0 },
                    None => a0,
                })
            } else {
                action matches CharacterAction::Delete(None) && a1 == a0
            }
        } else if key.code == KeyCode::Char('n') || key.code == KeyCode::Esc {
            action is Nothing && a1 == a0 && s1 == (CharacterCreationState { mode: Mode::List, ..s0 })
        } else {
            action is Nothing && a1 == a0 && s1 == s0
        }
    }

    fn handle_delete_input(&mut self, key: Key, app: &mut App) -> (action: CharacterAction)
        requires
            old(self).wf(),
            old(self).mode == Mode::ConfirmDelete,
        ensures
            final(self).wf(),
            Self::delete_step(*old(self), *final(self), key, *old(app), *final(app), action),
    {
        match key.code {
            KeyCode::Char('y') => {
                self.mode = Mode::List;
                if self.selected < self.saved_names.len() {
                    let name = self.saved_names[self.selected].clone();
                    let unload = match &app.current_character {
                        Some(c) => c.name == name,
                        None => false,
                    };
                    if unload {
                        app.current_character = None;
                    }
                    CharacterAction::Delete(Some(name))
                } else {
                    CharacterAction::Delete(None)
                }
            },
            KeyCode::Char('n') | KeyCode::Esc => {
                self.mode = Mode::List;
                CharacterAction::Nothing
            },
            _ => CharacterAction::Nothing,
        }
    }
}

/// Build a progress bar string: `value` filled blocks, then empty blocks up
/// to `max`. For value 7 and max 10: "███████░░░".
pub fn progress_bar(value: u32, max: u32) -> (s: String)
    ensures
        s@ == Seq::new(value as nat, |_i: int| '\u{2588}') + Seq::new((if max >= value { max - value } else { 0 }) as nat, |_i: int| '\u{2591}'),
{
    let empty = max.saturating_sub(value);
    let mut s = String::new();
    let mut i: u32 = 0;
    while i < value
        invariant
            i <= value,
            s@ == Seq::new(i as nat, |_i: int| '\u{2588}'),
        decreases value - i,
    {
        s.push('\u{2588}');
        assert(s@ =~= Seq::new((i + 1) as nat, |_i: int| '\u{2588}'));
        i = i + 1;
    }
    let ghost filled = s@;
    let mut j: u32 = 0;
    while j < empty
        invariant
            j <= empty,
            s@ == filled + Seq::new(j as nat, |_i: int| '\u{2591}'),
        decreases empty - j,
    {
        s.push('\u{2591}');
        assert(s@ =~= filled + Seq::new((j + 1) as nat, |_i: int| '\u{2591}'));
        j = j + 1;
    }
    s
}

/// Every attribute value lies in 1 to 10.
pub open spec fn attributes_in_range(v: [u32; 6]) -> bool {
    forall|i: int| 0 <= i < 6 ==> 1 <= #[trigger] v[i] <= 10
}

/// The wizard keeps every attribute value in 1 to 10: a fresh wizard starts
/// at 5 and each key press keeps the range.
pub proof fn lemma_wizard_keeps_attributes_in_range(
    s0: CharacterCreationState,
    s1: CharacterCreationState,
    key: Key,
    a0: App,
    a1: App,
    action: CharacterAction,
)
    requires
        s0.wf(),
        s0.mode is Wizard,
        attributes_in_range(s0.attribute_values),
        CharacterCreationState::wizard_step(s0, s1, key, a0, a1, action),
    ensures
        attributes_in_range(s1.attribute_values),
{
    let sa = s0.selected_attribute as int;
    if s0.mode->Wizard_0 == CreationStep::Attributes && !is_up(key) && !is_down(key) {
        assert forall|i: int| 0 <= i < 6 implies 1 <= #[trigger] s1.attribute_values[i] <= 10 by {
            if i != sa {
                assert(s1.attribute_values@[i] == s0.attribute_values@[i]);
            }
        }
    }
}

/// A started wizard has every attribute in 1 to 10.
pub proof fn lemma_started_wizard_in_range(s0: CharacterCreationState, s1: CharacterCreationState)
    requires
        s0.wizard_started(s1),
    ensures
        attributes_in_range(s1.attribute_values),
{
    assert forall|i: int| 0 <= i < 6 implies 1 <= #[trigger] s1.attribute_values[i] <= 10 by {
        assert(s1.attribute_values@[i] == 5);
    }
}

} // verus!
