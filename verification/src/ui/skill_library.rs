//! Skill Library tab: browse, create, edit and delete skill definitions.
//!
//! Default view: the grid of skills, filtered by a search query and by
//! category and type. `a` (or Enter on the action card) opens the skill
//! form, Enter shows a skill, `e` edits it, `d` deletes it after
//! confirmation, `/` edits the search. In the form, Tab cycles the fields,
//! `a` on the effects opens the effect form, Ctrl+S saves. Effect base
//! values are floating point: reading and writing their text is left to
//! the caller, as the action says.
use vstd::prelude::*;
use crate::collections::{index_seq, indices_where, keep_where};
use crate::commands::library::{first_rank_effect_count, skill_lib_view};
use crate::commands::{category_label, category_name, skill_type_name, type_label};
use crate::ui::card_grid::{CardData, truncate_line};
use vstd::utf8::{decode_utf8, encode_utf8, is_char_boundary};
use crate::models::skill::{
    MasteryRank, RankDefinition, RankDefinitionView, SkillCategory, SkillDefinition, SkillDefinitionView, SkillEffect,
    SkillEffectView, SkillType, duplicate_effects, duplicate_ranks, effects_view, ranks_view,
};
use crate::text::{decimal, decimal_text, is_digit, matches_search, parse_u32, parse_u32_spec, search_match};
use crate::ui::app::App;
use crate::ui::card_grid::{direction_of, key_direction, navigate_handler_grid, navigated_selection, scrolled_to, handler_columns, handler_rows};
use crate::ui::input::{Key, KeyCode, is_down, is_left, is_right, is_up};
use crate::ui::profession_library::typed;

verus! {

/// Current mode of the skill library.
#[derive(Debug, Clone, Copy, PartialEq, Eq, Structural)]
pub enum Mode {
    Browse,
    Search,
    ViewDetail,
    SkillForm,
    EffectForm,
    ConfirmDelete,
}

/// Which field is active in the skill form.
#[derive(Debug, Clone, Copy, PartialEq, Eq, Structural)]
pub enum SkillField {
    Name,
    Category,
    Type,
    Description,
    Effects,
}

/// Position of a skill form field, Name being 0.
pub open spec fn skill_field_index(f: SkillField) -> int {
    match f {
        SkillField::Name => 0,
        SkillField::Category => 1,
        SkillField::Type => 2,
        SkillField::Description => 3,
        SkillField::Effects => 4,
    }
}

impl SkillField {
    /// The field after this one, wrapping around.
    pub fn next(self) -> (f: SkillField)
        ensures
            skill_field_index(f) == (skill_field_index(self) + 1) % 5,
    {
        match self {
            SkillField::Name => SkillField::Category,
            SkillField::Category => SkillField::Type,
            SkillField::Type => SkillField::Description,
            SkillField::Description => SkillField::Effects,
            SkillField::Effects => SkillField::Name,
        }
    }

    /// The field before this one, wrapping around.
    pub fn prev(self) -> (f: SkillField)
        ensures
            skill_field_index(f) == (skill_field_index(self) + 4) % 5,
    {
        match self {
            SkillField::Name => SkillField::Effects,
            SkillField::Category => SkillField::Name,
            SkillField::Type => SkillField::Category,
            SkillField::Description => SkillField::Type,
            SkillField::Effects => SkillField::Description,
        }
    }
}

/// Which field is active in the effect form.
#[derive(Debug, Clone, Copy, PartialEq, Eq, Structural)]
pub enum EffectField {
    Name,
    Description,
    BaseValue,
    UnlockLevel,
}

/// Position of an effect form field, Name being 0.
pub open spec fn effect_field_index(f: EffectField) -> int {
    match f {
        EffectField::Name => 0,
        EffectField::Description => 1,
        EffectField::BaseValue => 2,
        EffectField::UnlockLevel => 3,
    }
}

impl EffectField {
    /// The field after this one, wrapping around.
    pub fn next(self) -> (f: EffectField)
        ensures
            effect_field_index(f) == (effect_field_index(self) + 1) % 4,
    {
        match self {
            EffectField::Name => EffectField::Description,
            EffectField::Description => EffectField::BaseValue,
            EffectField::BaseValue => EffectField::UnlockLevel,
            EffectField::UnlockLevel => EffectField::Name,
        }
    }

    /// The field before this one, wrapping around.
    pub fn prev(self) -> (f: EffectField)
        ensures
            effect_field_index(f) == (effect_field_index(self) + 3) % 4,
    {
        match self {
            EffectField::Name => EffectField::UnlockLevel,
            EffectField::Description => EffectField::Name,
            EffectField::BaseValue => EffectField::Description,
            EffectField::UnlockLevel => EffectField::BaseValue,
        }
    }
}

/// Category filter of the list.
#[derive(Debug, Clone, Copy, PartialEq, Eq, Structural)]
pub enum FilterCategory {
    All,
    Acquired,
    Innate,
    Class,
}

/// Type filter of the list.
#[derive(Debug, Clone, Copy, PartialEq, Eq, Structural)]
pub enum FilterType {
    All,
    Active,
    Passive,
}

/// What the caller must do after a key press on this tab.
#[derive(Debug, Clone, Copy, PartialEq, Eq, Structural)]
pub enum SkillAction {
    Nothing,
    /// The skill library changed: write it to disk.
    Save,
    /// Ctrl+S in the effect form with a base value typed: read
    /// `effect_base` as a floating-point number (0.0 when it does not parse)
    /// and hand its bits to `store_effect`.
    StoreEffect,
    /// An effect was loaded into the effect form: write the base value of
    /// the effect at this index as text and hand it to `set_effect_base`.
    ShowEffectBase(usize),
}

/// All state for the Skill Library tab.
pub struct SkillLibraryState {
    pub mode: Mode,
    pub cursor: usize,
    pub search_query: String,
    pub filter_category: FilterCategory,
    pub filter_type: FilterType,
    pub skill_name: String,
    pub skill_category: SkillCategory,
    pub skill_type: SkillType,
    pub skill_description: String,
    pub skill_effects: Vec<SkillEffect>,
    pub skill_ranks: Vec<RankDefinition>,
    pub skill_field: SkillField,
    pub effect_name: String,
    pub effect_desc: String,
    pub effect_base: String,
    pub effect_unlock: String,
    pub effect_field: EffectField,
    /// Library index of the skill being edited (None = a new skill).
    pub editing_index: Option<usize>,
    /// Index of the effect being edited (None = a new effect).
    pub editing_effect_index: Option<usize>,
    /// Highlighted effect in the form's effect list.
    pub effect_cursor: usize,
    /// Scroll offset for the card grid.
    pub scroll_offset: usize,
}

/// Whether a skill passes the search and the filters.
pub open spec fn skill_passes(d: SkillDefinition, query: Seq<char>, fc: FilterCategory, ft: FilterType) -> bool {
    &&& search_match(d.name@, query)
    &&& match fc {
        FilterCategory::All => true,
        FilterCategory::Acquired => d.category == SkillCategory::Acquired,
        FilterCategory::Innate => d.category == SkillCategory::Innate,
        FilterCategory::Class => d.category == SkillCategory::Class,
    }
    &&& match ft {
        FilterType::All => true,
        FilterType::Active => d.skill_type == SkillType::Active,
        FilterType::Passive => d.skill_type == SkillType::Passive,
    }
}

/// Indices of the skills listed, in library order.
pub open spec fn skill_indices(lib: Seq<SkillDefinition>, s: SkillLibraryState) -> Seq<usize> {
    keep_where(index_seq(lib.len()), |i: usize| skill_passes(lib[i as int], s.search_query@, s.filter_category, s.filter_type))
}

/// The skill the form describes: its fields, with its ranks, or a single
/// Novice rank holding the form's effects when it has no ranks but effects.
pub open spec fn form_skill(s: SkillLibraryState) -> SkillDefinitionView {
    let ranks = ranks_view(s.skill_ranks@);
    let effects = effects_view(s.skill_effects@);
    SkillDefinitionView {
        name: s.skill_name@,
        category: s.skill_category,
        skill_type: s.skill_type,
        description: s.skill_description@,
        ranks: if ranks.len() == 0 && effects.len() > 0 {
            seq![RankDefinitionView { rank: MasteryRank::Novice, description: s.skill_description@, effects }]
        } else {
            ranks
        },
    }
}

/// The effect the effect form describes, given the bits of its base value:
/// no name when the name is empty, unlock level 0 when it does not parse.
pub open spec fn form_effect(s: SkillLibraryState, base_bits: u64) -> SkillEffectView {
    SkillEffectView {
        name: if s.effect_name@.len() == 0 { None } else { Some(s.effect_name@) },
        description: s.effect_desc@,
        base_value_bits: base_bits,
        unlock_level: match parse_u32_spec(s.effect_unlock@) { Some(v) => v, None => 0 },
    }
}

/// `s1` is `s0` with an empty skill form on its first field, for a new skill.
pub open spec fn form_reset(s0: SkillLibraryState, s1: SkillLibraryState) -> bool {
    &&& s1 == (SkillLibraryState {
        skill_name: s1.skill_name,
        skill_category: SkillCategory::Acquired,
        skill_type: SkillType::Active,
        skill_description: s1.skill_description,
        skill_effects: s1.skill_effects,
        skill_ranks: s1.skill_ranks,
        skill_field: SkillField::Name,
        editing_index: None,
        mode: s1.mode,
        ..s0
    })
    &&& s1.skill_name@.len() == 0
    &&& s1.skill_description@.len() == 0
    &&& s1.skill_effects@.len() == 0
    &&& s1.skill_ranks@.len() == 0
}

/// `s1` is `s0` with the form holding library skill `i` for editing: its
/// fields, the effects of its first rank, its ranks, on the first field.
pub open spec fn form_loaded(s0: SkillLibraryState, s1: SkillLibraryState, lib: Seq<SkillDefinition>, i: usize) -> bool {
    let d = lib[i as int]@;
    &&& s1 == (SkillLibraryState {
        skill_name: s1.skill_name,
        skill_category: d.category,
        skill_type: d.skill_type,
        skill_description: s1.skill_description,
        skill_effects: s1.skill_effects,
        skill_ranks: s1.skill_ranks,
        skill_field: SkillField::Name,
        editing_index: Some(i),
        mode: Mode::SkillForm,
        ..s0
    })
    &&& s1.skill_name@ == d.name
    &&& s1.skill_description@ == d.description
    &&& effects_view(s1.skill_effects@) == (if d.ranks.len() > 0 { d.ranks[0].effects } else { Seq::empty() })
    &&& ranks_view(s1.skill_ranks@) == d.ranks
}

/// Browse mode: grid moves (the action card last), Enter opens the form on
/// the action card or shows a skill, `a` opens the form, `e` edits the
/// skill under the cursor, `d` asks to delete, `/` edits the search, Esc
/// clears it.
pub open spec fn browse_step(s0: SkillLibraryState, s1: SkillLibraryState, key: Key, lib: Seq<SkillDefinition>) -> bool {
    let idx = skill_indices(lib, s0);
    let n = idx.len();
    match key_direction(key) {
        Some(d) => {
            let sel = navigated_selection(d, s0.cursor as int, n + 1int, handler_columns());
            s1 == (SkillLibraryState {
                cursor: sel as usize,
                scroll_offset: scrolled_to(sel / handler_columns(), s0.scroll_offset as int, handler_rows()) as usize,
                ..s0
            })
        },
        None => if key.code == KeyCode::Enter {
            if s0.cursor == n {
                form_reset(s0, s1) && s1.mode == Mode::SkillForm
            } else if n > 0 {
                s1 == (SkillLibraryState { mode: Mode::ViewDetail, ..s0 })
            } else {
                s1 == s0
            }
        } else if key.code == KeyCode::Char('a') {
            form_reset(s0, s1) && s1.mode == Mode::SkillForm
        } else if key.code == KeyCode::Char('e') {
            if s0.cursor < n { form_loaded(s0, s1, lib, idx[s0.cursor as int]) } else { s1 == s0 }
        } else if key.code == KeyCode::Char('d') {
            if s0.cursor < n { s1 == (SkillLibraryState { mode: Mode::ConfirmDelete, ..s0 }) } else { s1 == s0 }
        } else if key.code == KeyCode::Char('/') {
            s1 == (SkillLibraryState { mode: Mode::Search, ..s0 })
        } else if key.code == KeyCode::Esc {
            if s0.search_query@.len() > 0 {
                s1 == (SkillLibraryState { search_query: s1.search_query, cursor: 0, scroll_offset: 0, ..s0 }) && s1.search_query@.len() == 0
            } else {
                s1 == s0
            }
        } else {
            s1 == s0
        },
    }
}

/// The category after this one in the form's cycle.
pub open spec fn next_category(c: SkillCategory) -> SkillCategory {
    match c {
        SkillCategory::Acquired => SkillCategory::Innate,
        SkillCategory::Innate => SkillCategory::Class,
        SkillCategory::Class => SkillCategory::Acquired,
    }
}

/// The effect form emptied, on its first field, for a new effect.
pub open spec fn effect_form_reset(s0: SkillLibraryState, s1: SkillLibraryState) -> bool {
    &&& s1 == (SkillLibraryState {
        effect_name: s1.effect_name,
        effect_desc: s1.effect_desc,
        effect_base: s1.effect_base,
        effect_unlock: s1.effect_unlock,
        effect_field: EffectField::Name,
        editing_effect_index: None,
        mode: Mode::EffectForm,
        ..s0
    })
    &&& s1.effect_name@.len() == 0
    &&& s1.effect_desc@.len() == 0
    &&& s1.effect_base@.len() == 0
    &&& s1.effect_unlock@.len() == 0
}

/// The skill form. Ctrl+S with a name saves the skill (replacing the one
/// being edited, else appending it) and goes back to browsing from the
/// first card; Tab and Shift+Tab cycle the fields; Esc leaves. Otherwise the
/// field takes the key: text fields are typed into, the category cycles and
/// the type toggles with left/right, and on the effects `a` opens the
/// effect form for a new effect, `e` loads the highlighted one, j/k move and
/// `d` removes the highlighted effect.
pub open spec fn skill_form_step(s0: SkillLibraryState, s1: SkillLibraryState, key: Key, a0: App, a1: App, action: SkillAction) -> bool {
    let ne = s0.skill_effects@.len();
    if key.code == KeyCode::Char('s') && key.ctrl {
        if s0.skill_name@.len() > 0 {
            &&& action == SkillAction::Save
            &&& s1 == (SkillLibraryState { mode: Mode::Browse, cursor: 0, ..s0 })
            &&& a1 == (App { skill_library: a1.skill_library, ..a0 })
            &&& skill_lib_view(a1.skill_library@) == (match s0.editing_index {
                Some(i) => skill_lib_view(a0.skill_library@).update(i as int, form_skill(s0)),
                None => skill_lib_view(a0.skill_library@).push(form_skill(s0)),
            })
        } else {
            action == SkillAction::Nothing && a1 == a0 && s1 == s0
        }
    } else if key.code == KeyCode::Tab {
        action == SkillAction::Nothing && a1 == a0 && s1 == (SkillLibraryState {
            skill_field: s1.skill_field,
            ..s0
        }) && skill_field_index(s1.skill_field) == (if key.shift { (skill_field_index(s0.skill_field) + 4) % 5 } else { (skill_field_index(s0.skill_field) + 1) % 5 })
    } else if key.code == KeyCode::Esc {
        action == SkillAction::Nothing && a1 == a0 && s1 == (SkillLibraryState { mode: Mode::Browse, ..s0 })
    } else {
        &&& a1 == a0
        &&& match s0.skill_field {
            SkillField::Name => action == SkillAction::Nothing
                && s1 == (SkillLibraryState { skill_name: s1.skill_name, ..s0 }) && typed(s0.skill_name@, s1.skill_name@, key),
            SkillField::Category => action == SkillAction::Nothing && s1 == (if is_left(key) || is_right(key) {
                SkillLibraryState { skill_category: next_category(s0.skill_category), ..s0 }
            } else {
                s0
            }),
            SkillField::Type => action == SkillAction::Nothing && s1 == (if is_left(key) || is_right(key) {
                SkillLibraryState {
                    skill_type: if s0.skill_type == SkillType::Active { SkillType::Passive } else { SkillType::Active },
                    ..s0
                }
            } else {
                s0
            }),
            SkillField::Description => action == SkillAction::Nothing
                && s1 == (SkillLibraryState { skill_description: s1.skill_description, ..s0 }) && typed(s0.skill_description@, s1.skill_description@, key),
            SkillField::Effects => effects_list_step(s0, s1, key, action),
        }
    }
}

/// The effects list of the skill form: `a` opens the effect form for a new
/// effect, `e` loads the highlighted one, j/k move, `d` removes the
/// highlighted effect.
pub open spec fn effects_list_step(s0: SkillLibraryState, s1: SkillLibraryState, key: Key, action: SkillAction) -> bool {
    let ne = s0.skill_effects@.len();
    if key.code == KeyCode::Char('a') {
        action == SkillAction::Nothing && effect_form_reset(s0, s1)
    } else if key.code == KeyCode::Char('e') {
        if s0.effect_cursor < ne {
            let e = s0.skill_effects@[s0.effect_cursor as int]@;
            &&& action == SkillAction::ShowEffectBase(s0.effect_cursor)
            &&& s1 == (SkillLibraryState {
                effect_name: s1.effect_name,
                effect_desc: s1.effect_desc,
                effect_unlock: s1.effect_unlock,
                effect_field: EffectField::Name,
                editing_effect_index: Some(s0.effect_cursor),
                mode: Mode::EffectForm,
                ..s0
            })
            &&& s1.effect_name@ == (match e.name { Some(n) => n, None => Seq::empty() })
            &&& s1.effect_desc@ == e.description
            &&& s1.effect_unlock@ == decimal(e.unlock_level as nat)
        } else {
            action == SkillAction::Nothing && s1 == s0
        }
    } else if is_up(key) {
        action == SkillAction::Nothing
            && s1 == (SkillLibraryState { effect_cursor: if s0.effect_cursor > 0 { (s0.effect_cursor - 1) as usize } else { 0 }, ..s0 })
    } else if is_down(key) {
        action == SkillAction::Nothing && s1 == (SkillLibraryState {
            effect_cursor: if ne > 0 && s0.effect_cursor < ne - 1 { (s0.effect_cursor + 1) as usize } else { s0.effect_cursor },
            ..s0
        })
    } else if key.code == KeyCode::Char('d') {
        action == SkillAction::Nothing && if ne > 0 {
            let left = (ne - 1) as int;
            &&& s1 == (SkillLibraryState {
                skill_effects: s1.skill_effects,
                effect_cursor: if s0.effect_cursor > 0 && s0.effect_cursor >= left {
                    (if left > 0 { left - 1 } else { 0 }) as usize
                } else {
                    s0.effect_cursor
                },
                ..s0
            })
            &&& effects_view(s1.skill_effects@) == effects_view(s0.skill_effects@).remove(s0.effect_cursor as int)
        } else {
            s1 == s0
        }
    } else {
        action == SkillAction::Nothing && s1 == s0
    }
}

/// The effect form. Ctrl+S with a base value typed asks the caller to read
/// it (and then `store_effect`); without one it goes back to the skill
/// form. Tab and Shift+Tab cycle the fields, Esc goes back. Name and
/// description take any character, the base value digits and '.', the
/// unlock level digits; Backspace erases.
pub open spec fn effect_form_step(s0: SkillLibraryState, s1: SkillLibraryState, key: Key, action: SkillAction) -> bool {
    if key.code == KeyCode::Char('s') && key.ctrl {
        if s0.effect_base@.len() > 0 {
            action == SkillAction::StoreEffect && s1 == s0
        } else {
            action == SkillAction::Nothing && s1 == (SkillLibraryState { editing_effect_index: None, mode: Mode::SkillForm, ..s0 })
        }
    } else {
        &&& action == SkillAction::Nothing
        &&& if key.code == KeyCode::Tab {
            s1 == (SkillLibraryState { effect_field: s1.effect_field, ..s0 })
                && effect_field_index(s1.effect_field) == (if key.shift { (effect_field_index(s0.effect_field) + 3) % 4 } else { (effect_field_index(s0.effect_field) + 1) % 4 })
        } else if key.code == KeyCode::Esc {
            s1 == (SkillLibraryState { mode: Mode::SkillForm, ..s0 })
        } else {
            match s0.effect_field {
                EffectField::Name => s1 == (SkillLibraryState { effect_name: s1.effect_name, ..s0 }) && typed(s0.effect_name@, s1.effect_name@, key),
                EffectField::Description => s1 == (SkillLibraryState { effect_desc: s1.effect_desc, ..s0 }) && typed(s0.effect_desc@, s1.effect_desc@, key),
                EffectField::BaseValue => s1 == (SkillLibraryState { effect_base: s1.effect_base, ..s0 }) && match key.code {
                    KeyCode::Char(c) => s1.effect_base@ == (if is_digit(c) || c == '.' { s0.effect_base@.push(c) } else { s0.effect_base@ }),
                    _ => typed(s0.effect_base@, s1.effect_base@, key),
                },
                EffectField::UnlockLevel => s1 == (SkillLibraryState { effect_unlock: s1.effect_unlock, ..s0 }) && match key.code {
                    KeyCode::Char(c) => s1.effect_unlock@ == (if is_digit(c) { s0.effect_unlock@.push(c) } else { s0.effect_unlock@ }),
                    _ => typed(s0.effect_unlock@, s1.effect_unlock@, key),
                },
            }
        }
    }
}

/// Delete confirmation: `y` removes the listed skill under the cursor and
/// keeps the cursor within the library; `n` or Esc cancels.
pub open spec fn delete_step(s0: SkillLibraryState, s1: SkillLibraryState, key: Key, a0: App, a1: App, action: SkillAction) -> bool {
    let idx = skill_indices(a0.skill_library@, s0);
    if key.code == KeyCode::Char('y') {
        if s0.cursor < idx.len() {
            let remaining = a0.skill_library@.len() - 1;
            let last = if remaining > 0 { remaining - 1 } else { 0 };
            &&& action == SkillAction::Save
            &&& a1 == (App { skill_library: a1.skill_library, ..a0 })
            &&& a1.skill_library@ == a0.skill_library@.remove(idx[s0.cursor as int] as int)
            &&& s1 == (SkillLibraryState { mode: Mode::Browse, cursor: if s0.cursor <= last { s0.cursor } else { last as usize }, ..s0 })
        } else {
            action == SkillAction::Nothing && a1 == a0 && s1 == (SkillLibraryState { mode: Mode::Browse, ..s0 })
        }
    } else if key.code == KeyCode::Char('n') || key.code == KeyCode::Esc {
        action == SkillAction::Nothing && a1 == a0 && s1 == (SkillLibraryState { mode: Mode::Browse, ..s0 })
    } else {
        action == SkillAction::Nothing && a1 == a0 && s1 == s0
    }
}

/// Edit a text field with a typing key.
fn type_into(s: &mut String, key: Key)
    ensures
        typed(old(s)@, final(s)@, key),
{
    match key.code {
        KeyCode::Char(c) => { s.push(c); },
        KeyCode::Backspace => { s.pop(); },
        _ => {},
    }
}

impl SkillLibraryState {
    /// Bounds the key handlers rely on.
    pub open spec fn wf(&self) -> bool {
        &&& self.cursor < usize::MAX / 2
        &&& self.scroll_offset < usize::MAX / 2
    }

    pub fn new() -> (s: Self)
        ensures
            s.wf(),
            s.mode == Mode::Browse,
            s.cursor == 0,
            s.scroll_offset == 0,
            s.search_query@.len() == 0,
            s.filter_category == FilterCategory::All,
            s.filter_type == FilterType::All,
            s.skill_name@.len() == 0,
            s.skill_category == SkillCategory::Acquired,
            s.skill_type == SkillType::Active,
            s.skill_description@.len() == 0,
            s.skill_effects@.len() == 0,
            s.skill_ranks@.len() == 0,
            s.skill_field == SkillField::Name,
            s.effect_name@.len() == 0,
            s.effect_desc@.len() == 0,
            s.effect_base@.len() == 0,
            s.effect_unlock@.len() == 0,
            s.effect_field == EffectField::Name,
            s.editing_index is None,
            s.editing_effect_index is None,
            s.effect_cursor == 0,
    {
        SkillLibraryState {
            mode: Mode::Browse,
            cursor: 0,
            search_query: String::new(),
            filter_category: FilterCategory::All,
            filter_type: FilterType::All,
            skill_name: String::new(),
            skill_category: SkillCategory::Acquired,
            skill_type: SkillType::Active,
            skill_description: String::new(),
            skill_effects: Vec::new(),
            skill_ranks: Vec::new(),
            skill_field: SkillField::Name,
            effect_name: String::new(),
            effect_desc: String::new(),
            effect_base: String::new(),
            effect_unlock: String::new(),
            effect_field: EffectField::Name,
            editing_index: None,
            editing_effect_index: None,
            effect_cursor: 0,
            scroll_offset: 0,
        }
    }

    /// Whether the forms need Tab for field cycling.
    pub fn wants_tab(&self) -> (b: bool)
        ensures
            b == (self.mode == Mode::SkillForm || self.mode == Mode::EffectForm),
    {
        self.mode == Mode::SkillForm || self.mode == Mode::EffectForm
    }

    /// Indices of the skills that pass the search and the filters.
    pub fn filtered_indices(&self, app: &App) -> (r: Vec<usize>)
        ensures
            r@ == skill_indices(app.skill_library@, *self),
    {
        let q = self.search_query.as_str();
        let fc = self.filter_category;
        let ft = self.filter_type;
        let ghost pred = |d: SkillDefinition| skill_passes(d, self.search_query@, fc, ft);
        let r = indices_where(
            &app.skill_library,
            |d: &SkillDefinition| -> (b: bool)
                ensures b == skill_passes(*d, q@, fc, ft)
            {
                let name_match = matches_search(d.name.as_str(), q);
                let cat_match = match fc {
                    FilterCategory::All => true,
                    FilterCategory::Acquired => d.category == SkillCategory::Acquired,
                    FilterCategory::Innate => d.category == SkillCategory::Innate,
                    FilterCategory::Class => d.category == SkillCategory::Class,
                };
                let type_match = match ft {
                    FilterType::All => true,
                    FilterType::Active => d.skill_type == SkillType::Active,
                    FilterType::Passive => d.skill_type == SkillType::Passive,
                };
                name_match && cat_match && type_match
            },
            Ghost(pred),
        );
        assert((|i: usize| pred(app.skill_library@[i as int]))
            =~= (|i: usize| skill_passes(app.skill_library@[i as int], self.search_query@, self.filter_category, self.filter_type)));
        r
    }

    /// Empty the skill form for a new skill.
    fn reset_skill_form(&mut self)
        ensures
            form_reset(*old(self), *final(self)),
            final(self).mode == old(self).mode,
    {
        self.skill_name.clear();
        self.skill_category = SkillCategory::Acquired;
        self.skill_type = SkillType::Active;
        self.skill_description.clear();
        self.skill_effects.clear();
        self.skill_ranks.clear();
        self.skill_field = SkillField::Name;
        self.editing_index = None;
    }

    /// Open the skill form on library skill `i`.
    fn load_skill_into_form(&mut self, lib: &Vec<SkillDefinition>, i: usize)
        requires
            i < lib@.len(),
        ensures
            form_loaded(*old(self), *final(self), lib@, i),
    {
        let skill = &lib[i];
        self.skill_name = skill.name.clone();
        self.skill_category = skill.category;
        self.skill_type = skill.skill_type;
        self.skill_description = skill.description.clone();
        self.skill_effects = if skill.ranks.len() > 0 { duplicate_effects(&skill.ranks[0].effects) } else { Vec::new() };
        assert(effects_view(self.skill_effects@) =~= (if skill@.ranks.len() > 0 { skill@.ranks[0].effects } else { Seq::empty() }));
        self.skill_ranks = duplicate_ranks(&skill.ranks);
        self.skill_field = SkillField::Name;
        self.editing_index = Some(i);
        self.mode = Mode::SkillForm;
    }

    /// Build the skill the form describes.
    pub fn build_skill(&self) -> (d: SkillDefinition)
        ensures
            d@ == form_skill(*self),
    {
        let mut ranks = duplicate_ranks(&self.skill_ranks);
        if ranks.len() == 0 && self.skill_effects.len() > 0 {
            let rank = RankDefinition {
                rank: MasteryRank::Novice,
                description: self.skill_description.clone(),
                effects: duplicate_effects(&self.skill_effects),
            };
            ranks.push(rank);
            assert(ranks_view(ranks@) =~= seq![rank@]);
        }
        SkillDefinition {
            name: self.skill_name.clone(),
            category: self.skill_category,
            skill_type: self.skill_type,
            description: self.skill_description.clone(),
            ranks,
        }
    }

    /// Write the base value of the effect being loaded into the effect form.
    pub fn set_effect_base(&mut self, text: String)
        ensures
            *final(self) == (SkillLibraryState { effect_base: text, ..*old(self) }),
    {
        self.effect_base = text;
    }

    /// Finish Ctrl+S in the effect form, given the bits of the base value
    /// read from `effect_base`: the effect replaces the one being edited, or
    /// is appended; then back to the skill form.
    pub fn store_effect(&mut self, base_bits: u64)
        requires
            old(self).editing_effect_index matches Some(i) ==> i < old(self).skill_effects@.len(),
        ensures
            effects_view(final(self).skill_effects@) == (match old(self).editing_effect_index {
                Some(i) => effects_view(old(self).skill_effects@).update(i as int, form_effect(*old(self), base_bits)),
                None => effects_view(old(self).skill_effects@).push(form_effect(*old(self), base_bits)),
            }),
            *final(self) == (SkillLibraryState {
                skill_effects: final(self).skill_effects,
                editing_effect_index: None,
                mode: Mode::SkillForm,
                ..*old(self)
            }),
    {
        let name = if self.effect_name.as_str().is_empty() { None } else { Some(self.effect_name.clone()) };
        let unlock = match parse_u32(self.effect_unlock.as_str()) {
            Some(v) => v,
            None => 0,
        };
        let effect = SkillEffect { name, description: self.effect_desc.clone(), base_value_bits: base_bits, unlock_level: unlock };
        let ghost before = self.skill_effects@;
        match self.editing_effect_index {
            Some(i) => {
                self.skill_effects.set(i, effect);
                assert(effects_view(self.skill_effects@) =~= effects_view(before).update(i as int, effect@));
            },
            None => {
                self.skill_effects.push(effect);
                assert(effects_view(self.skill_effects@) =~= effects_view(before).push(effect@));
            },
        }
        self.editing_effect_index = None;
        self.mode = Mode::SkillForm;
    }

    /// Handle a key press.
    pub fn handle_input(&mut self, key: Key, app: &mut App) -> (action: SkillAction)
        requires
            old(self).wf(),
            old(app).skill_library@.len() < usize::MAX / 2,
            old(self).mode == Mode::SkillForm && key.code == KeyCode::Char('s') && key.ctrl ==>
                (old(self).editing_index matches Some(i) ==> i < old(app).skill_library@.len()),
            old(self).mode == Mode::SkillForm && old(self).skill_field == SkillField::Effects && key.code == KeyCode::Char('d')
                && old(self).skill_effects@.len() > 0 ==> old(self).effect_cursor < old(self).skill_effects@.len(),
        ensures
            final(self).wf(),
            old(self).mode == Mode::Browse ==> action == SkillAction::Nothing && *final(app) == *old(app)
                && browse_step(*old(self), *final(self), key, old(app).skill_library@),
            old(self).mode == Mode::Search ==> action == SkillAction::Nothing && *final(app) == *old(app) && if key.code == KeyCode::Enter || key.code == KeyCode::Esc {
                *final(self) == (SkillLibraryState { mode: Mode::Browse, cursor: 0, ..*old(self) })
            } else {
                *final(self) == (SkillLibraryState { search_query: final(self).search_query, ..*old(self) }) && typed(old(self).search_query@, final(self).search_query@, key)
            },
            old(self).mode == Mode::ViewDetail ==> action == SkillAction::Nothing && *final(app) == *old(app) && if key.code == KeyCode::Esc {
                *final(self) == (SkillLibraryState { mode: Mode::Browse, ..*old(self) })
            } else if key.code == KeyCode::Char('e') && old(self).cursor < skill_indices(old(app).skill_library@, *old(self)).len() {
                form_loaded(*old(self), *final(self), old(app).skill_library@, skill_indices(old(app).skill_library@, *old(self))[old(self).cursor as int])
            } else {
                *final(self) == *old(self)
            },
            old(self).mode == Mode::SkillForm ==> skill_form_step(*old(self), *final(self), key, *old(app), *final(app), action),
            old(self).mode == Mode::EffectForm ==> *final(app) == *old(app) && effect_form_step(*old(self), *final(self), key, action),
            old(self).mode == Mode::ConfirmDelete ==> delete_step(*old(self), *final(self), key, *old(app), *final(app), action),
    {
        match self.mode {
            Mode::Browse => {
                self.handle_browse(key, app);
                SkillAction::Nothing
            },
            Mode::Search => {
                match key.code {
                    KeyCode::Enter | KeyCode::Esc => {
                        self.mode = Mode::Browse;
                        self.cursor = 0;
                    },
                    _ => { type_into(&mut self.search_query, key); },
                }
                SkillAction::Nothing
            },
            Mode::ViewDetail => {
                if key.code == KeyCode::Esc {
                    self.mode = Mode::Browse;
                } else if key.code == KeyCode::Char('e') {
                    let indices = self.filtered_indices(app);
                    if self.cursor < indices.len() {
                        let idx = indices[self.cursor];
                        self.open_for_editing(app, idx);
                    }
                }
                SkillAction::Nothing
            },
            Mode::SkillForm => self.handle_skill_form(key, app),
            Mode::EffectForm => self.handle_effect_form(key),
            Mode::ConfirmDelete => self.handle_delete(key, app),
        }
    }

    /// Open the form on a library skill, for editing.
    fn open_for_editing(&mut self, app: &App, idx: usize)
        requires
            exists|k: int| 0 <= k < skill_indices(app.skill_library@, *old(self)).len()
                && skill_indices(app.skill_library@, *old(self))[k] == idx,
        ensures
            form_loaded(*old(self), *final(self), app.skill_library@, idx),
    {
        proof {
            crate::collections::lemma_keep_where_members(
                index_seq(app.skill_library@.len()),
                |i: usize| skill_passes(app.skill_library@[i as int], old(self).search_query@, old(self).filter_category, old(self).filter_type),
            );
        }
        self.reset_skill_form();
        self.load_skill_into_form(&app.skill_library, idx);
    }

    fn handle_browse(&mut self, key: Key, app: &App)
        requires
            old(self).wf(),
            app.skill_library@.len() < usize::MAX / 2,
        ensures
            final(self).wf(),
            browse_step(*old(self), *final(self), key, app.skill_library@),
    {
        let indices = self.filtered_indices(app);
        proof {
            crate::collections::lemma_keep_where_len(
                index_seq(app.skill_library@.len()),
                |i: usize| skill_passes(app.skill_library@[i as int], self.search_query@, self.filter_category, self.filter_type),
            );
        }
        let n = indices.len();
        match direction_of(key) {
            Some(d) => {
                let (sel, scroll) = navigate_handler_grid(d, self.cursor, n + 1, self.scroll_offset);
                self.cursor = sel;
                self.scroll_offset = scroll;
                return;
            },
            None => {},
        }
        match key.code {
            KeyCode::Enter => {
                if self.cursor == n {
                    self.reset_skill_form();
                    self.mode = Mode::SkillForm;
                } else if n > 0 {
                    self.mode = Mode::ViewDetail;
                }
            },
            KeyCode::Char('a') => {
                self.reset_skill_form();
                self.mode = Mode::SkillForm;
            },
            KeyCode::Char('e') => {
                if self.cursor < n {
                    let idx = indices[self.cursor];
                    self.open_for_editing(app, idx);
                }
            },
            KeyCode::Char('d') => {
                if self.cursor < n {
                    self.mode = Mode::ConfirmDelete;
                }
            },
            KeyCode::Char('/') => {
                self.mode = Mode::Search;
            },
            KeyCode::Esc => {
                if !self.search_query.as_str().is_empty() {
                    self.search_query.clear();
                    self.cursor = 0;
                    self.scroll_offset = 0;
                }
            },
            _ => {},
        }
    }

    fn handle_skill_form(&mut self, key: Key, app: &mut App) -> (action: SkillAction)
        requires
            old(self).wf(),
            old(self).mode == Mode::SkillForm,
            key.code == KeyCode::Char('s') && key.ctrl ==> (old(self).editing_index matches Some(i) ==> i < old(app).skill_library@.len()),
            old(self).skill_field == SkillField::Effects && key.code == KeyCode::Char('d')
                && old(self).skill_effects@.len() > 0 ==> old(self).effect_cursor < old(self).skill_effects@.len(),
        ensures
            final(self).wf(),
            skill_form_step(*old(self), *final(self), key, *old(app), *final(app), action),
    {
        if key.code == KeyCode::Char('s') && key.ctrl {
            if !self.skill_name.as_str().is_empty() {
                let skill = self.build_skill();
                let ghost before = app.skill_library@;
                match self.editing_index {
                    Some(idx) => {
                        app.skill_library.set(idx, skill);
                        assert(skill_lib_view(app.skill_library@) =~= skill_lib_view(before).update(idx as int, skill@));
                    },
                    None => {
                        app.skill_library.push(skill);
                        assert(skill_lib_view(app.skill_library@) =~= skill_lib_view(before).push(skill@));
                    },
                }
                self.mode = Mode::Browse;
                self.cursor = 0;
                return SkillAction::Save;
            }
            return SkillAction::Nothing;
        }
        if key.code == KeyCode::Tab {
            self.skill_field = if key.shift { self.skill_field.prev() } else { self.skill_field.next() };
            return SkillAction::Nothing;
        }
        if key.code == KeyCode::Esc {
            self.mode = Mode::Browse;
            return SkillAction::Nothing;
        }
        match self.skill_field {
            SkillField::Name => {
                type_into(&mut self.skill_name, key);
                SkillAction::Nothing
            },
            SkillField::Category => {
                if key.code == KeyCode::Left || key.code == KeyCode::Char('h') || key.code == KeyCode::Right || key.code == KeyCode::Char('l') {
                    self.skill_category = match self.skill_category {
                        SkillCategory::Acquired => SkillCategory::Innate,
                        SkillCategory::Innate => SkillCategory::Class,
                        SkillCategory::Class => SkillCategory::Acquired,
                    };
                }
                SkillAction::Nothing
            },
            SkillField::Type => {
                if key.code == KeyCode::Left || key.code == KeyCode::Char('h') || key.code == KeyCode::Right || key.code == KeyCode::Char('l') {
                    self.skill_type = match self.skill_type {
                        SkillType::Active => SkillType::Passive,
                        SkillType::Passive => SkillType::Active,
                    };
                }
                SkillAction::Nothing
            },
            SkillField::Description => {
                type_into(&mut self.skill_description, key);
                SkillAction::Nothing
            },
            SkillField::Effects => self.handle_effects_list(key),
        }
    }

    fn handle_effects_list(&mut self, key: Key) -> (action: SkillAction)
        requires
            old(self).wf(),
            old(self).mode == Mode::SkillForm,
            old(self).skill_field == SkillField::Effects,
            !(key.code == KeyCode::Char('s') && key.ctrl),
            key.code != KeyCode::Tab,
            key.code != KeyCode::Esc,
            key.code == KeyCode::Char('d') && old(self).skill_effects@.len() > 0 ==> old(self).effect_cursor < old(self).skill_effects@.len(),
        ensures
            final(self).wf(),
            effects_list_step(*old(self), *final(self), key, action),
    {
        let ne = self.skill_effects.len();
        if key.code == KeyCode::Char('a') {
            self.effect_name.clear();
            self.effect_desc.clear();
            self.effect_base.clear();
            self.effect_unlock.clear();
            self.effect_field = EffectField::Name;
            self.editing_effect_index = None;
            self.mode = Mode::EffectForm;
            SkillAction::Nothing
        } else if key.code == KeyCode::Char('e') {
            if self.effect_cursor < ne {
                let i = self.effect_cursor;
                let name = match &self.skill_effects[i].name {
                    Some(n) => n.clone(),
                    None => String::new(),
                };
                let desc = self.skill_effects[i].description.clone();
                let unlock = decimal_text(self.skill_effects[i].unlock_level as u64);
                self.effect_name = name;
                self.effect_desc = desc;
                self.effect_unlock = unlock;
                self.effect_field = EffectField::Name;
                self.editing_effect_index = Some(i);
                self.mode = Mode::EffectForm;
                SkillAction::ShowEffectBase(i)
            } else {
                SkillAction::Nothing
            }
        } else if key.code == KeyCode::Up || key.code == KeyCode::Char('k') {
            if self.effect_cursor > 0 { self.effect_cursor = self.effect_cursor - 1; }
            SkillAction::Nothing
        } else if key.code == KeyCode::Down || key.code == KeyCode::Char('j') {
            if ne > 0 && self.effect_cursor < ne - 1 { self.effect_cursor = self.effect_cursor + 1; }
            SkillAction::Nothing
        } else if key.code == KeyCode::Char('d') {
            if ne > 0 {
                let ghost before = self.skill_effects@;
                self.skill_effects.remove(self.effect_cursor);
                assert(effects_view(self.skill_effects@) =~= effects_view(before).remove(old(self).effect_cursor as int));
                let left = self.skill_effects.len();
                if self.effect_cursor > 0 && self.effect_cursor >= left {
                    self.effect_cursor = if left > 0 { left - 1 } else { 0 };
                }
            }
            SkillAction::Nothing
        } else {
            SkillAction::Nothing
        }
    }

    fn handle_effect_form(&mut self, key: Key) -> (action: SkillAction)
        requires
            old(self).wf(),
            old(self).mode == Mode::EffectForm,
        ensures
            final(self).wf(),
            effect_form_step(*old(self), *final(self), key, action),
    {
        if key.code == KeyCode::Char('s') && key.ctrl {
            if !self.effect_base.as_str().is_empty() {
                return SkillAction::StoreEffect;
            }
            self.editing_effect_index = None;
            self.mode = Mode::SkillForm;
            return SkillAction::Nothing;
        }
        if key.code == KeyCode::Tab {
            self.effect_field = if key.shift { self.effect_field.prev() } else { self.effect_field.next() };
            return SkillAction::Nothing;
        }
        if key.code == KeyCode::Esc {
            self.mode = Mode::SkillForm;
            return SkillAction::Nothing;
        }
        match self.effect_field {
            EffectField::Name => { type_into(&mut self.effect_name, key); },
            EffectField::Description => { type_into(&mut self.effect_desc, key); },
            EffectField::BaseValue => {
                match key.code {
                    KeyCode::Char(c) => {
                        if ('0' <= c && c <= '9') || c == '.' {
                            self.effect_base.push(c);
                        }
                    },
                    _ => { type_into(&mut self.effect_base, key); },
                }
            },
            EffectField::UnlockLevel => {
                match key.code {
                    KeyCode::Char(c) => {
                        if '0' <= c && c <= '9' {
                            self.effect_unlock.push(c);
                        }
                    },
                    _ => { type_into(&mut self.effect_unlock, key); },
                }
            },
        }
        SkillAction::Nothing
    }

    fn handle_delete(&mut self, key: Key, app: &mut App) -> (action: SkillAction)
        requires
            old(self).wf(),
            old(self).mode == Mode::ConfirmDelete,
        ensures
            final(self).wf(),
            delete_step(*old(self), *final(self), key, *old(app), *final(app), action),
    {
        match key.code {
            KeyCode::Char('y') => {
                let indices = self.filtered_indices(app);
                self.mode = Mode::Browse;
                if self.cursor < indices.len() {
                    let idx = indices[self.cursor];
                    proof {
                        crate::collections::lemma_keep_where_members(
                            index_seq(app.skill_library@.len()),
                            |i: usize| skill_passes(app.skill_library@[i as int], self.search_query@, self.filter_category, self.filter_type),
                        );
                    }
                    app.skill_library.remove(idx);
                    let last = app.skill_library.len().saturating_sub(1);
                    if self.cursor > last {
                        self.cursor = last;
                    }
                    SkillAction::Save
                } else {
                    SkillAction::Nothing
                }
            },
            KeyCode::Char('n') | KeyCode::Esc => {
                self.mode = Mode::Browse;
                SkillAction::Nothing
            },
            _ => SkillAction::Nothing,
        }
    }
}

/// Editing an effect and saving it unchanged gives back the same effect:
/// `e` loads the highlighted effect into the effect form, and storing the
/// form with the effect's base value bits rebuilds it (for an effect whose
/// name, if any, is not empty).
pub proof fn lemma_effect_edit_round_trip(s0: SkillLibraryState, s1: SkillLibraryState, key: Key, action: SkillAction)
    requires
        key.code == KeyCode::Char('e'),
        s0.effect_cursor < s0.skill_effects@.len(),
        effects_list_step(s0, s1, key, action),
        s0.skill_effects@[s0.effect_cursor as int]@.name != Some(Seq::<char>::empty()),
    ensures
        form_effect(s1, s0.skill_effects@[s0.effect_cursor as int].base_value_bits) == s0.skill_effects@[s0.effect_cursor as int]@,
{
    let e = s0.skill_effects@[s0.effect_cursor as int];
    crate::text::lemma_decimal_parses_back(e.unlock_level);
    assert(s1.effect_name@ == (match e@.name { Some(n) => n, None => Seq::<char>::empty() }));
    match e@.name {
        Some(n) => { if n.len() == 0 { assert(n =~= Seq::<char>::empty()); } },
        None => {},
    }
    assert(form_effect(s1, e.base_value_bits).name == e@.name);
}

/// With an empty search and no filters every skill is listed, in order.
pub proof fn lemma_unfiltered_lists_all(lib: Seq<SkillDefinition>, s: SkillLibraryState)
    requires
        s.search_query@.len() == 0,
        s.filter_category == FilterCategory::All,
        s.filter_type == FilterType::All,
    ensures
        skill_indices(lib, s) == index_seq(lib.len()),
{
    crate::collections::lemma_keep_where_len(index_seq(lib.len()), |i: usize| skill_passes(lib[i as int], s.search_query@, s.filter_category, s.filter_type));
}

/// A description is cut to 21 bytes and "..." on a card when longer than
/// 24 bytes; the cut must fall on a character boundary.
pub open spec fn skill_description_fits(d: SkillDefinition) -> bool {
    encode_utf8(d.description@).len() > 24 ==> is_char_boundary(encode_utf8(d.description@), 21)
}

/// The effect count line of a card: "1 effect", else "<n> effects".
pub open spec fn effect_count_text(n: nat) -> Seq<char> {
    if n == 1 { "1 effect"@ } else { decimal(n) + " effects"@ }
}

/// The card of a skill: its name, then "<type> | <category>", the number of
/// effects of its first rank and its description cut to the card.
pub open spec fn skill_card(card: CardData, d: SkillDefinition) -> bool {
    let bytes = encode_utf8(d.description@);
    let count: nat = if d@.ranks.len() > 0 { d@.ranks[0].effects.len() } else { 0 };
    &&& card.title@ == d.name@
    &&& !card.is_action
    &&& card.lines@.len() == 3
    &&& card.lines@[0]@ == type_label(d.skill_type) + " | "@ + category_label(d.category)
    &&& card.lines@[1]@ == effect_count_text(count)
    &&& card.lines@[2]@ == (if bytes.len() <= 24 { d.description@ } else { decode_utf8(bytes.subrange(0, 21)) + "..."@ })
}

impl SkillLibraryState {
    /// Card data for the listed skills, with a "+ New Skill" action card last.
    pub fn build_skill_cards(skills: &[SkillDefinition], indices: &[usize]) -> (cards: Vec<CardData>)
        requires
            forall|k: int| 0 <= k < indices@.len() ==> (#[trigger] indices@[k]) < skills@.len(),
            forall|k: int| 0 <= k < indices@.len() ==> skill_description_fits(#[trigger] skills@[indices@[k] as int]),
        ensures
            cards@.len() == indices@.len() + 1,
            forall|k: int| 0 <= k < indices@.len() ==> skill_card(#[trigger] cards@[k], skills@[indices@[k] as int]),
            cards@[indices@.len() as int].title@ == "+ New Skill"@,
            cards@[indices@.len() as int].lines@.len() == 0,
            cards@[indices@.len() as int].is_action,
    {
        let mut cards: Vec<CardData> = Vec::new();
        let mut k: usize = 0;
        while k < indices.len()
            invariant
                k <= indices@.len(),
                forall|m: int| 0 <= m < indices@.len() ==> (#[trigger] indices@[m]) < skills@.len(),
                forall|m: int| 0 <= m < indices@.len() ==> skill_description_fits(#[trigger] skills@[indices@[m] as int]),
                cards@.len() == k,
                forall|m: int| 0 <= m < k ==> skill_card(#[trigger] cards@[m], skills@[indices@[m] as int]),
            decreases indices@.len() - k,
        {
            let d = &skills[indices[k]];
            let mut kind = skill_type_name(d.skill_type);
            kind.append(" | ");
            let cat = category_name(d.category);
            kind.append(cat.as_str());
            let count = first_rank_effect_count(d);
            let effects = if count == 1 {
                "1 effect".to_owned()
            } else {
                let mut t = decimal_text(count as u64);
                t.append(" effects");
                t
            };
            let mut lines: Vec<String> = Vec::new();
            lines.push(kind);
            lines.push(effects);
            lines.push(truncate_line(d.description.as_str(), 24));
            cards.push(CardData { title: d.name.clone(), lines, is_action: false });
            k = k + 1;
        }
        cards.push(CardData { title: "+ New Skill".to_owned(), lines: Vec::new(), is_action: true });
        cards
    }
}

} // verus!
