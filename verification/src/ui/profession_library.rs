//! Profession Library tab: browse, create and delete profession definitions.
//!
//! Default view: the grid of professions, filtered by a search query. `a`
//! (or Enter on the action card) starts a creation wizard, Enter shows a
//! profession, `d` deletes it after confirmation, `/` edits the search.
//! Writing the library to disk is left to the caller, as the action says.
use vstd::prelude::*;
use crate::collections::{index_seq, indices_where, keep_where};
use crate::models::profession::{ProfessionDefinition, ProfessionDefinitionView};
use crate::text::{clone_strings, decimal, decimal_text, matches_search, search_match, strings_view};
use vstd::utf8::{decode_utf8, encode_utf8, is_char_boundary};
use crate::ui::app::App;
use crate::ui::card_grid::{CardData, direction_of, key_direction, navigate_handler_grid, navigated_selection, scrolled_to, handler_columns, handler_rows, truncate_line};
use crate::ui::input::{Key, KeyCode};

verus! {

/// Steps in the profession creation wizard.
#[derive(Debug, Clone, Copy, PartialEq, Eq, Structural)]
pub enum WizardStep {
    Name,
    Description,
    Skills,
    Passive,
    Confirm,
}

/// Current mode of the profession library.
#[derive(Debug, Clone, Copy, PartialEq, Eq, Structural)]
pub enum Mode {
    Browse,
    Search,
    ViewDetail,
    Wizard(WizardStep),
    ConfirmDelete,
}

/// What the caller must do after a key press on this tab.
#[derive(Debug, Clone, Copy, PartialEq, Eq, Structural)]
pub enum ProfessionAction {
    Nothing,
    /// The profession library changed: write it to disk.
    Save,
}

/// State for the profession creation wizard.
pub struct ProfessionWizard {
    pub name: String,
    pub description: String,
    /// The skill name being typed.
    pub skills_input: String,
    /// Skill names entered so far.
    pub skills: Vec<String>,
    pub passive_name: String,
    pub passive_description: String,
}

/// All state for the Profession Library tab.
pub struct ProfessionLibraryState {
    pub mode: Mode,
    pub cursor: usize,
    pub scroll_offset: usize,
    pub search_query: String,
    pub wizard: ProfessionWizard,
}

impl ProfessionWizard {
    pub open spec fn is_empty(&self) -> bool {
        &&& self.name@.len() == 0
        &&& self.description@.len() == 0
        &&& self.skills_input@.len() == 0
        &&& self.skills@.len() == 0
        &&& self.passive_name@.len() == 0
        &&& self.passive_description@.len() == 0
    }

    /// The profession the wizard describes.
    pub open spec fn definition(&self) -> ProfessionDefinitionView {
        ProfessionDefinitionView {
            name: self.name@,
            description: self.description@,
            skills: strings_view(self.skills@),
            passive_name: self.passive_name@,
            passive_description: self.passive_description@,
        }
    }

    pub fn new() -> (w: Self)
        ensures
            w.is_empty(),
    {
        ProfessionWizard {
            name: String::new(),
            description: String::new(),
            skills_input: String::new(),
            skills: Vec::new(),
            passive_name: String::new(),
            passive_description: String::new(),
        }
    }

    /// Build a profession definition from the wizard's fields.
    pub fn build(&self) -> (p: ProfessionDefinition)
        ensures
            p@ == self.definition(),
    {
        ProfessionDefinition {
            name: self.name.clone(),
            description: self.description.clone(),
            skills: clone_strings(&self.skills),
            passive_name: self.passive_name.clone(),
            passive_description: self.passive_description.clone(),
        }
    }
}

/// A description is cut to 21 bytes and "..." on a card when longer than
/// 24 bytes; the cut must fall on a character boundary.
pub open spec fn description_fits(p: ProfessionDefinition) -> bool {
    encode_utf8(p.description@).len() > 24 ==> is_char_boundary(encode_utf8(p.description@), 21)
}

/// The card of a profession: its name, then "<n> base skills" and its
/// description cut to the card.
pub open spec fn profession_card(card: CardData, p: ProfessionDefinition) -> bool {
    let bytes = encode_utf8(p.description@);
    &&& card.title@ == p.name@
    &&& !card.is_action
    &&& card.lines@.len() == 2
    &&& card.lines@[0]@ == decimal(p.skills@.len()) + " base skills"@
    &&& card.lines@[1]@ == (if bytes.len() <= 24 { p.description@ } else { decode_utf8(bytes.subrange(0, 21)) + "..."@ })
}

/// Indices of the professions whose names pass the search, in order.
pub open spec fn profession_indices(lib: Seq<ProfessionDefinition>, query: Seq<char>) -> Seq<usize> {
    keep_where(index_seq(lib.len()), |i: usize| search_match(lib[i as int].name@, query))
}

/// A text field edited by typing: characters are appended, Backspace
/// removes the last one.
pub open spec fn typed(before: Seq<char>, after: Seq<char>, key: Key) -> bool {
    match key.code {
        KeyCode::Char(c) => after == before.push(c),
        KeyCode::Backspace => after == (if before.len() > 0 { before.drop_last() } else { before }),
        _ => after == before,
    }
}

/// Browse mode: grid moves (the action card last), Enter opens the wizard
/// on the action card or the detail view on a profession, `a` opens the
/// wizard, `d` asks to delete, `/` edits the search, Esc clears it.
pub open spec fn browse_step(s0: ProfessionLibraryState, s1: ProfessionLibraryState, key: Key, lib: Seq<ProfessionDefinition>) -> bool {
    let n = profession_indices(lib, s0.search_query@).len();
    match key_direction(key) {
        Some(d) => {
            let sel = navigated_selection(d, s0.cursor as int, n + 1int, handler_columns());
            s1 == (ProfessionLibraryState {
                cursor: sel as usize,
                scroll_offset: scrolled_to(sel / handler_columns(), s0.scroll_offset as int, handler_rows()) as usize,
                ..s0
            })
        },
        None => if key.code == KeyCode::Enter {
            if s0.cursor == n {
                s1 == (ProfessionLibraryState { mode: Mode::Wizard(WizardStep::Name), wizard: s1.wizard, ..s0 }) && s1.wizard.is_empty()
            } else if n > 0 {
                s1 == (ProfessionLibraryState { mode: Mode::ViewDetail, ..s0 })
            } else {
                s1 == s0
            }
        } else if key.code == KeyCode::Char('a') {
            s1 == (ProfessionLibraryState { mode: Mode::Wizard(WizardStep::Name), wizard: s1.wizard, ..s0 }) && s1.wizard.is_empty()
        } else if key.code == KeyCode::Char('d') {
            if s0.cursor < n {
                s1 == (ProfessionLibraryState { mode: Mode::ConfirmDelete, ..s0 })
            } else {
                s1 == s0
            }
        } else if key.code == KeyCode::Char('/') {
            s1 == (ProfessionLibraryState { mode: Mode::Search, ..s0 })
        } else if key.code == KeyCode::Esc {
            if s0.search_query@.len() > 0 {
                s1 == (ProfessionLibraryState { search_query: s1.search_query, cursor: 0, scroll_offset: 0, ..s0 }) && s1.search_query@.len() == 0
            } else {
                s1 == s0
            }
        } else {
            s1 == s0
        },
    }
}

/// Search mode: typing edits the query; Enter or Esc goes back to browsing
/// from the first card.
pub open spec fn search_step(s0: ProfessionLibraryState, s1: ProfessionLibraryState, key: Key) -> bool {
    if key.code == KeyCode::Enter || key.code == KeyCode::Esc {
        s1 == (ProfessionLibraryState { mode: Mode::Browse, cursor: 0, scroll_offset: 0, ..s0 })
    } else {
        s1 == (ProfessionLibraryState { search_query: s1.search_query, ..s0 }) && typed(s0.search_query@, s1.search_query@, key)
    }
}

/// The wizard: name, description (Enter goes on once the field is not
/// empty), skills (Enter adds the typed name, Ctrl+N goes on), passive
/// name, then confirmation, where Enter adds the profession to the library.
/// Esc goes one step back (from the name, back to browsing).
pub open spec fn wizard_step(s0: ProfessionLibraryState, s1: ProfessionLibraryState, key: Key, a0: App, a1: App, action: ProfessionAction) -> bool {
    let w0 = s0.wizard;
    let w1 = s1.wizard;
    match s0.mode->Wizard_0 {
        WizardStep::Name => action == ProfessionAction::Nothing && a1 == a0 && if key.code == KeyCode::Enter {
            s1 == (if w0.name@.len() > 0 { ProfessionLibraryState { mode: Mode::Wizard(WizardStep::Description), ..s0 } } else { s0 })
        } else if key.code == KeyCode::Esc {
            s1 == (ProfessionLibraryState { mode: Mode::Browse, ..s0 })
        } else {
            s1 == (ProfessionLibraryState { wizard: ProfessionWizard { name: w1.name, ..w0 }, ..s0 }) && typed(w0.name@, w1.name@, key)
        },
        WizardStep::Description => action == ProfessionAction::Nothing && a1 == a0 && if key.code == KeyCode::Enter {
            s1 == (if w0.description@.len() > 0 { ProfessionLibraryState { mode: Mode::Wizard(WizardStep::Skills), ..s0 } } else { s0 })
        } else if key.code == KeyCode::Esc {
            s1 == (ProfessionLibraryState { mode: Mode::Wizard(WizardStep::Name), ..s0 })
        } else {
            s1 == (ProfessionLibraryState { wizard: ProfessionWizard { description: w1.description, ..w0 }, ..s0 }) && typed(w0.description@, w1.description@, key)
        },
        WizardStep::Skills => action == ProfessionAction::Nothing && a1 == a0 && if key.code == KeyCode::Char('n') && key.ctrl {
            s1 == (ProfessionLibraryState { mode: Mode::Wizard(WizardStep::Passive), ..s0 })
        } else if key.code == KeyCode::Enter {
            if w0.skills_input@.len() > 0 {
                &&& s1 == (ProfessionLibraryState { wizard: ProfessionWizard { skills: w1.skills, skills_input: w1.skills_input, ..w0 }, ..s0 })
                &&& strings_view(w1.skills@) == strings_view(w0.skills@).push(w0.skills_input@)
                &&& w1.skills_input@.len() == 0
            } else {
                s1 == s0
            }
        } else if key.code == KeyCode::Esc {
            s1 == (ProfessionLibraryState { mode: Mode::Wizard(WizardStep::Description), ..s0 })
        } else {
            s1 == (ProfessionLibraryState { wizard: ProfessionWizard { skills_input: w1.skills_input, ..w0 }, ..s0 }) && typed(w0.skills_input@, w1.skills_input@, key)
        },
        WizardStep::Passive => action == ProfessionAction::Nothing && a1 == a0 && if key.code == KeyCode::Enter {
            s1 == (if w0.passive_name@.len() > 0 { ProfessionLibraryState { mode: Mode::Wizard(WizardStep::Confirm), ..s0 } } else { s0 })
        } else if key.code == KeyCode::Esc {
            s1 == (ProfessionLibraryState { mode: Mode::Wizard(WizardStep::Skills), ..s0 })
        } else {
            s1 == (ProfessionLibraryState { wizard: ProfessionWizard { passive_name: w1.passive_name, ..w0 }, ..s0 }) && typed(w0.passive_name@, w1.passive_name@, key)
        },
        WizardStep::Confirm => if key.code == KeyCode::Enter {
            &&& action == ProfessionAction::Save
            &&& s1 == (ProfessionLibraryState { mode: Mode::Browse, cursor: 0, scroll_offset: 0, ..s0 })
            &&& a1 == (App { profession_library: a1.profession_library, ..a0 })
            &&& a1.profession_library@.len() == a0.profession_library@.len() + 1
            &&& a1.profession_library@.drop_last() == a0.profession_library@
            &&& a1.profession_library@.last()@ == w0.definition()
        } else if key.code == KeyCode::Esc {
            action == ProfessionAction::Nothing && a1 == a0 && s1 == (ProfessionLibraryState { mode: Mode::Wizard(WizardStep::Passive), ..s0 })
        } else {
            action == ProfessionAction::Nothing && a1 == a0 && s1 == s0
        },
    }
}

/// Delete confirmation: `y` removes the profession under the cursor (among
/// those that pass the search) and keeps the cursor within the library;
/// `n` or Esc cancels.
pub open spec fn delete_step(s0: ProfessionLibraryState, s1: ProfessionLibraryState, key: Key, a0: App, a1: App, action: ProfessionAction) -> bool {
    let idx = profession_indices(a0.profession_library@, s0.search_query@);
    if key.code == KeyCode::Char('y') {
        if s0.cursor < idx.len() {
            let i = idx[s0.cursor as int] as int;
            let remaining = a0.profession_library@.len() - 1;
            let len1 = if remaining > 0 { remaining - 1 } else { 0 };
            &&& action == ProfessionAction::Save
            &&& a1 == (App { profession_library: a1.profession_library, ..a0 })
            &&& a1.profession_library@ == a0.profession_library@.remove(i)
            &&& s1 == (ProfessionLibraryState {
                mode: Mode::Browse,
                cursor: if s0.cursor <= len1 { s0.cursor } else { len1 as usize },
                ..s0
            })
        } else {
            action == ProfessionAction::Nothing && a1 == a0 && s1 == (ProfessionLibraryState { mode: Mode::Browse, ..s0 })
        }
    } else if key.code == KeyCode::Char('n') || key.code == KeyCode::Esc {
        action == ProfessionAction::Nothing && a1 == a0 && s1 == (ProfessionLibraryState { mode: Mode::Browse, ..s0 })
    } else {
        action == ProfessionAction::Nothing && a1 == a0 && s1 == s0
    }
}

/// Edit a text field with a typing key.
fn type_into(s: &mut String, key: Key)
    ensures
        typed(old(s)@, final(s)@, key),
{
    match key.code {
        KeyCode::Char(c) => { s.push(c); },
        KeyCode::Backspace => { s.pop(); },
        _ => {},
    }
}

impl ProfessionLibraryState {
    /// Bounds the key handlers rely on.
    pub open spec fn wf(&self) -> bool {
        &&& self.cursor < usize::MAX / 2
        &&& self.scroll_offset < usize::MAX / 2
    }

    pub fn new() -> (s: Self)
        ensures
            s.wf(),
            s.mode == Mode::Browse,
            s.cursor == 0,
            s.scroll_offset == 0,
            s.search_query@.len() == 0,
            s.wizard.is_empty(),
    {
        ProfessionLibraryState {
            mode: Mode::Browse,
            cursor: 0,
            scroll_offset: 0,
            search_query: String::new(),
            wizard: ProfessionWizard::new(),
        }
    }

    /// Indices of the professions whose names pass the search, in order.
    pub fn filtered_indices(&self, app: &App) -> (r: Vec<usize>)
        ensures
            r@ == profession_indices(app.profession_library@, self.search_query@),
    {
        let q = self.search_query.as_str();
        let ghost pred = |p: ProfessionDefinition| search_match(p.name@, self.search_query@);
        let r = indices_where(
            &app.profession_library,
            |p: &ProfessionDefinition| -> (b: bool)
                ensures b == search_match(p.name@, q@)
            { matches_search(p.name.as_str(), q) },
            Ghost(pred),
        );
        assert((|i: usize| pred(app.profession_library@[i as int]))
            =~= (|i: usize| search_match(app.profession_library@[i as int].name@, self.search_query@)));
        r
    }

    /// Handle a key press.
    pub fn handle_input(&mut self, key: Key, app: &mut App) -> (action: ProfessionAction)
        requires
            old(self).wf(),
            old(app).profession_library@.len() < usize::MAX / 2,
        ensures
            final(self).wf(),
            old(self).mode == Mode::Browse ==> action == ProfessionAction::Nothing && *final(app) == *old(app)
                && browse_step(*old(self), *final(self), key, old(app).profession_library@),
            old(self).mode == Mode::Search ==> action == ProfessionAction::Nothing && *final(app) == *old(app)
                && search_step(*old(self), *final(self), key),
            old(self).mode == Mode::ViewDetail ==> action == ProfessionAction::Nothing && *final(app) == *old(app)
                && *final(self) == (if key.code == KeyCode::Esc { ProfessionLibraryState { mode: Mode::Browse, ..*old(self) } } else { *old(self) }),
            old(self).mode is Wizard ==> wizard_step(*old(self), *final(self), key, *old(app), *final(app), action),
            old(self).mode == Mode::ConfirmDelete ==> delete_step(*old(self), *final(self), key, *old(app), *final(app), action),
    {
        match self.mode {
            Mode::Browse => {
                self.handle_browse(key, app);
                ProfessionAction::Nothing
            },
            Mode::Search => {
                self.handle_search(key);
                ProfessionAction::Nothing
            },
            Mode::ViewDetail => {
                if key.code == KeyCode::Esc {
                    self.mode = Mode::Browse;
                }
                ProfessionAction::Nothing
            },
            Mode::Wizard(step) => self.handle_wizard(key, app, step),
            Mode::ConfirmDelete => self.handle_delete(key, app),
        }
    }

    fn handle_browse(&mut self, key: Key, app: &App)
        requires
            old(self).wf(),
            app.profession_library@.len() < usize::MAX / 2,
        ensures
            final(self).wf(),
            browse_step(*old(self), *final(self), key, app.profession_library@),
    {
        let indices = self.filtered_indices(app);
        proof { crate::collections::lemma_keep_where_len(index_seq(app.profession_library@.len()), |i: usize| search_match(app.profession_library@[i as int].name@, self.search_query@)); }
        let n = indices.len();
        match direction_of(key) {
            Some(d) => {
                let (sel, scroll) = navigate_handler_grid(d, self.cursor, n + 1, self.scroll_offset);
                self.cursor = sel;
                self.scroll_offset = scroll;
                return;
            },
            None => {},
        }
        match key.code {
            KeyCode::Enter => {
                if self.cursor == n {
                    self.wizard = ProfessionWizard::new();
                    self.mode = Mode::Wizard(WizardStep::Name);
                } else if n > 0 {
                    self.mode = Mode::ViewDetail;
                }
            },
            KeyCode::Char('a') => {
                self.wizard = ProfessionWizard::new();
                self.mode = Mode::Wizard(WizardStep::Name);
            },
            KeyCode::Char('d') => {
                if self.cursor < n {
                    self.mode = Mode::ConfirmDelete;
                }
            },
            KeyCode::Char('/') => {
                self.mode = Mode::Search;
            },
            KeyCode::Esc => {
                if !self.search_query.as_str().is_empty() {
                    self.search_query.clear();
                    self.cursor = 0;
                    self.scroll_offset = 0;
                }
            },
            _ => {},
        }
    }

    fn handle_search(&mut self, key: Key)
        requires
            old(self).wf(),
        ensures
            final(self).wf(),
            search_step(*old(self), *final(self), key),
    {
        match key.code {
            KeyCode::Enter | KeyCode::Esc => {
                self.mode = Mode::Browse;
                self.cursor = 0;
                self.scroll_offset = 0;
            },
            _ => { type_into(&mut self.search_query, key); },
        }
    }

    fn handle_wizard(&mut self, key: Key, app: &mut App, step: WizardStep) -> (action: ProfessionAction)
        requires
            old(self).wf(),
            old(self).mode == Mode::Wizard(step),
        ensures
            final(self).wf(),
            wizard_step(*old(self), *final(self), key, *old(app), *final(app), action),
    {
        match step {
            WizardStep::Name => {
                match key.code {
                    KeyCode::Enter => {
                        if !self.wizard.name.as_str().is_empty() {
                            self.mode = Mode::Wizard(WizardStep::Description);
                        }
                    },
                    KeyCode::Esc => { self.mode = Mode::Browse; },
                    _ => { type_into(&mut self.wizard.name, key); },
                }
                ProfessionAction::Nothing
            },
            WizardStep::Description => {
                match key.code {
                    KeyCode::Enter => {
                        if !self.wizard.description.as_str().is_empty() {
                            self.mode = Mode::Wizard(WizardStep::Skills);
                        }
                    },
                    KeyCode::Esc => { self.mode = Mode::Wizard(WizardStep::Name); },
                    _ => { type_into(&mut self.wizard.description, key); },
                }
                ProfessionAction::Nothing
            },
            WizardStep::Skills => {
                if key.code == KeyCode::Char('n') && key.ctrl {
                    self.mode = Mode::Wizard(WizardStep::Passive);
                    return ProfessionAction::Nothing;
                }
                match key.code {
                    KeyCode::Enter => {
                        if !self.wizard.skills_input.as_str().is_empty() {
                            let skill = self.wizard.skills_input.clone();
                            let ghost before = self.wizard.skills@;
                            self.wizard.skills.push(skill);
                            assert(strings_view(self.wizard.skills@) =~= strings_view(before).push(skill@));
                            self.wizard.skills_input.clear();
                        }
                    },
                    KeyCode::Esc => { self.mode = Mode::Wizard(WizardStep::Description); },
                    _ => { type_into(&mut self.wizard.skills_input, key); },
                }
                ProfessionAction::Nothing
            },
            WizardStep::Passive => {
                match key.code {
                    KeyCode::Enter => {
                        if !self.wizard.passive_name.as_str().is_empty() {
                            self.mode = Mode::Wizard(WizardStep::Confirm);
                        }
                    },
                    KeyCode::Esc => { self.mode = Mode::Wizard(WizardStep::Skills); },
                    _ => { type_into(&mut self.wizard.passive_name, key); },
                }
                ProfessionAction::Nothing
            },
            WizardStep::Confirm => {
                match key.code {
                    KeyCode::Enter => {
                        let prof = self.wizard.build();
                        let ghost before = app.profession_library@;
                        app.profession_library.push(prof);
                        assert(app.profession_library@.drop_last() =~= before);
                        self.mode = Mode::Browse;
                        self.cursor = 0;
                        self.scroll_offset = 0;
                        ProfessionAction::Save
                    },
                    KeyCode::Esc => {
                        self.mode = Mode::Wizard(WizardStep::Passive);
                        ProfessionAction::Nothing
                    },
                    _ => ProfessionAction::Nothing,
                }
            },
        }
    }

    fn handle_delete(&mut self, key: Key, app: &mut App) -> (action: ProfessionAction)
        requires
            old(self).wf(),
            old(self).mode == Mode::ConfirmDelete,
        ensures
            final(self).wf(),
            delete_step(*old(self), *final(self), key, *old(app), *final(app), action),
    {
        match key.code {
            KeyCode::Char('y') => {
                let indices = self.filtered_indices(app);
                self.mode = Mode::Browse;
                if self.cursor < indices.len() {
                    let idx = indices[self.cursor];
                    proof {
                        crate::collections::lemma_keep_where_members(
                            index_seq(app.profession_library@.len()),
                            |i: usize| search_match(app.profession_library@[i as int].name@, self.search_query@),
                        );
                    }
                    app.profession_library.remove(idx);
                    let last = app.profession_library.len().saturating_sub(1);
                    if self.cursor > last {
                        self.cursor = last;
                    }
                    ProfessionAction::Save
                } else {
                    ProfessionAction::Nothing
                }
            },
            KeyCode::Char('n') | KeyCode::Esc => {
                self.mode = Mode::Browse;
                ProfessionAction::Nothing
            },
            _ => ProfessionAction::Nothing,
        }
    }

    /// Card data for the listed professions, with a "+ New Profession"
    /// action card last.
    pub fn build_profession_cards(professions: &[ProfessionDefinition], indices: &[usize]) -> (cards: Vec<CardData>)
        requires
            forall|k: int| 0 <= k < indices@.len() ==> (#[trigger] indices@[k]) < professions@.len(),
            forall|k: int| 0 <= k < indices@.len() ==> description_fits(#[trigger] professions@[indices@[k] as int]),
        ensures
            cards@.len() == indices@.len() + 1,
            forall|k: int| 0 <= k < indices@.len() ==> profession_card(#[trigger] cards@[k], professions@[indices@[k] as int]),
            cards@[indices@.len() as int].title@ == "+ New Profession"@,
            cards@[indices@.len() as int].lines@.len() == 0,
            cards@[indices@.len() as int].is_action,
    {
        let mut cards: Vec<CardData> = Vec::new();
        let mut k: usize = 0;
        while k < indices.len()
            invariant
                k <= indices@.len(),
                forall|m: int| 0 <= m < indices@.len() ==> (#[trigger] indices@[m]) < professions@.len(),
                forall|m: int| 0 <= m < indices@.len() ==> description_fits(#[trigger] professions@[indices@[m] as int]),
                cards@.len() == k,
                forall|m: int| 0 <= m < k ==> profession_card(#[trigger] cards@[m], professions@[indices@[m] as int]),
            decreases indices@.len() - k,
        {
            let prof = &professions[indices[k]];
            let mut lines: Vec<String> = Vec::new();
            let mut count = decimal_text(prof.skills.len() as u64);
            count.append(" base skills");
            lines.push(count);
            lines.push(truncate_line(prof.description.as_str(), 24));
            cards.push(CardData { title: prof.name.clone(), lines, is_action: false });
            k = k + 1;
        }
        let title = "+ New Profession".to_owned();
        cards.push(CardData { title, lines: Vec::new(), is_action: true });
        cards
    }
}

/// An empty search lists every profession, in order.
pub proof fn lemma_empty_search_lists_all(lib: Seq<ProfessionDefinition>, query: Seq<char>)
    requires
        query.len() == 0,
    ensures
        profession_indices(lib, query) == index_seq(lib.len()),
{
    crate::collections::lemma_keep_where_len(index_seq(lib.len()), |i: usize| search_match(lib[i as int].name@, query));
}

} // verus!
