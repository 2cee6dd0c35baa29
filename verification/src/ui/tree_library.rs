//! Tree Library tab: browse tree chains, add trees to them, delete them.
//!
//! Default view: the chains that pass the search, with their trees. `a`
//! starts a wizard for a tree in a new chain, `c` for a tree added to the
//! chain under the cursor; Enter shows details, `d` deletes after
//! confirmation, `/` edits the search. Writing the library to disk is left
//! to the caller, as the action says.
use vstd::prelude::*;
use crate::collections::{index_seq, indices_where, keep_where, lemma_keep_where_len, lemma_keep_where_members};
use crate::models::tree::{
    Comparison, TreeChain, TreeChainView, TreeDefinition, TreeDefinitionView, TreeMilestone, UnlockRequirement,
    UnlockRequirementView, chains_view, duplicate_requirements, requirements_view, trees_view,
};
use crate::text::{is_digit, matches_search, parse_u32, parse_u32_spec, search_match};
use crate::ui::app::App;
use crate::ui::input::{Key, KeyCode, is_down, is_left, is_right, is_up};
use crate::ui::profession_library::typed;

verus! {

/// Steps in the tree creation wizard.
#[derive(Debug, Clone, Copy, PartialEq, Eq, Structural)]
pub enum WizardStep {
    Name,
    BaseCost,
    Description,
    Milestones,
    Requirements,
}

/// Current mode of the tree library.
#[derive(Debug, Clone, Copy, PartialEq, Eq, Structural)]
pub enum Mode {
    Browse,
    Search,
    ViewDetail,
    Wizard(WizardStep),
    ConfirmDelete,
}

/// What the caller must do after a key press on this tab.
#[derive(Debug, Clone, Copy, PartialEq, Eq, Structural)]
pub enum TreeAction {
    Nothing,
    /// The tree library changed: write it to disk.
    Save,
}

/// State for the tree creation wizard.
pub struct TreeWizard {
    pub chain_name: String,
    pub base_cost: String,
    pub tree_name: String,
    pub description: String,
    pub milestones: [String; 4],
    /// Milestone being typed into (0 to 3).
    pub milestone_index: usize,
    pub requirements: Vec<UnlockRequirement>,
    pub req_input: String,
    /// Kind of the next requirement: 0 level, 1 skill, 2 achievement.
    pub req_type: usize,
}

/// All state for the Tree Library tab.
pub struct TreeLibraryState {
    pub mode: Mode,
    pub cursor: usize,
    pub search_query: String,
    pub wizard: TreeWizard,
    /// Which chain the new tree joins (None = a new chain).
    pub editing_chain_index: Option<usize>,
}

/// The point cost a wizard's text gives: its number, 40 when it does not parse.
pub open spec fn cost_of(text: Seq<char>) -> u32 {
    match parse_u32_spec(text) {
        Some(v) => v,
        None => 40,
    }
}

impl TreeWizard {
    pub open spec fn is_empty(&self) -> bool {
        self.chain_name@.len() == 0 && self.is_blank_tree()
    }

    /// Every field but the chain name is empty or at its start.
    pub open spec fn is_blank_tree(&self) -> bool {
        &&& self.base_cost@.len() == 0
        &&& self.tree_name@.len() == 0
        &&& self.description@.len() == 0
        &&& forall|i: int| 0 <= i < 4 ==> (#[trigger] self.milestones@[i])@.len() == 0
        &&& self.milestone_index == 0
        &&& self.requirements@.len() == 0
        &&& self.req_input@.len() == 0
        &&& self.req_type == 0
    }

    /// The tree the wizard describes.
    pub open spec fn tree(&self) -> TreeDefinitionView {
        TreeDefinitionView {
            name: self.tree_name@,
            description: self.description@,
            max_points: cost_of(self.base_cost@),
            milestones: self.milestones@.map_values(|m: String| m@),
            requirements: requirements_view(self.requirements@),
        }
    }

    pub fn new() -> (w: Self)
        ensures
            w.is_empty(),
    {
        TreeWizard {
            chain_name: String::new(),
            base_cost: String::new(),
            tree_name: String::new(),
            description: String::new(),
            milestones: [String::new(), String::new(), String::new(), String::new()],
            milestone_index: 0,
            requirements: Vec::new(),
            req_input: String::new(),
            req_type: 0,
        }
    }

    /// Build a tree definition from the wizard's fields.
    pub fn build_tree(&self) -> (t: TreeDefinition)
        ensures
            t@ == self.tree(),
    {
        let cost = match parse_u32(self.base_cost.as_str()) {
            Some(v) => v,
            None => 40,
        };
        let t = TreeDefinition {
            name: self.tree_name.clone(),
            description: self.description.clone(),
            max_points: cost,
            milestones: [
                TreeMilestone { description: self.milestones[0].clone() },
                TreeMilestone { description: self.milestones[1].clone() },
                TreeMilestone { description: self.milestones[2].clone() },
                TreeMilestone { description: self.milestones[3].clone() },
            ],
            requirements: duplicate_requirements(&self.requirements),
        };
        assert(t.milestones@.map_values(|m: TreeMilestone| m.description@) =~= self.milestones@.map_values(|m: String| m@));
        t
    }

    /// The requirement the typed input makes: a minimum level (1 when the
    /// input is not a number), a skill or an achievement.
    fn requirement(&self) -> (r: UnlockRequirement)
        ensures
            r@ == typed_requirement(*self),
    {
        if self.req_type == 0 {
            let value = match parse_u32(self.req_input.as_str()) {
                Some(v) => v,
                None => 1,
            };
            UnlockRequirement::Level { comparison: Comparison::GreaterOrEqual, value }
        } else if self.req_type == 1 {
            UnlockRequirement::Skill { skill_name: self.req_input.clone(), min_rank: None, min_level: None }
        } else {
            UnlockRequirement::Achievement { name: self.req_input.clone() }
        }
    }
}

/// The requirement a wizard's typed input makes.
pub open spec fn typed_requirement(w: TreeWizard) -> UnlockRequirementView {
    if w.req_type == 0 {
        UnlockRequirementView::Level {
            comparison: Comparison::GreaterOrEqual,
            value: match parse_u32_spec(w.req_input@) { Some(v) => v, None => 1 },
        }
    } else if w.req_type == 1 {
        UnlockRequirementView::Skill { skill_name: w.req_input@, min_rank: None, min_level: None }
    } else {
        UnlockRequirementView::Achievement { name: w.req_input@ }
    }
}

/// Indices of the chains whose names pass the search, in order.
pub open spec fn chain_indices(lib: Seq<TreeChain>, query: Seq<char>) -> Seq<usize> {
    keep_where(index_seq(lib.len()), |i: usize| search_match(lib[i as int].name@, query))
}

/// Number of trees in the listed chains.
pub open spec fn flat_count(lib: Seq<TreeChain>, idx: Seq<usize>) -> int
    decreases idx.len(),
{
    if idx.len() == 0 { 0 } else { flat_count(lib, idx.drop_last()) + lib[idx.last() as int].trees@.len() }
}

/// Number of trees in the listed chains, capped at the largest cursor.
pub open spec fn flat_rows(lib: Seq<TreeChain>, idx: Seq<usize>) -> int {
    if flat_count(lib, idx) > usize::MAX { usize::MAX as int } else { flat_count(lib, idx) }
}

/// The library after saving the wizard's tree: appended to the chain being
/// extended, or as the only tree of a new chain named by the wizard's chain
/// name (the tree's name when that is empty) with the wizard's cost.
pub open spec fn saved_library(lib: Seq<TreeChain>, s: TreeLibraryState) -> Seq<TreeChainView> {
    let w = s.wizard;
    match s.editing_chain_index {
        Some(i) => chains_view(lib).update(i as int, TreeChainView { trees: lib[i as int]@.trees.push(w.tree()), ..lib[i as int]@ }),
        None => chains_view(lib).push(TreeChainView {
            name: if w.chain_name@.len() == 0 { w.tree_name@ } else { w.chain_name@ },
            base_cost: cost_of(w.base_cost@),
            trees: seq![w.tree()],
        }),
    }
}

/// Browse mode: j/k move over the trees of the listed chains, Enter shows
/// details, `a` starts a tree in a new chain, `c` a tree in the chain under
/// the cursor, `d` asks to delete, `/` edits the search, Esc clears it.
pub open spec fn browse_step(s0: TreeLibraryState, s1: TreeLibraryState, key: Key, lib: Seq<TreeChain>) -> bool {
    let idx = chain_indices(lib, s0.search_query@);
    let n = idx.len();
    let flat = flat_rows(lib, idx);
    if is_up(key) {
        s1 == (TreeLibraryState { cursor: if s0.cursor > 0 { (s0.cursor - 1) as usize } else { 0 }, ..s0 })
    } else if is_down(key) {
        s1 == (TreeLibraryState { cursor: if flat > 0 && s0.cursor < flat - 1 { (s0.cursor + 1) as usize } else { s0.cursor }, ..s0 })
    } else if key.code == KeyCode::Enter {
        s1 == (if n > 0 { TreeLibraryState { mode: Mode::ViewDetail, ..s0 } } else { s0 })
    } else if key.code == KeyCode::Char('a') {
        s1 == (TreeLibraryState { wizard: s1.wizard, editing_chain_index: None, mode: Mode::Wizard(WizardStep::Name), ..s0 }) && s1.wizard.is_empty()
    } else if key.code == KeyCode::Char('c') {
        if s0.cursor < n {
            let i = idx[s0.cursor as int];
            &&& s1 == (TreeLibraryState { wizard: s1.wizard, editing_chain_index: Some(i), mode: Mode::Wizard(WizardStep::Name), ..s0 })
            &&& s1.wizard.chain_name@ == lib[i as int].name@
            &&& s1.wizard.is_blank_tree()
        } else {
            s1 == s0
        }
    } else if key.code == KeyCode::Char('d') {
        s1 == (if n > 0 { TreeLibraryState { mode: Mode::ConfirmDelete, ..s0 } } else { s0 })
    } else if key.code == KeyCode::Char('/') {
        s1 == (TreeLibraryState { mode: Mode::Search, ..s0 })
    } else if key.code == KeyCode::Esc {
        if s0.search_query@.len() > 0 {
            s1 == (TreeLibraryState { search_query: s1.search_query, cursor: 0, ..s0 }) && s1.search_query@.len() == 0
        } else {
            s1 == s0
        }
    } else {
        s1 == s0
    }
}

/// The wizard. Name, cost (digits only) and description are typed, Enter
/// goes on once the field is not empty; milestones: j/k pick one of the
/// four, typing edits it, Enter goes on; requirements: left/right pick the
/// kind, typing edits the input, Enter adds a requirement, Ctrl+D saves the
/// tree into the library and goes back to browsing from the top. Esc goes
/// one step back (from the name, back to browsing).
pub open spec fn wizard_step(s0: TreeLibraryState, s1: TreeLibraryState, key: Key, a0: App, a1: App, action: TreeAction) -> bool {
    let w0 = s0.wizard;
    let w1 = s1.wizard;
    let step = s0.mode->Wizard_0;
    if step == WizardStep::Requirements && key.code == KeyCode::Char('d') && key.ctrl {
        &&& action == TreeAction::Save
        &&& s1 == (TreeLibraryState { mode: Mode::Browse, cursor: 0, ..s0 })
        &&& a1 == (App { tree_library: a1.tree_library, ..a0 })
        &&& chains_view(a1.tree_library@) == saved_library(a0.tree_library@, s0)
    } else {
        &&& action == TreeAction::Nothing
        &&& a1 == a0
        &&& match step {
            WizardStep::Name => if key.code == KeyCode::Enter {
                s1 == (if w0.tree_name@.len() > 0 { TreeLibraryState { mode: Mode::Wizard(WizardStep::BaseCost), ..s0 } } else { s0 })
            } else if key.code == KeyCode::Esc {
                s1 == (TreeLibraryState { mode: Mode::Browse, ..s0 })
            } else {
                s1 == (TreeLibraryState { wizard: TreeWizard { tree_name: w1.tree_name, ..w0 }, ..s0 }) && typed(w0.tree_name@, w1.tree_name@, key)
            },
            WizardStep::BaseCost => if key.code == KeyCode::Enter {
                s1 == (if w0.base_cost@.len() > 0 { TreeLibraryState { mode: Mode::Wizard(WizardStep::Description), ..s0 } } else { s0 })
            } else if key.code == KeyCode::Esc {
                s1 == (TreeLibraryState { mode: Mode::Wizard(WizardStep::Name), ..s0 })
            } else {
                s1 == (TreeLibraryState { wizard: TreeWizard { base_cost: w1.base_cost, ..w0 }, ..s0 }) && match key.code {
                    KeyCode::Char(c) => w1.base_cost@ == (if is_digit(c) { w0.base_cost@.push(c) } else { w0.base_cost@ }),
                    _ => typed(w0.base_cost@, w1.base_cost@, key),
                }
            },
            WizardStep::Description => if key.code == KeyCode::Enter {
                s1 == (if w0.description@.len() > 0 {
                    TreeLibraryState { mode: Mode::Wizard(WizardStep::Milestones), wizard: TreeWizard { milestone_index: 0, ..w0 }, ..s0 }
                } else {
                    s0
                })
            } else if key.code == KeyCode::Esc {
                s1 == (TreeLibraryState { mode: Mode::Wizard(WizardStep::BaseCost), ..s0 })
            } else {
                s1 == (TreeLibraryState { wizard: TreeWizard { description: w1.description, ..w0 }, ..s0 }) && typed(w0.description@, w1.description@, key)
            },
            WizardStep::Milestones => {
                let m = w0.milestone_index as int;
                if is_up(key) {
                    s1 == (TreeLibraryState { wizard: TreeWizard { milestone_index: if m > 0 { (m - 1) as usize } else { 0 }, ..w0 }, ..s0 })
                } else if is_down(key) {
                    s1 == (TreeLibraryState { wizard: TreeWizard { milestone_index: if m < 3 { (m + 1) as usize } else { 3 }, ..w0 }, ..s0 })
                } else if key.code == KeyCode::Enter {
                    s1 == (TreeLibraryState { mode: Mode::Wizard(WizardStep::Requirements), ..s0 })
                } else if key.code == KeyCode::Esc {
                    s1 == (TreeLibraryState { mode: Mode::Wizard(WizardStep::Description), ..s0 })
                } else {
                    &&& s1 == (TreeLibraryState { wizard: TreeWizard { milestones: w1.milestones, ..w0 }, ..s0 })
                    &&& forall|j: int| 0 <= j < 4 && j != m ==> w1.milestones@[j] == w0.milestones@[j]
                    &&& typed(w0.milestones@[m]@, w1.milestones@[m]@, key)
                }
            },
            WizardStep::Requirements => {
                let t = w0.req_type as int;
                if is_left(key) {
                    s1 == (TreeLibraryState { wizard: TreeWizard { req_type: if t > 0 { (t - 1) as usize } else { 0 }, ..w0 }, ..s0 })
                } else if is_right(key) {
                    s1 == (TreeLibraryState { wizard: TreeWizard { req_type: if t < 2 { (t + 1) as usize } else { w0.req_type }, ..w0 }, ..s0 })
                } else if key.code == KeyCode::Enter {
                    if w0.req_input@.len() > 0 {
                        &&& s1 == (TreeLibraryState { wizard: TreeWizard { requirements: w1.requirements, req_input: w1.req_input, ..w0 }, ..s0 })
                        &&& requirements_view(w1.requirements@) == requirements_view(w0.requirements@).push(typed_requirement(w0))
                        &&& w1.req_input@.len() == 0
                    } else {
                        s1 == s0
                    }
                } else if key.code == KeyCode::Esc {
                    s1 == (TreeLibraryState { mode: Mode::Wizard(WizardStep::Milestones), ..s0 })
                } else {
                    s1 == (TreeLibraryState { wizard: TreeWizard { req_input: w1.req_input, ..w0 }, ..s0 }) && typed(w0.req_input@, w1.req_input@, key)
                }
            },
        }
    }
}

/// Delete confirmation: `y` removes the listed chain under the cursor and
/// keeps the cursor within the library; `n` or Esc cancels.
pub open spec fn delete_step(s0: TreeLibraryState, s1: TreeLibraryState, key: Key, a0: App, a1: App, action: TreeAction) -> bool {
    let idx = chain_indices(a0.tree_library@, s0.search_query@);
    if key.code == KeyCode::Char('y') {
        if s0.cursor < idx.len() {
            let remaining = a0.tree_library@.len() - 1;
            let last = if remaining > 0 { remaining - 1 } else { 0 };
            &&& action == TreeAction::Save
            &&& a1 == (App { tree_library: a1.tree_library, ..a0 })
            &&& a1.tree_library@ == a0.tree_library@.remove(idx[s0.cursor as int] as int)
            &&& s1 == (TreeLibraryState { mode: Mode::Browse, cursor: if s0.cursor <= last { s0.cursor } else { last as usize }, ..s0 })
        } else {
            action == TreeAction::Nothing && a1 == a0 && s1 == (TreeLibraryState { mode: Mode::Browse, ..s0 })
        }
    } else if key.code == KeyCode::Char('n') || key.code == KeyCode::Esc {
        action == TreeAction::Nothing && a1 == a0 && s1 == (TreeLibraryState { mode: Mode::Browse, ..s0 })
    } else {
        action == TreeAction::Nothing && a1 == a0 && s1 == s0
    }
}

/// Edit a text field with a typing key.
fn type_into(s: &mut String, key: Key)
    ensures
        typed(old(s)@, final(s)@, key),
{
    match key.code {
        KeyCode::Char(c) => { s.push(c); },
        KeyCode::Backspace => { s.pop(); },
        _ => {},
    }
}

impl TreeLibraryState {
    /// Bounds the key handlers rely on.
    pub open spec fn wf(&self) -> bool {
        &&& self.wizard.milestone_index <= 3
        &&& self.wizard.req_type <= 2
    }

    pub fn new() -> (s: Self)
        ensures
            s.wf(),
            s.mode == Mode::Browse,
            s.cursor == 0,
            s.search_query@.len() == 0,
            s.wizard.is_empty(),
            s.editing_chain_index is None,
    {
        TreeLibraryState {
            mode: Mode::Browse,
            cursor: 0,
            search_query: String::new(),
            wizard: TreeWizard::new(),
            editing_chain_index: None,
        }
    }

    /// Indices of the chains whose names pass the search, in order.
    pub fn filtered_indices(&self, app: &App) -> (r: Vec<usize>)
        ensures
            r@ == chain_indices(app.tree_library@, self.search_query@),
    {
        let q = self.search_query.as_str();
        let ghost pred = |c: TreeChain| search_match(c.name@, self.search_query@);
        let r = indices_where(
            &app.tree_library,
            |c: &TreeChain| -> (b: bool)
                ensures b == search_match(c.name@, q@)
            { matches_search(c.name.as_str(), q) },
            Ghost(pred),
        );
        assert((|i: usize| pred(app.tree_library@[i as int]))
            =~= (|i: usize| search_match(app.tree_library@[i as int].name@, self.search_query@)));
        r
    }

    /// Number of trees in the listed chains.
    fn flat_total(app: &App, indices: &Vec<usize>) -> (n: u128)
        requires
            forall|k: int| 0 <= k < indices@.len() ==> (#[trigger] indices@[k]) < app.tree_library@.len(),
        ensures
            n == flat_count(app.tree_library@, indices@),
    {
        let mut total: u128 = 0;
        let mut k: usize = 0;
        while k < indices.len()
            invariant
                k <= indices@.len(),
                forall|m: int| 0 <= m < indices@.len() ==> (#[trigger] indices@[m]) < app.tree_library@.len(),
                total == flat_count(app.tree_library@, indices@.take(k as int)),
                total <= k * (usize::MAX as int),
            decreases indices@.len() - k,
        {
            assert(indices@.take(k + 1).drop_last() =~= indices@.take(k as int));
            let add = app.tree_library[indices[k]].trees.len();
            assert(total + add <= (k + 1) * (usize::MAX as int)) by (nonlinear_arith)
                requires total <= k * (usize::MAX as int), add <= usize::MAX, k < usize::MAX;
            assert((k + 1) * (usize::MAX as int) <= u128::MAX) by (nonlinear_arith)
                requires k < usize::MAX, usize::MAX <= u64::MAX;
            total = total + add as u128;
            k = k + 1;
        }
        assert(indices@.take(k as int) =~= indices@);
        total
    }

    /// Handle a key press.
    pub fn handle_input(&mut self, key: Key, app: &mut App) -> (action: TreeAction)
        requires
            old(self).wf(),
            old(self).mode == Mode::Wizard(WizardStep::Requirements) && key.code == KeyCode::Char('d') && key.ctrl ==>
                (old(self).editing_chain_index matches Some(i) ==> i < old(app).tree_library@.len()),
        ensures
            final(self).wf(),
            old(self).mode == Mode::Browse ==> action == TreeAction::Nothing && *final(app) == *old(app)
                && browse_step(*old(self), *final(self), key, old(app).tree_library@),
            old(self).mode == Mode::Search ==> action == TreeAction::Nothing && *final(app) == *old(app) && if key.code == KeyCode::Enter || key.code == KeyCode::Esc {
                *final(self) == (TreeLibraryState { mode: Mode::Browse, cursor: 0, ..*old(self) })
            } else {
                *final(self) == (TreeLibraryState { search_query: final(self).search_query, ..*old(self) }) && typed(old(self).search_query@, final(self).search_query@, key)
            },
            old(self).mode == Mode::ViewDetail ==> action == TreeAction::Nothing && *final(app) == *old(app)
                && *final(self) == (if key.code == KeyCode::Esc { TreeLibraryState { mode: Mode::Browse, ..*old(self) } } else { *old(self) }),
            old(self).mode is Wizard ==> wizard_step(*old(self), *final(self), key, *old(app), *final(app), action),
            old(self).mode == Mode::ConfirmDelete ==> delete_step(*old(self), *final(self), key, *old(app), *final(app), action),
    {
        match self.mode {
            Mode::Browse => {
                self.handle_browse(key, app);
                TreeAction::Nothing
            },
            Mode::Search => {
                match key.code {
                    KeyCode::Enter | KeyCode::Esc => {
                        self.mode = Mode::Browse;
                        self.cursor = 0;
                    },
                    _ => { type_into(&mut self.search_query, key); },
                }
                TreeAction::Nothing
            },
            Mode::ViewDetail => {
                if key.code == KeyCode::Esc {
                    self.mode = Mode::Browse;
                }
                TreeAction::Nothing
            },
            Mode::Wizard(step) => self.handle_wizard(key, app, step),
            Mode::ConfirmDelete => self.handle_delete(key, app),
        }
    }

    fn handle_browse(&mut self, key: Key, app: &App)
        requires
            old(self).wf(),
        ensures
            final(self).wf(),
            browse_step(*old(self), *final(self), key, app.tree_library@),
    {
        let indices = self.filtered_indices(app);
        let ghost keep = |i: usize| search_match(app.tree_library@[i as int].name@, self.search_query@);
        proof {
            lemma_keep_where_members(index_seq(app.tree_library@.len()), keep);
            assert forall|k: int| 0 <= k < indices@.len() implies (#[trigger] indices@[k]) < app.tree_library@.len() by {
                let j = choose|j: int| 0 <= j < index_seq(app.tree_library@.len()).len() && index_seq(app.tree_library@.len())[j] == indices@[k];
            }
        }
        let n = indices.len();
        let total = Self::flat_total(app, &indices);
        let flat: u128 = if total > usize::MAX as u128 { usize::MAX as u128 } else { total };
        if key.code == KeyCode::Up || key.code == KeyCode::Char('k') {
            if self.cursor > 0 { self.cursor = self.cursor - 1; }
        } else if key.code == KeyCode::Down || key.code == KeyCode::Char('j') {
            if flat > 0 && (self.cursor as u128) < flat - 1 { self.cursor = self.cursor + 1; }
        } else if key.code == KeyCode::Enter {
            if n > 0 { self.mode = Mode::ViewDetail; }
        } else if key.code == KeyCode::Char('a') {
            self.wizard = TreeWizard::new();
            self.editing_chain_index = None;
            self.mode = Mode::Wizard(WizardStep::Name);
        } else if key.code == KeyCode::Char('c') {
            if self.cursor < n {
                let chain_idx = indices[self.cursor];
                self.wizard = TreeWizard::new();
                self.wizard.chain_name = app.tree_library[chain_idx].name.clone();
                self.editing_chain_index = Some(chain_idx);
                self.mode = Mode::Wizard(WizardStep::Name);
            }
        } else if key.code == KeyCode::Char('d') {
            if n > 0 { self.mode = Mode::ConfirmDelete; }
        } else if key.code == KeyCode::Char('/') {
            self.mode = Mode::Search;
        } else if key.code == KeyCode::Esc {
            if !self.search_query.as_str().is_empty() {
                self.search_query.clear();
                self.cursor = 0;
            }
        }
    }

    fn handle_wizard(&mut self, key: Key, app: &mut App, step: WizardStep) -> (action: TreeAction)
        requires
            old(self).wf(),
            old(self).mode == Mode::Wizard(step),
            step == WizardStep::Requirements && key.code == KeyCode::Char('d') && key.ctrl ==>
                (old(self).editing_chain_index matches Some(i) ==> i < old(app).tree_library@.len()),
        ensures
            final(self).wf(),
            wizard_step(*old(self), *final(self), key, *old(app), *final(app), action),
    {
        match step {
            WizardStep::Name => {
                match key.code {
                    KeyCode::Enter => {
                        if !self.wizard.tree_name.as_str().is_empty() {
                            self.mode = Mode::Wizard(WizardStep::BaseCost);
                        }
                    },
                    KeyCode::Esc => { self.mode = Mode::Browse; },
                    _ => { type_into(&mut self.wizard.tree_name, key); },
                }
                TreeAction::Nothing
            },
            WizardStep::BaseCost => {
                match key.code {
                    KeyCode::Enter => {
                        if !self.wizard.base_cost.as_str().is_empty() {
                            self.mode = Mode::Wizard(WizardStep::Description);
                        }
                    },
                    KeyCode::Esc => { self.mode = Mode::Wizard(WizardStep::Name); },
                    KeyCode::Char(c) => {
                        if '0' <= c && c <= '9' {
                            self.wizard.base_cost.push(c);
                        }
                    },
                    _ => { type_into(&mut self.wizard.base_cost, key); },
                }
                TreeAction::Nothing
            },
            WizardStep::Description => {
                match key.code {
                    KeyCode::Enter => {
                        if !self.wizard.description.as_str().is_empty() {
                            self.mode = Mode::Wizard(WizardStep::Milestones);
                            self.wizard.milestone_index = 0;
                        }
                    },
                    KeyCode::Esc => { self.mode = Mode::Wizard(WizardStep::BaseCost); },
                    _ => { type_into(&mut self.wizard.description, key); },
                }
                TreeAction::Nothing
            },
            WizardStep::Milestones => {
                let m = self.wizard.milestone_index;
                if key.code == KeyCode::Up || key.code == KeyCode::Char('k') {
                    if m > 0 { self.wizard.milestone_index = m - 1; }
                } else if key.code == KeyCode::Down || key.code == KeyCode::Char('j') {
                    if m < 3 { self.wizard.milestone_index = m + 1; }
                } else if key.code == KeyCode::Enter {
                    self.mode = Mode::Wizard(WizardStep::Requirements);
                } else if key.code == KeyCode::Esc {
                    self.mode = Mode::Wizard(WizardStep::Description);
                } else {
                    let mut text = self.wizard.milestones[m].clone();
                    type_into(&mut text, key);
                    self.wizard.milestones[m] = text;
                }
                TreeAction::Nothing
            },
            WizardStep::Requirements => {
                if key.code == KeyCode::Char('d') && key.ctrl {
                    self.save_tree(app);
                    self.mode = Mode::Browse;
                    self.cursor = 0;
                    return TreeAction::Save;
                }
                let t = self.wizard.req_type;
                if key.code == KeyCode::Left || key.code == KeyCode::Char('h') {
                    if t > 0 { self.wizard.req_type = t - 1; }
                } else if key.code == KeyCode::Right || key.code == KeyCode::Char('l') {
                    if t < 2 { self.wizard.req_type = t + 1; }
                } else if key.code == KeyCode::Enter {
                    if !self.wizard.req_input.as_str().is_empty() {
                        let req = self.wizard.requirement();
                        let ghost before = self.wizard.requirements@;
                        self.wizard.requirements.push(req);
                        assert(requirements_view(self.wizard.requirements@) =~= requirements_view(before).push(req@));
                        self.wizard.req_input.clear();
                    }
                } else if key.code == KeyCode::Esc {
                    self.mode = Mode::Wizard(WizardStep::Milestones);
                } else {
                    type_into(&mut self.wizard.req_input, key);
                }
                TreeAction::Nothing
            },
        }
    }

    /// Save the wizard's tree into the library.
    fn save_tree(&self, app: &mut App)
        requires
            self.editing_chain_index matches Some(i) ==> i < old(app).tree_library@.len(),
        ensures
            *final(app) == (App { tree_library: final(app).tree_library, ..*old(app) }),
            chains_view(final(app).tree_library@) == saved_library(old(app).tree_library@, *self),
    {
        let tree = self.wizard.build_tree();
        let ghost lib0 = app.tree_library@;
        match self.editing_chain_index {
            Some(chain_idx) => {
                let mut chain = app.tree_library.remove(chain_idx);
                let ghost c0 = chain@;
                let ghost trees0 = chain.trees@;
                chain.trees.push(tree);
                assert(trees_view(chain.trees@) =~= trees_view(trees0).push(tree@));
                app.tree_library.insert(chain_idx, chain);
                assert(chains_view(app.tree_library@) =~= chains_view(lib0).update(chain_idx as int, chain@));
            },
            None => {
                let base_cost = match parse_u32(self.wizard.base_cost.as_str()) {
                    Some(v) => v,
                    None => 40,
                };
                let name = if self.wizard.chain_name.as_str().is_empty() {
                    self.wizard.tree_name.clone()
                } else {
                    self.wizard.chain_name.clone()
                };
                let mut trees: Vec<TreeDefinition> = Vec::new();
                trees.push(tree);
                assert(trees_view(trees@) =~= seq![tree@]);
                let chain = TreeChain { name, base_cost, trees };
                app.tree_library.push(chain);
                assert(chains_view(app.tree_library@) =~= chains_view(lib0).push(chain@));
            },
        }
    }

    fn handle_delete(&mut self, key: Key, app: &mut App) -> (action: TreeAction)
        requires
            old(self).wf(),
            old(self).mode == Mode::ConfirmDelete,
        ensures
            final(self).wf(),
            delete_step(*old(self), *final(self), key, *old(app), *final(app), action),
    {
        match key.code {
            KeyCode::Char('y') => {
                let indices = self.filtered_indices(app);
                self.mode = Mode::Browse;
                if self.cursor < indices.len() {
                    let idx = indices[self.cursor];
                    proof {
                        lemma_keep_where_members(
                            index_seq(app.tree_library@.len()),
                            |i: usize| search_match(app.tree_library@[i as int].name@, self.search_query@),
                        );
                    }
                    app.tree_library.remove(idx);
                    let last = app.tree_library.len().saturating_sub(1);
                    if self.cursor > last {
                        self.cursor = last;
                    }
                    TreeAction::Save
                } else {
                    TreeAction::Nothing
                }
            },
            KeyCode::Char('n') | KeyCode::Esc => {
                self.mode = Mode::Browse;
                TreeAction::Nothing
            },
            _ => TreeAction::Nothing,
        }
    }
}

} // verus!
