//! The tabs of the interface and the shared application state.
use vstd::prelude::*;
use std::path::PathBuf;
use crate::models::character::Character;
use crate::models::class::ClassDefinition;
use crate::models::profession::ProfessionDefinition;
use crate::models::skill::SkillDefinition;
use crate::models::tree::TreeChain;
use crate::ui::input::{Key, KeyCode};

verus! {

/// The four navigable tabs, cycled with the Tab key.
#[derive(Debug, Clone, Copy, PartialEq, Eq, Structural)]
pub enum Tab {
    Character,
    SystemPanel,
    SkillLibrary,
    ProfessionLibrary,
}

/// Position of a tab in display order.
pub open spec fn tab_index(t: Tab) -> nat {
    match t {
        Tab::Character => 0,
        Tab::SystemPanel => 1,
        Tab::SkillLibrary => 2,
        Tab::ProfessionLibrary => 3,
    }
}

/// Display label of each tab.
pub open spec fn tab_label(t: Tab) -> Seq<char> {
    match t {
        Tab::Character => "Character"@,
        Tab::SystemPanel => "System Panel"@,
        Tab::SkillLibrary => "Skill Library"@,
        Tab::ProfessionLibrary => "Profession Library"@,
    }
}

/// The tab after `t`, wrapping from the last back to the first.
pub open spec fn tab_next(t: Tab) -> Tab {
    match t {
        Tab::Character => Tab::SystemPanel,
        Tab::SystemPanel => Tab::SkillLibrary,
        Tab::SkillLibrary => Tab::ProfessionLibrary,
        Tab::ProfessionLibrary => Tab::Character,
    }
}

impl Tab {
    /// All tabs in display order.
    pub fn all() -> (a: [Tab; 4])
        ensures
            a@ == seq![Tab::Character, Tab::SystemPanel, Tab::SkillLibrary, Tab::ProfessionLibrary],
    {
        let a = [Tab::Character, Tab::SystemPanel, Tab::SkillLibrary, Tab::ProfessionLibrary];
        assert(a@ =~= seq![Tab::Character, Tab::SystemPanel, Tab::SkillLibrary, Tab::ProfessionLibrary]);
        a
    }

    /// Display label for the tab bar.
    pub fn label(&self) -> (s: &'static str)
        ensures
            s@ == tab_label(*self),
    {
        match self {
            Tab::Character => "Character",
            Tab::SystemPanel => "System Panel",
            Tab::SkillLibrary => "Skill Library",
            Tab::ProfessionLibrary => "Profession Library",
        }
    }

    /// Cycle to the next tab (wraps around).
    pub fn next(self) -> (t: Tab)
        ensures
            t == tab_next(self),
            tab_index(t) == (tab_index(self) + 1) % 4,
    {
        match self {
            Tab::Character => Tab::SystemPanel,
            Tab::SystemPanel => Tab::SkillLibrary,
            Tab::SkillLibrary => Tab::ProfessionLibrary,
            Tab::ProfessionLibrary => Tab::Character,
        }
    }
}

/// Pressing Tab four times comes back to the starting tab, and no fewer
/// presses do.
pub proof fn lemma_tab_cycle(t: Tab)
    ensures
        tab_next(tab_next(tab_next(tab_next(t)))) == t,
        tab_next(t) != t,
        tab_next(tab_next(t)) != t,
        tab_next(tab_next(tab_next(t))) != t,
{
}

/// A filesystem path, carried through untouched.
#[verifier::external_type_specification]
#[verifier::external_body]
pub struct ExPathBuf(PathBuf);

/// Central application state shared across all tabs.
pub struct App {
    /// Which tab is currently active.
    pub active_tab: Tab,
    /// Whether the app is still running (false = quit).
    pub running: bool,
    /// Root directory for all saved data.
    pub data_dir: PathBuf,
    /// The currently loaded character (None if no character is active).
    pub current_character: Option<Character>,
    /// All skill definitions loaded from the library.
    pub skill_library: Vec<SkillDefinition>,
    /// All class definitions loaded from the library.
    pub class_library: Vec<ClassDefinition>,
    /// All tree chains loaded from the library.
    pub tree_library: Vec<TreeChain>,
    /// All profession definitions loaded from the library.
    pub profession_library: Vec<ProfessionDefinition>,
    /// Whether the help bar is visible (toggled with ?).
    pub show_help: bool,
    /// Whether the quit confirmation popup is showing.
    pub show_quit_confirm: bool,
}

impl App {
    /// Create a new App with default state pointing to the given data directory.
    pub fn new(data_dir: PathBuf) -> (a: Self)
        ensures
            a.active_tab == Tab::Character,
            a.running,
            a.data_dir == data_dir,
            a.current_character is None,
            a.skill_library@.len() == 0,
            a.class_library@.len() == 0,
            a.tree_library@.len() == 0,
            a.profession_library@.len() == 0,
            !a.show_help,
            !a.show_quit_confirm,
    {
        App {
            active_tab: Tab::Character,
            running: true,
            data_dir,
            current_character: None,
            skill_library: Vec::new(),
            class_library: Vec::new(),
            tree_library: Vec::new(),
            profession_library: Vec::new(),
            show_help: false,
            show_quit_confirm: false,
        }
    }

    /// Make a freshly loaded character the active one and show its panel.
    pub fn open_character(&mut self, character: Character)
        ensures
            final(self).current_character == Some(character),
            final(self).active_tab == Tab::SystemPanel,
            *final(self) == (App { current_character: Some(character), active_tab: Tab::SystemPanel, ..*old(self) }),
    {
        self.current_character = Some(character);
        self.active_tab = Tab::SystemPanel;
    }
}

/// What the main loop does with a key after the global handling.
#[derive(Debug, Clone, Copy, PartialEq, Eq, Structural)]
pub enum GlobalOutcome {
    /// The key was used up here.
    Consumed,
    /// Reload every data file now.
    Reload,
    /// Hand the key to the active tab.
    Dispatch,
}

/// Global keys, before any tab sees them. While the quit confirmation shows,
/// `y` stops the app and `n` or Esc closes it; every key is used up. Otherwise
/// Tab cycles tabs (unless the active tab wants it, `tab_wanted`), `?` toggles
/// help, `q` asks for quit confirmation and `r` asks for a reload; any other
/// key goes to the active tab.
pub fn handle_global_key(app: &mut App, key: Key, tab_wanted: bool) -> (r: GlobalOutcome)
    ensures
        old(app).show_quit_confirm ==> r == GlobalOutcome::Consumed && *final(app) == (
            if key.code == KeyCode::Char('y') {
                App { running: false, ..*old(app) }
            } else if key.code == KeyCode::Char('n') || key.code == KeyCode::Esc {
                App { show_quit_confirm: false, ..*old(app) }
            } else {
                *old(app)
            }
        ),
        !old(app).show_quit_confirm ==> (
            if key.code == KeyCode::Tab && !tab_wanted {
                r == GlobalOutcome::Consumed && *final(app) == (App { active_tab: tab_next(old(app).active_tab), ..*old(app) })
            } else if key.code == KeyCode::Char('?') {
                r == GlobalOutcome::Consumed && *final(app) == (App { show_help: !old(app).show_help, ..*old(app) })
            } else if key.code == KeyCode::Char('q') {
                r == GlobalOutcome::Consumed && *final(app) == (App { show_quit_confirm: true, ..*old(app) })
            } else if key.code == KeyCode::Char('r') {
                r == GlobalOutcome::Reload && *final(app) == *old(app)
            } else {
                r == GlobalOutcome::Dispatch && *final(app) == *old(app)
            }
        ),
{
    if app.show_quit_confirm {
        match key.code {
            KeyCode::Char('y') => { app.running = false; },
            KeyCode::Char('n') | KeyCode::Esc => { app.show_quit_confirm = false; },
            _ => {},
        }
        return GlobalOutcome::Consumed;
    }
    match key.code {
        KeyCode::Tab if !tab_wanted => {
            app.active_tab = app.active_tab.next();
            GlobalOutcome::Consumed
        },
        KeyCode::Char('?') => {
            app.show_help = !app.show_help;
            GlobalOutcome::Consumed
        },
        KeyCode::Char('q') => {
            app.show_quit_confirm = true;
            GlobalOutcome::Consumed
        },
        KeyCode::Char('r') => GlobalOutcome::Reload,
        _ => GlobalOutcome::Dispatch,
    }
}

/// Milliseconds between two looks at the data files' modification times.
pub const RELOAD_INTERVAL_MS: u64 = 2000;

/// Modification times of the data files as just read (None: the file is
/// missing or its time unreadable), each as nanoseconds since the epoch.
#[derive(Debug, Clone, Copy, PartialEq, Eq, Structural)]
pub struct FileStamps {
    pub skills: Option<u128>,
    pub classes: Option<u128>,
    pub trees: Option<u128>,
    pub professions: Option<u128>,
    pub characters_dir: Option<u128>,
    pub active_character: Option<u128>,
}

/// Which data files to reload.
#[derive(Debug, Clone, Copy, PartialEq, Eq, Structural)]
pub struct ReloadPlan {
    pub skills: bool,
    pub classes: bool,
    pub trees: bool,
    pub professions: bool,
    /// Refresh the list of saved characters.
    pub characters: bool,
    /// Reload the active character from its file.
    pub active_character: bool,
}

/// Tracks file modification times, to reload data when files change.
pub struct DataReloader {
    /// Time of the last look, in milliseconds of a monotonic clock.
    pub last_check_ms: u64,
    pub mtime_skills: Option<u128>,
    pub mtime_classes: Option<u128>,
    pub mtime_trees: Option<u128>,
    pub mtime_professions: Option<u128>,
    pub mtime_characters: Option<u128>,
    pub mtime_active_char: Option<u128>,
}

/// A file needs reloading when it exists and its time differs from the
/// one last recorded.
pub open spec fn stamp_changed(recorded: Option<u128>, seen: Option<u128>) -> bool {
    match seen {
        Some(t) => recorded != Some(t),
        None => false,
    }
}

/// The time recorded after a look: the new time when the file exists.
pub open spec fn stamp_after(recorded: Option<u128>, seen: Option<u128>) -> Option<u128> {
    match seen {
        Some(t) => Some(t),
        None => recorded,
    }
}

/// Record a newly seen time; returns whether the file changed.
fn update_stamp(recorded: &mut Option<u128>, seen: Option<u128>) -> (changed: bool)
    ensures
        changed == stamp_changed(*old(recorded), seen),
        *final(recorded) == stamp_after(*old(recorded), seen),
{
    match seen {
        Some(t) => {
            let changed = match *recorded {
                Some(r) => r != t,
                None => true,
            };
            *recorded = Some(t);
            changed
        },
        None => false,
    }
}

impl DataReloader {
    /// Create a reloader that has seen no file yet; `now_ms` is the time of
    /// creation, which counts as the last look.
    pub fn new(now_ms: u64) -> (r: Self)
        ensures
            r.last_check_ms == now_ms,
            r.mtime_skills is None,
            r.mtime_classes is None,
            r.mtime_trees is None,
            r.mtime_professions is None,
            r.mtime_characters is None,
            r.mtime_active_char is None,
    {
        DataReloader {
            last_check_ms: now_ms,
            mtime_skills: None,
            mtime_classes: None,
            mtime_trees: None,
            mtime_professions: None,
            mtime_characters: None,
            mtime_active_char: None,
        }
    }

    /// Whether a look at the files is due: at least the interval has passed
    /// since the last one, which then becomes `now_ms`.
    pub fn check_due(&mut self, now_ms: u64) -> (due: bool)
        ensures
            due == (now_ms >= old(self).last_check_ms && now_ms - old(self).last_check_ms >= RELOAD_INTERVAL_MS),
            due ==> final(self).last_check_ms == now_ms,
            !due ==> final(self).last_check_ms == old(self).last_check_ms,
            final(self).mtime_skills == old(self).mtime_skills,
            final(self).mtime_classes == old(self).mtime_classes,
            final(self).mtime_trees == old(self).mtime_trees,
            final(self).mtime_professions == old(self).mtime_professions,
            final(self).mtime_characters == old(self).mtime_characters,
            final(self).mtime_active_char == old(self).mtime_active_char,
    {
        let elapsed = now_ms.saturating_sub(self.last_check_ms);
        if elapsed < RELOAD_INTERVAL_MS {
            return false;
        }
        self.last_check_ms = now_ms;
        true
    }

    /// Forget every recorded time, so that the next look reloads every file
    /// that exists.
    pub fn forget_stamps(&mut self)
        ensures
            final(self).last_check_ms == old(self).last_check_ms,
            final(self).mtime_skills is None,
            final(self).mtime_classes is None,
            final(self).mtime_trees is None,
            final(self).mtime_professions is None,
            final(self).mtime_characters is None,
            final(self).mtime_active_char is None,
    {
        self.mtime_skills = None;
        self.mtime_classes = None;
        self.mtime_trees = None;
        self.mtime_professions = None;
        self.mtime_characters = None;
        self.mtime_active_char = None;
    }

    /// Compare the times just read with those recorded, record the new ones
    /// and say which files to reload. The active character's time is only
    /// followed while a character is active (`has_active`); otherwise it is
    /// forgotten.
    pub fn plan_reload(&mut self, seen: FileStamps, has_active: bool) -> (plan: ReloadPlan)
        ensures
            plan.skills == stamp_changed(old(self).mtime_skills, seen.skills),
            plan.classes == stamp_changed(old(self).mtime_classes, seen.classes),
            plan.trees == stamp_changed(old(self).mtime_trees, seen.trees),
            plan.professions == stamp_changed(old(self).mtime_professions, seen.professions),
            plan.characters == stamp_changed(old(self).mtime_characters, seen.characters_dir),
            plan.active_character == (has_active && stamp_changed(old(self).mtime_active_char, seen.active_character)),
            final(self).last_check_ms == old(self).last_check_ms,
            final(self).mtime_skills == stamp_after(old(self).mtime_skills, seen.skills),
            final(self).mtime_classes == stamp_after(old(self).mtime_classes, seen.classes),
            final(self).mtime_trees == stamp_after(old(self).mtime_trees, seen.trees),
            final(self).mtime_professions == stamp_after(old(self).mtime_professions, seen.professions),
            final(self).mtime_characters == stamp_after(old(self).mtime_characters, seen.characters_dir),
            final(self).mtime_active_char == (if has_active {
                stamp_after(old(self).mtime_active_char, seen.active_character)
            } else {
                None
            }),
    {
        let skills = update_stamp(&mut self.mtime_skills, seen.skills);
        let classes = update_stamp(&mut self.mtime_classes, seen.classes);
        let trees = update_stamp(&mut self.mtime_trees, seen.trees);
        let professions = update_stamp(&mut self.mtime_professions, seen.professions);
        let characters = update_stamp(&mut self.mtime_characters, seen.characters_dir);
        let active_character = if has_active {
            update_stamp(&mut self.mtime_active_char, seen.active_character)
        } else {
            self.mtime_active_char = None;
            false
        };
        ReloadPlan { skills, classes, trees, professions, characters, active_character }
    }
}

/// Right after the recorded times are forgotten, every file that exists is
/// reloaded (the active character's only while one is active).
pub proof fn lemma_forgotten_stamps_reload_all(seen: FileStamps)
    ensures
        stamp_changed(None, seen.skills) == (seen.skills is Some),
        stamp_changed(None, seen.classes) == (seen.classes is Some),
        stamp_changed(None, seen.trees) == (seen.trees is Some),
        stamp_changed(None, seen.professions) == (seen.professions is Some),
        stamp_changed(None, seen.characters_dir) == (seen.characters_dir is Some),
        stamp_changed(None, seen.active_character) == (seen.active_character is Some),
{
}

/// Looking twice at unchanged files reloads nothing the second time.
pub proof fn lemma_second_look_is_quiet(recorded: Option<u128>, seen: Option<u128>)
    ensures
        !stamp_changed(stamp_after(recorded, seen), seen),
{
}

} // verus!
