//! The logic of the command-line operations: creating characters,
//! applying updates to them, and editing the skill and class libraries.
//! Reading and writing files happens around these functions.
use vstd::prelude::*;
use crate::models::attribute::{AttributeKind, Attributes};
use crate::models::character::{Character, CharacterInnateSkill, CharacterSkill};
use crate::models::skill::{SkillCategory, SkillDefinition, SkillType};
use crate::collections::first_where;

pub mod parse;
pub mod update;
pub mod library;

verus! {

/// Why a command was refused, with the names it concerns.
#[derive(Debug, Clone)]
pub enum CommandErrorOf<S> {
    /// A character with this name is already saved.
    CharacterExists(S),
    /// An attribute given at creation lies outside 1 to 10.
    AttributeOutOfRange(AttributeKind, u32),
    /// The character is already at the top grade.
    MaxGrade,
    /// A counter would exceed the largest u32.
    Overflow,
    /// A kill argument is not of the form `enemy_level:count`.
    InvalidKillFormat(S),
    /// The enemy level of a kill argument is not a number.
    InvalidEnemyLevel,
    /// The count of a kill argument is not a number.
    InvalidKillCount,
    /// The character already has this skill.
    SkillAlreadyOwned(S),
    /// The skill library has no skill of this name.
    SkillNotInLibrary(S),
    /// The character has no skill of this name.
    SkillNotOnCharacter(S),
    /// All class slots of the character are taken.
    ClassSlotLimit,
    /// The character already has this class.
    ClassAlreadyOwned(S),
    /// The class library has no class of this name.
    ClassNotInLibrary(S),
    /// The character has no class of this name.
    ClassNotOnCharacter(S),
    /// An attribute argument is not of the form `kind:points`.
    InvalidAttrFormat(S),
    /// The attribute code is not one of str, agi, end, int, wis, per.
    UnknownAttribute(S),
    /// The points of an attribute argument are not a number.
    InvalidPointValue,
    /// Fewer unspent points than asked for (have, need).
    NotEnoughPoints(u32, u32),
    /// Removing the points would take the attribute below 1.
    CannotReduceBelowOne(AttributeKind),
    /// The skill library already has a skill of this name.
    SkillExists(S),
    /// The skill library has no skill of this name.
    SkillNotFound(S),
    /// The category is not acquired, innate or class.
    UnknownCategory(S),
    /// The type is not active or passive.
    UnknownType(S),
    /// The class library already has a class of this name.
    ClassExists(S),
    /// The class library has no class of this name.
    ClassNotFound(S),
}

/// A refused command, with names as strings.
pub type CommandError = CommandErrorOf<String>;

/// A refused command, with names as character sequences.
pub type CommandErrorView = CommandErrorOf<Seq<char>>;

impl View for CommandErrorOf<String> {
    type V = CommandErrorOf<Seq<char>>;

    open spec fn view(&self) -> CommandErrorOf<Seq<char>> {
        match self {
            CommandErrorOf::CharacterExists(s) => CommandErrorOf::CharacterExists(s@),
            CommandErrorOf::AttributeOutOfRange(k, v) => CommandErrorOf::AttributeOutOfRange(*k, *v),
            CommandErrorOf::MaxGrade => CommandErrorOf::MaxGrade,
            CommandErrorOf::Overflow => CommandErrorOf::Overflow,
            CommandErrorOf::InvalidKillFormat(s) => CommandErrorOf::InvalidKillFormat(s@),
            CommandErrorOf::InvalidEnemyLevel => CommandErrorOf::InvalidEnemyLevel,
            CommandErrorOf::InvalidKillCount => CommandErrorOf::InvalidKillCount,
            CommandErrorOf::SkillAlreadyOwned(s) => CommandErrorOf::SkillAlreadyOwned(s@),
            CommandErrorOf::SkillNotInLibrary(s) => CommandErrorOf::SkillNotInLibrary(s@),
            CommandErrorOf::SkillNotOnCharacter(s) => CommandErrorOf::SkillNotOnCharacter(s@),
            CommandErrorOf::ClassSlotLimit => CommandErrorOf::ClassSlotLimit,
            CommandErrorOf::ClassAlreadyOwned(s) => CommandErrorOf::ClassAlreadyOwned(s@),
            CommandErrorOf::ClassNotInLibrary(s) => CommandErrorOf::ClassNotInLibrary(s@),
            CommandErrorOf::ClassNotOnCharacter(s) => CommandErrorOf::ClassNotOnCharacter(s@),
            CommandErrorOf::InvalidAttrFormat(s) => CommandErrorOf::InvalidAttrFormat(s@),
            CommandErrorOf::UnknownAttribute(s) => CommandErrorOf::UnknownAttribute(s@),
            CommandErrorOf::InvalidPointValue => CommandErrorOf::InvalidPointValue,
            CommandErrorOf::NotEnoughPoints(h, n) => CommandErrorOf::NotEnoughPoints(*h, *n),
            CommandErrorOf::CannotReduceBelowOne(k) => CommandErrorOf::CannotReduceBelowOne(*k),
            CommandErrorOf::SkillExists(s) => CommandErrorOf::SkillExists(s@),
            CommandErrorOf::SkillNotFound(s) => CommandErrorOf::SkillNotFound(s@),
            CommandErrorOf::UnknownCategory(s) => CommandErrorOf::UnknownCategory(s@),
            CommandErrorOf::UnknownType(s) => CommandErrorOf::UnknownType(s@),
            CommandErrorOf::ClassExists(s) => CommandErrorOf::ClassExists(s@),
            CommandErrorOf::ClassNotFound(s) => CommandErrorOf::ClassNotFound(s@),
        }
    }
}

/// A result whose error is seen through its view.
pub open spec fn result_view<T>(r: Result<T, CommandError>) -> Result<T, CommandErrorView> {
    match r {
        Ok(v) => Ok(v),
        Err(e) => Err(e@),
    }
}

/// The first attribute, in display order, whose value lies outside 1 to 10.
pub open spec fn first_out_of_range(v: [u32; 6]) -> Option<int> {
    if !(1 <= v[0] <= 10) { Some(0) }
    else if !(1 <= v[1] <= 10) { Some(1) }
    else if !(1 <= v[2] <= 10) { Some(2) }
    else if !(1 <= v[3] <= 10) { Some(3) }
    else if !(1 <= v[4] <= 10) { Some(4) }
    else if !(1 <= v[5] <= 10) { Some(5) }
    else { None }
}

/// The creation values are refused exactly when one lies outside 1 to 10,
/// and the refusal names the first such value.
pub proof fn lemma_out_of_range_is_outside_one_to_ten(v: [u32; 6])
    ensures
        first_out_of_range(v) is None <==> forall|k: int| 0 <= k < 6 ==> 1 <= #[trigger] v@[k] <= 10,
        first_out_of_range(v) matches Some(i) ==> 0 <= i < 6 && !(1 <= v@[i] <= 10)
            && forall|k: int| 0 <= k < i ==> 1 <= #[trigger] v@[k] <= 10,
{
    if first_out_of_range(v) is None {
        assert forall|k: int| 0 <= k < 6 implies 1 <= #[trigger] v@[k] <= 10 by {
            assert(v@[k] == v[k]);
        }
    }
}

/// Build a new character (Grade G, Level 0) from the creation arguments.
/// A name that is already saved (`exists`) is refused first, then the first
/// attribute outside 1 to 10; an innate skill starts at level 0.
pub fn create_character(
    exists: bool,
    name: String,
    str_val: u32,
    agi: u32,
    end: u32,
    int_val: u32,
    wis: u32,
    per: u32,
    innate: Option<String>,
) -> (r: Result<Character, CommandError>)
    ensures
        !exists ==> (r is Ok <==> (1 <= str_val <= 10 && 1 <= agi <= 10 && 1 <= end <= 10
            && 1 <= int_val <= 10 && 1 <= wis <= 10 && 1 <= per <= 10)),
        exists ==> r is Err && r->Err_0@ == CommandErrorOf::<Seq<char>>::CharacterExists(name@),
        !exists ==> match first_out_of_range([str_val, agi, end, int_val, wis, per]) {
            Some(i) => r is Err && r->Err_0@ == CommandErrorOf::<Seq<char>>::AttributeOutOfRange(
                crate::models::attribute::attribute_at(i),
                [str_val, agi, end, int_val, wis, per]@[i],
            ),
            None => r is Ok && {
                let c = r->Ok_0;
                &&& c.name@ == name@
                &&& c.attributes == (Attributes {
                    strength: str_val,
                    agility: agi,
                    endurance: end,
                    intelligence: int_val,
                    wisdom: wis,
                    perception: per,
                })
                &&& c.grade == crate::models::grade::Grade::G
                &&& c.race@ == "Human"@
                &&& c.level == 0
                &&& c.xp_bits == 0
                &&& c.unspent_attribute_points == 0
                &&& c.skills@.len() == 0
                &&& c.classes@.len() == 0
                &&& c.class_slots == 1
                &&& c.bonus_attribute_points_per_level == 0
                &&& match innate {
                    Some(n) => c.innate_skill is Some && c.innate_skill->0.definition_name@ == n@
                        && c.innate_skill->0.level == 0,
                    None => c.innate_skill is None,
                }
            },
        },
{
    if exists {
        return Err(CommandErrorOf::CharacterExists(name));
    }
    let values: [u32; 6] = [str_val, agi, end, int_val, wis, per];
    let mut i: usize = 0;
    while i < 6
        invariant
            !exists,
            i <= 6,
            values == [str_val, agi, end, int_val, wis, per],
            forall|j: int| 0 <= j < i ==> 1 <= #[trigger] values@[j] <= 10,
        decreases 6 - i,
    {
        if values[i] < 1 || values[i] > 10 {
            let kind = AttributeKind::from_index(i);
            return Err(CommandErrorOf::AttributeOutOfRange(kind, values[i]));
        }
        i = i + 1;
    }
    let attrs = Attributes::new_clamped(str_val, agi, end, int_val, wis, per);
    assert(attrs.strength == str_val && attrs.agility == agi && attrs.endurance == end);
    let innate_skill = match innate {
        Some(skill_name) => Some(CharacterInnateSkill { definition_name: skill_name, level: 0 }),
        None => None,
    };
    Ok(Character::new(name, attrs, innate_skill))
}

/// What a clear command removes.
#[derive(Debug, Clone, Copy, PartialEq, Eq, Structural)]
pub enum ClearTarget {
    /// Delete all saved characters.
    Characters,
    /// Empty the skill library.
    Skills,
    /// Empty the class library.
    Classes,
    /// Clear everything (characters and all libraries).
    All,
}

impl ClearTarget {
    /// Which stores a clear empties: (characters, skills, classes).
    pub fn clears(&self) -> (r: (bool, bool, bool))
        ensures
            r.0 == (*self == ClearTarget::Characters || *self == ClearTarget::All),
            r.1 == (*self == ClearTarget::Skills || *self == ClearTarget::All),
            r.2 == (*self == ClearTarget::Classes || *self == ClearTarget::All),
    {
        match self {
            ClearTarget::Characters => (true, false, false),
            ClearTarget::Skills => (false, true, false),
            ClearTarget::Classes => (false, false, true),
            ClearTarget::All => (true, true, true),
        }
    }

    /// What the confirmation message calls the cleared data.
    pub fn label(&self) -> (s: &'static str)
        ensures
            s@ == match *self {
                ClearTarget::Characters => "characters"@,
                ClearTarget::Skills => "skill library"@,
                ClearTarget::Classes => "class library"@,
                ClearTarget::All => "all data"@,
            },
    {
        match self {
            ClearTarget::Characters => "characters",
            ClearTarget::Skills => "skill library",
            ClearTarget::Classes => "class library",
            ClearTarget::All => "all data",
        }
    }
}

/// The class-library subcommands.
#[derive(Debug, Clone)]
pub enum ClassAction {
    /// List all classes.
    List,
    /// Show one class definition.
    Show { name: String },
    /// Create a class; `skills` is a comma-separated list of skill names.
    Create {
        name: String,
        description: String,
        passive_name: String,
        passive_desc: String,
        skills: String,
        bonus_str: u32,
        bonus_agi: u32,
        bonus_end: u32,
        bonus_int: u32,
        bonus_wis: u32,
        bonus_per: u32,
        bonus_free: u32,
    },
    /// Delete a class.
    Delete { name: String },
    /// Change a class: the given fields are replaced, one skill may be
    /// removed and one added.
    Update {
        name: String,
        description: Option<String>,
        passive_name: Option<String>,
        passive_desc: Option<String>,
        add_skill: Option<String>,
        remove_skill: Option<String>,
        bonus_str: Option<u32>,
        bonus_agi: Option<u32>,
        bonus_end: Option<u32>,
        bonus_int: Option<u32>,
        bonus_wis: Option<u32>,
        bonus_per: Option<u32>,
        bonus_free: Option<u32>,
    },
}

/// The name of a skill category in listings.
pub open spec fn category_label(c: SkillCategory) -> Seq<char> {
    match c {
        SkillCategory::Acquired => "Acquired"@,
        SkillCategory::Innate => "Innate"@,
        SkillCategory::Class => "Class"@,
    }
}

/// The name of a skill type in listings.
pub open spec fn type_label(t: SkillType) -> Seq<char> {
    match t {
        SkillType::Active => "Active"@,
        SkillType::Passive => "Passive"@,
    }
}

/// The name of a skill category in listings.
pub fn category_name(c: SkillCategory) -> (s: String)
    ensures
        s@ == category_label(c),
{
    match c {
        SkillCategory::Acquired => "Acquired".to_owned(),
        SkillCategory::Innate => "Innate".to_owned(),
        SkillCategory::Class => "Class".to_owned(),
    }
}

/// The name of a skill type in listings.
pub fn skill_type_name(t: SkillType) -> (s: String)
    ensures
        s@ == type_label(t),
{
    match t {
        SkillType::Active => "Active".to_owned(),
        SkillType::Passive => "Passive".to_owned(),
    }
}

/// The category and type labels a character skill is shown with: those of
/// the first library skill with its name, or "Unknown" for both.
pub open spec fn skill_labels_of(lib: Seq<SkillDefinition>, name: Seq<char>) -> (Seq<char>, Seq<char>) {
    match first_where(lib, |d: SkillDefinition| d.name@ == name) {
        Some(i) => (category_label(lib[i].category), type_label(lib[i].skill_type)),
        None => ("Unknown"@, "Unknown"@),
    }
}

/// The category and type labels of each character skill, in order.
pub fn skill_labels(skills: &Vec<CharacterSkill>, lib: &Vec<SkillDefinition>) -> (r: Vec<(String, String)>)
    ensures
        r@.len() == skills@.len(),
        forall|i: int| 0 <= i < skills@.len() ==> ((#[trigger] r@[i]).0@, r@[i].1@) == skill_labels_of(lib@, skills@[i].definition_name@),
{
    let mut r: Vec<(String, String)> = Vec::new();
    let mut i: usize = 0;
    while i < skills.len()
        invariant
            i <= skills@.len(),
            r@.len() == i,
            forall|k: int| 0 <= k < i ==> ((#[trigger] r@[k]).0@, r@[k].1@) == skill_labels_of(lib@, skills@[k].definition_name@),
        decreases skills@.len() - i,
    {
        let name = &skills[i].definition_name;
        let ghost pred = |d: SkillDefinition| d.name@ == name@;
        let found = crate::collections::position_where(
            lib,
            |d: &SkillDefinition| -> (b: bool)
                ensures b == (d.name@ == name@)
            { d.name == *name },
            Ghost(pred),
        );
        proof {
            crate::collections::lemma_first_where(lib@, pred);
            match found {
                Some(j) => { crate::collections::lemma_first_where_unique(lib@, pred, j as int); },
                None => {},
            }
        }
        let labels = match found {
            Some(j) => (category_name(lib[j].category), skill_type_name(lib[j].skill_type)),
            None => ("Unknown".to_owned(), "Unknown".to_owned()),
        };
        r.push(labels);
        i = i + 1;
    }
    r
}

} // verus!
