use vstd::prelude::*;
use crate::text::strings_view;

verus! {

/// Definition of a class in the library.
/// Classes grant skills, a passive, and bonus attribute points per level.
#[derive(Debug, Clone)]
pub struct ClassDefinition {
    pub name: String,
    pub description: String,
    /// Names of skills granted by this class.
    pub skills: Vec<String>,
    /// Name of the passive skill this class provides.
    pub passive_name: String,
    /// Description of the passive skill.
    pub passive_description: String,
    /// Fixed attribute bonuses applied directly each level-up.
    pub bonus_str: u32,
    pub bonus_agi: u32,
    pub bonus_end: u32,
    pub bonus_int: u32,
    pub bonus_wis: u32,
    pub bonus_per: u32,
    /// Free unspent attribute points added to the pool each level-up.
    pub bonus_free_points: u32,
}

/// A character's active class instance.
#[derive(Debug, Clone)]
pub struct CharacterClass {
    /// Name of the ClassDefinition this refers to.
    pub definition_name: String,
    /// Current class level (leveled through activity, not XP).
    pub level: u32,
    /// Current evolution rank of the class's passive.
    pub passive_rank: u32,
}

/// A class instance of a character, with its name as a character sequence.
pub struct CharacterClassView {
    pub name: Seq<char>,
    pub level: u32,
    pub passive_rank: u32,
}

impl View for CharacterClass {
    type V = CharacterClassView;

    open spec fn view(&self) -> CharacterClassView {
        CharacterClassView { name: self.definition_name@, level: self.level, passive_rank: self.passive_rank }
    }
}

/// A class definition with its texts as character sequences.
pub struct ClassDefinitionView {
    pub name: Seq<char>,
    pub description: Seq<char>,
    pub skills: Seq<Seq<char>>,
    pub passive_name: Seq<char>,
    pub passive_description: Seq<char>,
    pub bonus_str: u32,
    pub bonus_agi: u32,
    pub bonus_end: u32,
    pub bonus_int: u32,
    pub bonus_wis: u32,
    pub bonus_per: u32,
    pub bonus_free_points: u32,
}

impl View for ClassDefinition {
    type V = ClassDefinitionView;

    open spec fn view(&self) -> ClassDefinitionView {
        ClassDefinitionView {
            name: self.name@,
            description: self.description@,
            skills: strings_view(self.skills@),
            passive_name: self.passive_name@,
            passive_description: self.passive_description@,
            bonus_str: self.bonus_str,
            bonus_agi: self.bonus_agi,
            bonus_end: self.bonus_end,
            bonus_int: self.bonus_int,
            bonus_wis: self.bonus_wis,
            bonus_per: self.bonus_per,
            bonus_free_points: self.bonus_free_points,
        }
    }
}

} // verus!
