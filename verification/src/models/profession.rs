use vstd::prelude::*;
use crate::text::strings_view;

verus! {

/// Definition of a profession in the library.
/// Professions grant skills and a passive that evolves through achievements.
#[derive(Debug, Clone)]
pub struct ProfessionDefinition {
    pub name: String,
    pub description: String,
    /// Names of skills granted by this profession.
    pub skills: Vec<String>,
    /// Name of the passive skill this profession provides.
    pub passive_name: String,
    /// Description of the passive skill.
    pub passive_description: String,
}

/// A character's active profession instance.
#[derive(Debug, Clone)]
pub struct CharacterProfession {
    /// Name of the ProfessionDefinition this refers to.
    pub definition_name: String,
    /// Current profession level (leveled through activity, not XP).
    pub level: u32,
    /// Current evolution rank of the profession's passive.
    pub passive_rank: u32,
}

/// A profession definition with its texts as character sequences.
pub struct ProfessionDefinitionView {
    pub name: Seq<char>,
    pub description: Seq<char>,
    pub skills: Seq<Seq<char>>,
    pub passive_name: Seq<char>,
    pub passive_description: Seq<char>,
}

impl View for ProfessionDefinition {
    type V = ProfessionDefinitionView;

    open spec fn view(&self) -> ProfessionDefinitionView {
        ProfessionDefinitionView {
            name: self.name@,
            description: self.description@,
            skills: strings_view(self.skills@),
            passive_name: self.passive_name@,
            passive_description: self.passive_description@,
        }
    }
}

} // verus!
