use vstd::prelude::*;
use crate::models::skill::SkillType;

verus! {

/// Hard cap on innate skill levels: no innate skill can exceed this.
pub const INNATE_ABSOLUTE_MAX_LEVEL: u32 = 100;

/// A single effect on an innate skill (e.g., "Learning Boost +10").
/// Simpler than an acquired skill effect: no unlock gating, no rank dependency.
///
/// The base value is an IEEE-754 double held by its bit pattern: the
/// library stores and moves it but never does arithmetic on it.
#[derive(Debug, Clone)]
pub struct InnateEffect {
    pub name: String,
    /// Bit pattern of the base value.
    pub base_value_bits: u64,
}

/// An evolution option that unlocks at a specific tier.
/// Each tier can grant a new form of the innate skill with different effects.
#[derive(Debug, Clone)]
pub struct InnateEvolution {
    /// The tier at which this evolution becomes available.
    pub tier: u32,
    pub name: String,
    pub description: String,
    pub effects: Vec<InnateEffect>,
}

/// Full definition of an innate skill.
/// Innate skills have no mastery ranks: they level linearly up to their max level.
/// The `growable` flag indicates whether the skill can gain levels through use.
#[derive(Debug, Clone)]
pub struct InnateSkillDefinition {
    pub name: String,
    pub skill_type: SkillType,
    pub description: String,
    /// Configured max level (may exceed the absolute cap).
    pub max_level: u32,
    /// Whether this skill can grow through use (vs. being fixed at creation level).
    pub growable: bool,
    pub effects: Vec<InnateEffect>,
    /// Tier-based evolutions that transform the skill.
    pub evolutions: Vec<InnateEvolution>,
}

impl InnateSkillDefinition {
    /// Returns the actual max level, capped at the absolute limit of 100.
    pub fn effective_max_level(&self) -> (m: u32)
        ensures
            m == (if self.max_level < INNATE_ABSOLUTE_MAX_LEVEL {
                self.max_level
            } else {
                INNATE_ABSOLUTE_MAX_LEVEL
            }),
    {
        if self.max_level < INNATE_ABSOLUTE_MAX_LEVEL {
            self.max_level
        } else {
            INNATE_ABSOLUTE_MAX_LEVEL
        }
    }
}

} // verus!
