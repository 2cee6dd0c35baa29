use vstd::prelude::*;

verus! {

/// Whether a skill is learned (Acquired), born with (Innate), or granted by a class.
#[derive(Debug, Clone, Copy, PartialEq, Eq, Structural)]
pub enum SkillCategory {
    Acquired,
    Innate,
    Class,
}

/// Whether a skill requires activation (Active) or is always on (Passive).
#[derive(Debug, Clone, Copy, PartialEq, Eq, Structural)]
pub enum SkillType {
    Active,
    Passive,
}

/// Mastery progression ranks for acquired skills.
/// Each rank has a level cap, tree point yield, and scaling rate.
/// Ordered from weakest (Novice) to strongest (Grandmaster).
#[derive(Debug, Clone, Copy, PartialEq, Eq, Structural, PartialOrd, Ord)]
pub enum MasteryRank {
    Novice,
    Apprentice,
    Journeyman,
    Advanced,
    Expert,
    Master,
    Grandmaster,
}

/// The position of a rank in the progression, Novice being 0.
pub open spec fn rank_index(r: MasteryRank) -> nat {
    match r {
        MasteryRank::Novice => 0,
        MasteryRank::Apprentice => 1,
        MasteryRank::Journeyman => 2,
        MasteryRank::Advanced => 3,
        MasteryRank::Expert => 4,
        MasteryRank::Master => 5,
        MasteryRank::Grandmaster => 6,
    }
}

/// The rank at a position of the progression (positions 0 to 6).
pub open spec fn rank_at(i: int) -> MasteryRank {
    if i == 0 { MasteryRank::Novice }
    else if i == 1 { MasteryRank::Apprentice }
    else if i == 2 { MasteryRank::Journeyman }
    else if i == 3 { MasteryRank::Advanced }
    else if i == 4 { MasteryRank::Expert }
    else if i == 5 { MasteryRank::Master }
    else { MasteryRank::Grandmaster }
}

/// Level cap of each rank.
pub open spec fn rank_max_level(r: MasteryRank) -> u32 {
    match r {
        MasteryRank::Novice => 10,
        MasteryRank::Apprentice => 25,
        MasteryRank::Journeyman => 50,
        MasteryRank::Advanced => 100,
        MasteryRank::Expert => 250,
        MasteryRank::Master => 500,
        MasteryRank::Grandmaster => 1000,
    }
}

/// Display name of each rank.
pub open spec fn rank_name(r: MasteryRank) -> Seq<char> {
    match r {
        MasteryRank::Novice => "Novice"@,
        MasteryRank::Apprentice => "Apprentice"@,
        MasteryRank::Journeyman => "Journeyman"@,
        MasteryRank::Advanced => "Advanced"@,
        MasteryRank::Expert => "Expert"@,
        MasteryRank::Master => "Master"@,
        MasteryRank::Grandmaster => "Grandmaster"@,
    }
}

impl MasteryRank {
    /// Maximum skill level achievable at this rank.
    pub fn max_level(&self) -> (m: u32)
        ensures
            m == rank_max_level(*self),
    {
        match self {
            MasteryRank::Novice => 10,
            MasteryRank::Apprentice => 25,
            MasteryRank::Journeyman => 50,
            MasteryRank::Advanced => 100,
            MasteryRank::Expert => 250,
            MasteryRank::Master => 500,
            MasteryRank::Grandmaster => 1000,
        }
    }

    /// Tree points earned per skill level at this rank: one more than the
    /// rank's position, from 1 (Novice) to 7 (Grandmaster).
    pub fn tree_points_per_level(&self) -> (p: u32)
        ensures
            p == rank_index(*self) + 1,
    {
        match self {
            MasteryRank::Novice => 1,
            MasteryRank::Apprentice => 2,
            MasteryRank::Journeyman => 3,
            MasteryRank::Advanced => 4,
            MasteryRank::Expert => 5,
            MasteryRank::Master => 6,
            MasteryRank::Grandmaster => 7,
        }
    }

    /// Returns the next rank in the progression, or None at Grandmaster.
    pub fn next(&self) -> (r: Option<MasteryRank>)
        ensures
            match r {
                Some(n) => rank_index(*self) < 6 && rank_index(n) == rank_index(*self) + 1,
                None => *self == MasteryRank::Grandmaster,
            },
    {
        match self {
            MasteryRank::Novice => Some(MasteryRank::Apprentice),
            MasteryRank::Apprentice => Some(MasteryRank::Journeyman),
            MasteryRank::Journeyman => Some(MasteryRank::Advanced),
            MasteryRank::Advanced => Some(MasteryRank::Expert),
            MasteryRank::Expert => Some(MasteryRank::Master),
            MasteryRank::Master => Some(MasteryRank::Grandmaster),
            MasteryRank::Grandmaster => None,
        }
    }

    /// All ranks in progression order.
    pub fn all() -> (a: [MasteryRank; 7])
        ensures
            forall|i: int| 0 <= i < 7 ==> #[trigger] a@[i] == rank_at(i),
    {
        [
            MasteryRank::Novice,
            MasteryRank::Apprentice,
            MasteryRank::Journeyman,
            MasteryRank::Advanced,
            MasteryRank::Expert,
            MasteryRank::Master,
            MasteryRank::Grandmaster,
        ]
    }

    /// Display name for UI rendering.
    pub fn name(&self) -> (s: &'static str)
        ensures
            s@ == rank_name(*self),
    {
        match self {
            MasteryRank::Novice => "Novice",
            MasteryRank::Apprentice => "Apprentice",
            MasteryRank::Journeyman => "Journeyman",
            MasteryRank::Advanced => "Advanced",
            MasteryRank::Expert => "Expert",
            MasteryRank::Master => "Master",
            MasteryRank::Grandmaster => "Grandmaster",
        }
    }
}

/// A single effect that a skill provides (e.g., "Damage Boost +10").
/// The base value scales with level using the rank's increase rate.
/// Effects can be gated behind a minimum skill level via `unlock_level`.
///
/// The base value is an IEEE-754 double held by its bit pattern: the
/// library stores and moves it but never does arithmetic on it.
#[derive(Debug, Clone)]
pub struct SkillEffect {
    /// Optional name for this effect (e.g., "Damage Boost").
    pub name: Option<String>,
    /// Short description of what this effect does.
    pub description: String,
    /// Bit pattern of the base value.
    pub base_value_bits: u64,
    /// Skill level required before this effect activates.
    pub unlock_level: u32,
}

impl SkillEffect {
    /// Check if this effect is active at the given skill level.
    pub fn is_unlocked(&self, level: u32) -> (b: bool)
        ensures
            b == (level >= self.unlock_level),
    {
        level >= self.unlock_level
    }
}

/// Per-rank description and effects for an acquired skill.
/// Each mastery rank can have its own flavor text and unique effects.
#[derive(Debug, Clone)]
pub struct RankDefinition {
    pub rank: MasteryRank,
    pub description: String,
    pub effects: Vec<SkillEffect>,
}

/// Full definition of a skill in the library.
/// Contains metadata and a list of rank definitions (one per mastery rank).
#[derive(Debug, Clone)]
pub struct SkillDefinition {
    pub name: String,
    pub category: SkillCategory,
    pub skill_type: SkillType,
    pub description: String,
    /// One entry per mastery rank that has been defined.
    pub ranks: Vec<RankDefinition>,
}

/// A skill effect with its texts as character sequences.
pub struct SkillEffectView {
    pub name: Option<Seq<char>>,
    pub description: Seq<char>,
    pub base_value_bits: u64,
    pub unlock_level: u32,
}

impl View for SkillEffect {
    type V = SkillEffectView;

    open spec fn view(&self) -> SkillEffectView {
        SkillEffectView {
            name: match self.name {
                Some(n) => Some(n@),
                None => None,
            },
            description: self.description@,
            base_value_bits: self.base_value_bits,
            unlock_level: self.unlock_level,
        }
    }
}

/// A rank definition with its texts as character sequences.
pub struct RankDefinitionView {
    pub rank: MasteryRank,
    pub description: Seq<char>,
    pub effects: Seq<SkillEffectView>,
}

/// The views of a list of effects.
pub open spec fn effects_view(v: Seq<SkillEffect>) -> Seq<SkillEffectView> {
    v.map_values(|e: SkillEffect| e@)
}

impl View for RankDefinition {
    type V = RankDefinitionView;

    open spec fn view(&self) -> RankDefinitionView {
        RankDefinitionView { rank: self.rank, description: self.description@, effects: effects_view(self.effects@) }
    }
}

/// A skill definition with its texts as character sequences.
pub struct SkillDefinitionView {
    pub name: Seq<char>,
    pub category: SkillCategory,
    pub skill_type: SkillType,
    pub description: Seq<char>,
    pub ranks: Seq<RankDefinitionView>,
}

/// The views of a list of rank definitions.
pub open spec fn ranks_view(v: Seq<RankDefinition>) -> Seq<RankDefinitionView> {
    v.map_values(|r: RankDefinition| r@)
}

impl View for SkillDefinition {
    type V = SkillDefinitionView;

    open spec fn view(&self) -> SkillDefinitionView {
        SkillDefinitionView {
            name: self.name@,
            category: self.category,
            skill_type: self.skill_type,
            description: self.description@,
            ranks: ranks_view(self.ranks@),
        }
    }
}

impl SkillEffect {
    /// A copy of this effect.
    pub fn duplicate(&self) -> (e: SkillEffect)
        ensures
            e@ == self@,
    {
        SkillEffect {
            name: match &self.name {
                Some(n) => Some(n.clone()),
                None => None,
            },
            description: self.description.clone(),
            base_value_bits: self.base_value_bits,
            unlock_level: self.unlock_level,
        }
    }
}

/// A copy of a list of effects.
pub fn duplicate_effects(v: &Vec<SkillEffect>) -> (r: Vec<SkillEffect>)
    ensures
        effects_view(r@) == effects_view(v@),
{
    let mut r: Vec<SkillEffect> = Vec::new();
    let mut i: usize = 0;
    while i < v.len()
        invariant
            i <= v@.len(),
            effects_view(r@) == effects_view(v@).take(i as int),
        decreases v@.len() - i,
    {
        let e = v[i].duplicate();
        let ghost before = r@;
        r.push(e);
        assert(effects_view(before.push(e)) =~= effects_view(before).push(e@));
        assert(effects_view(v@).take(i + 1) =~= effects_view(v@).take(i as int).push(v@[i as int]@));
        assert(effects_view(r@) =~= effects_view(v@).take(i + 1));
        i = i + 1;
    }
    assert(effects_view(v@).take(i as int) =~= effects_view(v@));
    r
}

impl RankDefinition {
    /// A copy of this rank definition.
    pub fn duplicate(&self) -> (r: RankDefinition)
        ensures
            r@ == self@,
    {
        RankDefinition { rank: self.rank, description: self.description.clone(), effects: duplicate_effects(&self.effects) }
    }
}

/// A copy of a list of rank definitions.
pub fn duplicate_ranks(v: &Vec<RankDefinition>) -> (r: Vec<RankDefinition>)
    ensures
        ranks_view(r@) == ranks_view(v@),
{
    let mut r: Vec<RankDefinition> = Vec::new();
    let mut i: usize = 0;
    while i < v.len()
        invariant
            i <= v@.len(),
            ranks_view(r@) == ranks_view(v@).take(i as int),
        decreases v@.len() - i,
    {
        let d = v[i].duplicate();
        let ghost before = r@;
        r.push(d);
        assert(ranks_view(before.push(d)) =~= ranks_view(before).push(d@));
        assert(ranks_view(v@).take(i + 1) =~= ranks_view(v@).take(i as int).push(v@[i as int]@));
        assert(ranks_view(r@) =~= ranks_view(v@).take(i + 1));
        i = i + 1;
    }
    assert(ranks_view(v@).take(i as int) =~= ranks_view(v@));
    r
}

/// Each rank after the first has a higher level cap than the one before it.
pub proof fn lemma_next_rank_raises_cap(r: MasteryRank, n: MasteryRank)
    requires
        rank_index(n) == rank_index(r) + 1,
    ensures
        rank_max_level(n) > rank_max_level(r),
{
}

/// Ranks are ordered: a later rank never has a lower level cap or tree point yield.
pub proof fn lemma_rank_order_monotone(r1: MasteryRank, r2: MasteryRank)
    requires
        rank_index(r1) <= rank_index(r2),
    ensures
        rank_max_level(r1) <= rank_max_level(r2),
{
}

/// Reading the rank at a position gives back that position.
pub proof fn lemma_rank_roundtrip(r: MasteryRank)
    ensures
        rank_at(rank_index(r) as int) == r,
{
}

} // verus!
