use vstd::prelude::*;
use crate::models::skill::MasteryRank;

verus! {

/// How a level/skill requirement is compared (e.g., "level >= 10").
#[derive(Debug, Clone, Copy, PartialEq, Eq, Structural)]
pub enum Comparison {
    GreaterThan,
    LessThan,
    Equal,
    GreaterOrEqual,
    LessOrEqual,
}

/// A prerequisite that must be met before a tree unlocks.
/// Trees can require character level, skill proficiency, or achievements.
#[derive(Debug, Clone)]
pub enum UnlockRequirement {
    /// Character must meet a level threshold.
    Level { comparison: Comparison, value: u32 },
    /// Character must have a skill at a minimum rank and/or level.
    Skill { skill_name: String, min_rank: Option<MasteryRank>, min_level: Option<u32> },
    /// Character must have earned a named achievement.
    Achievement { name: String },
}

/// A milestone bonus that activates when a tree reaches a progress threshold.
/// Trees have exactly 4 milestones at 25%, 50%, 75%, and 100%.
#[derive(Debug, Clone)]
pub struct TreeMilestone {
    pub description: String,
}

/// A single tree with a point pool and milestone bonuses.
#[derive(Debug, Clone)]
pub struct TreeDefinition {
    pub name: String,
    pub description: String,
    /// Total points needed to fully complete this tree.
    pub max_points: u32,
    /// Exactly 4 milestones at 25%, 50%, 75%, 100% progress.
    pub milestones: [TreeMilestone; 4],
    /// Prerequisites to unlock this tree.
    pub requirements: Vec<UnlockRequirement>,
}

/// An unlock requirement with its texts as character sequences.
pub enum UnlockRequirementView {
    Level { comparison: Comparison, value: u32 },
    Skill { skill_name: Seq<char>, min_rank: Option<MasteryRank>, min_level: Option<u32> },
    Achievement { name: Seq<char> },
}

impl View for UnlockRequirement {
    type V = UnlockRequirementView;

    open spec fn view(&self) -> UnlockRequirementView {
        match self {
            UnlockRequirement::Level { comparison, value } => UnlockRequirementView::Level { comparison: *comparison, value: *value },
            UnlockRequirement::Skill { skill_name, min_rank, min_level } => UnlockRequirementView::Skill {
                skill_name: skill_name@,
                min_rank: *min_rank,
                min_level: *min_level,
            },
            UnlockRequirement::Achievement { name } => UnlockRequirementView::Achievement { name: name@ },
        }
    }
}

/// The views of a list of requirements.
pub open spec fn requirements_view(v: Seq<UnlockRequirement>) -> Seq<UnlockRequirementView> {
    v.map_values(|r: UnlockRequirement| r@)
}

impl UnlockRequirement {
    /// A copy of this requirement.
    pub fn duplicate(&self) -> (r: UnlockRequirement)
        ensures
            r@ == self@,
    {
        match self {
            UnlockRequirement::Level { comparison, value } => UnlockRequirement::Level { comparison: *comparison, value: *value },
            UnlockRequirement::Skill { skill_name, min_rank, min_level } => UnlockRequirement::Skill {
                skill_name: skill_name.clone(),
                min_rank: *min_rank,
                min_level: *min_level,
            },
            UnlockRequirement::Achievement { name } => UnlockRequirement::Achievement { name: name.clone() },
        }
    }
}

/// A copy of a list of requirements.
pub fn duplicate_requirements(v: &Vec<UnlockRequirement>) -> (r: Vec<UnlockRequirement>)
    ensures
        requirements_view(r@) == requirements_view(v@),
{
    let mut r: Vec<UnlockRequirement> = Vec::new();
    let mut i: usize = 0;
    while i < v.len()
        invariant
            i <= v@.len(),
            requirements_view(r@) == requirements_view(v@).take(i as int),
        decreases v@.len() - i,
    {
        let d = v[i].duplicate();
        let ghost before = r@;
        r.push(d);
        assert(requirements_view(before.push(d)) =~= requirements_view(before).push(d@));
        assert(requirements_view(v@).take(i + 1) =~= requirements_view(v@).take(i as int).push(v@[i as int]@));
        assert(requirements_view(r@) =~= requirements_view(v@).take(i + 1));
        i = i + 1;
    }
    assert(requirements_view(v@).take(i as int) =~= requirements_view(v@));
    r
}

/// A tree definition with its texts as character sequences.
pub struct TreeDefinitionView {
    pub name: Seq<char>,
    pub description: Seq<char>,
    pub max_points: u32,
    /// The four milestone descriptions.
    pub milestones: Seq<Seq<char>>,
    pub requirements: Seq<UnlockRequirementView>,
}

impl View for TreeDefinition {
    type V = TreeDefinitionView;

    open spec fn view(&self) -> TreeDefinitionView {
        TreeDefinitionView {
            name: self.name@,
            description: self.description@,
            max_points: self.max_points,
            milestones: self.milestones@.map_values(|m: TreeMilestone| m.description@),
            requirements: requirements_view(self.requirements@),
        }
    }
}

/// The views of a list of tree definitions.
pub open spec fn trees_view(v: Seq<TreeDefinition>) -> Seq<TreeDefinitionView> {
    v.map_values(|t: TreeDefinition| t@)
}

/// A tree chain with its texts as character sequences.
pub struct TreeChainView {
    pub name: Seq<char>,
    pub base_cost: u32,
    pub trees: Seq<TreeDefinitionView>,
}

impl View for TreeChain {
    type V = TreeChainView;

    open spec fn view(&self) -> TreeChainView {
        TreeChainView { name: self.name@, base_cost: self.base_cost, trees: trees_view(self.trees@) }
    }
}

/// The views of a list of tree chains.
pub open spec fn chains_view(v: Seq<TreeChain>) -> Seq<TreeChainView> {
    v.map_values(|c: TreeChain| c@)
}

/// Percentage of the tree at which a milestone is reached
/// (0 = 25%, 1 = 50%, 2 = 75%, anything else = 100%).
pub open spec fn milestone_percent(index: int) -> nat {
    if index == 0 { 25 } else if index == 1 { 50 } else if index == 2 { 75 } else { 100 }
}

/// Point threshold of a milestone in a tree of `max_points` points.
pub open spec fn threshold(max_points: nat, index: int) -> nat {
    (max_points * milestone_percent(index)) / 100
}

/// Number of milestones (of the four) whose threshold `current` meets.
pub open spec fn milestones_count(max_points: nat, current: nat) -> nat {
    (if current >= threshold(max_points, 0) { 1nat } else { 0nat })
        + (if current >= threshold(max_points, 1) { 1nat } else { 0nat })
        + (if current >= threshold(max_points, 2) { 1nat } else { 0nat })
        + (if current >= threshold(max_points, 3) { 1nat } else { 0nat })
}

/// Five to the power `n`.
pub open spec fn pow5(n: nat) -> nat
    decreases n,
{
    if n == 0 { 1 } else { 5 * pow5((n - 1) as nat) }
}

impl TreeDefinition {
    /// Calculate the point threshold for a milestone (0=25%, 1=50%, 2=75%, 3=100%).
    pub fn milestone_threshold(&self, index: usize) -> (t: u32)
        requires
            self.max_points * milestone_percent(index as int) <= u32::MAX,
        ensures
            t == threshold(self.max_points as nat, index as int),
    {
        let percent: u32 = match index {
            0 => 25,
            1 => 50,
            2 => 75,
            3 => 100,
            _ => 100,
        };
        self.max_points * percent / 100
    }

    /// Count how many milestones have been reached at the current point total.
    pub fn milestones_reached(&self, current_points: u32) -> (n: usize)
        requires
            self.max_points * 100 <= u32::MAX,
        ensures
            n == milestones_count(self.max_points as nat, current_points as nat),
    {
        let mut count: usize = 0;
        let mut i: usize = 0;
        while i < 4
            invariant
                i <= 4,
                self.max_points * 100 <= u32::MAX,
                count == (if i > 0 && current_points >= threshold(self.max_points as nat, 0) { 1nat } else { 0nat })
                    + (if i > 1 && current_points >= threshold(self.max_points as nat, 1) { 1nat } else { 0nat })
                    + (if i > 2 && current_points >= threshold(self.max_points as nat, 2) { 1nat } else { 0nat })
                    + (if i > 3 && current_points >= threshold(self.max_points as nat, 3) { 1nat } else { 0nat }),
            decreases 4 - i,
        {
            if current_points >= self.milestone_threshold(i) {
                count = count + 1;
            }
            i = i + 1;
        }
        count
    }
}

/// A chain of sequential trees with escalating costs.
/// Each step in the chain costs 5x the previous (base_cost * 5^step).
#[derive(Debug, Clone)]
pub struct TreeChain {
    pub name: String,
    /// Point cost for the first tree in the chain.
    pub base_cost: u32,
    /// The individual tree definitions in order.
    pub trees: Vec<TreeDefinition>,
}

/// Five to the power `exp` as a u32, for exponents whose power fits.
pub fn pow5_u32(exp: u32) -> (r: u32)
    requires
        pow5(exp as nat) <= u32::MAX,
    ensures
        r == pow5(exp as nat),
{
    let mut r: u32 = 1;
    let mut i: u32 = 0;
    while i < exp
        invariant
            i <= exp,
            r == pow5(i as nat),
            pow5(exp as nat) <= u32::MAX,
        decreases exp - i,
    {
        proof {
            lemma_pow5_monotone((i + 1) as nat, exp as nat);
        }
        r = r * 5;
        i = i + 1;
    }
    r
}

impl TreeChain {
    /// Calculate the point cost for a specific step in the chain.
    /// Step 0 = base_cost, step 1 = base_cost * 5, step 2 = base_cost * 25, etc.
    /// The step is narrowed to a u32 exponent first.
    pub fn cost_for_step(&self, step: usize) -> (c: u32)
        requires
            pow5((step as u32) as nat) <= u32::MAX,
            self.base_cost * pow5((step as u32) as nat) <= u32::MAX,
        ensures
            c == self.base_cost * pow5((step as u32) as nat),
    {
        let exp = step as u32;
        self.base_cost * pow5_u32(exp)
    }
}

/// Powers of five grow with the exponent.
pub proof fn lemma_pow5_monotone(a: nat, b: nat)
    requires
        a <= b,
    ensures
        pow5(a) <= pow5(b),
        pow5(a) >= 1,
    decreases b,
{
    if b > a {
        lemma_pow5_monotone(a, (b - 1) as nat);
    } else if a > 0 {
        lemma_pow5_monotone((a - 1) as nat, (a - 1) as nat);
    }
}

/// Each step of a chain costs five times the step before it.
pub proof fn lemma_chain_step_quintuples(base_cost: nat, step: nat)
    ensures
        base_cost * pow5(step + 1) == 5 * (base_cost * pow5(step)),
{
    assert(pow5(step + 1) == 5 * pow5(step));
    assert(base_cost * (5 * pow5(step)) == 5 * (base_cost * pow5(step))) by (nonlinear_arith);
}

/// Milestone thresholds never decrease from one milestone to the next, and
/// the last one is the whole tree.
pub proof fn lemma_thresholds_ordered(max_points: nat)
    ensures
        threshold(max_points, 0) <= threshold(max_points, 1),
        threshold(max_points, 1) <= threshold(max_points, 2),
        threshold(max_points, 2) <= threshold(max_points, 3),
        threshold(max_points, 3) == max_points,
{
    assert(max_points * 25 <= max_points * 50) by (nonlinear_arith);
    assert(max_points * 50 <= max_points * 75) by (nonlinear_arith);
    assert(max_points * 75 <= max_points * 100) by (nonlinear_arith);
    vstd::arithmetic::div_mod::lemma_div_is_ordered((max_points * 25) as int, (max_points * 50) as int, 100);
    vstd::arithmetic::div_mod::lemma_div_is_ordered((max_points * 50) as int, (max_points * 75) as int, 100);
    vstd::arithmetic::div_mod::lemma_div_is_ordered((max_points * 75) as int, (max_points * 100) as int, 100);
    assert((max_points * 100) / 100 == max_points) by (nonlinear_arith);
}

/// More points never reach fewer milestones, at most four milestones exist,
/// and a full tree has reached all four.
pub proof fn lemma_milestones_monotone(max_points: nat, a: nat, b: nat)
    requires
        a <= b,
    ensures
        milestones_count(max_points, a) <= milestones_count(max_points, b),
        milestones_count(max_points, b) <= 4,
        milestones_count(max_points, max_points) == 4,
{
    lemma_thresholds_ordered(max_points);
}

} // verus!
