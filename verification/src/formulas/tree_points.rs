//! Tree point formulas.
//!
//! Tree points are earned when leveling skills: the amount depends on the
//! skill's current mastery rank (1 to 7 points per level). Sequential tree
//! chains multiply cost by 5 per step.
use vstd::prelude::*;
use crate::models::skill::{MasteryRank, rank_index};
use crate::models::tree::{pow5, pow5_u32, TreeChain};

verus! {

/// Tree points earned per skill level-up at the given mastery rank.
pub fn tree_points_for_skill_level(rank: MasteryRank) -> (p: u32)
    ensures
        p == rank_index(rank) + 1,
{
    rank.tree_points_per_level()
}

/// Point cost of a tree at a given step in a sequential chain.
/// Formula: base_cost * 5^step
pub fn sequential_tree_cost(base_cost: u32, step: u32) -> (c: u32)
    requires
        pow5(step as nat) <= u32::MAX,
        base_cost * pow5(step as nat) <= u32::MAX,
    ensures
        c == base_cost * pow5(step as nat),
{
    base_cost * pow5_u32(step)
}

/// The cost of a chain step is the sequential cost of the chain's base cost
/// at that step.
pub proof fn lemma_chain_cost_is_sequential_cost(chain: TreeChain, step: u32)
    ensures
        chain.base_cost * pow5((step as usize as u32) as nat) == chain.base_cost * pow5(step as nat),
{
}

} // verus!
