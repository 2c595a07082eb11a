//! Fixed Money operating cost of one manual Mining expedition, by depth.
use vstd::prelude::*;

use crate::mining_depth::{spec_depth_index, MiningDepth};
use crate::money::Money;

verus! {

/// Canonical non-mutating operating-cost contract for one manual Mining expedition: reserved at
/// Confirm, charged when the expedition commits, never refunded after death or escape, and not
/// reduced by Money Reward buffs, Shop discounts or Bank perks.
#[derive(Clone, Copy, Debug, PartialEq, Eq, Structural)]
pub struct MiningOperatingCostPolicy {
    pub depth: MiningDepth,
    pub money_per_expedition: Money,
    pub pre_validation_failure_cost: Money,
    pub reserve_at_confirm: bool,
    pub charge_when_expedition_commits: bool,
    pub refund_committed_cost_after_death_or_escape: bool,
    pub money_reward_buffs_apply: bool,
    pub shop_discounts_apply: bool,
    pub bank_perks_apply: bool,
}

/// The frozen Money cost of one expedition at a depth.
pub open spec fn spec_money_per_expedition(depth: MiningDepth) -> i64 {
    let table = seq![0i64, 5, 8, 10, 15, 20, 30, 40, 55, 70, 100, 125, 150, 200, 275, 400];
    table[spec_depth_index(depth) as int]
}

impl MiningOperatingCostPolicy {
    /// Whether the expedition needs a positive Money reservation; only Surface costs nothing.
    pub fn requires_positive_money_reservation(self) -> (r: bool)
        ensures
            r == (self.money_per_expedition.amount() != 0),
    {
        self.money_per_expedition.get() != 0
    }
}

/// Returns the exact current-v1 manual Mining operating-cost row for `depth`.
pub fn mining_operating_cost_policy(depth: MiningDepth) -> (r: MiningOperatingCostPolicy)
    ensures
        r.depth == depth,
        r.money_per_expedition.amount() == spec_money_per_expedition(depth),
        r.pre_validation_failure_cost.amount() == 0,
        r.reserve_at_confirm,
        r.charge_when_expedition_commits,
        !r.refund_committed_cost_after_death_or_escape,
        !r.money_reward_buffs_apply,
        !r.shop_discounts_apply,
        !r.bank_perks_apply,
        r.money_per_expedition.amount() == 0 <==> depth == MiningDepth::Surface,
{
    let amount: i64 = match depth {
        MiningDepth::Surface => 0,
        MiningDepth::Shallow => 5,
        MiningDepth::UpperCavern => 8,
        MiningDepth::DripstoneCavern => 10,
        MiningDepth::Cavern => 15,
        MiningDepth::LowerCavern => 20,
        MiningDepth::DeepCavern => 30,
        MiningDepth::CrystalDepths => 40,
        MiningDepth::DiamondShelf => 55,
        MiningDepth::DiamondDepths => 70,
        MiningDepth::ObsidianChasm => 100,
        MiningDepth::NetherFringe => 125,
        MiningDepth::BasaltDepths => 150,
        MiningDepth::NetherDepths => 200,
        MiningDepth::AncientDepths => 275,
        MiningDepth::AbyssalDepths => 400,
    };
    let money_per_expedition = match Money::new(amount) {
        Ok(money) => money,
        Err(_) => {
            proof {
                assert(false);
            }
            Money::zero()
        },
    };
    MiningOperatingCostPolicy {
        depth,
        money_per_expedition,
        pre_validation_failure_cost: Money::zero(),
        reserve_at_confirm: true,
        charge_when_expedition_commits: true,
        refund_committed_cost_after_death_or_escape: false,
        money_reward_buffs_apply: false,
        shop_discounts_apply: false,
        bank_perks_apply: false,
    }
}

} // verus!
