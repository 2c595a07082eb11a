//! Frozen base Manual Mining Activity EXP formula `round_half_up(2 + 0.20 b + d)`.
use vstd::prelude::*;

use crate::mining_depth::{spec_depth_index, MiningDepth};

verus! {

const AEXP_SCALE: u128 = 20;

const BASE_AEXP_SCALED: u128 = 40;

const AEXP_PER_ORDINARY_ROLL_SCALED: u128 = 4;

/// The frozen depth bonus in twentieths of an Activity EXP, by depth index.
pub open spec fn spec_depth_bonus_scaled(depth: MiningDepth) -> u128 {
    let i = spec_depth_index(depth);
    if i < 15 {
        (5 * i) as u128
    } else {
        80
    }
}

/// Returns the frozen depth bonus of a depth in twentieths of an Activity EXP.
pub fn depth_bonus_scaled(depth: MiningDepth) -> (r: u128)
    ensures
        r == spec_depth_bonus_scaled(depth),
{
    let index = depth.index();
    if index < 15 {
        5 * (index as u128)
    } else {
        80
    }
}

/// The base Activity EXP `round_half_up(2 + 0.20 b + d)`, evaluated exactly in twentieths.
pub open spec fn spec_manual_mining_base_aexp(depth: MiningDepth, rolls: u64) -> int {
    (40 + 4 * rolls + spec_depth_bonus_scaled(depth) + 10) / 20
}

/// Returns the frozen base Manual Mining Activity EXP for an already-resolved count of ordinary
/// qualifying physical rolls; every `u64` roll count maps inside `i64`.
pub fn manual_mining_base_aexp(depth: MiningDepth, ordinary_qualifying_physical_rolls: u64) -> (r:
    i64)
    ensures
        r == spec_manual_mining_base_aexp(depth, ordinary_qualifying_physical_rolls),
        ({
            let bonus: int = if spec_depth_index(depth) < 15 {
                5 * spec_depth_index(depth)
            } else {
                80
            };
            20 * r <= 40 + 4 * ordinary_qualifying_physical_rolls + bonus + 10 < 20 * r + 20
        }),
{
    proof {
        lemma_manual_mining_aexp_rounds_half_up(depth, ordinary_qualifying_physical_rolls);
    }
    let scaled = BASE_AEXP_SCALED + (ordinary_qualifying_physical_rolls as u128)
        * AEXP_PER_ORDINARY_ROLL_SCALED + depth_bonus_scaled(depth);
    let rounded = (scaled + AEXP_SCALE / 2) / AEXP_SCALE;
    rounded as i64
}

/// More qualifying rolls, or a deeper band, never lower the base Activity EXP.
pub proof fn lemma_manual_mining_aexp_is_monotone(
    shallow: MiningDepth,
    deep: MiningDepth,
    fewer: u64,
    more: u64,
)
    requires
        spec_depth_index(shallow) <= spec_depth_index(deep),
        fewer <= more,
    ensures
        spec_manual_mining_base_aexp(shallow, fewer) <= spec_manual_mining_base_aexp(deep, more),
{
    let a = 40 + 4 * fewer + spec_depth_bonus_scaled(shallow) + 10;
    let b = 40 + 4 * more + spec_depth_bonus_scaled(deep) + 10;
    assert(a <= b);
    vstd::arithmetic::div_mod::lemma_div_is_ordered(a, b, 20);
}

/// The base Activity EXP is `2 + 0.20 b + d` rounded half up, with the depth bonus `d` being
/// `0.25` per depth index up to index 14 and `4` at the deepest band: in twentieths, the result `r`
/// is the whole number with `20 r <= 40 + 4 b + 20 d + 10 < 20 r + 20`.
pub proof fn lemma_manual_mining_aexp_rounds_half_up(depth: MiningDepth, rolls: u64)
    ensures
        ({
            let bonus: int = if spec_depth_index(depth) < 15 {
                5 * spec_depth_index(depth)
            } else {
                80
            };
            let r = spec_manual_mining_base_aexp(depth, rolls);
            20 * r <= 40 + 4 * rolls + bonus + 10 < 20 * r + 20
        }),
{
    let x = 40 + 4 * rolls + spec_depth_bonus_scaled(depth) + 10;
    vstd::arithmetic::div_mod::lemma_fundamental_div_mod(x as int, 20);
}

/// Five more ordinary rolls earn exactly one more base Activity EXP.
pub proof fn lemma_five_rolls_earn_one_aexp(depth: MiningDepth, rolls: u64)
    requires
        rolls + 5 <= u64::MAX,
    ensures
        spec_manual_mining_base_aexp(depth, (rolls + 5) as u64) == spec_manual_mining_base_aexp(
            depth,
            rolls,
        ) + 1,
{
    lemma_manual_mining_aexp_rounds_half_up(depth, rolls);
    lemma_manual_mining_aexp_rounds_half_up(depth, (rolls + 5) as u64);
}

} // verus!
