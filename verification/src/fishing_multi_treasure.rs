//! Multi Treasure Level X count distribution.
use vstd::prelude::*;

verus! {

pub const MULTI_TREASURE_MAX_ITEMS: u8 = 3;
pub const MULTI_TREASURE_PROBABILITY_BASIS_POINTS: u16 = 10_000;

#[derive(Clone, Copy, Debug, PartialEq, Eq, Structural)]
pub enum MultiTreasureLevelXCount {
    Single,
    Double,
    Triple,
}

#[derive(Clone, Copy, Debug, PartialEq, Eq, Structural)]
pub struct MultiTreasureLevelXCountPolicy {
    pub outcome: MultiTreasureLevelXCount,
    pub treasure_count: u8,
    pub probability_basis_points: u16,
}

/// Treasure count and probability (bps) of each Level X outcome: 1 @ 92.5%, 2 @ 6%, 3 @ 1.5%.
pub open spec fn spec_multi_treasure_row(outcome: MultiTreasureLevelXCount) -> (u8, u16) {
    match outcome {
        MultiTreasureLevelXCount::Single => (1, 9_250),
        MultiTreasureLevelXCount::Double => (2, 600),
        MultiTreasureLevelXCount::Triple => (3, 150),
    }
}

/// Resolves the exact count distribution frozen for Multi Treasure at Level X.
pub fn multi_treasure_level_x_count_policy(outcome: MultiTreasureLevelXCount) -> (r:
    MultiTreasureLevelXCountPolicy)
    ensures
        r.outcome == outcome,
        (r.treasure_count, r.probability_basis_points) == spec_multi_treasure_row(outcome),
{
    let (treasure_count, probability_basis_points) = match outcome {
        MultiTreasureLevelXCount::Single => (1, 9_250),
        MultiTreasureLevelXCount::Double => (2, 600),
        MultiTreasureLevelXCount::Triple => (3, 150),
    };
    MultiTreasureLevelXCountPolicy { outcome, treasure_count, probability_basis_points }
}

/// The distribution is 1 item at 92.5%, 2 at 6% and 3 at 1.5%: complete (10,000 bps), with an
/// expected count of exactly 1.09.
pub proof fn lemma_multi_treasure_distribution_is_complete()
    ensures
        spec_multi_treasure_row(MultiTreasureLevelXCount::Single).1 + spec_multi_treasure_row(
            MultiTreasureLevelXCount::Double,
        ).1 + spec_multi_treasure_row(MultiTreasureLevelXCount::Triple).1
            == MULTI_TREASURE_PROBABILITY_BASIS_POINTS,
        spec_multi_treasure_row(MultiTreasureLevelXCount::Single) == (1u8, 9_250u16),
        spec_multi_treasure_row(MultiTreasureLevelXCount::Double) == (2u8, 600u16),
        spec_multi_treasure_row(MultiTreasureLevelXCount::Triple) == (3u8, 150u16),
        spec_multi_treasure_row(MultiTreasureLevelXCount::Single).0 * spec_multi_treasure_row(
            MultiTreasureLevelXCount::Single,
        ).1 + spec_multi_treasure_row(MultiTreasureLevelXCount::Double).0 * spec_multi_treasure_row(
            MultiTreasureLevelXCount::Double,
        ).1 + spec_multi_treasure_row(MultiTreasureLevelXCount::Triple).0 * spec_multi_treasure_row(
            MultiTreasureLevelXCount::Triple,
        ).1 == 10_900,
{
}

} // verus!
