//! Multicatch Level X fish-count distribution.
use vstd::prelude::*;

verus! {

pub const MULTICATCH_PROBABILITY_BASIS_POINTS: u16 = 10_000;

#[derive(Clone, Copy, Debug, PartialEq, Eq, Structural)]
pub enum MulticatchLevelXCount {
    Single,
    Double,
    Triple,
    Quadruple,
    Quintuple,
}

#[derive(Clone, Copy, Debug, PartialEq, Eq, Structural)]
pub struct MulticatchLevelXCountPolicy {
    pub outcome: MulticatchLevelXCount,
    pub fish_count: u8,
    pub probability_basis_points: u16,
}

/// Fish count and probability (bps) of each Level X outcome.
pub open spec fn spec_multicatch_row(outcome: MulticatchLevelXCount) -> (u8, u16) {
    match outcome {
        MulticatchLevelXCount::Single => (1, 8_575),
        MulticatchLevelXCount::Double => (2, 1_000),
        MulticatchLevelXCount::Triple => (3, 300),
        MulticatchLevelXCount::Quadruple => (4, 100),
        MulticatchLevelXCount::Quintuple => (5, 25),
    }
}

/// Resolves the exact fish-count distribution frozen for Multicatch at Level X.
pub fn multicatch_level_x_count_policy(outcome: MulticatchLevelXCount) -> (r:
    MulticatchLevelXCountPolicy)
    ensures
        r.outcome == outcome,
        (r.fish_count, r.probability_basis_points) == spec_multicatch_row(outcome),
{
    let (fish_count, probability_basis_points) = match outcome {
        MulticatchLevelXCount::Single => (1, 8_575),
        MulticatchLevelXCount::Double => (2, 1_000),
        MulticatchLevelXCount::Triple => (3, 300),
        MulticatchLevelXCount::Quadruple => (4, 100),
        MulticatchLevelXCount::Quintuple => (5, 25),
    };
    MulticatchLevelXCountPolicy { outcome, fish_count, probability_basis_points }
}

/// The distribution is 1 fish at 85.75%, 2 at 10%, 3 at 3%, 4 at 1% and 5 at 0.25%: complete
/// (10,000 bps), never more than five fish, with an expected count of exactly 1.20.
pub proof fn lemma_multicatch_distribution_is_complete(outcome: MulticatchLevelXCount)
    ensures
        spec_multicatch_row(MulticatchLevelXCount::Single).1 + spec_multicatch_row(
            MulticatchLevelXCount::Double,
        ).1 + spec_multicatch_row(MulticatchLevelXCount::Triple).1 + spec_multicatch_row(
            MulticatchLevelXCount::Quadruple,
        ).1 + spec_multicatch_row(MulticatchLevelXCount::Quintuple).1
            == MULTICATCH_PROBABILITY_BASIS_POINTS,
        1 <= spec_multicatch_row(outcome).0 <= crate::fishing_limits::MAX_FISH_PER_CAST,
        spec_multicatch_row(MulticatchLevelXCount::Single) == (1u8, 8_575u16),
        spec_multicatch_row(MulticatchLevelXCount::Double) == (2u8, 1_000u16),
        spec_multicatch_row(MulticatchLevelXCount::Triple) == (3u8, 300u16),
        spec_multicatch_row(MulticatchLevelXCount::Quadruple) == (4u8, 100u16),
        spec_multicatch_row(MulticatchLevelXCount::Quintuple) == (5u8, 25u16),
        spec_multicatch_row(MulticatchLevelXCount::Single).0 * spec_multicatch_row(MulticatchLevelXCount::Single).1 + spec_multicatch_row(MulticatchLevelXCount::Double).0 * spec_multicatch_row(MulticatchLevelXCount::Double).1 + spec_multicatch_row(MulticatchLevelXCount::Triple).0 * spec_multicatch_row(MulticatchLevelXCount::Triple).1 + spec_multicatch_row(MulticatchLevelXCount::Quadruple).0 * spec_multicatch_row(MulticatchLevelXCount::Quadruple).1 + spec_multicatch_row(MulticatchLevelXCount::Quintuple).0 * spec_multicatch_row(MulticatchLevelXCount::Quintuple).1 == 12_000,
{
}

} // verus!
