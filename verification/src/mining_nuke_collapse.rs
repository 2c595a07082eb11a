//! Frozen cave-collapse routing after a successful Manual Mining Nuke.
use vstd::prelude::*;

use crate::mining_depth::{spec_depth_index, spec_depth_risk_row, MiningDepth};

verus! {

pub const MINING_NUKE_COLLAPSE_PROBABILITY_NUMERATOR: u8 = 1;

pub const MINING_NUKE_COLLAPSE_PROBABILITY_DENOMINATOR: u8 = 2;

#[derive(Clone, Copy, Debug, PartialEq, Eq, Structural)]
pub struct MiningNukeCollapsePolicy {
    pub current_depth: MiningDepth,
    pub next_depth: Option<MiningDepth>,
}

impl MiningNukeCollapsePolicy {
    pub fn collapse_enabled(self) -> (r: bool)
        ensures
            r == self.next_depth is Some,
    {
        self.next_depth.is_some()
    }
}

/// Whether a depth is the deepest band of its world track.
pub open spec fn spec_is_terminal_depth(depth: MiningDepth) -> bool {
    depth == MiningDepth::ObsidianChasm || depth == MiningDepth::AbyssalDepths
}

/// Returns the frozen cave-collapse routing of a depth: a successful collapse moves exactly one
/// depth deeper within the same world track, and the deepest band of each track does not collapse.
pub fn mining_nuke_collapse_policy(depth: MiningDepth) -> (r: MiningNukeCollapsePolicy)
    ensures
        r.current_depth == depth,
        r.next_depth is None <==> spec_is_terminal_depth(depth),
        r.next_depth matches Some(next) ==> spec_depth_index(next) == spec_depth_index(depth) + 1
            && spec_depth_risk_row(next).0 == spec_depth_risk_row(depth).0,
{
    let next_depth = match depth {
        MiningDepth::Surface => Some(MiningDepth::Shallow),
        MiningDepth::Shallow => Some(MiningDepth::UpperCavern),
        MiningDepth::UpperCavern => Some(MiningDepth::DripstoneCavern),
        MiningDepth::DripstoneCavern => Some(MiningDepth::Cavern),
        MiningDepth::Cavern => Some(MiningDepth::LowerCavern),
        MiningDepth::LowerCavern => Some(MiningDepth::DeepCavern),
        MiningDepth::DeepCavern => Some(MiningDepth::CrystalDepths),
        MiningDepth::CrystalDepths => Some(MiningDepth::DiamondShelf),
        MiningDepth::DiamondShelf => Some(MiningDepth::DiamondDepths),
        MiningDepth::DiamondDepths => Some(MiningDepth::ObsidianChasm),
        MiningDepth::ObsidianChasm => None,
        MiningDepth::NetherFringe => Some(MiningDepth::BasaltDepths),
        MiningDepth::BasaltDepths => Some(MiningDepth::NetherDepths),
        MiningDepth::NetherDepths => Some(MiningDepth::AncientDepths),
        MiningDepth::AncientDepths => Some(MiningDepth::AbyssalDepths),
        MiningDepth::AbyssalDepths => None,
    };
    MiningNukeCollapsePolicy { current_depth: depth, next_depth }
}

} // verus!
