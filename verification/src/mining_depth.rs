//! Canonical Mining depth bands, their explicit indices and the frozen depth/risk table.
use vstd::prelude::*;

verus! {

/// Number of canonical Mining depth bands in the current specification.
pub const MINING_DEPTH_COUNT: usize = 16;

#[derive(Clone, Copy, Debug, PartialEq, Eq, Hash, Structural)]
pub enum MiningWorld {
    Overworld,
    Nether,
}

#[derive(Clone, Copy, Debug, PartialEq, Eq, Hash, Structural)]
pub enum MiningDepth {
    Surface,
    Shallow,
    UpperCavern,
    DripstoneCavern,
    Cavern,
    LowerCavern,
    DeepCavern,
    CrystalDepths,
    DiamondShelf,
    DiamondDepths,
    ObsidianChasm,
    NetherFringe,
    BasaltDepths,
    NetherDepths,
    AncientDepths,
    AbyssalDepths,
}

/// The frozen current-v1 depth index (`Surface = 0`, ..., `Abyssal = 15`).
pub open spec fn spec_depth_index(depth: MiningDepth) -> u8 {
    match depth {
        MiningDepth::Surface => 0,
        MiningDepth::Shallow => 1,
        MiningDepth::UpperCavern => 2,
        MiningDepth::DripstoneCavern => 3,
        MiningDepth::Cavern => 4,
        MiningDepth::LowerCavern => 5,
        MiningDepth::DeepCavern => 6,
        MiningDepth::CrystalDepths => 7,
        MiningDepth::DiamondShelf => 8,
        MiningDepth::DiamondDepths => 9,
        MiningDepth::ObsidianChasm => 10,
        MiningDepth::NetherFringe => 11,
        MiningDepth::BasaltDepths => 12,
        MiningDepth::NetherDepths => 13,
        MiningDepth::AncientDepths => 14,
        MiningDepth::AbyssalDepths => 15,
    }
}

impl MiningDepth {
    /// Returns the frozen current-v1 depth index used by formulas that name depths by number.
    pub fn index(self) -> (r: u8)
        ensures
            r == spec_depth_index(self),
    {
        match self {
            MiningDepth::Surface => 0,
            MiningDepth::Shallow => 1,
            MiningDepth::UpperCavern => 2,
            MiningDepth::DripstoneCavern => 3,
            MiningDepth::Cavern => 4,
            MiningDepth::LowerCavern => 5,
            MiningDepth::DeepCavern => 6,
            MiningDepth::CrystalDepths => 7,
            MiningDepth::DiamondShelf => 8,
            MiningDepth::DiamondDepths => 9,
            MiningDepth::ObsidianChasm => 10,
            MiningDepth::NetherFringe => 11,
            MiningDepth::BasaltDepths => 12,
            MiningDepth::NetherDepths => 13,
            MiningDepth::AncientDepths => 14,
            MiningDepth::AbyssalDepths => 15,
        }
    }
}

/// All canonical Mining depth bands in explicit gameplay order.
pub const ALL_MINING_DEPTHS: [MiningDepth; MINING_DEPTH_COUNT] = [
    MiningDepth::Surface,
    MiningDepth::Shallow,
    MiningDepth::UpperCavern,
    MiningDepth::DripstoneCavern,
    MiningDepth::Cavern,
    MiningDepth::LowerCavern,
    MiningDepth::DeepCavern,
    MiningDepth::CrystalDepths,
    MiningDepth::DiamondShelf,
    MiningDepth::DiamondDepths,
    MiningDepth::ObsidianChasm,
    MiningDepth::NetherFringe,
    MiningDepth::BasaltDepths,
    MiningDepth::NetherDepths,
    MiningDepth::AncientDepths,
    MiningDepth::AbyssalDepths,
];

/// The depths in gameplay order.
pub open spec fn spec_depth_order() -> Seq<MiningDepth> {
    seq![
        MiningDepth::Surface,
        MiningDepth::Shallow,
        MiningDepth::UpperCavern,
        MiningDepth::DripstoneCavern,
        MiningDepth::Cavern,
        MiningDepth::LowerCavern,
        MiningDepth::DeepCavern,
        MiningDepth::CrystalDepths,
        MiningDepth::DiamondShelf,
        MiningDepth::DiamondDepths,
        MiningDepth::ObsidianChasm,
        MiningDepth::NetherFringe,
        MiningDepth::BasaltDepths,
        MiningDepth::NetherDepths,
        MiningDepth::AncientDepths,
        MiningDepth::AbyssalDepths,
    ]
}

/// Exact non-RNG inputs from the canonical Mining depth/risk table; probabilities are basis
/// points (`10_000 = 100%`).
#[derive(Clone, Copy, Debug, PartialEq, Eq, Structural)]
pub struct MiningDepthRiskPolicy {
    pub depth: MiningDepth,
    pub depth_index: u8,
    pub world: MiningWorld,
    pub first_event_chance_bps: u16,
    pub second_event_chance_given_first_bps: u16,
    pub pack_two_plus_chance_given_event_bps: u16,
    pub standard_hp_anchor: Option<u16>,
    pub base_hit: Option<u16>,
    pub seam_capacity: u32,
}

/// World, first-event chance, second-event chance given the first, pack-of-two-plus chance given
/// an event, standard HP anchor, base hit and seam capacity of a depth.
pub open spec fn spec_depth_risk_row(depth: MiningDepth) -> (
    MiningWorld,
    u16,
    u16,
    u16,
    Option<u16>,
    Option<u16>,
    u32,
) {
    match depth {
        MiningDepth::Surface => (MiningWorld::Overworld, 0, 0, 0, None, None, 3800),
        MiningDepth::Shallow => (MiningWorld::Overworld, 50, 0, 300, Some(6), Some(1), 5200),
        MiningDepth::UpperCavern => (MiningWorld::Overworld, 100, 100, 500, Some(8), Some(1), 7800),
        MiningDepth::DripstoneCavern => (MiningWorld::Overworld, 130, 150, 600, Some(9), Some(1), 8800),
        MiningDepth::Cavern => (MiningWorld::Overworld, 180, 200, 800, Some(11), Some(2), 10500),
        MiningDepth::LowerCavern => (MiningWorld::Overworld, 230, 300, 1000, Some(13), Some(2), 11000),
        MiningDepth::DeepCavern => (MiningWorld::Overworld, 280, 400, 1200, Some(15), Some(2), 11500),
        MiningDepth::CrystalDepths => (MiningWorld::Overworld, 400, 600, 1600, Some(20), Some(3), 16000),
        MiningDepth::DiamondShelf => (MiningWorld::Overworld, 480, 750, 1900, Some(23), Some(3), 16800),
        MiningDepth::DiamondDepths => (MiningWorld::Overworld, 550, 900, 2100, Some(27), Some(4), 17500),
        MiningDepth::ObsidianChasm => (MiningWorld::Overworld, 700, 1200, 2700, Some(36), Some(5), 22500),
        MiningDepth::NetherFringe => (MiningWorld::Nether, 850, 1500, 3300, Some(42), Some(6), 27500),
        MiningDepth::BasaltDepths => (MiningWorld::Nether, 920, 1650, 3600, Some(50), Some(6), 28500),
        MiningDepth::NetherDepths => (MiningWorld::Nether, 1000, 1800, 3900, Some(60), Some(7), 30000),
        MiningDepth::AncientDepths => (MiningWorld::Nether, 1200, 2200, 4600, Some(80), Some(9), 35000),
        MiningDepth::AbyssalDepths => (MiningWorld::Nether, 1400, 2500, 5400, Some(105), Some(11), 41000),
    }
}

/// The full risk policy row of a depth.
pub open spec fn spec_depth_risk_policy(depth: MiningDepth) -> MiningDepthRiskPolicy {
    let row = spec_depth_risk_row(depth);
    MiningDepthRiskPolicy {
        depth,
        depth_index: spec_depth_index(depth),
        world: row.0,
        first_event_chance_bps: row.1,
        second_event_chance_given_first_bps: row.2,
        pack_two_plus_chance_given_event_bps: row.3,
        standard_hp_anchor: row.4,
        base_hit: row.5,
        seam_capacity: row.6,
    }
}

/// Returns the exact current-v1 depth/risk row without performing RNG, access checks or mutation.
pub fn mining_depth_risk_policy(depth: MiningDepth) -> (r: MiningDepthRiskPolicy)
    ensures
        r == spec_depth_risk_policy(depth),
{
    let (world, first, second, pack, hp, hit, seam) = match depth {
            MiningDepth::Surface => (MiningWorld::Overworld, 0, 0, 0, None, None, 3800),
            MiningDepth::Shallow => (MiningWorld::Overworld, 50, 0, 300, Some(6), Some(1), 5200),
            MiningDepth::UpperCavern => (MiningWorld::Overworld, 100, 100, 500, Some(8), Some(1), 7800),
            MiningDepth::DripstoneCavern => (MiningWorld::Overworld, 130, 150, 600, Some(9), Some(1), 8800),
            MiningDepth::Cavern => (MiningWorld::Overworld, 180, 200, 800, Some(11), Some(2), 10500),
            MiningDepth::LowerCavern => (MiningWorld::Overworld, 230, 300, 1000, Some(13), Some(2), 11000),
            MiningDepth::DeepCavern => (MiningWorld::Overworld, 280, 400, 1200, Some(15), Some(2), 11500),
            MiningDepth::CrystalDepths => (MiningWorld::Overworld, 400, 600, 1600, Some(20), Some(3), 16000),
            MiningDepth::DiamondShelf => (MiningWorld::Overworld, 480, 750, 1900, Some(23), Some(3), 16800),
            MiningDepth::DiamondDepths => (MiningWorld::Overworld, 550, 900, 2100, Some(27), Some(4), 17500),
            MiningDepth::ObsidianChasm => (MiningWorld::Overworld, 700, 1200, 2700, Some(36), Some(5), 22500),
            MiningDepth::NetherFringe => (MiningWorld::Nether, 850, 1500, 3300, Some(42), Some(6), 27500),
            MiningDepth::BasaltDepths => (MiningWorld::Nether, 920, 1650, 3600, Some(50), Some(6), 28500),
            MiningDepth::NetherDepths => (MiningWorld::Nether, 1000, 1800, 3900, Some(60), Some(7), 30000),
            MiningDepth::AncientDepths => (MiningWorld::Nether, 1200, 2200, 4600, Some(80), Some(9), 35000),
            MiningDepth::AbyssalDepths => (MiningWorld::Nether, 1400, 2500, 5400, Some(105), Some(11), 41000),
    };
    MiningDepthRiskPolicy {
        depth,
        depth_index: depth.index(),
        world,
        first_event_chance_bps: first,
        second_event_chance_given_first_bps: second,
        pack_two_plus_chance_given_event_bps: pack,
        standard_hp_anchor: hp,
        base_hit: hit,
        seam_capacity: seam,
    }
}

/// The gameplay order lists each depth at its own index, so the index is a bijection onto
/// `0..16`; every probability input is a valid basis-point value and every seam capacity is
/// positive; Surface is the only depth without encounters or combat anchors.
pub proof fn lemma_depth_table_is_well_formed(depth: MiningDepth)
    ensures
        spec_depth_index(depth) < MINING_DEPTH_COUNT,
        spec_depth_order()[spec_depth_index(depth) as int] == depth,
        spec_depth_order().len() == MINING_DEPTH_COUNT,
        spec_depth_risk_row(depth).1 <= 10_000,
        spec_depth_risk_row(depth).2 <= 10_000,
        spec_depth_risk_row(depth).3 <= 10_000,
        spec_depth_risk_row(depth).6 > 0,
        (depth == MiningDepth::Surface) <==> (spec_depth_risk_row(depth).1 == 0),
        depth != MiningDepth::Surface ==> spec_depth_risk_row(depth).4 is Some
            && spec_depth_risk_row(depth).5 is Some,
        depth == MiningDepth::Surface ==> spec_depth_risk_row(depth).2 == 0
            && spec_depth_risk_row(depth).3 == 0 && spec_depth_risk_row(depth).4 is None
            && spec_depth_risk_row(depth).5 is None,
{
}

} // verus!
