use graphite_services::mining_depth::ALL_MINING_DEPTHS;
use graphite_services::mining_natural_roll::MINING_NATURAL_ROLL_WEIGHT_SCALE;
use graphite_services::mining_depth::MiningDepth;
use graphite_services::mining_natural_roll::mining_natural_roll_drops;

use std::collections::HashSet;

#[test]
fn every_depth_row_sums_exactly_to_one_hundred_percent() {
    for depth in ALL_MINING_DEPTHS {
        let drops = mining_natural_roll_drops(depth);
        let sum: u32 = drops.iter().map(|drop| drop.weight_units).sum();
        assert_eq!(sum, MINING_NATURAL_ROLL_WEIGHT_SCALE, "{depth:?}");
        assert!(drops.iter().all(|drop| drop.weight_units > 0), "{depth:?}");
    }
}

#[test]
fn every_depth_row_has_unique_content_keys() {
    for depth in ALL_MINING_DEPTHS {
        let drops = mining_natural_roll_drops(depth);
        let unique: HashSet<&str> = drops.iter().map(|drop| drop.content_key).collect();
        assert_eq!(unique.len(), drops.len(), "{depth:?}");
    }
}

#[test]
fn smallest_frozen_rates_remain_exact_without_floating_point() {
    let nether_fringe = mining_natural_roll_drops(MiningDepth::NetherFringe);
    let platinum = nether_fringe
        .iter()
        .find(|drop| drop.content_key == "resource.ore.platinum")
        .unwrap();
    assert_eq!(platinum.weight_units, 1);
    assert_eq!(platinum.probability_numerator(), 1);
    assert_eq!(platinum.probability_denominator(), 100_000);

    let crystal = mining_natural_roll_drops(MiningDepth::CrystalDepths);
    let blood_diamond = crystal
        .iter()
        .find(|drop| drop.content_key == "resource.gem.blood_diamond")
        .unwrap();
    assert_eq!(blood_diamond.weight_units, 2);
}
