use graphite_services::mining_depth::ALL_MINING_DEPTHS;
use graphite_services::mining_depth::MiningDepth;
use graphite_services::mining_depth::mining_depth_risk_policy;
use graphite_services::mining_depth::MiningWorld;
use graphite_services::mining_depth::MINING_DEPTH_COUNT;

const WORLD_BY_DEPTH: [MiningWorld; MINING_DEPTH_COUNT] = [
    MiningWorld::Overworld,
    MiningWorld::Overworld,
    MiningWorld::Overworld,
    MiningWorld::Overworld,
    MiningWorld::Overworld,
    MiningWorld::Overworld,
    MiningWorld::Overworld,
    MiningWorld::Overworld,
    MiningWorld::Overworld,
    MiningWorld::Overworld,
    MiningWorld::Overworld,
    MiningWorld::Nether,
    MiningWorld::Nether,
    MiningWorld::Nether,
    MiningWorld::Nether,
    MiningWorld::Nether,
];
const STANDARD_HP_ANCHOR_BY_DEPTH: [Option<u16>; MINING_DEPTH_COUNT] = [
    None,
    Some(6),
    Some(8),
    Some(9),
    Some(11),
    Some(13),
    Some(15),
    Some(20),
    Some(23),
    Some(27),
    Some(36),
    Some(42),
    Some(50),
    Some(60),
    Some(80),
    Some(105),
];
const BASE_HIT_BY_DEPTH: [Option<u16>; MINING_DEPTH_COUNT] = [
    None,
    Some(1),
    Some(1),
    Some(1),
    Some(2),
    Some(2),
    Some(2),
    Some(3),
    Some(3),
    Some(4),
    Some(5),
    Some(6),
    Some(6),
    Some(7),
    Some(9),
    Some(11),
];


#[test]
fn depth_indices_are_explicit_and_cover_zero_through_fifteen() {
    for (expected_index, depth) in ALL_MINING_DEPTHS.into_iter().enumerate() {
        assert_eq!(usize::from(depth.index()), expected_index);
        assert_eq!(mining_depth_risk_policy(depth).depth_index, depth.index());
    }
}

#[test]
fn every_depth_risk_axis_matches_the_frozen_table() {
    let policies = ALL_MINING_DEPTHS.map(mining_depth_risk_policy);

    assert_eq!(policies.map(|policy| policy.world), WORLD_BY_DEPTH);
    assert_eq!(
        policies.map(|policy| policy.first_event_chance_bps),
        [
            0, 50, 100, 130, 180, 230, 280, 400, 480, 550, 700, 850, 920, 1_000, 1_200, 1_400,
        ]
    );
    assert_eq!(
        policies.map(|policy| policy.second_event_chance_given_first_bps),
        [
            0, 0, 100, 150, 200, 300, 400, 600, 750, 900, 1_200, 1_500, 1_650, 1_800, 2_200,
            2_500,
        ]
    );
    assert_eq!(
        policies.map(|policy| policy.pack_two_plus_chance_given_event_bps),
        [
            0, 300, 500, 600, 800, 1_000, 1_200, 1_600, 1_900, 2_100, 2_700, 3_300, 3_600,
            3_900, 4_600, 5_400,
        ]
    );
    assert_eq!(
        policies.map(|policy| policy.standard_hp_anchor),
        STANDARD_HP_ANCHOR_BY_DEPTH
    );
    assert_eq!(policies.map(|policy| policy.base_hit), BASE_HIT_BY_DEPTH);
    assert_eq!(
        policies.map(|policy| policy.seam_capacity),
        [
            3_800, 5_200, 7_800, 8_800, 10_500, 11_000, 11_500, 16_000, 16_800, 17_500, 22_500,
            27_500, 28_500, 30_000, 35_000, 41_000,
        ]
    );
}

#[test]
fn surface_is_the_only_no_encounter_depth_and_has_no_combat_anchors() {
    let surface = mining_depth_risk_policy(MiningDepth::Surface);
    assert_eq!(surface.first_event_chance_bps, 0);
    assert_eq!(surface.second_event_chance_given_first_bps, 0);
    assert_eq!(surface.pack_two_plus_chance_given_event_bps, 0);
    assert_eq!(surface.standard_hp_anchor, None);
    assert_eq!(surface.base_hit, None);

    for depth in ALL_MINING_DEPTHS.into_iter().skip(1) {
        let policy = mining_depth_risk_policy(depth);
        assert!(policy.first_event_chance_bps > 0);
        assert!(policy.standard_hp_anchor.is_some());
        assert!(policy.base_hit.is_some());
    }
}

#[test]
fn probability_inputs_stay_inside_basis_point_domain_and_capacity_is_positive() {
    for depth in ALL_MINING_DEPTHS {
        let policy = mining_depth_risk_policy(depth);
        assert!(policy.first_event_chance_bps <= 10_000);
        assert!(policy.second_event_chance_given_first_bps <= 10_000);
        assert!(policy.pack_two_plus_chance_given_event_bps <= 10_000);
        assert!(policy.seam_capacity > 0);
    }
}
