use graphite_services::fishing_multi_treasure::MULTI_TREASURE_MAX_ITEMS;
use graphite_services::fishing_multi_treasure::MULTI_TREASURE_PROBABILITY_BASIS_POINTS;
use graphite_services::fishing_multi_treasure::MultiTreasureLevelXCount;
use graphite_services::fishing_multi_treasure::multi_treasure_level_x_count_policy;

const OUTCOMES: [MultiTreasureLevelXCount; 3] = [
    MultiTreasureLevelXCount::Single,
    MultiTreasureLevelXCount::Double,
    MultiTreasureLevelXCount::Triple,
];

#[test]
fn fishing_multi_treasure_level_x_distribution_matches_latest_master_exactly() {
    let policies = OUTCOMES.map(multi_treasure_level_x_count_policy);
    assert_eq!(
        policies.map(|policy| policy.probability_basis_points),
        [9_250, 600, 150]
    );
    assert_eq!(policies.map(|policy| policy.treasure_count), [1, 2, 3]);
    assert_eq!(
        policies
            .iter()
            .map(|policy| policy.probability_basis_points)
            .sum::<u16>(),
        MULTI_TREASURE_PROBABILITY_BASIS_POINTS
    );
}

#[test]
fn level_x_expected_count_is_exactly_one_point_zero_nine() {
    let weighted_count_basis_points: u32 = OUTCOMES
        .map(multi_treasure_level_x_count_policy)
        .iter()
        .map(|policy| {
            u32::from(policy.treasure_count) * u32::from(policy.probability_basis_points)
        })
        .sum();

    assert_eq!(weighted_count_basis_points, 10_900);
    assert_eq!(
        weighted_count_basis_points,
        109 * u32::from(MULTI_TREASURE_PROBABILITY_BASIS_POINTS) / 100
    );
}

#[test]
fn triple_is_the_canonical_max_count() {
    let triple = multi_treasure_level_x_count_policy(MultiTreasureLevelXCount::Triple);
    assert_eq!(triple.treasure_count, MULTI_TREASURE_MAX_ITEMS);
}
