use graphite_services::fishing_bait::MAX_FISH_PER_CAST;
use graphite_services::fishing_multicatch::MULTICATCH_PROBABILITY_BASIS_POINTS;
use graphite_services::fishing_multicatch::MulticatchLevelXCount;
use graphite_services::fishing_multicatch::multicatch_level_x_count_policy;

const OUTCOMES: [MulticatchLevelXCount; 5] = [
    MulticatchLevelXCount::Single,
    MulticatchLevelXCount::Double,
    MulticatchLevelXCount::Triple,
    MulticatchLevelXCount::Quadruple,
    MulticatchLevelXCount::Quintuple,
];

#[test]
fn fishing_multicatch_level_x_distribution_matches_latest_master_exactly() {
    let policies = OUTCOMES.map(multicatch_level_x_count_policy);
    assert_eq!(
        policies.map(|policy| policy.probability_basis_points),
        [8_575, 1_000, 300, 100, 25]
    );
    assert_eq!(policies.map(|policy| policy.fish_count), [1, 2, 3, 4, 5]);
    assert_eq!(
        policies
            .iter()
            .map(|policy| policy.probability_basis_points)
            .sum::<u16>(),
        MULTICATCH_PROBABILITY_BASIS_POINTS
    );
}

#[test]
fn level_x_expected_count_is_exactly_one_point_two() {
    let weighted_count_basis_points: u32 = OUTCOMES
        .map(multicatch_level_x_count_policy)
        .iter()
        .map(|policy| u32::from(policy.fish_count) * u32::from(policy.probability_basis_points))
        .sum();

    assert_eq!(weighted_count_basis_points, 12_000);
    assert_eq!(
        weighted_count_basis_points,
        120 * u32::from(MULTICATCH_PROBABILITY_BASIS_POINTS) / 100
    );
}

#[test]
fn quintuple_matches_the_shared_global_fish_cap() {
    let quintuple = multicatch_level_x_count_policy(MulticatchLevelXCount::Quintuple);
    assert_eq!(quintuple.fish_count, crate::MAX_FISH_PER_CAST);
}
