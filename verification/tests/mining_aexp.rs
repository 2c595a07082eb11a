use graphite_services::mining_aexp::depth_bonus_scaled;
use graphite_services::mining_depth::ALL_MINING_DEPTHS;
use graphite_services::mining_depth::MiningDepth;
use graphite_services::mining_aexp::manual_mining_base_aexp;

#[test]
fn depth_bonus_table_matches_every_frozen_row_in_twentieths() {
    assert_eq!(
        ALL_MINING_DEPTHS.map(|depth| depth_bonus_scaled(depth)),
        [0, 5, 10, 15, 20, 25, 30, 35, 40, 45, 50, 55, 60, 65, 70, 80]
    );
}

#[test]
fn exact_half_boundaries_round_up() {
    assert_eq!(manual_mining_base_aexp(MiningDepth::UpperCavern, 5), 4);
    assert_eq!(manual_mining_base_aexp(MiningDepth::AncientDepths, 5), 7);
}

#[test]
fn zero_is_formula_defined_without_authorizing_a_zero_roll_expedition() {
    assert_eq!(manual_mining_base_aexp(MiningDepth::Surface, 0), 2);
    assert_eq!(manual_mining_base_aexp(MiningDepth::AbyssalDepths, 0), 6);
}
