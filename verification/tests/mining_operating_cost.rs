use graphite_services::mining_depth::ALL_MINING_DEPTHS;
use graphite_services::mining_depth::MiningDepth;
use graphite_services::money::Money;
use graphite_services::mining_operating_cost::mining_operating_cost_policy;
use graphite_services::mining_depth::MINING_DEPTH_COUNT;

const MONEY_PER_EXPEDITION_BY_DEPTH: [i64; MINING_DEPTH_COUNT] = [
    0, 5, 8, 10, 15, 20, 30, 40, 55, 70, 100, 125, 150, 200, 275, 400,
];

#[test]
fn every_depth_matches_the_frozen_money_table() {
    let actual = ALL_MINING_DEPTHS.map(|depth| {
        mining_operating_cost_policy(depth)
            .money_per_expedition
            .get()
    });
    assert_eq!(actual, MONEY_PER_EXPEDITION_BY_DEPTH);
}

#[test]
fn lifecycle_and_modifier_contract_is_fixed_for_every_depth() {
    for depth in ALL_MINING_DEPTHS {
        let policy = mining_operating_cost_policy(depth);
        assert_eq!(policy.depth, depth);
        assert_eq!(policy.pre_validation_failure_cost, Money::zero());
        assert!(policy.reserve_at_confirm);
        assert!(policy.charge_when_expedition_commits);
        assert!(!policy.refund_committed_cost_after_death_or_escape);
        assert!(!policy.money_reward_buffs_apply);
        assert!(!policy.shop_discounts_apply);
        assert!(!policy.bank_perks_apply);
    }
}

#[test]
fn only_surface_skips_a_positive_money_reservation() {
    assert!(
        !mining_operating_cost_policy(MiningDepth::Surface)
            .requires_positive_money_reservation()
    );
    for depth in ALL_MINING_DEPTHS.into_iter().skip(1) {
        assert!(mining_operating_cost_policy(depth).requires_positive_money_reservation());
    }
}
