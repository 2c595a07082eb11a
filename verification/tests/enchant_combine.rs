use graphite_services::enchant_catalog::CanonicalEnchant;
use graphite_services::enchant_combine::CombineFailureConsumption;
use graphite_services::enchant_combine::ENCHANT_CATALYST_MULTIPLIER_BPS;
use graphite_services::enchant_combine::ENCHANT_COMBINE_ABSOLUTE_SUCCESS_CAP_BPS;
use graphite_services::enchant_combine::ENCHANT_COMBINE_MULTIPLIER_CAP_BPS;
use graphite_services::enchant_combine::EXTRA_AEXP_UI_CAP_MULTIPLIER;
use graphite_services::enchant_combine::EnchantCombinePolicyError;
use graphite_services::enchant_combine::ShadowMutationFailurePolicy;
use graphite_services::enchant_combine::shadow_walker_mutation_base_policy;
use graphite_services::enchant_combine::standard_enchant_combine_base_policy;

#[test]
fn standard_rows_match_the_frozen_table_and_eight_x_aexp_cap() {
    let expected = [
        (2, 10_000, 2_000, 100),
        (3, 9_500, 4_000, 200),
        (4, 9_000, 8_000, 400),
        (5, 8_000, 15_000, 800),
        (6, 7_000, 30_000, 1_500),
        (7, 5_500, 60_000, 3_000),
        (8, 4_000, 120_000, 6_000),
        (9, 2_500, 250_000, 12_000),
        (10, 1_200, 500_000, 25_000),
    ];

    for (level, success, money, aexp) in expected {
        let row = standard_enchant_combine_base_policy(level).unwrap();
        assert_eq!(row.target_level, level);
        assert_eq!(row.base_success_basis_points, success);
        assert_eq!(row.money_fee, money);
        assert_eq!(row.activity_exp_fee, aexp);
        assert_eq!(row.extra_aexp_ui_cap, aexp * 8);
        assert!(row.committed_money_and_base_aexp_are_always_consumed);
        assert!(row.committed_extra_aexp_is_always_consumed);
        assert!(row.committed_catalyst_is_always_consumed);
    }
}

#[test]
fn standard_failure_brackets_match_the_frozen_asset_loss_rules() {
    assert_eq!(
        standard_enchant_combine_base_policy(2).unwrap().failure_consumption,
        CombineFailureConsumption::NoFailurePath
    );
    for level in 3..=5 {
        assert_eq!(
            standard_enchant_combine_base_policy(level)
                .unwrap()
                .failure_consumption,
            CombineFailureConsumption::DestroyOneUniform
        );
    }
    for level in 6..=8 {
        assert_eq!(
            standard_enchant_combine_base_policy(level)
                .unwrap()
                .failure_consumption,
            CombineFailureConsumption::WeightedOneOrBoth {
                destroy_one_basis_points: 7_000,
                destroy_both_basis_points: 3_000,
            }
        );
    }
    for level in 9..=10 {
        assert_eq!(
            standard_enchant_combine_base_policy(level)
                .unwrap()
                .failure_consumption,
            CombineFailureConsumption::WeightedOneOrBoth {
                destroy_one_basis_points: 4_000,
                destroy_both_basis_points: 6_000,
            }
        );
    }
}

#[test]
fn shadow_base_chance_and_service_fee_floor_are_exact() {
    for level in 1..=10 {
        let policy = shadow_walker_mutation_base_policy(level).unwrap();
        assert_eq!(policy.input_level, level);
        assert_eq!(policy.output_level, level);
        assert_eq!(policy.base_success_basis_points, 1_500 + u16::from(level) * 500);
        assert_eq!(policy.service_fee_target_level, level.max(2));
        assert_eq!(policy.first_input, CanonicalEnchant::DayWalker);
        assert_eq!(policy.second_input, CanonicalEnchant::NightWalker);
        assert_eq!(policy.output, CanonicalEnchant::ShadowWalker);
        assert!(policy.success_consumes_both_inputs);
    }

    let level_one = shadow_walker_mutation_base_policy(1).unwrap();
    assert_eq!(level_one.service_fee_target_level, 2);
    assert_eq!(level_one.money_fee, 2_000);
    assert_eq!(level_one.activity_exp_fee, 100);
    assert_eq!(level_one.extra_aexp_ui_cap, 800);
    assert_eq!(
        level_one.failure_policy,
        ShadowMutationFailurePolicy::Defined(CombineFailureConsumption::DestroyOneUniform)
    );
}

#[test]
fn shadow_level_two_failure_rule_remains_explicitly_unresolved() {
    let policy = shadow_walker_mutation_base_policy(2).unwrap();
    assert_eq!(policy.base_success_basis_points, 2_500);
    assert_eq!(
        policy.failure_policy,
        ShadowMutationFailurePolicy::UndefinedForLevelII
    );
}

#[test]
fn enchant_combine_invalid_levels_fail_closed() {
    for level in [0, 1, 11, u8::MAX] {
        assert_eq!(
            standard_enchant_combine_base_policy(level),
            Err(EnchantCombinePolicyError::StandardTargetLevelOutOfRange(level))
        );
    }
    for level in [0, 11, u8::MAX] {
        assert_eq!(
            shadow_walker_mutation_base_policy(level),
            Err(EnchantCombinePolicyError::ShadowMutationLevelOutOfRange(level))
        );
    }
}

#[test]
fn written_boost_metadata_is_exact_but_not_evaluated_here() {
    assert_eq!(ENCHANT_CATALYST_MULTIPLIER_BPS, 13_500);
    assert_eq!(ENCHANT_COMBINE_MULTIPLIER_CAP_BPS, 18_000);
    assert_eq!(ENCHANT_COMBINE_ABSOLUTE_SUCCESS_CAP_BPS, 9_500);
    assert_eq!(EXTRA_AEXP_UI_CAP_MULTIPLIER, 8);
}
