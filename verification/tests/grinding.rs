use graphite_services::grinding::GRINDING_MAX_LEVEL;
use graphite_services::grinding::GRINDING_MAX_REDUCTION_BPS;
use graphite_services::grinding::GrindingPolicyError;
use graphite_services::grinding::grinding_repair_modifier;

#[test]
fn grinding_scales_three_percent_per_level_through_level_ten() {
    for level in 1..=GRINDING_MAX_LEVEL {
        let modifier = grinding_repair_modifier(level).unwrap();
        let expected = u16::from(level) * 300;
        assert_eq!(modifier.level, level);
        assert_eq!(modifier.material_reduction_basis_points, expected);
        assert_eq!(modifier.repair_time_reduction_basis_points, expected);
        assert_eq!(modifier.repair_time_bucket_cap_basis_points, 3_500);
        assert!(modifier.money_fee_unchanged);
        assert!(modifier.applies_after_tier_repair_recipe);
    }
}

#[test]
fn grinding_level_ten_is_exactly_the_thirty_percent_cap() {
    let modifier = grinding_repair_modifier(10).unwrap();
    assert_eq!(modifier.material_reduction_basis_points, 3_000);
    assert_eq!(modifier.repair_time_reduction_basis_points, 3_000);
    assert_eq!(GRINDING_MAX_REDUCTION_BPS, 3_000);
}

#[test]
fn grinding_rejects_noncanonical_levels_instead_of_silently_clamping() {
    assert_eq!(
        grinding_repair_modifier(0),
        Err(GrindingPolicyError::LevelOutOfRange(0))
    );
    assert_eq!(
        grinding_repair_modifier(11),
        Err(GrindingPolicyError::LevelOutOfRange(11))
    );
    assert_eq!(
        grinding_repair_modifier(u8::MAX),
        Err(GrindingPolicyError::LevelOutOfRange(u8::MAX))
    );
}
