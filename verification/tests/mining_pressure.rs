use graphite_services::mining_depth::MiningDepth;
use graphite_services::mining_pressure::MiningPressureContribution;
use graphite_services::mining_pressure::MiningPressurePolicyError;
use graphite_services::mining_pressure::additional_non_physical_output_pressure_contribution;
use graphite_services::mining_pressure::fortune_extra_material_pressure_contribution;
use graphite_services::mining_pressure::mining_pressure_increment_ratio;
use graphite_services::mining_pressure::nuke_blast_block_pressure_contribution;
use graphite_services::mining_pressure::physical_block_pressure_contribution;
use graphite_services::mining_pressure::trench_extra_block_pressure_contribution;

#[test]
fn frozen_source_contributions_are_exact_quarter_units() {
    assert_eq!(physical_block_pressure_contribution(3).quarter_units(), 12);
    assert_eq!(
        fortune_extra_material_pressure_contribution(3).quarter_units(),
        3
    );
    assert_eq!(
        trench_extra_block_pressure_contribution(2).quarter_units(),
        8
    );
    assert_eq!(
        nuke_blast_block_pressure_contribution(5).quarter_units(),
        20
    );
}

#[test]
fn non_physical_output_value_charge_uses_frozen_ceiling_floor_and_cap() {
    let cases = [
        (None, 0),
        (Some(0), 4),
        (Some(1), 4),
        (Some(1_000), 4),
        (Some(1_001), 8),
        (Some(24_000), 96),
        (Some(24_001), 100),
        (Some(25_000), 100),
        (Some(25_001), 100),
        (Some(i64::MAX), 100),
    ];

    for (appraisal, expected_quarters) in cases {
        assert_eq!(
            additional_non_physical_output_pressure_contribution(appraisal)
                .unwrap()
                .quarter_units(),
            expected_quarters
        );
    }
    assert_eq!(
        additional_non_physical_output_pressure_contribution(Some(-1)),
        Err(MiningPressurePolicyError::NegativeCanonicalAppraisal)
    );
}

#[test]
fn checked_add_preserves_exact_units_and_fails_closed_on_overflow() {
    let combined = physical_block_pressure_contribution(1)
        .checked_add(fortune_extra_material_pressure_contribution(1))
        .unwrap();
    assert_eq!(combined.quarter_units(), 5);
    assert_eq!(combined.pressure_unit_denominator(), 4);

    assert_eq!(
        MiningPressureContribution::from_quarter_units(u128::MAX)
            .checked_add(MiningPressureContribution::from_quarter_units(1)),
        Err(MiningPressurePolicyError::ArithmeticOverflow)
    );
}

#[test]
fn pressure_increment_uses_exact_depth_seam_capacity_without_rounding() {
    let surface = mining_pressure_increment_ratio(
        MiningDepth::Surface,
        physical_block_pressure_contribution(1),
    );
    assert_eq!((surface.numerator(), surface.denominator()), (1, 3_800));

    let shallow = mining_pressure_increment_ratio(
        MiningDepth::Shallow,
        fortune_extra_material_pressure_contribution(1),
    );
    assert_eq!((shallow.numerator(), shallow.denominator()), (1, 20_800));

    let abyssal = mining_pressure_increment_ratio(
        MiningDepth::AbyssalDepths,
        additional_non_physical_output_pressure_contribution(Some(i64::MAX)).unwrap(),
    );
    assert_eq!((abyssal.numerator(), abyssal.denominator()), (1, 1_640));

    let zero = mining_pressure_increment_ratio(
        MiningDepth::AbyssalDepths,
        MiningPressureContribution::zero(),
    );
    assert_eq!((zero.numerator(), zero.denominator()), (0, 1));
}
