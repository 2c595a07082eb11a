use graphite_services::equipment_policy::BaseEquipmentAppraisal;
use graphite_services::equipment_policy::BaseEquipmentAppraisalSource;
use graphite_services::equipment_appraisal::CanonicalEquipmentAppraisalError;
use graphite_services::equipment_appraisal::CreationRoll;
use graphite_services::equipment_appraisal::CreationRollError;
use graphite_services::equipment_appraisal::UpgradeScaledBaseAppraisal;
use graphite_services::equipment_policy::EquipmentSlot;
use graphite_services::equipment_policy::EquipmentTier;
use graphite_services::equipment_appraisal::compose_canonical_equipment_appraisal;
use graphite_services::equipment_appraisal::creation_roll_factor;

/// The base value at upgrade level 0, whose exact upgrade factor is 1.
fn scaled(value: i64) -> UpgradeScaledBaseAppraisal {
    UpgradeScaledBaseAppraisal::new(value as u128, 1).unwrap()
}

fn base(value: i64) -> BaseEquipmentAppraisal {
    BaseEquipmentAppraisal {
        tier: EquipmentTier::Iron,
        slot: EquipmentSlot::Pickaxe,
        value,
        source: BaseEquipmentAppraisalSource::DefinitionOverride,
    }
}

#[test]
fn creation_roll_is_validated_and_normalized_without_freezing_storage_precision() {
    assert_eq!(CreationRoll::new(0, 100).unwrap(), CreationRoll::zero());
    assert_eq!(
        CreationRoll::new(50, 100).unwrap(),
        CreationRoll::new(1, 2).unwrap()
    );
    assert_eq!(CreationRoll::new(100, 100).unwrap(), CreationRoll::one());
    assert_eq!(
        CreationRoll::new(1, 0),
        Err(CreationRollError::ZeroDenominator)
    );
    assert_eq!(
        CreationRoll::new(101, 100),
        Err(CreationRollError::OutOfRange)
    );
}

#[test]
fn roll_factor_matches_frozen_quadratic_exactly() {
    assert_eq!(creation_roll_factor(CreationRoll::zero()).unwrap(), (1, 1));
    assert_eq!(
        creation_roll_factor(CreationRoll::new(1, 2).unwrap()).unwrap(),
        (103, 100)
    );
    assert_eq!(creation_roll_factor(CreationRoll::one()).unwrap(), (28, 25));
}

#[test]
fn no_roll_upgrade_or_enchants_preserves_base_value() {
    let appraisal =
        compose_canonical_equipment_appraisal(base(77_500), CreationRoll::zero(), 0, scaled(77_500), 0).unwrap();
    assert_eq!(appraisal.recraft_appraisal, 77_500);
    assert_eq!(appraisal.enhanced_canonical_appraisal, 77_500);
}

#[test]
fn final_rounding_is_half_up_and_happens_after_exact_structural_math() {
    let appraisal =
        compose_canonical_equipment_appraisal(base(50), CreationRoll::new(1, 2).unwrap(), 0, scaled(50), 0)
            .unwrap();
    assert_eq!(appraisal.recraft_appraisal, 52, "50 × 1.03 = 51.5");
}

#[test]
fn largest_base_is_supported_when_factors_are_identity() {
    let appraisal =
        compose_canonical_equipment_appraisal(base(i64::MAX), CreationRoll::zero(), 0, scaled(i64::MAX), 0)
            .unwrap();
    assert_eq!(appraisal.recraft_appraisal, i64::MAX);
    assert_eq!(appraisal.enhanced_canonical_appraisal, i64::MAX);
}

#[test]
fn invalid_and_unrepresentable_inputs_fail_closed() {
    assert_eq!(
        compose_canonical_equipment_appraisal(base(-1), CreationRoll::zero(), 0, scaled(-1), 0),
        Err(CanonicalEquipmentAppraisalError::NegativeBaseAppraisal)
    );
    assert_eq!(
        compose_canonical_equipment_appraisal(base(1), CreationRoll::zero(), 0, scaled(1), -1),
        Err(CanonicalEquipmentAppraisalError::NegativeEmbeddedEnchantValue)
    );
    assert_eq!(
        compose_canonical_equipment_appraisal(base(i64::MAX), CreationRoll::zero(), 0, scaled(i64::MAX), 1),
        Err(CanonicalEquipmentAppraisalError::ArithmeticOverflow)
    );
    assert_eq!(
        compose_canonical_equipment_appraisal(base(1), CreationRoll::new(1, u64::MAX).unwrap(), 0, scaled(1), 0,
        ),
        Err(CanonicalEquipmentAppraisalError::ArithmeticOverflow)
    );
}

#[test]
fn the_creation_roll_never_lowers_an_unscaled_base() {
    for denominator in 1_u64..=32 {
        for numerator in 0..=denominator {
            let roll = CreationRoll::new(numerator, denominator).unwrap();
            for base_value in [0, 50, 3_600, 77_500, 8_050_000] {
                let appraisal = compose_canonical_equipment_appraisal(
                    base(base_value),
                    roll,
                    0,
                    scaled(base_value),
                    123_456,
                )
                .unwrap();
                assert!(appraisal.recraft_appraisal >= base_value);
                assert_eq!(appraisal.enhanced_canonical_appraisal, appraisal.recraft_appraisal + 123_456);
            }
        }
    }
}
