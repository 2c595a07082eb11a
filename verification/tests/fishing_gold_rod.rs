use graphite_services::equipment_policy::EquipmentTier;
use graphite_services::fishing_capability::FishingCapabilityError;
use graphite_services::fishing_gold_rod::GoldFishingRodModifierStage;
use graphite_services::fishing_gold_rod::GoldFishingRodPolicyError;
use graphite_services::fishing_gold_rod::gold_fishing_rod_side_grade_policy;

#[test]
fn gold_rod_policy_matches_all_frozen_side_grade_inputs() {
    let policy = gold_fishing_rod_side_grade_policy(EquipmentTier::Gold, true).unwrap();

    assert_eq!(policy.action_speed_rating_percent, 10);
    assert_eq!(
        (
            policy
                .rare_or_better_species_relative_weight_multiplier
                .numerator(),
            policy
                .rare_or_better_species_relative_weight_multiplier
                .denominator(),
        ),
        (23, 20)
    );
    assert_eq!(
        (
            policy
                .treasure_branch_relative_weight_multiplier
                .numerator(),
            policy
                .treasure_branch_relative_weight_multiplier
                .denominator(),
        ),
        (23, 20)
    );
    assert_eq!(
        policy.modifier_stage,
        GoldFishingRodModifierStage::BeforeSharedFishingCaps
    );
}

#[test]
fn non_gold_ordinary_rod_cannot_borrow_side_grade_modifiers() {
    assert_eq!(
        gold_fishing_rod_side_grade_policy(EquipmentTier::Diamond, true),
        Err(GoldFishingRodPolicyError::NotGoldFishingRod)
    );
}

#[test]
fn fishing_gold_rod_non_ordinary_gold_like_definition_fails_closed() {
    assert_eq!(
        gold_fishing_rod_side_grade_policy(EquipmentTier::Gold, false),
        Err(GoldFishingRodPolicyError::InvalidOrdinaryRod(
            FishingCapabilityError::NotOrdinaryFishingRod
        ))
    );
}
