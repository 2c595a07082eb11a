use graphite_services::bait_rack::bait_rack_capacity_policy;
use graphite_services::bait_rack::MAX_ACTIVE_BAIT_CATEGORY_SLOTS;
use graphite_services::bait_rack::NATIVE_ACTIVE_BAIT_CATEGORY_SLOTS;

#[test]
fn bait_capacity_without_or_with_max_bait_rack_stays_at_frozen_bounds() {
    let native = bait_rack_capacity_policy(None).unwrap();
    assert_eq!(
        native.active_bait_category_slots,
        NATIVE_ACTIVE_BAIT_CATEGORY_SLOTS
    );

    let max = bait_rack_capacity_policy(Some(3)).unwrap();
    assert_eq!(
        max.active_bait_category_slots,
        MAX_ACTIVE_BAIT_CATEGORY_SLOTS
    );
}

use graphite_services::enchant_catalog::CanonicalEnchant;
use graphite_services::equipment_policy::EquipmentTier;
use graphite_services::fishing_area::FishingArea;
use graphite_services::fishing_cast_preflight::bait_rack_level;
use graphite_services::fishing_cast_preflight::check_manual_fishing_cast;
use graphite_services::fishing_cast_preflight::ManualFishingCastPreflightError;
use graphite_services::bait_rack::BaitRackPolicyError;
use graphite_services::fishing_rod_state::EquippedFishingRodEnchantState;
use graphite_services::fishing_rod_state::EquippedFishingRodKind;
use graphite_services::fishing_rod_state::FishingRodCastState;

fn rod(kind: EquippedFishingRodKind, is_broken: bool, enchants: Vec<EquippedFishingRodEnchantState>) -> FishingRodCastState {
    FishingRodCastState {
        kind,
        current_durability: None,
        max_durability: None,
        is_broken,
        normal_enchant_slot_capacity: 4,
        special_enchant_slot_capacity: 3,
        embedded_enchants: enchants,
    }
}

#[test]
fn the_bait_rack_level_is_that_of_the_first_bait_rack_enchant() {
    let enchants = vec![
        EquippedFishingRodEnchantState { enchant: CanonicalEnchant::Lure, level: 4 },
        EquippedFishingRodEnchantState { enchant: CanonicalEnchant::BaitRack, level: 2 },
    ];
    assert_eq!(bait_rack_level(&enchants), Some(2));
    assert_eq!(bait_rack_level(&vec![]), None);
}

#[test]
fn manual_casts_apply_the_per_rod_rules() {
    let ordinary = EquippedFishingRodKind::Ordinary { tier: EquipmentTier::Iron };
    assert_eq!(
        check_manual_fishing_cast(FishingArea::River, &rod(EquippedFishingRodKind::StarterBasic, false, vec![])),
        Err(ManualFishingCastPreflightError::StarterBasicRodOutsidePool)
    );
    assert_eq!(
        check_manual_fishing_cast(FishingArea::StarterPool, &rod(EquippedFishingRodKind::StarterBasic, false, vec![]))
            .unwrap()
            .active_bait_category_slots,
        3
    );
    assert_eq!(
        check_manual_fishing_cast(FishingArea::Lake, &rod(ordinary, true, vec![])),
        Err(ManualFishingCastPreflightError::BrokenFishingRod)
    );
    let with_rack = rod(
        ordinary,
        false,
        vec![EquippedFishingRodEnchantState { enchant: CanonicalEnchant::BaitRack, level: 2 }],
    );
    let capacity = check_manual_fishing_cast(FishingArea::Lake, &with_rack).unwrap();
    assert_eq!(capacity.bait_rack_level, Some(2));
    assert_eq!(capacity.active_bait_category_slots, 5);
    let oversized = rod(
        ordinary,
        false,
        vec![EquippedFishingRodEnchantState { enchant: CanonicalEnchant::BaitRack, level: 4 }],
    );
    assert_eq!(
        check_manual_fishing_cast(FishingArea::Lake, &oversized),
        Err(ManualFishingCastPreflightError::BaitRack(BaitRackPolicyError::LevelOutOfRange(4)))
    );
}
