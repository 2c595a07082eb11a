use graphite_services::enchant_catalog::CanonicalEnchant;
use graphite_services::enchant_apply::EnchantApplyAction;
use graphite_services::enchant_apply::EnchantApplyError;
use graphite_services::enchant_conflict::EnchantConflictScope;
use graphite_services::enchant_apply::EnchantSlotCapacity;
use graphite_services::enchant_placement::EnchantSlotFamily;
use graphite_services::equipment_policy::EquipmentSlot;
use graphite_services::enchant_apply::ExistingAppliedEnchant;
use graphite_services::enchant_apply::preview_standard_finished_book_application;

fn applied(enchant: CanonicalEnchant, level: u8) -> ExistingAppliedEnchant {
    ExistingAppliedEnchant { enchant, level }
}

#[test]
fn native_and_unlocked_capacity_ranges_match_the_two_frozen_families() {
    assert_eq!(
        EnchantSlotCapacity::native(),
        EnchantSlotCapacity {
            normal_class: 4,
            special_universal: 3
        }
    );
    assert_eq!(
        EnchantSlotCapacity::try_new(6, 6).unwrap(),
        EnchantSlotCapacity {
            normal_class: 6,
            special_universal: 6
        }
    );
    assert!(EnchantSlotCapacity::try_new(3, 3).is_err());
    assert!(EnchantSlotCapacity::try_new(4, 2).is_err());
    assert!(EnchantSlotCapacity::try_new(7, 3).is_err());
    assert!(EnchantSlotCapacity::try_new(4, 7).is_err());
}

#[test]
fn new_standard_book_uses_one_slot_in_its_own_family_and_is_guaranteed() {
    let preview = preview_standard_finished_book_application(
        EquipmentSlot::Pickaxe,
        EnchantSlotCapacity::native(),
        &[
            applied(CanonicalEnchant::Efficiency, 1),
            applied(CanonicalEnchant::Fortune, 2),
        ],
        CanonicalEnchant::Unbreaking,
        3,
    )
    .unwrap();

    assert_eq!(preview.slot_family, EnchantSlotFamily::NormalClass);
    assert_eq!(preview.action, EnchantApplyAction::InsertNew);
    assert_eq!(preview.occupancy_before.normal_class, 2);
    assert_eq!(preview.occupancy_after.normal_class, 3);
    assert_eq!(preview.occupancy_after.special_universal, 0);
    assert!(preview.incoming_finished_book_consumed_on_commit);
    assert!(preview.success_guaranteed_after_authoritative_revalidation);
    assert!(!preview.resulting_item_requires_equipped_armor_loadout_conflict_validation);
}

#[test]
fn normal_and_special_capacity_are_independent() {
    let existing = [
        applied(CanonicalEnchant::Efficiency, 1),
        applied(CanonicalEnchant::Fortune, 1),
        applied(CanonicalEnchant::Unbreaking, 1),
        applied(CanonicalEnchant::Mending, 1),
        applied(CanonicalEnchant::Stabilize, 1),
        applied(CanonicalEnchant::Sparkling, 1),
    ];
    let preview = preview_standard_finished_book_application(
        EquipmentSlot::Pickaxe,
        EnchantSlotCapacity::native(),
        &existing,
        CanonicalEnchant::Grinding,
        1,
    )
    .unwrap();
    assert_eq!(preview.occupancy_before.normal_class, 4);
    assert_eq!(preview.occupancy_before.special_universal, 2);
    assert_eq!(preview.occupancy_after.normal_class, 4);
    assert_eq!(preview.occupancy_after.special_universal, 3);

    assert_eq!(
        preview_standard_finished_book_application(
            EquipmentSlot::Pickaxe,
            EnchantSlotCapacity::native(),
            &existing,
            CanonicalEnchant::PickaxeTreasure,
            1,
        ),
        Err(EnchantApplyError::NoFreeSlot {
            family: EnchantSlotFamily::NormalClass,
            occupied: 4,
            unlocked: 4,
        })
    );
}

#[test]
fn higher_replacement_reuses_the_existing_slot() {
    let existing = [
        applied(CanonicalEnchant::Sharpness, 3),
        applied(CanonicalEnchant::Looting, 2),
        applied(CanonicalEnchant::Unbreaking, 1),
        applied(CanonicalEnchant::Mending, 1),
    ];
    let preview = preview_standard_finished_book_application(
        EquipmentSlot::Sword,
        EnchantSlotCapacity::native(),
        &existing,
        CanonicalEnchant::Sharpness,
        4,
    )
    .unwrap();

    assert_eq!(
        preview.action,
        EnchantApplyAction::UpgradeExisting { previous_level: 3 }
    );
    assert_eq!(preview.occupancy_before, preview.occupancy_after);
    assert_eq!(preview.occupancy_after.normal_class, 4);
}

#[test]
fn lower_or_equal_replacement_is_rejected_before_book_consumption() {
    let existing = [applied(CanonicalEnchant::Efficiency, 5)];
    for incoming_level in [4, 5] {
        assert_eq!(
            preview_standard_finished_book_application(
                EquipmentSlot::Pickaxe,
                EnchantSlotCapacity::native(),
                &existing,
                CanonicalEnchant::Efficiency,
                incoming_level,
            ),
            Err(EnchantApplyError::LowerOrEqualReplacement {
                enchant: CanonicalEnchant::Efficiency,
                existing_level: 5,
                incoming_level,
            })
        );
    }
}

#[test]
fn placement_restrictions_fail_closed_for_incoming_and_existing_state() {
    assert_eq!(
        preview_standard_finished_book_application(
            EquipmentSlot::Helmet,
            EnchantSlotCapacity::native(),
            &[],
            CanonicalEnchant::Cat,
            1,
        ),
        Err(EnchantApplyError::IncomingEnchantWrongEquipmentSlot {
            enchant: CanonicalEnchant::Cat,
            slot: EquipmentSlot::Helmet,
        })
    );

    assert_eq!(
        preview_standard_finished_book_application(
            EquipmentSlot::Helmet,
            EnchantSlotCapacity::native(),
            &[applied(CanonicalEnchant::Dodge, 1)],
            CanonicalEnchant::Protection,
            1,
        ),
        Err(EnchantApplyError::ExistingEnchantWrongEquipmentSlot {
            enchant: CanonicalEnchant::Dodge,
            slot: EquipmentSlot::Helmet,
        })
    );
}

#[test]
fn canonical_resulting_level_limits_are_enforced_for_incoming_and_existing_state() {
    for (enchant, invalid_level, maximum) in [
        (CanonicalEnchant::Mending, 2, 1),
        (CanonicalEnchant::BaitRack, 4, 3),
        (CanonicalEnchant::NineLife, 10, 9),
        (CanonicalEnchant::Phoenix, 2, 1),
        (CanonicalEnchant::Carving, 2, 1),
        (CanonicalEnchant::Master, 3, 2),
    ] {
        assert_eq!(
            preview_standard_finished_book_application(
                EquipmentSlot::FishingRod,
                EnchantSlotCapacity::native(),
                &[],
                enchant,
                invalid_level,
            ),
            Err(EnchantApplyError::InvalidEnchantLevel {
                enchant,
                level: invalid_level,
                maximum,
            })
        );
    }

    assert_eq!(
        preview_standard_finished_book_application(
            EquipmentSlot::Pickaxe,
            EnchantSlotCapacity::native(),
            &[applied(CanonicalEnchant::Mending, 2)],
            CanonicalEnchant::Efficiency,
            1,
        ),
        Err(EnchantApplyError::InvalidEnchantLevel {
            enchant: CanonicalEnchant::Mending,
            level: 2,
            maximum: 1,
        })
    );
}

#[test]
fn duplicate_or_over_capacity_existing_state_is_rejected() {
    assert_eq!(
        preview_standard_finished_book_application(
            EquipmentSlot::Sword,
            EnchantSlotCapacity::native(),
            &[
                applied(CanonicalEnchant::Looting, 1),
                applied(CanonicalEnchant::Looting, 2),
            ],
            CanonicalEnchant::Sharpness,
            1,
        ),
        Err(EnchantApplyError::DuplicateExistingEnchant(
            CanonicalEnchant::Looting
        ))
    );

    assert_eq!(
        preview_standard_finished_book_application(
            EquipmentSlot::Sword,
            EnchantSlotCapacity::native(),
            &[
                applied(CanonicalEnchant::Looting, 1),
                applied(CanonicalEnchant::Knockback, 1),
                applied(CanonicalEnchant::Devour, 1),
                applied(CanonicalEnchant::Unbreaking, 1),
                applied(CanonicalEnchant::Mending, 1),
            ],
            CanonicalEnchant::Sharpness,
            1,
        ),
        Err(EnchantApplyError::ExistingOccupancyExceedsCapacity {
            family: EnchantSlotFamily::NormalClass,
            occupied: 5,
            unlocked: 4,
        })
    );
}

#[test]
fn same_item_conflicts_are_rejected_for_both_conflict_scopes() {
    assert_eq!(
        preview_standard_finished_book_application(
            EquipmentSlot::Pickaxe,
            EnchantSlotCapacity::native(),
            &[applied(CanonicalEnchant::Trench, 1)],
            CanonicalEnchant::Nuke,
            1,
        ),
        Err(EnchantApplyError::IncomingConflict {
            incoming: CanonicalEnchant::Nuke,
            existing: CanonicalEnchant::Trench,
            scope: EnchantConflictScope::SameItem,
        })
    );

    assert_eq!(
        preview_standard_finished_book_application(
            EquipmentSlot::Chestplate,
            EnchantSlotCapacity::native(),
            &[applied(CanonicalEnchant::Guardian, 1)],
            CanonicalEnchant::NineLife,
            1,
        ),
        Err(EnchantApplyError::IncomingConflict {
            incoming: CanonicalEnchant::NineLife,
            existing: CanonicalEnchant::Guardian,
            scope: EnchantConflictScope::EquippedArmorLoadout,
        })
    );
}

#[test]
fn explicit_non_conflicts_remain_applicable_when_capacity_allows() {
    let preview = preview_standard_finished_book_application(
        EquipmentSlot::Sword,
        EnchantSlotCapacity::try_new(6, 3).unwrap(),
        &[applied(CanonicalEnchant::Piercing, 1)],
        CanonicalEnchant::ArmorPiercing,
        1,
    )
    .unwrap();
    assert_eq!(preview.action, EnchantApplyAction::InsertNew);
    assert_eq!(preview.occupancy_after.normal_class, 2);
}

#[test]
fn survival_core_result_surfaces_the_cross_item_loadout_check() {
    let guardian = preview_standard_finished_book_application(
        EquipmentSlot::Chestplate,
        EnchantSlotCapacity::native(),
        &[],
        CanonicalEnchant::Guardian,
        1,
    )
    .unwrap();
    assert!(guardian.resulting_item_requires_equipped_armor_loadout_conflict_validation);

    let unrelated_insert = preview_standard_finished_book_application(
        EquipmentSlot::Chestplate,
        EnchantSlotCapacity::native(),
        &[applied(CanonicalEnchant::Guardian, 1)],
        CanonicalEnchant::Protection,
        1,
    )
    .unwrap();
    assert!(
        unrelated_insert.resulting_item_requires_equipped_armor_loadout_conflict_validation
    );
}

#[test]
fn invalid_public_capacity_value_is_revalidated_even_without_constructor() {
    let invalid = EnchantSlotCapacity {
        normal_class: 0,
        special_universal: 3,
    };
    assert_eq!(
        preview_standard_finished_book_application(
            EquipmentSlot::Pickaxe,
            invalid,
            &[],
            CanonicalEnchant::Efficiency,
            1,
        ),
        Err(EnchantApplyError::InvalidUnlockedSlotCount {
            family: EnchantSlotFamily::NormalClass,
            current: 0,
            minimum: 4,
            maximum: 6,
        })
    );
}

use graphite_services::enchant_apply::validate_existing_state;

#[test]
fn an_applied_preview_leaves_a_valid_item_with_the_previewed_occupancy() {
    let capacity = EnchantSlotCapacity::native();
    let existing = vec![
        applied(CanonicalEnchant::Efficiency, 3),
        applied(CanonicalEnchant::Unbreaking, 2),
        applied(CanonicalEnchant::Stabilize, 1),
    ];

    let insert = preview_standard_finished_book_application(
        EquipmentSlot::Pickaxe,
        capacity,
        &existing,
        CanonicalEnchant::Fortune,
        4,
    )
    .unwrap();
    assert_eq!(insert.action, EnchantApplyAction::InsertNew);
    let mut inserted = existing.clone();
    inserted.push(applied(CanonicalEnchant::Fortune, 4));
    assert_eq!(
        validate_existing_state(EquipmentSlot::Pickaxe, capacity, &inserted),
        Ok(insert.occupancy_after)
    );

    let upgrade = preview_standard_finished_book_application(
        EquipmentSlot::Pickaxe,
        capacity,
        &existing,
        CanonicalEnchant::Efficiency,
        7,
    )
    .unwrap();
    assert_eq!(upgrade.action, EnchantApplyAction::UpgradeExisting { previous_level: 3 });
    let mut upgraded = existing.clone();
    upgraded[0] = applied(CanonicalEnchant::Efficiency, 7);
    assert_eq!(
        validate_existing_state(EquipmentSlot::Pickaxe, capacity, &upgraded),
        Ok(upgrade.occupancy_after)
    );
}
