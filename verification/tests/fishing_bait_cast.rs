use graphite_services::fishing_bait_cast::ActiveFishingBaitInventory;
use graphite_services::fishing_bait::FishingBait;
use graphite_services::fishing_bait_cast::FishingBaitCastConsumptionAction;
use graphite_services::fishing_bait_cast::FishingBaitCastConsumptionEntry;
use graphite_services::fishing_bait_cast::FishingBaitCastConsumptionError;
use graphite_services::fishing_bait::FishingBaitCategory;
use graphite_services::fishing_bait_cast::plan_fishing_bait_cast_consumption;

#[test]
fn empty_optional_bait_selection_is_valid() {
    let plan = plan_fishing_bait_cast_consumption(None, &[]).unwrap();
    assert_eq!(plan.active_category_capacity, 3);
    assert_eq!(plan.active_baits_before_cast, 0);
    assert_eq!(plan.consumed_bait_categories, 0);
    assert_eq!(plan.auto_detached_bait_categories, 0);
    assert!(plan.entries.is_empty());
}

#[test]
fn each_available_active_bait_consumes_exactly_one_unit() {
    let input = [
        ActiveFishingBaitInventory {
            bait: FishingBait::School,
            available_units: 7,
        },
        ActiveFishingBaitInventory {
            bait: FishingBait::Quality,
            available_units: 1,
        },
        ActiveFishingBaitInventory {
            bait: FishingBait::Treasure,
            available_units: 2,
        },
    ];

    let plan = plan_fishing_bait_cast_consumption(None, &input).unwrap();
    assert_eq!(plan.active_baits_before_cast, 3);
    assert_eq!(plan.consumed_bait_categories, 3);
    assert_eq!(plan.auto_detached_bait_categories, 0);
    assert_eq!(
        plan.entries
            .iter()
            .map(|entry| (
                entry.bait,
                entry.units_consumed,
                entry.available_units_after,
                entry.action,
            ))
            .collect::<Vec<_>>(),
        vec![
            (
                FishingBait::School,
                1,
                6,
                FishingBaitCastConsumptionAction::ConsumeForCast,
            ),
            (
                FishingBait::Quality,
                1,
                0,
                FishingBaitCastConsumptionAction::ConsumeForCast,
            ),
            (
                FishingBait::Treasure,
                1,
                1,
                FishingBaitCastConsumptionAction::ConsumeForCast,
            ),
        ]
    );
}

#[test]
fn missing_active_bait_auto_detaches_without_blocking_other_categories() {
    let input = [
        ActiveFishingBaitInventory {
            bait: FishingBait::School,
            available_units: 0,
        },
        ActiveFishingBaitInventory {
            bait: FishingBait::Sturdy,
            available_units: 4,
        },
    ];

    let plan = plan_fishing_bait_cast_consumption(None, &input).unwrap();
    assert_eq!(plan.consumed_bait_categories, 1);
    assert_eq!(plan.auto_detached_bait_categories, 1);
    assert_eq!(
        plan.entries[0],
        FishingBaitCastConsumptionEntry {
            bait: FishingBait::School,
            category: FishingBaitCategory::Quantity,
            available_units_before: 0,
            units_consumed: 0,
            available_units_after: 0,
            action: FishingBaitCastConsumptionAction::AutoDetachMissingUnit,
        }
    );
    assert_eq!(
        plan.entries[1].action,
        FishingBaitCastConsumptionAction::ConsumeForCast
    );
}

#[test]
fn active_selection_must_fit_native_or_bait_rack_capacity() {
    let input = [
        ActiveFishingBaitInventory {
            bait: FishingBait::School,
            available_units: 1,
        },
        ActiveFishingBaitInventory {
            bait: FishingBait::Quality,
            available_units: 1,
        },
        ActiveFishingBaitInventory {
            bait: FishingBait::Rare,
            available_units: 1,
        },
        ActiveFishingBaitInventory {
            bait: FishingBait::Treasure,
            available_units: 1,
        },
    ];

    assert_eq!(
        plan_fishing_bait_cast_consumption(None, &input),
        Err(
            FishingBaitCastConsumptionError::ActiveCategoryCapacityExceeded {
                selected: 4,
                capacity: 3,
            }
        )
    );
    assert!(plan_fishing_bait_cast_consumption(Some(1), &input).is_ok());
}

#[test]
fn duplicate_or_negative_authoritative_input_fails_closed() {
    let duplicate = [
        ActiveFishingBaitInventory {
            bait: FishingBait::Rare,
            available_units: 1,
        },
        ActiveFishingBaitInventory {
            bait: FishingBait::Rare,
            available_units: 2,
        },
    ];
    assert_eq!(
        plan_fishing_bait_cast_consumption(None, &duplicate),
        Err(FishingBaitCastConsumptionError::DuplicateActiveBait(
            FishingBait::Rare
        ))
    );

    assert_eq!(
        plan_fishing_bait_cast_consumption(
            None,
            &[ActiveFishingBaitInventory {
                bait: FishingBait::Sturdy,
                available_units: -1,
            }],
        ),
        Err(FishingBaitCastConsumptionError::NegativeAvailableUnits {
            bait: FishingBait::Sturdy,
            available_units: -1,
        })
    );
}
