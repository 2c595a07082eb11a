use graphite_services::equipment_policy::BaseEquipmentAppraisalSource;
use graphite_services::equipment_policy::EquipmentMaterial;
use graphite_services::equipment_policy::EquipmentSlot;
use graphite_services::equipment_policy::EquipmentTier;
use graphite_services::forge::ForgePostConfirmCancellation;
use graphite_services::ordinary_forge::FreshForgeOutcomePolicy;
use graphite_services::ordinary_forge::FreshForgeOutputLocation;
use graphite_services::ordinary_forge::FreshOrdinaryForgePolicyError;
use graphite_services::ordinary_forge::auxiliary_wood_logs;
use graphite_services::ordinary_forge::forge_money_cost;
use graphite_services::ordinary_forge::preview_fresh_ordinary_forge;
use graphite_services::ordinary_forge::primary_material_units;

const SECONDS_PER_MINUTE: i64 = 60;

const ALL_SLOTS: [EquipmentSlot; 7] = [
    EquipmentSlot::Pickaxe,
    EquipmentSlot::Sword,
    EquipmentSlot::FishingRod,
    EquipmentSlot::Helmet,
    EquipmentSlot::Chestplate,
    EquipmentSlot::Leggings,
    EquipmentSlot::Boots,
];

#[test]
fn primary_and_auxiliary_recipe_units_match_frozen_slot_table() {
    let expected = [
        (EquipmentSlot::Pickaxe, 3, 1),
        (EquipmentSlot::Sword, 2, 1),
        (EquipmentSlot::FishingRod, 2, 1),
        (EquipmentSlot::Helmet, 5, 0),
        (EquipmentSlot::Chestplate, 8, 0),
        (EquipmentSlot::Leggings, 7, 0),
        (EquipmentSlot::Boots, 4, 0),
    ];

    for (slot, primary, wood) in expected {
        assert_eq!(primary_material_units(slot), primary);
        assert_eq!(auxiliary_wood_logs(slot), wood);
    }
}

#[test]
fn tier_cost_time_and_material_policy_match_frozen_values() {
    let tiers = [
        (EquipmentTier::Wood, EquipmentMaterial::WoodLog, 0, 2),
        (EquipmentTier::Stone, EquipmentMaterial::Stone, 50, 3),
        (
            EquipmentTier::Copper,
            EquipmentMaterial::CopperIngot,
            100,
            5,
        ),
        (EquipmentTier::Gold, EquipmentMaterial::GoldIngot, 300, 8),
        (EquipmentTier::Iron, EquipmentMaterial::IronIngot, 250, 8),
        (EquipmentTier::Diamond, EquipmentMaterial::Diamond, 700, 15),
        (
            EquipmentTier::Obsidian,
            EquipmentMaterial::Obsidian,
            1_800,
            30,
        ),
    ];

    for (tier, material, aexp, minutes) in tiers {
        let slots: &[EquipmentSlot] = if tier == EquipmentTier::Gold {
            &ALL_SLOTS[..3]
        } else {
            &ALL_SLOTS
        };
        for &slot in slots {
            let preview = preview_fresh_ordinary_forge(tier, slot).unwrap();
            assert_eq!(preview.primary_material, material, "{tier:?} {slot:?}");
            assert_eq!(preview.activity_xp_cost, aexp, "{tier:?} {slot:?}");
            assert_eq!(
                preview.duration_seconds,
                minutes * SECONDS_PER_MINUTE,
                "{tier:?} {slot:?}"
            );
            assert_eq!(
                preview.base_appraisal.source,
                BaseEquipmentAppraisalSource::StandardTable
            );
            assert_eq!(preview.outcome, FreshForgeOutcomePolicy::Guaranteed);
            assert_eq!(
                preview.cancellation_after_confirm,
                ForgePostConfirmCancellation::Unspecified
            );
            assert_eq!(
                preview.output_location,
                FreshForgeOutputLocation::ToolLocker
            );
            assert_eq!(preview.output_upgrade_level, 0);
            assert!(preview.requires_new_positive_creation_roll);
            assert!(!preview.npc_resale_path);
        }
    }
}

#[test]
fn money_cost_matches_frozen_standard_appraisals_across_all_valid_targets() {
    let expected = [
        (
            EquipmentTier::Wood,
            [1_000, 1_000, 1_000, 1_000, 1_000, 1_000, 1_000],
        ),
        (
            EquipmentTier::Stone,
            [1_000, 1_000, 1_000, 1_000, 1_000, 1_000, 1_000],
        ),
        (
            EquipmentTier::Copper,
            [2_000, 2_000, 2_000, 2_000, 3_000, 2_000, 2_000],
        ),
        (EquipmentTier::Gold, [9_000, 9_000, 9_000, 0, 0, 0, 0]),
        (
            EquipmentTier::Iron,
            [6_000, 6_000, 6_000, 5_000, 8_000, 7_000, 4_000],
        ),
        (
            EquipmentTier::Diamond,
            [22_000, 22_000, 22_000, 17_000, 29_000, 25_000, 15_000],
        ),
        (
            EquipmentTier::Obsidian,
            [70_000, 70_000, 70_000, 56_000, 95_000, 81_000, 49_000],
        ),
    ];

    for (tier, costs) in expected {
        for (slot, expected_cost) in ALL_SLOTS.into_iter().zip(costs) {
            if tier == EquipmentTier::Gold
                && matches!(
                    slot,
                    EquipmentSlot::Helmet
                        | EquipmentSlot::Chestplate
                        | EquipmentSlot::Leggings
                        | EquipmentSlot::Boots
                )
            {
                continue;
            }
            let preview = preview_fresh_ordinary_forge(tier, slot).unwrap();
            assert_eq!(preview.money_cost, expected_cost, "{tier:?} {slot:?}");
        }
    }
}

#[test]
fn round1000_is_half_up_before_minimum_fee_is_applied() {
    assert_eq!(forge_money_cost(31_249).unwrap(), 2_000);
    assert_eq!(forge_money_cost(31_250).unwrap(), 3_000);
    assert_eq!(forge_money_cost(0).unwrap(), 1_000);
}

#[test]
fn invalid_fresh_targets_fail_closed() {
    for tier in [
        EquipmentTier::StarterLeather,
        EquipmentTier::Netherite,
        EquipmentTier::Graphite,
    ] {
        assert_eq!(
            preview_fresh_ordinary_forge(tier, EquipmentSlot::Pickaxe),
            Err(FreshOrdinaryForgePolicyError::UnsupportedFreshForgeTier(
                tier
            ))
        );
    }

    for slot in [
        EquipmentSlot::Helmet,
        EquipmentSlot::Chestplate,
        EquipmentSlot::Leggings,
        EquipmentSlot::Boots,
    ] {
        assert_eq!(
            preview_fresh_ordinary_forge(EquipmentTier::Gold, slot),
            Err(FreshOrdinaryForgePolicyError::UnsupportedGoldSlot(slot))
        );
    }
}

#[test]
fn money_helper_rejects_negative_input() {
    assert_eq!(
        forge_money_cost(-1),
        Err(FreshOrdinaryForgePolicyError::ArithmeticOverflow)
    );
}
