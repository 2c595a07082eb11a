use graphite_services::equipment_policy::EquipmentSlot;
use graphite_services::mending::MendingContext;
use graphite_services::mending::MendingPolicyError;
use graphite_services::mending::preview_mending;

#[test]
fn manual_mending_costs_five_aexp_per_durability_for_every_supported_slot() {
    for slot in [
        EquipmentSlot::Pickaxe,
        EquipmentSlot::FishingRod,
        EquipmentSlot::Sword,
        EquipmentSlot::Helmet,
        EquipmentSlot::Chestplate,
        EquipmentSlot::Leggings,
        EquipmentSlot::Boots,
    ] {
        let preview = preview_mending(slot, MendingContext::Manual, 17, false).unwrap();
        assert_eq!(preview.activity_xp_per_durability, 5);
        assert_eq!(preview.activity_xp_cost, 85);
        assert!(!preview.resolves_before_machine_experience_pool);
    }
}

#[test]
fn automation_mending_costs_eight_only_for_pickaxe_and_rod() {
    for slot in [EquipmentSlot::Pickaxe, EquipmentSlot::FishingRod] {
        let preview = preview_mending(slot, MendingContext::Automation, 17, false).unwrap();
        assert_eq!(preview.activity_xp_per_durability, 8);
        assert_eq!(preview.activity_xp_cost, 136);
        assert!(preview.resolves_before_machine_experience_pool);
    }

    for slot in [
        EquipmentSlot::Sword,
        EquipmentSlot::Helmet,
        EquipmentSlot::Chestplate,
        EquipmentSlot::Leggings,
        EquipmentSlot::Boots,
    ] {
        assert_eq!(
            preview_mending(slot, MendingContext::Automation, 1, false),
            Err(MendingPolicyError::AutomationUnsupportedForSlot(slot))
        );
    }
}

#[test]
fn pickaxe_nuke_burnout_blocks_manual_and_automation_mending() {
    for context in [MendingContext::Manual, MendingContext::Automation] {
        assert_eq!(
            preview_mending(EquipmentSlot::Pickaxe, context, 1, true),
            Err(MendingPolicyError::NukeBurnoutBlocksRestoration)
        );
    }
}

#[test]
fn zero_cost_is_a_pure_projection_but_negative_and_overflow_are_rejected() {
    assert_eq!(
        preview_mending(EquipmentSlot::Sword, MendingContext::Manual, 0, false)
            .unwrap()
            .activity_xp_cost,
        0
    );
    assert_eq!(
        preview_mending(EquipmentSlot::Sword, MendingContext::Manual, -1, false),
        Err(MendingPolicyError::NegativeDurabilityToRestore)
    );
    assert_eq!(
        preview_mending(
            EquipmentSlot::FishingRod,
            MendingContext::Automation,
            i64::MAX,
            false,
        ),
        Err(MendingPolicyError::ArithmeticOverflow)
    );
}
