use graphite_services::bait_rack::BaitRackCapacityPolicy;
use graphite_services::bait_rack::BaitRackPolicyError;
use graphite_services::bait_rack::bait_rack_capacity_policy;

#[test]
fn bait_rack_absent_bait_rack_preserves_three_native_active_categories() {
    assert_eq!(
        bait_rack_capacity_policy(None).unwrap(),
        BaitRackCapacityPolicy {
            bait_rack_level: None,
            native_active_bait_category_slots: 3,
            additional_active_bait_category_slots: 0,
            active_bait_category_slots: 3,
            max_active_bait_category_slots: 6,
            rod_only: true,
            occupies_one_normal_rod_enchant_slot: false,
        }
    );
}

#[test]
fn bait_rack_levels_one_through_three_expand_capacity_to_four_through_six() {
    for (level, expected_capacity) in [(1, 4), (2, 5), (3, 6)] {
        let policy = bait_rack_capacity_policy(Some(level)).unwrap();
        assert_eq!(policy.bait_rack_level, Some(level));
        assert_eq!(policy.native_active_bait_category_slots, 3);
        assert_eq!(policy.additional_active_bait_category_slots, level);
        assert_eq!(policy.active_bait_category_slots, expected_capacity);
        assert_eq!(policy.max_active_bait_category_slots, 6);
        assert!(policy.rod_only);
        assert!(policy.occupies_one_normal_rod_enchant_slot);
    }
}

#[test]
fn bait_rack_present_noncanonical_levels_fail_closed() {
    for level in [0, 4, u8::MAX] {
        assert_eq!(
            bait_rack_capacity_policy(Some(level)),
            Err(BaitRackPolicyError::LevelOutOfRange(level))
        );
    }
}
