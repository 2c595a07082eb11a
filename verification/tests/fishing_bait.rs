use graphite_services::fishing_bait::BaitRackCapacityPolicy;
use graphite_services::fishing_bait::BaitRackPolicyError;
use graphite_services::fishing_bait::FishingBait;
use graphite_services::fishing_bait::FishingBaitCategory;
use graphite_services::fishing_bait::FishingBaitEffect;
use graphite_services::fishing_bait::FishingRarity;
use graphite_services::fishing_bait::bait_rack_capacity_policy;
use graphite_services::fishing_bait::fishing_bait_policy;

#[test]
fn fishing_bait_absent_bait_rack_preserves_three_native_active_categories() {
    assert_eq!(
        bait_rack_capacity_policy(None).unwrap(),
        BaitRackCapacityPolicy {
            bait_rack_level: None,
            native_active_bait_category_slots: 3,
            additional_active_bait_category_slots: 0,
            active_bait_category_slots: 3,
            max_active_bait_category_slots: 6,
            rod_only: true,
            occupies_one_normal_rod_enchant_slot: false,
        }
    );
}

#[test]
fn fishing_bait_levels_one_through_three_expand_capacity_to_four_through_six() {
    for (level, expected_capacity) in [(1, 4), (2, 5), (3, 6)] {
        let policy = bait_rack_capacity_policy(Some(level)).unwrap();
        assert_eq!(policy.bait_rack_level, Some(level));
        assert_eq!(policy.native_active_bait_category_slots, 3);
        assert_eq!(policy.additional_active_bait_category_slots, level);
        assert_eq!(policy.active_bait_category_slots, expected_capacity);
        assert_eq!(policy.max_active_bait_category_slots, 6);
        assert!(policy.rod_only);
        assert!(policy.occupies_one_normal_rod_enchant_slot);
    }
}

#[test]
fn fishing_bait_present_noncanonical_levels_fail_closed() {
    for level in [0, 4, u8::MAX] {
        assert_eq!(
            bait_rack_capacity_policy(Some(level)),
            Err(BaitRackPolicyError::LevelOutOfRange(level))
        );
    }
}

#[test]
fn bait_catalog_preserves_exact_categories_prices_and_consumption() {
    for (bait, category, price) in [
        (FishingBait::School, FishingBaitCategory::Quantity, 35),
        (FishingBait::Quality, FishingBaitCategory::Quality, 50),
        (FishingBait::Rare, FishingBaitCategory::SpeciesQuality, 75),
        (FishingBait::Treasure, FishingBaitCategory::Treasure, 100),
        (FishingBait::Sturdy, FishingBaitCategory::Safety, 50),
    ] {
        let policy = fishing_bait_policy(bait);
        assert_eq!(policy.bait, bait);
        assert_eq!(policy.category, category);
        assert_eq!(policy.shop_price_per_unit, price);
        assert_eq!(policy.units_consumed_per_cast, 1);
        assert!(policy.optional_money_sink);
        assert!(policy.effects_apply_on_independent_axes_before_shared_caps);
        assert!(!policy.multi_catch_consumes_extra_bait);
        assert!(!policy.multi_treasure_consumes_extra_bait);
    }
}

#[test]
fn school_and_sturdy_effects_preserve_exact_frozen_ratios() {
    let FishingBaitEffect::School {
        requires_fish_result,
        extra_same_area_fish_chance,
        extra_fish_count,
        non_recursive,
        max_total_fish_per_cast,
    } = fishing_bait_policy(FishingBait::School).effect
    else {
        panic!("School Bait returned the wrong effect variant");
    };
    assert!(requires_fish_result);
    assert_eq!(
        (
            extra_same_area_fish_chance.numerator(),
            extra_same_area_fish_chance.denominator()
        ),
        (2, 25)
    );
    assert_eq!(extra_fish_count, 1);
    assert!(non_recursive);
    assert_eq!(max_total_fish_per_cast, 5);

    let FishingBaitEffect::Sturdy {
        line_strength_factor,
        final_line_break_chance_factor,
    } = fishing_bait_policy(FishingBait::Sturdy).effect
    else {
        panic!("Sturdy Bait returned the wrong effect variant");
    };
    assert_eq!(
        (
            line_strength_factor.numerator(),
            line_strength_factor.denominator()
        ),
        (11, 10)
    );
    assert_eq!(
        (
            final_line_break_chance_factor.numerator(),
            final_line_break_chance_factor.denominator()
        ),
        (9, 10)
    );
}

#[test]
fn quality_rare_and_treasure_effects_preserve_relative_weight_factors() {
    let FishingBaitEffect::Quality {
        sampled_fish_weight_center_factor,
        non_normal_variant_relative_weight_factor,
    } = fishing_bait_policy(FishingBait::Quality).effect
    else {
        panic!("Quality Bait returned the wrong effect variant");
    };
    assert_eq!(
        (
            sampled_fish_weight_center_factor.numerator(),
            sampled_fish_weight_center_factor.denominator()
        ),
        (21, 20)
    );
    assert_eq!(
        (
            non_normal_variant_relative_weight_factor.numerator(),
            non_normal_variant_relative_weight_factor.denominator()
        ),
        (11, 10)
    );

    let FishingBaitEffect::Rare {
        affected_species_rarities,
        eligible_species_relative_weight_factor,
    } = fishing_bait_policy(FishingBait::Rare).effect
    else {
        panic!("Rare Bait returned the wrong effect variant");
    };
    assert_eq!(
        affected_species_rarities,
        [
            FishingRarity::Rare,
            FishingRarity::Epic,
            FishingRarity::Legendary,
            FishingRarity::Mythic,
        ]
    );
    assert_eq!(
        (
            eligible_species_relative_weight_factor.numerator(),
            eligible_species_relative_weight_factor.denominator()
        ),
        (28, 25)
    );

    let FishingBaitEffect::Treasure {
        treasure_branch_relative_weight_factor,
        junk_branch_relative_weight_factor,
    } = fishing_bait_policy(FishingBait::Treasure).effect
    else {
        panic!("Treasure Bait returned the wrong effect variant");
    };
    assert_eq!(
        (
            treasure_branch_relative_weight_factor.numerator(),
            treasure_branch_relative_weight_factor.denominator()
        ),
        (23, 20)
    );
    assert_eq!(
        (
            junk_branch_relative_weight_factor.numerator(),
            junk_branch_relative_weight_factor.denominator()
        ),
        (9, 10)
    );
}
