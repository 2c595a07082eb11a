use graphite_services::fishing_droptable::FishingCatchBranch;
use graphite_services::enchant_conflict::FishingRodEnchant;
use graphite_services::fishing_rod_level_x::FishingRodLevelXEffect;
use graphite_services::fishing_rod_level_x::FishingRodLevelXPolicy;
use graphite_services::fishing_rod_level_x::FishingRodLevelXPolicyError;
use graphite_services::fishing_rod_level_x::fishing_rod_level_x_policy;
use graphite_services::fishing_rod_level_x::preview_treasure_level_x_branch_weight;

#[test]
fn all_scalar_level_x_rows_match_the_current_master() {
    assert_eq!(
        fishing_rod_level_x_policy(FishingRodEnchant::Lure),
        Ok(FishingRodLevelXPolicy {
            enchant: FishingRodEnchant::Lure,
            effect: FishingRodLevelXEffect::Lure {
                action_speed_rating_percent: 15,
                uses_shared_fishing_speed_bucket: true,
            },
        })
    );
    assert_eq!(
        fishing_rod_level_x_policy(FishingRodEnchant::LuckOfTheSea),
        Ok(FishingRodLevelXPolicy {
            enchant: FishingRodEnchant::LuckOfTheSea,
            effect: FishingRodLevelXEffect::LuckOfTheSea {
                rare_species_relative_weight_increase_percent: 60,
                junk_relative_weight_decrease_percent: 30,
                resolves_before_fish_instance_creation: true,
            },
        })
    );
    assert_eq!(
        fishing_rod_level_x_policy(FishingRodEnchant::Treasure),
        Ok(FishingRodLevelXPolicy {
            enchant: FishingRodEnchant::Treasure,
            effect: FishingRodLevelXEffect::Treasure {
                treasure_branch_relative_weight_increase_percent: 80,
                affects_internal_treasure_result_weights: false,
            },
        })
    );
    assert_eq!(
        fishing_rod_level_x_policy(FishingRodEnchant::Luck),
        Ok(FishingRodLevelXPolicy {
            enchant: FishingRodEnchant::Luck,
            effect: FishingRodLevelXEffect::Luck {
                expected_size_weight_variant_quality_value_increase_percent: 20,
                alters_species_rarity: false,
                resolves_before_fish_instance_creation: true,
            },
        })
    );
    assert_eq!(
        fishing_rod_level_x_policy(FishingRodEnchant::Unbreaking),
        Ok(FishingRodLevelXPolicy {
            enchant: FishingRodEnchant::Unbreaking,
            effect: FishingRodLevelXEffect::Unbreaking {
                ignore_normal_rod_durability_event_chance_percent: 20,
            },
        })
    );
}

#[test]
fn dedicated_policy_enchants_fail_closed() {
    for enchant in [
        FishingRodEnchant::MultiTreasure,
        FishingRodEnchant::Mending,
        FishingRodEnchant::Multicatch,
        FishingRodEnchant::Strengthen,
        FishingRodEnchant::SharpHook,
        FishingRodEnchant::BaitRack,
    ] {
        assert_eq!(
            fishing_rod_level_x_policy(enchant),
            Err(FishingRodLevelXPolicyError::DedicatedPolicy(enchant))
        );
    }
}

#[test]
fn treasure_level_x_boosts_only_treasure_branch_before_normalization() {
    let expected = [
        (FishingCatchBranch::Fish, 176, false, (1, 1), (176, 1)),
        (FishingCatchBranch::Junk, 17, false, (1, 1), (17, 1)),
        (FishingCatchBranch::Treasure, 7, true, (9, 5), (63, 5)),
    ];

    for (branch, base, applied, factor, adjusted) in expected {
        let preview = preview_treasure_level_x_branch_weight(branch).unwrap();
        assert_eq!(preview.branch, branch);
        assert_eq!(preview.base_relative_weight, base);
        assert_eq!(preview.treasure_level_x_applied, applied);
        assert_eq!(
            (
                preview.relative_weight_multiplier_numerator(),
                preview.relative_weight_multiplier_denominator(),
            ),
            factor
        );
        assert_eq!(
            (
                preview.adjusted_relative_weight_numerator(),
                preview.adjusted_relative_weight_denominator(),
            ),
            adjusted
        );
    }
}
