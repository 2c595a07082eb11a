use graphite_services::forge::AdvancedForgePromotion;
use graphite_services::forge::AdvancedForgeStackRecipe;
use graphite_services::equipment_policy::EquipmentTier;
use graphite_services::forge::ForgeFailurePolicy;
use graphite_services::forge::ForgePolicyError;
use graphite_services::forge::ForgePostConfirmCancellation;
use graphite_services::forge::ForgeSuccessChance;
use graphite_services::forge::advanced_forge_promotion_policy;
use graphite_services::forge::advanced_forge_stack_policy;
use graphite_services::forge::project_promoted_durability;

const SECONDS_PER_MINUTE: i64 = 60;
const SECONDS_PER_HOUR: i64 = 60 * SECONDS_PER_MINUTE;

#[test]
fn stack_recipe_policy_matches_frozen_advanced_forge_values() {
    let cases = [
        (
            AdvancedForgeStackRecipe::NetheriteBillet,
            "forge.netherite-billet",
            5_000,
            1_000,
            15 * SECONDS_PER_MINUTE,
            ForgeSuccessChance::guaranteed(),
            ForgePostConfirmCancellation::Unspecified,
            ForgeFailurePolicy::Impossible,
        ),
        (
            AdvancedForgeStackRecipe::GraphitePrecursor,
            "forge.graphite-precursor",
            15_000,
            1_000,
            10 * SECONDS_PER_MINUTE,
            ForgeSuccessChance::guaranteed(),
            ForgePostConfirmCancellation::Forbidden,
            ForgeFailurePolicy::Impossible,
        ),
        (
            AdvancedForgeStackRecipe::GraphiteLayer,
            "forge.graphite-layer",
            5_000,
            500,
            30 * SECONDS_PER_MINUTE,
            ForgeSuccessChance::graphite_layer(),
            ForgePostConfirmCancellation::Forbidden,
            ForgeFailurePolicy::ConsumeCommittedInputsNoPityNoUpgradeModifiers,
        ),
        (
            AdvancedForgeStackRecipe::GraphiteBillet,
            "forge.graphite-billet",
            500_000,
            25_000,
            2 * SECONDS_PER_HOUR,
            ForgeSuccessChance::guaranteed(),
            ForgePostConfirmCancellation::Forbidden,
            ForgeFailurePolicy::Impossible,
        ),
    ];

    for (recipe, key, money, aexp, duration, success, cancellation, failure) in cases {
        let policy = advanced_forge_stack_policy(recipe);
        assert_eq!(policy.content_recipe_key, key);
        assert_eq!(policy.money_cost, money);
        assert_eq!(policy.activity_xp_cost, aexp);
        assert_eq!(policy.duration_seconds, duration);
        assert_eq!(policy.success, success);
        assert_eq!(policy.cancellation_after_confirm, cancellation);
        assert_eq!(policy.failure_policy, failure);
    }
}

#[test]
fn graphite_layer_chance_is_exact_two_fifths_without_rng_mapping() {
    let policy = advanced_forge_stack_policy(AdvancedForgeStackRecipe::GraphiteLayer);
    assert_eq!(policy.success.numerator(), 2);
    assert_eq!(policy.success.denominator(), 5);
    assert!(!policy.success.is_guaranteed());
    assert_eq!(
        policy.failure_policy,
        ForgeFailurePolicy::ConsumeCommittedInputsNoPityNoUpgradeModifiers
    );
}

#[test]
fn guaranteed_policies_expose_canonical_unit_fraction() {
    for success in [
        advanced_forge_stack_policy(AdvancedForgeStackRecipe::NetheriteBillet).success,
        advanced_forge_stack_policy(AdvancedForgeStackRecipe::GraphitePrecursor).success,
        advanced_forge_stack_policy(AdvancedForgeStackRecipe::GraphiteBillet).success,
        advanced_forge_promotion_policy(AdvancedForgePromotion::ObsidianToNetherite).success,
        advanced_forge_promotion_policy(AdvancedForgePromotion::NetheriteToGraphite).success,
    ] {
        assert_eq!(success.numerator(), 1);
        assert_eq!(success.denominator(), 1);
        assert!(success.is_guaranteed());
    }
}

#[test]
fn promotion_policy_matches_frozen_chain() {
    let netherite =
        advanced_forge_promotion_policy(AdvancedForgePromotion::ObsidianToNetherite);
    assert_eq!(netherite.from_tier, EquipmentTier::Obsidian);
    assert_eq!(netherite.to_tier, EquipmentTier::Netherite);
    assert_eq!(
        netherite.required_component_content_key,
        "material.netherite_billet"
    );
    assert_eq!(netherite.required_component_quantity, 1);
    assert_eq!(netherite.money_cost, 150_000);
    assert_eq!(netherite.activity_xp_cost, 5_000);
    assert_eq!(netherite.duration_seconds, SECONDS_PER_HOUR);
    assert_eq!(netherite.success, ForgeSuccessChance::guaranteed());
    assert_eq!(
        netherite.cancellation_after_confirm,
        ForgePostConfirmCancellation::Unspecified
    );
    assert!(!netherite.bound_item_requires_soulbind_top_up);

    let graphite = advanced_forge_promotion_policy(AdvancedForgePromotion::NetheriteToGraphite);
    assert_eq!(graphite.from_tier, EquipmentTier::Netherite);
    assert_eq!(graphite.to_tier, EquipmentTier::Graphite);
    assert_eq!(
        graphite.required_component_content_key,
        "material.graphite_billet"
    );
    assert_eq!(graphite.required_component_quantity, 1);
    assert_eq!(graphite.money_cost, 1_800_000);
    assert_eq!(graphite.activity_xp_cost, 50_000);
    assert_eq!(graphite.duration_seconds, 4 * SECONDS_PER_HOUR);
    assert_eq!(graphite.success, ForgeSuccessChance::guaranteed());
    assert_eq!(
        graphite.cancellation_after_confirm,
        ForgePostConfirmCancellation::Forbidden
    );
    assert!(graphite.bound_item_requires_soulbind_top_up);
}

#[test]
fn durability_projection_preserves_floor_ratio_and_broken_zero() {
    assert_eq!(project_promoted_durability(50, 100, 250).unwrap(), 125);
    assert_eq!(project_promoted_durability(1, 3, 100).unwrap(), 33);
    assert_eq!(project_promoted_durability(2, 3, 100).unwrap(), 66);
    assert_eq!(project_promoted_durability(0, 100, 999).unwrap(), 0);
    assert_eq!(project_promoted_durability(100, 100, 999).unwrap(), 999);
}

#[test]
fn durability_projection_rejects_invalid_boundaries() {
    assert_eq!(
        project_promoted_durability(0, 0, 100),
        Err(ForgePolicyError::InvalidOldMaxDurability)
    );
    assert_eq!(
        project_promoted_durability(0, 100, 0),
        Err(ForgePolicyError::InvalidPromotedMaxDurability)
    );
    assert_eq!(
        project_promoted_durability(-1, 100, 100),
        Err(ForgePolicyError::InvalidCurrentDurability)
    );
    assert_eq!(
        project_promoted_durability(101, 100, 100),
        Err(ForgePolicyError::InvalidCurrentDurability)
    );
}
