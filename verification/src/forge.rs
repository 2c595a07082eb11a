//! Frozen advanced Forge stack recipes, tier promotions and promoted-durability projection.
use vstd::prelude::*;

use crate::equipment_policy::EquipmentTier;

verus! {

const SECONDS_PER_MINUTE: i64 = 60;

const SECONDS_PER_HOUR: i64 = 3_600;

#[derive(Clone, Copy, Debug, PartialEq, Eq, Structural)]
pub enum AdvancedForgeStackRecipe {
    NetheriteBillet,
    GraphitePrecursor,
    GraphiteLayer,
    GraphiteBillet,
}

/// The content-registry recipe key of a stack recipe.
pub open spec fn spec_content_recipe_key(recipe: AdvancedForgeStackRecipe) -> &'static str {
    match recipe {
        AdvancedForgeStackRecipe::NetheriteBillet => "forge.netherite-billet",
        AdvancedForgeStackRecipe::GraphitePrecursor => "forge.graphite-precursor",
        AdvancedForgeStackRecipe::GraphiteLayer => "forge.graphite-layer",
        AdvancedForgeStackRecipe::GraphiteBillet => "forge.graphite-billet",
    }
}

impl AdvancedForgeStackRecipe {
    pub fn content_recipe_key(self) -> (r: &'static str)
        ensures
            r == spec_content_recipe_key(self),
    {
        match self {
            AdvancedForgeStackRecipe::NetheriteBillet => "forge.netherite-billet",
            AdvancedForgeStackRecipe::GraphitePrecursor => "forge.graphite-precursor",
            AdvancedForgeStackRecipe::GraphiteLayer => "forge.graphite-layer",
            AdvancedForgeStackRecipe::GraphiteBillet => "forge.graphite-billet",
        }
    }
}

/// An exact success chance `numerator / denominator`.
#[derive(Clone, Copy, Debug, PartialEq, Eq, Structural)]
pub struct ForgeSuccessChance {
    numerator: u32,
    denominator: u32,
}

impl ForgeSuccessChance {
    /// The stored numerator.
    pub closed spec fn num(self) -> u32 {
        self.numerator
    }

    /// The stored denominator.
    pub closed spec fn den(self) -> u32 {
        self.denominator
    }

    /// Whether the chance is stored as exactly `n / d`.
    pub open spec fn is(self, n: u32, d: u32) -> bool {
        self.num() == n && self.den() == d
    }

    /// The certain chance `1/1`.
    pub fn guaranteed() -> (r: Self)
        ensures
            r.is(1, 1),
    {
        Self { numerator: 1, denominator: 1 }
    }

    /// The frozen Graphite Layer chance `2/5`.
    pub fn graphite_layer() -> (r: Self)
        ensures
            r.is(2, 5),
    {
        Self { numerator: 2, denominator: 5 }
    }

    pub fn numerator(self) -> (r: u32)
        ensures
            r == self.num(),
    {
        self.numerator
    }

    pub fn denominator(self) -> (r: u32)
        ensures
            r == self.den(),
    {
        self.denominator
    }

    pub fn is_guaranteed(self) -> (r: bool)
        ensures
            r == (self.num() == self.den()),
    {
        self.numerator == self.denominator
    }
}

#[derive(Clone, Copy, Debug, PartialEq, Eq, Structural)]
pub enum ForgePostConfirmCancellation {
    /// The recipe's cancellation policy is left to its owning recipe/service; it must not be read
    /// as cancellable.
    Unspecified,
    Forbidden,
}

#[derive(Clone, Copy, Debug, PartialEq, Eq, Structural)]
pub enum ForgeFailurePolicy {
    Impossible,
    /// Failure consumes the committed inputs, has no pity and ignores upgrade modifiers.
    ConsumeCommittedInputsNoPityNoUpgradeModifiers,
}

#[derive(Clone, Copy, Debug, PartialEq, Eq)]
pub struct AdvancedForgeStackPolicy {
    pub recipe: AdvancedForgeStackRecipe,
    pub content_recipe_key: &'static str,
    pub money_cost: i64,
    pub activity_xp_cost: i64,
    pub duration_seconds: i64,
    pub success: ForgeSuccessChance,
    pub cancellation_after_confirm: ForgePostConfirmCancellation,
    pub failure_policy: ForgeFailurePolicy,
}

/// Money, Activity EXP, duration in seconds, success `(n, d)`, cancellation and failure policy of
/// a stack recipe.
pub open spec fn spec_stack_row(recipe: AdvancedForgeStackRecipe) -> (
    i64,
    i64,
    i64,
    (u32, u32),
    ForgePostConfirmCancellation,
    ForgeFailurePolicy,
) {
    match recipe {
        AdvancedForgeStackRecipe::NetheriteBillet => (
            5_000,
            1_000,
            900,
            (1, 1),
            ForgePostConfirmCancellation::Unspecified,
            ForgeFailurePolicy::Impossible,
        ),
        AdvancedForgeStackRecipe::GraphitePrecursor => (
            15_000,
            1_000,
            600,
            (1, 1),
            ForgePostConfirmCancellation::Forbidden,
            ForgeFailurePolicy::Impossible,
        ),
        AdvancedForgeStackRecipe::GraphiteLayer => (
            5_000,
            500,
            1_800,
            (2, 5),
            ForgePostConfirmCancellation::Forbidden,
            ForgeFailurePolicy::ConsumeCommittedInputsNoPityNoUpgradeModifiers,
        ),
        AdvancedForgeStackRecipe::GraphiteBillet => (
            500_000,
            25_000,
            7_200,
            (1, 1),
            ForgePostConfirmCancellation::Forbidden,
            ForgeFailurePolicy::Impossible,
        ),
    }
}

/// Returns the frozen economic/runtime policy for an advanced stack-output Forge recipe.
pub fn advanced_forge_stack_policy(recipe: AdvancedForgeStackRecipe) -> (r: AdvancedForgeStackPolicy)
    ensures
        r.recipe == recipe,
        r.content_recipe_key == spec_content_recipe_key(recipe),
        r.money_cost == spec_stack_row(recipe).0,
        r.activity_xp_cost == spec_stack_row(recipe).1,
        r.duration_seconds == spec_stack_row(recipe).2,
        r.success.is(spec_stack_row(recipe).3.0, spec_stack_row(recipe).3.1),
        r.cancellation_after_confirm == spec_stack_row(recipe).4,
        r.failure_policy == spec_stack_row(recipe).5,
        r.failure_policy == ForgeFailurePolicy::Impossible <==> r.success.num() == r.success.den(),
{
    match recipe {
        AdvancedForgeStackRecipe::NetheriteBillet => AdvancedForgeStackPolicy {
            recipe,
            content_recipe_key: recipe.content_recipe_key(),
            money_cost: 5_000,
            activity_xp_cost: 1_000,
            duration_seconds: 15 * SECONDS_PER_MINUTE,
            success: ForgeSuccessChance::guaranteed(),
            cancellation_after_confirm: ForgePostConfirmCancellation::Unspecified,
            failure_policy: ForgeFailurePolicy::Impossible,
        },
        AdvancedForgeStackRecipe::GraphitePrecursor => AdvancedForgeStackPolicy {
            recipe,
            content_recipe_key: recipe.content_recipe_key(),
            money_cost: 15_000,
            activity_xp_cost: 1_000,
            duration_seconds: 10 * SECONDS_PER_MINUTE,
            success: ForgeSuccessChance::guaranteed(),
            cancellation_after_confirm: ForgePostConfirmCancellation::Forbidden,
            failure_policy: ForgeFailurePolicy::Impossible,
        },
        AdvancedForgeStackRecipe::GraphiteLayer => AdvancedForgeStackPolicy {
            recipe,
            content_recipe_key: recipe.content_recipe_key(),
            money_cost: 5_000,
            activity_xp_cost: 500,
            duration_seconds: 30 * SECONDS_PER_MINUTE,
            success: ForgeSuccessChance::graphite_layer(),
            cancellation_after_confirm: ForgePostConfirmCancellation::Forbidden,
            failure_policy: ForgeFailurePolicy::ConsumeCommittedInputsNoPityNoUpgradeModifiers,
        },
        AdvancedForgeStackRecipe::GraphiteBillet => AdvancedForgeStackPolicy {
            recipe,
            content_recipe_key: recipe.content_recipe_key(),
            money_cost: 500_000,
            activity_xp_cost: 25_000,
            duration_seconds: 2 * SECONDS_PER_HOUR,
            success: ForgeSuccessChance::guaranteed(),
            cancellation_after_confirm: ForgePostConfirmCancellation::Forbidden,
            failure_policy: ForgeFailurePolicy::Impossible,
        },
    }
}

#[derive(Clone, Copy, Debug, PartialEq, Eq, Structural)]
pub enum AdvancedForgePromotion {
    ObsidianToNetherite,
    NetheriteToGraphite,
}

#[derive(Clone, Copy, Debug, PartialEq, Eq)]
pub struct AdvancedForgePromotionPolicy {
    pub promotion: AdvancedForgePromotion,
    pub from_tier: EquipmentTier,
    pub to_tier: EquipmentTier,
    pub required_component_content_key: &'static str,
    pub required_component_quantity: i64,
    pub money_cost: i64,
    pub activity_xp_cost: i64,
    pub duration_seconds: i64,
    pub success: ForgeSuccessChance,
    pub cancellation_after_confirm: ForgePostConfirmCancellation,
    pub bound_item_requires_soulbind_top_up: bool,
}

/// Returns frozen policy for a same-ItemInstance advanced tier promotion: Obsidian to Netherite
/// with a Netherite Billet, Netherite to Graphite with a Graphite Billet; both are guaranteed.
pub fn advanced_forge_promotion_policy(promotion: AdvancedForgePromotion) -> (r:
    AdvancedForgePromotionPolicy)
    ensures
        r.promotion == promotion,
        r.required_component_quantity == 1,
        r.success.is(1, 1),
        promotion == AdvancedForgePromotion::ObsidianToNetherite ==> {
            &&& r.from_tier == EquipmentTier::Obsidian
            &&& r.to_tier == EquipmentTier::Netherite
            &&& r.required_component_content_key == "material.netherite_billet"
            &&& r.money_cost == 150_000
            &&& r.activity_xp_cost == 5_000
            &&& r.duration_seconds == 3_600
            &&& r.cancellation_after_confirm == ForgePostConfirmCancellation::Unspecified
            &&& !r.bound_item_requires_soulbind_top_up
        },
        promotion == AdvancedForgePromotion::NetheriteToGraphite ==> {
            &&& r.from_tier == EquipmentTier::Netherite
            &&& r.to_tier == EquipmentTier::Graphite
            &&& r.required_component_content_key == "material.graphite_billet"
            &&& r.money_cost == 1_800_000
            &&& r.activity_xp_cost == 50_000
            &&& r.duration_seconds == 14_400
            &&& r.cancellation_after_confirm == ForgePostConfirmCancellation::Forbidden
            &&& r.bound_item_requires_soulbind_top_up
        },
{
    match promotion {
        AdvancedForgePromotion::ObsidianToNetherite => AdvancedForgePromotionPolicy {
            promotion,
            from_tier: EquipmentTier::Obsidian,
            to_tier: EquipmentTier::Netherite,
            required_component_content_key: "material.netherite_billet",
            required_component_quantity: 1,
            money_cost: 150_000,
            activity_xp_cost: 5_000,
            duration_seconds: SECONDS_PER_HOUR,
            success: ForgeSuccessChance::guaranteed(),
            cancellation_after_confirm: ForgePostConfirmCancellation::Unspecified,
            bound_item_requires_soulbind_top_up: false,
        },
        AdvancedForgePromotion::NetheriteToGraphite => AdvancedForgePromotionPolicy {
            promotion,
            from_tier: EquipmentTier::Netherite,
            to_tier: EquipmentTier::Graphite,
            required_component_content_key: "material.graphite_billet",
            required_component_quantity: 1,
            money_cost: 1_800_000,
            activity_xp_cost: 50_000,
            duration_seconds: 4 * SECONDS_PER_HOUR,
            success: ForgeSuccessChance::guaranteed(),
            cancellation_after_confirm: ForgePostConfirmCancellation::Forbidden,
            bound_item_requires_soulbind_top_up: true,
        },
    }
}

#[derive(Clone, Copy, Debug, PartialEq, Eq, Structural)]
pub enum ForgePolicyError {
    InvalidCurrentDurability,
    InvalidOldMaxDurability,
    InvalidPromotedMaxDurability,
    ArithmeticOverflow,
}

/// Projects current durability across a same-ItemInstance tier promotion:
/// `floor(old_current / old_max * promoted_max)`; a broken item stays at zero and a full item
/// stays full.
pub fn project_promoted_durability(old_current: i64, old_max: i64, promoted_max: i64) -> (r:
    Result<i64, ForgePolicyError>)
    ensures
        old_max <= 0 ==> r == Err::<i64, ForgePolicyError>(
            ForgePolicyError::InvalidOldMaxDurability,
        ),
        old_max > 0 && promoted_max <= 0 ==> r == Err::<i64, ForgePolicyError>(
            ForgePolicyError::InvalidPromotedMaxDurability,
        ),
        old_max > 0 && promoted_max > 0 && (old_current < 0 || old_current > old_max) ==> r
            == Err::<i64, ForgePolicyError>(ForgePolicyError::InvalidCurrentDurability),
        old_max > 0 && promoted_max > 0 && 0 <= old_current <= old_max ==> r == Ok::<
            i64,
            ForgePolicyError,
        >((old_current * promoted_max / (old_max as int)) as i64),
        r matches Ok(d) ==> 0 <= d <= promoted_max && (old_current == 0 ==> d == 0) && (
        old_current == old_max ==> d == promoted_max),
{
    if old_max <= 0 {
        return Err(ForgePolicyError::InvalidOldMaxDurability);
    }
    if promoted_max <= 0 {
        return Err(ForgePolicyError::InvalidPromotedMaxDurability);
    }
    if old_current < 0 || old_current > old_max {
        return Err(ForgePolicyError::InvalidCurrentDurability);
    }
    proof {
        assert(0 <= old_current * promoted_max <= old_max * promoted_max) by (nonlinear_arith)
            requires 0 <= old_current <= old_max, promoted_max > 0;
        assert(old_max * promoted_max <= i64::MAX * i64::MAX) by (nonlinear_arith)
            requires 0 < old_max <= i64::MAX, 0 < promoted_max <= i64::MAX;
        assert((old_max * promoted_max) / (old_max as int) == promoted_max) by (nonlinear_arith)
            requires old_max > 0;
        vstd::arithmetic::div_mod::lemma_div_is_ordered(
            old_current * promoted_max,
            old_max * promoted_max,
            old_max as int,
        );
    }
    let projected = (old_current as i128) * (promoted_max as i128) / (old_max as i128);
    Ok(projected as i64)
}

} // verus!
