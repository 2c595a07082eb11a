//! Fresh ordinary-equipment Forge recipes from Wood through Obsidian.
use vstd::prelude::*;

use crate::equipment_policy::{
    base_equipment_appraisal, spec_standard_base_appraisal, spec_tier_material,
    BaseEquipmentAppraisal, BaseEquipmentAppraisalSource, EquipmentAppraisalError,
    EquipmentMaterial, EquipmentSlot, EquipmentTier,
};
use crate::forge::ForgePostConfirmCancellation;

verus! {

const SECONDS_PER_MINUTE: i64 = 60;

const FORGE_FEE_RATE_NUMERATOR: i128 = 8;

const FORGE_FEE_RATE_DENOMINATOR: i128 = 100;

const FORGE_MONEY_ROUNDING_UNIT: i128 = 1_000;

const MINIMUM_FORGE_MONEY_COST: i128 = 1_000;

#[derive(Clone, Copy, Debug, PartialEq, Eq, Structural)]
pub enum FreshForgeOutcomePolicy {
    Guaranteed,
}

#[derive(Clone, Copy, Debug, PartialEq, Eq, Structural)]
pub enum FreshForgeOutputLocation {
    ToolLocker,
}

#[derive(Clone, Copy, Debug, PartialEq, Eq, Structural)]
pub struct FreshOrdinaryForgePreview {
    pub tier: EquipmentTier,
    pub slot: EquipmentSlot,
    pub base_appraisal: BaseEquipmentAppraisal,
    pub primary_material: EquipmentMaterial,
    pub primary_material_units: i64,
    pub auxiliary_wood_logs: i64,
    pub money_cost: i64,
    pub activity_xp_cost: i64,
    pub duration_seconds: i64,
    pub outcome: FreshForgeOutcomePolicy,
    pub cancellation_after_confirm: ForgePostConfirmCancellation,
    pub output_location: FreshForgeOutputLocation,
    pub output_upgrade_level: u64,
    pub requires_new_positive_creation_roll: bool,
    pub npc_resale_path: bool,
}

#[derive(Clone, Copy, Debug, PartialEq, Eq, Structural)]
pub enum FreshOrdinaryForgePolicyError {
    UnsupportedFreshForgeTier(EquipmentTier),
    UnsupportedGoldSlot(EquipmentSlot),
    EquipmentAppraisal(EquipmentAppraisalError),
    ArithmeticOverflow,
}

/// Whether a tier has a fresh ordinary Forge recipe (Wood through Obsidian).
pub open spec fn spec_fresh_forge_tier(tier: EquipmentTier) -> bool {
    !(tier == EquipmentTier::StarterLeather || tier == EquipmentTier::Netherite || tier
        == EquipmentTier::Graphite)
}

/// Whether a slot is armor.
pub open spec fn spec_is_armor_slot(slot: EquipmentSlot) -> bool {
    slot == EquipmentSlot::Helmet || slot == EquipmentSlot::Chestplate || slot
        == EquipmentSlot::Leggings || slot == EquipmentSlot::Boots
}

/// Primary material units and auxiliary Wood Logs of a slot's recipe.
pub open spec fn spec_recipe_units(slot: EquipmentSlot) -> (i64, i64) {
    match slot {
        EquipmentSlot::Pickaxe => (3, 1),
        EquipmentSlot::Sword | EquipmentSlot::FishingRod => (2, 1),
        EquipmentSlot::Helmet => (5, 0),
        EquipmentSlot::Chestplate => (8, 0),
        EquipmentSlot::Leggings => (7, 0),
        EquipmentSlot::Boots => (4, 0),
    }
}

/// Activity EXP cost and duration in minutes of a fresh Forge tier.
pub open spec fn spec_tier_aexp_and_minutes(tier: EquipmentTier) -> (i64, i64) {
    match tier {
        EquipmentTier::Wood => (0, 2),
        EquipmentTier::Stone => (50, 3),
        EquipmentTier::Copper => (100, 5),
        EquipmentTier::Gold => (300, 8),
        EquipmentTier::Iron => (250, 8),
        EquipmentTier::Diamond => (700, 15),
        _ => (1_800, 30),
    }
}

/// The Forge Money fee `max(1000, round1000_half_up(8% of base appraisal))`.
pub open spec fn spec_forge_money_cost(base_appraisal: int) -> int {
    let rounded = ((8 * base_appraisal + 50_000) / 100_000) * 1_000;
    if rounded < 1_000 {
        1_000
    } else {
        rounded
    }
}

/// Previews one fresh ordinary-equipment Forge recipe from Wood through Obsidian: guaranteed,
/// +0, new positive creation roll, output to the Tool Locker, with the standard-table appraisal.
pub fn preview_fresh_ordinary_forge(tier: EquipmentTier, slot: EquipmentSlot) -> (r: Result<
    FreshOrdinaryForgePreview,
    FreshOrdinaryForgePolicyError,
>)
    ensures
        !spec_fresh_forge_tier(tier) ==> r == Err::<
            FreshOrdinaryForgePreview,
            FreshOrdinaryForgePolicyError,
        >(FreshOrdinaryForgePolicyError::UnsupportedFreshForgeTier(tier)),
        spec_fresh_forge_tier(tier) && tier == EquipmentTier::Gold && spec_is_armor_slot(slot) ==> r
            == Err::<FreshOrdinaryForgePreview, FreshOrdinaryForgePolicyError>(
            FreshOrdinaryForgePolicyError::UnsupportedGoldSlot(slot),
        ),
        spec_fresh_forge_tier(tier) && !(tier == EquipmentTier::Gold && spec_is_armor_slot(slot))
            ==> r == Ok::<FreshOrdinaryForgePreview, FreshOrdinaryForgePolicyError>(
            FreshOrdinaryForgePreview {
                tier,
                slot,
                base_appraisal: BaseEquipmentAppraisal {
                    tier,
                    slot,
                    value: spec_standard_base_appraisal(tier, slot) as i64,
                    source: BaseEquipmentAppraisalSource::StandardTable,
                },
                primary_material: spec_tier_material(tier),
                primary_material_units: spec_recipe_units(slot).0,
                auxiliary_wood_logs: spec_recipe_units(slot).1,
                money_cost: spec_forge_money_cost(
                    spec_standard_base_appraisal(tier, slot) as i64 as int,
                ) as i64,
                activity_xp_cost: spec_tier_aexp_and_minutes(tier).0,
                duration_seconds: (spec_tier_aexp_and_minutes(tier).1 * 60) as i64,
                outcome: FreshForgeOutcomePolicy::Guaranteed,
                cancellation_after_confirm: ForgePostConfirmCancellation::Unspecified,
                output_location: FreshForgeOutputLocation::ToolLocker,
                output_upgrade_level: 0,
                requires_new_positive_creation_roll: true,
                npc_resale_path: false,
            },
        ),
{
    validate_fresh_forge_target(tier, slot)?;
    let base_appraisal = match base_equipment_appraisal(tier, slot, None) {
        Ok(appraisal) => appraisal,
        Err(e) => {
            return Err(FreshOrdinaryForgePolicyError::EquipmentAppraisal(e));
        },
    };
    let money_cost = match forge_money_cost(base_appraisal.value) {
        Ok(cost) => cost,
        Err(e) => {
            return Err(e);
        },
    };
    let (activity_xp_cost, duration_seconds) = tier_aexp_and_duration(tier)?;
    Ok(FreshOrdinaryForgePreview {
        tier,
        slot,
        base_appraisal,
        primary_material: tier.material(),
        primary_material_units: primary_material_units(slot),
        auxiliary_wood_logs: auxiliary_wood_logs(slot),
        money_cost,
        activity_xp_cost,
        duration_seconds,
        outcome: FreshForgeOutcomePolicy::Guaranteed,
        cancellation_after_confirm: ForgePostConfirmCancellation::Unspecified,
        output_location: FreshForgeOutputLocation::ToolLocker,
        output_upgrade_level: 0,
        requires_new_positive_creation_roll: true,
        npc_resale_path: false,
    })
}

fn validate_fresh_forge_target(tier: EquipmentTier, slot: EquipmentSlot) -> (r: Result<
    (),
    FreshOrdinaryForgePolicyError,
>)
    ensures
        !spec_fresh_forge_tier(tier) ==> r == Err::<(), FreshOrdinaryForgePolicyError>(
            FreshOrdinaryForgePolicyError::UnsupportedFreshForgeTier(tier),
        ),
        spec_fresh_forge_tier(tier) && tier == EquipmentTier::Gold && spec_is_armor_slot(slot) ==> r
            == Err::<(), FreshOrdinaryForgePolicyError>(
            FreshOrdinaryForgePolicyError::UnsupportedGoldSlot(slot),
        ),
        spec_fresh_forge_tier(tier) && !(tier == EquipmentTier::Gold && spec_is_armor_slot(slot))
            ==> r is Ok,
{
    match tier {
        EquipmentTier::StarterLeather | EquipmentTier::Netherite | EquipmentTier::Graphite => {
            return Err(FreshOrdinaryForgePolicyError::UnsupportedFreshForgeTier(tier));
        },
        EquipmentTier::Gold => {
            match slot {
                EquipmentSlot::Helmet
                | EquipmentSlot::Chestplate
                | EquipmentSlot::Leggings
                | EquipmentSlot::Boots => {
                    return Err(FreshOrdinaryForgePolicyError::UnsupportedGoldSlot(slot));
                },
                _ => {},
            }
        },
        _ => {},
    }
    Ok(())
}

fn tier_aexp_and_duration(tier: EquipmentTier) -> (r: Result<
    (i64, i64),
    FreshOrdinaryForgePolicyError,
>)
    ensures
        !spec_fresh_forge_tier(tier) ==> r == Err::<(i64, i64), FreshOrdinaryForgePolicyError>(
            FreshOrdinaryForgePolicyError::UnsupportedFreshForgeTier(tier),
        ),
        spec_fresh_forge_tier(tier) ==> r == Ok::<(i64, i64), FreshOrdinaryForgePolicyError>(
            (
                spec_tier_aexp_and_minutes(tier).0,
                (spec_tier_aexp_and_minutes(tier).1 * 60) as i64,
            ),
        ),
{
    let (activity_xp_cost, minutes): (i64, i64) = match tier {
        EquipmentTier::Wood => (0, 2),
        EquipmentTier::Stone => (50, 3),
        EquipmentTier::Copper => (100, 5),
        EquipmentTier::Gold => (300, 8),
        EquipmentTier::Iron => (250, 8),
        EquipmentTier::Diamond => (700, 15),
        EquipmentTier::Obsidian => (1_800, 30),
        EquipmentTier::StarterLeather | EquipmentTier::Netherite | EquipmentTier::Graphite => {
            return Err(FreshOrdinaryForgePolicyError::UnsupportedFreshForgeTier(tier));
        },
    };
    Ok((activity_xp_cost, minutes * SECONDS_PER_MINUTE))
}

/// Primary material units of a slot's fresh Forge recipe.
pub fn primary_material_units(slot: EquipmentSlot) -> (r: i64)
    ensures
        r == spec_recipe_units(slot).0,
{
    match slot {
        EquipmentSlot::Pickaxe => 3,
        EquipmentSlot::Sword | EquipmentSlot::FishingRod => 2,
        EquipmentSlot::Helmet => 5,
        EquipmentSlot::Chestplate => 8,
        EquipmentSlot::Leggings => 7,
        EquipmentSlot::Boots => 4,
    }
}

/// Auxiliary Wood Logs of a slot's fresh Forge recipe.
pub fn auxiliary_wood_logs(slot: EquipmentSlot) -> (r: i64)
    ensures
        r == spec_recipe_units(slot).1,
{
    match slot {
        EquipmentSlot::Pickaxe | EquipmentSlot::Sword | EquipmentSlot::FishingRod => 1,
        EquipmentSlot::Helmet
        | EquipmentSlot::Chestplate
        | EquipmentSlot::Leggings
        | EquipmentSlot::Boots => 0,
    }
}

/// The Forge Money fee of a base appraisal; a negative appraisal fails closed.
pub fn forge_money_cost(base_appraisal: i64) -> (r: Result<i64, FreshOrdinaryForgePolicyError>)
    ensures
        base_appraisal < 0 ==> r == Err::<i64, FreshOrdinaryForgePolicyError>(
            FreshOrdinaryForgePolicyError::ArithmeticOverflow,
        ),
        base_appraisal >= 0 ==> r == Ok::<i64, FreshOrdinaryForgePolicyError>(
            spec_forge_money_cost(base_appraisal as int) as i64,
        ),
        r matches Ok(cost) ==> cost >= 1_000 && cost % 1_000 == 0,
{
    if base_appraisal < 0 {
        return Err(FreshOrdinaryForgePolicyError::ArithmeticOverflow);
    }
    let numerator = (base_appraisal as i128) * FORGE_FEE_RATE_NUMERATOR;
    let rounding_denominator = FORGE_FEE_RATE_DENOMINATOR * FORGE_MONEY_ROUNDING_UNIT;
    let rounded_units = (numerator + rounding_denominator / 2) / rounding_denominator;
    let rounded = rounded_units * FORGE_MONEY_ROUNDING_UNIT;
    let cost = if rounded < MINIMUM_FORGE_MONEY_COST {
        MINIMUM_FORGE_MONEY_COST
    } else {
        rounded
    };
    Ok(cost as i64)
}

} // verus!
