//! Frozen Mending I Activity EXP cost per restored durability.
use vstd::prelude::*;

use crate::equipment_policy::EquipmentSlot;

verus! {

pub const MENDING_MANUAL_AEXP_PER_DURABILITY: i64 = 5;

pub const MENDING_AUTOMATION_AEXP_PER_DURABILITY: i64 = 8;

#[derive(Clone, Copy, Debug, PartialEq, Eq, Structural)]
pub enum MendingContext {
    Manual,
    Automation,
}

#[derive(Clone, Copy, Debug, PartialEq, Eq, Structural)]
pub struct MendingPreview {
    pub slot: EquipmentSlot,
    pub context: MendingContext,
    pub durability_to_restore: i64,
    pub activity_xp_per_durability: i64,
    pub activity_xp_cost: i64,
    pub resolves_before_machine_experience_pool: bool,
}

#[derive(Clone, Copy, Debug, PartialEq, Eq, Structural)]
pub enum MendingPolicyError {
    NegativeDurabilityToRestore,
    AutomationUnsupportedForSlot(EquipmentSlot),
    NukeBurnoutBlocksRestoration,
    ArithmeticOverflow,
}

/// Whether automation Mending is defined for a slot (Pickaxe and Fishing Rod only).
pub open spec fn spec_automation_supported(slot: EquipmentSlot) -> bool {
    slot == EquipmentSlot::Pickaxe || slot == EquipmentSlot::FishingRod
}

/// The Activity EXP rate per restored durability of a context.
pub open spec fn spec_mending_rate(context: MendingContext) -> i64 {
    match context {
        MendingContext::Manual => MENDING_MANUAL_AEXP_PER_DURABILITY,
        MendingContext::Automation => MENDING_AUTOMATION_AEXP_PER_DURABILITY,
    }
}

/// Previews the frozen Mending I Activity EXP cost for one item: 5 per durability manually, 8 per
/// durability in automation (Pickaxe and Fishing Rod only); an active Pickaxe `NUKE_BURNOUT` blocks
/// restoration.
pub fn preview_mending(
    slot: EquipmentSlot,
    context: MendingContext,
    durability_to_restore: i64,
    pickaxe_nuke_burnout_active: bool,
) -> (r: Result<MendingPreview, MendingPolicyError>)
    ensures
        durability_to_restore < 0 ==> r == Err::<MendingPreview, MendingPolicyError>(
            MendingPolicyError::NegativeDurabilityToRestore,
        ),
        durability_to_restore >= 0 && slot == EquipmentSlot::Pickaxe && pickaxe_nuke_burnout_active
            ==> r == Err::<MendingPreview, MendingPolicyError>(
            MendingPolicyError::NukeBurnoutBlocksRestoration,
        ),
        durability_to_restore >= 0 && !(slot == EquipmentSlot::Pickaxe
            && pickaxe_nuke_burnout_active) && context == MendingContext::Automation
            && !spec_automation_supported(slot) ==> r == Err::<MendingPreview, MendingPolicyError>(
            MendingPolicyError::AutomationUnsupportedForSlot(slot),
        ),
        durability_to_restore >= 0 && !(slot == EquipmentSlot::Pickaxe
            && pickaxe_nuke_burnout_active) && (context == MendingContext::Manual
            || spec_automation_supported(slot)) ==> {
            let cost = durability_to_restore * spec_mending_rate(context);
            &&& cost > i64::MAX ==> r == Err::<MendingPreview, MendingPolicyError>(
                MendingPolicyError::ArithmeticOverflow,
            )
            &&& cost <= i64::MAX ==> r == Ok::<MendingPreview, MendingPolicyError>(
                MendingPreview {
                    slot,
                    context,
                    durability_to_restore,
                    activity_xp_per_durability: spec_mending_rate(context),
                    activity_xp_cost: cost as i64,
                    resolves_before_machine_experience_pool: context
                        == MendingContext::Automation,
                },
            )
        },
{
    if durability_to_restore < 0 {
        return Err(MendingPolicyError::NegativeDurabilityToRestore);
    }
    if slot == EquipmentSlot::Pickaxe && pickaxe_nuke_burnout_active {
        return Err(MendingPolicyError::NukeBurnoutBlocksRestoration);
    }
    let activity_xp_per_durability = match context {
        MendingContext::Manual => MENDING_MANUAL_AEXP_PER_DURABILITY,
        MendingContext::Automation => match slot {
            EquipmentSlot::Pickaxe | EquipmentSlot::FishingRod => {
                MENDING_AUTOMATION_AEXP_PER_DURABILITY
            },
            _ => {
                return Err(MendingPolicyError::AutomationUnsupportedForSlot(slot));
            },
        },
    };
    let activity_xp_cost = match durability_to_restore.checked_mul(activity_xp_per_durability) {
        Some(cost) => cost,
        None => {
            return Err(MendingPolicyError::ArithmeticOverflow);
        },
    };
    Ok(MendingPreview {
        slot,
        context,
        durability_to_restore,
        activity_xp_per_durability,
        activity_xp_cost,
        resolves_before_machine_experience_pool: context == MendingContext::Automation,
    })
}

} // verus!
