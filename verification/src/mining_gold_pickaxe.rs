//! Frozen source-local modifiers of the ordinary Gold Pickaxe side-grade.
use vstd::prelude::*;

use crate::equipment_policy::EquipmentTier;
use crate::mining_capability::{
    mining_pickaxe_max_capability, MiningCapabilityClass, MiningCapabilityError,
};

verus! {

pub const GOLD_PICKAXE_ACTION_SPEED_RATING_PERCENT: u8 = 10;

pub const GOLD_PICKAXE_ELIGIBLE_TREASURE_RARE_RELATIVE_WEIGHT_INCREASE_PERCENT: u8 = 20;

pub const GOLD_PICKAXE_ELIGIBLE_TREASURE_RARE_RELATIVE_WEIGHT_NUMERATOR: u8 = 6;

pub const GOLD_PICKAXE_ELIGIBLE_TREASURE_RARE_RELATIVE_WEIGHT_DENOMINATOR: u8 = 5;

#[derive(Clone, Copy, Debug, PartialEq, Eq, Structural)]
pub enum GoldMiningPickaxeModifierStage {
    SourceLocalBeforeSharedMiningCaps,
}

#[derive(Clone, Copy, Debug, PartialEq, Eq, Structural)]
pub struct GoldMiningPickaxeSideGradePolicy {
    pub max_capability: MiningCapabilityClass,
    pub action_speed_rating_percent: u8,
    pub eligible_treasure_rare_relative_weight_numerator: u8,
    pub eligible_treasure_rare_relative_weight_denominator: u8,
    pub modifier_stage: GoldMiningPickaxeModifierStage,
}

#[derive(Clone, Copy, Debug, PartialEq, Eq, Structural)]
pub enum GoldMiningPickaxePolicyError {
    NotOrdinaryPickaxe,
    InvalidPickaxeTier(MiningCapabilityError),
    NotGoldPickaxe,
}

/// Returns the frozen source-local modifiers of the ordinary Gold Pickaxe side-grade: a +10%
/// action-speed rating, a `6/5` eligible treasure/rare relative weight and capability capped at C3.
pub fn gold_mining_pickaxe_side_grade_policy(tier: EquipmentTier, is_ordinary_pickaxe: bool) -> (r:
    Result<GoldMiningPickaxeSideGradePolicy, GoldMiningPickaxePolicyError>)
    ensures
        !is_ordinary_pickaxe ==> r == Err::<
            GoldMiningPickaxeSideGradePolicy,
            GoldMiningPickaxePolicyError,
        >(GoldMiningPickaxePolicyError::NotOrdinaryPickaxe),
        is_ordinary_pickaxe && tier == EquipmentTier::StarterLeather ==> r == Err::<
            GoldMiningPickaxeSideGradePolicy,
            GoldMiningPickaxePolicyError,
        >(
            GoldMiningPickaxePolicyError::InvalidPickaxeTier(
                MiningCapabilityError::UnsupportedPickaxeTier(tier),
            ),
        ),
        is_ordinary_pickaxe && tier != EquipmentTier::StarterLeather && tier != EquipmentTier::Gold
            ==> r == Err::<GoldMiningPickaxeSideGradePolicy, GoldMiningPickaxePolicyError>(
            GoldMiningPickaxePolicyError::NotGoldPickaxe,
        ),
        is_ordinary_pickaxe && tier == EquipmentTier::Gold ==> r == Ok::<
            GoldMiningPickaxeSideGradePolicy,
            GoldMiningPickaxePolicyError,
        >(
            GoldMiningPickaxeSideGradePolicy {
                max_capability: MiningCapabilityClass::C3,
                action_speed_rating_percent: GOLD_PICKAXE_ACTION_SPEED_RATING_PERCENT,
                eligible_treasure_rare_relative_weight_numerator:
                    GOLD_PICKAXE_ELIGIBLE_TREASURE_RARE_RELATIVE_WEIGHT_NUMERATOR,
                eligible_treasure_rare_relative_weight_denominator:
                    GOLD_PICKAXE_ELIGIBLE_TREASURE_RARE_RELATIVE_WEIGHT_DENOMINATOR,
                modifier_stage: GoldMiningPickaxeModifierStage::SourceLocalBeforeSharedMiningCaps,
            },
        ),
{
    if !is_ordinary_pickaxe {
        return Err(GoldMiningPickaxePolicyError::NotOrdinaryPickaxe);
    }
    let max_capability = match mining_pickaxe_max_capability(tier) {
        Ok(c) => c,
        Err(e) => {
            return Err(GoldMiningPickaxePolicyError::InvalidPickaxeTier(e));
        },
    };
    if tier != EquipmentTier::Gold {
        return Err(GoldMiningPickaxePolicyError::NotGoldPickaxe);
    }
    Ok(GoldMiningPickaxeSideGradePolicy {
        max_capability,
        action_speed_rating_percent: GOLD_PICKAXE_ACTION_SPEED_RATING_PERCENT,
        eligible_treasure_rare_relative_weight_numerator:
            GOLD_PICKAXE_ELIGIBLE_TREASURE_RARE_RELATIVE_WEIGHT_NUMERATOR,
        eligible_treasure_rare_relative_weight_denominator:
            GOLD_PICKAXE_ELIGIBLE_TREASURE_RARE_RELATIVE_WEIGHT_DENOMINATOR,
        modifier_stage: GoldMiningPickaxeModifierStage::SourceLocalBeforeSharedMiningCaps,
    })
}

} // verus!
