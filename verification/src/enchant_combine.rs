//! Standard Enchant combine rows and the Shadow Walker mutation, with sink-flag metadata.
use vstd::prelude::*;

use crate::enchant_catalog::CanonicalEnchant;
use crate::enchant_combine_base::{
    spec_combine_base_policy, spec_combine_row, EnchantCombineBasePolicyError,
    EnchantCombineFailureConsumption,
};

verus! {

pub const ENCHANT_COMBINE_MIN_TARGET_LEVEL: u8 = 2;
pub const ENCHANT_COMBINE_MAX_TARGET_LEVEL: u8 = 10;
pub const SHADOW_MUTATION_MIN_LEVEL: u8 = 1;
pub const SHADOW_MUTATION_MAX_LEVEL: u8 = 10;
pub const EXTRA_AEXP_UI_CAP_MULTIPLIER: i64 = 8;
/// Exact relative multiplier metadata where 10,000 basis points means 1.00x.
pub const ENCHANT_CATALYST_MULTIPLIER_BPS: u16 = 13_500;
/// Exact relative multiplier cap metadata where 10,000 basis points means 1.00x.
pub const ENCHANT_COMBINE_MULTIPLIER_CAP_BPS: u16 = 18_000;
/// The written absolute success cap, deliberately not applied by this slice.
pub const ENCHANT_COMBINE_ABSOLUTE_SUCCESS_CAP_BPS: u16 = 9_500;

#[derive(Clone, Copy, Debug, PartialEq, Eq, Structural)]
pub enum CombineFailureConsumption {
    NoFailurePath,
    DestroyOneUniform,
    WeightedOneOrBoth { destroy_one_basis_points: u16, destroy_both_basis_points: u16 },
}

#[derive(Clone, Copy, Debug, PartialEq, Eq, Structural)]
pub struct StandardEnchantCombineBasePolicy {
    pub target_level: u8,
    pub base_success_basis_points: u16,
    pub money_fee: i64,
    pub activity_exp_fee: i64,
    pub extra_aexp_ui_cap: i64,
    pub failure_consumption: CombineFailureConsumption,
    pub committed_money_and_base_aexp_are_always_consumed: bool,
    pub committed_extra_aexp_is_always_consumed: bool,
    pub committed_catalyst_is_always_consumed: bool,
}

#[derive(Clone, Copy, Debug, PartialEq, Eq, Structural)]
pub enum ShadowMutationFailurePolicy {
    Defined(CombineFailureConsumption),
    UndefinedForLevelII,
}

#[derive(Clone, Copy, Debug, PartialEq, Eq, Structural)]
pub struct ShadowWalkerMutationBasePolicy {
    pub input_level: u8,
    pub first_input: CanonicalEnchant,
    pub second_input: CanonicalEnchant,
    pub output: CanonicalEnchant,
    pub output_level: u8,
    pub base_success_basis_points: u16,
    pub service_fee_target_level: u8,
    pub money_fee: i64,
    pub activity_exp_fee: i64,
    pub extra_aexp_ui_cap: i64,
    pub failure_policy: ShadowMutationFailurePolicy,
    pub success_consumes_both_inputs: bool,
}

#[derive(Clone, Copy, Debug, PartialEq, Eq, Structural)]
pub enum EnchantCombinePolicyError {
    StandardTargetLevelOutOfRange(u8),
    ShadowMutationLevelOutOfRange(u8),
    ArithmeticOverflow,
}

/// The same failure consumption, expressed in this module's vocabulary.
pub open spec fn spec_convert_failure(f: EnchantCombineFailureConsumption) -> CombineFailureConsumption {
    match f {
        EnchantCombineFailureConsumption::NoFailurePath => CombineFailureConsumption::NoFailurePath,
        EnchantCombineFailureConsumption::DestroyOneUniform => CombineFailureConsumption::DestroyOneUniform,
        EnchantCombineFailureConsumption::WeightedOneOrBoth {
            destroy_one_basis_points,
            destroy_both_basis_points,
        } => CombineFailureConsumption::WeightedOneOrBoth {
            destroy_one_basis_points,
            destroy_both_basis_points,
        },
    }
}

fn convert_failure(f: EnchantCombineFailureConsumption) -> (r: CombineFailureConsumption)
    ensures
        r == spec_convert_failure(f),
{
    match f {
        EnchantCombineFailureConsumption::NoFailurePath => CombineFailureConsumption::NoFailurePath,
        EnchantCombineFailureConsumption::DestroyOneUniform => CombineFailureConsumption::DestroyOneUniform,
        EnchantCombineFailureConsumption::WeightedOneOrBoth {
            destroy_one_basis_points,
            destroy_both_basis_points,
        } => CombineFailureConsumption::WeightedOneOrBoth {
            destroy_one_basis_points,
            destroy_both_basis_points,
        },
    }
}

/// Returns the frozen standard same-enchant/same-level combine base row.
pub fn standard_enchant_combine_base_policy(target_level: u8) -> (r: Result<
    StandardEnchantCombineBasePolicy,
    EnchantCombinePolicyError,
>)
    ensures
        !(ENCHANT_COMBINE_MIN_TARGET_LEVEL <= target_level <= ENCHANT_COMBINE_MAX_TARGET_LEVEL) ==> r
            == Err::<StandardEnchantCombineBasePolicy, EnchantCombinePolicyError>(
            EnchantCombinePolicyError::StandardTargetLevelOutOfRange(target_level),
        ),
        ENCHANT_COMBINE_MIN_TARGET_LEVEL <= target_level <= ENCHANT_COMBINE_MAX_TARGET_LEVEL ==> r
            == Ok::<StandardEnchantCombineBasePolicy, EnchantCombinePolicyError>(
            StandardEnchantCombineBasePolicy {
                target_level,
                base_success_basis_points: spec_combine_row(target_level).0,
                money_fee: spec_combine_row(target_level).1,
                activity_exp_fee: spec_combine_row(target_level).2,
                extra_aexp_ui_cap: spec_combine_base_policy(target_level).extra_aexp_ui_cap,
                failure_consumption: spec_convert_failure(spec_combine_row(target_level).3),
                committed_money_and_base_aexp_are_always_consumed: true,
                committed_extra_aexp_is_always_consumed: true,
                committed_catalyst_is_always_consumed: true,
            },
        ),
{
    match crate::enchant_combine_base::standard_enchant_combine_base_policy(target_level) {
        Err(EnchantCombineBasePolicyError::TargetLevelOutOfRange(level)) => Err(
            EnchantCombinePolicyError::StandardTargetLevelOutOfRange(level),
        ),
        Err(EnchantCombineBasePolicyError::ArithmeticOverflow) => Err(
            EnchantCombinePolicyError::ArithmeticOverflow,
        ),
        Ok(base) => Ok(
            StandardEnchantCombineBasePolicy {
                target_level: base.target_level,
                base_success_basis_points: base.base_success_basis_points,
                money_fee: base.money_fee,
                activity_exp_fee: base.activity_exp_fee,
                extra_aexp_ui_cap: base.extra_aexp_ui_cap,
                failure_consumption: convert_failure(base.failure_consumption),
                committed_money_and_base_aexp_are_always_consumed: true,
                committed_extra_aexp_is_always_consumed: true,
                committed_catalyst_is_always_consumed: true,
            },
        ),
    }
}

/// Returns the exact unboosted Day Walker + Night Walker -> Shadow Walker mutation policy.
pub fn shadow_walker_mutation_base_policy(level: u8) -> (r: Result<
    ShadowWalkerMutationBasePolicy,
    EnchantCombinePolicyError,
>)
    ensures
        !(SHADOW_MUTATION_MIN_LEVEL <= level <= SHADOW_MUTATION_MAX_LEVEL) ==> r == Err::<
            ShadowWalkerMutationBasePolicy,
            EnchantCombinePolicyError,
        >(EnchantCombinePolicyError::ShadowMutationLevelOutOfRange(level)),
        SHADOW_MUTATION_MIN_LEVEL <= level <= SHADOW_MUTATION_MAX_LEVEL ==> (r matches Ok(p) && {
            let service_level: u8 = if level < 2 {
                2
            } else {
                level
            };
            let service = spec_combine_base_policy(service_level);
            &&& p.input_level == level
            &&& p.first_input == CanonicalEnchant::DayWalker
            &&& p.second_input == CanonicalEnchant::NightWalker
            &&& p.output == CanonicalEnchant::ShadowWalker
            &&& p.output_level == level
            &&& p.base_success_basis_points == 1_500 + 500 * level
            &&& p.service_fee_target_level == service_level
            &&& p.money_fee == service.money_fee
            &&& p.activity_exp_fee == service.activity_exp_fee
            &&& p.extra_aexp_ui_cap == service.extra_aexp_ui_cap
            &&& p.failure_policy == (if level == 1 {
                ShadowMutationFailurePolicy::Defined(CombineFailureConsumption::DestroyOneUniform)
            } else if level == 2 {
                ShadowMutationFailurePolicy::UndefinedForLevelII
            } else {
                ShadowMutationFailurePolicy::Defined(spec_convert_failure(spec_combine_row(level).3))
            })
            &&& p.success_consumes_both_inputs
        }),
{
    if !(SHADOW_MUTATION_MIN_LEVEL <= level && level <= SHADOW_MUTATION_MAX_LEVEL) {
        return Err(EnchantCombinePolicyError::ShadowMutationLevelOutOfRange(level));
    }
    let service_fee_target_level = if level < ENCHANT_COMBINE_MIN_TARGET_LEVEL {
        ENCHANT_COMBINE_MIN_TARGET_LEVEL
    } else {
        level
    };
    let service = standard_enchant_combine_base_policy(service_fee_target_level)?;
    let base_success_basis_points = 1_500u16 + (level as u16) * 500;
    let failure_policy = if level == 1 {
        ShadowMutationFailurePolicy::Defined(CombineFailureConsumption::DestroyOneUniform)
    } else if level == 2 {
        ShadowMutationFailurePolicy::UndefinedForLevelII
    } else {
        ShadowMutationFailurePolicy::Defined(service.failure_consumption)
    };
    Ok(
        ShadowWalkerMutationBasePolicy {
            input_level: level,
            first_input: CanonicalEnchant::DayWalker,
            second_input: CanonicalEnchant::NightWalker,
            output: CanonicalEnchant::ShadowWalker,
            output_level: level,
            base_success_basis_points,
            service_fee_target_level,
            money_fee: service.money_fee,
            activity_exp_fee: service.activity_exp_fee,
            extra_aexp_ui_cap: service.extra_aexp_ui_cap,
            failure_policy,
            success_consumes_both_inputs: true,
        },
    )
}

} // verus!
