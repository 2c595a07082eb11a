//! Day Walker + Night Walker -> Shadow Walker mutation base contract.
use vstd::prelude::*;

use crate::enchant_catalog::CanonicalEnchant;
use crate::enchant_combine_base::{
    spec_combine_base_policy, spec_combine_row, standard_enchant_combine_base_policy,
    EnchantCombineBasePolicyError, EnchantCombineFailureConsumption,
};

verus! {

pub const SHADOW_WALKER_MUTATION_MIN_LEVEL: u8 = 1;
pub const SHADOW_WALKER_MUTATION_MAX_LEVEL: u8 = 10;

#[derive(Clone, Copy, Debug, PartialEq, Eq, Structural)]
pub enum ShadowWalkerMutationFailurePolicy {
    Defined(EnchantCombineFailureConsumption),
    /// Shadow Walker II has a real failure path at 25% base success, but the referenced standard
    /// Level-II row has none; destructive Level-II settlement stays unavailable.
    UndefinedForLevelII,
}

#[derive(Clone, Copy, Debug, PartialEq, Eq, Structural)]
pub struct ShadowWalkerMutationBasePolicy {
    pub input_level: u8,
    pub first_input: CanonicalEnchant,
    pub second_input: CanonicalEnchant,
    pub output: CanonicalEnchant,
    pub output_level: u8,
    pub base_success_basis_points: u16,
    pub service_fee_target_level: u8,
    pub money_fee: i64,
    pub activity_exp_fee: i64,
    pub extra_aexp_ui_cap: i64,
    pub failure_policy: ShadowWalkerMutationFailurePolicy,
    pub success_consumes_both_inputs: bool,
    pub committed_attempt_costs_are_sunk: bool,
    pub final_success_probability_is_unresolved: bool,
}

#[derive(Clone, Copy, Debug, PartialEq, Eq, Structural)]
pub enum ShadowWalkerMutationPolicyError {
    LevelOutOfRange(u8),
    StandardServicePolicy(EnchantCombineBasePolicyError),
}

/// The standard service row a mutation level uses: Level I is floored to Level II.
pub open spec fn spec_service_level(level: u8) -> u8 {
    if level < 2 {
        2
    } else {
        level
    }
}

/// The failure policy of a mutation level.
pub open spec fn spec_shadow_failure_policy(level: u8) -> ShadowWalkerMutationFailurePolicy {
    if level == 1 {
        ShadowWalkerMutationFailurePolicy::Defined(EnchantCombineFailureConsumption::DestroyOneUniform)
    } else if level == 2 {
        ShadowWalkerMutationFailurePolicy::UndefinedForLevelII
    } else {
        ShadowWalkerMutationFailurePolicy::Defined(spec_combine_row(level).3)
    }
}

/// Returns the exact discrete base contract for Day Walker + Night Walker -> Shadow Walker.
///
/// Base success is `min(65%, 15% + 5% x L)`, which is exactly `1500 + 500 L` bps for L = I..X.
pub fn shadow_walker_mutation_base_policy(level: u8) -> (r: Result<
    ShadowWalkerMutationBasePolicy,
    ShadowWalkerMutationPolicyError,
>)
    ensures
        !(SHADOW_WALKER_MUTATION_MIN_LEVEL <= level <= SHADOW_WALKER_MUTATION_MAX_LEVEL) ==> r
            == Err::<ShadowWalkerMutationBasePolicy, ShadowWalkerMutationPolicyError>(
            ShadowWalkerMutationPolicyError::LevelOutOfRange(level),
        ),
        SHADOW_WALKER_MUTATION_MIN_LEVEL <= level <= SHADOW_WALKER_MUTATION_MAX_LEVEL ==> (r matches Ok(
            p,
        ) && {
            let service = spec_combine_base_policy(spec_service_level(level));
            &&& p.input_level == level
            &&& p.first_input == CanonicalEnchant::DayWalker
            &&& p.second_input == CanonicalEnchant::NightWalker
            &&& p.output == CanonicalEnchant::ShadowWalker
            &&& p.output_level == level
            &&& p.base_success_basis_points == 1_500 + 500 * level
            &&& p.base_success_basis_points <= 6_500
            &&& p.service_fee_target_level == spec_service_level(level)
            &&& p.money_fee == service.money_fee
            &&& p.activity_exp_fee == service.activity_exp_fee
            &&& p.extra_aexp_ui_cap == service.extra_aexp_ui_cap
            &&& p.failure_policy == spec_shadow_failure_policy(level)
            &&& p.success_consumes_both_inputs
            &&& p.committed_attempt_costs_are_sunk
            &&& p.final_success_probability_is_unresolved
        }),
{
    if !(SHADOW_WALKER_MUTATION_MIN_LEVEL <= level && level <= SHADOW_WALKER_MUTATION_MAX_LEVEL) {
        return Err(ShadowWalkerMutationPolicyError::LevelOutOfRange(level));
    }
    let service_fee_target_level = if level < 2 {
        2
    } else {
        level
    };
    let service = match standard_enchant_combine_base_policy(service_fee_target_level) {
        Ok(s) => s,
        Err(e) => return Err(ShadowWalkerMutationPolicyError::StandardServicePolicy(e)),
    };
    let base_success_basis_points = 1_500u16 + (level as u16) * 500;
    let failure_policy = if level == 1 {
        ShadowWalkerMutationFailurePolicy::Defined(EnchantCombineFailureConsumption::DestroyOneUniform)
    } else if level == 2 {
        ShadowWalkerMutationFailurePolicy::UndefinedForLevelII
    } else {
        ShadowWalkerMutationFailurePolicy::Defined(service.failure_consumption)
    };
    Ok(
        ShadowWalkerMutationBasePolicy {
            input_level: level,
            first_input: CanonicalEnchant::DayWalker,
            second_input: CanonicalEnchant::NightWalker,
            output: CanonicalEnchant::ShadowWalker,
            output_level: level,
            base_success_basis_points,
            service_fee_target_level,
            money_fee: service.money_fee,
            activity_exp_fee: service.activity_exp_fee,
            extra_aexp_ui_cap: service.extra_aexp_ui_cap,
            failure_policy,
            success_consumes_both_inputs: true,
            committed_attempt_costs_are_sunk: service.committed_attempt_costs_are_sunk,
            final_success_probability_is_unresolved: true,
        },
    )
}

} // verus!
