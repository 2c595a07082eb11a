//! The frozen standard same-enchant/same-level combine base table.
use vstd::prelude::*;

verus! {

/// Lowest target level present in the frozen standard Enchant combine table.
pub const ENCHANT_COMBINE_MIN_TARGET_LEVEL: u8 = 2;
/// Highest target level present in the frozen standard Enchant combine table.
pub const ENCHANT_COMBINE_MAX_TARGET_LEVEL: u8 = 10;
/// The UI may accept at most `8 x base AEXP fee` as Extra AEXP for one committed combine attempt.
pub const ENCHANT_COMBINE_EXTRA_AEXP_UI_CAP_MULTIPLIER: i64 = 8;
/// Written relative Enchant Catalyst multiplier, where 10,000 basis points means 1.00x.
pub const ENCHANT_COMBINE_CATALYST_MULTIPLIER_BPS: u16 = 13_500;
/// Written combined Extra-AEXP/Catalyst multiplier cap, where 10,000 basis points means 1.00x.
pub const ENCHANT_COMBINE_MULTIPLIER_CAP_BPS: u16 = 18_000;
/// Written absolute final-success cap; this base-table slice deliberately does not apply it.
pub const ENCHANT_COMBINE_ABSOLUTE_SUCCESS_CAP_BPS: u16 = 9_500;

#[derive(Clone, Copy, Debug, PartialEq, Eq, Structural)]
pub enum EnchantCombineFailureConsumption {
    /// The frozen target-Level-II row explicitly has no failure path.
    NoFailurePath,
    /// Exactly one of the two input books is destroyed, selected uniformly at random.
    DestroyOneUniform,
    /// On failure, a second draw chooses whether one or both input books are destroyed.
    WeightedOneOrBoth { destroy_one_basis_points: u16, destroy_both_basis_points: u16 },
}

#[derive(Clone, Copy, Debug, PartialEq, Eq, Structural)]
pub struct StandardEnchantCombineBasePolicy {
    pub target_level: u8,
    pub base_success_basis_points: u16,
    pub money_fee: i64,
    pub activity_exp_fee: i64,
    pub extra_aexp_ui_cap: i64,
    pub failure_consumption: EnchantCombineFailureConsumption,
    pub committed_attempt_costs_are_sunk: bool,
    pub final_success_probability_is_unresolved: bool,
}

#[derive(Clone, Copy, Debug, PartialEq, Eq, Structural)]
pub enum EnchantCombineBasePolicyError {
    TargetLevelOutOfRange(u8),
    ArithmeticOverflow,
}

/// The frozen combine row of each target level II-X: base success (bps), Money fee, AEXP fee and
/// failure consumption.
pub open spec fn spec_combine_row(target_level: u8) -> (u16, i64, i64, EnchantCombineFailureConsumption) {
    let w7030 = EnchantCombineFailureConsumption::WeightedOneOrBoth {
        destroy_one_basis_points: 7_000,
        destroy_both_basis_points: 3_000,
    };
    let w4060 = EnchantCombineFailureConsumption::WeightedOneOrBoth {
        destroy_one_basis_points: 4_000,
        destroy_both_basis_points: 6_000,
    };
    if target_level == 2 {
        (10_000, 2_000, 100, EnchantCombineFailureConsumption::NoFailurePath)
    } else if target_level == 3 {
        (9_500, 4_000, 200, EnchantCombineFailureConsumption::DestroyOneUniform)
    } else if target_level == 4 {
        (9_000, 8_000, 400, EnchantCombineFailureConsumption::DestroyOneUniform)
    } else if target_level == 5 {
        (8_000, 15_000, 800, EnchantCombineFailureConsumption::DestroyOneUniform)
    } else if target_level == 6 {
        (7_000, 30_000, 1_500, w7030)
    } else if target_level == 7 {
        (5_500, 60_000, 3_000, w7030)
    } else if target_level == 8 {
        (4_000, 120_000, 6_000, w7030)
    } else if target_level == 9 {
        (2_500, 250_000, 12_000, w4060)
    } else {
        (1_200, 500_000, 25_000, w4060)
    }
}

/// The full standard combine base policy of a target level in II-X.
pub open spec fn spec_combine_base_policy(target_level: u8) -> StandardEnchantCombineBasePolicy {
    let row = spec_combine_row(target_level);
    StandardEnchantCombineBasePolicy {
        target_level,
        base_success_basis_points: row.0,
        money_fee: row.1,
        activity_exp_fee: row.2,
        extra_aexp_ui_cap: (row.2 * ENCHANT_COMBINE_EXTRA_AEXP_UI_CAP_MULTIPLIER) as i64,
        failure_consumption: row.3,
        committed_attempt_costs_are_sunk: true,
        final_success_probability_is_unresolved: true,
    }
}

/// Returns one exact row from the frozen standard same-enchant/same-level combine contract.
pub fn standard_enchant_combine_base_policy(target_level: u8) -> (r: Result<
    StandardEnchantCombineBasePolicy,
    EnchantCombineBasePolicyError,
>)
    ensures
        ENCHANT_COMBINE_MIN_TARGET_LEVEL <= target_level <= ENCHANT_COMBINE_MAX_TARGET_LEVEL ==> r
            == Ok::<StandardEnchantCombineBasePolicy, EnchantCombineBasePolicyError>(
            spec_combine_base_policy(target_level),
        ),
        !(ENCHANT_COMBINE_MIN_TARGET_LEVEL <= target_level <= ENCHANT_COMBINE_MAX_TARGET_LEVEL) ==> r
            == Err::<StandardEnchantCombineBasePolicy, EnchantCombineBasePolicyError>(
            EnchantCombineBasePolicyError::TargetLevelOutOfRange(target_level),
        ),
{
    let w7030 = EnchantCombineFailureConsumption::WeightedOneOrBoth {
        destroy_one_basis_points: 7_000,
        destroy_both_basis_points: 3_000,
    };
    let w4060 = EnchantCombineFailureConsumption::WeightedOneOrBoth {
        destroy_one_basis_points: 4_000,
        destroy_both_basis_points: 6_000,
    };
    let (base_success_basis_points, money_fee, activity_exp_fee, failure_consumption): (
        u16,
        i64,
        i64,
        EnchantCombineFailureConsumption,
    ) = match target_level {
        2 => (10_000, 2_000, 100, EnchantCombineFailureConsumption::NoFailurePath),
        3 => (9_500, 4_000, 200, EnchantCombineFailureConsumption::DestroyOneUniform),
        4 => (9_000, 8_000, 400, EnchantCombineFailureConsumption::DestroyOneUniform),
        5 => (8_000, 15_000, 800, EnchantCombineFailureConsumption::DestroyOneUniform),
        6 => (7_000, 30_000, 1_500, w7030),
        7 => (5_500, 60_000, 3_000, w7030),
        8 => (4_000, 120_000, 6_000, w7030),
        9 => (2_500, 250_000, 12_000, w4060),
        10 => (1_200, 500_000, 25_000, w4060),
        other => return Err(EnchantCombineBasePolicyError::TargetLevelOutOfRange(other)),
    };
    let extra_aexp_ui_cap = match activity_exp_fee.checked_mul(
        ENCHANT_COMBINE_EXTRA_AEXP_UI_CAP_MULTIPLIER,
    ) {
        Some(v) => v,
        None => return Err(EnchantCombineBasePolicyError::ArithmeticOverflow),
    };
    Ok(
        StandardEnchantCombineBasePolicy {
            target_level,
            base_success_basis_points,
            money_fee,
            activity_exp_fee,
            extra_aexp_ui_cap,
            failure_consumption,
            committed_attempt_costs_are_sunk: true,
            final_success_probability_is_unresolved: true,
        },
    )
}

} // verus!
