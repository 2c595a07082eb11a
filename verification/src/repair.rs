//! Frozen full-repair economic recipe and the Repair-cancel refund rule.
use vstd::prelude::*;

use crate::equipment_policy::{
    spec_base_material_units, spec_repair_ratio_percent, spec_tier_material, EquipmentMaterial,
    EquipmentSlot, EquipmentTier,
};

verus! {

const MONEY_ROUNDING_UNIT: i128 = 100;

const MONEY_MINIMUM: i128 = 100;

const PERCENT_DENOMINATOR: i128 = 100;

const GOLD_AEXP_PER_BASE_UNIT: i128 = 250;

const CANCEL_REFUND_NUMERATOR: i128 = 4;

const CANCEL_REFUND_DENOMINATOR: i128 = 5;

pub type RepairTier = EquipmentTier;

pub type RepairSlot = EquipmentSlot;

pub type RepairMaterial = EquipmentMaterial;

#[derive(Clone, Copy, Debug, PartialEq, Eq, Structural)]
pub struct RepairPreview {
    pub tier: RepairTier,
    pub slot: RepairSlot,
    pub current_durability: i64,
    pub max_durability: i64,
    pub missing_durability: i64,
    pub recraft_appraisal: i64,
    pub money_cost: i64,
    pub material: RepairMaterial,
    pub material_units: i64,
    pub activity_xp_cost: i64,
}

#[derive(Clone, Copy, Debug, PartialEq, Eq, Structural)]
pub struct RepairCancelRefund {
    pub material_units: i64,
    pub money: i64,
    pub activity_xp: i64,
}

#[derive(Clone, Copy, Debug, PartialEq, Eq, Structural)]
pub enum RepairMathError {
    InvalidMaxDurability,
    InvalidCurrentDurability,
    InvalidRecraftAppraisal,
    NoMissingDurability,
    UndefinedTierRepairRatio(RepairTier),
    NegativeEligibleMaterialUnits,
    ArithmeticOverflow,
}

/// `n / d` rounded half up to a multiple of 100, with a minimum of 100.
pub open spec fn spec_round100_with_minimum(n: int, d: int) -> int {
    if n < 100 * d {
        100
    } else {
        ((n + 50 * d) / (100 * d)) * 100
    }
}

/// `ceil(n / d)`.
pub open spec fn spec_ceil_div(n: int, d: int) -> int {
    if n % d == 0 {
        n / d
    } else {
        n / d + 1
    }
}

/// The full-repair Money cost: `round100_min100(appraisal * ratio% * missing / max)`.
pub open spec fn spec_repair_money(appraisal: int, ratio_percent: int, missing: int, max: int) -> int {
    spec_round100_with_minimum(appraisal * ratio_percent * missing, 100 * max)
}

/// The full-repair material units: `ceil(base_units * missing / max)`.
pub open spec fn spec_repair_material(base_units: int, missing: int, max: int) -> int {
    spec_ceil_div(base_units * missing, max)
}

/// The full-repair Activity EXP: `ceil(250 * base_units * missing / max)` for Gold, else zero.
pub open spec fn spec_repair_aexp(tier: RepairTier, base_units: int, missing: int, max: int) -> int {
    if tier == EquipmentTier::Gold {
        spec_ceil_div(250 * base_units * missing, max)
    } else {
        0
    }
}

/// Whether the exact recipe leaves the supported integer bounds: the Money numerator or its
/// rounding offset leaves `i128`, or the Money cost leaves `i64`.
pub open spec fn spec_repair_overflows(appraisal: int, ratio_percent: int, missing: int, max: int) -> bool {
    let n = appraisal * ratio_percent * missing;
    let d = 100 * max;
    ||| n > i128::MAX
    ||| (n >= 100 * d && n + 50 * d > i128::MAX)
    ||| spec_repair_money(appraisal, ratio_percent, missing, max) > i64::MAX
}

/// Whether the inputs describe a valid repair of a damaged item with a defined ratio.
pub open spec fn spec_repair_inputs_valid(
    tier: RepairTier,
    current_durability: i64,
    max_durability: i64,
    recraft_appraisal: i64,
) -> bool {
    &&& max_durability > 0
    &&& 0 <= current_durability < max_durability
    &&& recraft_appraisal > 0
    &&& spec_repair_ratio_percent(tier) is Some
}

fn round100_with_minimum(numerator: i128, denominator: i128) -> (r: Result<i128, RepairMathError>)
    requires
        numerator >= 0,
        0 < denominator <= 100 * i64::MAX,
    ensures
        numerator >= 100 * denominator && numerator + 50 * denominator > i128::MAX ==> r == Err::<
            i128,
            RepairMathError,
        >(RepairMathError::ArithmeticOverflow),
        !(numerator >= 100 * denominator && numerator + 50 * denominator > i128::MAX) ==> r == Ok::<
            i128,
            RepairMathError,
        >(spec_round100_with_minimum(numerator as int, denominator as int) as i128),
        !(numerator >= 100 * denominator && numerator + 50 * denominator > i128::MAX)
            ==> 100 <= spec_round100_with_minimum(numerator as int, denominator as int) <= i128::MAX,
{
    if numerator < MONEY_MINIMUM * denominator {
        return Ok(MONEY_MINIMUM);
    }
    let rounding_offset = (MONEY_ROUNDING_UNIT / 2) * denominator;
    let sum = match numerator.checked_add(rounding_offset) {
        Some(sum) => sum,
        None => {
            return Err(RepairMathError::ArithmeticOverflow);
        },
    };
    let rounded_units = sum / (MONEY_ROUNDING_UNIT * denominator);
    proof {
        assert(rounded_units * 100 <= sum / denominator) by (nonlinear_arith)
            requires
                rounded_units as int == (sum as int) / (100 * denominator as int),
                denominator > 0,
                sum >= 0,
        ;
        assert(sum / denominator <= sum) by (nonlinear_arith)
            requires denominator > 0, sum >= 0;
        assert(rounded_units >= 1) by (nonlinear_arith)
            requires
                rounded_units as int == (sum as int) / (100 * denominator as int),
                sum >= 100 * denominator,
                denominator > 0,
        ;
    }
    Ok(rounded_units * MONEY_ROUNDING_UNIT)
}

fn ceil_ratio(numerator: i128, denominator: i128) -> (r: i128)
    requires
        numerator >= 0,
        denominator > 0,
    ensures
        r == spec_ceil_div(numerator as int, denominator as int),
{
    let quotient = numerator / denominator;
    if numerator % denominator != 0 {
        proof {
            assert(quotient <= numerator) by (nonlinear_arith)
                requires quotient == numerator / denominator, denominator > 0, numerator >= 0;
            assert(quotient < numerator) by (nonlinear_arith)
                requires
                    quotient == numerator / denominator,
                    denominator > 0,
                    numerator % denominator != 0,
                    numerator >= 0,
            ;
        }
        quotient + 1
    } else {
        quotient
    }
}

/// Computes the frozen full-repair economic recipe for one already-resolved item: Money
/// `round100_min100(appraisal * ratio% * missing / max)`, material `ceil(base * missing / max)` of
/// the tier material, and for Gold `ceil(250 * base * missing / max)` Activity EXP.
pub fn preview_full_repair(
    tier: RepairTier,
    slot: RepairSlot,
    current_durability: i64,
    max_durability: i64,
    recraft_appraisal: i64,
) -> (r: Result<RepairPreview, RepairMathError>)
    ensures
        max_durability <= 0 ==> r == Err::<RepairPreview, RepairMathError>(
            RepairMathError::InvalidMaxDurability,
        ),
        max_durability > 0 && (current_durability < 0 || current_durability > max_durability) ==> r
            == Err::<RepairPreview, RepairMathError>(RepairMathError::InvalidCurrentDurability),
        max_durability > 0 && 0 <= current_durability <= max_durability && recraft_appraisal <= 0
            ==> r == Err::<RepairPreview, RepairMathError>(
            RepairMathError::InvalidRecraftAppraisal,
        ),
        max_durability > 0 && current_durability == max_durability && recraft_appraisal > 0 ==> r
            == Err::<RepairPreview, RepairMathError>(RepairMathError::NoMissingDurability),
        max_durability > 0 && 0 <= current_durability < max_durability && recraft_appraisal > 0
            && spec_repair_ratio_percent(tier) is None ==> r == Err::<
            RepairPreview,
            RepairMathError,
        >(RepairMathError::UndefinedTierRepairRatio(tier)),
        spec_repair_inputs_valid(tier, current_durability, max_durability, recraft_appraisal) ==> {
            let ratio = spec_repair_ratio_percent(tier)->0 as int;
            let missing = max_durability - current_durability;
            let base = spec_base_material_units(slot) as int;
            &&& spec_repair_overflows(recraft_appraisal as int, ratio, missing, max_durability as int)
                ==> r == Err::<RepairPreview, RepairMathError>(RepairMathError::ArithmeticOverflow)
            &&& !spec_repair_overflows(
                recraft_appraisal as int,
                ratio,
                missing,
                max_durability as int,
            ) ==> r == Ok::<RepairPreview, RepairMathError>(
                RepairPreview {
                    tier,
                    slot,
                    current_durability,
                    max_durability,
                    missing_durability: missing as i64,
                    recraft_appraisal,
                    money_cost: spec_repair_money(
                        recraft_appraisal as int,
                        ratio,
                        missing,
                        max_durability as int,
                    ) as i64,
                    material: spec_tier_material(tier),
                    material_units: spec_repair_material(base, missing, max_durability as int) as i64,
                    activity_xp_cost: spec_repair_aexp(
                        tier,
                        base,
                        missing,
                        max_durability as int,
                    ) as i64,
                },
            )
        },
{
    if max_durability <= 0 {
        return Err(RepairMathError::InvalidMaxDurability);
    }
    if current_durability < 0 || current_durability > max_durability {
        return Err(RepairMathError::InvalidCurrentDurability);
    }
    if recraft_appraisal <= 0 {
        return Err(RepairMathError::InvalidRecraftAppraisal);
    }
    let missing_durability = max_durability - current_durability;
    if missing_durability == 0 {
        return Err(RepairMathError::NoMissingDurability);
    }
    let ratio_percent = match tier.repair_ratio_percent() {
        Some(ratio) => ratio,
        None => {
            return Err(RepairMathError::UndefinedTierRepairRatio(tier));
        },
    };
    let base_material_units = slot.base_material_units() as i128;
    let missing = missing_durability as i128;
    let maximum = max_durability as i128;
    let appraisal = recraft_appraisal as i128;
    proof {
        assert(0 < appraisal * ratio_percent <= i64::MAX * 25) by (nonlinear_arith)
            requires 0 < appraisal <= i64::MAX, 0 < ratio_percent <= 25;
    }
    let scaled_appraisal = appraisal * ratio_percent;
    let money_numerator = match scaled_appraisal.checked_mul(missing) {
        Some(value) => value,
        None => {
            return Err(RepairMathError::ArithmeticOverflow);
        },
    };
    proof {
        assert(money_numerator >= 0) by (nonlinear_arith)
            requires money_numerator == scaled_appraisal * missing, scaled_appraisal > 0, missing > 0;
    }
    let money_denominator = PERCENT_DENOMINATOR * maximum;
    let money_cost = match round100_with_minimum(money_numerator, money_denominator) {
        Ok(value) => value,
        Err(e) => {
            return Err(e);
        },
    };
    if money_cost > i64::MAX as i128 {
        return Err(RepairMathError::ArithmeticOverflow);
    }
    proof {
        assert(base_material_units * missing <= 4 * i64::MAX) by (nonlinear_arith)
            requires 0 < base_material_units <= 4, 0 < missing <= i64::MAX;
        assert(base_material_units * missing > 0) by (nonlinear_arith)
            requires 0 < base_material_units, 0 < missing;
    }
    let material_units = ceil_ratio(base_material_units * missing, maximum);
    proof {
        lemma_ceil_ratio_bounded(base_material_units as int, missing as int, maximum as int);
    }
    let activity_xp_cost = if tier == EquipmentTier::Gold {
        proof {
            assert(GOLD_AEXP_PER_BASE_UNIT * base_material_units * missing <= 1000 * i64::MAX)
                by (nonlinear_arith)
                requires 0 < base_material_units <= 4, 0 < missing <= i64::MAX;
            assert(GOLD_AEXP_PER_BASE_UNIT * base_material_units * missing > 0) by (nonlinear_arith)
                requires 0 < base_material_units, 0 < missing;
            lemma_ceil_ratio_bounded(250 * base_material_units, missing as int, maximum as int);
        }
        ceil_ratio(GOLD_AEXP_PER_BASE_UNIT * base_material_units * missing, maximum)
    } else {
        0
    };
    Ok(RepairPreview {
        tier,
        slot,
        current_durability,
        max_durability,
        missing_durability,
        recraft_appraisal,
        money_cost: money_cost as i64,
        material: tier.material(),
        material_units: material_units as i64,
        activity_xp_cost: activity_xp_cost as i64,
    })
}

/// `ceil(units * missing / max)` lies in `1..=units` when `0 < missing <= max`.
proof fn lemma_ceil_ratio_bounded(units: int, missing: int, max: int)
    requires
        units > 0,
        0 < missing <= max,
    ensures
        1 <= spec_ceil_div(units * missing, max) <= units,
{
    assert(units * missing <= units * max) by (nonlinear_arith)
        requires units > 0, missing <= max;
    assert(units * missing > 0) by (nonlinear_arith)
        requires units > 0, missing > 0;
    assert((units * max) / max == units) by (nonlinear_arith)
        requires max > 0;
    assert((units * missing) / max <= units) by (nonlinear_arith)
        requires units * missing <= units * max, max > 0, (units * max) / max == units;
    if (units * missing) % max != 0 {
        assert((units * missing) / max < units) by (nonlinear_arith)
            requires
                units * missing <= units * max,
                max > 0,
                (units * missing) % max != 0,
                units * missing > 0,
        ;
    } else {
        assert((units * missing) / max >= 1) by (nonlinear_arith)
            requires units * missing > 0, (units * missing) % max == 0, max > 0;
    }
}

/// Applies the frozen Repair-cancel refund rule: `floor(80%)` of the eligible material units is
/// returned; Money and Activity EXP are never refunded.
pub fn repair_cancel_refund(eligible_material_units: i64) -> (r: Result<
    RepairCancelRefund,
    RepairMathError,
>)
    ensures
        eligible_material_units < 0 ==> r == Err::<RepairCancelRefund, RepairMathError>(
            RepairMathError::NegativeEligibleMaterialUnits,
        ),
        eligible_material_units >= 0 ==> r == Ok::<RepairCancelRefund, RepairMathError>(
            RepairCancelRefund {
                material_units: (eligible_material_units * 4 / 5) as i64,
                money: 0,
                activity_xp: 0,
            },
        ),
{
    if eligible_material_units < 0 {
        return Err(RepairMathError::NegativeEligibleMaterialUnits);
    }
    let material_units = (eligible_material_units as i128) * CANCEL_REFUND_NUMERATOR
        / CANCEL_REFUND_DENOMINATOR;
    Ok(RepairCancelRefund { material_units: material_units as i64, money: 0, activity_xp: 0 })
}

/// Repair costs are well-formed and grow with the missing durability: the Money cost is a
/// positive multiple of 100, the material units lie in `1..=base units`, Activity EXP is zero
/// except for Gold, and none of the three decreases when more durability is missing.
pub proof fn lemma_repair_costs_grow_with_missing_durability(
    tier: RepairTier,
    slot: RepairSlot,
    appraisal: int,
    less: int,
    more: int,
    max: int,
)
    requires
        spec_repair_ratio_percent(tier) is Some,
        appraisal > 0,
        0 < less <= more <= max,
    ensures
        ({
            let ratio = spec_repair_ratio_percent(tier)->0 as int;
            let base = spec_base_material_units(slot) as int;
            &&& spec_repair_money(appraisal, ratio, more, max) >= 100
            &&& spec_repair_money(appraisal, ratio, more, max) % 100 == 0
            &&& 1 <= spec_repair_material(base, more, max) <= base
            &&& tier != EquipmentTier::Gold ==> spec_repair_aexp(tier, base, more, max) == 0
            &&& spec_repair_money(appraisal, ratio, less, max) <= spec_repair_money(
                appraisal,
                ratio,
                more,
                max,
            )
            &&& spec_repair_material(base, less, max) <= spec_repair_material(base, more, max)
            &&& spec_repair_aexp(tier, base, less, max) <= spec_repair_aexp(tier, base, more, max)
        }),
{
    let ratio = spec_repair_ratio_percent(tier)->0 as int;
    let base = spec_base_material_units(slot) as int;
    let d = 100 * max;
    let n1 = appraisal * ratio * less;
    let n2 = appraisal * ratio * more;
    assert(n1 <= n2) by (nonlinear_arith)
        requires appraisal > 0, ratio > 0, less <= more, n1 == appraisal * ratio * less,
            n2 == appraisal * ratio * more;
    assert(d > 0);
    if n2 >= 100 * d {
        assert((n2 + 50 * d) / (100 * d) >= 1) by (nonlinear_arith)
            requires n2 >= 100 * d, d > 0;
        if n1 >= 100 * d {
            assert((n1 + 50 * d) / (100 * d) <= (n2 + 50 * d) / (100 * d)) by (nonlinear_arith)
                requires n1 <= n2, d > 0;
        }
    }
    lemma_ceil_ratio_bounded(base, more, max);
    lemma_ceil_div_monotone(base * less, base * more, max);
    assert(base * less <= base * more) by (nonlinear_arith)
        requires base > 0, less <= more;
    if tier == EquipmentTier::Gold {
        assert(250 * base * less <= 250 * base * more) by (nonlinear_arith)
            requires base > 0, less <= more;
        lemma_ceil_div_monotone(250 * base * less, 250 * base * more, max);
    }
}

/// `ceil(a / d) <= ceil(b / d)` for `0 <= a <= b` and `d > 0`.
proof fn lemma_ceil_div_monotone(a: int, b: int, d: int)
    requires
        0 <= a,
        d > 0,
    ensures
        a <= b ==> spec_ceil_div(a, d) <= spec_ceil_div(b, d),
{
    if a <= b {
        vstd::arithmetic::div_mod::lemma_div_is_ordered(a, b, d);
        vstd::arithmetic::div_mod::lemma_fundamental_div_mod(a, d);
        vstd::arithmetic::div_mod::lemma_fundamental_div_mod(b, d);
        if a % d != 0 && b % d == 0 {
            assert(a / d < b / d) by (nonlinear_arith)
                requires
                    a == d * (a / d) + a % d,
                    b == d * (b / d) + b % d,
                    b % d == 0,
                    0 < a % d < d,
                    a <= b,
                    d > 0,
            ;
        }
    }
}

} // verus!
