//! Exact over-cap catch chance `clamp(0.85 - 0.25 (R - 1) + 0.02 L, 0.15, 0.95)`.
use vstd::prelude::*;

use crate::action_speed::{lemma_gcd_divides, lemma_gcd_positive, spec_gcd};
use crate::fishing_capability::{
    gcd_u128, FishingCapabilityClassification, FishingCapabilityRatio,
};

verus! {

pub const SHARP_HOOK_MAX_LEVEL: u8 = 10;

pub const SHARP_HOOK_PERCENTAGE_POINTS_PER_LEVEL: u8 = 2;

pub const OVER_CAP_CATCH_CHANCE_MIN_PERCENT: u8 = 15;

pub const OVER_CAP_CATCH_CHANCE_MAX_PERCENT: u8 = 95;

const PERCENT_DENOMINATOR: u128 = 100;

const BASE_OVER_CAP_CATCH_PERCENT: u128 = 85;

const OVER_CAP_PENALTY_PERCENT_PER_EXCESS_RATIO: u128 = 25;

#[derive(Clone, Copy, Debug, PartialEq, Eq, Structural)]
pub enum OverCapCatchChanceBound {
    Minimum,
    Interior,
    Maximum,
}

/// An exact, reduced over-cap catch probability `numerator / denominator`.
#[derive(Clone, Copy, Debug, PartialEq, Eq, Structural)]
pub struct OverCapCatchChancePolicy {
    pub sharp_hook_level: Option<u8>,
    pub bound: OverCapCatchChanceBound,
    numerator: u128,
    denominator: u128,
}

impl OverCapCatchChancePolicy {
    /// The SharpHook level the chance was computed for.
    pub closed spec fn spec_sharp_hook_level(self) -> Option<u8> {
        self.sharp_hook_level
    }

    /// Which clamp region the chance lies in.
    pub closed spec fn spec_bound(self) -> OverCapCatchChanceBound {
        self.bound
    }

    /// The stored reduced numerator.
    pub closed spec fn num(self) -> nat {
        self.numerator as nat
    }

    /// The stored reduced denominator.
    pub closed spec fn den(self) -> nat {
        self.denominator as nat
    }

    pub fn numerator(self) -> (r: u128)
        ensures
            r == self.num(),
    {
        self.numerator
    }

    pub fn denominator(self) -> (r: u128)
        ensures
            r == self.den(),
    {
        self.denominator
    }
}

#[derive(Clone, Copy, Debug, PartialEq, Eq, Structural)]
pub enum FishingOverCapError {
    CapabilityRatioNotOverCap,
    SharpHookLevelOutOfRange(u8),
    ArithmeticOverflow,
}

/// Whether a ratio is labelled over capability and is numerically `R > 1`.
pub open spec fn spec_is_over_cap(ratio: FishingCapabilityRatio) -> bool {
    ratio.spec_classification() == FishingCapabilityClassification::OverRodCapability
        && ratio.num() > ratio.den()
}

/// A SharpHook level is either absent or a canonical level I-X.
pub open spec fn spec_sharp_hook_valid(level: Option<u8>) -> bool {
    match level {
        None => true,
        Some(l) => 1 <= l <= SHARP_HOOK_MAX_LEVEL,
    }
}

/// The SharpHook level that enters the formula (`0` when absent).
pub open spec fn spec_sharp_hook_value(level: Option<u8>) -> nat {
    match level {
        None => 0,
        Some(l) => l as nat,
    }
}

/// `25 n`: the penalty term scaled by the ratio denominator and 100.
pub open spec fn spec_penalty(n: nat) -> nat {
    25 * n
}

/// `d (95 + 2L)`: at or above this the raw chance is at most 15%.
pub open spec fn spec_minimum_threshold(d: nat, level: nat) -> nat {
    d * (95 + 2 * level)
}

/// `d (15 + 2L)`: at or below this the raw chance is at least 95%.
pub open spec fn spec_maximum_threshold(d: nat, level: nat) -> nat {
    d * (15 + 2 * level)
}

/// `d (110 + 2L)`: the positive term of the interior numerator.
pub open spec fn spec_positive_term(d: nat, level: nat) -> nat {
    d * (110 + 2 * level)
}

/// The unreduced interior chance `(d (110 + 2L) - 25 n) / (100 d)` as a numerator/denominator pair.
pub open spec fn spec_interior_fraction(n: nat, d: nat, level: nat) -> (nat, nat) {
    ((spec_positive_term(d, level) - spec_penalty(n)) as nat, 100 * d)
}

/// What `preview_over_cap_catch_chance` returns for an over-cap ratio `n / d` and a valid
/// SharpHook level, as bound, reduced numerator and reduced denominator.
pub open spec fn spec_over_cap_outcome(n: nat, d: nat, level: nat) -> Result<
    (OverCapCatchChanceBound, nat, nat),
    FishingOverCapError,
> {
    if spec_penalty(n) > u128::MAX || spec_minimum_threshold(d, level) > u128::MAX {
        Err(FishingOverCapError::ArithmeticOverflow)
    } else if spec_penalty(n) >= spec_minimum_threshold(d, level) {
        Ok((OverCapCatchChanceBound::Minimum, 3, 20))
    } else if spec_penalty(n) <= spec_maximum_threshold(d, level) {
        Ok((OverCapCatchChanceBound::Maximum, 19, 20))
    } else if spec_positive_term(d, level) > u128::MAX {
        Err(FishingOverCapError::ArithmeticOverflow)
    } else {
        let (a, b) = spec_interior_fraction(n, d, level);
        Ok((OverCapCatchChanceBound::Interior, a / spec_gcd(a, b), b / spec_gcd(a, b)))
    }
}

/// Previews the exact catch chance used after an over-cap candidate survives the line-break step:
/// `clamp(0.85 - 0.25 (R - 1) + 0.02 SharpHookLevel, 0.15, 0.95)` as a reduced fraction.
pub fn preview_over_cap_catch_chance(
    capability_ratio: FishingCapabilityRatio,
    sharp_hook_level: Option<u8>,
) -> (r: Result<OverCapCatchChancePolicy, FishingOverCapError>)
    ensures
        !spec_is_over_cap(capability_ratio) ==> r == Err::<
            OverCapCatchChancePolicy,
            FishingOverCapError,
        >(FishingOverCapError::CapabilityRatioNotOverCap),
        spec_is_over_cap(capability_ratio) && !spec_sharp_hook_valid(sharp_hook_level) ==> r
            == Err::<OverCapCatchChancePolicy, FishingOverCapError>(
            FishingOverCapError::SharpHookLevelOutOfRange(sharp_hook_level->0),
        ),
        capability_ratio.num() <= capability_ratio.den() ==> r == Err::<
            OverCapCatchChancePolicy,
            FishingOverCapError,
        >(FishingOverCapError::CapabilityRatioNotOverCap),
        spec_is_over_cap(capability_ratio) && (sharp_hook_level matches Some(l) && (l == 0 || l
            > 10)) ==> r == Err::<OverCapCatchChancePolicy, FishingOverCapError>(
            FishingOverCapError::SharpHookLevelOutOfRange(sharp_hook_level->0),
        ),
        spec_is_over_cap(capability_ratio) && spec_sharp_hook_valid(sharp_hook_level) ==> {
            let outcome = spec_over_cap_outcome(
                capability_ratio.num(),
                capability_ratio.den(),
                spec_sharp_hook_value(sharp_hook_level),
            );
            match outcome {
                Ok(t) => r matches Ok(p) && p.spec_sharp_hook_level() == sharp_hook_level
                    && p.spec_bound() == t.0 && p.num() == t.1 && p.den() == t.2,
                Err(e) => r == Err::<OverCapCatchChancePolicy, FishingOverCapError>(e),
            }
        },
{
    if capability_ratio.classification() != FishingCapabilityClassification::OverRodCapability
        || capability_ratio.numerator() <= capability_ratio.denominator() {
        return Err(FishingOverCapError::CapabilityRatioNotOverCap);
    }
    let sharp_hook_level_value: u8 = match sharp_hook_level {
        None => 0,
        Some(level) => {
            if level >= 1 && level <= SHARP_HOOK_MAX_LEVEL {
                level
            } else {
                return Err(FishingOverCapError::SharpHookLevelOutOfRange(level));
            }
        },
    };
    let ghost n = capability_ratio.num();
    let ghost d = capability_ratio.den();
    let ghost level = sharp_hook_level_value as nat;
    let ratio_numerator = capability_ratio.numerator();
    let ratio_denominator = capability_ratio.denominator();
    let penalty_scaled_numerator = match ratio_numerator.checked_mul(
        OVER_CAP_PENALTY_PERCENT_PER_EXCESS_RATIO,
    ) {
        Some(value) => value,
        None => {
            return Err(FishingOverCapError::ArithmeticOverflow);
        },
    };
    let sharp_hook_bonus_percent = (sharp_hook_level_value as u128) * (
    SHARP_HOOK_PERCENTAGE_POINTS_PER_LEVEL as u128);
    let intercept_percent = BASE_OVER_CAP_CATCH_PERCENT + OVER_CAP_PENALTY_PERCENT_PER_EXCESS_RATIO;
    let minimum_threshold_factor = intercept_percent - (OVER_CAP_CATCH_CHANCE_MIN_PERCENT as u128)
        + sharp_hook_bonus_percent;
    let minimum_threshold = match ratio_denominator.checked_mul(minimum_threshold_factor) {
        Some(value) => value,
        None => {
            return Err(FishingOverCapError::ArithmeticOverflow);
        },
    };
    assert(minimum_threshold == spec_minimum_threshold(d, level));
    if penalty_scaled_numerator >= minimum_threshold {
        return Ok(percent_policy(sharp_hook_level, OverCapCatchChanceBound::Minimum, 15));
    }
    let maximum_threshold_factor = intercept_percent - (OVER_CAP_CATCH_CHANCE_MAX_PERCENT as u128)
        + sharp_hook_bonus_percent;
    proof {
        assert(d * (15 + 2 * level) <= d * (95 + 2 * level)) by (nonlinear_arith);
    }
    let maximum_threshold = ratio_denominator * maximum_threshold_factor;
    if penalty_scaled_numerator <= maximum_threshold {
        return Ok(percent_policy(sharp_hook_level, OverCapCatchChanceBound::Maximum, 95));
    }
    let positive_factor = intercept_percent + sharp_hook_bonus_percent;
    let positive_term = match ratio_denominator.checked_mul(positive_factor) {
        Some(value) => value,
        None => {
            return Err(FishingOverCapError::ArithmeticOverflow);
        },
    };
    proof {
        assert(d * (95 + 2 * level) <= d * (110 + 2 * level)) by (nonlinear_arith);
        assert(d * 100 <= d * (110 + 2 * level)) by (nonlinear_arith);
        assert(d > 0) by (nonlinear_arith)
            requires
                25 * n > d * (15 + 2 * level),
                25 * n < d * (95 + 2 * level),
        ;
        assert(100 * d > 0) by (nonlinear_arith)
            requires d > 0;
    }
    let numerator = positive_term - penalty_scaled_numerator;
    let denominator = ratio_denominator * PERCENT_DENOMINATOR;
    let divisor = gcd_u128(numerator, denominator);
    proof {
        lemma_gcd_positive(numerator as nat, denominator as nat);
    }
    Ok(
        OverCapCatchChancePolicy {
            sharp_hook_level,
            bound: OverCapCatchChanceBound::Interior,
            numerator: numerator / divisor,
            denominator: denominator / divisor,
        },
    )
}

/// Every over-cap catch chance the preview can return lies within the clamp `[15%, 95%]`.
pub proof fn lemma_over_cap_chance_is_clamped(n: nat, d: nat, level: nat)
    requires
        n > d,
        level <= SHARP_HOOK_MAX_LEVEL,
    ensures
        spec_over_cap_outcome(n, d, level) matches Ok(t) ==> t.2 > 0 && 3 * t.2 <= 20 * t.1 && 20
            * t.1 <= 19 * t.2,
{
    if let Ok(t) = spec_over_cap_outcome(n, d, level) {
        if t.0 == OverCapCatchChanceBound::Interior {
            let (a, b) = spec_interior_fraction(n, d, level);
            assert(d > 0) by (nonlinear_arith)
                requires
                    25 * n > d * (15 + 2 * level),
                    25 * n < d * (95 + 2 * level),
            ;
            assert(d * (95 + 2 * level) <= d * (110 + 2 * level)) by (nonlinear_arith);
            assert(a == d * (110 + 2 * level) - 25 * n);
            assert(b > 0);
            lemma_gcd_positive(a, b);
            let (ka, kb) = lemma_gcd_divides(a, b);
            let g = spec_gcd(a, b);
            assert(ka == a / g && kb == b / g) by (nonlinear_arith)
                requires a == ka * g, b == kb * g, g > 0;
            assert(100 * a > 15 * b && 100 * a < 95 * b) by (nonlinear_arith)
                requires
                    a == d * (110 + 2 * level) - 25 * n,
                    b == 100 * d,
                    25 * n > d * (15 + 2 * level),
                    25 * n < d * (95 + 2 * level),
            ;
            assert(kb > 0 && 3 * kb <= 20 * ka && 20 * ka <= 19 * kb) by (nonlinear_arith)
                requires a == ka * g, b == kb * g, g > 0, b > 0, 100 * a > 15 * b, 100 * a < 95 * b;
        }
    }
}

/// `x` clamped into `[lo, hi]`.
pub open spec fn spec_clamp(x: int, lo: int, hi: int) -> int {
    if x < lo {
        lo
    } else if x > hi {
        hi
    } else {
        x
    }
}

/// The over-cap catch chance is `clamp(0.85 - 0.25 (R - 1) + 0.02 L, 0.15, 0.95)` for the ratio
/// `R = n / d` and the given SharpHook level `L` (`0` without SharpHook): whenever the preview
/// succeeds, its reduced fraction `t.1 / t.2` satisfies
/// `t.1 / t.2 == clamp(d (110 + 2L) - 25 n, 15 d, 95 d) / (100 d)`.
pub proof fn lemma_over_cap_chance_follows_the_formula(n: nat, d: nat, level: Option<u8>)
    requires
        d > 0,
        n > d,
        level matches Some(l) ==> 1 <= l <= 10,
    ensures
        ({
            let sharp_hook: int = match level {
                Some(l) => l as int,
                None => 0,
            };
            spec_over_cap_outcome(n, d, spec_sharp_hook_value(level)) matches Ok(t) ==> {
                &&& t.2 > 0
                &&& 100 * d * t.1 == t.2 * spec_clamp(
                    d * (110 + 2 * sharp_hook) - 25 * n,
                    15 * d as int,
                    95 * d as int,
                )
            }
        }),
{
    let sharp_hook: int = match level {
        Some(l) => l as int,
        None => 0,
    };
    let lv = spec_sharp_hook_value(level);
    assert(lv == sharp_hook);
    if let Ok(t) = spec_over_cap_outcome(n, d, lv) {
        let x = d * (110 + 2 * sharp_hook) - 25 * n;
        assert(d * (110 + 2 * sharp_hook) == d * (95 + 2 * sharp_hook) + 15 * d) by (nonlinear_arith);
        assert(d * (110 + 2 * sharp_hook) == d * (15 + 2 * sharp_hook) + 95 * d) by (nonlinear_arith);
        assert(spec_minimum_threshold(d, lv) == d * (95 + 2 * sharp_hook));
        assert(spec_maximum_threshold(d, lv) == d * (15 + 2 * sharp_hook));
        if t.0 == OverCapCatchChanceBound::Minimum {
            assert(x <= 15 * d);
            assert(spec_clamp(x, 15 * d as int, 95 * d as int) == 15 * d);
            assert(100 * d * 3 == 20 * (15 * d)) by (nonlinear_arith);
        } else if t.0 == OverCapCatchChanceBound::Maximum {
            assert(x >= 95 * d);
            assert(spec_clamp(x, 15 * d as int, 95 * d as int) == 95 * d);
            assert(100 * d * 19 == 20 * (95 * d)) by (nonlinear_arith);
        } else {
            assert(15 * d < x < 95 * d);
            assert(spec_clamp(x, 15 * d as int, 95 * d as int) == x);
            let (a, b) = spec_interior_fraction(n, d, lv);
            assert(spec_positive_term(d, lv) == d * (110 + 2 * sharp_hook));
            assert(a == x);
            assert(b == 100 * d);
            assert(b > 0) by (nonlinear_arith)
                requires b == 100 * d, d > 0;
            lemma_gcd_positive(a, b);
            let (ka, kb) = lemma_gcd_divides(a, b);
            let g = spec_gcd(a, b);
            assert(ka == a / g && kb == b / g) by (nonlinear_arith)
                requires a == ka * g, b == kb * g, g > 0;
            assert(kb > 0 && b * ka == kb * a) by (nonlinear_arith)
                requires a == ka * g, b == kb * g, g > 0, b > 0;
        }
    }
}

/// A clamp bound `percent / 100`, reduced.
fn percent_policy(sharp_hook_level: Option<u8>, bound: OverCapCatchChanceBound, percent: u8) -> (r:
    OverCapCatchChancePolicy)
    requires
        percent == 15 || percent == 95,
    ensures
        r.spec_sharp_hook_level() == sharp_hook_level,
        r.spec_bound() == bound,
        percent == 15 ==> r.num() == 3 && r.den() == 20,
        percent == 95 ==> r.num() == 19 && r.den() == 20,
{
    let numerator = percent as u128;
    let divisor = gcd_u128(numerator, PERCENT_DENOMINATOR);
    proof {
        assert(spec_gcd(5, 0) == 5);
        if percent == 15 {
            assert(spec_gcd(10, 5) == 5);
            assert(spec_gcd(15, 10) == 5);
            assert(spec_gcd(100, 15) == 5);
            assert(spec_gcd(15, 100) == 5);
        } else {
            assert(spec_gcd(95, 5) == 5);
            assert(spec_gcd(100, 95) == 5);
            assert(spec_gcd(95, 100) == 5);
        }
        assert(divisor == 5);
    }
    OverCapCatchChancePolicy {
        sharp_hook_level,
        bound,
        numerator: numerator / divisor,
        denominator: PERCENT_DENOMINATOR / divisor,
    }
}

} // verus!
