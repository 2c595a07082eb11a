//! Canonical structural (recraft) and enhanced equipment appraisal composition.
use vstd::prelude::*;

use crate::action_speed::{lemma_gcd_divides, lemma_gcd_positive, spec_gcd};
use crate::equipment_policy::BaseEquipmentAppraisal;

verus! {

pub const ROLL_FACTOR_BASE_DENOMINATOR: u128 = 25;
pub const ROLL_FACTOR_QUADRATIC_NUMERATOR: u128 = 3;

#[derive(Clone, Copy, Debug, PartialEq, Eq, Structural)]
pub struct CreationRoll {
    numerator: u64,
    denominator: u64,
}

impl CreationRoll {
    #[verifier::type_invariant]
    spec fn percentile(self) -> bool {
        0 < self.denominator && self.numerator <= self.denominator
    }

    /// The zero percentile, `0 / 1`.
    pub fn zero() -> (r: Self)
        ensures
            r.num() == 0 && r.den() == 1,
    {
        Self { numerator: 0, denominator: 1 }
    }

    /// The top percentile, `1 / 1`.
    pub fn one() -> (r: Self)
        ensures
            r.num() == 1 && r.den() == 1,
    {
        Self { numerator: 1, denominator: 1 }
    }

    /// The stored numerator.
    pub closed spec fn num(self) -> nat {
        self.numerator as nat
    }

    /// The stored denominator.
    pub closed spec fn den(self) -> nat {
        self.denominator as nat
    }

    /// Builds an exact percentile in `[0, 1]`, reduced to lowest terms.
    pub fn new(numerator: u64, denominator: u64) -> (r: Result<Self, CreationRollError>)
        ensures
            denominator == 0 ==> r == Err::<Self, CreationRollError>(
                CreationRollError::ZeroDenominator,
            ),
            denominator != 0 && numerator > denominator ==> r == Err::<Self, CreationRollError>(
                CreationRollError::OutOfRange,
            ),
            denominator != 0 && numerator <= denominator ==> (r matches Ok(c) && {
                &&& c.num() == (numerator as nat) / spec_gcd(numerator as nat, denominator as nat)
                &&& c.den() == (denominator as nat) / spec_gcd(
                    numerator as nat,
                    denominator as nat,
                )
                &&& c.num() * denominator == numerator * c.den()
                &&& 0 < c.den()
                &&& c.num() <= c.den()
            }),
    {
        if denominator == 0 {
            return Err(CreationRollError::ZeroDenominator);
        }
        if numerator > denominator {
            return Err(CreationRollError::OutOfRange);
        }
        if numerator == 0 {
            proof {
                assert(spec_gcd(0, denominator as nat) == spec_gcd(denominator as nat, 0));
                assert((denominator as nat) / (denominator as nat) == 1) by (nonlinear_arith)
                    requires denominator > 0;
            }
            return Ok(Self::zero());
        }
        let divisor = gcd_u64(numerator, denominator);
        proof {
            lemma_gcd_positive(numerator as nat, denominator as nat);
            let (kn, kd) = lemma_gcd_divides(numerator as nat, denominator as nat);
            let g = divisor as nat;
            assert(kn == numerator / divisor && kd == denominator / divisor) by (nonlinear_arith)
                requires numerator == kn * g, denominator == kd * g, g > 0, divisor == g;
            assert(kn * denominator == numerator * kd) by (nonlinear_arith)
                requires numerator == kn * g, denominator == kd * g;
            assert(kn <= kd && kd > 0) by (nonlinear_arith)
                requires numerator == kn * g, denominator == kd * g, g > 0, numerator <= denominator,
                    denominator > 0;
        }
        Ok(Self { numerator: numerator / divisor, denominator: denominator / divisor })
    }

    pub fn numerator(self) -> (r: u64)
        ensures
            r == self.num(),
    {
        self.numerator
    }

    pub fn denominator(self) -> (r: u64)
        ensures
            r == self.den(),
            r > 0,
            self.num() <= r,
    {
        proof {
            use_type_invariant(&self);
        }
        self.denominator
    }
}

#[derive(Clone, Copy, Debug, PartialEq, Eq, Structural)]
pub enum CreationRollError {
    ZeroDenominator,
    OutOfRange,
}

/// A base appraisal already scaled by its exact upgrade factor, as a fraction with a positive
/// denominator.
#[derive(Clone, Copy, Debug, PartialEq, Eq, Structural)]
pub struct UpgradeScaledBaseAppraisal {
    numerator: u128,
    denominator: u128,
}

impl UpgradeScaledBaseAppraisal {
    #[verifier::type_invariant]
    spec fn positive_denominator(self) -> bool {
        self.denominator > 0
    }

    /// The stored numerator.
    pub closed spec fn num(self) -> nat {
        self.numerator as nat
    }

    /// The stored denominator.
    pub closed spec fn den(self) -> nat {
        self.denominator as nat
    }

    /// The exact fraction `numerator / denominator`; `None` for a zero denominator.
    pub fn new(numerator: u128, denominator: u128) -> (r: Option<Self>)
        ensures
            denominator == 0 <==> r is None,
            r matches Some(s) ==> s.num() == numerator && s.den() == denominator,
    {
        if denominator == 0 {
            None
        } else {
            Some(Self { numerator, denominator })
        }
    }

    /// The unscaled base value (upgrade factor 1, upgrade level 0).
    pub fn identity(value: u64) -> (r: Self)
        ensures
            r.num() == value,
            r.den() == 1,
    {
        Self { numerator: value as u128, denominator: 1 }
    }

    pub fn numerator(&self) -> (r: u128)
        ensures
            r == self.num(),
    {
        self.numerator
    }

    pub fn denominator(&self) -> (r: u128)
        ensures
            r == self.den(),
            r > 0,
    {
        proof {
            use_type_invariant(self);
        }
        self.denominator
    }
}

#[derive(Clone, Copy, Debug, PartialEq, Eq, Structural)]
pub struct CanonicalEquipmentAppraisal {
    pub base: BaseEquipmentAppraisal,
    pub creation_roll: CreationRoll,
    pub upgrade_level: u64,
    pub embedded_enchant_value: i64,
    pub recraft_appraisal: i64,
    pub enhanced_canonical_appraisal: i64,
}

#[derive(Clone, Copy, Debug, PartialEq, Eq, Structural)]
pub enum CanonicalEquipmentAppraisalError {
    NegativeBaseAppraisal,
    NegativeEmbeddedEnchantValue,
    ArithmeticOverflow,
}

/// `n / d` in lowest terms, with zero written `0 / 1`.
pub open spec fn spec_reduce(n: nat, d: nat) -> (nat, nat) {
    if n == 0 {
        (0, 1)
    } else {
        (n / spec_gcd(n, d), d / spec_gcd(n, d))
    }
}

/// `n / d` rounded to the nearest integer, halves rounded up.
pub open spec fn spec_round_half_up(n: nat, d: nat) -> int {
    ((2 * n + d) / (2 * d)) as int
}

/// Roll factor `1 + 3q^2/25` for `q = n/d`, as the unreduced fraction `(25d^2 + 3n^2) / 25d^2`.
pub open spec fn spec_roll_factor_unreduced(n: nat, d: nat) -> (nat, nat) {
    (25 * (d * d) + 3 * (n * n), 25 * (d * d))
}

/// The roll factor computation fits `u128` at every step.
pub open spec fn spec_roll_factor_fits(n: nat, d: nat) -> bool {
    &&& n * n <= u128::MAX
    &&& d * d <= u128::MAX
    &&& 25 * (d * d) <= u128::MAX
    &&& 3 * (n * n) <= u128::MAX
    &&& 25 * (d * d) + 3 * (n * n) <= u128::MAX
}

proof fn lemma_reduce_facts(n: nat, d: nat)
    requires
        d > 0,
    ensures
        spec_reduce(n, d).1 > 0,
        spec_reduce(n, d).0 * d == n * spec_reduce(n, d).1,
        spec_reduce(n, d).0 <= n,
        spec_reduce(n, d).1 <= d,
{
    if n != 0 {
        lemma_gcd_positive(n, d);
        let g = spec_gcd(n, d);
        let (kn, kd) = lemma_gcd_divides(n, d);
        assert(kn == n / g && kd == d / g) by (nonlinear_arith)
            requires n == kn * g, d == kd * g, g > 0;
        assert(kn * d == n * kd) by (nonlinear_arith)
            requires n == kn * g, d == kd * g;
        assert(kd > 0 && kn <= n && kd <= d) by (nonlinear_arith)
            requires n == kn * g, d == kd * g, g > 0, d > 0;
        assert(spec_reduce(n, d).0 == kn);
        assert(spec_reduce(n, d).1 == kd);
        assert(spec_reduce(n, d).0 * d == n * spec_reduce(n, d).1);
    } else {
        assert(spec_reduce(n, d) == (0nat, 1nat));
        assert(0 * d == 0) by (nonlinear_arith);
        assert(n * 1 == 0) by (nonlinear_arith) requires n == 0;
    }
}

/// Reduces `numerator / denominator` to lowest terms.
pub fn reduce_fraction(numerator: u128, denominator: u128) -> (r: (u128, u128))
    requires
        denominator > 0,
    ensures
        (r.0 as nat, r.1 as nat) == spec_reduce(numerator as nat, denominator as nat),
        r.1 > 0,
        r.0 * denominator == numerator * r.1,
{
    proof {
        lemma_reduce_facts(numerator as nat, denominator as nat);
    }
    if numerator == 0 {
        return (0, 1);
    }
    let divisor = gcd_u128(numerator, denominator);
    proof {
        lemma_gcd_positive(numerator as nat, denominator as nat);
    }
    (numerator / divisor, denominator / divisor)
}

/// The exact roll factor `1 + 3q^2/25` of a creation roll, reduced to lowest terms.
pub fn creation_roll_factor(creation_roll: CreationRoll) -> (r: Result<
    (u128, u128),
    CanonicalEquipmentAppraisalError,
>)
    ensures
        !spec_roll_factor_fits(creation_roll.num(), creation_roll.den()) ==> r == Err::<
            (u128, u128),
            CanonicalEquipmentAppraisalError,
        >(CanonicalEquipmentAppraisalError::ArithmeticOverflow),
        spec_roll_factor_fits(creation_roll.num(), creation_roll.den()) ==> (r matches Ok(f) && {
            let u = spec_roll_factor_unreduced(creation_roll.num(), creation_roll.den());
            &&& (f.0 as nat, f.1 as nat) == spec_reduce(u.0, u.1)
            &&& f.1 > 0
            &&& f.0 * u.1 == u.0 * f.1
        }),
{
    let numerator = creation_roll.numerator() as u128;
    let denominator = creation_roll.denominator() as u128;
    let numerator_squared = match numerator.checked_mul(numerator) {
        Some(v) => v,
        None => return Err(CanonicalEquipmentAppraisalError::ArithmeticOverflow),
    };
    let denominator_squared = match denominator.checked_mul(denominator) {
        Some(v) => v,
        None => return Err(CanonicalEquipmentAppraisalError::ArithmeticOverflow),
    };
    let base = match denominator_squared.checked_mul(ROLL_FACTOR_BASE_DENOMINATOR) {
        Some(v) => v,
        None => return Err(CanonicalEquipmentAppraisalError::ArithmeticOverflow),
    };
    let quadratic = match numerator_squared.checked_mul(ROLL_FACTOR_QUADRATIC_NUMERATOR) {
        Some(v) => v,
        None => return Err(CanonicalEquipmentAppraisalError::ArithmeticOverflow),
    };
    let roll_numerator = match base.checked_add(quadratic) {
        Some(v) => v,
        None => return Err(CanonicalEquipmentAppraisalError::ArithmeticOverflow),
    };
    proof {
        assert(base > 0) by (nonlinear_arith)
            requires base == denominator_squared * 25, denominator_squared == denominator * denominator,
                denominator > 0;
    }
    Ok(reduce_fraction(roll_numerator, base))
}

/// The algorithm's product of two fractions: each factor reduced, then cross-reduced, then
/// multiplied (if that fits) and reduced. `None` when a product overflows `u128`.
pub open spec fn spec_multiply(ln: nat, ld: nat, rn: nat, rd: nat) -> Option<(nat, nat)> {
    let l = spec_reduce(ln, ld);
    let r = spec_reduce(rn, rd);
    let cl = spec_gcd(l.0, r.1);
    let cr = spec_gcd(r.0, l.1);
    let a = l.0 / cl;
    let d2 = r.1 / cl;
    let b = r.0 / cr;
    let d1 = l.1 / cr;
    if a * b > u128::MAX || d1 * d2 > u128::MAX {
        None
    } else {
        Some(spec_reduce(a * b, d1 * d2))
    }
}

/// Multiplies two fractions exactly, keeping intermediate values small by cross-reduction.
pub fn multiply_fractions(
    left_numerator: u128,
    left_denominator: u128,
    right_numerator: u128,
    right_denominator: u128,
) -> (r: Result<(u128, u128), CanonicalEquipmentAppraisalError>)
    requires
        left_denominator > 0,
        right_denominator > 0,
    ensures
        match spec_multiply(
            left_numerator as nat,
            left_denominator as nat,
            right_numerator as nat,
            right_denominator as nat,
        ) {
            None => r == Err::<(u128, u128), CanonicalEquipmentAppraisalError>(
                CanonicalEquipmentAppraisalError::ArithmeticOverflow,
            ),
            Some(p) => r matches Ok(f) && (f.0 as nat, f.1 as nat) == p,
        },
        r matches Ok(f) ==> f.1 > 0 && f.0 * (left_denominator * right_denominator) == (
        left_numerator * right_numerator) * f.1,
{
    let (mut left_numerator2, mut left_denominator2) = reduce_fraction(
        left_numerator,
        left_denominator,
    );
    let (mut right_numerator2, mut right_denominator2) = reduce_fraction(
        right_numerator,
        right_denominator,
    );
    let ghost (ln, ld, rn, rd) = (
        left_numerator2 as nat,
        left_denominator2 as nat,
        right_numerator2 as nat,
        right_denominator2 as nat,
    );
    let cross_left = gcd_u128(left_numerator2, right_denominator2);
    proof {
        lemma_gcd_positive(ln, rd);
    }
    let ghost (ka, kd2) = lemma_gcd_divides(ln, rd);
    left_numerator2 = left_numerator2 / cross_left;
    right_denominator2 = right_denominator2 / cross_left;
    let cross_right = gcd_u128(right_numerator2, left_denominator2);
    proof {
        lemma_gcd_positive(rn, ld);
    }
    let ghost (kb, kd1) = lemma_gcd_divides(rn, ld);
    right_numerator2 = right_numerator2 / cross_right;
    left_denominator2 = left_denominator2 / cross_right;
    proof {
        let cl = cross_left as nat;
        let cr = cross_right as nat;
        assert(ka == left_numerator2 && kd2 == right_denominator2) by (nonlinear_arith)
            requires ln == ka * cl, rd == kd2 * cl, cl > 0, left_numerator2 == ln / cl,
                right_denominator2 == rd / cl;
        assert(kb == right_numerator2 && kd1 == left_denominator2) by (nonlinear_arith)
            requires rn == kb * cr, ld == kd1 * cr, cr > 0, right_numerator2 == rn / cr,
                left_denominator2 == ld / cr;
        assert(left_denominator2 > 0 && right_denominator2 > 0) by (nonlinear_arith)
            requires ld == kd1 * cr, rd == kd2 * cl, ld > 0, rd > 0, kd1 == left_denominator2,
                kd2 == right_denominator2;
    }
    let numerator = match left_numerator2.checked_mul(right_numerator2) {
        Some(v) => v,
        None => return Err(CanonicalEquipmentAppraisalError::ArithmeticOverflow),
    };
    let denominator = match left_denominator2.checked_mul(right_denominator2) {
        Some(v) => v,
        None => return Err(CanonicalEquipmentAppraisalError::ArithmeticOverflow),
    };
    proof {
        assert(denominator > 0) by (nonlinear_arith)
            requires denominator == left_denominator2 * right_denominator2, left_denominator2 > 0,
                right_denominator2 > 0;
    }
    let result = reduce_fraction(numerator, denominator);
    proof {
        let cl = cross_left as nat;
        let cr = cross_right as nat;
        let a = left_numerator2 as nat;
        let b = right_numerator2 as nat;
        let d1 = left_denominator2 as nat;
        let d2 = right_denominator2 as nat;
        // value preservation through each step
        assert(a * b * (ld * rd) == (ln * rn) * (d1 * d2)) by (nonlinear_arith)
            requires ln == a * cl, rd == d2 * cl, rn == b * cr, ld == d1 * cr;
        let f0 = result.0 as nat;
        let f1 = result.1 as nat;
        let lnn = left_numerator as nat;
        let ldd = left_denominator as nat;
        let rnn = right_numerator as nat;
        let rdd = right_denominator as nat;
        assert(ln * ldd == lnn * ld);
        assert(rn * rdd == rnn * rd);
        assert(f0 * (d1 * d2) == (a * b) * f1);
        let x = (ld * rd) * (d1 * d2);
        let p1 = f0 * (ldd * rdd);
        let p2 = (lnn * rnn) * f1;
        assert(p1 * x == (a * b) * f1 * (ldd * rdd) * (ld * rd)) by (nonlinear_arith)
            requires f0 * (d1 * d2) == (a * b) * f1, x == (ld * rd) * (d1 * d2), p1 == f0 * (ldd
                * rdd);
        assert((a * b) * f1 * (ldd * rdd) * (ld * rd) == (ln * rn) * (d1 * d2) * f1 * (ldd * rdd))
            by (nonlinear_arith)
            requires a * b * (ld * rd) == (ln * rn) * (d1 * d2);
        assert((ln * rn) * (d1 * d2) * f1 * (ldd * rdd) == (ln * ldd) * (rn * rdd) * (d1 * d2) * f1)
            by (nonlinear_arith);
        assert((ln * ldd) * (rn * rdd) * (d1 * d2) * f1 == (lnn * ld) * (rnn * rd) * (d1 * d2) * f1)
            by (nonlinear_arith)
            requires ln * ldd == lnn * ld, rn * rdd == rnn * rd;
        assert((lnn * ld) * (rnn * rd) * (d1 * d2) * f1 == p2 * x) by (nonlinear_arith)
            requires p2 == (lnn * rnn) * f1, x == (ld * rd) * (d1 * d2);
        assert(x > 0) by (nonlinear_arith)
            requires ld > 0, rd > 0, d1 * d2 > 0, x == (ld * rd) * (d1 * d2);
        assert(p1 == p2) by (nonlinear_arith)
            requires p1 * x == p2 * x, x > 0;
    }
    Ok(result)
}

/// Rounds `numerator / denominator` half up and narrows it to `i64`.
pub fn round_half_up_fraction(numerator: u128, denominator: u128) -> (r: Result<
    i64,
    CanonicalEquipmentAppraisalError,
>)
    requires
        denominator > 0,
    ensures
        spec_round_half_up(numerator as nat, denominator as nat) <= i64::MAX ==> r == Ok::<
            i64,
            CanonicalEquipmentAppraisalError,
        >(spec_round_half_up(numerator as nat, denominator as nat) as i64),
        spec_round_half_up(numerator as nat, denominator as nat) > i64::MAX ==> r == Err::<
            i64,
            CanonicalEquipmentAppraisalError,
        >(CanonicalEquipmentAppraisalError::ArithmeticOverflow),
{
    let quotient = numerator / denominator;
    let remainder = numerator % denominator;
    let half_threshold = denominator / 2 + denominator % 2;
    let bump: u128 = if remainder >= half_threshold {
        1
    } else {
        0
    };
    proof {
        let n = numerator as int;
        let d = denominator as int;
        let q = quotient as int;
        let rem = remainder as int;
        vstd::arithmetic::div_mod::lemma_fundamental_div_mod(n, d);
        assert(n == q * d + rem);
        assert((remainder >= half_threshold) == (2 * rem >= d));
        let r2 = if bump == 1 {
            2 * rem - d
        } else {
            2 * rem + d
        };
        assert(2 * n + d == (q + bump) * (2 * d) + r2) by (nonlinear_arith)
            requires n == q * d + rem, bump == 0 || bump == 1, r2 == (if bump == 1 {
                2 * rem - d
            } else {
                2 * rem + d
            });
        assert(0 <= r2 < 2 * d);
        vstd::arithmetic::div_mod::lemma_fundamental_div_mod_converse(2 * n + d, 2 * d, q + bump, r2);
        assert(q <= n) by (nonlinear_arith)
            requires n == q * d + rem, d >= 1, rem >= 0, q >= 0;
    }
    let rounded = match quotient.checked_add(bump) {
        Some(v) => v,
        None => return Err(CanonicalEquipmentAppraisalError::ArithmeticOverflow),
    };
    if rounded <= i64::MAX as u128 {
        Ok(rounded as i64)
    } else {
        Err(CanonicalEquipmentAppraisalError::ArithmeticOverflow)
    }
}

/// The recraft appraisal: exact upgrade-scaled base times roll factor, rounded half up once.
pub open spec fn spec_recraft(
    scaled: UpgradeScaledBaseAppraisal,
    roll: CreationRoll,
) -> Option<int> {
    let u = spec_roll_factor_unreduced(roll.num(), roll.den());
    let f = spec_reduce(u.0, u.1);
    match spec_multiply(scaled.num(), scaled.den(), f.0, f.1) {
        None => None,
        Some(p) => Some(spec_round_half_up(p.0, p.1)),
    }
}

/// Rounding half up is monotone: a larger fraction never rounds lower.
proof fn lemma_round_half_up_monotone(n: nat, d: nat, m: nat, e: nat)
    requires
        d > 0,
        e > 0,
        m * d >= n * e,
    ensures
        spec_round_half_up(m, e) >= spec_round_half_up(n, d),
{
    let a = 2 * m + e;
    let b = 2 * e;
    let c = 2 * n + d;
    let f = 2 * d;
    assert(a * f >= c * b) by (nonlinear_arith)
        requires
            m * d >= n * e,
            a == 2 * m + e,
            b == 2 * e,
            c == 2 * n + d,
            f == 2 * d,
    ;
    let q = c / f;
    assert(q * f <= c) by (nonlinear_arith)
        requires
            q == c / f,
            f > 0,
    ;
    assert(q * b <= a) by (nonlinear_arith)
        requires
            q * f <= c,
            a * f >= c * b,
            f > 0,
            b > 0,
    ;
    assert(q <= a / b) by (nonlinear_arith)
        requires
            q * b <= a,
            b > 0,
    ;
}

/// The roll factor is at least one, so the structural product `scaled x factor` is at least the
/// scaled value, and rounds at least as high.
proof fn lemma_roll_never_lowers_structural_value(
    roll: CreationRoll,
    sn: nat,
    sd: nat,
    f0: nat,
    f1: nat,
    p0: nat,
    p1: nat,
)
    requires
        roll.den() > 0,
        sd > 0,
        (f0, f1) == spec_reduce(
            spec_roll_factor_unreduced(roll.num(), roll.den()).0,
            spec_roll_factor_unreduced(roll.num(), roll.den()).1,
        ),
        p1 > 0,
        p0 * (sd * f1) == (sn * f0) * p1,
    ensures
        spec_round_half_up(p0, p1) >= spec_round_half_up(sn, sd),
{
    let n = roll.num();
    let d = roll.den();
    let u = spec_roll_factor_unreduced(n, d);
    assert(u.1 > 0 && u.0 >= u.1) by (nonlinear_arith)
        requires
            d > 0,
            u.0 == 25 * (d * d) + 3 * (n * n),
            u.1 == 25 * (d * d),
    ;
    lemma_reduce_facts(u.0, u.1);
    assert(f0 >= f1) by (nonlinear_arith)
        requires
            f0 * u.1 == u.0 * f1,
            u.0 >= u.1,
            u.1 > 0,
    ;
    assert(p0 * sd >= sn * p1) by (nonlinear_arith)
        requires
            p0 * (sd * f1) == (sn * f0) * p1,
            f0 >= f1,
            f1 > 0,
    ;
    lemma_round_half_up_monotone(sn, sd, p0, p1);
}

/// The enhanced appraisal as the exact structural value plus the embedded enchant value, rounded
/// half up once.
pub open spec fn spec_enhanced(
    scaled: UpgradeScaledBaseAppraisal,
    roll: CreationRoll,
    embedded_enchant_value: int,
) -> Option<int> {
    let u = spec_roll_factor_unreduced(roll.num(), roll.den());
    let f = spec_reduce(u.0, u.1);
    match spec_multiply(scaled.num(), scaled.den(), f.0, f.1) {
        None => None,
        Some(p) => Some(spec_round_half_up((p.0 + embedded_enchant_value * p.1) as nat, p.1)),
    }
}

/// Adding a whole number before rounding half up is adding it after: rounding the sum of an exact
/// fraction and an integer gives the rounded fraction plus that integer.
pub proof fn lemma_round_half_up_plus_integer(n: nat, d: nat, e: nat)
    requires
        d > 0,
    ensures
        spec_round_half_up((n + e * d) as nat, d) == spec_round_half_up(n, d) + e,
{
    assert(2 * (n + e * d) + d == (2 * n + d) + e * (2 * d)) by (nonlinear_arith);
    vstd::arithmetic::div_mod::lemma_hoist_over_denominator((2 * n + d) as int, e as int, (2 * d) as nat);
}

/// Composes the frozen structural and enhanced equipment appraisals from already-resolved inputs.
///
/// `upgrade_scaled` is the base appraisal already scaled by its exact upgrade factor. The
/// structural value `upgrade_scaled x RollFactor(q)` is rounded half up once to give the recraft
/// appraisal; the enhanced appraisal adds the (integer) embedded enchant value, which is the same
/// as rounding the exact structural value plus the embedded enchant value half up once.
pub fn compose_canonical_equipment_appraisal(
    base: BaseEquipmentAppraisal,
    creation_roll: CreationRoll,
    upgrade_level: u64,
    upgrade_scaled: UpgradeScaledBaseAppraisal,
    embedded_enchant_value: i64,
) -> (r: Result<CanonicalEquipmentAppraisal, CanonicalEquipmentAppraisalError>)
    ensures
        base.value < 0 ==> r == Err::<CanonicalEquipmentAppraisal, CanonicalEquipmentAppraisalError>(
            CanonicalEquipmentAppraisalError::NegativeBaseAppraisal,
        ),
        base.value >= 0 && embedded_enchant_value < 0 ==> r == Err::<
            CanonicalEquipmentAppraisal,
            CanonicalEquipmentAppraisalError,
        >(CanonicalEquipmentAppraisalError::NegativeEmbeddedEnchantValue),
        base.value >= 0 && embedded_enchant_value >= 0 ==> (r is Ok <==> (spec_roll_factor_fits(
            creation_roll.num(),
            creation_roll.den(),
        ) && spec_recraft(upgrade_scaled, creation_roll) is Some && spec_recraft(
            upgrade_scaled,
            creation_roll,
        )->Some_0 + embedded_enchant_value <= i64::MAX)),
        r matches Ok(a) ==> {
            &&& a.base == base
            &&& a.creation_roll == creation_roll
            &&& a.upgrade_level == upgrade_level
            &&& a.embedded_enchant_value == embedded_enchant_value
            &&& Some(a.recraft_appraisal as int) == spec_recraft(upgrade_scaled, creation_roll)
            &&& a.enhanced_canonical_appraisal == a.recraft_appraisal + embedded_enchant_value
            &&& Some(a.enhanced_canonical_appraisal as int) == spec_enhanced(
                upgrade_scaled,
                creation_roll,
                embedded_enchant_value as int,
            )
            &&& a.recraft_appraisal >= spec_round_half_up(upgrade_scaled.num(), upgrade_scaled.den())
        },
{
    if base.value < 0 {
        return Err(CanonicalEquipmentAppraisalError::NegativeBaseAppraisal);
    }
    if embedded_enchant_value < 0 {
        return Err(CanonicalEquipmentAppraisalError::NegativeEmbeddedEnchantValue);
    }
    let (roll_numerator, roll_denominator) = creation_roll_factor(creation_roll)?;
    let (structural_numerator, structural_denominator) = multiply_fractions(
        upgrade_scaled.numerator(),
        upgrade_scaled.denominator(),
        roll_numerator,
        roll_denominator,
    )?;
    proof {
        use_type_invariant(&creation_roll);
        use_type_invariant(&upgrade_scaled);
        lemma_roll_never_lowers_structural_value(
            creation_roll,
            upgrade_scaled.num(),
            upgrade_scaled.den(),
            roll_numerator as nat,
            roll_denominator as nat,
            structural_numerator as nat,
            structural_denominator as nat,
        );
    }
    let recraft_appraisal = round_half_up_fraction(structural_numerator, structural_denominator)?;
    proof {
        lemma_round_half_up_plus_integer(
            structural_numerator as nat,
            structural_denominator as nat,
            embedded_enchant_value as nat,
        );
    }
    let enhanced_canonical_appraisal = match recraft_appraisal.checked_add(embedded_enchant_value) {
        Some(v) => v,
        None => return Err(CanonicalEquipmentAppraisalError::ArithmeticOverflow),
    };
    Ok(
        CanonicalEquipmentAppraisal {
            base,
            creation_roll,
            upgrade_level,
            embedded_enchant_value,
            recraft_appraisal,
            enhanced_canonical_appraisal,
        },
    )
}

fn gcd_u64(left: u64, right: u64) -> (r: u64)
    ensures
        r == spec_gcd(left as nat, right as nat),
{
    let mut l = left;
    let mut rr = right;
    while rr != 0
        invariant
            spec_gcd(l as nat, rr as nat) == spec_gcd(left as nat, right as nat),
        decreases rr,
    {
        let remainder = l % rr;
        l = rr;
        rr = remainder;
    }
    l
}

fn gcd_u128(left: u128, right: u128) -> (r: u128)
    ensures
        r == spec_gcd(left as nat, right as nat),
{
    let mut l = left;
    let mut rr = right;
    while rr != 0
        invariant
            spec_gcd(l as nat, rr as nat) == spec_gcd(left as nat, right as nat),
        decreases rr,
    {
        let remainder = l % rr;
        l = rr;
        rr = remainder;
    }
    l
}

} // verus!
