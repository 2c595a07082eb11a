//! Shared action-speed bonus cap and exact rational bonus values.
use vstd::prelude::*;

verus! {

/// Frozen base cooldown for a repeatable manual reward action, in milliseconds.
pub const BASE_REPEATABLE_MANUAL_REWARD_ACTION_COOLDOWN_MILLIS: u32 = 10_000;

/// Frozen minimum cooldown for manual Mine/Fish after speed modifiers, in milliseconds.
pub const MIN_MINE_FISH_COOLDOWN_MILLIS: u32 = 7_500;

/// Exact numerator of the frozen +33.33% shared action-speed bonus cap.
pub const MAX_SHARED_ACTION_SPEED_BONUS_NUMERATOR: u64 = 3_333;

/// Exact denominator of the frozen +33.33% shared action-speed bonus cap.
pub const MAX_SHARED_ACTION_SPEED_BONUS_DENOMINATOR: u64 = 10_000;

/// Greatest common divisor by the Euclidean recurrence.
pub open spec fn spec_gcd(a: nat, b: nat) -> nat
    decreases b,
{
    if b == 0 {
        a
    } else {
        spec_gcd(b, a % b)
    }
}

/// The gcd of anything with a positive number is positive.
pub proof fn lemma_gcd_positive(a: nat, b: nat)
    requires
        b > 0,
    ensures
        spec_gcd(a, b) > 0,
        spec_gcd(a, b) <= b,
    decreases b,
{
    if a % b != 0 {
        lemma_gcd_positive(b, a % b);
    } else {
        assert(spec_gcd(b, 0) == b);
    }
}

/// The gcd divides both arguments: returns the two cofactors.
pub proof fn lemma_gcd_divides(a: nat, b: nat) -> (k: (nat, nat))
    ensures
        a == k.0 * spec_gcd(a, b),
        b == k.1 * spec_gcd(a, b),
    decreases b,
{
    if b == 0 {
        (1, 0)
    } else {
        let g = spec_gcd(a, b);
        let (k1, k2) = lemma_gcd_divides(b, a % b);
        assert(g == spec_gcd(b, a % b));
        vstd::arithmetic::div_mod::lemma_fundamental_div_mod(a as int, b as int);
        let q = a / b;
        assert(a == q * b + a % b);
        assert(a == (q * k1 + k2) * g) by (nonlinear_arith)
            requires a == q * b + a % b, b == k1 * g, a % b == k2 * g;
        assert(q * k1 + k2 >= 0) by (nonlinear_arith)
            requires q >= 0, k1 >= 0, k2 >= 0;
        ((q * k1 + k2) as nat, k1)
    }
}

#[derive(Clone, Copy, Debug, PartialEq, Eq, Structural)]
pub struct ActionSpeedBonus {
    numerator: u64,
    denominator: u64,
}

impl ActionSpeedBonus {
    /// The stored numerator.
    pub closed spec fn num(self) -> nat {
        self.numerator as nat
    }

    /// The stored denominator.
    pub closed spec fn den(self) -> nat {
        self.denominator as nat
    }

    /// Creates an exact non-negative action-speed bonus ratio reduced to canonical form.
    pub fn new(numerator: u64, denominator: u64) -> (r: Result<Self, ActionSpeedPolicyError>)
        ensures
            denominator == 0 <==> r is Err,
            r matches Err(e) ==> e == ActionSpeedPolicyError::ZeroDenominator,
            r matches Ok(b) ==> {
                &&& b.num() == (numerator as nat) / spec_gcd(numerator as nat, denominator as nat)
                &&& b.den() == (denominator as nat) / spec_gcd(numerator as nat, denominator as nat)
                &&& b.den() > 0
            },
    {
        if denominator == 0 {
            return Err(ActionSpeedPolicyError::ZeroDenominator);
        }
        if numerator == 0 {
            proof {
                assert(spec_gcd(0, denominator as nat) == spec_gcd(denominator as nat, 0));
                assert((denominator as nat) / (denominator as nat) == 1) by (nonlinear_arith)
                    requires denominator > 0;
            }
            return Ok(Self { numerator: 0, denominator: 1 });
        }
        let divisor = gcd(numerator, denominator);
        proof {
            lemma_gcd_positive(numerator as nat, denominator as nat);
            assert(denominator / divisor > 0) by (nonlinear_arith)
                requires divisor > 0, divisor <= denominator, denominator > 0;
        }
        Ok(Self { numerator: numerator / divisor, denominator: denominator / divisor })
    }

    pub fn numerator(self) -> (r: u64)
        ensures
            r == self.num(),
    {
        self.numerator
    }

    pub fn denominator(self) -> (r: u64)
        ensures
            r == self.den(),
    {
        self.denominator
    }
}

#[derive(Clone, Copy, Debug, PartialEq, Eq, Structural)]
pub struct SharedActionSpeedBonusPolicy {
    pub uncapped_bonus: ActionSpeedBonus,
    pub applied_bonus: ActionSpeedBonus,
    pub cap_applied: bool,
}

#[derive(Clone, Copy, Debug, PartialEq, Eq, Structural)]
pub enum ActionSpeedPolicyError {
    ZeroDenominator,
}

/// `left > right` as exact rationals (cross multiplication).
pub open spec fn spec_ratio_greater(left: ActionSpeedBonus, right: ActionSpeedBonus) -> bool {
    left.num() * right.den() > right.num() * left.den()
}

/// Returns the exact frozen maximum shared action-speed bonus: +33.33% = 3,333 / 10,000.
pub fn max_shared_action_speed_bonus() -> (r: ActionSpeedBonus)
    ensures
        r.num() == MAX_SHARED_ACTION_SPEED_BONUS_NUMERATOR,
        r.den() == MAX_SHARED_ACTION_SPEED_BONUS_DENOMINATOR,
{
    ActionSpeedBonus {
        numerator: MAX_SHARED_ACTION_SPEED_BONUS_NUMERATOR,
        denominator: MAX_SHARED_ACTION_SPEED_BONUS_DENOMINATOR,
    }
}

/// Applies the canonical shared action-speed cap to an already-resolved exact bucket total.
///
/// The cap is applied exactly when the bucket total is strictly greater than 3333/10000; the
/// capped rating is then the cap itself, otherwise the total unchanged.
pub fn cap_shared_action_speed_bonus(uncapped_bonus: ActionSpeedBonus) -> (r:
    SharedActionSpeedBonusPolicy)
    ensures
        r.uncapped_bonus == uncapped_bonus,
        r.cap_applied == (uncapped_bonus.num() * MAX_SHARED_ACTION_SPEED_BONUS_DENOMINATOR
            > MAX_SHARED_ACTION_SPEED_BONUS_NUMERATOR * uncapped_bonus.den()),
        r.cap_applied ==> r.applied_bonus.num() == MAX_SHARED_ACTION_SPEED_BONUS_NUMERATOR
            && r.applied_bonus.den() == MAX_SHARED_ACTION_SPEED_BONUS_DENOMINATOR,
        !r.cap_applied ==> r.applied_bonus == uncapped_bonus,
{
    let cap = max_shared_action_speed_bonus();
    let cap_applied = ratio_greater_than(uncapped_bonus, cap);
    let applied_bonus = if cap_applied {
        cap
    } else {
        uncapped_bonus
    };
    SharedActionSpeedBonusPolicy { uncapped_bonus, applied_bonus, cap_applied }
}

fn ratio_greater_than(left: ActionSpeedBonus, right: ActionSpeedBonus) -> (r: bool)
    ensures
        r == spec_ratio_greater(left, right),
{
    let a = left.numerator as u128;
    let b = right.denominator as u128;
    let c = right.numerator as u128;
    let d = left.denominator as u128;
    proof {
        assert(a * b <= u64::MAX * u64::MAX) by (nonlinear_arith)
            requires a <= u64::MAX, b <= u64::MAX;
        assert(c * d <= u64::MAX * u64::MAX) by (nonlinear_arith)
            requires c <= u64::MAX, d <= u64::MAX;
    }
    a * b > c * d
}

fn gcd(left: u64, right: u64) -> (r: u64)
    ensures
        r == spec_gcd(left as nat, right as nat),
{
    let mut l = left;
    let mut rr = right;
    while rr != 0
        invariant
            spec_gcd(l as nat, rr as nat) == spec_gcd(left as nat, right as nat),
        decreases rr,
    {
        let remainder = l % rr;
        l = rr;
        rr = remainder;
    }
    l
}

} // verus!
