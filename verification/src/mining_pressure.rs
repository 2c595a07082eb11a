//! Exact Mining disturbance accounting in quarter pressure units.
use vstd::prelude::*;

use crate::action_speed::{lemma_gcd_positive, spec_gcd};
use crate::fishing_capability::gcd_u128;
use crate::mining_depth::{mining_depth_risk_policy, spec_depth_risk_row, MiningDepth};

verus! {

/// Exact denominator used for Mining disturbance accounting: pressure is counted in quarters.
pub const MINING_PRESSURE_QUARTERS_PER_UNIT: u128 = 4;

/// Canonical appraisal represented by one whole pressure unit of a non-physical output.
pub const MINING_PRESSURE_APPRAISAL_PER_UNIT: i64 = 1_000;

/// Maximum whole pressure units charged for one additional non-physical output.
pub const MINING_PRESSURE_MAX_NON_PHYSICAL_OUTPUT_UNITS: i64 = 25;

#[derive(Clone, Copy, Debug, PartialEq, Eq, Structural)]
pub struct MiningPressureContribution {
    quarter_units: u128,
}

#[derive(Clone, Copy, Debug, PartialEq, Eq, Structural)]
pub enum MiningPressurePolicyError {
    NegativeCanonicalAppraisal,
    ArithmeticOverflow,
}

impl MiningPressureContribution {
    /// The contribution in quarter pressure units.
    pub closed spec fn quarters(self) -> nat {
        self.quarter_units as nat
    }

    /// The empty contribution.
    pub fn zero() -> (r: Self)
        ensures
            r.quarters() == 0,
    {
        Self { quarter_units: 0 }
    }

    pub fn quarter_units(self) -> (r: u128)
        ensures
            r == self.quarters(),
    {
        self.quarter_units
    }

    /// Returns the fixed denominator of [`Self::quarter_units`].
    pub fn pressure_unit_denominator(self) -> (r: u128)
        ensures
            r == MINING_PRESSURE_QUARTERS_PER_UNIT,
    {
        MINING_PRESSURE_QUARTERS_PER_UNIT
    }

    /// Adds two contributions exactly, failing closed when the sum leaves `u128`.
    pub fn checked_add(self, other: Self) -> (r: Result<Self, MiningPressurePolicyError>)
        ensures
            self.quarters() + other.quarters() > u128::MAX ==> r == Err::<
                Self,
                MiningPressurePolicyError,
            >(MiningPressurePolicyError::ArithmeticOverflow),
            self.quarters() + other.quarters() <= u128::MAX ==> (r matches Ok(sum)
                && sum.quarters() == self.quarters() + other.quarters()),
    {
        match self.quarter_units.checked_add(other.quarter_units) {
            Some(quarter_units) => Ok(Self { quarter_units }),
            None => Err(MiningPressurePolicyError::ArithmeticOverflow),
        }
    }

    /// A contribution of exactly `quarter_units` quarter pressure units.
    pub fn from_quarter_units(quarter_units: u128) -> (r: Self)
        ensures
            r.quarters() == quarter_units,
    {
        Self { quarter_units }
    }
}

#[derive(Clone, Copy, Debug, PartialEq, Eq, Structural)]
pub struct MiningPressureIncrementRatio {
    numerator: u128,
    denominator: u128,
}

impl MiningPressureIncrementRatio {
    /// The stored numerator.
    pub closed spec fn num(self) -> nat {
        self.numerator as nat
    }

    /// The stored denominator.
    pub closed spec fn den(self) -> nat {
        self.denominator as nat
    }

    pub fn numerator(self) -> (r: u128)
        ensures
            r == self.num(),
    {
        self.numerator
    }

    pub fn denominator(self) -> (r: u128)
        ensures
            r == self.den(),
    {
        self.denominator
    }
}

fn whole_block_pressure_contribution(blocks: u64) -> (r: MiningPressureContribution)
    ensures
        r.quarters() == 4 * blocks,
{
    MiningPressureContribution::from_quarter_units((blocks as u128) * MINING_PRESSURE_QUARTERS_PER_UNIT)
}

/// The frozen `1.00` pressure unit for each actual physical block disturbed.
pub fn physical_block_pressure_contribution(actual_physical_blocks: u64) -> (r:
    MiningPressureContribution)
    ensures
        r.quarters() == 4 * actual_physical_blocks,
{
    whole_block_pressure_contribution(actual_physical_blocks)
}

/// The frozen `0.25` pressure unit for each Fortune-created extra material unit.
pub fn fortune_extra_material_pressure_contribution(extra_material_units: u64) -> (r:
    MiningPressureContribution)
    ensures
        r.quarters() == extra_material_units,
{
    MiningPressureContribution::from_quarter_units(extra_material_units as u128)
}

/// The frozen `1.00` pressure unit for each Trench extra block.
pub fn trench_extra_block_pressure_contribution(extra_blocks: u64) -> (r: MiningPressureContribution)
    ensures
        r.quarters() == 4 * extra_blocks,
{
    whole_block_pressure_contribution(extra_blocks)
}

/// The frozen Nuke contribution: one pressure unit per actual blast block.
pub fn nuke_blast_block_pressure_contribution(actual_blast_blocks: u64) -> (r:
    MiningPressureContribution)
    ensures
        r.quarters() == 4 * actual_blast_blocks,
{
    whole_block_pressure_contribution(actual_blast_blocks)
}

/// Whole pressure units charged for a non-physical output of a non-negative appraisal:
/// `min(25, max(1, ceil(appraisal / 1000)))`.
pub open spec fn spec_non_physical_output_units(appraisal: int) -> int {
    let rounded_up = if appraisal % 1000 == 0 {
        appraisal / 1000
    } else {
        appraisal / 1000 + 1
    };
    if rounded_up < 1 {
        1
    } else if rounded_up > 25 {
        25
    } else {
        rounded_up
    }
}

/// The frozen value-based pressure charge for an additional non-physical Treasure/mutation
/// output; `None` (no such output) contributes nothing.
pub fn additional_non_physical_output_pressure_contribution(canonical_appraisal: Option<i64>) -> (r:
    Result<MiningPressureContribution, MiningPressurePolicyError>)
    ensures
        canonical_appraisal is None ==> (r matches Ok(c) && c.quarters() == 0),
        canonical_appraisal matches Some(a) && a < 0 ==> r == Err::<
            MiningPressureContribution,
            MiningPressurePolicyError,
        >(MiningPressurePolicyError::NegativeCanonicalAppraisal),
        canonical_appraisal matches Some(a) ==> (a >= 0 ==> (r matches Ok(c) && c.quarters() == 4
            * spec_non_physical_output_units(a as int))),
        r matches Ok(c) ==> c.quarters() <= 100,
{
    let appraisal = match canonical_appraisal {
        None => {
            return Ok(MiningPressureContribution::zero());
        },
        Some(a) => a,
    };
    if appraisal < 0 {
        return Err(MiningPressurePolicyError::NegativeCanonicalAppraisal);
    }
    let quotient = appraisal / MINING_PRESSURE_APPRAISAL_PER_UNIT;
    let remainder = appraisal % MINING_PRESSURE_APPRAISAL_PER_UNIT;
    let rounded_up = quotient + if remainder == 0 {
        0
    } else {
        1
    };
    let whole_units = if rounded_up < 1 {
        1
    } else if rounded_up > MINING_PRESSURE_MAX_NON_PHYSICAL_OUTPUT_UNITS {
        MINING_PRESSURE_MAX_NON_PHYSICAL_OUTPUT_UNITS
    } else {
        rounded_up
    };
    Ok(MiningPressureContribution::from_quarter_units((whole_units as u128) * MINING_PRESSURE_QUARTERS_PER_UNIT))
}

/// Returns the exact disturbance term `pressure_units / SeamCapacity(depth)` as a reduced
/// rational; a zero contribution is `0/1`.
pub fn mining_pressure_increment_ratio(
    depth: MiningDepth,
    contribution: MiningPressureContribution,
) -> (r: MiningPressureIncrementRatio)
    ensures
        contribution.quarters() == 0 ==> r.num() == 0 && r.den() == 1,
        contribution.quarters() > 0 ==> {
            let n = contribution.quarters();
            let d = (4 * spec_depth_risk_row(depth).6) as nat;
            &&& r.num() == n / spec_gcd(n, d)
            &&& r.den() == d / spec_gcd(n, d)
        },
{
    if contribution.quarter_units == 0 {
        return MiningPressureIncrementRatio { numerator: 0, denominator: 1 };
    }
    let seam_capacity = mining_depth_risk_policy(depth).seam_capacity as u128;
    let denominator = MINING_PRESSURE_QUARTERS_PER_UNIT * seam_capacity;
    let divisor = gcd_u128(contribution.quarter_units, denominator);
    proof {
        lemma_gcd_positive(contribution.quarter_units as nat, denominator as nat);
    }
    MiningPressureIncrementRatio {
        numerator: contribution.quarter_units / divisor,
        denominator: denominator / divisor,
    }
}

} // verus!
