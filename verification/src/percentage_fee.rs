//! Whole-percent service fees rounded up to whole Money units.
use vstd::prelude::*;

verus! {

/// `ceil(value * percent / 100)`.
pub open spec fn spec_ceil_percentage(value: int, percent: int) -> int {
    if (value * percent) % 100 == 0 {
        (value * percent) / 100
    } else {
        (value * percent) / 100 + 1
    }
}

/// Applies a whole-percent fee to a non-negative Money value, rounding up; a negative value, or a
/// fee that leaves the Money range, yields `None`.
pub fn checked_ceil_percentage(value: i64, percent: u8) -> (r: Option<i64>)
    ensures
        value < 0 ==> r is None,
        value >= 0 && spec_ceil_percentage(value as int, percent as int) > i64::MAX ==> r is None,
        value >= 0 && spec_ceil_percentage(value as int, percent as int) <= i64::MAX ==> r == Some(
            spec_ceil_percentage(value as int, percent as int) as i64,
        ),
{
    if value < 0 {
        return None;
    }
    let basis_points = (percent as u32) * 100;
    proof {
        assert(0 <= (value as int) * (basis_points as int) <= i64::MAX * 25_500) by (nonlinear_arith)
            requires 0 <= value <= i64::MAX, 0 <= basis_points <= 25_500;
        assert((value as int) * (basis_points as int) == (value * percent) * 100) by (nonlinear_arith)
            requires basis_points == percent * 100;
    }
    let scaled = (value as i128) * (basis_points as i128);
    let quotient = scaled / 10_000;
    let rounded = if scaled % 10_000 == 0 {
        quotient
    } else {
        quotient + 1
    };
    proof {
        let p = value * percent;
        assert(p >= 0) by (nonlinear_arith)
            requires p == value * percent, value >= 0, percent >= 0;
        assert((p * 100) / 10_000 == p / 100 && ((p * 100) % 10_000 == 0) == (p % 100 == 0))
            by (nonlinear_arith)
            requires p >= 0;
    }
    if rounded > i64::MAX as i128 {
        return None;
    }
    Some(rounded as i64)
}

} // verus!
