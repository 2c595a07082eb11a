//! Persisted integer columns read back as the narrower values the policies use.
use vstd::prelude::*;

verus! {

/// A stored durability value that fits `u32`.
pub open spec fn spec_stored_u32(value: Option<i64>) -> Option<u32> {
    match value {
        Some(v) => if 0 <= v <= u32::MAX {
            Some(v as u32)
        } else {
            None
        },
        None => None,
    }
}

/// Reads a stored durability value back as a `u32`, when it fits.
pub fn stored_u32(value: Option<i64>) -> (r: Option<u32>)
    ensures
        r == spec_stored_u32(value),
{
    match value {
        Some(v) => if 0 <= v && v <= u32::MAX as i64 {
            Some(v as u32)
        } else {
            None
        },
        None => None,
    }
}

} // verus!
