//! Global Fishing cast limits.
use vstd::prelude::*;

verus! {

/// Canonical maximum number of fish that may belong to one candidate Fishing cast.
pub const MAX_FISH_PER_CAST: u8 = 5;

} // verus!
