//! Persisted embedded-enchant rows and the validation of their stored levels.
use vstd::prelude::*;

use crate::enchant_catalog::{
    canonical_enchant_max_resulting_level, spec_max_resulting_level, CanonicalEnchant,
};

verus! {

/// One persisted embedded-enchant row: the canonical identity its key maps to (`None` for a key
/// outside the canonical vocabulary), the raw key, and the stored level.
#[derive(Clone, Debug, PartialEq, Eq)]
pub struct StoredEnchantRow {
    pub enchant: Option<CanonicalEnchant>,
    pub persisted_key: String,
    pub level: i16,
}

/// A stored level is valid for an enchant when it lies in `1..=max resulting level`.
pub open spec fn spec_stored_level_valid(enchant: CanonicalEnchant, stored_level: i16) -> bool {
    1 <= stored_level <= spec_max_resulting_level(enchant)
}

/// Returns the stored level as a resulting level when it is valid for the enchant.
pub fn validated_stored_level(enchant: CanonicalEnchant, stored_level: i16) -> (r: Option<u8>)
    ensures
        spec_stored_level_valid(enchant, stored_level) ==> r == Some(stored_level as u8),
        !spec_stored_level_valid(enchant, stored_level) ==> r is None,
{
    let maximum = canonical_enchant_max_resulting_level(enchant);
    if stored_level < 1 || stored_level > maximum as i16 {
        None
    } else {
        Some(stored_level as u8)
    }
}

} // verus!
