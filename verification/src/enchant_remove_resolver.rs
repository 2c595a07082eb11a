//! Selection of the embedded enchant an exact removal deletes, checked against the locked state.
use vstd::prelude::*;

use crate::enchant_catalog::CanonicalEnchant;
use crate::equipment_recraft_resolver::{
    OrdinaryEquipmentEnhancedResolverError, ResolvedEmbeddedEnchantAppraisal,
};

verus! {

#[derive(Clone, Copy, Debug, PartialEq, Eq, Structural)]
pub struct RemovedEmbeddedEnchant {
    pub enchant: CanonicalEnchant,
    pub level: u8,
}

#[derive(Clone, Debug, PartialEq, Eq)]
pub enum EnchantRemovalStateWriterError {
    Enhanced(OrdinaryEquipmentEnhancedResolverError),
    SelectedEnchantNotFound(CanonicalEnchant),
    SelectedEnchantLevelChanged { enchant: CanonicalEnchant, expected_level: u8, actual_level: u8 },
    LockedStateMismatch,
}

/// The level of the first locked embedded enchant with the selected identity.
pub open spec fn spec_locked_level(
    embedded: Seq<ResolvedEmbeddedEnchantAppraisal>,
    enchant: CanonicalEnchant,
) -> Option<u8>
    decreases embedded.len(),
{
    if embedded.len() == 0 {
        None
    } else if embedded[0].enchant == enchant {
        Some(embedded[0].level)
    } else {
        spec_locked_level(embedded.drop_first(), enchant)
    }
}

/// Checks the selected identity and expected level against the locked embedded-enchant snapshot
/// and names the exact row to delete: the identity must be present at exactly the expected level.
pub fn select_enchant_for_removal(
    embedded: &[ResolvedEmbeddedEnchantAppraisal],
    enchant: CanonicalEnchant,
    expected_level: u8,
) -> (r: Result<RemovedEmbeddedEnchant, EnchantRemovalStateWriterError>)
    ensures
        spec_locked_level(embedded@, enchant) is None ==> r == Err::<
            RemovedEmbeddedEnchant,
            EnchantRemovalStateWriterError,
        >(EnchantRemovalStateWriterError::SelectedEnchantNotFound(enchant)),
        spec_locked_level(embedded@, enchant) matches Some(actual) ==> {
            &&& actual != expected_level ==> r == Err::<
                RemovedEmbeddedEnchant,
                EnchantRemovalStateWriterError,
            >(
                EnchantRemovalStateWriterError::SelectedEnchantLevelChanged {
                    enchant,
                    expected_level,
                    actual_level: actual,
                },
            )
            &&& actual == expected_level ==> r == Ok::<
                RemovedEmbeddedEnchant,
                EnchantRemovalStateWriterError,
            >(RemovedEmbeddedEnchant { enchant, level: expected_level })
        },
{
    let mut i: usize = 0;
    proof {
        assert(embedded@.subrange(0, embedded@.len() as int) =~= embedded@);
    }
    while i < embedded.len()
        invariant
            i <= embedded@.len(),
            spec_locked_level(embedded@, enchant) == spec_locked_level(
                embedded@.subrange(i as int, embedded@.len() as int),
                enchant,
            ),
        decreases embedded@.len() - i,
    {
        proof {
            let rest = embedded@.subrange(i as int, embedded@.len() as int);
            assert(rest.drop_first() =~= embedded@.subrange(i as int + 1, embedded@.len() as int));
        }
        if embedded[i].enchant == enchant {
            let actual_level = embedded[i].level;
            if actual_level != expected_level {
                return Err(
                    EnchantRemovalStateWriterError::SelectedEnchantLevelChanged {
                        enchant,
                        expected_level,
                        actual_level,
                    },
                );
            }
            return Ok(RemovedEmbeddedEnchant { enchant, level: expected_level });
        }
        i = i + 1;
    }
    Err(EnchantRemovalStateWriterError::SelectedEnchantNotFound(enchant))
}

} // verus!
