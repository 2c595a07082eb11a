//! The decision of how one already-resolved durability consequence applies to the locked equipped
//! Fishing Rod.
use vstd::prelude::*;

use crate::fishing_area::FishingArea;
use crate::fishing_rod_durability::{
    preview_fishing_rod_durability, spec_rod_durability_outcome, FishingRodDurabilityPolicyError,
    FishingRodDurabilityPreview, FishingRodDurabilityResolution,
};
use crate::fishing_rod_state::{
    spec_canonical_starter_basic_facts, EquippedFishingRodKind, EquippedFishingRodStateError,
    LockedFishingRodFacts,
};
use crate::stored_values::{spec_stored_u32, stored_u32};

verus! {

#[derive(Clone, Debug, PartialEq, Eq)]
pub enum FishingRodDurabilityStateError {
    Policy(FishingRodDurabilityPolicyError),
    OperationNotFound,
    OperationPlayerMismatch,
    OperationTerminal(String),
    PlayerNotFound,
    AccountFrozen(String),
    NoEquippedFishingRod,
    EquippedRodIntegrityMismatch,
    StarterBasicRodIntegrityMismatch,
    NonOrdinaryFishingRod,
    InvalidOrdinaryRodDurability,
    OrdinaryRodAlreadyBroken,
    DurabilityChanged { expected: u32, actual: u32 },
    StarterBasicOutsideStarterPool,
    LineBreakDisabledInStarterPool,
    StarterBasicExpectedDurability,
    OrdinaryRodExpectedDurabilityMissing,
    LockedStateMismatch,
}

/// How an equipped-Rod resolution failure is reported by the durability mutation: unsupported tier
/// metadata counts as an integrity mismatch.
pub fn durability_error_from_rod_state(error: EquippedFishingRodStateError) -> (r:
    FishingRodDurabilityStateError)
    ensures
        r == match error {
            EquippedFishingRodStateError::NoEquippedFishingRod => {
                FishingRodDurabilityStateError::NoEquippedFishingRod
            },
            EquippedFishingRodStateError::EquippedRodIntegrityMismatch => {
                FishingRodDurabilityStateError::EquippedRodIntegrityMismatch
            },
            EquippedFishingRodStateError::StarterBasicRodIntegrityMismatch => {
                FishingRodDurabilityStateError::StarterBasicRodIntegrityMismatch
            },
            EquippedFishingRodStateError::NonOrdinaryFishingRod => {
                FishingRodDurabilityStateError::NonOrdinaryFishingRod
            },
            EquippedFishingRodStateError::InvalidOrdinaryRodTierMetadata => {
                FishingRodDurabilityStateError::EquippedRodIntegrityMismatch
            },
        },
{
    match error {
        EquippedFishingRodStateError::NoEquippedFishingRod => {
            FishingRodDurabilityStateError::NoEquippedFishingRod
        },
        EquippedFishingRodStateError::EquippedRodIntegrityMismatch => {
            FishingRodDurabilityStateError::EquippedRodIntegrityMismatch
        },
        EquippedFishingRodStateError::StarterBasicRodIntegrityMismatch => {
            FishingRodDurabilityStateError::StarterBasicRodIntegrityMismatch
        },
        EquippedFishingRodStateError::NonOrdinaryFishingRod => {
            FishingRodDurabilityStateError::NonOrdinaryFishingRod
        },
        EquippedFishingRodStateError::InvalidOrdinaryRodTierMetadata => {
            FishingRodDurabilityStateError::EquippedRodIntegrityMismatch
        },
    }
}

/// The durability value and Broken flag to write back to an item.
#[derive(Clone, Copy, Debug, PartialEq, Eq, Structural)]
pub struct DurabilityWrite {
    pub durability: u32,
    pub is_broken: bool,
}

/// What the owning transaction must do with the equipped Rod.
#[derive(Clone, Copy, Debug, PartialEq, Eq, Structural)]
pub enum FishingRodDurabilityDecision {
    /// The unbreakable Starter Basic Rod: nothing is written.
    StarterBasicUnbreakable,
    /// An ordinary Rod: `write` holds what to store when durability changes.
    Ordinary { preview: FishingRodDurabilityPreview, write: Option<DurabilityWrite> },
}

/// Decides how one already-resolved durability consequence applies to the locked equipped Rod.
///
/// A line break is refused in Starter Pool for every Rod. The Starter Basic Rod must be in its
/// canonical unbreakable state, may only fish in Starter Pool and carries no expected durability;
/// it is an explicit no-op. An ordinary Rod must hold `u32` durability values, be operational
/// (`current > 0`, not Broken) and match the caller's expected durability exactly; the frozen
/// durability policy then gives the result, which is written only when it differs.
pub fn decide_fishing_rod_durability(
    area: FishingArea,
    expected_current_durability: Option<u32>,
    resolution: FishingRodDurabilityResolution,
    rod: LockedFishingRodFacts,
) -> (r: Result<FishingRodDurabilityDecision, FishingRodDurabilityStateError>)
    ensures
        resolution == FishingRodDurabilityResolution::LineBreak && area == FishingArea::StarterPool
            ==> r == Err::<FishingRodDurabilityDecision, FishingRodDurabilityStateError>(
            FishingRodDurabilityStateError::LineBreakDisabledInStarterPool,
        ),
        !(resolution == FishingRodDurabilityResolution::LineBreak && area
            == FishingArea::StarterPool) && rod.kind == EquippedFishingRodKind::StarterBasic ==> {
            &&& !spec_canonical_starter_basic_facts(rod) ==> r == Err::<
                FishingRodDurabilityDecision,
                FishingRodDurabilityStateError,
            >(FishingRodDurabilityStateError::StarterBasicRodIntegrityMismatch)
            &&& spec_canonical_starter_basic_facts(rod) && area != FishingArea::StarterPool ==> r
                == Err::<FishingRodDurabilityDecision, FishingRodDurabilityStateError>(
                FishingRodDurabilityStateError::StarterBasicOutsideStarterPool,
            )
            &&& spec_canonical_starter_basic_facts(rod) && area == FishingArea::StarterPool
                && expected_current_durability is Some ==> r == Err::<
                FishingRodDurabilityDecision,
                FishingRodDurabilityStateError,
            >(FishingRodDurabilityStateError::StarterBasicExpectedDurability)
            &&& spec_canonical_starter_basic_facts(rod) && area == FishingArea::StarterPool
                && expected_current_durability is None ==> r == Ok::<
                FishingRodDurabilityDecision,
                FishingRodDurabilityStateError,
            >(FishingRodDurabilityDecision::StarterBasicUnbreakable)
        },
        !(resolution == FishingRodDurabilityResolution::LineBreak && area
            == FishingArea::StarterPool) && rod.kind != EquippedFishingRodKind::StarterBasic ==> {
            let current = spec_stored_u32(rod.current_durability);
            let maximum = spec_stored_u32(rod.max_durability);
            &&& (current is None || maximum is None) ==> r == Err::<
                FishingRodDurabilityDecision,
                FishingRodDurabilityStateError,
            >(FishingRodDurabilityStateError::InvalidOrdinaryRodDurability)
            &&& (current is Some && maximum is Some) ==> {
                let c = current->0;
                let m = maximum->0;
                &&& (c == 0 || rod.is_broken) ==> r == Err::<
                    FishingRodDurabilityDecision,
                    FishingRodDurabilityStateError,
                >(FishingRodDurabilityStateError::OrdinaryRodAlreadyBroken)
                &&& !(c == 0 || rod.is_broken) && expected_current_durability is None ==> r
                    == Err::<FishingRodDurabilityDecision, FishingRodDurabilityStateError>(
                    FishingRodDurabilityStateError::OrdinaryRodExpectedDurabilityMissing,
                )
                &&& !(c == 0 || rod.is_broken) && expected_current_durability is Some
                    && expected_current_durability->0 != c ==> r == Err::<
                    FishingRodDurabilityDecision,
                    FishingRodDurabilityStateError,
                >(
                    FishingRodDurabilityStateError::DurabilityChanged {
                        expected: expected_current_durability->0,
                        actual: c,
                    },
                )
                &&& !(c == 0 || rod.is_broken) && expected_current_durability == Some(c) ==> {
                    &&& m == 0 ==> r == Err::<
                        FishingRodDurabilityDecision,
                        FishingRodDurabilityStateError,
                    >(
                        FishingRodDurabilityStateError::Policy(
                            FishingRodDurabilityPolicyError::InvalidMaxDurability,
                        ),
                    )
                    &&& m != 0 && c > m ==> r == Err::<
                        FishingRodDurabilityDecision,
                        FishingRodDurabilityStateError,
                    >(
                        FishingRodDurabilityStateError::Policy(
                            FishingRodDurabilityPolicyError::InvalidCurrentDurability,
                        ),
                    )
                    &&& m != 0 && c <= m ==> {
                        let resulting = spec_rod_durability_outcome(c, resolution).0 as u32;
                        let preview = FishingRodDurabilityPreview {
                            current_durability: c,
                            max_durability: m,
                            resulting_durability: resulting,
                            consequence: spec_rod_durability_outcome(c, resolution).1,
                        };
                        r == Ok::<FishingRodDurabilityDecision, FishingRodDurabilityStateError>(
                            FishingRodDurabilityDecision::Ordinary {
                                preview,
                                write: if resulting != c {
                                    Some(
                                        DurabilityWrite {
                                            durability: resulting,
                                            is_broken: resulting == 0,
                                        },
                                    )
                                } else {
                                    None
                                },
                            },
                        )
                    }
                }
            }
        },
{
    if resolution == FishingRodDurabilityResolution::LineBreak && area == FishingArea::StarterPool {
        return Err(FishingRodDurabilityStateError::LineBreakDisabledInStarterPool);
    }
    if rod.kind == EquippedFishingRodKind::StarterBasic {
        if !rod.is_starter || !rod.is_unbreakable || rod.is_repairable
            || rod.current_durability.is_some() || rod.max_durability.is_some() || rod.is_broken {
            return Err(FishingRodDurabilityStateError::StarterBasicRodIntegrityMismatch);
        }
        if area != FishingArea::StarterPool {
            return Err(FishingRodDurabilityStateError::StarterBasicOutsideStarterPool);
        }
        if expected_current_durability.is_some() {
            return Err(FishingRodDurabilityStateError::StarterBasicExpectedDurability);
        }
        return Ok(FishingRodDurabilityDecision::StarterBasicUnbreakable);
    }
    let current = match stored_u32(rod.current_durability) {
        Some(c) => c,
        None => {
            return Err(FishingRodDurabilityStateError::InvalidOrdinaryRodDurability);
        },
    };
    let maximum = match stored_u32(rod.max_durability) {
        Some(m) => m,
        None => {
            return Err(FishingRodDurabilityStateError::InvalidOrdinaryRodDurability);
        },
    };
    if current == 0 || rod.is_broken {
        return Err(FishingRodDurabilityStateError::OrdinaryRodAlreadyBroken);
    }
    let expected = match expected_current_durability {
        Some(e) => e,
        None => {
            return Err(FishingRodDurabilityStateError::OrdinaryRodExpectedDurabilityMissing);
        },
    };
    if expected != current {
        return Err(FishingRodDurabilityStateError::DurabilityChanged { expected, actual: current });
    }
    let preview = match preview_fishing_rod_durability(current, maximum, true, resolution) {
        Ok(p) => p,
        Err(e) => {
            return Err(FishingRodDurabilityStateError::Policy(e));
        },
    };
    let write = if preview.resulting_durability != current {
        Some(
            DurabilityWrite {
                durability: preview.resulting_durability,
                is_broken: preview.resulting_durability == 0,
            },
        )
    } else {
        None
    };
    Ok(FishingRodDurabilityDecision::Ordinary { preview, write })
}

} // verus!
