//! Frozen durability consequence of one completed cast attempt with an ordinary Fishing Rod.
use vstd::prelude::*;

use crate::fishing_capability::NORMAL_ROD_DURABILITY_PER_COMPLETED_CAST_ATTEMPT;

verus! {

/// The already-authoritative outcome of a cast attempt, as far as Rod durability is concerned.
#[derive(Clone, Copy, Debug, PartialEq, Eq, Structural)]
pub enum FishingRodDurabilityResolution {
    CompletedCastAttempt { ordinary_event_prevented_by_unbreaking: bool },
    LineBreak,
}

#[derive(Clone, Copy, Debug, PartialEq, Eq, Structural)]
pub enum FishingRodDurabilityConsequence {
    OrdinaryWearApplied,
    OrdinaryWearPreventedByUnbreaking,
    LineBreakDestroyedRod,
}

#[derive(Clone, Copy, Debug, PartialEq, Eq, Structural)]
pub struct FishingRodDurabilityPreview {
    pub current_durability: u32,
    pub max_durability: u32,
    pub resulting_durability: u32,
    pub consequence: FishingRodDurabilityConsequence,
}

#[derive(Clone, Copy, Debug, PartialEq, Eq, Structural)]
pub enum FishingRodDurabilityPolicyError {
    NotOrdinaryFishingRod,
    InvalidMaxDurability,
    InvalidCurrentDurability,
}

/// Resulting durability and consequence of a resolution applied to a usable Rod.
pub open spec fn spec_rod_durability_outcome(
    current_durability: u32,
    resolution: FishingRodDurabilityResolution,
) -> (int, FishingRodDurabilityConsequence) {
    match resolution {
        FishingRodDurabilityResolution::CompletedCastAttempt {
            ordinary_event_prevented_by_unbreaking: true,
        } => (current_durability as int, FishingRodDurabilityConsequence::OrdinaryWearPreventedByUnbreaking),
        FishingRodDurabilityResolution::CompletedCastAttempt {
            ordinary_event_prevented_by_unbreaking: false,
        } => (
            current_durability - NORMAL_ROD_DURABILITY_PER_COMPLETED_CAST_ATTEMPT,
            FishingRodDurabilityConsequence::OrdinaryWearApplied,
        ),
        FishingRodDurabilityResolution::LineBreak => (
            0,
            FishingRodDurabilityConsequence::LineBreakDestroyedRod,
        ),
    }
}

/// Previews the frozen durability consequence for one completed cast attempt using an ordinary
/// Rod: one durability is consumed unless Unbreaking prevented the event, and a line break always
/// destroys the Rod (durability zero).
pub fn preview_fishing_rod_durability(
    current_durability: u32,
    max_durability: u32,
    is_ordinary_rod: bool,
    resolution: FishingRodDurabilityResolution,
) -> (r: Result<FishingRodDurabilityPreview, FishingRodDurabilityPolicyError>)
    ensures
        !is_ordinary_rod ==> r == Err::<
            FishingRodDurabilityPreview,
            FishingRodDurabilityPolicyError,
        >(FishingRodDurabilityPolicyError::NotOrdinaryFishingRod),
        is_ordinary_rod && max_durability == 0 ==> r == Err::<
            FishingRodDurabilityPreview,
            FishingRodDurabilityPolicyError,
        >(FishingRodDurabilityPolicyError::InvalidMaxDurability),
        is_ordinary_rod && max_durability != 0 && (current_durability == 0 || current_durability
            > max_durability) ==> r == Err::<
            FishingRodDurabilityPreview,
            FishingRodDurabilityPolicyError,
        >(FishingRodDurabilityPolicyError::InvalidCurrentDurability),
        is_ordinary_rod && max_durability != 0 && 1 <= current_durability <= max_durability ==> r
            == Ok::<FishingRodDurabilityPreview, FishingRodDurabilityPolicyError>(
            FishingRodDurabilityPreview {
                current_durability,
                max_durability,
                resulting_durability: spec_rod_durability_outcome(
                    current_durability,
                    resolution,
                ).0 as u32,
                consequence: spec_rod_durability_outcome(current_durability, resolution).1,
            },
        ),
{
    if !is_ordinary_rod {
        return Err(FishingRodDurabilityPolicyError::NotOrdinaryFishingRod);
    }
    if max_durability == 0 {
        return Err(FishingRodDurabilityPolicyError::InvalidMaxDurability);
    }
    if current_durability == 0 || current_durability > max_durability {
        return Err(FishingRodDurabilityPolicyError::InvalidCurrentDurability);
    }
    let (resulting_durability, consequence) = match resolution {
        FishingRodDurabilityResolution::CompletedCastAttempt {
            ordinary_event_prevented_by_unbreaking: true,
        } => (current_durability, FishingRodDurabilityConsequence::OrdinaryWearPreventedByUnbreaking),
        FishingRodDurabilityResolution::CompletedCastAttempt {
            ordinary_event_prevented_by_unbreaking: false,
        } => (
            current_durability - NORMAL_ROD_DURABILITY_PER_COMPLETED_CAST_ATTEMPT as u32,
            FishingRodDurabilityConsequence::OrdinaryWearApplied,
        ),
        FishingRodDurabilityResolution::LineBreak => (
            0,
            FishingRodDurabilityConsequence::LineBreakDestroyedRod,
        ),
    };
    Ok(FishingRodDurabilityPreview {
        current_durability,
        max_durability,
        resulting_durability,
        consequence,
    })
}

/// A successful preview never increases durability, and only a line break or ordinary wear of a
/// one-durability Rod reaches zero.
pub proof fn lemma_rod_durability_never_increases(
    current_durability: u32,
    resolution: FishingRodDurabilityResolution,
)
    requires
        current_durability >= 1,
    ensures
        0 <= spec_rod_durability_outcome(current_durability, resolution).0 <= current_durability,
        spec_rod_durability_outcome(current_durability, resolution).0 == 0 <==> (resolution
            == FishingRodDurabilityResolution::LineBreak || (current_durability == 1
            && resolution == (FishingRodDurabilityResolution::CompletedCastAttempt {
            ordinary_event_prevented_by_unbreaking: false,
        }))),
{
}

} // verus!
