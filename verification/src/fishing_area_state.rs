//! Permanent Fishing-area access: where it is persisted, and whether a locked progression and Rod
//! snapshot grants a first unlock.
use vstd::prelude::*;

use crate::fishing_area::{
    preview_first_fishing_area_unlock, spec_area_requirements, spec_minimum_met,
    spec_rod_requirement, FishingArea, FishingAreaFirstUnlockPreview, FishingAreaPolicyError,
    FishingRodForUnlock,
};
use crate::fishing_rod_state::{
    classify_equipped_fishing_rod, spec_equipped_rod_kind, EquippedFishingRodKind,
    EquippedFishingRodStateError, EquippedRodRecord,
};

verus! {

#[derive(Clone, Copy, Debug, PartialEq, Eq, Structural)]
pub enum FishingAreaAccessOrigin {
    StarterPoolDefault,
    Persisted,
    NewlyUnlocked,
}

#[derive(Clone, Debug, PartialEq, Eq)]
pub enum FishingAreaAccessError {
    Policy(FishingAreaPolicyError),
    OperationNotFound,
    OperationPlayerMismatch,
    OperationTerminal(String),
    PlayerNotFound,
    AccountFrozen(String),
    InvalidRebirthCount(i64),
    ProgressionStateMissing,
    NoEquippedFishingRod,
    EquippedRodIntegrityMismatch,
    StarterBasicRodIntegrityMismatch,
    NonOrdinaryFishingRod,
    InvalidOrdinaryRodTierMetadata,
    InvalidAreaPersistenceMapping,
    FirstUnlockRequirementsNotMet { preview: FishingAreaFirstUnlockPreview },
}

/// The persistence key of a non-default area; Starter Pool is implicit and has none.
pub open spec fn spec_persisted_area_key(area: FishingArea) -> Option<&'static str> {
    match area {
        FishingArea::StarterPool => None,
        FishingArea::River => Some("RIVER"),
        FishingArea::Lake => Some("LAKE"),
        FishingArea::Coast => Some("COAST"),
        FishingArea::DeepSea => Some("DEEP_SEA"),
        FishingArea::Abyss => Some("ABYSS"),
    }
}

/// Returns the persistence key of an area's first unlock; Starter Pool never consumes a row.
pub fn persisted_area_key(area: FishingArea) -> (r: Option<&'static str>)
    ensures
        r == spec_persisted_area_key(area),
{
    match area {
        FishingArea::StarterPool => None,
        FishingArea::River => Some("RIVER"),
        FishingArea::Lake => Some("LAKE"),
        FishingArea::Coast => Some("COAST"),
        FishingArea::DeepSea => Some("DEEP_SEA"),
        FishingArea::Abyss => Some("ABYSS"),
    }
}

/// Converts a persisted Rebirth count for the first-unlock thresholds: negative counts are
/// invalid, and counts beyond `u32` saturate, which preserves every threshold comparison.
pub fn rebirth_for_first_unlock_policy(rebirth_count: i64) -> (r: Result<u32, FishingAreaAccessError>)
    ensures
        rebirth_count < 0 ==> r == Err::<u32, FishingAreaAccessError>(
            FishingAreaAccessError::InvalidRebirthCount(rebirth_count),
        ),
        0 <= rebirth_count <= u32::MAX ==> r == Ok::<u32, FishingAreaAccessError>(
            rebirth_count as u32,
        ),
        rebirth_count > u32::MAX ==> r == Ok::<u32, FishingAreaAccessError>(u32::MAX),
{
    if rebirth_count < 0 {
        return Err(FishingAreaAccessError::InvalidRebirthCount(rebirth_count));
    }
    if rebirth_count > u32::MAX as i64 {
        Ok(u32::MAX)
    } else {
        Ok(rebirth_count as u32)
    }
}

/// How an equipped-Rod resolution failure is reported by area access.
pub open spec fn spec_access_error_from_rod_state(error: EquippedFishingRodStateError) -> FishingAreaAccessError {
    match error {
        EquippedFishingRodStateError::NoEquippedFishingRod => FishingAreaAccessError::NoEquippedFishingRod,
        EquippedFishingRodStateError::EquippedRodIntegrityMismatch => {
            FishingAreaAccessError::EquippedRodIntegrityMismatch
        },
        EquippedFishingRodStateError::StarterBasicRodIntegrityMismatch => {
            FishingAreaAccessError::StarterBasicRodIntegrityMismatch
        },
        EquippedFishingRodStateError::NonOrdinaryFishingRod => FishingAreaAccessError::NonOrdinaryFishingRod,
        EquippedFishingRodStateError::InvalidOrdinaryRodTierMetadata => {
            FishingAreaAccessError::InvalidOrdinaryRodTierMetadata
        },
    }
}

/// Resolves the equipped Rod that qualifies a first unlock from its locked record, with the same
/// identity rules as every other equipped-Rod read.
pub fn fishing_rod_for_unlock(record: EquippedRodRecord) -> (r: Result<
    FishingRodForUnlock,
    FishingAreaAccessError,
>)
    ensures
        match spec_equipped_rod_kind(record) {
            Err(e) => r == Err::<FishingRodForUnlock, FishingAreaAccessError>(
                spec_access_error_from_rod_state(e),
            ),
            Ok(EquippedFishingRodKind::StarterBasic) => r == Ok::<
                FishingRodForUnlock,
                FishingAreaAccessError,
            >(FishingRodForUnlock::StarterBasic),
            Ok(EquippedFishingRodKind::Ordinary { tier }) => r == Ok::<
                FishingRodForUnlock,
                FishingAreaAccessError,
            >(FishingRodForUnlock::Ordinary(tier)),
        },
{
    match classify_equipped_fishing_rod(record) {
        Ok(EquippedFishingRodKind::StarterBasic) => Ok(FishingRodForUnlock::StarterBasic),
        Ok(EquippedFishingRodKind::Ordinary { tier }) => Ok(FishingRodForUnlock::Ordinary(tier)),
        Err(EquippedFishingRodStateError::NoEquippedFishingRod) => Err(
            FishingAreaAccessError::NoEquippedFishingRod,
        ),
        Err(EquippedFishingRodStateError::EquippedRodIntegrityMismatch) => Err(
            FishingAreaAccessError::EquippedRodIntegrityMismatch,
        ),
        Err(EquippedFishingRodStateError::StarterBasicRodIntegrityMismatch) => Err(
            FishingAreaAccessError::StarterBasicRodIntegrityMismatch,
        ),
        Err(EquippedFishingRodStateError::NonOrdinaryFishingRod) => Err(
            FishingAreaAccessError::NonOrdinaryFishingRod,
        ),
        Err(EquippedFishingRodStateError::InvalidOrdinaryRodTierMetadata) => Err(
            FishingAreaAccessError::InvalidOrdinaryRodTierMetadata,
        ),
    }
}

/// Whether a preview is the frozen first-unlock preview of `area` for the given Account Level,
/// Rebirth and Rod outcome.
pub open spec fn spec_first_unlock_preview_matches(
    p: FishingAreaFirstUnlockPreview,
    area: FishingArea,
    account_level: u32,
    rebirth: u32,
    rod_met: bool,
) -> bool {
    let req = spec_area_requirements(area);
    &&& p.policy.area == area
    &&& (p.policy.minimum_account_level, p.policy.minimum_rebirth,
        p.policy.minimum_ordinary_rod_tier, p.policy.starter_basic_allowed,
        p.policy.gold_counts_as_side_grade) == req
    &&& p.policy.permanent_once_unlocked && p.policy.rebirth_never_relocks
        && p.policy.renewable_without_depletion
    &&& p.account_level_met == spec_minimum_met(req.0, account_level)
    &&& p.rebirth_met == spec_minimum_met(req.1, rebirth)
    &&& p.rod_requirement_met == rod_met
    &&& p.eligible_for_first_unlock == (p.account_level_met && p.rebirth_met && rod_met)
}

/// Decides a first unlock of a never-unlocked area from the locked Account Level, Rebirth count and
/// qualifying Rod: the frozen first-unlock preview must be eligible, and is returned for the grant.
pub fn check_first_unlock(
    area: FishingArea,
    account_level: u32,
    rebirth_count: i64,
    rod: FishingRodForUnlock,
) -> (r: Result<FishingAreaFirstUnlockPreview, FishingAreaAccessError>)
    ensures
        rebirth_count < 0 ==> r == Err::<FishingAreaFirstUnlockPreview, FishingAreaAccessError>(
            FishingAreaAccessError::InvalidRebirthCount(rebirth_count),
        ),
        rebirth_count >= 0 ==> {
            let rebirth: u32 = if rebirth_count > u32::MAX {
                u32::MAX
            } else {
                rebirth_count as u32
            };
            let req = spec_area_requirements(area);
            match spec_rod_requirement(area, rod) {
                Err(e) => r == Err::<FishingAreaFirstUnlockPreview, FishingAreaAccessError>(
                    FishingAreaAccessError::Policy(e),
                ),
                Ok(rod_met) => {
                    let eligible = spec_minimum_met(req.0, account_level) && spec_minimum_met(
                        req.1,
                        rebirth,
                    ) && rod_met;
                    &&& eligible ==> (r matches Ok(p) && spec_first_unlock_preview_matches(
                        p,
                        area,
                        account_level,
                        rebirth,
                        rod_met,
                    ))
                    &&& !eligible ==> (r matches Err(
                        FishingAreaAccessError::FirstUnlockRequirementsNotMet { preview },
                    ) && spec_first_unlock_preview_matches(
                        preview,
                        area,
                        account_level,
                        rebirth,
                        rod_met,
                    ))
                },
            }
        },
{
    let rebirth = match rebirth_for_first_unlock_policy(rebirth_count) {
        Ok(value) => value,
        Err(e) => {
            return Err(e);
        },
    };
    let preview = match preview_first_fishing_area_unlock(area, account_level, rebirth, rod) {
        Ok(p) => p,
        Err(e) => {
            return Err(FishingAreaAccessError::Policy(e));
        },
    };
    if !preview.eligible_for_first_unlock {
        return Err(FishingAreaAccessError::FirstUnlockRequirementsNotMet { preview });
    }
    Ok(preview)
}

} // verus!
