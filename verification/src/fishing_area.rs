//! Fishing areas and the requirements for their first permanent unlock.
use vstd::prelude::*;

use crate::equipment_policy::EquipmentTier;

verus! {

#[derive(Clone, Copy, Debug, PartialEq, Eq, Structural)]
pub enum FishingArea {
    StarterPool,
    River,
    Lake,
    Coast,
    DeepSea,
    Abyss,
}

#[derive(Clone, Copy, Debug, PartialEq, Eq, Structural)]
pub enum FishingRodForUnlock {
    StarterBasic,
    Ordinary(EquipmentTier),
}

#[derive(Clone, Copy, Debug, PartialEq, Eq, Structural)]
pub struct FishingAreaFirstUnlockPolicy {
    pub area: FishingArea,
    pub minimum_account_level: Option<u32>,
    pub minimum_rebirth: Option<u32>,
    pub minimum_ordinary_rod_tier: Option<EquipmentTier>,
    pub starter_basic_allowed: bool,
    pub gold_counts_as_side_grade: bool,
    pub permanent_once_unlocked: bool,
    pub rebirth_never_relocks: bool,
    pub renewable_without_depletion: bool,
}

#[derive(Clone, Copy, Debug, PartialEq, Eq, Structural)]
pub struct FishingAreaFirstUnlockPreview {
    pub policy: FishingAreaFirstUnlockPolicy,
    pub account_level_met: bool,
    pub rebirth_met: bool,
    pub rod_requirement_met: bool,
    pub eligible_for_first_unlock: bool,
}

#[derive(Clone, Copy, Debug, PartialEq, Eq, Structural)]
pub enum FishingAreaPolicyError {
    StarterLeatherIsNotRodTier,
}

/// The frozen first-unlock requirements of an area: minimum account level, minimum Rebirth,
/// minimum ordinary Rod tier, Starter Basic eligibility and Gold side-grade acceptance.
pub open spec fn spec_area_requirements(area: FishingArea) -> (
    Option<u32>,
    Option<u32>,
    Option<EquipmentTier>,
    bool,
    bool,
) {
    match area {
        FishingArea::StarterPool => (None, None, None, true, false),
        FishingArea::River => (Some(10), None, Some(EquipmentTier::Wood), false, false),
        FishingArea::Lake => (Some(25), None, Some(EquipmentTier::Stone), false, false),
        FishingArea::Coast => (Some(50), None, Some(EquipmentTier::Copper), false, false),
        FishingArea::DeepSea => (Some(100), None, Some(EquipmentTier::Diamond), false, true),
        FishingArea::Abyss => (None, Some(1), Some(EquipmentTier::Netherite), false, false),
    }
}

/// Depth rank of each area, from the Starter Pool (0) to the Abyss (5).
pub open spec fn spec_area_rank(area: FishingArea) -> int {
    match area {
        FishingArea::StarterPool => 0,
        FishingArea::River => 1,
        FishingArea::Lake => 2,
        FishingArea::Coast => 3,
        FishingArea::DeepSea => 4,
        FishingArea::Abyss => 5,
    }
}

/// Deepest area rank an ordinary Rod tier may unlock (Gold is a Deep Sea side-grade).
pub open spec fn spec_tier_reach(tier: EquipmentTier) -> int {
    match tier {
        EquipmentTier::StarterLeather => -1,
        EquipmentTier::Wood => 1,
        EquipmentTier::Stone => 2,
        EquipmentTier::Copper | EquipmentTier::Iron => 3,
        EquipmentTier::Gold | EquipmentTier::Diamond | EquipmentTier::Obsidian => 4,
        EquipmentTier::Netherite | EquipmentTier::Graphite => 5,
    }
}

/// Returns the frozen first-unlock policy of one Fishing area.
pub fn fishing_area_first_unlock_policy(area: FishingArea) -> (r: FishingAreaFirstUnlockPolicy)
    ensures
        r.area == area,
        (r.minimum_account_level, r.minimum_rebirth, r.minimum_ordinary_rod_tier,
            r.starter_basic_allowed, r.gold_counts_as_side_grade) == spec_area_requirements(area),
        r.permanent_once_unlocked,
        r.rebirth_never_relocks,
        r.renewable_without_depletion,
{
    let (minimum_account_level, minimum_rebirth, minimum_ordinary_rod_tier, starter_basic_allowed,
        gold_counts_as_side_grade) = match area {
        FishingArea::StarterPool => (None, None, None, true, false),
        FishingArea::River => (Some(10), None, Some(EquipmentTier::Wood), false, false),
        FishingArea::Lake => (Some(25), None, Some(EquipmentTier::Stone), false, false),
        FishingArea::Coast => (Some(50), None, Some(EquipmentTier::Copper), false, false),
        FishingArea::DeepSea => (Some(100), None, Some(EquipmentTier::Diamond), false, true),
        FishingArea::Abyss => (None, Some(1), Some(EquipmentTier::Netherite), false, false),
    };
    FishingAreaFirstUnlockPolicy {
        area,
        minimum_account_level,
        minimum_rebirth,
        minimum_ordinary_rod_tier,
        starter_basic_allowed,
        gold_counts_as_side_grade,
        permanent_once_unlocked: true,
        rebirth_never_relocks: true,
        renewable_without_depletion: true,
    }
}

/// A present minimum is met by the value; an absent minimum is always met.
pub open spec fn spec_minimum_met(minimum: Option<u32>, value: u32) -> bool {
    match minimum {
        None => true,
        Some(m) => value >= m,
    }
}

/// Whether a Rod satisfies an area's Rod requirement; Starter Leather is no Rod tier.
pub open spec fn spec_rod_requirement(area: FishingArea, rod: FishingRodForUnlock) -> Result<
    bool,
    FishingAreaPolicyError,
> {
    match rod {
        FishingRodForUnlock::StarterBasic => Ok(area == FishingArea::StarterPool),
        FishingRodForUnlock::Ordinary(tier) => if tier == EquipmentTier::StarterLeather {
            Err(FishingAreaPolicyError::StarterLeatherIsNotRodTier)
        } else {
            Ok(spec_area_rank(area) <= spec_tier_reach(tier))
        },
    }
}

/// Previews whether the current progression/equipment snapshot satisfies the frozen requirements
/// for the first permanent unlock of one Fishing area.
pub fn preview_first_fishing_area_unlock(
    area: FishingArea,
    account_level: u32,
    rebirth: u32,
    rod: FishingRodForUnlock,
) -> (r: Result<FishingAreaFirstUnlockPreview, FishingAreaPolicyError>)
    ensures
        match spec_rod_requirement(area, rod) {
            Err(e) => r == Err::<FishingAreaFirstUnlockPreview, FishingAreaPolicyError>(e),
            Ok(rod_met) => r matches Ok(p) && {
                let req = spec_area_requirements(area);
                &&& p.policy.area == area
                &&& (p.policy.minimum_account_level, p.policy.minimum_rebirth,
                    p.policy.minimum_ordinary_rod_tier, p.policy.starter_basic_allowed,
                    p.policy.gold_counts_as_side_grade) == req
                &&& p.policy.permanent_once_unlocked && p.policy.rebirth_never_relocks
                    && p.policy.renewable_without_depletion
                &&& p.account_level_met == spec_minimum_met(req.0, account_level)
                &&& p.rebirth_met == spec_minimum_met(req.1, rebirth)
                &&& p.rod_requirement_met == rod_met
                &&& p.eligible_for_first_unlock == (p.account_level_met && p.rebirth_met
                    && rod_met)
            },
        },
{
    let policy = fishing_area_first_unlock_policy(area);
    let account_level_met = match policy.minimum_account_level {
        None => true,
        Some(minimum) => account_level >= minimum,
    };
    let rebirth_met = match policy.minimum_rebirth {
        None => true,
        Some(minimum) => rebirth >= minimum,
    };
    let rod_requirement_met = rod_meets_first_unlock_requirement(area, rod)?;
    Ok(
        FishingAreaFirstUnlockPreview {
            policy,
            account_level_met,
            rebirth_met,
            rod_requirement_met,
            eligible_for_first_unlock: account_level_met && rebirth_met && rod_requirement_met,
        },
    )
}

fn rod_meets_first_unlock_requirement(area: FishingArea, rod: FishingRodForUnlock) -> (r: Result<
    bool,
    FishingAreaPolicyError,
>)
    ensures
        r == spec_rod_requirement(area, rod),
{
    match rod {
        FishingRodForUnlock::StarterBasic => Ok(area == FishingArea::StarterPool),
        FishingRodForUnlock::Ordinary(EquipmentTier::StarterLeather) => {
            Err(FishingAreaPolicyError::StarterLeatherIsNotRodTier)
        },
        FishingRodForUnlock::Ordinary(tier) => Ok(
            match tier {
                EquipmentTier::StarterLeather => false,
                EquipmentTier::Wood => matches!(area, FishingArea::StarterPool | FishingArea::River),
                EquipmentTier::Stone => matches!(
                    area,
                    FishingArea::StarterPool | FishingArea::River | FishingArea::Lake
                ),
                EquipmentTier::Copper | EquipmentTier::Iron => matches!(
                    area,
                    FishingArea::StarterPool | FishingArea::River | FishingArea::Lake
                        | FishingArea::Coast
                ),
                EquipmentTier::Gold | EquipmentTier::Diamond | EquipmentTier::Obsidian => {
                    !matches!(area, FishingArea::Abyss)
                },
                EquipmentTier::Netherite | EquipmentTier::Graphite => true,
            },
        ),
    }
}

/// A Rod that meets the requirement of an area also meets it for every shallower area.
pub proof fn lemma_rod_requirement_is_monotone_in_depth(
    deeper: FishingArea,
    shallower: FishingArea,
    rod: FishingRodForUnlock,
)
    requires
        spec_area_rank(shallower) <= spec_area_rank(deeper),
        spec_rod_requirement(deeper, rod) == Ok::<bool, FishingAreaPolicyError>(true),
    ensures
        spec_rod_requirement(shallower, rod) == Ok::<bool, FishingAreaPolicyError>(true),
{
}

} // verus!
