//! The per-cast Rod rules checked once a manual cast's authoritative state is locked, and the Bait
//! Rack capacity the cast may use.
use vstd::prelude::*;

use crate::bait_rack::{
    bait_rack_capacity_policy, spec_bait_rack_capacity, BaitRackCapacityPolicy, BaitRackPolicyError,
};
use crate::enchant_catalog::CanonicalEnchant;
use crate::fishing_area::FishingArea;
use crate::fishing_rod_state::{EquippedFishingRodEnchantState, EquippedFishingRodKind, FishingRodCastState};

verus! {

#[derive(Clone, Copy, Debug, PartialEq, Eq, Structural)]
pub enum ManualFishingCastPreflightError {
    BaitRack(BaitRackPolicyError),
    BrokenFishingRod,
    StarterBasicRodOutsidePool,
}

/// The level of the first Bait Rack enchant among the Rod's embedded enchants.
pub open spec fn spec_bait_rack_level(enchants: Seq<EquippedFishingRodEnchantState>) -> Option<u8>
    decreases enchants.len(),
{
    if enchants.len() == 0 {
        None
    } else if enchants[0].enchant == CanonicalEnchant::BaitRack {
        Some(enchants[0].level)
    } else {
        spec_bait_rack_level(enchants.drop_first())
    }
}

/// Finds the level of the first embedded Bait Rack enchant.
pub fn bait_rack_level(enchants: &Vec<EquippedFishingRodEnchantState>) -> (r: Option<u8>)
    ensures
        r == spec_bait_rack_level(enchants@),
{
    let mut i: usize = 0;
    proof {
        assert(enchants@.subrange(0, enchants@.len() as int) =~= enchants@);
    }
    while i < enchants.len()
        invariant
            i <= enchants@.len(),
            spec_bait_rack_level(enchants@) == spec_bait_rack_level(enchants@.subrange(
                i as int,
                enchants@.len() as int,
            )),
        decreases enchants@.len() - i,
    {
        proof {
            let rest = enchants@.subrange(i as int, enchants@.len() as int);
            assert(rest.drop_first() =~= enchants@.subrange(i as int + 1, enchants@.len() as int));
        }
        if enchants[i].enchant == CanonicalEnchant::BaitRack {
            return Some(enchants[i].level);
        }
        i = i + 1;
    }
    None
}

/// Applies the per-cast Rod rules to a locked cast-ready Rod state: the Starter Basic Rod fishes
/// only in Starter Pool, a Broken ordinary Rod cannot start a cast, and the Bait Rack level found
/// among the embedded enchants fixes the active bait-category capacity.
pub fn check_manual_fishing_cast(area: FishingArea, rod: &FishingRodCastState) -> (r: Result<
    BaitRackCapacityPolicy,
    ManualFishingCastPreflightError,
>)
    ensures
        rod.kind == EquippedFishingRodKind::StarterBasic && area != FishingArea::StarterPool ==> r
            == Err::<BaitRackCapacityPolicy, ManualFishingCastPreflightError>(
            ManualFishingCastPreflightError::StarterBasicRodOutsidePool,
        ),
        rod.kind != EquippedFishingRodKind::StarterBasic && rod.is_broken ==> r == Err::<
            BaitRackCapacityPolicy,
            ManualFishingCastPreflightError,
        >(ManualFishingCastPreflightError::BrokenFishingRod),
        (rod.kind == EquippedFishingRodKind::StarterBasic ==> area == FishingArea::StarterPool) && (
        rod.kind != EquippedFishingRodKind::StarterBasic ==> !rod.is_broken) ==> {
            let level = spec_bait_rack_level(rod.embedded_enchants@);
            &&& (level is Some && !(1 <= level->0 <= 3)) ==> r == Err::<
                BaitRackCapacityPolicy,
                ManualFishingCastPreflightError,
            >(
                ManualFishingCastPreflightError::BaitRack(
                    BaitRackPolicyError::LevelOutOfRange(level->0),
                ),
            )
            &&& (level is None || (1 <= level->0 <= 3)) ==> r == Ok::<
                BaitRackCapacityPolicy,
                ManualFishingCastPreflightError,
            >(spec_bait_rack_capacity(level))
        },
{
    match rod.kind {
        EquippedFishingRodKind::StarterBasic => {
            if area != FishingArea::StarterPool {
                return Err(ManualFishingCastPreflightError::StarterBasicRodOutsidePool);
            }
        },
        EquippedFishingRodKind::Ordinary { .. } => {
            if rod.is_broken {
                return Err(ManualFishingCastPreflightError::BrokenFishingRod);
            }
        },
    }
    let level = bait_rack_level(&rod.embedded_enchants);
    match bait_rack_capacity_policy(level) {
        Ok(policy) => Ok(policy),
        Err(e) => Err(ManualFishingCastPreflightError::BaitRack(e)),
    }
}

} // verus!
