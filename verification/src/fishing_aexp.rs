//! Base Manual Fishing Activity EXP per terminal outcome and the Treasure cast cap.
use vstd::prelude::*;

use crate::fishing_bait::FishingRarity;

verus! {

pub const MANUAL_FISHING_BASE_JUNK_AEXP: i64 = 2;
pub const MANUAL_FISHING_BASE_TREASURE_AEXP: i64 = 5;
pub const MANUAL_FISHING_BASE_MULTI_TREASURE_AEXP_CAP: i64 = 10;
pub const MANUAL_FISHING_MULTI_TREASURE_MAX_ITEMS: u8 = 3;

#[derive(Clone, Copy, Debug, PartialEq, Eq, Structural)]
pub enum ManualFishingAexpOutcome {
    LandedJunk,
    LandedTreasure,
    LandedFish(FishingRarity),
    FishEscaped,
    LineBreak,
}

#[derive(Clone, Copy, Debug, PartialEq, Eq, Structural)]
pub enum ManualFishingAexpError {
    LandedTreasureCountOutOfRange(u8),
}

/// Frozen base AEXP of a landed fish by rarity.
pub open spec fn spec_fish_rarity_base_aexp(rarity: FishingRarity) -> i64 {
    match rarity {
        FishingRarity::Common => 3,
        FishingRarity::Uncommon => 4,
        FishingRarity::Rare => 5,
        FishingRarity::Epic => 7,
        FishingRarity::Legendary => 10,
        FishingRarity::Mythic => 14,
    }
}

/// Base AEXP of one terminal outcome; failed fish results grant nothing.
pub open spec fn spec_outcome_aexp(outcome: ManualFishingAexpOutcome) -> Option<i64> {
    match outcome {
        ManualFishingAexpOutcome::LandedJunk => Some(MANUAL_FISHING_BASE_JUNK_AEXP),
        ManualFishingAexpOutcome::LandedTreasure => Some(MANUAL_FISHING_BASE_TREASURE_AEXP),
        ManualFishingAexpOutcome::LandedFish(rarity) => Some(spec_fish_rarity_base_aexp(rarity)),
        _ => None,
    }
}

/// Resolves the frozen base Manual Fishing Activity EXP for one terminal single-result outcome.
pub fn manual_fishing_base_outcome_aexp(outcome: ManualFishingAexpOutcome) -> (r: Option<i64>)
    ensures
        r == spec_outcome_aexp(outcome),
        r matches Some(v) ==> v > 0,
{
    match outcome {
        ManualFishingAexpOutcome::LandedJunk => Some(MANUAL_FISHING_BASE_JUNK_AEXP),
        ManualFishingAexpOutcome::LandedTreasure => Some(MANUAL_FISHING_BASE_TREASURE_AEXP),
        ManualFishingAexpOutcome::LandedFish(rarity) => Some(fish_rarity_base_aexp(rarity)),
        ManualFishingAexpOutcome::FishEscaped | ManualFishingAexpOutcome::LineBreak => None,
    }
}

/// Applies the frozen base Treasure Activity EXP cap for one successfully landed Treasure cast:
/// `min(5 x count, 10)` for 1-3 landed Treasure items.
pub fn manual_fishing_base_treasure_cast_aexp(landed_treasure_count: u8) -> (r: Result<
    i64,
    ManualFishingAexpError,
>)
    ensures
        !(1 <= landed_treasure_count <= MANUAL_FISHING_MULTI_TREASURE_MAX_ITEMS) ==> r == Err::<
            i64,
            ManualFishingAexpError,
        >(ManualFishingAexpError::LandedTreasureCountOutOfRange(landed_treasure_count)),
        1 <= landed_treasure_count <= MANUAL_FISHING_MULTI_TREASURE_MAX_ITEMS ==> r == Ok::<
            i64,
            ManualFishingAexpError,
        >(
            if landed_treasure_count * MANUAL_FISHING_BASE_TREASURE_AEXP
                < MANUAL_FISHING_BASE_MULTI_TREASURE_AEXP_CAP {
                (landed_treasure_count * MANUAL_FISHING_BASE_TREASURE_AEXP) as i64
            } else {
                MANUAL_FISHING_BASE_MULTI_TREASURE_AEXP_CAP
            },
        ),        1 <= landed_treasure_count <= 3 ==> r == Ok::<i64, ManualFishingAexpError>(
            if landed_treasure_count == 1 {
                5
            } else {
                10
            },
        ),
        !(1 <= landed_treasure_count <= 3) ==> r is Err,
{
    if !(1 <= landed_treasure_count && landed_treasure_count <= MANUAL_FISHING_MULTI_TREASURE_MAX_ITEMS) {
        return Err(ManualFishingAexpError::LandedTreasureCountOutOfRange(landed_treasure_count));
    }
    let raw = (landed_treasure_count as i64) * MANUAL_FISHING_BASE_TREASURE_AEXP;
    if raw < MANUAL_FISHING_BASE_MULTI_TREASURE_AEXP_CAP {
        Ok(raw)
    } else {
        Ok(MANUAL_FISHING_BASE_MULTI_TREASURE_AEXP_CAP)
    }
}

fn fish_rarity_base_aexp(rarity: FishingRarity) -> (r: i64)
    ensures
        r == spec_fish_rarity_base_aexp(rarity),
{
    match rarity {
        FishingRarity::Common => 3,
        FishingRarity::Uncommon => 4,
        FishingRarity::Rare => 5,
        FishingRarity::Epic => 7,
        FishingRarity::Legendary => 10,
        FishingRarity::Mythic => 14,
    }
}

/// The frozen base Activity EXP of each terminal outcome: junk 2, treasure 5, a landed fish 3, 4,
/// 5, 7, 10 or 14 from Common up to Mythic (strictly more for each rarer tier), and nothing for an
/// escaped fish or a broken line.
pub proof fn lemma_outcome_aexp_table()
    ensures
        spec_outcome_aexp(ManualFishingAexpOutcome::LandedJunk) == Some(2i64),
        spec_outcome_aexp(ManualFishingAexpOutcome::LandedTreasure) == Some(5i64),
        spec_outcome_aexp(ManualFishingAexpOutcome::LandedFish(FishingRarity::Common)) == Some(3i64),
        spec_outcome_aexp(ManualFishingAexpOutcome::LandedFish(FishingRarity::Uncommon)) == Some(
            4i64,
        ),
        spec_outcome_aexp(ManualFishingAexpOutcome::LandedFish(FishingRarity::Rare)) == Some(5i64),
        spec_outcome_aexp(ManualFishingAexpOutcome::LandedFish(FishingRarity::Epic)) == Some(7i64),
        spec_outcome_aexp(ManualFishingAexpOutcome::LandedFish(FishingRarity::Legendary)) == Some(
            10i64,
        ),
        spec_outcome_aexp(ManualFishingAexpOutcome::LandedFish(FishingRarity::Mythic)) == Some(
            14i64,
        ),
        spec_outcome_aexp(ManualFishingAexpOutcome::FishEscaped) == None::<i64>,
        spec_outcome_aexp(ManualFishingAexpOutcome::LineBreak) == None::<i64>,
{
}

} // verus!
