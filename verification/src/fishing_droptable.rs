//! Base `/fish` catch-branch and within-Treasure result relative weights.
use vstd::prelude::*;

verus! {

#[derive(Clone, Copy, Debug, PartialEq, Eq, Structural)]
pub enum FishingCatchBranch {
    Fish,
    Junk,
    Treasure,
}

#[derive(Clone, Copy, Debug, PartialEq, Eq, Structural)]
pub struct FishingCatchBranchBasePolicy {
    pub branch: FishingCatchBranch,
    pub relative_weight: u16,
}

#[derive(Clone, Copy, Debug, PartialEq, Eq, Structural)]
pub enum FishingTreasureResult {
    MaterialBundle,
    CrateOrChest,
    EnchantBook,
    OrbOrCatalystFragmentOrItem,
    RareBaitOrUtilityItem,
    RelicOrCollectible,
}

#[derive(Clone, Copy, Debug, PartialEq, Eq, Structural)]
pub struct FishingTreasureResultBasePolicy {
    pub result: FishingTreasureResult,
    pub relative_weight: u16,
}

/// Base relative weights 176 / 17 / 7 (88.00% / 8.50% / 3.50% of 200).
pub open spec fn spec_branch_weight(branch: FishingCatchBranch) -> u16 {
    match branch {
        FishingCatchBranch::Fish => 176,
        FishingCatchBranch::Junk => 17,
        FishingCatchBranch::Treasure => 7,
    }
}

/// Within-Treasure relative weights 19 / 13 / 5 / 4 / 5 / 4 (of 50).
pub open spec fn spec_treasure_result_weight(result: FishingTreasureResult) -> u16 {
    match result {
        FishingTreasureResult::MaterialBundle => 19,
        FishingTreasureResult::CrateOrChest => 13,
        FishingTreasureResult::EnchantBook => 5,
        FishingTreasureResult::OrbOrCatalystFragmentOrItem => 4,
        FishingTreasureResult::RareBaitOrUtilityItem => 5,
        FishingTreasureResult::RelicOrCollectible => 4,
    }
}

/// Resolves one row of the zero-temporary-modifier `/fish` catch-branch table.
pub fn fishing_base_catch_branch_policy(branch: FishingCatchBranch) -> (r:
    FishingCatchBranchBasePolicy)
    ensures
        r.branch == branch,
        r.relative_weight == spec_branch_weight(branch),
{
    let relative_weight = match branch {
        FishingCatchBranch::Fish => 176,
        FishingCatchBranch::Junk => 17,
        FishingCatchBranch::Treasure => 7,
    };
    FishingCatchBranchBasePolicy { branch, relative_weight }
}

/// Resolves one row of the base result table after the Treasure branch has been selected.
pub fn fishing_base_treasure_result_policy(result: FishingTreasureResult) -> (r:
    FishingTreasureResultBasePolicy)
    ensures
        r.result == result,
        r.relative_weight == spec_treasure_result_weight(result),
{
    let relative_weight = match result {
        FishingTreasureResult::MaterialBundle => 19,
        FishingTreasureResult::CrateOrChest => 13,
        FishingTreasureResult::EnchantBook => 5,
        FishingTreasureResult::OrbOrCatalystFragmentOrItem => 4,
        FishingTreasureResult::RareBaitOrUtilityItem => 5,
        FishingTreasureResult::RelicOrCollectible => 4,
    };
    FishingTreasureResultBasePolicy { result, relative_weight }
}

/// Normalizing the base branch table reproduces 88.00% / 8.50% / 3.50% exactly, and the
/// Treasure table 38% / 26% / 10% / 8% / 10% / 8%.
pub proof fn lemma_base_tables_normalize_to_frozen_percentages()
    ensures
        spec_branch_weight(FishingCatchBranch::Fish) + spec_branch_weight(FishingCatchBranch::Junk)
            + spec_branch_weight(FishingCatchBranch::Treasure) == 200,
        spec_branch_weight(FishingCatchBranch::Fish) * 10_000 / 200 == 8_800,
        spec_branch_weight(FishingCatchBranch::Junk) * 10_000 / 200 == 850,
        spec_branch_weight(FishingCatchBranch::Treasure) * 10_000 / 200 == 350,
        spec_treasure_result_weight(FishingTreasureResult::MaterialBundle) + spec_treasure_result_weight(
            FishingTreasureResult::CrateOrChest,
        ) + spec_treasure_result_weight(FishingTreasureResult::EnchantBook)
            + spec_treasure_result_weight(FishingTreasureResult::OrbOrCatalystFragmentOrItem)
            + spec_treasure_result_weight(FishingTreasureResult::RareBaitOrUtilityItem)
            + spec_treasure_result_weight(FishingTreasureResult::RelicOrCollectible) == 50,
        spec_treasure_result_weight(FishingTreasureResult::MaterialBundle) * 100 / 50 == 38,
        spec_treasure_result_weight(FishingTreasureResult::CrateOrChest) * 100 / 50 == 26,
        spec_treasure_result_weight(FishingTreasureResult::EnchantBook) * 100 / 50 == 10,
        spec_treasure_result_weight(FishingTreasureResult::OrbOrCatalystFragmentOrItem) * 100 / 50
            == 8,
        spec_treasure_result_weight(FishingTreasureResult::RareBaitOrUtilityItem) * 100 / 50 == 10,
        spec_treasure_result_weight(FishingTreasureResult::RelicOrCollectible) * 100 / 50 == 8,
{
}

} // verus!
