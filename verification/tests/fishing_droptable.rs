use graphite_services::fishing_droptable::FishingCatchBranch;
use graphite_services::fishing_droptable::FishingTreasureResult;
use graphite_services::fishing_droptable::fishing_base_catch_branch_policy;
use graphite_services::fishing_droptable::fishing_base_treasure_result_policy;

const CATCH_BRANCHES: [FishingCatchBranch; 3] = [
    FishingCatchBranch::Fish,
    FishingCatchBranch::Junk,
    FishingCatchBranch::Treasure,
];
const TREASURE_RESULTS: [FishingTreasureResult; 6] = [
    FishingTreasureResult::MaterialBundle,
    FishingTreasureResult::CrateOrChest,
    FishingTreasureResult::EnchantBook,
    FishingTreasureResult::OrbOrCatalystFragmentOrItem,
    FishingTreasureResult::RareBaitOrUtilityItem,
    FishingTreasureResult::RelicOrCollectible,
];

#[test]
fn catch_branch_weights_reproduce_exact_zero_modifier_chances() {
    let weights = CATCH_BRANCHES.map(|branch| {
        fishing_base_catch_branch_policy(branch).relative_weight
    });
    assert_eq!(weights, [176, 17, 7]);

    let total: u16 = weights.iter().sum();
    assert_eq!(total, 200);
    assert_eq!(
        weights.map(|weight| u32::from(weight) * 10_000 / u32::from(total)),
        [8_800, 850, 350]
    );
}

#[test]
fn treasure_result_weights_reproduce_exact_internal_chances() {
    let weights = TREASURE_RESULTS.map(|result| {
        fishing_base_treasure_result_policy(result).relative_weight
    });
    assert_eq!(weights, [19, 13, 5, 4, 5, 4]);

    let total: u16 = weights.iter().sum();
    assert_eq!(total, 50);
    assert_eq!(
        weights.map(|weight| u32::from(weight) * 10_000 / u32::from(total)),
        [3_800, 2_600, 1_000, 800, 1_000, 800]
    );
}

#[test]
fn nested_treasure_weights_reproduce_exact_overall_base_chances() {
    let branch_weights = CATCH_BRANCHES.map(|branch| {
        fishing_base_catch_branch_policy(branch).relative_weight
    });
    let treasure_weights = TREASURE_RESULTS.map(|result| {
        fishing_base_treasure_result_policy(result).relative_weight
    });
    let branch_total: u32 = branch_weights.iter().map(|weight| u32::from(*weight)).sum();
    let treasure_total: u32 = treasure_weights.iter().map(|weight| u32::from(*weight)).sum();
    let treasure_branch_weight =
        fishing_base_catch_branch_policy(FishingCatchBranch::Treasure).relative_weight;

    let overall_basis_points = treasure_weights.map(|result_weight| {
        u32::from(treasure_branch_weight) * u32::from(result_weight) * 10_000
            / (branch_total * treasure_total)
    });
    assert_eq!(overall_basis_points, [133, 91, 35, 28, 35, 28]);
}
