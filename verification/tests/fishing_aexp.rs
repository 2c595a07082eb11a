use graphite_services::fishing_bait::FishingRarity;
use graphite_services::fishing_aexp::ManualFishingAexpError;
use graphite_services::fishing_aexp::ManualFishingAexpOutcome;
use graphite_services::fishing_aexp::manual_fishing_base_outcome_aexp;
use graphite_services::fishing_aexp::manual_fishing_base_treasure_cast_aexp;

#[test]
fn single_result_table_matches_every_frozen_manual_fishing_base_value() {
    assert_eq!(
        manual_fishing_base_outcome_aexp(ManualFishingAexpOutcome::LandedJunk),
        Some(2)
    );
    assert_eq!(
        manual_fishing_base_outcome_aexp(ManualFishingAexpOutcome::LandedTreasure),
        Some(5)
    );

    let expected = [
        (FishingRarity::Common, 3),
        (FishingRarity::Uncommon, 4),
        (FishingRarity::Rare, 5),
        (FishingRarity::Epic, 7),
        (FishingRarity::Legendary, 10),
        (FishingRarity::Mythic, 14),
    ];
    for (rarity, aexp) in expected {
        assert_eq!(
            manual_fishing_base_outcome_aexp(ManualFishingAexpOutcome::LandedFish(rarity)),
            Some(aexp)
        );
    }
}

#[test]
fn failed_fish_outcomes_create_no_aexp_grant() {
    assert_eq!(
        manual_fishing_base_outcome_aexp(ManualFishingAexpOutcome::FishEscaped),
        None
    );
    assert_eq!(
        manual_fishing_base_outcome_aexp(ManualFishingAexpOutcome::LineBreak),
        None
    );
}

#[test]
fn treasure_cast_base_aexp_caps_at_ten() {
    assert_eq!(manual_fishing_base_treasure_cast_aexp(1), Ok(5));
    assert_eq!(manual_fishing_base_treasure_cast_aexp(2), Ok(10));
    assert_eq!(manual_fishing_base_treasure_cast_aexp(3), Ok(10));
}

#[test]
fn noncanonical_treasure_counts_fail_closed() {
    for count in [0, 4, u8::MAX] {
        assert_eq!(
            manual_fishing_base_treasure_cast_aexp(count),
            Err(ManualFishingAexpError::LandedTreasureCountOutOfRange(
                count
            ))
        );
    }
}
