use graphite_services::equipment_policy::EquipmentTier;
use graphite_services::fishing_capability::FishingCapabilityError;
use graphite_services::fishing_bait::FishingRarity;
use graphite_services::fishing_capability::FishingRodBaseStats;
use graphite_services::fishing_capability::NORMAL_ROD_DURABILITY_PER_COMPLETED_CAST_ATTEMPT;
use graphite_services::fishing_capability::fishing_rarity_tension_multiplier;
use graphite_services::fishing_capability::fishing_tension;
use graphite_services::fishing_capability::ordinary_fishing_rod_base_stats;

#[test]
fn ordinary_rod_table_matches_every_frozen_tier() {
    let expected = [
        (EquipmentTier::Wood, 6_000, 600, false),
        (EquipmentTier::Stone, 10_000, 900, false),
        (EquipmentTier::Copper, 18_000, 1_400, false),
        (EquipmentTier::Gold, 40_000, 550, true),
        (EquipmentTier::Iron, 30_000, 2_200, false),
        (EquipmentTier::Diamond, 55_000, 3_300, false),
        (EquipmentTier::Obsidian, 85_000, 5_000, false),
        (EquipmentTier::Netherite, 120_000, 7_600, false),
        (EquipmentTier::Graphite, 160_000, 11_000, false),
    ];

    for (tier, line_strength, durability, gold_side_grade) in expected {
        assert_eq!(
            ordinary_fishing_rod_base_stats(tier),
            Ok(FishingRodBaseStats {
                tier,
                base_line_strength_grams_tension: line_strength,
                base_durability: durability,
                gold_side_grade,
            })
        );
    }
}

#[test]
fn starter_leather_cannot_be_interpreted_as_an_ordinary_rod() {
    assert_eq!(
        ordinary_fishing_rod_base_stats(EquipmentTier::StarterLeather),
        Err(FishingCapabilityError::StarterLeatherIsNotOrdinaryRodTier)
    );
}

#[test]
fn rarity_tension_multipliers_match_the_frozen_table() {
    let expected = [
        (FishingRarity::Common, 1, 1),
        (FishingRarity::Uncommon, 11, 10),
        (FishingRarity::Rare, 5, 4),
        (FishingRarity::Epic, 29, 20),
        (FishingRarity::Legendary, 7, 4),
        (FishingRarity::Mythic, 11, 5),
    ];

    for (rarity, numerator, denominator) in expected {
        let multiplier = fishing_rarity_tension_multiplier(rarity);
        assert_eq!(multiplier.numerator(), numerator);
        assert_eq!(multiplier.denominator(), denominator);
    }
}

#[test]
fn fish_tension_is_exact_and_reduced() {
    let legendary = fishing_tension(400, FishingRarity::Legendary).unwrap();
    assert_eq!(legendary.numerator_gram_tension(), 700);
    assert_eq!(legendary.denominator(), 1);

    let uncommon = fishing_tension(1, FishingRarity::Uncommon).unwrap();
    assert_eq!(uncommon.numerator_gram_tension(), 11);
    assert_eq!(uncommon.denominator(), 10);
}

#[test]
fn fish_tension_rejects_impossible_or_unsupported_inputs() {
    assert_eq!(
        fishing_tension(0, FishingRarity::Common),
        Err(FishingCapabilityError::ZeroFishWeight)
    );
    assert_eq!(
        fishing_tension(u64::MAX, FishingRarity::Mythic),
        Err(FishingCapabilityError::ArithmeticOverflow)
    );
}

#[test]
fn normal_rod_cast_cost_is_one_durability_event() {
    assert_eq!(NORMAL_ROD_DURABILITY_PER_COMPLETED_CAST_ATTEMPT, 1);
}
