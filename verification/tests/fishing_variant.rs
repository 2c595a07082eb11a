use graphite_services::fishing_variant::CANONICAL_FISH_VARIANT_COUNT;
use graphite_services::fishing_variant::FishingVariant;
use graphite_services::fishing_variant::fishing_variant_catalog;
use graphite_services::fishing_variant::fishing_variant_policy;

#[test]
fn catalog_contains_exactly_five_valid_variants() {
    let catalog = fishing_variant_catalog();
    assert_eq!(catalog.len(), CANONICAL_FISH_VARIANT_COUNT);

    for row in &catalog {
        assert_eq!(*row, fishing_variant_policy(row.variant));
        assert!(row.base_probability.denominator() > 0);
        assert!(row.value_multiplier.denominator() > 0);
    }
}

#[test]
fn base_probabilities_sum_to_exactly_one() {
    const COMMON_DENOMINATOR: u32 = 200;

    let numerator_sum = fishing_variant_catalog()
        .iter()
        .map(|row| {
            let ratio = row.base_probability;
            let denominator = u32::from(ratio.denominator());
            assert_eq!(COMMON_DENOMINATOR % denominator, 0);
            u32::from(ratio.numerator()) * (COMMON_DENOMINATOR / denominator)
        })
        .sum::<u32>();

    assert_eq!(numerator_sum, COMMON_DENOMINATOR);
}

#[test]
fn non_normal_probability_is_exactly_six_percent() {
    const COMMON_DENOMINATOR: u32 = 200;

    let numerator_sum = fishing_variant_catalog()
        .iter()
        .filter(|row| row.variant != FishingVariant::Normal)
        .map(|row| {
            let ratio = row.base_probability;
            u32::from(ratio.numerator())
                * (COMMON_DENOMINATOR / u32::from(ratio.denominator()))
        })
        .sum::<u32>();

    assert_eq!(numerator_sum, 12);
}

#[test]
fn value_multipliers_match_the_frozen_table() {
    let expected = [
        (FishingVariant::Normal, 1, 1),
        (FishingVariant::Silver, 5, 4),
        (FishingVariant::Golden, 7, 4),
        (FishingVariant::Albino, 2, 1),
        (FishingVariant::Iridescent, 3, 1),
    ];

    for (variant, numerator, denominator) in expected {
        let ratio = fishing_variant_policy(variant).value_multiplier;
        assert_eq!(ratio.numerator(), numerator);
        assert_eq!(ratio.denominator(), denominator);
    }
}
