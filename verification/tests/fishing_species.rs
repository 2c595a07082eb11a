use graphite_services::fishing_species::CANONICAL_FISH_AREA_ROWS;
use graphite_services::fishing_species::CANONICAL_FISH_SPECIES_COUNT;
use graphite_services::fishing_area::FishingArea;
use graphite_services::fishing_bait::FishingRarity;
use graphite_services::fishing_species::FishingSpecies;
use graphite_services::fishing_species::FishingSpeciesPolicy;
use graphite_services::fishing_species::fishing_area_species_pool;
use graphite_services::fishing_species::fishing_species_policy;
use graphite_services::fishing_species::preview_rare_bait_area_species_weight;

const CURRENT_AREA_POOL_WEIGHT_SUM: u16 = 100;
const ALL_SPECIES: [FishingSpecies; CANONICAL_FISH_SPECIES_COUNT] = [
    FishingSpecies::Bluegill,
    FishingSpecies::Carp,
    FishingSpecies::Catfish,
    FishingSpecies::Koi,
    FishingSpecies::Trout,
    FishingSpecies::Salmon,
    FishingSpecies::Pike,
    FishingSpecies::Sturgeon,
    FishingSpecies::Bass,
    FishingSpecies::Mackerel,
    FishingSpecies::Snapper,
    FishingSpecies::Tuna,
    FishingSpecies::Pufferfish,
    FishingSpecies::Swordfish,
    FishingSpecies::Marlin,
    FishingSpecies::GiantGrouper,
    FishingSpecies::Shark,
    FishingSpecies::Coelacanth,
    FishingSpecies::Anglerfish,
    FishingSpecies::AbyssEel,
    FishingSpecies::Moonfish,
    FishingSpecies::LeviathanFry,
];
const ALL_AREAS: [FishingArea; 6] = [
    FishingArea::StarterPool,
    FishingArea::River,
    FishingArea::Lake,
    FishingArea::Coast,
    FishingArea::DeepSea,
    FishingArea::Abyss,
];

#[test]
fn species_catalog_has_exact_positive_finite_metadata() {
    assert_eq!(ALL_SPECIES.len(), CANONICAL_FISH_SPECIES_COUNT);
    for species in ALL_SPECIES {
        let policy = fishing_species_policy(species);
        assert_eq!(policy.species, species);
        assert!(policy.reference_weight_grams > 0);
        assert!(policy.base_npc_value_money > 0);
        assert!(policy.reference_length_millimeters > 0);
    }
}

#[test]
fn area_pools_preserve_expected_cardinality_and_current_weight_sums() {
    let expected_lengths = [4, 5, 5, 5, 6, 6];
    let mut total_rows = 0;

    for (area, expected_len) in ALL_AREAS.into_iter().zip(expected_lengths) {
        let rows = fishing_area_species_pool(area);
        total_rows += rows.len();
        assert_eq!(rows.len(), expected_len);
        assert!(
            rows.iter()
                .all(|row| row.area == area && row.pool_weight > 0)
        );
        assert_eq!(
            rows.iter().map(|row| row.pool_weight).sum::<u16>(),
            CURRENT_AREA_POOL_WEIGHT_SUM
        );
    }

    assert_eq!(total_rows, CANONICAL_FISH_AREA_ROWS);
}

#[test]
fn repeated_species_reuse_one_species_policy_across_areas() {
    assert!(
        fishing_area_species_pool(FishingArea::StarterPool)
            .iter()
            .any(|row| row.species == FishingSpecies::Catfish)
    );
    assert!(
        fishing_area_species_pool(FishingArea::River)
            .iter()
            .any(|row| row.species == FishingSpecies::Catfish)
    );
    assert!(
        fishing_area_species_pool(FishingArea::Lake)
            .iter()
            .any(|row| row.species == FishingSpecies::Catfish)
    );
    assert!(
        fishing_area_species_pool(FishingArea::DeepSea)
            .iter()
            .any(|row| row.species == FishingSpecies::Coelacanth)
    );
    assert!(
        fishing_area_species_pool(FishingArea::Abyss)
            .iter()
            .any(|row| row.species == FishingSpecies::Coelacanth)
    );
}

#[test]
fn highest_rarity_and_reference_values_match_the_frozen_catalog() {
    assert_eq!(
        fishing_species_policy(FishingSpecies::LeviathanFry),
        FishingSpeciesPolicy {
            species: FishingSpecies::LeviathanFry,
            rarity: FishingRarity::Mythic,
            reference_weight_grams: 100_000,
            base_npc_value_money: 10_000,
            reference_length_millimeters: 2_500,
        }
    );
    assert_eq!(
        fishing_species_policy(FishingSpecies::Coelacanth).base_npc_value_money,
        5_000
    );
}

#[test]
fn rare_bait_applies_catalog_factor_to_every_eligible_area_row_only() {
    let mut rows_seen = 0;
    for area in ALL_AREAS {
        for row in fishing_area_species_pool(area) {
            rows_seen += 1;
            let preview = preview_rare_bait_area_species_weight(area, row.species).unwrap();
            let rarity = fishing_species_policy(row.species).rarity;
            let eligible = matches!(
                rarity,
                FishingRarity::Rare
                    | FishingRarity::Epic
                    | FishingRarity::Legendary
                    | FishingRarity::Mythic
            );

            assert_eq!(preview.area, area);
            assert_eq!(preview.species, row.species);
            assert_eq!(preview.rarity, rarity);
            assert_eq!(preview.base_pool_weight, row.pool_weight);
            assert_eq!(preview.rare_bait_applied, eligible);

            let expected_factor = if eligible { (28, 25) } else { (1, 1) };
            assert_eq!(
                (
                    preview.relative_weight_factor_numerator(),
                    preview.relative_weight_factor_denominator(),
                ),
                expected_factor
            );
            assert_eq!(
                preview.adjusted_pool_weight_numerator(),
                u32::from(row.pool_weight) * u32::from(expected_factor.0)
            );
            assert_eq!(
                preview.adjusted_pool_weight_denominator(),
                expected_factor.1
            );
        }
    }

    assert_eq!(rows_seen, CANONICAL_FISH_AREA_ROWS);
}

#[test]
fn rare_bait_preview_rejects_noncanonical_area_species_pairs() {
    assert_eq!(
        preview_rare_bait_area_species_weight(
            FishingArea::StarterPool,
            FishingSpecies::LeviathanFry,
        ),
        None
    );
    assert_eq!(
        preview_rare_bait_area_species_weight(FishingArea::River, FishingSpecies::Bluegill),
        None
    );
}
