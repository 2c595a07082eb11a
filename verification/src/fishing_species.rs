//! Canonical Fishing species metadata, per-area species pools and the Rare Bait pool preview.
use vstd::prelude::*;

use crate::fishing_area::FishingArea;
use crate::fishing_bait::{fishing_bait_policy, FishingBait, FishingBaitEffect, FishingRarity};

verus! {

pub const CANONICAL_FISH_SPECIES_COUNT: usize = 22;

pub const CANONICAL_FISH_AREA_ROWS: usize = 31;

#[derive(Clone, Copy, Debug, PartialEq, Eq, Structural)]
pub enum FishingSpecies {
    Bluegill,
    Carp,
    Catfish,
    Koi,
    Trout,
    Salmon,
    Pike,
    Sturgeon,
    Bass,
    Mackerel,
    Snapper,
    Tuna,
    Pufferfish,
    Swordfish,
    Marlin,
    GiantGrouper,
    Shark,
    Coelacanth,
    Anglerfish,
    AbyssEel,
    Moonfish,
    LeviathanFry,
}

#[derive(Clone, Copy, Debug, PartialEq, Eq, Structural)]
pub struct FishingSpeciesPolicy {
    pub species: FishingSpecies,
    pub rarity: FishingRarity,
    pub reference_weight_grams: u32,
    pub base_npc_value_money: i64,
    pub reference_length_millimeters: u16,
}

#[derive(Clone, Copy, Debug, PartialEq, Eq, Structural)]
pub struct FishingAreaSpeciesPolicy {
    pub area: FishingArea,
    pub species: FishingSpecies,
    pub pool_weight: u16,
}

#[derive(Clone, Copy, Debug, PartialEq, Eq, Structural)]
pub struct RareBaitAreaSpeciesWeightPreview {
    pub area: FishingArea,
    pub species: FishingSpecies,
    pub rarity: FishingRarity,
    pub base_pool_weight: u16,
    pub rare_bait_applied: bool,
    relative_weight_factor_numerator: u16,
    relative_weight_factor_denominator: u16,
    adjusted_pool_weight_numerator: u32,
    adjusted_pool_weight_denominator: u16,
}

impl RareBaitAreaSpeciesWeightPreview {
    /// The previewed area.
    pub closed spec fn spec_area(self) -> FishingArea {
        self.area
    }

    /// The previewed species.
    pub closed spec fn spec_species(self) -> FishingSpecies {
        self.species
    }

    /// The species rarity.
    pub closed spec fn spec_rarity(self) -> FishingRarity {
        self.rarity
    }

    /// The canonical base pool weight of the area row.
    pub closed spec fn spec_base_pool_weight(self) -> u16 {
        self.base_pool_weight
    }

    /// Whether Rare Bait applies to the row.
    pub closed spec fn spec_applied(self) -> bool {
        self.rare_bait_applied
    }

    /// The relative weight factor numerator.
    pub closed spec fn factor_num(self) -> u16 {
        self.relative_weight_factor_numerator
    }

    /// The relative weight factor denominator.
    pub closed spec fn factor_den(self) -> u16 {
        self.relative_weight_factor_denominator
    }

    /// The adjusted pool weight numerator.
    pub closed spec fn adjusted_num(self) -> u32 {
        self.adjusted_pool_weight_numerator
    }

    /// The adjusted pool weight denominator.
    pub closed spec fn adjusted_den(self) -> u16 {
        self.adjusted_pool_weight_denominator
    }

    pub fn relative_weight_factor_numerator(self) -> (r: u16)
        ensures
            r == self.factor_num(),
    {
        self.relative_weight_factor_numerator
    }

    pub fn relative_weight_factor_denominator(self) -> (r: u16)
        ensures
            r == self.factor_den(),
    {
        self.relative_weight_factor_denominator
    }

    pub fn adjusted_pool_weight_numerator(self) -> (r: u32)
        ensures
            r == self.adjusted_num(),
    {
        self.adjusted_pool_weight_numerator
    }

    pub fn adjusted_pool_weight_denominator(self) -> (r: u16)
        ensures
            r == self.adjusted_den(),
    {
        self.adjusted_pool_weight_denominator
    }
}

/// Frozen rarity, reference weight (g), base NPC Money value and reference length (mm).
pub open spec fn spec_species_row(species: FishingSpecies) -> (FishingRarity, u32, i64, u16) {
    match species {
        FishingSpecies::Bluegill => (FishingRarity::Common, 400, 50, 200),
        FishingSpecies::Carp => (FishingRarity::Common, 2_000, 90, 450),
        FishingSpecies::Catfish => (FishingRarity::Uncommon, 3_000, 150, 550),
        FishingSpecies::Koi => (FishingRarity::Rare, 1_500, 400, 400),
        FishingSpecies::Trout => (FishingRarity::Common, 1_000, 100, 350),
        FishingSpecies::Salmon => (FishingRarity::Uncommon, 3_000, 180, 650),
        FishingSpecies::Pike => (FishingRarity::Rare, 4_000, 350, 700),
        FishingSpecies::Sturgeon => (FishingRarity::Epic, 8_000, 900, 1_100),
        FishingSpecies::Bass => (FishingRarity::Common, 1_200, 130, 400),
        FishingSpecies::Mackerel => (FishingRarity::Common, 1_000, 160, 350),
        FishingSpecies::Snapper => (FishingRarity::Uncommon, 2_000, 250, 450),
        FishingSpecies::Tuna => (FishingRarity::Rare, 15_000, 700, 1_200),
        FishingSpecies::Pufferfish => (FishingRarity::Rare, 1_000, 350, 250),
        FishingSpecies::Swordfish => (FishingRarity::Epic, 30_000, 1_200, 2_000),
        FishingSpecies::Marlin => (FishingRarity::Epic, 40_000, 1_600, 2_300),
        FishingSpecies::GiantGrouper => (FishingRarity::Epic, 50_000, 1_800, 1_500),
        FishingSpecies::Shark => (FishingRarity::Legendary, 70_000, 2_500, 2_200),
        FishingSpecies::Coelacanth => (FishingRarity::Legendary, 20_000, 5_000, 1_400),
        FishingSpecies::Anglerfish => (FishingRarity::Rare, 5_000, 1_200, 500),
        FishingSpecies::AbyssEel => (FishingRarity::Epic, 8_000, 1_800, 1_200),
        FishingSpecies::Moonfish => (FishingRarity::Legendary, 10_000, 3_500, 600),
        FishingSpecies::LeviathanFry => (FishingRarity::Mythic, 100_000, 10_000, 2_500),
    }
}

/// Resolves immutable finite species metadata from the canonical Fishing catalog.
pub fn fishing_species_policy(species: FishingSpecies) -> (r: FishingSpeciesPolicy)
    ensures
        r == (FishingSpeciesPolicy {
            species,
            rarity: spec_species_row(species).0,
            reference_weight_grams: spec_species_row(species).1,
            base_npc_value_money: spec_species_row(species).2,
            reference_length_millimeters: spec_species_row(species).3,
        }),
{
    let (rarity, reference_weight_grams, base_npc_value_money, reference_length_millimeters) =
        match species {
            FishingSpecies::Bluegill => (FishingRarity::Common, 400, 50, 200),
            FishingSpecies::Carp => (FishingRarity::Common, 2_000, 90, 450),
            FishingSpecies::Catfish => (FishingRarity::Uncommon, 3_000, 150, 550),
            FishingSpecies::Koi => (FishingRarity::Rare, 1_500, 400, 400),
            FishingSpecies::Trout => (FishingRarity::Common, 1_000, 100, 350),
            FishingSpecies::Salmon => (FishingRarity::Uncommon, 3_000, 180, 650),
            FishingSpecies::Pike => (FishingRarity::Rare, 4_000, 350, 700),
            FishingSpecies::Sturgeon => (FishingRarity::Epic, 8_000, 900, 1_100),
            FishingSpecies::Bass => (FishingRarity::Common, 1_200, 130, 400),
            FishingSpecies::Mackerel => (FishingRarity::Common, 1_000, 160, 350),
            FishingSpecies::Snapper => (FishingRarity::Uncommon, 2_000, 250, 450),
            FishingSpecies::Tuna => (FishingRarity::Rare, 15_000, 700, 1_200),
            FishingSpecies::Pufferfish => (FishingRarity::Rare, 1_000, 350, 250),
            FishingSpecies::Swordfish => (FishingRarity::Epic, 30_000, 1_200, 2_000),
            FishingSpecies::Marlin => (FishingRarity::Epic, 40_000, 1_600, 2_300),
            FishingSpecies::GiantGrouper => (FishingRarity::Epic, 50_000, 1_800, 1_500),
            FishingSpecies::Shark => (FishingRarity::Legendary, 70_000, 2_500, 2_200),
            FishingSpecies::Coelacanth => (FishingRarity::Legendary, 20_000, 5_000, 1_400),
            FishingSpecies::Anglerfish => (FishingRarity::Rare, 5_000, 1_200, 500),
            FishingSpecies::AbyssEel => (FishingRarity::Epic, 8_000, 1_800, 1_200),
            FishingSpecies::Moonfish => (FishingRarity::Legendary, 10_000, 3_500, 600),
            FishingSpecies::LeviathanFry => (FishingRarity::Mythic, 100_000, 10_000, 2_500),
    };
    FishingSpeciesPolicy {
        species,
        rarity,
        reference_weight_grams,
        base_npc_value_money,
        reference_length_millimeters,
    }
}

/// One area species-pool row.
pub open spec fn spec_area_row(
    area: FishingArea,
    species: FishingSpecies,
    pool_weight: u16,
) -> FishingAreaSpeciesPolicy {
    FishingAreaSpeciesPolicy { area, species, pool_weight }
}

fn area_row(area: FishingArea, species: FishingSpecies, pool_weight: u16) -> (r:
    FishingAreaSpeciesPolicy)
    ensures
        r == spec_area_row(area, species, pool_weight),
{
    FishingAreaSpeciesPolicy { area, species, pool_weight }
}

/// The canonical relative species-weight rows of each Fishing area, in catalog order.
pub open spec fn spec_area_pool(area: FishingArea) -> Seq<FishingAreaSpeciesPolicy> {
    match area {
        FishingArea::StarterPool => seq![
            spec_area_row(FishingArea::StarterPool, FishingSpecies::Bluegill, 45),
            spec_area_row(FishingArea::StarterPool, FishingSpecies::Carp, 35),
            spec_area_row(FishingArea::StarterPool, FishingSpecies::Catfish, 15),
            spec_area_row(FishingArea::StarterPool, FishingSpecies::Koi, 5),
        ],
        FishingArea::River => seq![
            spec_area_row(FishingArea::River, FishingSpecies::Trout, 30),
            spec_area_row(FishingArea::River, FishingSpecies::Salmon, 25),
            spec_area_row(FishingArea::River, FishingSpecies::Catfish, 20),
            spec_area_row(FishingArea::River, FishingSpecies::Pike, 15),
            spec_area_row(FishingArea::River, FishingSpecies::Sturgeon, 10),
        ],
        FishingArea::Lake => seq![
            spec_area_row(FishingArea::Lake, FishingSpecies::Carp, 25),
            spec_area_row(FishingArea::Lake, FishingSpecies::Bass, 25),
            spec_area_row(FishingArea::Lake, FishingSpecies::Catfish, 20),
            spec_area_row(FishingArea::Lake, FishingSpecies::Koi, 15),
            spec_area_row(FishingArea::Lake, FishingSpecies::Sturgeon, 15),
        ],
        FishingArea::Coast => seq![
            spec_area_row(FishingArea::Coast, FishingSpecies::Mackerel, 30),
            spec_area_row(FishingArea::Coast, FishingSpecies::Snapper, 25),
            spec_area_row(FishingArea::Coast, FishingSpecies::Tuna, 20),
            spec_area_row(FishingArea::Coast, FishingSpecies::Pufferfish, 15),
            spec_area_row(FishingArea::Coast, FishingSpecies::Swordfish, 10),
        ],
        FishingArea::DeepSea => seq![
            spec_area_row(FishingArea::DeepSea, FishingSpecies::Tuna, 25),
            spec_area_row(FishingArea::DeepSea, FishingSpecies::Swordfish, 20),
            spec_area_row(FishingArea::DeepSea, FishingSpecies::Marlin, 15),
            spec_area_row(FishingArea::DeepSea, FishingSpecies::GiantGrouper, 15),
            spec_area_row(FishingArea::DeepSea, FishingSpecies::Shark, 15),
            spec_area_row(FishingArea::DeepSea, FishingSpecies::Coelacanth, 10),
        ],
        FishingArea::Abyss => seq![
            spec_area_row(FishingArea::Abyss, FishingSpecies::Anglerfish, 25),
            spec_area_row(FishingArea::Abyss, FishingSpecies::AbyssEel, 25),
            spec_area_row(FishingArea::Abyss, FishingSpecies::Coelacanth, 20),
            spec_area_row(FishingArea::Abyss, FishingSpecies::Moonfish, 15),
            spec_area_row(FishingArea::Abyss, FishingSpecies::LeviathanFry, 5),
            spec_area_row(FishingArea::Abyss, FishingSpecies::GiantGrouper, 10),
        ],
    }
}

/// A pool holds a row of `species` with weight `weight`.
pub open spec fn spec_pool_has(
    rows: Seq<FishingAreaSpeciesPolicy>,
    species: FishingSpecies,
    weight: u16,
) -> bool {
    exists|i: int| 0 <= i < rows.len() && (#[trigger] rows[i]).species == species && rows[i].pool_weight == weight
}

/// The frozen relative weight of every species in every area pool (each species appears once per
/// pool, so this is its weight there): Starter Pool Bluegill 45, Carp 35, Catfish 15, Koi 5; River
/// Trout 30, Salmon 25, Catfish 20, Pike 15, Sturgeon 10; and likewise for the other areas.
#[verifier::rlimit(50)]
pub proof fn lemma_area_pool_species_weights()
    ensures
        spec_area_pool(FishingArea::StarterPool).len() == 4,
        spec_pool_has(spec_area_pool(FishingArea::StarterPool), FishingSpecies::Bluegill, 45),
        spec_pool_has(spec_area_pool(FishingArea::StarterPool), FishingSpecies::Carp, 35),
        spec_pool_has(spec_area_pool(FishingArea::StarterPool), FishingSpecies::Catfish, 15),
        spec_pool_has(spec_area_pool(FishingArea::StarterPool), FishingSpecies::Koi, 5),
        spec_area_pool(FishingArea::River).len() == 5,
        spec_pool_has(spec_area_pool(FishingArea::River), FishingSpecies::Trout, 30),
        spec_pool_has(spec_area_pool(FishingArea::River), FishingSpecies::Salmon, 25),
        spec_pool_has(spec_area_pool(FishingArea::River), FishingSpecies::Catfish, 20),
        spec_pool_has(spec_area_pool(FishingArea::River), FishingSpecies::Pike, 15),
        spec_pool_has(spec_area_pool(FishingArea::River), FishingSpecies::Sturgeon, 10),
        spec_area_pool(FishingArea::Lake).len() == 5,
        spec_pool_has(spec_area_pool(FishingArea::Lake), FishingSpecies::Carp, 25),
        spec_pool_has(spec_area_pool(FishingArea::Lake), FishingSpecies::Bass, 25),
        spec_pool_has(spec_area_pool(FishingArea::Lake), FishingSpecies::Catfish, 20),
        spec_pool_has(spec_area_pool(FishingArea::Lake), FishingSpecies::Koi, 15),
        spec_pool_has(spec_area_pool(FishingArea::Lake), FishingSpecies::Sturgeon, 15),
        spec_area_pool(FishingArea::Coast).len() == 5,
        spec_pool_has(spec_area_pool(FishingArea::Coast), FishingSpecies::Mackerel, 30),
        spec_pool_has(spec_area_pool(FishingArea::Coast), FishingSpecies::Snapper, 25),
        spec_pool_has(spec_area_pool(FishingArea::Coast), FishingSpecies::Tuna, 20),
        spec_pool_has(spec_area_pool(FishingArea::Coast), FishingSpecies::Pufferfish, 15),
        spec_pool_has(spec_area_pool(FishingArea::Coast), FishingSpecies::Swordfish, 10),
        spec_area_pool(FishingArea::DeepSea).len() == 6,
        spec_pool_has(spec_area_pool(FishingArea::DeepSea), FishingSpecies::Tuna, 25),
        spec_pool_has(spec_area_pool(FishingArea::DeepSea), FishingSpecies::Swordfish, 20),
        spec_pool_has(spec_area_pool(FishingArea::DeepSea), FishingSpecies::Marlin, 15),
        spec_pool_has(spec_area_pool(FishingArea::DeepSea), FishingSpecies::GiantGrouper, 15),
        spec_pool_has(spec_area_pool(FishingArea::DeepSea), FishingSpecies::Shark, 15),
        spec_pool_has(spec_area_pool(FishingArea::DeepSea), FishingSpecies::Coelacanth, 10),
        spec_area_pool(FishingArea::Abyss).len() == 6,
        spec_pool_has(spec_area_pool(FishingArea::Abyss), FishingSpecies::Anglerfish, 25),
        spec_pool_has(spec_area_pool(FishingArea::Abyss), FishingSpecies::AbyssEel, 25),
        spec_pool_has(spec_area_pool(FishingArea::Abyss), FishingSpecies::Coelacanth, 20),
        spec_pool_has(spec_area_pool(FishingArea::Abyss), FishingSpecies::Moonfish, 15),
        spec_pool_has(spec_area_pool(FishingArea::Abyss), FishingSpecies::LeviathanFry, 5),
        spec_pool_has(spec_area_pool(FishingArea::Abyss), FishingSpecies::GiantGrouper, 10),
{
}

/// Returns the canonical relative species-weight rows eligible for one Fishing area.
pub fn fishing_area_species_pool(area: FishingArea) -> (r: Vec<FishingAreaSpeciesPolicy>)
    ensures
        r@ == spec_area_pool(area),
{
    match area {
        FishingArea::StarterPool => vec![
            area_row(FishingArea::StarterPool, FishingSpecies::Bluegill, 45),
            area_row(FishingArea::StarterPool, FishingSpecies::Carp, 35),
            area_row(FishingArea::StarterPool, FishingSpecies::Catfish, 15),
            area_row(FishingArea::StarterPool, FishingSpecies::Koi, 5),
        ],
        FishingArea::River => vec![
            area_row(FishingArea::River, FishingSpecies::Trout, 30),
            area_row(FishingArea::River, FishingSpecies::Salmon, 25),
            area_row(FishingArea::River, FishingSpecies::Catfish, 20),
            area_row(FishingArea::River, FishingSpecies::Pike, 15),
            area_row(FishingArea::River, FishingSpecies::Sturgeon, 10),
        ],
        FishingArea::Lake => vec![
            area_row(FishingArea::Lake, FishingSpecies::Carp, 25),
            area_row(FishingArea::Lake, FishingSpecies::Bass, 25),
            area_row(FishingArea::Lake, FishingSpecies::Catfish, 20),
            area_row(FishingArea::Lake, FishingSpecies::Koi, 15),
            area_row(FishingArea::Lake, FishingSpecies::Sturgeon, 15),
        ],
        FishingArea::Coast => vec![
            area_row(FishingArea::Coast, FishingSpecies::Mackerel, 30),
            area_row(FishingArea::Coast, FishingSpecies::Snapper, 25),
            area_row(FishingArea::Coast, FishingSpecies::Tuna, 20),
            area_row(FishingArea::Coast, FishingSpecies::Pufferfish, 15),
            area_row(FishingArea::Coast, FishingSpecies::Swordfish, 10),
        ],
        FishingArea::DeepSea => vec![
            area_row(FishingArea::DeepSea, FishingSpecies::Tuna, 25),
            area_row(FishingArea::DeepSea, FishingSpecies::Swordfish, 20),
            area_row(FishingArea::DeepSea, FishingSpecies::Marlin, 15),
            area_row(FishingArea::DeepSea, FishingSpecies::GiantGrouper, 15),
            area_row(FishingArea::DeepSea, FishingSpecies::Shark, 15),
            area_row(FishingArea::DeepSea, FishingSpecies::Coelacanth, 10),
        ],
        FishingArea::Abyss => vec![
            area_row(FishingArea::Abyss, FishingSpecies::Anglerfish, 25),
            area_row(FishingArea::Abyss, FishingSpecies::AbyssEel, 25),
            area_row(FishingArea::Abyss, FishingSpecies::Coelacanth, 20),
            area_row(FishingArea::Abyss, FishingSpecies::Moonfish, 15),
            area_row(FishingArea::Abyss, FishingSpecies::LeviathanFry, 5),
            area_row(FishingArea::Abyss, FishingSpecies::GiantGrouper, 10),
        ],
    }
}

/// Sum of the pool weights of a sequence of rows.
pub open spec fn spec_pool_weight_sum(rows: Seq<FishingAreaSpeciesPolicy>) -> nat
    decreases rows.len(),
{
    if rows.len() == 0 {
        0
    } else {
        spec_pool_weight_sum(rows.drop_last()) + rows.last().pool_weight as nat
    }
}

/// Every area pool lists only rows of its own area, with positive weights and distinct species;
/// the relative weights of each pool currently total 100, and the six pools hold the canonical
/// number of area rows.
pub proof fn lemma_area_pools_are_well_formed(area: FishingArea)
    ensures
        forall|i: int|
            0 <= i < spec_area_pool(area).len() ==> (#[trigger] spec_area_pool(area)[i]).area == area
                && spec_area_pool(area)[i].pool_weight > 0,
        forall|i: int, j: int|
            0 <= i < j < spec_area_pool(area).len() ==> (#[trigger] spec_area_pool(area)[i]).species
                != (#[trigger] spec_area_pool(area)[j]).species,
        spec_pool_weight_sum(spec_area_pool(area)) == 100,
        spec_area_pool(FishingArea::StarterPool).len() + spec_area_pool(FishingArea::River).len()
            + spec_area_pool(FishingArea::Lake).len() + spec_area_pool(FishingArea::Coast).len()
            + spec_area_pool(FishingArea::DeepSea).len() + spec_area_pool(FishingArea::Abyss).len()
            == CANONICAL_FISH_AREA_ROWS,
{
    reveal_with_fuel(spec_pool_weight_sum, 7);
}

/// Whether Rare Bait boosts a species of this rarity.
pub open spec fn spec_rare_bait_eligible(rarity: FishingRarity) -> bool {
    match rarity {
        FishingRarity::Rare | FishingRarity::Epic | FishingRarity::Legendary
        | FishingRarity::Mythic => true,
        _ => false,
    }
}

/// Rare Bait boosts exactly the Rare, Epic, Legendary and Mythic species, and each species has
/// its frozen rarity (Trout and Bluegill Common, Sturgeon Epic, Leviathan Fry Mythic, and so on).
pub proof fn lemma_rare_bait_eligibility_by_species()
    ensures
        forall|rarity: FishingRarity|
            #[trigger] spec_rare_bait_eligible(rarity) <==> (rarity == FishingRarity::Rare || rarity
                == FishingRarity::Epic || rarity == FishingRarity::Legendary || rarity
                == FishingRarity::Mythic),
        spec_species_row(FishingSpecies::Bluegill).0 == FishingRarity::Common,
        spec_species_row(FishingSpecies::Carp).0 == FishingRarity::Common,
        spec_species_row(FishingSpecies::Catfish).0 == FishingRarity::Uncommon,
        spec_species_row(FishingSpecies::Koi).0 == FishingRarity::Rare,
        spec_species_row(FishingSpecies::Trout).0 == FishingRarity::Common,
        spec_species_row(FishingSpecies::Salmon).0 == FishingRarity::Uncommon,
        spec_species_row(FishingSpecies::Pike).0 == FishingRarity::Rare,
        spec_species_row(FishingSpecies::Sturgeon).0 == FishingRarity::Epic,
        spec_species_row(FishingSpecies::Bass).0 == FishingRarity::Common,
        spec_species_row(FishingSpecies::Mackerel).0 == FishingRarity::Common,
        spec_species_row(FishingSpecies::Snapper).0 == FishingRarity::Uncommon,
        spec_species_row(FishingSpecies::Tuna).0 == FishingRarity::Rare,
        spec_species_row(FishingSpecies::Pufferfish).0 == FishingRarity::Rare,
        spec_species_row(FishingSpecies::Swordfish).0 == FishingRarity::Epic,
        spec_species_row(FishingSpecies::Marlin).0 == FishingRarity::Epic,
        spec_species_row(FishingSpecies::GiantGrouper).0 == FishingRarity::Epic,
        spec_species_row(FishingSpecies::Shark).0 == FishingRarity::Legendary,
        spec_species_row(FishingSpecies::Coelacanth).0 == FishingRarity::Legendary,
        spec_species_row(FishingSpecies::Anglerfish).0 == FishingRarity::Rare,
        spec_species_row(FishingSpecies::AbyssEel).0 == FishingRarity::Epic,
        spec_species_row(FishingSpecies::Moonfish).0 == FishingRarity::Legendary,
        spec_species_row(FishingSpecies::LeviathanFry).0 == FishingRarity::Mythic,
{
}

/// Applies Rare Bait (`28/25` on Rare and rarer species) to one authoritative species-pool row
/// without normalizing the area pool; a species absent from the area yields `None`.
pub fn preview_rare_bait_area_species_weight(area: FishingArea, species: FishingSpecies) -> (r:
    Option<RareBaitAreaSpeciesWeightPreview>)
    ensures
        r is None <==> (forall|i: int|
            0 <= i < spec_area_pool(area).len() ==> #[trigger] spec_area_pool(area)[i].species
                != species),
        r matches Some(p) ==> exists|i: int|
            {
                &&& 0 <= i < spec_area_pool(area).len()
                &&& #[trigger] spec_area_pool(area)[i].species == species
                &&& forall|j: int| 0 <= j < i ==> spec_area_pool(area)[j].species != species
                &&& p.spec_base_pool_weight() == spec_area_pool(area)[i].pool_weight
            },
        r matches Some(p) ==> {
            let rarity = spec_species_row(species).0;
            let factor: (u16, u16) = if spec_rare_bait_eligible(rarity) {
                (28, 25)
            } else {
                (1, 1)
            };
            &&& p.spec_area() == area
            &&& p.spec_species() == species
            &&& p.spec_rarity() == rarity
            &&& p.spec_applied() == spec_rare_bait_eligible(rarity)
            &&& p.factor_num() == factor.0
            &&& p.factor_den() == factor.1
            &&& p.adjusted_num() == p.spec_base_pool_weight() * factor.0
            &&& p.adjusted_den() == factor.1
        },
{
    let pool = fishing_area_species_pool(area);
    let mut index: usize = 0;
    let mut found: Option<u16> = None;
    while index < pool.len()
        invariant_except_break
            found is None,
        invariant
            pool@ == spec_area_pool(area),
            index <= pool.len(),
            forall|j: int| 0 <= j < index ==> pool@[j].species != species,
        ensures
            found matches Some(w) ==> {
                &&& index < pool.len()
                &&& pool@[index as int].species == species
                &&& pool@[index as int].pool_weight == w
            },
            found is None ==> index == pool.len(),
            forall|j: int| 0 <= j < index ==> pool@[j].species != species,
        decreases pool.len() - index,
    {
        if pool[index].species == species {
            found = Some(pool[index].pool_weight);
            break;
        }
        index = index + 1;
    }
    let base_pool_weight = match found {
        Some(w) => w,
        None => {
            return None;
        },
    };
    let rarity = fishing_species_policy(species).rarity;
    let policy = fishing_bait_policy(FishingBait::Rare);
    let (affected_species_rarities, factor) = match policy.effect {
        FishingBaitEffect::Rare {
            affected_species_rarities,
            eligible_species_relative_weight_factor,
        } => (affected_species_rarities, eligible_species_relative_weight_factor),
        _ => {
            return None;
        },
    };
    let mut rare_bait_applied = false;
    let mut k: usize = 0;
    while k < 4
        invariant
            affected_species_rarities@ == seq![
                FishingRarity::Rare,
                FishingRarity::Epic,
                FishingRarity::Legendary,
                FishingRarity::Mythic,
            ],
            k <= 4,
            rare_bait_applied == exists|j: int|
                0 <= j < k && #[trigger] affected_species_rarities@[j] == rarity,
        decreases 4 - k,
    {
        if affected_species_rarities[k] == rarity {
            rare_bait_applied = true;
        }
        k = k + 1;
    }
    proof {
        if spec_rare_bait_eligible(rarity) {
            let j: int = match rarity {
                FishingRarity::Rare => 0,
                FishingRarity::Epic => 1,
                FishingRarity::Legendary => 2,
                _ => 3,
            };
            assert(affected_species_rarities@[j] == rarity);
        }
    }
    let (factor_numerator, factor_denominator) = if rare_bait_applied {
        (factor.numerator(), factor.denominator())
    } else {
        (1, 1)
    };
    proof {
        assert(base_pool_weight * factor_numerator <= 65535 * 28) by (nonlinear_arith)
            requires factor_numerator <= 28;
    }
    Some(
        RareBaitAreaSpeciesWeightPreview {
            area,
            species,
            rarity,
            base_pool_weight,
            rare_bait_applied,
            relative_weight_factor_numerator: factor_numerator,
            relative_weight_factor_denominator: factor_denominator,
            adjusted_pool_weight_numerator: (base_pool_weight as u32) * (factor_numerator as u32),
            adjusted_pool_weight_denominator: factor_denominator,
        },
    )
}

} // verus!
