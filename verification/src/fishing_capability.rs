//! Ordinary Fishing Rod base stats, rarity tension multipliers and exact fish tension.
use vstd::prelude::*;

use crate::action_speed::{lemma_gcd_divides, lemma_gcd_positive, spec_gcd};
use crate::equipment_policy::EquipmentTier;
use crate::fishing_bait::FishingRarity;

verus! {

pub const NORMAL_ROD_DURABILITY_PER_COMPLETED_CAST_ATTEMPT: u8 = 1;

#[derive(Clone, Copy, Debug, PartialEq, Eq, Structural)]
pub struct FishingRodBaseStats {
    pub tier: EquipmentTier,
    pub base_line_strength_grams_tension: u32,
    pub base_durability: u32,
    pub gold_side_grade: bool,
}

#[derive(Clone, Copy, Debug, PartialEq, Eq, Structural)]
pub struct FishingTensionRatio {
    numerator: u16,
    denominator: u16,
}

impl FishingTensionRatio {
    /// The stored numerator.
    pub closed spec fn num(self) -> u16 {
        self.numerator
    }

    /// The stored denominator.
    pub closed spec fn den(self) -> u16 {
        self.denominator
    }

    pub fn numerator(self) -> (r: u16)
        ensures
            r == self.num(),
    {
        self.numerator
    }

    pub fn denominator(self) -> (r: u16)
        ensures
            r == self.den(),
    {
        self.denominator
    }
}

#[derive(Clone, Copy, Debug, PartialEq, Eq, Structural)]
pub struct FishingTension {
    pub rarity: FishingRarity,
    pub source_weight_grams: u64,
    numerator_gram_tension: u64,
    denominator: u16,
}

impl FishingTension {
    /// The fish rarity the tension was computed for.
    pub closed spec fn spec_rarity(self) -> FishingRarity {
        self.rarity
    }

    /// The fish weight the tension was computed from.
    pub closed spec fn spec_source_weight(self) -> u64 {
        self.source_weight_grams
    }

    /// The stored reduced numerator, in gram-tension.
    pub closed spec fn num(self) -> u64 {
        self.numerator_gram_tension
    }

    /// The stored reduced denominator.
    pub closed spec fn den(self) -> u16 {
        self.denominator
    }

    pub fn numerator_gram_tension(self) -> (r: u64)
        ensures
            r == self.num(),
    {
        self.numerator_gram_tension
    }

    pub fn denominator(self) -> (r: u16)
        ensures
            r == self.den(),
    {
        self.denominator
    }
}

#[derive(Clone, Copy, Debug, PartialEq, Eq, Structural)]
pub enum FishingCapabilityError {
    StarterLeatherIsNotOrdinaryRodTier,
    NotOrdinaryFishingRod,
    ZeroFishWeight,
    ArithmeticOverflow,
}

/// Frozen base line strength (gram-tension), durability and side-grade flag of each ordinary tier.
pub open spec fn spec_rod_stats_row(tier: EquipmentTier) -> (u32, u32, bool) {
    match tier {
        EquipmentTier::StarterLeather => (0, 0, false),
        EquipmentTier::Wood => (6_000, 600, false),
        EquipmentTier::Stone => (10_000, 900, false),
        EquipmentTier::Copper => (18_000, 1_400, false),
        EquipmentTier::Gold => (40_000, 550, true),
        EquipmentTier::Iron => (30_000, 2_200, false),
        EquipmentTier::Diamond => (55_000, 3_300, false),
        EquipmentTier::Obsidian => (85_000, 5_000, false),
        EquipmentTier::Netherite => (120_000, 7_600, false),
        EquipmentTier::Graphite => (160_000, 11_000, false),
    }
}

/// Resolves the frozen base line strength and ordinary durability for an ordinary Fishing Rod.
pub fn ordinary_fishing_rod_base_stats(tier: EquipmentTier) -> (r: Result<
    FishingRodBaseStats,
    FishingCapabilityError,
>)
    ensures
        tier == EquipmentTier::StarterLeather ==> r == Err::<
            FishingRodBaseStats,
            FishingCapabilityError,
        >(FishingCapabilityError::StarterLeatherIsNotOrdinaryRodTier),
        tier != EquipmentTier::StarterLeather ==> r == Ok::<
            FishingRodBaseStats,
            FishingCapabilityError,
        >(
            FishingRodBaseStats {
                tier,
                base_line_strength_grams_tension: spec_rod_stats_row(tier).0,
                base_durability: spec_rod_stats_row(tier).1,
                gold_side_grade: spec_rod_stats_row(tier).2,
            },
        ),
{
    let (base_line_strength_grams_tension, base_durability, gold_side_grade) = match tier {
        EquipmentTier::StarterLeather => {
            return Err(FishingCapabilityError::StarterLeatherIsNotOrdinaryRodTier);
        },
        EquipmentTier::Wood => (6_000, 600, false),
        EquipmentTier::Stone => (10_000, 900, false),
        EquipmentTier::Copper => (18_000, 1_400, false),
        EquipmentTier::Gold => (40_000, 550, true),
        EquipmentTier::Iron => (30_000, 2_200, false),
        EquipmentTier::Diamond => (55_000, 3_300, false),
        EquipmentTier::Obsidian => (85_000, 5_000, false),
        EquipmentTier::Netherite => (120_000, 7_600, false),
        EquipmentTier::Graphite => (160_000, 11_000, false),
    };
    Ok(FishingRodBaseStats { tier, base_line_strength_grams_tension, base_durability, gold_side_grade })
}

/// Resolves ordinary Rod base stats for a definition whose ordinary-Rod classification is already
/// authoritative; a system-bound or special definition is rejected before any tier lookup.
pub fn ordinary_fishing_rod_base_stats_for_definition(
    tier: EquipmentTier,
    is_ordinary_rod: bool,
) -> (r: Result<FishingRodBaseStats, FishingCapabilityError>)
    ensures
        !is_ordinary_rod ==> r == Err::<FishingRodBaseStats, FishingCapabilityError>(
            FishingCapabilityError::NotOrdinaryFishingRod,
        ),
        is_ordinary_rod && tier == EquipmentTier::StarterLeather ==> r == Err::<
            FishingRodBaseStats,
            FishingCapabilityError,
        >(FishingCapabilityError::StarterLeatherIsNotOrdinaryRodTier),
        is_ordinary_rod && tier != EquipmentTier::StarterLeather ==> r == Ok::<
            FishingRodBaseStats,
            FishingCapabilityError,
        >(
            FishingRodBaseStats {
                tier,
                base_line_strength_grams_tension: spec_rod_stats_row(tier).0,
                base_durability: spec_rod_stats_row(tier).1,
                gold_side_grade: spec_rod_stats_row(tier).2,
            },
        ),
{
    if !is_ordinary_rod {
        return Err(FishingCapabilityError::NotOrdinaryFishingRod);
    }
    ordinary_fishing_rod_base_stats(tier)
}

#[derive(Clone, Copy, Debug, PartialEq, Eq, Structural)]
pub enum FishingCapabilityClassification {
    WithinRodCapability,
    OverRodCapability,
}

/// Exact Rod capability ratio `R = CatchLoad / EffectiveLineStrength`, reduced, with a
/// classification label (`R <= 1` within, `R > 1` over capability).
#[derive(Clone, Copy, Debug, PartialEq, Eq, Structural)]
pub struct FishingCapabilityRatio {
    pub classification: FishingCapabilityClassification,
    numerator: u128,
    denominator: u128,
}

impl FishingCapabilityRatio {
    /// The classification label.
    pub closed spec fn spec_classification(self) -> FishingCapabilityClassification {
        self.classification
    }

    /// The stored numerator.
    pub closed spec fn num(self) -> nat {
        self.numerator as nat
    }

    /// The stored denominator.
    pub closed spec fn den(self) -> nat {
        self.denominator as nat
    }

    pub fn numerator(self) -> (r: u128)
        ensures
            r == self.num(),
    {
        self.numerator
    }

    pub fn denominator(self) -> (r: u128)
        ensures
            r == self.den(),
    {
        self.denominator
    }

    pub fn classification(self) -> (r: FishingCapabilityClassification)
        ensures
            r == self.spec_classification(),
    {
        self.classification
    }

    /// The same exact ratio under another classification label.
    pub fn with_classification(self, classification: FishingCapabilityClassification) -> (r: Self)
        ensures
            r.spec_classification() == classification,
            r.num() == self.num(),
            r.den() == self.den(),
    {
        Self { classification, numerator: self.numerator, denominator: self.denominator }
    }
}

/// The exact classification of `n / d`.
pub open spec fn spec_exact_classification(n: nat, d: nat) -> FishingCapabilityClassification {
    if n <= d {
        FishingCapabilityClassification::WithinRodCapability
    } else {
        FishingCapabilityClassification::OverRodCapability
    }
}

/// Computes the exact capability ratio of a catch load `load_numerator / load_denominator`
/// (gram-tension) against a positive effective line strength (gram-tension).
pub fn fishing_capability_ratio(
    load_numerator: u64,
    load_denominator: u64,
    line_strength_grams_tension: u64,
) -> (r: Result<FishingCapabilityRatio, FishingCapabilityError>)
    ensures
        (load_numerator == 0 || load_denominator == 0 || line_strength_grams_tension == 0) ==> r
            == Err::<FishingCapabilityRatio, FishingCapabilityError>(
            FishingCapabilityError::ZeroFishWeight,
        ),
        !(load_numerator == 0 || load_denominator == 0 || line_strength_grams_tension == 0) ==> (
        r matches Ok(ratio) && {
            let n = load_numerator as nat;
            let d = (load_denominator * line_strength_grams_tension) as nat;
            &&& ratio.num() == n / spec_gcd(n, d)
            &&& ratio.den() == d / spec_gcd(n, d)
            &&& ratio.num() * d == n * ratio.den()
            &&& ratio.den() > 0
            &&& ratio.spec_classification() == spec_exact_classification(ratio.num(), ratio.den())
            &&& ratio.spec_classification() == spec_exact_classification(n, d)
            &&& (ratio.spec_classification() == FishingCapabilityClassification::OverRodCapability
                <==> load_numerator > load_denominator * line_strength_grams_tension)
        }),
{
    if load_numerator == 0 || load_denominator == 0 || line_strength_grams_tension == 0 {
        return Err(FishingCapabilityError::ZeroFishWeight);
    }
    let n = load_numerator as u128;
    proof {
        assert(load_denominator * line_strength_grams_tension <= u64::MAX * u64::MAX)
            by (nonlinear_arith)
            requires load_denominator <= u64::MAX, line_strength_grams_tension <= u64::MAX;
        assert(load_denominator * line_strength_grams_tension > 0) by (nonlinear_arith)
            requires load_denominator > 0, line_strength_grams_tension > 0;
    }
    let d = (load_denominator as u128) * (line_strength_grams_tension as u128);
    let divisor = gcd_u128(n, d);
    proof {
        lemma_gcd_positive(n as nat, d as nat);
        let (kn, kd) = lemma_gcd_divides(n as nat, d as nat);
        let g = divisor as nat;
        assert(kn == n / divisor && kd == d / divisor) by (nonlinear_arith)
            requires n == kn * g, d == kd * g, g > 0, divisor == g;
        assert(kn * d == n * kd) by (nonlinear_arith)
            requires n == kn * g, d == kd * g;
        assert(kd > 0) by (nonlinear_arith)
            requires d == kd * g, d > 0;
        assert((kn <= kd) == (n <= d)) by (nonlinear_arith)
            requires n == kn * g, d == kd * g, g > 0;
    }
    let numerator = n / divisor;
    let denominator = d / divisor;
    let classification = if numerator <= denominator {
        FishingCapabilityClassification::WithinRodCapability
    } else {
        FishingCapabilityClassification::OverRodCapability
    };
    Ok(FishingCapabilityRatio { classification, numerator, denominator })
}

pub(crate) fn gcd_u128(left: u128, right: u128) -> (r: u128)
    ensures
        r == spec_gcd(left as nat, right as nat),
{
    let mut l = left;
    let mut rr = right;
    while rr != 0
        invariant
            spec_gcd(l as nat, rr as nat) == spec_gcd(left as nat, right as nat),
        decreases rr,
    {
        let remainder = l % rr;
        l = rr;
        rr = remainder;
    }
    l
}

/// Frozen rarity-to-tension multiplier as a reduced fraction.
pub open spec fn spec_tension_multiplier(rarity: FishingRarity) -> (u16, u16) {
    match rarity {
        FishingRarity::Common => (1, 1),
        FishingRarity::Uncommon => (11, 10),
        FishingRarity::Rare => (5, 4),
        FishingRarity::Epic => (29, 20),
        FishingRarity::Legendary => (7, 4),
        FishingRarity::Mythic => (11, 5),
    }
}

/// Resolves the frozen rarity-to-tension multiplier as an exact reduced rational number.
pub fn fishing_rarity_tension_multiplier(rarity: FishingRarity) -> (r: FishingTensionRatio)
    ensures
        (r.num(), r.den()) == spec_tension_multiplier(rarity),
{
    let (numerator, denominator) = match rarity {
        FishingRarity::Common => (1, 1),
        FishingRarity::Uncommon => (11, 10),
        FishingRarity::Rare => (5, 4),
        FishingRarity::Epic => (29, 20),
        FishingRarity::Legendary => (7, 4),
        FishingRarity::Mythic => (11, 5),
    };
    FishingTensionRatio { numerator, denominator }
}

/// The frozen rarity-to-tension multipliers: Common x1, Uncommon x1.10, Rare x1.25, Epic x1.45,
/// Legendary x1.75, Mythic x2.20, each in lowest terms.
pub proof fn lemma_tension_multipliers()
    ensures
        spec_tension_multiplier(FishingRarity::Common) == (1u16, 1u16),
        spec_tension_multiplier(FishingRarity::Uncommon) == (11u16, 10u16),
        spec_tension_multiplier(FishingRarity::Rare) == (5u16, 4u16),
        spec_tension_multiplier(FishingRarity::Epic) == (29u16, 20u16),
        spec_tension_multiplier(FishingRarity::Legendary) == (7u16, 4u16),
        spec_tension_multiplier(FishingRarity::Mythic) == (11u16, 5u16),
{
}

/// The frozen base line strength (gram-tension), durability and Gold side-grade flag of each
/// ordinary Rod tier: Wood 6,000 / 600, Stone 10,000 / 900, Copper 18,000 / 1,400, Gold 40,000 /
/// 550 (the side grade), Iron 30,000 / 2,200, Diamond 55,000 / 3,300, Obsidian 85,000 / 5,000,
/// Netherite 120,000 / 7,600, Graphite 160,000 / 11,000.
pub proof fn lemma_rod_base_stats()
    ensures
        spec_rod_stats_row(EquipmentTier::Wood) == (6_000u32, 600u32, false),
        spec_rod_stats_row(EquipmentTier::Stone) == (10_000u32, 900u32, false),
        spec_rod_stats_row(EquipmentTier::Copper) == (18_000u32, 1_400u32, false),
        spec_rod_stats_row(EquipmentTier::Gold) == (40_000u32, 550u32, true),
        spec_rod_stats_row(EquipmentTier::Iron) == (30_000u32, 2_200u32, false),
        spec_rod_stats_row(EquipmentTier::Diamond) == (55_000u32, 3_300u32, false),
        spec_rod_stats_row(EquipmentTier::Obsidian) == (85_000u32, 5_000u32, false),
        spec_rod_stats_row(EquipmentTier::Netherite) == (120_000u32, 7_600u32, false),
        spec_rod_stats_row(EquipmentTier::Graphite) == (160_000u32, 11_000u32, false),
{
}

/// Computes exact FishTension `weight x multiplier` for a positive fish weight, reduced.
pub fn fishing_tension(weight_grams: u64, rarity: FishingRarity) -> (r: Result<
    FishingTension,
    FishingCapabilityError,
>)
    ensures
        weight_grams == 0 ==> r == Err::<FishingTension, FishingCapabilityError>(
            FishingCapabilityError::ZeroFishWeight,
        ),
        weight_grams != 0 && weight_grams * spec_tension_multiplier(rarity).0 > u64::MAX ==> r
            == Err::<FishingTension, FishingCapabilityError>(
            FishingCapabilityError::ArithmeticOverflow,
        ),
        weight_grams != 0 && weight_grams * spec_tension_multiplier(rarity).0 <= u64::MAX ==> (
        r matches Ok(t) && {
            let n = (weight_grams * spec_tension_multiplier(rarity).0) as nat;
            let d = spec_tension_multiplier(rarity).1 as nat;
            &&& t.spec_rarity() == rarity
            &&& t.spec_source_weight() == weight_grams
            &&& t.num() == n / spec_gcd(n, d)
            &&& t.den() == d / spec_gcd(n, d)
            &&& t.num() * d == n * t.den()
        }),
{
    if weight_grams == 0 {
        return Err(FishingCapabilityError::ZeroFishWeight);
    }
    let multiplier = fishing_rarity_tension_multiplier(rarity);
    let numerator = match weight_grams.checked_mul(multiplier.numerator() as u64) {
        Some(v) => v,
        None => return Err(FishingCapabilityError::ArithmeticOverflow),
    };
    let denominator = multiplier.denominator() as u64;
    let divisor = gcd(numerator, denominator);
    proof {
        lemma_gcd_positive(numerator as nat, denominator as nat);
        let (kn, kd) = lemma_gcd_divides(numerator as nat, denominator as nat);
        let g = divisor as nat;
        assert(kn == numerator / divisor && kd == denominator / divisor) by (nonlinear_arith)
            requires numerator == kn * g, denominator == kd * g, g > 0, divisor == g;
        assert(kn * denominator == numerator * kd) by (nonlinear_arith)
            requires numerator == kn * g, denominator == kd * g;
        assert(kd <= denominator) by (nonlinear_arith)
            requires denominator == kd * g, g > 0;
    }
    Ok(
        FishingTension {
            rarity,
            source_weight_grams: weight_grams,
            numerator_gram_tension: numerator / divisor,
            denominator: (denominator / divisor) as u16,
        },
    )
}

fn gcd(left: u64, right: u64) -> (r: u64)
    ensures
        r == spec_gcd(left as nat, right as nat),
{
    let mut l = left;
    let mut rr = right;
    while rr != 0
        invariant
            spec_gcd(l as nat, rr as nat) == spec_gcd(left as nat, right as nat),
        decreases rr,
    {
        let remainder = l % rr;
        l = rr;
        rr = remainder;
    }
    l
}

} // verus!
