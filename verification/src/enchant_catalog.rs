//! Canonical enchant identities, their acquisition family and appraisal class.
use vstd::prelude::*;

use crate::enchant_appraisal::{
    appraisals_in_range, canonical_book_appraisal, embedded_enchant_value_from_book_appraisals,
    max_book_value, spec_book_appraisal, spec_class_appraisals, spec_embedded_value,
    CanonicalBookAppraisal, EmbeddedEnchantAppraisalInput, EnchantAppraisalClass,
    EnchantAppraisalError,
};

verus! {

use CanonicalEnchant as E;
use EnchantAcquisitionSource as S;
use EnchantAppraisalClass as A;

pub const NORMAL_SHOP_MAX_BOOK_LEVEL: u8 = 5;
pub const BAIT_RACK_MAX_BOOK_LEVEL: u8 = 3;

/// Number of canonical enchant identities.
pub const CANONICAL_ENCHANT_COUNT: usize = 54;

#[derive(Clone, Copy, Debug, PartialEq, Eq, Structural)]
pub enum CanonicalEnchant {
    Efficiency,
    Fortune,
    Smelt,
    Lure,
    LuckOfTheSea,
    Luck,
    Strengthen,
    SharpHook,
    BaitRack,
    Sharpness,
    Smite,
    BaneOfArthropods,
    SweepingEdge,
    FireAspect,
    Knockback,
    Protection,
    Thorn,
    Cat,
    Dog,
    Dodge,
    Unbreaking,
    Stabilize,
    Sparkling,
    Grinding,
    Mosaic,
    PickaxeTreasure,
    FishingRodTreasure,
    MultiTreasure,
    Multicatch,
    Looting,
    Devour,
    Bleeding,
    Freezing,
    Angel,
    Evil,
    DayWalker,
    NightWalker,
    Reinforce,
    Empowering,
    Carving,
    Trench,
    Execution,
    BloodFrenzy,
    ArmorPiercing,
    Piercing,
    Guardian,
    NineLife,
    SoulGrind,
    Mending,
    Nuke,
    Annihilation,
    Phoenix,
    ShadowWalker,
    Master,
}

#[derive(Clone, Copy, Debug, PartialEq, Eq, Structural)]
pub enum EnchantAcquisitionSource {
    NormalShopFishingChest,
    FishingChestMidHigh,
    FishingChestRare,
    FishingOnly,
    FishingChestMythic,
    CombineMutationOnly,
    MasterProgression,
}

#[derive(Clone, Copy, Debug, PartialEq, Eq, Structural)]
pub struct EnchantCatalogPolicy {
    pub enchant: CanonicalEnchant,
    pub acquisition_source: EnchantAcquisitionSource,
    pub appraisal_class: EnchantAppraisalClass,
    pub normal_shop_max_book_level: Option<u8>,
}

impl EnchantCatalogPolicy {
    pub fn normal_shop_eligible(self) -> (r: bool)
        ensures
            r == self.normal_shop_max_book_level is Some,
    {
        self.normal_shop_max_book_level.is_some()
    }
}

/// Highest canonical resulting level of each enchant identity.
pub open spec fn spec_max_resulting_level(enchant: CanonicalEnchant) -> u8 {
    match enchant {
        E::Mending | E::Phoenix | E::Carving => 1,
        E::Master => 2,
        E::BaitRack => BAIT_RACK_MAX_BOOK_LEVEL,
        E::NineLife => 9,
        _ => 10,
    }
}

/// The highest resulting level of every enchant: Level I for Mending, Phoenix and Carving, II for
/// Master, III for Bait Rack, IX for Nine Life, and X for every other identity.
pub proof fn lemma_max_resulting_levels(enchant: CanonicalEnchant)
    ensures
        spec_max_resulting_level(enchant) == (if enchant == E::Mending || enchant == E::Phoenix
            || enchant == E::Carving {
            1u8
        } else if enchant == E::Master {
            2u8
        } else if enchant == E::BaitRack {
            3u8
        } else if enchant == E::NineLife {
            9u8
        } else {
            10u8
        }),
{
}

/// Returns the highest canonical resulting level of one enchant identity.
///
/// Single-level identities (Mending, Phoenix, Carving) stop at Level I, Master at its tier II, Bait
/// Rack at Level III and Nine Life at Level IX; every other identity spans Levels I-X.
pub fn canonical_enchant_max_resulting_level(enchant: CanonicalEnchant) -> (r: u8)
    ensures
        r == spec_max_resulting_level(enchant),
        1 <= r <= 10,
{
    match enchant {
        E::Mending | E::Phoenix | E::Carving => 1,
        E::Master => 2,
        E::BaitRack => BAIT_RACK_MAX_BOOK_LEVEL,
        E::NineLife => 9,
        _ => 10,
    }
}

/// Concrete canonical enchant identity plus its already-resolved resulting Level I-X.
#[derive(Clone, Copy, Debug, PartialEq, Eq, Structural)]
pub struct CanonicalEmbeddedEnchantAppraisalInput {
    pub enchant: CanonicalEnchant,
    pub level: u8,
}

/// The frozen catalog row of one enchant: acquisition source, appraisal class and Shop ceiling.
pub open spec fn spec_catalog_row(enchant: CanonicalEnchant) -> (
    EnchantAcquisitionSource,
    EnchantAppraisalClass,
    Option<u8>,
) {
    match enchant {
        E::BaitRack => (S::NormalShopFishingChest, A::ShopCommon, Some(BAIT_RACK_MAX_BOOK_LEVEL)),
        E::Efficiency | E::Fortune | E::Smelt | E::Lure | E::LuckOfTheSea | E::Luck | E::Strengthen
        | E::SharpHook | E::Sharpness | E::Smite | E::BaneOfArthropods | E::SweepingEdge
        | E::FireAspect | E::Knockback | E::Protection | E::Thorn | E::Cat | E::Dog | E::Dodge
        | E::Unbreaking => (
            S::NormalShopFishingChest,
            A::ShopCommon,
            Some(NORMAL_SHOP_MAX_BOOK_LEVEL),
        ),
        E::Stabilize | E::Sparkling | E::Grinding | E::Mosaic => (
            S::NormalShopFishingChest,
            A::SpecialCommon,
            Some(NORMAL_SHOP_MAX_BOOK_LEVEL),
        ),
        E::PickaxeTreasure | E::FishingRodTreasure | E::MultiTreasure | E::Multicatch | E::Looting
        | E::Devour | E::Bleeding | E::Freezing | E::Angel | E::Evil | E::DayWalker
        | E::NightWalker | E::Reinforce => (S::FishingChestMidHigh, A::FishingChestMidHigh, None),
        E::Empowering | E::Carving => (S::FishingChestMidHigh, A::SpecialMid, None),
        E::Trench | E::Execution | E::BloodFrenzy | E::ArmorPiercing | E::Piercing | E::Guardian
        | E::NineLife | E::SoulGrind => (S::FishingChestRare, A::FishingChestRare, None),
        E::Mending => (S::FishingOnly, A::Mending, None),
        E::Nuke | E::Annihilation | E::Phoenix => (S::FishingChestMythic, A::Mythic, None),
        E::ShadowWalker => (S::CombineMutationOnly, A::FishingChestMidHigh, None),
        E::Master => (S::MasterProgression, A::SpecialRare, None),
    }
}

/// The appraisal class the catalog assigns to an enchant.
pub open spec fn spec_catalog_class(enchant: CanonicalEnchant) -> EnchantAppraisalClass {
    spec_catalog_row(enchant).1
}

/// Resolves the frozen acquisition family and appraisal value class for one canonical enchant.
pub fn enchant_catalog_policy(enchant: CanonicalEnchant) -> (r: EnchantCatalogPolicy)
    ensures
        r.enchant == enchant,
        (r.acquisition_source, r.appraisal_class, r.normal_shop_max_book_level)
            == spec_catalog_row(enchant),
{
    let (acquisition_source, appraisal_class, normal_shop_max_book_level) = match enchant {
        E::BaitRack => (S::NormalShopFishingChest, A::ShopCommon, Some(BAIT_RACK_MAX_BOOK_LEVEL)),
        E::Efficiency | E::Fortune | E::Smelt | E::Lure | E::LuckOfTheSea | E::Luck | E::Strengthen
        | E::SharpHook | E::Sharpness | E::Smite | E::BaneOfArthropods | E::SweepingEdge
        | E::FireAspect | E::Knockback | E::Protection | E::Thorn | E::Cat | E::Dog | E::Dodge
        | E::Unbreaking => (
            S::NormalShopFishingChest,
            A::ShopCommon,
            Some(NORMAL_SHOP_MAX_BOOK_LEVEL),
        ),
        E::Stabilize | E::Sparkling | E::Grinding | E::Mosaic => (
            S::NormalShopFishingChest,
            A::SpecialCommon,
            Some(NORMAL_SHOP_MAX_BOOK_LEVEL),
        ),
        E::PickaxeTreasure | E::FishingRodTreasure | E::MultiTreasure | E::Multicatch | E::Looting
        | E::Devour | E::Bleeding | E::Freezing | E::Angel | E::Evil | E::DayWalker
        | E::NightWalker | E::Reinforce => (S::FishingChestMidHigh, A::FishingChestMidHigh, None),
        E::Empowering | E::Carving => (S::FishingChestMidHigh, A::SpecialMid, None),
        E::Trench | E::Execution | E::BloodFrenzy | E::ArmorPiercing | E::Piercing | E::Guardian
        | E::NineLife | E::SoulGrind => (S::FishingChestRare, A::FishingChestRare, None),
        E::Mending => (S::FishingOnly, A::Mending, None),
        E::Nuke | E::Annihilation | E::Phoenix => (S::FishingChestMythic, A::Mythic, None),
        E::ShadowWalker => (S::CombineMutationOnly, A::FishingChestMidHigh, None),
        E::Master => (S::MasterProgression, A::SpecialRare, None),
    };
    EnchantCatalogPolicy { enchant, acquisition_source, appraisal_class, normal_shop_max_book_level }
}

/// Resolves canonical book appraisal from a concrete canonical enchant identity; the class is
/// always the catalog's.
pub fn canonical_enchant_book_appraisal(enchant: CanonicalEnchant, level: u8) -> (r: Result<
    CanonicalBookAppraisal,
    EnchantAppraisalError,
>)
    ensures
        r == spec_book_appraisal(spec_catalog_class(enchant), level),
        r matches Ok(a) ==> 0 < a.value <= max_book_value(),
{
    let policy = enchant_catalog_policy(enchant);
    canonical_book_appraisal(policy.appraisal_class, level)
}

/// The appraisals that identity-aware inputs resolve to.
pub open spec fn spec_identity_appraisals(s: Seq<CanonicalEmbeddedEnchantAppraisalInput>) -> Seq<
    Result<CanonicalBookAppraisal, EnchantAppraisalError>,
> {
    s.map_values(
        |e: CanonicalEmbeddedEnchantAppraisalInput|
            spec_book_appraisal(spec_catalog_class(e.enchant), e.level),
    )
}

/// The class-based inputs that identity-aware inputs stand for: each enchant's catalog appraisal
/// class at the same level.
pub open spec fn spec_catalog_class_inputs(s: Seq<CanonicalEmbeddedEnchantAppraisalInput>) -> Seq<
    EmbeddedEnchantAppraisalInput,
> {
    s.map_values(
        |e: CanonicalEmbeddedEnchantAppraisalInput|
            EmbeddedEnchantAppraisalInput { class: spec_catalog_class(e.enchant), level: e.level },
    )
}

/// Identity-aware inputs appraise exactly as the class-based inputs of their catalog classes.
pub proof fn lemma_identity_appraisals_are_class_appraisals(
    s: Seq<CanonicalEmbeddedEnchantAppraisalInput>,
)
    ensures
        spec_identity_appraisals(s) == spec_class_appraisals(spec_catalog_class_inputs(s)),
{
    assert(spec_identity_appraisals(s) =~= spec_class_appraisals(spec_catalog_class_inputs(s)));
}

/// Computes canonical embedded-enchant contribution from concrete canonical enchant identities:
/// the same accumulator, and so the same value, as the class-based inputs of the enchants' catalog
/// classes.
pub fn canonical_embedded_enchant_value(enchants: &[CanonicalEmbeddedEnchantAppraisalInput]) -> (r:
    Result<i64, EnchantAppraisalError>)
    ensures
        r == spec_embedded_value(spec_identity_appraisals(enchants@)),
        r == spec_embedded_value(spec_class_appraisals(spec_catalog_class_inputs(enchants@))),
{
    proof {
        lemma_identity_appraisals_are_class_appraisals(enchants@);
    }
    let mut appraisals: Vec<Result<CanonicalBookAppraisal, EnchantAppraisalError>> = Vec::new();
    let mut i: usize = 0;
    while i < enchants.len()
        invariant
            i <= enchants.len(),
            appraisals@ =~= spec_identity_appraisals(enchants@).take(i as int),
            appraisals_in_range(appraisals@),
        decreases enchants.len() - i,
    {
        let a = canonical_enchant_book_appraisal(enchants[i].enchant, enchants[i].level);
        appraisals.push(a);
        i = i + 1;
    }
    assert(appraisals@ =~= spec_identity_appraisals(enchants@));
    embedded_enchant_value_from_book_appraisals(appraisals.as_slice())
}

} // verus!
