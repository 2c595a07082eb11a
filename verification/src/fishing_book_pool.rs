//! Direct-fishing Enchant Book pools, pool membership, Mythic split and raw level profiles.
use vstd::prelude::*;

use crate::enchant_catalog::{
    enchant_catalog_policy, spec_catalog_row, CanonicalEnchant, EnchantAcquisitionSource,
};

verus! {

#[derive(Clone, Copy, Debug, PartialEq, Eq, Structural)]
pub enum DirectFishingBookPool {
    ShopCommon,
    MidLoot,
    Rare,
    Mending,
    Mythic,
}

#[derive(Clone, Copy, Debug, PartialEq, Eq, Structural)]
pub struct DirectFishingBookPoolPolicy {
    pub pool: DirectFishingBookPool,
    pub relative_weight: u8,
}

#[derive(Clone, Copy, Debug, PartialEq, Eq, Structural)]
pub enum DirectFishingBookLevelProfile {
    ShopCommon,
    MidLoot,
    Rare,
    Mending,
    NukeOrAnnihilation,
    Phoenix,
}

#[derive(Clone, Copy, Debug, PartialEq, Eq, Structural)]
pub enum DirectFishingBookPolicyError {
    LevelOutsideProfile { profile: DirectFishingBookLevelProfile, level: u8 },
    NotDirectFishingMythic(CanonicalEnchant),
}

/// Frozen relative weight of each direct-fishing Book pool; the five weights sum to 100.
pub open spec fn spec_pool_weight(pool: DirectFishingBookPool) -> u8 {
    match pool {
        DirectFishingBookPool::ShopCommon => 58,
        DirectFishingBookPool::MidLoot => 24,
        DirectFishingBookPool::Rare => 12,
        DirectFishingBookPool::Mending => 4,
        DirectFishingBookPool::Mythic => 2,
    }
}

/// Resolves the authoritative pool weight after the Treasure result has selected an Enchant Book.
pub fn direct_fishing_book_pool_policy(pool: DirectFishingBookPool) -> (r:
    DirectFishingBookPoolPolicy)
    ensures
        r.pool == pool,
        r.relative_weight == spec_pool_weight(pool),
{
    let relative_weight = match pool {
        DirectFishingBookPool::ShopCommon => 58,
        DirectFishingBookPool::MidLoot => 24,
        DirectFishingBookPool::Rare => 12,
        DirectFishingBookPool::Mending => 4,
        DirectFishingBookPool::Mythic => 2,
    };
    DirectFishingBookPoolPolicy { pool, relative_weight }
}

/// The direct-fishing pool an enchant belongs to, derived from its catalog acquisition source.
pub open spec fn spec_pool_membership(enchant: CanonicalEnchant) -> Option<DirectFishingBookPool> {
    if enchant == CanonicalEnchant::Mending {
        Some(DirectFishingBookPool::Mending)
    } else {
        match spec_catalog_row(enchant).0 {
            EnchantAcquisitionSource::NormalShopFishingChest => Some(DirectFishingBookPool::ShopCommon),
            EnchantAcquisitionSource::FishingChestMidHigh => Some(DirectFishingBookPool::MidLoot),
            EnchantAcquisitionSource::FishingChestRare => Some(DirectFishingBookPool::Rare),
            EnchantAcquisitionSource::FishingChestMythic => Some(DirectFishingBookPool::Mythic),
            _ => None,
        }
    }
}

/// Maps the canonical acquisition catalog into direct-fishing Book-pool eligibility.
pub fn direct_fishing_book_pool_membership(enchant: CanonicalEnchant) -> (r: Option<
    DirectFishingBookPool,
>)
    ensures
        r == spec_pool_membership(enchant),
{
    if matches!(enchant, CanonicalEnchant::Mending) {
        return Some(DirectFishingBookPool::Mending);
    }
    match enchant_catalog_policy(enchant).acquisition_source {
        EnchantAcquisitionSource::NormalShopFishingChest => Some(DirectFishingBookPool::ShopCommon),
        EnchantAcquisitionSource::FishingChestMidHigh => Some(DirectFishingBookPool::MidLoot),
        EnchantAcquisitionSource::FishingChestRare => Some(DirectFishingBookPool::Rare),
        EnchantAcquisitionSource::FishingChestMythic => Some(DirectFishingBookPool::Mythic),
        EnchantAcquisitionSource::FishingOnly | EnchantAcquisitionSource::CombineMutationOnly
        | EnchantAcquisitionSource::MasterProgression => None,
    }
}

/// Resolves the explicit split inside the Mythic direct-fishing Book pool (Nuke 45, Annihilation
/// 30, Phoenix 25).
pub fn direct_fishing_mythic_enchant_weight(enchant: CanonicalEnchant) -> (r: Result<
    u8,
    DirectFishingBookPolicyError,
>)
    ensures
        r == (if enchant == CanonicalEnchant::Nuke {
            Ok(45u8)
        } else if enchant == CanonicalEnchant::Annihilation {
            Ok(30u8)
        } else if enchant == CanonicalEnchant::Phoenix {
            Ok(25u8)
        } else {
            Err(DirectFishingBookPolicyError::NotDirectFishingMythic(enchant))
        }),
{
    match enchant {
        CanonicalEnchant::Nuke => Ok(45),
        CanonicalEnchant::Annihilation => Ok(30),
        CanonicalEnchant::Phoenix => Ok(25),
        other => Err(DirectFishingBookPolicyError::NotDirectFishingMythic(other)),
    }
}

/// The frozen raw level weight of a profile, or `None` outside the profile's support.
pub open spec fn spec_raw_level_weight(profile: DirectFishingBookLevelProfile, level: u8) -> Option<u8> {
    match profile {
        DirectFishingBookLevelProfile::ShopCommon => if level == 1 {
            Some(34u8)
        } else if level == 2 {
            Some(28u8)
        } else if level == 3 {
            Some(20u8)
        } else if level == 4 {
            Some(12u8)
        } else if level == 5 {
            Some(5u8)
        } else if level == 6 {
            Some(1u8)
        } else {
            None
        },
        DirectFishingBookLevelProfile::MidLoot => if level == 2 {
            Some(24u8)
        } else if level == 3 {
            Some(24u8)
        } else if level == 4 {
            Some(22u8)
        } else if level == 5 {
            Some(16u8)
        } else if level == 6 {
            Some(10u8)
        } else if level == 7 {
            Some(4u8)
        } else {
            None
        },
        DirectFishingBookLevelProfile::Rare => if level == 3 {
            Some(14u8)
        } else if level == 4 {
            Some(22u8)
        } else if level == 5 {
            Some(26u8)
        } else if level == 6 {
            Some(20u8)
        } else if level == 7 {
            Some(12u8)
        } else if level == 8 {
            Some(6u8)
        } else {
            None
        },
        DirectFishingBookLevelProfile::Mending | DirectFishingBookLevelProfile::Phoenix => if level
            == 1 {
            Some(100u8)
        } else {
            None
        },
        DirectFishingBookLevelProfile::NukeOrAnnihilation => if level == 1 {
            Some(28u8)
        } else if level == 2 {
            Some(24u8)
        } else if level == 3 {
            Some(20u8)
        } else if level == 4 {
            Some(12u8)
        } else if level == 5 {
            Some(8u8)
        } else if level == 6 {
            Some(5u8)
        } else if level == 7 {
            Some(3u8)
        } else {
            None
        },
    }
}

/// Returns one weight from the raw direct-fishing Book-level profile.
pub fn direct_fishing_raw_book_level_weight(profile: DirectFishingBookLevelProfile, level: u8) -> (r:
    Result<u8, DirectFishingBookPolicyError>)
    ensures
        match spec_raw_level_weight(profile, level) {
            Some(w) => r == Ok::<u8, DirectFishingBookPolicyError>(w),
            None => r == Err::<u8, DirectFishingBookPolicyError>(
                DirectFishingBookPolicyError::LevelOutsideProfile { profile, level },
            ),
        },
{
    let weight: u8 = match (profile, level) {
        (DirectFishingBookLevelProfile::ShopCommon, 1) => 34,
        (DirectFishingBookLevelProfile::ShopCommon, 2) => 28,
        (DirectFishingBookLevelProfile::ShopCommon, 3) => 20,
        (DirectFishingBookLevelProfile::ShopCommon, 4) => 12,
        (DirectFishingBookLevelProfile::ShopCommon, 5) => 5,
        (DirectFishingBookLevelProfile::ShopCommon, 6) => 1,
        (DirectFishingBookLevelProfile::MidLoot, 2) => 24,
        (DirectFishingBookLevelProfile::MidLoot, 3) => 24,
        (DirectFishingBookLevelProfile::MidLoot, 4) => 22,
        (DirectFishingBookLevelProfile::MidLoot, 5) => 16,
        (DirectFishingBookLevelProfile::MidLoot, 6) => 10,
        (DirectFishingBookLevelProfile::MidLoot, 7) => 4,
        (DirectFishingBookLevelProfile::Rare, 3) => 14,
        (DirectFishingBookLevelProfile::Rare, 4) => 22,
        (DirectFishingBookLevelProfile::Rare, 5) => 26,
        (DirectFishingBookLevelProfile::Rare, 6) => 20,
        (DirectFishingBookLevelProfile::Rare, 7) => 12,
        (DirectFishingBookLevelProfile::Rare, 8) => 6,
        (DirectFishingBookLevelProfile::Mending, 1) => 100,
        (DirectFishingBookLevelProfile::NukeOrAnnihilation, 1) => 28,
        (DirectFishingBookLevelProfile::NukeOrAnnihilation, 2) => 24,
        (DirectFishingBookLevelProfile::NukeOrAnnihilation, 3) => 20,
        (DirectFishingBookLevelProfile::NukeOrAnnihilation, 4) => 12,
        (DirectFishingBookLevelProfile::NukeOrAnnihilation, 5) => 8,
        (DirectFishingBookLevelProfile::NukeOrAnnihilation, 6) => 5,
        (DirectFishingBookLevelProfile::NukeOrAnnihilation, 7) => 3,
        (DirectFishingBookLevelProfile::Phoenix, 1) => 100,
        _ => {
            return Err(DirectFishingBookPolicyError::LevelOutsideProfile { profile, level });
        },
    };
    Ok(weight)
}

/// The frozen direct-fishing Book tables: pools Shop/Common 58, Mid Loot 24, Rare 12, Mending 4,
/// Mythic 2; and the raw level weights of each profile (Shop/Common I-VI 34, 28, 20, 12, 5, 1;
/// Mid Loot II-VII 24, 24, 22, 16, 10, 4; Rare III-VIII 14, 22, 26, 20, 12, 6; Mending and Phoenix
/// I 100; Nuke/Annihilation I-VII 28, 24, 20, 12, 8, 5, 3).
pub proof fn lemma_book_table_weights()
    ensures
        spec_pool_weight(DirectFishingBookPool::ShopCommon) == 58,
        spec_pool_weight(DirectFishingBookPool::MidLoot) == 24,
        spec_pool_weight(DirectFishingBookPool::Rare) == 12,
        spec_pool_weight(DirectFishingBookPool::Mending) == 4,
        spec_pool_weight(DirectFishingBookPool::Mythic) == 2,
        spec_raw_level_weight(DirectFishingBookLevelProfile::ShopCommon, 1) == Some(34u8),
        spec_raw_level_weight(DirectFishingBookLevelProfile::ShopCommon, 2) == Some(28u8),
        spec_raw_level_weight(DirectFishingBookLevelProfile::ShopCommon, 3) == Some(20u8),
        spec_raw_level_weight(DirectFishingBookLevelProfile::ShopCommon, 4) == Some(12u8),
        spec_raw_level_weight(DirectFishingBookLevelProfile::ShopCommon, 5) == Some(5u8),
        spec_raw_level_weight(DirectFishingBookLevelProfile::ShopCommon, 6) == Some(1u8),
        spec_raw_level_weight(DirectFishingBookLevelProfile::MidLoot, 2) == Some(24u8),
        spec_raw_level_weight(DirectFishingBookLevelProfile::MidLoot, 3) == Some(24u8),
        spec_raw_level_weight(DirectFishingBookLevelProfile::MidLoot, 4) == Some(22u8),
        spec_raw_level_weight(DirectFishingBookLevelProfile::MidLoot, 5) == Some(16u8),
        spec_raw_level_weight(DirectFishingBookLevelProfile::MidLoot, 6) == Some(10u8),
        spec_raw_level_weight(DirectFishingBookLevelProfile::MidLoot, 7) == Some(4u8),
        spec_raw_level_weight(DirectFishingBookLevelProfile::Rare, 3) == Some(14u8),
        spec_raw_level_weight(DirectFishingBookLevelProfile::Rare, 4) == Some(22u8),
        spec_raw_level_weight(DirectFishingBookLevelProfile::Rare, 5) == Some(26u8),
        spec_raw_level_weight(DirectFishingBookLevelProfile::Rare, 6) == Some(20u8),
        spec_raw_level_weight(DirectFishingBookLevelProfile::Rare, 7) == Some(12u8),
        spec_raw_level_weight(DirectFishingBookLevelProfile::Rare, 8) == Some(6u8),
        spec_raw_level_weight(DirectFishingBookLevelProfile::Mending, 1) == Some(100u8),
        spec_raw_level_weight(DirectFishingBookLevelProfile::NukeOrAnnihilation, 1) == Some(28u8),
        spec_raw_level_weight(DirectFishingBookLevelProfile::NukeOrAnnihilation, 2) == Some(24u8),
        spec_raw_level_weight(DirectFishingBookLevelProfile::NukeOrAnnihilation, 3) == Some(20u8),
        spec_raw_level_weight(DirectFishingBookLevelProfile::NukeOrAnnihilation, 4) == Some(12u8),
        spec_raw_level_weight(DirectFishingBookLevelProfile::NukeOrAnnihilation, 5) == Some(8u8),
        spec_raw_level_weight(DirectFishingBookLevelProfile::NukeOrAnnihilation, 6) == Some(5u8),
        spec_raw_level_weight(DirectFishingBookLevelProfile::NukeOrAnnihilation, 7) == Some(3u8),
        spec_raw_level_weight(DirectFishingBookLevelProfile::Phoenix, 1) == Some(100u8),
{
}

/// Sum of a profile's weights over the levels `0..n`, a level outside the support counting 0.
pub open spec fn spec_level_weight_total(profile: DirectFishingBookLevelProfile, n: nat) -> int
    decreases n,
{
    if n == 0 {
        0
    } else {
        spec_level_weight_total(profile, (n - 1) as nat) + match spec_raw_level_weight(
            profile,
            (n - 1) as u8,
        ) {
            Some(w) => w as int,
            None => 0int,
        }
    }
}

/// Levels above X are outside every profile, so the total stops growing after level X.
proof fn lemma_level_weight_total_stops_after_ten(profile: DirectFishingBookLevelProfile, n: nat)
    requires
        11 <= n <= 256,
    ensures
        spec_level_weight_total(profile, n) == spec_level_weight_total(profile, 11),
    decreases n,
{
    if n > 11 {
        lemma_level_weight_total_stops_after_ten(profile, (n - 1) as nat);
        assert(spec_raw_level_weight(profile, (n - 1) as u8) is None);
    }
}

/// Every complete raw level profile sums to 100 over all levels `0..=255`, every weight in a
/// profile's support is positive, and the pool table sums to 100.
pub proof fn lemma_book_tables_sum_to_one_hundred(profile: DirectFishingBookLevelProfile)
    ensures
        spec_pool_weight(DirectFishingBookPool::ShopCommon) + spec_pool_weight(
            DirectFishingBookPool::MidLoot,
        ) + spec_pool_weight(DirectFishingBookPool::Rare) + spec_pool_weight(
            DirectFishingBookPool::Mending,
        ) + spec_pool_weight(DirectFishingBookPool::Mythic) == 100,
        spec_level_weight_total(profile, 256) == 100,
        forall|level: u8|
            #[trigger] spec_raw_level_weight(profile, level) matches Some(w) ==> w > 0,
{
    reveal_with_fuel(spec_level_weight_total, 12);
    lemma_level_weight_total_stops_after_ten(profile, 256);
}

} // verus!
