use graphite_services::enchant_catalog::BAIT_RACK_MAX_BOOK_LEVEL;
use graphite_services::enchant_catalog::CanonicalEmbeddedEnchantAppraisalInput;
use graphite_services::enchant_catalog::CanonicalEnchant;
use graphite_services::enchant_catalog::EnchantAcquisitionSource;
use graphite_services::enchant_appraisal::EnchantAppraisalClass;
use graphite_services::enchant_appraisal::EnchantAppraisalError;
use graphite_services::enchant_catalog::canonical_embedded_enchant_value;
use graphite_services::enchant_catalog::canonical_enchant_book_appraisal;
use graphite_services::enchant_catalog::enchant_catalog_policy;

#[test]
fn shop_common_and_special_common_share_source_but_not_appraisal_weight_class() {
    let efficiency = enchant_catalog_policy(CanonicalEnchant::Efficiency);
    assert_eq!(
        efficiency.acquisition_source,
        EnchantAcquisitionSource::NormalShopFishingChest
    );
    assert_eq!(
        efficiency.appraisal_class,
        EnchantAppraisalClass::ShopCommon
    );
    assert_eq!(efficiency.normal_shop_max_book_level, Some(5));
    assert!(efficiency.normal_shop_eligible());

    let grinding = enchant_catalog_policy(CanonicalEnchant::Grinding);
    assert_eq!(
        grinding.acquisition_source,
        EnchantAcquisitionSource::NormalShopFishingChest
    );
    assert_eq!(
        grinding.appraisal_class,
        EnchantAppraisalClass::SpecialCommon
    );
    assert_eq!(grinding.normal_shop_max_book_level, Some(5));
}

#[test]
fn bait_rack_preserves_the_specific_level_three_shop_ceiling() {
    let bait_rack = enchant_catalog_policy(CanonicalEnchant::BaitRack);
    assert_eq!(BAIT_RACK_MAX_BOOK_LEVEL, 3);
    assert_eq!(
        bait_rack.acquisition_source,
        EnchantAcquisitionSource::NormalShopFishingChest
    );
    assert_eq!(bait_rack.appraisal_class, EnchantAppraisalClass::ShopCommon);
    assert_eq!(bait_rack.normal_shop_max_book_level, Some(3));
    assert!(bait_rack.normal_shop_eligible());
}

#[test]
fn loot_specials_preserve_special_appraisal_classes() {
    let looting = enchant_catalog_policy(CanonicalEnchant::Looting);
    assert_eq!(
        looting.acquisition_source,
        EnchantAcquisitionSource::FishingChestMidHigh
    );
    assert_eq!(
        looting.appraisal_class,
        EnchantAppraisalClass::FishingChestMidHigh
    );

    let empowering = enchant_catalog_policy(CanonicalEnchant::Empowering);
    assert_eq!(
        empowering.acquisition_source,
        EnchantAcquisitionSource::FishingChestMidHigh
    );
    assert_eq!(
        empowering.appraisal_class,
        EnchantAppraisalClass::SpecialMid
    );

    let soul_grind = enchant_catalog_policy(CanonicalEnchant::SoulGrind);
    assert_eq!(
        soul_grind.acquisition_source,
        EnchantAcquisitionSource::FishingChestRare
    );
    assert_eq!(
        soul_grind.appraisal_class,
        EnchantAppraisalClass::FishingChestRare
    );
}

#[test]
fn dedicated_sources_map_to_their_frozen_appraisal_classes() {
    let mending = enchant_catalog_policy(CanonicalEnchant::Mending);
    assert_eq!(
        mending.acquisition_source,
        EnchantAcquisitionSource::FishingOnly
    );
    assert_eq!(mending.appraisal_class, EnchantAppraisalClass::Mending);

    let nuke = enchant_catalog_policy(CanonicalEnchant::Nuke);
    assert_eq!(
        nuke.acquisition_source,
        EnchantAcquisitionSource::FishingChestMythic
    );
    assert_eq!(nuke.appraisal_class, EnchantAppraisalClass::Mythic);

    let shadow = enchant_catalog_policy(CanonicalEnchant::ShadowWalker);
    assert_eq!(
        shadow.acquisition_source,
        EnchantAcquisitionSource::CombineMutationOnly
    );
    assert_eq!(
        shadow.appraisal_class,
        EnchantAppraisalClass::FishingChestMidHigh
    );
}

#[test]
fn treasure_contexts_are_distinct_but_share_mid_high_policy() {
    let pickaxe = enchant_catalog_policy(CanonicalEnchant::PickaxeTreasure);
    let rod = enchant_catalog_policy(CanonicalEnchant::FishingRodTreasure);
    assert_ne!(pickaxe.enchant, rod.enchant);
    assert_eq!(
        pickaxe.acquisition_source,
        EnchantAcquisitionSource::FishingChestMidHigh
    );
    assert_eq!(
        rod.acquisition_source,
        EnchantAcquisitionSource::FishingChestMidHigh
    );
    assert_eq!(
        pickaxe.appraisal_class,
        EnchantAppraisalClass::FishingChestMidHigh
    );
    assert_eq!(
        rod.appraisal_class,
        EnchantAppraisalClass::FishingChestMidHigh
    );
}

#[test]
fn master_identity_reuses_the_existing_tier_progression_authority() {
    let master = enchant_catalog_policy(CanonicalEnchant::Master);
    assert_eq!(
        master.acquisition_source,
        EnchantAcquisitionSource::MasterProgression
    );
    assert_eq!(master.appraisal_class, EnchantAppraisalClass::SpecialRare);
    assert!(!master.normal_shop_eligible());
}

#[test]
fn identity_aware_book_appraisal_derives_class_from_catalog() {
    for (enchant, level, class, value) in [
        (
            CanonicalEnchant::Efficiency,
            1,
            EnchantAppraisalClass::ShopCommon,
            60_000,
        ),
        (
            CanonicalEnchant::Stabilize,
            1,
            EnchantAppraisalClass::SpecialCommon,
            120_000,
        ),
        (
            CanonicalEnchant::PickaxeTreasure,
            1,
            EnchantAppraisalClass::FishingChestMidHigh,
            180_000,
        ),
        (
            CanonicalEnchant::Trench,
            1,
            EnchantAppraisalClass::FishingChestRare,
            480_000,
        ),
        (
            CanonicalEnchant::Mending,
            1,
            EnchantAppraisalClass::Mending,
            480_000,
        ),
        (
            CanonicalEnchant::Nuke,
            1,
            EnchantAppraisalClass::Mythic,
            1_200_000,
        ),
        (
            CanonicalEnchant::Empowering,
            1,
            EnchantAppraisalClass::SpecialMid,
            300_000,
        ),
        (
            CanonicalEnchant::Master,
            1,
            EnchantAppraisalClass::SpecialRare,
            720_000,
        ),
        (
            CanonicalEnchant::ShadowWalker,
            4,
            EnchantAppraisalClass::FishingChestMidHigh,
            945_000,
        ),
    ] {
        let appraisal = canonical_enchant_book_appraisal(enchant, level).unwrap();
        assert_eq!(appraisal.class, class, "{enchant:?}");
        assert_eq!(appraisal.value, value, "{enchant:?}");
    }
}

#[test]
fn identity_aware_embedded_value_reuses_the_exact_seventy_percent_accumulator() {
    let inputs = [
        CanonicalEmbeddedEnchantAppraisalInput {
            enchant: CanonicalEnchant::Efficiency,
            level: 2,
        },
        CanonicalEmbeddedEnchantAppraisalInput {
            enchant: CanonicalEnchant::Mending,
            level: 1,
        },
        CanonicalEmbeddedEnchantAppraisalInput {
            enchant: CanonicalEnchant::Master,
            level: 3,
        },
    ];
    // 105,000 + 480,000 + 2,160,000 = 2,745,000; 70% = 1,921,500.
    assert_eq!(canonical_embedded_enchant_value(&inputs).unwrap(), 1_921_500);
    assert_eq!(canonical_embedded_enchant_value(&[]).unwrap(), 0);
}

#[test]
fn identity_aware_bridge_preserves_resulting_level_validation() {
    assert_eq!(
        canonical_enchant_book_appraisal(CanonicalEnchant::Efficiency, 0),
        Err(EnchantAppraisalError::InvalidLevel(0))
    );
    assert_eq!(
        canonical_embedded_enchant_value(&[CanonicalEmbeddedEnchantAppraisalInput {
            enchant: CanonicalEnchant::Nuke,
            level: 11,
        }]),
        Err(EnchantAppraisalError::InvalidLevel(11))
    );
}
