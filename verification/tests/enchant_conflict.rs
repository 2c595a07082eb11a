use graphite_services::enchant_conflict::ArmorEnchant;
use graphite_services::enchant_catalog::CanonicalEnchant;
use graphite_services::enchant_conflict::EnchantConflictDecision;
use graphite_services::enchant_conflict::EnchantConflictScope;
use graphite_services::enchant_conflict::FishingRodEnchant;
use graphite_services::enchant_conflict::PickaxeEnchant;
use graphite_services::enchant_conflict::SwordEnchant;
use graphite_services::enchant_conflict::armor_enchants_conflict;
use graphite_services::enchant_conflict::canonical_enchant_conflict_scope;
use graphite_services::enchant_conflict::canonical_enchants_conflict;
use graphite_services::enchant_conflict::fishing_rod_enchants_conflict;
use graphite_services::enchant_conflict::pickaxe_enchants_conflict;
use graphite_services::enchant_conflict::sword_enchants_conflict;

const PICKAXE_ENCHANTS: [PickaxeEnchant; 8] = [
    PickaxeEnchant::Efficiency,
    PickaxeEnchant::Fortune,
    PickaxeEnchant::Treasure,
    PickaxeEnchant::Unbreaking,
    PickaxeEnchant::Mending,
    PickaxeEnchant::Trench,
    PickaxeEnchant::Nuke,
    PickaxeEnchant::Smelt,
];
const FISHING_ROD_ENCHANTS: [FishingRodEnchant; 11] = [
    FishingRodEnchant::Lure,
    FishingRodEnchant::LuckOfTheSea,
    FishingRodEnchant::Treasure,
    FishingRodEnchant::MultiTreasure,
    FishingRodEnchant::Luck,
    FishingRodEnchant::Unbreaking,
    FishingRodEnchant::Mending,
    FishingRodEnchant::Multicatch,
    FishingRodEnchant::Strengthen,
    FishingRodEnchant::SharpHook,
    FishingRodEnchant::BaitRack,
];
const SWORD_ENCHANTS: [SwordEnchant; 17] = [
    SwordEnchant::Sharpness,
    SwordEnchant::Smite,
    SwordEnchant::BaneOfArthropods,
    SwordEnchant::SweepingEdge,
    SwordEnchant::FireAspect,
    SwordEnchant::Unbreaking,
    SwordEnchant::Mending,
    SwordEnchant::Looting,
    SwordEnchant::Knockback,
    SwordEnchant::Devour,
    SwordEnchant::Execution,
    SwordEnchant::Bleeding,
    SwordEnchant::BloodFrenzy,
    SwordEnchant::ArmorPiercing,
    SwordEnchant::Piercing,
    SwordEnchant::Freezing,
    SwordEnchant::Annihilation,
];
const ARMOR_ENCHANTS: [ArmorEnchant; 17] = [
    ArmorEnchant::Protection,
    ArmorEnchant::Unbreaking,
    ArmorEnchant::Thorn,
    ArmorEnchant::Mending,
    ArmorEnchant::NineLife,
    ArmorEnchant::Cat,
    ArmorEnchant::Dog,
    ArmorEnchant::Dodge,
    ArmorEnchant::Guardian,
    ArmorEnchant::ShadowWalker,
    ArmorEnchant::NightWalker,
    ArmorEnchant::DayWalker,
    ArmorEnchant::Angel,
    ArmorEnchant::Evil,
    ArmorEnchant::Reinforce,
    ArmorEnchant::Phoenix,
    ArmorEnchant::SoulGrind,
];

#[test]
fn canonical_same_item_conflicts_match_the_frozen_pairs() {
    for pair in [
        (CanonicalEnchant::Trench, CanonicalEnchant::Nuke),
        (CanonicalEnchant::Sharpness, CanonicalEnchant::Smite),
        (
            CanonicalEnchant::Sharpness,
            CanonicalEnchant::BaneOfArthropods,
        ),
        (CanonicalEnchant::Smite, CanonicalEnchant::BaneOfArthropods),
        (CanonicalEnchant::FireAspect, CanonicalEnchant::Freezing),
        (CanonicalEnchant::FireAspect, CanonicalEnchant::Bleeding),
        (CanonicalEnchant::Freezing, CanonicalEnchant::Bleeding),
        (
            CanonicalEnchant::Annihilation,
            CanonicalEnchant::BloodFrenzy,
        ),
        (CanonicalEnchant::Annihilation, CanonicalEnchant::Execution),
        (CanonicalEnchant::BloodFrenzy, CanonicalEnchant::Execution),
        (CanonicalEnchant::SweepingEdge, CanonicalEnchant::Piercing),
        (
            CanonicalEnchant::SweepingEdge,
            CanonicalEnchant::ArmorPiercing,
        ),
        (CanonicalEnchant::Cat, CanonicalEnchant::Dog),
        (CanonicalEnchant::Angel, CanonicalEnchant::Evil),
        (CanonicalEnchant::Thorn, CanonicalEnchant::Reinforce),
    ] {
        assert_eq!(
            canonical_enchant_conflict_scope(pair.0, pair.1),
            Some(EnchantConflictScope::SameItem),
            "{pair:?}"
        );
        assert_eq!(
            canonical_enchant_conflict_scope(pair.1, pair.0),
            Some(EnchantConflictScope::SameItem),
            "reverse {pair:?}"
        );
    }
}

#[test]
fn canonical_survival_core_conflict_is_explicitly_loadout_scoped() {
    for pair in [
        (CanonicalEnchant::Guardian, CanonicalEnchant::NineLife),
        (CanonicalEnchant::Guardian, CanonicalEnchant::Phoenix),
        (CanonicalEnchant::NineLife, CanonicalEnchant::Phoenix),
    ] {
        assert_eq!(
            canonical_enchant_conflict_scope(pair.0, pair.1),
            Some(EnchantConflictScope::EquippedArmorLoadout),
            "{pair:?}"
        );
        assert_eq!(
            canonical_enchant_conflict_scope(pair.1, pair.0),
            Some(EnchantConflictScope::EquippedArmorLoadout),
            "reverse {pair:?}"
        );
    }
}

#[test]
fn canonical_explicit_non_conflicts_remain_compatible() {
    for pair in [
        (CanonicalEnchant::Piercing, CanonicalEnchant::ArmorPiercing),
        (CanonicalEnchant::DayWalker, CanonicalEnchant::NightWalker),
        (CanonicalEnchant::DayWalker, CanonicalEnchant::ShadowWalker),
        (
            CanonicalEnchant::NightWalker,
            CanonicalEnchant::ShadowWalker,
        ),
        (
            CanonicalEnchant::MultiTreasure,
            CanonicalEnchant::Multicatch,
        ),
        (CanonicalEnchant::Stabilize, CanonicalEnchant::Sparkling),
    ] {
        assert_eq!(canonical_enchant_conflict_scope(pair.0, pair.1), None);
        assert_eq!(canonical_enchant_conflict_scope(pair.1, pair.0), None);
        assert_eq!(
            canonical_enchants_conflict(pair.0, pair.1),
            EnchantConflictDecision::Compatible
        );
    }
}

#[test]
fn canonical_conflicts_are_irreflexive_for_representative_identities() {
    for enchant in [
        CanonicalEnchant::Trench,
        CanonicalEnchant::Nuke,
        CanonicalEnchant::Sharpness,
        CanonicalEnchant::Guardian,
        CanonicalEnchant::Phoenix,
        CanonicalEnchant::Stabilize,
    ] {
        assert_eq!(canonical_enchant_conflict_scope(enchant, enchant), None);
        assert_eq!(
            canonical_enchants_conflict(enchant, enchant),
            EnchantConflictDecision::Compatible
        );
    }
}

#[test]
fn pickaxe_has_only_trench_nuke_conflict() {
    for left in PICKAXE_ENCHANTS {
        for right in PICKAXE_ENCHANTS {
            let expected = matches!(
                (left, right),
                (PickaxeEnchant::Trench, PickaxeEnchant::Nuke)
                    | (PickaxeEnchant::Nuke, PickaxeEnchant::Trench)
            );
            assert_eq!(
                pickaxe_enchants_conflict(left, right).is_forbidden(),
                expected
            );
        }
    }
}

#[test]
fn fishing_rod_has_no_frozen_conflict_pairs() {
    for left in FISHING_ROD_ENCHANTS {
        for right in FISHING_ROD_ENCHANTS {
            assert_eq!(
                fishing_rod_enchants_conflict(left, right),
                EnchantConflictDecision::Compatible
            );
        }
    }
}

#[test]
fn sword_conflicts_are_symmetric_and_self_pairs_are_compatible() {
    for left in SWORD_ENCHANTS {
        assert_eq!(
            sword_enchants_conflict(left, left),
            EnchantConflictDecision::Compatible
        );
        for right in SWORD_ENCHANTS {
            assert_eq!(
                sword_enchants_conflict(left, right),
                sword_enchants_conflict(right, left),
                "{left:?} vs {right:?} must be symmetric"
            );
        }
    }
}

#[test]
fn sword_frozen_families_and_technique_pairs_match_exactly() {
    for pair in [
        (SwordEnchant::Sharpness, SwordEnchant::Smite),
        (SwordEnchant::Sharpness, SwordEnchant::BaneOfArthropods),
        (SwordEnchant::Smite, SwordEnchant::BaneOfArthropods),
        (SwordEnchant::FireAspect, SwordEnchant::Freezing),
        (SwordEnchant::FireAspect, SwordEnchant::Bleeding),
        (SwordEnchant::Freezing, SwordEnchant::Bleeding),
        (SwordEnchant::Annihilation, SwordEnchant::BloodFrenzy),
        (SwordEnchant::Annihilation, SwordEnchant::Execution),
        (SwordEnchant::BloodFrenzy, SwordEnchant::Execution),
        (SwordEnchant::SweepingEdge, SwordEnchant::Piercing),
        (SwordEnchant::SweepingEdge, SwordEnchant::ArmorPiercing),
    ] {
        assert!(sword_enchants_conflict(pair.0, pair.1).is_forbidden());
    }
    assert_eq!(
        sword_enchants_conflict(SwordEnchant::Piercing, SwordEnchant::ArmorPiercing),
        EnchantConflictDecision::Compatible
    );
}

#[test]
fn armor_conflicts_are_symmetric_and_self_pairs_are_compatible() {
    for left in ARMOR_ENCHANTS {
        assert_eq!(
            armor_enchants_conflict(left, left),
            EnchantConflictDecision::Compatible
        );
        for right in ARMOR_ENCHANTS {
            assert_eq!(
                armor_enchants_conflict(left, right),
                armor_enchants_conflict(right, left),
                "{left:?} vs {right:?} must be symmetric"
            );
        }
    }
}

#[test]
fn armor_frozen_conflicts_and_walker_non_conflicts_match_exactly() {
    for pair in [
        (ArmorEnchant::Cat, ArmorEnchant::Dog),
        (ArmorEnchant::Angel, ArmorEnchant::Evil),
        (ArmorEnchant::Guardian, ArmorEnchant::NineLife),
        (ArmorEnchant::Guardian, ArmorEnchant::Phoenix),
        (ArmorEnchant::NineLife, ArmorEnchant::Phoenix),
        (ArmorEnchant::Thorn, ArmorEnchant::Reinforce),
    ] {
        assert!(armor_enchants_conflict(pair.0, pair.1).is_forbidden());
    }

    for pair in [
        (ArmorEnchant::DayWalker, ArmorEnchant::NightWalker),
        (ArmorEnchant::DayWalker, ArmorEnchant::ShadowWalker),
        (ArmorEnchant::NightWalker, ArmorEnchant::ShadowWalker),
    ] {
        assert_eq!(
            armor_enchants_conflict(pair.0, pair.1),
            EnchantConflictDecision::Compatible
        );
    }
}
