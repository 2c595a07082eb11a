use graphite_services::embedded_enchant_rows::StoredEnchantRow;
use graphite_services::enchant_catalog::CanonicalEnchant;
use graphite_services::equipment_policy::EquipmentTier;
use graphite_services::fishing_rod_state::classify_equipped_fishing_rod;
use graphite_services::fishing_rod_state::ordinary_rod_cast_durability;
use graphite_services::fishing_rod_state::ordinary_rod_cast_state;
use graphite_services::fishing_rod_state::starter_basic_cast_state;
use graphite_services::fishing_rod_state::EquippedFishingRodCastSnapshotError;
use graphite_services::fishing_rod_state::EquippedFishingRodEnchantState;
use graphite_services::fishing_rod_state::EquippedFishingRodKind;
use graphite_services::fishing_rod_state::EquippedFishingRodStateError;
use graphite_services::fishing_rod_state::EquippedRodRecord;
use graphite_services::fishing_rod_state::LockedFishingRodFacts;
use graphite_services::fishing_rod_state::STARTER_BASIC_ROD_DEFINITION_KEY;

fn record<'a>(definition_key: &'a str, is_starter: bool, is_ordinary: bool, tier: Option<&'a str>) -> EquippedRodRecord<'a> {
    EquippedRodRecord {
        slot_still_holds_item: true,
        location: "EQUIPPED",
        category: "FISHING_ROD",
        definition_key,
        is_starter,
        is_ordinary_equipment: is_ordinary,
        tier_label: tier,
    }
}

#[test]
fn equipped_rods_classify_by_identity_and_tier() {
    assert_eq!(
        classify_equipped_fishing_rod(record(STARTER_BASIC_ROD_DEFINITION_KEY, true, false, None)),
        Ok(EquippedFishingRodKind::StarterBasic)
    );
    assert_eq!(
        classify_equipped_fishing_rod(record("equipment.rod.iron", false, true, Some("IRON"))),
        Ok(EquippedFishingRodKind::Ordinary { tier: EquipmentTier::Iron })
    );
}

#[test]
fn equipped_rod_integrity_failures_are_named() {
    let mut moved = record("equipment.rod.iron", false, true, Some("IRON"));
    moved.location = "ITEM_BAG";
    assert_eq!(
        classify_equipped_fishing_rod(moved),
        Err(EquippedFishingRodStateError::EquippedRodIntegrityMismatch)
    );
    let mut stale = record("equipment.rod.iron", false, true, Some("IRON"));
    stale.slot_still_holds_item = false;
    assert_eq!(
        classify_equipped_fishing_rod(stale),
        Err(EquippedFishingRodStateError::EquippedRodIntegrityMismatch)
    );
    assert_eq!(
        classify_equipped_fishing_rod(record(STARTER_BASIC_ROD_DEFINITION_KEY, true, true, None)),
        Err(EquippedFishingRodStateError::StarterBasicRodIntegrityMismatch)
    );
    assert_eq!(
        classify_equipped_fishing_rod(record("equipment.rod.iron", true, true, Some("IRON"))),
        Err(EquippedFishingRodStateError::StarterBasicRodIntegrityMismatch)
    );
    assert_eq!(
        classify_equipped_fishing_rod(record("equipment.rod.event", false, false, Some("IRON"))),
        Err(EquippedFishingRodStateError::NonOrdinaryFishingRod)
    );
    assert_eq!(
        classify_equipped_fishing_rod(record("equipment.rod.iron", false, true, Some("LEATHER"))),
        Err(EquippedFishingRodStateError::InvalidOrdinaryRodTierMetadata)
    );
}

fn starter_facts() -> LockedFishingRodFacts {
    LockedFishingRodFacts {
        kind: EquippedFishingRodKind::StarterBasic,
        is_starter: true,
        is_unbreakable: true,
        is_repairable: false,
        current_durability: None,
        max_durability: None,
        is_broken: false,
    }
}

fn ordinary_facts(current: i64, maximum: i64, is_broken: bool) -> LockedFishingRodFacts {
    LockedFishingRodFacts {
        kind: EquippedFishingRodKind::Ordinary { tier: EquipmentTier::Iron },
        is_starter: false,
        is_unbreakable: false,
        is_repairable: true,
        current_durability: Some(current),
        max_durability: Some(maximum),
        is_broken,
    }
}

#[test]
fn the_starter_basic_rod_casts_only_in_its_canonical_state() {
    let state = starter_basic_cast_state(starter_facts(), 0).unwrap();
    assert_eq!(state.kind, EquippedFishingRodKind::StarterBasic);
    assert_eq!(state.current_durability, None);
    assert_eq!(state.normal_enchant_slot_capacity, 0);
    assert!(state.embedded_enchants.is_empty());
    assert_eq!(
        starter_basic_cast_state(starter_facts(), 1),
        Err(EquippedFishingRodCastSnapshotError::StarterBasicCastStateIntegrityMismatch)
    );
    let mut repairable = starter_facts();
    repairable.is_repairable = true;
    assert_eq!(
        starter_basic_cast_state(repairable, 0),
        Err(EquippedFishingRodCastSnapshotError::StarterBasicCastStateIntegrityMismatch)
    );
}

#[test]
fn ordinary_rod_durability_must_be_consistent() {
    assert_eq!(ordinary_rod_cast_durability(ordinary_facts(40, 100, false)), Ok((40, 100)));
    assert_eq!(ordinary_rod_cast_durability(ordinary_facts(0, 100, true)), Ok((0, 100)));
    for facts in [
        ordinary_facts(0, 100, false),
        ordinary_facts(40, 100, true),
        ordinary_facts(101, 100, false),
        ordinary_facts(1, 0, false),
        ordinary_facts(-1, 100, false),
        ordinary_facts(1, i64::from(u32::MAX) + 1, false),
    ] {
        assert_eq!(
            ordinary_rod_cast_durability(facts),
            Err(EquippedFishingRodCastSnapshotError::InvalidOrdinaryRodDurabilityState)
        );
    }
}

fn rod_row(enchant: Option<CanonicalEnchant>, key: &str, level: i16) -> StoredEnchantRow {
    StoredEnchantRow { enchant, persisted_key: key.to_string(), level }
}

#[test]
fn ordinary_rod_cast_state_reads_capacity_and_enchants() {
    let kind = EquippedFishingRodKind::Ordinary { tier: EquipmentTier::Iron };
    let rows = vec![
        rod_row(Some(CanonicalEnchant::BaitRack), "BAIT_RACK", 2),
        rod_row(Some(CanonicalEnchant::Lure), "LURE", 5),
    ];
    let state = ordinary_rod_cast_state(kind, 40, 100, false, Some((4, 3)), &rows).unwrap();
    assert_eq!(state.current_durability, Some(40));
    assert_eq!(state.max_durability, Some(100));
    assert_eq!(
        state.embedded_enchants,
        vec![
            EquippedFishingRodEnchantState { enchant: CanonicalEnchant::BaitRack, level: 2 },
            EquippedFishingRodEnchantState { enchant: CanonicalEnchant::Lure, level: 5 },
        ]
    );
    assert_eq!(
        ordinary_rod_cast_state(kind, 40, 100, false, None, &rows),
        Err(EquippedFishingRodCastSnapshotError::OrdinaryRodStructuralStateMissing)
    );
    assert_eq!(
        ordinary_rod_cast_state(kind, 40, 100, false, Some((4, 3)), &[rod_row(None, "OLD", 1)]),
        Err(EquippedFishingRodCastSnapshotError::UnknownEmbeddedEnchantKey("OLD".to_string()))
    );
    assert_eq!(
        ordinary_rod_cast_state(
            kind,
            40,
            100,
            false,
            Some((4, 3)),
            &[rod_row(Some(CanonicalEnchant::Efficiency), "EFFICIENCY", 1)]
        ),
        Err(EquippedFishingRodCastSnapshotError::EmbeddedEnchantWrongEquipmentSlot(
            CanonicalEnchant::Efficiency
        ))
    );
}
