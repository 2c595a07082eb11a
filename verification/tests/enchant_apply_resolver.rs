use graphite_services::embedded_enchant_rows::StoredEnchantRow;
use graphite_services::enchant_apply::EnchantApplyAction;
use graphite_services::enchant_apply::EnchantApplyError;
use graphite_services::enchant_apply::ExistingAppliedEnchant;
use graphite_services::enchant_apply_resolver::assemble_equipped_armor_loadout;
use graphite_services::enchant_apply_resolver::attach_embedded_enchant_rows;
use graphite_services::enchant_apply_resolver::check_locked_item_rows;
use graphite_services::enchant_apply_resolver::decide_standard_finished_book_write;
use graphite_services::enchant_apply_resolver::equipped_armor_pieces_from_slot_rows;
use graphite_services::enchant_apply_resolver::loadout_item_ids;
use graphite_services::enchant_apply_resolver::preview_standard_finished_book_application_for_enhanced_appraisal;
use graphite_services::enchant_apply_resolver::require_single_row_written;
use graphite_services::enchant_apply_resolver::validate_existing_equipped_armor_conflicts;
use graphite_services::enchant_apply_resolver::validate_incoming_against_equipped_armor_loadout;
use graphite_services::enchant_apply_resolver::EquippedArmorEnchantLoadout;
use graphite_services::enchant_apply_resolver::EquippedArmorEnchantLoadoutError;
use graphite_services::enchant_apply_resolver::EquippedArmorEnchantState;
use graphite_services::enchant_apply_resolver::EquippedArmorPiece;
use graphite_services::enchant_apply_resolver::EquippedSlotRow;
use graphite_services::enchant_apply_resolver::LockedEnchantRow;
use graphite_services::enchant_apply_resolver::LockedItemRow;
use graphite_services::enchant_apply_resolver::OrdinaryEnchantApplyPreflightResolverError;
use graphite_services::enchant_apply_resolver::OrdinaryEnchantApplyStateWriterError;
use graphite_services::enchant_apply_resolver::MAX_LOCKED_ENCHANT_ROWS;
use graphite_services::enchant_catalog::CanonicalEnchant;
use graphite_services::enchant_conflict::EnchantConflictScope;
use graphite_services::equipment_appraisal::CreationRoll;
use graphite_services::equipment_policy::BaseEquipmentAppraisal;
use graphite_services::equipment_policy::BaseEquipmentAppraisalSource;
use graphite_services::equipment_policy::EquipmentSlot;
use graphite_services::equipment_policy::EquipmentTier;
use graphite_services::equipment_recraft_resolver::OrdinaryEquipmentEnhancedAppraisal;
use graphite_services::equipment_recraft_resolver::OrdinaryEquipmentRecraftAppraisal;

const PLAYER: u128 = 1;
const HELMET: u128 = 30;
const CHEST: u128 = 10;
const BOOTS: u128 = 20;
const TARGET: u128 = 15;

fn piece(item_instance_id: u128, slot: EquipmentSlot) -> EquippedArmorPiece {
    EquippedArmorPiece { item_instance_id, slot }
}

fn row(item_instance_id: u128, enchant: CanonicalEnchant, key: &str, level: i16) -> LockedEnchantRow {
    LockedEnchantRow {
        item_instance_id,
        row: StoredEnchantRow { enchant: Some(enchant), persisted_key: key.to_string(), level },
    }
}

fn state(
    item_instance_id: u128,
    slot: EquipmentSlot,
    enchants: &[(CanonicalEnchant, u8)],
) -> EquippedArmorEnchantState {
    EquippedArmorEnchantState {
        item_instance_id,
        slot,
        enchants: enchants
            .iter()
            .map(|&(enchant, level)| ExistingAppliedEnchant { enchant, level })
            .collect(),
    }
}

#[test]
fn armor_slot_rows_become_pieces_in_row_order() {
    let rows = vec![
        EquippedSlotRow { slot: "ARMOR_CHEST".to_string(), item_instance_id: CHEST },
        EquippedSlotRow { slot: "ARMOR_BOOTS".to_string(), item_instance_id: BOOTS },
    ];
    assert_eq!(
        equipped_armor_pieces_from_slot_rows(&rows).unwrap(),
        vec![piece(CHEST, EquipmentSlot::Chestplate), piece(BOOTS, EquipmentSlot::Boots)]
    );
}

#[test]
fn an_unknown_armor_slot_label_is_an_integrity_mismatch_of_its_item() {
    let rows = vec![
        EquippedSlotRow { slot: "ARMOR_CHEST".to_string(), item_instance_id: CHEST },
        EquippedSlotRow { slot: "MAIN_HAND".to_string(), item_instance_id: 77 },
        EquippedSlotRow { slot: "OFF_HAND".to_string(), item_instance_id: 78 },
    ];
    assert_eq!(
        equipped_armor_pieces_from_slot_rows(&rows),
        Err(EquippedArmorEnchantLoadoutError::EquipmentIntegrityMismatch(77))
    );
}

#[test]
fn the_lock_set_is_sorted_without_repeats_and_includes_the_target() {
    let pieces = vec![piece(HELMET, EquipmentSlot::Helmet), piece(CHEST, EquipmentSlot::Chestplate)];
    assert_eq!(loadout_item_ids(&pieces, TARGET), vec![CHEST, TARGET, HELMET]);
    assert_eq!(loadout_item_ids(&pieces, CHEST), vec![CHEST, HELMET]);
    assert_eq!(loadout_item_ids(&[], TARGET), vec![TARGET]);
}

fn item_row(id: u128, owner: u128, location: &str) -> LockedItemRow {
    LockedItemRow { id, owner_player_id: owner, location: location.to_string() }
}

#[test]
fn locked_item_rows_must_match_the_lock_set() {
    let pieces = vec![piece(CHEST, EquipmentSlot::Chestplate)];
    let ids = vec![CHEST, TARGET];
    let good = vec![item_row(CHEST, PLAYER, "EQUIPPED"), item_row(TARGET, PLAYER, "TOOL_LOCKER")];
    assert_eq!(check_locked_item_rows(&good, &ids, &pieces, PLAYER, TARGET), Ok(()));

    assert_eq!(
        check_locked_item_rows(&good[..1], &ids, &pieces, PLAYER, TARGET),
        Err(EquippedArmorEnchantLoadoutError::TargetItemNotFound)
    );
    let wrong_id = vec![item_row(CHEST, PLAYER, "EQUIPPED"), item_row(16, PLAYER, "TOOL_LOCKER")];
    assert_eq!(
        check_locked_item_rows(&wrong_id, &ids, &pieces, PLAYER, TARGET),
        Err(EquippedArmorEnchantLoadoutError::EquipmentIntegrityMismatch(16))
    );
    let foreign_target = vec![item_row(CHEST, PLAYER, "EQUIPPED"), item_row(TARGET, 2, "TOOL_LOCKER")];
    assert_eq!(
        check_locked_item_rows(&foreign_target, &ids, &pieces, PLAYER, TARGET),
        Err(EquippedArmorEnchantLoadoutError::TargetItemNotFound)
    );
    let foreign_armor = vec![item_row(CHEST, 2, "EQUIPPED"), item_row(TARGET, PLAYER, "TOOL_LOCKER")];
    assert_eq!(
        check_locked_item_rows(&foreign_armor, &ids, &pieces, PLAYER, TARGET),
        Err(EquippedArmorEnchantLoadoutError::EquipmentIntegrityMismatch(CHEST))
    );
    let unequipped_armor = vec![item_row(CHEST, PLAYER, "ITEM_BAG"), item_row(TARGET, PLAYER, "TOOL_LOCKER")];
    assert_eq!(
        check_locked_item_rows(&unequipped_armor, &ids, &pieces, PLAYER, TARGET),
        Err(EquippedArmorEnchantLoadoutError::EquipmentIntegrityMismatch(CHEST))
    );
}

#[test]
fn enchant_rows_attach_to_their_equipped_piece_in_row_order() {
    let pieces = vec![piece(CHEST, EquipmentSlot::Chestplate), piece(BOOTS, EquipmentSlot::Boots)];
    let rows = vec![
        row(CHEST, CanonicalEnchant::Guardian, "GUARDIAN", 3),
        row(CHEST, CanonicalEnchant::Protection, "PROTECTION", 5),
        row(TARGET, CanonicalEnchant::Phoenix, "PHOENIX", 1),
        row(BOOTS, CanonicalEnchant::Cat, "CAT", 2),
    ];
    assert_eq!(
        attach_embedded_enchant_rows(&pieces, &rows).unwrap(),
        vec![
            state(
                CHEST,
                EquipmentSlot::Chestplate,
                &[(CanonicalEnchant::Guardian, 3), (CanonicalEnchant::Protection, 5)]
            ),
            state(BOOTS, EquipmentSlot::Boots, &[(CanonicalEnchant::Cat, 2)]),
        ]
    );
}

#[test]
fn enchant_row_errors_name_the_item_and_come_in_row_order() {
    let pieces = vec![piece(CHEST, EquipmentSlot::Chestplate)];
    let unknown = vec![
        LockedEnchantRow {
            item_instance_id: CHEST,
            row: StoredEnchantRow { enchant: None, persisted_key: "LEGACY".to_string(), level: 1 },
        },
        row(CHEST, CanonicalEnchant::Guardian, "GUARDIAN", 0),
    ];
    assert_eq!(
        attach_embedded_enchant_rows(&pieces, &unknown),
        Err(EquippedArmorEnchantLoadoutError::UnknownEmbeddedEnchantKey {
            item_instance_id: CHEST,
            key: "LEGACY".to_string(),
        })
    );
    assert_eq!(
        attach_embedded_enchant_rows(&pieces, &[row(CHEST, CanonicalEnchant::NineLife, "NINE_LIFE", 10)]),
        Err(EquippedArmorEnchantLoadoutError::InvalidEmbeddedEnchantLevel {
            item_instance_id: CHEST,
            enchant: CanonicalEnchant::NineLife,
            level: 10,
            maximum: 9,
        })
    );
    assert_eq!(
        attach_embedded_enchant_rows(&pieces, &[row(CHEST, CanonicalEnchant::Cat, "CAT", 1)]),
        Err(EquippedArmorEnchantLoadoutError::ExistingEnchantWrongEquipmentSlot {
            item_instance_id: CHEST,
            enchant: CanonicalEnchant::Cat,
            slot: EquipmentSlot::Chestplate,
        })
    );
    // Rows of the unequipped target are not examined here.
    assert!(attach_embedded_enchant_rows(&pieces, &[row(TARGET, CanonicalEnchant::Cat, "CAT", 99)]).is_ok());
}

#[test]
fn more_locked_enchant_rows_than_the_bounded_domain_are_refused() {
    let pieces = vec![piece(CHEST, EquipmentSlot::Chestplate)];
    let rows: Vec<LockedEnchantRow> = (0..=MAX_LOCKED_ENCHANT_ROWS)
        .map(|_| row(TARGET, CanonicalEnchant::Protection, "PROTECTION", 1))
        .collect();
    assert_eq!(MAX_LOCKED_ENCHANT_ROWS, 270);
    assert_eq!(
        attach_embedded_enchant_rows(&pieces, &rows),
        Err(EquippedArmorEnchantLoadoutError::TooManyEmbeddedEnchantRows)
    );
    assert!(attach_embedded_enchant_rows(&pieces, &rows[..MAX_LOCKED_ENCHANT_ROWS]).is_ok());
}

#[test]
fn existing_same_item_conflicts_are_reported_first() {
    let items = vec![
        state(CHEST, EquipmentSlot::Chestplate, &[(CanonicalEnchant::Guardian, 1)]),
        state(BOOTS, EquipmentSlot::Boots, &[(CanonicalEnchant::Cat, 1), (CanonicalEnchant::Dog, 1)]),
        state(HELMET, EquipmentSlot::Helmet, &[(CanonicalEnchant::NineLife, 1)]),
    ];
    assert_eq!(
        validate_existing_equipped_armor_conflicts(&items),
        Err(EquippedArmorEnchantLoadoutError::ExistingItemConflict {
            item_instance_id: BOOTS,
            left: CanonicalEnchant::Cat,
            right: CanonicalEnchant::Dog,
            scope: EnchantConflictScope::SameItem,
        })
    );
}

#[test]
fn existing_survival_core_conflicts_across_armor_are_refused() {
    let items = vec![
        state(CHEST, EquipmentSlot::Chestplate, &[(CanonicalEnchant::Guardian, 1)]),
        state(HELMET, EquipmentSlot::Helmet, &[(CanonicalEnchant::NineLife, 2)]),
    ];
    assert_eq!(
        validate_existing_equipped_armor_conflicts(&items),
        Err(EquippedArmorEnchantLoadoutError::ExistingLoadoutConflict {
            left_item_instance_id: CHEST,
            left: CanonicalEnchant::Guardian,
            right_item_instance_id: HELMET,
            right: CanonicalEnchant::NineLife,
        })
    );
    let compatible = vec![
        state(CHEST, EquipmentSlot::Chestplate, &[(CanonicalEnchant::Guardian, 1)]),
        state(HELMET, EquipmentSlot::Helmet, &[(CanonicalEnchant::Protection, 2)]),
    ];
    assert_eq!(validate_existing_equipped_armor_conflicts(&compatible), Ok(()));
}

#[test]
fn the_assembled_loadout_carries_the_player_and_attached_enchants() {
    let pieces = vec![piece(CHEST, EquipmentSlot::Chestplate), piece(HELMET, EquipmentSlot::Helmet)];
    let rows = vec![
        row(CHEST, CanonicalEnchant::Guardian, "GUARDIAN", 1),
        row(HELMET, CanonicalEnchant::Protection, "PROTECTION", 4),
    ];
    let loadout = assemble_equipped_armor_loadout(PLAYER, &pieces, &rows).unwrap();
    assert_eq!(loadout.player_id, PLAYER);
    assert_eq!(loadout.equipped_slot_for_item(CHEST), Some(EquipmentSlot::Chestplate));
    assert_eq!(loadout.equipped_slot_for_item(HELMET), Some(EquipmentSlot::Helmet));
    assert_eq!(loadout.equipped_slot_for_item(TARGET), None);

    let conflicting = vec![
        row(CHEST, CanonicalEnchant::Guardian, "GUARDIAN", 1),
        row(HELMET, CanonicalEnchant::NineLife, "NINE_LIFE", 4),
    ];
    assert!(matches!(
        assemble_equipped_armor_loadout(PLAYER, &pieces, &conflicting),
        Err(EquippedArmorEnchantLoadoutError::ExistingLoadoutConflict { .. })
    ));
}

fn loadout() -> EquippedArmorEnchantLoadout {
    EquippedArmorEnchantLoadout {
        player_id: PLAYER,
        items: vec![
            state(CHEST, EquipmentSlot::Chestplate, &[(CanonicalEnchant::Protection, 1)]),
            state(HELMET, EquipmentSlot::Helmet, &[(CanonicalEnchant::NineLife, 3)]),
        ],
    }
}

#[test]
fn incoming_survival_core_enchants_are_checked_against_sibling_armor_only() {
    let loadout = loadout();
    assert_eq!(
        validate_incoming_against_equipped_armor_loadout(&loadout, CHEST, CanonicalEnchant::Guardian),
        Err(EquippedArmorEnchantLoadoutError::IncomingLoadoutConflict {
            incoming: CanonicalEnchant::Guardian,
            existing_item_instance_id: HELMET,
            existing: CanonicalEnchant::NineLife,
        })
    );
    assert_eq!(
        validate_incoming_against_equipped_armor_loadout(&loadout, HELMET, CanonicalEnchant::Phoenix),
        Ok(())
    );
    assert_eq!(
        validate_incoming_against_equipped_armor_loadout(&loadout, CHEST, CanonicalEnchant::Protection),
        Ok(())
    );
}

fn enhanced(is_starter: bool, is_enchantable: bool, normal: u8, special: u8) -> OrdinaryEquipmentEnhancedAppraisal {
    OrdinaryEquipmentEnhancedAppraisal {
        recraft: OrdinaryEquipmentRecraftAppraisal {
            item_instance_id: CHEST,
            owner_player_id: PLAYER,
            definition_key: "IRON_CHESTPLATE".to_string(),
            definition_version: 1,
            is_starter,
            is_enchantable,
            is_upgradeable: true,
            tier: EquipmentTier::Iron,
            slot: EquipmentSlot::Chestplate,
            base_appraisal: BaseEquipmentAppraisal {
                tier: EquipmentTier::Iron,
                slot: EquipmentSlot::Chestplate,
                value: 1_000,
                source: BaseEquipmentAppraisalSource::StandardTable,
            },
            creation_roll: CreationRoll::zero(),
            upgrade_level: 0,
            normal_enchant_slot_capacity: normal,
            special_enchant_slot_capacity: special,
            recraft_appraisal: 1_000,
        },
        embedded_enchants: Vec::new(),
        embedded_enchant_value: 0,
        enhanced_canonical_appraisal: 1_000,
    }
}

#[test]
fn the_preflight_refuses_starter_and_unenchantable_equipment_first() {
    assert_eq!(
        preview_standard_finished_book_application_for_enhanced_appraisal(
            &enhanced(true, false, 0, 0),
            CanonicalEnchant::Guardian,
            1
        ),
        Err(OrdinaryEnchantApplyPreflightResolverError::StarterEquipment)
    );
    assert_eq!(
        preview_standard_finished_book_application_for_enhanced_appraisal(
            &enhanced(false, false, 0, 0),
            CanonicalEnchant::Guardian,
            1
        ),
        Err(OrdinaryEnchantApplyPreflightResolverError::ItemNotEnchantable)
    );
    assert!(matches!(
        preview_standard_finished_book_application_for_enhanced_appraisal(
            &enhanced(false, true, 0, 2),
            CanonicalEnchant::Guardian,
            1
        ),
        Err(OrdinaryEnchantApplyPreflightResolverError::Apply(
            EnchantApplyError::InvalidUnlockedSlotCount { .. }
        ))
    ));
}

#[test]
fn the_preflight_previews_a_fresh_insert_on_valid_equipment() {
    let preview = preview_standard_finished_book_application_for_enhanced_appraisal(
        &enhanced(false, true, 4, 3),
        CanonicalEnchant::Guardian,
        1,
    )
    .unwrap();
    assert_eq!(preview.action, EnchantApplyAction::InsertNew);
    assert!(preview.resulting_item_requires_equipped_armor_loadout_conflict_validation);
}

#[test]
fn the_write_decision_checks_an_equipped_target_against_its_siblings() {
    let preview = preview_standard_finished_book_application_for_enhanced_appraisal(
        &enhanced(false, true, 4, 3),
        CanonicalEnchant::Guardian,
        1,
    )
    .unwrap();
    let loadout = loadout();
    assert_eq!(
        decide_standard_finished_book_write(&loadout, CHEST, CanonicalEnchant::Guardian, preview),
        Err(OrdinaryEnchantApplyStateWriterError::Loadout(
            EquippedArmorEnchantLoadoutError::IncomingLoadoutConflict {
                incoming: CanonicalEnchant::Guardian,
                existing_item_instance_id: HELMET,
                existing: CanonicalEnchant::NineLife,
            }
        ))
    );
    // An unequipped target may keep dormant survival-core state.
    assert_eq!(
        decide_standard_finished_book_write(&loadout, TARGET, CanonicalEnchant::Guardian, preview),
        Ok(EnchantApplyAction::InsertNew)
    );
}

#[test]
fn a_write_must_touch_exactly_one_row() {
    assert_eq!(require_single_row_written(1), Ok(()));
    assert_eq!(
        require_single_row_written(0),
        Err(OrdinaryEnchantApplyStateWriterError::LockedStateMismatch)
    );
    assert_eq!(
        require_single_row_written(2),
        Err(OrdinaryEnchantApplyStateWriterError::LockedStateMismatch)
    );
}

#[test]
fn assembly_reports_a_same_item_conflict_before_a_loadout_conflict() {
    let pieces = vec![
        piece(CHEST, EquipmentSlot::Chestplate),
        piece(HELMET, EquipmentSlot::Helmet),
        piece(BOOTS, EquipmentSlot::Boots),
    ];
    let rows = vec![
        row(CHEST, CanonicalEnchant::Guardian, "GUARDIAN", 1),
        row(HELMET, CanonicalEnchant::NineLife, "NINE_LIFE", 1),
        row(BOOTS, CanonicalEnchant::Cat, "CAT", 1),
        row(BOOTS, CanonicalEnchant::Dog, "DOG", 1),
    ];
    assert_eq!(
        assemble_equipped_armor_loadout(PLAYER, &pieces, &rows),
        Err(EquippedArmorEnchantLoadoutError::ExistingItemConflict {
            item_instance_id: BOOTS,
            left: CanonicalEnchant::Cat,
            right: CanonicalEnchant::Dog,
            scope: EnchantConflictScope::SameItem,
        })
    );
}

#[test]
fn a_conflict_free_loadout_is_assembled_whatever_the_unequipped_target_holds() {
    let pieces = vec![piece(CHEST, EquipmentSlot::Chestplate), piece(HELMET, EquipmentSlot::Helmet)];
    let rows = vec![
        row(TARGET, CanonicalEnchant::Cat, "CAT", 1),
        row(TARGET, CanonicalEnchant::Dog, "DOG", 1),
        row(CHEST, CanonicalEnchant::Guardian, "GUARDIAN", 1),
        row(HELMET, CanonicalEnchant::Protection, "PROTECTION", 2),
    ];
    assert_eq!(
        assemble_equipped_armor_loadout(PLAYER, &pieces, &rows),
        Ok(EquippedArmorEnchantLoadout {
            player_id: PLAYER,
            items: vec![
                state(CHEST, EquipmentSlot::Chestplate, &[(CanonicalEnchant::Guardian, 1)]),
                state(HELMET, EquipmentSlot::Helmet, &[(CanonicalEnchant::Protection, 2)]),
            ],
        })
    );
}
