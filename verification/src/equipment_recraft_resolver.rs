//! Ordinary equipment identity from its pinned definition metadata, and the embedded-enchant
//! appraisal layered on top of its Recraft value.
use vstd::prelude::*;

use crate::embedded_enchant_rows::{spec_stored_level_valid, validated_stored_level, StoredEnchantRow};
use crate::enchant_appraisal::{
    canonical_book_appraisal, embedded_enchant_value, spec_book_appraisal, spec_class_appraisals,
    spec_embedded_value, CanonicalBookAppraisal, EmbeddedEnchantAppraisalInput,
    EnchantAppraisalError,
};
use crate::enchant_catalog::{
    canonical_enchant_max_resulting_level, enchant_catalog_policy, spec_catalog_class,
    spec_max_resulting_level, CanonicalEnchant, CANONICAL_ENCHANT_COUNT,
};
use crate::equipment_appraisal::{CanonicalEquipmentAppraisalError, CreationRoll, CreationRollError};
use crate::equipment_policy::{
    BaseEquipmentAppraisal, EquipmentAppraisalError, EquipmentSlot, EquipmentTier,
};
use crate::fishing_rod_state::{ordinary_equipment_tier_from_label, spec_tier_from_label};
use crate::text::str_eq;

verus! {

#[derive(Clone, Copy, Debug, PartialEq, Eq, Structural)]
pub struct ResolvedEmbeddedEnchantAppraisal {
    pub enchant: CanonicalEnchant,
    pub level: u8,
    pub book_appraisal: CanonicalBookAppraisal,
}

/// The locked Recraft appraisal of one owned ordinary equipment ItemInstance.
#[derive(Clone, Debug, PartialEq, Eq)]
pub struct OrdinaryEquipmentRecraftAppraisal {
    pub item_instance_id: u128,
    pub owner_player_id: u128,
    pub definition_key: String,
    pub definition_version: i32,
    pub is_starter: bool,
    pub is_enchantable: bool,
    pub is_upgradeable: bool,
    pub tier: EquipmentTier,
    pub slot: EquipmentSlot,
    pub base_appraisal: BaseEquipmentAppraisal,
    pub creation_roll: CreationRoll,
    pub upgrade_level: u64,
    pub normal_enchant_slot_capacity: u8,
    pub special_enchant_slot_capacity: u8,
    pub recraft_appraisal: i64,
}

/// The Recraft appraisal together with the embedded enchants locked on the same ItemInstance.
#[derive(Clone, Debug, PartialEq, Eq)]
pub struct OrdinaryEquipmentEnhancedAppraisal {
    pub recraft: OrdinaryEquipmentRecraftAppraisal,
    pub embedded_enchants: Vec<ResolvedEmbeddedEnchantAppraisal>,
    pub embedded_enchant_value: i64,
    pub enhanced_canonical_appraisal: i64,
}

#[derive(Clone, Copy, Debug, PartialEq, Eq, Structural)]
pub enum OrdinaryEquipmentRecraftResolverError {
    NotOrdinaryEquipment,
    InvalidTierMetadata,
    InvalidSlotMetadata,
    InvalidTierSlotCombination,
    DefinitionIntegrityMismatch,
    CreationRoll(CreationRollError),
    BaseAppraisal(EquipmentAppraisalError),
    CanonicalAppraisal(CanonicalEquipmentAppraisalError),
}

#[derive(Clone, Debug, PartialEq, Eq)]
pub enum OrdinaryEquipmentEnhancedResolverError {
    Recraft(OrdinaryEquipmentRecraftResolverError),
    UnknownEmbeddedEnchantKey(String),
    InvalidEmbeddedEnchantLevel { enchant: CanonicalEnchant, level: i16, max_level: u8 },
    TooManyEmbeddedEnchantRows,
    EnchantAppraisal(EnchantAppraisalError),
    ArithmeticOverflow,
}

/// Resolves the ordinary tier from the pinned definition's `tier` metadata label.
pub fn ordinary_equipment_tier(label: Option<&str>) -> (r: Result<
    EquipmentTier,
    OrdinaryEquipmentRecraftResolverError,
>)
    ensures
        label is None ==> r == Err::<EquipmentTier, OrdinaryEquipmentRecraftResolverError>(
            OrdinaryEquipmentRecraftResolverError::InvalidTierMetadata,
        ),
        label matches Some(l) ==> r == match spec_tier_from_label(l@) {
            Some(t) => Ok::<EquipmentTier, OrdinaryEquipmentRecraftResolverError>(t),
            None => Err(OrdinaryEquipmentRecraftResolverError::InvalidTierMetadata),
        },
{
    match ordinary_equipment_tier_from_label(label) {
        Some(tier) => Ok(tier),
        None => Err(OrdinaryEquipmentRecraftResolverError::InvalidTierMetadata),
    }
}

/// The armor slot named by an armor definition's `slot` metadata label.
pub open spec fn spec_armor_slot_from_label(label: Seq<char>) -> Option<EquipmentSlot> {
    if label == "ARMOR_HELMET"@ {
        Some(EquipmentSlot::Helmet)
    } else if label == "ARMOR_CHEST"@ {
        Some(EquipmentSlot::Chestplate)
    } else if label == "ARMOR_LEGS"@ {
        Some(EquipmentSlot::Leggings)
    } else if label == "ARMOR_BOOTS"@ {
        Some(EquipmentSlot::Boots)
    } else {
        None
    }
}

/// Maps a persisted armor slot label to the armor slot it names.
pub fn armor_slot_from_label(label: &str) -> (r: Option<EquipmentSlot>)
    ensures
        r == spec_armor_slot_from_label(label@),
{
    if str_eq(label, "ARMOR_HELMET") {
        Some(EquipmentSlot::Helmet)
    } else if str_eq(label, "ARMOR_CHEST") {
        Some(EquipmentSlot::Chestplate)
    } else if str_eq(label, "ARMOR_LEGS") {
        Some(EquipmentSlot::Leggings)
    } else if str_eq(label, "ARMOR_BOOTS") {
        Some(EquipmentSlot::Boots)
    } else {
        None
    }
}

/// The equipment slot an ordinary definition's category (and, for armor, `slot` label) names.
pub open spec fn spec_ordinary_equipment_slot(category: Seq<char>, slot_label: Option<Seq<char>>) -> Option<
    EquipmentSlot,
> {
    if category == "PICKAXE"@ {
        Some(EquipmentSlot::Pickaxe)
    } else if category == "SWORD"@ {
        Some(EquipmentSlot::Sword)
    } else if category == "FISHING_ROD"@ {
        Some(EquipmentSlot::FishingRod)
    } else if category == "ARMOR"@ {
        match slot_label {
            Some(l) => spec_armor_slot_from_label(l),
            None => None,
        }
    } else {
        None
    }
}

/// Resolves the ordinary equipment slot from the definition category and, for armor, its `slot`
/// metadata label; anything else fails closed.
pub fn ordinary_equipment_slot(category: &str, slot_label: Option<&str>) -> (r: Result<
    EquipmentSlot,
    OrdinaryEquipmentRecraftResolverError,
>)
    ensures
        r == match spec_ordinary_equipment_slot(
            category@,
            match slot_label {
                Some(l) => Some(l@),
                None => None,
            },
        ) {
            Some(s) => Ok::<EquipmentSlot, OrdinaryEquipmentRecraftResolverError>(s),
            None => Err(OrdinaryEquipmentRecraftResolverError::InvalidSlotMetadata),
        },
{
    if str_eq(category, "PICKAXE") {
        Ok(EquipmentSlot::Pickaxe)
    } else if str_eq(category, "SWORD") {
        Ok(EquipmentSlot::Sword)
    } else if str_eq(category, "FISHING_ROD") {
        Ok(EquipmentSlot::FishingRod)
    } else if str_eq(category, "ARMOR") {
        match slot_label {
            Some(l) => match armor_slot_from_label(l) {
                Some(slot) => Ok(slot),
                None => Err(OrdinaryEquipmentRecraftResolverError::InvalidSlotMetadata),
            },
            None => Err(OrdinaryEquipmentRecraftResolverError::InvalidSlotMetadata),
        }
    } else {
        Err(OrdinaryEquipmentRecraftResolverError::InvalidSlotMetadata)
    }
}

/// Current-v1 has no Gold armor: Gold is a tool side-grade only.
pub fn validate_ordinary_tier_slot(tier: EquipmentTier, slot: EquipmentSlot) -> (r: Result<
    (),
    OrdinaryEquipmentRecraftResolverError,
>)
    ensures
        (tier == EquipmentTier::Gold && (slot == EquipmentSlot::Helmet || slot
            == EquipmentSlot::Chestplate || slot == EquipmentSlot::Leggings || slot
            == EquipmentSlot::Boots)) ==> r == Err::<(), OrdinaryEquipmentRecraftResolverError>(
            OrdinaryEquipmentRecraftResolverError::InvalidTierSlotCombination,
        ),
        !(tier == EquipmentTier::Gold && (slot == EquipmentSlot::Helmet || slot
            == EquipmentSlot::Chestplate || slot == EquipmentSlot::Leggings || slot
            == EquipmentSlot::Boots)) ==> r is Ok,
{
    if tier == EquipmentTier::Gold {
        match slot {
            EquipmentSlot::Helmet
            | EquipmentSlot::Chestplate
            | EquipmentSlot::Leggings
            | EquipmentSlot::Boots => {
                return Err(OrdinaryEquipmentRecraftResolverError::InvalidTierSlotCombination);
            },
            _ => {},
        }
    }
    Ok(())
}

/// Why one embedded-enchant row of an ordinary item is invalid for appraisal, if it is.
pub open spec fn spec_appraisal_row_error(row: StoredEnchantRow) -> Option<
    OrdinaryEquipmentEnhancedResolverError,
> {
    match row.enchant {
        None => Some(OrdinaryEquipmentEnhancedResolverError::UnknownEmbeddedEnchantKey(row.persisted_key)),
        Some(e) => if !spec_stored_level_valid(e, row.level) {
            Some(
                OrdinaryEquipmentEnhancedResolverError::InvalidEmbeddedEnchantLevel {
                    enchant: e,
                    level: row.level,
                    max_level: spec_max_resulting_level(e),
                },
            )
        } else {
            None
        },
    }
}

/// Every row of the prefix is valid for appraisal.
pub open spec fn spec_appraisal_rows_valid_up_to(rows: Seq<StoredEnchantRow>, n: int) -> bool {
    forall|j: int| 0 <= j < n ==> (#[trigger] spec_appraisal_row_error(rows[j])) is None
}

/// The appraisal input of a valid row.
pub open spec fn spec_row_input(row: StoredEnchantRow) -> EmbeddedEnchantAppraisalInput {
    EmbeddedEnchantAppraisalInput { class: spec_catalog_class(row.enchant->0), level: row.level as u8 }
}

/// The resolved appraisal of a valid row.
pub open spec fn spec_row_appraisal(row: StoredEnchantRow) -> ResolvedEmbeddedEnchantAppraisal {
    ResolvedEmbeddedEnchantAppraisal {
        enchant: row.enchant->0,
        level: row.level as u8,
        book_appraisal: spec_book_appraisal(spec_catalog_class(row.enchant->0), row.level as u8)->Ok_0,
    }
}

/// The embedded-enchant part of an enhanced ordinary appraisal.
#[derive(Clone, Debug, PartialEq, Eq)]
pub struct EmbeddedEnchantAppraisalParts {
    pub embedded_enchants: Vec<ResolvedEmbeddedEnchantAppraisal>,
    pub embedded_enchant_value: i64,
    pub enhanced_canonical_appraisal: i64,
}

/// Appraises an ordinary item's embedded-enchant rows (in key order) on top of its Recraft value.
///
/// At most the canonical number of rows may exist; the first row with an unknown key or an
/// invalid level is reported; each valid row is appraised as a canonical book of its catalog
/// class; the embedded value is the frozen 70% aggregate and is added to the Recraft value.
#[verifier::loop_isolation(false)]
pub fn resolve_embedded_enchant_appraisal(recraft_appraisal: i64, rows: &[StoredEnchantRow]) -> (r:
    Result<EmbeddedEnchantAppraisalParts, OrdinaryEquipmentEnhancedResolverError>)
    ensures
        rows@.len() > CANONICAL_ENCHANT_COUNT ==> r == Err::<
            EmbeddedEnchantAppraisalParts,
            OrdinaryEquipmentEnhancedResolverError,
        >(OrdinaryEquipmentEnhancedResolverError::TooManyEmbeddedEnchantRows),
        rows@.len() <= CANONICAL_ENCHANT_COUNT ==> {
            &&& (exists|k: int| 0 <= k < rows@.len() && spec_appraisal_row_error(rows@[k]) is Some)
                ==> (exists|k: int|
                0 <= k < rows@.len() && spec_appraisal_rows_valid_up_to(rows@, k) && (
                #[trigger] spec_appraisal_row_error(rows@[k])) is Some && r == Err::<
                    EmbeddedEnchantAppraisalParts,
                    OrdinaryEquipmentEnhancedResolverError,
                >(spec_appraisal_row_error(rows@[k])->0))
            &&& spec_appraisal_rows_valid_up_to(rows@, rows@.len() as int) ==> {
                let inputs = rows@.map_values(|row: StoredEnchantRow| spec_row_input(row));
                match spec_embedded_value(spec_class_appraisals(inputs)) {
                    Err(e) => r == Err::<
                        EmbeddedEnchantAppraisalParts,
                        OrdinaryEquipmentEnhancedResolverError,
                    >(OrdinaryEquipmentEnhancedResolverError::EnchantAppraisal(e)),
                    Ok(value) => {
                        &&& recraft_appraisal + value > i64::MAX || recraft_appraisal + value
                            < i64::MIN ==> r == Err::<
                            EmbeddedEnchantAppraisalParts,
                            OrdinaryEquipmentEnhancedResolverError,
                        >(OrdinaryEquipmentEnhancedResolverError::ArithmeticOverflow)
                        &&& i64::MIN <= recraft_appraisal + value <= i64::MAX ==> (r matches Ok(
                            parts,
                        ) && parts.embedded_enchants@ == rows@.map_values(
                            |row: StoredEnchantRow| spec_row_appraisal(row),
                        ) && parts.embedded_enchant_value == value
                            && parts.enhanced_canonical_appraisal == recraft_appraisal + value)
                    },
                }
            }
        },
{
    if rows.len() > CANONICAL_ENCHANT_COUNT {
        return Err(OrdinaryEquipmentEnhancedResolverError::TooManyEmbeddedEnchantRows);
    }
    let mut resolved: Vec<ResolvedEmbeddedEnchantAppraisal> = Vec::new();
    let mut inputs: Vec<EmbeddedEnchantAppraisalInput> = Vec::new();
    let mut i: usize = 0;
    while i < rows.len()
        invariant
            i <= rows@.len() <= CANONICAL_ENCHANT_COUNT,
            spec_appraisal_rows_valid_up_to(rows@, i as int),
            resolved@ == rows@.take(i as int).map_values(
                |row: StoredEnchantRow| spec_row_appraisal(row),
            ),
            inputs@ == rows@.take(i as int).map_values(|row: StoredEnchantRow| spec_row_input(row)),
        decreases rows@.len() - i,
    {
        let row = &rows[i];
        let enchant = match row.enchant {
            None => {
                assert(spec_appraisal_row_error(rows@[i as int]) is Some);
                return Err(
                    OrdinaryEquipmentEnhancedResolverError::UnknownEmbeddedEnchantKey(
                        row.persisted_key.clone(),
                    ),
                );
            },
            Some(e) => e,
        };
        let level = match validated_stored_level(enchant, row.level) {
            None => {
                assert(spec_appraisal_row_error(rows@[i as int]) is Some);
                return Err(
                    OrdinaryEquipmentEnhancedResolverError::InvalidEmbeddedEnchantLevel {
                        enchant,
                        level: row.level,
                        max_level: canonical_enchant_max_resulting_level(enchant),
                    },
                );
            },
            Some(level) => level,
        };
        let class = enchant_catalog_policy(enchant).appraisal_class;
        let book_appraisal = match canonical_book_appraisal(class, level) {
            Ok(a) => a,
            Err(e) => {
                return Err(OrdinaryEquipmentEnhancedResolverError::EnchantAppraisal(e));
            },
        };
        proof {
            assert(rows@.take(i as int + 1).map_values(
                |row: StoredEnchantRow| spec_row_appraisal(row),
            ) =~= rows@.take(i as int).map_values(
                |row: StoredEnchantRow| spec_row_appraisal(row),
            ).push(spec_row_appraisal(rows@[i as int])));
            assert(rows@.take(i as int + 1).map_values(|row: StoredEnchantRow| spec_row_input(row))
                =~= rows@.take(i as int).map_values(
                |row: StoredEnchantRow| spec_row_input(row),
            ).push(spec_row_input(rows@[i as int])));
        }
        inputs.push(EmbeddedEnchantAppraisalInput { class, level });
        resolved.push(ResolvedEmbeddedEnchantAppraisal { enchant, level, book_appraisal });
        i = i + 1;
    }
    proof {
        assert(rows@.take(rows@.len() as int) =~= rows@);
    }
    let embedded_value = match embedded_enchant_value(inputs.as_slice()) {
        Ok(v) => v,
        Err(e) => {
            return Err(OrdinaryEquipmentEnhancedResolverError::EnchantAppraisal(e));
        },
    };
    let enhanced = match recraft_appraisal.checked_add(embedded_value) {
        Some(v) => v,
        None => {
            return Err(OrdinaryEquipmentEnhancedResolverError::ArithmeticOverflow);
        },
    };
    Ok(EmbeddedEnchantAppraisalParts {
        embedded_enchants: resolved,
        embedded_enchant_value: embedded_value,
        enhanced_canonical_appraisal: enhanced,
    })
}

} // verus!
