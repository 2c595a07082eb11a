//! Classification of the equipped Fishing Rod and validation of its cast-ready state, decided on
//! the values the owning transaction has locked.
use vstd::prelude::*;

use crate::embedded_enchant_rows::{spec_stored_level_valid, validated_stored_level, StoredEnchantRow};
use crate::enchant_apply::{spec_capacity_check, spec_family_of, EnchantApplyError, EnchantSlotCapacity};
use crate::enchant_catalog::{
    canonical_enchant_max_resulting_level, spec_max_resulting_level, CanonicalEnchant,
    CANONICAL_ENCHANT_COUNT,
};
use crate::enchant_placement::{
    enchant_placement_policy, spec_enchant_applies, EnchantSlotFamily,
};
use crate::equipment_policy::{EquipmentSlot, EquipmentTier};
use crate::text::str_eq;

verus! {

/// Definition key of the system-bound Starter Basic Rod.
pub const STARTER_BASIC_ROD_DEFINITION_KEY: &'static str = "equipment.rod.basic.starter";

#[derive(Clone, Copy, Debug, PartialEq, Eq, Structural)]
pub enum EquippedFishingRodKind {
    StarterBasic,
    Ordinary { tier: EquipmentTier },
}

#[derive(Clone, Copy, Debug, PartialEq, Eq, Structural)]
pub struct EquippedFishingRodEnchantState {
    pub enchant: CanonicalEnchant,
    pub level: u8,
}

#[derive(Clone, Copy, Debug, PartialEq, Eq, Structural)]
pub enum EquippedFishingRodStateError {
    NoEquippedFishingRod,
    EquippedRodIntegrityMismatch,
    StarterBasicRodIntegrityMismatch,
    NonOrdinaryFishingRod,
    InvalidOrdinaryRodTierMetadata,
}

/// The ordinary equipment tier named by a definition's `tier` metadata label.
pub open spec fn spec_tier_from_label(label: Seq<char>) -> Option<EquipmentTier> {
    if label == "WOOD"@ {
        Some(EquipmentTier::Wood)
    } else if label == "STONE"@ {
        Some(EquipmentTier::Stone)
    } else if label == "COPPER"@ {
        Some(EquipmentTier::Copper)
    } else if label == "GOLD"@ {
        Some(EquipmentTier::Gold)
    } else if label == "IRON"@ {
        Some(EquipmentTier::Iron)
    } else if label == "DIAMOND"@ {
        Some(EquipmentTier::Diamond)
    } else if label == "OBSIDIAN"@ {
        Some(EquipmentTier::Obsidian)
    } else if label == "NETHERITE"@ {
        Some(EquipmentTier::Netherite)
    } else if label == "GRAPHITE"@ {
        Some(EquipmentTier::Graphite)
    } else {
        None
    }
}

/// Maps the textual `tier` metadata of an ordinary equipment definition to its tier; a missing,
/// non-textual or unknown label yields `None`.
pub fn ordinary_equipment_tier_from_label(label: Option<&str>) -> (r: Option<EquipmentTier>)
    ensures
        label is None ==> r is None,
        label matches Some(l) ==> r == spec_tier_from_label(l@),
{
    let label = match label {
        None => {
            return None;
        },
        Some(l) => l,
    };
    if str_eq(label, "WOOD") {
        Some(EquipmentTier::Wood)
    } else if str_eq(label, "STONE") {
        Some(EquipmentTier::Stone)
    } else if str_eq(label, "COPPER") {
        Some(EquipmentTier::Copper)
    } else if str_eq(label, "GOLD") {
        Some(EquipmentTier::Gold)
    } else if str_eq(label, "IRON") {
        Some(EquipmentTier::Iron)
    } else if str_eq(label, "DIAMOND") {
        Some(EquipmentTier::Diamond)
    } else if str_eq(label, "OBSIDIAN") {
        Some(EquipmentTier::Obsidian)
    } else if str_eq(label, "NETHERITE") {
        Some(EquipmentTier::Netherite)
    } else if str_eq(label, "GRAPHITE") {
        Some(EquipmentTier::Graphite)
    } else {
        None
    }
}

/// What the equipped-Rod lock reads about the item in the Fishing Rod slot.
pub struct EquippedRodRecord<'a> {
    /// Whether the slot, re-read under lock, still holds the same ItemInstance.
    pub slot_still_holds_item: bool,
    pub location: &'a str,
    pub category: &'a str,
    pub definition_key: &'a str,
    pub is_starter: bool,
    pub is_ordinary_equipment: bool,
    /// The textual `tier` metadata of the pinned definition, when it has one.
    pub tier_label: Option<&'a str>,
}

/// The Rod kind an equipped-Rod record resolves to, or the integrity failure it shows.
pub open spec fn spec_equipped_rod_kind(record: EquippedRodRecord) -> Result<
    EquippedFishingRodKind,
    EquippedFishingRodStateError,
> {
    if !record.slot_still_holds_item || record.location@ != "EQUIPPED"@ || record.category@
        != "FISHING_ROD"@ {
        Err(EquippedFishingRodStateError::EquippedRodIntegrityMismatch)
    } else if record.definition_key@ == STARTER_BASIC_ROD_DEFINITION_KEY@ {
        if !record.is_starter || record.is_ordinary_equipment {
            Err(EquippedFishingRodStateError::StarterBasicRodIntegrityMismatch)
        } else {
            Ok(EquippedFishingRodKind::StarterBasic)
        }
    } else if record.is_starter {
        Err(EquippedFishingRodStateError::StarterBasicRodIntegrityMismatch)
    } else if !record.is_ordinary_equipment {
        Err(EquippedFishingRodStateError::NonOrdinaryFishingRod)
    } else {
        match record.tier_label {
            None => Err(EquippedFishingRodStateError::InvalidOrdinaryRodTierMetadata),
            Some(l) => match spec_tier_from_label(l@) {
                None => Err(EquippedFishingRodStateError::InvalidOrdinaryRodTierMetadata),
                Some(tier) => Ok(EquippedFishingRodKind::Ordinary { tier }),
            },
        }
    }
}

/// Classifies the equipped Rod from its locked record: the Starter Basic Rod must be a starter,
/// non-ordinary item; every other Rod must be ordinary, non-starter and carry a known tier.
pub fn classify_equipped_fishing_rod(record: EquippedRodRecord) -> (r: Result<
    EquippedFishingRodKind,
    EquippedFishingRodStateError,
>)
    ensures
        r == spec_equipped_rod_kind(record),
{
    if !record.slot_still_holds_item || !str_eq(record.location, "EQUIPPED") || !str_eq(
        record.category,
        "FISHING_ROD",
    ) {
        return Err(EquippedFishingRodStateError::EquippedRodIntegrityMismatch);
    }
    if str_eq(record.definition_key, STARTER_BASIC_ROD_DEFINITION_KEY) {
        if !record.is_starter || record.is_ordinary_equipment {
            return Err(EquippedFishingRodStateError::StarterBasicRodIntegrityMismatch);
        }
        return Ok(EquippedFishingRodKind::StarterBasic);
    }
    if record.is_starter {
        return Err(EquippedFishingRodStateError::StarterBasicRodIntegrityMismatch);
    }
    if !record.is_ordinary_equipment {
        return Err(EquippedFishingRodStateError::NonOrdinaryFishingRod);
    }
    match ordinary_equipment_tier_from_label(record.tier_label) {
        None => Err(EquippedFishingRodStateError::InvalidOrdinaryRodTierMetadata),
        Some(tier) => Ok(EquippedFishingRodKind::Ordinary { tier }),
    }
}

/// The durability-relevant state of the locked equipped Rod.
#[derive(Clone, Copy, Debug, PartialEq, Eq, Structural)]
pub struct LockedFishingRodFacts {
    pub kind: EquippedFishingRodKind,
    pub is_starter: bool,
    pub is_unbreakable: bool,
    pub is_repairable: bool,
    pub current_durability: Option<i64>,
    pub max_durability: Option<i64>,
    pub is_broken: bool,
}

/// The canonical Starter Basic state: starter, unbreakable, not repairable, no durability values
/// and not Broken.
pub open spec fn spec_canonical_starter_basic_facts(facts: LockedFishingRodFacts) -> bool {
    &&& facts.is_starter
    &&& facts.is_unbreakable
    &&& !facts.is_repairable
    &&& facts.current_durability is None
    &&& facts.max_durability is None
    &&& !facts.is_broken
}

/// The cast-ready state of the equipped Rod.
#[derive(Clone, Debug, PartialEq, Eq)]
pub struct FishingRodCastState {
    pub kind: EquippedFishingRodKind,
    pub current_durability: Option<u32>,
    pub max_durability: Option<u32>,
    pub is_broken: bool,
    pub normal_enchant_slot_capacity: u8,
    pub special_enchant_slot_capacity: u8,
    pub embedded_enchants: Vec<EquippedFishingRodEnchantState>,
}

#[derive(Clone, Debug, PartialEq, Eq)]
pub enum EquippedFishingRodCastSnapshotError {
    StarterBasicCastStateIntegrityMismatch,
    InvalidOrdinaryRodDurabilityState,
    OrdinaryRodStructuralStateMissing,
    EnchantCapacity(EnchantApplyError),
    UnknownEmbeddedEnchantKey(String),
    InvalidEmbeddedEnchantLevel { enchant: CanonicalEnchant, level: i16, maximum: u8 },
    EmbeddedEnchantWrongEquipmentSlot(CanonicalEnchant),
    TooManyEmbeddedEnchantRows,
    EmbeddedEnchantOccupancyExceedsCapacity {
        family: EnchantSlotFamily,
        occupied: u8,
        capacity: u8,
    },
}

/// Accepts the Starter Basic Rod's cast state only in its canonical form with no embedded
/// enchant rows; it then casts with no durability, no capacity and no enchants.
pub fn starter_basic_cast_state(facts: LockedFishingRodFacts, embedded_row_count: i64) -> (r: Result<
    FishingRodCastState,
    EquippedFishingRodCastSnapshotError,
>)
    ensures
        !(spec_canonical_starter_basic_facts(facts) && embedded_row_count == 0) ==> r == Err::<
            FishingRodCastState,
            EquippedFishingRodCastSnapshotError,
        >(EquippedFishingRodCastSnapshotError::StarterBasicCastStateIntegrityMismatch),
        spec_canonical_starter_basic_facts(facts) && embedded_row_count == 0 ==> (r matches Ok(
            state,
        ) && state.kind == facts.kind && state.current_durability is None
            && state.max_durability is None && !state.is_broken
            && state.normal_enchant_slot_capacity == 0 && state.special_enchant_slot_capacity == 0
            && state.embedded_enchants@.len() == 0),
{
    if !facts.is_starter || !facts.is_unbreakable || facts.is_repairable
        || facts.current_durability.is_some() || facts.max_durability.is_some() || facts.is_broken
        || embedded_row_count != 0 {
        return Err(EquippedFishingRodCastSnapshotError::StarterBasicCastStateIntegrityMismatch);
    }
    Ok(FishingRodCastState {
        kind: facts.kind,
        current_durability: None,
        max_durability: None,
        is_broken: false,
        normal_enchant_slot_capacity: 0,
        special_enchant_slot_capacity: 0,
        embedded_enchants: Vec::new(),
    })
}

/// The ordinary Rod's `(current, maximum)` durability when its locked state is consistent: a
/// repairable, breakable non-starter item with `0 <= current <= maximum`, `0 < maximum` (both in
/// `u32`) and Broken exactly when `current == 0`.
pub open spec fn spec_ordinary_rod_durability(facts: LockedFishingRodFacts) -> Option<(u32, u32)> {
    if facts.is_starter || facts.is_unbreakable || !facts.is_repairable {
        None
    } else {
        match (facts.current_durability, facts.max_durability) {
            (Some(current), Some(maximum)) => if 0 <= current <= u32::MAX && 0 < maximum
                <= u32::MAX && current <= maximum && facts.is_broken == (current == 0) {
                Some((current as u32, maximum as u32))
            } else {
                None
            },
            _ => None,
        }
    }
}

/// Validates the ordinary Rod's durability representation before its structural state is read.
pub fn ordinary_rod_cast_durability(facts: LockedFishingRodFacts) -> (r: Result<
    (u32, u32),
    EquippedFishingRodCastSnapshotError,
>)
    ensures
        spec_ordinary_rod_durability(facts) is None ==> r == Err::<
            (u32, u32),
            EquippedFishingRodCastSnapshotError,
        >(EquippedFishingRodCastSnapshotError::InvalidOrdinaryRodDurabilityState),
        spec_ordinary_rod_durability(facts) matches Some(d) ==> r == Ok::<
            (u32, u32),
            EquippedFishingRodCastSnapshotError,
        >(d),
{
    if facts.is_starter || facts.is_unbreakable || !facts.is_repairable {
        return Err(EquippedFishingRodCastSnapshotError::InvalidOrdinaryRodDurabilityState);
    }
    let current = match facts.current_durability {
        Some(value) if 0 <= value && value <= u32::MAX as i64 => value as u32,
        _ => {
            return Err(EquippedFishingRodCastSnapshotError::InvalidOrdinaryRodDurabilityState);
        },
    };
    let maximum = match facts.max_durability {
        Some(value) if 0 < value && value <= u32::MAX as i64 => value as u32,
        _ => {
            return Err(EquippedFishingRodCastSnapshotError::InvalidOrdinaryRodDurabilityState);
        },
    };
    if current > maximum || facts.is_broken != (current == 0) {
        return Err(EquippedFishingRodCastSnapshotError::InvalidOrdinaryRodDurabilityState);
    }
    Ok((current, maximum))
}

/// Why one embedded-enchant row of a Fishing Rod is invalid, if it is.
pub open spec fn spec_rod_row_error(row: StoredEnchantRow) -> Option<
    EquippedFishingRodCastSnapshotError,
> {
    match row.enchant {
        None => Some(EquippedFishingRodCastSnapshotError::UnknownEmbeddedEnchantKey(row.persisted_key)),
        Some(e) => if !spec_stored_level_valid(e, row.level) {
            Some(
                EquippedFishingRodCastSnapshotError::InvalidEmbeddedEnchantLevel {
                    enchant: e,
                    level: row.level,
                    maximum: spec_max_resulting_level(e),
                },
            )
        } else if !spec_enchant_applies(e, EquipmentSlot::FishingRod) {
            Some(EquippedFishingRodCastSnapshotError::EmbeddedEnchantWrongEquipmentSlot(e))
        } else {
            None
        },
    }
}

/// Number of rows whose enchant occupies `family`.
pub open spec fn spec_family_occupancy(rows: Seq<StoredEnchantRow>, family: EnchantSlotFamily) -> nat
    decreases rows.len(),
{
    if rows.len() == 0 {
        0
    } else {
        spec_family_occupancy(rows.drop_last(), family) + if rows.last().enchant matches Some(e)
            && spec_family_of(e) == family {
            1nat
        } else {
            0nat
        }
    }
}

/// The enchant state a valid row describes.
pub open spec fn spec_row_state(row: StoredEnchantRow) -> EquippedFishingRodEnchantState {
    EquippedFishingRodEnchantState { enchant: row.enchant->0, level: row.level as u8 }
}

/// Every row of the prefix is valid.
pub open spec fn spec_rows_valid_up_to(rows: Seq<StoredEnchantRow>, n: int) -> bool {
    forall|j: int| 0 <= j < n ==> (#[trigger] spec_rod_row_error(rows[j])) is None
}

proof fn lemma_family_occupancy_step(rows: Seq<StoredEnchantRow>, i: int, family: EnchantSlotFamily)
    requires
        0 <= i < rows.len(),
    ensures
        spec_family_occupancy(rows.take(i + 1), family) == spec_family_occupancy(rows.take(i), family)
            + if rows[i].enchant matches Some(e) && spec_family_of(e) == family {
            1nat
        } else {
            0nat
        },
        spec_family_occupancy(rows.take(i), family) <= i,
    decreases i,
{
    assert(rows.take(i + 1).drop_last() =~= rows.take(i));
    if i > 0 {
        lemma_family_occupancy_step(rows, i - 1, family);
    }
}

/// Resolves the cast-ready state of an ordinary Rod from its validated durability, its locked
/// structural capacity row and its embedded-enchant rows in key order.
///
/// The capacities must fit `u8` and be valid unlocked counts; at most the canonical number of rows
/// may exist; the first row with an unknown key, an invalid level or an enchant that cannot be
/// placed on a Fishing Rod is reported; finally each family's occupancy must fit its capacity.
#[verifier::loop_isolation(false)]
pub fn ordinary_rod_cast_state(
    kind: EquippedFishingRodKind,
    current_durability: u32,
    max_durability: u32,
    is_broken: bool,
    capacity_row: Option<(i16, i16)>,
    rows: &[StoredEnchantRow],
) -> (r: Result<FishingRodCastState, EquippedFishingRodCastSnapshotError>)
    ensures
        capacity_row is None ==> r == Err::<FishingRodCastState, EquippedFishingRodCastSnapshotError>(
            EquippedFishingRodCastSnapshotError::OrdinaryRodStructuralStateMissing,
        ),
        capacity_row matches Some(c) ==> {
            let normal = c.0;
            let special = c.1;
            &&& !(0 <= normal <= u8::MAX && 0 <= special <= u8::MAX) ==> r == Err::<
                FishingRodCastState,
                EquippedFishingRodCastSnapshotError,
            >(EquippedFishingRodCastSnapshotError::OrdinaryRodStructuralStateMissing)
            &&& (0 <= normal <= u8::MAX && 0 <= special <= u8::MAX) ==> match spec_capacity_check(
                normal as u8,
                special as u8,
            ) {
                Err(e) => r == Err::<FishingRodCastState, EquippedFishingRodCastSnapshotError>(
                    EquippedFishingRodCastSnapshotError::EnchantCapacity(e),
                ),
                Ok(_) => {
                    &&& rows@.len() > CANONICAL_ENCHANT_COUNT ==> r == Err::<
                        FishingRodCastState,
                        EquippedFishingRodCastSnapshotError,
                    >(EquippedFishingRodCastSnapshotError::TooManyEmbeddedEnchantRows)
                    &&& rows@.len() <= CANONICAL_ENCHANT_COUNT ==> {
                        &&& (exists|k: int|
                            0 <= k < rows@.len() && spec_rod_row_error(rows@[k]) is Some) ==> (
                        exists|k: int|
                            0 <= k < rows@.len() && spec_rows_valid_up_to(rows@, k) && (
                            #[trigger] spec_rod_row_error(rows@[k])) is Some && r == Err::<
                                FishingRodCastState,
                                EquippedFishingRodCastSnapshotError,
                            >(spec_rod_row_error(rows@[k])->0))
                        &&& spec_rows_valid_up_to(rows@, rows@.len() as int) ==> {
                            let normal_occupied = spec_family_occupancy(
                                rows@,
                                EnchantSlotFamily::NormalClass,
                            );
                            let special_occupied = spec_family_occupancy(
                                rows@,
                                EnchantSlotFamily::SpecialUniversal,
                            );
                            &&& normal_occupied > normal ==> r == Err::<
                                FishingRodCastState,
                                EquippedFishingRodCastSnapshotError,
                            >(
                                EquippedFishingRodCastSnapshotError::EmbeddedEnchantOccupancyExceedsCapacity {
                                    family: EnchantSlotFamily::NormalClass,
                                    occupied: normal_occupied as u8,
                                    capacity: normal as u8,
                                },
                            )
                            &&& normal_occupied <= normal && special_occupied > special ==> r
                                == Err::<
                                FishingRodCastState,
                                EquippedFishingRodCastSnapshotError,
                            >(
                                EquippedFishingRodCastSnapshotError::EmbeddedEnchantOccupancyExceedsCapacity {
                                    family: EnchantSlotFamily::SpecialUniversal,
                                    occupied: special_occupied as u8,
                                    capacity: special as u8,
                                },
                            )
                            &&& normal_occupied <= normal && special_occupied <= special ==> (
                            r matches Ok(state) && state.kind == kind && state.current_durability
                                == Some(current_durability) && state.max_durability == Some(
                                max_durability,
                            ) && state.is_broken == is_broken
                                && state.normal_enchant_slot_capacity == normal
                                && state.special_enchant_slot_capacity == special
                                && state.embedded_enchants@ == rows@.map_values(
                                |row: StoredEnchantRow| spec_row_state(row),
                            ))
                        }
                    }
                },
            }
        },
{
    let (normal_raw, special_raw) = match capacity_row {
        None => {
            return Err(EquippedFishingRodCastSnapshotError::OrdinaryRodStructuralStateMissing);
        },
        Some(c) => c,
    };
    if normal_raw < 0 || normal_raw > 255 || special_raw < 0 || special_raw > 255 {
        return Err(EquippedFishingRodCastSnapshotError::OrdinaryRodStructuralStateMissing);
    }
    let capacity = match EnchantSlotCapacity::try_new(normal_raw as u8, special_raw as u8) {
        Ok(c) => c,
        Err(e) => {
            return Err(EquippedFishingRodCastSnapshotError::EnchantCapacity(e));
        },
    };
    if rows.len() > CANONICAL_ENCHANT_COUNT {
        return Err(EquippedFishingRodCastSnapshotError::TooManyEmbeddedEnchantRows);
    }
    let mut normal_occupied: u8 = 0;
    let mut special_occupied: u8 = 0;
    let mut embedded_enchants: Vec<EquippedFishingRodEnchantState> = Vec::new();
    let mut i: usize = 0;
    while i < rows.len()
        invariant
            i <= rows@.len() <= CANONICAL_ENCHANT_COUNT,
            spec_rows_valid_up_to(rows@, i as int),
            normal_occupied == spec_family_occupancy(rows@.take(i as int), EnchantSlotFamily::NormalClass),
            special_occupied == spec_family_occupancy(
                rows@.take(i as int),
                EnchantSlotFamily::SpecialUniversal,
            ),
            embedded_enchants@ == rows@.take(i as int).map_values(
                |row: StoredEnchantRow| spec_row_state(row),
            ),
        decreases rows@.len() - i,
    {
        let row = &rows[i];
        let enchant = match row.enchant {
            None => {
                assert(spec_rod_row_error(rows@[i as int]) is Some);
                return Err(
                    EquippedFishingRodCastSnapshotError::UnknownEmbeddedEnchantKey(
                        row.persisted_key.clone(),
                    ),
                );
            },
            Some(e) => e,
        };
        let level = match validated_stored_level(enchant, row.level) {
            None => {
                assert(spec_rod_row_error(rows@[i as int]) is Some);
                return Err(
                    EquippedFishingRodCastSnapshotError::InvalidEmbeddedEnchantLevel {
                        enchant,
                        level: row.level,
                        maximum: canonical_enchant_max_resulting_level(enchant),
                    },
                );
            },
            Some(level) => level,
        };
        let placement = enchant_placement_policy(enchant);
        if !placement.applies_to(EquipmentSlot::FishingRod) {
            assert(spec_rod_row_error(rows@[i as int]) is Some);
            return Err(EquippedFishingRodCastSnapshotError::EmbeddedEnchantWrongEquipmentSlot(enchant));
        }
        proof {
            lemma_family_occupancy_step(rows@, i as int, EnchantSlotFamily::NormalClass);
            lemma_family_occupancy_step(rows@, i as int, EnchantSlotFamily::SpecialUniversal);
            assert(rows@.take(i as int + 1).map_values(|row: StoredEnchantRow| spec_row_state(row))
                =~= rows@.take(i as int).map_values(|row: StoredEnchantRow| spec_row_state(row)).push(
                spec_row_state(rows@[i as int]),
            ));
        }
        match placement.slot_family {
            EnchantSlotFamily::NormalClass => {
                normal_occupied = normal_occupied + 1;
            },
            EnchantSlotFamily::SpecialUniversal => {
                special_occupied = special_occupied + 1;
            },
        }
        embedded_enchants.push(EquippedFishingRodEnchantState { enchant, level });
        i = i + 1;
    }
    proof {
        assert(rows@.take(rows@.len() as int) =~= rows@);
    }
    if normal_occupied > capacity.normal_class {
        return Err(
            EquippedFishingRodCastSnapshotError::EmbeddedEnchantOccupancyExceedsCapacity {
                family: EnchantSlotFamily::NormalClass,
                occupied: normal_occupied,
                capacity: capacity.normal_class,
            },
        );
    }
    if special_occupied > capacity.special_universal {
        return Err(
            EquippedFishingRodCastSnapshotError::EmbeddedEnchantOccupancyExceedsCapacity {
                family: EnchantSlotFamily::SpecialUniversal,
                occupied: special_occupied,
                capacity: capacity.special_universal,
            },
        );
    }
    Ok(FishingRodCastState {
        kind,
        current_durability: Some(current_durability),
        max_durability: Some(max_durability),
        is_broken,
        normal_enchant_slot_capacity: capacity.normal_class,
        special_enchant_slot_capacity: capacity.special_universal,
        embedded_enchants,
    })
}

} // verus!
