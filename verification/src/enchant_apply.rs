//! Standard finished-book application preview: slot capacity, existing state and conflicts.
use vstd::prelude::*;

use crate::enchant_catalog::{
    canonical_enchant_max_resulting_level, spec_max_resulting_level, CanonicalEnchant,
};
use crate::enchant_conflict::{
    canonical_enchant_conflict_scope, lemma_conflict_scope_symmetric_and_irreflexive,
    spec_conflict_scope, EnchantConflictScope,
};
use crate::enchant_placement::{
    enchant_placement_policy, spec_enchant_applies, spec_is_special_universal,
    spec_native_slot_count, EnchantSlotFamily, MAX_ENCHANT_SLOTS_PER_FAMILY,
    NORMAL_CLASS_NATIVE_SLOTS, SPECIAL_UNIVERSAL_NATIVE_SLOTS,
};
use crate::equipment_policy::EquipmentSlot;

verus! {

#[derive(Clone, Copy, Debug, PartialEq, Eq, Structural)]
pub struct EnchantSlotCapacity {
    pub normal_class: u8,
    pub special_universal: u8,
}

/// The count a pair of per-family numbers holds for one family.
pub open spec fn spec_family_count(normal_class: u8, special_universal: u8, family: EnchantSlotFamily) -> u8 {
    match family {
        EnchantSlotFamily::NormalClass => normal_class,
        EnchantSlotFamily::SpecialUniversal => special_universal,
    }
}

/// An unlocked slot count lies between the family's native count and the per-family maximum.
pub open spec fn spec_unlocked_count_valid(family: EnchantSlotFamily, current: u8) -> bool {
    spec_native_slot_count(family) <= current <= MAX_ENCHANT_SLOTS_PER_FAMILY
}

/// The rejection of an unlocked slot count outside its family's range.
pub open spec fn spec_unlocked_count_error(family: EnchantSlotFamily, current: u8) -> EnchantApplyError {
    EnchantApplyError::InvalidUnlockedSlotCount {
        family,
        current,
        minimum: spec_native_slot_count(family),
        maximum: MAX_ENCHANT_SLOTS_PER_FAMILY,
    }
}

/// Capacity validation: Normal/class first, then Special/universal.
pub open spec fn spec_capacity_check(normal_class: u8, special_universal: u8) -> Result<
    (),
    EnchantApplyError,
> {
    if !spec_unlocked_count_valid(EnchantSlotFamily::NormalClass, normal_class) {
        Err(spec_unlocked_count_error(EnchantSlotFamily::NormalClass, normal_class))
    } else if !spec_unlocked_count_valid(EnchantSlotFamily::SpecialUniversal, special_universal) {
        Err(spec_unlocked_count_error(EnchantSlotFamily::SpecialUniversal, special_universal))
    } else {
        Ok(())
    }
}

impl EnchantSlotCapacity {
    pub fn native() -> (r: Self)
        ensures
            r.normal_class == NORMAL_CLASS_NATIVE_SLOTS,
            r.special_universal == SPECIAL_UNIVERSAL_NATIVE_SLOTS,
    {
        Self {
            normal_class: NORMAL_CLASS_NATIVE_SLOTS,
            special_universal: SPECIAL_UNIVERSAL_NATIVE_SLOTS,
        }
    }

    pub fn try_new(normal_class: u8, special_universal: u8) -> (r: Result<Self, EnchantApplyError>)
        ensures
            match spec_capacity_check(normal_class, special_universal) {
                Err(e) => r == Err::<Self, EnchantApplyError>(e),
                Ok(_) => r == Ok::<Self, EnchantApplyError>(Self { normal_class, special_universal }),
            },
    {
        validate_unlocked_slot_count(EnchantSlotFamily::NormalClass, normal_class)?;
        validate_unlocked_slot_count(EnchantSlotFamily::SpecialUniversal, special_universal)?;
        Ok(Self { normal_class, special_universal })
    }

    pub fn for_family(self, family: EnchantSlotFamily) -> (r: u8)
        ensures
            r == spec_family_count(self.normal_class, self.special_universal, family),
    {
        match family {
            EnchantSlotFamily::NormalClass => self.normal_class,
            EnchantSlotFamily::SpecialUniversal => self.special_universal,
        }
    }
}

#[derive(Clone, Copy, Debug, PartialEq, Eq, Structural)]
pub struct EnchantSlotOccupancy {
    pub normal_class: u8,
    pub special_universal: u8,
}

/// One more occupied slot in a family, unless that count is already at `u8::MAX`.
pub open spec fn spec_increment(occ: EnchantSlotOccupancy, family: EnchantSlotFamily) -> Option<
    EnchantSlotOccupancy,
> {
    match family {
        EnchantSlotFamily::NormalClass => if occ.normal_class < u8::MAX {
            Some(
                EnchantSlotOccupancy {
                    normal_class: (occ.normal_class + 1) as u8,
                    special_universal: occ.special_universal,
                },
            )
        } else {
            None
        },
        EnchantSlotFamily::SpecialUniversal => if occ.special_universal < u8::MAX {
            Some(
                EnchantSlotOccupancy {
                    normal_class: occ.normal_class,
                    special_universal: (occ.special_universal + 1) as u8,
                },
            )
        } else {
            None
        },
    }
}

impl EnchantSlotOccupancy {
    pub fn for_family(self, family: EnchantSlotFamily) -> (r: u8)
        ensures
            r == spec_family_count(self.normal_class, self.special_universal, family),
    {
        match family {
            EnchantSlotFamily::NormalClass => self.normal_class,
            EnchantSlotFamily::SpecialUniversal => self.special_universal,
        }
    }

    fn increment(self, family: EnchantSlotFamily) -> (r: Option<Self>)
        ensures
            r == spec_increment(self, family),
    {
        match family {
            EnchantSlotFamily::NormalClass => match self.normal_class.checked_add(1) {
                Some(normal_class) => Some(
                    Self { normal_class, special_universal: self.special_universal },
                ),
                None => None,
            },
            EnchantSlotFamily::SpecialUniversal => match self.special_universal.checked_add(1) {
                Some(special_universal) => Some(
                    Self { normal_class: self.normal_class, special_universal },
                ),
                None => None,
            },
        }
    }
}

#[derive(Clone, Copy, Debug, PartialEq, Eq, Structural)]
pub struct ExistingAppliedEnchant {
    pub enchant: CanonicalEnchant,
    pub level: u8,
}

#[derive(Clone, Copy, Debug, PartialEq, Eq, Structural)]
pub enum EnchantApplyAction {
    InsertNew,
    UpgradeExisting { previous_level: u8 },
}

#[derive(Clone, Copy, Debug, PartialEq, Eq, Structural)]
pub struct EnchantApplyPreview {
    pub enchant: CanonicalEnchant,
    pub level: u8,
    pub slot_family: EnchantSlotFamily,
    pub action: EnchantApplyAction,
    pub occupancy_before: EnchantSlotOccupancy,
    pub occupancy_after: EnchantSlotOccupancy,
    pub incoming_finished_book_consumed_on_commit: bool,
    pub success_guaranteed_after_authoritative_revalidation: bool,
    pub resulting_item_requires_equipped_armor_loadout_conflict_validation: bool,
}

#[derive(Clone, Copy, Debug, PartialEq, Eq, Structural)]
pub enum EnchantApplyError {
    InvalidUnlockedSlotCount { family: EnchantSlotFamily, current: u8, minimum: u8, maximum: u8 },
    InvalidEnchantLevel { enchant: CanonicalEnchant, level: u8, maximum: u8 },
    DuplicateExistingEnchant(CanonicalEnchant),
    ExistingEnchantWrongEquipmentSlot { enchant: CanonicalEnchant, slot: EquipmentSlot },
    IncomingEnchantWrongEquipmentSlot { enchant: CanonicalEnchant, slot: EquipmentSlot },
    ExistingOccupancyExceedsCapacity { family: EnchantSlotFamily, occupied: u8, unlocked: u8 },
    ExistingItemConflict {
        left: CanonicalEnchant,
        right: CanonicalEnchant,
        scope: EnchantConflictScope,
    },
    IncomingConflict {
        incoming: CanonicalEnchant,
        existing: CanonicalEnchant,
        scope: EnchantConflictScope,
    },
    LowerOrEqualReplacement { enchant: CanonicalEnchant, existing_level: u8, incoming_level: u8 },
    NoFreeSlot { family: EnchantSlotFamily, occupied: u8, unlocked: u8 },
    OccupancyOverflow,
}

/// The slot family an enchant occupies.
pub open spec fn spec_family_of(enchant: CanonicalEnchant) -> EnchantSlotFamily {
    if spec_is_special_universal(enchant) {
        EnchantSlotFamily::SpecialUniversal
    } else {
        EnchantSlotFamily::NormalClass
    }
}

/// A resulting level is canonical for an enchant: I through its maximum.
pub open spec fn spec_level_valid(enchant: CanonicalEnchant, level: u8) -> bool {
    1 <= level <= spec_max_resulting_level(enchant)
}

/// The rejection of a non-canonical resulting level.
pub open spec fn spec_level_error(enchant: CanonicalEnchant, level: u8) -> EnchantApplyError {
    EnchantApplyError::InvalidEnchantLevel {
        enchant,
        level,
        maximum: spec_max_resulting_level(enchant),
    }
}

/// First problem between existing entry `k` and the earlier entries `j..k`, in order: a duplicate
/// identity or a conflicting pair.
pub open spec fn spec_previous_check(s: Seq<ExistingAppliedEnchant>, k: int, j: int) -> Option<
    EnchantApplyError,
>
    decreases k - j,
{
    if j >= k || j < 0 {
        None
    } else if s[j].enchant == s[k].enchant {
        Some(EnchantApplyError::DuplicateExistingEnchant(s[k].enchant))
    } else if spec_conflict_scope(s[j].enchant, s[k].enchant) is Some {
        Some(
            EnchantApplyError::ExistingItemConflict {
                left: s[j].enchant,
                right: s[k].enchant,
                scope: spec_conflict_scope(s[j].enchant, s[k].enchant)->Some_0,
            },
        )
    } else {
        spec_previous_check(s, k, j + 1)
    }
}

/// Validation of the first `n` existing entries, in order: level, placement, duplicate/conflict
/// with earlier entries, then occupancy against the unlocked capacity. On success, the occupancy
/// per family.
pub open spec fn spec_validate_existing(
    slot: EquipmentSlot,
    capacity: EnchantSlotCapacity,
    s: Seq<ExistingAppliedEnchant>,
    n: int,
) -> Result<EnchantSlotOccupancy, EnchantApplyError>
    decreases n,
{
    if n <= 0 {
        Ok(EnchantSlotOccupancy { normal_class: 0, special_universal: 0 })
    } else {
        match spec_validate_existing(slot, capacity, s, n - 1) {
            Err(e) => Err(e),
            Ok(occ) => {
                let a = s[n - 1];
                let family = spec_family_of(a.enchant);
                if !spec_level_valid(a.enchant, a.level) {
                    Err(spec_level_error(a.enchant, a.level))
                } else if !spec_enchant_applies(a.enchant, slot) {
                    Err(EnchantApplyError::ExistingEnchantWrongEquipmentSlot { enchant: a.enchant, slot })
                } else if spec_previous_check(s, n - 1, 0) is Some {
                    Err(spec_previous_check(s, n - 1, 0)->Some_0)
                } else if spec_increment(occ, family) is None {
                    Err(EnchantApplyError::OccupancyOverflow)
                } else {
                    let next = spec_increment(occ, family)->Some_0;
                    let occupied = spec_family_count(
                        next.normal_class,
                        next.special_universal,
                        family,
                    );
                    let unlocked = spec_family_count(
                        capacity.normal_class,
                        capacity.special_universal,
                        family,
                    );
                    if occupied > unlocked {
                        Err(
                            EnchantApplyError::ExistingOccupancyExceedsCapacity {
                                family,
                                occupied,
                                unlocked,
                            },
                        )
                    } else {
                        Ok(next)
                    }
                }
            },
        }
    }
}

/// First existing entry from `i` on (in order) that differs from the incoming identity and
/// conflicts with it.
pub open spec fn spec_incoming_conflict(
    s: Seq<ExistingAppliedEnchant>,
    incoming: CanonicalEnchant,
    i: int,
) -> Option<EnchantApplyError>
    decreases s.len() - i,
{
    if i >= s.len() || i < 0 {
        None
    } else if s[i].enchant != incoming && spec_conflict_scope(incoming, s[i].enchant) is Some {
        Some(
            EnchantApplyError::IncomingConflict {
                incoming,
                existing: s[i].enchant,
                scope: spec_conflict_scope(incoming, s[i].enchant)->Some_0,
            },
        )
    } else {
        spec_incoming_conflict(s, incoming, i + 1)
    }
}

/// The last of the first `n` existing entries with the incoming identity.
pub open spec fn spec_existing_same(
    s: Seq<ExistingAppliedEnchant>,
    incoming: CanonicalEnchant,
    n: int,
) -> Option<ExistingAppliedEnchant>
    decreases n,
{
    if n <= 0 {
        None
    } else if s[n - 1].enchant == incoming {
        Some(s[n - 1])
    } else {
        spec_existing_same(s, incoming, n - 1)
    }
}

/// Guardian, Nine Life and Phoenix: the survival-core enchants whose conflict is loadout-scoped.
pub open spec fn spec_is_loadout_scoped(enchant: CanonicalEnchant) -> bool {
    enchant == CanonicalEnchant::Guardian || enchant == CanonicalEnchant::NineLife || enchant
        == CanonicalEnchant::Phoenix
}

/// The resulting item holds a survival-core enchant.
pub open spec fn spec_result_has_loadout_scoped(
    s: Seq<ExistingAppliedEnchant>,
    incoming: CanonicalEnchant,
) -> bool {
    spec_is_loadout_scoped(incoming) || exists|i: int|
        0 <= i < s.len() && spec_is_loadout_scoped(#[trigger] s[i].enchant)
}

/// The full standard finished-book preflight, check by check in the frozen order.
pub open spec fn spec_preview(
    slot: EquipmentSlot,
    capacity: EnchantSlotCapacity,
    s: Seq<ExistingAppliedEnchant>,
    incoming: CanonicalEnchant,
    level: u8,
) -> Result<EnchantApplyPreview, EnchantApplyError> {
    let family = spec_family_of(incoming);
    if spec_capacity_check(capacity.normal_class, capacity.special_universal) is Err {
        Err(spec_capacity_check(capacity.normal_class, capacity.special_universal)->Err_0)
    } else if !spec_level_valid(incoming, level) {
        Err(spec_level_error(incoming, level))
    } else if !spec_enchant_applies(incoming, slot) {
        Err(EnchantApplyError::IncomingEnchantWrongEquipmentSlot { enchant: incoming, slot })
    } else {
        match spec_validate_existing(slot, capacity, s, s.len() as int) {
            Err(e) => Err(e),
            Ok(before) => if spec_incoming_conflict(s, incoming, 0) is Some {
                Err(spec_incoming_conflict(s, incoming, 0)->Some_0)
            } else {
                let preview = |action: EnchantApplyAction, after: EnchantSlotOccupancy|
                    EnchantApplyPreview {
                        enchant: incoming,
                        level,
                        slot_family: family,
                        action,
                        occupancy_before: before,
                        occupancy_after: after,
                        incoming_finished_book_consumed_on_commit: true,
                        success_guaranteed_after_authoritative_revalidation: true,
                        resulting_item_requires_equipped_armor_loadout_conflict_validation:
                            spec_result_has_loadout_scoped(s, incoming),
                    };
                match spec_existing_same(s, incoming, s.len() as int) {
                    Some(a) => if level <= a.level {
                        Err(
                            EnchantApplyError::LowerOrEqualReplacement {
                                enchant: incoming,
                                existing_level: a.level,
                                incoming_level: level,
                            },
                        )
                    } else {
                        Ok(
                            preview(
                                EnchantApplyAction::UpgradeExisting { previous_level: a.level },
                                before,
                            ),
                        )
                    },
                    None => {
                        let occupied = spec_family_count(
                            before.normal_class,
                            before.special_universal,
                            family,
                        );
                        let unlocked = spec_family_count(
                            capacity.normal_class,
                            capacity.special_universal,
                            family,
                        );
                        if occupied >= unlocked {
                            Err(EnchantApplyError::NoFreeSlot { family, occupied, unlocked })
                        } else if spec_increment(before, family) is None {
                            Err(EnchantApplyError::OccupancyOverflow)
                        } else {
                            Ok(
                                preview(
                                    EnchantApplyAction::InsertNew,
                                    spec_increment(before, family)->Some_0,
                                ),
                            )
                        }
                    },
                }
            },
        }
    }
}

/// Previews standard finished-book application against one already-resolved equipment item.
#[verifier::loop_isolation(false)]
pub fn preview_standard_finished_book_application(
    equipment_slot: EquipmentSlot,
    capacity: EnchantSlotCapacity,
    existing: &[ExistingAppliedEnchant],
    incoming_enchant: CanonicalEnchant,
    incoming_level: u8,
) -> (r: Result<EnchantApplyPreview, EnchantApplyError>)
    ensures
        r == spec_preview(equipment_slot, capacity, existing@, incoming_enchant, incoming_level),
{
    validate_capacity(capacity)?;
    validate_enchant_level(incoming_enchant, incoming_level)?;
    let incoming_policy = enchant_placement_policy(incoming_enchant);
    if !incoming_policy.applies_to(equipment_slot) {
        return Err(
            EnchantApplyError::IncomingEnchantWrongEquipmentSlot {
                enchant: incoming_enchant,
                slot: equipment_slot,
            },
        );
    }
    let occupancy_before = validate_existing_state(equipment_slot, capacity, existing)?;
    let mut existing_same: Option<ExistingAppliedEnchant> = None;
    let mut i: usize = 0;
    while i < existing.len()
        invariant
            i <= existing.len(),
            spec_incoming_conflict(existing@, incoming_enchant, 0) == spec_incoming_conflict(
                existing@,
                incoming_enchant,
                i as int,
            ),
            existing_same == spec_existing_same(existing@, incoming_enchant, i as int),
        decreases existing.len() - i,
    {
        let applied = existing[i];
        if applied.enchant == incoming_enchant {
            existing_same = Some(applied);
        } else {
            if let Some(scope) = canonical_enchant_conflict_scope(incoming_enchant, applied.enchant) {
                return Err(
                    EnchantApplyError::IncomingConflict {
                        incoming: incoming_enchant,
                        existing: applied.enchant,
                        scope,
                    },
                );
            }
        }
        i = i + 1;
    }
    let family = incoming_policy.slot_family;
    let (action, occupancy_after) = match existing_same {
        Some(applied) => {
            if incoming_level <= applied.level {
                return Err(
                    EnchantApplyError::LowerOrEqualReplacement {
                        enchant: incoming_enchant,
                        existing_level: applied.level,
                        incoming_level,
                    },
                );
            }
            (EnchantApplyAction::UpgradeExisting { previous_level: applied.level }, occupancy_before)
        },
        None => {
            let occupied = occupancy_before.for_family(family);
            let unlocked = capacity.for_family(family);
            if occupied >= unlocked {
                return Err(EnchantApplyError::NoFreeSlot { family, occupied, unlocked });
            }
            match occupancy_before.increment(family) {
                Some(after) => (EnchantApplyAction::InsertNew, after),
                None => return Err(EnchantApplyError::OccupancyOverflow),
            }
        },
    };
    let loadout = resulting_item_contains_loadout_scoped_enchant(existing, incoming_enchant);
    Ok(
        EnchantApplyPreview {
            enchant: incoming_enchant,
            level: incoming_level,
            slot_family: family,
            action,
            occupancy_before,
            occupancy_after,
            incoming_finished_book_consumed_on_commit: true,
            success_guaranteed_after_authoritative_revalidation: true,
            resulting_item_requires_equipped_armor_loadout_conflict_validation: loadout,
        },
    )
}

fn validate_capacity(capacity: EnchantSlotCapacity) -> (r: Result<(), EnchantApplyError>)
    ensures
        r == spec_capacity_check(capacity.normal_class, capacity.special_universal),
{
    validate_unlocked_slot_count(EnchantSlotFamily::NormalClass, capacity.normal_class)?;
    validate_unlocked_slot_count(EnchantSlotFamily::SpecialUniversal, capacity.special_universal)
}

fn validate_unlocked_slot_count(family: EnchantSlotFamily, current: u8) -> (r: Result<
    (),
    EnchantApplyError,
>)
    ensures
        r == (if spec_unlocked_count_valid(family, current) {
            Ok(())
        } else {
            Err(spec_unlocked_count_error(family, current))
        }),
{
    let minimum = family.native_slot_count();
    let maximum = family.maximum_slot_count();
    if current < minimum || current > maximum {
        Err(EnchantApplyError::InvalidUnlockedSlotCount { family, current, minimum, maximum })
    } else {
        Ok(())
    }
}

fn validate_enchant_level(enchant: CanonicalEnchant, level: u8) -> (r: Result<
    (),
    EnchantApplyError,
>)
    ensures
        r == (if spec_level_valid(enchant, level) {
            Ok(())
        } else {
            Err(spec_level_error(enchant, level))
        }),
{
    let maximum = canonical_enchant_max_resulting_level(enchant);
    if level == 0 || level > maximum {
        Err(EnchantApplyError::InvalidEnchantLevel { enchant, level, maximum })
    } else {
        Ok(())
    }
}

proof fn lemma_validate_err_stays(
    slot: EquipmentSlot,
    capacity: EnchantSlotCapacity,
    s: Seq<ExistingAppliedEnchant>,
    k: int,
    n: int,
)
    requires
        0 <= k <= n,
        spec_validate_existing(slot, capacity, s, k) is Err,
    ensures
        spec_validate_existing(slot, capacity, s, n) == spec_validate_existing(slot, capacity, s, k),
    decreases n - k,
{
    if n > k {
        lemma_validate_err_stays(slot, capacity, s, k, n - 1);
    }
}

/// Validates already-resolved existing enchant state and returns its per-family occupancy.
#[verifier::loop_isolation(false)]
pub fn validate_existing_state(
    equipment_slot: EquipmentSlot,
    capacity: EnchantSlotCapacity,
    existing: &[ExistingAppliedEnchant],
) -> (r: Result<EnchantSlotOccupancy, EnchantApplyError>)
    ensures
        r == spec_validate_existing(equipment_slot, capacity, existing@, existing@.len() as int),
{
    let mut occupancy = EnchantSlotOccupancy { normal_class: 0, special_universal: 0 };
    let mut index: usize = 0;
    while index < existing.len()
        invariant
            index <= existing.len(),
            spec_validate_existing(equipment_slot, capacity, existing@, index as int) == Ok::<
                EnchantSlotOccupancy,
                EnchantApplyError,
            >(occupancy),
        decreases existing.len() - index,
    {
        let applied = existing[index];
        proof {
            if spec_validate_existing(equipment_slot, capacity, existing@, index + 1) is Err {
                lemma_validate_err_stays(
                    equipment_slot,
                    capacity,
                    existing@,
                    index + 1,
                    existing@.len() as int,
                );
            }
        }
        validate_enchant_level(applied.enchant, applied.level)?;
        let policy = enchant_placement_policy(applied.enchant);
        if !policy.applies_to(equipment_slot) {
            return Err(
                EnchantApplyError::ExistingEnchantWrongEquipmentSlot {
                    enchant: applied.enchant,
                    slot: equipment_slot,
                },
            );
        }
        let mut j: usize = 0;
        while j < index
            invariant
                j <= index < existing.len(),
                applied == existing@[index as int],
                spec_previous_check(existing@, index as int, 0) == spec_previous_check(
                    existing@,
                    index as int,
                    j as int,
                ),
            decreases index - j,
        {
            let previous = existing[j];
            if previous.enchant == applied.enchant {
                return Err(EnchantApplyError::DuplicateExistingEnchant(applied.enchant));
            }
            if let Some(scope) = canonical_enchant_conflict_scope(previous.enchant, applied.enchant) {
                return Err(
                    EnchantApplyError::ExistingItemConflict {
                        left: previous.enchant,
                        right: applied.enchant,
                        scope,
                    },
                );
            }
            j = j + 1;
        }
        occupancy = match occupancy.increment(policy.slot_family) {
            Some(o) => o,
            None => return Err(EnchantApplyError::OccupancyOverflow),
        };
        let unlocked = capacity.for_family(policy.slot_family);
        let occupied = occupancy.for_family(policy.slot_family);
        if occupied > unlocked {
            return Err(
                EnchantApplyError::ExistingOccupancyExceedsCapacity {
                    family: policy.slot_family,
                    occupied,
                    unlocked,
                },
            );
        }
        index = index + 1;
    }
    Ok(occupancy)
}

fn resulting_item_contains_loadout_scoped_enchant(
    existing: &[ExistingAppliedEnchant],
    incoming: CanonicalEnchant,
) -> (r: bool)
    ensures
        r == spec_result_has_loadout_scoped(existing@, incoming),
{
    if is_loadout_scoped_enchant(incoming) {
        return true;
    }
    let mut i: usize = 0;
    while i < existing.len()
        invariant
            i <= existing.len(),
            forall|k: int| 0 <= k < i ==> !spec_is_loadout_scoped(#[trigger] existing@[k].enchant),
        decreases existing.len() - i,
    {
        if is_loadout_scoped_enchant(existing[i].enchant) {
            return true;
        }
        i = i + 1;
    }
    false
}

fn is_loadout_scoped_enchant(enchant: CanonicalEnchant) -> (r: bool)
    ensures
        r == spec_is_loadout_scoped(enchant),
{
    matches!(enchant, CanonicalEnchant::Guardian | CanonicalEnchant::NineLife | CanonicalEnchant::Phoenix)
}

/// The first problem among earlier entries depends only on the identities of the entries.
proof fn lemma_previous_check_by_identity(
    s: Seq<ExistingAppliedEnchant>,
    t: Seq<ExistingAppliedEnchant>,
    k: int,
    j: int,
)
    requires
        0 <= k < s.len(),
        k < t.len(),
        forall|i: int| 0 <= i <= k ==> s[i].enchant == t[i].enchant,
    ensures
        spec_previous_check(s, k, j) == spec_previous_check(t, k, j),
    decreases k - j,
{
    if 0 <= j < k {
        lemma_previous_check_by_identity(s, t, k, j + 1);
    }
}

/// A successful validation of a prefix only saw valid levels.
proof fn lemma_validated_levels(
    slot: EquipmentSlot,
    capacity: EnchantSlotCapacity,
    s: Seq<ExistingAppliedEnchant>,
    n: int,
)
    requires
        0 <= n <= s.len(),
        spec_validate_existing(slot, capacity, s, n) is Ok,
    ensures
        forall|i: int| 0 <= i < n ==> spec_level_valid(#[trigger] s[i].enchant, s[i].level),
    decreases n,
{
    if n > 0 {
        lemma_validated_levels(slot, capacity, s, n - 1);
    }
}

/// Validation succeeds alike on a prefix with the same identities and valid levels.
proof fn lemma_validate_by_identity(
    slot: EquipmentSlot,
    capacity: EnchantSlotCapacity,
    s: Seq<ExistingAppliedEnchant>,
    t: Seq<ExistingAppliedEnchant>,
    n: int,
)
    requires
        0 <= n <= s.len(),
        n <= t.len(),
        spec_validate_existing(slot, capacity, s, n) is Ok,
        forall|i: int| 0 <= i < n ==> (#[trigger] s[i]).enchant == t[i].enchant,
        forall|i: int| 0 <= i < n ==> spec_level_valid(t[i].enchant, #[trigger] t[i].level),
    ensures
        spec_validate_existing(slot, capacity, t, n) == spec_validate_existing(slot, capacity, s, n),
    decreases n,
{
    if n > 0 {
        lemma_validate_by_identity(slot, capacity, s, t, n - 1);
        lemma_previous_check_by_identity(s, t, n - 1, 0);
        lemma_validated_levels(slot, capacity, s, n);
        assert(s[n - 1].enchant == t[n - 1].enchant);
        assert(spec_level_valid(t[n - 1].enchant, t[n - 1].level));
    }
}

/// No earlier entry found by the search has the identity: none of the first `n` has it.
proof fn lemma_existing_same_absent(s: Seq<ExistingAppliedEnchant>, incoming: CanonicalEnchant, n: int)
    requires
        0 <= n <= s.len(),
        spec_existing_same(s, incoming, n) is None,
    ensures
        forall|j: int| 0 <= j < n ==> (#[trigger] s[j]).enchant != incoming,
    decreases n,
{
    if n > 0 {
        lemma_existing_same_absent(s, incoming, n - 1);
    }
}

/// An entry found by the search has the identity and is one of the first `n`.
proof fn lemma_existing_same_found(s: Seq<ExistingAppliedEnchant>, incoming: CanonicalEnchant, n: int)
    requires
        0 <= n <= s.len(),
        spec_existing_same(s, incoming, n) is Some,
    ensures
        exists|j: int|
            0 <= j < n && #[trigger] s[j] == spec_existing_same(s, incoming, n)->Some_0
                && s[j].enchant == incoming,
    decreases n,
{
    if s[n - 1].enchant != incoming {
        lemma_existing_same_found(s, incoming, n - 1);
    } else {
        assert(s[n - 1] == spec_existing_same(s, incoming, n)->Some_0);
    }
}

/// No entry from `i` on conflicts with the incoming identity.
proof fn lemma_incoming_conflict_absent(
    s: Seq<ExistingAppliedEnchant>,
    incoming: CanonicalEnchant,
    i: int,
)
    requires
        0 <= i,
        spec_incoming_conflict(s, incoming, i) is None,
    ensures
        forall|j: int|
            i <= j < s.len() && (#[trigger] s[j]).enchant != incoming ==> spec_conflict_scope(
                incoming,
                s[j].enchant,
            ) is None,
    decreases s.len() - i,
{
    if i < s.len() {
        lemma_incoming_conflict_absent(s, incoming, i + 1);
    }
}

/// An entry with neither a duplicate nor a conflict among the earlier entries passes their check.
proof fn lemma_previous_check_clear(s: Seq<ExistingAppliedEnchant>, k: int, j: int)
    requires
        0 <= k < s.len(),
        forall|i: int|
            0 <= i < k ==> (#[trigger] s[i]).enchant != s[k].enchant && spec_conflict_scope(
                s[i].enchant,
                s[k].enchant,
            ) is None,
    ensures
        spec_previous_check(s, k, j) is None,
    decreases k - j,
{
    if 0 <= j < k {
        lemma_previous_check_clear(s, k, j + 1);
    }
}

/// Validating the first `n` existing entries counts them: the two family counts add up to `n`.
proof fn lemma_validated_occupancy_counts_entries(
    slot: EquipmentSlot,
    capacity: EnchantSlotCapacity,
    s: Seq<ExistingAppliedEnchant>,
    n: int,
)
    requires
        0 <= n,
    ensures
        spec_validate_existing(slot, capacity, s, n) matches Ok(occ) ==> occ.normal_class
            + occ.special_universal == n,
    decreases n,
{
    if n > 0 {
        lemma_validated_occupancy_counts_entries(slot, capacity, s, n - 1);
    }
}

/// What a successful standard finished-book preview means. The unlocked capacity is within range
/// (4-6 Normal/class slots, 3-6 Special/universal slots); the incoming level is I through the
/// enchant's maximum and the enchant fits the equipment slot; no existing enchant of another
/// identity conflicts with it; the book is consumed and the preview names the incoming enchant and
/// level; the occupancy before counts the existing enchants. A fresh insert happens only when no
/// existing enchant has the incoming identity, takes one more slot of the incoming family (leaving
/// the other family unchanged) and stays within that family's unlocked count; an upgrade replaces an
/// existing entry of the incoming identity at a strictly lower level and takes no slot.
pub proof fn lemma_successful_preview_meaning(
    slot: EquipmentSlot,
    capacity: EnchantSlotCapacity,
    s: Seq<ExistingAppliedEnchant>,
    incoming: CanonicalEnchant,
    level: u8,
)
    requires
        spec_preview(slot, capacity, s, incoming, level) is Ok,
    ensures
        ({
            let p = spec_preview(slot, capacity, s, incoming, level)->Ok_0;
            let before_family = spec_family_count(
                p.occupancy_before.normal_class,
                p.occupancy_before.special_universal,
                p.slot_family,
            );
            let after_family = spec_family_count(
                p.occupancy_after.normal_class,
                p.occupancy_after.special_universal,
                p.slot_family,
            );
            &&& 4 <= capacity.normal_class <= 6 && 3 <= capacity.special_universal <= 6
            &&& 1 <= level <= spec_max_resulting_level(incoming)
            &&& spec_enchant_applies(incoming, slot)
            &&& forall|i: int|
                0 <= i < s.len() && (#[trigger] s[i]).enchant != incoming ==> spec_conflict_scope(
                    incoming,
                    s[i].enchant,
                ) is None
            &&& p.enchant == incoming && p.level == level
            &&& p.incoming_finished_book_consumed_on_commit
            &&& p.occupancy_before.normal_class + p.occupancy_before.special_universal == s.len()
            &&& p.action == EnchantApplyAction::InsertNew ==> {
                &&& forall|i: int| 0 <= i < s.len() ==> (#[trigger] s[i]).enchant != incoming
                &&& after_family == before_family + 1
                &&& after_family <= spec_family_count(
                    capacity.normal_class,
                    capacity.special_universal,
                    p.slot_family,
                )
                &&& p.occupancy_after.normal_class + p.occupancy_after.special_universal == s.len()
                    + 1
            }
            &&& p.action matches EnchantApplyAction::UpgradeExisting { previous_level } ==> {
                &&& exists|i: int|
                    0 <= i < s.len() && (#[trigger] s[i]).enchant == incoming && s[i].level
                        == previous_level
                &&& previous_level < level
                &&& p.occupancy_after == p.occupancy_before
            }
        }),
{
    let p = spec_preview(slot, capacity, s, incoming, level)->Ok_0;
    let n = s.len() as int;
    lemma_validated_occupancy_counts_entries(slot, capacity, s, n);
    lemma_incoming_conflict_absent(s, incoming, 0);
    if spec_existing_same(s, incoming, n) is Some {
        lemma_existing_same_found(s, incoming, n);
    } else {
        lemma_existing_same_absent(s, incoming, n);
    }
}

/// A successful preview asks for the equipped-armor loadout check exactly when the resulting item
/// holds Guardian, Nine Life or Phoenix: the incoming enchant is one of them, or an existing enchant
/// at any position is.
pub proof fn lemma_preview_flags_any_survival_core_enchant(
    slot: EquipmentSlot,
    capacity: EnchantSlotCapacity,
    s: Seq<ExistingAppliedEnchant>,
    incoming: CanonicalEnchant,
    level: u8,
)
    requires
        spec_preview(slot, capacity, s, incoming, level) is Ok,
    ensures
        spec_preview(
            slot,
            capacity,
            s,
            incoming,
            level,
        )->Ok_0.resulting_item_requires_equipped_armor_loadout_conflict_validation <==> (incoming
            == CanonicalEnchant::Guardian || incoming == CanonicalEnchant::NineLife || incoming
            == CanonicalEnchant::Phoenix || exists|i: int|
            0 <= i < s.len() && (#[trigger] s[i].enchant == CanonicalEnchant::Guardian || s[i].enchant
                == CanonicalEnchant::NineLife || s[i].enchant == CanonicalEnchant::Phoenix)),
        forall|i: int|
            0 <= i < s.len() && (#[trigger] s[i].enchant == CanonicalEnchant::Guardian
                || s[i].enchant == CanonicalEnchant::NineLife || s[i].enchant
                == CanonicalEnchant::Phoenix) ==> spec_preview(
                slot,
                capacity,
                s,
                incoming,
                level,
            )->Ok_0.resulting_item_requires_equipped_armor_loadout_conflict_validation,
{
    assert forall|i: int|
        0 <= i < s.len() && (#[trigger] s[i].enchant == CanonicalEnchant::Guardian || s[i].enchant
            == CanonicalEnchant::NineLife || s[i].enchant == CanonicalEnchant::Phoenix) implies
        spec_result_has_loadout_scoped(s, incoming) by {
        assert(spec_is_loadout_scoped(s[i].enchant));
    }
}

/// Applying a previewed standard finished book keeps the item's embedded-enchant state valid: a
/// fresh insert appends the incoming enchant, an upgrade replaces the level of the entry with that
/// identity, and the resulting state validates with the previewed occupancy.
pub proof fn lemma_applied_book_keeps_item_valid(
    slot: EquipmentSlot,
    capacity: EnchantSlotCapacity,
    s: Seq<ExistingAppliedEnchant>,
    incoming: CanonicalEnchant,
    level: u8,
    index: int,
)
    requires
        spec_preview(slot, capacity, s, incoming, level) is Ok,
    ensures
        ({
            let preview = spec_preview(slot, capacity, s, incoming, level)->Ok_0;
            let applied = ExistingAppliedEnchant { enchant: incoming, level };
            &&& preview.action == EnchantApplyAction::InsertNew ==> spec_validate_existing(
                slot,
                capacity,
                s.push(applied),
                s.len() + 1 as int,
            ) == Ok::<EnchantSlotOccupancy, EnchantApplyError>(preview.occupancy_after)
            &&& (preview.action is UpgradeExisting && 0 <= index < s.len() && s[index].enchant
                == incoming) ==> spec_validate_existing(
                slot,
                capacity,
                s.update(index, applied),
                s.len() as int,
            ) == Ok::<EnchantSlotOccupancy, EnchantApplyError>(preview.occupancy_after)
        }),
{
    let preview = spec_preview(slot, capacity, s, incoming, level)->Ok_0;
    let applied = ExistingAppliedEnchant { enchant: incoming, level };
    let n = s.len() as int;
    lemma_validated_levels(slot, capacity, s, n);
    if preview.action == EnchantApplyAction::InsertNew {
        let t = s.push(applied);
        lemma_validate_by_identity(slot, capacity, s, t, n);
        lemma_existing_same_absent(s, incoming, n);
        lemma_incoming_conflict_absent(s, incoming, 0);
        assert forall|i: int| 0 <= i < n implies (#[trigger] t[i]).enchant != t[n].enchant
            && spec_conflict_scope(t[i].enchant, t[n].enchant) is None by {
            assert(t[i] == s[i]);
            assert(s[i].enchant != incoming);
            lemma_conflict_scope_symmetric_and_irreflexive(incoming, s[i].enchant);
        }
        lemma_previous_check_clear(t, n, 0);
    }
    if preview.action is UpgradeExisting && 0 <= index < n && s[index].enchant == incoming {
        let t = s.update(index, applied);
        assert forall|i: int| 0 <= i < n implies spec_level_valid(t[i].enchant, #[trigger] t[i].level) by {
            if i != index {
                assert(t[i] == s[i]);
                assert(spec_level_valid(s[i].enchant, s[i].level));
            }
        }
        lemma_validate_by_identity(slot, capacity, s, t, n);
    }
}

} // verus!
