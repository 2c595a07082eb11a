//! The equipped-armor enchant loadout around an enchant target: its assembly from locked rows,
//! the conflicts it may not contain, and the standard finished-book application to an owned item.
use vstd::prelude::*;

use crate::embedded_enchant_rows::{spec_stored_level_valid, validated_stored_level, StoredEnchantRow};
use crate::enchant_apply::{
    preview_standard_finished_book_application, spec_capacity_check, spec_is_loadout_scoped,
    spec_preview, EnchantApplyAction, EnchantApplyError, EnchantApplyPreview, EnchantSlotCapacity,
    ExistingAppliedEnchant,
};
use crate::enchant_catalog::{
    canonical_enchant_max_resulting_level, spec_max_resulting_level, CanonicalEnchant,
    CANONICAL_ENCHANT_COUNT,
};
use crate::enchant_conflict::{canonical_enchant_conflict_scope, spec_conflict_scope, EnchantConflictScope};
use crate::enchant_placement::{enchant_placement_policy, spec_enchant_applies};
use crate::equipment_policy::EquipmentSlot;
use crate::equipment_recraft_resolver::{
    armor_slot_from_label, spec_armor_slot_from_label, OrdinaryEquipmentEnhancedAppraisal,
    OrdinaryEquipmentEnhancedResolverError, ResolvedEmbeddedEnchantAppraisal,
};
use crate::text::str_eq;

verus! {

/// Most armor pieces a player can have equipped.
pub const MAX_EQUIPPED_ARMOR_ITEMS: usize = 4;

/// Most embedded-enchant rows the target plus the equipped armor can hold.
pub const MAX_LOCKED_ENCHANT_ROWS: usize = CANONICAL_ENCHANT_COUNT * (MAX_EQUIPPED_ARMOR_ITEMS + 1);

#[derive(Clone, Debug, PartialEq, Eq)]
pub struct EquippedArmorEnchantState {
    pub item_instance_id: u128,
    pub slot: EquipmentSlot,
    pub enchants: Vec<ExistingAppliedEnchant>,
}

#[derive(Clone, Debug, PartialEq, Eq)]
pub struct EquippedArmorEnchantLoadout {
    pub player_id: u128,
    pub items: Vec<EquippedArmorEnchantState>,
}

#[derive(Clone, Debug, PartialEq, Eq)]
pub enum EquippedArmorEnchantLoadoutError {
    PlayerNotFound,
    TargetItemNotFound,
    EquipmentIntegrityMismatch(u128),
    TooManyEmbeddedEnchantRows,
    UnknownEmbeddedEnchantKey { item_instance_id: u128, key: String },
    InvalidEmbeddedEnchantLevel {
        item_instance_id: u128,
        enchant: CanonicalEnchant,
        level: i16,
        maximum: u8,
    },
    ExistingEnchantWrongEquipmentSlot {
        item_instance_id: u128,
        enchant: CanonicalEnchant,
        slot: EquipmentSlot,
    },
    ExistingItemConflict {
        item_instance_id: u128,
        left: CanonicalEnchant,
        right: CanonicalEnchant,
        scope: EnchantConflictScope,
    },
    ExistingLoadoutConflict {
        left_item_instance_id: u128,
        left: CanonicalEnchant,
        right_item_instance_id: u128,
        right: CanonicalEnchant,
    },
    IncomingLoadoutConflict {
        incoming: CanonicalEnchant,
        existing_item_instance_id: u128,
        existing: CanonicalEnchant,
    },
}

/// The enchant list of each item, in order.
pub open spec fn spec_enchant_lists(items: Seq<EquippedArmorEnchantState>) -> Seq<
    Seq<ExistingAppliedEnchant>,
> {
    items.map_values(|item: EquippedArmorEnchantState| item.enchants@)
}

/// Enchant `k` and the later enchant `j` of list `a` conflict at some scope.
pub open spec fn spec_same_item_conflict(
    lists: Seq<Seq<ExistingAppliedEnchant>>,
    a: int,
    j: int,
    k: int,
) -> bool {
    &&& 0 <= a < lists.len()
    &&& 0 <= k < j < lists[a].len()
    &&& spec_conflict_scope(lists[a][k].enchant, lists[a][j].enchant) is Some
}

/// List `a` holds no conflicting pair of enchants.
pub open spec fn spec_item_conflict_free(lists: Seq<Seq<ExistingAppliedEnchant>>, a: int) -> bool {
    forall|j: int, k: int| !#[trigger] spec_same_item_conflict(lists, a, j, k)
}

/// Enchant `p` of list `a` and enchant `q` of the later list `b` conflict across the loadout.
pub open spec fn spec_loadout_conflict(
    lists: Seq<Seq<ExistingAppliedEnchant>>,
    a: int,
    b: int,
    p: int,
    q: int,
) -> bool {
    &&& 0 <= a < b < lists.len()
    &&& 0 <= p < lists[a].len()
    &&& 0 <= q < lists[b].len()
    &&& spec_conflict_scope(lists[a][p].enchant, lists[b][q].enchant)
        == Some(EnchantConflictScope::EquippedArmorLoadout)
}

/// No same-item conflict occurs at a position before `(a, j, k)` in scan order.
pub open spec fn spec_no_item_conflict_before(
    lists: Seq<Seq<ExistingAppliedEnchant>>,
    a: int,
    j: int,
    k: int,
) -> bool {
    &&& forall|a2: int| 0 <= a2 < a ==> #[trigger] spec_item_conflict_free(lists, a2)
    &&& forall|j2: int, k2: int| j2 < j ==> !#[trigger] spec_same_item_conflict(lists, a, j2, k2)
    &&& forall|k2: int| k2 < k ==> !#[trigger] spec_same_item_conflict(lists, a, j, k2)
}

/// No loadout conflict occurs at a position before `(a, b, p, q)` in scan order.
pub open spec fn spec_no_loadout_conflict_before(
    lists: Seq<Seq<ExistingAppliedEnchant>>,
    a: int,
    b: int,
    p: int,
    q: int,
) -> bool {
    &&& forall|a2: int, b2: int, p2: int, q2: int|
        a2 < a ==> !#[trigger] spec_loadout_conflict(lists, a2, b2, p2, q2)
    &&& forall|b2: int, p2: int, q2: int|
        b2 < b ==> !#[trigger] spec_loadout_conflict(lists, a, b2, p2, q2)
    &&& forall|p2: int, q2: int| p2 < p ==> !#[trigger] spec_loadout_conflict(lists, a, b, p2, q2)
    &&& forall|q2: int| q2 < q ==> !#[trigger] spec_loadout_conflict(lists, a, b, p, q2)
}

/// Rejects an equipped-armor loadout that already holds a conflict: first, scanning each item in
/// order, a pair of enchants on one item that conflict at any scope; then, scanning item pairs in
/// order, two enchants on different items that conflict at the equipped-armor loadout scope. The
/// first conflict in scan order is reported.
pub fn validate_existing_equipped_armor_conflicts(items: &[EquippedArmorEnchantState]) -> (r: Result<
    (),
    EquippedArmorEnchantLoadoutError,
>)
    ensures
        r is Ok <==> (forall|a: int| 0 <= a < items@.len() ==> #[trigger] spec_item_conflict_free(
            spec_enchant_lists(items@),
            a,
        )) && (forall|a: int, b: int, p: int, q: int|
            !#[trigger] spec_loadout_conflict(spec_enchant_lists(items@), a, b, p, q)),
        r matches Err(EquippedArmorEnchantLoadoutError::ExistingItemConflict {
            item_instance_id,
            left,
            right,
            scope,
        }) ==> exists|a: int, j: int, k: int|
            #[trigger] spec_same_item_conflict(spec_enchant_lists(items@), a, j, k) && spec_no_item_conflict_before(
                spec_enchant_lists(items@),
                a,
                j,
                k,
            ) && item_instance_id == items@[a].item_instance_id && left
                == items@[a].enchants@[k].enchant && right == items@[a].enchants@[j].enchant
                && Some(scope) == spec_conflict_scope(left, right),
        r matches Err(EquippedArmorEnchantLoadoutError::ExistingLoadoutConflict {
            left_item_instance_id,
            left,
            right_item_instance_id,
            right,
        }) ==> (forall|a: int| 0 <= a < items@.len() ==> #[trigger] spec_item_conflict_free(
            spec_enchant_lists(items@),
            a,
        )) && exists|a: int, b: int, p: int, q: int|
            #[trigger] spec_loadout_conflict(spec_enchant_lists(items@), a, b, p, q) && spec_no_loadout_conflict_before(
                spec_enchant_lists(items@),
                a,
                b,
                p,
                q,
            ) && left_item_instance_id == items@[a].item_instance_id && right_item_instance_id
                == items@[b].item_instance_id && left == items@[a].enchants@[p].enchant && right
                == items@[b].enchants@[q].enchant,
        r is Err ==> (r matches Err(EquippedArmorEnchantLoadoutError::ExistingItemConflict { .. })
            || r matches Err(EquippedArmorEnchantLoadoutError::ExistingLoadoutConflict { .. })),
{
    let mut a: usize = 0;
    while a < items.len()
        invariant
            a <= items@.len(),
            forall|a2: int| 0 <= a2 < a ==> #[trigger] spec_item_conflict_free(spec_enchant_lists(items@), a2),
        decreases items@.len() - a,
    {
        let enchants = &items[a].enchants;
        let mut j: usize = 0;
        while j < enchants.len()
            invariant
                a < items@.len(),
                enchants@ == items@[a as int].enchants@,
                j <= enchants@.len(),
                forall|a2: int| 0 <= a2 < a ==> #[trigger] spec_item_conflict_free(spec_enchant_lists(items@), a2),
                forall|j2: int, k2: int|
                    j2 < j ==> !#[trigger] spec_same_item_conflict(spec_enchant_lists(items@), a as int, j2, k2),
            decreases enchants@.len() - j,
        {
            let mut k: usize = 0;
            while k < j
                invariant
                    a < items@.len(),
                    enchants@ == items@[a as int].enchants@,
                    k <= j < enchants@.len(),
                    forall|a2: int| 0 <= a2 < a ==> #[trigger] spec_item_conflict_free(spec_enchant_lists(items@), a2),
                    forall|j2: int, k2: int|
                        j2 < j ==> !#[trigger] spec_same_item_conflict(spec_enchant_lists(items@), a as int, j2, k2),
                    forall|k2: int|
                        k2 < k ==> !#[trigger] spec_same_item_conflict(
                            spec_enchant_lists(items@),
                            a as int,
                            j as int,
                            k2,
                        ),
                decreases j - k,
            {
                let left = enchants[k].enchant;
                let right = enchants[j].enchant;
                match canonical_enchant_conflict_scope(left, right) {
                    Some(scope) => {
                        assert(spec_same_item_conflict(spec_enchant_lists(items@), a as int, j as int, k as int));
                        assert(!spec_item_conflict_free(spec_enchant_lists(items@), a as int));
                        return Err(
                            EquippedArmorEnchantLoadoutError::ExistingItemConflict {
                                item_instance_id: items[a].item_instance_id,
                                left,
                                right,
                                scope,
                            },
                        );
                    },
                    None => {},
                }
                k = k + 1;
            }
            assert forall|k2: int| !#[trigger] spec_same_item_conflict(
                spec_enchant_lists(items@),
                a as int,
                j as int,
                k2,
            ) by {
                if k2 >= j {
                }
            }
            j = j + 1;
        }
        assert forall|j2: int, k2: int| !#[trigger] spec_same_item_conflict(
            spec_enchant_lists(items@),
            a as int,
            j2,
            k2,
        ) by {
            if j2 >= enchants@.len() {
            }
        }
        a = a + 1;
    }
    let mut left_index: usize = 0;
    while left_index < items.len()
        invariant
            left_index <= items@.len(),
            forall|a: int| 0 <= a < items@.len() ==> #[trigger] spec_item_conflict_free(spec_enchant_lists(items@), a),
            forall|a2: int, b2: int, p2: int, q2: int|
                a2 < left_index ==> !#[trigger] spec_loadout_conflict(spec_enchant_lists(items@), a2, b2, p2, q2),
        decreases items@.len() - left_index,
    {
        let mut right_index: usize = left_index + 1;
        while right_index < items.len()
            invariant
                left_index < items@.len(),
                left_index < right_index <= items@.len(),
                forall|a: int|
                    0 <= a < items@.len() ==> #[trigger] spec_item_conflict_free(spec_enchant_lists(items@), a),
                forall|a2: int, b2: int, p2: int, q2: int|
                    a2 < left_index ==> !#[trigger] spec_loadout_conflict(spec_enchant_lists(items@), a2, b2, p2, q2),
                forall|b2: int, p2: int, q2: int|
                    b2 < right_index ==> !#[trigger] spec_loadout_conflict(
                        spec_enchant_lists(items@),
                        left_index as int,
                        b2,
                        p2,
                        q2,
                    ),
            decreases items@.len() - right_index,
        {
            let left_enchants = &items[left_index].enchants;
            let right_enchants = &items[right_index].enchants;
            let mut p: usize = 0;
            while p < left_enchants.len()
                invariant
                    left_index < right_index < items@.len(),
                    left_enchants@ == items@[left_index as int].enchants@,
                    right_enchants@ == items@[right_index as int].enchants@,
                    p <= left_enchants@.len(),
                    forall|a: int|
                        0 <= a < items@.len() ==> #[trigger] spec_item_conflict_free(spec_enchant_lists(items@), a),
                    forall|a2: int, b2: int, p2: int, q2: int|
                        a2 < left_index ==> !#[trigger] spec_loadout_conflict(
                            spec_enchant_lists(items@),
                            a2,
                            b2,
                            p2,
                            q2,
                        ),
                    forall|b2: int, p2: int, q2: int|
                        b2 < right_index ==> !#[trigger] spec_loadout_conflict(
                            spec_enchant_lists(items@),
                            left_index as int,
                            b2,
                            p2,
                            q2,
                        ),
                    forall|p2: int, q2: int|
                        p2 < p ==> !#[trigger] spec_loadout_conflict(
                            spec_enchant_lists(items@),
                            left_index as int,
                            right_index as int,
                            p2,
                            q2,
                        ),
                decreases left_enchants@.len() - p,
            {
                let mut q: usize = 0;
                while q < right_enchants.len()
                    invariant
                        left_index < right_index < items@.len(),
                        left_enchants@ == items@[left_index as int].enchants@,
                        right_enchants@ == items@[right_index as int].enchants@,
                        p < left_enchants@.len(),
                        q <= right_enchants@.len(),
                        forall|a: int|
                            0 <= a < items@.len() ==> #[trigger] spec_item_conflict_free(spec_enchant_lists(items@), a),
                        forall|a2: int, b2: int, p2: int, q2: int|
                            a2 < left_index ==> !#[trigger] spec_loadout_conflict(
                                spec_enchant_lists(items@),
                                a2,
                                b2,
                                p2,
                                q2,
                            ),
                        forall|b2: int, p2: int, q2: int|
                            b2 < right_index ==> !#[trigger] spec_loadout_conflict(
                                spec_enchant_lists(items@),
                                left_index as int,
                                b2,
                                p2,
                                q2,
                            ),
                        forall|p2: int, q2: int|
                            p2 < p ==> !#[trigger] spec_loadout_conflict(
                                spec_enchant_lists(items@),
                                left_index as int,
                                right_index as int,
                                p2,
                                q2,
                            ),
                        forall|q2: int|
                            q2 < q ==> !#[trigger] spec_loadout_conflict(
                                spec_enchant_lists(items@),
                                left_index as int,
                                right_index as int,
                                p as int,
                                q2,
                            ),
                    decreases right_enchants@.len() - q,
                {
                    let left = left_enchants[p].enchant;
                    let right = right_enchants[q].enchant;
                    let scope = canonical_enchant_conflict_scope(left, right);
                    if scope == Some(EnchantConflictScope::EquippedArmorLoadout) {
                        assert(spec_loadout_conflict(
                            spec_enchant_lists(items@),
                            left_index as int,
                            right_index as int,
                            p as int,
                            q as int,
                        ));
                        return Err(
                            EquippedArmorEnchantLoadoutError::ExistingLoadoutConflict {
                                left_item_instance_id: items[left_index].item_instance_id,
                                left,
                                right_item_instance_id: items[right_index].item_instance_id,
                                right,
                            },
                        );
                    }
                    q = q + 1;
                }
                assert forall|q2: int| !#[trigger] spec_loadout_conflict(
                    spec_enchant_lists(items@),
                    left_index as int,
                    right_index as int,
                    p as int,
                    q2,
                ) by {
                    if q2 >= right_enchants@.len() {
                    }
                }
                p = p + 1;
            }
            assert forall|p2: int, q2: int| !#[trigger] spec_loadout_conflict(
                spec_enchant_lists(items@),
                left_index as int,
                right_index as int,
                p2,
                q2,
            ) by {
                if p2 >= left_enchants@.len() {
                }
            }
            right_index = right_index + 1;
        }
        assert forall|b2: int, p2: int, q2: int| !#[trigger] spec_loadout_conflict(
            spec_enchant_lists(items@),
            left_index as int,
            b2,
            p2,
            q2,
        ) by {
            if b2 >= items@.len() {
            }
        }
        left_index = left_index + 1;
    }
    Ok(())
}

/// The position of the first id among the first `n` equal to `id`, or `-1` when none is.
pub open spec fn spec_first_index_in(ids: Seq<u128>, id: u128, n: int) -> int
    decreases n,
{
    if n <= 0 {
        -1
    } else {
        let earlier = spec_first_index_in(ids, id, n - 1);
        if earlier >= 0 {
            earlier
        } else if ids[n - 1] == id {
            n - 1
        } else {
            -1
        }
    }
}

/// The first-occurrence index is the least index holding the id, and `-1` means no index does.
pub proof fn lemma_first_index_in(ids: Seq<u128>, id: u128, n: int)
    requires
        0 <= n <= ids.len(),
    ensures
        spec_first_index_in(ids, id, n) >= 0 ==> {
            let index = spec_first_index_in(ids, id, n);
            &&& index < n
            &&& ids[index] == id
            &&& forall|k: int| 0 <= k < index ==> ids[k] != id
        },
        spec_first_index_in(ids, id, n) < 0 ==> spec_first_index_in(ids, id, n) == -1 && forall|
            k: int,
        |
            0 <= k < n ==> ids[k] != id,
    decreases n,
{
    if n > 0 {
        lemma_first_index_in(ids, id, n - 1);
    }
}

/// Once an id has occurred among the first `m` ids, its first index no longer changes.
pub proof fn lemma_first_index_stable(ids: Seq<u128>, id: u128, m: int, n: int)
    requires
        0 <= m <= n <= ids.len(),
        spec_first_index_in(ids, id, m) >= 0,
    ensures
        spec_first_index_in(ids, id, n) == spec_first_index_in(ids, id, m),
    decreases n - m,
{
    if n > m {
        lemma_first_index_stable(ids, id, m, n - 1);
    }
}

/// The ItemInstance ids of the loadout items, in order.
pub open spec fn spec_item_ids(items: Seq<EquippedArmorEnchantState>) -> Seq<u128> {
    items.map_values(|item: EquippedArmorEnchantState| item.item_instance_id)
}

/// The slot in which the loadout holds the given ItemInstance: that of its first occurrence.
pub open spec fn spec_equipped_slot(items: Seq<EquippedArmorEnchantState>, id: u128) -> Option<
    EquipmentSlot,
> {
    let index = spec_first_index_in(spec_item_ids(items), id, items.len() as int);
    if index >= 0 {
        Some(items[index].slot)
    } else {
        None
    }
}

impl EquippedArmorEnchantLoadout {
    /// The slot of the equipped armor piece with the given ItemInstance id, if it is equipped.
    pub fn equipped_slot_for_item(&self, item_instance_id: u128) -> (r: Option<EquipmentSlot>)
        ensures
            r == spec_equipped_slot(self.items@, item_instance_id),
            r is Some <==> exists|i: int|
                0 <= i < self.items@.len() && (#[trigger] self.items@[i]).item_instance_id
                    == item_instance_id,
    {
        let ghost ids = spec_item_ids(self.items@);
        proof {
            lemma_first_index_in(ids, item_instance_id, ids.len() as int);
            if exists|i: int|
                0 <= i < self.items@.len() && (#[trigger] self.items@[i]).item_instance_id
                    == item_instance_id {
                let i = choose|i: int|
                    0 <= i < self.items@.len() && (#[trigger] self.items@[i]).item_instance_id
                        == item_instance_id;
                assert(ids[i] == item_instance_id);
            }
        }
        let mut i: usize = 0;
        while i < self.items.len()
            invariant
                ids == spec_item_ids(self.items@),
                i <= self.items@.len(),
                spec_first_index_in(ids, item_instance_id, i as int) == -1,
            decreases self.items@.len() - i,
        {
            if self.items[i].item_instance_id == item_instance_id {
                proof {
                    assert(ids[i as int] == item_instance_id);
                    lemma_first_index_stable(ids, item_instance_id, i as int + 1, ids.len() as int);
                }
                return Some(self.items[i].slot);
            }
            assert(ids[i as int] != item_instance_id);
            i = i + 1;
        }
        None
    }
}

/// Enchant `p` of a loadout item other than the target conflicts with the incoming enchant at the
/// equipped-armor loadout scope.
pub open spec fn spec_incoming_loadout_conflict(
    items: Seq<EquippedArmorEnchantState>,
    target_item_id: u128,
    incoming: CanonicalEnchant,
    a: int,
    p: int,
) -> bool {
    &&& 0 <= a < items.len()
    &&& items[a].item_instance_id != target_item_id
    &&& 0 <= p < items[a].enchants@.len()
    &&& spec_conflict_scope(incoming, items[a].enchants@[p].enchant)
        == Some(EnchantConflictScope::EquippedArmorLoadout)
}

/// No sibling armor piece of the target holds an enchant that conflicts with the incoming one.
pub open spec fn spec_incoming_loadout_conflict_free(
    items: Seq<EquippedArmorEnchantState>,
    target_item_id: u128,
    incoming: CanonicalEnchant,
) -> bool {
    forall|a: int, p: int|
        !#[trigger] spec_incoming_loadout_conflict(items, target_item_id, incoming, a, p)
}

/// The error for the first sibling conflict in scan order with an incoming enchant.
pub open spec fn spec_first_incoming_loadout_conflict(
    items: Seq<EquippedArmorEnchantState>,
    target_item_id: u128,
    incoming: CanonicalEnchant,
    e: EquippedArmorEnchantLoadoutError,
) -> bool {
    exists|a: int, p: int|
        {
            &&& #[trigger] spec_incoming_loadout_conflict(items, target_item_id, incoming, a, p)
            &&& forall|a2: int, p2: int|
                a2 < a ==> !#[trigger] spec_incoming_loadout_conflict(
                    items,
                    target_item_id,
                    incoming,
                    a2,
                    p2,
                )
            &&& forall|p2: int|
                p2 < p ==> !#[trigger] spec_incoming_loadout_conflict(
                    items,
                    target_item_id,
                    incoming,
                    a,
                    p2,
                )
            &&& e == EquippedArmorEnchantLoadoutError::IncomingLoadoutConflict {
                incoming,
                existing_item_instance_id: items[a].item_instance_id,
                existing: items[a].enchants@[p].enchant,
            }
        }
}

/// Rejects an incoming enchant that conflicts at the equipped-armor loadout scope with an enchant
/// on any equipped armor piece other than the target, reporting the first such pair in scan order.
pub fn validate_incoming_against_equipped_armor_loadout(
    loadout: &EquippedArmorEnchantLoadout,
    target_item_id: u128,
    incoming_enchant: CanonicalEnchant,
) -> (r: Result<(), EquippedArmorEnchantLoadoutError>)
    ensures
        r is Ok <==> spec_incoming_loadout_conflict_free(
            loadout.items@,
            target_item_id,
            incoming_enchant,
        ),
        r matches Err(e) ==> spec_first_incoming_loadout_conflict(
            loadout.items@,
            target_item_id,
            incoming_enchant,
            e,
        ),
{
    let items = &loadout.items;
    let mut a: usize = 0;
    while a < items.len()
        invariant
            items@ == loadout.items@,
            a <= items@.len(),
            forall|a2: int, p2: int|
                a2 < a ==> !#[trigger] spec_incoming_loadout_conflict(
                    items@,
                    target_item_id,
                    incoming_enchant,
                    a2,
                    p2,
                ),
        decreases items@.len() - a,
    {
        if items[a].item_instance_id != target_item_id {
            let enchants = &items[a].enchants;
            let mut p: usize = 0;
            while p < enchants.len()
                invariant
                    items@ == loadout.items@,
                    a < items@.len(),
                    items@[a as int].item_instance_id != target_item_id,
                    enchants@ == items@[a as int].enchants@,
                    p <= enchants@.len(),
                    forall|a2: int, p2: int|
                        a2 < a ==> !#[trigger] spec_incoming_loadout_conflict(
                            items@,
                            target_item_id,
                            incoming_enchant,
                            a2,
                            p2,
                        ),
                    forall|p2: int|
                        p2 < p ==> !#[trigger] spec_incoming_loadout_conflict(
                            items@,
                            target_item_id,
                            incoming_enchant,
                            a as int,
                            p2,
                        ),
                decreases enchants@.len() - p,
            {
                let existing = enchants[p].enchant;
                if canonical_enchant_conflict_scope(incoming_enchant, existing) == Some(
                    EnchantConflictScope::EquippedArmorLoadout,
                ) {
                    let e = EquippedArmorEnchantLoadoutError::IncomingLoadoutConflict {
                        incoming: incoming_enchant,
                        existing_item_instance_id: items[a].item_instance_id,
                        existing,
                    };
                    proof {
                        assert(spec_incoming_loadout_conflict(
                            items@,
                            target_item_id,
                            incoming_enchant,
                            a as int,
                            p as int,
                        ));
                    }
                    return Err(e);
                }
                p = p + 1;
            }
            assert forall|p2: int| !#[trigger] spec_incoming_loadout_conflict(
                items@,
                target_item_id,
                incoming_enchant,
                a as int,
                p2,
            ) by {
                if p2 >= enchants@.len() {
                }
            }
        }
        a = a + 1;
    }
    Ok(())
}

/// One equipped armor piece: its ItemInstance and the armor slot it occupies.
#[derive(Clone, Copy, Debug, PartialEq, Eq, Structural)]
pub struct EquippedArmorPiece {
    pub item_instance_id: u128,
    pub slot: EquipmentSlot,
}

/// One persisted armor equipment-slot row.
#[derive(Clone, Debug, PartialEq, Eq)]
pub struct EquippedSlotRow {
    pub slot: String,
    pub item_instance_id: u128,
}

/// Reads the persisted armor slot rows as equipped armor pieces, in row order. A row whose slot
/// label names no armor slot makes the equipment state inconsistent for its ItemInstance; the first
/// such row is reported.
pub fn equipped_armor_pieces_from_slot_rows(rows: &[EquippedSlotRow]) -> (r: Result<
    Vec<EquippedArmorPiece>,
    EquippedArmorEnchantLoadoutError,
>)
    ensures
        r is Ok <==> forall|i: int|
            0 <= i < rows@.len() ==> #[trigger] spec_armor_slot_from_label(rows@[i].slot@) is Some,
        r matches Ok(pieces) ==> pieces@.len() == rows@.len() && forall|i: int|
            0 <= i < rows@.len() ==> (#[trigger] pieces@[i]).item_instance_id
                == rows@[i].item_instance_id && Some(pieces@[i].slot) == spec_armor_slot_from_label(
                rows@[i].slot@,
            ),
        r matches Err(e) ==> exists|i: int|
            0 <= i < rows@.len() && #[trigger] spec_armor_slot_from_label(rows@[i].slot@) is None
                && (forall|k: int|
                0 <= k < i ==> #[trigger] spec_armor_slot_from_label(rows@[k].slot@) is Some) && e
                == EquippedArmorEnchantLoadoutError::EquipmentIntegrityMismatch(
                rows@[i].item_instance_id,
            ),
{
    let mut pieces: Vec<EquippedArmorPiece> = Vec::new();
    let mut i: usize = 0;
    while i < rows.len()
        invariant
            i <= rows@.len(),
            pieces@.len() == i,
            forall|k: int|
                0 <= k < i ==> #[trigger] spec_armor_slot_from_label(rows@[k].slot@) is Some,
            forall|k: int|
                0 <= k < i ==> (#[trigger] pieces@[k]).item_instance_id == rows@[k].item_instance_id
                    && Some(pieces@[k].slot) == spec_armor_slot_from_label(rows@[k].slot@),
        decreases rows@.len() - i,
    {
        match armor_slot_from_label(rows[i].slot.as_str()) {
            Some(slot) => {
                pieces.push(EquippedArmorPiece { item_instance_id: rows[i].item_instance_id, slot });
            },
            None => {
                return Err(
                    EquippedArmorEnchantLoadoutError::EquipmentIntegrityMismatch(
                        rows[i].item_instance_id,
                    ),
                );
            },
        }
        i = i + 1;
    }
    Ok(pieces)
}

/// A sequence of ids is strictly increasing.
pub open spec fn spec_strictly_increasing(ids: Seq<u128>) -> bool {
    forall|i: int, j: int| 0 <= i < j < ids.len() ==> ids[i] < ids[j]
}

fn insert_sorted_unique(ids: &mut Vec<u128>, id: u128)
    requires
        spec_strictly_increasing(old(ids)@),
    ensures
        spec_strictly_increasing(final(ids)@),
        forall|x: u128| final(ids)@.contains(x) <==> (old(ids)@.contains(x) || x == id),
{
    let ghost before = ids@;
    let mut i: usize = 0;
    while i < ids.len() && ids[i] < id
        invariant
            ids@ == before,
            spec_strictly_increasing(before),
            i <= ids@.len(),
            forall|k: int| 0 <= k < i ==> ids@[k] < id,
        decreases ids@.len() - i,
    {
        i = i + 1;
    }
    if i < ids.len() && ids[i] == id {
        assert(ids@[i as int] == id);
        return;
    }
    ids.insert(i, id);
    proof {
        before.insert_ensures(i as int, id);
        assert forall|a: int, b: int| 0 <= a < b < ids@.len() implies ids@[a] < ids@[b] by {
            if b < i {
            } else if b == i {
            } else if a < i {
                assert(ids@[b] == before[b - 1]);
            } else if a == i {
                assert(ids@[b] == before[b - 1]);
                assert(before[i as int] > id);
                assert(before[i as int] <= before[b - 1]);
            } else {
                assert(ids@[a] == before[a - 1]);
                assert(ids@[b] == before[b - 1]);
            }
        }
        assert forall|x: u128| ids@.contains(x) <==> (before.contains(x) || x == id) by {
            if before.contains(x) {
                let k = choose|k: int| 0 <= k < before.len() && before[k] == x;
                if k < i {
                    assert(ids@[k] == x);
                } else {
                    assert(ids@[k + 1] == x);
                }
            }
            if x == id {
                assert(ids@[i as int] == x);
            }
            if ids@.contains(x) {
                let k = choose|k: int| 0 <= k < ids@.len() && ids@[k] == x;
                if k < i {
                    assert(before[k] == x);
                } else if k > i {
                    assert(before[k - 1] == x);
                }
            }
        }
    }
}

/// The ids of every ItemInstance the loadout lock covers: each equipped armor piece and the
/// target, in increasing order without repeats.
pub fn loadout_item_ids(pieces: &[EquippedArmorPiece], target_item_id: u128) -> (r: Vec<u128>)
    ensures
        spec_strictly_increasing(r@),
        forall|x: u128|
            r@.contains(x) <==> (x == target_item_id || exists|i: int|
                0 <= i < pieces@.len() && (#[trigger] pieces@[i]).item_instance_id == x),
{
    let mut ids: Vec<u128> = Vec::new();
    let mut i: usize = 0;
    while i < pieces.len()
        invariant
            i <= pieces@.len(),
            spec_strictly_increasing(ids@),
            forall|x: u128|
                ids@.contains(x) <==> exists|k: int|
                    0 <= k < i && (#[trigger] pieces@[k]).item_instance_id == x,
        decreases pieces@.len() - i,
    {
        insert_sorted_unique(&mut ids, pieces[i].item_instance_id);
        proof {
            assert forall|x: u128|
                ids@.contains(x) <==> exists|k: int|
                    0 <= k < i + 1 && (#[trigger] pieces@[k]).item_instance_id == x by {
                if x == pieces@[i as int].item_instance_id {
                    assert(pieces@[i as int].item_instance_id == x);
                }
            }
        }
        i = i + 1;
    }
    insert_sorted_unique(&mut ids, target_item_id);
    ids
}

/// One locked ItemInstance row of the loadout lock set.
#[derive(Clone, Debug, PartialEq, Eq)]
pub struct LockedItemRow {
    pub id: u128,
    pub owner_player_id: u128,
    pub location: String,
}

/// The ItemInstance is one of the equipped armor pieces.
pub open spec fn spec_is_equipped_piece(pieces: Seq<EquippedArmorPiece>, id: u128) -> bool {
    exists|i: int| 0 <= i < pieces.len() && (#[trigger] pieces[i]).item_instance_id == id
}

/// What is wrong with one locked ItemInstance row, expected to carry `expected_id`: a different id,
/// an owner other than the player (for the target itself, the target is not found), or an equipped
/// armor piece whose location is not `EQUIPPED`.
pub open spec fn spec_locked_item_row_error(
    row: LockedItemRow,
    expected_id: u128,
    pieces: Seq<EquippedArmorPiece>,
    player_id: u128,
    target_item_id: u128,
) -> Option<EquippedArmorEnchantLoadoutError> {
    if row.id != expected_id {
        Some(EquippedArmorEnchantLoadoutError::EquipmentIntegrityMismatch(row.id))
    } else if row.owner_player_id != player_id {
        if row.id == target_item_id {
            Some(EquippedArmorEnchantLoadoutError::TargetItemNotFound)
        } else {
            Some(EquippedArmorEnchantLoadoutError::EquipmentIntegrityMismatch(row.id))
        }
    } else if spec_is_equipped_piece(pieces, row.id) && row.location@ != "EQUIPPED"@ {
        Some(EquippedArmorEnchantLoadoutError::EquipmentIntegrityMismatch(row.id))
    } else {
        None
    }
}

fn is_equipped_piece(pieces: &[EquippedArmorPiece], id: u128) -> (r: bool)
    ensures
        r == spec_is_equipped_piece(pieces@, id),
{
    let mut i: usize = 0;
    while i < pieces.len()
        invariant
            i <= pieces@.len(),
            forall|k: int| 0 <= k < i ==> (#[trigger] pieces@[k]).item_instance_id != id,
        decreases pieces@.len() - i,
    {
        if pieces[i].item_instance_id == id {
            assert(pieces@[i as int].item_instance_id == id);
            return true;
        }
        i = i + 1;
    }
    false
}

/// Checks the locked ItemInstance rows against the sorted lock set, row by row: a missing row means
/// the target was not found, and the first row with something wrong is reported.
pub fn check_locked_item_rows(
    rows: &[LockedItemRow],
    item_ids: &[u128],
    pieces: &[EquippedArmorPiece],
    player_id: u128,
    target_item_id: u128,
) -> (r: Result<(), EquippedArmorEnchantLoadoutError>)
    ensures
        rows@.len() != item_ids@.len() ==> r == Err::<(), EquippedArmorEnchantLoadoutError>(
            EquippedArmorEnchantLoadoutError::TargetItemNotFound,
        ),
        rows@.len() == item_ids@.len() ==> (r is Ok <==> forall|i: int|
            0 <= i < rows@.len() ==> #[trigger] spec_locked_item_row_error(
                rows@[i],
                item_ids@[i],
                pieces@,
                player_id,
                target_item_id,
            ) is None),
        rows@.len() == item_ids@.len() ==> (r matches Err(e) ==> exists|i: int|
            0 <= i < rows@.len() && #[trigger] spec_locked_item_row_error(
                rows@[i],
                item_ids@[i],
                pieces@,
                player_id,
                target_item_id,
            ) == Some(e) && forall|k: int|
                0 <= k < i ==> #[trigger] spec_locked_item_row_error(
                    rows@[k],
                    item_ids@[k],
                    pieces@,
                    player_id,
                    target_item_id,
                ) is None),
{
    if rows.len() != item_ids.len() {
        return Err(EquippedArmorEnchantLoadoutError::TargetItemNotFound);
    }
    let mut i: usize = 0;
    while i < rows.len()
        invariant
            rows@.len() == item_ids@.len(),
            i <= rows@.len(),
            forall|k: int|
                0 <= k < i ==> #[trigger] spec_locked_item_row_error(
                    rows@[k],
                    item_ids@[k],
                    pieces@,
                    player_id,
                    target_item_id,
                ) is None,
        decreases rows@.len() - i,
    {
        let row = &rows[i];
        let error = if row.id != item_ids[i] {
            Some(EquippedArmorEnchantLoadoutError::EquipmentIntegrityMismatch(row.id))
        } else if row.owner_player_id != player_id {
            if row.id == target_item_id {
                Some(EquippedArmorEnchantLoadoutError::TargetItemNotFound)
            } else {
                Some(EquippedArmorEnchantLoadoutError::EquipmentIntegrityMismatch(row.id))
            }
        } else if is_equipped_piece(pieces, row.id) && !str_eq(row.location.as_str(), "EQUIPPED") {
            Some(EquippedArmorEnchantLoadoutError::EquipmentIntegrityMismatch(row.id))
        } else {
            None
        };
        assert(error == spec_locked_item_row_error(
            rows@[i as int],
            item_ids@[i as int],
            pieces@,
            player_id,
            target_item_id,
        ));
        match error {
            Some(e) => {
                return Err(e);
            },
            None => {},
        }
        i = i + 1;
    }
    Ok(())
}

/// One locked embedded-enchant row of the loadout lock set, with the ItemInstance it belongs to.
#[derive(Clone, Debug, PartialEq, Eq)]
pub struct LockedEnchantRow {
    pub item_instance_id: u128,
    pub row: StoredEnchantRow,
}

/// The ItemInstance ids of the equipped armor pieces, in order.
pub open spec fn spec_piece_ids(pieces: Seq<EquippedArmorPiece>) -> Seq<u128> {
    pieces.map_values(|piece: EquippedArmorPiece| piece.item_instance_id)
}

/// The index of the first equipped armor piece a locked enchant row belongs to, or `-1` when the
/// row belongs to no equipped piece (the unequipped target).
pub open spec fn spec_row_piece_index(
    pieces: Seq<EquippedArmorPiece>,
    row: LockedEnchantRow,
) -> int {
    spec_first_index_in(spec_piece_ids(pieces), row.item_instance_id, pieces.len() as int)
}

/// What is wrong with a locked enchant row of an equipped armor piece: a key outside the canonical
/// vocabulary, a level outside `1..=max`, or an enchant that cannot be placed on the piece's slot.
/// Rows of no equipped piece are not examined.
pub open spec fn spec_enchant_row_error(
    pieces: Seq<EquippedArmorPiece>,
    row: LockedEnchantRow,
) -> Option<EquippedArmorEnchantLoadoutError> {
    let index = spec_row_piece_index(pieces, row);
    if index < 0 {
        None
    } else {
        match row.row.enchant {
            None => Some(
                EquippedArmorEnchantLoadoutError::UnknownEmbeddedEnchantKey {
                    item_instance_id: row.item_instance_id,
                    key: row.row.persisted_key,
                },
            ),
            Some(enchant) => if !spec_stored_level_valid(enchant, row.row.level) {
                Some(
                    EquippedArmorEnchantLoadoutError::InvalidEmbeddedEnchantLevel {
                        item_instance_id: row.item_instance_id,
                        enchant,
                        level: row.row.level,
                        maximum: spec_max_resulting_level(enchant),
                    },
                )
            } else if !spec_enchant_applies(enchant, pieces[index].slot) {
                Some(
                    EquippedArmorEnchantLoadoutError::ExistingEnchantWrongEquipmentSlot {
                        item_instance_id: row.item_instance_id,
                        enchant,
                        slot: pieces[index].slot,
                    },
                )
            } else {
                None
            },
        }
    }
}

/// The enchants the rows attach to equipped piece `a`, in row order.
pub open spec fn spec_attached_enchants(
    pieces: Seq<EquippedArmorPiece>,
    rows: Seq<LockedEnchantRow>,
    a: int,
) -> Seq<ExistingAppliedEnchant>
    decreases rows.len(),
{
    if rows.len() == 0 {
        Seq::empty()
    } else {
        let earlier = spec_attached_enchants(pieces, rows.drop_last(), a);
        let row = rows.last();
        if spec_row_piece_index(pieces, row) == a {
            earlier.push(
                ExistingAppliedEnchant {
                    enchant: row.row.enchant->Some_0,
                    level: row.row.level as u8,
                },
            )
        } else {
            earlier
        }
    }
}

fn piece_index(pieces: &[EquippedArmorPiece], id: u128) -> (r: Option<usize>)
    ensures
        r matches Some(i) ==> i < pieces@.len() && i as int == spec_first_index_in(
            spec_piece_ids(pieces@),
            id,
            pieces@.len() as int,
        ),
        r is None ==> spec_first_index_in(spec_piece_ids(pieces@), id, pieces@.len() as int) < 0,
{
    let ghost ids = spec_piece_ids(pieces@);
    let mut i: usize = 0;
    while i < pieces.len()
        invariant
            ids == spec_piece_ids(pieces@),
            i <= pieces@.len(),
            spec_first_index_in(ids, id, i as int) == -1,
        decreases pieces@.len() - i,
    {
        if pieces[i].item_instance_id == id {
            proof {
                assert(ids[i as int] == id);
                lemma_first_index_stable(ids, id, i as int + 1, ids.len() as int);
            }
            return Some(i);
        }
        assert(ids[i as int] != id);
        i = i + 1;
    }
    None
}

/// Attaches the locked embedded-enchant rows to the equipped armor pieces they belong to, in row
/// order. Rows beyond the bounded domain are refused; otherwise each row of an equipped piece must
/// have a canonical key, a valid level and a placement on the piece's slot, and the first row that
/// does not is reported. Rows of the unequipped target are skipped.
pub fn attach_embedded_enchant_rows(
    pieces: &[EquippedArmorPiece],
    rows: &[LockedEnchantRow],
) -> (r: Result<Vec<EquippedArmorEnchantState>, EquippedArmorEnchantLoadoutError>)
    ensures
        rows@.len() > MAX_LOCKED_ENCHANT_ROWS ==> r == Err::<
            Vec<EquippedArmorEnchantState>,
            EquippedArmorEnchantLoadoutError,
        >(EquippedArmorEnchantLoadoutError::TooManyEmbeddedEnchantRows),
        rows@.len() <= MAX_LOCKED_ENCHANT_ROWS ==> (r is Ok <==> forall|i: int|
            0 <= i < rows@.len() ==> #[trigger] spec_enchant_row_error(pieces@, rows@[i]) is None),
        rows@.len() <= MAX_LOCKED_ENCHANT_ROWS ==> (r matches Err(e) ==> exists|i: int|
            0 <= i < rows@.len() && #[trigger] spec_enchant_row_error(pieces@, rows@[i]) == Some(e)
                && forall|k: int|
                0 <= k < i ==> #[trigger] spec_enchant_row_error(pieces@, rows@[k]) is None),
        r matches Ok(items) ==> items@.len() == pieces@.len() && forall|a: int|
            0 <= a < pieces@.len() ==> {
                &&& (#[trigger] items@[a]).item_instance_id == pieces@[a].item_instance_id
                &&& items@[a].slot == pieces@[a].slot
                &&& items@[a].enchants@ == spec_attached_enchants(pieces@, rows@, a)
            },
{
    if rows.len() > MAX_LOCKED_ENCHANT_ROWS {
        return Err(EquippedArmorEnchantLoadoutError::TooManyEmbeddedEnchantRows);
    }
    let mut i: usize = 0;
    while i < rows.len()
        invariant
            rows@.len() <= MAX_LOCKED_ENCHANT_ROWS,
            i <= rows@.len(),
            forall|k: int|
                0 <= k < i ==> #[trigger] spec_enchant_row_error(pieces@, rows@[k]) is None,
        decreases rows@.len() - i,
    {
        let row = &rows[i];
        match piece_index(pieces, row.item_instance_id) {
            None => {},
            Some(index) => {
                let slot = pieces[index].slot;
                match row.row.enchant {
                    None => {
                        let key = row.row.persisted_key.clone();
                        let e = EquippedArmorEnchantLoadoutError::UnknownEmbeddedEnchantKey {
                            item_instance_id: row.item_instance_id,
                            key,
                        };
                        assert(spec_enchant_row_error(pieces@, rows@[i as int]) == Some(e));
                        return Err(e);
                    },
                    Some(enchant) => {
                        if validated_stored_level(enchant, row.row.level).is_none() {
                            return Err(
                                EquippedArmorEnchantLoadoutError::InvalidEmbeddedEnchantLevel {
                                    item_instance_id: row.item_instance_id,
                                    enchant,
                                    level: row.row.level,
                                    maximum: canonical_enchant_max_resulting_level(enchant),
                                },
                            );
                        }
                        if !enchant_placement_policy(enchant).applies_to(slot) {
                            return Err(
                                EquippedArmorEnchantLoadoutError::ExistingEnchantWrongEquipmentSlot {
                                    item_instance_id: row.item_instance_id,
                                    enchant,
                                    slot,
                                },
                            );
                        }
                    },
                }
            },
        }
        i = i + 1;
    }
    let mut items: Vec<EquippedArmorEnchantState> = Vec::new();
    let mut a: usize = 0;
    while a < pieces.len()
        invariant
            rows@.len() <= MAX_LOCKED_ENCHANT_ROWS,
            forall|k: int|
                0 <= k < rows@.len() ==> #[trigger] spec_enchant_row_error(pieces@, rows@[k]) is None,
            a <= pieces@.len(),
            items@.len() == a,
            forall|a2: int|
                0 <= a2 < a ==> {
                    &&& (#[trigger] items@[a2]).item_instance_id == pieces@[a2].item_instance_id
                    &&& items@[a2].slot == pieces@[a2].slot
                    &&& items@[a2].enchants@ == spec_attached_enchants(pieces@, rows@, a2)
                },
        decreases pieces@.len() - a,
    {
        let mut enchants: Vec<ExistingAppliedEnchant> = Vec::new();
        let mut i: usize = 0;
        proof {
            assert(rows@.subrange(0, 0) =~= Seq::<LockedEnchantRow>::empty());
        }
        while i < rows.len()
            invariant
                rows@.len() <= MAX_LOCKED_ENCHANT_ROWS,
                forall|k: int|
                    0 <= k < rows@.len() ==> #[trigger] spec_enchant_row_error(pieces@, rows@[k])
                        is None,
                a < pieces@.len(),
                i <= rows@.len(),
                enchants@ == spec_attached_enchants(pieces@, rows@.subrange(0, i as int), a as int),
            decreases rows@.len() - i,
        {
            proof {
                assert(rows@.subrange(0, i as int + 1).drop_last() =~= rows@.subrange(0, i as int));
                assert(rows@.subrange(0, i as int + 1).last() == rows@[i as int]);
                assert(spec_enchant_row_error(pieces@, rows@[i as int]) is None);
            }
            let row = &rows[i];
            match piece_index(pieces, row.item_instance_id) {
                Some(index) => {
                    if index == a {
                        match row.row.enchant {
                            Some(enchant) => {
                                let level = row.row.level as u8;
                                enchants.push(ExistingAppliedEnchant { enchant, level });
                            },
                            None => {},
                        }
                    }
                },
                None => {},
            }
            i = i + 1;
        }
        proof {
            assert(rows@.subrange(0, rows@.len() as int) =~= rows@);
        }
        items.push(
            EquippedArmorEnchantState {
                item_instance_id: pieces[a].item_instance_id,
                slot: pieces[a].slot,
                enchants,
            },
        );
        a = a + 1;
    }
    Ok(items)
}

/// The enchant lists the rows attach to the equipped pieces, piece by piece.
pub open spec fn spec_attached_lists(
    pieces: Seq<EquippedArmorPiece>,
    rows: Seq<LockedEnchantRow>,
) -> Seq<Seq<ExistingAppliedEnchant>> {
    Seq::new(pieces.len(), |a: int| spec_attached_enchants(pieces, rows, a))
}

/// Every locked enchant row is within the bounded domain and free of errors.
pub open spec fn spec_rows_attach(
    pieces: Seq<EquippedArmorPiece>,
    rows: Seq<LockedEnchantRow>,
) -> bool {
    &&& rows.len() <= MAX_LOCKED_ENCHANT_ROWS
    &&& forall|i: int| 0 <= i < rows.len() ==> #[trigger] spec_enchant_row_error(pieces, rows[i]) is None
}

/// Assembles the equipped armor loadout from the locked pieces and enchant rows: attaches the rows,
/// then refuses any conflict the loadout already holds. When every row attaches, the loadout is
/// assembled exactly when no attached enchant list holds a conflicting pair and no two lists hold
/// enchants that conflict across the loadout; otherwise the first conflict in scan order, same-item
/// conflicts before loadout conflicts, is reported.
pub fn assemble_equipped_armor_loadout(
    player_id: u128,
    pieces: &[EquippedArmorPiece],
    rows: &[LockedEnchantRow],
) -> (r: Result<EquippedArmorEnchantLoadout, EquippedArmorEnchantLoadoutError>)
    ensures
        rows@.len() > MAX_LOCKED_ENCHANT_ROWS ==> r == Err::<
            EquippedArmorEnchantLoadout,
            EquippedArmorEnchantLoadoutError,
        >(EquippedArmorEnchantLoadoutError::TooManyEmbeddedEnchantRows),
        rows@.len() <= MAX_LOCKED_ENCHANT_ROWS && (exists|i: int|
            0 <= i < rows@.len() && #[trigger] spec_enchant_row_error(pieces@, rows@[i]) is Some)
            ==> exists|i: int|
            0 <= i < rows@.len() && #[trigger] spec_enchant_row_error(pieces@, rows@[i]) is Some
                && r == Err::<EquippedArmorEnchantLoadout, EquippedArmorEnchantLoadoutError>(
                spec_enchant_row_error(pieces@, rows@[i])->Some_0,
            ) && forall|k: int|
                0 <= k < i ==> #[trigger] spec_enchant_row_error(pieces@, rows@[k]) is None,
        spec_rows_attach(pieces@, rows@) ==> (r is Ok <==> (forall|a: int|
            0 <= a < pieces@.len() ==> #[trigger] spec_item_conflict_free(
                spec_attached_lists(pieces@, rows@),
                a,
            )) && (forall|a: int, b: int, p: int, q: int|
            !#[trigger] spec_loadout_conflict(spec_attached_lists(pieces@, rows@), a, b, p, q))),
        spec_rows_attach(pieces@, rows@) ==> (r matches Err(
            EquippedArmorEnchantLoadoutError::ExistingItemConflict {
                item_instance_id,
                left,
                right,
                scope,
            },
        ) ==> exists|a: int, j: int, k: int|
            #[trigger] spec_same_item_conflict(spec_attached_lists(pieces@, rows@), a, j, k)
                && spec_no_item_conflict_before(spec_attached_lists(pieces@, rows@), a, j, k)
                && item_instance_id == pieces@[a].item_instance_id && left == spec_attached_lists(
                pieces@,
                rows@,
            )[a][k].enchant && right == spec_attached_lists(pieces@, rows@)[a][j].enchant && Some(
                scope,
            ) == spec_conflict_scope(left, right)),
        spec_rows_attach(pieces@, rows@) ==> (r matches Err(
            EquippedArmorEnchantLoadoutError::ExistingLoadoutConflict {
                left_item_instance_id,
                left,
                right_item_instance_id,
                right,
            },
        ) ==> (forall|a: int| 0 <= a < pieces@.len() ==> #[trigger] spec_item_conflict_free(
            spec_attached_lists(pieces@, rows@),
            a,
        )) && exists|a: int, b: int, p: int, q: int|
            #[trigger] spec_loadout_conflict(spec_attached_lists(pieces@, rows@), a, b, p, q)
                && spec_no_loadout_conflict_before(spec_attached_lists(pieces@, rows@), a, b, p, q)
                && left_item_instance_id == pieces@[a].item_instance_id && right_item_instance_id
                == pieces@[b].item_instance_id && left == spec_attached_lists(pieces@, rows@)[a][p].enchant
                && right == spec_attached_lists(pieces@, rows@)[b][q].enchant),
        spec_rows_attach(pieces@, rows@) && r is Err ==> (r matches Err(
            EquippedArmorEnchantLoadoutError::ExistingItemConflict { .. },
        ) || r matches Err(EquippedArmorEnchantLoadoutError::ExistingLoadoutConflict { .. })),
        r matches Ok(loadout) ==> {
            &&& loadout.player_id == player_id
            &&& loadout.items@.len() == pieces@.len()
            &&& forall|a: int|
                0 <= a < pieces@.len() ==> {
                    &&& (#[trigger] loadout.items@[a]).item_instance_id
                        == pieces@[a].item_instance_id
                    &&& loadout.items@[a].slot == pieces@[a].slot
                    &&& loadout.items@[a].enchants@ == spec_attached_enchants(pieces@, rows@, a)
                }
        },
{
    let items = attach_embedded_enchant_rows(pieces, rows)?;
    proof {
        assert(spec_enchant_lists(items@) =~= spec_attached_lists(pieces@, rows@));
    }
    validate_existing_equipped_armor_conflicts(&items)?;
    Ok(EquippedArmorEnchantLoadout { player_id, items })
}

#[derive(Clone, Debug, PartialEq, Eq)]
pub enum OrdinaryEnchantApplyPreflightResolverError {
    Enhanced(OrdinaryEquipmentEnhancedResolverError),
    StarterEquipment,
    ItemNotEnchantable,
    Apply(EnchantApplyError),
}

#[derive(Clone, Debug, PartialEq, Eq)]
pub enum OrdinaryEnchantApplyStateWriterError {
    Preflight(OrdinaryEnchantApplyPreflightResolverError),
    Loadout(EquippedArmorEnchantLoadoutError),
    LockedStateMismatch,
}

/// The locked embedded enchants as the existing state of a standard application.
pub open spec fn spec_existing_from_embedded(
    embedded: Seq<ResolvedEmbeddedEnchantAppraisal>,
) -> Seq<ExistingAppliedEnchant> {
    embedded.map_values(
        |e: ResolvedEmbeddedEnchantAppraisal| ExistingAppliedEnchant { enchant: e.enchant, level: e.level },
    )
}

/// The standard finished-book preflight of an owned ordinary equipment item: starter equipment and
/// items that are not enchantable are refused first; then the persisted slot capacities are
/// checked and the standard preview runs against the locked embedded enchants.
pub open spec fn spec_enhanced_preview(
    enhanced: OrdinaryEquipmentEnhancedAppraisal,
    incoming_enchant: CanonicalEnchant,
    incoming_level: u8,
) -> Result<EnchantApplyPreview, OrdinaryEnchantApplyPreflightResolverError> {
    let recraft = enhanced.recraft;
    if recraft.is_starter {
        Err(OrdinaryEnchantApplyPreflightResolverError::StarterEquipment)
    } else if !recraft.is_enchantable {
        Err(OrdinaryEnchantApplyPreflightResolverError::ItemNotEnchantable)
    } else {
        match spec_capacity_check(
            recraft.normal_enchant_slot_capacity,
            recraft.special_enchant_slot_capacity,
        ) {
            Err(e) => Err(OrdinaryEnchantApplyPreflightResolverError::Apply(e)),
            Ok(_) => match spec_preview(
                recraft.slot,
                EnchantSlotCapacity {
                    normal_class: recraft.normal_enchant_slot_capacity,
                    special_universal: recraft.special_enchant_slot_capacity,
                },
                spec_existing_from_embedded(enhanced.embedded_enchants@),
                incoming_enchant,
                incoming_level,
            ) {
                Ok(preview) => Ok(preview),
                Err(e) => Err(OrdinaryEnchantApplyPreflightResolverError::Apply(e)),
            },
        }
    }
}

/// Previews one standard finished-book application to a locked owned ordinary equipment item.
pub fn preview_standard_finished_book_application_for_enhanced_appraisal(
    enhanced: &OrdinaryEquipmentEnhancedAppraisal,
    incoming_enchant: CanonicalEnchant,
    incoming_level: u8,
) -> (r: Result<EnchantApplyPreview, OrdinaryEnchantApplyPreflightResolverError>)
    ensures
        r == spec_enhanced_preview(*enhanced, incoming_enchant, incoming_level),
{
    let recraft = &enhanced.recraft;
    if recraft.is_starter {
        return Err(OrdinaryEnchantApplyPreflightResolverError::StarterEquipment);
    }
    if !recraft.is_enchantable {
        return Err(OrdinaryEnchantApplyPreflightResolverError::ItemNotEnchantable);
    }
    let capacity = match EnchantSlotCapacity::try_new(
        recraft.normal_enchant_slot_capacity,
        recraft.special_enchant_slot_capacity,
    ) {
        Ok(capacity) => capacity,
        Err(e) => {
            return Err(OrdinaryEnchantApplyPreflightResolverError::Apply(e));
        },
    };
    let embedded = &enhanced.embedded_enchants;
    let mut existing: Vec<ExistingAppliedEnchant> = Vec::new();
    let mut i: usize = 0;
    while i < embedded.len()
        invariant
            i <= embedded@.len(),
            existing@ == spec_existing_from_embedded(embedded@.subrange(0, i as int)),
        decreases embedded@.len() - i,
    {
        existing.push(ExistingAppliedEnchant { enchant: embedded[i].enchant, level: embedded[i].level });
        proof {
            assert(spec_existing_from_embedded(embedded@.subrange(0, i as int + 1))
                =~= spec_existing_from_embedded(embedded@.subrange(0, i as int)).push(
                ExistingAppliedEnchant { enchant: embedded@[i as int].enchant, level: embedded@[i as int].level },
            ));
        }
        i = i + 1;
    }
    proof {
        assert(embedded@.subrange(0, embedded@.len() as int) =~= embedded@);
    }
    match preview_standard_finished_book_application(
        recraft.slot,
        capacity,
        existing.as_slice(),
        incoming_enchant,
        incoming_level,
    ) {
        Ok(preview) => Ok(preview),
        Err(e) => Err(OrdinaryEnchantApplyPreflightResolverError::Apply(e)),
    }
}

/// Only survival-core enchants (Guardian, Nine Life, Phoenix) conflict at the equipped-armor
/// loadout scope, and only with each other.
pub proof fn lemma_loadout_scope_is_survival_core(a: CanonicalEnchant, b: CanonicalEnchant)
    ensures
        spec_conflict_scope(a, b) == Some(EnchantConflictScope::EquippedArmorLoadout) ==> (
        spec_is_loadout_scoped(a) && spec_is_loadout_scoped(b)),
{
}

/// A standard preview asks for the sibling-armor check whenever the incoming enchant is
/// survival-core; together with the write decision, an applied book never leaves an equipped
/// target in loadout-scope conflict with its sibling armor.
pub proof fn lemma_preview_flags_survival_core_results(
    slot: EquipmentSlot,
    capacity: EnchantSlotCapacity,
    s: Seq<ExistingAppliedEnchant>,
    incoming: CanonicalEnchant,
    level: u8,
)
    requires
        spec_preview(slot, capacity, s, incoming, level) is Ok,
    ensures
        spec_preview(slot, capacity, s, incoming, level)->Ok_0.resulting_item_requires_equipped_armor_loadout_conflict_validation
            || !spec_is_loadout_scoped(incoming),
{
}

/// The incoming enchant must be checked against the sibling armor: the resulting item carries a
/// loadout-scoped enchant and the target is currently equipped.
pub open spec fn spec_requires_incoming_loadout_check(
    loadout: EquippedArmorEnchantLoadout,
    item_id: u128,
    preview: EnchantApplyPreview,
) -> bool {
    preview.resulting_item_requires_equipped_armor_loadout_conflict_validation && spec_equipped_slot(
        loadout.items@,
        item_id,
    ) is Some
}

/// Decides the embedded-state write of a previewed standard application: an equipped target whose
/// resulting state needs it is checked against its sibling armor, and the previewed action is then
/// the write to perform.
pub fn decide_standard_finished_book_write(
    loadout: &EquippedArmorEnchantLoadout,
    item_id: u128,
    incoming_enchant: CanonicalEnchant,
    preview: EnchantApplyPreview,
) -> (r: Result<EnchantApplyAction, OrdinaryEnchantApplyStateWriterError>)
    ensures
        !spec_requires_incoming_loadout_check(*loadout, item_id, preview)
            || spec_incoming_loadout_conflict_free(loadout.items@, item_id, incoming_enchant) ==> r
            == Ok::<EnchantApplyAction, OrdinaryEnchantApplyStateWriterError>(preview.action),
        spec_requires_incoming_loadout_check(*loadout, item_id, preview)
            && !spec_incoming_loadout_conflict_free(loadout.items@, item_id, incoming_enchant) ==> (
        r matches Err(OrdinaryEnchantApplyStateWriterError::Loadout(e))
            && spec_first_incoming_loadout_conflict(loadout.items@, item_id, incoming_enchant, e)),
        r is Ok && spec_equipped_slot(loadout.items@, item_id) is Some && (
        preview.resulting_item_requires_equipped_armor_loadout_conflict_validation
            || !spec_is_loadout_scoped(incoming_enchant)) ==> spec_incoming_loadout_conflict_free(
            loadout.items@,
            item_id,
            incoming_enchant,
        ),
{
    proof {
        if !spec_is_loadout_scoped(incoming_enchant) {
            assert forall|a: int, p: int| !#[trigger] spec_incoming_loadout_conflict(
                loadout.items@,
                item_id,
                incoming_enchant,
                a,
                p,
            ) by {
                if 0 <= a < loadout.items@.len() && 0 <= p < loadout.items@[a].enchants@.len() {
                    lemma_loadout_scope_is_survival_core(
                        incoming_enchant,
                        loadout.items@[a].enchants@[p].enchant,
                    );
                }
            }
        }
    }
    if preview.resulting_item_requires_equipped_armor_loadout_conflict_validation
        && loadout.equipped_slot_for_item(item_id).is_some() {
        match validate_incoming_against_equipped_armor_loadout(loadout, item_id, incoming_enchant) {
            Ok(()) => {},
            Err(e) => {
                return Err(OrdinaryEnchantApplyStateWriterError::Loadout(e));
            },
        }
    }
    Ok(preview.action)
}

/// An embedded-enchant write must have touched exactly one row; anything else means the locked
/// state changed underneath it.
pub fn require_single_row_written(rows_affected: u64) -> (r: Result<
    (),
    OrdinaryEnchantApplyStateWriterError,
>)
    ensures
        rows_affected == 1 ==> r is Ok,
        rows_affected != 1 ==> r == Err::<(), OrdinaryEnchantApplyStateWriterError>(
            OrdinaryEnchantApplyStateWriterError::LockedStateMismatch,
        ),
{
    if rows_affected != 1 {
        return Err(OrdinaryEnchantApplyStateWriterError::LockedStateMismatch);
    }
    Ok(())
}

} // verus!
