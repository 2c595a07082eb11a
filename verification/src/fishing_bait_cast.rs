//! Per-cast consumption plan for the active Fishing baits.
use vstd::prelude::*;

use crate::bait_rack::{bait_rack_capacity_policy, BaitRackPolicyError};
use crate::fishing_bait::{
    fishing_bait_policy, spec_bait_category_and_price, FishingBait, FishingBaitCategory,
    BAIT_UNITS_CONSUMED_PER_ACTIVE_CATEGORY_PER_CAST,
};

verus! {

#[derive(Clone, Copy, Debug, PartialEq, Eq, Structural)]
pub struct ActiveFishingBaitInventory {
    pub bait: FishingBait,
    pub available_units: i64,
}

#[derive(Clone, Copy, Debug, PartialEq, Eq, Structural)]
pub enum FishingBaitCastConsumptionAction {
    ConsumeForCast,
    AutoDetachMissingUnit,
}

#[derive(Clone, Copy, Debug, PartialEq, Eq, Structural)]
pub struct FishingBaitCastConsumptionEntry {
    pub bait: FishingBait,
    pub category: FishingBaitCategory,
    pub available_units_before: i64,
    pub units_consumed: u8,
    pub available_units_after: i64,
    pub action: FishingBaitCastConsumptionAction,
}

#[derive(Clone, Debug, PartialEq, Eq)]
pub struct FishingBaitCastConsumptionPlan {
    pub bait_rack_level: Option<u8>,
    pub active_category_capacity: u8,
    pub active_baits_before_cast: u8,
    pub consumed_bait_categories: u8,
    pub auto_detached_bait_categories: u8,
    pub entries: Vec<FishingBaitCastConsumptionEntry>,
}

#[derive(Clone, Copy, Debug, PartialEq, Eq, Structural)]
pub enum FishingBaitCastConsumptionError {
    BaitRack(BaitRackPolicyError),
    ActiveCategoryCapacityExceeded { selected: usize, capacity: u8 },
    DuplicateActiveBait(FishingBait),
    NegativeAvailableUnits { bait: FishingBait, available_units: i64 },
}

/// The plan entry of one validated active bait: one unit consumed when available, otherwise the
/// bait auto-detaches and keeps its units.
pub open spec fn spec_entry(row: ActiveFishingBaitInventory) -> FishingBaitCastConsumptionEntry {
    let category = spec_bait_category_and_price(row.bait).0;
    if row.available_units >= 1 {
        FishingBaitCastConsumptionEntry {
            bait: row.bait,
            category,
            available_units_before: row.available_units,
            units_consumed: BAIT_UNITS_CONSUMED_PER_ACTIVE_CATEGORY_PER_CAST,
            available_units_after: (row.available_units - 1) as i64,
            action: FishingBaitCastConsumptionAction::ConsumeForCast,
        }
    } else {
        FishingBaitCastConsumptionEntry {
            bait: row.bait,
            category,
            available_units_before: row.available_units,
            units_consumed: 0,
            available_units_after: row.available_units,
            action: FishingBaitCastConsumptionAction::AutoDetachMissingUnit,
        }
    }
}

/// Number of the first `n` rows that have at least one unit available.
pub open spec fn spec_consumed_count(s: Seq<ActiveFishingBaitInventory>, n: int) -> int
    decreases n,
{
    if n <= 0 {
        0
    } else {
        spec_consumed_count(s, n - 1) + if s[n - 1].available_units >= 1 {
            1int
        } else {
            0int
        }
    }
}

/// First problem among rows `i..`, in order: a negative unit count, or a bait already selected
/// earlier.
pub open spec fn spec_row_problem(s: Seq<ActiveFishingBaitInventory>, i: int) -> Option<
    FishingBaitCastConsumptionError,
>
    decreases s.len() - i,
{
    if i < 0 || i >= s.len() {
        None
    } else if s[i].available_units < 0 {
        Some(
            FishingBaitCastConsumptionError::NegativeAvailableUnits {
                bait: s[i].bait,
                available_units: s[i].available_units,
            },
        )
    } else if exists|j: int| 0 <= j < i && #[trigger] s[j].bait == s[i].bait {
        Some(FishingBaitCastConsumptionError::DuplicateActiveBait(s[i].bait))
    } else {
        spec_row_problem(s, i + 1)
    }
}

proof fn lemma_consumed_count_bounds(s: Seq<ActiveFishingBaitInventory>, n: int)
    requires
        0 <= n <= s.len(),
    ensures
        0 <= spec_consumed_count(s, n) <= n,
    decreases n,
{
    if n > 0 {
        lemma_consumed_count_bounds(s, n - 1);
    }
}

/// Plans the frozen per-cast consumption behavior for all currently active Fishing baits.
#[verifier::loop_isolation(false)]
pub fn plan_fishing_bait_cast_consumption(
    bait_rack_level: Option<u8>,
    active_inventory: &[ActiveFishingBaitInventory],
) -> (r: Result<FishingBaitCastConsumptionPlan, FishingBaitCastConsumptionError>)
    ensures
        match spec_active_category_capacity(bait_rack_level) {
            Err(e) => r == Err::<FishingBaitCastConsumptionPlan, FishingBaitCastConsumptionError>(
                FishingBaitCastConsumptionError::BaitRack(e),
            ),
            Ok(capacity) => if active_inventory@.len() > capacity {
                r == Err::<FishingBaitCastConsumptionPlan, FishingBaitCastConsumptionError>(
                    FishingBaitCastConsumptionError::ActiveCategoryCapacityExceeded {
                        selected: active_inventory@.len() as usize,
                        capacity,
                    },
                )
            } else if spec_row_problem(active_inventory@, 0) is Some {
                r == Err::<FishingBaitCastConsumptionPlan, FishingBaitCastConsumptionError>(
                    spec_row_problem(active_inventory@, 0)->Some_0,
                )
            } else {
                r matches Ok(plan) && {
                    let n = active_inventory@.len() as int;
                    &&& plan.bait_rack_level == bait_rack_level
                    &&& plan.active_category_capacity == capacity
                    &&& plan.active_baits_before_cast == n
                    &&& plan.consumed_bait_categories == spec_consumed_count(active_inventory@, n)
                    &&& plan.auto_detached_bait_categories == n - spec_consumed_count(
                        active_inventory@,
                        n,
                    )
                    &&& plan.entries@ == active_inventory@.map_values(
                        |row: ActiveFishingBaitInventory| spec_entry(row),
                    )
                }
            },
        },
{
    let capacity = match bait_rack_capacity_policy(bait_rack_level) {
        Ok(c) => c,
        Err(e) => return Err(FishingBaitCastConsumptionError::BaitRack(e)),
    };
    if active_inventory.len() > capacity.active_bait_category_slots as usize {
        return Err(
            FishingBaitCastConsumptionError::ActiveCategoryCapacityExceeded {
                selected: active_inventory.len(),
                capacity: capacity.active_bait_category_slots,
            },
        );
    }
    let mut index: usize = 0;
    while index < active_inventory.len()
        invariant
            index <= active_inventory.len(),
            spec_row_problem(active_inventory@, 0) == spec_row_problem(
                active_inventory@,
                index as int,
            ),
        decreases active_inventory.len() - index,
    {
        let row = active_inventory[index];
        if row.available_units < 0 {
            return Err(
                FishingBaitCastConsumptionError::NegativeAvailableUnits {
                    bait: row.bait,
                    available_units: row.available_units,
                },
            );
        }
        let mut j: usize = 0;
        while j < index
            invariant
                j <= index < active_inventory.len(),
                row == active_inventory@[index as int],
                forall|k: int| 0 <= k < j ==> active_inventory@[k].bait != row.bait,
            decreases index - j,
        {
            if active_inventory[j].bait == row.bait {
                return Err(FishingBaitCastConsumptionError::DuplicateActiveBait(row.bait));
            }
            j = j + 1;
        }
        index = index + 1;
    }
    let mut entries: Vec<FishingBaitCastConsumptionEntry> = Vec::new();
    let mut consumed_bait_categories: u8 = 0;
    let mut auto_detached_bait_categories: u8 = 0;
    let mut i: usize = 0;
    while i < active_inventory.len()
        invariant
            i <= active_inventory.len() <= 6,
            entries@ == active_inventory@.take(i as int).map_values(
                |row: ActiveFishingBaitInventory| spec_entry(row),
            ),
            consumed_bait_categories == spec_consumed_count(active_inventory@, i as int),
            auto_detached_bait_categories == i - spec_consumed_count(active_inventory@, i as int),
            spec_row_problem(active_inventory@, 0) is None,
        decreases active_inventory.len() - i,
    {
        let row = active_inventory[i];
        proof {
            lemma_consumed_count_bounds(active_inventory@, i as int);
            lemma_no_problem_means_nonnegative(active_inventory@, 0, i as int);
        }
        let policy = fishing_bait_policy(row.bait);
        let required_units = policy.units_consumed_per_cast as i64;
        let entry = if row.available_units >= required_units {
            consumed_bait_categories = consumed_bait_categories + 1;
            FishingBaitCastConsumptionEntry {
                bait: row.bait,
                category: policy.category,
                available_units_before: row.available_units,
                units_consumed: policy.units_consumed_per_cast,
                available_units_after: row.available_units - required_units,
                action: FishingBaitCastConsumptionAction::ConsumeForCast,
            }
        } else {
            auto_detached_bait_categories = auto_detached_bait_categories + 1;
            FishingBaitCastConsumptionEntry {
                bait: row.bait,
                category: policy.category,
                available_units_before: row.available_units,
                units_consumed: 0,
                available_units_after: row.available_units,
                action: FishingBaitCastConsumptionAction::AutoDetachMissingUnit,
            }
        };
        entries.push(entry);
        proof {
            assert(active_inventory@.take(i + 1) =~= active_inventory@.take(i as int).push(row));
        }
        i = i + 1;
    }
    assert(active_inventory@.take(i as int) =~= active_inventory@);
    Ok(
        FishingBaitCastConsumptionPlan {
            bait_rack_level,
            active_category_capacity: capacity.active_bait_category_slots,
            active_baits_before_cast: active_inventory.len() as u8,
            consumed_bait_categories,
            auto_detached_bait_categories,
            entries,
        },
    )
}

proof fn lemma_no_problem_means_nonnegative(s: Seq<ActiveFishingBaitInventory>, i: int, k: int)
    requires
        0 <= i <= k < s.len(),
        spec_row_problem(s, i) is None,
    ensures
        s[k].available_units >= 0,
    decreases k - i,
{
    if i < k {
        lemma_no_problem_means_nonnegative(s, i + 1, k);
    }
}

/// The active category capacity the Bait Rack level allows, or its rejection.
pub open spec fn spec_active_category_capacity(bait_rack_level: Option<u8>) -> Result<
    u8,
    BaitRackPolicyError,
> {
    match bait_rack_level {
        None => Ok(3),
        Some(l) => if 1 <= l <= 3 {
            Ok((3 + l) as u8)
        } else {
            Err(BaitRackPolicyError::LevelOutOfRange(l))
        },
    }
}

} // verus!
