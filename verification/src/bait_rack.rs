//! Bait Rack active bait-category capacity for a normal Fishing Rod.
use vstd::prelude::*;

verus! {

pub const BAIT_RACK_MAX_LEVEL: u8 = 3;
pub const NATIVE_ACTIVE_BAIT_CATEGORY_SLOTS: u8 = 3;
pub const BAIT_RACK_ACTIVE_SLOTS_PER_LEVEL: u8 = 1;
pub const MAX_ACTIVE_BAIT_CATEGORY_SLOTS: u8 = 6;

#[derive(Clone, Copy, Debug, PartialEq, Eq, Structural)]
pub struct BaitRackCapacityPolicy {
    pub bait_rack_level: Option<u8>,
    pub native_active_bait_category_slots: u8,
    pub additional_active_bait_category_slots: u8,
    pub active_bait_category_slots: u8,
    pub max_active_bait_category_slots: u8,
    pub rod_only: bool,
    pub occupies_one_normal_rod_enchant_slot: bool,
}

#[derive(Clone, Copy, Debug, PartialEq, Eq, Structural)]
pub enum BaitRackPolicyError {
    LevelOutOfRange(u8),
}

/// The frozen capacity of a normal Fishing Rod whose Bait Rack level is absent or in range: three
/// native active bait categories, one more per Bait Rack level, out of at most six.
pub open spec fn spec_bait_rack_capacity(bait_rack_level: Option<u8>) -> BaitRackCapacityPolicy {
    let level: u8 = match bait_rack_level {
        Some(l) => l,
        None => 0,
    };
    BaitRackCapacityPolicy {
        bait_rack_level,
        native_active_bait_category_slots: NATIVE_ACTIVE_BAIT_CATEGORY_SLOTS,
        additional_active_bait_category_slots: level,
        active_bait_category_slots: (NATIVE_ACTIVE_BAIT_CATEGORY_SLOTS + level) as u8,
        max_active_bait_category_slots: MAX_ACTIVE_BAIT_CATEGORY_SLOTS,
        rod_only: true,
        occupies_one_normal_rod_enchant_slot: bait_rack_level is Some,
    }
}

/// A Bait Rack level is absent or one of Levels I-III.
pub open spec fn spec_bait_rack_level_in_range(bait_rack_level: Option<u8>) -> bool {
    match bait_rack_level {
        Some(l) => 1 <= l <= BAIT_RACK_MAX_LEVEL,
        None => true,
    }
}

/// Resolves the frozen active bait-category capacity for a normal Fishing Rod.
///
/// `None` is a Rod without Bait Rack (three native categories); Levels I-III add one category
/// each; any other present level is rejected.
pub fn bait_rack_capacity_policy(bait_rack_level: Option<u8>) -> (r: Result<
    BaitRackCapacityPolicy,
    BaitRackPolicyError,
>)
    ensures
        bait_rack_level matches Some(l) ==> (!(1 <= l <= BAIT_RACK_MAX_LEVEL) ==> r == Err::<
            BaitRackCapacityPolicy,
            BaitRackPolicyError,
        >(BaitRackPolicyError::LevelOutOfRange(l))),
        spec_bait_rack_level_in_range(bait_rack_level) ==> r == Ok::<
            BaitRackCapacityPolicy,
            BaitRackPolicyError,
        >(spec_bait_rack_capacity(bait_rack_level)),
        r matches Ok(p) ==> p.active_bait_category_slots <= MAX_ACTIVE_BAIT_CATEGORY_SLOTS,
{
    let level: u8 = match bait_rack_level {
        None => 0,
        Some(level) => {
            if 1 <= level && level <= BAIT_RACK_MAX_LEVEL {
                level
            } else {
                return Err(BaitRackPolicyError::LevelOutOfRange(level));
            }
        },
    };
    let additional_active_bait_category_slots = level * BAIT_RACK_ACTIVE_SLOTS_PER_LEVEL;
    let active_bait_category_slots = NATIVE_ACTIVE_BAIT_CATEGORY_SLOTS
        + additional_active_bait_category_slots;
    Ok(
        BaitRackCapacityPolicy {
            bait_rack_level,
            native_active_bait_category_slots: NATIVE_ACTIVE_BAIT_CATEGORY_SLOTS,
            additional_active_bait_category_slots,
            active_bait_category_slots,
            max_active_bait_category_slots: MAX_ACTIVE_BAIT_CATEGORY_SLOTS,
            rod_only: true,
            occupies_one_normal_rod_enchant_slot: bait_rack_level.is_some(),
        },
    )
}

} // verus!
