//! The decision of how one already-resolved ordinary Pickaxe durability event applies to the
//! locked equipped Pickaxe.
use vstd::prelude::*;

use crate::fishing_rod_durability_state::DurabilityWrite;
use crate::mining_pickaxe_durability::{
    preview_mining_pickaxe_ordinary_durability_event, MiningPickaxeDurabilityPolicyError,
    MiningPickaxeOrdinaryDurabilityConsequence, MiningPickaxeOrdinaryDurabilityPreview,
};
use crate::stored_values::{spec_stored_u32, stored_u32};
use crate::text::str_eq;

verus! {

/// Definition key of the system-bound Starter Wood Pickaxe.
pub const STARTER_WOOD_PICKAXE_DEFINITION_KEY: &'static str = "equipment.pickaxe.wood.starter";

#[derive(Clone, Debug, PartialEq, Eq)]
pub enum MiningPickaxeDurabilityStateError {
    Policy(MiningPickaxeDurabilityPolicyError),
    OperationNotFound,
    OperationPlayerMismatch,
    OperationTerminal(String),
    PlayerNotFound,
    AccountFrozen(String),
    NoEquippedPickaxe,
    EquippedPickaxeIntegrityMismatch,
    StarterWoodPickaxeIntegrityMismatch,
    NonOrdinaryPickaxe,
    InvalidOrdinaryPickaxeDurability,
    OrdinaryPickaxeAlreadyBroken,
    DurabilityChanged { expected: u32, actual: u32 },
    StarterWoodExpectedDurability,
    OrdinaryPickaxeExpectedDurabilityMissing,
    LockedStateMismatch,
}

/// Accepts the locked Pickaxe-slot item only if the slot still holds it and it is an equipped
/// Pickaxe.
pub fn check_equipped_pickaxe_record(slot_still_holds_item: bool, location: &str, category: &str) -> (r:
    Result<(), MiningPickaxeDurabilityStateError>)
    ensures
        (slot_still_holds_item && location@ == "EQUIPPED"@ && category@ == "PICKAXE"@) ==> r is Ok,
        !(slot_still_holds_item && location@ == "EQUIPPED"@ && category@ == "PICKAXE"@) ==> r
            == Err::<(), MiningPickaxeDurabilityStateError>(
            MiningPickaxeDurabilityStateError::EquippedPickaxeIntegrityMismatch,
        ),
{
    if !slot_still_holds_item || !str_eq(location, "EQUIPPED") || !str_eq(category, "PICKAXE") {
        return Err(MiningPickaxeDurabilityStateError::EquippedPickaxeIntegrityMismatch);
    }
    Ok(())
}

/// The durability-relevant state of the locked equipped Pickaxe.
pub struct LockedPickaxeFacts<'a> {
    pub definition_key: &'a str,
    pub is_starter: bool,
    pub is_unbreakable: bool,
    pub is_repairable: bool,
    pub is_ordinary_equipment: bool,
    pub current_durability: Option<i64>,
    pub max_durability: Option<i64>,
    pub is_broken: bool,
}

/// The canonical Starter Wood state: starter, unbreakable, not repairable, not ordinary, no
/// durability values and not Broken.
pub open spec fn spec_canonical_starter_wood(p: LockedPickaxeFacts) -> bool {
    &&& p.is_starter
    &&& p.is_unbreakable
    &&& !p.is_repairable
    &&& !p.is_ordinary_equipment
    &&& p.current_durability is None
    &&& p.max_durability is None
    &&& !p.is_broken
}

/// What the owning transaction must do with the equipped Pickaxe.
#[derive(Clone, Copy, Debug, PartialEq, Eq, Structural)]
pub enum MiningPickaxeDurabilityDecision {
    /// The unbreakable Starter Wood Pickaxe: nothing is written.
    StarterWoodUnbreakable,
    /// An ordinary Pickaxe: `write` holds what to store when durability changes.
    Ordinary { preview: MiningPickaxeOrdinaryDurabilityPreview, write: Option<DurabilityWrite> },
}

/// Decides how one already-resolved ordinary wear event applies to the locked equipped Pickaxe.
///
/// The exact Starter Wood Pickaxe must be in its canonical unbreakable state and carries no
/// expected durability; it is an explicit no-op. Any other Pickaxe must be a non-starter ordinary
/// item with consistent `u32` durability (`0 < maximum`, `current <= maximum`, Broken exactly at
/// zero), be operational, and match the caller's expected durability; the frozen wear policy then
/// gives the result, which is written only when it differs.
pub fn decide_pickaxe_ordinary_durability(
    expected_current_durability: Option<u32>,
    ordinary_event_prevented_by_unbreaking: bool,
    pickaxe: LockedPickaxeFacts,
) -> (r: Result<MiningPickaxeDurabilityDecision, MiningPickaxeDurabilityStateError>)
    ensures
        pickaxe.definition_key@ == STARTER_WOOD_PICKAXE_DEFINITION_KEY@ ==> {
            &&& !spec_canonical_starter_wood(pickaxe) ==> r == Err::<
                MiningPickaxeDurabilityDecision,
                MiningPickaxeDurabilityStateError,
            >(MiningPickaxeDurabilityStateError::StarterWoodPickaxeIntegrityMismatch)
            &&& spec_canonical_starter_wood(pickaxe) && expected_current_durability is Some ==> r
                == Err::<MiningPickaxeDurabilityDecision, MiningPickaxeDurabilityStateError>(
                MiningPickaxeDurabilityStateError::StarterWoodExpectedDurability,
            )
            &&& spec_canonical_starter_wood(pickaxe) && expected_current_durability is None ==> r
                == Ok::<MiningPickaxeDurabilityDecision, MiningPickaxeDurabilityStateError>(
                MiningPickaxeDurabilityDecision::StarterWoodUnbreakable,
            )
        },
        pickaxe.definition_key@ != STARTER_WOOD_PICKAXE_DEFINITION_KEY@ ==> {
            let current = spec_stored_u32(pickaxe.current_durability);
            let maximum = spec_stored_u32(pickaxe.max_durability);
            &&& pickaxe.is_starter ==> r == Err::<
                MiningPickaxeDurabilityDecision,
                MiningPickaxeDurabilityStateError,
            >(MiningPickaxeDurabilityStateError::StarterWoodPickaxeIntegrityMismatch)
            &&& !pickaxe.is_starter && !pickaxe.is_ordinary_equipment ==> r == Err::<
                MiningPickaxeDurabilityDecision,
                MiningPickaxeDurabilityStateError,
            >(MiningPickaxeDurabilityStateError::NonOrdinaryPickaxe)
            &&& !pickaxe.is_starter && pickaxe.is_ordinary_equipment ==> {
                &&& (current is None || maximum is None || maximum->0 == 0 || current->0
                    > maximum->0) ==> r == Err::<
                    MiningPickaxeDurabilityDecision,
                    MiningPickaxeDurabilityStateError,
                >(MiningPickaxeDurabilityStateError::InvalidOrdinaryPickaxeDurability)
                &&& (current is Some && maximum is Some && maximum->0 != 0 && current->0
                    <= maximum->0) ==> {
                    let c = current->0;
                    let m = maximum->0;
                    &&& c == 0 && pickaxe.is_broken ==> r == Err::<
                        MiningPickaxeDurabilityDecision,
                        MiningPickaxeDurabilityStateError,
                    >(MiningPickaxeDurabilityStateError::OrdinaryPickaxeAlreadyBroken)
                    &&& (c == 0) != pickaxe.is_broken ==> r == Err::<
                        MiningPickaxeDurabilityDecision,
                        MiningPickaxeDurabilityStateError,
                    >(MiningPickaxeDurabilityStateError::InvalidOrdinaryPickaxeDurability)
                    &&& c != 0 && !pickaxe.is_broken && expected_current_durability is None ==> r
                        == Err::<MiningPickaxeDurabilityDecision, MiningPickaxeDurabilityStateError>(
                        MiningPickaxeDurabilityStateError::OrdinaryPickaxeExpectedDurabilityMissing,
                    )
                    &&& c != 0 && !pickaxe.is_broken && expected_current_durability is Some
                        && expected_current_durability->0 != c ==> r == Err::<
                        MiningPickaxeDurabilityDecision,
                        MiningPickaxeDurabilityStateError,
                    >(
                        MiningPickaxeDurabilityStateError::DurabilityChanged {
                            expected: expected_current_durability->0,
                            actual: c,
                        },
                    )
                    &&& c != 0 && !pickaxe.is_broken && expected_current_durability == Some(c)
                        ==> {
                        let resulting: u32 = if ordinary_event_prevented_by_unbreaking {
                            c
                        } else {
                            (c - 1) as u32
                        };
                        let preview = MiningPickaxeOrdinaryDurabilityPreview {
                            current_durability: c,
                            max_durability: m,
                            resulting_durability: resulting,
                            consequence: if ordinary_event_prevented_by_unbreaking {
                                MiningPickaxeOrdinaryDurabilityConsequence::WearPreventedByUnbreaking
                            } else {
                                MiningPickaxeOrdinaryDurabilityConsequence::WearApplied
                            },
                        };
                        r == Ok::<
                            MiningPickaxeDurabilityDecision,
                            MiningPickaxeDurabilityStateError,
                        >(
                            MiningPickaxeDurabilityDecision::Ordinary {
                                preview,
                                write: if resulting != c {
                                    Some(
                                        DurabilityWrite {
                                            durability: resulting,
                                            is_broken: resulting == 0,
                                        },
                                    )
                                } else {
                                    None
                                },
                            },
                        )
                    }
                }
            }
        },
{
    if str_eq(pickaxe.definition_key, STARTER_WOOD_PICKAXE_DEFINITION_KEY) {
        if !pickaxe.is_starter || !pickaxe.is_unbreakable || pickaxe.is_repairable
            || pickaxe.is_ordinary_equipment || pickaxe.current_durability.is_some()
            || pickaxe.max_durability.is_some() || pickaxe.is_broken {
            return Err(MiningPickaxeDurabilityStateError::StarterWoodPickaxeIntegrityMismatch);
        }
        if expected_current_durability.is_some() {
            return Err(MiningPickaxeDurabilityStateError::StarterWoodExpectedDurability);
        }
        return Ok(MiningPickaxeDurabilityDecision::StarterWoodUnbreakable);
    }
    if pickaxe.is_starter {
        return Err(MiningPickaxeDurabilityStateError::StarterWoodPickaxeIntegrityMismatch);
    }
    if !pickaxe.is_ordinary_equipment {
        return Err(MiningPickaxeDurabilityStateError::NonOrdinaryPickaxe);
    }
    let current = match stored_u32(pickaxe.current_durability) {
        Some(c) => c,
        None => {
            return Err(MiningPickaxeDurabilityStateError::InvalidOrdinaryPickaxeDurability);
        },
    };
    let maximum = match stored_u32(pickaxe.max_durability) {
        Some(m) => m,
        None => {
            return Err(MiningPickaxeDurabilityStateError::InvalidOrdinaryPickaxeDurability);
        },
    };
    if maximum == 0 || current > maximum {
        return Err(MiningPickaxeDurabilityStateError::InvalidOrdinaryPickaxeDurability);
    }
    if current == 0 {
        if pickaxe.is_broken {
            return Err(MiningPickaxeDurabilityStateError::OrdinaryPickaxeAlreadyBroken);
        } else {
            return Err(MiningPickaxeDurabilityStateError::InvalidOrdinaryPickaxeDurability);
        }
    }
    if pickaxe.is_broken {
        return Err(MiningPickaxeDurabilityStateError::InvalidOrdinaryPickaxeDurability);
    }
    let expected = match expected_current_durability {
        Some(e) => e,
        None => {
            return Err(MiningPickaxeDurabilityStateError::OrdinaryPickaxeExpectedDurabilityMissing);
        },
    };
    if expected != current {
        return Err(MiningPickaxeDurabilityStateError::DurabilityChanged { expected, actual: current });
    }
    let preview = match preview_mining_pickaxe_ordinary_durability_event(
        current,
        maximum,
        true,
        ordinary_event_prevented_by_unbreaking,
    ) {
        Ok(p) => p,
        Err(e) => {
            return Err(MiningPickaxeDurabilityStateError::Policy(e));
        },
    };
    let write = if preview.resulting_durability != current {
        Some(
            DurabilityWrite {
                durability: preview.resulting_durability,
                is_broken: preview.resulting_durability == 0,
            },
        )
    } else {
        None
    };
    Ok(MiningPickaxeDurabilityDecision::Ordinary { preview, write })
}

} // verus!
