//! Ordinary Pickaxe wear per mining event and the destructive consequence of a Nuke proc.
use vstd::prelude::*;

verus! {

pub const NORMAL_PICKAXE_DURABILITY_PER_ORDINARY_EVENT: u8 = 1;

pub const NUKE_MAX_BLAST_PHYSICAL_BLOCKS: u32 = 100;

#[derive(Clone, Copy, Debug, PartialEq, Eq, Structural)]
pub enum MiningPickaxeOrdinaryDurabilityConsequence {
    WearApplied,
    WearPreventedByUnbreaking,
}

#[derive(Clone, Copy, Debug, PartialEq, Eq, Structural)]
pub struct MiningPickaxeOrdinaryDurabilityPreview {
    pub current_durability: u32,
    pub max_durability: u32,
    pub resulting_durability: u32,
    pub consequence: MiningPickaxeOrdinaryDurabilityConsequence,
}

#[derive(Clone, Copy, Debug, PartialEq, Eq, Structural)]
pub struct MiningPickaxeNukeDestructionPreview {
    pub remaining_durability: u32,
    pub max_durability: u32,
    pub blast_physical_blocks: u32,
    pub resulting_durability: u32,
    pub nuke_burnout_required: bool,
}

#[derive(Clone, Copy, Debug, PartialEq, Eq, Structural)]
pub enum MiningPickaxeDurabilityPolicyError {
    NotOrdinaryPickaxe,
    InvalidMaxDurability,
    InvalidCurrentDurability,
    InvalidNukeRemainingDurability,
}

/// Previews one already-resolved ordinary Pickaxe durability event: one durability is consumed
/// unless Unbreaking prevented the event.
pub fn preview_mining_pickaxe_ordinary_durability_event(
    current_durability: u32,
    max_durability: u32,
    is_ordinary_pickaxe: bool,
    ordinary_event_prevented_by_unbreaking: bool,
) -> (r: Result<MiningPickaxeOrdinaryDurabilityPreview, MiningPickaxeDurabilityPolicyError>)
    ensures
        !is_ordinary_pickaxe ==> r == Err::<
            MiningPickaxeOrdinaryDurabilityPreview,
            MiningPickaxeDurabilityPolicyError,
        >(MiningPickaxeDurabilityPolicyError::NotOrdinaryPickaxe),
        is_ordinary_pickaxe && max_durability == 0 ==> r == Err::<
            MiningPickaxeOrdinaryDurabilityPreview,
            MiningPickaxeDurabilityPolicyError,
        >(MiningPickaxeDurabilityPolicyError::InvalidMaxDurability),
        is_ordinary_pickaxe && max_durability != 0 && (current_durability == 0 || current_durability
            > max_durability) ==> r == Err::<
            MiningPickaxeOrdinaryDurabilityPreview,
            MiningPickaxeDurabilityPolicyError,
        >(MiningPickaxeDurabilityPolicyError::InvalidCurrentDurability),
        is_ordinary_pickaxe && 1 <= current_durability <= max_durability ==> r == Ok::<
            MiningPickaxeOrdinaryDurabilityPreview,
            MiningPickaxeDurabilityPolicyError,
        >(
            MiningPickaxeOrdinaryDurabilityPreview {
                current_durability,
                max_durability,
                resulting_durability: if ordinary_event_prevented_by_unbreaking {
                    current_durability
                } else {
                    (current_durability - NORMAL_PICKAXE_DURABILITY_PER_ORDINARY_EVENT) as u32
                },
                consequence: if ordinary_event_prevented_by_unbreaking {
                    MiningPickaxeOrdinaryDurabilityConsequence::WearPreventedByUnbreaking
                } else {
                    MiningPickaxeOrdinaryDurabilityConsequence::WearApplied
                },
            },
        ),
{
    if !is_ordinary_pickaxe {
        return Err(MiningPickaxeDurabilityPolicyError::NotOrdinaryPickaxe);
    }
    if max_durability == 0 {
        return Err(MiningPickaxeDurabilityPolicyError::InvalidMaxDurability);
    }
    if current_durability == 0 || current_durability > max_durability {
        return Err(MiningPickaxeDurabilityPolicyError::InvalidCurrentDurability);
    }
    let (resulting_durability, consequence) = if ordinary_event_prevented_by_unbreaking {
        (current_durability, MiningPickaxeOrdinaryDurabilityConsequence::WearPreventedByUnbreaking)
    } else {
        (
            current_durability - NORMAL_PICKAXE_DURABILITY_PER_ORDINARY_EVENT as u32,
            MiningPickaxeOrdinaryDurabilityConsequence::WearApplied,
        )
    };
    Ok(MiningPickaxeOrdinaryDurabilityPreview {
        current_durability,
        max_durability,
        resulting_durability,
        consequence,
    })
}

/// Previews the frozen consequence of a successful Nuke proc: the blast covers
/// `min(remaining durability, 100)` physical blocks, durability becomes zero and `NUKE_BURNOUT` is
/// required; Unbreaking does not apply.
pub fn preview_mining_pickaxe_nuke_destruction(
    remaining_durability: u32,
    max_durability: u32,
    is_ordinary_pickaxe: bool,
) -> (r: Result<MiningPickaxeNukeDestructionPreview, MiningPickaxeDurabilityPolicyError>)
    ensures
        !is_ordinary_pickaxe ==> r == Err::<
            MiningPickaxeNukeDestructionPreview,
            MiningPickaxeDurabilityPolicyError,
        >(MiningPickaxeDurabilityPolicyError::NotOrdinaryPickaxe),
        is_ordinary_pickaxe && max_durability == 0 ==> r == Err::<
            MiningPickaxeNukeDestructionPreview,
            MiningPickaxeDurabilityPolicyError,
        >(MiningPickaxeDurabilityPolicyError::InvalidMaxDurability),
        is_ordinary_pickaxe && max_durability != 0 && remaining_durability > max_durability ==> r
            == Err::<MiningPickaxeNukeDestructionPreview, MiningPickaxeDurabilityPolicyError>(
            MiningPickaxeDurabilityPolicyError::InvalidNukeRemainingDurability,
        ),
        is_ordinary_pickaxe && max_durability != 0 && remaining_durability <= max_durability ==> r
            == Ok::<MiningPickaxeNukeDestructionPreview, MiningPickaxeDurabilityPolicyError>(
            MiningPickaxeNukeDestructionPreview {
                remaining_durability,
                max_durability,
                blast_physical_blocks: if remaining_durability < NUKE_MAX_BLAST_PHYSICAL_BLOCKS {
                    remaining_durability
                } else {
                    NUKE_MAX_BLAST_PHYSICAL_BLOCKS
                },
                resulting_durability: 0,
                nuke_burnout_required: true,
            },
        ),
{
    if !is_ordinary_pickaxe {
        return Err(MiningPickaxeDurabilityPolicyError::NotOrdinaryPickaxe);
    }
    if max_durability == 0 {
        return Err(MiningPickaxeDurabilityPolicyError::InvalidMaxDurability);
    }
    if remaining_durability > max_durability {
        return Err(MiningPickaxeDurabilityPolicyError::InvalidNukeRemainingDurability);
    }
    let blast_physical_blocks = if remaining_durability < NUKE_MAX_BLAST_PHYSICAL_BLOCKS {
        remaining_durability
    } else {
        NUKE_MAX_BLAST_PHYSICAL_BLOCKS
    };
    Ok(MiningPickaxeNukeDestructionPreview {
        remaining_durability,
        max_durability,
        blast_physical_blocks,
        resulting_durability: 0,
        nuke_burnout_required: true,
    })
}

} // verus!
