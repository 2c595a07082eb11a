//! Frozen Manual-Mining Trench and Nuke proc policies.
use vstd::prelude::*;

use crate::enchant_catalog::{
    canonical_enchant_max_resulting_level, spec_max_resulting_level, CanonicalEnchant,
};

verus! {

/// Exact probability scale of the special procs: `1_000_000` parts per million equal `100%`.
pub const MINING_SPECIAL_PROC_PROBABILITY_SCALE_PPM: u32 = 1_000_000;

pub const MINING_TRENCH_PROC_PPM_PER_LEVEL: u32 = 2_000;

pub const MINING_NUKE_PROC_PPM_PER_LEVEL: u32 = 25;

pub const MINING_TRENCH_MAX_PROCS_PER_MANUAL_MINE: u8 = 1;

pub const MINING_TRENCH_EXTRA_BLOCKS_ON_PROC: u8 = 8;

pub const MINING_NUKE_CHECKS_PER_MANUAL_MINE: u8 = 1;

#[derive(Clone, Copy, Debug, PartialEq, Eq, Structural)]
pub struct MiningTrenchProcPolicy {
    pub level: u8,
    pub proc_probability_ppm_per_natural_roll: u32,
    pub max_procs_per_manual_mine: u8,
    pub extra_physical_blocks_on_proc: u8,
    pub generated_blocks_can_trigger_trench_or_nuke: bool,
    pub automation_allowed: bool,
}

#[derive(Clone, Copy, Debug, PartialEq, Eq, Structural)]
pub struct MiningNukeProcPolicy {
    pub level: u8,
    pub proc_probability_ppm_per_manual_mine: u32,
    pub checks_per_manual_mine: u8,
    pub automation_allowed: bool,
}

#[derive(Clone, Copy, Debug, PartialEq, Eq, Structural)]
pub enum MiningSpecialProcPolicyError {
    InvalidLevel { enchant: CanonicalEnchant, level: u8, maximum: u8 },
}

fn validate_level(enchant: CanonicalEnchant, level: u8) -> (r: Result<(), MiningSpecialProcPolicyError>)
    ensures
        (level == 0 || level > spec_max_resulting_level(enchant)) ==> r == Err::<
            (),
            MiningSpecialProcPolicyError,
        >(
            MiningSpecialProcPolicyError::InvalidLevel {
                enchant,
                level,
                maximum: spec_max_resulting_level(enchant),
            },
        ),
        !(level == 0 || level > spec_max_resulting_level(enchant)) ==> r is Ok,
{
    let maximum = canonical_enchant_max_resulting_level(enchant);
    if level == 0 || level > maximum {
        return Err(MiningSpecialProcPolicyError::InvalidLevel { enchant, level, maximum });
    }
    Ok(())
}

/// Returns the frozen Manual-Mining Trench proc policy for a level I-X: `0.2% x level` per natural
/// roll, at most one proc per manual mine, eight extra physical blocks, no recursion, no automation.
pub fn mining_trench_proc_policy(level: u8) -> (r: Result<
    MiningTrenchProcPolicy,
    MiningSpecialProcPolicyError,
>)
    ensures
        (level == 0 || level > 10) ==> r == Err::<
            MiningTrenchProcPolicy,
            MiningSpecialProcPolicyError,
        >(
            MiningSpecialProcPolicyError::InvalidLevel {
                enchant: CanonicalEnchant::Trench,
                level,
                maximum: 10,
            },
        ),
        1 <= level <= 10 ==> r == Ok::<MiningTrenchProcPolicy, MiningSpecialProcPolicyError>(
            MiningTrenchProcPolicy {
                level,
                proc_probability_ppm_per_natural_roll: (level * MINING_TRENCH_PROC_PPM_PER_LEVEL) as u32,
                max_procs_per_manual_mine: MINING_TRENCH_MAX_PROCS_PER_MANUAL_MINE,
                extra_physical_blocks_on_proc: MINING_TRENCH_EXTRA_BLOCKS_ON_PROC,
                generated_blocks_can_trigger_trench_or_nuke: false,
                automation_allowed: false,
            },
        ),
{
    match validate_level(CanonicalEnchant::Trench, level) {
        Ok(()) => {},
        Err(e) => {
            return Err(e);
        },
    }
    Ok(MiningTrenchProcPolicy {
        level,
        proc_probability_ppm_per_natural_roll: (level as u32) * MINING_TRENCH_PROC_PPM_PER_LEVEL,
        max_procs_per_manual_mine: MINING_TRENCH_MAX_PROCS_PER_MANUAL_MINE,
        extra_physical_blocks_on_proc: MINING_TRENCH_EXTRA_BLOCKS_ON_PROC,
        generated_blocks_can_trigger_trench_or_nuke: false,
        automation_allowed: false,
    })
}

/// Returns the frozen Manual-Mining Nuke proc policy for a level I-X: one check per manual mine at
/// `0.0025% x level`, disabled in automation.
pub fn mining_nuke_proc_policy(level: u8) -> (r: Result<MiningNukeProcPolicy, MiningSpecialProcPolicyError>)
    ensures
        (level == 0 || level > 10) ==> r == Err::<
            MiningNukeProcPolicy,
            MiningSpecialProcPolicyError,
        >(
            MiningSpecialProcPolicyError::InvalidLevel {
                enchant: CanonicalEnchant::Nuke,
                level,
                maximum: 10,
            },
        ),
        1 <= level <= 10 ==> r == Ok::<MiningNukeProcPolicy, MiningSpecialProcPolicyError>(
            MiningNukeProcPolicy {
                level,
                proc_probability_ppm_per_manual_mine: (level * MINING_NUKE_PROC_PPM_PER_LEVEL) as u32,
                checks_per_manual_mine: MINING_NUKE_CHECKS_PER_MANUAL_MINE,
                automation_allowed: false,
            },
        ),
{
    match validate_level(CanonicalEnchant::Nuke, level) {
        Ok(()) => {},
        Err(e) => {
            return Err(e);
        },
    }
    Ok(MiningNukeProcPolicy {
        level,
        proc_probability_ppm_per_manual_mine: (level as u32) * MINING_NUKE_PROC_PPM_PER_LEVEL,
        checks_per_manual_mine: MINING_NUKE_CHECKS_PER_MANUAL_MINE,
        automation_allowed: false,
    })
}

} // verus!
