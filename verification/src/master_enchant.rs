//! Master enchant acquisition, the Master II upgrade and the full-repair charge path.
use vstd::prelude::*;

verus! {

pub const MASTER_I_PURCHASE_AEXP: i64 = 250_000;

pub const MASTER_II_UPGRADE_AEXP: i64 = 500_000;

#[derive(Clone, Copy, Debug, PartialEq, Eq, Structural)]
pub enum MasterEnchantTier {
    MasterI,
    MasterII,
}

/// Full-repair charges carried by a Master tier.
pub open spec fn spec_full_repair_charges(tier: MasterEnchantTier) -> u8 {
    match tier {
        MasterEnchantTier::MasterI => 1,
        MasterEnchantTier::MasterII => 2,
    }
}

impl MasterEnchantTier {
    pub fn full_repair_charges(self) -> (r: u8)
        ensures
            r == spec_full_repair_charges(self),
    {
        match self {
            MasterEnchantTier::MasterI => 1,
            MasterEnchantTier::MasterII => 2,
        }
    }
}

#[derive(Clone, Copy, Debug, PartialEq, Eq, Structural)]
pub enum MasterAcquisitionSource {
    ExpShopOnly,
    UpgradeOnlyFromMasterI,
}

#[derive(Clone, Copy, Debug, PartialEq, Eq, Structural)]
pub struct MasterIPurchasePolicy {
    pub tier: MasterEnchantTier,
    pub activity_exp_cost: i64,
    pub acquisition_source: MasterAcquisitionSource,
    pub full_repair_charges: u8,
}

#[derive(Clone, Copy, Debug, PartialEq, Eq, Structural)]
pub struct MasterIIUpgradePreview {
    pub from: MasterEnchantTier,
    pub to: MasterEnchantTier,
    pub additional_activity_exp_cost: i64,
    pub acquisition_source: MasterAcquisitionSource,
    pub charges_before: u8,
    pub charges_after: u8,
    pub additional_full_repair_charges: u8,
}

#[derive(Clone, Copy, Debug, PartialEq, Eq, Structural)]
pub struct MasterFullRepairChargePlan {
    pub before: MasterEnchantTier,
    pub after: Option<MasterEnchantTier>,
    pub charges_before: u8,
    pub charges_after: u8,
    pub consumes_one_charge: bool,
    pub restores_full_durability: bool,
}

#[derive(Clone, Copy, Debug, PartialEq, Eq, Structural)]
pub enum MasterEnchantPolicyError {
    MasterIiRequiresMasterI,
    NukeBurnoutBlocksRestoration,
}

/// Returns the frozen EXP-Shop acquisition policy for Master I: EXP-Shop only, 250,000 Activity
/// EXP, one full-repair charge.
pub fn master_i_purchase_policy() -> (r: MasterIPurchasePolicy)
    ensures
        r == (MasterIPurchasePolicy {
            tier: MasterEnchantTier::MasterI,
            activity_exp_cost: MASTER_I_PURCHASE_AEXP,
            acquisition_source: MasterAcquisitionSource::ExpShopOnly,
            full_repair_charges: 1,
        }),
{
    MasterIPurchasePolicy {
        tier: MasterEnchantTier::MasterI,
        activity_exp_cost: MASTER_I_PURCHASE_AEXP,
        acquisition_source: MasterAcquisitionSource::ExpShopOnly,
        full_repair_charges: 1,
    }
}

/// Previews the only canonical Master II progression step: an existing Master I is upgraded for
/// 500,000 additional Activity EXP and gains exactly one charge.
pub fn preview_master_ii_upgrade(current: MasterEnchantTier) -> (r: Result<
    MasterIIUpgradePreview,
    MasterEnchantPolicyError,
>)
    ensures
        current != MasterEnchantTier::MasterI ==> r == Err::<
            MasterIIUpgradePreview,
            MasterEnchantPolicyError,
        >(MasterEnchantPolicyError::MasterIiRequiresMasterI),
        current == MasterEnchantTier::MasterI ==> r == Ok::<
            MasterIIUpgradePreview,
            MasterEnchantPolicyError,
        >(
            MasterIIUpgradePreview {
                from: MasterEnchantTier::MasterI,
                to: MasterEnchantTier::MasterII,
                additional_activity_exp_cost: MASTER_II_UPGRADE_AEXP,
                acquisition_source: MasterAcquisitionSource::UpgradeOnlyFromMasterI,
                charges_before: 1,
                charges_after: 2,
                additional_full_repair_charges: 1,
            },
        ),
        r matches Ok(p) ==> p.charges_after == p.charges_before + p.additional_full_repair_charges
            && p.charges_after == spec_full_repair_charges(p.to),
{
    if current != MasterEnchantTier::MasterI {
        return Err(MasterEnchantPolicyError::MasterIiRequiresMasterI);
    }
    Ok(MasterIIUpgradePreview {
        from: MasterEnchantTier::MasterI,
        to: MasterEnchantTier::MasterII,
        additional_activity_exp_cost: MASTER_II_UPGRADE_AEXP,
        acquisition_source: MasterAcquisitionSource::UpgradeOnlyFromMasterI,
        charges_before: MasterEnchantTier::MasterI.full_repair_charges(),
        charges_after: MasterEnchantTier::MasterII.full_repair_charges(),
        additional_full_repair_charges: 1,
    })
}

/// The tier left after one charge is used: Master II becomes Master I, Master I is removed.
pub open spec fn spec_after_charge_use(tier: MasterEnchantTier) -> Option<MasterEnchantTier> {
    match tier {
        MasterEnchantTier::MasterII => Some(MasterEnchantTier::MasterI),
        MasterEnchantTier::MasterI => None,
    }
}

/// Projects one authorized Master full-repair charge use along `Master II -> Master I -> removed`;
/// an active `NUKE_BURNOUT` blocks restoration without consuming a charge.
pub fn plan_master_full_repair_charge_use(current: MasterEnchantTier, nuke_burnout: bool) -> (r:
    Result<MasterFullRepairChargePlan, MasterEnchantPolicyError>)
    ensures
        nuke_burnout ==> r == Err::<MasterFullRepairChargePlan, MasterEnchantPolicyError>(
            MasterEnchantPolicyError::NukeBurnoutBlocksRestoration,
        ),
        !nuke_burnout ==> r == Ok::<MasterFullRepairChargePlan, MasterEnchantPolicyError>(
            MasterFullRepairChargePlan {
                before: current,
                after: spec_after_charge_use(current),
                charges_before: spec_full_repair_charges(current),
                charges_after: (spec_full_repair_charges(current) - 1) as u8,
                consumes_one_charge: true,
                restores_full_durability: true,
            },
        ),
        r matches Ok(p) ==> p.charges_after + 1 == p.charges_before && p.charges_after == match p.after {
            Some(t) => spec_full_repair_charges(t),
            None => 0,
        },
{
    if nuke_burnout {
        return Err(MasterEnchantPolicyError::NukeBurnoutBlocksRestoration);
    }
    let (after, charges_after) = match current {
        MasterEnchantTier::MasterII => (Some(MasterEnchantTier::MasterI), 1u8),
        MasterEnchantTier::MasterI => (None, 0u8),
    };
    Ok(MasterFullRepairChargePlan {
        before: current,
        after,
        charges_before: current.full_repair_charges(),
        charges_after,
        consumes_one_charge: true,
        restores_full_durability: true,
    })
}

} // verus!
