//! Frozen Grinding repair modifier: 3% material and repair-time reduction per level.
use vstd::prelude::*;

verus! {

pub const GRINDING_MAX_LEVEL: u8 = 10;

pub const GRINDING_REDUCTION_BPS_PER_LEVEL: u16 = 300;

pub const GRINDING_MAX_REDUCTION_BPS: u16 = 3_000;

pub const REPAIR_TIME_REDUCTION_BUCKET_CAP_BPS: u16 = 3_500;

#[derive(Clone, Copy, Debug, PartialEq, Eq, Structural)]
pub struct GrindingRepairModifier {
    pub level: u8,
    pub material_reduction_basis_points: u16,
    pub repair_time_reduction_basis_points: u16,
    pub repair_time_bucket_cap_basis_points: u16,
    pub money_fee_unchanged: bool,
    pub applies_after_tier_repair_recipe: bool,
}

#[derive(Clone, Copy, Debug, PartialEq, Eq, Structural)]
pub enum GrindingPolicyError {
    LevelOutOfRange(u8),
}

/// Returns the frozen Grinding modifier for a level I-X as exact basis points; the Money fee is
/// never reduced and the modifier applies after the tier repair recipe.
pub fn grinding_repair_modifier(level: u8) -> (r: Result<GrindingRepairModifier, GrindingPolicyError>)
    ensures
        !(1 <= level <= GRINDING_MAX_LEVEL) ==> r == Err::<
            GrindingRepairModifier,
            GrindingPolicyError,
        >(GrindingPolicyError::LevelOutOfRange(level)),
        1 <= level <= GRINDING_MAX_LEVEL ==> r == Ok::<GrindingRepairModifier, GrindingPolicyError>(
            GrindingRepairModifier {
                level,
                material_reduction_basis_points: (level * GRINDING_REDUCTION_BPS_PER_LEVEL) as u16,
                repair_time_reduction_basis_points: (level * GRINDING_REDUCTION_BPS_PER_LEVEL) as u16,
                repair_time_bucket_cap_basis_points: REPAIR_TIME_REDUCTION_BUCKET_CAP_BPS,
                money_fee_unchanged: true,
                applies_after_tier_repair_recipe: true,
            },
        ),
        r matches Ok(m) ==> m.material_reduction_basis_points <= GRINDING_MAX_REDUCTION_BPS
            && m.repair_time_reduction_basis_points <= GRINDING_MAX_REDUCTION_BPS,
{
    if !(1 <= level && level <= GRINDING_MAX_LEVEL) {
        return Err(GrindingPolicyError::LevelOutOfRange(level));
    }
    let reduction_basis_points = (level as u16) * GRINDING_REDUCTION_BPS_PER_LEVEL;
    Ok(GrindingRepairModifier {
        level,
        material_reduction_basis_points: reduction_basis_points,
        repair_time_reduction_basis_points: reduction_basis_points,
        repair_time_bucket_cap_basis_points: REPAIR_TIME_REDUCTION_BUCKET_CAP_BPS,
        money_fee_unchanged: true,
        applies_after_tier_repair_recipe: true,
    })
}

} // verus!
