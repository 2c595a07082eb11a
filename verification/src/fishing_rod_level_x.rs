//! Frozen final-Level-X scalar values of Fishing Rod enchants without a dedicated numeric owner.
use vstd::prelude::*;

use crate::action_speed::spec_gcd;
use crate::enchant_conflict::FishingRodEnchant;
use crate::fishing_droptable::{
    fishing_base_catch_branch_policy, spec_branch_weight, FishingCatchBranch,
};

verus! {

#[derive(Clone, Copy, Debug, PartialEq, Eq, Structural)]
pub enum FishingRodLevelXEffect {
    Lure { action_speed_rating_percent: u8, uses_shared_fishing_speed_bucket: bool },
    LuckOfTheSea {
        rare_species_relative_weight_increase_percent: u8,
        junk_relative_weight_decrease_percent: u8,
        resolves_before_fish_instance_creation: bool,
    },
    Treasure {
        treasure_branch_relative_weight_increase_percent: u8,
        affects_internal_treasure_result_weights: bool,
    },
    Luck {
        expected_size_weight_variant_quality_value_increase_percent: u8,
        alters_species_rarity: bool,
        resolves_before_fish_instance_creation: bool,
    },
    Unbreaking { ignore_normal_rod_durability_event_chance_percent: u8 },
}

#[derive(Clone, Copy, Debug, PartialEq, Eq, Structural)]
pub struct FishingRodLevelXPolicy {
    pub enchant: FishingRodEnchant,
    pub effect: FishingRodLevelXEffect,
}

#[derive(Clone, Copy, Debug, PartialEq, Eq, Structural)]
pub struct TreasureLevelXBranchWeightPreview {
    pub branch: FishingCatchBranch,
    pub base_relative_weight: u16,
    pub treasure_level_x_applied: bool,
    relative_weight_multiplier_numerator: u16,
    relative_weight_multiplier_denominator: u16,
    adjusted_relative_weight_numerator: u32,
    adjusted_relative_weight_denominator: u16,
}

impl TreasureLevelXBranchWeightPreview {
    /// The previewed catch branch.
    pub closed spec fn spec_branch(self) -> FishingCatchBranch {
        self.branch
    }

    /// The canonical base relative weight of the branch.
    pub closed spec fn spec_base_relative_weight(self) -> u16 {
        self.base_relative_weight
    }

    /// Whether the Treasure Level X multiplier was applied.
    pub closed spec fn spec_applied(self) -> bool {
        self.treasure_level_x_applied
    }

    /// The reduced multiplier numerator.
    pub closed spec fn multiplier_num(self) -> u16 {
        self.relative_weight_multiplier_numerator
    }

    /// The reduced multiplier denominator.
    pub closed spec fn multiplier_den(self) -> u16 {
        self.relative_weight_multiplier_denominator
    }

    /// The adjusted relative weight numerator.
    pub closed spec fn adjusted_num(self) -> u32 {
        self.adjusted_relative_weight_numerator
    }

    /// The adjusted relative weight denominator.
    pub closed spec fn adjusted_den(self) -> u16 {
        self.adjusted_relative_weight_denominator
    }

    pub fn relative_weight_multiplier_numerator(self) -> (r: u16)
        ensures
            r == self.multiplier_num(),
    {
        self.relative_weight_multiplier_numerator
    }

    pub fn relative_weight_multiplier_denominator(self) -> (r: u16)
        ensures
            r == self.multiplier_den(),
    {
        self.relative_weight_multiplier_denominator
    }

    pub fn adjusted_relative_weight_numerator(self) -> (r: u32)
        ensures
            r == self.adjusted_num(),
    {
        self.adjusted_relative_weight_numerator
    }

    pub fn adjusted_relative_weight_denominator(self) -> (r: u16)
        ensures
            r == self.adjusted_den(),
    {
        self.adjusted_relative_weight_denominator
    }
}

#[derive(Clone, Copy, Debug, PartialEq, Eq, Structural)]
pub enum FishingRodLevelXPolicyError {
    DedicatedPolicy(FishingRodEnchant),
    UnexpectedTreasurePolicy,
    TreasureAffectsInternalResultWeights,
}

/// Whether an enchant has a dedicated numeric policy elsewhere and is refused here.
pub open spec fn spec_has_dedicated_policy(enchant: FishingRodEnchant) -> bool {
    match enchant {
        FishingRodEnchant::Lure
        | FishingRodEnchant::LuckOfTheSea
        | FishingRodEnchant::Treasure
        | FishingRodEnchant::Luck
        | FishingRodEnchant::Unbreaking => false,
        _ => true,
    }
}

/// The frozen Level X effect of an enchant owned by this scalar policy.
pub open spec fn spec_level_x_effect(enchant: FishingRodEnchant) -> FishingRodLevelXEffect {
    match enchant {
        FishingRodEnchant::Lure => FishingRodLevelXEffect::Lure {
            action_speed_rating_percent: 15,
            uses_shared_fishing_speed_bucket: true,
        },
        FishingRodEnchant::LuckOfTheSea => FishingRodLevelXEffect::LuckOfTheSea {
            rare_species_relative_weight_increase_percent: 60,
            junk_relative_weight_decrease_percent: 30,
            resolves_before_fish_instance_creation: true,
        },
        FishingRodEnchant::Treasure => FishingRodLevelXEffect::Treasure {
            treasure_branch_relative_weight_increase_percent: 80,
            affects_internal_treasure_result_weights: false,
        },
        FishingRodEnchant::Luck => FishingRodLevelXEffect::Luck {
            expected_size_weight_variant_quality_value_increase_percent: 20,
            alters_species_rarity: false,
            resolves_before_fish_instance_creation: true,
        },
        _ => FishingRodLevelXEffect::Unbreaking {
            ignore_normal_rod_durability_event_chance_percent: 20,
        },
    }
}

/// Returns the exact final-Level-X scalar policy for Fishing Rod effects that do not yet have a
/// dedicated numeric owner; enchants with a dedicated policy fail closed.
pub fn fishing_rod_level_x_policy(enchant: FishingRodEnchant) -> (r: Result<
    FishingRodLevelXPolicy,
    FishingRodLevelXPolicyError,
>)
    ensures
        spec_has_dedicated_policy(enchant) ==> r == Err::<
            FishingRodLevelXPolicy,
            FishingRodLevelXPolicyError,
        >(FishingRodLevelXPolicyError::DedicatedPolicy(enchant)),
        !spec_has_dedicated_policy(enchant) ==> r == Ok::<
            FishingRodLevelXPolicy,
            FishingRodLevelXPolicyError,
        >(FishingRodLevelXPolicy { enchant, effect: spec_level_x_effect(enchant) }),
{
    let effect = match enchant {
        FishingRodEnchant::Lure => FishingRodLevelXEffect::Lure {
            action_speed_rating_percent: 15,
            uses_shared_fishing_speed_bucket: true,
        },
        FishingRodEnchant::LuckOfTheSea => FishingRodLevelXEffect::LuckOfTheSea {
            rare_species_relative_weight_increase_percent: 60,
            junk_relative_weight_decrease_percent: 30,
            resolves_before_fish_instance_creation: true,
        },
        FishingRodEnchant::Treasure => FishingRodLevelXEffect::Treasure {
            treasure_branch_relative_weight_increase_percent: 80,
            affects_internal_treasure_result_weights: false,
        },
        FishingRodEnchant::Luck => FishingRodLevelXEffect::Luck {
            expected_size_weight_variant_quality_value_increase_percent: 20,
            alters_species_rarity: false,
            resolves_before_fish_instance_creation: true,
        },
        FishingRodEnchant::Unbreaking => FishingRodLevelXEffect::Unbreaking {
            ignore_normal_rod_durability_event_chance_percent: 20,
        },
        FishingRodEnchant::MultiTreasure
        | FishingRodEnchant::Mending
        | FishingRodEnchant::Multicatch
        | FishingRodEnchant::Strengthen
        | FishingRodEnchant::SharpHook
        | FishingRodEnchant::BaitRack => {
            return Err(FishingRodLevelXPolicyError::DedicatedPolicy(enchant));
        },
    };
    Ok(FishingRodLevelXPolicy { enchant, effect })
}

/// The reduced Treasure Level X multiplier applied to a branch: `9/5` on Treasure, `1/1` elsewhere.
pub open spec fn spec_treasure_multiplier(branch: FishingCatchBranch) -> (u16, u16) {
    if branch == FishingCatchBranch::Treasure {
        (9, 5)
    } else {
        (1, 1)
    }
}

/// Applies the frozen Treasure-enchant Level X scalar (`+80%`, the exact `9/5` multiplier) to one
/// canonical catch-branch row; Fish and Junk stay unchanged.
pub fn preview_treasure_level_x_branch_weight(branch: FishingCatchBranch) -> (r: Result<
    TreasureLevelXBranchWeightPreview,
    FishingRodLevelXPolicyError,
>)
    ensures
        r matches Ok(p) && {
            &&& p.spec_branch() == branch
            &&& p.spec_base_relative_weight() == spec_branch_weight(branch)
            &&& p.spec_applied() == (branch == FishingCatchBranch::Treasure)
            &&& p.multiplier_num() == spec_treasure_multiplier(branch).0
            &&& p.multiplier_den() == spec_treasure_multiplier(branch).1
            &&& p.adjusted_num() == spec_branch_weight(branch) * spec_treasure_multiplier(branch).0
            &&& p.adjusted_den() == spec_treasure_multiplier(branch).1
        },
{
    let policy = match fishing_rod_level_x_policy(FishingRodEnchant::Treasure) {
        Ok(policy) => policy,
        Err(e) => {
            return Err(e);
        },
    };
    let (increase_percent, affects_internal) = match policy.effect {
        FishingRodLevelXEffect::Treasure {
            treasure_branch_relative_weight_increase_percent,
            affects_internal_treasure_result_weights,
        } => (treasure_branch_relative_weight_increase_percent, affects_internal_treasure_result_weights),
        _ => {
            return Err(FishingRodLevelXPolicyError::UnexpectedTreasurePolicy);
        },
    };
    if affects_internal {
        return Err(FishingRodLevelXPolicyError::TreasureAffectsInternalResultWeights);
    }
    let base_relative_weight = fishing_base_catch_branch_policy(branch).relative_weight;
    let treasure_level_x_applied = branch == FishingCatchBranch::Treasure;
    let (multiplier_numerator, multiplier_denominator) = if treasure_level_x_applied {
        relative_weight_multiplier_from_increase_percent(increase_percent)
    } else {
        (1, 1)
    };
    assert(base_relative_weight <= 176 && multiplier_numerator <= 9);
    assert(base_relative_weight * multiplier_numerator <= 176 * 9) by (nonlinear_arith)
        requires base_relative_weight <= 176, multiplier_numerator <= 9;
    Ok(TreasureLevelXBranchWeightPreview {
        branch,
        base_relative_weight,
        treasure_level_x_applied,
        relative_weight_multiplier_numerator: multiplier_numerator,
        relative_weight_multiplier_denominator: multiplier_denominator,
        adjusted_relative_weight_numerator: (base_relative_weight as u32) * (
        multiplier_numerator as u32),
        adjusted_relative_weight_denominator: multiplier_denominator,
    })
}

/// The reduced multiplier `(100 + increase) / 100`.
fn relative_weight_multiplier_from_increase_percent(increase_percent: u8) -> (r: (u16, u16))
    ensures
        r.0 == ((100 + increase_percent) as nat) / spec_gcd((100 + increase_percent) as nat, 100),
        r.1 == 100nat / spec_gcd((100 + increase_percent) as nat, 100),
        increase_percent == 80 ==> r == (9u16, 5u16),
{
    let numerator = 100u16 + increase_percent as u16;
    let denominator = 100u16;
    let divisor = gcd_u16(numerator, denominator);
    proof {
        crate::action_speed::lemma_gcd_positive(numerator as nat, 100);
        if increase_percent == 80 {
            assert(spec_gcd(20, 0) == 20);
            assert(spec_gcd(80, 20) == 20);
            assert(spec_gcd(100, 80) == 20);
            assert(spec_gcd(180, 100) == 20);
            assert(divisor == 20);
            assert(numerator / divisor == 9 && denominator / divisor == 5);
        }
    }
    (numerator / divisor, denominator / divisor)
}

fn gcd_u16(left: u16, right: u16) -> (r: u16)
    ensures
        r == spec_gcd(left as nat, right as nat),
{
    let mut l = left;
    let mut rr = right;
    while rr != 0
        invariant
            spec_gcd(l as nat, rr as nat) == spec_gcd(left as nat, right as nat),
        decreases rr,
    {
        let remainder = l % rr;
        l = rr;
        rr = remainder;
    }
    l
}

} // verus!
