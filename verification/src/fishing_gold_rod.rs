//! Fixed pre-cap modifiers of the ordinary Gold Fishing Rod side-grade.
use vstd::prelude::*;

use crate::action_speed::{lemma_gcd_divides, lemma_gcd_positive, spec_gcd};
use crate::equipment_policy::EquipmentTier;
use crate::fishing_capability::{
    ordinary_fishing_rod_base_stats_for_definition, FishingCapabilityError,
};

verus! {

pub const GOLD_ROD_ACTION_SPEED_RATING_PERCENT: u8 = 10;
pub const GOLD_ROD_RARE_OR_BETTER_RELATIVE_WEIGHT_PERCENT: u8 = 15;
pub const GOLD_ROD_TREASURE_RELATIVE_WEIGHT_PERCENT: u8 = 15;

#[derive(Clone, Copy, Debug, PartialEq, Eq, Structural)]
pub struct FishingRelativeWeightMultiplier {
    numerator: u16,
    denominator: u16,
}

impl FishingRelativeWeightMultiplier {
    /// The stored numerator.
    pub closed spec fn num(self) -> u16 {
        self.numerator
    }

    /// The stored denominator.
    pub closed spec fn den(self) -> u16 {
        self.denominator
    }

    pub fn numerator(self) -> (r: u16)
        ensures
            r == self.num(),
    {
        self.numerator
    }

    pub fn denominator(self) -> (r: u16)
        ensures
            r == self.den(),
    {
        self.denominator
    }
}

#[derive(Clone, Copy, Debug, PartialEq, Eq, Structural)]
pub enum GoldFishingRodModifierStage {
    BeforeSharedFishingCaps,
}

#[derive(Clone, Copy, Debug, PartialEq, Eq, Structural)]
pub struct GoldFishingRodSideGradePolicy {
    pub action_speed_rating_percent: u8,
    pub rare_or_better_species_relative_weight_multiplier: FishingRelativeWeightMultiplier,
    pub treasure_branch_relative_weight_multiplier: FishingRelativeWeightMultiplier,
    pub modifier_stage: GoldFishingRodModifierStage,
}

#[derive(Clone, Copy, Debug, PartialEq, Eq, Structural)]
pub enum GoldFishingRodPolicyError {
    InvalidOrdinaryRod(FishingCapabilityError),
    NotGoldFishingRod,
}

/// `(100 + p) / 100` in lowest terms.
pub open spec fn spec_relative_multiplier(p: u8) -> (nat, nat) {
    let n = (100 + p) as nat;
    ((n / spec_gcd(n, 100)) as nat, (100nat / spec_gcd(n, 100)) as nat)
}

/// Resolves the fixed pre-cap modifiers of the ordinary Gold Fishing Rod side-grade.
pub fn gold_fishing_rod_side_grade_policy(tier: EquipmentTier, is_ordinary_rod: bool) -> (r: Result<
    GoldFishingRodSideGradePolicy,
    GoldFishingRodPolicyError,
>)
    ensures
        !is_ordinary_rod ==> r == Err::<GoldFishingRodSideGradePolicy, GoldFishingRodPolicyError>(
            GoldFishingRodPolicyError::InvalidOrdinaryRod(
                FishingCapabilityError::NotOrdinaryFishingRod,
            ),
        ),
        is_ordinary_rod && tier == EquipmentTier::StarterLeather ==> r == Err::<
            GoldFishingRodSideGradePolicy,
            GoldFishingRodPolicyError,
        >(
            GoldFishingRodPolicyError::InvalidOrdinaryRod(
                FishingCapabilityError::StarterLeatherIsNotOrdinaryRodTier,
            ),
        ),
        is_ordinary_rod && tier != EquipmentTier::StarterLeather && tier != EquipmentTier::Gold
            ==> r == Err::<GoldFishingRodSideGradePolicy, GoldFishingRodPolicyError>(
            GoldFishingRodPolicyError::NotGoldFishingRod,
        ),
        is_ordinary_rod && tier == EquipmentTier::Gold ==> (r matches Ok(p) && {
            &&& p.action_speed_rating_percent == GOLD_ROD_ACTION_SPEED_RATING_PERCENT
            &&& p.rare_or_better_species_relative_weight_multiplier.num() == 23
            &&& p.rare_or_better_species_relative_weight_multiplier.den() == 20
            &&& p.treasure_branch_relative_weight_multiplier.num() == 23
            &&& p.treasure_branch_relative_weight_multiplier.den() == 20
            &&& p.modifier_stage == GoldFishingRodModifierStage::BeforeSharedFishingCaps
        }),
{
    let base_stats = match ordinary_fishing_rod_base_stats_for_definition(tier, is_ordinary_rod) {
        Ok(s) => s,
        Err(e) => return Err(GoldFishingRodPolicyError::InvalidOrdinaryRod(e)),
    };
    if !base_stats.gold_side_grade {
        return Err(GoldFishingRodPolicyError::NotGoldFishingRod);
    }
    let rare_multiplier = relative_weight_multiplier(
        GOLD_ROD_RARE_OR_BETTER_RELATIVE_WEIGHT_PERCENT,
    );
    let treasure_relative_weight_multiplier = relative_weight_multiplier(
        GOLD_ROD_TREASURE_RELATIVE_WEIGHT_PERCENT,
    );
    proof {
        lemma_fifteen_percent_is_twenty_three_twentieths();
    }
    Ok(
        GoldFishingRodSideGradePolicy {
            action_speed_rating_percent: GOLD_ROD_ACTION_SPEED_RATING_PERCENT,
            rare_or_better_species_relative_weight_multiplier: rare_multiplier,
            treasure_branch_relative_weight_multiplier: treasure_relative_weight_multiplier,
            modifier_stage: GoldFishingRodModifierStage::BeforeSharedFishingCaps,
        },
    )
}

proof fn lemma_fifteen_percent_is_twenty_three_twentieths()
    ensures
        spec_relative_multiplier(15) == (23nat, 20nat),
{
    assert(spec_gcd(5, 0) == 5);
    assert(spec_gcd(10, 5) == 5);
    assert(spec_gcd(15, 10) == 5);
    assert(spec_gcd(100, 15) == 5);
    assert(spec_gcd(115, 100) == 5);
    assert(115nat / 5 == 23);
    assert(100nat / 5 == 20);
}

fn relative_weight_multiplier(relative_increase_percent: u8) -> (r: FishingRelativeWeightMultiplier)
    ensures
        (r.num() as nat, r.den() as nat) == spec_relative_multiplier(relative_increase_percent),
{
    let numerator = 100u16 + relative_increase_percent as u16;
    let denominator = 100u16;
    let divisor = gcd(numerator, denominator);
    proof {
        lemma_gcd_positive(numerator as nat, denominator as nat);
    }
    FishingRelativeWeightMultiplier { numerator: numerator / divisor, denominator: denominator / divisor }
}

fn gcd(left: u16, right: u16) -> (r: u16)
    ensures
        r == spec_gcd(left as nat, right as nat),
{
    let mut l = left;
    let mut rr = right;
    while rr != 0
        invariant
            spec_gcd(l as nat, rr as nat) == spec_gcd(left as nat, right as nat),
        decreases rr,
    {
        let remainder = l % rr;
        l = rr;
        rr = remainder;
    }
    l
}

} // verus!
