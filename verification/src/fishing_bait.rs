//! Normal-Fishing bait catalog: categories, Shop prices, consumption and exact effect factors.
use vstd::prelude::*;

pub use crate::bait_rack::{
    bait_rack_capacity_policy, BaitRackCapacityPolicy, BaitRackPolicyError,
    BAIT_RACK_ACTIVE_SLOTS_PER_LEVEL, BAIT_RACK_MAX_LEVEL, MAX_ACTIVE_BAIT_CATEGORY_SLOTS,
    NATIVE_ACTIVE_BAIT_CATEGORY_SLOTS,
};

verus! {

pub const BAIT_UNITS_CONSUMED_PER_ACTIVE_CATEGORY_PER_CAST: u8 = 1;
pub const MAX_FISH_PER_CAST: u8 = 5;

#[derive(Clone, Copy, Debug, PartialEq, Eq, Structural)]
pub enum FishingBait {
    School,
    Quality,
    Rare,
    Treasure,
    Sturdy,
}

#[derive(Clone, Copy, Debug, PartialEq, Eq, Structural)]
pub enum FishingBaitCategory {
    Quantity,
    Quality,
    SpeciesQuality,
    Treasure,
    Safety,
}

#[derive(Clone, Copy, Debug, PartialEq, Eq, Structural)]
pub enum FishingRarity {
    Common,
    Uncommon,
    Rare,
    Epic,
    Legendary,
    Mythic,
}

#[derive(Clone, Copy, Debug, PartialEq, Eq, Structural)]
pub struct FishingBaitRatio {
    numerator: u16,
    denominator: u16,
}

impl FishingBaitRatio {
    /// The stored numerator.
    pub closed spec fn num(self) -> u16 {
        self.numerator
    }

    /// The stored denominator.
    pub closed spec fn den(self) -> u16 {
        self.denominator
    }

    pub fn numerator(self) -> (r: u16)
        ensures
            r == self.num(),
    {
        self.numerator
    }

    pub fn denominator(self) -> (r: u16)
        ensures
            r == self.den(),
    {
        self.denominator
    }

    /// This ratio is exactly `n / d` as stored.
    pub open spec fn is(self, n: u16, d: u16) -> bool {
        self.num() == n && self.den() == d
    }
}

#[derive(Clone, Copy, Debug, PartialEq, Eq)]
pub enum FishingBaitEffect {
    School {
        requires_fish_result: bool,
        extra_same_area_fish_chance: FishingBaitRatio,
        extra_fish_count: u8,
        non_recursive: bool,
        max_total_fish_per_cast: u8,
    },
    Quality {
        sampled_fish_weight_center_factor: FishingBaitRatio,
        non_normal_variant_relative_weight_factor: FishingBaitRatio,
    },
    Rare {
        affected_species_rarities: [FishingRarity; 4],
        eligible_species_relative_weight_factor: FishingBaitRatio,
    },
    Treasure {
        treasure_branch_relative_weight_factor: FishingBaitRatio,
        junk_branch_relative_weight_factor: FishingBaitRatio,
    },
    Sturdy { line_strength_factor: FishingBaitRatio, final_line_break_chance_factor: FishingBaitRatio },
}

#[derive(Clone, Copy, Debug, PartialEq, Eq)]
pub struct FishingBaitPolicy {
    pub bait: FishingBait,
    pub category: FishingBaitCategory,
    pub shop_price_per_unit: i64,
    pub units_consumed_per_cast: u8,
    pub optional_money_sink: bool,
    pub effects_apply_on_independent_axes_before_shared_caps: bool,
    pub multi_catch_consumes_extra_bait: bool,
    pub multi_treasure_consumes_extra_bait: bool,
    pub effect: FishingBaitEffect,
}

/// Frozen category and Shop price per unit of each bait.
pub open spec fn spec_bait_category_and_price(bait: FishingBait) -> (FishingBaitCategory, i64) {
    match bait {
        FishingBait::School => (FishingBaitCategory::Quantity, 35),
        FishingBait::Quality => (FishingBaitCategory::Quality, 50),
        FishingBait::Rare => (FishingBaitCategory::SpeciesQuality, 75),
        FishingBait::Treasure => (FishingBaitCategory::Treasure, 100),
        FishingBait::Sturdy => (FishingBaitCategory::Safety, 50),
    }
}

/// The frozen effect of each bait, with its exact ratio factors.
pub open spec fn spec_bait_effect(bait: FishingBait, effect: FishingBaitEffect) -> bool {
    match bait {
        FishingBait::School => effect matches FishingBaitEffect::School {
            requires_fish_result,
            extra_same_area_fish_chance,
            extra_fish_count,
            non_recursive,
            max_total_fish_per_cast,
        } && requires_fish_result && extra_same_area_fish_chance.is(2, 25) && extra_fish_count == 1
            && non_recursive && max_total_fish_per_cast == MAX_FISH_PER_CAST,
        FishingBait::Quality => effect matches FishingBaitEffect::Quality {
            sampled_fish_weight_center_factor,
            non_normal_variant_relative_weight_factor,
        } && sampled_fish_weight_center_factor.is(21, 20)
            && non_normal_variant_relative_weight_factor.is(11, 10),
        FishingBait::Rare => effect matches FishingBaitEffect::Rare {
            affected_species_rarities,
            eligible_species_relative_weight_factor,
        } && affected_species_rarities@ == seq![
            FishingRarity::Rare,
            FishingRarity::Epic,
            FishingRarity::Legendary,
            FishingRarity::Mythic,
        ] && eligible_species_relative_weight_factor.is(28, 25),
        FishingBait::Treasure => effect matches FishingBaitEffect::Treasure {
            treasure_branch_relative_weight_factor,
            junk_branch_relative_weight_factor,
        } && treasure_branch_relative_weight_factor.is(23, 20)
            && junk_branch_relative_weight_factor.is(9, 10),
        FishingBait::Sturdy => effect matches FishingBaitEffect::Sturdy {
            line_strength_factor,
            final_line_break_chance_factor,
        } && line_strength_factor.is(11, 10) && final_line_break_chance_factor.is(9, 10),
    }
}

/// Returns the frozen normal-Fishing bait catalog row.
pub fn fishing_bait_policy(bait: FishingBait) -> (r: FishingBaitPolicy)
    ensures
        r.bait == bait,
        (r.category, r.shop_price_per_unit) == spec_bait_category_and_price(bait),
        r.units_consumed_per_cast == BAIT_UNITS_CONSUMED_PER_ACTIVE_CATEGORY_PER_CAST,
        r.optional_money_sink,
        r.effects_apply_on_independent_axes_before_shared_caps,
        !r.multi_catch_consumes_extra_bait,
        !r.multi_treasure_consumes_extra_bait,
        spec_bait_effect(bait, r.effect),
{
    let (category, shop_price_per_unit, effect) = match bait {
        FishingBait::School => (
            FishingBaitCategory::Quantity,
            35,
            FishingBaitEffect::School {
                requires_fish_result: true,
                extra_same_area_fish_chance: ratio(2, 25),
                extra_fish_count: 1,
                non_recursive: true,
                max_total_fish_per_cast: MAX_FISH_PER_CAST,
            },
        ),
        FishingBait::Quality => (
            FishingBaitCategory::Quality,
            50,
            FishingBaitEffect::Quality {
                sampled_fish_weight_center_factor: ratio(21, 20),
                non_normal_variant_relative_weight_factor: ratio(11, 10),
            },
        ),
        FishingBait::Rare => {
            let rarities = [
                FishingRarity::Rare,
                FishingRarity::Epic,
                FishingRarity::Legendary,
                FishingRarity::Mythic,
            ];
            assert(rarities@ =~= seq![
                FishingRarity::Rare,
                FishingRarity::Epic,
                FishingRarity::Legendary,
                FishingRarity::Mythic,
            ]);
            (
                FishingBaitCategory::SpeciesQuality,
                75,
                FishingBaitEffect::Rare {
                    affected_species_rarities: rarities,
                    eligible_species_relative_weight_factor: ratio(28, 25),
                },
            )
        },
        FishingBait::Treasure => (
            FishingBaitCategory::Treasure,
            100,
            FishingBaitEffect::Treasure {
                treasure_branch_relative_weight_factor: ratio(23, 20),
                junk_branch_relative_weight_factor: ratio(9, 10),
            },
        ),
        FishingBait::Sturdy => (
            FishingBaitCategory::Safety,
            50,
            FishingBaitEffect::Sturdy {
                line_strength_factor: ratio(11, 10),
                final_line_break_chance_factor: ratio(9, 10),
            },
        ),
    };
    FishingBaitPolicy {
        bait,
        category,
        shop_price_per_unit,
        units_consumed_per_cast: BAIT_UNITS_CONSUMED_PER_ACTIVE_CATEGORY_PER_CAST,
        optional_money_sink: true,
        effects_apply_on_independent_axes_before_shared_caps: true,
        multi_catch_consumes_extra_bait: false,
        multi_treasure_consumes_extra_bait: false,
        effect,
    }
}

fn ratio(numerator: u16, denominator: u16) -> (r: FishingBaitRatio)
    ensures
        r.is(numerator, denominator),
{
    FishingBaitRatio { numerator, denominator }
}

} // verus!
