//! Ordinary equipment tiers, slots, materials and the canonical base appraisal table.
use vstd::prelude::*;

verus! {

pub const SLOT_FACTOR_DENOMINATOR: i128 = 100;
pub const APPRAISAL_ROUNDING_UNIT: i128 = 100;

#[derive(Clone, Copy, Debug, PartialEq, Eq, Structural)]
pub enum EquipmentTier {
    StarterLeather,
    Wood,
    Stone,
    Copper,
    Gold,
    Iron,
    Diamond,
    Obsidian,
    Netherite,
    Graphite,
}

/// Frozen TierAnchor of each tier; Starter Leather has none.
pub open spec fn spec_tier_anchor(tier: EquipmentTier) -> Option<i64> {
    match tier {
        EquipmentTier::StarterLeather => None,
        EquipmentTier::Wood => Some(3_600),
        EquipmentTier::Stone => Some(8_000),
        EquipmentTier::Copper => Some(27_000),
        EquipmentTier::Gold => Some(110_000),
        EquipmentTier::Iron => Some(77_500),
        EquipmentTier::Diamond => Some(270_000),
        EquipmentTier::Obsidian => Some(875_000),
        EquipmentTier::Netherite => Some(2_380_000),
        EquipmentTier::Graphite => Some(8_050_000),
    }
}

/// Frozen full-repair ratio of each tier, in percent; Starter Leather has none.
pub open spec fn spec_repair_ratio_percent(tier: EquipmentTier) -> Option<i128> {
    match tier {
        EquipmentTier::StarterLeather => None,
        EquipmentTier::Wood => Some(10),
        EquipmentTier::Stone => Some(11),
        EquipmentTier::Copper => Some(13),
        EquipmentTier::Gold => Some(25),
        EquipmentTier::Iron => Some(14),
        EquipmentTier::Diamond => Some(16),
        EquipmentTier::Obsidian => Some(18),
        EquipmentTier::Netherite => Some(20),
        EquipmentTier::Graphite => Some(23),
    }
}

/// The crafting material of each tier.
pub open spec fn spec_tier_material(tier: EquipmentTier) -> EquipmentMaterial {
    match tier {
        EquipmentTier::StarterLeather => EquipmentMaterial::Leather,
        EquipmentTier::Wood => EquipmentMaterial::WoodLog,
        EquipmentTier::Stone => EquipmentMaterial::Stone,
        EquipmentTier::Copper => EquipmentMaterial::CopperIngot,
        EquipmentTier::Gold => EquipmentMaterial::GoldIngot,
        EquipmentTier::Iron => EquipmentMaterial::IronIngot,
        EquipmentTier::Diamond => EquipmentMaterial::Diamond,
        EquipmentTier::Obsidian => EquipmentMaterial::Obsidian,
        EquipmentTier::Netherite => EquipmentMaterial::NetheriteScrap,
        EquipmentTier::Graphite => EquipmentMaterial::GraphiteLayer,
    }
}

impl EquipmentTier {
    fn tier_anchor(self) -> (r: Option<i64>)
        ensures
            r == spec_tier_anchor(self),
    {
        match self {
            Self::StarterLeather => None,
            Self::Wood => Some(3_600),
            Self::Stone => Some(8_000),
            Self::Copper => Some(27_000),
            Self::Gold => Some(110_000),
            Self::Iron => Some(77_500),
            Self::Diamond => Some(270_000),
            Self::Obsidian => Some(875_000),
            Self::Netherite => Some(2_380_000),
            Self::Graphite => Some(8_050_000),
        }
    }

    pub fn repair_ratio_percent(self) -> (r: Option<i128>)
        ensures
            r == spec_repair_ratio_percent(self),
    {
        match self {
            Self::StarterLeather => None,
            Self::Wood => Some(10),
            Self::Stone => Some(11),
            Self::Copper => Some(13),
            Self::Gold => Some(25),
            Self::Iron => Some(14),
            Self::Diamond => Some(16),
            Self::Obsidian => Some(18),
            Self::Netherite => Some(20),
            Self::Graphite => Some(23),
        }
    }

    pub fn material(self) -> (r: EquipmentMaterial)
        ensures
            r == spec_tier_material(self),
    {
        match self {
            Self::StarterLeather => EquipmentMaterial::Leather,
            Self::Wood => EquipmentMaterial::WoodLog,
            Self::Stone => EquipmentMaterial::Stone,
            Self::Copper => EquipmentMaterial::CopperIngot,
            Self::Gold => EquipmentMaterial::GoldIngot,
            Self::Iron => EquipmentMaterial::IronIngot,
            Self::Diamond => EquipmentMaterial::Diamond,
            Self::Obsidian => EquipmentMaterial::Obsidian,
            Self::Netherite => EquipmentMaterial::NetheriteScrap,
            Self::Graphite => EquipmentMaterial::GraphiteLayer,
        }
    }
}

#[derive(Clone, Copy, Debug, PartialEq, Eq, Structural)]
pub enum EquipmentSlot {
    Pickaxe,
    Sword,
    FishingRod,
    Helmet,
    Chestplate,
    Leggings,
    Boots,
}

/// Frozen slot factor of each slot, in hundredths.
pub open spec fn spec_slot_factor(slot: EquipmentSlot) -> int {
    match slot {
        EquipmentSlot::Pickaxe | EquipmentSlot::Sword | EquipmentSlot::FishingRod => 100,
        EquipmentSlot::Helmet => 80,
        EquipmentSlot::Chestplate => 135,
        EquipmentSlot::Leggings => 115,
        EquipmentSlot::Boots => 70,
    }
}

/// Frozen number of material units that make up one piece in each slot.
pub open spec fn spec_base_material_units(slot: EquipmentSlot) -> i64 {
    match slot {
        EquipmentSlot::Chestplate => 4,
        EquipmentSlot::Leggings => 3,
        _ => 2,
    }
}

impl EquipmentSlot {
    fn factor_hundredths(self) -> (r: i128)
        ensures
            r == spec_slot_factor(self),
    {
        match self {
            Self::Pickaxe | Self::Sword | Self::FishingRod => 100,
            Self::Helmet => 80,
            Self::Chestplate => 135,
            Self::Leggings => 115,
            Self::Boots => 70,
        }
    }

    pub fn base_material_units(self) -> (r: i64)
        ensures
            r == spec_base_material_units(self),
    {
        match self {
            Self::Pickaxe | Self::Sword | Self::FishingRod | Self::Helmet | Self::Boots => 2,
            Self::Chestplate => 4,
            Self::Leggings => 3,
        }
    }
}

#[derive(Clone, Copy, Debug, PartialEq, Eq, Structural)]
pub enum EquipmentMaterial {
    Leather,
    WoodLog,
    Stone,
    CopperIngot,
    GoldIngot,
    IronIngot,
    Diamond,
    Obsidian,
    NetheriteScrap,
    GraphiteLayer,
}

#[derive(Clone, Copy, Debug, PartialEq, Eq, Structural)]
pub enum BaseEquipmentAppraisalSource {
    StandardTable,
    DefinitionOverride,
}

#[derive(Clone, Copy, Debug, PartialEq, Eq, Structural)]
pub struct BaseEquipmentAppraisal {
    pub tier: EquipmentTier,
    pub slot: EquipmentSlot,
    pub value: i64,
    pub source: BaseEquipmentAppraisalSource,
}

#[derive(Clone, Copy, Debug, PartialEq, Eq, Structural)]
pub enum EquipmentAppraisalError {
    NegativeDefinitionOverride,
    MissingTierAnchor(EquipmentTier),
    ArithmeticOverflow,
}

/// `round100(anchor x factor / 100)`: the nearest multiple of 100, halves rounded up.
pub open spec fn spec_round100_scaled(anchor: int, factor_hundredths: int) -> int {
    ((anchor * factor_hundredths + 5_000) / 10_000) * 100
}

/// The standard-table base appraisal of a tier and slot, when the tier has an anchor.
pub open spec fn spec_standard_base_appraisal(tier: EquipmentTier, slot: EquipmentSlot) -> int {
    spec_round100_scaled(spec_tier_anchor(tier)->Some_0 as int, spec_slot_factor(slot))
}

/// Resolves the canonical base appraisal for one already-resolved equipment definition.
pub fn base_equipment_appraisal(
    tier: EquipmentTier,
    slot: EquipmentSlot,
    definition_override: Option<i64>,
) -> (r: Result<BaseEquipmentAppraisal, EquipmentAppraisalError>)
    ensures
        definition_override matches Some(v) ==> r == (if v < 0 {
            Err(EquipmentAppraisalError::NegativeDefinitionOverride)
        } else {
            Ok(
                BaseEquipmentAppraisal {
                    tier,
                    slot,
                    value: v,
                    source: BaseEquipmentAppraisalSource::DefinitionOverride,
                },
            )
        }),
        definition_override is None ==> r == (if spec_tier_anchor(tier) is None {
            Err(EquipmentAppraisalError::MissingTierAnchor(tier))
        } else {
            Ok(
                BaseEquipmentAppraisal {
                    tier,
                    slot,
                    value: spec_standard_base_appraisal(tier, slot) as i64,
                    source: BaseEquipmentAppraisalSource::StandardTable,
                },
            )
        }),
        r matches Ok(a) ==> a.value >= 0,
{
    if let Some(value) = definition_override {
        if value < 0 {
            return Err(EquipmentAppraisalError::NegativeDefinitionOverride);
        }
        return Ok(
            BaseEquipmentAppraisal {
                tier,
                slot,
                value,
                source: BaseEquipmentAppraisalSource::DefinitionOverride,
            },
        );
    }
    let anchor = match tier.tier_anchor() {
        Some(a) => a,
        None => return Err(EquipmentAppraisalError::MissingTierAnchor(tier)),
    };
    let factor = slot.factor_hundredths();
    assert(0 <= anchor <= 8_050_000);
    assert(anchor * factor <= 8_050_000 * 135) by (nonlinear_arith)
        requires 0 <= anchor <= 8_050_000, 70 <= factor <= 135;
    assert(anchor * factor >= 0) by (nonlinear_arith)
        requires 0 <= anchor, 0 <= factor;
    let scaled_hundredths = anchor as i128 * factor;
    let round100_denominator = SLOT_FACTOR_DENOMINATOR * APPRAISAL_ROUNDING_UNIT;
    let rounded_units = (scaled_hundredths + round100_denominator / 2) / round100_denominator;
    let value = rounded_units * APPRAISAL_ROUNDING_UNIT;
    Ok(
        BaseEquipmentAppraisal {
            tier,
            slot,
            value: value as i64,
            source: BaseEquipmentAppraisalSource::StandardTable,
        },
    )
}

} // verus!
