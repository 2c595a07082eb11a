//! Mining hardness classes: the capability of each Pickaxe tier and of each resource.
use vstd::prelude::*;

use crate::equipment_policy::EquipmentTier;
use crate::text::str_eq;

verus! {

/// Frozen Mining hardness/capability ladder; a Pickaxe of maximum class `Cx` may mine `C0..=Cx`.
#[derive(Clone, Copy, Debug, PartialEq, Eq, PartialOrd, Ord, Structural)]
pub enum MiningCapabilityClass {
    C0,
    C1,
    C2,
    C3,
    C4,
    C5,
    C6,
}

/// The rank of a capability class on the ladder.
pub open spec fn spec_class_rank(class: MiningCapabilityClass) -> int {
    match class {
        MiningCapabilityClass::C0 => 0,
        MiningCapabilityClass::C1 => 1,
        MiningCapabilityClass::C2 => 2,
        MiningCapabilityClass::C3 => 3,
        MiningCapabilityClass::C4 => 4,
        MiningCapabilityClass::C5 => 5,
        MiningCapabilityClass::C6 => 6,
    }
}

fn class_rank(class: MiningCapabilityClass) -> (r: u8)
    ensures
        r == spec_class_rank(class),
{
    match class {
        MiningCapabilityClass::C0 => 0,
        MiningCapabilityClass::C1 => 1,
        MiningCapabilityClass::C2 => 2,
        MiningCapabilityClass::C3 => 3,
        MiningCapabilityClass::C4 => 4,
        MiningCapabilityClass::C5 => 5,
        MiningCapabilityClass::C6 => 6,
    }
}

#[derive(Clone, Copy, Debug, PartialEq, Eq, Structural)]
pub enum MiningCapabilityError {
    UnsupportedPickaxeTier(EquipmentTier),
    UnknownMiningResource,
}

/// Frozen unmodified Pickaxe roll-count row for one material tier.
#[derive(Clone, Copy, Debug, PartialEq, Eq, Structural)]
pub struct MiningPickaxeBaseRollRange {
    pub min_rolls: u64,
    pub max_rolls: u64,
}

/// The frozen `(min, max)` roll counts of a Pickaxe material tier.
pub open spec fn spec_roll_range(tier: EquipmentTier) -> (u64, u64) {
    match tier {
        EquipmentTier::StarterLeather => (0, 0),
        EquipmentTier::Wood => (1, 5),
        EquipmentTier::Stone => (2, 6),
        EquipmentTier::Copper => (4, 8),
        EquipmentTier::Gold => (12, 18),
        EquipmentTier::Iron => (6, 10),
        EquipmentTier::Diamond => (9, 14),
        EquipmentTier::Obsidian => (12, 18),
        EquipmentTier::Netherite => (15, 22),
        EquipmentTier::Graphite => (18, 26),
    }
}

/// Returns the frozen unmodified Pickaxe roll-count range for a material tier; `StarterLeather`
/// is armor, not a Pickaxe material, and fails closed.
pub fn mining_pickaxe_base_roll_range(tier: EquipmentTier) -> (r: Result<
    MiningPickaxeBaseRollRange,
    MiningCapabilityError,
>)
    ensures
        tier == EquipmentTier::StarterLeather ==> r == Err::<
            MiningPickaxeBaseRollRange,
            MiningCapabilityError,
        >(MiningCapabilityError::UnsupportedPickaxeTier(tier)),
        tier != EquipmentTier::StarterLeather ==> r == Ok::<
            MiningPickaxeBaseRollRange,
            MiningCapabilityError,
        >(
            MiningPickaxeBaseRollRange {
                min_rolls: spec_roll_range(tier).0,
                max_rolls: spec_roll_range(tier).1,
            },
        ),
        r matches Ok(range) ==> 1 <= range.min_rolls <= range.max_rolls,
{
    let (min_rolls, max_rolls) = match tier {
        EquipmentTier::StarterLeather => {
            return Err(MiningCapabilityError::UnsupportedPickaxeTier(tier));
        },
        EquipmentTier::Wood => (1, 5),
        EquipmentTier::Stone => (2, 6),
        EquipmentTier::Copper => (4, 8),
        EquipmentTier::Gold => (12, 18),
        EquipmentTier::Iron => (6, 10),
        EquipmentTier::Diamond => (9, 14),
        EquipmentTier::Obsidian => (12, 18),
        EquipmentTier::Netherite => (15, 22),
        EquipmentTier::Graphite => (18, 26),
    };
    Ok(MiningPickaxeBaseRollRange { min_rolls, max_rolls })
}

/// The frozen maximum resource capability of a Pickaxe material tier.
pub open spec fn spec_pickaxe_max_capability(tier: EquipmentTier) -> MiningCapabilityClass {
    match tier {
        EquipmentTier::Stone | EquipmentTier::Copper => MiningCapabilityClass::C1,
        EquipmentTier::Gold => MiningCapabilityClass::C3,
        EquipmentTier::Iron => MiningCapabilityClass::C4,
        EquipmentTier::Diamond => MiningCapabilityClass::C5,
        EquipmentTier::Obsidian | EquipmentTier::Netherite | EquipmentTier::Graphite => {
            MiningCapabilityClass::C6
        },
        _ => MiningCapabilityClass::C0,
    }
}

/// Returns the frozen maximum resource capability for a Pickaxe material tier.
pub fn mining_pickaxe_max_capability(tier: EquipmentTier) -> (r: Result<
    MiningCapabilityClass,
    MiningCapabilityError,
>)
    ensures
        tier == EquipmentTier::StarterLeather ==> r == Err::<
            MiningCapabilityClass,
            MiningCapabilityError,
        >(MiningCapabilityError::UnsupportedPickaxeTier(tier)),
        tier != EquipmentTier::StarterLeather ==> r == Ok::<
            MiningCapabilityClass,
            MiningCapabilityError,
        >(spec_pickaxe_max_capability(tier)),
{
    match tier {
        EquipmentTier::StarterLeather => Err(MiningCapabilityError::UnsupportedPickaxeTier(tier)),
        EquipmentTier::Wood => Ok(MiningCapabilityClass::C0),
        EquipmentTier::Stone | EquipmentTier::Copper => Ok(MiningCapabilityClass::C1),
        EquipmentTier::Gold => Ok(MiningCapabilityClass::C3),
        EquipmentTier::Iron => Ok(MiningCapabilityClass::C4),
        EquipmentTier::Diamond => Ok(MiningCapabilityClass::C5),
        EquipmentTier::Obsidian | EquipmentTier::Netherite | EquipmentTier::Graphite => Ok(
            MiningCapabilityClass::C6,
        ),
    }
}

/// The frozen capability class of a canonical content-registry key, if the key is mapped.
pub open spec fn spec_resource_capability(key: Seq<char>) -> Option<MiningCapabilityClass> {
    if key == "resource.wood.log"@ || key == "resource.stone"@ || key == "resource.cobblestone"@ || key == "resource.deepslate"@ || key == "resource.netherrack"@ || key == "resource.blackstone"@ {
        Some(MiningCapabilityClass::C0)
    } else if key == "resource.coal"@ || key == "resource.ore.copper"@ || key == "resource.ore.tin"@ || key == "resource.ore.zinc"@ || key == "resource.bauxite"@ {
        Some(MiningCapabilityClass::C1)
    } else if key == "resource.ore.iron"@ || key == "resource.lapis"@ || key == "resource.redstone"@ || key == "resource.ore.lead"@ || key == "resource.ore.silver"@ || key == "resource.ore.nickel"@ || key == "resource.ore.gold"@ || key == "resource.gem.amethyst"@ || key == "resource.gem.jade"@ || key == "resource.quartz.nether"@ {
        Some(MiningCapabilityClass::C2)
    } else if key == "resource.gem.emerald"@ || key == "resource.gem.topaz"@ || key == "resource.gem.ruby"@ || key == "resource.gem.sapphire"@ {
        Some(MiningCapabilityClass::C3)
    } else if key == "resource.gem.diamond"@ || key == "resource.gem.blood_diamond"@ || key == "resource.gem.onyx"@ || key == "resource.ore.cobalt"@ {
        Some(MiningCapabilityClass::C4)
    } else if key == "resource.obsidian"@ || key == "resource.ancient_debris"@ {
        Some(MiningCapabilityClass::C5)
    } else if key == "resource.ore.titanium"@ || key == "resource.ore.tungsten"@ || key == "resource.ore.platinum"@ {
        Some(MiningCapabilityClass::C6)
    } else {
        None
    }
}

/// Classifies one canonical content-registry key under the frozen Mining capability table;
/// unknown keys fail closed.
pub fn mining_resource_capability(content_key: &str) -> (r: Result<
    MiningCapabilityClass,
    MiningCapabilityError,
>)
    ensures
        spec_resource_capability(content_key@) is None ==> r == Err::<
            MiningCapabilityClass,
            MiningCapabilityError,
        >(MiningCapabilityError::UnknownMiningResource),
        spec_resource_capability(content_key@) matches Some(c) ==> r == Ok::<
            MiningCapabilityClass,
            MiningCapabilityError,
        >(c),
{
    if str_eq(content_key, "resource.wood.log") || str_eq(content_key, "resource.stone") || str_eq(content_key, "resource.cobblestone") || str_eq(content_key, "resource.deepslate") || str_eq(content_key, "resource.netherrack") || str_eq(content_key, "resource.blackstone") {
        Ok(MiningCapabilityClass::C0)
    } else if str_eq(content_key, "resource.coal") || str_eq(content_key, "resource.ore.copper") || str_eq(content_key, "resource.ore.tin") || str_eq(content_key, "resource.ore.zinc") || str_eq(content_key, "resource.bauxite") {
        Ok(MiningCapabilityClass::C1)
    } else if str_eq(content_key, "resource.ore.iron") || str_eq(content_key, "resource.lapis") || str_eq(content_key, "resource.redstone") || str_eq(content_key, "resource.ore.lead") || str_eq(content_key, "resource.ore.silver") || str_eq(content_key, "resource.ore.nickel") || str_eq(content_key, "resource.ore.gold") || str_eq(content_key, "resource.gem.amethyst") || str_eq(content_key, "resource.gem.jade") || str_eq(content_key, "resource.quartz.nether") {
        Ok(MiningCapabilityClass::C2)
    } else if str_eq(content_key, "resource.gem.emerald") || str_eq(content_key, "resource.gem.topaz") || str_eq(content_key, "resource.gem.ruby") || str_eq(content_key, "resource.gem.sapphire") {
        Ok(MiningCapabilityClass::C3)
    } else if str_eq(content_key, "resource.gem.diamond") || str_eq(content_key, "resource.gem.blood_diamond") || str_eq(content_key, "resource.gem.onyx") || str_eq(content_key, "resource.ore.cobalt") {
        Ok(MiningCapabilityClass::C4)
    } else if str_eq(content_key, "resource.obsidian") || str_eq(content_key, "resource.ancient_debris") {
        Ok(MiningCapabilityClass::C5)
    } else if str_eq(content_key, "resource.ore.titanium") || str_eq(content_key, "resource.ore.tungsten") || str_eq(content_key, "resource.ore.platinum") {
        Ok(MiningCapabilityClass::C6)
    } else {
        Err(MiningCapabilityError::UnknownMiningResource)
    }
}

/// Applies only the frozen Pickaxe-vs-resource capability comparison: `true` iff the resource's
/// class is no higher than the Pickaxe's maximum class.
pub fn mining_pickaxe_allows_resource(tier: EquipmentTier, content_key: &str) -> (r: Result<
    bool,
    MiningCapabilityError,
>)
    ensures
        tier == EquipmentTier::StarterLeather ==> r == Err::<bool, MiningCapabilityError>(
            MiningCapabilityError::UnsupportedPickaxeTier(tier),
        ),
        tier != EquipmentTier::StarterLeather && spec_resource_capability(content_key@) is None
            ==> r == Err::<bool, MiningCapabilityError>(
            MiningCapabilityError::UnknownMiningResource,
        ),
        tier != EquipmentTier::StarterLeather ==> (spec_resource_capability(content_key@) matches Some(
            c,
        ) ==> r == Ok::<bool, MiningCapabilityError>(
            spec_class_rank(c) <= spec_class_rank(spec_pickaxe_max_capability(tier)),
        )),
{
    let pickaxe_capability = match mining_pickaxe_max_capability(tier) {
        Ok(c) => c,
        Err(e) => {
            return Err(e);
        },
    };
    let resource_capability = match mining_resource_capability(content_key) {
        Ok(c) => c,
        Err(e) => {
            return Err(e);
        },
    };
    Ok(class_rank(resource_capability) <= class_rank(pickaxe_capability))
}

} // verus!
