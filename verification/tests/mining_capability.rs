use graphite_services::equipment_policy::EquipmentTier;
use graphite_services::mining_capability::MiningCapabilityClass;
use graphite_services::mining_capability::MiningCapabilityError;
use graphite_services::mining_capability::MiningPickaxeBaseRollRange;
use graphite_services::mining_capability::mining_pickaxe_allows_resource;
use graphite_services::mining_capability::mining_pickaxe_base_roll_range;
use graphite_services::mining_capability::mining_pickaxe_max_capability;
use graphite_services::mining_capability::mining_resource_capability;

#[test]
fn pickaxe_base_roll_range_matches_every_frozen_material_row() {
    let cases = [
        (EquipmentTier::Wood, (1, 5)),
        (EquipmentTier::Stone, (2, 6)),
        (EquipmentTier::Copper, (4, 8)),
        (EquipmentTier::Gold, (12, 18)),
        (EquipmentTier::Iron, (6, 10)),
        (EquipmentTier::Diamond, (9, 14)),
        (EquipmentTier::Obsidian, (12, 18)),
        (EquipmentTier::Netherite, (15, 22)),
        (EquipmentTier::Graphite, (18, 26)),
    ];

    for (tier, (min_rolls, max_rolls)) in cases {
        assert_eq!(
            mining_pickaxe_base_roll_range(tier),
            Ok(MiningPickaxeBaseRollRange {
                min_rolls,
                max_rolls,
            })
        );
        assert!(min_rolls <= max_rolls);
    }
    assert_eq!(
        mining_pickaxe_base_roll_range(EquipmentTier::StarterLeather),
        Err(MiningCapabilityError::UnsupportedPickaxeTier(
            EquipmentTier::StarterLeather
        ))
    );
}

#[test]
fn pickaxe_max_capability_matches_every_frozen_tier_row() {
    let cases = [
        (EquipmentTier::Wood, MiningCapabilityClass::C0),
        (EquipmentTier::Stone, MiningCapabilityClass::C1),
        (EquipmentTier::Copper, MiningCapabilityClass::C1),
        (EquipmentTier::Gold, MiningCapabilityClass::C3),
        (EquipmentTier::Iron, MiningCapabilityClass::C4),
        (EquipmentTier::Diamond, MiningCapabilityClass::C5),
        (EquipmentTier::Obsidian, MiningCapabilityClass::C6),
        (EquipmentTier::Netherite, MiningCapabilityClass::C6),
        (EquipmentTier::Graphite, MiningCapabilityClass::C6),
    ];

    for (tier, expected) in cases {
        assert_eq!(mining_pickaxe_max_capability(tier), Ok(expected));
    }
    assert_eq!(
        mining_pickaxe_max_capability(EquipmentTier::StarterLeather),
        Err(MiningCapabilityError::UnsupportedPickaxeTier(
            EquipmentTier::StarterLeather
        ))
    );
}

#[test]
fn resource_capability_matches_every_frozen_family() {
    let cases = [
        ("resource.wood.log", MiningCapabilityClass::C0),
        ("resource.stone", MiningCapabilityClass::C0),
        ("resource.cobblestone", MiningCapabilityClass::C0),
        ("resource.deepslate", MiningCapabilityClass::C0),
        ("resource.netherrack", MiningCapabilityClass::C0),
        ("resource.blackstone", MiningCapabilityClass::C0),
        ("resource.coal", MiningCapabilityClass::C1),
        ("resource.ore.copper", MiningCapabilityClass::C1),
        ("resource.ore.tin", MiningCapabilityClass::C1),
        ("resource.ore.zinc", MiningCapabilityClass::C1),
        ("resource.bauxite", MiningCapabilityClass::C1),
        ("resource.ore.iron", MiningCapabilityClass::C2),
        ("resource.lapis", MiningCapabilityClass::C2),
        ("resource.redstone", MiningCapabilityClass::C2),
        ("resource.ore.lead", MiningCapabilityClass::C2),
        ("resource.ore.silver", MiningCapabilityClass::C2),
        ("resource.ore.nickel", MiningCapabilityClass::C2),
        ("resource.ore.gold", MiningCapabilityClass::C2),
        ("resource.gem.amethyst", MiningCapabilityClass::C2),
        ("resource.gem.jade", MiningCapabilityClass::C2),
        ("resource.quartz.nether", MiningCapabilityClass::C2),
        ("resource.gem.emerald", MiningCapabilityClass::C3),
        ("resource.gem.topaz", MiningCapabilityClass::C3),
        ("resource.gem.ruby", MiningCapabilityClass::C3),
        ("resource.gem.sapphire", MiningCapabilityClass::C3),
        ("resource.gem.diamond", MiningCapabilityClass::C4),
        ("resource.gem.blood_diamond", MiningCapabilityClass::C4),
        ("resource.gem.onyx", MiningCapabilityClass::C4),
        ("resource.ore.cobalt", MiningCapabilityClass::C4),
        ("resource.obsidian", MiningCapabilityClass::C5),
        ("resource.ancient_debris", MiningCapabilityClass::C5),
        ("resource.ore.titanium", MiningCapabilityClass::C6),
        ("resource.ore.tungsten", MiningCapabilityClass::C6),
        ("resource.ore.platinum", MiningCapabilityClass::C6),
    ];

    for (content_key, expected) in cases {
        assert_eq!(mining_resource_capability(content_key), Ok(expected));
    }
    assert_eq!(
        mining_resource_capability("resource.future.unfrozen"),
        Err(MiningCapabilityError::UnknownMiningResource)
    );
}

#[test]
fn eligibility_uses_ordered_capability_without_inventing_fallback() {
    assert_eq!(
        mining_pickaxe_allows_resource(EquipmentTier::Gold, "resource.gem.sapphire"),
        Ok(true)
    );
    assert_eq!(
        mining_pickaxe_allows_resource(EquipmentTier::Gold, "resource.gem.diamond"),
        Ok(false)
    );
    assert_eq!(
        mining_pickaxe_allows_resource(EquipmentTier::Wood, "resource.stone"),
        Ok(true)
    );
    assert_eq!(
        mining_pickaxe_allows_resource(EquipmentTier::Wood, "resource.coal"),
        Ok(false)
    );
    assert_eq!(
        mining_pickaxe_allows_resource(EquipmentTier::StarterLeather, "resource.cobblestone"),
        Err(MiningCapabilityError::UnsupportedPickaxeTier(
            EquipmentTier::StarterLeather
        ))
    );
    assert_eq!(
        mining_pickaxe_allows_resource(EquipmentTier::Graphite, "resource.future.unfrozen"),
        Err(MiningCapabilityError::UnknownMiningResource)
    );
}
