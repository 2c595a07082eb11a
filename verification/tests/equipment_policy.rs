use graphite_services::equipment_policy::BaseEquipmentAppraisalSource;
use graphite_services::equipment_policy::EquipmentAppraisalError;
use graphite_services::equipment_policy::EquipmentSlot;
use graphite_services::equipment_policy::EquipmentTier;
use graphite_services::equipment_policy::base_equipment_appraisal;

#[test]
fn standard_table_matches_every_frozen_tier_and_slot_combination() {
    let expected = [
        (
            EquipmentTier::Wood,
            [3_600, 3_600, 3_600, 2_900, 4_900, 4_100, 2_500],
        ),
        (
            EquipmentTier::Stone,
            [8_000, 8_000, 8_000, 6_400, 10_800, 9_200, 5_600],
        ),
        (
            EquipmentTier::Copper,
            [27_000, 27_000, 27_000, 21_600, 36_500, 31_100, 18_900],
        ),
        (
            EquipmentTier::Gold,
            [110_000, 110_000, 110_000, 88_000, 148_500, 126_500, 77_000],
        ),
        (
            EquipmentTier::Iron,
            [77_500, 77_500, 77_500, 62_000, 104_600, 89_100, 54_300],
        ),
        (
            EquipmentTier::Diamond,
            [
                270_000, 270_000, 270_000, 216_000, 364_500, 310_500, 189_000,
            ],
        ),
        (
            EquipmentTier::Obsidian,
            [
                875_000, 875_000, 875_000, 700_000, 1_181_300, 1_006_300, 612_500,
            ],
        ),
        (
            EquipmentTier::Netherite,
            [
                2_380_000, 2_380_000, 2_380_000, 1_904_000, 3_213_000, 2_737_000, 1_666_000,
            ],
        ),
        (
            EquipmentTier::Graphite,
            [
                8_050_000, 8_050_000, 8_050_000, 6_440_000, 10_867_500, 9_257_500, 5_635_000,
            ],
        ),
    ];
    let slots = [
        EquipmentSlot::Pickaxe,
        EquipmentSlot::Sword,
        EquipmentSlot::FishingRod,
        EquipmentSlot::Helmet,
        EquipmentSlot::Chestplate,
        EquipmentSlot::Leggings,
        EquipmentSlot::Boots,
    ];

    for (tier, values) in expected {
        for (slot, expected_value) in slots.into_iter().zip(values) {
            let appraisal = base_equipment_appraisal(tier, slot, None).unwrap();
            assert_eq!(appraisal.value, expected_value, "{tier:?} {slot:?}");
            assert_eq!(
                appraisal.source,
                BaseEquipmentAppraisalSource::StandardTable
            );
            assert_eq!(appraisal.value % 100, 0);
        }
    }
}

#[test]
fn round100_uses_exact_half_up_semantics() {
    assert_eq!(
        base_equipment_appraisal(EquipmentTier::Obsidian, EquipmentSlot::Chestplate, None)
            .unwrap()
            .value,
        1_181_300
    );
    assert_eq!(
        base_equipment_appraisal(EquipmentTier::Obsidian, EquipmentSlot::Leggings, None)
            .unwrap()
            .value,
        1_006_300
    );
    assert_eq!(
        base_equipment_appraisal(EquipmentTier::Iron, EquipmentSlot::Chestplate, None)
            .unwrap()
            .value,
        104_600
    );
}

#[test]
fn definition_override_has_exact_precedence_and_is_not_rounded() {
    let appraisal = base_equipment_appraisal(
        EquipmentTier::Graphite,
        EquipmentSlot::Chestplate,
        Some(123_456),
    )
    .unwrap();
    assert_eq!(appraisal.value, 123_456);
    assert_eq!(
        appraisal.source,
        BaseEquipmentAppraisalSource::DefinitionOverride
    );

    let zero =
        base_equipment_appraisal(EquipmentTier::Wood, EquipmentSlot::Pickaxe, Some(0)).unwrap();
    assert_eq!(zero.value, 0);
    assert_eq!(
        zero.source,
        BaseEquipmentAppraisalSource::DefinitionOverride
    );
}

#[test]
fn starter_leather_requires_definition_override_but_accepts_one() {
    assert_eq!(
        base_equipment_appraisal(EquipmentTier::StarterLeather, EquipmentSlot::Helmet, None,),
        Err(EquipmentAppraisalError::MissingTierAnchor(
            EquipmentTier::StarterLeather
        ))
    );

    let appraisal = base_equipment_appraisal(
        EquipmentTier::StarterLeather,
        EquipmentSlot::Helmet,
        Some(2_750),
    )
    .unwrap();
    assert_eq!(appraisal.value, 2_750);
    assert_eq!(
        appraisal.source,
        BaseEquipmentAppraisalSource::DefinitionOverride
    );
}

#[test]
fn negative_definition_override_is_rejected() {
    assert_eq!(
        base_equipment_appraisal(EquipmentTier::Wood, EquipmentSlot::Pickaxe, Some(-1),),
        Err(EquipmentAppraisalError::NegativeDefinitionOverride)
    );
}
