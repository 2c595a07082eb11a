//! Policy kernels of the Graphite equipment, enchanting, Fishing and Mining services, and the
//! decisions they take on locked persistent state.

pub mod action_speed;
pub mod bait_rack;
pub mod embedded_enchant_rows;
pub mod enchant_apply;
pub mod enchant_apply_resolver;
pub mod enchant_appraisal;
pub mod enchant_catalog;
pub mod enchant_combine;
pub mod enchant_combine_base;
pub mod enchant_conflict;
pub mod enchant_placement;
pub mod enchant_remove_recovery;
pub mod enchant_remove_resolver;
pub mod equipment_appraisal;
pub mod equipment_policy;
pub mod equipment_recraft_resolver;
pub mod fishing_aexp;
pub mod fishing_area;
pub mod fishing_area_state;
pub mod fishing_bait;
pub mod fishing_bait_cast;
pub mod fishing_book_pool;
pub mod fishing_capability;
pub mod fishing_capability_routing;
pub mod fishing_cast_preflight;
pub mod fishing_droptable;
pub mod fishing_gold_rod;
pub mod fishing_limits;
pub mod fishing_multi_treasure;
pub mod fishing_multicatch;
pub mod fishing_over_cap;
pub mod fishing_rng;
pub mod fishing_rod_durability;
pub mod fishing_rod_durability_state;
pub mod fishing_rod_level_x;
pub mod fishing_rod_state;
pub mod fishing_species;
pub mod fishing_variant;
pub mod forge;
pub mod grinding;
pub mod master_enchant;
pub mod mending;
pub mod mining_aexp;
pub mod mining_capability;
pub mod mining_depth;
pub mod mining_gold_pickaxe;
pub mod mining_natural_roll;
pub mod mining_nuke_collapse;
pub mod mining_operating_cost;
pub mod mining_pickaxe_durability;
pub mod mining_pickaxe_durability_state;
pub mod mining_pressure;
pub mod mining_special_proc;
pub mod money;
pub mod operation_guard;
pub mod ordinary_forge;
pub mod percentage_fee;
pub mod repair;
pub mod reservation;
pub mod shadow_walker_mutation;
pub mod stored_values;
pub mod text;

pub use action_speed::{
    ActionSpeedBonus, ActionSpeedPolicyError, BASE_REPEATABLE_MANUAL_REWARD_ACTION_COOLDOWN_MILLIS,
    MAX_SHARED_ACTION_SPEED_BONUS_DENOMINATOR, MAX_SHARED_ACTION_SPEED_BONUS_NUMERATOR,
    MIN_MINE_FISH_COOLDOWN_MILLIS, SharedActionSpeedBonusPolicy, cap_shared_action_speed_bonus,
    max_shared_action_speed_bonus,
};
pub use bait_rack::{
    BAIT_RACK_ACTIVE_SLOTS_PER_LEVEL, BAIT_RACK_MAX_LEVEL, BaitRackCapacityPolicy,
    BaitRackPolicyError, MAX_ACTIVE_BAIT_CATEGORY_SLOTS, NATIVE_ACTIVE_BAIT_CATEGORY_SLOTS,
    bait_rack_capacity_policy,
};
pub use enchant_apply::{
    EnchantApplyAction, EnchantApplyError, EnchantApplyPreview, EnchantSlotCapacity,
    EnchantSlotOccupancy, ExistingAppliedEnchant, preview_standard_finished_book_application,
};
pub use enchant_apply_resolver::{
    EquippedArmorEnchantLoadout, EquippedArmorEnchantLoadoutError, EquippedArmorEnchantState,
    OrdinaryEnchantApplyPreflightResolverError, OrdinaryEnchantApplyStateWriterError,
};
pub use enchant_appraisal::{
    CanonicalBookAppraisal, EmbeddedEnchantAppraisalInput, EnchantAppraisalClass,
    EnchantAppraisalError, canonical_book_appraisal, embedded_enchant_value,
};
pub use enchant_catalog::{
    BAIT_RACK_MAX_BOOK_LEVEL, CanonicalEnchant, EnchantAcquisitionSource, EnchantCatalogPolicy,
    NORMAL_SHOP_MAX_BOOK_LEVEL, canonical_enchant_max_resulting_level, enchant_catalog_policy,
};
pub use enchant_combine_base::{
    ENCHANT_COMBINE_ABSOLUTE_SUCCESS_CAP_BPS, ENCHANT_COMBINE_CATALYST_MULTIPLIER_BPS,
    ENCHANT_COMBINE_EXTRA_AEXP_UI_CAP_MULTIPLIER, ENCHANT_COMBINE_MAX_TARGET_LEVEL,
    ENCHANT_COMBINE_MIN_TARGET_LEVEL, ENCHANT_COMBINE_MULTIPLIER_CAP_BPS,
    EnchantCombineBasePolicyError, EnchantCombineFailureConsumption,
    StandardEnchantCombineBasePolicy, standard_enchant_combine_base_policy,
};
pub use enchant_conflict::{
    ArmorEnchant, EnchantConflictDecision, EnchantConflictScope, FishingRodEnchant, PickaxeEnchant,
    SwordEnchant, armor_enchants_conflict, canonical_enchant_conflict_scope,
    canonical_enchants_conflict, fishing_rod_enchants_conflict, pickaxe_enchants_conflict,
    sword_enchants_conflict,
};
pub use enchant_placement::{
    EnchantEquipmentMask, EnchantPlacementPolicy, EnchantSlotFamily, MAX_ENCHANT_SLOTS_PER_FAMILY,
    NORMAL_CLASS_NATIVE_SLOTS, SPECIAL_UNIVERSAL_NATIVE_SLOTS, enchant_placement_policy,
};
pub use enchant_remove_recovery::{
    BlankEnchantBookDisposition, EnchantRecoveryTerminalOutcome, EnchantRemovalMode,
    EnchantRemovalPolicyError, EnchantRemovalTerminalPolicy, RecoveredEnchantBook,
    removal_terminal_policy_after_removability_check,
};
pub use enchant_remove_resolver::{EnchantRemovalStateWriterError, RemovedEmbeddedEnchant};
pub use equipment_appraisal::{
    CanonicalEquipmentAppraisal, CanonicalEquipmentAppraisalError, CreationRoll, CreationRollError,
    UpgradeScaledBaseAppraisal, compose_canonical_equipment_appraisal,
};
pub use equipment_policy::{
    BaseEquipmentAppraisal, BaseEquipmentAppraisalSource, EquipmentAppraisalError,
    EquipmentMaterial, EquipmentSlot, EquipmentTier, base_equipment_appraisal,
};
pub use equipment_recraft_resolver::{
    OrdinaryEquipmentEnhancedAppraisal, OrdinaryEquipmentEnhancedResolverError,
    OrdinaryEquipmentRecraftAppraisal, OrdinaryEquipmentRecraftResolverError,
    ResolvedEmbeddedEnchantAppraisal,
};
pub use fishing_aexp::{
    MANUAL_FISHING_BASE_JUNK_AEXP, MANUAL_FISHING_BASE_MULTI_TREASURE_AEXP_CAP,
    MANUAL_FISHING_BASE_TREASURE_AEXP, ManualFishingAexpError, ManualFishingAexpOutcome,
    manual_fishing_base_outcome_aexp, manual_fishing_base_treasure_cast_aexp,
};
pub use fishing_area::{
    FishingArea, FishingAreaFirstUnlockPolicy, FishingAreaFirstUnlockPreview,
    FishingAreaPolicyError, FishingRodForUnlock, fishing_area_first_unlock_policy,
    preview_first_fishing_area_unlock,
};
pub use fishing_bait::{
    BAIT_UNITS_CONSUMED_PER_ACTIVE_CATEGORY_PER_CAST, FishingBait, FishingBaitCategory,
    FishingBaitEffect, FishingBaitPolicy, FishingBaitRatio, FishingRarity, fishing_bait_policy,
};
pub use fishing_bait_cast::{
    ActiveFishingBaitInventory, FishingBaitCastConsumptionAction, FishingBaitCastConsumptionEntry,
    FishingBaitCastConsumptionError, FishingBaitCastConsumptionPlan,
    plan_fishing_bait_cast_consumption,
};
pub use fishing_book_pool::{
    DirectFishingBookLevelProfile, DirectFishingBookPolicyError, DirectFishingBookPool,
    DirectFishingBookPoolPolicy, direct_fishing_book_pool_membership,
    direct_fishing_book_pool_policy, direct_fishing_mythic_enchant_weight,
    direct_fishing_raw_book_level_weight,
};
pub use fishing_capability::{
    FishingCapabilityClassification, FishingCapabilityError, FishingCapabilityRatio,
    FishingRodBaseStats, FishingTension, FishingTensionRatio,
    NORMAL_ROD_DURABILITY_PER_COMPLETED_CAST_ATTEMPT, fishing_rarity_tension_multiplier,
    fishing_tension, ordinary_fishing_rod_base_stats,
};
pub use fishing_capability_routing::{
    FishingCapabilityResolutionError, FishingCapabilityRoute, FishingCapabilityRoutingPolicy,
    FishingCapabilityTerminalOutcome, FishingOverCapCatchRollResolution,
    FishingOverCapResolutionRequired, FishingResolvedOverCapSequence,
    FishingRoutedFishCapabilityStage, fishing_capability_routing_policy,
    resolve_fishing_over_cap_sequence, resolve_routed_fish_capability_stage,
};
pub use fishing_droptable::{
    FishingCatchBranch, FishingCatchBranchBasePolicy, FishingTreasureResult,
    FishingTreasureResultBasePolicy, fishing_base_catch_branch_policy,
    fishing_base_treasure_result_policy,
};
pub use fishing_gold_rod::{
    FishingRelativeWeightMultiplier, GOLD_ROD_ACTION_SPEED_RATING_PERCENT,
    GOLD_ROD_RARE_OR_BETTER_RELATIVE_WEIGHT_PERCENT, GOLD_ROD_TREASURE_RELATIVE_WEIGHT_PERCENT,
    GoldFishingRodModifierStage, GoldFishingRodPolicyError, GoldFishingRodSideGradePolicy,
    gold_fishing_rod_side_grade_policy,
};
pub use fishing_limits::{MAX_FISH_PER_CAST};
pub use fishing_multi_treasure::{
    MULTI_TREASURE_MAX_ITEMS, MULTI_TREASURE_PROBABILITY_BASIS_POINTS, MultiTreasureLevelXCount,
    MultiTreasureLevelXCountPolicy, multi_treasure_level_x_count_policy,
};
pub use fishing_multicatch::{
    MULTICATCH_PROBABILITY_BASIS_POINTS, MulticatchLevelXCount, MulticatchLevelXCountPolicy,
    multicatch_level_x_count_policy,
};
pub use fishing_over_cap::{
    FishingOverCapError, OVER_CAP_CATCH_CHANCE_MAX_PERCENT, OVER_CAP_CATCH_CHANCE_MIN_PERCENT,
    OverCapCatchChanceBound, OverCapCatchChancePolicy, SHARP_HOOK_MAX_LEVEL,
    SHARP_HOOK_PERCENTAGE_POINTS_PER_LEVEL, preview_over_cap_catch_chance,
};
pub use fishing_rod_durability::{
    FishingRodDurabilityConsequence, FishingRodDurabilityPolicyError, FishingRodDurabilityPreview,
    FishingRodDurabilityResolution, preview_fishing_rod_durability,
};
pub use fishing_rod_level_x::{
    FishingRodLevelXEffect, FishingRodLevelXPolicy, FishingRodLevelXPolicyError,
    TreasureLevelXBranchWeightPreview, fishing_rod_level_x_policy,
    preview_treasure_level_x_branch_weight,
};
pub use fishing_species::{
    CANONICAL_FISH_AREA_ROWS, CANONICAL_FISH_SPECIES_COUNT, FishingAreaSpeciesPolicy,
    FishingSpecies, FishingSpeciesPolicy, RareBaitAreaSpeciesWeightPreview,
    fishing_area_species_pool, fishing_species_policy, preview_rare_bait_area_species_weight,
};
pub use fishing_variant::{
    CANONICAL_FISH_VARIANT_COUNT, FishingVariant, FishingVariantPolicy, FishingVariantRatio,
    fishing_variant_catalog, fishing_variant_policy,
};
pub use forge::{
    AdvancedForgePromotion, AdvancedForgePromotionPolicy, AdvancedForgeStackPolicy,
    AdvancedForgeStackRecipe, ForgeFailurePolicy, ForgePolicyError, ForgePostConfirmCancellation,
    ForgeSuccessChance, advanced_forge_promotion_policy, advanced_forge_stack_policy,
    project_promoted_durability,
};
pub use grinding::{
    GRINDING_MAX_LEVEL, GRINDING_MAX_REDUCTION_BPS, GRINDING_REDUCTION_BPS_PER_LEVEL,
    GrindingPolicyError, GrindingRepairModifier, REPAIR_TIME_REDUCTION_BUCKET_CAP_BPS,
    grinding_repair_modifier,
};
pub use master_enchant::{
    MASTER_II_UPGRADE_AEXP, MASTER_I_PURCHASE_AEXP, MasterAcquisitionSource,
    MasterEnchantPolicyError, MasterEnchantTier, MasterFullRepairChargePlan,
    MasterIIUpgradePreview, MasterIPurchasePolicy, master_i_purchase_policy,
    plan_master_full_repair_charge_use, preview_master_ii_upgrade,
};
pub use mending::{
    MENDING_AUTOMATION_AEXP_PER_DURABILITY, MENDING_MANUAL_AEXP_PER_DURABILITY, MendingContext,
    MendingPolicyError, MendingPreview, preview_mending,
};
pub use ordinary_forge::{
    FreshForgeOutcomePolicy, FreshForgeOutputLocation, FreshOrdinaryForgePolicyError,
    FreshOrdinaryForgePreview, preview_fresh_ordinary_forge,
};
pub use repair::{
    RepairCancelRefund, RepairMaterial, RepairMathError, RepairPreview, RepairSlot, RepairTier,
    preview_full_repair, repair_cancel_refund,
};
pub use reservation::{
    ReservationRole, ServiceJobReservationError, ServiceJobReservationReceipt,
    ServiceJobReservationRequest, StackReservationRequest,
};
pub use shadow_walker_mutation::{
    SHADOW_WALKER_MUTATION_MAX_LEVEL, SHADOW_WALKER_MUTATION_MIN_LEVEL,
    ShadowWalkerMutationBasePolicy, ShadowWalkerMutationFailurePolicy,
    ShadowWalkerMutationPolicyError, shadow_walker_mutation_base_policy,
};
