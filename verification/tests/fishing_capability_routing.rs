use graphite_services::fishing_capability::fishing_capability_ratio;
use graphite_services::fishing_area::FishingArea;
use graphite_services::fishing_capability::FishingCapabilityClassification;
use graphite_services::fishing_capability::FishingCapabilityRatio;
use graphite_services::fishing_capability_routing::FishingCapabilityResolutionError;
use graphite_services::fishing_capability_routing::FishingCapabilityRoute;
use graphite_services::fishing_capability_routing::FishingCapabilityTerminalOutcome;
use graphite_services::fishing_droptable::FishingCatchBranch;
use graphite_services::fishing_capability_routing::FishingOverCapCatchRollResolution;
use graphite_services::fishing_capability_routing::FishingResolvedOverCapSequence;
use graphite_services::fishing_capability_routing::FishingRoutedFishCapabilityStage;
use graphite_services::fishing_capability_routing::fishing_capability_routing_policy;
use graphite_services::fishing_capability_routing::resolve_fishing_over_cap_sequence;
use graphite_services::fishing_capability_routing::resolve_routed_fish_capability_stage;

const AREAS: [FishingArea; 6] = [
    FishingArea::StarterPool,
    FishingArea::River,
    FishingArea::Lake,
    FishingArea::Coast,
    FishingArea::DeepSea,
    FishingArea::Abyss,
];

fn manual_wood_ratio(common_weight_grams: u64) -> FishingCapabilityRatio {
    fishing_capability_ratio(common_weight_grams, 1, 6_000).unwrap()
}

#[test]
fn every_non_fish_branch_bypasses_capability_in_every_area() {
    for area in AREAS {
        for branch in [FishingCatchBranch::Junk, FishingCatchBranch::Treasure] {
            let policy = fishing_capability_routing_policy(area, branch);
            assert_eq!(policy.area(), area);
            assert_eq!(policy.branch(), branch);
            assert_eq!(policy.route(), FishingCapabilityRoute::BypassNonFishBranch);
            assert!(!policy.requires_line_tension_for_capability());
            assert!(!policy.line_break_stage_enabled());
            assert!(!policy.over_cap_escape_stage_enabled());
            assert_eq!(
                policy.guaranteed_capability_outcome(),
                Some(FishingCapabilityTerminalOutcome::Landed)
            );
        }
    }
}

#[test]
fn starter_pool_fish_is_the_only_safe_fish_route() {
    for area in AREAS {
        let policy = fishing_capability_routing_policy(area, FishingCatchBranch::Fish);
        if area == FishingArea::StarterPool {
            assert_eq!(
                policy.route(),
                FishingCapabilityRoute::StarterPoolGuaranteedFishLanding
            );
            assert!(!policy.requires_line_tension_for_capability());
            assert!(!policy.line_break_stage_enabled());
            assert!(!policy.over_cap_escape_stage_enabled());
            assert_eq!(
                policy.guaranteed_capability_outcome(),
                Some(FishingCapabilityTerminalOutcome::Landed)
            );
        } else {
            assert_eq!(
                policy.route(),
                FishingCapabilityRoute::ResolveFishCapability
            );
            assert!(policy.requires_line_tension_for_capability());
            assert!(policy.line_break_stage_enabled());
            assert!(policy.over_cap_escape_stage_enabled());
            assert_eq!(policy.guaranteed_capability_outcome(), None);
        }
    }
}

#[test]
fn within_capability_routed_fish_lands_without_over_cap_resolution() {
    let routing =
        fishing_capability_routing_policy(FishingArea::River, FishingCatchBranch::Fish);
    let stage =
        resolve_routed_fish_capability_stage(routing, manual_wood_ratio(6_000)).unwrap();
    assert_eq!(
        stage,
        FishingRoutedFishCapabilityStage::LandedWithinRodCapability
    );
}

#[test]
fn public_classification_label_cannot_override_exact_ratio() {
    let routing =
        fishing_capability_routing_policy(FishingArea::River, FishingCatchBranch::Fish);

    let mut within = manual_wood_ratio(6_000);
    within.classification = FishingCapabilityClassification::OverRodCapability;
    assert_eq!(
        resolve_routed_fish_capability_stage(routing, within),
        Ok(FishingRoutedFishCapabilityStage::LandedWithinRodCapability)
    );

    let mut over = manual_wood_ratio(6_600);
    over.classification = FishingCapabilityClassification::WithinRodCapability;
    let FishingRoutedFishCapabilityStage::ResolveOverCap(requirement) =
        resolve_routed_fish_capability_stage(routing, over).unwrap()
    else {
        panic!("numeric over-cap ratio was overridden by a mutable classification label");
    };
    assert_eq!(
        requirement.capability_ratio().classification,
        FishingCapabilityClassification::OverRodCapability
    );
    assert_eq!(requirement.capability_ratio().numerator(), over.numerator());
    assert_eq!(
        requirement.capability_ratio().denominator(),
        over.denominator()
    );
}

#[test]
fn over_cap_routed_fish_produces_requirement_bound_to_exact_ratio() {
    let routing =
        fishing_capability_routing_policy(FishingArea::River, FishingCatchBranch::Fish);
    let ratio = manual_wood_ratio(6_600);
    let FishingRoutedFishCapabilityStage::ResolveOverCap(requirement) =
        resolve_routed_fish_capability_stage(routing, ratio).unwrap()
    else {
        panic!("over-cap Fish did not request the ordered over-cap sequence");
    };

    assert_eq!(requirement.capability_ratio(), ratio);
}

#[test]
fn bypass_routes_reject_capability_ratio_resolution() {
    let ratio = manual_wood_ratio(6_000);
    for routing in [
        fishing_capability_routing_policy(FishingArea::River, FishingCatchBranch::Junk),
        fishing_capability_routing_policy(FishingArea::River, FishingCatchBranch::Treasure),
        fishing_capability_routing_policy(FishingArea::StarterPool, FishingCatchBranch::Fish),
    ] {
        assert_eq!(
            resolve_routed_fish_capability_stage(routing, ratio),
            Err(
                FishingCapabilityResolutionError::RouteDoesNotResolveFishCapability(
                    routing.route()
                )
            )
        );
    }
}

#[test]
fn over_cap_sequence_enforces_line_break_before_catch_or_escape() {
    let routing =
        fishing_capability_routing_policy(FishingArea::River, FishingCatchBranch::Fish);
    let FishingRoutedFishCapabilityStage::ResolveOverCap(requirement) =
        resolve_routed_fish_capability_stage(routing, manual_wood_ratio(6_600)).unwrap()
    else {
        panic!("over-cap Fish did not request the ordered over-cap sequence");
    };

    assert_eq!(
        resolve_fishing_over_cap_sequence(
            requirement,
            FishingResolvedOverCapSequence::LineBreak,
        ),
        FishingCapabilityTerminalOutcome::LineBreak
    );
    assert_eq!(
        resolve_fishing_over_cap_sequence(
            requirement,
            FishingResolvedOverCapSequence::LineSurvived(
                FishingOverCapCatchRollResolution::Landed,
            ),
        ),
        FishingCapabilityTerminalOutcome::Landed
    );
    assert_eq!(
        resolve_fishing_over_cap_sequence(
            requirement,
            FishingResolvedOverCapSequence::LineSurvived(
                FishingOverCapCatchRollResolution::Escaped,
            ),
        ),
        FishingCapabilityTerminalOutcome::Escaped
    );
}
