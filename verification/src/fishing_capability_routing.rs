//! Routing of a catch candidate into Rod-capability resolution and the ordered over-cap sequence.
use vstd::prelude::*;

use crate::fishing_area::FishingArea;
use crate::fishing_capability::{
    spec_exact_classification, FishingCapabilityClassification, FishingCapabilityRatio,
};
use crate::fishing_droptable::FishingCatchBranch;

verus! {

#[derive(Clone, Copy, Debug, PartialEq, Eq, Structural)]
pub enum FishingCapabilityRoute {
    /// Junk and Treasure branches never enter fish tension/capability resolution.
    BypassNonFishBranch,
    /// Starter Pool fish always land and cannot enter line-break or escape resolution.
    StarterPoolGuaranteedFishLanding,
    /// A non-Starter-Pool fish branch must continue through CatchLoad/Rod capability resolution.
    ResolveFishCapability,
}

impl FishingCapabilityRoute {
    pub fn requires_line_tension_for_capability(self) -> (r: bool)
        ensures
            r == (self == FishingCapabilityRoute::ResolveFishCapability),
    {
        matches!(self, Self::ResolveFishCapability)
    }

    pub fn line_break_stage_enabled(self) -> (r: bool)
        ensures
            r == (self == FishingCapabilityRoute::ResolveFishCapability),
    {
        self.requires_line_tension_for_capability()
    }

    pub fn over_cap_escape_stage_enabled(self) -> (r: bool)
        ensures
            r == (self == FishingCapabilityRoute::ResolveFishCapability),
    {
        self.requires_line_tension_for_capability()
    }
}

#[derive(Clone, Copy, Debug, PartialEq, Eq, Structural)]
pub struct FishingCapabilityRoutingPolicy {
    area: FishingArea,
    branch: FishingCatchBranch,
    route: FishingCapabilityRoute,
}

/// The frozen route of a catch branch in an area.
pub open spec fn spec_route(area: FishingArea, branch: FishingCatchBranch) -> FishingCapabilityRoute {
    if branch != FishingCatchBranch::Fish {
        FishingCapabilityRoute::BypassNonFishBranch
    } else if area == FishingArea::StarterPool {
        FishingCapabilityRoute::StarterPoolGuaranteedFishLanding
    } else {
        FishingCapabilityRoute::ResolveFishCapability
    }
}

impl FishingCapabilityRoutingPolicy {
    /// The routed area.
    pub closed spec fn spec_area(self) -> FishingArea {
        self.area
    }

    /// The routed branch.
    pub closed spec fn spec_branch(self) -> FishingCatchBranch {
        self.branch
    }

    /// The route taken.
    pub closed spec fn spec_route(self) -> FishingCapabilityRoute {
        self.route
    }

    pub fn area(self) -> (r: FishingArea)
        ensures
            r == self.spec_area(),
    {
        self.area
    }

    pub fn branch(self) -> (r: FishingCatchBranch)
        ensures
            r == self.spec_branch(),
    {
        self.branch
    }

    pub fn route(self) -> (r: FishingCapabilityRoute)
        ensures
            r == self.spec_route(),
    {
        self.route
    }

    pub fn requires_line_tension_for_capability(self) -> (r: bool)
        ensures
            r == (self.spec_route() == FishingCapabilityRoute::ResolveFishCapability),
    {
        self.route.requires_line_tension_for_capability()
    }

    pub fn line_break_stage_enabled(self) -> (r: bool)
        ensures
            r == (self.spec_route() == FishingCapabilityRoute::ResolveFishCapability),
    {
        self.route.line_break_stage_enabled()
    }

    pub fn over_cap_escape_stage_enabled(self) -> (r: bool)
        ensures
            r == (self.spec_route() == FishingCapabilityRoute::ResolveFishCapability),
    {
        self.route.over_cap_escape_stage_enabled()
    }

    /// The terminal capability-stage outcome when this route bypasses Rod capability math.
    pub fn guaranteed_capability_outcome(self) -> (r: Option<FishingCapabilityTerminalOutcome>)
        ensures
            r == (if self.spec_route() == FishingCapabilityRoute::ResolveFishCapability {
                None
            } else {
                Some(FishingCapabilityTerminalOutcome::Landed)
            }),
    {
        match self.route {
            FishingCapabilityRoute::BypassNonFishBranch
            | FishingCapabilityRoute::StarterPoolGuaranteedFishLanding => {
                Some(FishingCapabilityTerminalOutcome::Landed)
            },
            FishingCapabilityRoute::ResolveFishCapability => None,
        }
    }
}

#[derive(Clone, Copy, Debug, PartialEq, Eq, Structural)]
pub enum FishingCapabilityTerminalOutcome {
    Landed,
    Escaped,
    LineBreak,
}

#[derive(Clone, Copy, Debug, PartialEq, Eq, Structural)]
pub enum FishingOverCapCatchRollResolution {
    Landed,
    Escaped,
}

/// Already-authoritative RNG evidence for the ordered `R > 1` capability sequence: a catch or
/// escape roll is representable only after line survival.
#[derive(Clone, Copy, Debug, PartialEq, Eq, Structural)]
pub enum FishingResolvedOverCapSequence {
    LineBreak,
    LineSurvived(FishingOverCapCatchRollResolution),
}

/// Evidence that the routed candidate is a non-Starter-Pool Fish with an exact `R > 1` ratio.
#[derive(Clone, Copy, Debug, PartialEq, Eq, Structural)]
pub struct FishingOverCapResolutionRequired {
    capability_ratio: FishingCapabilityRatio,
}

impl FishingOverCapResolutionRequired {
    /// The exact over-cap ratio that owns the later line-break and catch rolls.
    pub closed spec fn spec_ratio(self) -> FishingCapabilityRatio {
        self.capability_ratio
    }

    pub fn capability_ratio(self) -> (r: FishingCapabilityRatio)
        ensures
            r == self.spec_ratio(),
    {
        self.capability_ratio
    }
}

#[derive(Clone, Copy, Debug, PartialEq, Eq, Structural)]
pub enum FishingRoutedFishCapabilityStage {
    LandedWithinRodCapability,
    ResolveOverCap(FishingOverCapResolutionRequired),
}

#[derive(Clone, Copy, Debug, PartialEq, Eq, Structural)]
pub enum FishingCapabilityResolutionError {
    RouteDoesNotResolveFishCapability(FishingCapabilityRoute),
}

/// Resolves the frozen routing boundary before Rod-capability math.
pub fn fishing_capability_routing_policy(area: FishingArea, branch: FishingCatchBranch) -> (r:
    FishingCapabilityRoutingPolicy)
    ensures
        r.spec_area() == area,
        r.spec_branch() == branch,
        r.spec_route() == spec_route(area, branch),
{
    let route = match branch {
        FishingCatchBranch::Junk | FishingCatchBranch::Treasure => {
            FishingCapabilityRoute::BypassNonFishBranch
        },
        FishingCatchBranch::Fish => {
            if matches!(area, FishingArea::StarterPool) {
                FishingCapabilityRoute::StarterPoolGuaranteedFishLanding
            } else {
                FishingCapabilityRoute::ResolveFishCapability
            }
        },
    };
    FishingCapabilityRoutingPolicy { area, branch, route }
}

/// Advances a routed non-Starter-Pool Fish through the exact `R <= 1` / `R > 1` boundary. The
/// stage follows the exact ratio, never its classification label; the over-cap evidence carries
/// the same ratio relabelled as over capability.
pub fn resolve_routed_fish_capability_stage(
    routing: FishingCapabilityRoutingPolicy,
    capability_ratio: FishingCapabilityRatio,
) -> (r: Result<FishingRoutedFishCapabilityStage, FishingCapabilityResolutionError>)
    ensures
        routing.spec_route() != FishingCapabilityRoute::ResolveFishCapability ==> r == Err::<
            FishingRoutedFishCapabilityStage,
            FishingCapabilityResolutionError,
        >(FishingCapabilityResolutionError::RouteDoesNotResolveFishCapability(routing.spec_route())),
        routing.spec_route() == FishingCapabilityRoute::ResolveFishCapability ==> (r matches Ok(
            stage,
        ) && if capability_ratio.num() <= capability_ratio.den() {
            stage == FishingRoutedFishCapabilityStage::LandedWithinRodCapability
        } else {
            stage matches FishingRoutedFishCapabilityStage::ResolveOverCap(req) && {
                &&& req.spec_ratio().num() == capability_ratio.num()
                &&& req.spec_ratio().den() == capability_ratio.den()
                &&& req.spec_ratio().spec_classification()
                    == FishingCapabilityClassification::OverRodCapability
            }
        }),
{
    if routing.route() != FishingCapabilityRoute::ResolveFishCapability {
        return Err(
            FishingCapabilityResolutionError::RouteDoesNotResolveFishCapability(routing.route()),
        );
    }
    let exact_classification = if capability_ratio.numerator() <= capability_ratio.denominator() {
        FishingCapabilityClassification::WithinRodCapability
    } else {
        FishingCapabilityClassification::OverRodCapability
    };
    let capability_ratio = capability_ratio.with_classification(exact_classification);
    Ok(
        match exact_classification {
            FishingCapabilityClassification::WithinRodCapability => {
                FishingRoutedFishCapabilityStage::LandedWithinRodCapability
            },
            FishingCapabilityClassification::OverRodCapability => {
                FishingRoutedFishCapabilityStage::ResolveOverCap(
                    FishingOverCapResolutionRequired { capability_ratio },
                )
            },
        },
    )
}

/// Resolves already-authoritative RNG results for a routed `R > 1` Fish candidate.
pub fn resolve_fishing_over_cap_sequence(
    _requirement: FishingOverCapResolutionRequired,
    resolution: FishingResolvedOverCapSequence,
) -> (r: FishingCapabilityTerminalOutcome)
    ensures
        r == match resolution {
            FishingResolvedOverCapSequence::LineBreak => FishingCapabilityTerminalOutcome::LineBreak,
            FishingResolvedOverCapSequence::LineSurvived(
                FishingOverCapCatchRollResolution::Landed,
            ) => FishingCapabilityTerminalOutcome::Landed,
            FishingResolvedOverCapSequence::LineSurvived(
                FishingOverCapCatchRollResolution::Escaped,
            ) => FishingCapabilityTerminalOutcome::Escaped,
        },
{
    match resolution {
        FishingResolvedOverCapSequence::LineBreak => FishingCapabilityTerminalOutcome::LineBreak,
        FishingResolvedOverCapSequence::LineSurvived(FishingOverCapCatchRollResolution::Landed) => {
            FishingCapabilityTerminalOutcome::Landed
        },
        FishingResolvedOverCapSequence::LineSurvived(FishingOverCapCatchRollResolution::Escaped) => {
            FishingCapabilityTerminalOutcome::Escaped
        },
    }
}

/// Only a Fish outside the Starter Pool ever reaches line tension; every other route lands.
pub proof fn lemma_only_deep_fish_need_capability(area: FishingArea, branch: FishingCatchBranch)
    ensures
        (spec_route(area, branch) == FishingCapabilityRoute::ResolveFishCapability) <==> (branch
            == FishingCatchBranch::Fish && area != FishingArea::StarterPool),
{
}

} // verus!
