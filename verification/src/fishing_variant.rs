//! Frozen base probabilities and NPC-value multipliers of the fish variants.
use vstd::prelude::*;

verus! {

pub const CANONICAL_FISH_VARIANT_COUNT: usize = 5;

#[derive(Clone, Copy, Debug, PartialEq, Eq, Structural)]
pub enum FishingVariant {
    Normal,
    Silver,
    Golden,
    Albino,
    Iridescent,
}

/// An exact reduced ratio.
#[derive(Clone, Copy, Debug, PartialEq, Eq, Structural)]
pub struct FishingVariantRatio {
    numerator: u16,
    denominator: u16,
}

impl FishingVariantRatio {
    /// The stored numerator.
    pub closed spec fn num(self) -> u16 {
        self.numerator
    }

    /// The stored denominator.
    pub closed spec fn den(self) -> u16 {
        self.denominator
    }

    /// Whether the ratio is stored as exactly `n / d`.
    pub open spec fn is(self, n: u16, d: u16) -> bool {
        self.num() == n && self.den() == d
    }

    pub fn numerator(self) -> (r: u16)
        ensures
            r == self.num(),
    {
        self.numerator
    }

    pub fn denominator(self) -> (r: u16)
        ensures
            r == self.den(),
    {
        self.denominator
    }
}

#[derive(Clone, Copy, Debug, PartialEq, Eq, Structural)]
pub struct FishingVariantPolicy {
    pub variant: FishingVariant,
    pub base_probability: FishingVariantRatio,
    pub value_multiplier: FishingVariantRatio,
}

/// Frozen base probability `(n, d)` and value multiplier `(n, d)` of a variant.
pub open spec fn spec_variant_row(variant: FishingVariant) -> (u16, u16, u16, u16) {
    match variant {
        FishingVariant::Normal => (47, 50, 1, 1),
        FishingVariant::Silver => (3, 100, 5, 4),
        FishingVariant::Golden => (3, 200, 7, 4),
        FishingVariant::Albino => (1, 100, 2, 1),
        FishingVariant::Iridescent => (1, 200, 3, 1),
    }
}

/// Whether a policy row is the frozen row of its variant.
pub open spec fn spec_is_variant_policy(policy: FishingVariantPolicy, variant: FishingVariant) -> bool {
    let row = spec_variant_row(variant);
    &&& policy.variant == variant
    &&& policy.base_probability.is(row.0, row.1)
    &&& policy.value_multiplier.is(row.2, row.3)
}

fn variant_policy(
    variant: FishingVariant,
    probability_numerator: u16,
    probability_denominator: u16,
    value_numerator: u16,
    value_denominator: u16,
) -> (r: FishingVariantPolicy)
    ensures
        r.variant == variant,
        r.base_probability.is(probability_numerator, probability_denominator),
        r.value_multiplier.is(value_numerator, value_denominator),
{
    FishingVariantPolicy {
        variant,
        base_probability: FishingVariantRatio {
            numerator: probability_numerator,
            denominator: probability_denominator,
        },
        value_multiplier: FishingVariantRatio {
            numerator: value_numerator,
            denominator: value_denominator,
        },
    }
}

/// Resolves the frozen base probability and NPC-value multiplier for one fish variant.
pub fn fishing_variant_policy(variant: FishingVariant) -> (r: FishingVariantPolicy)
    ensures
        spec_is_variant_policy(r, variant),
{
    match variant {
        FishingVariant::Normal => variant_policy(FishingVariant::Normal, 47, 50, 1, 1),
        FishingVariant::Silver => variant_policy(FishingVariant::Silver, 3, 100, 5, 4),
        FishingVariant::Golden => variant_policy(FishingVariant::Golden, 3, 200, 7, 4),
        FishingVariant::Albino => variant_policy(FishingVariant::Albino, 1, 100, 2, 1),
        FishingVariant::Iridescent => variant_policy(FishingVariant::Iridescent, 1, 200, 3, 1),
    }
}

/// The variants in specification order.
pub open spec fn spec_variant_order() -> Seq<FishingVariant> {
    seq![
        FishingVariant::Normal,
        FishingVariant::Silver,
        FishingVariant::Golden,
        FishingVariant::Albino,
        FishingVariant::Iridescent,
    ]
}

/// Returns all canonical base fish-variant rows in specification order.
pub fn fishing_variant_catalog() -> (r: [FishingVariantPolicy; 5])
    ensures
        forall|i: int| 0 <= i < 5 ==> spec_is_variant_policy(#[trigger] r@[i], spec_variant_order()[i]),
{
    [
        fishing_variant_policy(FishingVariant::Normal),
        fishing_variant_policy(FishingVariant::Silver),
        fishing_variant_policy(FishingVariant::Golden),
        fishing_variant_policy(FishingVariant::Albino),
        fishing_variant_policy(FishingVariant::Iridescent),
    ]
}

/// A variant's base probability counted in exact units of `1/200`.
pub open spec fn spec_probability_in_200ths(variant: FishingVariant) -> int {
    spec_variant_row(variant).0 * (200int / spec_variant_row(variant).1 as int)
}

/// Every base-probability denominator divides 200, the base probabilities of the catalog sum to
/// exactly one, and the non-Normal variants together have probability exactly `6/100`.
pub proof fn lemma_variant_probabilities_sum_to_one()
    ensures
        forall|v: FishingVariant| 200u16 % (#[trigger] spec_variant_row(v)).1 == 0,
        spec_probability_in_200ths(FishingVariant::Normal) + spec_probability_in_200ths(
            FishingVariant::Silver,
        ) + spec_probability_in_200ths(FishingVariant::Golden) + spec_probability_in_200ths(
            FishingVariant::Albino,
        ) + spec_probability_in_200ths(FishingVariant::Iridescent) == 200,
        spec_probability_in_200ths(FishingVariant::Silver) + spec_probability_in_200ths(
            FishingVariant::Golden,
        ) + spec_probability_in_200ths(FishingVariant::Albino) + spec_probability_in_200ths(
            FishingVariant::Iridescent,
        ) == 12,
{
    assert forall|v: FishingVariant| 200u16 % (#[trigger] spec_variant_row(v)).1 == 0 by {
        match v {
            FishingVariant::Normal => {},
            FishingVariant::Silver => {},
            FishingVariant::Golden => {},
            FishingVariant::Albino => {},
            FishingVariant::Iridescent => {},
        }
    }
    assert(spec_probability_in_200ths(FishingVariant::Normal) == 188);
    assert(spec_probability_in_200ths(FishingVariant::Silver) == 6);
    assert(spec_variant_row(FishingVariant::Golden).1 == 200);
    assert(200int / (spec_variant_row(FishingVariant::Golden).1 as int) == 1);
    assert(spec_probability_in_200ths(FishingVariant::Golden) == 3);
    assert(spec_probability_in_200ths(FishingVariant::Albino) == 2);
    assert(spec_probability_in_200ths(FishingVariant::Iridescent) == 1);
}

} // verus!
