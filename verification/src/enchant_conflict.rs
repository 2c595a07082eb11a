//! Frozen enchant conflict rules and their per-equipment facades.
use vstd::prelude::*;

use crate::enchant_catalog::CanonicalEnchant;

verus! {

use CanonicalEnchant as E;

#[derive(Clone, Copy, Debug, PartialEq, Eq, Structural)]
pub enum PickaxeEnchant {
    Efficiency,
    Fortune,
    Treasure,
    Unbreaking,
    Mending,
    Trench,
    Nuke,
    Smelt,
}

impl PickaxeEnchant {
    pub open spec fn spec_canonical(self) -> CanonicalEnchant {
        match self {
            Self::Efficiency => E::Efficiency,
            Self::Fortune => E::Fortune,
            Self::Treasure => E::PickaxeTreasure,
            Self::Unbreaking => E::Unbreaking,
            Self::Mending => E::Mending,
            Self::Trench => E::Trench,
            Self::Nuke => E::Nuke,
            Self::Smelt => E::Smelt,
        }
    }

    fn canonical(self) -> (r: CanonicalEnchant)
        ensures
            r == self.spec_canonical(),
    {
        match self {
            Self::Efficiency => E::Efficiency,
            Self::Fortune => E::Fortune,
            Self::Treasure => E::PickaxeTreasure,
            Self::Unbreaking => E::Unbreaking,
            Self::Mending => E::Mending,
            Self::Trench => E::Trench,
            Self::Nuke => E::Nuke,
            Self::Smelt => E::Smelt,
        }
    }
}

#[derive(Clone, Copy, Debug, PartialEq, Eq, Structural)]
pub enum FishingRodEnchant {
    Lure,
    LuckOfTheSea,
    Treasure,
    MultiTreasure,
    Luck,
    Unbreaking,
    Mending,
    Multicatch,
    Strengthen,
    SharpHook,
    BaitRack,
}

impl FishingRodEnchant {
    pub open spec fn spec_canonical(self) -> CanonicalEnchant {
        match self {
            Self::Lure => E::Lure,
            Self::LuckOfTheSea => E::LuckOfTheSea,
            Self::Treasure => E::FishingRodTreasure,
            Self::MultiTreasure => E::MultiTreasure,
            Self::Luck => E::Luck,
            Self::Unbreaking => E::Unbreaking,
            Self::Mending => E::Mending,
            Self::Multicatch => E::Multicatch,
            Self::Strengthen => E::Strengthen,
            Self::SharpHook => E::SharpHook,
            Self::BaitRack => E::BaitRack,
        }
    }

    fn canonical(self) -> (r: CanonicalEnchant)
        ensures
            r == self.spec_canonical(),
    {
        match self {
            Self::Lure => E::Lure,
            Self::LuckOfTheSea => E::LuckOfTheSea,
            Self::Treasure => E::FishingRodTreasure,
            Self::MultiTreasure => E::MultiTreasure,
            Self::Luck => E::Luck,
            Self::Unbreaking => E::Unbreaking,
            Self::Mending => E::Mending,
            Self::Multicatch => E::Multicatch,
            Self::Strengthen => E::Strengthen,
            Self::SharpHook => E::SharpHook,
            Self::BaitRack => E::BaitRack,
        }
    }
}

#[derive(Clone, Copy, Debug, PartialEq, Eq, Structural)]
pub enum SwordEnchant {
    Sharpness,
    Smite,
    BaneOfArthropods,
    SweepingEdge,
    FireAspect,
    Unbreaking,
    Mending,
    Looting,
    Knockback,
    Devour,
    Execution,
    Bleeding,
    BloodFrenzy,
    ArmorPiercing,
    Piercing,
    Freezing,
    Annihilation,
}

impl SwordEnchant {
    pub open spec fn spec_canonical(self) -> CanonicalEnchant {
        match self {
            Self::Sharpness => E::Sharpness,
            Self::Smite => E::Smite,
            Self::BaneOfArthropods => E::BaneOfArthropods,
            Self::SweepingEdge => E::SweepingEdge,
            Self::FireAspect => E::FireAspect,
            Self::Unbreaking => E::Unbreaking,
            Self::Mending => E::Mending,
            Self::Looting => E::Looting,
            Self::Knockback => E::Knockback,
            Self::Devour => E::Devour,
            Self::Execution => E::Execution,
            Self::Bleeding => E::Bleeding,
            Self::BloodFrenzy => E::BloodFrenzy,
            Self::ArmorPiercing => E::ArmorPiercing,
            Self::Piercing => E::Piercing,
            Self::Freezing => E::Freezing,
            Self::Annihilation => E::Annihilation,
        }
    }

    fn canonical(self) -> (r: CanonicalEnchant)
        ensures
            r == self.spec_canonical(),
    {
        match self {
            Self::Sharpness => E::Sharpness,
            Self::Smite => E::Smite,
            Self::BaneOfArthropods => E::BaneOfArthropods,
            Self::SweepingEdge => E::SweepingEdge,
            Self::FireAspect => E::FireAspect,
            Self::Unbreaking => E::Unbreaking,
            Self::Mending => E::Mending,
            Self::Looting => E::Looting,
            Self::Knockback => E::Knockback,
            Self::Devour => E::Devour,
            Self::Execution => E::Execution,
            Self::Bleeding => E::Bleeding,
            Self::BloodFrenzy => E::BloodFrenzy,
            Self::ArmorPiercing => E::ArmorPiercing,
            Self::Piercing => E::Piercing,
            Self::Freezing => E::Freezing,
            Self::Annihilation => E::Annihilation,
        }
    }
}

#[derive(Clone, Copy, Debug, PartialEq, Eq, Structural)]
pub enum ArmorEnchant {
    Protection,
    Unbreaking,
    Thorn,
    Mending,
    NineLife,
    Cat,
    Dog,
    Dodge,
    Guardian,
    ShadowWalker,
    NightWalker,
    DayWalker,
    Angel,
    Evil,
    Reinforce,
    Phoenix,
    SoulGrind,
}

impl ArmorEnchant {
    pub open spec fn spec_canonical(self) -> CanonicalEnchant {
        match self {
            Self::Protection => E::Protection,
            Self::Unbreaking => E::Unbreaking,
            Self::Thorn => E::Thorn,
            Self::Mending => E::Mending,
            Self::NineLife => E::NineLife,
            Self::Cat => E::Cat,
            Self::Dog => E::Dog,
            Self::Dodge => E::Dodge,
            Self::Guardian => E::Guardian,
            Self::ShadowWalker => E::ShadowWalker,
            Self::NightWalker => E::NightWalker,
            Self::DayWalker => E::DayWalker,
            Self::Angel => E::Angel,
            Self::Evil => E::Evil,
            Self::Reinforce => E::Reinforce,
            Self::Phoenix => E::Phoenix,
            Self::SoulGrind => E::SoulGrind,
        }
    }

    fn canonical(self) -> (r: CanonicalEnchant)
        ensures
            r == self.spec_canonical(),
    {
        match self {
            Self::Protection => E::Protection,
            Self::Unbreaking => E::Unbreaking,
            Self::Thorn => E::Thorn,
            Self::Mending => E::Mending,
            Self::NineLife => E::NineLife,
            Self::Cat => E::Cat,
            Self::Dog => E::Dog,
            Self::Dodge => E::Dodge,
            Self::Guardian => E::Guardian,
            Self::ShadowWalker => E::ShadowWalker,
            Self::NightWalker => E::NightWalker,
            Self::DayWalker => E::DayWalker,
            Self::Angel => E::Angel,
            Self::Evil => E::Evil,
            Self::Reinforce => E::Reinforce,
            Self::Phoenix => E::Phoenix,
            Self::SoulGrind => E::SoulGrind,
        }
    }
}

#[derive(Clone, Copy, Debug, PartialEq, Eq, Structural)]
pub enum EnchantConflictDecision {
    Compatible,
    Forbidden,
}

impl EnchantConflictDecision {
    pub fn is_forbidden(self) -> (r: bool)
        ensures
            r == (self == EnchantConflictDecision::Forbidden),
    {
        matches!(self, Self::Forbidden)
    }
}

#[derive(Clone, Copy, Debug, PartialEq, Eq, Structural)]
pub enum EnchantConflictScope {
    SameItem,
    EquippedArmorLoadout,
}

/// `value` is one of the three identities of a family.
pub open spec fn spec_one_of_three(
    value: CanonicalEnchant,
    first: CanonicalEnchant,
    second: CanonicalEnchant,
    third: CanonicalEnchant,
) -> bool {
    value == first || value == second || value == third
}

/// Two different identities that both belong to the same three-member family.
pub open spec fn spec_same_distinct_family(
    left: CanonicalEnchant,
    right: CanonicalEnchant,
    first: CanonicalEnchant,
    second: CanonicalEnchant,
    third: CanonicalEnchant,
) -> bool {
    left != right && spec_one_of_three(left, first, second, third) && spec_one_of_three(
        right,
        first,
        second,
        third,
    )
}

/// The explicitly listed same-item pairs (in either order).
pub open spec fn spec_listed_same_item_pair(left: CanonicalEnchant, right: CanonicalEnchant) -> bool {
    let pair = |a: CanonicalEnchant, b: CanonicalEnchant|
        (left == a && right == b) || (left == b && right == a);
    pair(E::Trench, E::Nuke) || pair(E::Cat, E::Dog) || pair(E::Angel, E::Evil) || pair(
        E::Thorn,
        E::Reinforce,
    ) || pair(E::SweepingEdge, E::Piercing) || pair(E::SweepingEdge, E::ArmorPiercing)
}

/// The frozen conflict scope of two canonical enchant identities.
pub open spec fn spec_conflict_scope(left: CanonicalEnchant, right: CanonicalEnchant) -> Option<
    EnchantConflictScope,
> {
    if left == right {
        None
    } else if spec_same_distinct_family(left, right, E::Guardian, E::NineLife, E::Phoenix) {
        Some(EnchantConflictScope::EquippedArmorLoadout)
    } else if spec_listed_same_item_pair(left, right) || spec_same_distinct_family(
        left,
        right,
        E::Sharpness,
        E::Smite,
        E::BaneOfArthropods,
    ) || spec_same_distinct_family(left, right, E::FireAspect, E::Freezing, E::Bleeding)
        || spec_same_distinct_family(left, right, E::Annihilation, E::BloodFrenzy, E::Execution) {
        Some(EnchantConflictScope::SameItem)
    } else {
        None
    }
}

/// The pair decision: forbidden exactly when some conflict scope exists.
pub open spec fn spec_conflict_decision(left: CanonicalEnchant, right: CanonicalEnchant) -> EnchantConflictDecision {
    if spec_conflict_scope(left, right) is Some {
        EnchantConflictDecision::Forbidden
    } else {
        EnchantConflictDecision::Compatible
    }
}

/// Returns the frozen conflict scope for two canonical enchant identities.
pub fn canonical_enchant_conflict_scope(left: CanonicalEnchant, right: CanonicalEnchant) -> (r:
    Option<EnchantConflictScope>)
    ensures
        r == spec_conflict_scope(left, right),
{
    if left == right {
        return None;
    }
    if same_distinct_canonical_family(left, right, E::Guardian, E::NineLife, E::Phoenix) {
        return Some(EnchantConflictScope::EquippedArmorLoadout);
    }
    let listed = matches!(
        (left, right),
        (E::Trench, E::Nuke) | (E::Nuke, E::Trench) | (E::Cat, E::Dog) | (E::Dog, E::Cat) | (
            E::Angel,
            E::Evil,
        ) | (E::Evil, E::Angel) | (E::Thorn, E::Reinforce) | (E::Reinforce, E::Thorn) | (
            E::SweepingEdge,
            E::Piercing,
        ) | (E::Piercing, E::SweepingEdge) | (E::SweepingEdge, E::ArmorPiercing) | (
            E::ArmorPiercing,
            E::SweepingEdge,
        )
    );
    if listed || same_distinct_canonical_family(
        left,
        right,
        E::Sharpness,
        E::Smite,
        E::BaneOfArthropods,
    ) || same_distinct_canonical_family(left, right, E::FireAspect, E::Freezing, E::Bleeding)
        || same_distinct_canonical_family(left, right, E::Annihilation, E::BloodFrenzy, E::Execution) {
        Some(EnchantConflictScope::SameItem)
    } else {
        None
    }
}

/// Returns the canonical pair decision.
pub fn canonical_enchants_conflict(left: CanonicalEnchant, right: CanonicalEnchant) -> (r:
    EnchantConflictDecision)
    ensures
        r == spec_conflict_decision(left, right),
{
    match canonical_enchant_conflict_scope(left, right) {
        Some(_) => EnchantConflictDecision::Forbidden,
        None => EnchantConflictDecision::Compatible,
    }
}

fn same_distinct_canonical_family(
    left: CanonicalEnchant,
    right: CanonicalEnchant,
    first: CanonicalEnchant,
    second: CanonicalEnchant,
    third: CanonicalEnchant,
) -> (r: bool)
    ensures
        r == spec_same_distinct_family(left, right, first, second, third),
{
    if left == right {
        return false;
    }
    canonical_is_one_of_three(left, first, second, third) && canonical_is_one_of_three(
        right,
        first,
        second,
        third,
    )
}

fn canonical_is_one_of_three(
    value: CanonicalEnchant,
    first: CanonicalEnchant,
    second: CanonicalEnchant,
    third: CanonicalEnchant,
) -> (r: bool)
    ensures
        r == spec_one_of_three(value, first, second, third),
{
    value == first || value == second || value == third
}

/// Returns the frozen same-Pickaxe conflict decision.
pub fn pickaxe_enchants_conflict(left: PickaxeEnchant, right: PickaxeEnchant) -> (r:
    EnchantConflictDecision)
    ensures
        r == spec_conflict_decision(left.spec_canonical(), right.spec_canonical()),
{
    canonical_enchants_conflict(left.canonical(), right.canonical())
}

/// Returns the frozen same-Fishing-Rod conflict decision.
pub fn fishing_rod_enchants_conflict(left: FishingRodEnchant, right: FishingRodEnchant) -> (r:
    EnchantConflictDecision)
    ensures
        r == spec_conflict_decision(left.spec_canonical(), right.spec_canonical()),
        r == EnchantConflictDecision::Compatible,
{
    canonical_enchants_conflict(left.canonical(), right.canonical())
}

/// Returns the frozen same-Sword conflict decision.
pub fn sword_enchants_conflict(left: SwordEnchant, right: SwordEnchant) -> (r:
    EnchantConflictDecision)
    ensures
        r == spec_conflict_decision(left.spec_canonical(), right.spec_canonical()),
{
    canonical_enchants_conflict(left.canonical(), right.canonical())
}

/// Returns the frozen Armor pair decision for two normal/class armor enchants.
pub fn armor_enchants_conflict(left: ArmorEnchant, right: ArmorEnchant) -> (r:
    EnchantConflictDecision)
    ensures
        r == spec_conflict_decision(left.spec_canonical(), right.spec_canonical()),
{
    canonical_enchants_conflict(left.canonical(), right.canonical())
}

/// Conflict classification does not depend on the order of the pair, and no identity conflicts
/// with itself.
pub proof fn lemma_conflict_scope_symmetric_and_irreflexive(a: CanonicalEnchant, b: CanonicalEnchant)
    ensures
        spec_conflict_scope(a, b) == spec_conflict_scope(b, a),
        spec_conflict_scope(a, a) is None,
        spec_conflict_decision(a, b) == spec_conflict_decision(b, a),
        spec_conflict_decision(a, a) == EnchantConflictDecision::Compatible,
{
}

/// Each typed facade agrees with the canonical policy, so Pickaxe's only forbidden pair is
/// Trench/Nuke.
pub proof fn lemma_pickaxe_conflicts_are_exactly_trench_nuke(a: PickaxeEnchant, b: PickaxeEnchant)
    ensures
        spec_conflict_decision(a.spec_canonical(), b.spec_canonical())
            == EnchantConflictDecision::Forbidden <==> ((a == PickaxeEnchant::Trench && b
            == PickaxeEnchant::Nuke) || (a == PickaxeEnchant::Nuke && b == PickaxeEnchant::Trench)),
{
}

/// The frozen conflict pairs. Two different survival-core enchants (Guardian, Nine Life, Phoenix)
/// conflict across the equipped armor loadout; these unordered pairs conflict on one item:
/// Trench/Nuke, Cat/Dog, Angel/Evil, Thorn/Reinforce, Sweeping Edge with Piercing or Armor
/// Piercing, and any two of Sharpness/Smite/Bane of Arthropods, of Fire Aspect/Freezing/Bleeding
/// and of Annihilation/Blood Frenzy/Execution; every other pair is compatible.
pub proof fn lemma_conflict_pairs(a: CanonicalEnchant, b: CanonicalEnchant)
    ensures
        spec_conflict_scope(a, b) == Some(EnchantConflictScope::EquippedArmorLoadout) <==> (a != b
            && (a == E::Guardian || a == E::NineLife || a == E::Phoenix) && (b == E::Guardian || b
            == E::NineLife || b == E::Phoenix)),
        spec_conflict_scope(a, b) == Some(EnchantConflictScope::SameItem) <==> ((a == E::Trench && b == E::Nuke) || (a == E::Nuke && b == E::Trench) || (a == E::Cat && b == E::Dog) || (a == E::Dog && b == E::Cat) || (a == E::Angel && b == E::Evil) || (a == E::Evil && b == E::Angel) || (a == E::Thorn && b == E::Reinforce) || (a == E::Reinforce && b == E::Thorn) || (a == E::SweepingEdge && b == E::Piercing) || (a == E::Piercing && b == E::SweepingEdge) || (a == E::SweepingEdge && b == E::ArmorPiercing) || (a == E::ArmorPiercing && b == E::SweepingEdge) || (a == E::Sharpness && b == E::Smite) || (a == E::Smite && b == E::Sharpness) || (a == E::Sharpness && b == E::BaneOfArthropods) || (a == E::BaneOfArthropods && b == E::Sharpness) || (a == E::Smite && b == E::BaneOfArthropods) || (a == E::BaneOfArthropods && b == E::Smite) || (a == E::FireAspect && b == E::Freezing) || (a == E::Freezing && b == E::FireAspect) || (a == E::FireAspect && b == E::Bleeding) || (a == E::Bleeding && b == E::FireAspect) || (a == E::Freezing && b == E::Bleeding) || (a == E::Bleeding && b == E::Freezing) || (a == E::Annihilation && b == E::BloodFrenzy) || (a == E::BloodFrenzy && b == E::Annihilation) || (a == E::Annihilation && b == E::Execution) || (a == E::Execution && b == E::Annihilation) || (a == E::BloodFrenzy && b == E::Execution) || (a == E::Execution && b == E::BloodFrenzy)),
{
}

} // verus!
