//! Frozen zero-depletion natural Mining roll weights of every depth band.
use vstd::prelude::*;

use crate::mining_capability::spec_resource_capability;
use crate::mining_depth::MiningDepth;

verus! {

/// Exact weight scale of the natural roll table: `100_000` units equal `100%`.
pub const MINING_NATURAL_ROLL_WEIGHT_SCALE: u32 = 100_000;

#[derive(Clone, Copy, Debug, PartialEq, Eq)]
pub struct MiningNaturalRollDrop {
    pub content_key: &'static str,
    pub weight_units: u32,
}

impl MiningNaturalRollDrop {
    pub fn probability_numerator(self) -> (r: u32)
        ensures
            r == self.weight_units,
    {
        self.weight_units
    }

    pub fn probability_denominator(self) -> (r: u32)
        ensures
            r == MINING_NATURAL_ROLL_WEIGHT_SCALE,
    {
        MINING_NATURAL_ROLL_WEIGHT_SCALE
    }
}

/// One natural-roll row.
pub open spec fn spec_drop(content_key: &'static str, weight_units: u32) -> MiningNaturalRollDrop {
    MiningNaturalRollDrop { content_key, weight_units }
}

fn drop(content_key: &'static str, weight_units: u32) -> (r: MiningNaturalRollDrop)
    ensures
        r == spec_drop(content_key, weight_units),
{
    MiningNaturalRollDrop { content_key, weight_units }
}

/// The frozen natural-roll rows of a depth, in catalog order.
pub open spec fn spec_natural_roll_drops(depth: MiningDepth) -> Seq<MiningNaturalRollDrop> {
    match depth {
        MiningDepth::Surface => seq![
            spec_drop("resource.wood.log", 73_000),
            spec_drop("resource.stone", 25_000),
            spec_drop("resource.coal", 1_700),
            spec_drop("resource.ore.copper", 300),
        ],
        MiningDepth::Shallow => seq![
            spec_drop("resource.cobblestone", 79_908),
            spec_drop("resource.deepslate", 11_492),
            spec_drop("resource.coal", 4_000),
            spec_drop("resource.ore.copper", 2_500),
            spec_drop("resource.ore.tin", 1_500),
            spec_drop("resource.ore.iron", 600),
        ],
        MiningDepth::UpperCavern => seq![
            spec_drop("resource.cobblestone", 68_771),
            spec_drop("resource.deepslate", 15_229),
            spec_drop("resource.coal", 5_000),
            spec_drop("resource.ore.copper", 4_000),
            spec_drop("resource.ore.tin", 2_500),
            spec_drop("resource.ore.zinc", 1_500),
            spec_drop("resource.ore.iron", 1_500),
            spec_drop("resource.bauxite", 1_000),
            spec_drop("resource.lapis", 500),
        ],
        MiningDepth::DripstoneCavern => seq![
            spec_drop("resource.cobblestone", 70_706),
            spec_drop("resource.deepslate", 6_914),
            spec_drop("resource.coal", 4_000),
            spec_drop("resource.ore.copper", 8_000),
            spec_drop("resource.ore.tin", 2_000),
            spec_drop("resource.ore.zinc", 2_000),
            spec_drop("resource.ore.iron", 2_000),
            spec_drop("resource.bauxite", 3_000),
            spec_drop("resource.lapis", 800),
            spec_drop("resource.ore.gold", 80),
            spec_drop("resource.redstone", 500),
        ],
        MiningDepth::Cavern => seq![
            spec_drop("resource.cobblestone", 56_668),
            spec_drop("resource.deepslate", 21_952),
            spec_drop("resource.coal", 3_000),
            spec_drop("resource.ore.copper", 3_000),
            spec_drop("resource.ore.tin", 1_500),
            spec_drop("resource.ore.zinc", 1_500),
            spec_drop("resource.ore.iron", 5_000),
            spec_drop("resource.bauxite", 1_500),
            spec_drop("resource.lapis", 2_000),
            spec_drop("resource.redstone", 2_500),
            spec_drop("resource.ore.gold", 600),
            spec_drop("resource.ore.silver", 300),
            spec_drop("resource.gem.diamond", 30),
            spec_drop("resource.gem.amethyst", 400),
            spec_drop("resource.gem.jade", 50),
        ],
        MiningDepth::LowerCavern => seq![
            spec_drop("resource.cobblestone", 50_999),
            spec_drop("resource.deepslate", 27_191),
            spec_drop("resource.coal", 2_000),
            spec_drop("resource.ore.copper", 2_000),
            spec_drop("resource.ore.tin", 1_000),
            spec_drop("resource.ore.zinc", 1_500),
            spec_drop("resource.ore.iron", 5_000),
            spec_drop("resource.bauxite", 1_000),
            spec_drop("resource.lapis", 2_500),
            spec_drop("resource.redstone", 4_000),
            spec_drop("resource.ore.gold", 800),
            spec_drop("resource.ore.silver", 600),
            spec_drop("resource.ore.nickel", 300),
            spec_drop("resource.ore.lead", 400),
            spec_drop("resource.gem.diamond", 80),
            spec_drop("resource.gem.amethyst", 500),
            spec_drop("resource.gem.jade", 100),
            spec_drop("resource.gem.topaz", 30),
        ],
        MiningDepth::DeepCavern => seq![
            spec_drop("resource.cobblestone", 38_881),
            spec_drop("resource.deepslate", 41_539),
            spec_drop("resource.coal", 1_000),
            spec_drop("resource.ore.copper", 1_000),
            spec_drop("resource.ore.tin", 500),
            spec_drop("resource.ore.zinc", 1_000),
            spec_drop("resource.ore.iron", 4_000),
            spec_drop("resource.bauxite", 500),
            spec_drop("resource.lapis", 2_500),
            spec_drop("resource.redstone", 5_000),
            spec_drop("resource.ore.gold", 1_000),
            spec_drop("resource.ore.silver", 800),
            spec_drop("resource.ore.nickel", 500),
            spec_drop("resource.ore.lead", 600),
            spec_drop("resource.gem.diamond", 150),
            spec_drop("resource.gem.amethyst", 800),
            spec_drop("resource.gem.jade", 150),
            spec_drop("resource.gem.topaz", 50),
            spec_drop("resource.gem.ruby", 15),
            spec_drop("resource.gem.sapphire", 15),
        ],
        MiningDepth::CrystalDepths => seq![
            spec_drop("resource.cobblestone", 59_196),
            spec_drop("resource.deepslate", 22_392),
            spec_drop("resource.coal", 500),
            spec_drop("resource.ore.copper", 500),
            spec_drop("resource.ore.zinc", 500),
            spec_drop("resource.ore.iron", 3_000),
            spec_drop("resource.bauxite", 500),
            spec_drop("resource.lapis", 2_500),
            spec_drop("resource.redstone", 5_000),
            spec_drop("resource.ore.gold", 1_000),
            spec_drop("resource.ore.silver", 800),
            spec_drop("resource.ore.nickel", 500),
            spec_drop("resource.ore.lead", 500),
            spec_drop("resource.gem.diamond", 200),
            spec_drop("resource.gem.amethyst", 2_500),
            spec_drop("resource.gem.jade", 250),
            spec_drop("resource.gem.topaz", 100),
            spec_drop("resource.gem.ruby", 30),
            spec_drop("resource.gem.sapphire", 30),
            spec_drop("resource.gem.blood_diamond", 2),
        ],
        MiningDepth::DiamondShelf => seq![
            spec_drop("resource.cobblestone", 36_637),
            spec_drop("resource.deepslate", 47_370),
            spec_drop("resource.coal", 300),
            spec_drop("resource.ore.copper", 300),
            spec_drop("resource.ore.zinc", 400),
            spec_drop("resource.ore.iron", 2_500),
            spec_drop("resource.lapis", 2_000),
            spec_drop("resource.redstone", 5_000),
            spec_drop("resource.ore.gold", 1_200),
            spec_drop("resource.ore.silver", 800),
            spec_drop("resource.ore.nickel", 700),
            spec_drop("resource.ore.lead", 400),
            spec_drop("resource.gem.diamond", 350),
            spec_drop("resource.gem.amethyst", 1_500),
            spec_drop("resource.gem.jade", 300),
            spec_drop("resource.gem.topaz", 120),
            spec_drop("resource.gem.ruby", 50),
            spec_drop("resource.gem.sapphire", 50),
            spec_drop("resource.gem.onyx", 20),
            spec_drop("resource.gem.blood_diamond", 3),
        ],
        MiningDepth::DiamondDepths => seq![
            spec_drop("resource.cobblestone", 22_174),
            spec_drop("resource.deepslate", 63_342),
            spec_drop("resource.coal", 200),
            spec_drop("resource.ore.iron", 2_000),
            spec_drop("resource.lapis", 1_500),
            spec_drop("resource.redstone", 5_500),
            spec_drop("resource.ore.gold", 1_200),
            spec_drop("resource.ore.silver", 800),
            spec_drop("resource.ore.nickel", 800),
            spec_drop("resource.ore.lead", 300),
            spec_drop("resource.gem.diamond", 550),
            spec_drop("resource.gem.amethyst", 1_000),
            spec_drop("resource.gem.jade", 300),
            spec_drop("resource.gem.topaz", 150),
            spec_drop("resource.gem.ruby", 70),
            spec_drop("resource.gem.sapphire", 70),
            spec_drop("resource.gem.onyx", 40),
            spec_drop("resource.gem.blood_diamond", 4),
        ],
        MiningDepth::ObsidianChasm => seq![
            spec_drop("resource.cobblestone", 21_500),
            spec_drop("resource.deepslate", 66_845),
            spec_drop("resource.ore.iron", 1_500),
            spec_drop("resource.lapis", 1_000),
            spec_drop("resource.redstone", 4_500),
            spec_drop("resource.ore.gold", 1_000),
            spec_drop("resource.ore.silver", 600),
            spec_drop("resource.ore.nickel", 800),
            spec_drop("resource.ore.lead", 200),
            spec_drop("resource.gem.diamond", 700),
            spec_drop("resource.obsidian", 180),
            spec_drop("resource.gem.amethyst", 600),
            spec_drop("resource.gem.jade", 200),
            spec_drop("resource.gem.topaz", 150),
            spec_drop("resource.gem.ruby", 80),
            spec_drop("resource.gem.sapphire", 80),
            spec_drop("resource.gem.onyx", 60),
            spec_drop("resource.gem.blood_diamond", 5),
        ],
        MiningDepth::NetherFringe => seq![
            spec_drop("resource.netherrack", 10_689),
            spec_drop("resource.blackstone", 81_090),
            spec_drop("resource.quartz.nether", 6_000),
            spec_drop("resource.ore.gold", 2_000),
            spec_drop("resource.ore.cobalt", 150),
            spec_drop("resource.ancient_debris", 15),
            spec_drop("resource.gem.onyx", 30),
            spec_drop("resource.gem.ruby", 20),
            spec_drop("resource.ore.tungsten", 3),
            spec_drop("resource.ore.titanium", 2),
            spec_drop("resource.ore.platinum", 1),
        ],
        MiningDepth::BasaltDepths => seq![
            spec_drop("resource.netherrack", 12_862),
            spec_drop("resource.blackstone", 78_786),
            spec_drop("resource.quartz.nether", 6_000),
            spec_drop("resource.ore.gold", 2_000),
            spec_drop("resource.ore.cobalt", 250),
            spec_drop("resource.ancient_debris", 25),
            spec_drop("resource.gem.onyx", 40),
            spec_drop("resource.gem.ruby", 25),
            spec_drop("resource.ore.tungsten", 6),
            spec_drop("resource.ore.titanium", 4),
            spec_drop("resource.ore.platinum", 2),
        ],
        MiningDepth::NetherDepths => seq![
            spec_drop("resource.netherrack", 19_034),
            spec_drop("resource.blackstone", 72_227),
            spec_drop("resource.quartz.nether", 6_000),
            spec_drop("resource.ore.gold", 2_200),
            spec_drop("resource.ore.cobalt", 400),
            spec_drop("resource.ancient_debris", 40),
            spec_drop("resource.gem.onyx", 50),
            spec_drop("resource.gem.ruby", 30),
            spec_drop("resource.ore.tungsten", 10),
            spec_drop("resource.ore.titanium", 6),
            spec_drop("resource.ore.platinum", 3),
        ],
        MiningDepth::AncientDepths => seq![
            spec_drop("resource.netherrack", 38_753),
            spec_drop("resource.blackstone", 52_789),
            spec_drop("resource.quartz.nether", 5_500),
            spec_drop("resource.ore.gold", 2_200),
            spec_drop("resource.ore.cobalt", 550),
            spec_drop("resource.ancient_debris", 60),
            spec_drop("resource.gem.onyx", 70),
            spec_drop("resource.gem.ruby", 40),
            spec_drop("resource.ore.tungsten", 20),
            spec_drop("resource.ore.titanium", 12),
            spec_drop("resource.ore.platinum", 6),
        ],
        MiningDepth::AbyssalDepths => seq![
            spec_drop("resource.netherrack", 52_808),
            spec_drop("resource.blackstone", 38_992),
            spec_drop("resource.quartz.nether", 5_000),
            spec_drop("resource.ore.gold", 2_200),
            spec_drop("resource.ore.cobalt", 700),
            spec_drop("resource.ancient_debris", 90),
            spec_drop("resource.gem.onyx", 100),
            spec_drop("resource.gem.ruby", 50),
            spec_drop("resource.ore.tungsten", 30),
            spec_drop("resource.ore.titanium", 20),
            spec_drop("resource.ore.platinum", 10),
        ],
    }
}

/// Returns the exact current-v1 natural Mining roll weights at zero depletion for `depth`, before
/// Fortune, Treasure, Trench, Nuke and depletion reweighting.
pub fn mining_natural_roll_drops(depth: MiningDepth) -> (r: Vec<MiningNaturalRollDrop>)
    ensures
        r@ == spec_natural_roll_drops(depth),
{
    match depth {
        MiningDepth::Surface => vec![
            drop("resource.wood.log", 73_000),
            drop("resource.stone", 25_000),
            drop("resource.coal", 1_700),
            drop("resource.ore.copper", 300),
        ],
        MiningDepth::Shallow => vec![
            drop("resource.cobblestone", 79_908),
            drop("resource.deepslate", 11_492),
            drop("resource.coal", 4_000),
            drop("resource.ore.copper", 2_500),
            drop("resource.ore.tin", 1_500),
            drop("resource.ore.iron", 600),
        ],
        MiningDepth::UpperCavern => vec![
            drop("resource.cobblestone", 68_771),
            drop("resource.deepslate", 15_229),
            drop("resource.coal", 5_000),
            drop("resource.ore.copper", 4_000),
            drop("resource.ore.tin", 2_500),
            drop("resource.ore.zinc", 1_500),
            drop("resource.ore.iron", 1_500),
            drop("resource.bauxite", 1_000),
            drop("resource.lapis", 500),
        ],
        MiningDepth::DripstoneCavern => vec![
            drop("resource.cobblestone", 70_706),
            drop("resource.deepslate", 6_914),
            drop("resource.coal", 4_000),
            drop("resource.ore.copper", 8_000),
            drop("resource.ore.tin", 2_000),
            drop("resource.ore.zinc", 2_000),
            drop("resource.ore.iron", 2_000),
            drop("resource.bauxite", 3_000),
            drop("resource.lapis", 800),
            drop("resource.ore.gold", 80),
            drop("resource.redstone", 500),
        ],
        MiningDepth::Cavern => vec![
            drop("resource.cobblestone", 56_668),
            drop("resource.deepslate", 21_952),
            drop("resource.coal", 3_000),
            drop("resource.ore.copper", 3_000),
            drop("resource.ore.tin", 1_500),
            drop("resource.ore.zinc", 1_500),
            drop("resource.ore.iron", 5_000),
            drop("resource.bauxite", 1_500),
            drop("resource.lapis", 2_000),
            drop("resource.redstone", 2_500),
            drop("resource.ore.gold", 600),
            drop("resource.ore.silver", 300),
            drop("resource.gem.diamond", 30),
            drop("resource.gem.amethyst", 400),
            drop("resource.gem.jade", 50),
        ],
        MiningDepth::LowerCavern => vec![
            drop("resource.cobblestone", 50_999),
            drop("resource.deepslate", 27_191),
            drop("resource.coal", 2_000),
            drop("resource.ore.copper", 2_000),
            drop("resource.ore.tin", 1_000),
            drop("resource.ore.zinc", 1_500),
            drop("resource.ore.iron", 5_000),
            drop("resource.bauxite", 1_000),
            drop("resource.lapis", 2_500),
            drop("resource.redstone", 4_000),
            drop("resource.ore.gold", 800),
            drop("resource.ore.silver", 600),
            drop("resource.ore.nickel", 300),
            drop("resource.ore.lead", 400),
            drop("resource.gem.diamond", 80),
            drop("resource.gem.amethyst", 500),
            drop("resource.gem.jade", 100),
            drop("resource.gem.topaz", 30),
        ],
        MiningDepth::DeepCavern => vec![
            drop("resource.cobblestone", 38_881),
            drop("resource.deepslate", 41_539),
            drop("resource.coal", 1_000),
            drop("resource.ore.copper", 1_000),
            drop("resource.ore.tin", 500),
            drop("resource.ore.zinc", 1_000),
            drop("resource.ore.iron", 4_000),
            drop("resource.bauxite", 500),
            drop("resource.lapis", 2_500),
            drop("resource.redstone", 5_000),
            drop("resource.ore.gold", 1_000),
            drop("resource.ore.silver", 800),
            drop("resource.ore.nickel", 500),
            drop("resource.ore.lead", 600),
            drop("resource.gem.diamond", 150),
            drop("resource.gem.amethyst", 800),
            drop("resource.gem.jade", 150),
            drop("resource.gem.topaz", 50),
            drop("resource.gem.ruby", 15),
            drop("resource.gem.sapphire", 15),
        ],
        MiningDepth::CrystalDepths => vec![
            drop("resource.cobblestone", 59_196),
            drop("resource.deepslate", 22_392),
            drop("resource.coal", 500),
            drop("resource.ore.copper", 500),
            drop("resource.ore.zinc", 500),
            drop("resource.ore.iron", 3_000),
            drop("resource.bauxite", 500),
            drop("resource.lapis", 2_500),
            drop("resource.redstone", 5_000),
            drop("resource.ore.gold", 1_000),
            drop("resource.ore.silver", 800),
            drop("resource.ore.nickel", 500),
            drop("resource.ore.lead", 500),
            drop("resource.gem.diamond", 200),
            drop("resource.gem.amethyst", 2_500),
            drop("resource.gem.jade", 250),
            drop("resource.gem.topaz", 100),
            drop("resource.gem.ruby", 30),
            drop("resource.gem.sapphire", 30),
            drop("resource.gem.blood_diamond", 2),
        ],
        MiningDepth::DiamondShelf => vec![
            drop("resource.cobblestone", 36_637),
            drop("resource.deepslate", 47_370),
            drop("resource.coal", 300),
            drop("resource.ore.copper", 300),
            drop("resource.ore.zinc", 400),
            drop("resource.ore.iron", 2_500),
            drop("resource.lapis", 2_000),
            drop("resource.redstone", 5_000),
            drop("resource.ore.gold", 1_200),
            drop("resource.ore.silver", 800),
            drop("resource.ore.nickel", 700),
            drop("resource.ore.lead", 400),
            drop("resource.gem.diamond", 350),
            drop("resource.gem.amethyst", 1_500),
            drop("resource.gem.jade", 300),
            drop("resource.gem.topaz", 120),
            drop("resource.gem.ruby", 50),
            drop("resource.gem.sapphire", 50),
            drop("resource.gem.onyx", 20),
            drop("resource.gem.blood_diamond", 3),
        ],
        MiningDepth::DiamondDepths => vec![
            drop("resource.cobblestone", 22_174),
            drop("resource.deepslate", 63_342),
            drop("resource.coal", 200),
            drop("resource.ore.iron", 2_000),
            drop("resource.lapis", 1_500),
            drop("resource.redstone", 5_500),
            drop("resource.ore.gold", 1_200),
            drop("resource.ore.silver", 800),
            drop("resource.ore.nickel", 800),
            drop("resource.ore.lead", 300),
            drop("resource.gem.diamond", 550),
            drop("resource.gem.amethyst", 1_000),
            drop("resource.gem.jade", 300),
            drop("resource.gem.topaz", 150),
            drop("resource.gem.ruby", 70),
            drop("resource.gem.sapphire", 70),
            drop("resource.gem.onyx", 40),
            drop("resource.gem.blood_diamond", 4),
        ],
        MiningDepth::ObsidianChasm => vec![
            drop("resource.cobblestone", 21_500),
            drop("resource.deepslate", 66_845),
            drop("resource.ore.iron", 1_500),
            drop("resource.lapis", 1_000),
            drop("resource.redstone", 4_500),
            drop("resource.ore.gold", 1_000),
            drop("resource.ore.silver", 600),
            drop("resource.ore.nickel", 800),
            drop("resource.ore.lead", 200),
            drop("resource.gem.diamond", 700),
            drop("resource.obsidian", 180),
            drop("resource.gem.amethyst", 600),
            drop("resource.gem.jade", 200),
            drop("resource.gem.topaz", 150),
            drop("resource.gem.ruby", 80),
            drop("resource.gem.sapphire", 80),
            drop("resource.gem.onyx", 60),
            drop("resource.gem.blood_diamond", 5),
        ],
        MiningDepth::NetherFringe => vec![
            drop("resource.netherrack", 10_689),
            drop("resource.blackstone", 81_090),
            drop("resource.quartz.nether", 6_000),
            drop("resource.ore.gold", 2_000),
            drop("resource.ore.cobalt", 150),
            drop("resource.ancient_debris", 15),
            drop("resource.gem.onyx", 30),
            drop("resource.gem.ruby", 20),
            drop("resource.ore.tungsten", 3),
            drop("resource.ore.titanium", 2),
            drop("resource.ore.platinum", 1),
        ],
        MiningDepth::BasaltDepths => vec![
            drop("resource.netherrack", 12_862),
            drop("resource.blackstone", 78_786),
            drop("resource.quartz.nether", 6_000),
            drop("resource.ore.gold", 2_000),
            drop("resource.ore.cobalt", 250),
            drop("resource.ancient_debris", 25),
            drop("resource.gem.onyx", 40),
            drop("resource.gem.ruby", 25),
            drop("resource.ore.tungsten", 6),
            drop("resource.ore.titanium", 4),
            drop("resource.ore.platinum", 2),
        ],
        MiningDepth::NetherDepths => vec![
            drop("resource.netherrack", 19_034),
            drop("resource.blackstone", 72_227),
            drop("resource.quartz.nether", 6_000),
            drop("resource.ore.gold", 2_200),
            drop("resource.ore.cobalt", 400),
            drop("resource.ancient_debris", 40),
            drop("resource.gem.onyx", 50),
            drop("resource.gem.ruby", 30),
            drop("resource.ore.tungsten", 10),
            drop("resource.ore.titanium", 6),
            drop("resource.ore.platinum", 3),
        ],
        MiningDepth::AncientDepths => vec![
            drop("resource.netherrack", 38_753),
            drop("resource.blackstone", 52_789),
            drop("resource.quartz.nether", 5_500),
            drop("resource.ore.gold", 2_200),
            drop("resource.ore.cobalt", 550),
            drop("resource.ancient_debris", 60),
            drop("resource.gem.onyx", 70),
            drop("resource.gem.ruby", 40),
            drop("resource.ore.tungsten", 20),
            drop("resource.ore.titanium", 12),
            drop("resource.ore.platinum", 6),
        ],
        MiningDepth::AbyssalDepths => vec![
            drop("resource.netherrack", 52_808),
            drop("resource.blackstone", 38_992),
            drop("resource.quartz.nether", 5_000),
            drop("resource.ore.gold", 2_200),
            drop("resource.ore.cobalt", 700),
            drop("resource.ancient_debris", 90),
            drop("resource.gem.onyx", 100),
            drop("resource.gem.ruby", 50),
            drop("resource.ore.tungsten", 30),
            drop("resource.ore.titanium", 20),
            drop("resource.ore.platinum", 10),
        ],
    }
}

/// Sum of the weights of the rows from index `from` on.
pub open spec fn spec_drop_weight_sum_from(drops: Seq<MiningNaturalRollDrop>, from: nat) -> nat
    decreases drops.len() - from,
{
    if from >= drops.len() {
        0
    } else {
        drops[from as int].weight_units as nat + spec_drop_weight_sum_from(drops, from + 1)
    }
}

/// Sum of the weights of a sequence of rows.
pub open spec fn spec_drop_weight_sum(drops: Seq<MiningNaturalRollDrop>) -> nat {
    spec_drop_weight_sum_from(drops, 0)
}

/// Every depth's natural-roll weights are positive and sum to exactly the weight scale.
#[verifier::spinoff_prover]
#[verifier::rlimit(50)]
pub proof fn lemma_natural_roll_weights_sum_to_scale(depth: MiningDepth)
    ensures
        spec_drop_weight_sum(spec_natural_roll_drops(depth)) == MINING_NATURAL_ROLL_WEIGHT_SCALE,
        forall|i: int|
            0 <= i < spec_natural_roll_drops(depth).len() ==> (#[trigger] spec_natural_roll_drops(
                depth,
            )[i]).weight_units > 0,
{
    reveal_with_fuel(spec_drop_weight_sum_from, 21);
}

/// Every resource a natural roll can yield has a class in the frozen Mining capability table.
#[verifier::spinoff_prover]
#[verifier::rlimit(50)]
pub proof fn lemma_natural_roll_resources_are_classified(depth: MiningDepth)
    ensures
        forall|i: int|
            0 <= i < spec_natural_roll_drops(depth).len() ==> spec_resource_capability(
                (#[trigger] spec_natural_roll_drops(depth)[i]).content_key@,
            ) is Some,
{
}

/// The rows of a natural-roll table name `content_key` with weight `weight_units`.
pub open spec fn spec_has_rate(
    drops: Seq<MiningNaturalRollDrop>,
    content_key: &'static str,
    weight_units: u32,
) -> bool {
    exists|i: int|
        0 <= i < drops.len() && (#[trigger] drops[i]).content_key@ == content_key@
            && drops[i].weight_units == weight_units
}

/// The frozen natural-roll rate of every resource at every depth, in units of `0.001%` (each key
/// appears once per depth, so this is its rate there): Surface wood 73%, stone 25%, coal 1.7%,
/// copper 0.3%; Shallow cobblestone 79.908%, deepslate 11.492%, coal 4%, copper 2.5%, tin 1.5%,
/// iron 0.6%; and likewise for the deeper bands.
#[verifier::spinoff_prover]
#[verifier::rlimit(100)]
pub proof fn lemma_natural_roll_rates(depth: MiningDepth)
    ensures
        depth == MiningDepth::Surface ==> {
            &&& spec_natural_roll_drops(depth).len() == 4
            &&& spec_has_rate(spec_natural_roll_drops(depth), "resource.wood.log", 73_000)
            &&& spec_has_rate(spec_natural_roll_drops(depth), "resource.stone", 25_000)
            &&& spec_has_rate(spec_natural_roll_drops(depth), "resource.coal", 1_700)
            &&& spec_has_rate(spec_natural_roll_drops(depth), "resource.ore.copper", 300)
        },
        depth == MiningDepth::Shallow ==> {
            &&& spec_natural_roll_drops(depth).len() == 6
            &&& spec_has_rate(spec_natural_roll_drops(depth), "resource.cobblestone", 79_908)
            &&& spec_has_rate(spec_natural_roll_drops(depth), "resource.deepslate", 11_492)
            &&& spec_has_rate(spec_natural_roll_drops(depth), "resource.coal", 4_000)
            &&& spec_has_rate(spec_natural_roll_drops(depth), "resource.ore.copper", 2_500)
            &&& spec_has_rate(spec_natural_roll_drops(depth), "resource.ore.tin", 1_500)
            &&& spec_has_rate(spec_natural_roll_drops(depth), "resource.ore.iron", 600)
        },
        depth == MiningDepth::UpperCavern ==> {
            &&& spec_natural_roll_drops(depth).len() == 9
            &&& spec_has_rate(spec_natural_roll_drops(depth), "resource.cobblestone", 68_771)
            &&& spec_has_rate(spec_natural_roll_drops(depth), "resource.deepslate", 15_229)
            &&& spec_has_rate(spec_natural_roll_drops(depth), "resource.coal", 5_000)
            &&& spec_has_rate(spec_natural_roll_drops(depth), "resource.ore.copper", 4_000)
            &&& spec_has_rate(spec_natural_roll_drops(depth), "resource.ore.tin", 2_500)
            &&& spec_has_rate(spec_natural_roll_drops(depth), "resource.ore.zinc", 1_500)
            &&& spec_has_rate(spec_natural_roll_drops(depth), "resource.ore.iron", 1_500)
            &&& spec_has_rate(spec_natural_roll_drops(depth), "resource.bauxite", 1_000)
            &&& spec_has_rate(spec_natural_roll_drops(depth), "resource.lapis", 500)
        },
        depth == MiningDepth::DripstoneCavern ==> {
            &&& spec_natural_roll_drops(depth).len() == 11
            &&& spec_has_rate(spec_natural_roll_drops(depth), "resource.cobblestone", 70_706)
            &&& spec_has_rate(spec_natural_roll_drops(depth), "resource.deepslate", 6_914)
            &&& spec_has_rate(spec_natural_roll_drops(depth), "resource.coal", 4_000)
            &&& spec_has_rate(spec_natural_roll_drops(depth), "resource.ore.copper", 8_000)
            &&& spec_has_rate(spec_natural_roll_drops(depth), "resource.ore.tin", 2_000)
            &&& spec_has_rate(spec_natural_roll_drops(depth), "resource.ore.zinc", 2_000)
            &&& spec_has_rate(spec_natural_roll_drops(depth), "resource.ore.iron", 2_000)
            &&& spec_has_rate(spec_natural_roll_drops(depth), "resource.bauxite", 3_000)
            &&& spec_has_rate(spec_natural_roll_drops(depth), "resource.lapis", 800)
            &&& spec_has_rate(spec_natural_roll_drops(depth), "resource.ore.gold", 80)
            &&& spec_has_rate(spec_natural_roll_drops(depth), "resource.redstone", 500)
        },
        depth == MiningDepth::Cavern ==> {
            &&& spec_natural_roll_drops(depth).len() == 15
            &&& spec_has_rate(spec_natural_roll_drops(depth), "resource.cobblestone", 56_668)
            &&& spec_has_rate(spec_natural_roll_drops(depth), "resource.deepslate", 21_952)
            &&& spec_has_rate(spec_natural_roll_drops(depth), "resource.coal", 3_000)
            &&& spec_has_rate(spec_natural_roll_drops(depth), "resource.ore.copper", 3_000)
            &&& spec_has_rate(spec_natural_roll_drops(depth), "resource.ore.tin", 1_500)
            &&& spec_has_rate(spec_natural_roll_drops(depth), "resource.ore.zinc", 1_500)
            &&& spec_has_rate(spec_natural_roll_drops(depth), "resource.ore.iron", 5_000)
            &&& spec_has_rate(spec_natural_roll_drops(depth), "resource.bauxite", 1_500)
            &&& spec_has_rate(spec_natural_roll_drops(depth), "resource.lapis", 2_000)
            &&& spec_has_rate(spec_natural_roll_drops(depth), "resource.redstone", 2_500)
            &&& spec_has_rate(spec_natural_roll_drops(depth), "resource.ore.gold", 600)
            &&& spec_has_rate(spec_natural_roll_drops(depth), "resource.ore.silver", 300)
            &&& spec_has_rate(spec_natural_roll_drops(depth), "resource.gem.diamond", 30)
            &&& spec_has_rate(spec_natural_roll_drops(depth), "resource.gem.amethyst", 400)
            &&& spec_has_rate(spec_natural_roll_drops(depth), "resource.gem.jade", 50)
        },
        depth == MiningDepth::LowerCavern ==> {
            &&& spec_natural_roll_drops(depth).len() == 18
            &&& spec_has_rate(spec_natural_roll_drops(depth), "resource.cobblestone", 50_999)
            &&& spec_has_rate(spec_natural_roll_drops(depth), "resource.deepslate", 27_191)
            &&& spec_has_rate(spec_natural_roll_drops(depth), "resource.coal", 2_000)
            &&& spec_has_rate(spec_natural_roll_drops(depth), "resource.ore.copper", 2_000)
            &&& spec_has_rate(spec_natural_roll_drops(depth), "resource.ore.tin", 1_000)
            &&& spec_has_rate(spec_natural_roll_drops(depth), "resource.ore.zinc", 1_500)
            &&& spec_has_rate(spec_natural_roll_drops(depth), "resource.ore.iron", 5_000)
            &&& spec_has_rate(spec_natural_roll_drops(depth), "resource.bauxite", 1_000)
            &&& spec_has_rate(spec_natural_roll_drops(depth), "resource.lapis", 2_500)
            &&& spec_has_rate(spec_natural_roll_drops(depth), "resource.redstone", 4_000)
            &&& spec_has_rate(spec_natural_roll_drops(depth), "resource.ore.gold", 800)
            &&& spec_has_rate(spec_natural_roll_drops(depth), "resource.ore.silver", 600)
            &&& spec_has_rate(spec_natural_roll_drops(depth), "resource.ore.nickel", 300)
            &&& spec_has_rate(spec_natural_roll_drops(depth), "resource.ore.lead", 400)
            &&& spec_has_rate(spec_natural_roll_drops(depth), "resource.gem.diamond", 80)
            &&& spec_has_rate(spec_natural_roll_drops(depth), "resource.gem.amethyst", 500)
            &&& spec_has_rate(spec_natural_roll_drops(depth), "resource.gem.jade", 100)
            &&& spec_has_rate(spec_natural_roll_drops(depth), "resource.gem.topaz", 30)
        },
        depth == MiningDepth::DeepCavern ==> {
            &&& spec_natural_roll_drops(depth).len() == 20
            &&& spec_has_rate(spec_natural_roll_drops(depth), "resource.cobblestone", 38_881)
            &&& spec_has_rate(spec_natural_roll_drops(depth), "resource.deepslate", 41_539)
            &&& spec_has_rate(spec_natural_roll_drops(depth), "resource.coal", 1_000)
            &&& spec_has_rate(spec_natural_roll_drops(depth), "resource.ore.copper", 1_000)
            &&& spec_has_rate(spec_natural_roll_drops(depth), "resource.ore.tin", 500)
            &&& spec_has_rate(spec_natural_roll_drops(depth), "resource.ore.zinc", 1_000)
            &&& spec_has_rate(spec_natural_roll_drops(depth), "resource.ore.iron", 4_000)
            &&& spec_has_rate(spec_natural_roll_drops(depth), "resource.bauxite", 500)
            &&& spec_has_rate(spec_natural_roll_drops(depth), "resource.lapis", 2_500)
            &&& spec_has_rate(spec_natural_roll_drops(depth), "resource.redstone", 5_000)
            &&& spec_has_rate(spec_natural_roll_drops(depth), "resource.ore.gold", 1_000)
            &&& spec_has_rate(spec_natural_roll_drops(depth), "resource.ore.silver", 800)
            &&& spec_has_rate(spec_natural_roll_drops(depth), "resource.ore.nickel", 500)
            &&& spec_has_rate(spec_natural_roll_drops(depth), "resource.ore.lead", 600)
            &&& spec_has_rate(spec_natural_roll_drops(depth), "resource.gem.diamond", 150)
            &&& spec_has_rate(spec_natural_roll_drops(depth), "resource.gem.amethyst", 800)
            &&& spec_has_rate(spec_natural_roll_drops(depth), "resource.gem.jade", 150)
            &&& spec_has_rate(spec_natural_roll_drops(depth), "resource.gem.topaz", 50)
            &&& spec_has_rate(spec_natural_roll_drops(depth), "resource.gem.ruby", 15)
            &&& spec_has_rate(spec_natural_roll_drops(depth), "resource.gem.sapphire", 15)
        },
        depth == MiningDepth::CrystalDepths ==> {
            &&& spec_natural_roll_drops(depth).len() == 20
            &&& spec_has_rate(spec_natural_roll_drops(depth), "resource.cobblestone", 59_196)
            &&& spec_has_rate(spec_natural_roll_drops(depth), "resource.deepslate", 22_392)
            &&& spec_has_rate(spec_natural_roll_drops(depth), "resource.coal", 500)
            &&& spec_has_rate(spec_natural_roll_drops(depth), "resource.ore.copper", 500)
            &&& spec_has_rate(spec_natural_roll_drops(depth), "resource.ore.zinc", 500)
            &&& spec_has_rate(spec_natural_roll_drops(depth), "resource.ore.iron", 3_000)
            &&& spec_has_rate(spec_natural_roll_drops(depth), "resource.bauxite", 500)
            &&& spec_has_rate(spec_natural_roll_drops(depth), "resource.lapis", 2_500)
            &&& spec_has_rate(spec_natural_roll_drops(depth), "resource.redstone", 5_000)
            &&& spec_has_rate(spec_natural_roll_drops(depth), "resource.ore.gold", 1_000)
            &&& spec_has_rate(spec_natural_roll_drops(depth), "resource.ore.silver", 800)
            &&& spec_has_rate(spec_natural_roll_drops(depth), "resource.ore.nickel", 500)
            &&& spec_has_rate(spec_natural_roll_drops(depth), "resource.ore.lead", 500)
            &&& spec_has_rate(spec_natural_roll_drops(depth), "resource.gem.diamond", 200)
            &&& spec_has_rate(spec_natural_roll_drops(depth), "resource.gem.amethyst", 2_500)
            &&& spec_has_rate(spec_natural_roll_drops(depth), "resource.gem.jade", 250)
            &&& spec_has_rate(spec_natural_roll_drops(depth), "resource.gem.topaz", 100)
            &&& spec_has_rate(spec_natural_roll_drops(depth), "resource.gem.ruby", 30)
            &&& spec_has_rate(spec_natural_roll_drops(depth), "resource.gem.sapphire", 30)
            &&& spec_has_rate(spec_natural_roll_drops(depth), "resource.gem.blood_diamond", 2)
        },
        depth == MiningDepth::DiamondShelf ==> {
            &&& spec_natural_roll_drops(depth).len() == 20
            &&& spec_has_rate(spec_natural_roll_drops(depth), "resource.cobblestone", 36_637)
            &&& spec_has_rate(spec_natural_roll_drops(depth), "resource.deepslate", 47_370)
            &&& spec_has_rate(spec_natural_roll_drops(depth), "resource.coal", 300)
            &&& spec_has_rate(spec_natural_roll_drops(depth), "resource.ore.copper", 300)
            &&& spec_has_rate(spec_natural_roll_drops(depth), "resource.ore.zinc", 400)
            &&& spec_has_rate(spec_natural_roll_drops(depth), "resource.ore.iron", 2_500)
            &&& spec_has_rate(spec_natural_roll_drops(depth), "resource.lapis", 2_000)
            &&& spec_has_rate(spec_natural_roll_drops(depth), "resource.redstone", 5_000)
            &&& spec_has_rate(spec_natural_roll_drops(depth), "resource.ore.gold", 1_200)
            &&& spec_has_rate(spec_natural_roll_drops(depth), "resource.ore.silver", 800)
            &&& spec_has_rate(spec_natural_roll_drops(depth), "resource.ore.nickel", 700)
            &&& spec_has_rate(spec_natural_roll_drops(depth), "resource.ore.lead", 400)
            &&& spec_has_rate(spec_natural_roll_drops(depth), "resource.gem.diamond", 350)
            &&& spec_has_rate(spec_natural_roll_drops(depth), "resource.gem.amethyst", 1_500)
            &&& spec_has_rate(spec_natural_roll_drops(depth), "resource.gem.jade", 300)
            &&& spec_has_rate(spec_natural_roll_drops(depth), "resource.gem.topaz", 120)
            &&& spec_has_rate(spec_natural_roll_drops(depth), "resource.gem.ruby", 50)
            &&& spec_has_rate(spec_natural_roll_drops(depth), "resource.gem.sapphire", 50)
            &&& spec_has_rate(spec_natural_roll_drops(depth), "resource.gem.onyx", 20)
            &&& spec_has_rate(spec_natural_roll_drops(depth), "resource.gem.blood_diamond", 3)
        },
        depth == MiningDepth::DiamondDepths ==> {
            &&& spec_natural_roll_drops(depth).len() == 18
            &&& spec_has_rate(spec_natural_roll_drops(depth), "resource.cobblestone", 22_174)
            &&& spec_has_rate(spec_natural_roll_drops(depth), "resource.deepslate", 63_342)
            &&& spec_has_rate(spec_natural_roll_drops(depth), "resource.coal", 200)
            &&& spec_has_rate(spec_natural_roll_drops(depth), "resource.ore.iron", 2_000)
            &&& spec_has_rate(spec_natural_roll_drops(depth), "resource.lapis", 1_500)
            &&& spec_has_rate(spec_natural_roll_drops(depth), "resource.redstone", 5_500)
            &&& spec_has_rate(spec_natural_roll_drops(depth), "resource.ore.gold", 1_200)
            &&& spec_has_rate(spec_natural_roll_drops(depth), "resource.ore.silver", 800)
            &&& spec_has_rate(spec_natural_roll_drops(depth), "resource.ore.nickel", 800)
            &&& spec_has_rate(spec_natural_roll_drops(depth), "resource.ore.lead", 300)
            &&& spec_has_rate(spec_natural_roll_drops(depth), "resource.gem.diamond", 550)
            &&& spec_has_rate(spec_natural_roll_drops(depth), "resource.gem.amethyst", 1_000)
            &&& spec_has_rate(spec_natural_roll_drops(depth), "resource.gem.jade", 300)
            &&& spec_has_rate(spec_natural_roll_drops(depth), "resource.gem.topaz", 150)
            &&& spec_has_rate(spec_natural_roll_drops(depth), "resource.gem.ruby", 70)
            &&& spec_has_rate(spec_natural_roll_drops(depth), "resource.gem.sapphire", 70)
            &&& spec_has_rate(spec_natural_roll_drops(depth), "resource.gem.onyx", 40)
            &&& spec_has_rate(spec_natural_roll_drops(depth), "resource.gem.blood_diamond", 4)
        },
        depth == MiningDepth::ObsidianChasm ==> {
            &&& spec_natural_roll_drops(depth).len() == 18
            &&& spec_has_rate(spec_natural_roll_drops(depth), "resource.cobblestone", 21_500)
            &&& spec_has_rate(spec_natural_roll_drops(depth), "resource.deepslate", 66_845)
            &&& spec_has_rate(spec_natural_roll_drops(depth), "resource.ore.iron", 1_500)
            &&& spec_has_rate(spec_natural_roll_drops(depth), "resource.lapis", 1_000)
            &&& spec_has_rate(spec_natural_roll_drops(depth), "resource.redstone", 4_500)
            &&& spec_has_rate(spec_natural_roll_drops(depth), "resource.ore.gold", 1_000)
            &&& spec_has_rate(spec_natural_roll_drops(depth), "resource.ore.silver", 600)
            &&& spec_has_rate(spec_natural_roll_drops(depth), "resource.ore.nickel", 800)
            &&& spec_has_rate(spec_natural_roll_drops(depth), "resource.ore.lead", 200)
            &&& spec_has_rate(spec_natural_roll_drops(depth), "resource.gem.diamond", 700)
            &&& spec_has_rate(spec_natural_roll_drops(depth), "resource.obsidian", 180)
            &&& spec_has_rate(spec_natural_roll_drops(depth), "resource.gem.amethyst", 600)
            &&& spec_has_rate(spec_natural_roll_drops(depth), "resource.gem.jade", 200)
            &&& spec_has_rate(spec_natural_roll_drops(depth), "resource.gem.topaz", 150)
            &&& spec_has_rate(spec_natural_roll_drops(depth), "resource.gem.ruby", 80)
            &&& spec_has_rate(spec_natural_roll_drops(depth), "resource.gem.sapphire", 80)
            &&& spec_has_rate(spec_natural_roll_drops(depth), "resource.gem.onyx", 60)
            &&& spec_has_rate(spec_natural_roll_drops(depth), "resource.gem.blood_diamond", 5)
        },
        depth == MiningDepth::NetherFringe ==> {
            &&& spec_natural_roll_drops(depth).len() == 11
            &&& spec_has_rate(spec_natural_roll_drops(depth), "resource.netherrack", 10_689)
            &&& spec_has_rate(spec_natural_roll_drops(depth), "resource.blackstone", 81_090)
            &&& spec_has_rate(spec_natural_roll_drops(depth), "resource.quartz.nether", 6_000)
            &&& spec_has_rate(spec_natural_roll_drops(depth), "resource.ore.gold", 2_000)
            &&& spec_has_rate(spec_natural_roll_drops(depth), "resource.ore.cobalt", 150)
            &&& spec_has_rate(spec_natural_roll_drops(depth), "resource.ancient_debris", 15)
            &&& spec_has_rate(spec_natural_roll_drops(depth), "resource.gem.onyx", 30)
            &&& spec_has_rate(spec_natural_roll_drops(depth), "resource.gem.ruby", 20)
            &&& spec_has_rate(spec_natural_roll_drops(depth), "resource.ore.tungsten", 3)
            &&& spec_has_rate(spec_natural_roll_drops(depth), "resource.ore.titanium", 2)
            &&& spec_has_rate(spec_natural_roll_drops(depth), "resource.ore.platinum", 1)
        },
        depth == MiningDepth::BasaltDepths ==> {
            &&& spec_natural_roll_drops(depth).len() == 11
            &&& spec_has_rate(spec_natural_roll_drops(depth), "resource.netherrack", 12_862)
            &&& spec_has_rate(spec_natural_roll_drops(depth), "resource.blackstone", 78_786)
            &&& spec_has_rate(spec_natural_roll_drops(depth), "resource.quartz.nether", 6_000)
            &&& spec_has_rate(spec_natural_roll_drops(depth), "resource.ore.gold", 2_000)
            &&& spec_has_rate(spec_natural_roll_drops(depth), "resource.ore.cobalt", 250)
            &&& spec_has_rate(spec_natural_roll_drops(depth), "resource.ancient_debris", 25)
            &&& spec_has_rate(spec_natural_roll_drops(depth), "resource.gem.onyx", 40)
            &&& spec_has_rate(spec_natural_roll_drops(depth), "resource.gem.ruby", 25)
            &&& spec_has_rate(spec_natural_roll_drops(depth), "resource.ore.tungsten", 6)
            &&& spec_has_rate(spec_natural_roll_drops(depth), "resource.ore.titanium", 4)
            &&& spec_has_rate(spec_natural_roll_drops(depth), "resource.ore.platinum", 2)
        },
        depth == MiningDepth::NetherDepths ==> {
            &&& spec_natural_roll_drops(depth).len() == 11
            &&& spec_has_rate(spec_natural_roll_drops(depth), "resource.netherrack", 19_034)
            &&& spec_has_rate(spec_natural_roll_drops(depth), "resource.blackstone", 72_227)
            &&& spec_has_rate(spec_natural_roll_drops(depth), "resource.quartz.nether", 6_000)
            &&& spec_has_rate(spec_natural_roll_drops(depth), "resource.ore.gold", 2_200)
            &&& spec_has_rate(spec_natural_roll_drops(depth), "resource.ore.cobalt", 400)
            &&& spec_has_rate(spec_natural_roll_drops(depth), "resource.ancient_debris", 40)
            &&& spec_has_rate(spec_natural_roll_drops(depth), "resource.gem.onyx", 50)
            &&& spec_has_rate(spec_natural_roll_drops(depth), "resource.gem.ruby", 30)
            &&& spec_has_rate(spec_natural_roll_drops(depth), "resource.ore.tungsten", 10)
            &&& spec_has_rate(spec_natural_roll_drops(depth), "resource.ore.titanium", 6)
            &&& spec_has_rate(spec_natural_roll_drops(depth), "resource.ore.platinum", 3)
        },
        depth == MiningDepth::AncientDepths ==> {
            &&& spec_natural_roll_drops(depth).len() == 11
            &&& spec_has_rate(spec_natural_roll_drops(depth), "resource.netherrack", 38_753)
            &&& spec_has_rate(spec_natural_roll_drops(depth), "resource.blackstone", 52_789)
            &&& spec_has_rate(spec_natural_roll_drops(depth), "resource.quartz.nether", 5_500)
            &&& spec_has_rate(spec_natural_roll_drops(depth), "resource.ore.gold", 2_200)
            &&& spec_has_rate(spec_natural_roll_drops(depth), "resource.ore.cobalt", 550)
            &&& spec_has_rate(spec_natural_roll_drops(depth), "resource.ancient_debris", 60)
            &&& spec_has_rate(spec_natural_roll_drops(depth), "resource.gem.onyx", 70)
            &&& spec_has_rate(spec_natural_roll_drops(depth), "resource.gem.ruby", 40)
            &&& spec_has_rate(spec_natural_roll_drops(depth), "resource.ore.tungsten", 20)
            &&& spec_has_rate(spec_natural_roll_drops(depth), "resource.ore.titanium", 12)
            &&& spec_has_rate(spec_natural_roll_drops(depth), "resource.ore.platinum", 6)
        },
        depth == MiningDepth::AbyssalDepths ==> {
            &&& spec_natural_roll_drops(depth).len() == 11
            &&& spec_has_rate(spec_natural_roll_drops(depth), "resource.netherrack", 52_808)
            &&& spec_has_rate(spec_natural_roll_drops(depth), "resource.blackstone", 38_992)
            &&& spec_has_rate(spec_natural_roll_drops(depth), "resource.quartz.nether", 5_000)
            &&& spec_has_rate(spec_natural_roll_drops(depth), "resource.ore.gold", 2_200)
            &&& spec_has_rate(spec_natural_roll_drops(depth), "resource.ore.cobalt", 700)
            &&& spec_has_rate(spec_natural_roll_drops(depth), "resource.ancient_debris", 90)
            &&& spec_has_rate(spec_natural_roll_drops(depth), "resource.gem.onyx", 100)
            &&& spec_has_rate(spec_natural_roll_drops(depth), "resource.gem.ruby", 50)
            &&& spec_has_rate(spec_natural_roll_drops(depth), "resource.ore.tungsten", 30)
            &&& spec_has_rate(spec_natural_roll_drops(depth), "resource.ore.titanium", 20)
            &&& spec_has_rate(spec_natural_roll_drops(depth), "resource.ore.platinum", 10)
        },
{
}

/// Length, last and third-last character of a content key: enough to tell the frozen keys apart.
pub open spec fn spec_key_signature(key: Seq<char>) -> (nat, char, char) {
    (key.len(), key[key.len() - 1], key[key.len() - 3])
}

/// No natural-roll row of a depth repeats a content key.
#[verifier::spinoff_prover]
#[verifier::rlimit(100)]
pub proof fn lemma_natural_roll_content_keys_are_unique(depth: MiningDepth)
    ensures
        forall|i: int, j: int|
            0 <= i < j < spec_natural_roll_drops(depth).len() ==> (#[trigger] spec_natural_roll_drops(
                depth,
            )[i]).content_key@ != (#[trigger] spec_natural_roll_drops(depth)[j]).content_key@,
{
    assert(spec_key_signature("resource.ancient_debris"@) == (23nat, 's', 'r')) by {
        reveal_strlit("resource.ancient_debris");
    }
    assert(spec_key_signature("resource.bauxite"@) == (16nat, 'e', 'i')) by {
        reveal_strlit("resource.bauxite");
    }
    assert(spec_key_signature("resource.blackstone"@) == (19nat, 'e', 'o')) by {
        reveal_strlit("resource.blackstone");
    }
    assert(spec_key_signature("resource.coal"@) == (13nat, 'l', 'o')) by {
        reveal_strlit("resource.coal");
    }
    assert(spec_key_signature("resource.cobblestone"@) == (20nat, 'e', 'o')) by {
        reveal_strlit("resource.cobblestone");
    }
    assert(spec_key_signature("resource.deepslate"@) == (18nat, 'e', 'a')) by {
        reveal_strlit("resource.deepslate");
    }
    assert(spec_key_signature("resource.gem.amethyst"@) == (21nat, 't', 'y')) by {
        reveal_strlit("resource.gem.amethyst");
    }
    assert(spec_key_signature("resource.gem.blood_diamond"@) == (26nat, 'd', 'o')) by {
        reveal_strlit("resource.gem.blood_diamond");
    }
    assert(spec_key_signature("resource.gem.diamond"@) == (20nat, 'd', 'o')) by {
        reveal_strlit("resource.gem.diamond");
    }
    assert(spec_key_signature("resource.gem.jade"@) == (17nat, 'e', 'a')) by {
        reveal_strlit("resource.gem.jade");
    }
    assert(spec_key_signature("resource.gem.onyx"@) == (17nat, 'x', 'n')) by {
        reveal_strlit("resource.gem.onyx");
    }
    assert(spec_key_signature("resource.gem.ruby"@) == (17nat, 'y', 'u')) by {
        reveal_strlit("resource.gem.ruby");
    }
    assert(spec_key_signature("resource.gem.sapphire"@) == (21nat, 'e', 'i')) by {
        reveal_strlit("resource.gem.sapphire");
    }
    assert(spec_key_signature("resource.gem.topaz"@) == (18nat, 'z', 'p')) by {
        reveal_strlit("resource.gem.topaz");
    }
    assert(spec_key_signature("resource.lapis"@) == (14nat, 's', 'p')) by {
        reveal_strlit("resource.lapis");
    }
    assert(spec_key_signature("resource.netherrack"@) == (19nat, 'k', 'a')) by {
        reveal_strlit("resource.netherrack");
    }
    assert(spec_key_signature("resource.obsidian"@) == (17nat, 'n', 'i')) by {
        reveal_strlit("resource.obsidian");
    }
    assert(spec_key_signature("resource.ore.cobalt"@) == (19nat, 't', 'a')) by {
        reveal_strlit("resource.ore.cobalt");
    }
    assert(spec_key_signature("resource.ore.copper"@) == (19nat, 'r', 'p')) by {
        reveal_strlit("resource.ore.copper");
    }
    assert(spec_key_signature("resource.ore.gold"@) == (17nat, 'd', 'o')) by {
        reveal_strlit("resource.ore.gold");
    }
    assert(spec_key_signature("resource.ore.iron"@) == (17nat, 'n', 'r')) by {
        reveal_strlit("resource.ore.iron");
    }
    assert(spec_key_signature("resource.ore.lead"@) == (17nat, 'd', 'e')) by {
        reveal_strlit("resource.ore.lead");
    }
    assert(spec_key_signature("resource.ore.nickel"@) == (19nat, 'l', 'k')) by {
        reveal_strlit("resource.ore.nickel");
    }
    assert(spec_key_signature("resource.ore.platinum"@) == (21nat, 'm', 'n')) by {
        reveal_strlit("resource.ore.platinum");
    }
    assert(spec_key_signature("resource.ore.silver"@) == (19nat, 'r', 'v')) by {
        reveal_strlit("resource.ore.silver");
    }
    assert(spec_key_signature("resource.ore.tin"@) == (16nat, 'n', 't')) by {
        reveal_strlit("resource.ore.tin");
    }
    assert(spec_key_signature("resource.ore.titanium"@) == (21nat, 'm', 'i')) by {
        reveal_strlit("resource.ore.titanium");
    }
    assert(spec_key_signature("resource.ore.tungsten"@) == (21nat, 'n', 't')) by {
        reveal_strlit("resource.ore.tungsten");
    }
    assert(spec_key_signature("resource.ore.zinc"@) == (17nat, 'c', 'i')) by {
        reveal_strlit("resource.ore.zinc");
    }
    assert(spec_key_signature("resource.quartz.nether"@) == (22nat, 'r', 'h')) by {
        reveal_strlit("resource.quartz.nether");
    }
    assert(spec_key_signature("resource.redstone"@) == (17nat, 'e', 'o')) by {
        reveal_strlit("resource.redstone");
    }
    assert(spec_key_signature("resource.stone"@) == (14nat, 'e', 'o')) by {
        reveal_strlit("resource.stone");
    }
    assert(spec_key_signature("resource.wood.log"@) == (17nat, 'g', 'l')) by {
        reveal_strlit("resource.wood.log");
    }
    let drops = spec_natural_roll_drops(depth);
    assert forall|i: int, j: int| 0 <= i < j < drops.len() implies (#[trigger] drops[i]).content_key@
        != (#[trigger] drops[j]).content_key@ by {
        assert(spec_key_signature(drops[i].content_key@) != spec_key_signature(
            drops[j].content_key@,
        ));
    }
}

} // verus!
