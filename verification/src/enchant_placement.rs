//! Enchant slot families and ordinary-equipment placement masks.
use vstd::prelude::*;

use crate::enchant_catalog::CanonicalEnchant;
use crate::equipment_policy::EquipmentSlot;

verus! {

use CanonicalEnchant as E;
use EnchantSlotFamily as F;

pub const SLOT_PICKAXE: u8 = 1;
pub const SLOT_SWORD: u8 = 2;
pub const SLOT_FISHING_ROD: u8 = 4;
pub const SLOT_HELMET: u8 = 8;
pub const SLOT_CHESTPLATE: u8 = 16;
pub const SLOT_LEGGINGS: u8 = 32;
pub const SLOT_BOOTS: u8 = 64;
pub const SLOT_ALL_ARMOR: u8 = 120;
pub const SLOT_ALL_EQUIPMENT: u8 = 127;

pub const NORMAL_CLASS_NATIVE_SLOTS: u8 = 4;
pub const SPECIAL_UNIVERSAL_NATIVE_SLOTS: u8 = 3;
pub const MAX_ENCHANT_SLOTS_PER_FAMILY: u8 = 6;

#[derive(Clone, Copy, Debug, PartialEq, Eq, Structural)]
pub enum EnchantSlotFamily {
    NormalClass,
    SpecialUniversal,
}

/// Native (pre-unlock) slot count of each slot family.
pub open spec fn spec_native_slot_count(family: EnchantSlotFamily) -> u8 {
    match family {
        EnchantSlotFamily::NormalClass => NORMAL_CLASS_NATIVE_SLOTS,
        EnchantSlotFamily::SpecialUniversal => SPECIAL_UNIVERSAL_NATIVE_SLOTS,
    }
}

impl EnchantSlotFamily {
    pub fn native_slot_count(self) -> (r: u8)
        ensures
            r == spec_native_slot_count(self),
    {
        match self {
            Self::NormalClass => NORMAL_CLASS_NATIVE_SLOTS,
            Self::SpecialUniversal => SPECIAL_UNIVERSAL_NATIVE_SLOTS,
        }
    }

    pub fn maximum_slot_count(self) -> (r: u8)
        ensures
            r == MAX_ENCHANT_SLOTS_PER_FAMILY,
    {
        MAX_ENCHANT_SLOTS_PER_FAMILY
    }
}

/// The placement-mask bit weight `2^k` of each ordinary equipment slot, in the order Pickaxe,
/// Sword, Fishing Rod, Helmet, Chestplate, Leggings, Boots.
pub open spec fn spec_slot_weight(slot: EquipmentSlot) -> int {
    match slot {
        EquipmentSlot::Pickaxe => 1,
        EquipmentSlot::Sword => 2,
        EquipmentSlot::FishingRod => 4,
        EquipmentSlot::Helmet => 8,
        EquipmentSlot::Chestplate => 16,
        EquipmentSlot::Leggings => 32,
        EquipmentSlot::Boots => 64,
    }
}

/// The mask has the slot's bit set.
pub open spec fn spec_mask_has(bits: u8, slot: EquipmentSlot) -> bool {
    (bits as int / spec_slot_weight(slot)) % 2 == 1
}

#[derive(Clone, Copy, Debug, PartialEq, Eq, Structural)]
pub struct EnchantEquipmentMask(u8);

impl EnchantEquipmentMask {
    /// The raw mask bits.
    pub closed spec fn spec_bits(self) -> u8 {
        self.0
    }

    /// The mask admits the slot.
    pub open spec fn has(self, slot: EquipmentSlot) -> bool {
        spec_mask_has(self.spec_bits(), slot)
    }

    pub fn contains(self, slot: EquipmentSlot) -> (r: bool)
        ensures
            r == self.has(slot),
    {
        let bit = slot_bit(slot);
        proof {
            lemma_single_bit_test(self.0);
        }
        self.0 & bit != 0
    }

    pub fn bits(self) -> (r: u8)
        ensures
            r == self.spec_bits(),
    {
        self.0
    }
}

proof fn lemma_single_bit_test(m: u8)
    by (bit_vector)
    ensures
        (m & 1 != 0) == ((m / 1) % 2 == 1),
        (m & 2 != 0) == ((m / 2) % 2 == 1),
        (m & 4 != 0) == ((m / 4) % 2 == 1),
        (m & 8 != 0) == ((m / 8) % 2 == 1),
        (m & 16 != 0) == ((m / 16) % 2 == 1),
        (m & 32 != 0) == ((m / 32) % 2 == 1),
        (m & 64 != 0) == ((m / 64) % 2 == 1),
{
}

#[derive(Clone, Copy, Debug, PartialEq, Eq, Structural)]
pub struct EnchantPlacementPolicy {
    pub enchant: CanonicalEnchant,
    pub slot_family: EnchantSlotFamily,
    pub equipment_mask: EnchantEquipmentMask,
}

impl EnchantPlacementPolicy {
    pub fn applies_to(self, slot: EquipmentSlot) -> (r: bool)
        ensures
            r == self.equipment_mask.has(slot),
    {
        self.equipment_mask.contains(slot)
    }
}

/// Slot is one of the four armor slots.
pub open spec fn spec_is_armor(slot: EquipmentSlot) -> bool {
    slot == EquipmentSlot::Helmet || slot == EquipmentSlot::Chestplate || slot
        == EquipmentSlot::Leggings || slot == EquipmentSlot::Boots
}

/// The complete special/universal family.
pub open spec fn spec_is_special_universal(enchant: CanonicalEnchant) -> bool {
    match enchant {
        E::Stabilize | E::Sparkling | E::Empowering | E::Grinding | E::Mosaic | E::Carving
        | E::Master => true,
        _ => false,
    }
}

/// Which ordinary equipment slots an enchant may be placed on.
pub open spec fn spec_enchant_applies(enchant: CanonicalEnchant, slot: EquipmentSlot) -> bool {
    match enchant {
        E::Stabilize | E::Sparkling | E::Empowering | E::Grinding | E::Mosaic | E::Carving
        | E::Master | E::Unbreaking | E::Mending => true,
        E::Efficiency | E::Fortune | E::PickaxeTreasure | E::Trench | E::Nuke | E::Smelt => slot
            == EquipmentSlot::Pickaxe,
        E::Lure | E::LuckOfTheSea | E::FishingRodTreasure | E::MultiTreasure | E::Luck
        | E::Multicatch | E::Strengthen | E::SharpHook | E::BaitRack => slot
            == EquipmentSlot::FishingRod,
        E::Sharpness | E::Smite | E::BaneOfArthropods | E::SweepingEdge | E::FireAspect
        | E::Looting | E::Knockback | E::Devour | E::Execution | E::Bleeding | E::BloodFrenzy
        | E::ArmorPiercing | E::Piercing | E::Freezing | E::Annihilation => slot
            == EquipmentSlot::Sword,
        E::Protection | E::Thorn | E::NineLife | E::Reinforce | E::SoulGrind => spec_is_armor(slot),
        E::Cat | E::Dog | E::ShadowWalker | E::NightWalker | E::DayWalker => slot
            == EquipmentSlot::Boots,
        E::Dodge => slot == EquipmentSlot::Leggings,
        E::Guardian | E::Phoenix => slot == EquipmentSlot::Chestplate,
        E::Angel | E::Evil => slot == EquipmentSlot::Helmet,
    }
}

/// Where each enchant may be placed: Stabilize, Sparkling, Empowering, Grinding, Mosaic, Carving,
/// Master, Unbreaking and Mending on any ordinary slot; the mining enchants on the Pickaxe; the
/// fishing enchants on the Fishing Rod; the combat enchants on the Sword; Protection, Thorn, Nine
/// Life, Reinforce and Soul Grind on any armor piece; Cat, Dog and the Walkers on Boots; Dodge on
/// Leggings; Guardian and Phoenix on the Chestplate; Angel and Evil on the Helmet. The seven
/// universal enchants from Stabilize to Master, and only they, take a Special/universal slot.
pub proof fn lemma_enchant_placement_table(enchant: CanonicalEnchant, slot: EquipmentSlot)
    ensures
        spec_enchant_applies(enchant, slot) <==> ((enchant == E::Stabilize || enchant == E::Sparkling || enchant == E::Empowering || enchant == E::Grinding || enchant == E::Mosaic || enchant == E::Carving || enchant == E::Master || enchant == E::Unbreaking || enchant == E::Mending)
            || ((enchant == E::Efficiency || enchant == E::Fortune || enchant == E::PickaxeTreasure || enchant == E::Trench || enchant == E::Nuke || enchant == E::Smelt) && slot == EquipmentSlot::Pickaxe)
            || ((enchant == E::Lure || enchant == E::LuckOfTheSea || enchant == E::FishingRodTreasure || enchant == E::MultiTreasure || enchant == E::Luck || enchant == E::Multicatch || enchant == E::Strengthen || enchant == E::SharpHook || enchant == E::BaitRack) && slot == EquipmentSlot::FishingRod)
            || ((enchant == E::Sharpness || enchant == E::Smite || enchant == E::BaneOfArthropods || enchant == E::SweepingEdge || enchant == E::FireAspect || enchant == E::Looting || enchant == E::Knockback || enchant == E::Devour || enchant == E::Execution || enchant == E::Bleeding || enchant == E::BloodFrenzy || enchant == E::ArmorPiercing || enchant == E::Piercing || enchant == E::Freezing || enchant == E::Annihilation) && slot == EquipmentSlot::Sword)
            || ((enchant == E::Cat || enchant == E::Dog || enchant == E::ShadowWalker || enchant == E::NightWalker || enchant == E::DayWalker) && slot == EquipmentSlot::Boots)
            || ((enchant == E::Dodge) && slot == EquipmentSlot::Leggings)
            || ((enchant == E::Guardian || enchant == E::Phoenix) && slot == EquipmentSlot::Chestplate)
            || ((enchant == E::Angel || enchant == E::Evil) && slot == EquipmentSlot::Helmet)
            || ((enchant == E::Protection || enchant == E::Thorn || enchant == E::NineLife || enchant == E::Reinforce || enchant == E::SoulGrind) && (slot == EquipmentSlot::Helmet || slot == EquipmentSlot::Chestplate || slot == EquipmentSlot::Leggings || slot == EquipmentSlot::Boots))),
        spec_is_special_universal(enchant) <==> (enchant == E::Stabilize || enchant == E::Sparkling || enchant == E::Empowering || enchant == E::Grinding || enchant == E::Mosaic || enchant == E::Carving || enchant == E::Master),
{
}

/// Resolves the frozen slot family and ordinary-equipment placement mask for one canonical enchant.
pub fn enchant_placement_policy(enchant: CanonicalEnchant) -> (r: EnchantPlacementPolicy)
    ensures
        r.enchant == enchant,
        r.slot_family == (if spec_is_special_universal(enchant) {
            EnchantSlotFamily::SpecialUniversal
        } else {
            EnchantSlotFamily::NormalClass
        }),
        forall|slot: EquipmentSlot| #[trigger]
            r.equipment_mask.has(slot) == spec_enchant_applies(enchant, slot),
{
    let (slot_family, equipment_mask) = match enchant {
        E::Stabilize | E::Sparkling | E::Empowering | E::Grinding | E::Mosaic | E::Carving
        | E::Master => (F::SpecialUniversal, SLOT_ALL_EQUIPMENT),
        E::Unbreaking | E::Mending => (F::NormalClass, SLOT_ALL_EQUIPMENT),
        E::Efficiency | E::Fortune | E::PickaxeTreasure | E::Trench | E::Nuke | E::Smelt => {
            (F::NormalClass, SLOT_PICKAXE)
        },
        E::Lure | E::LuckOfTheSea | E::FishingRodTreasure | E::MultiTreasure | E::Luck
        | E::Multicatch | E::Strengthen | E::SharpHook | E::BaitRack => {
            (F::NormalClass, SLOT_FISHING_ROD)
        },
        E::Sharpness | E::Smite | E::BaneOfArthropods | E::SweepingEdge | E::FireAspect
        | E::Looting | E::Knockback | E::Devour | E::Execution | E::Bleeding | E::BloodFrenzy
        | E::ArmorPiercing | E::Piercing | E::Freezing | E::Annihilation => {
            (F::NormalClass, SLOT_SWORD)
        },
        E::Protection | E::Thorn | E::NineLife | E::Reinforce | E::SoulGrind => {
            (F::NormalClass, SLOT_ALL_ARMOR)
        },
        E::Cat | E::Dog | E::ShadowWalker | E::NightWalker | E::DayWalker => {
            (F::NormalClass, SLOT_BOOTS)
        },
        E::Dodge => (F::NormalClass, SLOT_LEGGINGS),
        E::Guardian | E::Phoenix => (F::NormalClass, SLOT_CHESTPLATE),
        E::Angel | E::Evil => (F::NormalClass, SLOT_HELMET),
    };
    let r = EnchantPlacementPolicy {
        enchant,
        slot_family,
        equipment_mask: EnchantEquipmentMask(equipment_mask),
    };
    assert forall|slot: EquipmentSlot| #[trigger]
        r.equipment_mask.has(slot) == spec_enchant_applies(enchant, slot) by {
        match slot {
            EquipmentSlot::Pickaxe => {},
            EquipmentSlot::Sword => {},
            EquipmentSlot::FishingRod => {},
            EquipmentSlot::Helmet => {},
            EquipmentSlot::Chestplate => {},
            EquipmentSlot::Leggings => {},
            EquipmentSlot::Boots => {},
        }
    }
    r
}

fn slot_bit(slot: EquipmentSlot) -> (r: u8)
    ensures
        r == spec_slot_weight(slot),
{
    match slot {
        EquipmentSlot::Pickaxe => SLOT_PICKAXE,
        EquipmentSlot::Sword => SLOT_SWORD,
        EquipmentSlot::FishingRod => SLOT_FISHING_ROD,
        EquipmentSlot::Helmet => SLOT_HELMET,
        EquipmentSlot::Chestplate => SLOT_CHESTPLATE,
        EquipmentSlot::Leggings => SLOT_LEGGINGS,
        EquipmentSlot::Boots => SLOT_BOOTS,
    }
}

} // verus!
