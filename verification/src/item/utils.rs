//! Small helper records the item components build on: durability
//! thresholds, texture descriptors, repair entries and the fixed item
//! vocabularies.

use crate::vio::{Identifier, IntoText};
use vstd::prelude::*;

verus! {

/// The slot an enchantment applies to.
#[derive(Clone, Copy, Debug)]
pub enum EnchantableSlot {
    ArmorFeet,
    ArmorTorso,
    ArmorHead,
    ArmorLegs,
    Axe,
    Bow,
    CosmeticHead,
    Crossbow,
    Elytra,
    FishingRod,
    FlintSteel,
    Hoe,
    Pickaxe,
    Shears,
    Shield,
    Shovel,
    Sword,
    All,
}

impl Default for EnchantableSlot {
    fn default() -> (r: Self)
        ensures
            r is All,
    {
        EnchantableSlot::All
    }
}

/// A durability level with optional effects on reaching it.
#[derive(Clone, Debug)]
pub struct DurabilityThreshold {
    pub durability: i32,
    pub sound_effect: Option<String>,
    pub particle_type: Option<Identifier>,
}

impl DurabilityThreshold {
    pub fn new(durability: i32) -> (r: Self)
        ensures
            r.durability == durability,
            r.sound_effect is None,
            r.particle_type is None,
    {
        Self { durability, sound_effect: None, particle_type: None }
    }

    /// A copy with the given sound effect; the receiver stays untouched.
    pub fn using_sound_effect<S: IntoText>(&mut self, src: S) -> (r: Self)
        ensures
            *final(self) == *old(self),
            r.durability == old(self).durability,
            r.sound_effect matches Some(e) && e@ == src.chars(),
            r.particle_type == old(self).particle_type,
    {
        Self {
            durability: self.durability,
            sound_effect: Some(src.to_text()),
            particle_type: match &self.particle_type {
                Some(p) => Some(p.duplicate()),
                None => None,
            },
        }
    }

    /// A copy with the given particle type; the receiver stays untouched.
    pub fn using_particle_type(&mut self, src: Identifier) -> (r: Self)
        ensures
            *final(self) == *old(self),
            r.durability == old(self).durability,
            r.particle_type == Some(src),
            match (r.sound_effect, old(self).sound_effect) {
                (Some(a), Some(b)) => a@ == b@,
                (None, None) => true,
                _ => false,
            },
    {
        Self {
            durability: self.durability,
            sound_effect: match &self.sound_effect {
                Some(s) => Some(s.clone()),
                None => None,
            },
            particle_type: Some(src),
        }
    }
}

/// The textures of an item: a default and optional dyed and trim variants.
#[derive(Clone, Debug)]
pub struct ItemTextureDescriptor {
    pub default: String,
    pub dyed: Option<String>,
    pub icon_trim: Option<String>,
}

impl ItemTextureDescriptor {
    pub fn new<S: IntoText>(default: S) -> (r: Self)
        ensures
            r.default@ == default.chars(),
            r.dyed is None,
            r.icon_trim is None,
    {
        Self { default: default.to_text(), dyed: None, icon_trim: None }
    }

    /// The descriptor with a dyed variant.
    pub fn using_dyed<S: IntoText>(self, src: S) -> (r: Self)
        ensures
            r.default == self.default,
            r.dyed matches Some(d) && d@ == src.chars(),
            r.icon_trim == self.icon_trim,
    {
        Self { dyed: Some(src.to_text()), default: self.default, icon_trim: self.icon_trim }
    }

    /// The descriptor with a trim variant.
    pub fn using_icon_trim<S: IntoText>(self, src: S) -> (r: Self)
        ensures
            r.default == self.default,
            r.icon_trim matches Some(t) && t@ == src.chars(),
            r.dyed == self.dyed,
    {
        Self { icon_trim: Some(src.to_text()), default: self.default, dyed: self.dyed }
    }
}

/// One way of repairing an item and what it restores.
#[derive(Clone, Debug)]
pub struct ItemRepairEntry {
    pub items: Vec<String>,
    pub repair_amount: String,
}

impl ItemRepairEntry {
    pub fn new<S: IntoText, A: IntoText>(items: Vec<S>, amount: A) -> (r: Self)
        ensures
            r.items@.len() == items@.len(),
            forall|i: int| 0 <= i < items@.len() ==> (#[trigger] r.items@[i])@ == items@[i].chars(),
            r.repair_amount@ == amount.chars(),
    {
        let mut owned: Vec<String> = Vec::new();
        let mut i: usize = 0;
        while i < items.len()
            invariant
                i <= items@.len(),
                owned@.len() == i,
                forall|j: int| 0 <= j < i ==> (#[trigger] owned@[j])@ == items@[j].chars(),
            decreases items@.len() - i,
        {
            owned.push(items[i].to_text());
            i = i + 1;
        }
        Self { items: owned, repair_amount: amount.to_text() }
    }
}

/// How rare an item is.
#[derive(Clone, Copy, Debug)]
pub enum ItemRarity {
    Rare,
    Common,
    Uncommon,
    Epic,
}

impl Default for ItemRarity {
    fn default() -> (r: Self)
        ensures
            r is Common,
    {
        ItemRarity::Common
    }
}

/// The animation an item plays while used.
#[derive(Clone, Copy, Debug)]
pub enum ItemAnimation {
    Eat,
    Drink,
    Bow,
    Block,
    Camera,
    Crossbow,
    NoAnimation,
    Brush,
    Spear,
    Spyglass,
}

impl Default for ItemAnimation {
    fn default() -> (r: Self)
        ensures
            r is NoAnimation,
    {
        ItemAnimation::NoAnimation
    }
}

/// The slot a wearable item occupies.
#[derive(Clone, Copy, Debug)]
pub enum ItemWearableSlot {
    WeaponOffhand,
    ArmorHead,
    ArmorChest,
    ArmorLegs,
    ArmorFeet,
}

impl ItemWearableSlot {
    /// The serialized slot name.
    pub open spec fn slot_text(&self) -> Seq<char> {
        match self {
            ItemWearableSlot::WeaponOffhand => "slot.weapon.offhand"@,
            ItemWearableSlot::ArmorHead => "slot.armor.head"@,
            ItemWearableSlot::ArmorChest => "slot.armor.chest"@,
            ItemWearableSlot::ArmorLegs => "slot.armor.legs"@,
            ItemWearableSlot::ArmorFeet => "slot.armor.feet"@,
        }
    }

    /// The slot name this value serializes to.
    pub fn str_slot(&self) -> (r: &str)
        ensures
            r@ == self.slot_text(),
    {
        match self {
            ItemWearableSlot::WeaponOffhand => "slot.weapon.offhand",
            ItemWearableSlot::ArmorHead => "slot.armor.head",
            ItemWearableSlot::ArmorChest => "slot.armor.chest",
            ItemWearableSlot::ArmorLegs => "slot.armor.legs",
            ItemWearableSlot::ArmorFeet => "slot.armor.feet",
        }
    }
}

impl Default for ItemWearableSlot {
    fn default() -> (r: Self)
        ensures
            r is WeaponOffhand,
    {
        ItemWearableSlot::WeaponOffhand
    }
}

} // verus!
