use vstd::prelude::*;
use crate::dice::{fresh_dice, Dice, Die};
use crate::items::{EquipmentSlot, Rarity};
use crate::units::{attributes_with, Attribute, Attributes, DamageType};

verus! {

/// A number of dice of one kind, as item files describe them.
#[derive(Debug, Clone, Copy)]
pub struct SerialDie {
    pub die: Die,
    pub quantity: usize,
}

impl SerialDie {
    pub fn new(die: Die, quantity: usize) -> (r: SerialDie)
        ensures
            r.die == die,
            r.quantity == quantity,
    {
        SerialDie { die, quantity }
    }

    /// `quantity` fresh dice of the kind.
    pub fn to_die(&self) -> (r: Dice)
        ensures
            r.dice@ == fresh_dice(self.die, self.quantity as nat),
    {
        Dice::new_from(self.die, self.quantity)
    }
}

/// Attribute bonuses as item files describe them.
#[derive(Debug, Clone, Copy)]
pub struct SerialAttributes {
    pub strength: i32,
    pub dexterity: i32,
    pub constitution: i32,
    pub intelligence: i32,
    pub wisdom: i32,
    pub charisma: i32,
}

impl SerialAttributes {
    pub fn zero() -> (r: SerialAttributes)
        ensures
            r.strength == 0 && r.dexterity == 0 && r.constitution == 0,
            r.intelligence == 0 && r.wisdom == 0 && r.charisma == 0,
    {
        SerialAttributes { strength: 0, dexterity: 0, constitution: 0, intelligence: 0, wisdom: 0, charisma: 0 }
    }

    /// The attributes holding these bonuses.
    pub fn to_attributes(&self) -> (r: Attributes)
        requires
            self.strength >= 0 && self.dexterity >= 0 && self.constitution >= 0,
            self.intelligence >= 0 && self.wisdom >= 0 && self.charisma >= 0,
        ensures
            r == attributes_with(
                self.strength as u32,
                self.intelligence as u32,
                self.dexterity as u32,
                self.constitution as u32,
                self.wisdom as u32,
                self.charisma as u32,
            ),
    {
        Attributes {
            strength: Attribute::Strength(self.strength as u32),
            intelligence: Attribute::Intelligence(self.intelligence as u32),
            dexterity: Attribute::Dexterity(self.dexterity as u32),
            constitution: Attribute::Constitution(self.constitution as u32),
            wisdom: Attribute::Wisdom(self.wisdom as u32),
            charisma: Attribute::Charisma(self.charisma as u32),
        }
    }
}

/// An item with everything it grants.
#[derive(Debug, Clone)]
pub struct IndividualItem {
    pub name: String,
    pub description: String,
    pub slot: EquipmentSlot,
    pub armor: Dice,
    pub resistance: Vec<(DamageType, Dice)>,
    pub damage: Vec<(DamageType, Dice)>,
    pub attribute_bonus: Attributes,
    pub rarity: Rarity,
    pub action: u32,
    pub value: u64,
}

/// Each entry pairs the listed damage type with fresh dice of the listed kind and number.
pub open spec fn dice_table_matches(v: Seq<(DamageType, Dice)>, t: Seq<(DamageType, Die, nat)>) -> bool {
    &&& v.len() == t.len()
    &&& forall|i: int| 0 <= i < v.len() ==> (#[trigger] v[i]).0 == t[i].0 && v[i].1.dice@ == fresh_dice(t[i].1, t[i].2)
}

} // verus!
