use vstd::prelude::*;
use crate::skills::{AttributeScaling, Skill};
use crate::units::Attribute;

verus! {

/// The classes a character can choose.
#[derive(Debug, Clone, Copy, PartialEq, Eq, Hash, Structural)]
pub enum Classes {
    Warrior,
    Wizard,
    Sorcerer,
    Paladin,
}

impl Classes {
    /// How a class is shown to players.
    pub open spec fn label(self) -> Seq<char> {
        match self {
            Classes::Warrior => "⚔️ Warrior ⚔️"@,
            Classes::Wizard => "🧙‍♂️ Wizard 🧙‍♂️"@,
            Classes::Sorcerer => "🧙‍♀️ Sorcerer 🧙‍♀️"@,
            Classes::Paladin => "🛡️ Paladin 🛡️"@,
        }
    }

    /// The text that shows this value to players.
    pub fn to_string(&self) -> (r: String)
        ensures
            r@ == self.label(),
    {
        match self {
            Classes::Warrior => "⚔️ Warrior ⚔️".to_owned(),
            Classes::Wizard => "🧙‍♂️ Wizard 🧙‍♂️".to_owned(),
            Classes::Sorcerer => "🧙‍♀️ Sorcerer 🧙‍♀️".to_owned(),
            Classes::Paladin => "🛡️ Paladin 🛡️".to_owned(),
        }
    }

    /// The attribute this value scales with, at zero.
    pub open spec fn stat(self) -> Option<Attribute> {
        match self {
            Classes::Warrior => Some(Attribute::Strength(0)),
            Classes::Wizard => Some(Attribute::Intelligence(0)),
            Classes::Sorcerer => Some(Attribute::Wisdom(0)),
            Classes::Paladin => Some(Attribute::Charisma(0)),
        }
    }

    /// The name of the attribute the class scales with.
    pub open spec fn stat_name(self) -> Seq<char> {
        match self {
            Classes::Warrior => "strength"@,
            Classes::Wizard => "intelligence"@,
            Classes::Sorcerer => "wisdom"@,
            Classes::Paladin => "charisma"@,
        }
    }

    /// The skill a class starts with.
    pub open spec fn starting_skill(self) -> Skill {
        match self {
            Classes::Warrior => Skill::Slash,
            Classes::Wizard => Skill::MagicMissile,
            Classes::Sorcerer => Skill::FireBall,
            Classes::Paladin => Skill::Rapture,
        }
    }

    pub fn action(&self) -> (r: Skill)
        ensures
            r == self.starting_skill(),
    {
        match self {
            Classes::Warrior => Skill::Slash,
            Classes::Wizard => Skill::MagicMissile,
            Classes::Sorcerer => Skill::FireBall,
            Classes::Paladin => Skill::Rapture,
        }
    }

    /// The name of the attribute the class scales with.
    pub fn scaling(&self) -> (r: String)
        ensures
            r@ == self.stat_name(),
    {
        match self {
            Classes::Warrior => "strength".to_owned(),
            Classes::Wizard => "intelligence".to_owned(),
            Classes::Sorcerer => "wisdom".to_owned(),
            Classes::Paladin => "charisma".to_owned(),
        }
    }

    /// The attribute the class scales with, at zero.
    pub fn attribute_scaling(&self) -> (r: Option<Attribute>)
        ensures
            r == self.stat(),
    {
        match self {
            Classes::Warrior => Some(Attribute::Strength(0)),
            Classes::Wizard => Some(Attribute::Intelligence(0)),
            Classes::Sorcerer => Some(Attribute::Wisdom(0)),
            Classes::Paladin => Some(Attribute::Charisma(0)),
        }
    }
}

impl AttributeScaling for Classes {
    open spec fn scaled_stat(&self) -> Option<Attribute> {
        self.stat()
    }

    fn scaling(&self) -> (r: Option<Attribute>) {
        self.attribute_scaling()
    }
}

} // verus!
