use vstd::prelude::*;
use vstd::string::StringExecFns;
use crate::random::random_below;
use crate::text::{decimal, unsigned_text};
use crate::units::{Attribute, DamageType};
use crate::damage::Damage;

verus! {

/// Values that scale with one of the six attributes.
pub trait AttributeScaling {
    /// The attribute the value scales with.
    spec fn scaled_stat(&self) -> Option<Attribute>;

    fn scaling(&self) -> (r: Option<Attribute>)
        ensures
            r == self.scaled_stat(),
    ;
}

/// Values that deal one kind of damage.
pub trait ElementalScaling {
    /// The damage type the value deals.
    spec fn scaled_element(&self) -> Option<DamageType>;

    fn scaling(&self) -> (r: Option<DamageType>)
        ensures
            r == self.scaled_element(),
    ;
}

/// Skills that characters act with.
#[derive(Debug, Clone, Copy, PartialEq, Eq, Hash, Structural)]
pub enum Skill {
    Tornado,
    MagicMissile,
    FireBall,
    WaterBall,
    PoisonFlask,
    Earthquake,
    RadiantIntellect,
    Slash,
    EarthShatter,
    SteelRain,
    Rapture,
    Backstab,
    HolySmite,
    DivineBlessing,
    SuicidalPersuasion,
    Seduction,
    Mesmerize,
    Excoriate,
    ArcaneNeedle,
    PrismaticFlourish,
    ShadowStrike,
    SolarFlareShot,
    FireDance,
    PowerStrike,
    EarthquakeSlam,
    IronFusillade,
    PrismaticHowl,
    MightyBlow,
    NebulaHammer,
    BruteForce,
}

/// What a skill makes of its base damage `d` before the attributes count: a few skills set or
/// raise the damage, the number of hits or the critical hit (multipliers and chances in
/// thousandths); most add five to the damage.
pub open spec fn funky_scaled(skill: Skill, d: Damage) -> Damage {
    match skill {
        Skill::Slash => Damage {
            damage: (d.damage + 10) as i32,
            critical_multiplier: 2000,
            crit_chance: (d.crit_chance + 100) as u64,
            ..d
        },
        Skill::MagicMissile => Damage { number_of_hits: 5, ..d },
        Skill::FireBall => Damage { critical_multiplier: 2500, crit_chance: 150, ..d },
        Skill::WaterBall => Damage { damage: 12, ..d },
        Skill::EarthShatter => Damage { damage: 20, ..d },
        Skill::PoisonFlask => Damage { damage: 5, ..d },
        Skill::ArcaneNeedle => Damage { number_of_hits: 5, ..d },
        Skill::MightyBlow => Damage { damage: (d.damage + 50) as i32, ..d },
        Skill::NebulaHammer => Damage { damage: (d.damage + 50) as i32, ..d },
        Skill::BruteForce => Damage {
            damage: (d.damage + 25) as i32,
            critical_multiplier: (d.critical_multiplier + 2000) as u64,
            ..d
        },
        Skill::RadiantIntellect => Damage {
            crit_chance: (d.crit_chance + 250) as u64,
            critical_multiplier: (d.critical_multiplier + 2000) as u64,
            number_of_hits: 3,
            ..d
        },
        _ => Damage { damage: (d.damage + 5) as i32, ..d },
    }
}

impl Skill {
    /// Applies the skill's own changes to its base damage (see `funky_scaled`).
    pub fn funky_scaling(&self, damage: &mut Damage)
        requires
            old(damage).damage <= i32::MAX - 50,
            old(damage).critical_multiplier <= u64::MAX - 2000,
            old(damage).crit_chance <= u64::MAX - 250,
        ensures
            *final(damage) == funky_scaled(*self, *old(damage)),
    {
        match self {
            Skill::Slash => {
                damage.damage = damage.damage + 10;
                damage.critical_multiplier = 2000;
                damage.crit_chance = damage.crit_chance + 100;
            },
            Skill::MagicMissile => {
                damage.number_of_hits = 5;
            },
            Skill::FireBall => {
                damage.critical_multiplier = 2500;
                damage.crit_chance = 150;
            },
            Skill::WaterBall => {
                damage.damage = 12;
            },
            Skill::EarthShatter => {
                damage.damage = 20;
            },
            Skill::PoisonFlask => {
                damage.damage = 5;
            },
            Skill::ArcaneNeedle => {
                damage.number_of_hits = 5;
            },
            Skill::MightyBlow | Skill::NebulaHammer => {
                damage.damage = damage.damage + 50;
            },
            Skill::BruteForce => {
                damage.damage = damage.damage + 25;
                damage.critical_multiplier = damage.critical_multiplier + 2000;
            },
            Skill::RadiantIntellect => {
                damage.crit_chance = damage.crit_chance + 250;
                damage.critical_multiplier = damage.critical_multiplier + 2000;
                damage.number_of_hits = 3;
            },
            _ => {
                damage.damage = damage.damage + 5;
            },
        }
    }

    /// How a skill is shown to players.
    pub open spec fn label(self) -> Seq<char> {
        match self {
            Skill::Tornado => "🌪️ Tornado 🌪️"@,
            Skill::MagicMissile => "🔮 Magic Missile 🔮"@,
            Skill::FireBall => "🔥 Fire Ball 🔥"@,
            Skill::WaterBall => "💧 Water Ball 💧"@,
            Skill::PoisonFlask => "🌑 Poison Flask 🌑"@,
            Skill::Earthquake => "🌿 Earthquake 🌿"@,
            Skill::RadiantIntellect => "🌟 Radiant Intellect 🌟"@,
            Skill::Slash => "🗡️ Slash 🗡️"@,
            Skill::EarthShatter => "🌎 Earth Shatter 🌎"@,
            Skill::SteelRain => "🔩 Steel Rain 🔩"@,
            Skill::Rapture => "🌟 Rapture 🌟"@,
            Skill::Backstab => "🗡️ Backstab 🗡️"@,
            Skill::HolySmite => "☀️ Holy Smite ☀️"@,
            Skill::DivineBlessing => "🙏 Divine Blessing 🙏"@,
            Skill::SuicidalPersuasion => "🗨️ Suicidal Persuasion 🗨️"@,
            Skill::Seduction => "💋 Seduction 💋"@,
            Skill::Mesmerize => "🌀 Mesmerize 🌀"@,
            Skill::Excoriate => "🔥 Excoriate 🔥"@,
            Skill::ArcaneNeedle => "🔮 Arcane Needle 🔮"@,
            Skill::PrismaticFlourish => "🌈 Prismatic Flourish 🌈"@,
            Skill::ShadowStrike => "🌑 Shadow Strike 🌑"@,
            Skill::SolarFlareShot => "☀️ Solar Flare Shot ☀️"@,
            Skill::FireDance => "🔥 Fire Dance 🔥"@,
            Skill::PowerStrike => "🏋️ Power Strike 🏋️"@,
            Skill::EarthquakeSlam => "🌋 Earthquake Slam 🌋"@,
            Skill::IronFusillade => "⛓️ Iron Fusillade ⛓️"@,
            Skill::PrismaticHowl => "🌈 Prismatic Howl 🌈"@,
            Skill::MightyBlow => "💪 Mighty Blow 💪"@,
            Skill::NebulaHammer => "🌟 Nebula Hammer 🌟"@,
            Skill::BruteForce => "⚔️ Brute Force ⚔️"@,
        }
    }

    /// The text that shows this value to players.
    pub fn to_string(&self) -> (r: String)
        ensures
            r@ == self.label(),
    {
        match self {
            Skill::Tornado => "🌪️ Tornado 🌪️".to_owned(),
            Skill::MagicMissile => "🔮 Magic Missile 🔮".to_owned(),
            Skill::FireBall => "🔥 Fire Ball 🔥".to_owned(),
            Skill::WaterBall => "💧 Water Ball 💧".to_owned(),
            Skill::PoisonFlask => "🌑 Poison Flask 🌑".to_owned(),
            Skill::Earthquake => "🌿 Earthquake 🌿".to_owned(),
            Skill::RadiantIntellect => "🌟 Radiant Intellect 🌟".to_owned(),
            Skill::Slash => "🗡️ Slash 🗡️".to_owned(),
            Skill::EarthShatter => "🌎 Earth Shatter 🌎".to_owned(),
            Skill::SteelRain => "🔩 Steel Rain 🔩".to_owned(),
            Skill::Rapture => "🌟 Rapture 🌟".to_owned(),
            Skill::Backstab => "🗡️ Backstab 🗡️".to_owned(),
            Skill::HolySmite => "☀️ Holy Smite ☀️".to_owned(),
            Skill::DivineBlessing => "🙏 Divine Blessing 🙏".to_owned(),
            Skill::SuicidalPersuasion => "🗨️ Suicidal Persuasion 🗨️".to_owned(),
            Skill::Seduction => "💋 Seduction 💋".to_owned(),
            Skill::Mesmerize => "🌀 Mesmerize 🌀".to_owned(),
            Skill::Excoriate => "🔥 Excoriate 🔥".to_owned(),
            Skill::ArcaneNeedle => "🔮 Arcane Needle 🔮".to_owned(),
            Skill::PrismaticFlourish => "🌈 Prismatic Flourish 🌈".to_owned(),
            Skill::ShadowStrike => "🌑 Shadow Strike 🌑".to_owned(),
            Skill::SolarFlareShot => "☀️ Solar Flare Shot ☀️".to_owned(),
            Skill::FireDance => "🔥 Fire Dance 🔥".to_owned(),
            Skill::PowerStrike => "🏋️ Power Strike 🏋️".to_owned(),
            Skill::EarthquakeSlam => "🌋 Earthquake Slam 🌋".to_owned(),
            Skill::IronFusillade => "⛓️ Iron Fusillade ⛓️".to_owned(),
            Skill::PrismaticHowl => "🌈 Prismatic Howl 🌈".to_owned(),
            Skill::MightyBlow => "💪 Mighty Blow 💪".to_owned(),
            Skill::NebulaHammer => "🌟 Nebula Hammer 🌟".to_owned(),
            Skill::BruteForce => "⚔️ Brute Force ⚔️".to_owned(),
        }
    }

    /// The attribute this value scales with, at zero.
    pub open spec fn stat(self) -> Option<Attribute> {
        match self {
            Skill::Tornado => Some(Attribute::Intelligence(0)),
            Skill::MagicMissile => Some(Attribute::Intelligence(0)),
            Skill::FireBall => Some(Attribute::Intelligence(0)),
            Skill::WaterBall => Some(Attribute::Intelligence(0)),
            Skill::PoisonFlask => Some(Attribute::Intelligence(0)),
            Skill::Earthquake => Some(Attribute::Intelligence(0)),
            Skill::RadiantIntellect => Some(Attribute::Intelligence(0)),
            Skill::Slash => Some(Attribute::Strength(0)),
            Skill::EarthShatter => Some(Attribute::Constitution(0)),
            Skill::SteelRain => Some(Attribute::Strength(0)),
            Skill::Rapture => Some(Attribute::Charisma(0)),
            Skill::Backstab => Some(Attribute::Dexterity(0)),
            Skill::HolySmite => Some(Attribute::Wisdom(0)),
            Skill::DivineBlessing => Some(Attribute::Wisdom(0)),
            Skill::SuicidalPersuasion => Some(Attribute::Charisma(0)),
            Skill::Seduction => Some(Attribute::Charisma(0)),
            Skill::Mesmerize => Some(Attribute::Charisma(0)),
            Skill::Excoriate => Some(Attribute::Charisma(0)),
            Skill::ArcaneNeedle => Some(Attribute::Dexterity(0)),
            Skill::PrismaticFlourish => Some(Attribute::Dexterity(0)),
            Skill::ShadowStrike => Some(Attribute::Dexterity(0)),
            Skill::SolarFlareShot => Some(Attribute::Dexterity(0)),
            Skill::FireDance => Some(Attribute::Dexterity(0)),
            Skill::PowerStrike => Some(Attribute::Strength(0)),
            Skill::EarthquakeSlam => Some(Attribute::Strength(0)),
            Skill::IronFusillade => Some(Attribute::Strength(0)),
            Skill::PrismaticHowl => Some(Attribute::Strength(0)),
            Skill::MightyBlow => Some(Attribute::Strength(0)),
            Skill::NebulaHammer => Some(Attribute::Strength(0)),
            Skill::BruteForce => Some(Attribute::Strength(0)),
        }
    }

    /// The damage type this value deals.
    pub open spec fn element_of(self) -> Option<DamageType> {
        match self {
            Skill::Tornado => Some(DamageType::Air),
            Skill::MagicMissile => Some(DamageType::Arcane),
            Skill::FireBall => Some(DamageType::Fire),
            Skill::WaterBall => Some(DamageType::Water),
            Skill::PoisonFlask => Some(DamageType::Dark),
            Skill::Earthquake => Some(DamageType::Earth),
            Skill::RadiantIntellect => Some(DamageType::Hope),
            Skill::Slash => Some(DamageType::Physical),
            Skill::EarthShatter => Some(DamageType::Earth),
            Skill::SteelRain => Some(DamageType::Iron),
            Skill::Rapture => Some(DamageType::Holy),
            Skill::Backstab => Some(DamageType::Physical),
            Skill::HolySmite => Some(DamageType::Light),
            Skill::DivineBlessing => Some(DamageType::Holy),
            Skill::SuicidalPersuasion => Some(DamageType::Existential),
            Skill::Seduction => Some(DamageType::Despair),
            Skill::Mesmerize => Some(DamageType::Prismatic),
            Skill::Excoriate => Some(DamageType::Fire),
            Skill::ArcaneNeedle => Some(DamageType::Arcane),
            Skill::PrismaticFlourish => Some(DamageType::Prismatic),
            Skill::ShadowStrike => Some(DamageType::Dark),
            Skill::SolarFlareShot => Some(DamageType::Light),
            Skill::FireDance => Some(DamageType::Fire),
            Skill::PowerStrike => Some(DamageType::Physical),
            Skill::EarthquakeSlam => Some(DamageType::Earth),
            Skill::IronFusillade => Some(DamageType::Iron),
            Skill::PrismaticHowl => Some(DamageType::Prismatic),
            Skill::MightyBlow => Some(DamageType::Physical),
            Skill::NebulaHammer => Some(DamageType::NonElemental),
            Skill::BruteForce => Some(DamageType::Physical),
        }
    }

    /// The exclusive upper bound of the random elemental bonus: a hundred for healing, ten otherwise.
    pub open spec fn elemental_cap(self) -> u64 {
        match self.element_of() {
            Some(DamageType::Healing) => 100,
            _ => 10,
        }
    }

    /// A random elemental bonus, at least zero and below `elemental_cap()`.
    pub fn elemental_scaling(&self) -> (r: i32)
        ensures
            0 <= r < self.elemental_cap(),
    {
        let top: u64 = match self.element() {
            Some(DamageType::Healing) => 100,
            _ => 10,
        };
        random_below(top) as i32
    }
}

impl Skill {
    /// The attribute this value scales with, at zero.
    pub fn attribute_scaling(&self) -> (r: Option<Attribute>)
        ensures
            r == self.stat(),
    {
        match self {
            Skill::Tornado => Some(Attribute::Intelligence(0)),
            Skill::MagicMissile => Some(Attribute::Intelligence(0)),
            Skill::FireBall => Some(Attribute::Intelligence(0)),
            Skill::WaterBall => Some(Attribute::Intelligence(0)),
            Skill::PoisonFlask => Some(Attribute::Intelligence(0)),
            Skill::Earthquake => Some(Attribute::Intelligence(0)),
            Skill::RadiantIntellect => Some(Attribute::Intelligence(0)),
            Skill::Slash => Some(Attribute::Strength(0)),
            Skill::EarthShatter => Some(Attribute::Constitution(0)),
            Skill::SteelRain => Some(Attribute::Strength(0)),
            Skill::Rapture => Some(Attribute::Charisma(0)),
            Skill::Backstab => Some(Attribute::Dexterity(0)),
            Skill::HolySmite => Some(Attribute::Wisdom(0)),
            Skill::DivineBlessing => Some(Attribute::Wisdom(0)),
            Skill::SuicidalPersuasion => Some(Attribute::Charisma(0)),
            Skill::Seduction => Some(Attribute::Charisma(0)),
            Skill::Mesmerize => Some(Attribute::Charisma(0)),
            Skill::Excoriate => Some(Attribute::Charisma(0)),
            Skill::ArcaneNeedle => Some(Attribute::Dexterity(0)),
            Skill::PrismaticFlourish => Some(Attribute::Dexterity(0)),
            Skill::ShadowStrike => Some(Attribute::Dexterity(0)),
            Skill::SolarFlareShot => Some(Attribute::Dexterity(0)),
            Skill::FireDance => Some(Attribute::Dexterity(0)),
            Skill::PowerStrike => Some(Attribute::Strength(0)),
            Skill::EarthquakeSlam => Some(Attribute::Strength(0)),
            Skill::IronFusillade => Some(Attribute::Strength(0)),
            Skill::PrismaticHowl => Some(Attribute::Strength(0)),
            Skill::MightyBlow => Some(Attribute::Strength(0)),
            Skill::NebulaHammer => Some(Attribute::Strength(0)),
            Skill::BruteForce => Some(Attribute::Strength(0)),
        }
    }

    /// The damage type this value deals.
    pub fn element(&self) -> (r: Option<DamageType>)
        ensures
            r == self.element_of(),
    {
        match self {
            Skill::Tornado => Some(DamageType::Air),
            Skill::MagicMissile => Some(DamageType::Arcane),
            Skill::FireBall => Some(DamageType::Fire),
            Skill::WaterBall => Some(DamageType::Water),
            Skill::PoisonFlask => Some(DamageType::Dark),
            Skill::Earthquake => Some(DamageType::Earth),
            Skill::RadiantIntellect => Some(DamageType::Hope),
            Skill::Slash => Some(DamageType::Physical),
            Skill::EarthShatter => Some(DamageType::Earth),
            Skill::SteelRain => Some(DamageType::Iron),
            Skill::Rapture => Some(DamageType::Holy),
            Skill::Backstab => Some(DamageType::Physical),
            Skill::HolySmite => Some(DamageType::Light),
            Skill::DivineBlessing => Some(DamageType::Holy),
            Skill::SuicidalPersuasion => Some(DamageType::Existential),
            Skill::Seduction => Some(DamageType::Despair),
            Skill::Mesmerize => Some(DamageType::Prismatic),
            Skill::Excoriate => Some(DamageType::Fire),
            Skill::ArcaneNeedle => Some(DamageType::Arcane),
            Skill::PrismaticFlourish => Some(DamageType::Prismatic),
            Skill::ShadowStrike => Some(DamageType::Dark),
            Skill::SolarFlareShot => Some(DamageType::Light),
            Skill::FireDance => Some(DamageType::Fire),
            Skill::PowerStrike => Some(DamageType::Physical),
            Skill::EarthquakeSlam => Some(DamageType::Earth),
            Skill::IronFusillade => Some(DamageType::Iron),
            Skill::PrismaticHowl => Some(DamageType::Prismatic),
            Skill::MightyBlow => Some(DamageType::Physical),
            Skill::NebulaHammer => Some(DamageType::NonElemental),
            Skill::BruteForce => Some(DamageType::Physical),
        }
    }
}

impl AttributeScaling for Skill {
    open spec fn scaled_stat(&self) -> Option<Attribute> {
        self.stat()
    }

    fn scaling(&self) -> (r: Option<Attribute>) {
        self.attribute_scaling()
    }
}

impl ElementalScaling for Skill {
    open spec fn scaled_element(&self) -> Option<DamageType> {
        self.element_of()
    }

    fn scaling(&self) -> (r: Option<DamageType>) {
        self.element()
    }
}

/// Actions that mobs take.
#[derive(Debug, Clone, Copy, PartialEq, Eq, Hash, Structural)]
pub enum MobAction {
    Bite,
    Claw,
    Stab,
    FireBall,
    SlimeAbsorb,
    Crush,
    Riposte,
    Glare,
    MindBreak,
    Burn,
    Explode,
    NecroticBlast,
    SummonUndead,
    Smash,
    Regenerate,
}

impl MobAction {
    /// How an action is shown to players.
    pub open spec fn label(self) -> Seq<char> {
        match self {
            MobAction::Bite => "🦷 Bite 🦷"@,
            MobAction::Claw => "👊 Claw 👊"@,
            MobAction::Stab => "🔪 Stab 🔪"@,
            MobAction::FireBall => "🔥 Fire Ball 🔥"@,
            MobAction::SlimeAbsorb => "🌟 Slime Absorb 🌟"@,
            MobAction::Crush => "👊 Crush 👊"@,
            MobAction::Riposte => "🗡️ Riposte 🗡️"@,
            MobAction::Glare => "👁️ Glare 👁️"@,
            MobAction::MindBreak => "🔊 Mind Break 🔊"@,
            MobAction::Burn => "📛 Burn 📛"@,
            MobAction::Explode => "💥 Explode 💥"@,
            MobAction::NecroticBlast => "☠️ Necrotic Blast ☠️"@,
            MobAction::SummonUndead => "🧟 Summon Undead 🧟"@,
            MobAction::Smash => "💥 Smash 💥"@,
            MobAction::Regenerate => "🔄 Regenerate 🔄"@,
        }
    }

    /// The text that shows this value to players.
    pub fn to_string(&self) -> (r: String)
        ensures
            r@ == self.label(),
    {
        match self {
            MobAction::Bite => "🦷 Bite 🦷".to_owned(),
            MobAction::Claw => "👊 Claw 👊".to_owned(),
            MobAction::Stab => "🔪 Stab 🔪".to_owned(),
            MobAction::FireBall => "🔥 Fire Ball 🔥".to_owned(),
            MobAction::SlimeAbsorb => "🌟 Slime Absorb 🌟".to_owned(),
            MobAction::Crush => "👊 Crush 👊".to_owned(),
            MobAction::Riposte => "🗡️ Riposte 🗡️".to_owned(),
            MobAction::Glare => "👁️ Glare 👁️".to_owned(),
            MobAction::MindBreak => "🔊 Mind Break 🔊".to_owned(),
            MobAction::Burn => "📛 Burn 📛".to_owned(),
            MobAction::Explode => "💥 Explode 💥".to_owned(),
            MobAction::NecroticBlast => "☠️ Necrotic Blast ☠️".to_owned(),
            MobAction::SummonUndead => "🧟 Summon Undead 🧟".to_owned(),
            MobAction::Smash => "💥 Smash 💥".to_owned(),
            MobAction::Regenerate => "🔄 Regenerate 🔄".to_owned(),
        }
    }

    /// The attribute this value scales with, at zero.
    pub open spec fn stat(self) -> Option<Attribute> {
        match self {
            MobAction::Bite => Some(Attribute::Strength(0)),
            MobAction::Claw => Some(Attribute::Strength(0)),
            MobAction::Stab => Some(Attribute::Strength(0)),
            MobAction::FireBall => Some(Attribute::Intelligence(0)),
            MobAction::SlimeAbsorb => Some(Attribute::Wisdom(0)),
            MobAction::Crush => Some(Attribute::Constitution(0)),
            MobAction::Riposte => Some(Attribute::Dexterity(0)),
            MobAction::Glare => Some(Attribute::Charisma(0)),
            MobAction::MindBreak => Some(Attribute::Charisma(0)),
            MobAction::Burn => Some(Attribute::Intelligence(0)),
            MobAction::Explode => Some(Attribute::Constitution(0)),
            MobAction::NecroticBlast => Some(Attribute::Intelligence(0)),
            MobAction::SummonUndead => Some(Attribute::Intelligence(0)),
            MobAction::Smash => Some(Attribute::Strength(0)),
            MobAction::Regenerate => Some(Attribute::Constitution(0)),
        }
    }

    /// The damage type this value deals.
    pub open spec fn element_of(self) -> Option<DamageType> {
        match self {
            MobAction::Bite => Some(DamageType::Physical),
            MobAction::Claw => Some(DamageType::Physical),
            MobAction::Stab => Some(DamageType::Physical),
            MobAction::FireBall => Some(DamageType::Fire),
            MobAction::SlimeAbsorb => Some(DamageType::Holy),
            MobAction::Crush => Some(DamageType::Physical),
            MobAction::Riposte => Some(DamageType::Physical),
            MobAction::Glare => Some(DamageType::Dark),
            MobAction::MindBreak => Some(DamageType::Existential),
            MobAction::Burn => Some(DamageType::Fire),
            MobAction::Explode => Some(DamageType::Boss),
            MobAction::NecroticBlast => Some(DamageType::Dark),
            MobAction::SummonUndead => Some(DamageType::Existential),
            MobAction::Smash => Some(DamageType::Physical),
            MobAction::Regenerate => Some(DamageType::Healing),
        }
    }

    /// The exclusive upper bound of the random elemental bonus: a hundred for healing, ten otherwise.
    pub open spec fn elemental_cap(self) -> u64 {
        match self.element_of() {
            Some(DamageType::Healing) => 100,
            _ => 10,
        }
    }

    /// A random elemental bonus, at least zero and below `elemental_cap()`.
    pub fn elemental_scaling(&self) -> (r: i32)
        ensures
            0 <= r < self.elemental_cap(),
    {
        let top: u64 = match self.element() {
            Some(DamageType::Healing) => 100,
            _ => 10,
        };
        random_below(top) as i32
    }
}

impl MobAction {
    /// The attribute this value scales with, at zero.
    pub fn attribute_scaling(&self) -> (r: Option<Attribute>)
        ensures
            r == self.stat(),
    {
        match self {
            MobAction::Bite => Some(Attribute::Strength(0)),
            MobAction::Claw => Some(Attribute::Strength(0)),
            MobAction::Stab => Some(Attribute::Strength(0)),
            MobAction::FireBall => Some(Attribute::Intelligence(0)),
            MobAction::SlimeAbsorb => Some(Attribute::Wisdom(0)),
            MobAction::Crush => Some(Attribute::Constitution(0)),
            MobAction::Riposte => Some(Attribute::Dexterity(0)),
            MobAction::Glare => Some(Attribute::Charisma(0)),
            MobAction::MindBreak => Some(Attribute::Charisma(0)),
            MobAction::Burn => Some(Attribute::Intelligence(0)),
            MobAction::Explode => Some(Attribute::Constitution(0)),
            MobAction::NecroticBlast => Some(Attribute::Intelligence(0)),
            MobAction::SummonUndead => Some(Attribute::Intelligence(0)),
            MobAction::Smash => Some(Attribute::Strength(0)),
            MobAction::Regenerate => Some(Attribute::Constitution(0)),
        }
    }

    /// The damage type this value deals.
    pub fn element(&self) -> (r: Option<DamageType>)
        ensures
            r == self.element_of(),
    {
        match self {
            MobAction::Bite => Some(DamageType::Physical),
            MobAction::Claw => Some(DamageType::Physical),
            MobAction::Stab => Some(DamageType::Physical),
            MobAction::FireBall => Some(DamageType::Fire),
            MobAction::SlimeAbsorb => Some(DamageType::Holy),
            MobAction::Crush => Some(DamageType::Physical),
            MobAction::Riposte => Some(DamageType::Physical),
            MobAction::Glare => Some(DamageType::Dark),
            MobAction::MindBreak => Some(DamageType::Existential),
            MobAction::Burn => Some(DamageType::Fire),
            MobAction::Explode => Some(DamageType::Boss),
            MobAction::NecroticBlast => Some(DamageType::Dark),
            MobAction::SummonUndead => Some(DamageType::Existential),
            MobAction::Smash => Some(DamageType::Physical),
            MobAction::Regenerate => Some(DamageType::Healing),
        }
    }
}

impl AttributeScaling for MobAction {
    open spec fn scaled_stat(&self) -> Option<Attribute> {
        self.stat()
    }

    fn scaling(&self) -> (r: Option<Attribute>) {
        self.attribute_scaling()
    }
}

impl ElementalScaling for MobAction {
    open spec fn scaled_element(&self) -> Option<DamageType> {
        self.element_of()
    }

    fn scaling(&self) -> (r: Option<DamageType>) {
        self.element()
    }
}

/// A skill a character knows, with its own experience and level.
#[derive(Debug, Clone, Copy)]
pub struct SkillSet {
    pub skill: Skill,
    pub experience: u64,
    pub active: bool,
    pub level: u32,
}

impl Default for SkillSet {
    fn default() -> (r: SkillSet)
        ensures
            r.skill == Skill::Slash,
            r.experience == 0,
            !r.active,
            r.level == 1,
    {
        SkillSet { skill: Skill::Slash, experience: 0, active: false, level: 1 }
    }
}

impl SkillSet {
    pub fn new(skill: Skill) -> (r: SkillSet)
        ensures
            r.skill == skill,
            r.experience == 0,
            r.active,
            r.level == 1,
    {
        SkillSet { skill, experience: 0, active: true, level: 1 }
    }

    /// The skill set as shown in a message: the skill, its level and experience, in a block.
    pub fn to_string(&self) -> (r: String)
        ensures
            r@ == "```\nSkill: "@ + self.skill.label() + "\nLevel: "@ + decimal(self.level as nat) + "\nExperience: "@
                + decimal(self.experience as nat) + "\n\n```"@,
    {
        let mut text = "```\nSkill: ".to_owned();
        text.append(self.skill.to_string().as_str());
        text.append("\nLevel: ");
        text.append(unsigned_text(self.level as u64).as_str());
        text.append("\nExperience: ");
        text.append(unsigned_text(self.experience).as_str());
        text.append("\n\n```");
        text
    }

    pub fn skill(&self) -> (r: Skill)
        ensures
            r == self.skill,
    {
        self.skill
    }

    /// The damage bonus of the skill's level: ten per level.
    pub fn action_experience_scaling(&self) -> (r: i32)
        requires
            self.level * 10 <= i32::MAX,
        ensures
            r == self.level * 10,
    {
        (self.level * 10) as i32
    }

    /// Raises the level while the experience reaches what the current level needs
    /// (`next(level)`), each time taking away (down to zero) what the new level needs (see
    /// `leveled`).
    pub fn try_level_up(&mut self, next: impl Fn(u32) -> u64)
        requires
            forall|l: u32| #[trigger] next.requires((l,)),
            forall|l: u32, r: u64| next.ensures((l,), r) ==> r >= 1,
            forall|l: u32, r1: u64, r2: u64| next.ensures((l,), r1) && next.ensures((l,), r2) ==> r1 == r2,
            leveled(old(self).level as int, old(self).experience as int, need_of(next)).0 <= u32::MAX,
        ensures
            final(self).skill == old(self).skill,
            final(self).active == old(self).active,
            (final(self).level as int, final(self).experience as int) == leveled(
                old(self).level as int,
                old(self).experience as int,
                need_of(next),
            ),
    {
        let ghost start_level = self.level;
        let ghost start_exp = self.experience;
        let mut threshold = next(self.level);
        proof {
            lemma_need_is(next, self.level, threshold);
        }
        while self.experience >= threshold
            invariant
                forall|l: u32| #[trigger] next.requires((l,)),
                forall|l: u32, r: u64| next.ensures((l,), r) ==> r >= 1,
                forall|l: u32, r1: u64, r2: u64| next.ensures((l,), r1) && next.ensures((l,), r2) ==> r1 == r2,
                need_of(next)(self.level as int) == threshold,
                threshold >= 1,
                self.skill == old(self).skill,
                self.active == old(self).active,
                start_level == old(self).level,
                start_exp == old(self).experience,
                start_level <= self.level,
                self.experience <= start_exp,
                leveled(start_level as int, start_exp as int, need_of(next)).0 <= u32::MAX,
                leveled(self.level as int, self.experience as int, need_of(next)) == leveled(
                    start_level as int,
                    start_exp as int,
                    need_of(next),
                ),
            decreases self.experience,
        {
            let ghost lvl = self.level;
            let ghost exp = self.experience;
            proof {
                lemma_leveled_at_least(
                    (lvl + 1) as int,
                    if exp >= need_of(next)((lvl + 1) as int) { exp - need_of(next)((lvl + 1) as int) } else { 0 },
                    need_of(next),
                );
            }
            self.level = self.level + 1;
            let needed = next(self.level);
            proof {
                lemma_need_is(next, self.level, needed);
            }
            self.experience = self.experience.saturating_sub(needed);
            threshold = needed;
            proof {
                lemma_need_is(next, (lvl + 1) as u32, needed);
                assert(leveled(lvl as int, exp as int, need_of(next)) == leveled(
                    self.level as int,
                    self.experience as int,
                    need_of(next),
                ));
            }
        }
    }
}

/// Leveling up never lowers the level.
proof fn lemma_leveled_at_least(level: int, exp: int, need: spec_fn(int) -> int)
    ensures
        leveled(level, exp, need).0 >= level,
    decreases exp,
{
    if exp >= 1 && exp >= need(level) && need(level) >= 1 && need(level + 1) >= 1 {
        lemma_leveled_at_least(level + 1, if exp >= need(level + 1) { exp - need(level + 1) } else { 0 }, need);
    }
}

/// The experience level `l` needs, as `next` gives it.
pub open spec fn need_of<F: Fn(u32) -> u64>(next: F) -> spec_fn(int) -> int {
    |l: int|
        if 0 <= l <= u32::MAX {
            (choose|r: u64| #[trigger] next.ensures((l as u32,), r)) as int
        } else {
            1
        }
}

/// The level and experience after leveling up from `level` with `exp` experience, `need(l)`
/// being what level `l` needs: while the experience reaches what the current level needs,
/// the level goes up by one and the experience loses (down to zero) what the new level needs.
pub open spec fn leveled(level: int, exp: int, need: spec_fn(int) -> int) -> (int, int)
    decreases exp,
{
    if exp >= 1 && exp >= need(level) && need(level) >= 1 && need(level + 1) >= 1 {
        leveled(level + 1, if exp >= need(level + 1) { exp - need(level + 1) } else { 0 }, need)
    } else {
        (level, exp)
    }
}

/// Levelling up never lowers the level nor raises the experience, and it stops only once
/// the experience left no longer reaches what the reached level needs: where every level
/// needs at least one point, a skill that was levelled up cannot level up again.
pub proof fn law_levelling_stops_below_need(level: int, exp: int, need: spec_fn(int) -> int)
    requires
        exp >= 0,
        forall|l: int| #[trigger] need(l) >= 1,
    ensures
        leveled(level, exp, need).0 >= level,
        0 <= leveled(level, exp, need).1 <= exp,
        leveled(level, exp, need).1 < need(leveled(level, exp, need).0),
        leveled(leveled(level, exp, need).0, leveled(level, exp, need).1, need) == leveled(level, exp, need),
    decreases exp,
{
    assert(need(level) >= 1 && need(level + 1) >= 1);
    if exp >= 1 && exp >= need(level) {
        let next_exp = if exp >= need(level + 1) { exp - need(level + 1) } else { 0 };
        law_levelling_stops_below_need(level + 1, next_exp, need);
    }
    let (l2, e2) = leveled(level, exp, need);
    assert(need(l2) >= 1 && need(l2 + 1) >= 1);
}

/// What `next` gives for a level is what `need_of(next)` says it needs.
proof fn lemma_need_is<F: Fn(u32) -> u64>(next: F, l: u32, r: u64)
    requires
        next.ensures((l,), r),
        forall|l: u32, r1: u64, r2: u64| next.ensures((l,), r1) && next.ensures((l,), r2) ==> r1 == r2,
    ensures
        need_of(next)(l as int) == r,
{
    let c = choose|x: u64| #[trigger] next.ensures((l,), x);
    assert(next.ensures((l,), c));
}

} // verus!
