use vstd::prelude::*;
use crate::dice::{fresh_dice, Die};
use crate::item_templates::{dice_table_matches, IndividualItem, SerialAttributes, SerialDie};
use crate::items::{EquipmentSlot, Rarity};
use crate::random::random_range;
use crate::units::{attributes_with, DamageType};

verus! {

/// The item template of the Venomweave Gloves.
#[derive(Debug, Clone, PartialEq, Eq, Structural)]
pub struct VenomweaveGloves {}

impl VenomweaveGloves {
    pub fn generate(&self) -> (r: IndividualItem)
        ensures
            template_matches(r, ItemsWeHave::VenomweaveGloves),
    {
        let resistance = vec![(DamageType::Despair, SerialDie { die: Die::D12, quantity: 2 }.to_die())];
        let damage = vec![(DamageType::Despair, SerialDie { die: Die::D10, quantity: 2 }.to_die())];
        assert(dice_table_matches(resistance@, seq![(DamageType::Despair, Die::D12, 2nat)]));
        assert(dice_table_matches(damage@, seq![(DamageType::Despair, Die::D10, 2nat)]));
        IndividualItem {
            name: "Venomweave Gloves".to_owned(),
            description: "The Venomweave Gloves are an extraordinary creation designed for the master of poisons and toxins. Crafted from the hides of venomous creatures and enchanted with ancient alchemical sigils, these gloves empower the wearer to control and unleash potent venoms with deadly precision. The fingertips are adorned with shimmering emerald gems that glisten with a malevolent gleam.".to_owned(),
            slot: EquipmentSlot::Hands,
            armor: SerialDie { die: Die::D4, quantity: 0 }.to_die(),
            resistance,
            damage,
            attribute_bonus: SerialAttributes::zero().to_attributes(),
            rarity: Rarity::Legendary,
            action: 0,
            value: 300,
        }
    }
}

/// The item template of the Prismari Primer.
#[derive(Debug, Clone, PartialEq, Eq, Structural)]
pub struct PrismariPrimer {}

impl PrismariPrimer {
    pub fn generate(&self) -> (r: IndividualItem)
        ensures
            template_matches(r, ItemsWeHave::PrismariPrimer),
    {
        let resistance = vec![];
        let damage = vec![];
        assert(dice_table_matches(resistance@, seq![]));
        assert(dice_table_matches(damage@, seq![]));
        IndividualItem {
            name: "Prismari Primer".to_owned(),
            description: "A magical tome filled with intricate diagrams and colorful illustrations. It grants the reader a deeper understanding of arcane arts.".to_owned(),
            slot: EquipmentSlot::WondrousItem,
            armor: SerialDie { die: Die::D4, quantity: 0 }.to_die(),
            resistance,
            damage,
            attribute_bonus: SerialAttributes { strength: 0, dexterity: 0, constitution: 0, intelligence: 5, wisdom: 0, charisma: 0 }.to_attributes(),
            rarity: Rarity::Rare,
            action: 0,
            value: 75,
        }
    }
}

/// The item template of the Wand of Abyssal Desolation.
#[derive(Debug, Clone, PartialEq, Eq, Structural)]
pub struct WandOfAbyssalDesolation {}

impl WandOfAbyssalDesolation {
    pub fn generate(&self) -> (r: IndividualItem)
        ensures
            template_matches(r, ItemsWeHave::WandOfAbyssalDesolation),
    {
        let resistance = vec![];
        let damage = vec![(DamageType::Existential, SerialDie { die: Die::D12, quantity: 10 }.to_die()), (DamageType::Despair, SerialDie { die: Die::D20, quantity: 10 }.to_die())];
        assert(dice_table_matches(resistance@, seq![]));
        assert(dice_table_matches(damage@, seq![(DamageType::Existential, Die::D12, 10nat), (DamageType::Despair, Die::D20, 10nat)]));
        IndividualItem {
            name: "Wand of Abyssal Desolation".to_owned(),
            description: "The Wand of Abyssal Desolation is a sinister artifact, brimming with the malevolent forces of darkness and despair. It is a conduit to the very heart of existential dread. The wand's ebony wood is adorned with ominous runes that pulse with an eerie, purplish glow when it's in use.".to_owned(),
            slot: EquipmentSlot::Weapon,
            armor: SerialDie { die: Die::D4, quantity: 0 }.to_die(),
            resistance,
            damage,
            attribute_bonus: SerialAttributes { strength: 0, dexterity: 0, constitution: 0, intelligence: 10, wisdom: 0, charisma: 5 }.to_attributes(),
            rarity: Rarity::Legendary,
            action: 0,
            value: 260,
        }
    }
}

/// The item template of the Amulet of Arcane Ascendance.
#[derive(Debug, Clone, PartialEq, Eq, Structural)]
pub struct AmuletOfArcaneAscendance {}

impl AmuletOfArcaneAscendance {
    pub fn generate(&self) -> (r: IndividualItem)
        ensures
            template_matches(r, ItemsWeHave::AmuletOfArcaneAscendance),
    {
        let resistance = vec![(DamageType::Fire, SerialDie { die: Die::D8, quantity: 2 }.to_die()), (DamageType::Air, SerialDie { die: Die::D8, quantity: 2 }.to_die()), (DamageType::Prismatic, SerialDie { die: Die::D8, quantity: 2 }.to_die()), (DamageType::Arcane, SerialDie { die: Die::D8, quantity: 2 }.to_die()), (DamageType::Water, SerialDie { die: Die::D8, quantity: 2 }.to_die()), (DamageType::Despair, SerialDie { die: Die::D8, quantity: 2 }.to_die()), (DamageType::Earth, SerialDie { die: Die::D8, quantity: 2 }.to_die())];
        let damage = vec![(DamageType::Fire, SerialDie { die: Die::D8, quantity: 2 }.to_die()), (DamageType::Earth, SerialDie { die: Die::D8, quantity: 2 }.to_die()), (DamageType::Air, SerialDie { die: Die::D8, quantity: 2 }.to_die()), (DamageType::Arcane, SerialDie { die: Die::D8, quantity: 2 }.to_die()), (DamageType::Water, SerialDie { die: Die::D8, quantity: 2 }.to_die()), (DamageType::Prismatic, SerialDie { die: Die::D8, quantity: 2 }.to_die())];
        assert(dice_table_matches(resistance@, seq![(DamageType::Fire, Die::D8, 2nat), (DamageType::Air, Die::D8, 2nat), (DamageType::Prismatic, Die::D8, 2nat), (DamageType::Arcane, Die::D8, 2nat), (DamageType::Water, Die::D8, 2nat), (DamageType::Despair, Die::D8, 2nat), (DamageType::Earth, Die::D8, 2nat)]));
        assert(dice_table_matches(damage@, seq![(DamageType::Fire, Die::D8, 2nat), (DamageType::Earth, Die::D8, 2nat), (DamageType::Air, Die::D8, 2nat), (DamageType::Arcane, Die::D8, 2nat), (DamageType::Water, Die::D8, 2nat), (DamageType::Prismatic, Die::D8, 2nat)]));
        IndividualItem {
            name: "Amulet of Arcane Ascendance".to_owned(),
            description: "The Amulet of Arcane Ascendance is a relic of unparalleled mystic potency, a treasure coveted by scholars and sorcerers alike. Its centerpiece is a luminous sapphire, deep blue like the heart of a crystal-clear ocean, nestled within an ornate silver setting. The sapphire's facets shimmer with an ethereal radiance, revealing an otherworldly cosmos swirling within.".to_owned(),
            slot: EquipmentSlot::Amulet,
            armor: SerialDie { die: Die::D4, quantity: 0 }.to_die(),
            resistance,
            damage,
            attribute_bonus: SerialAttributes::zero().to_attributes(),
            rarity: Rarity::Artifact,
            action: 0,
            value: 500,
        }
    }
}

/// The item template of the Arcane Reliquary of Power.
#[derive(Debug, Clone, PartialEq, Eq, Structural)]
pub struct ArcaneReliquaryOfPower {}

impl ArcaneReliquaryOfPower {
    pub fn generate(&self) -> (r: IndividualItem)
        ensures
            template_matches(r, ItemsWeHave::ArcaneReliquaryOfPower),
    {
        let resistance = vec![(DamageType::Arcane, SerialDie { die: Die::D20, quantity: 4 }.to_die())];
        let damage = vec![(DamageType::Arcane, SerialDie { die: Die::D20, quantity: 4 }.to_die())];
        assert(dice_table_matches(resistance@, seq![(DamageType::Arcane, Die::D20, 4nat)]));
        assert(dice_table_matches(damage@, seq![(DamageType::Arcane, Die::D20, 4nat)]));
        IndividualItem {
            name: "Arcane Reliquary of Power".to_owned(),
            description: "The Arcane Reliquary of Power is an artifact-tier wondrous item, a mystic container of boundless arcane energy. When worn as an amulet, it amplifies the wearer's arcane abilities, granting them immense power in both offense and defense.".to_owned(),
            slot: EquipmentSlot::WondrousItem,
            armor: SerialDie { die: Die::D4, quantity: 0 }.to_die(),
            resistance,
            damage,
            attribute_bonus: SerialAttributes { strength: 0, dexterity: 0, constitution: 0, intelligence: 6, wisdom: 0, charisma: 0 }.to_attributes(),
            rarity: Rarity::Artifact,
            action: 0,
            value: 300,
        }
    }
}

/// The item template of the Asgardian Aegis.
#[derive(Debug, Clone, PartialEq, Eq, Structural)]
pub struct AsgardianAegis {}

impl AsgardianAegis {
    pub fn generate(&self) -> (r: IndividualItem)
        ensures
            template_matches(r, ItemsWeHave::AsgardianAegis),
    {
        let resistance = vec![(DamageType::Boss, SerialDie { die: Die::D12, quantity: 2 }.to_die()), (DamageType::Despair, SerialDie { die: Die::D12, quantity: 2 }.to_die()), (DamageType::Existential, SerialDie { die: Die::D12, quantity: 2 }.to_die())];
        let damage = vec![];
        assert(dice_table_matches(resistance@, seq![(DamageType::Boss, Die::D12, 2nat), (DamageType::Despair, Die::D12, 2nat), (DamageType::Existential, Die::D12, 2nat)]));
        assert(dice_table_matches(damage@, seq![]));
        IndividualItem {
            name: "Asgardian Aegis".to_owned(),
            description: "The Asgardian Aegis is a legendary shield that echoes with the power of the gods themselves. Forged in the divine fires of Asgard and imbued with the blessings of the divine pantheon, this shield is the stuff of myth and legend. Its surface is adorned with celestial runes that shimmer with a radiant aura, offering unparalleled protection to its wielder.".to_owned(),
            slot: EquipmentSlot::Shield,
            armor: SerialDie { die: Die::D10, quantity: 3 }.to_die(),
            resistance,
            damage,
            attribute_bonus: SerialAttributes::zero().to_attributes(),
            rarity: Rarity::Artifact,
            action: 0,
            value: 500,
        }
    }
}

/// The item template of the Helm of the Dwarf Betrayer.
#[derive(Debug, Clone, PartialEq, Eq, Structural)]
pub struct HelmOfTheDwarfBetrayer {}

impl HelmOfTheDwarfBetrayer {
    pub fn generate(&self) -> (r: IndividualItem)
        ensures
            template_matches(r, ItemsWeHave::HelmOfTheDwarfBetrayer),
    {
        let resistance = vec![(DamageType::Iron, SerialDie { die: Die::D12, quantity: 4 }.to_die()), (DamageType::Despair, SerialDie { die: Die::D12, quantity: 4 }.to_die())];
        let damage = vec![];
        assert(dice_table_matches(resistance@, seq![(DamageType::Iron, Die::D12, 4nat), (DamageType::Despair, Die::D12, 4nat)]));
        assert(dice_table_matches(damage@, seq![]));
        IndividualItem {
            name: "Helm of the Dwarf Betrayer".to_owned(),
            description: "".to_owned(),
            slot: EquipmentSlot::Helmet,
            armor: SerialDie { die: Die::D12, quantity: 4 }.to_die(),
            resistance,
            damage,
            attribute_bonus: SerialAttributes { strength: 10, dexterity: 0, constitution: 10, intelligence: 0, wisdom: 0, charisma: 0 }.to_attributes(),
            rarity: Rarity::Legendary,
            action: 0,
            value: 290,
        }
    }
}

/// The item template of the Colossus Slayer's Heartstone.
#[derive(Debug, Clone, PartialEq, Eq, Structural)]
pub struct ColossusSlayerSHeartstone {}

impl ColossusSlayerSHeartstone {
    pub fn generate(&self) -> (r: IndividualItem)
        ensures
            template_matches(r, ItemsWeHave::ColossusSlayerSHeartstone),
    {
        let resistance = vec![];
        let damage = vec![(DamageType::Physical, SerialDie { die: Die::D20, quantity: 4 }.to_die())];
        assert(dice_table_matches(resistance@, seq![]));
        assert(dice_table_matches(damage@, seq![(DamageType::Physical, Die::D20, 4nat)]));
        IndividualItem {
            name: "Colossus Slayer's Heartstone".to_owned(),
            description: "The Colossus Slayer's Heartstone is a legendary wondrous item, a relic of immense power. This crystalline heartstone, when worn as an amulet, channels the raw might of titans and colossi into the wearer's melee attacks, delivering devastating physical blows and fortifying their constitution.".to_owned(),
            slot: EquipmentSlot::WondrousItem,
            armor: SerialDie { die: Die::D12, quantity: 4 }.to_die(),
            resistance,
            damage,
            attribute_bonus: SerialAttributes { strength: 4, dexterity: 4, constitution: 6, intelligence: 0, wisdom: 0, charisma: 0 }.to_attributes(),
            rarity: Rarity::Legendary,
            action: 0,
            value: 260,
        }
    }
}

/// The item template of the Legguards of Invincible Aegis.
#[derive(Debug, Clone, PartialEq, Eq, Structural)]
pub struct LegguardsOfInvincibleAegis {}

impl LegguardsOfInvincibleAegis {
    pub fn generate(&self) -> (r: IndividualItem)
        ensures
            template_matches(r, ItemsWeHave::LegguardsOfInvincibleAegis),
    {
        let resistance = vec![(DamageType::NonElemental, SerialDie { die: Die::D20, quantity: 1 }.to_die()), (DamageType::Arcane, SerialDie { die: Die::D8, quantity: 1 }.to_die()), (DamageType::Physical, SerialDie { die: Die::D8, quantity: 1 }.to_die()), (DamageType::Existential, SerialDie { die: Die::D8, quantity: 1 }.to_die()), (DamageType::Light, SerialDie { die: Die::D8, quantity: 1 }.to_die()), (DamageType::Hope, SerialDie { die: Die::D8, quantity: 1 }.to_die()), (DamageType::Despair, SerialDie { die: Die::D8, quantity: 1 }.to_die()), (DamageType::Holy, SerialDie { die: Die::D8, quantity: 1 }.to_die()), (DamageType::Iron, SerialDie { die: Die::D8, quantity: 1 }.to_die()), (DamageType::Dark, SerialDie { die: Die::D8, quantity: 1 }.to_die()), (DamageType::Prismatic, SerialDie { die: Die::D8, quantity: 1 }.to_die())];
        let damage = vec![];
        assert(dice_table_matches(resistance@, seq![(DamageType::NonElemental, Die::D20, 1nat), (DamageType::Arcane, Die::D8, 1nat), (DamageType::Physical, Die::D8, 1nat), (DamageType::Existential, Die::D8, 1nat), (DamageType::Light, Die::D8, 1nat), (DamageType::Hope, Die::D8, 1nat), (DamageType::Despair, Die::D8, 1nat), (DamageType::Holy, Die::D8, 1nat), (DamageType::Iron, Die::D8, 1nat), (DamageType::Dark, Die::D8, 1nat), (DamageType::Prismatic, Die::D8, 1nat)]));
        assert(dice_table_matches(damage@, seq![]));
        IndividualItem {
            name: "Legguards of Invincible Aegis".to_owned(),
            description: "The Legguards of Invincible Aegis are a legendary masterpiece forged in the heart of a celestial forge, said to be touched by the gods themselves. These legguards are adorned with intricate engravings of divine beings, and they grant the wearer an unmatched level of protection. The magical armor woven into them forms an impenetrable shield against all but the most devastating blows.".to_owned(),
            slot: EquipmentSlot::Legs,
            armor: SerialDie { die: Die::D12, quantity: 4 }.to_die(),
            resistance,
            damage,
            attribute_bonus: SerialAttributes::zero().to_attributes(),
            rarity: Rarity::Legendary,
            action: 0,
            value: 500,
        }
    }
}

/// The item template of the Ring of Battle Prowess.
#[derive(Debug, Clone, PartialEq, Eq, Structural)]
pub struct RingOfBattleProwess {}

impl RingOfBattleProwess {
    pub fn generate(&self) -> (r: IndividualItem)
        ensures
            template_matches(r, ItemsWeHave::RingOfBattleProwess),
    {
        let resistance = vec![];
        let damage = vec![(DamageType::Physical, SerialDie { die: Die::D10, quantity: 1 }.to_die())];
        assert(dice_table_matches(resistance@, seq![]));
        assert(dice_table_matches(damage@, seq![(DamageType::Physical, Die::D10, 1nat)]));
        IndividualItem {
            name: "Ring of Battle Prowess".to_owned(),
            description: "The Ring of Battle Prowess is a legendary ring forged for those who thrive in the heat of combat. It exudes an aura of unyielding determination, granting its wearer an extra action in battle, allowing them to strike with unmatched speed.".to_owned(),
            slot: EquipmentSlot::Ring,
            armor: SerialDie { die: Die::D4, quantity: 0 }.to_die(),
            resistance,
            damage,
            attribute_bonus: SerialAttributes::zero().to_attributes(),
            rarity: Rarity::Epic,
            action: 1,
            value: 200,
        }
    }
}

/// The item template of the Inferno Staff.
#[derive(Debug, Clone, PartialEq, Eq, Structural)]
pub struct InfernoStaff {}

impl InfernoStaff {
    pub fn generate(&self) -> (r: IndividualItem)
        ensures
            template_matches(r, ItemsWeHave::InfernoStaff),
    {
        let resistance = vec![];
        let damage = vec![(DamageType::Fire, SerialDie { die: Die::D20, quantity: 10 }.to_die())];
        assert(dice_table_matches(resistance@, seq![]));
        assert(dice_table_matches(damage@, seq![(DamageType::Fire, Die::D20, 10nat)]));
        IndividualItem {
            name: "Inferno Staff".to_owned(),
            description: "The Inferno Staff is a legendary weapon, a conduit of scorching flames and searing heat. It is said to contain the essence of a raging inferno, ready to unleash its fiery wrath upon all who oppose its wielder.".to_owned(),
            slot: EquipmentSlot::Weapon,
            armor: SerialDie { die: Die::D4, quantity: 0 }.to_die(),
            resistance,
            damage,
            attribute_bonus: SerialAttributes { strength: 0, dexterity: 0, constitution: 0, intelligence: 15, wisdom: 0, charisma: 0 }.to_attributes(),
            rarity: Rarity::Legendary,
            action: 0,
            value: 260,
        }
    }
}

/// The item template of the Boots of Elemental Mastery.
#[derive(Debug, Clone, PartialEq, Eq, Structural)]
pub struct BootsOfElementalMastery {}

impl BootsOfElementalMastery {
    pub fn generate(&self) -> (r: IndividualItem)
        ensures
            template_matches(r, ItemsWeHave::BootsOfElementalMastery),
    {
        let resistance = vec![(DamageType::Air, SerialDie { die: Die::D8, quantity: 2 }.to_die()), (DamageType::Water, SerialDie { die: Die::D8, quantity: 2 }.to_die()), (DamageType::Fire, SerialDie { die: Die::D8, quantity: 2 }.to_die()), (DamageType::Earth, SerialDie { die: Die::D8, quantity: 2 }.to_die())];
        let damage = vec![(DamageType::Fire, SerialDie { die: Die::D8, quantity: 2 }.to_die()), (DamageType::Water, SerialDie { die: Die::D8, quantity: 2 }.to_die()), (DamageType::Air, SerialDie { die: Die::D8, quantity: 2 }.to_die()), (DamageType::Earth, SerialDie { die: Die::D8, quantity: 2 }.to_die())];
        assert(dice_table_matches(resistance@, seq![(DamageType::Air, Die::D8, 2nat), (DamageType::Water, Die::D8, 2nat), (DamageType::Fire, Die::D8, 2nat), (DamageType::Earth, Die::D8, 2nat)]));
        assert(dice_table_matches(damage@, seq![(DamageType::Fire, Die::D8, 2nat), (DamageType::Water, Die::D8, 2nat), (DamageType::Air, Die::D8, 2nat), (DamageType::Earth, Die::D8, 2nat)]));
        IndividualItem {
            name: "Boots of Elemental Mastery".to_owned(),
            description: "The Boots of Elemental Mastery are legendary footwear forged in the heart of an ancient volcano and imbued with the essence of the elements themselves. Each boot is adorned with intricate runes representing the elemental forces of fire, water, earth, and air. When worn, they grant the wearer unparalleled control over the elements.".to_owned(),
            slot: EquipmentSlot::Feet,
            armor: SerialDie { die: Die::D12, quantity: 4 }.to_die(),
            resistance,
            damage,
            attribute_bonus: SerialAttributes::zero().to_attributes(),
            rarity: Rarity::Legendary,
            action: 0,
            value: 300,
        }
    }
}

/// The item template of the Dragon Scale Armor.
#[derive(Debug, Clone, PartialEq, Eq, Structural)]
pub struct DragonScaleArmor {}

impl DragonScaleArmor {
    pub fn generate(&self) -> (r: IndividualItem)
        ensures
            template_matches(r, ItemsWeHave::DragonScaleArmor),
    {
        let resistance = vec![(DamageType::Fire, SerialDie { die: Die::D8, quantity: 2 }.to_die())];
        let damage = vec![(DamageType::Fire, SerialDie { die: Die::D8, quantity: 2 }.to_die()), (DamageType::Physical, SerialDie { die: Die::D8, quantity: 2 }.to_die())];
        assert(dice_table_matches(resistance@, seq![(DamageType::Fire, Die::D8, 2nat)]));
        assert(dice_table_matches(damage@, seq![(DamageType::Fire, Die::D8, 2nat), (DamageType::Physical, Die::D8, 2nat)]));
        IndividualItem {
            name: "Dragon Scale Armor".to_owned(),
            description: "Dragon scale mail is made of the scales of one kind of dragon. Sometimes dragons collect their cast-off scales and gift them to humanoids. Other times, hunters carefully skin and preserve the hide of a dead dragon. In either case, dragon scale mail is highly valued. While wearing this armor, you gain a 5% physical damage reduction, you have advantage on saving throws against elemental damage of the type that is determined by the kind of dragon that provided the scales. In addition you do additional physical and fire damage".to_owned(),
            slot: EquipmentSlot::Armor,
            armor: SerialDie { die: Die::D4, quantity: 2 }.to_die(),
            resistance,
            damage,
            attribute_bonus: SerialAttributes::zero().to_attributes(),
            rarity: Rarity::VeryRare,
            action: 0,
            value: 250,
        }
    }
}

/// The item template of the Stone of Strength.
#[derive(Debug, Clone, PartialEq, Eq, Structural)]
pub struct StoneOfStrength {}

impl StoneOfStrength {
    pub fn generate(&self) -> (r: IndividualItem)
        ensures
            template_matches(r, ItemsWeHave::StoneOfStrength),
    {
        let resistance = vec![];
        let damage = vec![];
        assert(dice_table_matches(resistance@, seq![]));
        assert(dice_table_matches(damage@, seq![]));
        IndividualItem {
            name: "Stone of Strength".to_owned(),
            description: "A smooth, obsidian-like stone imbued with the essence of incredible strength. When held, it enhances the wearer's physical abilities.".to_owned(),
            slot: EquipmentSlot::WondrousItem,
            armor: SerialDie { die: Die::D4, quantity: 0 }.to_die(),
            resistance,
            damage,
            attribute_bonus: SerialAttributes { strength: 6, dexterity: 0, constitution: 0, intelligence: 0, wisdom: 0, charisma: 0 }.to_attributes(),
            rarity: Rarity::Uncommon,
            action: 0,
            value: 30,
        }
    }
}

/// The item template of the Sword of Asbethath the Betrayer.
#[derive(Debug, Clone, PartialEq, Eq, Structural)]
pub struct SwordOfAsbethathTheBetrayer {}

impl SwordOfAsbethathTheBetrayer {
    pub fn generate(&self) -> (r: IndividualItem)
        ensures
            template_matches(r, ItemsWeHave::SwordOfAsbethathTheBetrayer),
    {
        let resistance = vec![(DamageType::Holy, SerialDie { die: Die::D8, quantity: 4 }.to_die()), (DamageType::Dark, SerialDie { die: Die::D8, quantity: 4 }.to_die())];
        let damage = vec![(DamageType::Despair, SerialDie { die: Die::D100, quantity: 1 }.to_die()), (DamageType::Existential, SerialDie { die: Die::D20, quantity: 4 }.to_die())];
        assert(dice_table_matches(resistance@, seq![(DamageType::Holy, Die::D8, 4nat), (DamageType::Dark, Die::D8, 4nat)]));
        assert(dice_table_matches(damage@, seq![(DamageType::Despair, Die::D100, 1nat), (DamageType::Existential, Die::D20, 4nat)]));
        IndividualItem {
            name: "Sword of Asbethath the Betrayer".to_owned(),
            description: "".to_owned(),
            slot: EquipmentSlot::Weapon,
            armor: SerialDie { die: Die::D4, quantity: 0 }.to_die(),
            resistance,
            damage,
            attribute_bonus: SerialAttributes { strength: 10, dexterity: 0, constitution: 0, intelligence: 0, wisdom: 0, charisma: 10 }.to_attributes(),
            rarity: Rarity::Artifact,
            action: 0,
            value: 500,
        }
    }
}

/// The item template of the Memeweave Gloves.
#[derive(Debug, Clone, PartialEq, Eq, Structural)]
pub struct MemeweaveGloves {}

impl MemeweaveGloves {
    pub fn generate(&self) -> (r: IndividualItem)
        ensures
            template_matches(r, ItemsWeHave::MemeweaveGloves),
    {
        let resistance = vec![(DamageType::Despair, SerialDie { die: Die::D12, quantity: 2 }.to_die())];
        let damage = vec![(DamageType::Despair, SerialDie { die: Die::D10, quantity: 2 }.to_die())];
        assert(dice_table_matches(resistance@, seq![(DamageType::Despair, Die::D12, 2nat)]));
        assert(dice_table_matches(damage@, seq![(DamageType::Despair, Die::D10, 2nat)]));
        IndividualItem {
            name: "Memeweave Gloves".to_owned(),
            description: "The Venomweave Gloves are an extraordinary creation designed for the master of poisons and toxins. Crafted from the hides of venomous creatures and enchanted with ancient alchemical sigils, these gloves empower the wearer to control and unleash potent venoms with deadly precision. The fingertips are adorned with shimmering emerald gems that glisten with a malevolent gleam.".to_owned(),
            slot: EquipmentSlot::Hands,
            armor: SerialDie { die: Die::D4, quantity: 0 }.to_die(),
            resistance,
            damage,
            attribute_bonus: SerialAttributes::zero().to_attributes(),
            rarity: Rarity::Common,
            action: 0,
            value: 30,
        }
    }
}

/// The item template of the Ring of Resilient Fortitude.
#[derive(Debug, Clone, PartialEq, Eq, Structural)]
pub struct RingOfResilientFortitude {}

impl RingOfResilientFortitude {
    pub fn generate(&self) -> (r: IndividualItem)
        ensures
            template_matches(r, ItemsWeHave::RingOfResilientFortitude),
    {
        let resistance = vec![(DamageType::Air, SerialDie { die: Die::D4, quantity: 1 }.to_die()), (DamageType::Dark, SerialDie { die: Die::D4, quantity: 1 }.to_die()), (DamageType::Physical, SerialDie { die: Die::D4, quantity: 1 }.to_die()), (DamageType::Light, SerialDie { die: Die::D4, quantity: 1 }.to_die()), (DamageType::Prismatic, SerialDie { die: Die::D4, quantity: 1 }.to_die()), (DamageType::Despair, SerialDie { die: Die::D4, quantity: 1 }.to_die()), (DamageType::Earth, SerialDie { die: Die::D4, quantity: 1 }.to_die()), (DamageType::Arcane, SerialDie { die: Die::D4, quantity: 1 }.to_die()), (DamageType::Water, SerialDie { die: Die::D4, quantity: 1 }.to_die()), (DamageType::Existential, SerialDie { die: Die::D4, quantity: 1 }.to_die()), (DamageType::Iron, SerialDie { die: Die::D4, quantity: 1 }.to_die()), (DamageType::NonElemental, SerialDie { die: Die::D4, quantity: 1 }.to_die()), (DamageType::Fire, SerialDie { die: Die::D4, quantity: 1 }.to_die()), (DamageType::Holy, SerialDie { die: Die::D4, quantity: 1 }.to_die()), (DamageType::Hope, SerialDie { die: Die::D4, quantity: 1 }.to_die())];
        let damage = vec![];
        assert(dice_table_matches(resistance@, seq![(DamageType::Air, Die::D4, 1nat), (DamageType::Dark, Die::D4, 1nat), (DamageType::Physical, Die::D4, 1nat), (DamageType::Light, Die::D4, 1nat), (DamageType::Prismatic, Die::D4, 1nat), (DamageType::Despair, Die::D4, 1nat), (DamageType::Earth, Die::D4, 1nat), (DamageType::Arcane, Die::D4, 1nat), (DamageType::Water, Die::D4, 1nat), (DamageType::Existential, Die::D4, 1nat), (DamageType::Iron, Die::D4, 1nat), (DamageType::NonElemental, Die::D4, 1nat), (DamageType::Fire, Die::D4, 1nat), (DamageType::Holy, Die::D4, 1nat), (DamageType::Hope, Die::D4, 1nat)]));
        assert(dice_table_matches(damage@, seq![]));
        IndividualItem {
            name: "Ring of Resilient Fortitude".to_owned(),
            description: "The Ring of Resilient Fortitude is a masterwork of protection, designed to shield its wearer from harm. Crafted by ancient guardians, it bestows upon the wearer unparalleled resistance, making them nearly impervious to damage.".to_owned(),
            slot: EquipmentSlot::Ring,
            armor: SerialDie { die: Die::D4, quantity: 0 }.to_die(),
            resistance,
            damage,
            attribute_bonus: SerialAttributes::zero().to_attributes(),
            rarity: Rarity::Epic,
            action: 0,
            value: 180,
        }
    }
}

/// The item template of the Veil of Eternal Dreams.
#[derive(Debug, Clone, PartialEq, Eq, Structural)]
pub struct VeilOfEternalDreams {}

impl VeilOfEternalDreams {
    pub fn generate(&self) -> (r: IndividualItem)
        ensures
            template_matches(r, ItemsWeHave::VeilOfEternalDreams),
    {
        let resistance = vec![(DamageType::Fire, SerialDie { die: Die::D12, quantity: 3 }.to_die()), (DamageType::Arcane, SerialDie { die: Die::D10, quantity: 3 }.to_die())];
        let damage = vec![(DamageType::Prismatic, SerialDie { die: Die::D20, quantity: 4 }.to_die())];
        assert(dice_table_matches(resistance@, seq![(DamageType::Fire, Die::D12, 3nat), (DamageType::Arcane, Die::D10, 3nat)]));
        assert(dice_table_matches(damage@, seq![(DamageType::Prismatic, Die::D20, 4nat)]));
        IndividualItem {
            name: "Veil of Eternal Dreams".to_owned(),
            description: "The Veil of Eternal Dreams is an enigmatic relic, unlike any other wondrous item known to mortals. Crafted by ancient dreamweavers, this ethereal veil transcends the boundaries of reality, allowing its wearer to traverse the realms of dreams and reality.".to_owned(),
            slot: EquipmentSlot::WondrousItem,
            armor: SerialDie { die: Die::D6, quantity: 2 }.to_die(),
            resistance,
            damage,
            attribute_bonus: SerialAttributes { strength: 0, dexterity: 0, constitution: 0, intelligence: 10, wisdom: 10, charisma: 10 }.to_attributes(),
            rarity: Rarity::Unique,
            action: 1,
            value: 1,
        }
    }
}

/// The item template of the Unyielding Onyx Assault Ring.
#[derive(Debug, Clone, PartialEq, Eq, Structural)]
pub struct UnyieldingOnyxAssaultRing {}

impl UnyieldingOnyxAssaultRing {
    pub fn generate(&self) -> (r: IndividualItem)
        ensures
            template_matches(r, ItemsWeHave::UnyieldingOnyxAssaultRing),
    {
        let resistance = vec![];
        let damage = vec![(DamageType::Despair, SerialDie { die: Die::D12, quantity: 4 }.to_die()), (DamageType::Dark, SerialDie { die: Die::D12, quantity: 4 }.to_die()), (DamageType::Iron, SerialDie { die: Die::D12, quantity: 4 }.to_die()), (DamageType::Existential, SerialDie { die: Die::D12, quantity: 4 }.to_die()), (DamageType::Physical, SerialDie { die: Die::D12, quantity: 4 }.to_die())];
        assert(dice_table_matches(resistance@, seq![]));
        assert(dice_table_matches(damage@, seq![(DamageType::Despair, Die::D12, 4nat), (DamageType::Dark, Die::D12, 4nat), (DamageType::Iron, Die::D12, 4nat), (DamageType::Existential, Die::D12, 4nat), (DamageType::Physical, Die::D12, 4nat)]));
        IndividualItem {
            name: "Unyielding Onyx Assault Ring".to_owned(),
            description: "This formidable ring is a testament to the power of the ancient Onyx gem it holds at its center. The gem, as dark as a moonless night, radiates an eerie yet captivating violet glow, hinting at the latent power contained within. Encasing the Onyx gem is a band of intricately engraved blackened steel, adorned with etchings of fierce, snarling beasts in the midst of battle. The ring is warm to the touch, and seems to pulse with a faint energy.".to_owned(),
            slot: EquipmentSlot::Ring,
            armor: SerialDie { die: Die::D4, quantity: 0 }.to_die(),
            resistance,
            damage,
            attribute_bonus: SerialAttributes::zero().to_attributes(),
            rarity: Rarity::Legendary,
            action: 2,
            value: 290,
        }
    }
}

/// The item template of the Ring of Arcane Mastery.
#[derive(Debug, Clone, PartialEq, Eq, Structural)]
pub struct RingOfArcaneMastery {}

impl RingOfArcaneMastery {
    pub fn generate(&self) -> (r: IndividualItem)
        ensures
            template_matches(r, ItemsWeHave::RingOfArcaneMastery),
    {
        let resistance = vec![];
        let damage = vec![(DamageType::Arcane, SerialDie { die: Die::D10, quantity: 1 }.to_die())];
        assert(dice_table_matches(resistance@, seq![]));
        assert(dice_table_matches(damage@, seq![(DamageType::Arcane, Die::D10, 1nat)]));
        IndividualItem {
            name: "Ring of Arcane Mastery".to_owned(),
            description: "The Ring of Arcane Mastery is an artifact of unparalleled magical power. Infused with the essence of arcane realms, it amplifies the wearer's magical abilities to astounding levels, enabling them to wield devastating arcane magic.".to_owned(),
            slot: EquipmentSlot::Ring,
            armor: SerialDie { die: Die::D4, quantity: 0 }.to_die(),
            resistance,
            damage,
            attribute_bonus: SerialAttributes::zero().to_attributes(),
            rarity: Rarity::Epic,
            action: 0,
            value: 200,
        }
    }
}

/// The items that exist in the game.
#[derive(Debug, Clone, Copy, PartialEq, Eq, Hash, Structural)]
pub enum ItemsWeHave {
    VenomweaveGloves,
    PrismariPrimer,
    WandOfAbyssalDesolation,
    AmuletOfArcaneAscendance,
    ArcaneReliquaryOfPower,
    AsgardianAegis,
    HelmOfTheDwarfBetrayer,
    ColossusSlayerSHeartstone,
    LegguardsOfInvincibleAegis,
    RingOfBattleProwess,
    InfernoStaff,
    BootsOfElementalMastery,
    DragonScaleArmor,
    StoneOfStrength,
    SwordOfAsbethathTheBetrayer,
    MemeweaveGloves,
    RingOfResilientFortitude,
    VeilOfEternalDreams,
    UnyieldingOnyxAssaultRing,
    RingOfArcaneMastery,
}

/// All items, in declaration order.
pub open spec fn all_items() -> Seq<ItemsWeHave> {
    seq![ItemsWeHave::VenomweaveGloves, ItemsWeHave::PrismariPrimer, ItemsWeHave::WandOfAbyssalDesolation, ItemsWeHave::AmuletOfArcaneAscendance, ItemsWeHave::ArcaneReliquaryOfPower, ItemsWeHave::AsgardianAegis, ItemsWeHave::HelmOfTheDwarfBetrayer, ItemsWeHave::ColossusSlayerSHeartstone, ItemsWeHave::LegguardsOfInvincibleAegis, ItemsWeHave::RingOfBattleProwess, ItemsWeHave::InfernoStaff, ItemsWeHave::BootsOfElementalMastery, ItemsWeHave::DragonScaleArmor, ItemsWeHave::StoneOfStrength, ItemsWeHave::SwordOfAsbethathTheBetrayer, ItemsWeHave::MemeweaveGloves, ItemsWeHave::RingOfResilientFortitude, ItemsWeHave::VeilOfEternalDreams, ItemsWeHave::UnyieldingOnyxAssaultRing, ItemsWeHave::RingOfArcaneMastery]
}

/// The name of an item.
pub open spec fn template_name(it: ItemsWeHave) -> Seq<char> {
    match it {
        ItemsWeHave::VenomweaveGloves => "Venomweave Gloves"@,
        ItemsWeHave::PrismariPrimer => "Prismari Primer"@,
        ItemsWeHave::WandOfAbyssalDesolation => "Wand of Abyssal Desolation"@,
        ItemsWeHave::AmuletOfArcaneAscendance => "Amulet of Arcane Ascendance"@,
        ItemsWeHave::ArcaneReliquaryOfPower => "Arcane Reliquary of Power"@,
        ItemsWeHave::AsgardianAegis => "Asgardian Aegis"@,
        ItemsWeHave::HelmOfTheDwarfBetrayer => "Helm of the Dwarf Betrayer"@,
        ItemsWeHave::ColossusSlayerSHeartstone => "Colossus Slayer's Heartstone"@,
        ItemsWeHave::LegguardsOfInvincibleAegis => "Legguards of Invincible Aegis"@,
        ItemsWeHave::RingOfBattleProwess => "Ring of Battle Prowess"@,
        ItemsWeHave::InfernoStaff => "Inferno Staff"@,
        ItemsWeHave::BootsOfElementalMastery => "Boots of Elemental Mastery"@,
        ItemsWeHave::DragonScaleArmor => "Dragon Scale Armor"@,
        ItemsWeHave::StoneOfStrength => "Stone of Strength"@,
        ItemsWeHave::SwordOfAsbethathTheBetrayer => "Sword of Asbethath the Betrayer"@,
        ItemsWeHave::MemeweaveGloves => "Memeweave Gloves"@,
        ItemsWeHave::RingOfResilientFortitude => "Ring of Resilient Fortitude"@,
        ItemsWeHave::VeilOfEternalDreams => "Veil of Eternal Dreams"@,
        ItemsWeHave::UnyieldingOnyxAssaultRing => "Unyielding Onyx Assault Ring"@,
        ItemsWeHave::RingOfArcaneMastery => "Ring of Arcane Mastery"@,
    }
}

/// The description of an item.
pub open spec fn template_description(it: ItemsWeHave) -> Seq<char> {
    match it {
        ItemsWeHave::VenomweaveGloves => "The Venomweave Gloves are an extraordinary creation designed for the master of poisons and toxins. Crafted from the hides of venomous creatures and enchanted with ancient alchemical sigils, these gloves empower the wearer to control and unleash potent venoms with deadly precision. The fingertips are adorned with shimmering emerald gems that glisten with a malevolent gleam."@,
        ItemsWeHave::PrismariPrimer => "A magical tome filled with intricate diagrams and colorful illustrations. It grants the reader a deeper understanding of arcane arts."@,
        ItemsWeHave::WandOfAbyssalDesolation => "The Wand of Abyssal Desolation is a sinister artifact, brimming with the malevolent forces of darkness and despair. It is a conduit to the very heart of existential dread. The wand's ebony wood is adorned with ominous runes that pulse with an eerie, purplish glow when it's in use."@,
        ItemsWeHave::AmuletOfArcaneAscendance => "The Amulet of Arcane Ascendance is a relic of unparalleled mystic potency, a treasure coveted by scholars and sorcerers alike. Its centerpiece is a luminous sapphire, deep blue like the heart of a crystal-clear ocean, nestled within an ornate silver setting. The sapphire's facets shimmer with an ethereal radiance, revealing an otherworldly cosmos swirling within."@,
        ItemsWeHave::ArcaneReliquaryOfPower => "The Arcane Reliquary of Power is an artifact-tier wondrous item, a mystic container of boundless arcane energy. When worn as an amulet, it amplifies the wearer's arcane abilities, granting them immense power in both offense and defense."@,
        ItemsWeHave::AsgardianAegis => "The Asgardian Aegis is a legendary shield that echoes with the power of the gods themselves. Forged in the divine fires of Asgard and imbued with the blessings of the divine pantheon, this shield is the stuff of myth and legend. Its surface is adorned with celestial runes that shimmer with a radiant aura, offering unparalleled protection to its wielder."@,
        ItemsWeHave::HelmOfTheDwarfBetrayer => ""@,
        ItemsWeHave::ColossusSlayerSHeartstone => "The Colossus Slayer's Heartstone is a legendary wondrous item, a relic of immense power. This crystalline heartstone, when worn as an amulet, channels the raw might of titans and colossi into the wearer's melee attacks, delivering devastating physical blows and fortifying their constitution."@,
        ItemsWeHave::LegguardsOfInvincibleAegis => "The Legguards of Invincible Aegis are a legendary masterpiece forged in the heart of a celestial forge, said to be touched by the gods themselves. These legguards are adorned with intricate engravings of divine beings, and they grant the wearer an unmatched level of protection. The magical armor woven into them forms an impenetrable shield against all but the most devastating blows."@,
        ItemsWeHave::RingOfBattleProwess => "The Ring of Battle Prowess is a legendary ring forged for those who thrive in the heat of combat. It exudes an aura of unyielding determination, granting its wearer an extra action in battle, allowing them to strike with unmatched speed."@,
        ItemsWeHave::InfernoStaff => "The Inferno Staff is a legendary weapon, a conduit of scorching flames and searing heat. It is said to contain the essence of a raging inferno, ready to unleash its fiery wrath upon all who oppose its wielder."@,
        ItemsWeHave::BootsOfElementalMastery => "The Boots of Elemental Mastery are legendary footwear forged in the heart of an ancient volcano and imbued with the essence of the elements themselves. Each boot is adorned with intricate runes representing the elemental forces of fire, water, earth, and air. When worn, they grant the wearer unparalleled control over the elements."@,
        ItemsWeHave::DragonScaleArmor => "Dragon scale mail is made of the scales of one kind of dragon. Sometimes dragons collect their cast-off scales and gift them to humanoids. Other times, hunters carefully skin and preserve the hide of a dead dragon. In either case, dragon scale mail is highly valued. While wearing this armor, you gain a 5% physical damage reduction, you have advantage on saving throws against elemental damage of the type that is determined by the kind of dragon that provided the scales. In addition you do additional physical and fire damage"@,
        ItemsWeHave::StoneOfStrength => "A smooth, obsidian-like stone imbued with the essence of incredible strength. When held, it enhances the wearer's physical abilities."@,
        ItemsWeHave::SwordOfAsbethathTheBetrayer => ""@,
        ItemsWeHave::MemeweaveGloves => "The Venomweave Gloves are an extraordinary creation designed for the master of poisons and toxins. Crafted from the hides of venomous creatures and enchanted with ancient alchemical sigils, these gloves empower the wearer to control and unleash potent venoms with deadly precision. The fingertips are adorned with shimmering emerald gems that glisten with a malevolent gleam."@,
        ItemsWeHave::RingOfResilientFortitude => "The Ring of Resilient Fortitude is a masterwork of protection, designed to shield its wearer from harm. Crafted by ancient guardians, it bestows upon the wearer unparalleled resistance, making them nearly impervious to damage."@,
        ItemsWeHave::VeilOfEternalDreams => "The Veil of Eternal Dreams is an enigmatic relic, unlike any other wondrous item known to mortals. Crafted by ancient dreamweavers, this ethereal veil transcends the boundaries of reality, allowing its wearer to traverse the realms of dreams and reality."@,
        ItemsWeHave::UnyieldingOnyxAssaultRing => "This formidable ring is a testament to the power of the ancient Onyx gem it holds at its center. The gem, as dark as a moonless night, radiates an eerie yet captivating violet glow, hinting at the latent power contained within. Encasing the Onyx gem is a band of intricately engraved blackened steel, adorned with etchings of fierce, snarling beasts in the midst of battle. The ring is warm to the touch, and seems to pulse with a faint energy."@,
        ItemsWeHave::RingOfArcaneMastery => "The Ring of Arcane Mastery is an artifact of unparalleled magical power. Infused with the essence of arcane realms, it amplifies the wearer's magical abilities to astounding levels, enabling them to wield devastating arcane magic."@,
    }
}

/// The slot an item is worn in.
pub open spec fn template_slot(it: ItemsWeHave) -> EquipmentSlot {
    match it {
        ItemsWeHave::VenomweaveGloves => EquipmentSlot::Hands,
        ItemsWeHave::PrismariPrimer => EquipmentSlot::WondrousItem,
        ItemsWeHave::WandOfAbyssalDesolation => EquipmentSlot::Weapon,
        ItemsWeHave::AmuletOfArcaneAscendance => EquipmentSlot::Amulet,
        ItemsWeHave::ArcaneReliquaryOfPower => EquipmentSlot::WondrousItem,
        ItemsWeHave::AsgardianAegis => EquipmentSlot::Shield,
        ItemsWeHave::HelmOfTheDwarfBetrayer => EquipmentSlot::Helmet,
        ItemsWeHave::ColossusSlayerSHeartstone => EquipmentSlot::WondrousItem,
        ItemsWeHave::LegguardsOfInvincibleAegis => EquipmentSlot::Legs,
        ItemsWeHave::RingOfBattleProwess => EquipmentSlot::Ring,
        ItemsWeHave::InfernoStaff => EquipmentSlot::Weapon,
        ItemsWeHave::BootsOfElementalMastery => EquipmentSlot::Feet,
        ItemsWeHave::DragonScaleArmor => EquipmentSlot::Armor,
        ItemsWeHave::StoneOfStrength => EquipmentSlot::WondrousItem,
        ItemsWeHave::SwordOfAsbethathTheBetrayer => EquipmentSlot::Weapon,
        ItemsWeHave::MemeweaveGloves => EquipmentSlot::Hands,
        ItemsWeHave::RingOfResilientFortitude => EquipmentSlot::Ring,
        ItemsWeHave::VeilOfEternalDreams => EquipmentSlot::WondrousItem,
        ItemsWeHave::UnyieldingOnyxAssaultRing => EquipmentSlot::Ring,
        ItemsWeHave::RingOfArcaneMastery => EquipmentSlot::Ring,
    }
}

/// The rarity of an item.
pub open spec fn template_rarity(it: ItemsWeHave) -> Rarity {
    match it {
        ItemsWeHave::VenomweaveGloves => Rarity::Legendary,
        ItemsWeHave::PrismariPrimer => Rarity::Rare,
        ItemsWeHave::WandOfAbyssalDesolation => Rarity::Legendary,
        ItemsWeHave::AmuletOfArcaneAscendance => Rarity::Artifact,
        ItemsWeHave::ArcaneReliquaryOfPower => Rarity::Artifact,
        ItemsWeHave::AsgardianAegis => Rarity::Artifact,
        ItemsWeHave::HelmOfTheDwarfBetrayer => Rarity::Legendary,
        ItemsWeHave::ColossusSlayerSHeartstone => Rarity::Legendary,
        ItemsWeHave::LegguardsOfInvincibleAegis => Rarity::Legendary,
        ItemsWeHave::RingOfBattleProwess => Rarity::Epic,
        ItemsWeHave::InfernoStaff => Rarity::Legendary,
        ItemsWeHave::BootsOfElementalMastery => Rarity::Legendary,
        ItemsWeHave::DragonScaleArmor => Rarity::VeryRare,
        ItemsWeHave::StoneOfStrength => Rarity::Uncommon,
        ItemsWeHave::SwordOfAsbethathTheBetrayer => Rarity::Artifact,
        ItemsWeHave::MemeweaveGloves => Rarity::Common,
        ItemsWeHave::RingOfResilientFortitude => Rarity::Epic,
        ItemsWeHave::VeilOfEternalDreams => Rarity::Unique,
        ItemsWeHave::UnyieldingOnyxAssaultRing => Rarity::Legendary,
        ItemsWeHave::RingOfArcaneMastery => Rarity::Epic,
    }
}

/// The gold value of an item.
pub open spec fn template_value(it: ItemsWeHave) -> u64 {
    match it {
        ItemsWeHave::VenomweaveGloves => 300,
        ItemsWeHave::PrismariPrimer => 75,
        ItemsWeHave::WandOfAbyssalDesolation => 260,
        ItemsWeHave::AmuletOfArcaneAscendance => 500,
        ItemsWeHave::ArcaneReliquaryOfPower => 300,
        ItemsWeHave::AsgardianAegis => 500,
        ItemsWeHave::HelmOfTheDwarfBetrayer => 290,
        ItemsWeHave::ColossusSlayerSHeartstone => 260,
        ItemsWeHave::LegguardsOfInvincibleAegis => 500,
        ItemsWeHave::RingOfBattleProwess => 200,
        ItemsWeHave::InfernoStaff => 260,
        ItemsWeHave::BootsOfElementalMastery => 300,
        ItemsWeHave::DragonScaleArmor => 250,
        ItemsWeHave::StoneOfStrength => 30,
        ItemsWeHave::SwordOfAsbethathTheBetrayer => 500,
        ItemsWeHave::MemeweaveGloves => 30,
        ItemsWeHave::RingOfResilientFortitude => 180,
        ItemsWeHave::VeilOfEternalDreams => 1,
        ItemsWeHave::UnyieldingOnyxAssaultRing => 290,
        ItemsWeHave::RingOfArcaneMastery => 200,
    }
}

/// The extra actions an item grants.
pub open spec fn template_action(it: ItemsWeHave) -> u32 {
    match it {
        ItemsWeHave::VenomweaveGloves => 0,
        ItemsWeHave::PrismariPrimer => 0,
        ItemsWeHave::WandOfAbyssalDesolation => 0,
        ItemsWeHave::AmuletOfArcaneAscendance => 0,
        ItemsWeHave::ArcaneReliquaryOfPower => 0,
        ItemsWeHave::AsgardianAegis => 0,
        ItemsWeHave::HelmOfTheDwarfBetrayer => 0,
        ItemsWeHave::ColossusSlayerSHeartstone => 0,
        ItemsWeHave::LegguardsOfInvincibleAegis => 0,
        ItemsWeHave::RingOfBattleProwess => 1,
        ItemsWeHave::InfernoStaff => 0,
        ItemsWeHave::BootsOfElementalMastery => 0,
        ItemsWeHave::DragonScaleArmor => 0,
        ItemsWeHave::StoneOfStrength => 0,
        ItemsWeHave::SwordOfAsbethathTheBetrayer => 0,
        ItemsWeHave::MemeweaveGloves => 0,
        ItemsWeHave::RingOfResilientFortitude => 0,
        ItemsWeHave::VeilOfEternalDreams => 1,
        ItemsWeHave::UnyieldingOnyxAssaultRing => 2,
        ItemsWeHave::RingOfArcaneMastery => 0,
    }
}

/// The armor dice of an item.
pub open spec fn template_armor(it: ItemsWeHave) -> (Die, nat) {
    match it {
        ItemsWeHave::VenomweaveGloves => (Die::D4, 0nat),
        ItemsWeHave::PrismariPrimer => (Die::D4, 0nat),
        ItemsWeHave::WandOfAbyssalDesolation => (Die::D4, 0nat),
        ItemsWeHave::AmuletOfArcaneAscendance => (Die::D4, 0nat),
        ItemsWeHave::ArcaneReliquaryOfPower => (Die::D4, 0nat),
        ItemsWeHave::AsgardianAegis => (Die::D10, 3nat),
        ItemsWeHave::HelmOfTheDwarfBetrayer => (Die::D12, 4nat),
        ItemsWeHave::ColossusSlayerSHeartstone => (Die::D12, 4nat),
        ItemsWeHave::LegguardsOfInvincibleAegis => (Die::D12, 4nat),
        ItemsWeHave::RingOfBattleProwess => (Die::D4, 0nat),
        ItemsWeHave::InfernoStaff => (Die::D4, 0nat),
        ItemsWeHave::BootsOfElementalMastery => (Die::D12, 4nat),
        ItemsWeHave::DragonScaleArmor => (Die::D4, 2nat),
        ItemsWeHave::StoneOfStrength => (Die::D4, 0nat),
        ItemsWeHave::SwordOfAsbethathTheBetrayer => (Die::D4, 0nat),
        ItemsWeHave::MemeweaveGloves => (Die::D4, 0nat),
        ItemsWeHave::RingOfResilientFortitude => (Die::D4, 0nat),
        ItemsWeHave::VeilOfEternalDreams => (Die::D6, 2nat),
        ItemsWeHave::UnyieldingOnyxAssaultRing => (Die::D4, 0nat),
        ItemsWeHave::RingOfArcaneMastery => (Die::D4, 0nat),
    }
}

/// The resistance dice of an item, by damage type.
pub open spec fn template_resistance(it: ItemsWeHave) -> Seq<(DamageType, Die, nat)> {
    match it {
        ItemsWeHave::VenomweaveGloves => seq![(DamageType::Despair, Die::D12, 2nat)],
        ItemsWeHave::PrismariPrimer => seq![],
        ItemsWeHave::WandOfAbyssalDesolation => seq![],
        ItemsWeHave::AmuletOfArcaneAscendance => seq![(DamageType::Fire, Die::D8, 2nat), (DamageType::Air, Die::D8, 2nat), (DamageType::Prismatic, Die::D8, 2nat), (DamageType::Arcane, Die::D8, 2nat), (DamageType::Water, Die::D8, 2nat), (DamageType::Despair, Die::D8, 2nat), (DamageType::Earth, Die::D8, 2nat)],
        ItemsWeHave::ArcaneReliquaryOfPower => seq![(DamageType::Arcane, Die::D20, 4nat)],
        ItemsWeHave::AsgardianAegis => seq![(DamageType::Boss, Die::D12, 2nat), (DamageType::Despair, Die::D12, 2nat), (DamageType::Existential, Die::D12, 2nat)],
        ItemsWeHave::HelmOfTheDwarfBetrayer => seq![(DamageType::Iron, Die::D12, 4nat), (DamageType::Despair, Die::D12, 4nat)],
        ItemsWeHave::ColossusSlayerSHeartstone => seq![],
        ItemsWeHave::LegguardsOfInvincibleAegis => seq![(DamageType::NonElemental, Die::D20, 1nat), (DamageType::Arcane, Die::D8, 1nat), (DamageType::Physical, Die::D8, 1nat), (DamageType::Existential, Die::D8, 1nat), (DamageType::Light, Die::D8, 1nat), (DamageType::Hope, Die::D8, 1nat), (DamageType::Despair, Die::D8, 1nat), (DamageType::Holy, Die::D8, 1nat), (DamageType::Iron, Die::D8, 1nat), (DamageType::Dark, Die::D8, 1nat), (DamageType::Prismatic, Die::D8, 1nat)],
        ItemsWeHave::RingOfBattleProwess => seq![],
        ItemsWeHave::InfernoStaff => seq![],
        ItemsWeHave::BootsOfElementalMastery => seq![(DamageType::Air, Die::D8, 2nat), (DamageType::Water, Die::D8, 2nat), (DamageType::Fire, Die::D8, 2nat), (DamageType::Earth, Die::D8, 2nat)],
        ItemsWeHave::DragonScaleArmor => seq![(DamageType::Fire, Die::D8, 2nat)],
        ItemsWeHave::StoneOfStrength => seq![],
        ItemsWeHave::SwordOfAsbethathTheBetrayer => seq![(DamageType::Holy, Die::D8, 4nat), (DamageType::Dark, Die::D8, 4nat)],
        ItemsWeHave::MemeweaveGloves => seq![(DamageType::Despair, Die::D12, 2nat)],
        ItemsWeHave::RingOfResilientFortitude => seq![(DamageType::Air, Die::D4, 1nat), (DamageType::Dark, Die::D4, 1nat), (DamageType::Physical, Die::D4, 1nat), (DamageType::Light, Die::D4, 1nat), (DamageType::Prismatic, Die::D4, 1nat), (DamageType::Despair, Die::D4, 1nat), (DamageType::Earth, Die::D4, 1nat), (DamageType::Arcane, Die::D4, 1nat), (DamageType::Water, Die::D4, 1nat), (DamageType::Existential, Die::D4, 1nat), (DamageType::Iron, Die::D4, 1nat), (DamageType::NonElemental, Die::D4, 1nat), (DamageType::Fire, Die::D4, 1nat), (DamageType::Holy, Die::D4, 1nat), (DamageType::Hope, Die::D4, 1nat)],
        ItemsWeHave::VeilOfEternalDreams => seq![(DamageType::Fire, Die::D12, 3nat), (DamageType::Arcane, Die::D10, 3nat)],
        ItemsWeHave::UnyieldingOnyxAssaultRing => seq![],
        ItemsWeHave::RingOfArcaneMastery => seq![],
    }
}

/// The damage dice of an item, by damage type.
pub open spec fn template_damage(it: ItemsWeHave) -> Seq<(DamageType, Die, nat)> {
    match it {
        ItemsWeHave::VenomweaveGloves => seq![(DamageType::Despair, Die::D10, 2nat)],
        ItemsWeHave::PrismariPrimer => seq![],
        ItemsWeHave::WandOfAbyssalDesolation => seq![(DamageType::Existential, Die::D12, 10nat), (DamageType::Despair, Die::D20, 10nat)],
        ItemsWeHave::AmuletOfArcaneAscendance => seq![(DamageType::Fire, Die::D8, 2nat), (DamageType::Earth, Die::D8, 2nat), (DamageType::Air, Die::D8, 2nat), (DamageType::Arcane, Die::D8, 2nat), (DamageType::Water, Die::D8, 2nat), (DamageType::Prismatic, Die::D8, 2nat)],
        ItemsWeHave::ArcaneReliquaryOfPower => seq![(DamageType::Arcane, Die::D20, 4nat)],
        ItemsWeHave::AsgardianAegis => seq![],
        ItemsWeHave::HelmOfTheDwarfBetrayer => seq![],
        ItemsWeHave::ColossusSlayerSHeartstone => seq![(DamageType::Physical, Die::D20, 4nat)],
        ItemsWeHave::LegguardsOfInvincibleAegis => seq![],
        ItemsWeHave::RingOfBattleProwess => seq![(DamageType::Physical, Die::D10, 1nat)],
        ItemsWeHave::InfernoStaff => seq![(DamageType::Fire, Die::D20, 10nat)],
        ItemsWeHave::BootsOfElementalMastery => seq![(DamageType::Fire, Die::D8, 2nat), (DamageType::Water, Die::D8, 2nat), (DamageType::Air, Die::D8, 2nat), (DamageType::Earth, Die::D8, 2nat)],
        ItemsWeHave::DragonScaleArmor => seq![(DamageType::Fire, Die::D8, 2nat), (DamageType::Physical, Die::D8, 2nat)],
        ItemsWeHave::StoneOfStrength => seq![],
        ItemsWeHave::SwordOfAsbethathTheBetrayer => seq![(DamageType::Despair, Die::D100, 1nat), (DamageType::Existential, Die::D20, 4nat)],
        ItemsWeHave::MemeweaveGloves => seq![(DamageType::Despair, Die::D10, 2nat)],
        ItemsWeHave::RingOfResilientFortitude => seq![],
        ItemsWeHave::VeilOfEternalDreams => seq![(DamageType::Prismatic, Die::D20, 4nat)],
        ItemsWeHave::UnyieldingOnyxAssaultRing => seq![(DamageType::Despair, Die::D12, 4nat), (DamageType::Dark, Die::D12, 4nat), (DamageType::Iron, Die::D12, 4nat), (DamageType::Existential, Die::D12, 4nat), (DamageType::Physical, Die::D12, 4nat)],
        ItemsWeHave::RingOfArcaneMastery => seq![(DamageType::Arcane, Die::D10, 1nat)],
    }
}

/// The attribute bonuses of an item.
pub open spec fn template_attributes(it: ItemsWeHave) -> crate::units::Attributes {
    match it {
        ItemsWeHave::VenomweaveGloves => attributes_with(0, 0, 0, 0, 0, 0),
        ItemsWeHave::PrismariPrimer => attributes_with(0, 5, 0, 0, 0, 0),
        ItemsWeHave::WandOfAbyssalDesolation => attributes_with(0, 10, 0, 0, 0, 5),
        ItemsWeHave::AmuletOfArcaneAscendance => attributes_with(0, 0, 0, 0, 0, 0),
        ItemsWeHave::ArcaneReliquaryOfPower => attributes_with(0, 6, 0, 0, 0, 0),
        ItemsWeHave::AsgardianAegis => attributes_with(0, 0, 0, 0, 0, 0),
        ItemsWeHave::HelmOfTheDwarfBetrayer => attributes_with(10, 0, 0, 10, 0, 0),
        ItemsWeHave::ColossusSlayerSHeartstone => attributes_with(4, 0, 4, 6, 0, 0),
        ItemsWeHave::LegguardsOfInvincibleAegis => attributes_with(0, 0, 0, 0, 0, 0),
        ItemsWeHave::RingOfBattleProwess => attributes_with(0, 0, 0, 0, 0, 0),
        ItemsWeHave::InfernoStaff => attributes_with(0, 15, 0, 0, 0, 0),
        ItemsWeHave::BootsOfElementalMastery => attributes_with(0, 0, 0, 0, 0, 0),
        ItemsWeHave::DragonScaleArmor => attributes_with(0, 0, 0, 0, 0, 0),
        ItemsWeHave::StoneOfStrength => attributes_with(6, 0, 0, 0, 0, 0),
        ItemsWeHave::SwordOfAsbethathTheBetrayer => attributes_with(10, 0, 0, 0, 0, 10),
        ItemsWeHave::MemeweaveGloves => attributes_with(0, 0, 0, 0, 0, 0),
        ItemsWeHave::RingOfResilientFortitude => attributes_with(0, 0, 0, 0, 0, 0),
        ItemsWeHave::VeilOfEternalDreams => attributes_with(0, 10, 0, 0, 10, 10),
        ItemsWeHave::UnyieldingOnyxAssaultRing => attributes_with(0, 0, 0, 0, 0, 0),
        ItemsWeHave::RingOfArcaneMastery => attributes_with(0, 0, 0, 0, 0, 0),
    }
}

/// `item` is what the template of `it` describes.
pub open spec fn template_matches(item: IndividualItem, it: ItemsWeHave) -> bool {
    &&& item.name@ == template_name(it)
    &&& item.description@ == template_description(it)
    &&& item.slot == template_slot(it)
    &&& item.rarity == template_rarity(it)
    &&& item.value == template_value(it)
    &&& item.action == template_action(it)
    &&& item.armor.dice@ == fresh_dice(template_armor(it).0, template_armor(it).1)
    &&& dice_table_matches(item.resistance@, template_resistance(it))
    &&& dice_table_matches(item.damage@, template_damage(it))
    &&& item.attribute_bonus == template_attributes(it)
}

/// The total chance weight of the first `n` items of a list.
pub open spec fn weights_before(items: Seq<ItemsWeHave>, n: int) -> int
    decreases n,
{
    if n <= 0 {
        0
    } else {
        weights_before(items, n - 1) + template_rarity(items[n - 1]).number()
    }
}

/// A draw picks the `i`-th item when the running total before it is at most the draw and the
/// running total through it exceeds the draw.
pub open spec fn picks(items: Seq<ItemsWeHave>, draw: u64, i: int) -> bool {
    &&& 0 <= i < items.len()
    &&& weights_before(items, i) <= draw < weights_before(items, i + 1)
}

proof fn lemma_weights_monotone(items: Seq<ItemsWeHave>, n: int)
    requires
        0 <= n,
    ensures
        forall|a: int, b: int| 0 <= a <= b <= n ==> weights_before(items, a) <= weights_before(items, b),
    decreases n,
{
    if n > 0 {
        lemma_weights_monotone(items, n - 1);
        assert forall|a: int, b: int| 0 <= a <= b <= n implies weights_before(items, a) <= weights_before(items, b) by {
            if b == n && a < n {
                assert(weights_before(items, a) <= weights_before(items, n - 1));
            }
        }
    }
}

proof fn lemma_weights_bounds(items: Seq<ItemsWeHave>, n: int)
    requires
        0 <= n,
    ensures
        n <= weights_before(items, n) <= 150 * n,
    decreases n,
{
    if n > 0 {
        lemma_weights_bounds(items, n - 1);
        assert(1 <= template_rarity(items[n - 1]).number() <= 150);
    }
}

proof fn lemma_every_slot_has_an_item(slot: EquipmentSlot)
    ensures
        exists|k: int| 0 <= k < all_items().len() && template_slot(#[trigger] all_items()[k]) == slot,
{
    let items = all_items();
    match slot {
        EquipmentSlot::Hands => assert(template_slot(items[0]) == slot),
        EquipmentSlot::WondrousItem => assert(template_slot(items[1]) == slot),
        EquipmentSlot::Weapon => assert(template_slot(items[2]) == slot),
        EquipmentSlot::Amulet => assert(template_slot(items[3]) == slot),
        EquipmentSlot::Shield => assert(template_slot(items[5]) == slot),
        EquipmentSlot::Helmet => assert(template_slot(items[6]) == slot),
        EquipmentSlot::Legs => assert(template_slot(items[8]) == slot),
        EquipmentSlot::Ring => assert(template_slot(items[9]) == slot),
        EquipmentSlot::Feet => assert(template_slot(items[11]) == slot),
        EquipmentSlot::Armor => assert(template_slot(items[12]) == slot),
    }
}


impl ItemsWeHave {
    pub fn generate(&self) -> (r: IndividualItem)
        ensures
            template_matches(r, *self),
    {
        match self {
            ItemsWeHave::VenomweaveGloves => VenomweaveGloves {}.generate(),
            ItemsWeHave::PrismariPrimer => PrismariPrimer {}.generate(),
            ItemsWeHave::WandOfAbyssalDesolation => WandOfAbyssalDesolation {}.generate(),
            ItemsWeHave::AmuletOfArcaneAscendance => AmuletOfArcaneAscendance {}.generate(),
            ItemsWeHave::ArcaneReliquaryOfPower => ArcaneReliquaryOfPower {}.generate(),
            ItemsWeHave::AsgardianAegis => AsgardianAegis {}.generate(),
            ItemsWeHave::HelmOfTheDwarfBetrayer => HelmOfTheDwarfBetrayer {}.generate(),
            ItemsWeHave::ColossusSlayerSHeartstone => ColossusSlayerSHeartstone {}.generate(),
            ItemsWeHave::LegguardsOfInvincibleAegis => LegguardsOfInvincibleAegis {}.generate(),
            ItemsWeHave::RingOfBattleProwess => RingOfBattleProwess {}.generate(),
            ItemsWeHave::InfernoStaff => InfernoStaff {}.generate(),
            ItemsWeHave::BootsOfElementalMastery => BootsOfElementalMastery {}.generate(),
            ItemsWeHave::DragonScaleArmor => DragonScaleArmor {}.generate(),
            ItemsWeHave::StoneOfStrength => StoneOfStrength {}.generate(),
            ItemsWeHave::SwordOfAsbethathTheBetrayer => SwordOfAsbethathTheBetrayer {}.generate(),
            ItemsWeHave::MemeweaveGloves => MemeweaveGloves {}.generate(),
            ItemsWeHave::RingOfResilientFortitude => RingOfResilientFortitude {}.generate(),
            ItemsWeHave::VeilOfEternalDreams => VeilOfEternalDreams {}.generate(),
            ItemsWeHave::UnyieldingOnyxAssaultRing => UnyieldingOnyxAssaultRing {}.generate(),
            ItemsWeHave::RingOfArcaneMastery => RingOfArcaneMastery {}.generate(),
        }
    }

    /// All items, in declaration order.
    pub fn all() -> (r: Vec<ItemsWeHave>)
        ensures
            r@ == all_items(),
    {
        let r = vec![ItemsWeHave::VenomweaveGloves, ItemsWeHave::PrismariPrimer, ItemsWeHave::WandOfAbyssalDesolation, ItemsWeHave::AmuletOfArcaneAscendance, ItemsWeHave::ArcaneReliquaryOfPower, ItemsWeHave::AsgardianAegis, ItemsWeHave::HelmOfTheDwarfBetrayer, ItemsWeHave::ColossusSlayerSHeartstone, ItemsWeHave::LegguardsOfInvincibleAegis, ItemsWeHave::RingOfBattleProwess, ItemsWeHave::InfernoStaff, ItemsWeHave::BootsOfElementalMastery, ItemsWeHave::DragonScaleArmor, ItemsWeHave::StoneOfStrength, ItemsWeHave::SwordOfAsbethathTheBetrayer, ItemsWeHave::MemeweaveGloves, ItemsWeHave::RingOfResilientFortitude, ItemsWeHave::VeilOfEternalDreams, ItemsWeHave::UnyieldingOnyxAssaultRing, ItemsWeHave::RingOfArcaneMastery];
        assert(r@ =~= all_items());
        r
    }

    pub fn slot(&self) -> (r: EquipmentSlot)
        ensures
            r == template_slot(*self),
    {
        match self {
            ItemsWeHave::VenomweaveGloves => EquipmentSlot::Hands,
            ItemsWeHave::PrismariPrimer => EquipmentSlot::WondrousItem,
            ItemsWeHave::WandOfAbyssalDesolation => EquipmentSlot::Weapon,
            ItemsWeHave::AmuletOfArcaneAscendance => EquipmentSlot::Amulet,
            ItemsWeHave::ArcaneReliquaryOfPower => EquipmentSlot::WondrousItem,
            ItemsWeHave::AsgardianAegis => EquipmentSlot::Shield,
            ItemsWeHave::HelmOfTheDwarfBetrayer => EquipmentSlot::Helmet,
            ItemsWeHave::ColossusSlayerSHeartstone => EquipmentSlot::WondrousItem,
            ItemsWeHave::LegguardsOfInvincibleAegis => EquipmentSlot::Legs,
            ItemsWeHave::RingOfBattleProwess => EquipmentSlot::Ring,
            ItemsWeHave::InfernoStaff => EquipmentSlot::Weapon,
            ItemsWeHave::BootsOfElementalMastery => EquipmentSlot::Feet,
            ItemsWeHave::DragonScaleArmor => EquipmentSlot::Armor,
            ItemsWeHave::StoneOfStrength => EquipmentSlot::WondrousItem,
            ItemsWeHave::SwordOfAsbethathTheBetrayer => EquipmentSlot::Weapon,
            ItemsWeHave::MemeweaveGloves => EquipmentSlot::Hands,
            ItemsWeHave::RingOfResilientFortitude => EquipmentSlot::Ring,
            ItemsWeHave::VeilOfEternalDreams => EquipmentSlot::WondrousItem,
            ItemsWeHave::UnyieldingOnyxAssaultRing => EquipmentSlot::Ring,
            ItemsWeHave::RingOfArcaneMastery => EquipmentSlot::Ring,
        }
    }

    pub fn rarity(&self) -> (r: Rarity)
        ensures
            r == template_rarity(*self),
    {
        match self {
            ItemsWeHave::VenomweaveGloves => Rarity::Legendary,
            ItemsWeHave::PrismariPrimer => Rarity::Rare,
            ItemsWeHave::WandOfAbyssalDesolation => Rarity::Legendary,
            ItemsWeHave::AmuletOfArcaneAscendance => Rarity::Artifact,
            ItemsWeHave::ArcaneReliquaryOfPower => Rarity::Artifact,
            ItemsWeHave::AsgardianAegis => Rarity::Artifact,
            ItemsWeHave::HelmOfTheDwarfBetrayer => Rarity::Legendary,
            ItemsWeHave::ColossusSlayerSHeartstone => Rarity::Legendary,
            ItemsWeHave::LegguardsOfInvincibleAegis => Rarity::Legendary,
            ItemsWeHave::RingOfBattleProwess => Rarity::Epic,
            ItemsWeHave::InfernoStaff => Rarity::Legendary,
            ItemsWeHave::BootsOfElementalMastery => Rarity::Legendary,
            ItemsWeHave::DragonScaleArmor => Rarity::VeryRare,
            ItemsWeHave::StoneOfStrength => Rarity::Uncommon,
            ItemsWeHave::SwordOfAsbethathTheBetrayer => Rarity::Artifact,
            ItemsWeHave::MemeweaveGloves => Rarity::Common,
            ItemsWeHave::RingOfResilientFortitude => Rarity::Epic,
            ItemsWeHave::VeilOfEternalDreams => Rarity::Unique,
            ItemsWeHave::UnyieldingOnyxAssaultRing => Rarity::Legendary,
            ItemsWeHave::RingOfArcaneMastery => Rarity::Epic,
        }
    }

    /// The chance weight of an item in random draws: the number of its rarity.
    pub fn weight(&self) -> (r: u64)
        ensures
            r == template_rarity(*self).number(),
    {
        self.rarity().value()
    }

    /// The item that a draw from `0..total` picks: the first whose running total of weights
    /// exceeds the draw; `None` where the draw reaches the total.
    pub fn pick_by_weight(items: &Vec<ItemsWeHave>, draw: u64) -> (r: Option<ItemsWeHave>)
        requires
            weights_before(items@, items@.len() as int) <= u64::MAX,
        ensures
            r is None <==> draw >= weights_before(items@, items@.len() as int),
            r matches Some(it) ==> exists|i: int| #[trigger] picks(items@, draw, i) && items@[i] == it,
    {
        proof {
            lemma_weights_monotone(items@, items@.len() as int);
        }
        let mut current: u64 = 0;
        let mut i: usize = 0;
        while i < items.len()
            invariant
                i <= items@.len(),
                current == weights_before(items@, i as int),
                current <= draw,
                weights_before(items@, items@.len() as int) <= u64::MAX,
                forall|a: int, b: int| 0 <= a <= b <= items@.len() ==> weights_before(items@, a) <= weights_before(items@, b),
            decreases items@.len() - i,
        {
            let w = items[i].weight();
            assert(weights_before(items@, i + 1) == current + w);
            assert(weights_before(items@, i + 1) <= weights_before(items@, items@.len() as int));
            current = current + w;
            if draw < current {
                assert(picks(items@, draw, i as int));
                return Some(items[i]);
            }
            i = i + 1;
        }
        None
    }

    /// The items worn in `slot`, in declaration order.
    pub fn in_slot(slot: EquipmentSlot) -> (r: Vec<ItemsWeHave>)
        ensures
            0 < r@.len() <= all_items().len(),
            forall|k: int| 0 <= k < r@.len() ==> template_slot(#[trigger] r@[k]) == slot && all_items().contains(r@[k]),
            forall|k: int| 0 <= k < all_items().len() && template_slot(#[trigger] all_items()[k]) == slot ==> r@.contains(all_items()[k]),
    {
        let items = ItemsWeHave::all();
        let mut r: Vec<ItemsWeHave> = Vec::new();
        let mut i: usize = 0;
        while i < items.len()
            invariant
                i <= items@.len(),
                items@ == all_items(),
                r@.len() <= i,
                forall|k: int| 0 <= k < r@.len() ==> template_slot(#[trigger] r@[k]) == slot && all_items().contains(r@[k]),
                forall|k: int| 0 <= k < i && template_slot(#[trigger] all_items()[k]) == slot ==> r@.contains(all_items()[k]),
            decreases items@.len() - i,
        {
            if items[i].slot() == slot {
                let ghost before = r@;
                r.push(items[i]);
                assert forall|k: int| 0 <= k < i + 1 && template_slot(#[trigger] all_items()[k]) == slot implies r@.contains(all_items()[k]) by {
                    if k < i {
                        let j = choose|j: int| 0 <= j < before.len() && before[j] == all_items()[k];
                        assert(r@[j] == all_items()[k]);
                    } else {
                        assert(r@[r@.len() - 1] == all_items()[k]);
                    }
                }
            }
            i = i + 1;
        }
        proof {
            lemma_every_slot_has_an_item(slot);
            let k = choose|k: int| 0 <= k < all_items().len() && template_slot(all_items()[k]) == slot;
            assert(r@.contains(all_items()[k]));
        }
        r
    }

    /// A random item of `items`, drawn with chance proportional to its weight.
    fn draw_from(items: &Vec<ItemsWeHave>) -> (r: ItemsWeHave)
        requires
            items@.len() > 0,
            items@.len() <= 1000,
        ensures
            items@.contains(r),
            exists|draw: u64, i: int| #[trigger] picks(items@, draw, i) && items@[i] == r,
    {
        proof {
            lemma_weights_bounds(items@, items@.len() as int);
        }
        let mut total: u64 = 0;
        let mut i: usize = 0;
        while i < items.len()
            invariant
                i <= items@.len() <= 1000,
                total == weights_before(items@, i as int),
                weights_before(items@, items@.len() as int) <= 150 * items@.len(),
            decreases items@.len() - i,
        {
            proof {
                lemma_weights_bounds(items@, i + 1);
            }
            total = total + items[i].weight();
            i = i + 1;
        }
        proof {
            lemma_weights_bounds(items@, items@.len() as int);
        }
        let draw = random_range(0, total);
        match ItemsWeHave::pick_by_weight(items, draw) {
            Some(it) => it,
            None => items[0],
        }
    }

    /// A random item of the whole game, drawn with chance proportional to its weight.
    pub fn generate_random_item() -> (r: Option<ItemsWeHave>)
        ensures
            r matches Some(it) && all_items().contains(it),
            exists|draw: u64, i: int| #[trigger] picks(all_items(), draw, i) && r == Some(all_items()[i]),
    {
        let items = ItemsWeHave::all();
        Some(ItemsWeHave::draw_from(&items))
    }

    /// A random item worn in `slot`, drawn with chance proportional to its weight.
    pub fn generate_random_item_slot(slot: EquipmentSlot) -> (r: ItemsWeHave)
        ensures
            template_slot(r) == slot,
            all_items().contains(r),
    {
        let items = ItemsWeHave::in_slot(slot);
        ItemsWeHave::draw_from(&items)
    }

    /// The template of a random item of the whole game.
    pub fn generate_random() -> (r: IndividualItem)
        ensures
            exists|it: ItemsWeHave| all_items().contains(it) && template_matches(r, it),
    {
        let it = ItemsWeHave::generate_random_item().unwrap();
        it.generate()
    }

    /// The template of a random item worn in `slot`.
    pub fn generate_slot(slot: EquipmentSlot) -> (r: IndividualItem)
        ensures
            r.slot == slot,
            exists|it: ItemsWeHave| all_items().contains(it) && template_matches(r, it),
    {
        let it = ItemsWeHave::generate_random_item_slot(slot);
        it.generate()
    }

}


/// A draw picks at most one item: the windows of the running weight totals do not overlap.
pub proof fn law_draw_picks_one(items: Seq<ItemsWeHave>, draw: u64, i: int, j: int)
    requires
        picks(items, draw, i),
        picks(items, draw, j),
    ensures
        i == j,
{
    lemma_weights_monotone(items, items.len() as int);
    if i < j {
        assert(weights_before(items, i + 1) <= weights_before(items, j));
    } else if j < i {
        assert(weights_before(items, j + 1) <= weights_before(items, i));
    }
}

} // verus!
