use carrion_eris::battle::BattleResult;
use carrion_eris::classes::Classes;
use carrion_eris::constructed::ItemsWeHave;
use carrion_eris::damage::{ResistCategories, UniqueDamageEffect};
use carrion_eris::dice::{AdvantageState, Dice, Die, DieObject};
use carrion_eris::enemies::{EnemyState, Mob, MobGrade};
use carrion_eris::item_templates::SerialAttributes;
use carrion_eris::items::{EquipmentSlot, Rarity};
use carrion_eris::skills::{MobAction, Skill, SkillSet};
use carrion_eris::traits::CharacterTraits;
use carrion_eris::units::{Alignment, AttackType, Attribute, Attributes, DamageType};
use carrion_eris::{sub_linear_scaling, MobQueue};

#[test]
fn sub_linear_scaling_is_the_square_root() {
    assert_eq!(sub_linear_scaling(0), 0);
    assert_eq!(sub_linear_scaling(1), 1);
    assert_eq!(sub_linear_scaling(2), 1);
    assert_eq!(sub_linear_scaling(99), 9);
    assert_eq!(sub_linear_scaling(100), 10);
    assert_eq!(sub_linear_scaling(1000), 31);
    assert_eq!(sub_linear_scaling(u32::MAX), 65535);
    for n in [3u32, 17, 500, 12345, 4_000_000_000] {
        let expected = ((n as f64) / (n as f64).sqrt()) as u32;
        assert_eq!(sub_linear_scaling(n), expected);
    }
}

#[test]
fn attribute_arithmetic() {
    let mut a = Attribute::Strength(7);
    a.plus(3);
    assert_eq!(a, Attribute::Strength(10));
    a.minus(4);
    assert_eq!(a, Attribute::Strength(10));
    assert_eq!(a.inner(), 10);
    assert_eq!(a.absolute_difference(&Attribute::Wisdom(12)), -2);
    assert_eq!(Attribute::Wisdom(3).sum_with(Attribute::Strength(4)), Attribute::Wisdom(7));
    assert_eq!(Attribute::Wisdom(3).difference_with(Attribute::Strength(4)), Attribute::Wisdom(0));
    assert_eq!(AttackType::Magical(5).inner(), 5);
}

#[test]
fn attribute_names() {
    assert_eq!(Attribute::from_text("Strength"), Ok(Attribute::Strength(0)));
    assert_eq!(Attribute::from_text("CHARISMA"), Ok(Attribute::Charisma(0)));
    assert_eq!(Attribute::from_text("luck"), Err(()));
}

#[test]
fn attributes_lookup() {
    let a = Attributes::default();
    assert_eq!(a.get(&Attribute::Dexterity(0)), 7);
    let z = Attributes::zero();
    assert_eq!(z.get(&Attribute::Wisdom(99)), 0);
}

#[test]
fn traits_raise_attributes() {
    let mut a = Attributes::default();
    CharacterTraits::Robust.attribute_mutator(&mut a);
    assert_eq!(a.strength, Attribute::Strength(8));
    assert_eq!(a.constitution, Attribute::Constitution(10));
    let mut b = Attributes::default();
    CharacterTraits::Addict.attribute_mutator(&mut b);
    assert_eq!(b.constitution, Attribute::Constitution(7));
    assert_eq!(b.intelligence, Attribute::Intelligence(12));
}

#[test]
fn trait_names() {
    assert_eq!(CharacterTraits::try_from("FolkHero".to_string()).unwrap(), CharacterTraits::FolkHero);
    assert_eq!(CharacterTraits::try_from("keen".to_string()).unwrap(), CharacterTraits::Keen);
    assert!(CharacterTraits::try_from("brave".to_string()).is_err());
    assert_eq!(CharacterTraits::Energetic.to_string(), "Energetic");
}

#[test]
fn dice_sides_and_rolls() {
    assert_eq!(Die::D4.sides(), 4);
    assert_eq!(Die::D100.sides(), 100);
    for _ in 0..200 {
        let r = Die::D6.roll(AdvantageState::Advantage);
        assert!((1..=6).contains(&r));
        let r = Die::D6.roll(AdvantageState::Disadvantage);
        assert!((1..=6).contains(&r));
    }
}

#[test]
fn advantage_states() {
    let mut a = AdvantageState::Normal;
    a.transition(AdvantageState::Advantage);
    assert_eq!(a, AdvantageState::Advantage);
    a.transition(AdvantageState::Advantage);
    assert_eq!(a, AdvantageState::Normal);
    assert_eq!(AdvantageState::from_bonus(3), AdvantageState::Advantage);
    assert_eq!(AdvantageState::from_bonus(-1), AdvantageState::Disadvantage);
    assert_eq!(AdvantageState::from_bonus(0), AdvantageState::Normal);
    assert_eq!(AdvantageState::Disadvantage.as_size(), 1);
}

#[test]
fn die_objects() {
    let mut d = DieObject::new(Die::D8);
    assert_eq!(d.success, 8);
    assert_eq!(d.critical, 20);
    assert_eq!(d.get_critical_multiplier(), 1300);
    d.set_critical(-25);
    assert_eq!(d.critical, 0);
    d.set_critical_die(Die::D12);
    assert_eq!(d.critical, 12);
    d.increase_critical_multiplier(200);
    assert_eq!(d.get_critical_multiplier(), 1500);
    assert_eq!(d.get_sides(), 8);
}

#[test]
fn dice_collections() {
    let mut dice = Dice::new_from(Die::D4, 3);
    assert_eq!(dice.len(), 3);
    dice.add_die(vec![DieObject::new(Die::D20)]);
    assert_eq!(dice.len(), 4);
    dice.set_success(1);
    assert!(dice.success());
    dice.set_success(1000);
    assert!(!dice.success());
    for _ in 0..100 {
        let r = dice.roll();
        // four faces thrice and twenty faces, each at most 1.3 times on a critical
        assert!(r <= 3 * 6 + 26);
    }
    dice.advantage();
    assert_eq!(dice.dice[0].advantage, AdvantageState::Advantage);
    dice.disadvantage();
    assert_eq!(dice.dice[0].advantage, AdvantageState::Normal);
    assert_eq!(Dice::default().len(), 1);
    assert_eq!(Dice::zero().len(), 0);
}

#[test]
fn skills_show_and_scale() {
    assert_eq!(Skill::FireBall.to_string(), "🔥 Fire Ball 🔥");
    assert_eq!(Skill::Slash.attribute_scaling(), Some(Attribute::Strength(0)));
    assert_eq!(Skill::Rapture.element(), Some(DamageType::Holy));
    assert_eq!(MobAction::Regenerate.element(), Some(DamageType::Healing));
    for _ in 0..100 {
        let b = MobAction::Regenerate.elemental_scaling();
        assert!((0..100).contains(&b));
        let b = Skill::Tornado.elemental_scaling();
        assert!((0..10).contains(&b));
    }
}

#[test]
fn skill_sets_level_up() {
    let mut s = SkillSet::new(Skill::Backstab);
    assert!(s.active);
    assert_eq!(s.skill(), Skill::Backstab);
    assert_eq!(s.action_experience_scaling(), 10);
    s.experience = 25;
    // each level needs ten times the level in experience
    s.try_level_up(|l: u32| 10 * l as u64);
    // 25 >= 10: level 2, 25 - 20 = 5 left; 5 < 20
    assert_eq!(s.level, 2);
    assert_eq!(s.experience, 5);
    let d = SkillSet::default();
    assert!(!d.active);
    assert_eq!(d.skill, Skill::Slash);
}

#[test]
fn classes() {
    assert_eq!(Classes::Paladin.action(), Skill::Rapture);
    assert_eq!(Classes::Warrior.action(), Skill::Slash);
    assert_eq!(Classes::Sorcerer.scaling(), "wisdom");
    assert_eq!(Classes::Wizard.attribute_scaling(), Some(Attribute::Intelligence(0)));
}

#[test]
fn mobs() {
    assert_eq!(Mob::Lich.actions(), vec![MobAction::NecroticBlast, MobAction::SummonUndead]);
    assert_eq!(Mob::Troll.vulnerability(), Some(DamageType::Fire));
    assert_eq!(Mob::KingSlime.to_string(), "👑 King Slime 👑");
    assert_eq!(MobGrade::Strong.value(), 3);
    assert_eq!(Mob::spawn_weights(), vec![1, 2, 3, 10, 1, 3, 10, 10, 3]);
    for _ in 0..100 {
        let m = Mob::random();
        assert!(Mob::all().contains(&m));
    }
    assert_ne!(EnemyState::Dead, EnemyState::Alive);
    let q = MobQueue::default();
    assert!(q.mobs.is_empty());
}

#[test]
fn rarities() {
    assert_eq!(Rarity::Legendary.item_points(), 180_000);
    assert_eq!(Rarity::Unique.one_less(), Rarity::Wondrous);
    assert_eq!(Rarity::Common.one_less(), Rarity::Common);
    assert_eq!(Rarity::from_points(1000), Rarity::Common);
    assert_eq!(Rarity::from_points(1001), Rarity::Uncommon);
    assert_eq!(Rarity::from_points(500_001), Rarity::Wondrous);
    assert_eq!(Rarity::from_points(5_000_000), Rarity::Unique);
    assert_eq!(Rarity::Epic.value(), 7);
}

#[test]
fn slots() {
    assert_eq!(EquipmentSlot::for_roll(0), EquipmentSlot::Helmet);
    assert_eq!(EquipmentSlot::for_roll(301), EquipmentSlot::Armor);
    assert_eq!(EquipmentSlot::for_roll(938), EquipmentSlot::Ring);
    assert_eq!(EquipmentSlot::for_roll(999), EquipmentSlot::WondrousItem);
    assert_eq!(EquipmentSlot::Ring.to_string(), "💍 Ring 💍");
}

#[test]
fn damage_tables() {
    let table = DamageType::damage_type_hash_map();
    assert_eq!(table.len(), 18);
    assert!(table.iter().all(|(_, v)| *v == 0));
    assert_eq!(table[0].0, DamageType::Fire);
    assert_eq!(ResistCategories::resist_category_hash_map().len(), 6);
    assert_eq!(DamageType::Air.resist_category(), ResistCategories::Elemental);
    assert_eq!(DamageType::Healing.resist_category(), ResistCategories::NonElemental);
    assert_eq!(ResistCategories::for_roll(40), ResistCategories::Prismatic);
    assert_eq!(ResistCategories::for_roll(21), ResistCategories::Physical);
    for _ in 0..100 {
        assert_ne!(DamageType::random(), DamageType::Universal);
        assert_ne!(ResistCategories::random(), ResistCategories::Boss);
    }
    assert_eq!(DamageType::default(), DamageType::Universal);
    assert_ne!(UniqueDamageEffect::Poison, UniqueDamageEffect::Death);
}

#[test]
fn item_templates() {
    let item = ItemsWeHave::VeilOfEternalDreams.generate();
    assert_eq!(item.rarity, Rarity::Unique);
    assert_eq!(item.value, 1);
    assert_eq!(item.armor.len(), 2);
    assert_eq!(item.attribute_bonus.get(&Attribute::Wisdom(0)), 10);
    let z = SerialAttributes::zero();
    assert_eq!(z.strength + z.charisma, 0);
    for slot in [EquipmentSlot::Ring, EquipmentSlot::Legs, EquipmentSlot::Shield] {
        let it = ItemsWeHave::generate_random_item_slot(slot.clone());
        assert_eq!(it.slot(), slot);
    }
}

#[test]
fn weighted_picks() {
    let items = vec![ItemsWeHave::MemeweaveGloves, ItemsWeHave::VeilOfEternalDreams, ItemsWeHave::PrismariPrimer];
    // weights 150, 1 and 50
    assert_eq!(ItemsWeHave::pick_by_weight(&items, 0), Some(ItemsWeHave::MemeweaveGloves));
    assert_eq!(ItemsWeHave::pick_by_weight(&items, 149), Some(ItemsWeHave::MemeweaveGloves));
    assert_eq!(ItemsWeHave::pick_by_weight(&items, 150), Some(ItemsWeHave::VeilOfEternalDreams));
    assert_eq!(ItemsWeHave::pick_by_weight(&items, 151), Some(ItemsWeHave::PrismariPrimer));
    assert_eq!(ItemsWeHave::pick_by_weight(&items, 201), None);
}

#[test]
fn battle_results_append() {
    let mut r = BattleResult::default();
    assert!(r.result.is_empty());
    let info = carrion_eris::BattleInfo {
        action: Skill::Slash,
        enemy_action: String::new(),
        damage_dealt: 3,
        damage_taken: 0,
        player_healing: 0,
        enemy_healing: 0,
        player_name: "me".to_string(),
        monster_name: "orc".to_string(),
        player_killed: false,
        enemy_killed: false,
        critical: false,
        leveled_up: false,
        monster_hp: 10,
        traits_available: 0,
        next_level: 5,
        experience_gained: 0,
        skill_experience_gained: 0,
        gold_gained: 0,
        item_gained: vec![],
        number_of_player_attacks: 1,
        number_of_enemy_attacks: 0,
        enemy_level: 1,
    };
    r.append_result(info.clone());
    assert_eq!(r.result.len(), 1);
    let r2 = BattleResult::new(vec![info]);
    assert_eq!(r2.result[0].damage_dealt, 3);
    assert_eq!(Alignment::TrueNeutral, Alignment::TrueNeutral);
}

#[test]
fn damage_types_are_read_ignoring_case() {
    assert_eq!(DamageType::from_text("Fire"), DamageType::Fire);
    assert_eq!(DamageType::from_text("NONELEMENTAL"), DamageType::NonElemental);
    assert_eq!(DamageType::parse("physical"), Some(DamageType::Physical));
    assert_eq!(DamageType::parse("hope"), None);
    assert_eq!(DamageType::parse("fire "), None);
}

#[test]
fn rarities_are_read_ignoring_case() {
    assert_eq!(Rarity::from_text("VeryRare".to_owned()), Rarity::VeryRare);
    assert_eq!(Rarity::from_text("UNIQUE".to_owned()), Rarity::Unique);
    assert_eq!(Rarity::parse("common".to_owned()), Some(Rarity::Common));
    assert_eq!(Rarity::parse("very rare".to_owned()), None);
}
