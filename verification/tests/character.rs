use carrion_eris::battle::BattleResult;
use carrion_eris::classes::Classes;
use carrion_eris::constructed::ItemsWeHave;
use carrion_eris::dice::{AdvantageState, Dice, Die, DieObject};
use carrion_eris::enemies::{Enemy, EnemyState, Mob, MobGrade};
use carrion_eris::game::{buy_battles, buy_enemies, CharacterData, Mutations};
use carrion_eris::items::{EquipmentSlot, Items};
use carrion_eris::player::{attribute_to_string, ActionDice, Character};
use carrion_eris::skills::{MobAction, Skill, SkillSet};
use carrion_eris::traits::CharacterTraits;
use carrion_eris::units::{Attribute, Attributes};
use carrion_eris::BattleInfo;

fn battle(dealt: i32, taken: i32) -> BattleInfo {
    BattleInfo {
        action: Skill::Slash,
        enemy_action: String::new(),
        damage_dealt: dealt,
        damage_taken: taken,
        player_healing: 0,
        enemy_healing: 0,
        player_name: "Ana".to_string(),
        monster_name: "🧌 Orc 🧌".to_string(),
        player_killed: false,
        enemy_killed: false,
        critical: false,
        leveled_up: false,
        monster_hp: 30,
        traits_available: 0,
        next_level: 365,
        experience_gained: 0,
        skill_experience_gained: 0,
        gold_gained: 0,
        item_gained: vec![],
        number_of_player_attacks: 0,
        number_of_enemy_attacks: 0,
        enemy_level: 4,
    }
}

fn orc(health: i32) -> Enemy {
    let mut e = Enemy::default();
    e.health = health;
    e.level = 4;
    e.actions = vec![MobAction::Bite, MobAction::Stab];
    e
}

fn data(character: Character) -> CharacterData {
    CharacterData {
        character,
        enemies: vec![],
        items: Items::new(vec![], 0),
        user_id: 7,
        active_enemy: Some(orc(30)),
    }
}

#[test]
fn class_attributes() {
    let w: Attributes = (&Classes::Warrior).into();
    assert_eq!(w.strength, Attribute::Strength(17));
    assert_eq!(w.constitution, Attribute::Constitution(15));
    assert_eq!(w.wisdom, Attribute::Wisdom(7));
    let s: Attributes = (&Classes::Sorcerer).into();
    assert_eq!(s.charisma, Attribute::Charisma(17));
    assert_eq!(s.intelligence, Attribute::Intelligence(15));
    let slime: Attributes = (&Mob::KingSlime).into();
    assert_eq!(slime.strength, Attribute::Strength(22));
    assert_eq!(slime.charisma, Attribute::Charisma(7));
    let troll: Attributes = (&Mob::Troll).into();
    assert_eq!(troll.dexterity, Attribute::Dexterity(22));
    assert_eq!(troll.constitution, Attribute::Constitution(15));
    assert_eq!(troll.charisma, Attribute::Charisma(20));
    let sum = w.sum_with(&s);
    assert_eq!(sum.strength, Attribute::Strength(24));
}

#[test]
fn new_characters() {
    let c = Character::new("Ana".to_string(), 3, Classes::Wizard);
    assert_eq!(c.level, 1);
    assert_eq!(c.max_hp, 10);
    assert_eq!(c.hp, 10);
    assert_eq!(c.current_skill.skill, Skill::MagicMissile);
    assert!(c.current_skill.active);
    assert_eq!(c.attributes.intelligence, Attribute::Intelligence(17));
    let p = Character::new("Pal".to_string(), 4, Classes::Paladin);
    assert_eq!(p.max_hp, 15);
    let d = Character::default();
    assert_eq!(d.class, Classes::Warrior);
    assert_eq!(d.max_hp, 20);
    assert_eq!(d.current_skill.skill, Skill::Slash);
}

#[test]
fn health_gain_by_class() {
    let w = Character::new("W".to_string(), 1, Classes::Warrior);
    assert_eq!(w.hp_gain(2), 15 * 10 + 10 + 20);
    let z = Character::new("Z".to_string(), 1, Classes::Wizard);
    assert_eq!(z.hp_gain(2), 7 * 3 + 5 + 10);
    let p = Character::new("P".to_string(), 1, Classes::Paladin);
    assert_eq!(p.hp_gain(2), 7 * 7 + 10 + 15);
}

#[test]
fn level_up_and_rest() {
    let mut c = Character::new("W".to_string(), 1, Classes::Warrior);
    c.experience = 50;
    assert!(!c.try_level_up(|_| 60));
    assert_eq!(c.level, 1);
    c.experience = 70;
    assert!(c.try_level_up(|l| if l == 1 { 60 } else { 100 }));
    assert_eq!(c.level, 2);
    assert_eq!(c.max_hp, 180);
    assert_eq!(c.hp, 180);
    assert_eq!(c.experience, 0);
    c.hp = 3;
    c.rest();
    assert_eq!(c.hp, 180);
}

#[test]
fn traits_are_gained_every_ten_levels() {
    let mut c = Character::new("W".to_string(), 1, Classes::Warrior);
    c.level = 9;
    assert!(!c.try_trait_gain());
    c.level = 10;
    assert!(c.try_trait_gain());
    assert_eq!(c.available_traits, 1);
    assert!(!c.try_trait_gain());
    assert!(c.insert_trait(CharacterTraits::Strong));
    assert_eq!(c.available_traits, 0);
    assert_eq!(c.attributes.strength, Attribute::Strength(20));
    assert!(!c.try_trait_gain());
    assert_eq!(c.get_traits(), &vec![CharacterTraits::Strong]);
}

#[test]
fn action_points_count_levels_traits_and_items() {
    let mut c = Character::new("W".to_string(), 1, Classes::Warrior);
    assert_eq!(c.action_points(), 1);
    c.level = 25;
    c.traits.push(CharacterTraits::Energetic);
    c.equipment.equip(ItemsWeHave::UnyieldingOnyxAssaultRing);
    assert_eq!(c.action_points(), 1 + 2 + 1 + 2);
}

#[test]
fn character_text() {
    let mut c = Character::new("Ana".to_string(), 3, Classes::Warrior);
    c.traits.push(CharacterTraits::Keen);
    let expected = "```\nName: Ana\nLevel: 1\nClass: ⚔️ Warrior ⚔️\nHP: 20/20\nExperience: 0\nAttributes: \n\tStrength: 17\n\tIntelligence: 7\n\tDexterity: 7\n\tConstitution: 15\n\tWisdom: 7\n\tCharisma 7\nTraits:\n\tKeen\nEquipment:\n```";
    assert_eq!(c.to_string(), expected);
    assert_eq!(attribute_to_string(&Attribute::Charisma(3)), "Charisma 3");
}

#[test]
fn action_dice() {
    let mut dice = ActionDice::default();
    assert!(dice.is_empty());
    dice.physical = Some(Dice::new_from(Die::D4, 2));
    dice.add_existing_die(vec![DieObject::new(Die::D6)]);
    assert_eq!(dice.len(), 3);
    dice.magical = Some(Dice::new_from(Die::D8, 1));
    dice.add_existing_die(vec![DieObject::new(Die::D6), DieObject::new(Die::D6)]);
    assert_eq!(dice.len(), 6);
    dice.set_critical_state(AdvantageState::Advantage);
    assert_eq!(dice.physical().unwrap().dice[0].advantage, AdvantageState::Advantage);
    dice.set_critical_target(-2);
    assert_eq!(dice.magical().unwrap().dice[0].critical, 18);
}

#[test]
fn battle_report() {
    let c = Character::new("Ana".to_string(), 3, Classes::Warrior);
    let e = orc(30);
    let b = BattleInfo::begin(&c, &e, 365);
    assert_eq!(b.player_name, "Ana");
    assert_eq!(b.monster_name, "🧌 Orc 🧌");
    assert_eq!(b.monster_hp, 30);
    assert_eq!(b.enemy_level, 4);
    let mut b = battle(-7, 5);
    b.number_of_player_attacks = 2;
    b.enemy_action = "Bite".to_string();
    b.gold_gained = 12;
    b.item_gained = vec![ItemsWeHave::StoneOfStrength];
    let expected = "\n🗡️\n\t🎲\tAna attacked the 🧌 Orc 🧌 with 🗡️ Slash 🗡️ dealing -7 damage!\t🎲\n\t🎲\tAverage damage per hit is -3\t🎲\n\t🪨\tNext level in 365 experience!\t🪨\n\t🎲\t🧌 Orc 🧌 attacked Ana with Bite dealing 5 damage!\t🎲\n\t💰\tAna gained 12 gold!\t💰\n\t🎁\t Item gained: Stone of Strength\t🎁\n🗡️\n";
    assert_eq!(b.to_string(), expected);
    let mut r = BattleResult::default();
    r.append_result(b);
    assert_eq!(r.result.len(), 1);
}

#[test]
fn enemies() {
    let e = orc(30);
    assert!(e.alive());
    let a = e.choose_action();
    assert!(a == MobAction::Bite || a == MobAction::Stab);
    let mut e = e.set_experience_multiple(3);
    assert_eq!(e.experience, 0);
    e.gold = 5;
    assert_eq!(e.cost(), 15);
    let e = e.set_actions(vec![MobAction::Explode]);
    assert_eq!(e.actions, vec![MobAction::Explode]);
    let mut dead = Enemy::default();
    dead.state = EnemyState::Dead;
    assert!(!dead.alive());
    let x = Enemy::linear_scaling(3);
    assert!((3..150).contains(&x));
    assert_eq!(MobGrade::for_roll(1), MobGrade::Weak);
    assert_eq!(MobGrade::for_roll(80), MobGrade::Normal);
    assert_eq!(MobGrade::for_roll(95), MobGrade::Strong);
    assert_eq!(MobGrade::for_roll(100), MobGrade::Boss);
    let _ = MobGrade::random();
    assert_eq!(Mob::Orc.gold_at(9), 3);
    assert_eq!(Mob::Lich.gold_at(4), 20);
}

#[test]
fn buying_enemies() {
    assert_eq!(buy_enemies(100, 30, 5), (3, 90));
    assert_eq!(buy_enemies(100, 30, 2), (2, 60));
    assert_eq!(buy_enemies(10, 30, 2), (0, 0));
    assert_eq!(buy_enemies(10, 0, 4), (4, 0));
}

#[test]
fn mutations_on_the_data() {
    let mut d = data(Character::new("Ana".to_string(), 7, Classes::Warrior));
    let none = |_: u32| 1000u32;
    let skill_curve = |_: u32| 1000u64;
    // Equipping needs the item in the inventory.
    d.apply_mutation(Mutations::Equip(7, ItemsWeHave::DragonScaleArmor), None, 100, none, skill_curve);
    assert!(d.character.equipment.armor.item().is_none());
    d.items.push(ItemsWeHave::DragonScaleArmor);
    d.items.push(ItemsWeHave::DragonScaleArmor);
    d.apply_mutation(Mutations::Equip(7, ItemsWeHave::DragonScaleArmor), None, 100, none, skill_curve);
    assert_eq!(d.character.equipment.armor.item(), Some(&ItemsWeHave::DragonScaleArmor));
    assert_eq!(d.items.iter(), &[ItemsWeHave::DragonScaleArmor]);
    d.apply_mutation(Mutations::Equip(7, ItemsWeHave::DragonScaleArmor), None, 100, none, skill_curve);
    assert_eq!(d.items.iter(), &[ItemsWeHave::DragonScaleArmor]);
    // Switching skills.
    d.apply_mutation(Mutations::Skill(7, Skill::FireBall), None, 100, none, skill_curve);
    assert_eq!(d.character.current_skill.skill, Skill::FireBall);
    let known = SkillSet { skill: Skill::Slash, experience: 5, active: true, level: 3 };
    let previous = d.switch_skill(Skill::Slash, Some(known));
    assert_eq!(previous.skill, Skill::FireBall);
    assert_eq!(d.character.current_skill.level, 3);
    // Selling.
    d.apply_mutation(Mutations::Sell(7, None, None), None, 100, none, skill_curve);
    assert!(d.items.iter().is_empty());
    assert_eq!(d.items.gold, 250);
    // Queueing enemies: an orc at level 1 carries one gold and costs three.
    d.apply_mutation(Mutations::AddEnemy(7, Mob::Orc, 2), None, 100, none, skill_curve);
    assert_eq!(d.enemies, vec![Mob::Orc, Mob::Orc]);
    assert_eq!(d.items.gold, 244);
    // New items: what cannot be worn goes to the inventory with the gold.
    let loot = Items::new(vec![ItemsWeHave::DragonScaleArmor, ItemsWeHave::HelmOfTheDwarfBetrayer], 6);
    d.apply_mutation(Mutations::NewItems(7, loot), None, 100, none, skill_curve);
    assert_eq!(d.character.equipment.helmet.item(), Some(&ItemsWeHave::HelmOfTheDwarfBetrayer));
    assert_eq!(d.items.iter(), &[ItemsWeHave::DragonScaleArmor]);
    assert_eq!(d.items.gold, 250);
    // Traits: nothing waits.
    d.apply_mutation(Mutations::Trait(7, CharacterTraits::Keen), None, 100, none, skill_curve);
    assert!(d.character.traits.is_empty());
    // Synchronising changes nothing.
    assert_eq!(d.apply_mutation(Mutations::SynchronizeItems(7), None, 100, none, skill_curve), None);
    assert_eq!(*Mutations::Delete(9).user_id(), 9);
}

#[test]
fn battles_update_the_data() {
    let mut d = data(Character::new("Ana".to_string(), 7, Classes::Warrior));
    d.enemies = vec![Mob::Troll];
    let curve = |_: u32| 1000u32;
    let skill_curve = |_: u32| 10u64;
    let mut b = battle(10, 4);
    b.enemy_healing = 100;
    b.experience_gained = 30;
    b.skill_experience_gained = 25;
    // The orc had 30: 10 dealt leaves 20, and it heals at most a quarter of that.
    let next = d.apply_mutation(Mutations::UpdateEnemies(7, b.clone()), None, 1000, curve, skill_curve);
    assert_eq!(next, None);
    assert_eq!(d.active_enemy.as_ref().unwrap().health, 25);
    d.apply_mutation(Mutations::UpdatePlayer(7, b.clone()), None, 1000, curve, skill_curve);
    // 20 - 4 = 16, then a quarter of the maximum (5) more, capped at 20.
    assert_eq!(d.character.hp, 20);
    assert_eq!(d.character.experience, 30);
    d.apply_mutation(Mutations::UpdateSkills(7, b.clone()), None, 1000, curve, skill_curve);
    assert_eq!(d.character.current_skill.level, 3);
    assert_eq!(d.character.current_skill.experience, 5);
    // A killed enemy is followed by the first queued mob, at a level set by the damage taken.
    b.enemy_killed = true;
    let next = d.apply_mutation(Mutations::UpdateEnemies(7, b.clone()), None, 1000, curve, skill_curve);
    assert_eq!(next, Some((Mob::Troll, 2)));
    assert!(d.enemies.is_empty());
    b.damage_taken = 0;
    let next = d.apply_mutation(Mutations::UpdateEnemies(7, b.clone()), None, 1000, curve, skill_curve);
    assert_eq!(next.unwrap().1, 7);
    // A character that falls is healed to full and gains nothing.
    let mut fall = battle(0, 500);
    fall.experience_gained = 99;
    d.apply_mutation(Mutations::UpdatePlayer(7, fall), None, 1000, curve, skill_curve);
    assert_eq!(d.character.hp, 20);
    assert_eq!(d.character.experience, 30);
}

#[test]
fn battles_are_bought_while_the_gold_lasts() {
    let weak = Enemy { gold: 10, ..Enemy::default() };
    assert_eq!(weak.battle_cost(), 3);
    let boss = Enemy { kind: Mob::Lich, gold: 10, ..Enemy::default() };
    assert_eq!(boss.battle_cost(), 30);
    let (bought, spent) = buy_battles(7, vec![weak.clone(), weak.clone(), weak.clone()]);
    assert_eq!(bought.len(), 2);
    assert_eq!(spent, 6);
    let (bought, spent) = buy_battles(35, vec![weak.clone(), boss.clone(), weak.clone(), weak.clone()]);
    assert_eq!(bought.len(), 2);
    assert_eq!(bought[1].kind, Mob::Lich);
    assert_eq!(spent, 33);
    let (bought, spent) = buy_battles(20, vec![boss, weak]);
    assert!(bought.is_empty());
    assert_eq!(spent, 0);
}
