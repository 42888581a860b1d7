use carrion_eris::battle::BattleResult;
use carrion_eris::classes::Classes;
use carrion_eris::constructed::ItemsWeHave;
use carrion_eris::dice::Die;
use carrion_eris::enemies::{Enemy, EnemyState, Mob, MobGrade};
use carrion_eris::player::{Character, TraitSpend};
use carrion_eris::skills::{MobAction, Skill, SkillSet};
use carrion_eris::traits::CharacterTraits;
use carrion_eris::units::{Attribute, Attributes};
use carrion_eris::BattleInfo;

fn round() -> BattleInfo {
    BattleInfo {
        action: Skill::Slash,
        enemy_action: String::new(),
        damage_dealt: 0,
        damage_taken: 0,
        player_healing: 0,
        enemy_healing: 0,
        player_name: "Ana".to_string(),
        monster_name: "Orc".to_string(),
        player_killed: false,
        enemy_killed: false,
        critical: false,
        leveled_up: false,
        monster_hp: 0,
        traits_available: 0,
        next_level: 10,
        experience_gained: 0,
        skill_experience_gained: 0,
        gold_gained: 0,
        item_gained: vec![],
        number_of_player_attacks: 0,
        number_of_enemy_attacks: 0,
        enemy_level: 1,
    }
}

fn enemy(health: i32, experience: u32) -> Enemy {
    let mut e = Enemy::default();
    e.health = health;
    e.experience = experience;
    e.gold = 7;
    e.items = vec![ItemsWeHave::generate_random_item().unwrap()];
    e
}

#[test]
fn strikes_stop_when_the_enemy_falls() {
    let mut hero = Character::new("Ana".to_string(), 1, Classes::Warrior);
    hero.level = 20; // three action points
    let target = enemy(25, 40);
    let mut info = round();
    hero.player_attack(&target, &mut info, || 10);
    assert_eq!(info.number_of_player_attacks, 3);
    assert_eq!(info.damage_dealt, 30);
    assert_eq!(info.skill_experience_gained, 12);
    assert_eq!(info.monster_hp, 25);
    assert!(info.player_killed);
    assert_eq!(info.gold_gained, 7);
    assert_eq!(info.experience_gained, 80);
    assert_eq!(info.item_gained.len(), 1);

    let mut info = round();
    hero.player_attack(&target, &mut info, || 30);
    assert_eq!(info.number_of_player_attacks, 1);
    assert_eq!(info.damage_dealt, 30);

    let mut info = round();
    hero.player_attack(&enemy(1000, 5), &mut info, || 10);
    assert_eq!(info.number_of_player_attacks, 3);
    assert_eq!(info.skill_experience_gained, 3);
    assert!(!info.player_killed);
    assert_eq!(info.gold_gained, 0);
}

#[test]
fn battle_results_join_their_rounds() {
    let mut result = BattleResult::default();
    assert_eq!(result.to_string(), "");
    result.append_result(round());
    let one = round().to_string();
    assert_eq!(result.to_string(), format!("{one}n"));
}

#[test]
fn skill_sets_show_in_a_block() {
    let mut s = SkillSet::new(Skill::Backstab);
    s.experience = 12;
    assert_eq!(s.to_string(), "```\nSkill: 🗡️ Backstab 🗡️\nLevel: 1\nExperience: 12\n\n```");
}

#[test]
fn skills_level_up_until_short() {
    let mut s = SkillSet::new(Skill::Slash);
    s.experience = 100;
    s.try_level_up(|_| 10);
    // 100 -> 90 -> ... each level takes ten; stops when below ten
    assert_eq!(s.level, 11);
    assert_eq!(s.experience, 0);
}

#[test]
fn spending_traits() {
    let mut hero = Character::new("Ana".to_string(), 1, Classes::Wizard);
    assert!(matches!(hero.spend_trait(Some("robust".to_string())), TraitSpend::NoneWaiting));
    hero.available_traits = 1;
    assert!(matches!(hero.spend_trait(None), TraitSpend::NotGiven));
    assert!(matches!(hero.spend_trait(Some("brave".to_string())), TraitSpend::Invalid(_)));
    assert!(matches!(hero.spend_trait(Some("Genius".to_string())), TraitSpend::Taken(CharacterTraits::Genius)));
    assert_eq!(hero.available_traits, 0);
    hero.available_traits = 1;
    assert!(matches!(hero.spend_trait(Some("genius".to_string())), TraitSpend::AlreadyHeld));
    assert_eq!(hero.available_traits, 1);
}

#[test]
fn enemies_of_each_grade() {
    let weak = Enemy::weak(Mob::Orc, 4, 55, vec![]);
    assert_eq!(weak.health, 55);
    assert_eq!(weak.defense.dice.len(), 3);
    assert_eq!(weak.gold, 2);
    assert!(weak.experience >= 4 && weak.experience < 200);
    assert_eq!(weak.state, EnemyState::Alive);
    assert_eq!(weak.actions, vec![MobAction::Bite, MobAction::Stab]);
    let strong = Enemy::strong(Mob::Drow, 5, 10, vec![]);
    assert_eq!(strong.resistance.dice.len(), 8);
    assert_eq!(strong.gold, 5);
    let boss = MobGrade::Boss.to_enemy(Mob::Lich, 1, Attributes::zero(), 9, vec![]);
    assert_eq!(boss.defense.dice.len(), 17);
    assert_eq!(boss.gold, 10);
    assert_eq!(boss.attributes.strength, Attribute::Strength(0));
    let normal = MobGrade::Normal.to_enemy(Mob::Elf, 8, Attributes::zero(), 9, vec![]);
    assert_eq!(normal.gold, 4);
    assert_eq!(normal.attributes.intelligence, Attribute::Intelligence(22));
}

#[test]
fn enemies_act_with_their_actions() {
    let mut e = Enemy::default();
    e.actions = vec![MobAction::Explode];
    let (dice, action) = e.action(|_| 0);
    assert_eq!(action, MobAction::Explode);
    assert_eq!(dice.physical.unwrap().dice.len() + dice.magical.unwrap().dice.len(), 10);
}

#[test]
fn vulnerable_enemies_take_more_dice() {
    let hero = Character::new("Ana".to_string(), 1, Classes::Paladin);
    // the paladin's own skill is holy; a drow is vulnerable to it
    let drow = Enemy { kind: Mob::Drow, ..Enemy::default() };
    let orc = Enemy::default();
    let plain = hero.current_skill.attack_dice(&hero, &orc, |_| 0);
    let more = hero.current_skill.attack_dice(&hero, &drow, |_| 0);
    let count = |d: &carrion_eris::player::ActionDice| {
        d.physical.as_ref().map_or(0, |x| x.dice.len()) + d.magical.as_ref().map_or(0, |x| x.dice.len())
    };
    assert_eq!(count(&more), count(&plain) + 2);
    assert!(more.magical.as_ref().unwrap().dice.iter().chain(more.physical.iter().flat_map(|p| p.dice.iter())).any(|d| d.die == Die::D10));
}

#[test]
fn enemy_heals_with_regenerate() {
    let hero = Character::new("Ana".to_string(), 1, Classes::Warrior);
    let mut e = Enemy::default();
    e.actions = vec![MobAction::Regenerate];
    let mut info = round();
    hero.enemy_attack(&e, &mut info, |_| 0, || panic!("no dodge on a heal"), |d| d, |d| d);
    assert!(info.enemy_healing >= 2);
    assert_eq!(info.damage_taken, 0);
    assert_eq!(info.enemy_action, MobAction::Regenerate.to_string());
    assert_eq!(info.monster_name, e.kind.to_string());
}

#[test]
fn dodged_enemy_attack_changes_nothing() {
    let hero = Character::new("Ana".to_string(), 1, Classes::Warrior);
    let mut e = Enemy::default();
    e.actions = vec![MobAction::Bite];
    let mut info = round();
    hero.enemy_attack(&e, &mut info, |_| 0, || true, |d| d, |d| d);
    assert_eq!(info.damage_taken, 0);
    assert_eq!(info.enemy_action, "");
    assert_eq!(info.monster_name, "Orc");
}

#[test]
fn enemy_damage_is_what_the_defense_lets_through() {
    let hero = Character::new("Ana".to_string(), 1, Classes::Warrior);
    let mut e = Enemy::default();
    e.actions = vec![MobAction::Bite];
    let mut info = round();
    // a bite scales with strength: one d20 of physical damage and no magical dice
    hero.enemy_attack(&e, &mut info, |_| 0, || false, |d| d / 2, |d| d);
    assert!(info.damage_taken >= 0 && info.damage_taken <= 13);
    assert_eq!(info.enemy_action, MobAction::Bite.to_string());
    let mut untouched = round();
    hero.enemy_attack(&e, &mut untouched, |_| 0, || false, |_| 0, |d| d);
    assert_eq!(untouched.damage_taken, 0);
}

#[test]
fn a_terminal_round_stops_when_the_enemy_falls() {
    let mut hero = Character::new("Ana".to_string(), 1, Classes::Warrior);
    let mut e = Enemy { health: 10, experience: 50, ..Enemy::default() };
    let done = hero.strike_round(&mut e, || 4);
    assert!(done >= 4 && done % 4 == 0);
    assert_eq!(e.health, 10 - done);
    assert_eq!(hero.current_skill.experience as i32, 5 * done / 4);
    let mut weak = Enemy { health: 3, experience: 5, ..Enemy::default() };
    let mut fighter = Character::new("Bo".to_string(), 1, Classes::Warrior);
    let done = fighter.strike_round(&mut weak, || 7);
    assert_eq!(done, 7);
    assert_eq!(weak.health, -4);
    assert_eq!(weak.state, EnemyState::Dead);
    assert_eq!(fighter.current_skill.experience, 1);
}

#[test]
fn a_levelled_skill_does_not_level_again() {
    let mut s = SkillSet::new(Skill::Slash);
    s.experience = 95;
    s.try_level_up(|l: u32| 10 * l as u64);
    let (level, experience) = (s.level, s.experience);
    assert!(experience < 10 * level as u64);
    s.try_level_up(|l: u32| 10 * l as u64);
    assert_eq!((s.level, s.experience), (level, experience));
}
