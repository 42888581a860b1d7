use carrion_eris::dice::Die;
use carrion_eris::enemies::Enemy;
use carrion_eris::generated::{AttributeChoices, GeneratedItem};
use carrion_eris::items::Rarity;
use carrion_eris::player::{ActionDice, Character};
use carrion_eris::skills::{MobAction, Skill, SkillSet};
use carrion_eris::units::{Attribute, Attributes, DamageType};

#[test]
fn item_generation_range_for_rate() {
    let rarity = Rarity::Rare;
    for n in 0..10000 {
        let item = GeneratedItem::from_rarity(rarity);
        let item = item.item();
        assert!(item.points >= rarity.item_points() / 2, "Points is too low {item:?} iteration {n}");
        assert!(item.points <= rarity.item_points() * 2, "Points is too high {item:?} iteration {n}");
        assert!(item.rarity == rarity, "Rarity is not correct {item:?} iteration {n}");
        assert!(item.damage.iter().all(|&(_, v)| v <= 2000), "Damage is too high {item:?} iteration {n}");
        assert!(item.resistance.iter().all(|&(_, v)| v <= 2000), "Resistance is too high {item:?} iteration {n}");
        assert!(item.armor <= 1000, "Armor is too high {item:?} iteration {n}");
        assert!(item.dodge <= 1000, "Dodge is too high {item:?} iteration {n}");
        assert!(item.action <= 5, "Action is too high {item:?} iteration {n}");
        assert!(item.attribute_bonus.sum() <= 1000, "Attribute is too high {item:?} iteration {n}");
    }
}

#[test]
fn rarer_than_epic_is_rolled_as_epic() {
    let item = GeneratedItem::from_rarity(Rarity::Legendary);
    assert_eq!(item.rarity, Rarity::Epic);
    assert!(item.points >= 20_000 && item.points < 40_000);
}

#[test]
fn items_from_parts_name_their_attribute() {
    assert!(GeneratedItem::from_parts(DamageType::Fire, "luck".to_string(), 5000).is_none());
    let item = GeneratedItem::from_parts(DamageType::Fire, "STRENGTH".to_string(), 5000).unwrap();
    assert_eq!(item.rarity, Rarity::Rare);
    assert!(item.points >= 2500 && item.points < 5000);
    assert!(item.attribute_bonus.intelligence == Attribute::Intelligence(0));
    assert_eq!(AttributeChoices::from_name("Wisdom"), Some(AttributeChoices::Wisdom));
}

#[test]
fn mob_actions_build_their_dice() {
    let mut enemy = Enemy::default();
    enemy.level = 3;
    enemy.attributes = Attributes::zero();
    let dice = MobAction::Explode.act(&enemy, |_| 1);
    let physical = dice.physical.as_ref().unwrap().dice.len();
    let magical = dice.magical.as_ref().unwrap().dice.len();
    assert_eq!(physical + magical, 11);
    assert!(physical >= 5 && magical >= 5);

    let dice = MobAction::Bite.act(&enemy, |v| v);
    let physical = &dice.physical.as_ref().unwrap().dice;
    assert!(dice.magical.is_none());
    assert_eq!(physical.len(), 1 + 3);
    assert!(physical.iter().all(|d| d.die == Die::D20));

    let dice = MobAction::MindBreak.act(&enemy, |_| 0);
    assert!(dice.physical.is_none());
    assert_eq!(dice.magical.as_ref().unwrap().dice.len(), 20);
}

#[test]
fn skills_build_their_dice() {
    let mut base = ActionDice::default();
    let attributes = Attributes::zero();
    Skill::HolySmite.attribute(&mut base, &attributes, |_| 2);
    assert!(base.physical.is_none());
    assert_eq!(base.magical.as_ref().unwrap().dice.len(), 8);
    assert!(base.magical.as_ref().unwrap().dice.iter().all(|d| d.die == Die::D6));
    Skill::Rapture.elemental(&mut base);
    assert_eq!(base.magical.as_ref().unwrap().dice.len(), 2);

    let player = Character::default();
    let set = SkillSet::new(Skill::Slash);
    let dice = set.action_base_damage(&player, |_| 0);
    assert_eq!(dice.physical.as_ref().unwrap().dice.len(), 1);
    assert!(dice.magical.is_none());
    let dice = set.action_base_damage(&player, |_| 2);
    assert_eq!(dice.physical.as_ref().unwrap().dice.len(), 3 + 2);
    assert_eq!(dice.physical.as_ref().unwrap().dice[4].die, Die::D4);
}

#[test]
fn drops_are_rolled_from_the_drawn_points() {
    // a weak enemy of level 3 draws from 10 up to 60 points, with chance 10 in 200 a time
    let enemy = Enemy { level: 3, ..Enemy::default() };
    let mut seen = 0;
    for _ in 0..2000 {
        let items = GeneratedItem::drops(&enemy);
        assert!(items.len() <= 1);
        for item in items {
            seen += 1;
            assert!(item.points >= 5 && item.points < 60);
        }
    }
    assert!(seen > 0);
}

#[test]
fn dropped_items_are_rolled_from_the_draw() {
    for _ in 0..200 {
        let item = GeneratedItem::dropped_item(50);
        assert!(item.points >= 25 && item.points < 50);
        assert_eq!(item.rarity, Rarity::from_points(50));
        let capped = GeneratedItem::dropped_item(1_000_000);
        assert!(capped.points >= 20_000 && capped.points < 40_000);
    }
}

#[test]
fn ten_d4_roll_between_ten_and_forty() {
    let dice = carrion_eris::dice::Dice::new(vec![carrion_eris::dice::DieObject::new(Die::D4); 10]);
    for _ in 0..1000 {
        let r = dice.roll();
        assert!((10..=40).contains(&r));
    }
}

#[test]
fn left_over_points_are_spent_on_draws() {
    for _ in 0..50 {
        let item = GeneratedItem::from_points(100_000);
        let drawn = item.armor > 0
            || item.dodge > 0
            || item.resistance.iter().any(|(_, v)| *v > 0)
            || item.damage.iter().any(|(_, v)| *v > 0);
        assert!(drawn);
    }
}

#[test]
fn a_sure_critical_multiplies_the_roll() {
    let mut die = carrion_eris::dice::DieObject::new(Die::D4);
    die.critical = 1;
    die.critical_multiplier = 2000;
    let dice = carrion_eris::dice::Dice::new(vec![die]);
    for _ in 0..200 {
        let r = dice.roll();
        assert!(r % 2 == 0 && (2..=8).contains(&r));
    }
}

#[test]
fn a_named_attribute_takes_every_attribute_point() {
    for _ in 0..20 {
        let item = GeneratedItem::from_parts(DamageType::Fire, "wisdom".to_string(), 200_000).unwrap();
        let a = item.attribute_bonus;
        assert_eq!(a.strength.inner() + a.dexterity.inner() + a.constitution.inner(), 0);
        assert_eq!(a.intelligence.inner() + a.charisma.inner(), 0);
    }
}
