use carrion_eris::constructed::ItemsWeHave;
use carrion_eris::dice::{AdvantageState, Dice, Die, DieObject};
use carrion_eris::enemies::{Mob, MobGrade};
use carrion_eris::items::{EquipmentSlot, Rarity};
use carrion_eris::skills::{MobAction, Skill};
use carrion_eris::units::{Alignment, Attribute, DamageType};
use carrion_eris::{AttributeScaling, ElementalScaling};

#[test]
fn test_advantage_state_change() {
    let mut advantage = AdvantageState::Advantage;
    advantage.transition(AdvantageState::Disadvantage);
    assert_eq!(advantage, AdvantageState::Normal);
    advantage.transition(AdvantageState::Disadvantage);
    assert_eq!(advantage, AdvantageState::Disadvantage);
}

#[test]
fn ttt() {
    let mob = Mob::Elf;
    let t = mob.alignment();
    assert_eq!(t, Alignment::LawfulGood);
    let t = mob.grade();
    assert_eq!(t, MobGrade::Normal);
    let t = mob.actions();
    assert_eq!(t, vec![MobAction::FireBall]);
}

#[test]
fn enemies_bomb_is_a_bomb() {
    let bomb = Mob::Bomb;
    let t = bomb.alignment();
    assert_eq!(t, Alignment::ChaoticEvil);
    let t = bomb.grade();
    assert_eq!(t, MobGrade::Boss);
    let t = bomb.actions();
    assert_eq!(t, vec![MobAction::Explode]);
    let bomb_string = bomb.actions().first().unwrap().to_string();
    assert_eq!(bomb_string, "💥 Explode 💥");
}

#[test]
fn generate_sword() {
    let item = ItemsWeHave::generate_slot(EquipmentSlot::Weapon);
    assert_eq!(item.slot, EquipmentSlot::Weapon);
}

#[test]
fn rarity_order() {
    assert!(Rarity::Common > Rarity::Uncommon);
    assert!(Rarity::Uncommon > Rarity::Rare);
    assert!(Rarity::Rare > Rarity::VeryRare);
    assert!(Rarity::VeryRare > Rarity::Epic);
    assert!(Rarity::Epic > Rarity::Legendary);
    assert!(Rarity::Legendary > Rarity::Artifact);
    assert!(Rarity::Artifact > Rarity::Wondrous);
    assert!(Rarity::Wondrous > Rarity::Unique);
}

#[test]
fn player_action_attributes() {
    let action = Skill::MagicMissile;
    let element = ElementalScaling::scaling(&action);
    let attribute = AttributeScaling::scaling(&action);
    assert_eq!(element, Some(DamageType::Arcane));
    assert_eq!(attribute, Some(Attribute::Intelligence(0)));
}

#[test]
fn generate_dragon_armor() {
    let dragon_armor = ItemsWeHave::DragonScaleArmor;
    let item = dragon_armor.generate();
    assert_eq!(item.name, "Dragon Scale Armor");
}

#[test]
fn generate_random_item() {
    let item = ItemsWeHave::generate_random();
    assert!(!item.name.is_empty());
}

#[test]
fn create_a_dwarf_helmet() {
    let item = ItemsWeHave::HelmOfTheDwarfBetrayer.generate();
    assert_eq!(item.name, "Helm of the Dwarf Betrayer");
}

#[test]
fn test_lower_crit() {
    let die = Die::D20;
    let mut dice = Dice::new(vec![DieObject::new(die)]);
    let old_crit = dice.dice[0].critical;
    dice.set_critical_target(-1);
    let new_crit = dice.dice[0].critical;
    assert_eq!(new_crit, old_crit - 1);
}

fn average_of_rolls(dice: &Dice) -> f64 {
    let ten_thousand_rolls = (0..10000).map(|_| dice.roll()).collect::<Vec<u32>>();
    ten_thousand_rolls.iter().sum::<u32>() as f64 / ten_thousand_rolls.len() as f64
}

#[test]
fn expected_value_d20() {
    let dice = Dice::new(vec![DieObject::new(Die::D20); 2]);
    let average = average_of_rolls(&dice);
    assert!(average > 17.0 && average < 23.0, "average: {}", average);
}

#[test]
fn expected_value_d4() {
    let dice = Dice::new(vec![DieObject::new(Die::D4); 2]);
    let average = average_of_rolls(&dice);
    assert!(average > 3.0 && average < 6.0, "average: {}", average);
}

#[test]
fn expected_value_d6() {
    let dice = Dice::new(vec![DieObject::new(Die::D6); 2]);
    let average = average_of_rolls(&dice);
    assert!(average > 6.0 && average < 8.0, "average: {}", average);
}

#[test]
fn expected_value_d8() {
    let dice = Dice::new(vec![DieObject::new(Die::D8); 2]);
    let average = average_of_rolls(&dice);
    assert!(average > 8.0 && average < 11.0, "average: {}", average);
}

#[test]
fn expected_value_d10() {
    let dice = Dice::new(vec![DieObject::new(Die::D10); 2]);
    let average = average_of_rolls(&dice);
    assert!(average > 10.0 && average < 14.0, "average: {}", average);
}

#[test]
fn expected_value_many_dice() {
    let dice = Dice::new(vec![DieObject::new(Die::D4); 10]);
    let average = average_of_rolls(&dice);
    assert!(average > 24.0 && average < 26.0, "average: {}", average);
}
