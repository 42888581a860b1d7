use carrion_eris::constructed::ItemsWeHave;
use carrion_eris::dice::Die;
use carrion_eris::items::{Equipment, EquipmentSlot, Items, NameMe};
use carrion_eris::text::{signed_text, unsigned_text};
use carrion_eris::units::DamageType;

fn bag(items: Vec<ItemsWeHave>, gold: u64) -> Items {
    Items::new(items, gold)
}

#[test]
fn wondrous_item_equip() {
    let wonder = ItemsWeHave::generate_random_item_slot(EquipmentSlot::WondrousItem);
    let mut equipment = Equipment::default();
    equipment.equip(wonder);
    assert_eq!(equipment.wondrous_item[0].item(), Some(&wonder));
}

#[test]
fn decimal_text() {
    assert_eq!(unsigned_text(0), "0");
    assert_eq!(unsigned_text(7), "7");
    assert_eq!(unsigned_text(10), "10");
    assert_eq!(unsigned_text(1234567890), "1234567890");
    assert_eq!(unsigned_text(u64::MAX), u64::MAX.to_string());
    assert_eq!(signed_text(-42), "-42");
    assert_eq!(signed_text(i64::MIN), i64::MIN.to_string());
    assert_eq!(signed_text(5), "5");
}

#[test]
fn push_then_take_by_name() {
    let mut items = bag(vec![ItemsWeHave::DragonScaleArmor], 0);
    items.push(ItemsWeHave::RingOfBattleProwess);
    assert_eq!(items.iter(), &[ItemsWeHave::DragonScaleArmor, ItemsWeHave::RingOfBattleProwess]);
    assert_eq!(items.contains("Ring of Battle Prowess".to_string()), Some(ItemsWeHave::RingOfBattleProwess));
    assert_eq!(items.take("Ring of Battle Prowess".to_string()), Some(ItemsWeHave::RingOfBattleProwess));
    assert_eq!(items.iter(), &[ItemsWeHave::DragonScaleArmor]);
    assert_eq!(items.take("Ring of Battle Prowess".to_string()), None);
    assert_eq!(items.contains("Nothing".to_string()), None);
    assert_eq!(items.iter(), &[ItemsWeHave::DragonScaleArmor]);
}

#[test]
fn take_removes_the_first_of_equal_names() {
    let mut items = bag(vec![ItemsWeHave::StoneOfStrength, ItemsWeHave::MemeweaveGloves, ItemsWeHave::StoneOfStrength], 3);
    assert_eq!(items.take("Stone of Strength".to_string()), Some(ItemsWeHave::StoneOfStrength));
    assert_eq!(items.iter(), &[ItemsWeHave::MemeweaveGloves, ItemsWeHave::StoneOfStrength]);
    assert_eq!(items.gold, 3);
}

#[test]
fn slot_keeps_order_and_gold() {
    let items = bag(
        vec![
            ItemsWeHave::RingOfBattleProwess,
            ItemsWeHave::DragonScaleArmor,
            ItemsWeHave::RingOfArcaneMastery,
        ],
        9,
    );
    let rings = items.slot(EquipmentSlot::Ring);
    assert_eq!(rings.iter(), &[ItemsWeHave::RingOfBattleProwess, ItemsWeHave::RingOfArcaneMastery]);
    assert_eq!(rings.gold, 9);
    assert!(items.slot(EquipmentSlot::Helmet).iter().is_empty());
}

#[test]
fn selling_a_slot_turns_its_items_into_gold() {
    let mut items = bag(
        vec![
            ItemsWeHave::RingOfBattleProwess,
            ItemsWeHave::DragonScaleArmor,
            ItemsWeHave::RingOfArcaneMastery,
        ],
        10,
    );
    let worth_before = 10 + 200 + 250 + 200;
    items.sell(Some(EquipmentSlot::Ring));
    assert_eq!(items.iter(), &[ItemsWeHave::DragonScaleArmor]);
    assert_eq!(items.gold, 410);
    assert_eq!(items.gold + 250, worth_before);
    items.sell(None);
    assert!(items.iter().is_empty());
    assert_eq!(items.gold, 660);
}

#[test]
fn selling_with_knowledge_drops_known_items() {
    let mut items = bag(
        vec![
            ItemsWeHave::RingOfBattleProwess,
            ItemsWeHave::DragonScaleArmor,
            ItemsWeHave::RingOfArcaneMastery,
        ],
        0,
    );
    let known = bag(vec![ItemsWeHave::RingOfBattleProwess, ItemsWeHave::DragonScaleArmor], 0);
    items.sell_with_knowledge(Some(EquipmentSlot::Ring), Some(&known));
    assert_eq!(items.iter(), &[ItemsWeHave::RingOfArcaneMastery]);
    assert_eq!(items.gold, 0);
    items.sell_with_knowledge(None, Some(&known));
    assert_eq!(items.iter(), &[ItemsWeHave::RingOfArcaneMastery]);
    assert_eq!(items.gold, 0);
    items.sell_with_knowledge(None, None);
    assert!(items.iter().is_empty());
    assert_eq!(items.gold, 200);
}

#[test]
fn remove_and_absorb() {
    let mut items = bag(vec![ItemsWeHave::StoneOfStrength, ItemsWeHave::MemeweaveGloves], 1);
    assert!(items.remove(&ItemsWeHave::MemeweaveGloves));
    assert!(!items.remove(&ItemsWeHave::MemeweaveGloves));
    assert_eq!(items.iter(), &[ItemsWeHave::StoneOfStrength]);
    items.absorb(bag(vec![ItemsWeHave::InfernoStaff], 5));
    assert_eq!(items.iter(), &[ItemsWeHave::StoneOfStrength, ItemsWeHave::InfernoStaff]);
    assert_eq!(items.gold, 6);
}

#[test]
fn inventory_text() {
    let items = bag(vec![ItemsWeHave::RingOfBattleProwess, ItemsWeHave::DragonScaleArmor, ItemsWeHave::RingOfArcaneMastery], 42);
    let expected = "\n```\n\n👕 Armor 👕\n\t\t⮁\tDragon Scale Armor\n💍 Ring 💍\n\t\t⮁\tRing of Battle Prowess\n\t\t⮁\tRing of Arcane Mastery\n💰\tGold: 42\n```\n";
    assert_eq!(items.to_string(), expected);
    assert_eq!(bag(vec![], 0).to_string(), "\n```\n\n💰\tGold: 0\n```\n");
}

#[test]
fn equipment_rotates_chosen_rings() {
    let mut e = Equipment::default();
    assert_eq!(e.equip(ItemsWeHave::RingOfBattleProwess), None);
    assert_eq!(e.equip(ItemsWeHave::RingOfArcaneMastery), None);
    assert_eq!(e.ring[0].item(), Some(&ItemsWeHave::RingOfBattleProwess));
    assert_eq!(e.ring[1].item(), Some(&ItemsWeHave::RingOfArcaneMastery));
    // Both rings were chosen: the first is replaced and moves to the back.
    assert_eq!(e.equip(ItemsWeHave::RingOfResilientFortitude), Some(ItemsWeHave::RingOfBattleProwess));
    assert_eq!(e.ring[0].item(), Some(&ItemsWeHave::RingOfArcaneMastery));
    assert_eq!(e.ring[1].item(), Some(&ItemsWeHave::RingOfResilientFortitude));
    assert_eq!(e.equip(ItemsWeHave::DragonScaleArmor), None);
    assert_eq!(e.equip(ItemsWeHave::DragonScaleArmor), Some(ItemsWeHave::DragonScaleArmor));
}

#[test]
fn automatic_equipping() {
    let mut e = Equipment::default();
    assert_eq!(e.auto_equip(ItemsWeHave::MemeweaveGloves), None);
    // A rarer item (smaller rarity number) does not replace a commoner one automatically.
    assert_eq!(e.auto_equip(ItemsWeHave::VenomweaveGloves), Some(ItemsWeHave::VenomweaveGloves));
    assert_eq!(e.hands.item(), Some(&ItemsWeHave::MemeweaveGloves));
    // What the player chose stays.
    e.equip(ItemsWeHave::VenomweaveGloves);
    assert_eq!(e.auto_equip(ItemsWeHave::MemeweaveGloves), Some(ItemsWeHave::MemeweaveGloves));
    assert_eq!(e.hands.item(), Some(&ItemsWeHave::VenomweaveGloves));
    // Rings fill empty slots first.
    assert_eq!(e.auto_equip(ItemsWeHave::RingOfBattleProwess), None);
    assert_eq!(e.auto_equip(ItemsWeHave::RingOfArcaneMastery), None);
    assert_eq!(e.ring[0].item(), Some(&ItemsWeHave::RingOfBattleProwess));
    assert_eq!(e.ring[1].item(), Some(&ItemsWeHave::RingOfArcaneMastery));
}

#[test]
fn equipment_totals() {
    let mut e = Equipment::default();
    assert_eq!(e.action_points(), 0);
    e.equip(ItemsWeHave::RingOfBattleProwess);
    e.equip(ItemsWeHave::UnyieldingOnyxAssaultRing);
    e.equip(ItemsWeHave::VeilOfEternalDreams);
    assert_eq!(e.action_points(), 4);
    e.equip(ItemsWeHave::HelmOfTheDwarfBetrayer);
    let a = e.attribute();
    assert_eq!(a.strength.inner(), 10);
    assert_eq!(a.constitution.inner(), 10);
    assert_eq!(a.intelligence.inner(), 10);
    assert_eq!(a.wisdom.inner(), 10);
    assert_eq!(a.charisma.inner(), 10);
    assert_eq!(a.dexterity.inner(), 0);
    e.equip(ItemsWeHave::DragonScaleArmor);
    let armor = e.armor();
    assert_eq!(armor.dice.len(), 2 + 4 + 2);
    assert_eq!(armor.dice[0].die, Die::D4);
    assert_eq!(armor.dice[2].die, Die::D12);
    assert_eq!(armor.dice[7].die, Die::D6);
    let damage = e.damage();
    assert_eq!(damage.len(), DamageType::all().len());
    let physical = damage.iter().find(|(k, _)| *k == DamageType::Physical).unwrap();
    // The armor's damage dice do not count; the rings' do.
    assert_eq!(physical.1.dice.len(), 1 + 4);
    let resistance = e.resistance();
    let fire = resistance.iter().find(|(k, _)| *k == DamageType::Fire).unwrap();
    assert_eq!(fire.1.dice.len(), 2 + 3);
    let iron = resistance.iter().find(|(k, _)| *k == DamageType::Iron).unwrap();
    assert_eq!(iron.1.dice.len(), 4);
    assert!(Equipment::dodge().is_none());
}

#[test]
fn equipment_text() {
    let mut e = Equipment::default();
    assert_eq!(e.to_string(), "");
    e.equip(ItemsWeHave::DragonScaleArmor);
    e.equip(ItemsWeHave::RingOfBattleProwess);
    e.equip(ItemsWeHave::PrismariPrimer);
    assert_eq!(
        e.to_string(),
        "\n\t🎲\tArmor: Dragon Scale Armor\n\t🎲\tRings: \n\t\t\t💍\t Ring of Battle Prowess\n\t🎲\tWondrous Items: \n\t\t\t\tPrismari Primer"
    );
}

#[test]
fn slot_parts() {
    let mut slot = NameMe::new(EquipmentSlot::Armor);
    assert!(slot.armor().dice.is_empty());
    assert_eq!(slot.damage().len(), DamageType::all().len());
    slot.equip(ItemsWeHave::DragonScaleArmor);
    assert_eq!(slot.armor().dice.len(), 2);
    assert_eq!(slot.resistance().len(), 1);
    assert_eq!(slot.damage().len(), 2);
    assert_eq!(slot.attribute().strength.inner(), 0);
}
