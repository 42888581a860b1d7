use carrion_eris::dice::{AdvantageState, Die};
use carrion_eris::traits::{CharacterTraits, TraitMutation, TraitMutations};
use carrion_eris::units::Alignment;

#[test]
fn traits_fill_each_kind_of_roll_in_order() {
    let m = CharacterTraits::apply_traits(&vec![
        CharacterTraits::Nimble,
        CharacterTraits::Addict,
        CharacterTraits::Keen,
        CharacterTraits::Energetic,
    ]);
    assert_eq!(
        m.get_dodge(),
        &vec![
            TraitMutation::Advantage,
            TraitMutation::MultiplicativeBonus(1200),
            TraitMutation::FlatDecrease(Die::D20, 1),
        ]
    );
    assert_eq!(
        m.get_physical_attack(),
        &vec![TraitMutation::CriticalMultiplier(1350), TraitMutation::CriticalAdvantage]
    );
    assert_eq!(m.get_magical_attack(), m.get_physical_attack());
    assert!(m.get_armor().is_empty());
    assert!(m.get_suppress().is_empty());
    assert_eq!(m.action_points(), 1);
}

#[test]
fn dodging_refuses_other_dice_and_critical_changes() {
    let mut m = TraitMutations::new();
    m.set_dodge(TraitMutation::FlatIncrease(Die::D4, 3));
    m.set_dodge(TraitMutation::CriticalAdvantage);
    m.set_dodge(TraitMutation::AlignmentBonus(Alignment::LawfulEvil, Die::D20, 1));
    assert!(m.get_dodge().is_empty());
    m.set_dodge(TraitMutation::FlatIncrease(Die::D20, 2));
    m.set_dodge(TraitMutation::Disadvantage);
    assert_eq!(m.get_dodge(), &vec![TraitMutation::FlatIncrease(Die::D20, 2), TraitMutation::Disadvantage]);
    m.set_armor(TraitMutation::FlatIncrease(Die::D4, 3));
    assert_eq!(m.get_armor(), &vec![TraitMutation::FlatIncrease(Die::D4, 3)]);
}

#[test]
fn the_last_change_of_advantage_counts() {
    let lucky_then_unlucky = CharacterTraits::apply_traits(&vec![CharacterTraits::Lucky, CharacterTraits::Unlucky]);
    assert_eq!(TraitMutations::advantage(lucky_then_unlucky.get_dodge()), -1);
    assert_eq!(TraitMutations::advantage(lucky_then_unlucky.get_armor()), 1);
    let unlucky_then_lucky = CharacterTraits::apply_traits(&vec![CharacterTraits::Unlucky, CharacterTraits::Lucky]);
    assert_eq!(TraitMutations::advantage(unlucky_then_lucky.get_suppress()), 1);
    assert_eq!(TraitMutations::advantage(&vec![]), 0);
}

#[test]
fn keen_gives_critical_advantage() {
    let keen = CharacterTraits::apply_traits(&vec![CharacterTraits::Keen]);
    assert_eq!(TraitMutations::critical_advantage(keen.get_magical_attack()), AdvantageState::Advantage);
    let strong = CharacterTraits::apply_traits(&vec![CharacterTraits::Strong]);
    assert_eq!(TraitMutations::critical_advantage(strong.get_physical_attack()), AdvantageState::Normal);
    assert_eq!(
        strong.get_physical_attack(),
        &vec![TraitMutation::FlatIncrease(Die::D4, 3), TraitMutation::MultiplicativeBonus(1150)]
    );
}
