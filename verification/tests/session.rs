use carrion_eris::classes::Classes;
use carrion_eris::enemies::{Enemy, EnemyState};
use carrion_eris::naming::skills_to_string;
use carrion_eris::session::{
    after_counter, after_strike, auto_refused, camp, change_skill, choose_skill, create, fight, help, select_trait,
    split_words, BattleCommandKind, CommandKind, FightTurn, GameState, InputStates, State, Step,
};
use carrion_eris::skills::Skill;
use carrion_eris::traits::CharacterTraits;
use carrion_eris::world::{Arrival, Coordinates, Description, Locations, Tone};

fn map() -> Locations {
    let place = |x: i32, text: &str| Description { x, y: 1, z: 1, descriptor: text.to_string(), tile: "Grass".to_string() };
    Locations::new(vec![place(1, "Camp"), place(2, "Road")])
}

fn run(state: &mut GameState, line: &str) -> Step {
    state.command(line.to_string())
}

fn texts(m: &[(String, Tone)]) -> Vec<&str> {
    m.iter().map(|(s, _)| s.as_str()).collect()
}

fn with_hero() -> GameState {
    let mut state = GameState::new(map());
    run(&mut state, "create warrior bob");
    state
}

#[test]
fn character_swap() {
    let mut state = GameState::new(map());
    assert!(state.class.is_none());
    run(&mut state, "create warrior");
    assert!(state.class.is_some());
    assert!(matches!(state.state, State::Input(InputStates::Name)));

    assert!(state.name.is_none());
    run(&mut state, "name a b c d");
    assert!(state.name.is_some());
    assert!(matches!(state.state, State::Null));

    run(&mut state, "create wizard");
    assert!(state.class.is_some());
    match &state.state {
        State::Input(InputStates::Confirm(saved)) => {
            assert_eq!(saved.class, Some(Classes::Warrior));
            assert_eq!(saved.name.as_deref(), Some("name a b c d"));
            assert_eq!(saved.character.as_ref().unwrap().class, Classes::Warrior);
        }
        other => panic!("{:?}", other),
    }

    run(&mut state, "yes");
    assert!(state.class.unwrap() == Classes::Wizard);
    assert!(matches!(state.state, State::Null), "{:?}", state.state);
    assert_eq!(state.character.as_ref().unwrap().class, Classes::Wizard);
}

#[test]
fn a_change_can_be_aborted() {
    let mut state = with_hero();
    assert_eq!(state.character.as_ref().unwrap().name, "bob");
    match run(&mut state, "create wizard") {
        Step::Done(m) => assert_eq!(
            texts(&m),
            vec!["This action will delete your current character please confirm ( yes / no )"]
        ),
        other => panic!("{:?}", other),
    }
    match run(&mut state, "NO") {
        Step::Done(m) => assert_eq!(texts(&m), vec!["Change aborted"]),
        other => panic!("{:?}", other),
    }
    assert_eq!(state.class, Some(Classes::Warrior));
    assert_eq!(state.character.as_ref().unwrap().class, Classes::Warrior);
    assert!(matches!(state.state, State::Null));
}

#[test]
fn creating_with_a_name_greets_the_hero() {
    let mut state = GameState::new(map());
    let m = create(&mut state, &["warrior", "bob"]);
    assert_eq!(texts(&m), vec!["You are a level 1 ⚔️ Warrior ⚔️", "Welcome to Carrion-Eris bob"]);
    let hero = state.character.as_ref().unwrap();
    assert_eq!(hero.level, 1);
    assert_eq!(hero.hp, 20);
}

#[test]
fn unknown_classes_are_listed() {
    let mut state = GameState::new(map());
    let m = create(&mut state, &["bard"]);
    assert_eq!(
        texts(&m),
        vec![
            "Invalid class [\"bard\"] choose one of the following",
            "⚔️ Warrior ⚔️",
            "🧙\u{200d}♂️ Wizard 🧙\u{200d}♂️",
            "🧙\u{200d}♀️ Sorcerer 🧙\u{200d}♀️",
            "🛡️ Paladin 🛡️",
        ]
    );
    assert!(state.class.is_none());
    let m = create(&mut state, &[]);
    assert_eq!(m[0].0, "Invalid class [] choose one of the following");
}

#[test]
fn names_parse_in_snake_case() {
    assert_eq!(Skill::try_from("MagicMissile".to_string()), Ok(Skill::MagicMissile));
    assert_eq!(Skill::try_from("magic_missile".to_string()), Ok(Skill::MagicMissile));
    assert_eq!(Skill::try_from("Nothing".to_string()), Err("Unable to parse Skill from Nothing".to_string()));
    assert_eq!(Classes::try_from("Paladin".to_string()), Ok(Classes::Paladin));
    assert_eq!(Classes::try_from("bard".to_string()), Err("Unable to parse Classes from bard".to_string()));
    assert_eq!(skills_to_string(&vec![Skill::Slash, Skill::MightyBlow]), "[Slash, MightyBlow]");
}

#[test]
fn lines_split_into_words() {
    assert_eq!(split_words("  go\tnorth  now "), vec!["go", "north", "now"]);
    assert!(split_words(" \r\n").is_empty());
    assert_eq!(split_words("x"), vec!["x"]);
}

#[test]
fn commands_are_looked_up() {
    let mut state = with_hero();
    match run(&mut state, "travel east") {
        Step::Run(CommandKind::Travel, args) => assert_eq!(args, vec!["east"]),
        other => panic!("{:?}", other),
    }
    match run(&mut state, "dance") {
        Step::Done(m) => {
            assert_eq!(m[0].0, "Command not recognized dance");
            assert_eq!(m.len(), 1 + help().len());
            assert_eq!(m[1].0, "Select a trait - usage ( trait [ name ] ) ");
        }
        other => panic!("{:?}", other),
    }
    match run(&mut state, "   ") {
        Step::Done(m) => assert!(m.is_empty()),
        other => panic!("{:?}", other),
    }
    state.state = State::Fighting;
    match run(&mut state, "cast fire_ball") {
        Step::Battle(BattleCommandKind::Cast, args) => assert_eq!(args, vec!["fire_ball"]),
        other => panic!("{:?}", other),
    }
    match run(&mut state, "help") {
        Step::Done(m) => assert_eq!(m.len(), 5),
        other => panic!("{:?}", other),
    }
}

#[test]
fn camping() {
    let mut state = with_hero();
    state.character.as_mut().unwrap().hp = 3;
    let (m, _) = camp(&mut state, 120);
    assert_eq!(texts(&m), vec!["You setup camp for the night"]);
    assert!(matches!(state.state, State::Camping(0)));
    for _ in 0..10000 {
        if let State::Camping(_) = state.state {
            camp(&mut state, 120);
        }
    }
    assert!(matches!(state.state, State::Null), "{:?}", state.state);
    assert_eq!(state.character.as_ref().unwrap().hp, 20);
}

#[test]
fn camping_counts_the_ticks() {
    let mut state = with_hero();
    camp(&mut state, 2);
    assert_eq!(camp(&mut state, 2).1, Some(0));
    assert_eq!(camp(&mut state, 2).1, Some(1));
    let (m, tick) = camp(&mut state, 2);
    assert_eq!(texts(&m), vec!["You break camp refreshed"]);
    assert_eq!(tick, None);
}

#[test]
fn traits_are_taken_once() {
    let mut state = with_hero();
    assert_eq!(texts(&select_trait(&mut state, &["robust"])), vec!["No trait points avaliable"]);
    state.character.as_mut().unwrap().available_traits = 2;
    assert_eq!(select_trait(&mut state, &[]).len(), 15);
    assert_eq!(texts(&select_trait(&mut state, &["ROBUST"])), vec!["Robust Trait added"]);
    assert_eq!(state.character.as_ref().unwrap().traits, vec![CharacterTraits::Robust]);
    assert_eq!(texts(&select_trait(&mut state, &["robust"])), vec!["Robust Trait already chosen"]);
    assert_eq!(texts(&select_trait(&mut state, &["wise"])), vec!["Unable to parse character trait"]);
    assert_eq!(state.character.as_ref().unwrap().available_traits, 1);
}

#[test]
fn skills_change_when_usable() {
    let mut state = with_hero();
    let hero = state.character.as_ref().unwrap();
    let usable = hero.skill_list();
    assert!(usable.iter().all(|s| *s != Skill::MagicMissile));
    let refused = choose_skill(hero, &["MagicMissile"]).unwrap_err();
    assert_eq!(refused[0].0, "Invalid skill [\"MagicMissile\"] choose one of the following");
    assert_eq!(refused[1].0, skills_to_string(&usable));
    let shown = change_skill(&mut state, &[]);
    assert_eq!(texts(&shown), vec!["Skill: 🗡️ Slash 🗡️", "Level: 1", "Experience: 0"]);
    state.character.as_mut().unwrap().attributes.intelligence = carrion_eris::units::Attribute::Intelligence(18);
    let m = change_skill(&mut state, &["fire_ball"]);
    assert_eq!(texts(&m), vec!["Equipped 🔥 Fire Ball 🔥"]);
    assert_eq!(state.character.as_ref().unwrap().current_skill.skill, Skill::FireBall);
}

fn fighting_state() -> GameState {
    let mut state = with_hero();
    let mut enemy = Enemy::default();
    enemy.health = 30;
    state.location.place_enemy(enemy);
    let (m, turn) = fight(&mut state, &[], 5);
    assert_eq!(turn, FightTurn::Over);
    assert!(m[0].0.starts_with("You are fighting a "));
    assert!(matches!(state.state, State::Fighting));
    state
}

#[test]
fn a_fight_runs_its_rounds() {
    let mut state = fighting_state();
    let (m, turn) = fight(&mut state, &[], 5);
    assert!(m.is_empty());
    assert_eq!(turn, FightTurn::Strike);
    state.location.get_mut_enemy().health -= 12;
    let (m, turn) = after_strike(&mut state, 12, m);
    assert_eq!(turn, FightTurn::Counter);
    state.character.as_mut().unwrap().hp -= 4;
    let m = after_counter(&mut state, 12, 4, m);
    let kind = Enemy::default().kind.to_string();
    assert_eq!(
        texts(&m),
        vec![
            "You did 12 damage with 🗡️ Slash 🗡️".to_string(),
            "Enemy did 4 damage".to_string(),
            format!("Enemy {kind} has 18 health remaining"),
            "You have 16 health remaining".to_string(),
        ]
    );
    assert!(matches!(state.state, State::Fighting));

    let enemy = state.location.get_mut_enemy();
    enemy.health = 0;
    enemy.state = EnemyState::Dead;
    let (m, turn) = after_strike(&mut state, 18, Vec::new());
    assert_eq!(turn, FightTurn::Over);
    assert_eq!(m[0].0, format!("You have killed the {kind}"));
    assert_eq!(m[1].0, "You have gained 0 experience");
    assert_eq!(m[2].0, "You did 18 damage with 🗡️ Slash 🗡️");
    assert_eq!(m[3].0, "Level: 1");
    assert!(state.location.enemy().is_none());
    assert!(matches!(state.state, State::Null));
}

#[test]
fn a_weak_character_flees() {
    let mut state = fighting_state();
    state.character.as_mut().unwrap().hp = 5;
    let (m, turn) = fight(&mut state, &[], 5);
    assert_eq!(turn, FightTurn::Fled(Arrival::Open));
    assert_eq!(m[0].0, "You attempt to flee");
    assert_eq!(m[1].0, "Road");
    assert_eq!(state.location.current, Coordinates { x: 2, y: 1, z: 1 });
    assert!(matches!(state.state, State::Null));
}

#[test]
fn a_dead_character_is_gone() {
    let mut state = fighting_state();
    state.character.as_mut().unwrap().hp = 0;
    let m = after_counter(&mut state, 3, 25, Vec::new());
    assert_eq!(
        texts(&m),
        vec![
            "You did 3 damage with 🗡️ Slash 🗡️",
            "Enemy did 25 damage",
            "You have been killed... better luck next time",
            "",
            "Create a new character to continue your adventures",
        ]
    );
    assert!(state.character.is_none());
    assert!(matches!(state.state, State::Null));
}

#[test]
fn fights_need_a_reason() {
    let mut state = with_hero();
    let (m, turn) = fight(&mut state, &[], 5);
    assert_eq!(texts(&m), vec!["There is nothing to fight here"]);
    assert_eq!(turn, FightTurn::Over);
    state.state = State::Camping(3);
    let (m, _) = fight(&mut state, &[], 5);
    assert_eq!(texts(&m), vec!["You cannot fight right now"]);
    state.state = State::Null;
    assert_eq!(texts(&auto_refused(&state, &["x"], true).unwrap()), vec!["Auto Battle can not be used with a skill change"]);
    assert_eq!(texts(&auto_refused(&state, &[], true).unwrap()), vec!["There is nothing to fight here"]);
    assert!(auto_refused(&state, &[], false).is_none());
}
