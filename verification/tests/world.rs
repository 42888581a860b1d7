use carrion_eris::enemies::{Mob, MobGrade};
use carrion_eris::world::{grade_at, mob_generation_algo, DrawnRank, Location};
use carrion_eris::enemies::Enemy;
use carrion_eris::classes::Classes;
use carrion_eris::player::Character;
use carrion_eris::session::{travel, GameState, State};
use carrion_eris::world::{directions_to_string, Arrival, Coordinates, Description, Locations, Tone, ValidDirections};

fn description(x: i32, y: i32, z: u8, text: &str) -> Description {
    Description { x, y, z, descriptor: text.to_string(), tile: "Grass".to_string() }
}

fn small_map() -> Locations {
    Locations::new(vec![
        description(1, 1, 1, "A quiet clearing"),
        description(2, 1, 1, "A dark forest"),
        description(1, 2, 1, "A cold river"),
        description(1, 1, 2, "A tall tree"),
    ])
}

fn texts(m: &[(String, Tone)]) -> Vec<(&str, Tone)> {
    m.iter().map(|(s, t)| (s.as_str(), *t)).collect()
}

#[test]
fn directions_parse_words_and_letters() {
    assert_eq!(ValidDirections::try_from("EAST"), Ok(ValidDirections::East));
    assert_eq!(ValidDirections::try_from("w"), Ok(ValidDirections::West));
    assert_eq!(ValidDirections::try_from("North"), Ok(ValidDirections::North));
    assert_eq!(ValidDirections::try_from("S"), Ok(ValidDirections::South));
    assert_eq!(ValidDirections::try_from("up"), Ok(ValidDirections::Up));
    assert_eq!(ValidDirections::try_from("d"), Ok(ValidDirections::Down));
    assert_eq!(ValidDirections::try_from("sideways"), Err("Invalid direction: sideways".to_string()));
    assert_eq!(ValidDirections::try_from(""), Err("Invalid direction: ".to_string()));
}

#[test]
fn directions_show_as_words() {
    assert_eq!(ValidDirections::Down.to_string(), "down");
    assert_eq!(directions_to_string(&vec![]), "[]");
    assert_eq!(directions_to_string(&vec![ValidDirections::North, ValidDirections::Up]), "[North, Up]");
}

#[test]
fn map_links_neighbours() {
    let map = small_map();
    assert_eq!(map.current, Coordinates { x: 1, y: 1, z: 1 });
    assert_eq!(map.current().descriptor, "A quiet clearing");
    assert_eq!(
        map.current().directions,
        vec![ValidDirections::North, ValidDirections::East, ValidDirections::Up]
    );
    let forest = map.locations.iter().find(|l| l.x == 2).unwrap();
    assert_eq!(forest.directions, vec![ValidDirections::West]);
    let tree = map.locations.iter().find(|l| l.z == 2).unwrap();
    assert_eq!(tree.directions, vec![ValidDirections::Down]);
}

#[test]
fn later_descriptions_replace_earlier_ones() {
    let map = Locations::new(vec![description(1, 1, 1, "Old"), description(1, 1, 1, "New")]);
    assert_eq!(map.locations.len(), 1);
    assert_eq!(map.current().descriptor, "New");
    assert!(map.current().directions.is_empty());
}

#[test]
fn travel_moves_and_reports() {
    let mut map = small_map();
    let (messages, arrival) = map.travel(&["e"], true);
    assert_eq!(arrival, Arrival::Open);
    assert_eq!(map.current, Coordinates { x: 2, y: 1, z: 1 });
    assert_eq!(
        texts(&messages),
        vec![
            ("A dark forest", Tone::Green),
            ("You can travel in the following directions: [West]", Tone::Magenta),
        ]
    );
}

#[test]
fn refused_travel_lists_the_ways_out() {
    let mut map = small_map();
    let refusal = vec![
        ("You can travel in the following directions: ", Tone::Red),
        ("[North, East, Up]", Tone::Red),
    ];
    let (messages, arrival) = map.travel(&["south"], true);
    assert_eq!(arrival, Arrival::Refused);
    assert_eq!(texts(&messages), refusal);
    let (messages, arrival) = map.travel(&[], true);
    assert_eq!(arrival, Arrival::Refused);
    assert_eq!(texts(&messages), refusal);
    let (messages, arrival) = map.travel(&["nowhere"], true);
    assert_eq!(arrival, Arrival::Refused);
    assert_eq!(texts(&messages), refusal);
    assert_eq!(map.current, Coordinates { x: 1, y: 1, z: 1 });
}

#[test]
fn an_enemy_in_sight_and_an_ambush() {
    let mut map = small_map();
    map.travel(&["east"], true);
    map.place_enemy(Enemy::default());
    let kind = Enemy::default().kind.to_string();
    assert!(map.enemy().is_some());
    map.travel(&["west"], true);
    let (messages, arrival) = map.travel(&["east"], true);
    assert_eq!(arrival, Arrival::EnemyInSight);
    assert_eq!(messages[2].0, format!("You see a {kind} in the distance"));
    let (messages, arrival) = map.flee(true);
    assert_eq!(arrival, Arrival::Open);
    assert_eq!(messages[0].0, "A quiet clearing");
    let (messages, arrival) = map.travel(&["e"], true);
    assert_eq!(arrival, Arrival::Ambushed);
    assert_eq!(
        texts(&messages[2..]),
        vec![
            ("You have been here before...and the locals remember you", Tone::Red),
            (format!("Enemy {kind} prepares their attack").as_str(), Tone::Red),
        ]
    );
    map.enemy_killed();
    assert!(map.enemy().is_none());
    map.go_to_origin();
    assert_eq!(map.current, Coordinates { x: 1, y: 1, z: 1 });
}

#[test]
fn an_ambush_turns_the_game_to_the_fight() {
    let mut state = GameState::new(small_map());
    state.character = Some(Character::new("Ana".to_string(), 1, Classes::Warrior));
    travel(&mut state, &["east"]);
    state.location.place_enemy(Enemy::default());
    let (_, arrival) = travel(&mut state, &["west"]);
    assert_eq!(arrival, Arrival::Open);
    assert!(matches!(state.state, State::Null));
    let (_, arrival) = travel(&mut state, &["east"]);
    assert_eq!(arrival, Arrival::EnemyInSight);
    assert!(matches!(state.state, State::Null));
    state.location.flee(true);
    let (_, arrival) = travel(&mut state, &["e"]);
    assert_eq!(arrival, Arrival::Ambushed);
    assert!(matches!(state.state, State::Fighting));
}

#[test]
fn enemies_appear_by_distance() {
    let near = Location { x: 3, y: 4, z: 0, directions: vec![], enemy: None, tagged: false, descriptor: String::new() };
    let far = Location { x: 30, y: 0, z: 0, ..near.clone() };
    let held = Location { enemy: Some(Enemy { kind: Mob::Troll, ..Enemy::default() }), ..near.clone() };
    let mut seen = 0;
    for _ in 0..500 {
        assert!(matches!(grade_at(&near), DrawnRank::Weak | DrawnRank::Normal | DrawnRank::Strong));
        assert_eq!(mob_generation_algo(&held), Some(Mob::Troll));
        if let Some(m) = mob_generation_algo(&near) {
            seen += 1;
            assert_ne!(m.grade(), MobGrade::Boss);
        }
        assert_ne!(grade_at(&far), DrawnRank::Legendary);
    }
    assert!(seen > 300);
}

#[test]
fn champions_appear_past_distance_five_and_are_bosses() {
    let mid = Location { x: 6, y: 8, z: 0, directions: vec![], enemy: None, tagged: false, descriptor: String::new() };
    let mut champions = 0;
    for _ in 0..400 {
        let rank = grade_at(&mid);
        assert!(!matches!(rank, DrawnRank::Elite | DrawnRank::Legendary));
        if rank == DrawnRank::Champion {
            champions += 1;
            assert_eq!(rank.grade(), MobGrade::Boss);
        }
    }
    assert!(champions > 20);
    assert_eq!(DrawnRank::Strong.grade(), MobGrade::Strong);
}
