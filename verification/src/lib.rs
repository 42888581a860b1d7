use vstd::prelude::*;

pub mod scaling;
pub mod fsm;
pub mod command;
pub mod ui;
pub mod units;
pub mod random;
pub mod skills;
pub mod actions;
pub mod naming;
pub mod session;
pub mod dice;
pub mod classes;
pub mod enemies;
pub mod damage;
pub mod items;
pub mod item_templates;
pub mod constructed;
pub mod traits;
pub mod battle;
pub mod text;
pub mod player;
pub mod game;
pub mod buffer;
pub mod world;
pub mod generated;

pub use scaling::sub_linear_scaling;
pub use skills::{AttributeScaling, ElementalScaling};
pub use enemies::EnemyEvents;

verus! {

/// Errors of the game's own logic.
#[derive(Debug)]
pub enum CarrionError {
    ParseError(String),
}

/// The mobs waiting to fight a character, first in line first.
#[derive(Debug, Default)]
pub struct MobQueue {
    pub mobs: Vec<enemies::Mob>,
}

/// What happened in one round of a battle.
#[derive(Debug, Clone)]
pub struct BattleInfo {
    pub action: skills::Skill,
    pub enemy_action: String,
    pub damage_dealt: i32,
    pub damage_taken: i32,
    pub player_healing: i32,
    pub enemy_healing: i32,
    pub player_name: String,
    pub monster_name: String,
    pub player_killed: bool,
    pub enemy_killed: bool,
    pub critical: bool,
    pub leveled_up: bool,
    pub monster_hp: i32,
    pub traits_available: u32,
    pub next_level: u32,
    pub experience_gained: u32,
    pub skill_experience_gained: u32,
    pub gold_gained: u64,
    pub item_gained: Vec<constructed::ItemsWeHave>,
    pub number_of_player_attacks: i32,
    pub number_of_enemy_attacks: i32,
    pub enemy_level: u32,
}

} // verus!
