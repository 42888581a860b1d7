use vstd::prelude::*;
use crate::BattleInfo;
use crate::constructed::ItemsWeHave;
use crate::enemies::{Enemy, Mob, MobGrade};
use crate::items::{
    auto_equipped, equipment_wf, equipped, not_of_slot, of_slot, unknown_part, value_of,
    EquipmentSlot, Items,
};
use crate::player::{character_wf, Character};
use crate::scaling::{is_floor_sqrt, sub_linear_scaling};
use crate::skills::{leveled, need_of};
use crate::skills::{Skill, SkillSet};
use crate::traits::{raised_by, CharacterTraits};
use crate::units::attribute_value;

verus! {

/// What a grade multiplies the level by before the square root that gives an enemy's gold.
pub open spec fn gold_factor(g: MobGrade) -> u32 {
    match g {
        MobGrade::Weak => 1,
        MobGrade::Normal => 2,
        MobGrade::Strong => 5,
        MobGrade::Boss => 100,
    }
}

impl Mob {
    /// The gold an enemy of this kind carries at `level`: the square root, rounded down, of
    /// the level times its grade's factor.
    pub fn gold_at(&self, level: u32) -> (r: u64)
        requires
            level * gold_factor(self.grade_of()) <= u32::MAX,
        ensures
            is_floor_sqrt((level * gold_factor(self.grade_of())) as nat, r as nat),
    {
        let factor: u32 = match self.grade() {
            MobGrade::Weak => 1,
            MobGrade::Normal => 2,
            MobGrade::Strong => 5,
            MobGrade::Boss => 100,
        };
        sub_linear_scaling(level * factor) as u64
    }
}

/// How many enemies a purse buys, at most `wanted`, each for `cost`: as long as the gold left
/// covers one more.
pub open spec fn affordable(gold: u64, cost: u64, wanted: u32) -> nat {
    if cost == 0 {
        wanted as nat
    } else if (gold / cost) < wanted {
        (gold / cost) as nat
    } else {
        wanted as nat
    }
}

/// Buys up to `wanted` enemies at `cost` each from `gold`; returns how many were bought and
/// what they cost together.
pub fn buy_enemies(gold: u64, cost: u64, wanted: u32) -> (r: (u32, u64))
    ensures
        r.0 == affordable(gold, cost, wanted),
        r.1 == r.0 * cost,
        r.1 <= gold,
{
    if cost == 0 {
        return (wanted, 0);
    }
    let most = gold / cost;
    let bought: u32 = if most < wanted as u64 {
        most as u32
    } else {
        wanted
    };
    proof {
        vstd::arithmetic::div_mod::lemma_fundamental_div_mod(gold as int, cost as int);
        vstd::arithmetic::mul::lemma_mul_inequality(bought as int, most as int, cost as int);
        vstd::arithmetic::mul::lemma_mul_is_commutative(most as int, cost as int);
    }
    (bought, bought as u64 * cost)
}

/// What battling an enemy costs: three times its gold, divided by its grade's number.
pub open spec fn battle_cost_of(e: Enemy) -> int {
    (e.gold * 3) / (e.kind.grade_of().number() as int)
}

/// How many of `enemies`, in order, a purse of `gold` pays for: each is paid for while the
/// gold left covers its battle cost, and buying stops at the first it does not.
pub open spec fn battles_bought(gold: int, enemies: Seq<Enemy>) -> nat
    decreases enemies.len(),
{
    if enemies.len() == 0 || gold < battle_cost_of(enemies[0]) {
        0
    } else {
        1 + battles_bought(gold - battle_cost_of(enemies[0]), enemies.drop_first())
    }
}

/// What the enemies `battles_bought` counts cost together.
pub open spec fn battles_cost(gold: int, enemies: Seq<Enemy>) -> int
    decreases enemies.len(),
{
    if enemies.len() == 0 || gold < battle_cost_of(enemies[0]) {
        0
    } else {
        battle_cost_of(enemies[0]) + battles_cost(gold - battle_cost_of(enemies[0]), enemies.drop_first())
    }
}

proof fn lemma_battles_step(gold: int, enemies: Seq<Enemy>, i: int, spent: int)
    requires
        0 <= i < enemies.len(),
        battles_bought(gold, enemies) == i + battles_bought(gold - spent, enemies.skip(i)),
        battles_cost(gold, enemies) == spent + battles_cost(gold - spent, enemies.skip(i)),
        gold - spent >= battle_cost_of(enemies[i]),
    ensures
        battles_bought(gold, enemies) == i + 1 + battles_bought(gold - spent - battle_cost_of(enemies[i]), enemies.skip(i + 1)),
        battles_cost(gold, enemies) == spent + battle_cost_of(enemies[i]) + battles_cost(
            gold - spent - battle_cost_of(enemies[i]),
            enemies.skip(i + 1),
        ),
{
    assert(enemies.skip(i)[0] == enemies[i]);
    assert(enemies.skip(i).drop_first() =~= enemies.skip(i + 1));
}

impl Enemy {
    /// What battling the enemy costs: three times its gold, divided by its grade's number.
    pub fn battle_cost(&self) -> (r: u64)
        requires
            self.gold * 3 <= u64::MAX,
        ensures
            r == battle_cost_of(*self),
    {
        (self.gold * 3) / (self.kind.grade().value() as u64)
    }
}

/// Queues enemies to battle from a purse of `gold`: the enemies, in order, are paid for
/// while the gold left covers each one's battle cost, and buying stops at the first it does
/// not cover. Returns the enemies bought and what they cost together.
pub fn buy_battles(gold: u64, enemies: Vec<Enemy>) -> (r: (Vec<Enemy>, u64))
    requires
        forall|i: int| 0 <= i < enemies@.len() ==> (#[trigger] enemies@[i]).gold * 3 <= u64::MAX,
    ensures
        r.0@ == enemies@.take(battles_bought(gold as int, enemies@) as int),
        r.1 == battles_cost(gold as int, enemies@),
        r.1 <= gold,
{
    let mut spent: u64 = 0;
    let mut i: usize = 0;
    assert(enemies@.skip(0) =~= enemies@);
    while i < enemies.len()
        invariant_except_break
            i <= enemies@.len(),
            spent <= gold,
            battles_bought(gold as int, enemies@) == i + battles_bought(gold - spent, enemies@.skip(i as int)),
            battles_cost(gold as int, enemies@) == spent + battles_cost(gold - spent, enemies@.skip(i as int)),
            forall|j: int| 0 <= j < enemies@.len() ==> (#[trigger] enemies@[j]).gold * 3 <= u64::MAX,
        ensures
            i <= enemies@.len(),
            spent <= gold,
            i == battles_bought(gold as int, enemies@),
            spent == battles_cost(gold as int, enemies@),
        decreases enemies@.len() - i,
    {
        let cost = enemies[i].battle_cost();
        if gold - spent < cost {
            proof {
                assert(enemies@.skip(i as int)[0] == enemies@[i as int]);
            }
            break;
        }
        proof {
            lemma_battles_step(gold as int, enemies@, i as int, spent as int);
        }
        spent = spent + cost;
        i = i + 1;
    }
    proof {
        if i == enemies@.len() {
            assert(enemies@.skip(i as int).len() == 0);
        }
    }
    let mut bought = enemies;
    bought.truncate(i);
    (bought, spent)
}

/// A change to a character's game data, as the game queues them.
#[derive(Debug, Clone)]
pub enum Mutations {
    Skill(u64, Skill),
    Equip(u64, ItemsWeHave),
    Delete(u64),
    Create(Character),
    Trait(u64, CharacterTraits),
    AddEnemy(u64, Mob, u32),
    /// The user, the slot to sell if any, and the items the user knew of before selling.
    Sell(u64, Option<EquipmentSlot>, Option<Items>),
    NewItems(u64, Items),
    UpdateEnemies(u64, BattleInfo),
    UpdatePlayer(u64, BattleInfo),
    UpdateSkills(u64, BattleInfo),
    SynchronizeEnemies(u64),
    SynchronizeItems(u64),
    SynchronizePlayer(u64),
    SynchronizeSkills(u64),
}

/// The user a mutation is for.
pub open spec fn mutation_user(m: Mutations) -> u64 {
    match m {
        Mutations::Skill(u, _) => u,
        Mutations::Equip(u, _) => u,
        Mutations::Delete(u) => u,
        Mutations::Create(c) => c.user_id,
        Mutations::Trait(u, _) => u,
        Mutations::AddEnemy(u, _, _) => u,
        Mutations::Sell(u, _, _) => u,
        Mutations::NewItems(u, _) => u,
        Mutations::UpdateEnemies(u, _) => u,
        Mutations::UpdatePlayer(u, _) => u,
        Mutations::UpdateSkills(u, _) => u,
        Mutations::SynchronizeEnemies(u) => u,
        Mutations::SynchronizeItems(u) => u,
        Mutations::SynchronizePlayer(u) => u,
        Mutations::SynchronizeSkills(u) => u,
    }
}

impl Mutations {
    /// The user the mutation is for.
    pub fn user_id(&self) -> (r: &u64)
        ensures
            *r == mutation_user(*self),
    {
        match self {
            Mutations::Skill(user_id, _) => user_id,
            Mutations::Equip(user_id, _) => user_id,
            Mutations::Delete(user_id) => user_id,
            Mutations::Create(character) => &character.user_id,
            Mutations::Trait(user_id, _) => user_id,
            Mutations::AddEnemy(user_id, _, _) => user_id,
            Mutations::Sell(user_id, _, _) => user_id,
            Mutations::NewItems(user_id, _) => user_id,
            Mutations::SynchronizeEnemies(user_id) => user_id,
            Mutations::SynchronizeItems(user_id) => user_id,
            Mutations::SynchronizePlayer(user_id) => user_id,
            Mutations::SynchronizeSkills(user_id) => user_id,
            Mutations::UpdateEnemies(user_id, _) => user_id,
            Mutations::UpdatePlayer(user_id, _) => user_id,
            Mutations::UpdateSkills(user_id, _) => user_id,
        }
    }
}

/// A character's game data: the character, the mobs queued to fight it, its inventory and
/// the enemy it fights now.
#[derive(Debug, Clone)]
pub struct CharacterData {
    pub character: Character,
    pub enemies: Vec<Mob>,
    pub items: Items,
    pub user_id: u64,
    pub active_enemy: Option<Enemy>,
}

/// The data's invariant: the character's.
pub open spec fn data_wf(d: CharacterData) -> bool {
    character_wf(d.character)
}

/// The skill set that a switch to `skill` makes current: the one known before, else a new one.
pub open spec fn switched_skill(skill: Skill, known: Option<SkillSet>) -> SkillSet {
    match known {
        Some(k) => k,
        None => SkillSet { skill, experience: 0, active: true, level: 1 },
    }
}

/// `left` are the items of `r`, none or one.
pub open spec fn left_over(r: Option<ItemsWeHave>) -> Seq<ItemsWeHave> {
    match r {
        Some(it) => seq![it],
        None => Seq::empty(),
    }
}

/// The items of `rs`, in order.
pub open spec fn left_overs(rs: Seq<Option<ItemsWeHave>>) -> Seq<ItemsWeHave>
    decreases rs.len(),
{
    if rs.len() == 0 {
        Seq::empty()
    } else {
        left_overs(rs.drop_last()) + left_over(rs.last())
    }
}

/// `eqs` are the equipments as each item of `s` in turn is put on automatically, from the
/// first to the last, `rs` what each time is not worn afterwards.
pub open spec fn auto_chain(eqs: Seq<crate::items::Equipment>, s: Seq<ItemsWeHave>, rs: Seq<Option<ItemsWeHave>>) -> bool {
    &&& eqs.len() == s.len() + 1
    &&& rs.len() == s.len()
    &&& forall|i: int| 0 <= i < s.len() ==> equipment_wf(#[trigger] eqs[i]) && auto_equipped(eqs[i], eqs[i + 1], s[i], rs[i])
}

/// The gold left and the number of mobs queued when queueing `count` mobs at `cost` each:
/// each time the cost is taken (saturating), and where what is left is below the cost the
/// cost is given back and queueing stops.
pub open spec fn queue_outcome(gold: u64, cost: u64, count: nat) -> (int, nat)
    decreases count,
{
    if count == 0 {
        (gold as int, 0)
    } else {
        let g: u64 = if gold >= cost { (gold - cost) as u64 } else { 0 };
        if g < cost {
            (g + cost, 0)
        } else {
            let (rest, bought) = queue_outcome(g, cost, (count - 1) as nat);
            (rest, bought + 1)
        }
    }
}

/// The health after a battle: damage taken and healing done; where nothing is left, full
/// health; else a quarter of the maximum more, up to the maximum.
pub open spec fn hp_after_battle(hp: i32, max_hp: u32, taken: i32, healing: i32) -> int {
    let h = hp - taken + healing;
    if h <= 0 {
        max_hp as i32 as int
    } else if h + ((max_hp / 4) as i32) < (max_hp as i32) {
        h + ((max_hp / 4) as i32)
    } else {
        max_hp as i32 as int
    }
}

/// The level of the next enemy: three above the last where the character took no damage,
/// else half the last's level but at least the character's.
pub open spec fn next_enemy_level(enemy_level: u32, damage_taken: i32, character_level: u32) -> int {
    if damage_taken == 0 {
        enemy_level + 3
    } else if enemy_level / 2 > character_level {
        (enemy_level / 2) as int
    } else {
        character_level as int
    }
}

/// The enemy's health after a battle: the damage dealt taken off; where it healed, the
/// healing up to a quarter of what is left (rounded toward zero) added; at most its maximum.
pub open spec fn enemy_health_after(health: i32, dealt: i32, healing: i32, max_health: u32) -> int {
    let h = health - dealt;
    let healed = if healing > 0 {
        let cap = crate::battle::div_toward_zero(h, 4);
        if healing < cap {
            h + healing
        } else {
            h + cap
        }
    } else {
        h
    };
    if healed < (max_health as i32) {
        healed
    } else {
        max_health as i32 as int
    }
}

/// `after` is `before` once `skill` was made current, `known` being the skill set known for it.
pub open spec fn skill_switched(before: CharacterData, after: CharacterData, skill: Skill, known: Option<SkillSet>) -> bool {
    &&& after.character == (Character { current_skill: switched_skill(skill, known), ..before.character })
    &&& after.enemies == before.enemies
    &&& after.items == before.items
    &&& after.user_id == before.user_id
    &&& after.active_enemy == before.active_enemy
}

/// `after` is `before` once `item` was taken from the inventory and put on.
pub open spec fn item_equipped(before: CharacterData, after: CharacterData, item: ItemsWeHave) -> bool {
    &&& after.enemies == before.enemies
    &&& after.user_id == before.user_id
    &&& after.active_enemy == before.active_enemy
    &&& after.items.gold == before.items.gold
    &&& !before.items@.contains(item) ==> after.items@ == before.items@
            && after.character == before.character
    &&& before.items@.contains(item) ==> exists|k: int, r: Option<ItemsWeHave>| {
            &&& 0 <= k < before.items@.len()
            &&& before.items@[k] == item
            &&& forall|j: int| 0 <= j < k ==> before.items@[j] != item
            &&& equipped(before.character.equipment, after.character.equipment, item, r)
            &&& after.items@ == before.items@.remove(k) + left_over(r)
            &&& after.character == (Character {
                equipment: after.character.equipment,
                ..before.character
            })
        }
}

/// `after` is `before` once `trait_` was chosen.
pub open spec fn trait_chosen(before: CharacterData, after: CharacterData, trait_: CharacterTraits) -> bool {
    &&& after.enemies == before.enemies
    &&& after.items == before.items
    &&& after.user_id == before.user_id
    &&& after.active_enemy == before.active_enemy
    &&& before.character.available_traits == 0 ==> after.character == before.character
    &&& before.character.available_traits != 0 ==> {
            let c0 = before.character;
            let c1 = after.character;
            let fresh = !c0.traits@.contains(trait_);
            &&& raised_by(c0.attributes, c1.attributes, trait_)
            &&& c1.traits@ == (if fresh { c0.traits@.push(trait_) } else { c0.traits@ })
            &&& c1.available_traits == (if fresh { c0.available_traits - 2 } else { c0.available_traits as int })
            &&& c1 == (Character {
                attributes: c1.attributes,
                traits: c1.traits,
                available_traits: c1.available_traits,
                ..c0
            })
        }
}

/// `after` is `before` once up to `count` mobs of the kind were queued.
pub open spec fn enemies_queued(before: CharacterData, after: CharacterData, mob: Mob, count: u32) -> bool {
    &&& ({
            let g = crate::scaling::floor_sqrt_of((before.character.level * gold_factor(mob.grade_of())) as nat);
            let (gold, bought) = queue_outcome(before.items.gold, (g * 3) as u64, count as nat);
            &&& after.items.gold == gold
            &&& after.enemies@ == before.enemies@ + Seq::new(bought, |i: int| mob)
        })
    &&& after.items@ == before.items@
    &&& after.character == before.character
    &&& after.user_id == before.user_id
    &&& after.active_enemy == before.active_enemy
}

/// `after` is `before` once the items were sold.
pub open spec fn items_sold(before: CharacterData, after: CharacterData, slot: Option<EquipmentSlot>, known_items: Option<Items>) -> bool {
    &&& after.character == before.character
    &&& after.enemies == before.enemies
    &&& after.user_id == before.user_id
    &&& after.active_enemy == before.active_enemy
    &&& match known_items {
            None => after.items@ == (match slot {
                Some(s) => not_of_slot(before.items@, s),
                None => Seq::<ItemsWeHave>::empty(),
            }) && after.items.gold == before.items.gold + (match slot {
                Some(s) => value_of(of_slot(before.items@, s)),
                None => value_of(before.items@),
            }),
            Some(known) => after.items@ == unknown_part(before.items@, known@) && after.items.gold == before.items.gold,
        }
}

/// `after` is `before` once the new items were put on or stored.
pub open spec fn items_received(before: CharacterData, after: CharacterData, items: Items) -> bool {
    &&& exists|eqs: Seq<crate::items::Equipment>, rs: Seq<Option<ItemsWeHave>>| {
            &&& auto_chain(eqs, items@, rs)
            &&& eqs[0] == before.character.equipment
            &&& eqs.last() == after.character.equipment
            &&& after.items@ == before.items@ + left_overs(rs)
        }
    &&& after.items.gold == before.items.gold + items.gold
    &&& after.character == (Character { equipment: after.character.equipment, ..before.character })
    &&& after.enemies == before.enemies
    &&& after.user_id == before.user_id
    &&& after.active_enemy == before.active_enemy
}

/// `after` is `before` once a battle was applied to the current skill.
pub open spec fn skills_updated<F: Fn(u32) -> u64>(before: CharacterData, after: CharacterData, battle: BattleInfo, next: F) -> bool {
    &&& ({
            let s0 = before.character.current_skill;
            let s1 = after.character.current_skill;
            let gained = s0.experience + battle.skill_experience_gained;
            &&& s1.skill == s0.skill && s1.active == s0.active
            &&& (s1.level as int, s1.experience as int) == leveled(s0.level as int, gained, need_of(next))
        })
    &&& after.character == (Character { current_skill: after.character.current_skill, ..before.character })
    &&& after.enemies == before.enemies
    &&& after.items == before.items
    &&& after.user_id == before.user_id
    &&& after.active_enemy == before.active_enemy
}

impl CharacterData {
    /// Makes `skill` current: the skill set `known` for it where the character knew it, else
    /// a new one. Returns the skill set that was current, to be stored.
    pub fn switch_skill(&mut self, skill: Skill, known: Option<SkillSet>) -> (r: SkillSet)
        ensures
            r == old(self).character.current_skill,
            skill_switched(*old(self), *final(self), skill, known),
    {
        let previous = self.character.current_skill;
        self.character.current_skill = match known {
            Some(k) => k,
            None => SkillSet::new(skill),
        };
        previous
    }

    /// Takes `item` from the inventory and puts it on; what it replaces goes back to the
    /// inventory. Nothing changes where the inventory does not hold the item.
    pub fn equip_item(&mut self, item: ItemsWeHave)
        requires
            data_wf(*old(self)),
        ensures
            data_wf(*final(self)),
            item_equipped(*old(self), *final(self), item),
    {
        let removed = self.items.remove(&item);
        if !removed {
            return;
        }
        let ghost after_remove = self.items@;
        let old_item = self.character.equipment.equip(item);
        if let Some(old_item) = old_item {
            self.items.push(old_item);
        }
        proof {
            assert(self.items@ =~= after_remove + left_over(old_item));
        }
    }

    /// Takes a waiting trait: nothing happens where none waits; else the trait raises the
    /// attributes, and a trait not held before is added and uses up two waiting traits (one
    /// as it is inserted, one more here).
    pub fn choose_trait(&mut self, trait_: CharacterTraits)
        requires
            data_wf(*old(self)),
            old(self).character.available_traits > 0 ==> {
                &&& attribute_value(old(self).character.attributes.strength) + 3 <= u32::MAX
                &&& attribute_value(old(self).character.attributes.intelligence) + 5 <= u32::MAX
                &&& attribute_value(old(self).character.attributes.dexterity) + 3 <= u32::MAX
                &&& attribute_value(old(self).character.attributes.constitution) + 3 <= u32::MAX
                &&& attribute_value(old(self).character.attributes.wisdom) + 3 <= u32::MAX
                &&& attribute_value(old(self).character.attributes.charisma) + 3 <= u32::MAX
            },
            old(self).character.available_traits == 1 ==> old(self).character.traits@.contains(trait_),
        ensures
            data_wf(*final(self)),
            trait_chosen(*old(self), *final(self), trait_),
    {
        if self.character.available_traits == 0 {
            return;
        }
        let new_trait = self.character.insert_trait(trait_);
        if new_trait {
            self.character.available_traits = self.character.available_traits - 1;
        }
    }

    /// Queues up to `count` mobs of the kind, each for three times the gold such an enemy
    /// carries at the character's level (see `queue_outcome`).
    pub fn queue_enemies(&mut self, mob: Mob, count: u32)
        requires
            old(self).character.level * gold_factor(mob.grade_of()) <= u32::MAX,
        ensures
            enemies_queued(*old(self), *final(self), mob, count),
    {
        let gold_each = mob.gold_at(self.character.level);
        proof {
            crate::scaling::lemma_floor_sqrt_unique((self.character.level * gold_factor(mob.grade_of())) as nat, gold_each as nat);
            crate::scaling::lemma_floor_sqrt_bound((self.character.level * gold_factor(mob.grade_of())) as nat, gold_each as nat);
        }
        let cost = gold_each * 3;
        let ghost g0 = self.items.gold;
        let ghost e0 = self.enemies@;
        let mut i: u32 = 0;
        while i < count
            invariant_except_break
                i <= count,
                cost <= 3 * 65536,
                queue_outcome(g0, cost, count as nat).0 == queue_outcome(self.items.gold, cost, (count - i) as nat).0,
                queue_outcome(g0, cost, count as nat).1 == queue_outcome(self.items.gold, cost, (count - i) as nat).1 + i,
                self.enemies@ == e0 + Seq::new(i as nat, |j: int| mob),
            invariant
                self.items@ == old(self).items@,
                self.character == old(self).character,
                self.user_id == old(self).user_id,
                self.active_enemy == old(self).active_enemy,
            ensures
                queue_outcome(g0, cost, count as nat).0 == self.items.gold,
                queue_outcome(g0, cost, count as nat).1 == self.enemies@.len() - e0.len(),
                self.enemies@ == e0 + Seq::new((self.enemies@.len() - e0.len()) as nat, |j: int| mob),
            decreases count - i,
        {
            self.items.gold = self.items.gold.saturating_sub(cost);
            if self.items.gold < cost {
                self.items.gold = self.items.gold + cost;
                break;
            }
            self.enemies.push(mob);
            proof {
                assert(self.enemies@ =~= e0 + Seq::new((i + 1) as nat, |j: int| mob));
            }
            i = i + 1;
        }
        proof {
            assert(self.enemies@ =~= e0 + Seq::new(queue_outcome(g0, cost, count as nat).1, |j: int| mob));
        }
    }

    /// Sells from the inventory as `Items::sell_with_knowledge` does.
    pub fn sell(&mut self, slot: Option<EquipmentSlot>, known_items: Option<Items>)
        requires
            old(self).items.gold + value_of(old(self).items@) <= u64::MAX,
        ensures
            items_sold(*old(self), *final(self), slot, known_items),
    {
        self.items.sell_with_knowledge(slot, known_items.as_ref());
    }

    /// Puts each new item on automatically in turn; the items not worn afterwards and the
    /// new gold go to the inventory.
    pub fn new_items(&mut self, items: Items)
        requires
            data_wf(*old(self)),
            old(self).items.gold + items.gold <= u64::MAX,
        ensures
            data_wf(*final(self)),
            items_received(*old(self), *final(self), items),
    {
        let ghost mut eqs: Seq<crate::items::Equipment> = seq![self.character.equipment];
        let ghost mut rs: Seq<Option<ItemsWeHave>> = Seq::empty();
        let mut left: Vec<ItemsWeHave> = Vec::new();
        let mut i: usize = 0;
        while i < items.items.len()
            invariant
                i <= items@.len(),
                data_wf(*self),
                auto_chain(eqs, items@.take(i as int), rs),
                eqs[0] == old(self).character.equipment,
                eqs.last() == self.character.equipment,
                left@ == left_overs(rs),
                self.character == (Character { equipment: self.character.equipment, ..old(self).character }),
                self.enemies == old(self).enemies,
                self.items == old(self).items,
                self.user_id == old(self).user_id,
                self.active_enemy == old(self).active_enemy,
            decreases items@.len() - i,
        {
            let r = self.character.equipment.auto_equip(items.items[i]);
            if let Some(back) = r {
                left.push(back);
            }
            proof {
                let old_rs = rs;
                eqs = eqs.push(self.character.equipment);
                rs = rs.push(r);
                assert(rs.drop_last() =~= old_rs);
                assert(left@ =~= left_overs(rs));
                assert(items@.take(i + 1) =~= items@.take(i as int).push(items@[i as int]));
            }
            i = i + 1;
        }
        proof {
            assert(items@.take(i as int) =~= items@);
        }
        let gold = items.gold;
        self.items.absorb(Items::new(left, gold));
    }
}

/// What the enemy heals after a battle: its healing, up to a quarter (rounded toward zero) of
/// the health left after the damage dealt; nothing where it did not heal.
pub open spec fn enemy_heal(h: int, healing: i32) -> int {
    if healing > 0 {
        let cap = crate::battle::div_toward_zero(h, 4);
        if healing < cap {
            healing as int
        } else {
            cap
        }
    } else {
        0
    }
}

/// The mob and level of the enemy to fight next once the current one died: the first queued
/// mob, or any mob kind where none is queued.
pub open spec fn spawn_relation(before: Seq<Mob>, after: Seq<Mob>, level: int, r: Option<(Mob, u32)>) -> bool {
    match r {
        Some((m, l)) => l == level && if before.len() == 0 {
            after == before && crate::enemies::all_mobs().contains(m)
        } else {
            m == before[0] && after == before.subrange(1, before.len() as int)
        },
        None => false,
    }
}

/// `after` is `before` once a battle was applied to the enemies: the current enemy's health
/// follows `enemy_health_after`; where it was killed, `r` names the next enemy to generate.
pub open spec fn enemies_updated(
    before: CharacterData,
    after: CharacterData,
    battle: BattleInfo,
    max_health: u32,
    r: Option<(Mob, u32)>,
) -> bool {
    let e0 = before.active_enemy.unwrap();
    let level = next_enemy_level(battle.enemy_level, battle.damage_taken, before.character.level);
    &&& after.active_enemy is Some
    &&& after.active_enemy.unwrap() == (Enemy {
        health: enemy_health_after(e0.health, battle.damage_dealt, battle.enemy_healing, max_health) as i32,
        ..e0
    })
    &&& after.character == before.character
    &&& after.items == before.items
    &&& after.user_id == before.user_id
    &&& battle.enemy_killed ==> spawn_relation(before.enemies@, after.enemies@, level, r)
    &&& !battle.enemy_killed ==> r is None && after.enemies == before.enemies
}

/// The character after the battle's effect on health and experience, before it tries to
/// level up.
pub open spec fn after_battle(c: Character, battle: BattleInfo) -> Character {
    Character {
        hp: hp_after_battle(c.hp, c.max_hp, battle.damage_taken, battle.player_healing) as i32,
        experience: if c.hp - battle.damage_taken + battle.player_healing <= 0 {
            c.experience
        } else {
            (c.experience + battle.experience_gained) as u32
        },
        ..c
    }
}

/// `after` is `before` once a battle was applied to the character: health follows
/// `hp_after_battle`; where the character survived it gains the experience, then tries to
/// level up (`next(level)` being what a level needs) and to gain a trait.
pub open spec fn player_updated<F: Fn(u32) -> u32>(before: CharacterData, after: CharacterData, battle: BattleInfo, next: F) -> bool {
    let mid = after_battle(before.character, battle);
    &&& after.enemies == before.enemies
    &&& after.items == before.items
    &&& after.user_id == before.user_id
    &&& after.active_enemy == before.active_enemy
    &&& before.character.hp - battle.damage_taken + battle.player_healing <= 0 ==> after.character == mid
    &&& before.character.hp - battle.damage_taken + battle.player_healing > 0 ==> exists|c1: Character, r1: bool, r2: bool|
        #![trigger crate::player::level_up(mid, c1, r1, next), crate::player::trait_gain(c1, after.character, r2)]
        crate::player::level_up(mid, c1, r1, next) && crate::player::trait_gain(c1, after.character, r2)
}

impl CharacterData {
    /// Applies a battle to the enemies: the current enemy takes the damage dealt and heals;
    /// where it was killed, the next one is the first queued mob, or a random kind where none
    /// is queued, at `next_enemy_level`. Returns that mob and level, for the caller to
    /// generate the enemy and make it current. `max_health` is the current enemy's maximum.
    pub fn update_enemies(&mut self, battle: &BattleInfo, max_health: u32) -> (r: Option<(Mob, u32)>)
        requires
            old(self).active_enemy is Some,
            i32::MIN <= old(self).active_enemy.unwrap().health - battle.damage_dealt <= i32::MAX,
            i32::MIN <= old(self).active_enemy.unwrap().health - battle.damage_dealt + enemy_heal(
                old(self).active_enemy.unwrap().health - battle.damage_dealt,
                battle.enemy_healing,
            ) <= i32::MAX,
            battle.damage_taken == 0 ==> battle.enemy_level + 3 <= u32::MAX,
        ensures
            enemies_updated(*old(self), *final(self), *battle, max_health, r),
    {
        let mut enemy = self.active_enemy.take().unwrap();
        let h = enemy.health - battle.damage_dealt;
        let mut health = h;
        if battle.enemy_healing > 0 {
            let cap: i32 = if h >= 0 {
                h / 4
            } else {
                0 - ((0 - h as i64) / 4) as i32
            };
            let heal = if battle.enemy_healing < cap {
                battle.enemy_healing
            } else {
                cap
            };
            health = h + heal;
        }
        let top = max_health as i32;
        if !(health < top) {
            health = top;
        }
        enemy.health = health;
        self.active_enemy = Some(enemy);
        let level: u32 = if battle.damage_taken == 0 {
            battle.enemy_level + 3
        } else if battle.enemy_level / 2 > self.character.level {
            battle.enemy_level / 2
        } else {
            self.character.level
        };
        if battle.enemy_killed {
            if self.enemies.len() == 0 {
                let mob = Mob::random();
                return Some((mob, level));
            }
            let mob = self.enemies.remove(0);
            proof {
                assert(self.enemies@ =~= old(self).enemies@.subrange(1, old(self).enemies@.len() as int));
            }
            return Some((mob, level));
        }
        None
    }

    /// Applies a battle to the character (see `player_updated`).
    pub fn update_player(&mut self, battle: &BattleInfo, next: impl Fn(u32) -> u32)
        requires
            data_wf(*old(self)),
            forall|l: u32| #[trigger] next.requires((l,)),
            forall|l: u32, a: u32, b: u32| next.ensures((l,), a) && next.ensures((l,), b) ==> a == b,
            i32::MIN <= old(self).character.hp - battle.damage_taken <= i32::MAX,
            i32::MIN <= old(self).character.hp - battle.damage_taken + battle.player_healing <= i32::MAX,
            old(self).character.max_hp <= i32::MAX,
            old(self).character.hp - battle.damage_taken + battle.player_healing > 0 ==> {
                &&& old(self).character.hp - battle.damage_taken + battle.player_healing
                    + old(self).character.max_hp / 4 <= i32::MAX
                &&& old(self).character.experience + battle.experience_gained <= u32::MAX
                &&& old(self).character.level < u32::MAX
                &&& crate::player::hp_after_gain(
                    old(self).character.class,
                    attribute_value(old(self).character.attributes.constitution),
                    old(self).character.max_hp,
                ) <= u32::MAX
            },
        ensures
            data_wf(*final(self)),
            player_updated(*old(self), *final(self), *battle, next),
    {
        self.character.hp = self.character.hp - battle.damage_taken;
        self.character.hp = self.character.hp + battle.player_healing;
        if self.character.hp <= 0 {
            self.character.hp = self.character.max_hp as i32;
            return;
        } else {
            self.character.hp = self.character.hp + (self.character.max_hp / 4) as i32;
            let top = self.character.max_hp as i32;
            if !(self.character.hp < top) {
                self.character.hp = top;
            }
        }
        self.character.experience = self.character.experience + battle.experience_gained;
        let ghost mid = self.character;
        let r1 = self.character.try_level_up(next);
        let ghost c1 = self.character;
        let r2 = self.character.try_trait_gain();
        proof {
            assert(mid == after_battle(old(self).character, *battle));
            assert(crate::player::level_up(mid, c1, r1, next));
            assert(crate::player::trait_gain(c1, self.character, r2));
        }
    }

    /// Applies a battle to the current skill: it gains the battle's skill experience, then
    /// levels up as `SkillSet::try_level_up` does.
    pub fn update_skills(&mut self, battle: &BattleInfo, next: impl Fn(u32) -> u64)
        requires
            forall|l: u32| #[trigger] next.requires((l,)),
            forall|l: u32, r: u64| next.ensures((l,), r) ==> r >= 1,
            forall|l: u32, r1: u64, r2: u64| next.ensures((l,), r1) && next.ensures((l,), r2) ==> r1 == r2,
            old(self).character.current_skill.experience + battle.skill_experience_gained <= u64::MAX,
            leveled(
                old(self).character.current_skill.level as int,
                old(self).character.current_skill.experience + battle.skill_experience_gained,
                need_of(next),
            ).0 <= u32::MAX,
        ensures
            skills_updated(*old(self), *final(self), *battle, next),
    {
        self.character.current_skill.experience = self.character.current_skill.experience
            + battle.skill_experience_gained as u64;
        self.character.current_skill.try_level_up(next);
    }
}

/// Whether the data and a mutation meet what applying it needs: no arithmetic leaves its
/// type, a trait chosen with one waiting is already held, and an enemy fights where a battle
/// is applied to it.
pub open spec fn mutation_fits(d: CharacterData, m: Mutations) -> bool {
    match m {
        Mutations::Trait(_, t) => {
            &&& d.character.available_traits > 0 ==> {
                &&& attribute_value(d.character.attributes.strength) + 3 <= u32::MAX
                &&& attribute_value(d.character.attributes.intelligence) + 5 <= u32::MAX
                &&& attribute_value(d.character.attributes.dexterity) + 3 <= u32::MAX
                &&& attribute_value(d.character.attributes.constitution) + 3 <= u32::MAX
                &&& attribute_value(d.character.attributes.wisdom) + 3 <= u32::MAX
                &&& attribute_value(d.character.attributes.charisma) + 3 <= u32::MAX
            }
            &&& d.character.available_traits == 1 ==> d.character.traits@.contains(t)
        },
        Mutations::AddEnemy(_, mob, _) => d.character.level * gold_factor(mob.grade_of()) <= u32::MAX,
        Mutations::Sell(_, _, _) => d.items.gold + value_of(d.items@) <= u64::MAX,
        Mutations::NewItems(_, items) => d.items.gold + items.gold <= u64::MAX,
        Mutations::UpdateEnemies(_, battle) => {
            &&& d.active_enemy is Some
            &&& i32::MIN <= d.active_enemy.unwrap().health - battle.damage_dealt <= i32::MAX
            &&& i32::MIN <= d.active_enemy.unwrap().health - battle.damage_dealt + enemy_heal(
                d.active_enemy.unwrap().health - battle.damage_dealt,
                battle.enemy_healing,
            ) <= i32::MAX
            &&& battle.damage_taken == 0 ==> battle.enemy_level + 3 <= u32::MAX
        },
        Mutations::UpdatePlayer(_, battle) => {
            &&& i32::MIN <= d.character.hp - battle.damage_taken <= i32::MAX
            &&& i32::MIN <= d.character.hp - battle.damage_taken + battle.player_healing <= i32::MAX
            &&& d.character.max_hp <= i32::MAX
            &&& d.character.hp - battle.damage_taken + battle.player_healing > 0 ==> {
                &&& d.character.hp - battle.damage_taken + battle.player_healing + d.character.max_hp / 4 <= i32::MAX
                &&& d.character.experience + battle.experience_gained <= u32::MAX
                &&& d.character.level < u32::MAX
                &&& crate::player::hp_after_gain(
                    d.character.class,
                    attribute_value(d.character.attributes.constitution),
                    d.character.max_hp,
                ) <= u32::MAX
            }
        },
        Mutations::UpdateSkills(_, battle) => d.character.current_skill.experience
            + battle.skill_experience_gained <= u64::MAX,
        _ => true,
    }
}

impl CharacterData {
    /// Applies a mutation to the data. What the game's storage and formulas give comes in as
    /// arguments: `known_skill`, the skill set stored for a skill switched to;
    /// `enemy_max_health`, the current enemy's maximum health; `character_curve(level)` and
    /// `skill_curve(level)`, the experience a level needs. Returns the mob and level of the
    /// enemy to generate next, where a battle killed the current one. Deleting, creating and
    /// synchronising change nothing here.
    pub fn apply_mutation(
        &mut self,
        mutation: Mutations,
        known_skill: Option<SkillSet>,
        enemy_max_health: u32,
        character_curve: impl Fn(u32) -> u32,
        skill_curve: impl Fn(u32) -> u64,
    ) -> (r: Option<(Mob, u32)>)
        requires
            data_wf(*old(self)),
            mutation_fits(*old(self), mutation),
            forall|l: u32| #[trigger] character_curve.requires((l,)),
            forall|l: u32, a: u32, b: u32| character_curve.ensures((l,), a) && character_curve.ensures((l,), b) ==> a == b,
            forall|l: u32| #[trigger] skill_curve.requires((l,)),
            forall|l: u32, t: u64| skill_curve.ensures((l,), t) ==> t >= 1,
            forall|l: u32, a: u64, b: u64| skill_curve.ensures((l,), a) && skill_curve.ensures((l,), b) ==> a == b,
            mutation matches Mutations::UpdateSkills(_, battle) ==> leveled(
                old(self).character.current_skill.level as int,
                old(self).character.current_skill.experience + battle.skill_experience_gained,
                need_of(skill_curve),
            ).0 <= u32::MAX,
        ensures
            data_wf(*final(self)),
            match mutation {
                Mutations::Skill(_, skill) => skill_switched(*old(self), *final(self), skill, known_skill) && r is None,
                Mutations::Equip(_, item) => item_equipped(*old(self), *final(self), item) && r is None,
                Mutations::Trait(_, t) => trait_chosen(*old(self), *final(self), t) && r is None,
                Mutations::AddEnemy(_, mob, count) => enemies_queued(*old(self), *final(self), mob, count) && r is None,
                Mutations::Sell(_, slot, known) => items_sold(*old(self), *final(self), slot, known) && r is None,
                Mutations::NewItems(_, items) => items_received(*old(self), *final(self), items) && r is None,
                Mutations::UpdateEnemies(_, battle) => enemies_updated(*old(self), *final(self), battle, enemy_max_health, r),
                Mutations::UpdatePlayer(_, battle) => player_updated(*old(self), *final(self), battle, character_curve)
                    && r is None,
                Mutations::UpdateSkills(_, battle) => skills_updated(*old(self), *final(self), battle, skill_curve)
                    && r is None,
                _ => *final(self) == *old(self) && r is None,
            },
    {
        match mutation {
            Mutations::Skill(_, skill) => {
                self.switch_skill(skill, known_skill);
                None
            },
            Mutations::Equip(_, item) => {
                self.equip_item(item);
                None
            },
            Mutations::Trait(_, t) => {
                self.choose_trait(t);
                None
            },
            Mutations::AddEnemy(_, mob, count) => {
                self.queue_enemies(mob, count);
                None
            },
            Mutations::Sell(_, slot, known) => {
                self.sell(slot, known);
                None
            },
            Mutations::NewItems(_, items) => {
                self.new_items(items);
                None
            },
            Mutations::UpdateEnemies(_, battle) => self.update_enemies(&battle, enemy_max_health),
            Mutations::UpdatePlayer(_, battle) => {
                self.update_player(&battle, character_curve);
                None
            },
            Mutations::UpdateSkills(_, battle) => {
                self.update_skills(&battle, skill_curve);
                None
            },
            _ => None,
        }
    }
}


/// After any battle a character has some health and no more than its maximum: it is healed
/// to full where it fell, and never healed past the maximum.
pub proof fn law_battle_leaves_health_in_range(hp: i32, max_hp: u32, taken: i32, healing: i32)
    requires
        0 < max_hp <= i32::MAX,
    ensures
        0 < hp_after_battle(hp, max_hp, taken, healing) <= max_hp,
{
}

/// A character that survives a battle keeps the health the battle left it, `hp - taken +
/// healing`, and heals a quarter of its maximum on top, but never past the maximum: the
/// health after is the smaller of the two. One that fell is healed to full.
pub proof fn law_battle_heals_a_quarter(hp: i32, max_hp: u32, taken: i32, healing: i32)
    requires
        0 < max_hp <= i32::MAX,
    ensures
        hp - taken + healing <= 0 ==> hp_after_battle(hp, max_hp, taken, healing) == max_hp,
        hp - taken + healing > 0 ==> {
            let left = hp - taken + healing;
            &&& hp_after_battle(hp, max_hp, taken, healing) <= left + max_hp / 4
            &&& hp_after_battle(hp, max_hp, taken, healing) <= max_hp
            &&& (hp_after_battle(hp, max_hp, taken, healing) == left + max_hp / 4
                || hp_after_battle(hp, max_hp, taken, healing) == max_hp)
            &&& left + max_hp / 4 <= max_hp ==> hp_after_battle(hp, max_hp, taken, healing) == left + max_hp / 4
        },
{
}

/// Queueing charges only for the enemies queued. Where the first costs more than the gold
/// held, nothing is queued and the gold is topped up to the cost (the cost taken from too
/// little gold leaves none, and the cost is given back). Otherwise each enemy queued costs
/// `cost`, and one fewer is queued than the gold pays for, at most `count`: the gold left
/// is what was held less the cost of those queued.
pub proof fn law_queue_charges_what_is_queued(gold: u64, cost: u64, count: nat)
    requires
        cost > 0,
    ensures
        count > 0 && gold < cost ==> queue_outcome(gold, cost, count) == (cost as int, 0nat),
        gold >= cost ==> queue_outcome(gold, cost, count).0 == gold - queue_outcome(gold, cost, count).1 * cost,
        gold >= cost ==> queue_outcome(gold, cost, count).1 == if count < gold / cost - 1 {
            count as int
        } else {
            gold / cost - 1
        },
    decreases count,
{
    if gold >= cost {
        assert(gold / cost >= 1) by (nonlinear_arith)
            requires
                gold >= cost,
                cost > 0,
        ;
        let g = (gold - cost) as u64;
        if count > 0 && g >= cost {
            assert(g / cost == gold / cost - 1) by {
                vstd::arithmetic::div_mod::lemma_div_plus_one(g as int, cost as int);
            }
            law_queue_charges_what_is_queued(g, cost, (count - 1) as nat);
            let (rest, bought) = queue_outcome(g, cost, (count - 1) as nat);
            assert(queue_outcome(gold, cost, count) == (rest, bought + 1));
            assert(rest == gold - (bought + 1) * cost) by (nonlinear_arith)
                requires
                    rest == g - bought * cost,
                    g == gold - cost,
            ;
        } else {
            if count > 0 {
                assert(g / cost == 0) by {
                    vstd::arithmetic::div_mod::lemma_basic_div(g as int, cost as int);
                }
                assert(g / cost == gold / cost - 1) by {
                    vstd::arithmetic::div_mod::lemma_div_plus_one(g as int, cost as int);
                }
            }
            assert(queue_outcome(gold, cost, count) == (gold as int, 0nat));
            assert(0nat * cost == 0) by (nonlinear_arith);
        }
    }
}

/// Where the character took damage, the next enemy is never below the character's level;
/// where it took none, the next enemy is three levels above the last.
pub proof fn law_next_enemy_level(enemy_level: u32, damage_taken: i32, character_level: u32)
    ensures
        damage_taken != 0 ==> next_enemy_level(enemy_level, damage_taken, character_level) >= character_level,
        damage_taken == 0 ==> next_enemy_level(enemy_level, damage_taken, character_level) == enemy_level + 3,
{
}

/// An enemy never has more health after a battle than its maximum.
pub proof fn law_enemy_health_capped(health: i32, dealt: i32, healing: i32, max_health: u32)
    requires
        max_health <= i32::MAX,
    ensures
        enemy_health_after(health, dealt, healing, max_health) <= max_health,
{
}

/// Buying enemies never spends more than the gold or buys more than wanted, and buys as
/// many as the gold allows: where fewer than wanted were bought, what is left cannot pay for
/// one more.
pub proof fn law_buy_as_many_as_affordable(gold: u64, cost: u64, wanted: u32)
    ensures
        affordable(gold, cost, wanted) <= wanted,
        affordable(gold, cost, wanted) * cost <= gold,
        cost > 0 && affordable(gold, cost, wanted) < wanted ==> gold - affordable(gold, cost, wanted) * cost < cost,
{
    if cost > 0 {
        let n = affordable(gold, cost, wanted);
        vstd::arithmetic::div_mod::lemma_fundamental_div_mod(gold as int, cost as int);
        vstd::arithmetic::mul::lemma_mul_inequality(n as int, (gold / cost) as int, cost as int);
        vstd::arithmetic::mul::lemma_mul_is_commutative((gold / cost) as int, cost as int);
    }
}

} // verus!
