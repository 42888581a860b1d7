use vstd::prelude::*;
use vstd::string::StringExecFns;
use crate::BattleInfo;
use crate::constructed::{template_name, ItemsWeHave};
use crate::enemies::{Enemy, EnemyState};
use crate::actions::{acted, lemma_acted_small, set_max};
use crate::dice::{dice_max, Dice, DieObject};
use crate::player::{dice_of, dice_pair, ActionDice};
use crate::skills::{MobAction, SkillSet};
use crate::units::DamageType;
use crate::player::{action_points_of, character_wf, Character};
use crate::text::{decimal, signed_decimal, signed_text, unsigned_text};

verus! {

/// The rounds of one battle, in the order they were fought.
#[derive(Debug, Clone)]
pub struct BattleResult {
    pub result: Vec<BattleInfo>,
}

impl BattleResult {
    pub fn new(result: Vec<BattleInfo>) -> (r: BattleResult)
        ensures
            r.result@ == result@,
    {
        BattleResult { result }
    }

    /// Adds a round after the ones already recorded.
    pub fn append_result(&mut self, result: BattleInfo)
        ensures
            final(self).result@ == old(self).result@.push(result),
    {
        self.result.push(result);
    }

    /// The text of every round, each followed by the letter `n`.
    pub fn to_string(&self) -> (r: String)
        ensures
            r@ == results_text(self.result@),
    {
        let mut text = String::new();
        let mut i: usize = 0;
        while i < self.result.len()
            invariant
                i <= self.result@.len(),
                text@ == results_text(self.result@.take(i as int)),
            decreases self.result@.len() - i,
        {
            proof {
                assert(self.result@.take(i + 1).drop_last() =~= self.result@.take(i as int));
            }
            text.append(self.result[i].to_string().as_str());
            text.append("n");
            i = i + 1;
        }
        proof {
            assert(self.result@.take(i as int) =~= self.result@);
        }
        text
    }
}

/// The texts of rounds, each followed by the letter `n`.
pub open spec fn results_text(v: Seq<BattleInfo>) -> Seq<char>
    decreases v.len(),
{
    if v.len() == 0 {
        Seq::empty()
    } else {
        results_text(v.drop_last()) + battle_text(v.last()) + "n"@
    }
}

impl Default for BattleResult {
    fn default() -> (r: BattleResult)
        ensures
            r.result@ == Seq::<BattleInfo>::empty(),
    {
        BattleResult { result: Vec::new() }
    }
}

/// Division rounding toward zero, as Rust's integer division does.
pub open spec fn div_toward_zero(x: int, d: int) -> int {
    if x >= 0 {
        x / d
    } else {
        -((-x) / d)
    }
}

/// The text `piece` where `shown`, else nothing.
pub open spec fn shown_if(shown: bool, piece: Seq<char>) -> Seq<char> {
    if shown {
        piece
    } else {
        Seq::empty()
    }
}

/// One line per item gained.
pub open spec fn gained_items_text(items: Seq<ItemsWeHave>) -> Seq<char>
    decreases items.len(),
{
    if items.len() == 0 {
        Seq::empty()
    } else {
        gained_items_text(items.drop_last()) + "\n\t🎁\t Item gained: "@ + template_name(items.last()) + "\t🎁"@
    }
}

/// The text that reports a round of battle.
pub open spec fn battle_text(b: BattleInfo) -> Seq<char> {
    "\n🗡️"@ + "\n\t"@ + "🎲\t"@ + b.player_name@ + " attacked the "@ + b.monster_name@ + " with "@
        + b.action.label() + " dealing "@ + signed_decimal(b.damage_dealt as int) + " damage!"@ + "\t🎲"@
        + "\n\t"@
        + shown_if(
            b.number_of_player_attacks > 0,
            "🎲\t"@ + "Average damage per hit"@ + " is "@
                + signed_decimal(div_toward_zero(b.damage_dealt as int, b.number_of_player_attacks as int))
                + "\t🎲"@ + "\n\t"@,
        )
        + "🪨\t"@ + "Next level in "@ + decimal(b.next_level as nat) + " experience!"@ + "\t🪨"@
        + shown_if(
            b.damage_taken > 0,
            "\n\t"@ + "🎲\t"@ + b.monster_name@ + " attacked "@ + b.player_name@ + " with "@ + b.enemy_action@
                + " dealing "@ + signed_decimal(b.damage_taken as int) + " damage!"@ + "\t🎲"@,
        )
        + shown_if(
            b.enemy_healing > 0,
            "\n\t"@ + "🎲\t"@ + b.monster_name@ + " healed "@ + b.monster_name@ + " with "@ + b.enemy_action@
                + " regenerating "@ + signed_decimal(b.enemy_healing as int) + " health!"@ + "\t🎲"@,
        )
        + shown_if(
            b.experience_gained > 0,
            "\n\t"@ + "💠\t"@ + "Gained "@ + decimal(b.experience_gained as nat) + " experience!"@ + "\t💠"@,
        )
        + shown_if(b.critical, " 💥 Critical hit! 💥"@)
        + shown_if(
            b.gold_gained > 0,
            "\n\t"@ + "💰\t"@ + b.player_name@ + " gained "@ + decimal(b.gold_gained as nat) + " gold!"@ + "\t💰"@,
        )
        + shown_if(b.leveled_up, "\n\t"@ + "🎉\t"@ + "Leveled up!"@ + "\t🎉"@)
        + shown_if(b.traits_available > 0, "\n\t"@ + "⭐\t"@ + "Trait available!"@ + "\t⭐"@)
        + gained_items_text(b.item_gained@)
        + "\n🗡️\n"@
}

impl BattleInfo {
    /// The report of a round about to start: the character's skill, name and waiting traits,
    /// the enemy's kind, health and level, what the next level needs, and nothing done yet.
    pub fn begin(character: &Character, enemy: &Enemy, next_level: u32) -> (r: BattleInfo)
        ensures
            r.action == character.current_skill.skill,
            r.enemy_action@ == Seq::<char>::empty(),
            r.damage_dealt == 0 && r.damage_taken == 0,
            r.player_healing == 0 && r.enemy_healing == 0,
            r.player_name@ == character.name@,
            r.monster_name@ == enemy.kind.label(),
            !r.player_killed && !r.enemy_killed && !r.critical && !r.leveled_up,
            r.monster_hp == enemy.health,
            r.traits_available == character.available_traits,
            r.next_level == next_level,
            r.experience_gained == 0 && r.skill_experience_gained == 0,
            r.gold_gained == 0,
            r.item_gained@ == Seq::<ItemsWeHave>::empty(),
            r.number_of_player_attacks == 0 && r.number_of_enemy_attacks == 0,
            r.enemy_level == enemy.level,
    {
        BattleInfo {
            action: character.current_skill.skill(),
            enemy_action: String::new(),
            damage_dealt: 0,
            damage_taken: 0,
            player_healing: 0,
            enemy_healing: 0,
            player_name: character.name.clone(),
            monster_name: enemy.kind.to_string(),
            player_killed: false,
            enemy_killed: false,
            critical: false,
            leveled_up: false,
            monster_hp: enemy.health,
            traits_available: character.available_traits,
            next_level,
            experience_gained: 0,
            skill_experience_gained: 0,
            gold_gained: 0,
            item_gained: Vec::new(),
            number_of_player_attacks: 0,
            number_of_enemy_attacks: 0,
            enemy_level: enemy.level,
        }
    }

    /// The text that reports the round.
    pub fn to_string(&self) -> (r: String)
        ensures
            r@ == battle_text(*self),
    {
        let mut string = "\n🗡️".to_owned();
        string.append("\n\t");
        string.append("🎲\t");
        string.append(self.player_name.as_str());
        string.append(" attacked the ");
        string.append(self.monster_name.as_str());
        string.append(" with ");
        string.append(self.action.to_string().as_str());
        string.append(" dealing ");
        string.append(signed_text(self.damage_dealt as i64).as_str());
        string.append(" damage!");
        string.append("\t🎲");
        string.append("\n\t");
        let mut average = String::new();
        if self.number_of_player_attacks > 0 {
            let per_hit: i64 = if self.damage_dealt >= 0 {
                (self.damage_dealt / self.number_of_player_attacks) as i64
            } else {
                0 - ((0 - self.damage_dealt as i64) / self.number_of_player_attacks as i64)
            };
            average.append("🎲\t");
            average.append("Average damage per hit");
            average.append(" is ");
            average.append(signed_text(per_hit).as_str());
            average.append("\t🎲");
            average.append("\n\t");
        }
        string.append(average.as_str());
        string.append("🪨\t");
        string.append("Next level in ");
        string.append(unsigned_text(self.next_level as u64).as_str());
        string.append(" experience!");
        string.append("\t🪨");
        let mut attacked = String::new();
        if self.damage_taken > 0 {
            attacked.append("\n\t");
            attacked.append("🎲\t");
            attacked.append(self.monster_name.as_str());
            attacked.append(" attacked ");
            attacked.append(self.player_name.as_str());
            attacked.append(" with ");
            attacked.append(self.enemy_action.as_str());
            attacked.append(" dealing ");
            attacked.append(signed_text(self.damage_taken as i64).as_str());
            attacked.append(" damage!");
            attacked.append("\t🎲");
        }
        string.append(attacked.as_str());
        let mut healed = String::new();
        if self.enemy_healing > 0 {
            healed.append("\n\t");
            healed.append("🎲\t");
            healed.append(self.monster_name.as_str());
            healed.append(" healed ");
            healed.append(self.monster_name.as_str());
            healed.append(" with ");
            healed.append(self.enemy_action.as_str());
            healed.append(" regenerating ");
            healed.append(signed_text(self.enemy_healing as i64).as_str());
            healed.append(" health!");
            healed.append("\t🎲");
        }
        string.append(healed.as_str());
        let mut gained = String::new();
        if self.experience_gained > 0 {
            gained.append("\n\t");
            gained.append("💠\t");
            gained.append("Gained ");
            gained.append(unsigned_text(self.experience_gained as u64).as_str());
            gained.append(" experience!");
            gained.append("\t💠");
        }
        string.append(gained.as_str());
        if self.critical {
            string.append(" 💥 Critical hit! 💥");
        }
        let mut gold = String::new();
        if self.gold_gained > 0 {
            gold.append("\n\t");
            gold.append("💰\t");
            gold.append(self.player_name.as_str());
            gold.append(" gained ");
            gold.append(unsigned_text(self.gold_gained).as_str());
            gold.append(" gold!");
            gold.append("\t💰");
        }
        string.append(gold.as_str());
        let mut leveled = String::new();
        if self.leveled_up {
            leveled.append("\n\t");
            leveled.append("🎉\t");
            leveled.append("Leveled up!");
            leveled.append("\t🎉");
        }
        string.append(leveled.as_str());
        let mut available = String::new();
        if self.traits_available > 0 {
            available.append("\n\t");
            available.append("⭐\t");
            available.append("Trait available!");
            available.append("\t⭐");
        }
        string.append(available.as_str());
        let mut items = String::new();
        let mut i: usize = 0;
        while i < self.item_gained.len()
            invariant
                i <= self.item_gained@.len(),
                items@ == gained_items_text(self.item_gained@.take(i as int)),
            decreases self.item_gained@.len() - i,
        {
            proof {
                assert(self.item_gained@.take(i + 1).drop_last() =~= self.item_gained@.take(i as int));
            }
            items.append("\n\t🎁\t Item gained: ");
            items.append(self.item_gained[i].generate().name.as_str());
            items.append("\t🎁");
            i = i + 1;
        }
        proof {
            assert(self.item_gained@.take(i as int) =~= self.item_gained@);
        }
        string.append(items.as_str());
        string.append("\n🗡️\n");
        string
    }
}


/// The skill experience one strike on `e` gives: a tenth of the enemy's experience, at least
/// one.
pub open spec fn strike_experience(e: Enemy) -> u32 {
    if e.experience / 10 >= 1 {
        e.experience / 10
    } else {
        1
    }
}

/// The damage of strikes, added up.
pub open spec fn strikes_total(hits: Seq<u32>) -> int
    decreases hits.len(),
{
    if hits.len() == 0 {
        0
    } else {
        strikes_total(hits.drop_last()) + hits.last()
    }
}

/// `after` is the round `before` once the character `c` struck the enemy `e` with the
/// strikes `hits`: one strike per action point, stopping once the damage of the round is
/// more than the enemy's health. Each strike counts as an attack and brings the skill its
/// experience; a killing round also gains the enemy's items and gold, twice its experience,
/// the traits the character has waiting, and is marked with `player_killed`.
pub open spec fn attacked(c: Character, e: Enemy, before: BattleInfo, after: BattleInfo, hits: Seq<u32>) -> bool {
    let ap = action_points_of(c);
    let dealt = before.damage_dealt + strikes_total(hits);
    let counted = BattleInfo {
        damage_dealt: dealt as i32,
        number_of_player_attacks: (before.number_of_player_attacks + hits.len()) as i32,
        skill_experience_gained: (before.skill_experience_gained + hits.len() * strike_experience(e)) as u32,
        monster_hp: if hits.len() > 0 { e.health } else { before.monster_hp },
        ..before
    };
    &&& hits.len() <= ap
    &&& hits.len() >= 1
    &&& hits.len() < ap ==> dealt > e.health
    &&& forall|k: int| 1 <= k < hits.len() ==> before.damage_dealt + strikes_total(#[trigger] hits.take(k)) <= e.health
    &&& if dealt > e.health {
        &&& after.item_gained@ == before.item_gained@ + e.items@
        &&& after == (BattleInfo {
            item_gained: after.item_gained,
            player_killed: true,
            gold_gained: (before.gold_gained + e.gold) as u64,
            experience_gained: (2 * e.experience) as u32,
            traits_available: c.available_traits,
            ..counted
        })
    } else {
        after == counted
    }
}

impl Character {
    /// The character's part of a battle round against `enemy`, `strike()` giving the damage
    /// of one strike after the enemy's defense (see `attacked`, which holds for the strikes
    /// made).
    pub fn player_attack(&self, enemy: &Enemy, battle_info: &mut BattleInfo, strike: impl Fn() -> u32)
        requires
            character_wf(*self),
            strike.requires(()),
            forall|r: u32| strike.ensures((), r) ==> r <= i32::MAX && old(battle_info).damage_dealt
                + action_points_of(*self) * r <= i32::MAX,
            old(battle_info).number_of_player_attacks + action_points_of(*self) <= i32::MAX,
            old(battle_info).skill_experience_gained + action_points_of(*self) * strike_experience(*enemy) <= u32::MAX,
            old(battle_info).gold_gained + enemy.gold <= u64::MAX,
            2 * enemy.experience <= u32::MAX,
        ensures
            exists|hits: Seq<u32>|
                (forall|i: int| 0 <= i < hits.len() ==> strike.ensures((), #[trigger] hits[i]))
                    && attacked(*self, *enemy, *old(battle_info), *final(battle_info), hits),
    {
        let points = self.action_points();
        let ghost start = battle_info.damage_dealt;
        let ghost ap = points as int;
        let ghost mut hits: Seq<u32> = Seq::empty();
        let ghost before = *battle_info;
        let mut n: u32 = 0;
        assert(ap >= 1) by {
            crate::items::lemma_worn_actions_bound(self.equipment);
        }
        while n < points
            invariant_except_break
                n > 0 ==> start + strikes_total(hits) <= enemy.health,
            invariant
                ap == points as int,
                ap == action_points_of(*self),
                ap >= 1,
                n <= points,
                hits.len() == n,
                strike.requires(()),
                forall|r: u32| strike.ensures((), r) ==> r <= i32::MAX && start + ap * r <= i32::MAX,
                forall|i: int| 0 <= i < hits.len() ==> strike.ensures((), #[trigger] hits[i]),
                forall|k: int| 1 <= k < hits.len() ==> start + strikes_total(#[trigger] hits.take(k)) <= enemy.health,
                start == before.damage_dealt,
                ap * (battle_info.damage_dealt - start) <= n * (i32::MAX - start),
                battle_info.damage_dealt == start + strikes_total(hits),
                before.number_of_player_attacks + ap <= i32::MAX,
                before.skill_experience_gained + ap * strike_experience(*enemy) <= u32::MAX,
                *battle_info == (BattleInfo {
                    damage_dealt: (start + strikes_total(hits)) as i32,
                    number_of_player_attacks: (before.number_of_player_attacks + n) as i32,
                    skill_experience_gained: (before.skill_experience_gained + n * strike_experience(*enemy)) as u32,
                    monster_hp: if n > 0 { enemy.health } else { before.monster_hp },
                    ..before
                }),
            ensures
                n == points || battle_info.damage_dealt > enemy.health,
                n >= 1,
            decreases points - n,
        {
            battle_info.number_of_player_attacks = battle_info.number_of_player_attacks + 1;
            let damage = strike();
            proof {
                let d = battle_info.damage_dealt - start;
                assert(ap * damage <= i32::MAX - start);
                assert(ap * (d + damage) <= (n + 1) * (i32::MAX - start)) by (nonlinear_arith)
                    requires
                        ap * d <= n * (i32::MAX - start),
                        ap * damage <= i32::MAX - start,
                ;
                assert(d + damage <= i32::MAX - start) by (nonlinear_arith)
                    requires
                        ap * (d + damage) <= (n + 1) * (i32::MAX - start),
                        n + 1 <= ap,
                        ap >= 1,
                        i32::MAX - start >= 0,
                ;
                assert(n * strike_experience(*enemy) + strike_experience(*enemy) <= ap * strike_experience(*enemy)) by (nonlinear_arith)
                    requires
                        n + 1 <= ap,
                ;
                assert((n + 1) * strike_experience(*enemy) == n * strike_experience(*enemy) + strike_experience(*enemy)) by (nonlinear_arith);
            }
            battle_info.damage_dealt = battle_info.damage_dealt + damage as i32;
            battle_info.monster_hp = enemy.health;
            let gained = if enemy.experience / 10 > 1 { enemy.experience / 10 } else { 1 };
            battle_info.skill_experience_gained = battle_info.skill_experience_gained + gained;
            proof {
                let h2 = hits.push(damage);
                assert(h2.drop_last() =~= hits);
                assert forall|k: int| 1 <= k <= h2.len() - 1 implies #[trigger] h2.take(k) == hits.take(k) by {
                    assert(h2.take(k) =~= hits.take(k));
                }
                assert(hits.take(hits.len() as int) =~= hits);
                hits = h2;
            }
            n = n + 1;
            if battle_info.damage_dealt > enemy.health {
                break;
            }
        }
        if battle_info.damage_dealt > enemy.health {
            let mut gained_items = enemy.items.clone();
            let ghost items_before = battle_info.item_gained@;
            battle_info.item_gained.append(&mut gained_items);
            battle_info.player_killed = true;
            battle_info.gold_gained = battle_info.gold_gained + enemy.gold;
            battle_info.experience_gained = enemy.experience;
            battle_info.experience_gained = battle_info.experience_gained + enemy.experience;
            battle_info.traits_available = self.available_traits;
            assert(battle_info.item_gained@ =~= before.item_gained@ + enemy.items@);
        }
        assert(hits.len() >= 1);
        assert(hits.len() < ap ==> before.damage_dealt + strikes_total(hits) > enemy.health);
        assert(attacked(*self, *enemy, before, *battle_info, hits));
    }
}


/// `kept` is what `through` lets through of one roll of the optional set of dice `s`: what
/// it gave for some roll of the set, or nothing where there is no set.
pub open spec fn let_through<F: Fn(u32) -> u32>(s: Option<Seq<DieObject>>, through: F, kept: u32) -> bool {
    match s {
        Some(x) => exists|roll: u32| roll <= dice_max(x) && #[trigger] through.ensures((roll,), kept),
        None => kept == 0,
    }
}

/// The enemy's healing of a round once it healed by `heal` more.
pub open spec fn healed_by(before: BattleInfo, heal: u32) -> i32 {
    (before.enemy_healing + heal) as i32
}

/// `after` is `before` once the enemy `e` used the action `m` with the dice `d` on the
/// character. A healing action heals the enemy by one roll of its magical dice. Any other
/// action is dodged when `dodge` says so, and nothing changes; else it adds to the damage
/// taken what `physical` and `magical` let through of one roll of each of its sets of dice.
/// Short of a dodge, the round names the action and the enemy.
pub open spec fn countered<D: Fn() -> bool, P: Fn(u32) -> u32, M: Fn(u32) -> u32>(
    e: Enemy,
    d: ActionDice,
    m: MobAction,
    before: BattleInfo,
    after: BattleInfo,
    dodge: D,
    physical: P,
    magical: M,
) -> bool {
    let named = after.enemy_action@ == m.label() && after.monster_name@ == e.kind.label();
    if m.element_of() == Some(DamageType::Healing) {
        &&& named
        &&& exists|heal: u32|
            heal <= set_max(dice_pair(d).1) && after == (BattleInfo {
                enemy_healing: #[trigger] healed_by(before, heal),
                enemy_action: after.enemy_action,
                monster_name: after.monster_name,
                ..before
            })
    } else {
        exists|dodged: bool|
            #[trigger] dodge.ensures((), dodged) && if dodged {
                after == before
            } else {
                &&& named
                &&& exists|kp: u32, km: u32|
                    let_through(dice_pair(d).0, physical, kp) && let_through(dice_pair(d).1, magical, km)
                        && after == (BattleInfo {
                        damage_taken: (before.damage_taken + kp + km) as i32,
                        enemy_action: after.enemy_action,
                        monster_name: after.monster_name,
                        ..before
                    })
            }
    }
}

/// What one roll of an optional set of dice lets through, with the roll.
fn roll_through(s: &Option<Dice>, through: &impl Fn(u32) -> u32) -> (r: u32)
    requires
        set_max(dice_of(*s)) <= u32::MAX,
        forall|v: u32| through.requires((v,)),
        forall|v: u32, k: u32| through.ensures((v,), k) ==> k <= v,
    ensures
        let_through(dice_of(*s), *through, r),
        r <= set_max(dice_of(*s)),
{
    match s {
        Some(dice) => {
            let roll = dice.roll();
            let kept = through(roll);
            assert(let_through(dice_of(*s), *through, kept));
            kept
        },
        None => 0,
    }
}

/// The enemy's part of a battle round, once it chose the action `mob_action` with the dice
/// `action` (see `countered`): `dodge()` says whether the character dodges, `physical` and
/// `magical` give the part of a roll that the character's defense lets through.
pub fn enemy_turn(
    enemy: &Enemy,
    battle_info: &mut BattleInfo,
    action: ActionDice,
    mob_action: MobAction,
    dodge: impl Fn() -> bool,
    physical: impl Fn(u32) -> u32,
    magical: impl Fn(u32) -> u32,
)
    requires
        set_max(dice_pair(action).0) <= u32::MAX,
        set_max(dice_pair(action).1) <= u32::MAX,
        mob_action.element_of() == Some(DamageType::Healing) ==> action.magical is Some
            && old(battle_info).enemy_healing + set_max(dice_pair(action).1) <= i32::MAX,
        old(battle_info).damage_taken + set_max(dice_pair(action).0) + set_max(dice_pair(action).1) <= i32::MAX,
        dodge.requires(()),
        forall|v: u32| physical.requires((v,)),
        forall|v: u32| magical.requires((v,)),
        forall|v: u32, k: u32| physical.ensures((v,), k) ==> k <= v,
        forall|v: u32, k: u32| magical.ensures((v,), k) ==> k <= v,
    ensures
        countered(*enemy, action, mob_action, *old(battle_info), *final(battle_info), dodge, physical, magical),
{
    let healing = match mob_action.element() {
        Some(DamageType::Healing) => true,
        _ => false,
    };
    if healing {
        let heal: u32 = match &action.magical {
            Some(dice) => dice.roll(),
            None => 0,
        };
        battle_info.enemy_healing = (battle_info.enemy_healing as i64 + heal as i64) as i32;
        battle_info.enemy_action = mob_action.to_string();
        battle_info.monster_name = enemy.kind.to_string();
        assert(battle_info.enemy_healing == healed_by(*old(battle_info), heal));
        return;
    }
    let dodged = dodge();
    if dodged {
        return;
    }
    let kept_physical = roll_through(&action.physical, &physical);
    let kept_magical = roll_through(&action.magical, &magical);
    battle_info.damage_taken = (battle_info.damage_taken as i64 + kept_physical as i64 + kept_magical as i64) as i32;
    battle_info.enemy_action = mob_action.to_string();
    battle_info.monster_name = enemy.kind.to_string();
}

impl Character {
    /// The enemy's part of a battle round against the character: the enemy chooses one of
    /// its actions (see `Enemy::action`, with `scale`) and uses it (see `enemy_turn`).
    pub fn enemy_attack(
        &self,
        enemy: &Enemy,
        battle_info: &mut BattleInfo,
        scale: impl Fn(u32) -> u32,
        dodge: impl Fn() -> bool,
        physical: impl Fn(u32) -> u32,
        magical: impl Fn(u32) -> u32,
    )
        requires
            enemy.actions@.len() > 0,
            forall|v: u32| #[trigger] scale.requires((v,)),
            forall|v: u32, r: u32| scale.ensures((v,), r) ==> r <= 10000,
            old(battle_info).enemy_healing + 26 * 40020 <= i32::MAX,
            old(battle_info).damage_taken + 2 * 26 * 40020 <= i32::MAX,
            dodge.requires(()),
            forall|v: u32| physical.requires((v,)),
            forall|v: u32| magical.requires((v,)),
            forall|v: u32, k: u32| physical.ensures((v,), k) ==> k <= v,
            forall|v: u32, k: u32| magical.ensures((v,), k) ==> k <= v,
        ensures
            exists|d: ActionDice, m: MobAction|
                enemy.actions@.contains(m) && acted(m, *enemy, scale, d) && countered(
                    *enemy,
                    d,
                    m,
                    *old(battle_info),
                    *final(battle_info),
                    dodge,
                    physical,
                    magical,
                ),
    {
        let (action, mob_action) = enemy.action(scale);
        proof {
            lemma_acted_small(mob_action, *enemy, scale, action, 10000);
        }
        enemy_turn(enemy, battle_info, action, mob_action, dodge, physical, magical);
    }
}


/// Whether `hits` are the strikes of a round of the terminal game by `c` on an enemy of
/// health `health`: at least one, one per action point at most, stopping at the first
/// that brings the enemy's health to zero or below.
pub open spec fn round_struck(c: Character, health: int, hits: Seq<u32>) -> bool {
    &&& 1 <= hits.len() <= action_points_of(c)
    &&& hits.len() < action_points_of(c) ==> health - strikes_total(hits) <= 0
    &&& forall|k: int| 1 <= k < hits.len() ==> health - strikes_total(#[trigger] hits.take(k)) > 0
}

impl Character {
    /// The character's strikes of a round of the terminal game on `enemy`, `strike()` giving
    /// the damage of one: one per action point, stopping once the enemy's health is zero or
    /// below, when it dies. Each strike takes its damage from the enemy's health and brings
    /// the current skill its experience (see `strike_experience`). Returns the damage done.
    pub fn strike_round(&mut self, enemy: &mut Enemy, strike: impl Fn() -> u32) -> (r: i32)
        requires
            character_wf(*old(self)),
            strike.requires(()),
            forall|x: u32| strike.ensures((), x) ==> action_points_of(*old(self)) * x <= i32::MAX
                && old(enemy).health - action_points_of(*old(self)) * x >= i32::MIN,
            old(self).current_skill.experience + action_points_of(*old(self)) * strike_experience(*old(enemy))
                <= u64::MAX,
        ensures
            exists|hits: Seq<u32>|
                {
                    &&& forall|i: int| 0 <= i < hits.len() ==> strike.ensures((), #[trigger] hits[i])
                    &&& round_struck(*old(self), old(enemy).health as int, hits)
                    &&& r == strikes_total(hits)
                    &&& *final(enemy) == (Enemy {
                        health: (old(enemy).health - r) as i32,
                        state: if old(enemy).health - r <= 0 { EnemyState::Dead } else { old(enemy).state },
                        ..*old(enemy)
                    })
                    &&& *final(self) == (Character {
                        current_skill: SkillSet {
                            experience: (old(self).current_skill.experience + hits.len() * strike_experience(
                                *old(enemy),
                            )) as u64,
                            ..old(self).current_skill
                        },
                        ..*old(self)
                    })
                },
    {
        let points = self.action_points();
        let ghost ap = points as int;
        let ghost e0 = *enemy;
        let ghost c0 = *self;
        let ghost bound: int = if i32::MAX < e0.health - i32::MIN { i32::MAX as int } else { e0.health - i32::MIN };
        let ghost mut hits: Seq<u32> = Seq::empty();
        let gained: u64 = if enemy.experience / 10 > 1 { (enemy.experience / 10) as u64 } else { 1 };
        let mut total: i32 = 0;
        let mut n: u32 = 0;
        assert(ap >= 1) by {
            crate::items::lemma_worn_actions_bound(self.equipment);
        }
        while n < points
            invariant_except_break
                n > 0 ==> e0.health - strikes_total(hits) > 0,
                *enemy == (Enemy { health: (e0.health - total) as i32, ..e0 }),
            invariant
                ap == points as int,
                ap == action_points_of(c0),
                ap >= 1,
                n <= points,
                hits.len() == n,
                strike.requires(()),
                forall|x: u32| strike.ensures((), x) ==> ap * x <= bound,
                bound <= i32::MAX && bound <= e0.health - i32::MIN && bound >= 0,
                forall|i: int| 0 <= i < hits.len() ==> strike.ensures((), #[trigger] hits[i]),
                forall|k: int| 1 <= k < hits.len() ==> e0.health - strikes_total(#[trigger] hits.take(k)) > 0,
                ap * total <= n * bound,
                total == strikes_total(hits),
                total >= 0,
                gained == strike_experience(e0),
                c0.current_skill.experience + ap * strike_experience(e0) <= u64::MAX,
                *self == (Character {
                    current_skill: SkillSet {
                        experience: (c0.current_skill.experience + n * strike_experience(e0)) as u64,
                        ..c0.current_skill
                    },
                    ..c0
                }),
            ensures
                hits.len() >= 1,
                n == points || e0.health - strikes_total(hits) <= 0,
                total == strikes_total(hits),
                *enemy == (Enemy {
                    health: (e0.health - total) as i32,
                    state: if e0.health - total <= 0 { EnemyState::Dead } else { e0.state },
                    ..e0
                }),
                *self == (Character {
                    current_skill: SkillSet {
                        experience: (c0.current_skill.experience + hits.len() * strike_experience(e0)) as u64,
                        ..c0.current_skill
                    },
                    ..c0
                }),
                forall|i: int| 0 <= i < hits.len() ==> strike.ensures((), #[trigger] hits[i]),
                forall|k: int| 1 <= k < hits.len() ==> e0.health - strikes_total(#[trigger] hits.take(k)) > 0,
            decreases points - n,
        {
            let damage = strike();
            proof {
                assert(ap * damage <= bound);
                assert(ap * (total + damage) <= (n + 1) * bound) by (nonlinear_arith)
                    requires
                        ap * total <= n * bound,
                        ap * damage <= bound,
                ;
                assert(total + damage <= bound) by (nonlinear_arith)
                    requires
                        ap * (total + damage) <= (n + 1) * bound,
                        n + 1 <= ap,
                        ap >= 1,
                        bound >= 0,
                ;
                assert(n * strike_experience(e0) + strike_experience(e0) <= ap * strike_experience(e0)) by (nonlinear_arith)
                    requires
                        n + 1 <= ap,
                ;
                assert((n + 1) * strike_experience(e0) == n * strike_experience(e0) + strike_experience(e0)) by (nonlinear_arith);
            }
            enemy.health = enemy.health - damage as i32;
            total = total + damage as i32;
            self.current_skill.experience = self.current_skill.experience + gained;
            proof {
                let h2 = hits.push(damage);
                assert(h2.drop_last() =~= hits);
                assert forall|k: int| 1 <= k <= h2.len() - 1 implies #[trigger] h2.take(k) == hits.take(k) by {
                    assert(h2.take(k) =~= hits.take(k));
                }
                assert(hits.take(hits.len() as int) =~= hits);
                hits = h2;
            }
            n = n + 1;
            if enemy.health <= 0 {
                enemy.state = EnemyState::Dead;
                break;
            }
        }
        total
    }
}

} // verus!
