use vstd::prelude::*;
use crate::random::{random_below, random_range, weight_sum, weighted_index};
use crate::constructed::ItemsWeHave;
use crate::dice::{fresh_dice, Dice};
use crate::units::{attributes_with, mob_attributes, Attributes};
use crate::scaling::{is_floor_sqrt, sub_linear_scaling};
use crate::skills::MobAction;
use crate::units::{Alignment, DamageType};

verus! {

/// Whether an enemy still fights.
#[derive(Debug, Clone, Copy, PartialEq, Eq, Structural)]
pub enum EnemyState {
    Dead,
    Alive,
}

/// How strong a mob is; the weaker the grade, the larger its number.
#[derive(Debug, Clone, Copy, PartialEq, Eq, Hash, Structural)]
pub enum MobGrade {
    Weak,
    Normal,
    Strong,
    Boss,
}

impl MobGrade {
    /// The number of a grade: ten for weak, five for normal, three for strong, one for a boss.
    pub open spec fn number(self) -> u32 {
        match self {
            MobGrade::Weak => 10,
            MobGrade::Normal => 5,
            MobGrade::Strong => 3,
            MobGrade::Boss => 1,
        }
    }

    pub fn value(&self) -> (r: u32)
        ensures
            r == self.number(),
    {
        match self {
            MobGrade::Weak => 10,
            MobGrade::Normal => 5,
            MobGrade::Strong => 3,
            MobGrade::Boss => 1,
        }
    }
}

/// The kinds of mobs.
#[derive(Debug, Clone, Copy, PartialEq, Eq, Hash, Structural)]
pub enum Mob {
    Orc,
    Elf,
    Drow,
    KingSlime,
    Goblin,
    NeuronThief,
    Bomb,
    Lich,
    Troll,
}

/// What every mob kind is: its grade, actions, alignment and weakness.
pub trait EnemyEvents {
    fn grade(&self) -> MobGrade;

    fn actions(&self) -> Vec<MobAction>;

    fn alignment(&self) -> Alignment;

    fn vulnerability(&self) -> Option<DamageType>;
}

/// All mob kinds, in declaration order.
pub open spec fn all_mobs() -> Seq<Mob> {
    seq![Mob::Orc, Mob::Elf, Mob::Drow, Mob::KingSlime, Mob::Goblin, Mob::NeuronThief, Mob::Bomb, Mob::Lich, Mob::Troll]
}

/// Ten divided by a grade number.
proof fn lemma_grade_quotient(g: u32)
    requires
        g == 10 || g == 5 || g == 3 || g == 1,
    ensures
        10u32 / g == (if g == 10 {
            1u32
        } else if g == 5 {
            2u32
        } else if g == 3 {
            3u32
        } else {
            10u32
        }),
{
    assert(10u32 / g == (if g == 10 {
        1u32
    } else if g == 5 {
        2u32
    } else if g == 3 {
        3u32
    } else {
        10u32
    })) by (nonlinear_arith)
        requires
            g == 10 || g == 5 || g == 3 || g == 1,
    ;
}

impl Mob {
    /// How a mob is shown to players.
    pub open spec fn label(self) -> Seq<char> {
        match self {
            Mob::Orc => "🧌 Orc 🧌"@,
            Mob::Elf => "🧝 Elf 🧝"@,
            Mob::Drow => "🧟 Drow 🧟"@,
            Mob::KingSlime => "👑 King Slime 👑"@,
            Mob::Goblin => "👹 Goblin 👹"@,
            Mob::NeuronThief => "🤯 Neuron Thief 🤯"@,
            Mob::Bomb => "💣 Bomb 💣"@,
            Mob::Lich => "💀 Lich 💀"@,
            Mob::Troll => "🧟 Troll 🧟"@,
        }
    }

    /// The text that shows this value to players.
    pub fn to_string(&self) -> (r: String)
        ensures
            r@ == self.label(),
    {
        match self {
            Mob::Orc => "🧌 Orc 🧌".to_owned(),
            Mob::Elf => "🧝 Elf 🧝".to_owned(),
            Mob::Drow => "🧟 Drow 🧟".to_owned(),
            Mob::KingSlime => "👑 King Slime 👑".to_owned(),
            Mob::Goblin => "👹 Goblin 👹".to_owned(),
            Mob::NeuronThief => "🤯 Neuron Thief 🤯".to_owned(),
            Mob::Bomb => "💣 Bomb 💣".to_owned(),
            Mob::Lich => "💀 Lich 💀".to_owned(),
            Mob::Troll => "🧟 Troll 🧟".to_owned(),
        }
    }

    /// The grade of a mob kind.
    pub open spec fn grade_of(self) -> MobGrade {
        match self {
            Mob::Orc => MobGrade::Weak,
            Mob::Elf => MobGrade::Normal,
            Mob::Drow => MobGrade::Strong,
            Mob::KingSlime => MobGrade::Boss,
            Mob::Goblin => MobGrade::Weak,
            Mob::NeuronThief => MobGrade::Strong,
            Mob::Bomb => MobGrade::Boss,
            Mob::Lich => MobGrade::Boss,
            Mob::Troll => MobGrade::Strong,
        }
    }

    /// The actions a mob kind chooses from.
    pub open spec fn actions_of(self) -> Seq<MobAction> {
        match self {
            Mob::Orc => seq![MobAction::Bite, MobAction::Stab],
            Mob::Elf => seq![MobAction::FireBall],
            Mob::Drow => seq![MobAction::Glare, MobAction::FireBall],
            Mob::KingSlime => seq![MobAction::Crush, MobAction::SlimeAbsorb],
            Mob::Goblin => seq![MobAction::Bite],
            Mob::NeuronThief => seq![MobAction::MindBreak, MobAction::Glare],
            Mob::Bomb => seq![MobAction::Explode],
            Mob::Lich => seq![MobAction::NecroticBlast, MobAction::SummonUndead],
            Mob::Troll => seq![MobAction::Smash, MobAction::Regenerate],
        }
    }

    /// The alignment of a mob kind.
    pub open spec fn alignment_of(self) -> Alignment {
        match self {
            Mob::Orc => Alignment::TrueNeutral,
            Mob::Elf => Alignment::LawfulGood,
            Mob::Drow => Alignment::TrueNeutral,
            Mob::KingSlime => Alignment::TrueNeutral,
            Mob::Goblin => Alignment::ChaoticEvil,
            Mob::NeuronThief => Alignment::ChaoticNeutral,
            Mob::Bomb => Alignment::ChaoticEvil,
            Mob::Lich => Alignment::LawfulEvil,
            Mob::Troll => Alignment::ChaoticEvil,
        }
    }

    /// The damage type a mob kind is weak to.
    pub open spec fn vulnerability_of(self) -> Option<DamageType> {
        match self {
            Mob::Orc => Some(DamageType::Fire),
            Mob::Elf => Some(DamageType::Iron),
            Mob::Drow => Some(DamageType::Holy),
            Mob::KingSlime => Some(DamageType::Despair),
            Mob::Goblin => Some(DamageType::Fire),
            Mob::NeuronThief => Some(DamageType::Existential),
            Mob::Bomb => Some(DamageType::Holy),
            Mob::Lich => Some(DamageType::Holy),
            Mob::Troll => Some(DamageType::Fire),
        }
    }

    pub fn grade(&self) -> (r: MobGrade)
        ensures
            r == self.grade_of(),
    {
        match self {
            Mob::Orc => MobGrade::Weak,
            Mob::Elf => MobGrade::Normal,
            Mob::Drow => MobGrade::Strong,
            Mob::KingSlime => MobGrade::Boss,
            Mob::Goblin => MobGrade::Weak,
            Mob::NeuronThief => MobGrade::Strong,
            Mob::Bomb => MobGrade::Boss,
            Mob::Lich => MobGrade::Boss,
            Mob::Troll => MobGrade::Strong,
        }
    }

    pub fn actions(&self) -> (r: Vec<MobAction>)
        ensures
            r@ == self.actions_of(),
    {
        match self {
            Mob::Orc => vec![MobAction::Bite, MobAction::Stab],
            Mob::Elf => vec![MobAction::FireBall],
            Mob::Drow => vec![MobAction::Glare, MobAction::FireBall],
            Mob::KingSlime => vec![MobAction::Crush, MobAction::SlimeAbsorb],
            Mob::Goblin => vec![MobAction::Bite],
            Mob::NeuronThief => vec![MobAction::MindBreak, MobAction::Glare],
            Mob::Bomb => vec![MobAction::Explode],
            Mob::Lich => vec![MobAction::NecroticBlast, MobAction::SummonUndead],
            Mob::Troll => vec![MobAction::Smash, MobAction::Regenerate],
        }
    }

    pub fn alignment(&self) -> (r: Alignment)
        ensures
            r == self.alignment_of(),
    {
        match self {
            Mob::Orc => Alignment::TrueNeutral,
            Mob::Elf => Alignment::LawfulGood,
            Mob::Drow => Alignment::TrueNeutral,
            Mob::KingSlime => Alignment::TrueNeutral,
            Mob::Goblin => Alignment::ChaoticEvil,
            Mob::NeuronThief => Alignment::ChaoticNeutral,
            Mob::Bomb => Alignment::ChaoticEvil,
            Mob::Lich => Alignment::LawfulEvil,
            Mob::Troll => Alignment::ChaoticEvil,
        }
    }

    pub fn vulnerability(&self) -> (r: Option<DamageType>)
        ensures
            r == self.vulnerability_of(),
    {
        match self {
            Mob::Orc => Some(DamageType::Fire),
            Mob::Elf => Some(DamageType::Iron),
            Mob::Drow => Some(DamageType::Holy),
            Mob::KingSlime => Some(DamageType::Despair),
            Mob::Goblin => Some(DamageType::Fire),
            Mob::NeuronThief => Some(DamageType::Existential),
            Mob::Bomb => Some(DamageType::Holy),
            Mob::Lich => Some(DamageType::Holy),
            Mob::Troll => Some(DamageType::Fire),
        }
    }

    /// The chance weight of a mob kind: the largest grade number (ten) divided by the mob's
    /// grade number.
    pub open spec fn spawn_weight(self) -> u32 {
        match self.grade_of() {
            MobGrade::Weak => 1,
            MobGrade::Normal => 2,
            MobGrade::Strong => 3,
            MobGrade::Boss => 10,
        }
    }

    /// The chance weights of all mob kinds, in the order of `all_mobs()`.
    pub fn spawn_weights() -> (r: Vec<u32>)
        ensures
            r@.len() == all_mobs().len(),
            forall|i: int| 0 <= i < r@.len() ==> #[trigger] r@[i] == all_mobs()[i].spawn_weight(),
    {
        let mobs = Mob::all();
        let mut maximum: u32 = 0;
        let mut i: usize = 0;
        while i < mobs.len()
            invariant
                i <= mobs@.len(),
                mobs@ == all_mobs(),
                maximum == (if i == 0 { 0u32 } else { 10u32 }),
                forall|j: int| 0 <= j < i ==> #[trigger] mobs@[j].grade_of().number() <= maximum,
            decreases mobs@.len() - i,
        {
            let g = mobs[i].grade().value();
            if g > maximum {
                maximum = g;
            }
            i = i + 1;
            assert(maximum == 10) by {
                assert(all_mobs()[0].grade_of().number() == 10);
            }
        }
        let mut weights: Vec<u32> = Vec::new();
        let mut k: usize = 0;
        while k < mobs.len()
            invariant
                k <= mobs@.len(),
                mobs@ == all_mobs(),
                maximum == 10,
                weights@.len() == k,
                forall|j: int| 0 <= j < k ==> #[trigger] weights@[j] == all_mobs()[j].spawn_weight(),
            decreases mobs@.len() - k,
        {
            let g = mobs[k].grade().value();
            proof {
                lemma_grade_quotient(g);
            }
            weights.push(maximum / g);
            k = k + 1;
        }
        weights
    }

    /// All mob kinds, in declaration order.
    pub fn all() -> (r: Vec<Mob>)
        ensures
            r@ == all_mobs(),
    {
        let r = vec![Mob::Orc, Mob::Elf, Mob::Drow, Mob::KingSlime, Mob::Goblin, Mob::NeuronThief, Mob::Bomb, Mob::Lich, Mob::Troll];
        assert(r@ =~= all_mobs());
        r
    }

    /// A random mob kind, drawn with chance proportional to its spawn weight.
    pub fn random() -> (r: Mob)
        ensures
            all_mobs().contains(r),
            r.spawn_weight() > 0,
    {
        let mobs = Mob::all();
        let weights = Mob::spawn_weights();
        proof {
            let mobs_seq = all_mobs();
            assert(weights@[0] == 1 && weights@[1] == 2 && weights@[2] == 3 && weights@[3] == 10);
            assert(weights@[4] == 1 && weights@[5] == 3 && weights@[6] == 10 && weights@[7] == 10);
            assert(weights@[8] == 3);
            assert(weights@ =~= seq![1u32, 2, 3, 10, 1, 3, 10, 10, 3]);
            reveal_with_fuel(weight_sum, 10);
        }
        let i = weighted_index(&weights);
        mobs[i]
    }

}

impl EnemyEvents for Mob {
    fn grade(&self) -> (r: MobGrade)
        ensures
            r == self.grade_of(),
    {
        Mob::grade(self)
    }

    fn actions(&self) -> (r: Vec<MobAction>)
        ensures
            r@ == self.actions_of(),
    {
        Mob::actions(self)
    }

    fn alignment(&self) -> (r: Alignment)
        ensures
            r == self.alignment_of(),
    {
        Mob::alignment(self)
    }

    fn vulnerability(&self) -> (r: Option<DamageType>)
        ensures
            r == self.vulnerability_of(),
    {
        Mob::vulnerability(self)
    }
}


/// The grade of a roll from 1 to 100: half weak, three in ten normal, fifteen in a hundred
/// strong, the rest bosses.
pub open spec fn grade_for_roll(n: u64) -> MobGrade {
    if 1 <= n <= 50 {
        MobGrade::Weak
    } else if 51 <= n <= 80 {
        MobGrade::Normal
    } else if 81 <= n <= 95 {
        MobGrade::Strong
    } else if 96 <= n <= 100 {
        MobGrade::Boss
    } else {
        MobGrade::Weak
    }
}

impl MobGrade {
    /// The grade of a roll from 1 to 100.
    pub fn for_roll(n: u64) -> (r: MobGrade)
        ensures
            r == grade_for_roll(n),
    {
        if 1 <= n && n <= 50 {
            MobGrade::Weak
        } else if 51 <= n && n <= 80 {
            MobGrade::Normal
        } else if 81 <= n && n <= 95 {
            MobGrade::Strong
        } else if 96 <= n && n <= 100 {
            MobGrade::Boss
        } else {
            MobGrade::Weak
        }
    }

    /// A random grade: a roll from 1 to 100 read by `for_roll`.
    pub fn random() -> (r: MobGrade)
        ensures
            exists|n: u64| 1 <= n <= 100 && r == grade_for_roll(n),
    {
        let n = random_range(1, 101);
        MobGrade::for_roll(n)
    }
}

/// A mob a character fights.
#[derive(Debug, Clone)]
pub struct Enemy {
    pub kind: Mob,
    pub level: u32,
    pub experience: u32,
    pub health: i32,
    pub defense: Dice,
    pub resistance: Dice,
    pub gold: u64,
    pub attributes: Attributes,
    pub items: Vec<ItemsWeHave>,
    pub state: EnemyState,
    pub actions: Vec<MobAction>,
}

impl Enemy {
    /// A random experience for a level: at least the level and below fifty times it.
    pub fn linear_scaling(level: u32) -> (r: u32)
        requires
            0 < level,
            level * 50 <= u32::MAX,
        ensures
            level <= r < level * 50,
    {
        random_range(level as u64, (level * 50) as u64) as u32
    }

    /// Whether the enemy still fights.
    pub fn alive(&self) -> (r: bool)
        ensures
            r == (self.state == EnemyState::Alive),
    {
        match self.state {
            EnemyState::Alive => true,
            EnemyState::Dead => false,
        }
    }

    /// One of the enemy's actions, chosen at random.
    pub fn choose_action(&self) -> (r: MobAction)
        requires
            self.actions@.len() > 0,
        ensures
            self.actions@.contains(r),
    {
        let i = random_below(self.actions.len() as u64) as usize;
        self.actions[i]
    }

    /// The enemy with other actions.
    pub fn set_actions(self, actions: Vec<MobAction>) -> (r: Enemy)
        ensures
            r.actions@ == actions@,
            r.kind == self.kind && r.level == self.level && r.experience == self.experience,
            r.health == self.health && r.gold == self.gold && r.state == self.state,
            r.items@ == self.items@ && r.attributes == self.attributes,
            r.defense.dice@ == self.defense.dice@ && r.resistance.dice@ == self.resistance.dice@,
    {
        let mut e = self;
        e.actions = actions;
        e
    }

    /// The enemy with its experience multiplied.
    pub fn set_experience_multiple(self, multiple: u32) -> (r: Enemy)
        requires
            self.experience * multiple <= u32::MAX,
        ensures
            r.experience == self.experience * multiple,
            r.kind == self.kind && r.level == self.level && r.actions@ == self.actions@,
            r.health == self.health && r.gold == self.gold && r.state == self.state,
            r.items@ == self.items@ && r.attributes == self.attributes,
            r.defense.dice@ == self.defense.dice@ && r.resistance.dice@ == self.resistance.dice@,
    {
        let mut e = self;
        e.experience = e.experience * multiple;
        e
    }

    /// What it costs to queue the enemy: three times its gold.
    pub fn cost(&self) -> (r: u64)
        requires
            self.gold * 3 <= u64::MAX,
        ensures
            r == self.gold * 3,
    {
        self.gold * 3
    }
}

/// `e` is a fresh enemy of kind `mob` at `level`: its experience is at least `level * x` and
/// below fifty times that, it has `dice` fresh d8 for defense and as many for resistance,
/// the whole square root of `level * g` in gold, the given attributes, health and items, and
/// the kind's actions, and it is alive.
pub open spec fn made_enemy(
    e: Enemy,
    mob: Mob,
    level: u32,
    x: u32,
    dice: nat,
    g: u32,
    attributes: Attributes,
    health: u32,
    items: Seq<ItemsWeHave>,
) -> bool {
    &&& e.kind == mob
    &&& e.level == level
    &&& level * x <= e.experience < level * x * 50
    &&& e.health == health as i32
    &&& e.defense.dice@ == fresh_dice(crate::dice::Die::D8, dice)
    &&& e.resistance.dice@ == fresh_dice(crate::dice::Die::D8, dice)
    &&& is_floor_sqrt((level * g) as nat, e.gold as nat)
    &&& e.attributes == attributes
    &&& e.items@ == items
    &&& e.state == EnemyState::Alive
    &&& e.actions@ == mob.actions_of()
}

impl Enemy {
    /// An enemy of a kind and grade; `x` scales its experience, `dice` its defense, `g` its
    /// gold.
    fn make(mob: Mob, level: u32, x: u32, dice: usize, g: u32, attributes: Attributes, health: u32, items: Vec<ItemsWeHave>) -> (r: Enemy)
        requires
            0 < level * x,
            level * x * 50 <= u32::MAX,
            level * g <= u32::MAX,
        ensures
            made_enemy(r, mob, level, x, dice as nat, g, attributes, health, items@),
    {
        Enemy {
            kind: mob,
            level,
            experience: Enemy::linear_scaling(level * x),
            health: health as i32,
            defense: Dice::new_from(crate::dice::Die::D8, dice),
            resistance: Dice::new_from(crate::dice::Die::D8, dice),
            gold: sub_linear_scaling(level * g) as u64,
            attributes,
            items,
            state: EnemyState::Alive,
            actions: mob.actions(),
        }
    }

    /// A weak enemy: three dice of defense, experience and gold of its level; `health` and
    /// `items` are its health and what it carries.
    pub fn weak(mob: Mob, level: u32, health: u32, items: Vec<ItemsWeHave>) -> (r: Enemy)
        requires
            0 < level,
            level * 50 <= u32::MAX,
        ensures
            made_enemy(r, mob, level, 1, 3, 1, mob_attributes(mob), health, items@),
    {
        Enemy::make(mob, level, 1, 3, 1, (&mob).into(), health, items)
    }

    /// A normal enemy: five dice of defense, experience and gold of twice its level.
    pub fn normal(mob: Mob, level: u32, health: u32, items: Vec<ItemsWeHave>) -> (r: Enemy)
        requires
            0 < level,
            level * 100 <= u32::MAX,
        ensures
            made_enemy(r, mob, level, 2, 5, 2, mob_attributes(mob), health, items@),
    {
        Enemy::make(mob, level, 2, 5, 2, (&mob).into(), health, items)
    }

    /// A strong enemy: eight dice of defense, experience and gold of five times its level.
    pub fn strong(mob: Mob, level: u32, health: u32, items: Vec<ItemsWeHave>) -> (r: Enemy)
        requires
            0 < level,
            level * 250 <= u32::MAX,
        ensures
            made_enemy(r, mob, level, 5, 8, 5, mob_attributes(mob), health, items@),
    {
        Enemy::make(mob, level, 5, 8, 5, (&mob).into(), health, items)
    }

    /// A boss: seventeen dice of defense, experience of ten times its level and gold of a
    /// hundred times, with the (scaled) `attributes` given.
    pub fn boss(mob: Mob, level: u32, attributes: Attributes, health: u32, items: Vec<ItemsWeHave>) -> (r: Enemy)
        requires
            0 < level,
            level * 500 <= u32::MAX,
        ensures
            made_enemy(r, mob, level, 10, 17, 100, attributes, health, items@),
    {
        Enemy::make(mob, level, 10, 17, 100, attributes, health, items)
    }
}

impl MobGrade {
    /// The enemy of this grade (see `Enemy::weak` and the others); `boss_attributes` are used
    /// by a boss only.
    pub fn to_enemy(&self, mob: Mob, level: u32, boss_attributes: Attributes, health: u32, items: Vec<ItemsWeHave>) -> (r: Enemy)
        requires
            0 < level,
            level * 500 <= u32::MAX,
        ensures
            match *self {
                MobGrade::Weak => made_enemy(r, mob, level, 1, 3, 1, mob_attributes(mob), health, items@),
                MobGrade::Normal => made_enemy(r, mob, level, 2, 5, 2, mob_attributes(mob), health, items@),
                MobGrade::Strong => made_enemy(r, mob, level, 5, 8, 5, mob_attributes(mob), health, items@),
                MobGrade::Boss => made_enemy(r, mob, level, 10, 17, 100, boss_attributes, health, items@),
            },
    {
        match self {
            MobGrade::Weak => Enemy::weak(mob, level, health, items),
            MobGrade::Normal => Enemy::normal(mob, level, health, items),
            MobGrade::Strong => Enemy::strong(mob, level, health, items),
            MobGrade::Boss => Enemy::boss(mob, level, boss_attributes, health, items),
        }
    }
}

impl Default for Enemy {
    /// A first-level orc with nothing: no health, experience, gold, items or actions.
    fn default() -> (r: Enemy)
        ensures
            r.kind == Mob::Orc,
            r.level == 1,
            r.experience == 0,
            r.health == 0,
            r.defense.dice@ == fresh_dice(crate::dice::Die::D20, 1),
            r.resistance.dice@ == fresh_dice(crate::dice::Die::D20, 1),
            r.gold == 0,
            r.attributes == attributes_with(7, 7, 7, 7, 7, 7),
            r.items@.len() == 0,
            r.state == EnemyState::Alive,
            r.actions@.len() == 0,
    {
        Enemy {
            kind: Mob::Orc,
            level: 1,
            experience: 0,
            health: 0,
            defense: Dice::default(),
            resistance: Dice::default(),
            gold: 0,
            attributes: Attributes::default(),
            items: Vec::new(),
            state: EnemyState::Alive,
            actions: Vec::new(),
        }
    }
}

} // verus!
