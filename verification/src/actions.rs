use vstd::prelude::*;
use crate::dice::{dice_max, die_object_max, fresh_dice, AdvantageState, Dice, Die, DieObject};
use crate::enemies::Enemy;
use crate::items::{attributes_of, worn};
use crate::player::{character_wf, dice_added, dice_pair, routed, with_critical_state, ActionDice, Character};
use crate::skills::{MobAction, Skill, SkillSet};
use crate::units::{attributes_get, attributes_sum, attributes_sum_fits, Attribute, Attributes, DamageType};

verus! {

/// An optional set of dice with every critical advantage combined with `Advantage`.
pub open spec fn advantaged(d: Option<Seq<DieObject>>) -> Option<Seq<DieObject>> {
    match d {
        Some(s) => Some(with_critical_state(s, AdvantageState::Advantage)),
        None => None,
    }
}

/// The dice after scaling by `stat` at scale `n`: fresh dice of the kind and number that the
/// attribute calls for take the place of the physical set, the magical set, or both; the rest
/// stays as it was.
pub open spec fn attribute_pair(
    stat: Option<Attribute>,
    n: nat,
    d: (Option<Seq<DieObject>>, Option<Seq<DieObject>>),
) -> (Option<Seq<DieObject>>, Option<Seq<DieObject>>) {
    match stat {
        Some(Attribute::Strength(_)) => (Some(fresh_dice(Die::D20, 1 + n)), d.1),
        Some(Attribute::Intelligence(_)) => (d.0, Some(fresh_dice(Die::D20, 4 + n))),
        Some(Attribute::Dexterity(_)) => (Some(fresh_dice(Die::D12, 2 + 2 * n)), d.1),
        Some(Attribute::Constitution(_)) => (
            Some(fresh_dice(Die::D4, 4 + 3 * n)),
            Some(fresh_dice(Die::D4, 2 + 3 * n)),
        ),
        Some(Attribute::Wisdom(_)) => (d.0, Some(fresh_dice(Die::D6, 4 + 2 * n))),
        Some(Attribute::Charisma(_)) => (d.0, Some(fresh_dice(Die::D8, 3 + 2 * n))),
        None => d,
    }
}

/// What a character's element does to the dice: fire gives every die advantage on its
/// critical roll; holy does too, and then puts two fresh d20 in place of the magical dice.
pub open spec fn skill_element_pair(
    element: Option<DamageType>,
    d: (Option<Seq<DieObject>>, Option<Seq<DieObject>>),
) -> (Option<Seq<DieObject>>, Option<Seq<DieObject>>) {
    match element {
        Some(DamageType::Fire) => (advantaged(d.0), advantaged(d.1)),
        Some(DamageType::Holy) => (advantaged(d.0), Some(fresh_dice(Die::D20, 2))),
        _ => d,
    }
}

/// What a mob's element does to the dice: fire gives every die advantage on its critical
/// roll; holy does too and puts three fresh d20 in place of the magical dice; existential
/// puts twenty fresh d4 there; a boss's puts five fresh d20 in place of each set.
pub open spec fn mob_element_pair(
    element: Option<DamageType>,
    d: (Option<Seq<DieObject>>, Option<Seq<DieObject>>),
) -> (Option<Seq<DieObject>>, Option<Seq<DieObject>>) {
    match element {
        Some(DamageType::Fire) => (advantaged(d.0), advantaged(d.1)),
        Some(DamageType::Holy) => (advantaged(d.0), Some(fresh_dice(Die::D20, 3))),
        Some(DamageType::Existential) => (d.0, Some(fresh_dice(Die::D4, 20))),
        Some(DamageType::Boss) => (Some(fresh_dice(Die::D20, 5)), Some(fresh_dice(Die::D20, 5))),
        _ => d,
    }
}

/// No dice at all.
pub open spec fn no_dice() -> (Option<Seq<DieObject>>, Option<Seq<DieObject>>) {
    (None, None)
}

/// Puts in place the dice that scaling by `stat` at scale `n` calls for.
fn set_attribute_dice(stat: Option<Attribute>, n: u32, base_die: &mut ActionDice)
    requires
        4 + 3 * n <= usize::MAX,
    ensures
        dice_pair(*final(base_die)) == attribute_pair(stat, n as nat, dice_pair(*old(base_die))),
{
    let k = n as usize;
    match stat {
        Some(Attribute::Strength(_)) => {
            base_die.physical = Some(Dice::new_from(Die::D20, 1 + k));
        },
        Some(Attribute::Intelligence(_)) => {
            base_die.magical = Some(Dice::new_from(Die::D20, 4 + k));
        },
        Some(Attribute::Dexterity(_)) => {
            base_die.physical = Some(Dice::new_from(Die::D12, 2 + 2 * k));
        },
        Some(Attribute::Constitution(_)) => {
            base_die.physical = Some(Dice::new_from(Die::D4, 4 + 3 * k));
            base_die.magical = Some(Dice::new_from(Die::D4, 2 + 3 * k));
        },
        Some(Attribute::Wisdom(_)) => {
            base_die.magical = Some(Dice::new_from(Die::D6, 4 + 2 * k));
        },
        Some(Attribute::Charisma(_)) => {
            base_die.magical = Some(Dice::new_from(Die::D8, 3 + 2 * k));
        },
        None => {},
    }
}

/// Puts in place the dice of `stat`, at the scale that `scale` gives for the attribute's value
/// in `attributes`; `scale` is not called where there is no attribute.
fn scale_by_attribute(
    stat: Option<Attribute>,
    base_die: &mut ActionDice,
    attributes: &Attributes,
    scale: impl Fn(u32) -> u32,
)
    requires
        forall|v: u32| #[trigger] scale.requires((v,)),
        forall|v: u32, r: u32| scale.ensures((v,), r) ==> 4 + 3 * r <= usize::MAX,
    ensures
        exists|n: u32|
            (stat is Some ==> scale.ensures((attributes_get(*attributes, stat.unwrap()),), n))
                && dice_pair(*final(base_die)) == #[trigger] attribute_pair(stat, n as nat, dice_pair(*old(base_die))),
{
    let n = match stat {
        Some(attribute) => scale(attributes.get(&attribute)),
        None => 0,
    };
    set_attribute_dice(stat, n, base_die);
}

/// `k` fresh dice of one kind, as a vector.
fn fresh_vec(die: Die, k: u32) -> (r: Vec<DieObject>)
    ensures
        r@ == fresh_dice(die, k as nat),
{
    Dice::new_from(die, k as usize).dice
}

impl Skill {
    /// Puts in place the dice of the attribute this skill scales with, at the scale that
    /// `scale` gives for the attribute's value.
    pub fn attribute(&self, base_die: &mut ActionDice, attributes: &Attributes, scale: impl Fn(u32) -> u32)
        requires
            forall|v: u32| #[trigger] scale.requires((v,)),
            forall|v: u32, r: u32| scale.ensures((v,), r) ==> 4 + 3 * r <= usize::MAX,
        ensures
            exists|n: u32|
                (self.stat() is Some ==> scale.ensures((attributes_get(*attributes, self.stat().unwrap()),), n))
                    && dice_pair(*final(base_die)) == #[trigger] attribute_pair(self.stat(), n as nat, dice_pair(*old(base_die))),
    {
        scale_by_attribute(self.attribute_scaling(), base_die, attributes, scale);
    }

    /// Changes the dice as the skill's element calls for (see `skill_element_pair`).
    pub fn elemental(&self, base_die: &mut ActionDice)
        ensures
            dice_pair(*final(base_die)) == skill_element_pair(self.element_of(), dice_pair(*old(base_die))),
    {
        match self.element() {
            Some(DamageType::Fire) => {
                base_die.set_critical_state(AdvantageState::Advantage);
            },
            Some(DamageType::Holy) => {
                base_die.set_critical_state(AdvantageState::Advantage);
                base_die.magical = Some(Dice::new_from(Die::D20, 2));
            },
            _ => {},
        }
    }
}

impl MobAction {
    /// Puts in place the dice of the attribute this action scales with, at the scale that
    /// `scale` gives for the attribute's value.
    pub fn attribute(&self, base_die: &mut ActionDice, attributes: &Attributes, scale: impl Fn(u32) -> u32)
        requires
            forall|v: u32| #[trigger] scale.requires((v,)),
            forall|v: u32, r: u32| scale.ensures((v,), r) ==> 4 + 3 * r <= usize::MAX,
        ensures
            exists|n: u32|
                (self.stat() is Some ==> scale.ensures((attributes_get(*attributes, self.stat().unwrap()),), n))
                    && dice_pair(*final(base_die)) == #[trigger] attribute_pair(self.stat(), n as nat, dice_pair(*old(base_die))),
    {
        scale_by_attribute(self.attribute_scaling(), base_die, attributes, scale);
    }

    /// Changes the dice as the action's element calls for (see `mob_element_pair`).
    pub fn elemental(&self, base_die: &mut ActionDice)
        ensures
            dice_pair(*final(base_die)) == mob_element_pair(self.element_of(), dice_pair(*old(base_die))),
    {
        match self.element() {
            Some(DamageType::Fire) => {
                base_die.set_critical_state(AdvantageState::Advantage);
            },
            Some(DamageType::Holy) => {
                base_die.set_critical_state(AdvantageState::Advantage);
                base_die.magical = Some(Dice::new_from(Die::D20, 3));
            },
            Some(DamageType::Existential) => {
                base_die.magical = Some(Dice::new_from(Die::D4, 20));
            },
            Some(DamageType::Boss) => {
                base_die.set_critical_state(AdvantageState::Advantage);
                base_die.magical = Some(Dice::new_from(Die::D20, 5));
                base_die.physical = Some(Dice::new_from(Die::D20, 5));
            },
            _ => {},
        }
    }

    /// Adds as many fresh d20 as `scale` gives for the mob's level.
    pub fn level_scaling(&self, level: u32, base_die: &mut ActionDice, scale: impl Fn(u32) -> u32)
        requires
            scale.requires((level,)),
        ensures
            exists|k: u32|
                scale.ensures((level,), k)
                    && dice_added(dice_pair(*old(base_die)), dice_pair(*final(base_die)), #[trigger] fresh_dice(Die::D20, k as nat)),
    {
        let k = scale(level);
        base_die.add_existing_die(fresh_vec(Die::D20, k));
    }

    /// The dice a mob acts with: those of the action's attribute, changed by its element,
    /// with fresh d20 added for the mob's level. `scale` gives the scale of a value.
    pub fn act(&self, enemy: &Enemy, scale: impl Fn(u32) -> u32) -> (r: ActionDice)
        requires
            forall|v: u32| #[trigger] scale.requires((v,)),
            forall|v: u32, r: u32| scale.ensures((v,), r) ==> 4 + 3 * r <= usize::MAX,
        ensures
            exists|n: u32, k: u32|
                (self.stat() is Some ==> scale.ensures((attributes_get(enemy.attributes, self.stat().unwrap()),), n))
                    && scale.ensures((enemy.level,), k)
                    && dice_added(
                        mob_element_pair(self.element_of(), #[trigger] attribute_pair(self.stat(), n as nat, no_dice())),
                        dice_pair(r),
                        #[trigger] fresh_dice(Die::D20, k as nat),
                    ),
    {
        let mut base_die = ActionDice { physical: None, magical: None };
        assert(dice_pair(base_die) == no_dice());
        self.attribute(&mut base_die, &enemy.attributes, |v: u32| -> (r: u32)
            ensures
                scale.ensures((v,), r),
        {
            scale(v)
        });
        let ghost n: u32 = choose|n: u32|
            (self.stat() is Some ==> scale.ensures((attributes_get(enemy.attributes, self.stat().unwrap()),), n))
                && dice_pair(base_die) == #[trigger] attribute_pair(self.stat(), n as nat, no_dice());
        let ghost scaled = dice_pair(base_die);
        self.elemental(&mut base_die);
        let ghost shaped = dice_pair(base_die);
        self.level_scaling(enemy.level, &mut base_die, |v: u32| -> (r: u32)
            ensures
                scale.ensures((v,), r),
        {
            scale(v)
        });
        let ghost k: u32 = choose|k: u32|
            scale.ensures((enemy.level,), k)
                && dice_added(shaped, dice_pair(base_die), #[trigger] fresh_dice(Die::D20, k as nat));
        assert(mob_element_pair(self.element_of(), attribute_pair(self.stat(), n as nat, no_dice())) == shaped);
        base_die
    }
}

impl SkillSet {
    /// Adds as many fresh d4 as `scale` gives for the character's level.
    pub fn action_level_scaling(&self, base_die: &mut ActionDice, player: &Character, scale: impl Fn(u32) -> u32)
        requires
            scale.requires((player.level,)),
        ensures
            exists|k: u32|
                scale.ensures((player.level,), k)
                    && dice_added(dice_pair(*old(base_die)), dice_pair(*final(base_die)), #[trigger] fresh_dice(Die::D4, k as nat)),
    {
        let k = scale(player.level);
        base_die.add_existing_die(fresh_vec(Die::D4, k));
    }

    /// The dice a character acts with: those of the skill's attribute (the character's own
    /// attributes and those of what it wears, added up), changed by the skill's element, with
    /// fresh d4 added for the character's level. `scale` gives the scale of a value.
    pub fn action_base_damage(&self, player: &Character, scale: impl Fn(u32) -> u32) -> (r: ActionDice)
        requires
            character_wf(*player),
            attributes_sum_fits(player.attributes, attributes_of(worn(player.equipment))),
            forall|v: u32| #[trigger] scale.requires((v,)),
            forall|v: u32, r: u32| scale.ensures((v,), r) ==> 4 + 3 * r <= usize::MAX,
        ensures
            exists|n: u32, k: u32|
                (self.skill.stat() is Some ==> scale.ensures(
                    (attributes_get(attributes_sum(player.attributes, attributes_of(worn(player.equipment))), self.skill.stat().unwrap()),),
                    n,
                ))
                    && scale.ensures((player.level,), k)
                    && dice_added(
                        skill_element_pair(self.skill.element_of(), #[trigger] attribute_pair(self.skill.stat(), n as nat, no_dice())),
                        dice_pair(r),
                        #[trigger] fresh_dice(Die::D4, k as nat),
                    ),
    {
        let mut base_die = ActionDice { physical: None, magical: None };
        assert(dice_pair(base_die) == no_dice());
        let attributes = player.attributes.sum_with(&player.equipment.attribute());
        self.skill.attribute(&mut base_die, &attributes, |v: u32| -> (r: u32)
            ensures
                scale.ensures((v,), r),
        {
            scale(v)
        });
        let ghost n: u32 = choose|n: u32|
            (self.skill.stat() is Some ==> scale.ensures((attributes_get(attributes, self.skill.stat().unwrap()),), n))
                && dice_pair(base_die) == #[trigger] attribute_pair(self.skill.stat(), n as nat, no_dice());
        self.skill.elemental(&mut base_die);
        let ghost shaped = dice_pair(base_die);
        self.action_level_scaling(&mut base_die, player, |v: u32| -> (r: u32)
            ensures
                scale.ensures((v,), r),
        {
            scale(v)
        });
        let ghost k: u32 = choose|k: u32|
            scale.ensures((player.level,), k)
                && dice_added(shaped, dice_pair(base_die), #[trigger] fresh_dice(Die::D4, k as nat));
        assert(skill_element_pair(self.skill.element_of(), attribute_pair(self.skill.stat(), n as nat, no_dice())) == shaped);
        base_die
    }
}


/// Whether a mob's action `m` under `scale` may give the dice `d`: those of its attribute,
/// changed by its element, with fresh d20 added for the mob's level (see `MobAction::act`).
pub open spec fn acted<F: Fn(u32) -> u32>(m: MobAction, e: Enemy, scale: F, d: ActionDice) -> bool {
    exists|n: u32, k: u32|
        (m.stat() is Some ==> scale.ensures((attributes_get(e.attributes, m.stat().unwrap()),), n))
            && scale.ensures((e.level,), k)
            && dice_added(
                mob_element_pair(m.element_of(), #[trigger] attribute_pair(m.stat(), n as nat, no_dice())),
                dice_pair(d),
                #[trigger] fresh_dice(Die::D20, k as nat),
            )
}

impl Enemy {
    /// One of the enemy's actions, chosen at random, with the dice it acts with.
    pub fn action(&self, scale: impl Fn(u32) -> u32) -> (r: (ActionDice, MobAction))
        requires
            self.actions@.len() > 0,
            forall|v: u32| #[trigger] scale.requires((v,)),
            forall|v: u32, r: u32| scale.ensures((v,), r) ==> 4 + 3 * r <= usize::MAX,
        ensures
            self.actions@.contains(r.1),
            acted(r.1, *self, scale, r.0),
    {
        let action = self.choose_action();
        let dice = action.act(self, scale);
        (dice, action)
    }
}

impl SkillSet {
    /// The dice of an attack on `enemy`: the skill's dice (see `action_base_damage`) and,
    /// where the enemy is vulnerable to the element of the class's own skill, two fresh d10
    /// added to them.
    pub fn attack_dice(&self, player: &Character, enemy: &Enemy, scale: impl Fn(u32) -> u32) -> (r: ActionDice)
        requires
            character_wf(*player),
            attributes_sum_fits(player.attributes, attributes_of(worn(player.equipment))),
            forall|v: u32| #[trigger] scale.requires((v,)),
            forall|v: u32, r: u32| scale.ensures((v,), r) ==> 4 + 3 * r <= usize::MAX,
        ensures
            exists|base: ActionDice|
                base_dice_of(*self, *player, scale, base) && if enemy.kind.vulnerability_of() is Some
                    && player.class.starting_skill().element_of() == enemy.kind.vulnerability_of() {
                    dice_added(dice_pair(base), dice_pair(r), fresh_dice(Die::D10, 2))
                } else {
                    dice_pair(r) == dice_pair(base)
                },
    {
        let mut dice = self.action_base_damage(player, scale);
        let ghost base = dice;
        if let Some(vulnerability) = enemy.kind.vulnerability() {
            if let Some(element) = player.class.action().element() {
                if element == vulnerability {
                    dice.add_existing_die(fresh_vec(Die::D10, 2));
                }
            }
        }
        dice
    }
}

/// Whether `d` may be the dice a character acts with (see `SkillSet::action_base_damage`).
pub open spec fn base_dice_of<F: Fn(u32) -> u32>(s: SkillSet, player: Character, scale: F, d: ActionDice) -> bool {
    exists|n: u32, k: u32|
        (s.skill.stat() is Some ==> scale.ensures(
            (attributes_get(attributes_sum(player.attributes, attributes_of(worn(player.equipment))), s.skill.stat().unwrap()),),
            n,
        ))
            && scale.ensures((player.level,), k)
            && dice_added(
                skill_element_pair(s.skill.element_of(), #[trigger] attribute_pair(s.skill.stat(), n as nat, no_dice())),
                dice_pair(d),
                #[trigger] fresh_dice(Die::D4, k as nat),
            )
}


/// An optional set of at most `n` dice, each giving at most 26 a roll.
pub open spec fn small_dice(s: Option<Seq<DieObject>>, n: int) -> bool {
    match s {
        Some(x) => x.len() <= n && forall|i: int| 0 <= i < x.len() ==> die_object_max(#[trigger] x[i]) <= 26,
        None => true,
    }
}

/// The most one roll of an optional set of dice gives; nothing where there is no set.
pub open spec fn set_max(s: Option<Seq<DieObject>>) -> int {
    match s {
        Some(x) => dice_max(x),
        None => 0,
    }
}

proof fn lemma_fresh_small(die: Die, n: nat)
    requires
        die != Die::D100,
    ensures
        small_dice(Some(fresh_dice(die, n)), n as int),
{
    let f = fresh_dice(die, n);
    assert forall|i: int| 0 <= i < f.len() implies die_object_max(#[trigger] f[i]) <= 26 by {
        match die {
            Die::D4 => assert(die_object_max(f[i]) == 4),
            Die::D6 => assert(die_object_max(f[i]) == 6),
            Die::D8 => assert(die_object_max(f[i]) == 8),
            Die::D10 => assert(die_object_max(f[i]) == 10),
            Die::D12 => assert(die_object_max(f[i]) == 12),
            Die::D20 => assert(die_object_max(f[i]) == 26),
            Die::D100 => {},
        }
    }
}

proof fn lemma_small_max(x: Seq<DieObject>, n: int)
    requires
        small_dice(Some(x), n),
    ensures
        dice_max(x) <= 26 * x.len(),
    decreases x.len(),
{
    if x.len() > 0 {
        let y = x.drop_last();
        assert(small_dice(Some(y), n)) by {
            assert forall|i: int| 0 <= i < y.len() implies die_object_max(#[trigger] y[i]) <= 26 by {
                assert(y[i] == x[i]);
            }
        }
        lemma_small_max(y, n);
        assert(die_object_max(x[x.len() - 1]) <= 26);
    }
}

proof fn lemma_routed_small(die: Seq<DieObject>, coins: Seq<bool>)
    requires
        coins.len() == die.len(),
        small_dice(Some(die), die.len() as int),
    ensures
        small_dice(Some(routed(die, coins).0), die.len() as int),
        small_dice(Some(routed(die, coins).1), die.len() as int),
        routed(die, coins).0.len() + routed(die, coins).1.len() == die.len(),
    decreases die.len(),
{
    if die.len() > 0 {
        let d = die.drop_last();
        let c = coins.drop_last();
        assert(small_dice(Some(d), d.len() as int)) by {
            assert forall|i: int| 0 <= i < d.len() implies die_object_max(#[trigger] d[i]) <= 26 by {
                assert(d[i] == die[i]);
            }
        }
        lemma_routed_small(d, c);
        assert(die_object_max(die.last()) <= 26);
    }
}

proof fn lemma_added_small(
    before: (Option<Seq<DieObject>>, Option<Seq<DieObject>>),
    after: (Option<Seq<DieObject>>, Option<Seq<DieObject>>),
    die: Seq<DieObject>,
    n: int,
)
    requires
        dice_added(before, after, die),
        small_dice(before.0, n),
        small_dice(before.1, n),
        small_dice(Some(die), die.len() as int),
    ensures
        small_dice(after.0, n + die.len()),
        small_dice(after.1, n + die.len()),
        after.1 is Some <==> before.1 is Some,
{
    if before.0 is Some && before.1 is Some {
        let coins = choose|coins: Seq<bool>|
            coins.len() == die.len() && after == (
                Some(before.0.unwrap() + #[trigger] routed(die, coins).0),
                Some(before.1.unwrap() + routed(die, coins).1),
            );
        lemma_routed_small(die, coins);
        let p = before.0.unwrap() + routed(die, coins).0;
        let m = before.1.unwrap() + routed(die, coins).1;
        assert forall|i: int| 0 <= i < p.len() implies die_object_max(#[trigger] p[i]) <= 26 by {
            if i < before.0.unwrap().len() {
                assert(p[i] == before.0.unwrap()[i]);
            } else {
                assert(p[i] == routed(die, coins).0[i - before.0.unwrap().len()]);
            }
        }
        assert forall|i: int| 0 <= i < m.len() implies die_object_max(#[trigger] m[i]) <= 26 by {
            if i < before.1.unwrap().len() {
                assert(m[i] == before.1.unwrap()[i]);
            } else {
                assert(m[i] == routed(die, coins).1[i - before.1.unwrap().len()]);
            }
        }
    } else {
        if let Some(p0) = before.0 {
            let p = p0 + die;
            assert forall|i: int| 0 <= i < p.len() implies die_object_max(#[trigger] p[i]) <= 26 by {
                if i < p0.len() {
                    assert(p[i] == p0[i]);
                } else {
                    assert(p[i] == die[i - p0.len()]);
                }
            }
        }
        if let Some(m0) = before.1 {
            let m = m0 + die;
            assert forall|i: int| 0 <= i < m.len() implies die_object_max(#[trigger] m[i]) <= 26 by {
                if i < m0.len() {
                    assert(m[i] == m0[i]);
                } else {
                    assert(m[i] == die[i - m0.len()]);
                }
            }
        }
    }
}

proof fn lemma_advantaged_small(s: Option<Seq<DieObject>>, n: int)
    requires
        small_dice(s, n),
    ensures
        small_dice(advantaged(s), n),
{
    if let Some(x) = s {
        let y = with_critical_state(x, AdvantageState::Advantage);
        assert forall|i: int| 0 <= i < y.len() implies die_object_max(#[trigger] y[i]) <= 26 by {
            assert(die_object_max(y[i]) == die_object_max(x[i]));
        }
    }
}

/// The dice of a mob's action, where `scale` gives at most `b`, are at most `20 + 4 * b` in
/// each set, each giving at most 26 a roll; a healing action has magical dice.
pub proof fn lemma_acted_small<F: Fn(u32) -> u32>(m: MobAction, e: Enemy, scale: F, d: ActionDice, b: int)
    requires
        acted(m, e, scale, d),
        b >= 0,
        forall|v: u32, r: u32| scale.ensures((v,), r) ==> r <= b,
    ensures
        small_dice(dice_pair(d).0, 20 + 4 * b),
        small_dice(dice_pair(d).1, 20 + 4 * b),
        set_max(dice_pair(d).0) <= 26 * (20 + 4 * b),
        set_max(dice_pair(d).1) <= 26 * (20 + 4 * b),
        m.element_of() == Some(DamageType::Healing) ==> dice_pair(d).1 is Some,
{
    let (n, k) = choose|n: u32, k: u32|
        (m.stat() is Some ==> scale.ensures((attributes_get(e.attributes, m.stat().unwrap()),), n))
            && scale.ensures((e.level,), k)
            && dice_added(
                mob_element_pair(m.element_of(), #[trigger] attribute_pair(m.stat(), n as nat, no_dice())),
                dice_pair(d),
                #[trigger] fresh_dice(Die::D20, k as nat),
            );
    let c = 20 + 3 * b;
    let nn = n as nat;
    assert(m.stat() is Some) by {
        reveal_with_fuel(MobAction::stat, 1);
    }
    assert(n <= b);
    assert(k <= b);
    let a = attribute_pair(m.stat(), nn, no_dice());
    lemma_fresh_small(Die::D20, 1 + nn);
    lemma_fresh_small(Die::D20, 4 + nn);
    lemma_fresh_small(Die::D12, 2 + 2 * nn);
    lemma_fresh_small(Die::D4, 4 + 3 * nn);
    lemma_fresh_small(Die::D4, 2 + 3 * nn);
    lemma_fresh_small(Die::D6, 4 + 2 * nn);
    lemma_fresh_small(Die::D8, 3 + 2 * nn);
    assert(small_dice(a.0, c) && small_dice(a.1, c));
    let base = mob_element_pair(m.element_of(), a);
    lemma_advantaged_small(a.0, c);
    lemma_advantaged_small(a.1, c);
    lemma_fresh_small(Die::D20, 3);
    lemma_fresh_small(Die::D4, 20);
    lemma_fresh_small(Die::D20, 5);
    assert(small_dice(base.0, c) && small_dice(base.1, c));
    lemma_fresh_small(Die::D20, k as nat);
    lemma_added_small(base, dice_pair(d), fresh_dice(Die::D20, k as nat), c);
    assert(small_dice(dice_pair(d).0, 20 + 4 * b));
    assert(small_dice(dice_pair(d).1, 20 + 4 * b));
    if let Some(x) = dice_pair(d).0 {
        lemma_small_max(x, 20 + 4 * b);
    }
    if let Some(x) = dice_pair(d).1 {
        lemma_small_max(x, 20 + 4 * b);
    }
}

} // verus!
