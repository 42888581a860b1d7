use vstd::prelude::*;
use crate::damage::{all_damage_types, all_resist_categories, ResistCategories};
use crate::items::{EquipmentSlot, Rarity};
use crate::enemies::Enemy;
use crate::random::{random_english_word, random_range, random_ratio};
use vstd::string::StringExecFns;
use crate::units::{attribute_value, attributes_wf, attributes_with, Attribute, Attributes, DamageType};

verus! {

/// What a share of an item's points buys.
#[derive(Debug, Clone, Copy, PartialEq, Eq, Structural)]
pub enum Choices {
    Armor,
    Dodge,
    Resistance,
    Damage,
}

/// The choice of a roll from 0 to 39: ten in forty armor, three dodge, thirteen resistance,
/// the rest damage.
pub open spec fn choice_for_roll(n: u64) -> Choices {
    if n <= 9 {
        Choices::Armor
    } else if n <= 12 {
        Choices::Dodge
    } else if n <= 25 {
        Choices::Resistance
    } else {
        Choices::Damage
    }
}

impl Choices {
    /// The choice of a roll from 0 to 39.
    pub fn for_roll(n: u64) -> (r: Choices)
        requires
            n < 40,
        ensures
            r == choice_for_roll(n),
    {
        if n <= 9 {
            Choices::Armor
        } else if n <= 12 {
            Choices::Dodge
        } else if n <= 25 {
            Choices::Resistance
        } else {
            Choices::Damage
        }
    }

    /// A random choice: a roll from 0 to 39 read by `for_roll`.
    pub fn random() -> (r: Choices)
        ensures
            exists|n: u64| n < 40 && r == choice_for_roll(n),
    {
        let n = random_range(0, 40);
        Choices::for_roll(n)
    }
}

/// The attributes a point can go to.
#[derive(Debug, Clone, Copy, PartialEq, Eq, Structural)]
pub enum AttributeChoices {
    Strength,
    Dexterity,
    Constitution,
    Intelligence,
    Wisdom,
    Charisma,
}

/// The attribute choice of a roll from 0 to 5, in declaration order.
pub open spec fn attribute_choice_for_roll(n: u64) -> AttributeChoices {
    if n == 0 {
        AttributeChoices::Strength
    } else if n == 1 {
        AttributeChoices::Dexterity
    } else if n == 2 {
        AttributeChoices::Constitution
    } else if n == 3 {
        AttributeChoices::Intelligence
    } else if n == 4 {
        AttributeChoices::Wisdom
    } else {
        AttributeChoices::Charisma
    }
}

/// The attribute choice a lower-case name stands for.
pub open spec fn attribute_choice_named(name: Seq<char>) -> Option<AttributeChoices> {
    if name == "strength"@ {
        Some(AttributeChoices::Strength)
    } else if name == "dexterity"@ {
        Some(AttributeChoices::Dexterity)
    } else if name == "constitution"@ {
        Some(AttributeChoices::Constitution)
    } else if name == "intelligence"@ {
        Some(AttributeChoices::Intelligence)
    } else if name == "wisdom"@ {
        Some(AttributeChoices::Wisdom)
    } else if name == "charisma"@ {
        Some(AttributeChoices::Charisma)
    } else {
        None
    }
}

impl AttributeChoices {
    /// The attribute choice of a roll from 0 to 5.
    pub fn for_roll(n: u64) -> (r: AttributeChoices)
        requires
            n < 6,
        ensures
            r == attribute_choice_for_roll(n),
    {
        if n == 0 {
            AttributeChoices::Strength
        } else if n == 1 {
            AttributeChoices::Dexterity
        } else if n == 2 {
            AttributeChoices::Constitution
        } else if n == 3 {
            AttributeChoices::Intelligence
        } else if n == 4 {
            AttributeChoices::Wisdom
        } else {
            AttributeChoices::Charisma
        }
    }

    /// A random attribute choice, each equally likely.
    pub fn random() -> (r: AttributeChoices)
        ensures
            exists|n: u64| n < 6 && r == attribute_choice_for_roll(n),
    {
        let n = random_range(0, 6);
        AttributeChoices::for_roll(n)
    }

    /// The attribute choice a name stands for, ignoring case.
    pub fn from_name(name: &str) -> (r: Option<AttributeChoices>)
        ensures
            r == attribute_choice_named(crate::units::lowercase(name@)),
    {
        let lower = crate::units::to_lowercase(name);
        if crate::units::same_text(&lower, "strength") {
            Some(AttributeChoices::Strength)
        } else if crate::units::same_text(&lower, "dexterity") {
            Some(AttributeChoices::Dexterity)
        } else if crate::units::same_text(&lower, "constitution") {
            Some(AttributeChoices::Constitution)
        } else if crate::units::same_text(&lower, "intelligence") {
            Some(AttributeChoices::Intelligence)
        } else if crate::units::same_text(&lower, "wisdom") {
            Some(AttributeChoices::Wisdom)
        } else if crate::units::same_text(&lower, "charisma") {
            Some(AttributeChoices::Charisma)
        } else {
            None
        }
    }
}

/// `a` with one more point in the attribute `c`.
pub open spec fn raised_one(a: Attributes, c: AttributeChoices) -> Attributes {
    match c {
        AttributeChoices::Strength => Attributes { strength: Attribute::Strength((attribute_value(a.strength) + 1) as u32), ..a },
        AttributeChoices::Dexterity => Attributes { dexterity: Attribute::Dexterity((attribute_value(a.dexterity) + 1) as u32), ..a },
        AttributeChoices::Constitution => Attributes {
            constitution: Attribute::Constitution((attribute_value(a.constitution) + 1) as u32),
            ..a
        },
        AttributeChoices::Intelligence => Attributes {
            intelligence: Attribute::Intelligence((attribute_value(a.intelligence) + 1) as u32),
            ..a
        },
        AttributeChoices::Wisdom => Attributes { wisdom: Attribute::Wisdom((attribute_value(a.wisdom) + 1) as u32), ..a },
        AttributeChoices::Charisma => Attributes { charisma: Attribute::Charisma((attribute_value(a.charisma) + 1) as u32), ..a },
    }
}

/// The total of all attributes.
pub open spec fn attribute_total(a: Attributes) -> int {
    attribute_value(a.strength) + attribute_value(a.dexterity) + attribute_value(a.constitution)
        + attribute_value(a.intelligence) + attribute_value(a.wisdom) + attribute_value(a.charisma)
}

/// The largest attribute value of `a`.
pub open spec fn largest(a: Attributes) -> u32 {
    let m1 = if attribute_value(a.strength) > attribute_value(a.dexterity) { attribute_value(a.strength) } else { attribute_value(a.dexterity) };
    let m2 = if m1 > attribute_value(a.constitution) { m1 } else { attribute_value(a.constitution) };
    let m3 = if m2 > attribute_value(a.intelligence) { m2 } else { attribute_value(a.intelligence) };
    let m4 = if m3 > attribute_value(a.wisdom) { m3 } else { attribute_value(a.wisdom) };
    if m4 > attribute_value(a.charisma) { m4 } else { attribute_value(a.charisma) }
}

/// The attribute that an item is named after: none where all are zero, else the last one,
/// in the order strength, dexterity, constitution, intelligence, wisdom, charisma, that
/// holds the largest value.
pub open spec fn max_stat(a: Attributes) -> Option<AttributeChoices> {
    let m = largest(a);
    if m == 0 {
        None
    } else if attribute_value(a.charisma) == m {
        Some(AttributeChoices::Charisma)
    } else if attribute_value(a.wisdom) == m {
        Some(AttributeChoices::Wisdom)
    } else if attribute_value(a.intelligence) == m {
        Some(AttributeChoices::Intelligence)
    } else if attribute_value(a.constitution) == m {
        Some(AttributeChoices::Constitution)
    } else if attribute_value(a.dexterity) == m {
        Some(AttributeChoices::Dexterity)
    } else {
        Some(AttributeChoices::Strength)
    }
}

impl Attributes {
    /// One more point in the attribute `c`.
    pub fn raise_one(&mut self, c: AttributeChoices)
        requires
            attributes_wf(*old(self)),
            attribute_value(old(self).strength) < u32::MAX,
            attribute_value(old(self).dexterity) < u32::MAX,
            attribute_value(old(self).constitution) < u32::MAX,
            attribute_value(old(self).intelligence) < u32::MAX,
            attribute_value(old(self).wisdom) < u32::MAX,
            attribute_value(old(self).charisma) < u32::MAX,
        ensures
            *final(self) == raised_one(*old(self), c),
            attributes_wf(*final(self)),
    {
        match c {
            AttributeChoices::Strength => self.strength = Attribute::Strength(self.strength.inner() + 1),
            AttributeChoices::Dexterity => self.dexterity = Attribute::Dexterity(self.dexterity.inner() + 1),
            AttributeChoices::Constitution => self.constitution = Attribute::Constitution(self.constitution.inner() + 1),
            AttributeChoices::Intelligence => self.intelligence = Attribute::Intelligence(self.intelligence.inner() + 1),
            AttributeChoices::Wisdom => self.wisdom = Attribute::Wisdom(self.wisdom.inner() + 1),
            AttributeChoices::Charisma => self.charisma = Attribute::Charisma(self.charisma.inner() + 1),
        }
    }

    /// The total of all attributes.
    pub fn sum(&self) -> (r: u64)
        ensures
            r == attribute_total(*self),
    {
        self.strength.inner() as u64 + self.dexterity.inner() as u64 + self.constitution.inner() as u64
            + self.intelligence.inner() as u64 + self.wisdom.inner() as u64 + self.charisma.inner() as u64
    }

    /// The attribute that an item is named after (see `max_stat`).
    pub fn max_stat(&self) -> (r: Option<AttributeChoices>)
        ensures
            r == max_stat(*self),
    {
        let s = self.strength.inner();
        let d = self.dexterity.inner();
        let c = self.constitution.inner();
        let i = self.intelligence.inner();
        let w = self.wisdom.inner();
        let ch = self.charisma.inner();
        let m1 = if s > d { s } else { d };
        let m2 = if m1 > c { m1 } else { c };
        let m3 = if m2 > i { m2 } else { i };
        let m4 = if m3 > w { m3 } else { w };
        let m = if m4 > ch { m4 } else { ch };
        if m == 0 {
            None
        } else if ch == m {
            Some(AttributeChoices::Charisma)
        } else if w == m {
            Some(AttributeChoices::Wisdom)
        } else if i == m {
            Some(AttributeChoices::Intelligence)
        } else if c == m {
            Some(AttributeChoices::Constitution)
        } else if d == m {
            Some(AttributeChoices::Dexterity)
        } else {
            Some(AttributeChoices::Strength)
        }
    }
}

/// An item being rolled from a number of points.
#[derive(Debug, Clone)]
pub struct GeneratedItem {
    pub points: u64,
    pub dodge: u64,
    pub armor: u64,
    pub resistance: Vec<(ResistCategories, i32)>,
    pub damage: Vec<(DamageType, i32)>,
    pub action: u64,
    pub attribute_bonus: Attributes,
    pub rarity: Rarity,
}

/// `v` holds one entry per resistance category, in declaration order.
pub open spec fn resist_keys(v: Seq<(ResistCategories, i32)>) -> bool {
    &&& v.len() == all_resist_categories().len()
    &&& forall|i: int| 0 <= i < v.len() ==> (#[trigger] v[i]).0 == all_resist_categories()[i]
}

/// `v` holds one entry per damage type, in declaration order.
pub open spec fn damage_keys(v: Seq<(DamageType, i32)>) -> bool {
    &&& v.len() == all_damage_types().len()
    &&& forall|i: int| 0 <= i < v.len() ==> (#[trigger] v[i]).0 == all_damage_types()[i]
}

/// Sets the value of category `k`, which `v` holds.
fn set_resistance(v: &mut Vec<(ResistCategories, i32)>, k: ResistCategories, value: i32)
    requires
        resist_keys(old(v)@),
    ensures
        resist_keys(final(v)@),
        forall|i: int| 0 <= i < final(v)@.len() ==> (#[trigger] final(v)@[i]).1 == if old(v)@[i].0 == k {
            value
        } else {
            old(v)@[i].1
        },
{
    let mut i: usize = 0;
    while i < v.len()
        invariant
            i <= v@.len(),
            resist_keys(v@),
            v@.len() == old(v)@.len(),
            forall|j: int| 0 <= j < v@.len() ==> (#[trigger] v@[j]).0 == old(v)@[j].0,
            forall|j: int| 0 <= j < i ==> (#[trigger] v@[j]).1 == if old(v)@[j].0 == k { value } else { old(v)@[j].1 },
            forall|j: int| i <= j < v@.len() ==> (#[trigger] v@[j]).1 == old(v)@[j].1,
        decreases v@.len() - i,
    {
        if v[i].0 == k {
            let key = v[i].0;
            v.set(i, (key, value));
        }
        i = i + 1;
    }
}

/// Sets the value of damage type `k`, which `v` holds.
fn set_damage(v: &mut Vec<(DamageType, i32)>, k: DamageType, value: i32)
    requires
        damage_keys(old(v)@),
    ensures
        damage_keys(final(v)@),
        forall|i: int| 0 <= i < final(v)@.len() ==> (#[trigger] final(v)@[i]).1 == if old(v)@[i].0 == k {
            value
        } else {
            old(v)@[i].1
        },
{
    let mut i: usize = 0;
    while i < v.len()
        invariant
            i <= v@.len(),
            damage_keys(v@),
            v@.len() == old(v)@.len(),
            forall|j: int| 0 <= j < v@.len() ==> (#[trigger] v@[j]).0 == old(v)@[j].0,
            forall|j: int| 0 <= j < i ==> (#[trigger] v@[j]).1 == if old(v)@[j].0 == k { value } else { old(v)@[j].1 },
            forall|j: int| i <= j < v@.len() ==> (#[trigger] v@[j]).1 == old(v)@[j].1,
        decreases v@.len() - i,
    {
        if v[i].0 == k {
            let key = v[i].0;
            v.set(i, (key, value));
        }
        i = i + 1;
    }
}

impl GeneratedItem {
    /// A blank item of `points` points (at least one): no armor, dodge, actions or
    /// attributes, every resistance and damage at zero, common.
    pub fn new(points: u64) -> (r: GeneratedItem)
        ensures
            r.points == if points == 0 { 1 } else { points },
            r.dodge == 0 && r.armor == 0 && r.action == 0,
            r.attribute_bonus == attributes_with(0, 0, 0, 0, 0, 0),
            r.rarity == Rarity::Common,
            resist_keys(r.resistance@),
            damage_keys(r.damage@),
            forall|i: int| 0 <= i < r.resistance@.len() ==> (#[trigger] r.resistance@[i]).1 == 0,
            forall|i: int| 0 <= i < r.damage@.len() ==> (#[trigger] r.damage@[i]).1 == 0,
    {
        let damage = DamageType::damage_type_hash_map();
        let resistance = ResistCategories::resist_category_hash_map();
        GeneratedItem {
            points: if points == 0 { 1 } else { points },
            dodge: 0,
            armor: 0,
            resistance,
            damage,
            action: 0,
            attribute_bonus: Attributes::zero(),
            rarity: Rarity::Common,
        }
    }

    /// The rarity the item's points fall in.
    pub fn rarity(&self) -> (r: Rarity)
        ensures
            r == Rarity::of_points(self.points),
    {
        Rarity::from_points(self.points)
    }
}

/// The share of points a draw is scaled by: one in a hundred and twenty, at least one.
pub open spec fn share(points: u64) -> u64 {
    if points / 120 > 1 {
        points / 120
    } else {
        1
    }
}

/// A resistance or damage entry either kept its value or took a drawn value from one to
/// below `cap`.
pub open spec fn kept_or_drawn(before: i32, after: i32, cap: int) -> bool {
    after == before || exists|v: u64| 1 <= v < cap && after == #[trigger] stored(v)
}

/// A drawn value as an entry stores it (cut to 32 bits, as `as i32` does).
pub open spec fn stored(v: u64) -> i32 {
    v as i32
}

/// Whether distributing the points of `g` stays within the integer types: the actions, the
/// attributes, the armor and the dodge can grow by as much as the points allow.
pub open spec fn distribution_fits(g: GeneratedItem) -> bool {
    &&& g.points >= 1
    &&& g.action * 3750 + g.points <= u64::MAX
    &&& attributes_wf(g.attribute_bonus)
    &&& attribute_value(g.attribute_bonus.strength) + g.points / 1000 < u32::MAX
    &&& attribute_value(g.attribute_bonus.dexterity) + g.points / 1000 < u32::MAX
    &&& attribute_value(g.attribute_bonus.constitution) + g.points / 1000 < u32::MAX
    &&& attribute_value(g.attribute_bonus.intelligence) + g.points / 1000 < u32::MAX
    &&& attribute_value(g.attribute_bonus.wisdom) + g.points / 1000 < u32::MAX
    &&& attribute_value(g.attribute_bonus.charisma) + g.points / 1000 < u32::MAX
    &&& g.armor + g.dodge + g.points + u32::MAX <= u64::MAX
    &&& resist_keys(g.resistance@)
    &&& damage_keys(g.damage@)
}

/// Each attribute of `after` is at least that of `before`.
pub open spec fn attributes_grew(before: Attributes, after: Attributes) -> bool {
    &&& attribute_value(before.strength) <= attribute_value(after.strength)
    &&& attribute_value(before.dexterity) <= attribute_value(after.dexterity)
    &&& attribute_value(before.constitution) <= attribute_value(after.constitution)
    &&& attribute_value(before.intelligence) <= attribute_value(after.intelligence)
    &&& attribute_value(before.wisdom) <= attribute_value(after.wisdom)
    &&& attribute_value(before.charisma) <= attribute_value(after.charisma)
}

/// Every attribute of `after` other than `a` is as in `before`.
pub open spec fn only_raised(before: Attributes, after: Attributes, a: AttributeChoices) -> bool {
    &&& a != AttributeChoices::Strength ==> after.strength == before.strength
    &&& a != AttributeChoices::Dexterity ==> after.dexterity == before.dexterity
    &&& a != AttributeChoices::Constitution ==> after.constitution == before.constitution
    &&& a != AttributeChoices::Intelligence ==> after.intelligence == before.intelligence
    &&& a != AttributeChoices::Wisdom ==> after.wisdom == before.wisdom
    &&& a != AttributeChoices::Charisma ==> after.charisma == before.charisma
}

impl GeneratedItem {
    /// Spends the item's points at random. The rarity is set from the points; the points
    /// become a random number from half of them to below them; one action may come per 3750
    /// points (each with chance 3 in 200) and one attribute point per 1000 (each with chance
    /// 1 in 20, to `attribute` or to a random attribute); what is left goes, draw by draw, to
    /// armor, dodge, a resistance or a damage (of the kind `element` where given), each draw
    /// costing five times its size, until nothing is left (after at most `u32::MAX` draws).
    pub fn distribute_points(&mut self, element: Option<DamageType>, attribute: Option<AttributeChoices>)
        requires
            distribution_fits(*old(self)),
        ensures
            final(self).rarity == Rarity::of_points(old(self).points),
            old(self).points / 2 <= final(self).points < old(self).points,
            old(self).action <= final(self).action <= old(self).action + final(self).points / 3750,
            attributes_wf(final(self).attribute_bonus),
            attributes_grew(old(self).attribute_bonus, final(self).attribute_bonus),
            attribute_total(final(self).attribute_bonus) <= attribute_total(old(self).attribute_bonus) + final(self).points / 1000,
            old(self).armor <= final(self).armor,
            old(self).dodge <= final(self).dodge,
            final(self).armor + final(self).dodge <= old(self).armor + old(self).dodge + final(self).points + u32::MAX,
            resist_keys(final(self).resistance@),
            damage_keys(final(self).damage@),
            forall|i: int| 0 <= i < final(self).resistance@.len() ==> kept_or_drawn(
                old(self).resistance@[i].1,
                #[trigger] final(self).resistance@[i].1,
                share(final(self).points) * 6,
            ),
            forall|i: int| 0 <= i < final(self).damage@.len() ==> kept_or_drawn(
                old(self).damage@[i].1,
                #[trigger] final(self).damage@[i].1,
                share(final(self).points) * 18,
            ),
            element matches Some(e) ==> forall|i: int| 0 <= i < final(self).damage@.len()
                && (#[trigger] final(self).damage@[i]).0 != e ==> final(self).damage@[i].1 == old(self).damage@[i].1,
            attribute matches Some(a) ==> only_raised(old(self).attribute_bonus, final(self).attribute_bonus, a),
            points_left(*final(self)) > 0 ==> drew(*old(self), *final(self)),
            exists|draws: Seq<Draw>|
                draws.len() <= u32::MAX && draws_made(points_left(*final(self)) as u64, draws, element) && spendable(
                    *final(self),
                ) == after_draws(spendable(*old(self)), draws) && (budget_after(
                    points_left(*final(self)) as u64,
                    draws,
                ) == 0 || draws.len() == u32::MAX),
    {
        let ghost start = *self;
        self.rarity = self.rarity();
        let top = self.points;
        let mut points = random_range(top / 2, top);
        self.points = points;
        let mut action_rolls = self.points / 3750;
        while action_rolls > 0
            invariant
                action_rolls <= self.points / 3750,
                start.action <= self.action,
                self.action + action_rolls <= start.action + self.points / 3750,
                self.points < start.points,
                start.action * 3750 + start.points <= u64::MAX,
                self.attribute_bonus == start.attribute_bonus,
                self.armor == start.armor,
                self.dodge == start.dodge,
                self.resistance == start.resistance,
                self.damage == start.damage,
                self.rarity == Rarity::of_points(start.points),
                start.points / 2 <= self.points,
                points == self.points,
            decreases action_rolls,
        {
            if random_ratio(3, 200) {
                self.action = self.action + 1;
            }
            action_rolls = action_rolls - 1;
        }
        proof {
            assert(self.action * 3750 <= start.action * 3750 + self.points) by (nonlinear_arith)
                requires
                    self.action <= start.action + self.points / 3750,
            ;
        }
        points = points.saturating_sub(self.action * 3750);
        let mut attribute_points = self.points / 1000;
        while attribute_points > 0
            invariant
                attribute_points <= self.points / 1000,
                attributes_wf(self.attribute_bonus),
                attributes_grew(start.attribute_bonus, self.attribute_bonus),
                attribute_total(self.attribute_bonus) + attribute_points <= attribute_total(start.attribute_bonus)
                    + self.points / 1000,
                attribute_value(self.attribute_bonus.strength) + attribute_points <= attribute_value(start.attribute_bonus.strength) + self.points / 1000,
                attribute_value(self.attribute_bonus.dexterity) + attribute_points <= attribute_value(start.attribute_bonus.dexterity) + self.points / 1000,
                attribute_value(self.attribute_bonus.constitution) + attribute_points <= attribute_value(start.attribute_bonus.constitution) + self.points / 1000,
                attribute_value(self.attribute_bonus.intelligence) + attribute_points <= attribute_value(start.attribute_bonus.intelligence) + self.points / 1000,
                attribute_value(self.attribute_bonus.wisdom) + attribute_points <= attribute_value(start.attribute_bonus.wisdom) + self.points / 1000,
                attribute_value(self.attribute_bonus.charisma) + attribute_points <= attribute_value(start.attribute_bonus.charisma) + self.points / 1000,
                self.points < start.points,
                distribution_fits(start),
                self.armor == start.armor,
                self.dodge == start.dodge,
                self.resistance == start.resistance,
                self.damage == start.damage,
                self.rarity == Rarity::of_points(start.points),
                start.points / 2 <= self.points,
                start.action <= self.action <= start.action + self.points / 3750,
                points <= self.points,
                points == (if self.points - self.action * 3750 < 0 { 0 } else { self.points - self.action * 3750 }),
                attribute matches Some(a) ==> only_raised(start.attribute_bonus, self.attribute_bonus, a),
            decreases attribute_points,
        {
            if random_ratio(1, 20) {
                let chosen = match attribute {
                    Some(a) => a,
                    None => AttributeChoices::random(),
                };
                self.attribute_bonus.raise_one(chosen);
            }
            attribute_points = attribute_points - 1;
        }
        points = points.saturating_sub(self.attribute_bonus.sum() * 1000);
        let ghost pstart = points;
        assert(pstart == points_left(*self));
        let ghost mut iterated = false;
        let ghost mut draws: Seq<Draw> = Seq::empty();
        let ghost bonus_before = self.attribute_bonus;
        let mut fuel: u32 = u32::MAX;
        assert(spendable(*self) == spendable(start));
        while points > 0 && fuel > 0
            invariant
                self.attribute_bonus == bonus_before,
                draws.len() == u32::MAX - fuel,
                points == budget_after(pstart, draws),
                draws_made(pstart, draws, element),
                spendable(*self) == after_draws(spendable(start), draws),
                !iterated ==> fuel == u32::MAX && points == pstart,
                iterated ==> drew(start, *self),
                pstart == points_left(*self),
                points <= pstart,
                pstart <= self.points,
                self.points < start.points,
                start.armor <= self.armor,
                start.dodge <= self.dodge,
                self.armor + self.dodge + points <= start.armor + start.dodge + pstart + (u32::MAX - fuel),
                start.armor + start.dodge + start.points + u32::MAX <= u64::MAX,
                resist_keys(self.resistance@),
                damage_keys(self.damage@),
                self.resistance@.len() == start.resistance@.len(),
                self.damage@.len() == start.damage@.len(),
                forall|i: int| 0 <= i < self.resistance@.len() ==> kept_or_drawn(
                    start.resistance@[i].1,
                    #[trigger] self.resistance@[i].1,
                    share(self.points) * 6,
                ),
                forall|i: int| 0 <= i < self.damage@.len() ==> kept_or_drawn(
                    start.damage@[i].1,
                    #[trigger] self.damage@[i].1,
                    share(self.points) * 18,
                ),
                element matches Some(e) ==> forall|i: int| 0 <= i < self.damage@.len()
                    && (#[trigger] self.damage@[i]).0 != e ==> self.damage@[i].1 == start.damage@[i].1,
                self.rarity == Rarity::of_points(start.points),
                start.points / 2 <= self.points,
                start.action <= self.action <= start.action + self.points / 3750,
                attributes_wf(self.attribute_bonus),
                attributes_grew(start.attribute_bonus, self.attribute_bonus),
                attribute_total(self.attribute_bonus) <= attribute_total(start.attribute_bonus) + self.points / 1000,
            decreases fuel,
        {
            fuel = fuel - 1;
            let choice = Choices::random();
            let base: u64 = if points / 120 > 1 { points / 120 } else { 1 };
            proof {
                assert(base <= share(self.points)) by {
                    vstd::arithmetic::div_mod::lemma_div_is_ordered(points as int, self.points as int, 120);
                }
                if points >= 120 {
                    assert(5 * (points / 120) <= points) by (nonlinear_arith)
                        requires
                            points >= 120,
                    ;
                }
            }
            let ghost before_draw = spendable(*self);
            let ghost mut d: Draw = Draw::Armor(0);
            let cost: u64 = match choice {
                Choices::Armor => {
                    let v = random_range(0, base);
                    self.armor = self.armor + if v > 1 { v } else { 1 };
                    proof {
                        d = Draw::Armor(v);
                    }
                    v
                },
                Choices::Dodge => {
                    let v = random_range(0, base);
                    self.dodge = self.dodge + if v > 1 { v } else { 1 };
                    proof {
                        d = Draw::Dodge(v);
                    }
                    v
                },
                Choices::Resistance => {
                    let drawn = random_range(0, base * 6);
                    let v = if drawn > 1 { drawn } else { 1 };
                    let k = ResistCategories::random();
                    let ghost before = self.resistance@;
                    set_resistance(&mut self.resistance, k, #[verifier::truncate] (v as i32));
                    proof {
                        d = Draw::Resistance(k, v);
                        assert forall|i: int| 0 <= i < self.resistance@.len() implies #[trigger] self.resistance@[i]
                            == with_entry(before, k, stored(v))[i] by {
                            assert(self.resistance@[i].0 == before[i].0);
                        }
                        assert(self.resistance@ =~= with_entry(before, k, stored(v)));
                        lemma_indices(DamageType::Fire, k);
                        let j = resist_index(k);
                        assert(before[j].0 == k);
                        assert(self.resistance@[j].1 == stored(v));
                        assert(drawn_value(self.resistance@[j].1, share(self.points) * 6));
                        assert forall|i: int| 0 <= i < self.resistance@.len() implies kept_or_drawn(
                            start.resistance@[i].1,
                            #[trigger] self.resistance@[i].1,
                            share(self.points) * 6,
                        ) by {
                            if before[i].0 == k {
                                assert(1 <= v < share(self.points) * 6);
                                assert(self.resistance@[i].1 == stored(v));
                            } else {
                                assert(kept_or_drawn(start.resistance@[i].1, before[i].1, share(self.points) * 6));
                            }
                        }
                    }
                    v
                },
                Choices::Damage => {
                    let drawn = random_range(0, base * 18);
                    let v = if drawn > 1 { drawn } else { 1 };
                    let e = match element {
                        Some(e) => e,
                        None => DamageType::random(),
                    };
                    let ghost before = self.damage@;
                    set_damage(&mut self.damage, e, #[verifier::truncate] (v as i32));
                    proof {
                        d = Draw::Damage(e, v);
                        assert forall|i: int| 0 <= i < self.damage@.len() implies #[trigger] self.damage@[i]
                            == with_entry(before, e, stored(v))[i] by {
                            assert(self.damage@[i].0 == before[i].0);
                        }
                        assert(self.damage@ =~= with_entry(before, e, stored(v)));
                        lemma_indices(e, ResistCategories::Universal);
                        let j = damage_index(e);
                        assert(before[j].0 == e);
                        assert(self.damage@[j].1 == stored(v));
                        assert(drawn_value(self.damage@[j].1, share(self.points) * 18));
                        assert forall|i: int| 0 <= i < self.damage@.len() implies kept_or_drawn(
                            start.damage@[i].1,
                            #[trigger] self.damage@[i].1,
                            share(self.points) * 18,
                        ) by {
                            if before[i].0 == e {
                                assert(1 <= v < share(self.points) * 18);
                                assert(self.damage@[i].1 == stored(v));
                            } else {
                                assert(kept_or_drawn(start.damage@[i].1, before[i].1, share(self.points) * 18));
                            }
                        }
                    }
                    v
                },
            };
            let ghost budget = points;
            points = points.saturating_sub(cost * 5);
            proof {
                iterated = true;
                let prev = draws;
                draws = draws.push(d);
                assert(draws.drop_last() =~= prev);
                assert(draw_value(d) == cost);
                assert(draw_fits(d, budget, element));
                assert(budget_after(pstart, draws) == points);
                assert(after_draws(spendable(start), draws) == spendable(*self));
                assert forall|k: int| 0 <= k < draws.len() implies budget_after(pstart, #[trigger] draws.take(k)) > 0
                    && draw_fits(draws[k], budget_after(pstart, draws.take(k)), element) by {
                    if k < prev.len() {
                        assert(draws.take(k) =~= prev.take(k));
                        assert(draws[k] == prev[k]);
                    } else {
                        assert(draws.take(k) =~= prev);
                    }
                }
            }
        }
    }
}

/// An item rolled from points: its name, slot, armor, dodge, resistances, damage,
/// attribute bonus, actions, rarity and points.
#[derive(Debug, Clone)]
pub struct RolledItem {
    pub name: String,
    pub description: String,
    pub slot: EquipmentSlot,
    pub armor: i32,
    pub dodge: i32,
    pub resistance: Vec<(ResistCategories, i32)>,
    pub damage: Vec<(DamageType, i32)>,
    pub attribute_bonus: Attributes,
    pub action: i32,
    pub rarity: Rarity,
    pub points: u64,
}

/// The words that name the attribute an item is named after.
pub open spec fn stat_text(s: Option<AttributeChoices>) -> Seq<char> {
    match s {
        Some(AttributeChoices::Strength) => "of strength"@,
        Some(AttributeChoices::Dexterity) => "of dexterity"@,
        Some(AttributeChoices::Constitution) => "of constitution"@,
        Some(AttributeChoices::Intelligence) => "of intelligence"@,
        Some(AttributeChoices::Wisdom) => "of wisdom"@,
        Some(AttributeChoices::Charisma) => "of charisma"@,
        None => Seq::empty(),
    }
}

/// The name of a rolled item: "Unrelenting " where it grants actions, its rarity, a word,
/// its slot and the attribute it is named after.
pub open spec fn rolled_name(action: u64, rarity: Rarity, word: Seq<char>, slot: EquipmentSlot, stat: Option<AttributeChoices>) -> Seq<char> {
    (if action > 0 { "Unrelenting "@ } else { Seq::empty() }) + rarity.variant_name() + " "@ + word + " "@
        + slot.variant_name() + " "@ + stat_text(stat)
}

/// The most points an item is rolled from, where another rarity asks for more: those of
/// an epic item.
pub open spec fn rolled_points(r: Rarity) -> u64 {
    if r.number() < Rarity::Epic.number() {
        Rarity::Epic.points()
    } else {
        r.points()
    }
}

/// What is left of an item's points for armor, dodge, resistances and damage once its
/// actions (3750 points each) and attribute points (1000 each) are paid for, never below
/// zero.
pub open spec fn points_left(g: GeneratedItem) -> int {
    let a = g.points - g.action * 3750;
    let a = if a < 0 { 0 } else { a };
    let b = a - attribute_total(g.attribute_bonus) * 1000;
    if b < 0 { 0 } else { b }
}

/// Whether an entry holds a value drawn from one to below `cap`.
pub open spec fn drawn_value(x: i32, cap: int) -> bool {
    exists|v: u64| 1 <= v < cap && x == #[trigger] stored(v)
}

/// `after` shows a draw spent on `before`: more armor, more dodge, or a resistance or a
/// damage holding a drawn value.
pub open spec fn drew(before: GeneratedItem, after: GeneratedItem) -> bool {
    ||| after.armor > before.armor
    ||| after.dodge > before.dodge
    ||| exists|i: int| 0 <= i < after.resistance@.len() && #[trigger] drawn_value(after.resistance@[i].1, share(after.points) * 6)
    ||| exists|i: int| 0 <= i < after.damage@.len() && #[trigger] drawn_value(after.damage@[i].1, share(after.points) * 18)
}

/// The place of a damage type in declaration order.
pub open spec fn damage_index(d: DamageType) -> int {
    match d {
        DamageType::Fire => 0,
        DamageType::Water => 1,
        DamageType::Earth => 2,
        DamageType::Air => 3,
        DamageType::Light => 4,
        DamageType::Dark => 5,
        DamageType::Iron => 6,
        DamageType::Arcane => 7,
        DamageType::Holy => 8,
        DamageType::NonElemental => 9,
        DamageType::Physical => 10,
        DamageType::Hope => 11,
        DamageType::Despair => 12,
        DamageType::Existential => 13,
        DamageType::Boss => 14,
        DamageType::Prismatic => 15,
        DamageType::Healing => 16,
        DamageType::Universal => 17,
    }
}

/// The place of a resistance category in declaration order.
pub open spec fn resist_index(k: ResistCategories) -> int {
    match k {
        ResistCategories::Elemental => 0,
        ResistCategories::Physical => 1,
        ResistCategories::NonElemental => 2,
        ResistCategories::Boss => 3,
        ResistCategories::Prismatic => 4,
        ResistCategories::Universal => 5,
    }
}

proof fn lemma_indices(d: DamageType, k: ResistCategories)
    ensures
        0 <= damage_index(d) < all_damage_types().len(),
        all_damage_types()[damage_index(d)] == d,
        0 <= resist_index(k) < all_resist_categories().len(),
        all_resist_categories()[resist_index(k)] == k,
{
}

/// One draw spent on an item's remaining points: armor or dodge raised by the value (at
/// least one), or a resistance or a damage entry set to the value; what it costs is the
/// value, five times over.
#[derive(Debug, Clone, Copy)]
pub enum Draw {
    Armor(u64),
    Dodge(u64),
    Resistance(ResistCategories, u64),
    Damage(DamageType, u64),
}

/// The value a draw took.
pub open spec fn draw_value(d: Draw) -> u64 {
    match d {
        Draw::Armor(v) => v,
        Draw::Dodge(v) => v,
        Draw::Resistance(_, v) => v,
        Draw::Damage(_, v) => v,
    }
}

/// Whether a draw is one that can be made with `budget` points left: armor or dodge below
/// `share(budget)`, a resistance from one to below six times that, a damage from one to
/// below eighteen times that, of the kind `element` where given.
pub open spec fn draw_fits(d: Draw, budget: u64, element: Option<DamageType>) -> bool {
    match d {
        Draw::Armor(v) => v < share(budget),
        Draw::Dodge(v) => v < share(budget),
        Draw::Resistance(_, v) => 1 <= v < share(budget) * 6,
        Draw::Damage(e, v) => 1 <= v < share(budget) * 18 && (element matches Some(x) ==> e == x),
    }
}

/// The points left of `budget` after `draws`, each taking five times its value, never
/// below zero.
pub open spec fn budget_after(budget: u64, draws: Seq<Draw>) -> u64
    decreases draws.len(),
{
    if draws.len() == 0 {
        budget
    } else {
        let p = budget_after(budget, draws.drop_last());
        if p >= 5 * draw_value(draws.last()) {
            (p - 5 * draw_value(draws.last())) as u64
        } else {
            0
        }
    }
}

/// `v` with the entry of key `k` set to `value`.
pub open spec fn with_entry<K>(v: Seq<(K, i32)>, k: K, value: i32) -> Seq<(K, i32)> {
    Seq::new(v.len(), |i: int| if v[i].0 == k { (v[i].0, value) } else { v[i] })
}

/// The armor, dodge, resistances and damage of an item once `draws` were made on `f`.
pub open spec fn after_draws(
    f: (u64, u64, Seq<(ResistCategories, i32)>, Seq<(DamageType, i32)>),
    draws: Seq<Draw>,
) -> (u64, u64, Seq<(ResistCategories, i32)>, Seq<(DamageType, i32)>)
    decreases draws.len(),
{
    if draws.len() == 0 {
        f
    } else {
        let g = after_draws(f, draws.drop_last());
        match draws.last() {
            Draw::Armor(v) => ((g.0 + if v > 1 { v } else { 1 }) as u64, g.1, g.2, g.3),
            Draw::Dodge(v) => (g.0, (g.1 + if v > 1 { v } else { 1 }) as u64, g.2, g.3),
            Draw::Resistance(k, v) => (g.0, g.1, with_entry(g.2, k, stored(v)), g.3),
            Draw::Damage(e, v) => (g.0, g.1, g.2, with_entry(g.3, e, stored(v))),
        }
    }
}

/// Whether `draws` were made one after another from `budget` points: each while points
/// were left and fitting what was left.
pub open spec fn draws_made(budget: u64, draws: Seq<Draw>, element: Option<DamageType>) -> bool {
    forall|k: int|
        0 <= k < draws.len() ==> budget_after(budget, #[trigger] draws.take(k)) > 0 && draw_fits(
            draws[k],
            budget_after(budget, draws.take(k)),
            element,
        )
}

/// The armor, dodge, resistances and damage of an item, together.
pub open spec fn spendable(g: GeneratedItem) -> (u64, u64, Seq<(ResistCategories, i32)>, Seq<(DamageType, i32)>) {
    (g.armor, g.dodge, g.resistance@, g.damage@)
}

/// Whether distributing `points` on a blank item stays within the integer types.
pub open spec fn blank_fits(points: u64) -> bool {
    &&& points / 1000 < u32::MAX
    &&& points + u32::MAX <= u64::MAX
}


/// The points an item dropped from a draw of `drawn` points is rolled from: the draw, but
/// never more than an epic item's points.
pub open spec fn drawn_points(drawn: u64) -> u64 {
    if drawn < Rarity::Epic.points() {
        drawn
    } else {
        Rarity::Epic.points()
    }
}

impl GeneratedItem {
    /// A random slot for the item.
    fn slot(&self) -> (r: EquipmentSlot)
        ensures
            exists|n: u64| n < 1000 && r == crate::items::slot_for_roll(n),
    {
        EquipmentSlot::random()
    }

    /// The item the points were spent on, with a random slot and a name with a random word.
    pub fn item(self) -> (r: RolledItem)
        ensures
            exists|w: Seq<char>| r.name@ == rolled_name(self.action, self.rarity, w, r.slot, max_stat(self.attribute_bonus)),
            r.description@ == Seq::<char>::empty(),
            r.armor == self.armor as i32,
            r.dodge == self.dodge as i32,
            r.resistance@ == self.resistance@,
            r.damage@ == self.damage@,
            r.attribute_bonus == self.attribute_bonus,
            r.action == self.action as i32,
            r.rarity == self.rarity,
            r.points == self.points,
    {
        let slot = self.slot();
        let rarity = self.rarity;
        let stat = match self.attribute_bonus.max_stat() {
            Some(AttributeChoices::Strength) => "of strength",
            Some(AttributeChoices::Dexterity) => "of dexterity",
            Some(AttributeChoices::Constitution) => "of constitution",
            Some(AttributeChoices::Intelligence) => "of intelligence",
            Some(AttributeChoices::Wisdom) => "of wisdom",
            Some(AttributeChoices::Charisma) => "of charisma",
            None => "",
        };
        proof {
            reveal_strlit("");
        }
        let action_string = if self.action > 0 { "Unrelenting " } else { "" };
        let word = random_english_word();
        let mut name = action_string.to_owned();
        name.append(rarity.variant_text());
        name.append(" ");
        name.append(word);
        name.append(" ");
        name.append(slot.variant_text());
        name.append(" ");
        name.append(stat);
        proof {
            assert(""@ =~= Seq::<char>::empty());
            assert(stat@ == stat_text(max_stat(self.attribute_bonus)));
            assert(name@ =~= rolled_name(self.action, self.rarity, word@, slot, max_stat(self.attribute_bonus)));
        }
        RolledItem {
            name,
            description: String::new(),
            slot,
            armor: #[verifier::truncate] (self.armor as i32),
            dodge: #[verifier::truncate] (self.dodge as i32),
            resistance: self.resistance,
            damage: self.damage,
            attribute_bonus: self.attribute_bonus,
            action: #[verifier::truncate] (self.action as i32),
            rarity,
            points: self.points,
        }
    }

    /// An item rolled from `points` points with any damage type and attributes.
    pub fn from_points(points: u64) -> (r: GeneratedItem)
        requires
            blank_fits(points),
        ensures
            r.rarity == Rarity::of_points(if points == 0 { 1 } else { points }),
            (if points == 0 { 1 } else { points }) / 2 <= r.points < (if points == 0 { 1 } else { points }),
            r.action <= r.points / 3750,
            attribute_total(r.attribute_bonus) <= r.points / 1000,
    {
        let mut base = GeneratedItem::new(points);
        proof {
            assert(attribute_total(base.attribute_bonus) == 0);
        }
        base.distribute_points(None, None);
        base
    }

    /// An item rolled from the points of a rarity, no rarer than epic.
    pub fn from_rarity(rarity: Rarity) -> (r: GeneratedItem)
        ensures
            r.rarity == Rarity::of_points(rolled_points(rarity)),
            rolled_points(rarity) / 2 <= r.points < rolled_points(rarity),
    {
        if rarity < Rarity::Epic {
            let points = Rarity::Epic.item_points();
            GeneratedItem::from_points(points)
        } else {
            let points = rarity.item_points();
            GeneratedItem::from_points(points)
        }
    }

    /// An item rolled from `points` points whose damage is of `damage_type` and whose
    /// attribute points go to the attribute `attribute` names (in any case); none where it
    /// names no attribute.
    pub fn from_parts(damage_type: DamageType, attribute: String, points: u64) -> (r: Option<GeneratedItem>)
        requires
            blank_fits(points),
        ensures
            attribute_choice_named(crate::units::lowercase(attribute@)) is None ==> r is None,
            attribute_choice_named(crate::units::lowercase(attribute@)) is Some ==> (r matches Some(g) && ({
                let p = if points == 0 { 1 } else { points };
                &&& g.rarity == Rarity::of_points(p)
                &&& p / 2 <= g.points < p
                &&& forall|i: int| 0 <= i < g.damage@.len() && (#[trigger] g.damage@[i]).0 != damage_type
                    ==> g.damage@[i].1 == 0
            })),
            attribute_choice_named(crate::units::lowercase(attribute@)) matches Some(a) ==> (r matches Some(g)
                && only_raised(attributes_with(0, 0, 0, 0, 0, 0), g.attribute_bonus, a)),
    {
        match AttributeChoices::from_name(attribute.as_str()) {
            None => None,
            Some(a) => {
                let mut base = GeneratedItem::new(points);
                base.distribute_points(Some(damage_type), Some(a));
                Some(base)
            },
        }
    }

    /// The item an enemy drops once `drawn` points were drawn: it is rolled from the draw,
    /// but never from more than an epic item's points.
    pub fn dropped_item(drawn: u64) -> (r: RolledItem)
        requires
            drawn >= 1,
        ensures
            drawn_points(drawn) / 2 <= r.points < drawn_points(drawn),
            r.rarity == Rarity::of_points(drawn_points(drawn)),
    {
        let points = if drawn < Rarity::Epic.item_points() { drawn } else { Rarity::Epic.item_points() };
        GeneratedItem::from_points(points).item()
    }

    /// What a defeated enemy drops: with chance grade number in two hundred, one item rolled
    /// from a random number of points from the grade number to below twice the grade number
    /// times the level, at most those of an epic item; else nothing.
    pub fn drops(enemy: &Enemy) -> (r: Vec<RolledItem>)
        requires
            enemy.level >= 1,
        ensures
            r@.len() <= 1,
            forall|i: int| 0 <= i < r@.len() ==> (#[trigger] r@[i]).points < Rarity::Epic.points(),
            forall|i: int|
                0 <= i < r@.len() ==> exists|drawn: u64|
                    #![trigger drawn_points(drawn)]
                    enemy.kind.grade_of().number() <= drawn < 2 * enemy.kind.grade_of().number() * enemy.level && {
                        let p = drawn_points(drawn);
                        &&& p / 2 <= (#[trigger] r@[i]).points < p
                        &&& r@[i].rarity == Rarity::of_points(p)
                    },
    {
        let grade = enemy.kind.grade().value() as u64;
        if random_ratio(grade as u32, 200) {
            assert(grade * enemy.level <= 10 * 0xffff_ffff && grade < grade * enemy.level * 2) by (nonlinear_arith)
                requires
                    1 <= grade <= 10,
                    1 <= enemy.level <= 0xffff_ffff,
            ;
            let drawn = random_range(grade, grade * enemy.level as u64 * 2);
            let ghost g: int = enemy.kind.grade_of().number() as int;
            assert(grade * enemy.level * 2 == 2 * g * enemy.level) by (nonlinear_arith)
                requires
                    grade == g,
            ;
            let it = GeneratedItem::dropped_item(drawn);
            let ghost got = it;
            let v = vec![it];
            assert(v@[0] == got);
            v
        } else {
            Vec::new()
        }
    }
}

} // verus!
