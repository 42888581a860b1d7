use vstd::prelude::*;
use vstd::string::StringExecFns;
use crate::classes::Classes;
use crate::dice::{advantage_after, AdvantageState, Dice, DieObject};
use crate::items::{equipment_text, equipment_wf, worn, actions_of, Equipment};
use crate::random::random_below;
use crate::skills::SkillSet;
use crate::text::{decimal, signed_decimal, signed_text, unsigned_text};
use crate::traits::{raised_by, trait_named, CharacterTraits};
use crate::CarrionError;
use crate::units::{lowercase, attribute_value, attributes_wf, class_attributes, Attribute, Attributes};

verus! {

/// The dice of one action: physical and magical, either of which may be missing.
#[derive(Debug, Clone, Default)]
pub struct ActionDice {
    pub physical: Option<Dice>,
    pub magical: Option<Dice>,
}

/// The number of dice an optional set holds.
pub open spec fn dice_count(d: Option<Dice>) -> nat {
    match d {
        Some(dice) => dice.dice@.len(),
        None => 0,
    }
}

/// `d` with the critical advantage of each die combined with `a`.
pub open spec fn with_critical_state(d: Seq<DieObject>, a: AdvantageState) -> Seq<DieObject> {
    Seq::new(d.len(), |i: int| DieObject { advantage: advantage_after(d[i].advantage, a), ..d[i] })
}

/// `d` with the critical target of each die moved by `critical`, zero where it leaves the
/// range of `u32`.
pub open spec fn with_critical_target(d: Seq<DieObject>, critical: i32) -> Seq<DieObject> {
    Seq::new(
        d.len(),
        |i: int|
            DieObject {
                critical: if d[i].critical + critical < 0 || d[i].critical + critical > u32::MAX {
                    0
                } else {
                    (d[i].critical + critical) as u32
                },
                ..d[i]
            },
    )
}

/// The optional set with every die changed by `f`.
pub open spec fn map_dice(d: Option<Dice>, f: spec_fn(Seq<DieObject>) -> Seq<DieObject>) -> Option<Seq<DieObject>> {
    match d {
        Some(dice) => Some(f(dice.dice@)),
        None => None,
    }
}

/// The dice of an optional set, as a sequence.
pub open spec fn dice_of(d: Option<Dice>) -> Option<Seq<DieObject>> {
    match d {
        Some(dice) => Some(dice.dice@),
        None => None,
    }
}

/// The physical and the magical dice of an action.
pub open spec fn dice_pair(d: ActionDice) -> (Option<Seq<DieObject>>, Option<Seq<DieObject>>) {
    (dice_of(d.physical), dice_of(d.magical))
}

/// The dice of `die` parted by `to_physical`: in order, those whose coin is true, and those
/// whose coin is false.
pub open spec fn routed(die: Seq<DieObject>, to_physical: Seq<bool>) -> (Seq<DieObject>, Seq<DieObject>)
    decreases die.len(),
{
    if die.len() == 0 {
        (Seq::empty(), Seq::empty())
    } else {
        let (p, m) = routed(die.drop_last(), to_physical.drop_last());
        if to_physical.last() {
            (p.push(die.last()), m)
        } else {
            (p, m.push(die.last()))
        }
    }
}

/// `after` is `before` with `die` added. Where both sets are there, each die of `die` goes to
/// the end of exactly one of them, in order; else each set that is there gains all of `die`
/// at its end. A missing set stays missing.
pub open spec fn dice_added(
    before: (Option<Seq<DieObject>>, Option<Seq<DieObject>>),
    after: (Option<Seq<DieObject>>, Option<Seq<DieObject>>),
    die: Seq<DieObject>,
) -> bool {
    if before.0 is Some && before.1 is Some {
        exists|coins: Seq<bool>|
            coins.len() == die.len() && after == (
                Some(before.0.unwrap() + #[trigger] routed(die, coins).0),
                Some(before.1.unwrap() + routed(die, coins).1),
            )
    } else {
        &&& after.0 == (match before.0 {
            Some(p) => Some(p + die),
            None => None,
        })
        &&& after.1 == (match before.1 {
            Some(m) => Some(m + die),
            None => None,
        })
    }
}

impl ActionDice {
    /// The number of dice, physical and magical.
    pub fn len(&self) -> (r: usize)
        requires
            dice_count(self.physical) + dice_count(self.magical) <= usize::MAX,
        ensures
            r == dice_count(self.physical) + dice_count(self.magical),
    {
        let mut len: usize = 0;
        if let Some(d) = &self.physical {
            len = len + d.len();
        }
        if let Some(d) = &self.magical {
            len = len + d.len();
        }
        len
    }

    /// Whether there are no dice at all.
    pub fn is_empty(&self) -> (r: bool)
        requires
            dice_count(self.physical) + dice_count(self.magical) <= usize::MAX,
        ensures
            r == (dice_count(self.physical) + dice_count(self.magical) == 0),
    {
        self.len() == 0
    }

    pub fn physical(&self) -> (r: Option<&Dice>)
        ensures
            match self.physical {
                Some(d) => r == Some(&d),
                None => r is None,
            },
    {
        self.physical.as_ref()
    }

    pub fn magical(&self) -> (r: Option<&Dice>)
        ensures
            match self.magical {
                Some(d) => r == Some(&d),
                None => r is None,
            },
    {
        self.magical.as_ref()
    }

    /// Adds the dice: where there are both physical and magical dice, each die goes to one
    /// of them by a coin toss; else every die goes to each set that is there.
    pub fn add_existing_die(&mut self, die: Vec<DieObject>)
        ensures
            dice_added(dice_pair(*old(self)), dice_pair(*final(self)), die@),
    {
        if self.physical.is_some() && self.magical.is_some() {
            let mut physical = self.physical.take().unwrap();
            let mut magical = self.magical.take().unwrap();
            let ghost p0 = physical.dice@;
            let ghost m0 = magical.dice@;
            let ghost mut coins: Seq<bool> = Seq::empty();
            let mut i: usize = 0;
            while i < die.len()
                invariant
                    i <= die@.len(),
                    coins.len() == i,
                    physical.dice@ == p0 + routed(die@.take(i as int), coins).0,
                    magical.dice@ == m0 + routed(die@.take(i as int), coins).1,
                decreases die@.len() - i,
            {
                let d = die[i];
                let ghost before_p = physical.dice@;
                let ghost before_m = magical.dice@;
                let heads = random_below(2) == 0;
                if heads {
                    physical.add_die(vec![d]);
                } else {
                    magical.add_die(vec![d]);
                }
                proof {
                    let taken = die@.take(i as int + 1);
                    assert(taken.drop_last() =~= die@.take(i as int));
                    assert(coins.push(heads).drop_last() =~= coins);
                    coins = coins.push(heads);
                    let r = routed(taken, coins);
                    assert(r == (if heads {
                        (routed(die@.take(i as int), coins.drop_last()).0.push(d), routed(die@.take(i as int), coins.drop_last()).1)
                    } else {
                        (routed(die@.take(i as int), coins.drop_last()).0, routed(die@.take(i as int), coins.drop_last()).1.push(d))
                    }));
                    if heads {
                        assert(physical.dice@ =~= p0 + r.0);
                        assert(magical.dice@ =~= m0 + r.1);
                    } else {
                        assert(physical.dice@ =~= p0 + r.0);
                        assert(magical.dice@ =~= m0 + r.1);
                    }
                }
                i = i + 1;
            }
            proof {
                assert(die@.take(die@.len() as int) =~= die@);
            }
            self.physical = Some(physical);
            self.magical = Some(magical);
        } else {
            if let Some(mut d) = self.physical.take() {
                let copy = die.clone();
                assert(copy@ =~= die@);
                d.add_die(copy);
                self.physical = Some(d);
            }
            if let Some(mut d) = self.magical.take() {
                let copy = die.clone();
                assert(copy@ =~= die@);
                d.add_die(copy);
                self.magical = Some(d);
            }
        }
    }

    /// Combines the critical advantage of every die with `state`.
    pub fn set_critical_state(&mut self, state: AdvantageState)
        ensures
            dice_of(final(self).physical) == map_dice(old(self).physical, |d: Seq<DieObject>| with_critical_state(d, state)),
            dice_of(final(self).magical) == map_dice(old(self).magical, |d: Seq<DieObject>| with_critical_state(d, state)),
    {
        if let Some(mut dice) = self.physical.take() {
            dice.set_critical_advantage(state);
            proof {
                assert(dice.dice@ =~= with_critical_state(old(self).physical.unwrap().dice@, state));
            }
            self.physical = Some(dice);
        }
        if let Some(mut dice) = self.magical.take() {
            dice.set_critical_advantage(state);
            proof {
                assert(dice.dice@ =~= with_critical_state(old(self).magical.unwrap().dice@, state));
            }
            self.magical = Some(dice);
        }
    }

    /// Moves the critical target of every die by `target`.
    pub fn set_critical_target(&mut self, target: i32)
        requires
            target != i32::MIN,
        ensures
            dice_of(final(self).physical) == map_dice(old(self).physical, |d: Seq<DieObject>| with_critical_target(d, target)),
            dice_of(final(self).magical) == map_dice(old(self).magical, |d: Seq<DieObject>| with_critical_target(d, target)),
    {
        if let Some(mut dice) = self.physical.take() {
            dice.set_critical_target(target);
            proof {
                assert(dice.dice@ =~= with_critical_target(old(self).physical.unwrap().dice@, target));
            }
            self.physical = Some(dice);
        }
        if let Some(mut dice) = self.magical.take() {
            dice.set_critical_target(target);
            proof {
                assert(dice.dice@ =~= with_critical_target(old(self).magical.unwrap().dice@, target));
            }
            self.magical = Some(dice);
        }
    }
}

/// What spending a waiting trait came to: there was none waiting, no trait was named, the
/// name was no trait, the trait was held already, or it was taken.
#[derive(Debug)]
pub enum TraitSpend {
    NoneWaiting,
    NotGiven,
    Invalid(CarrionError),
    AlreadyHeld,
    Taken(CharacterTraits),
}

/// A player's character.
#[derive(Debug, Clone)]
pub struct Character {
    pub level: u32,
    pub name: String,
    pub user_id: u64,
    pub class: Classes,
    pub max_hp: u32,
    pub hp: i32,
    pub experience: u32,
    pub attributes: Attributes,
    pub traits: Vec<CharacterTraits>,
    pub available_traits: u32,
    pub current_skill: SkillSet,
    pub equipment: Equipment,
}

/// `c` is a character just made: first level, named `name`, of user `user_id` and class
/// `class`, with the class's health, attributes and starting skill, no experience and no
/// traits.
pub open spec fn is_new_character(c: Character, name: Seq<char>, user_id: u64, class: Classes) -> bool {
    &&& c.level == 1
    &&& c.name@ == name
    &&& c.user_id == user_id
    &&& c.class == class
    &&& c.max_hp == class_max_hp(class)
    &&& c.hp == class_max_hp(class)
    &&& c.experience == 0
    &&& c.attributes == class_attributes(class)
    &&& c.traits@ == Seq::<CharacterTraits>::empty()
    &&& c.available_traits == 0
    &&& c.current_skill.skill == class.starting_skill()
    &&& c.current_skill.level == 1
    &&& c.current_skill.experience == 0
    &&& c.current_skill.active
}

/// `after` is `before` having taken `t`: the trait raised the attributes in any case; where
/// it was new (`r`), it joined the traits and used up one waiting trait, else the traits and
/// the count stay. Nothing else changed.
pub open spec fn trait_inserted(before: Character, after: Character, t: CharacterTraits, r: bool) -> bool {
    &&& r == !before.traits@.contains(t)
    &&& raised_by(before.attributes, after.attributes, t)
    &&& r ==> after.traits@ == before.traits@.push(t) && after.available_traits == before.available_traits - 1
    &&& !r ==> after.traits@ == before.traits@ && after.available_traits == before.available_traits
    &&& after.level == before.level
    &&& after.name == before.name
    &&& after.user_id == before.user_id
    &&& after.class == before.class
    &&& after.max_hp == before.max_hp
    &&& after.hp == before.hp
    &&& after.experience == before.experience
    &&& after.current_skill == before.current_skill
    &&& after.equipment == before.equipment
}

/// A character's invariant: its equipment has its five ring and wondrous slots, each
/// attribute field holds its own kind, and no trait is held twice.
pub open spec fn character_wf(c: Character) -> bool {
    &&& equipment_wf(c.equipment)
    &&& attributes_wf(c.attributes)
    &&& c.traits@.no_duplicates()
}

/// The health a class starts with.
pub open spec fn class_max_hp(class: Classes) -> u32 {
    match class {
        Classes::Warrior => 20,
        Classes::Wizard => 10,
        Classes::Sorcerer => 10,
        Classes::Paladin => 15,
    }
}

/// The maximum health after a level-up: the class's gain from constitution added to the
/// current maximum.
pub open spec fn hp_after_gain(class: Classes, constitution: u32, max_hp: u32) -> int {
    let gain = match class {
        Classes::Warrior => constitution * 10 + 10,
        Classes::Wizard => constitution * 3 + 5,
        Classes::Sorcerer => constitution * 3 + 5,
        Classes::Paladin => constitution * 7 + 10,
    };
    gain + max_hp
}

/// The actions of a character in one round: one, one more per ten levels, one for the
/// energetic trait and those of what it wears.
pub open spec fn action_points_of(c: Character) -> int {
    1 + c.level / 10 + (if c.traits@.contains(CharacterTraits::Energetic) { 1int } else { 0int })
        + actions_of(worn(c.equipment))
}

/// `after` is `before` once it tried to gain a trait, `r` telling whether it did: at every
/// tenth level, while fewer traits are held or waiting than one per ten levels, one more
/// waits.
pub open spec fn trait_gain(before: Character, after: Character, r: bool) -> bool {
    &&& r == (before.level % 10 == 0 && before.available_traits + before.traits@.len() < before.level / 10)
    &&& r ==> after == (Character { available_traits: (before.available_traits + 1) as u32, ..before })
    &&& !r ==> after == before
}

/// At every tenth level a character holding and awaiting fewer traits than one per ten
/// levels gains one more to choose; at other levels, or with enough traits, it gains none.
/// A gain never takes the traits past one per ten levels.
pub proof fn law_trait_gain_at_tenth_levels(before: Character, after: Character, r: bool)
    requires
        trait_gain(before, after, r),
    ensures
        before.level % 10 == 0 && before.available_traits + before.traits@.len() < before.level / 10 ==> r
            && after.available_traits == before.available_traits + 1 && after.traits == before.traits,
        before.level % 10 != 0 ==> !r && after.available_traits == before.available_traits,
        before.available_traits + before.traits@.len() >= before.level / 10 ==> !r,
        r ==> after.available_traits + after.traits@.len() <= after.level / 10,
{
}

/// `after` is `before` once it tried to level up with `next(level)` as what a level needs,
/// `r` telling whether it did.
pub open spec fn level_up<F: Fn(u32) -> u32>(before: Character, after: Character, r: bool, next: F) -> bool {
    &&& forall|t: u32| #[trigger] next.ensures((before.level,), t) ==> (r == (before.experience >= t))
    &&& !r ==> after == before
    &&& r ==> {
        let max_hp = hp_after_gain(before.class, attribute_value(before.attributes.constitution), before.max_hp) as u32;
        &&& after.level == before.level + 1
        &&& after.max_hp == max_hp
        &&& after.hp == max_hp as i32
        &&& forall|t: u32| #[trigger] next.ensures((after.level,), t) ==> after.experience == (
            if before.experience >= t {
                before.experience - t
            } else {
                0
            })
        &&& after == (Character {
            level: after.level,
            max_hp: after.max_hp,
            hp: after.hp,
            experience: after.experience,
            ..before
        })
    }
}

/// The text of one attribute.
pub open spec fn attribute_text(a: Attribute) -> Seq<char> {
    match a {
        Attribute::Strength(v) => "Strength: "@ + decimal(v as nat),
        Attribute::Intelligence(v) => "Intelligence: "@ + decimal(v as nat),
        Attribute::Dexterity(v) => "Dexterity: "@ + decimal(v as nat),
        Attribute::Constitution(v) => "Constitution: "@ + decimal(v as nat),
        Attribute::Wisdom(v) => "Wisdom: "@ + decimal(v as nat),
        Attribute::Charisma(v) => "Charisma "@ + decimal(v as nat),
    }
}

/// The text of a set of attributes, one per line.
pub open spec fn attributes_text(a: Attributes) -> Seq<char> {
    "\n\t"@ + attribute_text(a.strength) + "\n\t"@ + attribute_text(a.intelligence) + "\n\t"@
        + attribute_text(a.dexterity) + "\n\t"@ + attribute_text(a.constitution) + "\n\t"@
        + attribute_text(a.wisdom) + "\n\t"@ + attribute_text(a.charisma)
}

/// One line per trait.
pub open spec fn traits_text(t: Seq<CharacterTraits>) -> Seq<char>
    decreases t.len(),
{
    if t.len() == 0 {
        Seq::empty()
    } else {
        traits_text(t.drop_last()) + "\t"@ + t.last().label() + "\n"@
    }
}

/// The text that shows a character.
pub open spec fn character_text(c: Character) -> Seq<char> {
    "```"@ + "\n"@ + "Name: "@ + c.name@ + "\n"@ + "Level: "@ + decimal(c.level as nat) + "\n"@
        + "Class: "@ + c.class.label() + "\n"@ + "HP: "@ + signed_decimal(c.hp as int) + "/"@
        + decimal(c.max_hp as nat) + "\n"@ + "Experience: "@ + decimal(c.experience as nat) + "\n"@
        + "Attributes: "@ + attributes_text(c.attributes) + "\n"@ + "Traits:\n"@ + traits_text(c.traits@)
        + "Equipment:\n"@ + equipment_text(c.equipment) + "```"@
}

/// The text of one attribute.
pub fn attribute_to_string(a: &Attribute) -> (r: String)
    ensures
        r@ == attribute_text(*a),
{
    let (mut s, v) = match a {
        Attribute::Strength(v) => ("Strength: ".to_owned(), *v),
        Attribute::Intelligence(v) => ("Intelligence: ".to_owned(), *v),
        Attribute::Dexterity(v) => ("Dexterity: ".to_owned(), *v),
        Attribute::Constitution(v) => ("Constitution: ".to_owned(), *v),
        Attribute::Wisdom(v) => ("Wisdom: ".to_owned(), *v),
        Attribute::Charisma(v) => ("Charisma ".to_owned(), *v),
    };
    s.append(unsigned_text(v as u64).as_str());
    s
}

impl Attributes {
    /// The text that shows the attributes, one per line.
    pub fn to_string(&self) -> (r: String)
        ensures
            r@ == attributes_text(*self),
    {
        let mut s = "\n\t".to_owned();
        s.append(attribute_to_string(&self.strength).as_str());
        s.append("\n\t");
        s.append(attribute_to_string(&self.intelligence).as_str());
        s.append("\n\t");
        s.append(attribute_to_string(&self.dexterity).as_str());
        s.append("\n\t");
        s.append(attribute_to_string(&self.constitution).as_str());
        s.append("\n\t");
        s.append(attribute_to_string(&self.wisdom).as_str());
        s.append("\n\t");
        s.append(attribute_to_string(&self.charisma).as_str());
        s
    }
}

impl Default for Character {
    /// A nameless first-level warrior with twenty health, every attribute at seven and the
    /// default skill.
    fn default() -> (r: Character)
        ensures
            character_wf(r),
            r.level == 1,
            r.name@ == Seq::<char>::empty(),
            r.user_id == 0,
            r.class == Classes::Warrior,
            r.max_hp == 20,
            r.hp == 20,
            r.experience == 0,
            r.attributes == crate::units::attributes_with(7, 7, 7, 7, 7, 7),
            r.traits@ == Seq::<CharacterTraits>::empty(),
            r.available_traits == 0,
            r.current_skill.skill == crate::skills::Skill::Slash,
            r.current_skill.level == 1,
            r.current_skill.experience == 0,
            !r.current_skill.active,
    {
        Character {
            level: 1,
            name: String::new(),
            user_id: 0,
            class: Classes::Warrior,
            max_hp: 20,
            hp: 20,
            experience: 0,
            attributes: Attributes::default(),
            traits: Vec::new(),
            available_traits: 0,
            current_skill: SkillSet::default(),
            equipment: Equipment::default(),
        }
    }
}

impl Character {
    /// A first-level character of the class with the class's health, attributes and
    /// starting skill, and nothing worn.
    pub fn new(name: String, user_id: u64, class: Classes) -> (r: Character)
        ensures
            character_wf(r),
            is_new_character(r, name@, user_id, class),
    {
        let max_hp: u32 = match class {
            Classes::Warrior => 20,
            Classes::Wizard => 10,
            Classes::Sorcerer => 10,
            Classes::Paladin => 15,
        };
        let base_skill = SkillSet::new(class.action());
        let attributes: Attributes = (&class).into();
        Character {
            level: 1,
            name,
            user_id,
            class,
            max_hp,
            hp: max_hp as i32,
            experience: 0,
            attributes,
            traits: Vec::new(),
            available_traits: 0,
            current_skill: base_skill,
            equipment: Equipment::default(),
        }
    }

    /// The traits the character holds.
    pub fn get_traits(&self) -> (r: &Vec<CharacterTraits>)
        ensures
            r@ == self.traits@,
    {
        &self.traits
    }

    /// The maximum health after a level-up.
    pub fn hp_gain(&self, _level: u32) -> (r: u32)
        requires
            hp_after_gain(self.class, attribute_value(self.attributes.constitution), self.max_hp) <= u32::MAX,
        ensures
            r == hp_after_gain(self.class, attribute_value(self.attributes.constitution), self.max_hp),
    {
        let constitution = self.attributes.constitution.inner();
        let gain = match self.class {
            Classes::Warrior => constitution * 10 + 10,
            Classes::Wizard => constitution * 3 + 5,
            Classes::Sorcerer => constitution * 3 + 5,
            Classes::Paladin => constitution * 7 + 10,
        };
        gain + self.max_hp
    }

    /// Grants a trait to choose at every tenth level, while fewer are held or waiting than
    /// one per ten levels. Returns whether one was granted.
    pub fn try_trait_gain(&mut self) -> (r: bool)
        ensures
            trait_gain(*old(self), *final(self), r),
    {
        let held = self.traits.len() as u128;
        if self.level % 10 == 0 && (self.available_traits as u128) + held < (self.level / 10) as u128 {
            self.available_traits = self.available_traits + 1;
            return true;
        }
        false
    }

    /// Takes a new trait: the trait raises the attributes in any case, and a trait not held
    /// before is added and uses up one waiting trait. Returns whether it was new.
    pub fn insert_trait(&mut self, trait_: CharacterTraits) -> (r: bool)
        requires
            character_wf(*old(self)),
            attribute_value(old(self).attributes.strength) + 3 <= u32::MAX,
            attribute_value(old(self).attributes.intelligence) + 5 <= u32::MAX,
            attribute_value(old(self).attributes.dexterity) + 3 <= u32::MAX,
            attribute_value(old(self).attributes.constitution) + 3 <= u32::MAX,
            attribute_value(old(self).attributes.wisdom) + 3 <= u32::MAX,
            attribute_value(old(self).attributes.charisma) + 3 <= u32::MAX,
            !old(self).traits@.contains(trait_) ==> old(self).available_traits > 0,
        ensures
            character_wf(*final(self)),
            trait_inserted(*old(self), *final(self), trait_, r),
    {
        let present = self.has_trait(trait_);
        trait_.attribute_mutator(&mut self.attributes);
        if present {
            return false;
        }
        self.traits.push(trait_);
        self.available_traits = self.available_traits - 1;
        true
    }

    /// Spends a waiting trait on the trait `name` names, where it is not held yet (see
    /// `TraitSpend`): nothing changes unless the trait is taken.
    pub fn spend_trait(&mut self, name: Option<String>) -> (r: TraitSpend)
        requires
            character_wf(*old(self)),
            attribute_value(old(self).attributes.strength) + 3 <= u32::MAX,
            attribute_value(old(self).attributes.intelligence) + 5 <= u32::MAX,
            attribute_value(old(self).attributes.dexterity) + 3 <= u32::MAX,
            attribute_value(old(self).attributes.constitution) + 3 <= u32::MAX,
            attribute_value(old(self).attributes.wisdom) + 3 <= u32::MAX,
            attribute_value(old(self).attributes.charisma) + 3 <= u32::MAX,
        ensures
            character_wf(*final(self)),
            if old(self).available_traits == 0 {
                r == TraitSpend::NoneWaiting && *final(self) == *old(self)
            } else {
                match name {
                    None => r == TraitSpend::NotGiven && *final(self) == *old(self),
                    Some(n) => match trait_named(lowercase(n@)) {
                        None => r is Invalid && *final(self) == *old(self),
                        Some(t) => if old(self).traits@.contains(t) {
                            r == TraitSpend::AlreadyHeld && *final(self) == *old(self)
                        } else {
                            r == TraitSpend::Taken(t) && trait_inserted(*old(self), *final(self), t, true)
                        },
                    },
                }
            },
    {
        if self.available_traits == 0 {
            return TraitSpend::NoneWaiting;
        }
        let name = match name {
            Some(n) => n,
            None => {
                return TraitSpend::NotGiven;
            },
        };
        match CharacterTraits::try_from(name) {
            Ok(t) => {
                if self.has_trait(t) {
                    TraitSpend::AlreadyHeld
                } else {
                    self.insert_trait(t);
                    TraitSpend::Taken(t)
                }
            },
            Err(e) => TraitSpend::Invalid(e),
        }
    }

    /// Whether the character holds a trait.
    fn has_trait(&self, trait_: CharacterTraits) -> (r: bool)
        ensures
            r == self.traits@.contains(trait_),
    {
        let mut i: usize = 0;
        while i < self.traits.len()
            invariant
                i <= self.traits@.len(),
                forall|j: int| 0 <= j < i ==> self.traits@[j] != trait_,
            decreases self.traits@.len() - i,
        {
            if self.traits[i] == trait_ {
                assert(self.traits@[i as int] == trait_);
                return true;
            }
            i = i + 1;
        }
        false
    }

    /// The actions of the character in one round.
    pub fn action_points(&self) -> (r: u32)
        requires
            character_wf(*self),
        ensures
            r == action_points_of(*self),
    {
        let mut base_action_points: u32 = 1;
        base_action_points = base_action_points + self.level / 10;
        if self.has_trait(CharacterTraits::Energetic) {
            base_action_points = base_action_points + 1;
        }
        proof {
            crate::items::lemma_worn_actions_bound(self.equipment);
        }
        base_action_points + self.equipment.action_points()
    }

    /// Raises the level by one where the experience reaches what the current level needs
    /// (`next(level)`): the maximum health grows, health is restored and what the new level
    /// needs is taken (saturating) from the experience. Returns whether it did.
    pub fn try_level_up(&mut self, next: impl Fn(u32) -> u32) -> (r: bool)
        requires
            forall|l: u32| #[trigger] next.requires((l,)),
            forall|l: u32, a: u32, b: u32| next.ensures((l,), a) && next.ensures((l,), b) ==> a == b,
            old(self).level < u32::MAX,
            hp_after_gain(old(self).class, attribute_value(old(self).attributes.constitution), old(self).max_hp)
                <= u32::MAX,
        ensures
            level_up(*old(self), *final(self), r, next),
    {
        if self.experience < next(self.level) {
            return false;
        }
        self.level = self.level + 1;
        self.max_hp = self.hp_gain(self.level);
        self.hp = self.max_hp as i32;
        self.experience = self.experience.saturating_sub(next(self.level));
        true
    }

    /// Restores full health.
    pub fn rest(&mut self)
        ensures
            *final(self) == (Character { hp: old(self).max_hp as i32, ..*old(self) }),
    {
        self.hp = self.max_hp as i32;
    }

    /// The text that shows the character.
    pub fn to_string(&self) -> (r: String)
        ensures
            r@ == character_text(*self),
    {
        let mut string = "```".to_owned();
        string.append("\n");
        string.append("Name: ");
        string.append(self.name.as_str());
        string.append("\n");
        string.append("Level: ");
        string.append(unsigned_text(self.level as u64).as_str());
        string.append("\n");
        string.append("Class: ");
        string.append(self.class.to_string().as_str());
        string.append("\n");
        string.append("HP: ");
        string.append(signed_text(self.hp as i64).as_str());
        string.append("/");
        string.append(unsigned_text(self.max_hp as u64).as_str());
        string.append("\n");
        string.append("Experience: ");
        string.append(unsigned_text(self.experience as u64).as_str());
        string.append("\n");
        string.append("Attributes: ");
        string.append(self.attributes.to_string().as_str());
        string.append("\n");
        string.append("Traits:\n");
        let mut i: usize = 0;
        let ghost start = string@;
        while i < self.traits.len()
            invariant
                i <= self.traits@.len(),
                string@ == start + traits_text(self.traits@.take(i as int)),
            decreases self.traits@.len() - i,
        {
            proof {
                assert(self.traits@.take(i + 1).drop_last() =~= self.traits@.take(i as int));
            }
            string.append("\t");
            string.append(self.traits[i].to_string().as_str());
            string.append("\n");
            i = i + 1;
        }
        proof {
            assert(self.traits@.take(i as int) =~= self.traits@);
        }
        string.append("Equipment:\n");
        string.append(self.equipment.to_string().as_str());
        string.append("```");
        string
    }
}


/// No more traits are held or waiting than one per ten levels: trying to gain a trait and
/// levelling up keep that bound, and inserting a waiting trait moves one from waiting to
/// held.
pub proof fn law_trait_budget<F: Fn(u32) -> u32>(c0: Character, c1: Character, gained: bool, c2: Character, leveled: bool, next: F)
    requires
        c0.available_traits + c0.traits@.len() <= c0.level / 10,
        trait_gain(c0, c1, gained),
        level_up(c1, c2, leveled, next),
    ensures
        c1.available_traits + c1.traits@.len() <= c1.level / 10,
        c2.available_traits + c2.traits@.len() <= c2.level / 10,
{
    if leveled {
        assert(c2.level == c1.level + 1);
        assert(c1.level / 10 <= c2.level / 10);
    }
}

} // verus!
