use vstd::prelude::*;
use vstd::std_specs::convert::FromSpecImpl;
use crate::classes::Classes;
use crate::enemies::Mob;

verus! {

/// The lower-case form of `s`, as `str::to_lowercase` computes it.
pub uninterp spec fn lowercase(s: Seq<char>) -> Seq<char>;

/// Calls `str::to_lowercase`; its result is `lowercase(s@)`.
#[verifier::external_body]
pub(crate) fn to_lowercase(s: &str) -> (r: String)
    ensures
        r@ == lowercase(s@),
{
    s.to_lowercase()
}

/// Whether two strings hold the same characters.
pub(crate) fn same_text(a: &String, b: &str) -> (r: bool)
    ensures
        r == (a@ == b@),
{
    let b_owned = b.to_owned();
    *a == b_owned
}

/// One of the six character attributes with its value.
#[derive(Debug, Clone, Copy, PartialEq, Eq, Structural)]
pub enum Attribute {
    Strength(u32),
    Intelligence(u32),
    Dexterity(u32),
    Constitution(u32),
    Wisdom(u32),
    Charisma(u32),
}

/// Which of the six attributes an attribute is (0 to 5).
pub open spec fn attribute_kind(a: Attribute) -> int {
    match a {
        Attribute::Strength(_) => 0,
        Attribute::Intelligence(_) => 1,
        Attribute::Dexterity(_) => 2,
        Attribute::Constitution(_) => 3,
        Attribute::Wisdom(_) => 4,
        Attribute::Charisma(_) => 5,
    }
}

/// The value an attribute carries.
pub open spec fn attribute_value(a: Attribute) -> u32 {
    match a {
        Attribute::Strength(v) => v,
        Attribute::Intelligence(v) => v,
        Attribute::Dexterity(v) => v,
        Attribute::Constitution(v) => v,
        Attribute::Wisdom(v) => v,
        Attribute::Charisma(v) => v,
    }
}

/// The attribute of kind `kind` carrying `v`.
pub open spec fn attribute_of_kind(kind: int, v: u32) -> Attribute {
    if kind == 0 {
        Attribute::Strength(v)
    } else if kind == 1 {
        Attribute::Intelligence(v)
    } else if kind == 2 {
        Attribute::Dexterity(v)
    } else if kind == 3 {
        Attribute::Constitution(v)
    } else if kind == 4 {
        Attribute::Wisdom(v)
    } else {
        Attribute::Charisma(v)
    }
}

/// The attribute that a lower-case name stands for, with value zero.
pub open spec fn attribute_named(name: Seq<char>) -> Option<Attribute> {
    if name == "strength"@ {
        Some(Attribute::Strength(0))
    } else if name == "intelligence"@ {
        Some(Attribute::Intelligence(0))
    } else if name == "dexterity"@ {
        Some(Attribute::Dexterity(0))
    } else if name == "constitution"@ {
        Some(Attribute::Constitution(0))
    } else if name == "wisdom"@ {
        Some(Attribute::Wisdom(0))
    } else if name == "charisma"@ {
        Some(Attribute::Charisma(0))
    } else {
        None
    }
}

impl Attribute {
    /// The attribute a name stands for, ignoring case, with value zero.
    pub fn from_text(s: &str) -> (r: Result<Attribute, ()>)
        ensures
            match attribute_named(lowercase(s@)) {
                Some(a) => r == Ok::<Attribute, ()>(a),
                None => r is Err,
            },
    {
        let lower = to_lowercase(s);
        if same_text(&lower, "strength") {
            Ok(Attribute::Strength(0))
        } else if same_text(&lower, "intelligence") {
            Ok(Attribute::Intelligence(0))
        } else if same_text(&lower, "dexterity") {
            Ok(Attribute::Dexterity(0))
        } else if same_text(&lower, "constitution") {
            Ok(Attribute::Constitution(0))
        } else if same_text(&lower, "wisdom") {
            Ok(Attribute::Wisdom(0))
        } else if same_text(&lower, "charisma") {
            Ok(Attribute::Charisma(0))
        } else {
            Err(())
        }
    }

    /// The value of `self` minus the value of `other`, each taken as an `i32`.
    pub fn absolute_difference(&self, other: &Self) -> (r: i32)
        requires
            i32::MIN <= attribute_value(*self) as i32 - attribute_value(*other) as i32 <= i32::MAX,
        ensures
            r == attribute_value(*self) as i32 - attribute_value(*other) as i32,
    {
        self.inner() as i32 - other.inner() as i32
    }

    /// Raises the value by `other`, keeping the kind.
    pub fn plus(&mut self, other: u32)
        requires
            attribute_value(*old(self)) + other <= u32::MAX,
        ensures
            attribute_kind(*final(self)) == attribute_kind(*old(self)),
            attribute_value(*final(self)) == attribute_value(*old(self)) + other,
    {
        match self {
            Attribute::Strength(v) => *v += other,
            Attribute::Intelligence(v) => *v += other,
            Attribute::Dexterity(v) => *v += other,
            Attribute::Constitution(v) => *v += other,
            Attribute::Wisdom(v) => *v += other,
            Attribute::Charisma(v) => *v += other,
        }
    }

    /// Computes the value lowered by `other` (never below zero) and discards it:
    /// the attribute itself is left as it is.
    pub fn minus(&mut self, other: u32)
        ensures
            *final(self) == *old(self),
    {
        let v = self.inner();
        let _lowered: u32 = if v >= other {
            v - other
        } else {
            0
        };
    }

    pub fn inner(&self) -> (r: u32)
        ensures
            r == attribute_value(*self),
    {
        match self {
            Attribute::Strength(v) => *v,
            Attribute::Intelligence(v) => *v,
            Attribute::Dexterity(v) => *v,
            Attribute::Constitution(v) => *v,
            Attribute::Wisdom(v) => *v,
            Attribute::Charisma(v) => *v,
        }
    }

    /// The attribute of the same kind carrying the sum of both values.
    pub fn sum_with(self, rhs: Self) -> (r: Attribute)
        requires
            attribute_value(self) + attribute_value(rhs) <= u32::MAX,
        ensures
            r == attribute_of_kind(attribute_kind(self), (attribute_value(self) + attribute_value(rhs)) as u32),
    {
        let v = self.inner() + rhs.inner();
        match self {
            Attribute::Strength(_) => Attribute::Strength(v),
            Attribute::Intelligence(_) => Attribute::Intelligence(v),
            Attribute::Dexterity(_) => Attribute::Dexterity(v),
            Attribute::Constitution(_) => Attribute::Constitution(v),
            Attribute::Wisdom(_) => Attribute::Wisdom(v),
            Attribute::Charisma(_) => Attribute::Charisma(v),
        }
    }

    /// The attribute of the same kind carrying the difference of the values, zero where
    /// `rhs` is the larger.
    pub fn difference_with(self, rhs: Self) -> (r: Attribute)
        ensures
            r == attribute_of_kind(
                attribute_kind(self),
                if attribute_value(self) >= attribute_value(rhs) {
                    (attribute_value(self) - attribute_value(rhs)) as u32
                } else {
                    0
                },
            ),
    {
        let a = self.inner();
        let b = rhs.inner();
        let v = if a >= b {
            a - b
        } else {
            0
        };
        match self {
            Attribute::Strength(_) => Attribute::Strength(v),
            Attribute::Intelligence(_) => Attribute::Intelligence(v),
            Attribute::Dexterity(_) => Attribute::Dexterity(v),
            Attribute::Constitution(_) => Attribute::Constitution(v),
            Attribute::Wisdom(_) => Attribute::Wisdom(v),
            Attribute::Charisma(_) => Attribute::Charisma(v),
        }
    }
}

/// The six attributes of a character or a mob.
#[derive(Debug, Clone, Copy)]
pub struct Attributes {
    pub strength: Attribute,
    pub intelligence: Attribute,
    pub dexterity: Attribute,
    pub constitution: Attribute,
    pub wisdom: Attribute,
    pub charisma: Attribute,
}

/// Each field holds the attribute of its own kind.
pub open spec fn attributes_wf(a: Attributes) -> bool {
    &&& attribute_kind(a.strength) == 0
    &&& attribute_kind(a.intelligence) == 1
    &&& attribute_kind(a.dexterity) == 2
    &&& attribute_kind(a.constitution) == 3
    &&& attribute_kind(a.wisdom) == 4
    &&& attribute_kind(a.charisma) == 5
}

/// The value the attributes hold for the kind of `attr`.
pub open spec fn attributes_get(a: Attributes, attr: Attribute) -> u32 {
    match attr {
        Attribute::Strength(_) => attribute_value(a.strength),
        Attribute::Intelligence(_) => attribute_value(a.intelligence),
        Attribute::Dexterity(_) => attribute_value(a.dexterity),
        Attribute::Constitution(_) => attribute_value(a.constitution),
        Attribute::Wisdom(_) => attribute_value(a.wisdom),
        Attribute::Charisma(_) => attribute_value(a.charisma),
    }
}

/// Attributes with the given values, in the order strength, intelligence, dexterity,
/// constitution, wisdom, charisma.
pub open spec fn attributes_with(s: u32, i: u32, d: u32, c: u32, w: u32, ch: u32) -> Attributes {
    Attributes {
        strength: Attribute::Strength(s),
        intelligence: Attribute::Intelligence(i),
        dexterity: Attribute::Dexterity(d),
        constitution: Attribute::Constitution(c),
        wisdom: Attribute::Wisdom(w),
        charisma: Attribute::Charisma(ch),
    }
}

impl Attributes {
    /// The value held for the kind of `attr`.
    pub fn get(&self, attr: &Attribute) -> (r: u32)
        ensures
            r == attributes_get(*self, *attr),
    {
        match attr {
            Attribute::Strength(_) => self.strength.inner(),
            Attribute::Intelligence(_) => self.intelligence.inner(),
            Attribute::Dexterity(_) => self.dexterity.inner(),
            Attribute::Constitution(_) => self.constitution.inner(),
            Attribute::Wisdom(_) => self.wisdom.inner(),
            Attribute::Charisma(_) => self.charisma.inner(),
        }
    }

    /// Every attribute at zero.
    pub fn zero() -> (r: Attributes)
        ensures
            r == attributes_with(0, 0, 0, 0, 0, 0),
    {
        Attributes {
            strength: Attribute::Strength(0),
            intelligence: Attribute::Intelligence(0),
            dexterity: Attribute::Dexterity(0),
            constitution: Attribute::Constitution(0),
            wisdom: Attribute::Wisdom(0),
            charisma: Attribute::Charisma(0),
        }
    }
}

/// The attributes a character of the class starts with.
pub open spec fn class_attributes(c: Classes) -> Attributes {
    match c {
        Classes::Warrior => attributes_with(17, 7, 7, 15, 7, 7),
        Classes::Wizard => attributes_with(7, 17, 7, 7, 7, 7),
        Classes::Sorcerer => attributes_with(7, 15, 7, 7, 7, 17),
        Classes::Paladin => attributes_with(7, 7, 7, 7, 7, 7),
    }
}

/// The attributes of a mob kind.
pub open spec fn mob_attributes(m: Mob) -> Attributes {
    match m {
        Mob::Orc => attributes_with(17, 1, 7, 7, 7, 7),
        Mob::Elf => attributes_with(7, 22, 19, 3, 7, 7),
        Mob::KingSlime => attributes_with(22, 22, 22, 22, 22, 7),
        _ => attributes_with(7, 7, 22, 15, 7, 20),
    }
}

/// Whether adding each attribute of `b` to that of `a` stays within `u32`.
pub open spec fn attributes_sum_fits(a: Attributes, b: Attributes) -> bool {
    &&& attribute_value(a.strength) + attribute_value(b.strength) <= u32::MAX
    &&& attribute_value(a.intelligence) + attribute_value(b.intelligence) <= u32::MAX
    &&& attribute_value(a.dexterity) + attribute_value(b.dexterity) <= u32::MAX
    &&& attribute_value(a.constitution) + attribute_value(b.constitution) <= u32::MAX
    &&& attribute_value(a.wisdom) + attribute_value(b.wisdom) <= u32::MAX
    &&& attribute_value(a.charisma) + attribute_value(b.charisma) <= u32::MAX
}

/// The attributes of `a` each raised by the one of the same kind in `b`.
pub open spec fn attributes_sum(a: Attributes, b: Attributes) -> Attributes {
    attributes_with(
        (attribute_value(a.strength) + attribute_value(b.strength)) as u32,
        (attribute_value(a.intelligence) + attribute_value(b.intelligence)) as u32,
        (attribute_value(a.dexterity) + attribute_value(b.dexterity)) as u32,
        (attribute_value(a.constitution) + attribute_value(b.constitution)) as u32,
        (attribute_value(a.wisdom) + attribute_value(b.wisdom)) as u32,
        (attribute_value(a.charisma) + attribute_value(b.charisma)) as u32,
    )
}

impl Attributes {
    /// Each attribute raised by the one of the same kind in `rhs`.
    pub fn sum_with(&self, rhs: &Attributes) -> (r: Attributes)
        requires
            attributes_wf(*self),
            attributes_sum_fits(*self, *rhs),
        ensures
            r == attributes_sum(*self, *rhs),
            attributes_wf(r),
    {
        Attributes {
            strength: Attribute::Strength(self.strength.inner() + rhs.strength.inner()),
            intelligence: Attribute::Intelligence(self.intelligence.inner() + rhs.intelligence.inner()),
            dexterity: Attribute::Dexterity(self.dexterity.inner() + rhs.dexterity.inner()),
            constitution: Attribute::Constitution(self.constitution.inner() + rhs.constitution.inner()),
            wisdom: Attribute::Wisdom(self.wisdom.inner() + rhs.wisdom.inner()),
            charisma: Attribute::Charisma(self.charisma.inner() + rhs.charisma.inner()),
        }
    }
}

impl<'a> From<&'a Classes> for Attributes {
    /// The attributes a character of the class starts with.
    fn from(class: &Classes) -> (r: Attributes) {
        let mut ca = Attributes::default();
        match class {
            Classes::Warrior => {
                ca.strength = Attribute::Strength(17);
                ca.constitution = Attribute::Constitution(15);
            },
            Classes::Wizard => {
                ca.intelligence = Attribute::Intelligence(17);
                ca.charisma = Attribute::Charisma(7);
            },
            Classes::Sorcerer => {
                ca.charisma = Attribute::Charisma(17);
                ca.intelligence = Attribute::Intelligence(15);
            },
            Classes::Paladin => {},
        }
        ca
    }
}

impl<'a> FromSpecImpl<&'a Classes> for Attributes {
    open spec fn obeys_from_spec() -> bool {
        true
    }

    open spec fn from_spec(v: &'a Classes) -> Attributes {
        class_attributes(*v)
    }
}

impl<'a> From<&'a Mob> for Attributes {
    /// The attributes of a mob kind.
    fn from(enemy: &Mob) -> (r: Attributes) {
        let mut ca = Attributes::default();
        match enemy {
            Mob::Orc => {
                ca.strength = Attribute::Strength(17);
                ca.intelligence = Attribute::Intelligence(1);
            },
            Mob::Elf => {
                ca.intelligence = Attribute::Intelligence(22);
                ca.dexterity = Attribute::Dexterity(19);
                ca.constitution = Attribute::Constitution(3);
            },
            Mob::KingSlime => {
                ca.intelligence = Attribute::Intelligence(22);
                ca.dexterity = Attribute::Dexterity(22);
                ca.constitution = Attribute::Constitution(22);
                ca.wisdom = Attribute::Wisdom(22);
                ca.strength = Attribute::Strength(22);
                ca.constitution = Attribute::Constitution(22);
            },
            _ => {
                ca.dexterity = Attribute::Dexterity(22);
                ca.constitution = Attribute::Constitution(15);
                ca.charisma = Attribute::Charisma(20);
            },
        }
        ca
    }
}

impl<'a> FromSpecImpl<&'a Mob> for Attributes {
    open spec fn obeys_from_spec() -> bool {
        true
    }

    open spec fn from_spec(v: &'a Mob) -> Attributes {
        mob_attributes(*v)
    }
}

impl Default for Attributes {
    /// Every attribute at seven.
    fn default() -> (r: Attributes)
        ensures
            r == attributes_with(7, 7, 7, 7, 7, 7),
    {
        Attributes {
            strength: Attribute::Strength(7),
            intelligence: Attribute::Intelligence(7),
            dexterity: Attribute::Dexterity(7),
            constitution: Attribute::Constitution(7),
            wisdom: Attribute::Wisdom(7),
            charisma: Attribute::Charisma(7),
        }
    }
}

/// Kinds of damage and of resistance.
#[derive(Debug, Clone, Copy, PartialEq, Eq, Hash, Structural)]
pub enum DamageType {
    Fire,
    Water,
    Earth,
    Air,
    Light,
    Dark,
    Iron,
    Arcane,
    Holy,
    NonElemental,
    Physical,
    Hope,
    Despair,
    Existential,
    Boss,
    Prismatic,
    Healing,
    Universal,
}

/// The damage type that a lower-case name stands for.
pub open spec fn damage_type_named(name: Seq<char>) -> Option<DamageType> {
    if name == "fire"@ {
        Some(DamageType::Fire)
    } else if name == "water"@ {
        Some(DamageType::Water)
    } else if name == "earth"@ {
        Some(DamageType::Earth)
    } else if name == "air"@ {
        Some(DamageType::Air)
    } else if name == "light"@ {
        Some(DamageType::Light)
    } else if name == "dark"@ {
        Some(DamageType::Dark)
    } else if name == "iron"@ {
        Some(DamageType::Iron)
    } else if name == "arcane"@ {
        Some(DamageType::Arcane)
    } else if name == "holy"@ {
        Some(DamageType::Holy)
    } else if name == "nonelemental"@ {
        Some(DamageType::NonElemental)
    } else if name == "physical"@ {
        Some(DamageType::Physical)
    } else {
        None
    }
}

/// The damage type that a lower-case word names, if it names one.
fn damage_type_of_word(lower: &String) -> (r: Option<DamageType>)
    ensures
        r == damage_type_named(lower@),
{
    if same_text(lower, "fire") {
        Some(DamageType::Fire)
    } else if same_text(lower, "water") {
        Some(DamageType::Water)
    } else if same_text(lower, "earth") {
        Some(DamageType::Earth)
    } else if same_text(lower, "air") {
        Some(DamageType::Air)
    } else if same_text(lower, "light") {
        Some(DamageType::Light)
    } else if same_text(lower, "dark") {
        Some(DamageType::Dark)
    } else if same_text(lower, "iron") {
        Some(DamageType::Iron)
    } else if same_text(lower, "arcane") {
        Some(DamageType::Arcane)
    } else if same_text(lower, "holy") {
        Some(DamageType::Holy)
    } else if same_text(lower, "nonelemental") {
        Some(DamageType::NonElemental)
    } else if same_text(lower, "physical") {
        Some(DamageType::Physical)
    } else {
        None
    }
}

impl DamageType {
    /// The damage type a name stands for, ignoring case.
    pub fn from_text(s: &str) -> (r: DamageType)
        requires
            damage_type_named(lowercase(s@)) is Some,
        ensures
            damage_type_named(lowercase(s@)) == Some(r),
    {
        let lower = to_lowercase(s);
        match damage_type_of_word(&lower) {
            Some(d) => d,
            None => DamageType::Physical,
        }
    }

    /// The damage type a name stands for, ignoring case; `None` for any
    /// other name.
    pub fn parse(s: &str) -> (r: Option<DamageType>)
        ensures
            r == damage_type_named(lowercase(s@)),
    {
        let lower = to_lowercase(s);
        match damage_type_of_word(&lower) {
            Some(_) => Some(DamageType::from_text(s)),
            None => None,
        }
    }
}

/// Moral alignments of mobs.
#[derive(Debug, Clone, Copy, PartialEq, Eq, Hash, Structural)]
pub enum Alignment {
    LawfulGood,
    LawfulNeutral,
    LawfulEvil,
    NeutralGood,
    TrueNeutral,
    NeutralEvil,
    ChaoticGood,
    ChaoticNeutral,
    ChaoticEvil,
}

/// Damage split by how it is delivered.
#[derive(Debug, Clone, PartialEq, Eq, Structural)]
pub enum AttackType {
    Physical(u32),
    Magical(u32),
}

impl AttackType {
    pub fn inner(&self) -> (r: u32)
        ensures
            r == match *self {
                AttackType::Physical(d) => d,
                AttackType::Magical(d) => d,
            },
    {
        match self {
            AttackType::Physical(d) => *d,
            AttackType::Magical(d) => *d,
        }
    }
}

} // verus!
