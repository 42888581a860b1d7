use vstd::prelude::*;
use crate::random::random_range;
pub use crate::units::DamageType;
use crate::units::Alignment;

verus! {

/// The groups that resistances are counted in.
#[derive(Debug, Clone, Copy, PartialEq, Eq, Hash, Structural)]
pub enum ResistCategories {
    Elemental,
    Physical,
    NonElemental,
    Boss,
    Prismatic,
    Universal,
}

/// All damage types, in declaration order.
pub open spec fn all_damage_types() -> Seq<DamageType> {
    seq![
        DamageType::Fire,
        DamageType::Water,
        DamageType::Earth,
        DamageType::Air,
        DamageType::Light,
        DamageType::Dark,
        DamageType::Iron,
        DamageType::Arcane,
        DamageType::Holy,
        DamageType::NonElemental,
        DamageType::Physical,
        DamageType::Hope,
        DamageType::Despair,
        DamageType::Existential,
        DamageType::Boss,
        DamageType::Prismatic,
        DamageType::Healing,
        DamageType::Universal,
    ]
}

/// All resistance categories, in declaration order.
pub open spec fn all_resist_categories() -> Seq<ResistCategories> {
    seq![
        ResistCategories::Elemental,
        ResistCategories::Physical,
        ResistCategories::NonElemental,
        ResistCategories::Boss,
        ResistCategories::Prismatic,
        ResistCategories::Universal,
    ]
}

/// The resistance category that guards against a damage type.
pub open spec fn category_of(d: DamageType) -> ResistCategories {
    match d {
        DamageType::Fire | DamageType::Water | DamageType::Earth | DamageType::Air => ResistCategories::Elemental,
        DamageType::Physical => ResistCategories::Physical,
        DamageType::Boss => ResistCategories::Boss,
        DamageType::Prismatic => ResistCategories::Prismatic,
        DamageType::Universal => ResistCategories::Universal,
        _ => ResistCategories::NonElemental,
    }
}

/// The resistance category that a roll from 0 to 40 stands for.
pub open spec fn category_for_roll(n: u64) -> ResistCategories {
    if n <= 20 {
        ResistCategories::Elemental
    } else if n <= 25 {
        ResistCategories::Physical
    } else if n <= 39 {
        ResistCategories::NonElemental
    } else {
        ResistCategories::Prismatic
    }
}

impl ResistCategories {
    /// Every category, each paired with zero, in declaration order.
    pub fn resist_category_hash_map() -> (r: Vec<(ResistCategories, i32)>)
        ensures
            r@.len() == all_resist_categories().len(),
            forall|i: int| 0 <= i < r@.len() ==> #[trigger] r@[i] == (all_resist_categories()[i], 0i32),
    {
        let r = vec![
            (ResistCategories::Elemental, 0i32),
            (ResistCategories::Physical, 0i32),
            (ResistCategories::NonElemental, 0i32),
            (ResistCategories::Boss, 0i32),
            (ResistCategories::Prismatic, 0i32),
            (ResistCategories::Universal, 0i32),
        ];
        assert(r@ =~= all_resist_categories().map_values(|c: ResistCategories| (c, 0i32)));
        r
    }

    /// The category of a roll from 0 to 40.
    pub fn for_roll(n: u64) -> (r: ResistCategories)
        ensures
            r == category_for_roll(n),
    {
        if n <= 20 {
            ResistCategories::Elemental
        } else if n <= 25 {
            ResistCategories::Physical
        } else if n <= 39 {
            ResistCategories::NonElemental
        } else {
            ResistCategories::Prismatic
        }
    }

    /// A random category: elemental, physical, non-elemental or prismatic, by a roll from 0 to 40.
    pub fn random() -> (r: ResistCategories)
        ensures
            exists|n: u64| n <= 40 && r == category_for_roll(n),
    {
        let n = random_range(0, 41);
        ResistCategories::for_roll(n)
    }
}

impl DamageType {
    /// Every damage type, each paired with zero, in declaration order.
    pub fn damage_type_hash_map() -> (r: Vec<(DamageType, i32)>)
        ensures
            r@.len() == all_damage_types().len(),
            forall|i: int| 0 <= i < r@.len() ==> #[trigger] r@[i] == (all_damage_types()[i], 0i32),
    {
        let types = DamageType::all();
        let mut r: Vec<(DamageType, i32)> = Vec::new();
        let mut i: usize = 0;
        while i < types.len()
            invariant
                i <= types@.len(),
                types@ == all_damage_types(),
                r@.len() == i,
                forall|j: int| 0 <= j < i ==> #[trigger] r@[j] == (all_damage_types()[j], 0i32),
            decreases types@.len() - i,
        {
            r.push((types[i], 0));
            i = i + 1;
        }
        r
    }

    /// All damage types, in declaration order.
    pub fn all() -> (r: Vec<DamageType>)
        ensures
            r@ == all_damage_types(),
    {
        let r = vec![
            DamageType::Fire,
            DamageType::Water,
            DamageType::Earth,
            DamageType::Air,
            DamageType::Light,
            DamageType::Dark,
            DamageType::Iron,
            DamageType::Arcane,
            DamageType::Holy,
            DamageType::NonElemental,
            DamageType::Physical,
            DamageType::Hope,
            DamageType::Despair,
            DamageType::Existential,
            DamageType::Boss,
            DamageType::Prismatic,
            DamageType::Healing,
            DamageType::Universal,
        ];
        assert(r@ =~= all_damage_types());
        r
    }

    pub fn resist_category(&self) -> (r: ResistCategories)
        ensures
            r == category_of(*self),
    {
        match self {
            DamageType::Fire => ResistCategories::Elemental,
            DamageType::Water => ResistCategories::Elemental,
            DamageType::Earth => ResistCategories::Elemental,
            DamageType::Air => ResistCategories::Elemental,
            DamageType::Light => ResistCategories::NonElemental,
            DamageType::Dark => ResistCategories::NonElemental,
            DamageType::Iron => ResistCategories::NonElemental,
            DamageType::Arcane => ResistCategories::NonElemental,
            DamageType::Holy => ResistCategories::NonElemental,
            DamageType::NonElemental => ResistCategories::NonElemental,
            DamageType::Physical => ResistCategories::Physical,
            DamageType::Hope => ResistCategories::NonElemental,
            DamageType::Despair => ResistCategories::NonElemental,
            DamageType::Existential => ResistCategories::NonElemental,
            DamageType::Boss => ResistCategories::Boss,
            DamageType::Prismatic => ResistCategories::Prismatic,
            DamageType::Healing => ResistCategories::NonElemental,
            DamageType::Universal => ResistCategories::Universal,
        }
    }

    /// A random damage type other than universal, each equally likely.
    pub fn random() -> (r: DamageType)
        ensures
            r != DamageType::Universal,
            all_damage_types().contains(r),
    {
        let types = DamageType::all();
        let i = random_range(0, 17) as usize;
        assert(all_damage_types()[i as int] != DamageType::Universal);
        types[i]
    }
}

impl Default for DamageType {
    fn default() -> (r: DamageType)
        ensures
            r == DamageType::Universal,
    {
        DamageType::Universal
    }
}

/// Effects that some damage carries besides its amount.
#[derive(Debug, Clone, Copy, PartialEq, Eq, Hash, Structural)]
pub enum UniqueDamageEffect {
    Poison,
    Bleed,
    Burn,
    Shock,
    Curse,
    Regenerate,
    Invigorate,
    Enrage,
    Berserk,
    Vampire,
    Death,
}

/// The damage of one action: its amount, its type, and how it hits. The multipliers and
/// the chance of a critical hit are in thousandths.
#[derive(Debug, Clone, Copy, PartialEq, Eq, Structural)]
pub struct Damage {
    pub damage: i32,
    pub dtype: DamageType,
    pub multiplier: u64,
    pub critical_multiplier: u64,
    pub crit_chance: u64,
    pub number_of_hits: u32,
    pub alignment: Option<Alignment>,
}

impl Damage {
    /// No damage of type `dtype`: a multiplier of one, a critical multiplier of 1.3, a chance
    /// of a critical hit of 5 in 100, one hit and no alignment.
    pub fn new(dtype: DamageType) -> (r: Damage)
        ensures
            r == (Damage {
                damage: 0,
                dtype,
                multiplier: 1000,
                critical_multiplier: 1300,
                crit_chance: 50,
                number_of_hits: 1,
                alignment: None,
            }),
    {
        Damage {
            damage: 0,
            dtype,
            multiplier: 1000,
            critical_multiplier: 1300,
            crit_chance: 50,
            number_of_hits: 1,
            alignment: None,
        }
    }
}

} // verus!
