use vstd::prelude::*;
use crate::units::{attribute_kind, attribute_value, to_lowercase, same_text, Attributes, attributes_wf};
use crate::CarrionError;
use crate::dice::{AdvantageState, Die};
use crate::units::Alignment;

verus! {

/// Traits a character can pick as it levels up.
#[derive(Debug, Clone, Copy, PartialEq, Eq, Hash, Structural)]
pub enum CharacterTraits {
    Robust,
    Nimble,
    Genius,
    Lucky,
    FolkHero,
    Charismatic,
    Strong,
    Hermit,
    Addict,
    Cursed,
    Unlucky,
    Righteous,
    Greedy,
    Keen,
    Energetic,
}

/// The raise a trait gives to each attribute, in the order strength, intelligence,
/// dexterity, constitution, wisdom, charisma.
pub open spec fn trait_raises(t: CharacterTraits) -> (u32, u32, u32, u32, u32, u32) {
    match t {
        CharacterTraits::Robust => (1, 0, 0, 3, 0, 0),
        CharacterTraits::Nimble => (0, 0, 3, 0, 0, 0),
        CharacterTraits::Genius => (0, 3, 0, 0, 0, 0),
        CharacterTraits::FolkHero => (0, 0, 0, 1, 0, 2),
        CharacterTraits::Charismatic => (0, 0, 0, 0, 0, 3),
        CharacterTraits::Strong => (3, 0, 0, 0, 0, 0),
        CharacterTraits::Hermit => (0, 0, 0, 0, 3, 0),
        CharacterTraits::Addict => (0, 5, 0, 0, 0, 0),
        _ => (0, 0, 0, 0, 0, 0),
    }
}

/// The trait a lower-case name stands for.
pub open spec fn trait_named(name: Seq<char>) -> Option<CharacterTraits> {
    if name == "robust"@ {
        Some(CharacterTraits::Robust)
    } else if name == "nimble"@ {
        Some(CharacterTraits::Nimble)
    } else if name == "genius"@ {
        Some(CharacterTraits::Genius)
    } else if name == "lucky"@ {
        Some(CharacterTraits::Lucky)
    } else if name == "folkhero"@ {
        Some(CharacterTraits::FolkHero)
    } else if name == "charismatic"@ {
        Some(CharacterTraits::Charismatic)
    } else if name == "strong"@ {
        Some(CharacterTraits::Strong)
    } else if name == "hermit"@ {
        Some(CharacterTraits::Hermit)
    } else if name == "addict"@ {
        Some(CharacterTraits::Addict)
    } else if name == "cursed"@ {
        Some(CharacterTraits::Cursed)
    } else if name == "unlucky"@ {
        Some(CharacterTraits::Unlucky)
    } else if name == "righteous"@ {
        Some(CharacterTraits::Righteous)
    } else if name == "greedy"@ {
        Some(CharacterTraits::Greedy)
    } else if name == "keen"@ {
        Some(CharacterTraits::Keen)
    } else if name == "energetic"@ {
        Some(CharacterTraits::Energetic)
    } else {
        None
    }
}

/// `after` is `before` with each attribute raised by the trait's raise.
pub open spec fn raised_by(before: Attributes, after: Attributes, t: CharacterTraits) -> bool {
    let r = trait_raises(t);
    &&& attribute_kind(after.strength) == attribute_kind(before.strength)
    &&& attribute_kind(after.intelligence) == attribute_kind(before.intelligence)
    &&& attribute_kind(after.dexterity) == attribute_kind(before.dexterity)
    &&& attribute_kind(after.constitution) == attribute_kind(before.constitution)
    &&& attribute_kind(after.wisdom) == attribute_kind(before.wisdom)
    &&& attribute_kind(after.charisma) == attribute_kind(before.charisma)
    &&& attribute_value(after.strength) == attribute_value(before.strength) + r.0
    &&& attribute_value(after.intelligence) == attribute_value(before.intelligence) + r.1
    &&& attribute_value(after.dexterity) == attribute_value(before.dexterity) + r.2
    &&& attribute_value(after.constitution) == attribute_value(before.constitution) + r.3
    &&& attribute_value(after.wisdom) == attribute_value(before.wisdom) + r.4
    &&& attribute_value(after.charisma) == attribute_value(before.charisma) + r.5
}

impl CharacterTraits {
    /// The name that shows a trait to players.
    pub open spec fn label(self) -> Seq<char> {
        match self {
            CharacterTraits::FolkHero => "FolkHero"@,
            CharacterTraits::Robust => "Robust"@,
            CharacterTraits::Nimble => "Nimble"@,
            CharacterTraits::Genius => "Genius"@,
            CharacterTraits::Lucky => "Lucky"@,
            CharacterTraits::Charismatic => "Charismatic"@,
            CharacterTraits::Strong => "Strong"@,
            CharacterTraits::Hermit => "Hermit"@,
            CharacterTraits::Addict => "Addict"@,
            CharacterTraits::Cursed => "Cursed"@,
            CharacterTraits::Unlucky => "Unlucky"@,
            CharacterTraits::Righteous => "Righteous"@,
            CharacterTraits::Greedy => "Greedy"@,
            CharacterTraits::Keen => "Keen"@,
            CharacterTraits::Energetic => "Energetic"@,
        }
    }

    /// The text that shows a trait to players.
    pub fn to_string(&self) -> (r: String)
        ensures
            r@ == self.label(),
    {
        match self {
            CharacterTraits::Robust => "Robust".to_owned(),
            CharacterTraits::Nimble => "Nimble".to_owned(),
            CharacterTraits::Genius => "Genius".to_owned(),
            CharacterTraits::Lucky => "Lucky".to_owned(),
            CharacterTraits::FolkHero => "FolkHero".to_owned(),
            CharacterTraits::Charismatic => "Charismatic".to_owned(),
            CharacterTraits::Strong => "Strong".to_owned(),
            CharacterTraits::Hermit => "Hermit".to_owned(),
            CharacterTraits::Addict => "Addict".to_owned(),
            CharacterTraits::Cursed => "Cursed".to_owned(),
            CharacterTraits::Unlucky => "Unlucky".to_owned(),
            CharacterTraits::Righteous => "Righteous".to_owned(),
            CharacterTraits::Greedy => "Greedy".to_owned(),
            CharacterTraits::Keen => "Keen".to_owned(),
            CharacterTraits::Energetic => "Energetic".to_owned(),
        }
    }

    /// Raises the attributes the trait favours. (The addict's constitution loss is computed
    /// and dropped, so it changes nothing.)
    pub fn attribute_mutator(&self, character_attributes: &mut Attributes)
        requires
            attribute_value(old(character_attributes).strength) + 3 <= u32::MAX,
            attribute_value(old(character_attributes).intelligence) + 5 <= u32::MAX,
            attribute_value(old(character_attributes).dexterity) + 3 <= u32::MAX,
            attribute_value(old(character_attributes).constitution) + 3 <= u32::MAX,
            attribute_value(old(character_attributes).wisdom) + 3 <= u32::MAX,
            attribute_value(old(character_attributes).charisma) + 3 <= u32::MAX,
        ensures
            raised_by(*old(character_attributes), *final(character_attributes), *self),
            attributes_wf(*old(character_attributes)) ==> attributes_wf(*final(character_attributes)),
    {
        match self {
            CharacterTraits::Robust => {
                character_attributes.strength.plus(1);
                character_attributes.constitution.plus(3);
            },
            CharacterTraits::Nimble => {
                character_attributes.dexterity.plus(3);
            },
            CharacterTraits::Genius => {
                character_attributes.intelligence.plus(3);
            },
            CharacterTraits::Lucky => {},
            CharacterTraits::FolkHero => {
                character_attributes.charisma.plus(2);
                character_attributes.constitution.plus(1);
            },
            CharacterTraits::Charismatic => {
                character_attributes.charisma.plus(3);
            },
            CharacterTraits::Strong => {
                character_attributes.strength.plus(3);
            },
            CharacterTraits::Hermit => {
                character_attributes.wisdom.plus(3);
            },
            CharacterTraits::Addict => {
                character_attributes.constitution.minus(3);
                character_attributes.intelligence.plus(5);
            },
            CharacterTraits::Cursed => {},
            CharacterTraits::Unlucky => {},
            CharacterTraits::Righteous => {},
            CharacterTraits::Greedy => {},
            CharacterTraits::Keen => {},
            CharacterTraits::Energetic => {},
        }
    }

    /// The trait a name stands for, ignoring case.
    pub fn try_from(value: String) -> (r: Result<CharacterTraits, CarrionError>)
        ensures
            match trait_named(crate::units::lowercase(value@)) {
                Some(t) => r == Ok::<CharacterTraits, CarrionError>(t),
                None => r matches Err(CarrionError::ParseError(e)) && e@ == "Unable to parse character trait"@,
            },
    {
        let lower = to_lowercase(value.as_str());
        if same_text(&lower, "robust") {
            Ok(CharacterTraits::Robust)
        } else if same_text(&lower, "nimble") {
            Ok(CharacterTraits::Nimble)
        } else if same_text(&lower, "genius") {
            Ok(CharacterTraits::Genius)
        } else if same_text(&lower, "lucky") {
            Ok(CharacterTraits::Lucky)
        } else if same_text(&lower, "folkhero") {
            Ok(CharacterTraits::FolkHero)
        } else if same_text(&lower, "charismatic") {
            Ok(CharacterTraits::Charismatic)
        } else if same_text(&lower, "strong") {
            Ok(CharacterTraits::Strong)
        } else if same_text(&lower, "hermit") {
            Ok(CharacterTraits::Hermit)
        } else if same_text(&lower, "addict") {
            Ok(CharacterTraits::Addict)
        } else if same_text(&lower, "cursed") {
            Ok(CharacterTraits::Cursed)
        } else if same_text(&lower, "unlucky") {
            Ok(CharacterTraits::Unlucky)
        } else if same_text(&lower, "righteous") {
            Ok(CharacterTraits::Righteous)
        } else if same_text(&lower, "greedy") {
            Ok(CharacterTraits::Greedy)
        } else if same_text(&lower, "keen") {
            Ok(CharacterTraits::Keen)
        } else if same_text(&lower, "energetic") {
            Ok(CharacterTraits::Energetic)
        } else {
            Err(CarrionError::ParseError("Unable to parse character trait".to_owned()))
        }
    }
}


/// A change a trait makes to a kind of roll. Dice come as a die and a number of fresh ones;
/// multipliers are in thousandths.
#[derive(Debug, Clone, Copy, PartialEq, Eq, Structural)]
pub enum TraitMutation {
    FlatIncrease(Die, u32),
    FlatDecrease(Die, u32),
    MultiplicativeBonus(u64),
    Advantage,
    Disadvantage,
    ActionBonus(u32),
    AlignmentBonus(Alignment, Die, u32),
    CriticalAdvantage,
    CriticalMultiplier(u64),
}

/// The kinds of roll traits change.
#[derive(Debug, Clone, Copy, PartialEq, Eq, Structural)]
pub enum RollKind {
    MagicAttack,
    PhysicalAttack,
    Dodge,
    Suppress,
    Armor,
    Actions,
}

/// Whether a change may apply to dodging: dice changes of d20 only, and changes of
/// advantage and of the total.
pub open spec fn dodge_allowed(m: TraitMutation) -> bool {
    match m {
        TraitMutation::FlatIncrease(d, n) => d == Die::D20 || n == 0,
        TraitMutation::FlatDecrease(d, n) => d == Die::D20 || n == 0,
        TraitMutation::ActionBonus(_) => false,
        TraitMutation::CriticalMultiplier(_) => false,
        TraitMutation::CriticalAdvantage => false,
        TraitMutation::AlignmentBonus(_, _, _) => false,
        _ => true,
    }
}

/// The change `m` where it may apply to a roll of `kind`, else nothing.
pub open spec fn gated(kind: RollKind, m: TraitMutation) -> Seq<TraitMutation> {
    if kind != RollKind::Dodge || dodge_allowed(m) {
        seq![m]
    } else {
        Seq::empty()
    }
}

/// The changes trait `t` makes to rolls of `kind`, in order.
pub open spec fn trait_mutations(t: CharacterTraits, kind: RollKind) -> Seq<TraitMutation> {
    match t {
        CharacterTraits::Robust => if kind == RollKind::Armor { gated(kind, TraitMutation::MultiplicativeBonus(1100)) + gated(kind, TraitMutation::FlatIncrease(Die::D4, 5)) } else { Seq::empty() },
        CharacterTraits::Nimble => if kind == RollKind::Dodge { gated(kind, TraitMutation::Advantage) + gated(kind, TraitMutation::MultiplicativeBonus(1200)) } else { Seq::empty() },
        CharacterTraits::Genius => if kind == RollKind::MagicAttack { gated(kind, TraitMutation::FlatIncrease(Die::D4, 3)) + gated(kind, TraitMutation::MultiplicativeBonus(1150)) } else { Seq::empty() },
        CharacterTraits::Lucky => if kind == RollKind::Dodge { gated(kind, TraitMutation::Advantage) } else if kind == RollKind::Suppress { gated(kind, TraitMutation::Advantage) } else if kind == RollKind::Armor { gated(kind, TraitMutation::Advantage) } else { Seq::empty() },
        CharacterTraits::FolkHero => if kind == RollKind::MagicAttack { gated(kind, TraitMutation::AlignmentBonus(Alignment::ChaoticEvil, Die::D6, 2)) + gated(kind, TraitMutation::AlignmentBonus(Alignment::NeutralEvil, Die::D6, 2)) + gated(kind, TraitMutation::AlignmentBonus(Alignment::LawfulEvil, Die::D6, 2)) } else { Seq::empty() },
        CharacterTraits::Charismatic => Seq::empty(),
        CharacterTraits::Strong => if kind == RollKind::PhysicalAttack { gated(kind, TraitMutation::FlatIncrease(Die::D4, 3)) + gated(kind, TraitMutation::MultiplicativeBonus(1150)) } else { Seq::empty() },
        CharacterTraits::Hermit => if kind == RollKind::Suppress { gated(kind, TraitMutation::Advantage) + gated(kind, TraitMutation::MultiplicativeBonus(1200)) } else { Seq::empty() },
        CharacterTraits::Addict => if kind == RollKind::Dodge { gated(kind, TraitMutation::FlatDecrease(Die::D20, 1)) } else { Seq::empty() },
        CharacterTraits::Cursed => if kind == RollKind::MagicAttack { gated(kind, TraitMutation::CriticalMultiplier(850)) + gated(kind, TraitMutation::MultiplicativeBonus(900)) } else if kind == RollKind::Suppress { gated(kind, TraitMutation::FlatDecrease(Die::D6, 2)) } else { Seq::empty() },
        CharacterTraits::Unlucky => if kind == RollKind::Dodge { gated(kind, TraitMutation::Disadvantage) } else if kind == RollKind::Suppress { gated(kind, TraitMutation::Disadvantage) } else { Seq::empty() },
        CharacterTraits::Righteous => if kind == RollKind::MagicAttack { gated(kind, TraitMutation::AlignmentBonus(Alignment::ChaoticEvil, Die::D6, 2)) + gated(kind, TraitMutation::AlignmentBonus(Alignment::ChaoticNeutral, Die::D6, 2)) + gated(kind, TraitMutation::AlignmentBonus(Alignment::ChaoticGood, Die::D6, 2)) } else { Seq::empty() },
        CharacterTraits::Greedy => Seq::empty(),
        CharacterTraits::Keen => if kind == RollKind::MagicAttack { gated(kind, TraitMutation::CriticalMultiplier(1350)) + gated(kind, TraitMutation::CriticalAdvantage) } else if kind == RollKind::PhysicalAttack { gated(kind, TraitMutation::CriticalMultiplier(1350)) + gated(kind, TraitMutation::CriticalAdvantage) } else { Seq::empty() },
        CharacterTraits::Energetic => if kind == RollKind::Actions { gated(kind, TraitMutation::ActionBonus(1)) } else { Seq::empty() },
    }
}

/// The changes `traits` make to rolls of `kind`: those of each trait in turn.
pub open spec fn mutations_from(traits: Seq<CharacterTraits>, kind: RollKind) -> Seq<TraitMutation>
    decreases traits.len(),
{
    if traits.len() == 0 {
        Seq::empty()
    } else {
        mutations_from(traits.drop_last(), kind) + trait_mutations(traits.last(), kind)
    }
}

/// The advantage of a list of changes: that of the last change of advantage, one for
/// advantage and minus one for disadvantage; zero where there is none.
pub open spec fn advantage_of(m: Seq<TraitMutation>) -> i32
    decreases m.len(),
{
    if m.len() == 0 {
        0
    } else {
        match m.last() {
            TraitMutation::Advantage => 1i32,
            TraitMutation::Disadvantage => -1i32,
            _ => advantage_of(m.drop_last()),
        }
    }
}

/// Whether a list of changes gives advantage on the critical roll.
pub open spec fn has_critical_advantage(m: Seq<TraitMutation>) -> bool {
    exists|i: int| 0 <= i < m.len() && #[trigger] m[i] == TraitMutation::CriticalAdvantage
}

/// The extra action points of a list of changes, added up.
pub open spec fn action_bonus_sum(m: Seq<TraitMutation>) -> int
    decreases m.len(),
{
    if m.len() == 0 {
        0
    } else {
        action_bonus_sum(m.drop_last()) + match m.last() {
            TraitMutation::ActionBonus(n) => n as int,
            _ => 0int,
        }
    }
}

/// The changes a character's traits make, by kind of roll.
pub struct TraitMutations {
    pub magic_attack: Vec<TraitMutation>,
    pub physical_attack: Vec<TraitMutation>,
    pub dodge: Vec<TraitMutation>,
    pub suppress: Vec<TraitMutation>,
    pub armor: Vec<TraitMutation>,
    pub actions: Vec<TraitMutation>,
}

/// The changes of `m` to rolls of `kind`.
pub open spec fn mutations_of_kind(m: TraitMutations, kind: RollKind) -> Seq<TraitMutation> {
    match kind {
        RollKind::MagicAttack => m.magic_attack@,
        RollKind::PhysicalAttack => m.physical_attack@,
        RollKind::Dodge => m.dodge@,
        RollKind::Suppress => m.suppress@,
        RollKind::Armor => m.armor@,
        RollKind::Actions => m.actions@,
    }
}

impl TraitMutations {
    /// No changes at all.
    pub fn new() -> (r: TraitMutations)
        ensures
            forall|k: RollKind| #[trigger] mutations_of_kind(r, k) == Seq::<TraitMutation>::empty(),
    {
        TraitMutations {
            magic_attack: Vec::new(),
            physical_attack: Vec::new(),
            dodge: Vec::new(),
            suppress: Vec::new(),
            armor: Vec::new(),
            actions: Vec::new(),
        }
    }

    /// Whether a change may apply to dodging (see `dodge_allowed`).
    pub fn dodge_check(tr: &TraitMutation) -> (r: bool)
        ensures
            r == dodge_allowed(*tr),
    {
        match tr {
            TraitMutation::FlatIncrease(d, n) => *d == Die::D20 || *n == 0,
            TraitMutation::FlatDecrease(d, n) => *d == Die::D20 || *n == 0,
            TraitMutation::ActionBonus(_) => false,
            TraitMutation::CriticalMultiplier(_) => false,
            TraitMutation::CriticalAdvantage => false,
            TraitMutation::AlignmentBonus(_, _, _) => false,
            _ => true,
        }
    }

    /// Adds a change to dodging, where it may apply there.
    pub fn set_dodge(&mut self, tr: TraitMutation)
        ensures
            final(self).dodge@ == old(self).dodge@ + gated(RollKind::Dodge, tr),
            final(self).magic_attack == old(self).magic_attack,
            final(self).physical_attack == old(self).physical_attack,
            final(self).suppress == old(self).suppress,
            final(self).armor == old(self).armor,
            final(self).actions == old(self).actions,
    {
        if Self::dodge_check(&tr) {
            self.dodge.push(tr);
        }
        assert(self.dodge@ =~= old(self).dodge@ + gated(RollKind::Dodge, tr));
    }

    /// Adds a change to rolls of magic attack.
    pub fn set_magic_attack(&mut self, tr: TraitMutation)
        ensures
            final(self).magic_attack@ == old(self).magic_attack@.push(tr),
            final(self).physical_attack == old(self).physical_attack,
            final(self).dodge == old(self).dodge,
            final(self).suppress == old(self).suppress,
            final(self).armor == old(self).armor,
            final(self).actions == old(self).actions,
    {
        self.magic_attack.push(tr);
    }

    /// Adds a change to rolls of physical attack.
    pub fn set_physical_attack(&mut self, tr: TraitMutation)
        ensures
            final(self).physical_attack@ == old(self).physical_attack@.push(tr),
            final(self).magic_attack == old(self).magic_attack,
            final(self).dodge == old(self).dodge,
            final(self).suppress == old(self).suppress,
            final(self).armor == old(self).armor,
            final(self).actions == old(self).actions,
    {
        self.physical_attack.push(tr);
    }

    /// Adds a change to rolls of armor.
    pub fn set_armor(&mut self, tr: TraitMutation)
        ensures
            final(self).armor@ == old(self).armor@.push(tr),
            final(self).magic_attack == old(self).magic_attack,
            final(self).physical_attack == old(self).physical_attack,
            final(self).dodge == old(self).dodge,
            final(self).suppress == old(self).suppress,
            final(self).actions == old(self).actions,
    {
        self.armor.push(tr);
    }

    /// Adds a change to rolls of suppress.
    pub fn set_suppress(&mut self, tr: TraitMutation)
        ensures
            final(self).suppress@ == old(self).suppress@.push(tr),
            final(self).magic_attack == old(self).magic_attack,
            final(self).physical_attack == old(self).physical_attack,
            final(self).dodge == old(self).dodge,
            final(self).armor == old(self).armor,
            final(self).actions == old(self).actions,
    {
        self.suppress.push(tr);
    }

    /// Adds the changes trait `t` makes.
    fn add_trait(&mut self, t: CharacterTraits)
        ensures
            forall|k: RollKind| #[trigger] mutations_of_kind(*final(self), k) == mutations_of_kind(*old(self), k)
                + trait_mutations(t, k),
            (forall|i: int| 0 <= i < old(self).dodge@.len() ==> dodge_allowed(#[trigger] old(self).dodge@[i]))
                ==> forall|i: int| 0 <= i < final(self).dodge@.len() ==> dodge_allowed(#[trigger] final(self).dodge@[i]),
    {
        match t {
            CharacterTraits::Robust => {
                self.armor.push(TraitMutation::MultiplicativeBonus(1100));
                self.armor.push(TraitMutation::FlatIncrease(Die::D4, 5));
            },
            CharacterTraits::Nimble => {
                self.set_dodge(TraitMutation::Advantage);
                self.set_dodge(TraitMutation::MultiplicativeBonus(1200));
            },
            CharacterTraits::Genius => {
                self.magic_attack.push(TraitMutation::FlatIncrease(Die::D4, 3));
                self.magic_attack.push(TraitMutation::MultiplicativeBonus(1150));
            },
            CharacterTraits::Lucky => {
                self.armor.push(TraitMutation::Advantage);
                self.set_dodge(TraitMutation::Advantage);
                self.suppress.push(TraitMutation::Advantage);
            },
            CharacterTraits::FolkHero => {
                self.magic_attack.push(TraitMutation::AlignmentBonus(Alignment::ChaoticEvil, Die::D6, 2));
                self.magic_attack.push(TraitMutation::AlignmentBonus(Alignment::NeutralEvil, Die::D6, 2));
                self.magic_attack.push(TraitMutation::AlignmentBonus(Alignment::LawfulEvil, Die::D6, 2));
            },
            CharacterTraits::Charismatic => {
            },
            CharacterTraits::Strong => {
                self.physical_attack.push(TraitMutation::FlatIncrease(Die::D4, 3));
                self.physical_attack.push(TraitMutation::MultiplicativeBonus(1150));
            },
            CharacterTraits::Hermit => {
                self.suppress.push(TraitMutation::Advantage);
                self.suppress.push(TraitMutation::MultiplicativeBonus(1200));
            },
            CharacterTraits::Addict => {
                self.set_dodge(TraitMutation::FlatDecrease(Die::D20, 1));
            },
            CharacterTraits::Cursed => {
                self.suppress.push(TraitMutation::FlatDecrease(Die::D6, 2));
                self.magic_attack.push(TraitMutation::CriticalMultiplier(850));
                self.magic_attack.push(TraitMutation::MultiplicativeBonus(900));
            },
            CharacterTraits::Unlucky => {
                self.suppress.push(TraitMutation::Disadvantage);
                self.set_dodge(TraitMutation::Disadvantage);
            },
            CharacterTraits::Righteous => {
                self.magic_attack.push(TraitMutation::AlignmentBonus(Alignment::ChaoticEvil, Die::D6, 2));
                self.magic_attack.push(TraitMutation::AlignmentBonus(Alignment::ChaoticNeutral, Die::D6, 2));
                self.magic_attack.push(TraitMutation::AlignmentBonus(Alignment::ChaoticGood, Die::D6, 2));
            },
            CharacterTraits::Greedy => {
            },
            CharacterTraits::Keen => {
                self.magic_attack.push(TraitMutation::CriticalMultiplier(1350));
                self.physical_attack.push(TraitMutation::CriticalMultiplier(1350));
                self.magic_attack.push(TraitMutation::CriticalAdvantage);
                self.physical_attack.push(TraitMutation::CriticalAdvantage);
            },
            CharacterTraits::Energetic => {
                self.actions.push(TraitMutation::ActionBonus(1));
            },
        }
        assert forall|k: RollKind| #[trigger] mutations_of_kind(*self, k) == mutations_of_kind(*old(self), k)
            + trait_mutations(t, k) by {
            assert(mutations_of_kind(*self, k) =~= mutations_of_kind(*old(self), k) + trait_mutations(t, k));
        }
        assert(mutations_of_kind(*self, RollKind::Dodge) == self.dodge@);
    }

    /// The advantage of a list of changes (see `advantage_of`).
    pub fn advantage(mutations: &Vec<TraitMutation>) -> (r: i32)
        ensures
            r == advantage_of(mutations@),
    {
        let mut advantage: i32 = 0;
        let mut i: usize = 0;
        while i < mutations.len()
            invariant
                i <= mutations@.len(),
                advantage == advantage_of(mutations@.take(i as int)),
            decreases mutations@.len() - i,
        {
            proof {
                assert(mutations@.take(i + 1).drop_last() =~= mutations@.take(i as int));
            }
            match mutations[i] {
                TraitMutation::Advantage => advantage = 1,
                TraitMutation::Disadvantage => advantage = -1,
                _ => {},
            }
            i = i + 1;
        }
        assert(mutations@.take(mutations@.len() as int) =~= mutations@);
        advantage
    }

    /// Advantage on the critical roll where a change asks for it, else none.
    pub fn critical_advantage(mutations: &Vec<TraitMutation>) -> (r: AdvantageState)
        ensures
            r == if has_critical_advantage(mutations@) { AdvantageState::Advantage } else { AdvantageState::Normal },
    {
        let mut critical_advantage = AdvantageState::Normal;
        let mut i: usize = 0;
        while i < mutations.len()
            invariant
                i <= mutations@.len(),
                critical_advantage == if has_critical_advantage(mutations@.take(i as int)) {
                    AdvantageState::Advantage
                } else {
                    AdvantageState::Normal
                },
            decreases mutations@.len() - i,
        {
            proof {
                let t = mutations@.take(i + 1);
                if has_critical_advantage(mutations@.take(i as int)) {
                    let j = choose|j: int| 0 <= j < i && #[trigger] mutations@.take(i as int)[j] == TraitMutation::CriticalAdvantage;
                    assert(t[j] == TraitMutation::CriticalAdvantage);
                }
                if has_critical_advantage(t) {
                    let j = choose|j: int| 0 <= j < t.len() && #[trigger] t[j] == TraitMutation::CriticalAdvantage;
                    if j < i {
                        assert(mutations@.take(i as int)[j] == TraitMutation::CriticalAdvantage);
                    }
                }
                if mutations@[i as int] == TraitMutation::CriticalAdvantage {
                    assert(t[i as int] == TraitMutation::CriticalAdvantage);
                }
            }
            if let TraitMutation::CriticalAdvantage = mutations[i] {
                critical_advantage = AdvantageState::Advantage;
            }
            i = i + 1;
        }
        assert(mutations@.take(mutations@.len() as int) =~= mutations@);
        critical_advantage
    }

    /// The extra action points the changes give, added up.
    pub fn action_points(&self) -> (r: u32)
        requires
            action_bonus_sum(self.actions@) <= u32::MAX,
        ensures
            r == action_bonus_sum(self.actions@),
    {
        let mut action_points: u32 = 0;
        let mut i: usize = 0;
        while i < self.actions.len()
            invariant
                i <= self.actions@.len(),
                action_points == action_bonus_sum(self.actions@.take(i as int)),
                action_bonus_sum(self.actions@) <= u32::MAX,
            decreases self.actions@.len() - i,
        {
            proof {
                assert(self.actions@.take(i + 1).drop_last() =~= self.actions@.take(i as int));
                lemma_action_bonus_prefix(self.actions@, i + 1);
            }
            if let TraitMutation::ActionBonus(times) = self.actions[i] {
                action_points = action_points + times;
            }
            i = i + 1;
        }
        assert(self.actions@.take(self.actions@.len() as int) =~= self.actions@);
        action_points
    }

    pub fn get_armor(&self) -> (r: &Vec<TraitMutation>)
        ensures
            r@ == self.armor@,
    {
        &self.armor
    }

    pub fn get_dodge(&self) -> (r: &Vec<TraitMutation>)
        ensures
            r@ == self.dodge@,
    {
        &self.dodge
    }

    pub fn get_physical_attack(&self) -> (r: &Vec<TraitMutation>)
        ensures
            r@ == self.physical_attack@,
    {
        &self.physical_attack
    }

    pub fn get_magical_attack(&self) -> (r: &Vec<TraitMutation>)
        ensures
            r@ == self.magic_attack@,
    {
        &self.magic_attack
    }

    pub fn get_suppress(&self) -> (r: &Vec<TraitMutation>)
        ensures
            r@ == self.suppress@,
    {
        &self.suppress
    }
}

impl CharacterTraits {
    /// The changes `traits` make, by kind of roll (see `mutations_from`).
    pub fn apply_traits(traits: &Vec<CharacterTraits>) -> (r: TraitMutations)
        ensures
            forall|k: RollKind| #[trigger] mutations_of_kind(r, k) == mutations_from(traits@, k),
            forall|i: int| 0 <= i < r.dodge@.len() ==> dodge_allowed(#[trigger] r.dodge@[i]),
    {
        let mut m = TraitMutations::new();
        assert(mutations_of_kind(m, RollKind::Dodge) == m.dodge@);
        let mut i: usize = 0;
        while i < traits.len()
            invariant
                i <= traits@.len(),
                forall|k: RollKind| #[trigger] mutations_of_kind(m, k) == mutations_from(traits@.take(i as int), k),
                forall|j: int| 0 <= j < m.dodge@.len() ==> dodge_allowed(#[trigger] m.dodge@[j]),
            decreases traits@.len() - i,
        {
            proof {
                assert(traits@.take(i + 1).drop_last() =~= traits@.take(i as int));
            }
            m.add_trait(traits[i]);
            i = i + 1;
        }
        assert(traits@.take(traits@.len() as int) =~= traits@);
        m
    }
}

proof fn lemma_action_bonus_prefix(m: Seq<TraitMutation>, i: int)
    requires
        0 <= i <= m.len(),
    ensures
        0 <= action_bonus_sum(m.take(i)) <= action_bonus_sum(m),
    decreases m.len() - i,
{
    if i < m.len() {
        lemma_action_bonus_prefix(m, i + 1);
        assert(m.take(i + 1).drop_last() =~= m.take(i));
        assert(m.take(i + 1).last() == m[i]);
        lemma_action_bonus_nonneg(m.take(i));
    } else {
        assert(m.take(i) =~= m);
        lemma_action_bonus_nonneg(m);
    }
}

proof fn lemma_action_bonus_nonneg(m: Seq<TraitMutation>)
    ensures
        action_bonus_sum(m) >= 0,
    decreases m.len(),
{
    if m.len() > 0 {
        lemma_action_bonus_nonneg(m.drop_last());
    }
}

} // verus!
