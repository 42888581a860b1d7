use vstd::prelude::*;
use crate::random::random_range;

verus! {

/// The dice of the game.
#[derive(Debug, Clone, Copy, PartialEq, Eq, Structural)]
pub enum Die {
    D4,
    D6,
    D8,
    D10,
    D12,
    D20,
    D100,
}

/// The number of faces of a die.
pub open spec fn die_sides(d: Die) -> u32 {
    match d {
        Die::D4 => 4,
        Die::D6 => 6,
        Die::D8 => 8,
        Die::D10 => 10,
        Die::D12 => 12,
        Die::D20 => 20,
        Die::D100 => 100,
    }
}

/// The throw a die keeps of two throws: the better with advantage, the worse with
/// disadvantage, and else the first alone.
pub open spec fn throws_kept(advantage: AdvantageState, first: u32, second: u32) -> u32 {
    match advantage {
        AdvantageState::Advantage => if first >= second { first } else { second },
        AdvantageState::Disadvantage => if first <= second { first } else { second },
        AdvantageState::Normal => first,
    }
}

impl Die {
    pub fn sides(&self) -> (r: u32)
        ensures
            r == die_sides(*self),
    {
        match self {
            Die::D4 => 4,
            Die::D6 => 6,
            Die::D8 => 8,
            Die::D10 => 10,
            Die::D12 => 12,
            Die::D20 => 20,
            Die::D100 => 100,
        }
    }

    /// Throws the die once, or twice with advantage or disadvantage. Returns the throw kept
    /// (the better of two with advantage, the worse of two with disadvantage), then the
    /// first and the second throw (the second is the first where only one is made).
    pub fn throws(&self, advantage: AdvantageState) -> (r: (u32, u32, u32))
        ensures
            1 <= r.1 <= die_sides(*self),
            1 <= r.2 <= die_sides(*self),
            advantage == AdvantageState::Normal ==> r.2 == r.1,
            r.0 == throws_kept(advantage, r.1, r.2),
    {
        let top = self.sides() as u64 + 1;
        let first = random_range(1, top) as u32;
        if advantage == AdvantageState::Normal {
            return (first, first, first);
        }
        let second = random_range(1, top) as u32;
        let kept = if advantage == AdvantageState::Advantage {
            if first >= second {
                first
            } else {
                second
            }
        } else {
            if first <= second {
                first
            } else {
                second
            }
        };
        (kept, first, second)
    }

    /// One face of the die; with advantage the better of two throws, with disadvantage the
    /// worse of two (the throw `throws` keeps).
    pub fn roll(&self, advantage: AdvantageState) -> (r: u32)
        ensures
            1 <= r <= die_sides(*self),
            exists|first: u32, second: u32|
                1 <= first <= die_sides(*self) && 1 <= second <= die_sides(*self) && r == #[trigger] throws_kept(
                    advantage,
                    first,
                    second,
                ),
    {
        let (kept, first, second) = self.throws(advantage);
        assert(kept == throws_kept(advantage, first, second));
        kept
    }
}

/// The throw kept of two is one of them: with advantage it is at least either throw, with
/// disadvantage at most either, and without either it is the first.
pub proof fn law_advantage_keeps_the_better(advantage: AdvantageState, first: u32, second: u32)
    ensures
        throws_kept(advantage, first, second) == first || throws_kept(advantage, first, second) == second,
        advantage == AdvantageState::Advantage ==> throws_kept(advantage, first, second) >= first
            && throws_kept(advantage, first, second) >= second,
        advantage == AdvantageState::Disadvantage ==> throws_kept(advantage, first, second) <= first
            && throws_kept(advantage, first, second) <= second,
        advantage == AdvantageState::Normal ==> throws_kept(advantage, first, second) == first,
{
}

/// Whether rolls take the better or the worse of two throws.
#[derive(Debug, Clone, Copy, PartialEq, Eq, Structural)]
pub enum AdvantageState {
    Advantage,
    Disadvantage,
    Normal,
}

/// The row (or column) of a state in the transition table.
pub open spec fn advantage_index(a: AdvantageState) -> usize {
    match a {
        AdvantageState::Advantage => 0,
        AdvantageState::Disadvantage => 1,
        AdvantageState::Normal => 2,
    }
}

/// Combining advantage states: advantage and disadvantage fall back to none whatever comes;
/// from none, the new state is taken.
pub open spec fn advantage_after(from: AdvantageState, to: AdvantageState) -> AdvantageState {
    match from {
        AdvantageState::Normal => to,
        _ => AdvantageState::Normal,
    }
}

/// The advantage state that a signed bonus stands for.
pub open spec fn advantage_of(n: i32) -> AdvantageState {
    if n > 0 {
        AdvantageState::Advantage
    } else if n < 0 {
        AdvantageState::Disadvantage
    } else {
        AdvantageState::Normal
    }
}

impl AdvantageState {
    pub fn as_size(&self) -> (r: usize)
        ensures
            r == advantage_index(*self),
    {
        match self {
            AdvantageState::Advantage => 0,
            AdvantageState::Disadvantage => 1,
            AdvantageState::Normal => 2,
        }
    }

    /// Looks the combined state up in the transition table.
    pub fn transition(&mut self, new_state: AdvantageState)
        ensures
            *final(self) == advantage_after(*old(self), new_state),
    {
        let table: [[AdvantageState; 3]; 3] = [
            [AdvantageState::Normal, AdvantageState::Normal, AdvantageState::Normal],
            [AdvantageState::Normal, AdvantageState::Normal, AdvantageState::Normal],
            [AdvantageState::Advantage, AdvantageState::Disadvantage, AdvantageState::Normal],
        ];
        let row = self.as_size();
        let col = new_state.as_size();
        *self = table[row][col];
    }

    /// The advantage state of a signed bonus: positive is advantage, negative disadvantage.
    pub fn from_bonus(n: i32) -> (r: AdvantageState)
        ensures
            r == advantage_of(n),
    {
        if n > 0 {
            AdvantageState::Advantage
        } else if n < 0 {
            AdvantageState::Disadvantage
        } else {
            AdvantageState::Normal
        }
    }
}

/// A die with its advantage state, its success and critical targets and its critical
/// multiplier, counted in thousandths (1300 is a multiplier of 1.3).
#[derive(Debug, Clone, Copy, PartialEq, Eq, Structural)]
pub struct DieObject {
    pub die: Die,
    pub advantage: AdvantageState,
    pub success: u32,
    pub critical: u32,
    pub critical_multiplier: u64,
    pub critical_die: Die,
}

/// The most that a roll of this die can add: its largest face, or, where its critical
/// target lies within its faces, that face multiplied on a critical hit, rounded up.
pub open spec fn die_object_max(d: DieObject) -> int {
    let s = die_sides(d.die) as int;
    let c = (s * d.critical_multiplier + 999) / 1000;
    if d.critical <= s && c > s {
        c
    } else {
        s
    }
}

/// The least that a roll of this die adds: one, or nothing where a critical hit is
/// possible and multiplies by zero.
pub open spec fn die_object_min(d: DieObject) -> int {
    if d.critical_multiplier == 0 && d.critical <= die_sides(d.die) {
        0
    } else {
        1
    }
}

impl DieObject {
    /// A die with no advantage that succeeds on its top face and hits critically on a 20,
    /// with a critical multiplier of 1.3.
    pub fn new(die: Die) -> (r: DieObject)
        ensures
            r.die == die,
            r.advantage == AdvantageState::Normal,
            r.success == die_sides(die),
            r.critical == 20,
            r.critical_multiplier == 1300,
            r.critical_die == Die::D20,
    {
        let critical_die = Die::D20;
        DieObject {
            die,
            advantage: AdvantageState::Normal,
            success: die.sides(),
            critical: critical_die.sides(),
            critical_multiplier: 1300,
            critical_die,
        }
    }

    pub fn roll(&self) -> (r: u32)
        ensures
            1 <= r <= die_sides(self.die),
            exists|first: u32, second: u32|
                1 <= first <= die_sides(self.die) && 1 <= second <= die_sides(self.die) && r == #[trigger] throws_kept(
                    self.advantage,
                    first,
                    second,
                ),
    {
        self.die.roll(self.advantage)
    }

    /// Whether a fresh roll reaches the critical target.
    pub fn crit(&self) -> (r: bool)
        ensures
            self.critical > die_sides(self.die) ==> !r,
            self.critical <= 1 ==> r,
            exists|check: u32| 1 <= check <= die_sides(self.die) && r == #[trigger] reaches(check, self.critical),
    {
        let check = self.die.roll(self.advantage);
        assert(reaches(check, self.critical) == (check >= self.critical));
        check >= self.critical
    }

    /// Whether a fresh roll reaches the success target.
    pub fn success(&self) -> (r: bool)
        ensures
            self.success > die_sides(self.die) ==> !r,
            self.success <= 1 ==> r,
    {
        self.die.roll(self.advantage) >= self.success
    }

    pub fn set_success(&mut self, success: u32)
        ensures
            *final(self) == (DieObject { success, ..*old(self) }),
    {
        self.success = success;
    }

    pub fn get_critical_multiplier(&self) -> (r: u64)
        ensures
            r == self.critical_multiplier,
    {
        self.critical_multiplier
    }

    pub fn set_critical_multiplier(&mut self, multiplier: u64)
        ensures
            *final(self) == (DieObject { critical_multiplier: multiplier, ..*old(self) }),
    {
        self.critical_multiplier = multiplier;
    }

    pub fn increase_critical_multiplier(&mut self, multiplier: u64)
        requires
            old(self).critical_multiplier + multiplier <= u64::MAX,
        ensures
            *final(self) == (DieObject {
                critical_multiplier: (old(self).critical_multiplier + multiplier) as u64,
                ..*old(self)
            }),
    {
        self.critical_multiplier = self.critical_multiplier + multiplier;
    }

    /// Moves the critical target by `critical`; a result below zero or above `u32::MAX`
    /// gives zero.
    pub fn set_critical(&mut self, critical: i32)
        requires
            critical != i32::MIN,
        ensures
            *final(self) == (DieObject {
                critical: if old(self).critical + critical < 0 || old(self).critical + critical > u32::MAX {
                    0
                } else {
                    (old(self).critical + critical) as u32
                },
                ..*old(self)
            }),
    {
        if critical < 0 {
            let down = (-critical) as u32;
            self.critical = if self.critical >= down {
                self.critical - down
            } else {
                0
            };
        } else {
            let up = critical as u32;
            self.critical = match self.critical.checked_add(up) {
                Some(v) => v,
                None => 0,
            };
        }
    }

    pub fn get_sides(&self) -> (r: u32)
        ensures
            r == die_sides(self.die),
    {
        self.die.sides()
    }

    pub fn set_critical_die(&mut self, die: Die)
        ensures
            *final(self) == (DieObject { critical_die: die, critical: die_sides(die), ..*old(self) }),
    {
        self.critical_die = die;
        self.critical = die.sides();
    }

    pub fn set_critical_advantage(&mut self, advantage: AdvantageState)
        ensures
            *final(self) == (DieObject {
                advantage: advantage_after(old(self).advantage, advantage),
                ..*old(self)
            }),
    {
        self.advantage.transition(advantage);
    }
}

/// A handful of dice thrown together.
#[derive(Debug, Clone)]
pub struct Dice {
    pub dice: Vec<DieObject>,
}

/// The most that throwing all of `dice` can give.
pub open spec fn dice_max(dice: Seq<DieObject>) -> int
    decreases dice.len(),
{
    if dice.len() == 0 {
        0
    } else {
        dice_max(dice.drop_last()) + die_object_max(dice.last())
    }
}

/// Whether a check roll reaches a target.
pub open spec fn reaches(check: u32, target: u32) -> bool {
    check >= target
}

/// What a die adds to a throw of a set, with check roll `check` and roll `rolled`: where
/// the check reaches its critical target, the roll times its critical multiplier (in
/// thousandths), rounded up; else the roll.
pub open spec fn die_value(d: DieObject, check: u32, rolled: u32) -> int {
    if check >= d.critical {
        (rolled * d.critical_multiplier + 999) / 1000
    } else {
        rolled as int
    }
}

/// What the dice add together, the `i`-th with check roll `checks[i]` and roll `rolled[i]`.
pub open spec fn rolls_total(dice: Seq<DieObject>, checks: Seq<u32>, rolled: Seq<u32>) -> int
    decreases dice.len(),
{
    if dice.len() == 0 {
        0
    } else {
        rolls_total(dice.drop_last(), checks, rolled) + die_value(
            dice.last(),
            checks[dice.len() - 1],
            rolled[dice.len() - 1],
        )
    }
}

/// Whether `checks` and `rolled` are throws of the dice, one of each per die, each within
/// its die's faces.
pub open spec fn throws_of(dice: Seq<DieObject>, checks: Seq<u32>, rolled: Seq<u32>) -> bool {
    &&& checks.len() == dice.len()
    &&& rolled.len() == dice.len()
    &&& forall|i: int|
        0 <= i < dice.len() ==> 1 <= #[trigger] checks[i] <= die_sides(dice[i].die) && 1 <= rolled[i]
            <= die_sides(dice[i].die)
}

proof fn lemma_rolls_total_extend(dice: Seq<DieObject>, checks: Seq<u32>, rolled: Seq<u32>, c: u32, v: u32)
    requires
        checks.len() >= dice.len(),
        rolled.len() >= dice.len(),
    ensures
        rolls_total(dice, checks.push(c), rolled.push(v)) == rolls_total(dice, checks, rolled),
    decreases dice.len(),
{
    if dice.len() > 0 {
        lemma_rolls_total_extend(dice.drop_last(), checks, rolled, c, v);
    }
}

/// The least that throwing all of `dice` gives.
pub open spec fn dice_min(dice: Seq<DieObject>) -> int
    decreases dice.len(),
{
    if dice.len() == 0 {
        0
    } else {
        dice_min(dice.drop_last()) + die_object_min(dice.last())
    }
}

/// Where no die multiplies by zero, every die adds at least one.
pub proof fn lemma_dice_min_count(dice: Seq<DieObject>)
    requires
        forall|i: int| 0 <= i < dice.len() ==> #[trigger] dice[i].critical_multiplier > 0,
    ensures
        dice_min(dice) == dice.len(),
    decreases dice.len(),
{
    if dice.len() > 0 {
        let d = dice.drop_last();
        assert forall|i: int| 0 <= i < d.len() implies #[trigger] d[i].critical_multiplier > 0 by {
            assert(d[i] == dice[i]);
        }
        lemma_dice_min_count(d);
        assert(dice[dice.len() - 1].critical_multiplier > 0);
    }
}

proof fn lemma_dice_max_prefix(dice: Seq<DieObject>, i: int)
    requires
        0 <= i <= dice.len(),
    ensures
        dice_max(dice.take(i)) <= dice_max(dice),
        dice_max(dice.take(i)) >= 0,
    decreases dice.len() - i,
{
    if i < dice.len() {
        lemma_dice_max_prefix(dice, i + 1);
        assert(dice.take(i + 1).drop_last() =~= dice.take(i));
        lemma_dice_max_nonneg(dice.take(i));
    } else {
        assert(dice.take(i) =~= dice);
        lemma_dice_max_nonneg(dice);
    }
}

proof fn lemma_dice_max_nonneg(dice: Seq<DieObject>)
    ensures
        dice_max(dice) >= 0,
    decreases dice.len(),
{
    if dice.len() > 0 {
        lemma_dice_max_nonneg(dice.drop_last());
    }
}

/// `n` copies of a fresh `die`.
pub open spec fn fresh_dice(die: Die, n: nat) -> Seq<DieObject> {
    Seq::new(
        n,
        |i: int|
            DieObject {
                die,
                advantage: AdvantageState::Normal,
                success: die_sides(die),
                critical: 20,
                critical_multiplier: 1300,
                critical_die: Die::D20,
            },
    )
}

impl Dice {
    pub fn new(dice: Vec<DieObject>) -> (r: Dice)
        ensures
            r.dice@ == dice@,
    {
        Dice { dice }
    }

    /// `quantity` fresh dice of one kind.
    pub fn new_from(die: Die, quantity: usize) -> (r: Dice)
        ensures
            r.dice@ == fresh_dice(die, quantity as nat),
    {
        let mut dice: Vec<DieObject> = Vec::new();
        let mut i: usize = 0;
        while i < quantity
            invariant
                i <= quantity,
                dice@ == fresh_dice(die, i as nat),
            decreases quantity - i,
        {
            dice.push(DieObject::new(die));
            i = i + 1;
            assert(dice@ =~= fresh_dice(die, i as nat));
        }
        Dice { dice }
    }

    pub fn empty() -> (r: Dice)
        ensures
            r.dice@ == Seq::<DieObject>::empty(),
    {
        Dice { dice: Vec::new() }
    }

    /// No dice at all.
    pub fn zero() -> (r: Dice)
        ensures
            r.dice@ == Seq::<DieObject>::empty(),
    {
        Dice::empty()
    }

    pub fn len(&self) -> (r: usize)
        ensures
            r == self.dice@.len(),
    {
        self.dice.len()
    }

    /// Whether at least one die's fresh roll reaches its success target.
    pub fn success(&self) -> (r: bool)
        ensures
            (forall|i: int| 0 <= i < self.dice@.len() ==> #[trigger] self.dice@[i].success > die_sides(
                self.dice@[i].die,
            )) ==> !r,
            (exists|i: int| 0 <= i < self.dice@.len() && #[trigger] self.dice@[i].success <= 1) ==> r,
    {
        let mut any = false;
        let mut i: usize = 0;
        while i < self.dice.len()
            invariant
                i <= self.dice@.len(),
                (forall|j: int| 0 <= j < self.dice@.len() ==> #[trigger] self.dice@[j].success > die_sides(
                    self.dice@[j].die,
                )) ==> !any,
                (exists|j: int| 0 <= j < i && #[trigger] self.dice@[j].success <= 1) ==> any,
            decreases self.dice@.len() - i,
        {
            let s = self.dice[i].success();
            any = any || s;
            i = i + 1;
        }
        any
    }

    /// One throw of `d`: its check roll, its roll, and what it adds.
    fn throw_die(d: &DieObject) -> (r: (u64, Ghost<u32>, Ghost<u32>))
        ensures
            1 <= r.1@ <= die_sides(d.die),
            1 <= r.2@ <= die_sides(d.die),
            r.0 == die_value(*d, r.1@, r.2@),
            die_object_min(*d) <= r.0 <= die_object_max(*d),
    {
        let crit = d.crit();
        let ghost check = choose|check: u32| 1 <= check <= die_sides(d.die) && crit == #[trigger] reaches(check, d.critical);
        let ghost mut thrown: u32 = 1;
        let value: u64 = if crit {
            let first = d.roll();
            proof {
                thrown = first;
            }
            let rolled = first as u128;
            let m = d.get_critical_multiplier() as u128;
            let sides = d.die.sides() as u128;
            assert(rolled * m <= 100 * 0xffff_ffff_ffff_ffff) by (nonlinear_arith)
                requires
                    rolled <= 100,
                    m <= 0xffff_ffff_ffff_ffff,
            ;
            assert(rolled * m <= sides * m) by (nonlinear_arith)
                requires
                    rolled <= sides,
                    m >= 0,
            ;
            let scaled = (rolled * m + 999) / 1000;
            assert(scaled <= (sides * m + 999) / 1000) by (nonlinear_arith)
                requires
                    rolled * m <= sides * m,
                    scaled == (rolled * m + 999) / 1000,
            ;
            assert(m > 0 ==> scaled >= 1) by (nonlinear_arith)
                requires
                    rolled >= 1,
                    scaled == (rolled * m + 999) / 1000,
            ;
            assert(scaled <= die_object_max(*d));
            assert(scaled == die_value(*d, check, thrown));
            scaled as u64
        } else {
            let first = d.roll();
            proof {
                thrown = first;
            }
            first as u64
        };
        (value, Ghost(check), Ghost(thrown))
    }

    /// The sum of one fresh roll of every die; a die whose check roll reaches its critical
    /// target adds its roll times its critical multiplier, rounded up.
    pub fn roll(&self) -> (r: u32)
        requires
            dice_max(self.dice@) <= u32::MAX,
        ensures
            dice_min(self.dice@) <= r <= dice_max(self.dice@),
            (forall|i: int| 0 <= i < self.dice@.len() ==> #[trigger] self.dice@[i].critical_multiplier > 0)
                ==> self.dice@.len() <= r,
            exists|checks: Seq<u32>, rolled: Seq<u32>|
                throws_of(self.dice@, checks, rolled) && r == #[trigger] rolls_total(self.dice@, checks, rolled),
    {
        let mut total: u64 = 0;
        let mut i: usize = 0;
        let ghost mut checks: Seq<u32> = Seq::empty();
        let ghost mut rolls: Seq<u32> = Seq::empty();
        while i < self.dice.len()
            invariant
                throws_of(self.dice@.take(i as int), checks, rolls),
                total == rolls_total(self.dice@.take(i as int), checks, rolls),
                i <= self.dice@.len(),
                total <= dice_max(self.dice@.take(i as int)),
                dice_min(self.dice@.take(i as int)) <= total,
                dice_max(self.dice@) <= u32::MAX,
            decreases self.dice@.len() - i,
        {
            proof {
                lemma_dice_max_prefix(self.dice@, i + 1);
                assert(self.dice@.take(i + 1).drop_last() =~= self.dice@.take(i as int));
            }
            let (value, Ghost(check), Ghost(thrown)) = Self::throw_die(&self.dice[i]);
            assert(value <= die_object_max(self.dice@[i as int]));
            assert(die_object_min(self.dice@[i as int]) <= value);
            proof {
                let c2 = checks.push(check);
                let r2 = rolls.push(thrown);
                let t = self.dice@.take(i + 1);
                assert(t.drop_last() =~= self.dice@.take(i as int));
                assert(value == die_value(t.last(), c2[i as int], r2[i as int]));
                lemma_rolls_total_extend(self.dice@.take(i as int), checks, rolls, check, thrown);
                checks = c2;
                rolls = r2;
            }
            total = total + value;
            i = i + 1;
        }
        assert(self.dice@.take(self.dice@.len() as int) =~= self.dice@);
        proof {
            if forall|i: int| 0 <= i < self.dice@.len() ==> #[trigger] self.dice@[i].critical_multiplier > 0 {
                lemma_dice_min_count(self.dice@);
            }
        }
        total as u32
    }

    pub fn add_die(&mut self, die: Vec<DieObject>)
        ensures
            final(self).dice@ == old(self).dice@ + die@,
    {
        let mut die = die;
        self.dice.append(&mut die);
    }

    /// Every die's advantage state combined with `advantage`.
    pub fn set_advantage(&mut self, advantage: AdvantageState)
        ensures
            final(self).dice@.len() == old(self).dice@.len(),
            forall|i: int| 0 <= i < old(self).dice@.len() ==> #[trigger] final(self).dice@[i] == (DieObject {
                advantage: advantage_after(old(self).dice@[i].advantage, advantage),
                ..old(self).dice@[i]
            }),
    {
        let mut i: usize = 0;
        while i < self.dice.len()
            invariant
                i <= self.dice@.len(),
                self.dice@.len() == old(self).dice@.len(),
                forall|j: int| 0 <= j < i ==> #[trigger] self.dice@[j] == (DieObject {
                    advantage: advantage_after(old(self).dice@[j].advantage, advantage),
                    ..old(self).dice@[j]
                }),
                forall|j: int| i <= j < self.dice@.len() ==> #[trigger] self.dice@[j] == old(self).dice@[j],
            decreases self.dice@.len() - i,
        {
            self.dice[i].set_critical_advantage(advantage);
            i = i + 1;
        }
    }

    pub fn advantage(&mut self)
        ensures
            final(self).dice@.len() == old(self).dice@.len(),
            forall|i: int| 0 <= i < old(self).dice@.len() ==> #[trigger] final(self).dice@[i] == (DieObject {
                advantage: advantage_after(old(self).dice@[i].advantage, AdvantageState::Advantage),
                ..old(self).dice@[i]
            }),
    {
        self.set_advantage(AdvantageState::Advantage)
    }

    pub fn disadvantage(&mut self)
        ensures
            final(self).dice@.len() == old(self).dice@.len(),
            forall|i: int| 0 <= i < old(self).dice@.len() ==> #[trigger] final(self).dice@[i] == (DieObject {
                advantage: advantage_after(old(self).dice@[i].advantage, AdvantageState::Disadvantage),
                ..old(self).dice@[i]
            }),
    {
        self.set_advantage(AdvantageState::Disadvantage)
    }

    /// The critical advantage of every die combined with `advantage`.
    pub fn set_critical_advantage(&mut self, advantage: AdvantageState)
        ensures
            final(self).dice@.len() == old(self).dice@.len(),
            forall|i: int| 0 <= i < old(self).dice@.len() ==> #[trigger] final(self).dice@[i] == (DieObject {
                advantage: advantage_after(old(self).dice@[i].advantage, advantage),
                ..old(self).dice@[i]
            }),
    {
        self.set_advantage(advantage)
    }

    pub fn set_success(&mut self, success: u32)
        ensures
            final(self).dice@.len() == old(self).dice@.len(),
            forall|i: int| 0 <= i < old(self).dice@.len() ==> #[trigger] final(self).dice@[i] == (DieObject {
                success,
                ..old(self).dice@[i]
            }),
    {
        let mut i: usize = 0;
        while i < self.dice.len()
            invariant
                i <= self.dice@.len(),
                self.dice@.len() == old(self).dice@.len(),
                forall|j: int| 0 <= j < i ==> #[trigger] self.dice@[j] == (DieObject { success, ..old(self).dice@[j] }),
                forall|j: int| i <= j < self.dice@.len() ==> #[trigger] self.dice@[j] == old(self).dice@[j],
            decreases self.dice@.len() - i,
        {
            self.dice[i].set_success(success);
            i = i + 1;
        }
    }

    pub fn set_critical_multiplier(&mut self, multiplier: u64)
        ensures
            final(self).dice@.len() == old(self).dice@.len(),
            forall|i: int| 0 <= i < old(self).dice@.len() ==> #[trigger] final(self).dice@[i] == (DieObject {
                critical_multiplier: multiplier,
                ..old(self).dice@[i]
            }),
    {
        let mut i: usize = 0;
        while i < self.dice.len()
            invariant
                i <= self.dice@.len(),
                self.dice@.len() == old(self).dice@.len(),
                forall|j: int| 0 <= j < i ==> #[trigger] self.dice@[j] == (DieObject {
                    critical_multiplier: multiplier,
                    ..old(self).dice@[j]
                }),
                forall|j: int| i <= j < self.dice@.len() ==> #[trigger] self.dice@[j] == old(self).dice@[j],
            decreases self.dice@.len() - i,
        {
            self.dice[i].set_critical_multiplier(multiplier);
            i = i + 1;
        }
    }

    /// Moves the critical target of every die by `critical`.
    pub fn set_critical_target(&mut self, critical: i32)
        requires
            critical != i32::MIN,
        ensures
            final(self).dice@.len() == old(self).dice@.len(),
            forall|i: int| 0 <= i < old(self).dice@.len() ==> #[trigger] final(self).dice@[i] == (DieObject {
                critical: if old(self).dice@[i].critical + critical < 0 || old(self).dice@[i].critical + critical
                    > u32::MAX {
                    0
                } else {
                    (old(self).dice@[i].critical + critical) as u32
                },
                ..old(self).dice@[i]
            }),
    {
        let mut i: usize = 0;
        while i < self.dice.len()
            invariant
                critical != i32::MIN,
                i <= self.dice@.len(),
                self.dice@.len() == old(self).dice@.len(),
                forall|j: int| 0 <= j < i ==> #[trigger] self.dice@[j] == (DieObject {
                    critical: if old(self).dice@[j].critical + critical < 0 || old(self).dice@[j].critical + critical
                        > u32::MAX {
                        0
                    } else {
                        (old(self).dice@[j].critical + critical) as u32
                    },
                    ..old(self).dice@[j]
                }),
                forall|j: int| i <= j < self.dice@.len() ==> #[trigger] self.dice@[j] == old(self).dice@[j],
            decreases self.dice@.len() - i,
        {
            self.dice[i].set_critical(critical);
            i = i + 1;
        }
    }
}

impl Default for Dice {
    /// A single fresh twenty-sided die.
    fn default() -> (r: Dice)
        ensures
            r.dice@ == fresh_dice(Die::D20, 1),
    {
        Dice::new_from(Die::D20, 1)
    }
}


/// Combining from no advantage takes the new state; combining from advantage or
/// disadvantage always falls back to none, so opposite states cancel in either order.
pub proof fn law_advantage_combination(a: AdvantageState, b: AdvantageState)
    ensures
        advantage_after(AdvantageState::Normal, a) == a,
        a != AdvantageState::Normal ==> advantage_after(a, b) == AdvantageState::Normal,
        advantage_after(advantage_after(AdvantageState::Normal, AdvantageState::Advantage), AdvantageState::Disadvantage)
            == AdvantageState::Normal,
        advantage_after(advantage_after(AdvantageState::Normal, AdvantageState::Disadvantage), AdvantageState::Advantage)
            == AdvantageState::Normal,
        advantage_after(advantage_after(a, b), b) == b || advantage_after(advantage_after(a, b), b)
            == AdvantageState::Normal,
{
}

} // verus!
