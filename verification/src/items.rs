use vstd::prelude::*;
use vstd::std_specs::cmp::PartialOrdSpecImpl;
use std::cmp::Ordering;
use crate::random::random_range;
use crate::constructed::{template_action, template_name, template_rarity, template_slot, template_value, ItemsWeHave};
use crate::text::{decimal, unsigned_text};
use vstd::string::StringExecFns;
use crate::constructed::{template_armor, template_attributes, template_damage, template_resistance};
use crate::dice::{fresh_dice, Dice, DieObject};
use crate::units::{attributes_sum, attributes_sum_fits, attributes_wf, attributes_with, attribute_value, Attributes, DamageType};
use crate::damage::all_damage_types;

verus! {

/// The places where a character wears an item.
#[derive(Debug, Clone, Copy, PartialEq, Eq, Hash, Structural)]
pub enum EquipmentSlot {
    Helmet,
    Armor,
    Legs,
    Feet,
    Hands,
    Weapon,
    Shield,
    Ring,
    Amulet,
    WondrousItem,
}

/// The slot that a roll from 0 to 999 stands for.
pub open spec fn slot_for_roll(n: u64) -> EquipmentSlot {
    if n <= 100 {
        EquipmentSlot::Helmet
    } else if n <= 301 {
        EquipmentSlot::Armor
    } else if n <= 403 {
        EquipmentSlot::Legs
    } else if n <= 504 {
        EquipmentSlot::Feet
    } else if n <= 605 {
        EquipmentSlot::Hands
    } else if n <= 706 {
        EquipmentSlot::Weapon
    } else if n <= 807 {
        EquipmentSlot::Shield
    } else if n <= 938 {
        EquipmentSlot::Ring
    } else if n <= 980 {
        EquipmentSlot::Amulet
    } else {
        EquipmentSlot::WondrousItem
    }
}

impl EquipmentSlot {
    /// How a slot is shown to players.
    pub open spec fn label(self) -> Seq<char> {
        match self {
            EquipmentSlot::Helmet => "🎩 Helmet 🎩"@,
            EquipmentSlot::Armor => "👕 Armor 👕"@,
            EquipmentSlot::Legs => "👖 Legs 👖"@,
            EquipmentSlot::Feet => "👞 Feet 👞"@,
            EquipmentSlot::Hands => "🧤 Hands 🧤"@,
            EquipmentSlot::Weapon => "🗡️ Weapon 🗡️"@,
            EquipmentSlot::Shield => "🛡️ Shield 🛡️"@,
            EquipmentSlot::Ring => "💍 Ring 💍"@,
            EquipmentSlot::Amulet => "💎 Amulet 💎"@,
            EquipmentSlot::WondrousItem => "🎲 Wondrous Item 🎲"@,
        }
    }

    /// The text that shows this value to players.
    pub fn to_string(&self) -> (r: String)
        ensures
            r@ == self.label(),
    {
        match self {
            EquipmentSlot::Helmet => "🎩 Helmet 🎩".to_owned(),
            EquipmentSlot::Armor => "👕 Armor 👕".to_owned(),
            EquipmentSlot::Legs => "👖 Legs 👖".to_owned(),
            EquipmentSlot::Feet => "👞 Feet 👞".to_owned(),
            EquipmentSlot::Hands => "🧤 Hands 🧤".to_owned(),
            EquipmentSlot::Weapon => "🗡️ Weapon 🗡️".to_owned(),
            EquipmentSlot::Shield => "🛡️ Shield 🛡️".to_owned(),
            EquipmentSlot::Ring => "💍 Ring 💍".to_owned(),
            EquipmentSlot::Amulet => "💎 Amulet 💎".to_owned(),
            EquipmentSlot::WondrousItem => "🎲 Wondrous Item 🎲".to_owned(),
        }
    }

    /// The slot of a roll from 0 to 999.
    pub fn for_roll(n: u64) -> (r: EquipmentSlot)
        ensures
            r == slot_for_roll(n),
    {
        if n <= 100 {
            EquipmentSlot::Helmet
        } else if n <= 301 {
            EquipmentSlot::Armor
        } else if n <= 403 {
            EquipmentSlot::Legs
        } else if n <= 504 {
            EquipmentSlot::Feet
        } else if n <= 605 {
            EquipmentSlot::Hands
        } else if n <= 706 {
            EquipmentSlot::Weapon
        } else if n <= 807 {
            EquipmentSlot::Shield
        } else if n <= 938 {
            EquipmentSlot::Ring
        } else if n <= 980 {
            EquipmentSlot::Amulet
        } else {
            EquipmentSlot::WondrousItem
        }
    }

    /// A random slot, by a roll from 0 to 999.
    pub fn random() -> (r: EquipmentSlot)
        ensures
            exists|n: u64| n < 1000 && r == slot_for_roll(n),
    {
        let n = random_range(0, 1000);
        EquipmentSlot::for_roll(n)
    }
}

/// How rare an item is; the rarer, the smaller its number.
#[derive(Debug, Clone, Copy, PartialEq, Eq, Hash, Structural)]
pub enum Rarity {
    Common,
    Uncommon,
    Rare,
    VeryRare,
    Epic,
    Legendary,
    Artifact,
    Wondrous,
    Unique,
}

/// The rarity that a lower-case name stands for.
pub open spec fn rarity_named(name: Seq<char>) -> Option<Rarity> {
    if name == "common"@ {
        Some(Rarity::Common)
    } else if name == "uncommon"@ {
        Some(Rarity::Uncommon)
    } else if name == "rare"@ {
        Some(Rarity::Rare)
    } else if name == "veryrare"@ {
        Some(Rarity::VeryRare)
    } else if name == "epic"@ {
        Some(Rarity::Epic)
    } else if name == "legendary"@ {
        Some(Rarity::Legendary)
    } else if name == "artifact"@ {
        Some(Rarity::Artifact)
    } else if name == "wondrous"@ {
        Some(Rarity::Wondrous)
    } else if name == "unique"@ {
        Some(Rarity::Unique)
    } else {
        None
    }
}

/// The rarity that a lower-case word names, if it names one.
fn rarity_of_word(lower: &String) -> (r: Option<Rarity>)
    ensures
        r == rarity_named(lower@),
{
    if crate::units::same_text(lower, "common") {
        Some(Rarity::Common)
    } else if crate::units::same_text(lower, "uncommon") {
        Some(Rarity::Uncommon)
    } else if crate::units::same_text(lower, "rare") {
        Some(Rarity::Rare)
    } else if crate::units::same_text(lower, "veryrare") {
        Some(Rarity::VeryRare)
    } else if crate::units::same_text(lower, "epic") {
        Some(Rarity::Epic)
    } else if crate::units::same_text(lower, "legendary") {
        Some(Rarity::Legendary)
    } else if crate::units::same_text(lower, "artifact") {
        Some(Rarity::Artifact)
    } else if crate::units::same_text(lower, "wondrous") {
        Some(Rarity::Wondrous)
    } else if crate::units::same_text(lower, "unique") {
        Some(Rarity::Unique)
    } else {
        None
    }
}

impl Rarity {
    /// The rarity a name stands for, ignoring case.
    pub fn from_text(rarity: String) -> (r: Rarity)
        requires
            rarity_named(crate::units::lowercase(rarity@)) is Some,
        ensures
            rarity_named(crate::units::lowercase(rarity@)) == Some(r),
    {
        let lower = crate::units::to_lowercase(rarity.as_str());
        match rarity_of_word(&lower) {
            Some(r) => r,
            None => Rarity::Common,
        }
    }

    /// The rarity a name stands for, ignoring case; `None` for any other
    /// name.
    pub fn parse(rarity: String) -> (r: Option<Rarity>)
        ensures
            r == rarity_named(crate::units::lowercase(rarity@)),
    {
        let lower = crate::units::to_lowercase(rarity.as_str());
        match rarity_of_word(&lower) {
            Some(_) => Some(Rarity::from_text(rarity)),
            None => None,
        }
    }
}

impl Rarity {
    /// The number of a rarity: 150 for common down to 1 for unique.
    pub open spec fn number(self) -> u64 {
        match self {
            Rarity::Common => 150,
            Rarity::Uncommon => 100,
            Rarity::Rare => 50,
            Rarity::VeryRare => 15,
            Rarity::Epic => 7,
            Rarity::Legendary => 5,
            Rarity::Artifact => 4,
            Rarity::Wondrous => 3,
            Rarity::Unique => 1,
        }
    }

    pub fn value(&self) -> (r: u64)
        ensures
            r == self.number(),
    {
        match self {
            Rarity::Common => 150,
            Rarity::Uncommon => 100,
            Rarity::Rare => 50,
            Rarity::VeryRare => 15,
            Rarity::Epic => 7,
            Rarity::Legendary => 5,
            Rarity::Artifact => 4,
            Rarity::Wondrous => 3,
            Rarity::Unique => 1,
        }
    }

    /// The most points an item of a rarity holds.
    pub open spec fn points(self) -> u64 {
        match self {
            Rarity::Common => 1000,
            Rarity::Uncommon => 2000,
            Rarity::Rare => 10000,
            Rarity::VeryRare => 20000,
            Rarity::Epic => 40000,
            Rarity::Legendary => 180000,
            Rarity::Artifact => 1500000,
            Rarity::Wondrous => 10000000,
            Rarity::Unique => 52000000,
        }
    }

    pub fn item_points(&self) -> (r: u64)
        ensures
            r == self.points(),
    {
        match self {
            Rarity::Common => 1000,
            Rarity::Uncommon => 2000,
            Rarity::Rare => 10000,
            Rarity::VeryRare => 20000,
            Rarity::Epic => 40000,
            Rarity::Legendary => 180000,
            Rarity::Artifact => 1500000,
            Rarity::Wondrous => 10000000,
            Rarity::Unique => 52000000,
        }
    }

    /// The next more common rarity; common stays common.
    pub open spec fn lower(self) -> Rarity {
        match self {
            Rarity::Common => Rarity::Common,
            Rarity::Uncommon => Rarity::Common,
            Rarity::Rare => Rarity::Uncommon,
            Rarity::VeryRare => Rarity::Rare,
            Rarity::Epic => Rarity::VeryRare,
            Rarity::Legendary => Rarity::Epic,
            Rarity::Artifact => Rarity::Legendary,
            Rarity::Wondrous => Rarity::Artifact,
            Rarity::Unique => Rarity::Wondrous,
        }
    }

    /// Returns one rarity lower than this one.
    pub fn one_less(&self) -> (r: Rarity)
        ensures
            r == self.lower(),
    {
        match self {
            Rarity::Common => Rarity::Common,
            Rarity::Uncommon => Rarity::Common,
            Rarity::Rare => Rarity::Uncommon,
            Rarity::VeryRare => Rarity::Rare,
            Rarity::Epic => Rarity::VeryRare,
            Rarity::Legendary => Rarity::Epic,
            Rarity::Artifact => Rarity::Legendary,
            Rarity::Wondrous => Rarity::Artifact,
            Rarity::Unique => Rarity::Wondrous,
        }
    }

    /// The rarity that an amount of item points falls in.
    pub open spec fn of_points(p: u64) -> Rarity {
        if p <= 1000 {
            Rarity::Common
        } else if p <= 2000 {
            Rarity::Uncommon
        } else if p <= 10_000 {
            Rarity::Rare
        } else if p <= 20_000 {
            Rarity::VeryRare
        } else if p <= 40_000 {
            Rarity::Epic
        } else if p <= 180_000 {
            Rarity::Legendary
        } else if p <= 500_000 {
            Rarity::Artifact
        } else if p <= 1_000_000 {
            Rarity::Wondrous
        } else {
            Rarity::Unique
        }
    }

    /// The rarity of an amount of item points.
    pub fn from_points(p: u64) -> (r: Rarity)
        ensures
            r == Rarity::of_points(p),
    {
        if p <= 1000 {
            Rarity::Common
        } else if p <= 2000 {
            Rarity::Uncommon
        } else if p <= 10_000 {
            Rarity::Rare
        } else if p <= 20_000 {
            Rarity::VeryRare
        } else if p <= 40_000 {
            Rarity::Epic
        } else if p <= 180_000 {
            Rarity::Legendary
        } else if p <= 500_000 {
            Rarity::Artifact
        } else if p <= 1_000_000 {
            Rarity::Wondrous
        } else {
            Rarity::Unique
        }
    }
}

impl PartialOrd for Rarity {
    /// Rarities are ordered by their numbers: common is the greatest, unique the least.
    fn partial_cmp(&self, other: &Rarity) -> (r: Option<Ordering>) {
        let a = self.value();
        let b = other.value();
        if a < b {
            Some(Ordering::Less)
        } else if a == b {
            Some(Ordering::Equal)
        } else {
            Some(Ordering::Greater)
        }
    }
}

/// A rarity below another in their order (the rarer one) holds more item points: the item
/// points fall strictly from unique up to common.
pub proof fn law_rarer_holds_more_points(r1: Rarity, r2: Rarity)
    requires
        vstd::std_specs::cmp::PartialOrdSpec::partial_cmp_spec(&r1, &r2) == Some(Ordering::Less),
    ensures
        r1.points() > r2.points(),
{
}

impl PartialOrdSpecImpl for Rarity {
    open spec fn obeys_partial_cmp_spec() -> bool {
        true
    }

    open spec fn partial_cmp_spec(&self, other: &Rarity) -> Option<Ordering> {
        if self.number() < other.number() {
            Some(Ordering::Less)
        } else if self.number() == other.number() {
            Some(Ordering::Equal)
        } else {
            Some(Ordering::Greater)
        }
    }
}



/// A slot of the equipment with the item worn there, if any, and whether the player chose it.
#[derive(Debug, Clone, Copy, PartialEq, Eq, Structural)]
pub struct NameMe {
    pub item: Option<ItemsWeHave>,
    pub slot: EquipmentSlot,
    pub player_equipped: bool,
}

/// The slot after the player put `it` on.
pub open spec fn worn_by_choice(n: NameMe, it: ItemsWeHave) -> NameMe {
    NameMe { item: Some(it), player_equipped: true, ..n }
}

/// Whether automatic equipping replaces `current` by `new`: when the current item's rarity
/// number is at most the new one's.
pub open spec fn auto_replaces(current: ItemsWeHave, new: ItemsWeHave) -> bool {
    template_rarity(current).number() <= template_rarity(new).number()
}

/// The slot after automatic equipping of `it`, with what is not worn afterwards.
pub open spec fn auto_equip_result(n: NameMe, it: ItemsWeHave) -> (NameMe, Option<ItemsWeHave>) {
    if n.player_equipped {
        (n, Some(it))
    } else {
        match n.item {
            None => (NameMe { item: Some(it), ..n }, None),
            Some(cur) => if auto_replaces(cur, it) {
                (NameMe { item: Some(it), ..n }, Some(cur))
            } else {
                (n, Some(it))
            },
        }
    }
}

impl NameMe {
    pub fn new(slot: EquipmentSlot) -> (r: NameMe)
        ensures
            r == (NameMe { item: None, slot, player_equipped: false }),
    {
        NameMe { item: None, slot, player_equipped: false }
    }

    pub fn item(&self) -> (r: Option<&ItemsWeHave>)
        ensures
            match self.item {
                Some(it) => r == Some(&it),
                None => r is None,
            },
    {
        self.item.as_ref()
    }

    /// Puts `new_item` on unless the player chose the current item; an empty slot takes
    /// it, an occupied one only where `auto_replaces`. Returns what is not worn afterwards.
    pub fn auto_equip(&mut self, new_item: ItemsWeHave) -> (r: Option<ItemsWeHave>)
        ensures
            (*final(self), r) == auto_equip_result(*old(self), new_item),
            old(self).player_equipped ==> *final(self) == *old(self) && r == Some(new_item),
            !old(self).player_equipped ==> match old(self).item {
                None => *final(self) == (NameMe { item: Some(new_item), ..*old(self) }) && r is None,
                Some(cur) => if auto_replaces(cur, new_item) {
                    *final(self) == (NameMe { item: Some(new_item), ..*old(self) }) && r == Some(cur)
                } else {
                    *final(self) == *old(self) && r == Some(new_item)
                },
            },
    {
        if self.player_equipped {
            return Some(new_item);
        }
        if let Some(item) = self.item {
            if item.rarity().value() <= new_item.rarity().value() {
                self.item = Some(new_item);
                Some(item)
            } else {
                Some(new_item)
            }
        } else {
            self.item = Some(new_item);
            None
        }
    }

    /// Puts `new_item` on by the player's choice; returns the item it replaces.
    pub fn equip(&mut self, new_item: ItemsWeHave) -> (r: Option<ItemsWeHave>)
        ensures
            *final(self) == worn_by_choice(*old(self), new_item),
            r == old(self).item,
    {
        self.player_equipped = true;
        let old_item = self.item;
        self.item = Some(new_item);
        old_item
    }

    /// The extra actions of the worn item.
    pub fn action(&self) -> (r: u32)
        ensures
            r == match self.item {
                Some(it) => template_action(it),
                None => 0,
            },
    {
        match self.item {
            Some(it) => it.generate().action,
            None => 0,
        }
    }
}

/// Everything a character wears: one item per slot, two rings and three wondrous items.
#[derive(Debug, Clone, PartialEq, Eq)]
pub struct Equipment {
    pub helmet: NameMe,
    pub armor: NameMe,
    pub legs: NameMe,
    pub feet: NameMe,
    pub hands: NameMe,
    pub weapon: NameMe,
    pub shield: NameMe,
    pub ring: Vec<NameMe>,
    pub amulet: NameMe,
    pub wondrous_item: Vec<NameMe>,
}

/// Two rings and three wondrous items.
pub open spec fn equipment_wf(e: Equipment) -> bool {
    e.ring@.len() == 2 && e.wondrous_item@.len() == 3
}

/// The index of the first slot of `v` that the player did not choose, if any.
pub open spec fn first_free(v: Seq<NameMe>) -> Option<int> {
    if exists|i: int| 0 <= i < v.len() && !v[i].player_equipped {
        Some(choose|i: int| 0 <= i < v.len() && !v[i].player_equipped && forall|j: int| 0 <= j < i ==> v[j].player_equipped)
    } else {
        None
    }
}

/// The sort key of a slot for automatic equipping: empty slots first, then by rarity number.
pub open spec fn auto_key(n: NameMe) -> int {
    match n.item {
        None => -1,
        Some(it) => template_rarity(it).number() as int,
    }
}

/// `i` is the first slot of `v` with the least `auto_key`.
pub open spec fn first_least(v: Seq<NameMe>, i: int) -> bool {
    &&& 0 <= i < v.len()
    &&& forall|j: int| 0 <= j < v.len() ==> auto_key(v[i]) <= auto_key(#[trigger] v[j])
    &&& forall|j: int| 0 <= j < i ==> auto_key(#[trigger] v[j]) > auto_key(v[i])
}

/// `after` is `before` with the slots for the kind `slot` changed by `f`, where the other
/// slots stay as they were.
pub open spec fn others_unchanged(before: Equipment, after: Equipment, slot: EquipmentSlot) -> bool {
    &&& slot != EquipmentSlot::Helmet ==> after.helmet == before.helmet
    &&& slot != EquipmentSlot::Armor ==> after.armor == before.armor
    &&& slot != EquipmentSlot::Legs ==> after.legs == before.legs
    &&& slot != EquipmentSlot::Feet ==> after.feet == before.feet
    &&& slot != EquipmentSlot::Hands ==> after.hands == before.hands
    &&& slot != EquipmentSlot::Weapon ==> after.weapon == before.weapon
    &&& slot != EquipmentSlot::Shield ==> after.shield == before.shield
    &&& slot != EquipmentSlot::Ring ==> after.ring@ == before.ring@
    &&& slot != EquipmentSlot::Amulet ==> after.amulet == before.amulet
    &&& slot != EquipmentSlot::WondrousItem ==> after.wondrous_item@ == before.wondrous_item@
}

/// The single slot of the kind `slot` (not rings or wondrous items).
pub open spec fn single_slot(e: Equipment, slot: EquipmentSlot) -> NameMe {
    match slot {
        EquipmentSlot::Helmet => e.helmet,
        EquipmentSlot::Armor => e.armor,
        EquipmentSlot::Legs => e.legs,
        EquipmentSlot::Feet => e.feet,
        EquipmentSlot::Hands => e.hands,
        EquipmentSlot::Weapon => e.weapon,
        EquipmentSlot::Shield => e.shield,
        _ => e.amulet,
    }
}

/// Whether a slot kind holds a single item.
pub open spec fn is_single(slot: EquipmentSlot) -> bool {
    slot != EquipmentSlot::Ring && slot != EquipmentSlot::WondrousItem
}

/// `after` is `before` once the player put `item` on, `r` being what it replaced.
pub open spec fn equipped(before: Equipment, after: Equipment, item: ItemsWeHave, r: Option<ItemsWeHave>) -> bool {
    &&& others_unchanged(before, after, template_slot(item))
    &&& is_single(template_slot(item)) ==> single_slot(after, template_slot(item))
        == worn_by_choice(single_slot(before, template_slot(item)), item)
        && r == single_slot(before, template_slot(item)).item
    &&& template_slot(item) == EquipmentSlot::Ring ==> match first_free(before.ring@) {
        Some(k) => after.ring@ == before.ring@.update(k, worn_by_choice(before.ring@[k], item))
            && r == before.ring@[k].item,
        None => after.ring@ == seq![before.ring@[1], worn_by_choice(before.ring@[0], item)]
            && r == before.ring@[0].item,
    }
    &&& template_slot(item) == EquipmentSlot::WondrousItem ==> match first_free(before.wondrous_item@) {
        Some(k) => after.wondrous_item@ == before.wondrous_item@.update(k, worn_by_choice(before.wondrous_item@[k], item))
            && r == before.wondrous_item@[k].item,
        None => after.wondrous_item@ == seq![
            before.wondrous_item@[1],
            before.wondrous_item@[2],
            worn_by_choice(before.wondrous_item@[0], item),
        ] && r == before.wondrous_item@[0].item,
    }
}

impl Equipment {
    /// Index of the first slot in `v` the player did not choose.
    fn first_free_index(v: &Vec<NameMe>) -> (r: Option<usize>)
        ensures
            match r {
                Some(i) => first_free(v@) == Some(i as int),
                None => first_free(v@) is None,
            },
    {
        let mut i: usize = 0;
        while i < v.len()
            invariant
                i <= v@.len(),
                forall|j: int| 0 <= j < i ==> v@[j].player_equipped,
            decreases v@.len() - i,
        {
            if !v[i].player_equipped {
                let ghost k = choose|k: int| 0 <= k < v@.len() && !v@[k].player_equipped && forall|j: int| 0 <= j < k ==> v@[j].player_equipped;
                proof {
                    if k < i {
                        assert(v@[k].player_equipped);
                    } else if k > i {
                        assert(v@[i as int].player_equipped);
                    }
                }
                return Some(i);
            }
            i = i + 1;
        }
        None
    }

    /// Index of the first slot in `v` with the least automatic-equipping key.
    fn first_least_index(v: &Vec<NameMe>) -> (r: usize)
        requires
            v@.len() > 0,
        ensures
            first_least(v@, r as int),
    {
        let mut best: usize = 0;
        let mut i: usize = 1;
        while i < v.len()
            invariant
                0 < v@.len(),
                1 <= i <= v@.len(),
                best < i,
                forall|j: int| 0 <= j < i ==> auto_key(v@[best as int]) <= auto_key(#[trigger] v@[j]),
                forall|j: int| 0 <= j < best ==> auto_key(#[trigger] v@[j]) > auto_key(v@[best as int]),
            decreases v@.len() - i,
        {
            let better = match (v[i].item, v[best].item) {
                (None, None) => false,
                (None, Some(_)) => true,
                (Some(_), None) => false,
                (Some(a), Some(b)) => a.rarity().value() < b.rarity().value(),
            };
            if better {
                best = i;
            }
            i = i + 1;
        }
        best
    }

    /// Puts `new_item` on by the player's choice in its slot; returns what it replaces. A
    /// ring or wondrous item goes to the first such slot the player did not choose; where
    /// there is none, it goes to the first and that slot moves to the back.
    pub fn equip(&mut self, new_item: ItemsWeHave) -> (r: Option<ItemsWeHave>)
        requires
            equipment_wf(*old(self)),
        ensures
            equipment_wf(*final(self)),
            equipped(*old(self), *final(self), new_item, r),
    {
        match new_item.slot() {
            EquipmentSlot::Helmet => self.helmet.equip(new_item),
            EquipmentSlot::Armor => self.armor.equip(new_item),
            EquipmentSlot::Legs => self.legs.equip(new_item),
            EquipmentSlot::Feet => self.feet.equip(new_item),
            EquipmentSlot::Hands => self.hands.equip(new_item),
            EquipmentSlot::Weapon => self.weapon.equip(new_item),
            EquipmentSlot::Shield => self.shield.equip(new_item),
            EquipmentSlot::Ring => {
                if let Some(index) = Equipment::first_free_index(&self.ring) {
                    let mut slot = self.ring[index];
                    let old_ring = slot.equip(new_item);
                    self.ring.set(index, slot);
                    old_ring
                } else {
                    let mut first = self.ring[0];
                    let old_ring = first.equip(new_item);
                    let second = self.ring[1];
                    self.ring.set(0, second);
                    self.ring.set(1, first);
                    assert(self.ring@ =~= seq![old(self).ring@[1], worn_by_choice(old(self).ring@[0], new_item)]);
                    old_ring
                }
            },
            EquipmentSlot::Amulet => self.amulet.equip(new_item),
            EquipmentSlot::WondrousItem => {
                if let Some(index) = Equipment::first_free_index(&self.wondrous_item) {
                    let mut slot = self.wondrous_item[index];
                    let old_wonder = slot.equip(new_item);
                    self.wondrous_item.set(index, slot);
                    old_wonder
                } else {
                    let mut first = self.wondrous_item[0];
                    let old_wonder = first.equip(new_item);
                    let second = self.wondrous_item[1];
                    let third = self.wondrous_item[2];
                    self.wondrous_item.set(0, second);
                    self.wondrous_item.set(1, third);
                    self.wondrous_item.set(2, first);
                    assert(self.wondrous_item@ =~= seq![
                        old(self).wondrous_item@[1],
                        old(self).wondrous_item@[2],
                        worn_by_choice(old(self).wondrous_item@[0], new_item),
                    ]);
                    old_wonder
                }
            },
        }
    }
}



/// The items of `s` that go in `slot`, in their order.
pub open spec fn of_slot(s: Seq<ItemsWeHave>, slot: EquipmentSlot) -> Seq<ItemsWeHave>
    decreases s.len(),
{
    if s.len() == 0 {
        s
    } else if template_slot(s.last()) == slot {
        of_slot(s.drop_last(), slot).push(s.last())
    } else {
        of_slot(s.drop_last(), slot)
    }
}

/// The items of `s` that do not go in `slot`, in their order.
pub open spec fn not_of_slot(s: Seq<ItemsWeHave>, slot: EquipmentSlot) -> Seq<ItemsWeHave>
    decreases s.len(),
{
    if s.len() == 0 {
        s
    } else if template_slot(s.last()) != slot {
        not_of_slot(s.drop_last(), slot).push(s.last())
    } else {
        not_of_slot(s.drop_last(), slot)
    }
}

/// What the items of `s` sell for together.
pub open spec fn value_of(s: Seq<ItemsWeHave>) -> nat
    decreases s.len(),
{
    if s.len() == 0 {
        0
    } else {
        value_of(s.drop_last()) + (template_value(s.last()) as nat)
    }
}

/// The index of the first item of `s` named `name`, if any.
pub open spec fn first_named(s: Seq<ItemsWeHave>, name: Seq<char>) -> Option<int> {
    if exists|i: int| 0 <= i < s.len() && template_name(s[i]) == name {
        Some(choose|i: int| 0 <= i < s.len() && template_name(s[i]) == name
            && forall|j: int| 0 <= j < i ==> template_name(#[trigger] s[j]) != name)
    } else {
        None
    }
}

/// The lines that list the items of `s`, one arrow and name each.
pub open spec fn listing(s: Seq<ItemsWeHave>) -> Seq<char>
    decreases s.len(),
{
    if s.len() == 0 {
        Seq::empty()
    } else {
        listing(s.drop_last()) + "\n\t\t⮁\t"@ + template_name(s.last())
    }
}

/// The section of the inventory text for one slot: nothing where no item goes there.
pub open spec fn slot_section(s: Seq<ItemsWeHave>, slot: EquipmentSlot) -> Seq<char> {
    if of_slot(s, slot).len() == 0 {
        Seq::empty()
    } else {
        "\n"@ + slot.label() + listing(of_slot(s, slot))
    }
}

/// The text that shows an inventory: the items grouped by slot, then the gold.
pub open spec fn inventory_text(s: Seq<ItemsWeHave>, gold: u64) -> Seq<char> {
    "\n```\n"@
        + slot_section(s, EquipmentSlot::Helmet)
        + slot_section(s, EquipmentSlot::Armor)
        + slot_section(s, EquipmentSlot::Legs)
        + slot_section(s, EquipmentSlot::Feet)
        + slot_section(s, EquipmentSlot::Hands)
        + slot_section(s, EquipmentSlot::Weapon)
        + slot_section(s, EquipmentSlot::Shield)
        + slot_section(s, EquipmentSlot::Ring)
        + slot_section(s, EquipmentSlot::Amulet)
        + slot_section(s, EquipmentSlot::WondrousItem)
        + "\n"@ + "💰\t"@ + "Gold: "@ + decimal(gold as nat) + "\n```\n"@
}

/// The items a character carries, and its gold.
#[derive(Debug, Clone, Default)]
pub struct Items {
    pub items: Vec<ItemsWeHave>,
    pub gold: u64,
}

impl View for Items {
    type V = Seq<ItemsWeHave>;

    open spec fn view(&self) -> Seq<ItemsWeHave> {
        self.items@
    }
}

impl Items {
    /// An inventory holding `items` and `gold`.
    pub fn new(items: Vec<ItemsWeHave>, gold: u64) -> (r: Items)
        ensures
            r@ == items@,
            r.gold == gold,
    {
        Items { items, gold }
    }

    /// Adds an item at the end.
    pub fn push(&mut self, item: ItemsWeHave)
        ensures
            final(self)@ == old(self)@.push(item),
            final(self).gold == old(self).gold,
    {
        self.items.push(item);
    }

    /// The items, in order.
    pub fn iter(&self) -> (r: &[ItemsWeHave])
        ensures
            r@ == self@,
    {
        self.items.as_slice()
    }

    /// The items that go in `slot`, in order, with the same gold.
    pub fn slot(&self, slot: EquipmentSlot) -> (r: Items)
        ensures
            r@ == of_slot(self@, slot),
            r.gold == self.gold,
    {
        let mut items: Vec<ItemsWeHave> = Vec::new();
        let mut i: usize = 0;
        while i < self.items.len()
            invariant
                i <= self.items@.len(),
                items@ == of_slot(self.items@.take(i as int), slot),
            decreases self.items@.len() - i,
        {
            let item = self.items[i];
            proof {
                assert(self.items@.take(i + 1).drop_last() =~= self.items@.take(i as int));
            }
            if item.generate().slot == slot {
                items.push(item);
            }
            i = i + 1;
        }
        proof {
            assert(self.items@.take(i as int) =~= self.items@);
        }
        Items { items, gold: self.gold }
    }

    /// Index of the first item named `name`.
    fn index_named(&self, name: &String) -> (r: Option<usize>)
        ensures
            match r {
                Some(i) => i < self@.len() && first_named(self@, name@) == Some(i as int),
                None => first_named(self@, name@) is None,
            },
    {
        let mut i: usize = 0;
        while i < self.items.len()
            invariant
                i <= self.items@.len(),
                forall|j: int| 0 <= j < i ==> template_name(#[trigger] self.items@[j]) != name@,
            decreases self.items@.len() - i,
        {
            let item_name = self.items[i].generate().name;
            if item_name == *name {
                let ghost s = self.items@;
                let ghost k = choose|k: int| 0 <= k < s.len() && template_name(s[k]) == name@
                    && forall|j: int| 0 <= j < k ==> template_name(#[trigger] s[j]) != name@;
                proof {
                    assert(template_name(s[i as int]) == name@);
                    if k < i {
                        assert(template_name(s[k]) != name@);
                    } else if k > i {
                        assert(template_name(s[i as int]) != name@);
                    }
                }
                return Some(i);
            }
            i = i + 1;
        }
        None
    }

    /// The first item named `have_item`, if any.
    pub fn contains(&self, have_item: String) -> (r: Option<ItemsWeHave>)
        ensures
            match first_named(self@, have_item@) {
                Some(i) => r == Some(self@[i]),
                None => r is None,
            },
    {
        match self.index_named(&have_item) {
            Some(i) => Some(self.items[i]),
            None => None,
        }
    }

    /// Removes and returns the first item named `have_item`; nothing changes where there
    /// is none.
    pub fn take(&mut self, have_item: String) -> (r: Option<ItemsWeHave>)
        ensures
            final(self).gold == old(self).gold,
            match first_named(old(self)@, have_item@) {
                Some(i) => r == Some(old(self)@[i]) && final(self)@ == old(self)@.remove(i),
                None => r is None && final(self)@ == old(self)@,
            },
    {
        match self.index_named(&have_item) {
            Some(i) => Some(self.items.remove(i)),
            None => None,
        }
    }

    /// Sells the items that go in `slot`, or every item where there is no slot: their value
    /// goes to the gold and they leave the inventory.
    pub fn sell(&mut self, slot: Option<EquipmentSlot>) -> (r: &mut Items)
        requires
            old(self).gold + match slot {
                Some(s) => value_of(of_slot(old(self)@, s)),
                None => value_of(old(self)@),
            } <= u64::MAX,
        ensures
            *final(self) == *final(r),
            match slot {
                Some(s) => r@ == not_of_slot(old(self)@, s)
                    && r.gold == old(self).gold + value_of(of_slot(old(self)@, s)),
                None => r@ == Seq::<ItemsWeHave>::empty() && r.gold == old(self).gold + value_of(old(self)@),
            },
    {
        match slot {
            Some(slot) => {
                let mut kept: Vec<ItemsWeHave> = Vec::new();
                let mut gold = self.gold;
                let mut i: usize = 0;
                while i < self.items.len()
                    invariant
                        i <= self.items@.len(),
                        kept@ == not_of_slot(self.items@.take(i as int), slot),
                        gold == self.gold + value_of(of_slot(self.items@.take(i as int), slot)),
                        self.gold + value_of(of_slot(self.items@, slot)) <= u64::MAX,
                    decreases self.items@.len() - i,
                {
                    let item = self.items[i];
                    proof {
                        assert(self.items@.take(i + 1).drop_last() =~= self.items@.take(i as int));
                        lemma_value_of_slot_prefix(self.items@, slot, i + 1);
                    }
                    let generated = item.generate();
                    if generated.slot == slot {
                        proof {
                            let t = of_slot(self.items@.take(i + 1), slot);
                            assert(t.drop_last() =~= of_slot(self.items@.take(i as int), slot));
                        }
                        gold = gold + generated.value;
                    } else {
                        kept.push(item);
                    }
                    i = i + 1;
                }
                proof {
                    assert(self.items@.take(i as int) =~= self.items@);
                }
                self.items = kept;
                self.gold = gold;
            },
            None => {
                let mut gold = self.gold;
                let mut i: usize = 0;
                while i < self.items.len()
                    invariant
                        i <= self.items@.len(),
                        gold == self.gold + value_of(self.items@.take(i as int)),
                        self.gold + value_of(self.items@) <= u64::MAX,
                    decreases self.items@.len() - i,
                {
                    proof {
                        assert(self.items@.take(i + 1).drop_last() =~= self.items@.take(i as int));
                        lemma_value_of_prefix(self.items@, i + 1);
                    }
                    let generated = self.items[i].generate();
                    gold = gold + generated.value;
                    i = i + 1;
                }
                proof {
                    assert(self.items@.take(i as int) =~= self.items@);
                }
                self.items.clear();
                self.gold = gold;
            },
        }
        self
    }

    /// The text that shows the inventory to players.
    pub fn to_string(&self) -> (r: String)
        ensures
            r@ == inventory_text(self@, self.gold),
    {
        let mut string = "\n```\n".to_owned();
        Items::append_section(&mut string, &self.items, EquipmentSlot::Helmet);
        Items::append_section(&mut string, &self.items, EquipmentSlot::Armor);
        Items::append_section(&mut string, &self.items, EquipmentSlot::Legs);
        Items::append_section(&mut string, &self.items, EquipmentSlot::Feet);
        Items::append_section(&mut string, &self.items, EquipmentSlot::Hands);
        Items::append_section(&mut string, &self.items, EquipmentSlot::Weapon);
        Items::append_section(&mut string, &self.items, EquipmentSlot::Shield);
        Items::append_section(&mut string, &self.items, EquipmentSlot::Ring);
        Items::append_section(&mut string, &self.items, EquipmentSlot::Amulet);
        Items::append_section(&mut string, &self.items, EquipmentSlot::WondrousItem);
        string.append("\n");
        string.append("💰\t");
        string.append("Gold: ");
        string.append(unsigned_text(self.gold).as_str());
        string.append("\n```\n");
        string
    }

    /// Appends the section of `items` for `slot`.
    fn append_section(string: &mut String, items: &Vec<ItemsWeHave>, slot: EquipmentSlot)
        ensures
            final(string)@ == old(string)@ + slot_section(items@, slot),
    {
        let mut lines = slot.to_string();
        let mut found = false;
        let mut i: usize = 0;
        while i < items.len()
            invariant
                i <= items@.len(),
                found == (of_slot(items@.take(i as int), slot).len() > 0),
                lines@ == slot.label() + listing(of_slot(items@.take(i as int), slot)),
            decreases items@.len() - i,
        {
            let item = items[i].generate();
            proof {
                assert(items@.take(i + 1).drop_last() =~= items@.take(i as int));
            }
            if item.slot == slot {
                lines.append("\n\t\t⮁\t");
                lines.append(item.name.as_str());
                proof {
                    let t = of_slot(items@.take(i + 1), slot);
                    assert(t.drop_last() =~= of_slot(items@.take(i as int), slot));
                }
                found = true;
            }
            i = i + 1;
        }
        proof {
            assert(items@.take(i as int) =~= items@);
        }
        if found {
            string.append("\n");
            string.append(lines.as_str());
        }
    }
}

/// The items of `s` that `known` does not hold, in their order.
pub open spec fn unknown_part(s: Seq<ItemsWeHave>, known: Seq<ItemsWeHave>) -> Seq<ItemsWeHave>
    decreases s.len(),
{
    if s.len() == 0 {
        s
    } else if !known.contains(s.last()) {
        unknown_part(s.drop_last(), known).push(s.last())
    } else {
        unknown_part(s.drop_last(), known)
    }
}

impl Items {
    /// Removes the first item equal to `item`; returns whether there was one.
    pub fn remove(&mut self, item: &ItemsWeHave) -> (r: bool)
        ensures
            final(self).gold == old(self).gold,
            r == old(self)@.contains(*item),
            r ==> exists|k: int| 0 <= k < old(self)@.len() && old(self)@[k] == *item
                && (forall|j: int| 0 <= j < k ==> old(self)@[j] != *item)
                && final(self)@ == old(self)@.remove(k),
            !r ==> final(self)@ == old(self)@,
    {
        let mut i: usize = 0;
        while i < self.items.len()
            invariant
                i <= self.items@.len(),
                self.items@ == old(self).items@,
                self.gold == old(self).gold,
                forall|j: int| 0 <= j < i ==> self.items@[j] != *item,
            decreases self.items@.len() - i,
        {
            if self.items[i] == *item {
                let ghost before = self.items@;
                self.items.remove(i);
                assert(before[i as int] == *item);
                return true;
            }
            i = i + 1;
        }
        assert(!old(self)@.contains(*item));
        false
    }

    /// Adds the other inventory: its gold and, after the items held, its items.
    pub fn absorb(&mut self, other: Items)
        requires
            old(self).gold + other.gold <= u64::MAX,
        ensures
            final(self)@ == old(self)@ + other@,
            final(self).gold == old(self).gold + other.gold,
    {
        let mut more = other.items;
        self.items.append(&mut more);
        self.gold = self.gold + other.gold;
    }

    /// Sells as `sell` does where no items are known. Where `known_items` is given, the items
    /// it holds are taken out without gold, whatever the slot, and the others stay in order.
    pub fn sell_with_knowledge(&mut self, slot: Option<EquipmentSlot>, known_items: Option<&Items>)
        requires
            old(self).gold + value_of(old(self)@) <= u64::MAX,
        ensures
            match known_items {
                None => final(self)@ == (match slot {
                    Some(s) => not_of_slot(old(self)@, s),
                    None => Seq::<ItemsWeHave>::empty(),
                }) && final(self).gold == old(self).gold + (match slot {
                    Some(s) => value_of(of_slot(old(self)@, s)),
                    None => value_of(old(self)@),
                }),
                Some(known) => final(self)@ == unknown_part(old(self)@, known@) && final(self).gold == old(self).gold,
            },
    {
        match known_items {
            None => {
                proof {
                    lemma_slot_value_at_most(old(self)@, slot);
                }
                self.sell(slot);
            },
            Some(known) => {
                let mut kept: Vec<ItemsWeHave> = Vec::new();
                let mut i: usize = 0;
                while i < self.items.len()
                    invariant
                        i <= self.items@.len(),
                        kept@ == unknown_part(self.items@.take(i as int), known@),
                    decreases self.items@.len() - i,
                {
                    proof {
                        assert(self.items@.take(i + 1).drop_last() =~= self.items@.take(i as int));
                    }
                    let item = self.items[i];
                    if !Items::holds(&known.items, &item) {
                        kept.push(item);
                    }
                    i = i + 1;
                }
                proof {
                    assert(self.items@.take(i as int) =~= self.items@);
                }
                self.items = kept;
            },
        }
    }

    /// Whether `v` holds `item`.
    fn holds(v: &Vec<ItemsWeHave>, item: &ItemsWeHave) -> (r: bool)
        ensures
            r == v@.contains(*item),
    {
        let mut i: usize = 0;
        while i < v.len()
            invariant
                i <= v@.len(),
                forall|j: int| 0 <= j < i ==> v@[j] != *item,
            decreases v@.len() - i,
        {
            if v[i] == *item {
                assert(v@[i as int] == *item);
                return true;
            }
            i = i + 1;
        }
        false
    }
}

/// The items of a slot are worth at most all the items.
proof fn lemma_slot_value_at_most(s: Seq<ItemsWeHave>, slot: Option<EquipmentSlot>)
    ensures
        match slot {
            Some(k) => value_of(of_slot(s, k)) <= value_of(s),
            None => true,
        },
    decreases s.len(),
{
    if s.len() > 0 {
        lemma_slot_value_at_most(s.drop_last(), slot);
        if let Some(k) = slot {
            if template_slot(s.last()) == k {
                assert(of_slot(s, k).drop_last() =~= of_slot(s.drop_last(), k));
            }
        }
    }
}

/// Selling the first `n` items of a slot gives the value of what the first `n` items hold
/// for it, which is at most that of all of them.
proof fn lemma_value_of_slot_prefix(s: Seq<ItemsWeHave>, slot: EquipmentSlot, n: int)
    requires
        0 <= n <= s.len(),
    ensures
        value_of(of_slot(s.take(n), slot)) <= value_of(of_slot(s, slot)),
    decreases s.len() - n,
{
    if n < s.len() {
        lemma_value_of_slot_prefix(s, slot, n + 1);
        assert(s.take(n + 1).drop_last() =~= s.take(n));
        let t = of_slot(s.take(n + 1), slot);
        if template_slot(s[n]) == slot {
            assert(t.drop_last() =~= of_slot(s.take(n), slot));
        }
    } else {
        assert(s.take(n) =~= s);
    }
}

/// The value of a prefix is at most that of the whole.
proof fn lemma_value_of_prefix(s: Seq<ItemsWeHave>, n: int)
    requires
        0 <= n <= s.len(),
    ensures
        value_of(s.take(n)) <= value_of(s),
    decreases s.len() - n,
{
    if n < s.len() {
        lemma_value_of_prefix(s, n + 1);
        assert(s.take(n + 1).drop_last() =~= s.take(n));
    } else {
        assert(s.take(n) =~= s);
    }
}



/// The slots in the order the totals visit them: armor, helmet, legs, feet, hands, shield,
/// amulet, weapon, then the rings and the wondrous items.
pub open spec fn worn(e: Equipment) -> Seq<NameMe> {
    seq![e.armor, e.helmet, e.legs, e.feet, e.hands, e.shield, e.amulet, e.weapon] + e.ring@ + e.wondrous_item@
}

/// The slots whose damage dice count: as `worn`, without the armor slot.
pub open spec fn armed(e: Equipment) -> Seq<NameMe> {
    seq![e.weapon, e.helmet, e.legs, e.feet, e.hands, e.shield, e.amulet] + e.ring@ + e.wondrous_item@
}

/// The extra actions a slot grants.
pub open spec fn slot_action(n: NameMe) -> nat {
    match n.item {
        Some(it) => template_action(it) as nat,
        None => 0,
    }
}

/// The extra actions of all the slots of `s`.
pub open spec fn actions_of(s: Seq<NameMe>) -> nat
    decreases s.len(),
{
    if s.len() == 0 {
        0
    } else {
        actions_of(s.drop_last()) + slot_action(s.last())
    }
}

/// The attribute bonus of a slot.
pub open spec fn slot_attributes(n: NameMe) -> Attributes {
    match n.item {
        Some(it) => template_attributes(it),
        None => attributes_with(0, 0, 0, 0, 0, 0),
    }
}

/// The attribute bonuses of all the slots of `s`, added up.
pub open spec fn attributes_of(s: Seq<NameMe>) -> Attributes
    decreases s.len(),
{
    if s.len() == 0 {
        attributes_with(0, 0, 0, 0, 0, 0)
    } else {
        attributes_sum(attributes_of(s.drop_last()), slot_attributes(s.last()))
    }
}

/// The armor dice of a slot.
pub open spec fn slot_armor(n: NameMe) -> Seq<DieObject> {
    match n.item {
        Some(it) => fresh_dice(template_armor(it).0, template_armor(it).1),
        None => Seq::empty(),
    }
}

/// The armor dice of all the slots of `s`, one after the other.
pub open spec fn armor_of(s: Seq<NameMe>) -> Seq<DieObject>
    decreases s.len(),
{
    if s.len() == 0 {
        Seq::empty()
    } else {
        armor_of(s.drop_last()) + slot_armor(s.last())
    }
}

/// The dice that a table of an item lists for the kind `k`, one entry after the other.
pub open spec fn table_dice(t: Seq<(DamageType, crate::dice::Die, nat)>, k: DamageType) -> Seq<DieObject>
    decreases t.len(),
{
    if t.len() == 0 {
        Seq::empty()
    } else if t.last().0 == k {
        table_dice(t.drop_last(), k) + fresh_dice(t.last().1, t.last().2)
    } else {
        table_dice(t.drop_last(), k)
    }
}

/// The table of a slot's item: its resistances where `resist`, else its damage.
pub open spec fn slot_table(n: NameMe, resist: bool) -> Seq<(DamageType, crate::dice::Die, nat)> {
    match n.item {
        Some(it) => if resist {
            template_resistance(it)
        } else {
            template_damage(it)
        },
        None => Seq::empty(),
    }
}

/// The dice of the kind `k` of all the slots of `s`, one after the other.
pub open spec fn kind_dice_of(s: Seq<NameMe>, k: DamageType, resist: bool) -> Seq<DieObject>
    decreases s.len(),
{
    if s.len() == 0 {
        Seq::empty()
    } else {
        kind_dice_of(s.drop_last(), k, resist) + table_dice(slot_table(s.last(), resist), k)
    }
}

/// `r` holds one entry per damage type, in declaration order, with the dice of that kind of
/// all the slots of `s`.
pub open spec fn per_kind(r: Seq<(DamageType, Dice)>, s: Seq<NameMe>, resist: bool) -> bool {
    &&& r.len() == all_damage_types().len()
    &&& forall|i: int| 0 <= i < r.len() ==> (#[trigger] r[i]).0 == all_damage_types()[i]
        && r[i].1.dice@ == kind_dice_of(s, all_damage_types()[i], resist)
}

/// Whether any slot of `v` holds an item.
pub open spec fn any_worn(v: Seq<NameMe>) -> bool
    decreases v.len(),
{
    if v.len() == 0 {
        false
    } else {
        any_worn(v.drop_last()) || v.last().item is Some
    }
}

/// One line per item worn in `v`: `prefix` and the item's name.
pub open spec fn worn_lines(v: Seq<NameMe>, prefix: Seq<char>) -> Seq<char>
    decreases v.len(),
{
    if v.len() == 0 {
        Seq::empty()
    } else {
        worn_lines(v.drop_last(), prefix) + match v.last().item {
            Some(it) => prefix + template_name(it),
            None => Seq::empty(),
        }
    }
}

/// The line of a single slot: its title and the name of its item, or nothing where empty.
pub open spec fn single_line(n: NameMe, title: Seq<char>) -> Seq<char> {
    match n.item {
        Some(it) => "\n\t"@ + "🎲\t"@ + title + template_name(it),
        None => Seq::empty(),
    }
}

/// A title line, where `shown`.
pub open spec fn title_line(shown: bool, title: Seq<char>) -> Seq<char> {
    if shown {
        "\n\t"@ + "🎲\t"@ + title
    } else {
        Seq::empty()
    }
}

/// The text that shows what a character wears.
pub open spec fn equipment_text(e: Equipment) -> Seq<char> {
    single_line(e.helmet, "Helmet: "@) + single_line(e.armor, "Armor: "@) + single_line(e.legs, "Legs: "@)
        + single_line(e.feet, "Feet: "@) + single_line(e.hands, "Hands: "@) + single_line(e.weapon, "Weapon: "@)
        + single_line(e.shield, "Shield: "@) + title_line(any_worn(e.ring@), "Rings: "@)
        + worn_lines(e.ring@, "\n\t\t\t💍\t "@) + single_line(e.amulet, "Amulet: "@)
        + title_line(any_worn(e.wondrous_item@), "Wondrous Items: "@)
        + worn_lines(e.wondrous_item@, "\n\t\t\t\t"@)
}

/// The extra actions of the slots of `s` are at most two per slot.
proof fn lemma_actions_bound(s: Seq<NameMe>)
    ensures
        actions_of(s) <= 2 * s.len(),
    decreases s.len(),
{
    if s.len() > 0 {
        lemma_actions_bound(s.drop_last());
    }
}

/// Everything worn grants at most twenty-six extra actions.
pub proof fn lemma_worn_actions_bound(e: Equipment)
    requires
        equipment_wf(e),
    ensures
        actions_of(worn(e)) <= 26,
{
    lemma_actions_bound(worn(e));
}

/// Each attribute bonus of the slots of `s` is at most fifteen per slot.
proof fn lemma_attributes_bound(s: Seq<NameMe>)
    ensures
        attributes_wf(attributes_of(s)),
        attribute_value(attributes_of(s).strength) <= 15 * s.len(),
        attribute_value(attributes_of(s).intelligence) <= 15 * s.len(),
        attribute_value(attributes_of(s).dexterity) <= 15 * s.len(),
        attribute_value(attributes_of(s).constitution) <= 15 * s.len(),
        attribute_value(attributes_of(s).wisdom) <= 15 * s.len(),
        attribute_value(attributes_of(s).charisma) <= 15 * s.len(),
    decreases s.len(),
{
    if s.len() > 0 {
        lemma_attributes_bound(s.drop_last());
    }
}

impl Default for Equipment {
    /// Every slot empty: two rings and three wondrous items.
    fn default() -> (r: Equipment)
        ensures
            equipment_wf(r),
            r.helmet == NameMe::new_spec(EquipmentSlot::Helmet),
            r.armor == NameMe::new_spec(EquipmentSlot::Armor),
            r.legs == NameMe::new_spec(EquipmentSlot::Legs),
            r.feet == NameMe::new_spec(EquipmentSlot::Feet),
            r.hands == NameMe::new_spec(EquipmentSlot::Hands),
            r.weapon == NameMe::new_spec(EquipmentSlot::Weapon),
            r.shield == NameMe::new_spec(EquipmentSlot::Shield),
            r.ring@ == seq![NameMe::new_spec(EquipmentSlot::Ring), NameMe::new_spec(EquipmentSlot::Ring)],
            r.amulet == NameMe::new_spec(EquipmentSlot::Amulet),
            r.wondrous_item@ == seq![
                NameMe::new_spec(EquipmentSlot::WondrousItem),
                NameMe::new_spec(EquipmentSlot::WondrousItem),
                NameMe::new_spec(EquipmentSlot::WondrousItem),
            ],
    {
        let ring = NameMe::new(EquipmentSlot::Ring);
        let wonder = NameMe::new(EquipmentSlot::WondrousItem);
        let r = Equipment {
            helmet: NameMe::new(EquipmentSlot::Helmet),
            armor: NameMe::new(EquipmentSlot::Armor),
            legs: NameMe::new(EquipmentSlot::Legs),
            feet: NameMe::new(EquipmentSlot::Feet),
            hands: NameMe::new(EquipmentSlot::Hands),
            weapon: NameMe::new(EquipmentSlot::Weapon),
            shield: NameMe::new(EquipmentSlot::Shield),
            ring: vec![ring, ring],
            amulet: NameMe::new(EquipmentSlot::Amulet),
            wondrous_item: vec![wonder, wonder, wonder],
        };
        assert(r.ring@ =~= seq![ring, ring]);
        assert(r.wondrous_item@ =~= seq![wonder, wonder, wonder]);
        r
    }
}

impl NameMe {
    /// An empty slot of the kind `slot` that the player did not choose.
    pub open spec fn new_spec(slot: EquipmentSlot) -> NameMe {
        NameMe { item: None, slot, player_equipped: false }
    }

    /// The attribute bonus of the worn item.
    pub fn attribute(&self) -> (r: Attributes)
        ensures
            r == slot_attributes(*self),
    {
        match self.item {
            Some(it) => it.generate().attribute_bonus,
            None => Attributes::zero(),
        }
    }

    /// The armor dice of the worn item.
    pub fn armor(&self) -> (r: Dice)
        ensures
            r.dice@ == slot_armor(*self),
    {
        match self.item {
            Some(it) => it.generate().armor,
            None => Dice::zero(),
        }
    }
}

impl Equipment {
    /// The slots in the order the totals visit them.
    fn worn_slots(&self) -> (r: Vec<NameMe>)
        ensures
            r@ == worn(*self),
    {
        let mut r = vec![self.armor, self.helmet, self.legs, self.feet, self.hands, self.shield, self.amulet, self.weapon];
        let mut rings = self.ring.clone();
        let mut wonders = self.wondrous_item.clone();
        proof {
            assert(rings@ =~= self.ring@);
            assert(wonders@ =~= self.wondrous_item@);
        }
        r.append(&mut rings);
        r.append(&mut wonders);
        proof {
            assert(r@ =~= worn(*self));
        }
        r
    }

    /// The slots whose damage dice count.
    fn armed_slots(&self) -> (r: Vec<NameMe>)
        ensures
            r@ == armed(*self),
    {
        let mut r = vec![self.weapon, self.helmet, self.legs, self.feet, self.hands, self.shield, self.amulet];
        let mut rings = self.ring.clone();
        let mut wonders = self.wondrous_item.clone();
        proof {
            assert(rings@ =~= self.ring@);
            assert(wonders@ =~= self.wondrous_item@);
        }
        r.append(&mut rings);
        r.append(&mut wonders);
        proof {
            assert(r@ =~= armed(*self));
        }
        r
    }

    /// The extra actions of everything worn.
    pub fn action_points(&self) -> (r: u32)
        requires
            equipment_wf(*self),
        ensures
            r == actions_of(worn(*self)),
    {
        let slots = self.worn_slots();
        let mut total: u32 = 0;
        let mut i: usize = 0;
        proof {
            lemma_actions_bound(slots@);
        }
        while i < slots.len()
            invariant
                i <= slots@.len(),
                slots@.len() == 13,
                total == actions_of(slots@.take(i as int)),
            decreases slots@.len() - i,
        {
            proof {
                assert(slots@.take(i + 1).drop_last() =~= slots@.take(i as int));
                lemma_actions_bound(slots@.take(i + 1));
            }
            total = total + slots[i].action();
            i = i + 1;
        }
        proof {
            assert(slots@.take(i as int) =~= slots@);
        }
        total
    }

    /// The attribute bonuses of everything worn, added up.
    pub fn attribute(&self) -> (r: Attributes)
        requires
            equipment_wf(*self),
        ensures
            r == attributes_of(worn(*self)),
    {
        let slots = self.worn_slots();
        let mut total = Attributes::zero();
        let mut i: usize = 0;
        while i < slots.len()
            invariant
                i <= slots@.len(),
                slots@.len() == 13,
                total == attributes_of(slots@.take(i as int)),
            decreases slots@.len() - i,
        {
            proof {
                assert(slots@.take(i + 1).drop_last() =~= slots@.take(i as int));
                lemma_attributes_bound(slots@.take(i as int));
                lemma_attributes_bound(seq![slots@[i as int]]);
                assert(seq![slots@[i as int]].drop_last() =~= Seq::<NameMe>::empty());
            }
            let bonus = slots[i].attribute();
            total = total.sum_with(&bonus);
            i = i + 1;
        }
        proof {
            assert(slots@.take(i as int) =~= slots@);
        }
        total
    }

    /// The armor dice of everything worn.
    pub fn armor(&self) -> (r: Dice)
        ensures
            r.dice@ == armor_of(worn(*self)),
    {
        let slots = self.worn_slots();
        let mut total = Dice::zero();
        let mut i: usize = 0;
        while i < slots.len()
            invariant
                i <= slots@.len(),
                total.dice@ == armor_of(slots@.take(i as int)),
            decreases slots@.len() - i,
        {
            proof {
                assert(slots@.take(i + 1).drop_last() =~= slots@.take(i as int));
            }
            let d = slots[i].armor();
            total.add_die(d.dice);
            i = i + 1;
        }
        proof {
            assert(slots@.take(i as int) =~= slots@);
        }
        total
    }
}


/// The dice of the kind `k` that an item's table lists, one entry after the other.
fn table_kind(table: &Vec<(DamageType, Dice)>, k: DamageType, Ghost(t): Ghost<Seq<(DamageType, crate::dice::Die, nat)>>) -> (r: Vec<DieObject>)
    requires
        crate::item_templates::dice_table_matches(table@, t),
    ensures
        r@ == table_dice(t, k),
{
    let mut r: Vec<DieObject> = Vec::new();
    let mut j: usize = 0;
    while j < table.len()
        invariant
            j <= table@.len(),
            crate::item_templates::dice_table_matches(table@, t),
            r@ == table_dice(t.take(j as int), k),
        decreases table@.len() - j,
    {
        proof {
            assert(t.take(j + 1).drop_last() =~= t.take(j as int));
            assert(t.take(j + 1).last() == t[j as int]);
            assert(table@[j as int].0 == t[j as int].0);
        }
        if table[j].0 == k {
            let mut more = table[j].1.dice.clone();
            proof {
                assert(more@ =~= table@[j as int].1.dice@);
            }
            r.append(&mut more);
        }
        j = j + 1;
    }
    proof {
        assert(t.take(j as int) =~= t);
    }
    r
}

impl NameMe {
    /// The damage dice of the worn item by kind; every kind without dice where the slot is
    /// empty.
    pub fn damage(&self) -> (r: Vec<(DamageType, Dice)>)
        ensures
            match self.item {
                Some(it) => crate::item_templates::dice_table_matches(r@, template_damage(it)),
                None => r@.len() == all_damage_types().len() && forall|i: int| 0 <= i < r@.len()
                    ==> (#[trigger] r@[i]).0 == all_damage_types()[i] && r@[i].1.dice@.len() == 0,
            },
    {
        match self.item {
            Some(it) => it.generate().damage,
            None => Equipment::no_dice_per_kind(),
        }
    }

    /// The resistance dice of the worn item by kind; every kind without dice where the slot
    /// is empty.
    pub fn resistance(&self) -> (r: Vec<(DamageType, Dice)>)
        ensures
            match self.item {
                Some(it) => crate::item_templates::dice_table_matches(r@, template_resistance(it)),
                None => r@.len() == all_damage_types().len() && forall|i: int| 0 <= i < r@.len()
                    ==> (#[trigger] r@[i]).0 == all_damage_types()[i] && r@[i].1.dice@.len() == 0,
            },
    {
        match self.item {
            Some(it) => it.generate().resistance,
            None => Equipment::no_dice_per_kind(),
        }
    }

    /// The dice of the kind `k` in the table of the worn item.
    fn kind_dice(&self, k: DamageType, resist: bool) -> (r: Vec<DieObject>)
        ensures
            r@ == table_dice(slot_table(*self, resist), k),
    {
        match self.item {
            Some(it) => {
                let generated = it.generate();
                if resist {
                    table_kind(&generated.resistance, k, Ghost(template_resistance(it)))
                } else {
                    table_kind(&generated.damage, k, Ghost(template_damage(it)))
                }
            },
            None => Vec::new(),
        }
    }
}

impl Equipment {
    /// Every damage type, in declaration order, with no dice.
    fn no_dice_per_kind() -> (r: Vec<(DamageType, Dice)>)
        ensures
            r@.len() == all_damage_types().len(),
            forall|i: int| 0 <= i < r@.len() ==> (#[trigger] r@[i]).0 == all_damage_types()[i] && r@[i].1.dice@.len() == 0,
    {
        let kinds = DamageType::all();
        let mut r: Vec<(DamageType, Dice)> = Vec::new();
        let mut i: usize = 0;
        while i < kinds.len()
            invariant
                i <= kinds@.len(),
                kinds@ == all_damage_types(),
                r@.len() == i,
                forall|j: int| 0 <= j < i ==> (#[trigger] r@[j]).0 == all_damage_types()[j] && r@[j].1.dice@.len() == 0,
            decreases kinds@.len() - i,
        {
            r.push((kinds[i], Dice::zero()));
            i = i + 1;
        }
        r
    }

    /// For each damage type, the dice of that kind of all of `slots`.
    fn dice_per_kind(slots: &Vec<NameMe>, resist: bool) -> (r: Vec<(DamageType, Dice)>)
        ensures
            per_kind(r@, slots@, resist),
    {
        let kinds = DamageType::all();
        let mut r: Vec<(DamageType, Dice)> = Vec::new();
        let mut i: usize = 0;
        while i < kinds.len()
            invariant
                i <= kinds@.len(),
                kinds@ == all_damage_types(),
                r@.len() == i,
                forall|j: int| 0 <= j < i ==> (#[trigger] r@[j]).0 == all_damage_types()[j]
                    && r@[j].1.dice@ == kind_dice_of(slots@, all_damage_types()[j], resist),
            decreases kinds@.len() - i,
        {
            let k = kinds[i];
            let mut acc: Vec<DieObject> = Vec::new();
            let mut n: usize = 0;
            while n < slots.len()
                invariant
                    n <= slots@.len(),
                    acc@ == kind_dice_of(slots@.take(n as int), k, resist),
                decreases slots@.len() - n,
            {
                proof {
                    assert(slots@.take(n + 1).drop_last() =~= slots@.take(n as int));
                }
                let mut more = slots[n].kind_dice(k, resist);
                acc.append(&mut more);
                n = n + 1;
            }
            proof {
                assert(slots@.take(n as int) =~= slots@);
            }
            r.push((k, Dice::new(acc)));
            i = i + 1;
        }
        r
    }

    /// The damage dice of everything worn but the armor, per damage type.
    pub fn damage(&self) -> (r: Vec<(DamageType, Dice)>)
        ensures
            per_kind(r@, armed(*self), false),
    {
        let slots = self.armed_slots();
        Equipment::dice_per_kind(&slots, false)
    }

    /// The resistance dice of everything worn, per damage type.
    pub fn resistance(&self) -> (r: Vec<(DamageType, Dice)>)
        ensures
            per_kind(r@, worn(*self), true),
    {
        let slots = self.worn_slots();
        Equipment::dice_per_kind(&slots, true)
    }
}


/// The slot of `v` that automatic equipping fills: the first with the least `auto_key`.
pub open spec fn least_slot(v: Seq<NameMe>) -> int {
    choose|i: int| first_least(v, i)
}

/// `after` is `before` once `item` was put on automatically, `r` being what is not worn
/// afterwards.
pub open spec fn auto_equipped(before: Equipment, after: Equipment, item: ItemsWeHave, r: Option<ItemsWeHave>) -> bool {
    &&& others_unchanged(before, after, template_slot(item))
    &&& is_single(template_slot(item)) ==> (single_slot(after, template_slot(item)), r)
        == auto_equip_result(single_slot(before, template_slot(item)), item)
    &&& template_slot(item) == EquipmentSlot::Ring ==> ({
        let k = least_slot(before.ring@);
        &&& 0 <= k < 2
        &&& after.ring@ == before.ring@.update(k, auto_equip_result(before.ring@[k], item).0)
        &&& r == auto_equip_result(before.ring@[k], item).1
    })
    &&& template_slot(item) == EquipmentSlot::WondrousItem ==> ({
        let k = least_slot(before.wondrous_item@);
        &&& 0 <= k < 3
        &&& after.wondrous_item@ == before.wondrous_item@.update(k, auto_equip_result(before.wondrous_item@[k], item).0)
        &&& r == auto_equip_result(before.wondrous_item@[k], item).1
    })
}

/// At most one slot is the first with the least `auto_key`.
proof fn lemma_first_least_unique(v: Seq<NameMe>, i: int)
    requires
        first_least(v, i),
    ensures
        least_slot(v) == i,
{
    let k = least_slot(v);
    assert(first_least(v, k));
    if k < i {
        assert(auto_key(v[k]) > auto_key(v[i]));
    } else if k > i {
        assert(auto_key(v[i]) > auto_key(v[k]));
    }
}

impl Equipment {
    /// No item grants dodge.
    pub fn dodge() -> (r: Option<Dice>)
        ensures
            r is None,
    {
        None
    }

    /// Puts `new_item` on automatically in its slot; returns what is not worn afterwards. A
    /// ring or wondrous item goes to the first such slot holding nothing or the least rare
    /// item.
    pub fn auto_equip(&mut self, new_item: ItemsWeHave) -> (r: Option<ItemsWeHave>)
        requires
            equipment_wf(*old(self)),
        ensures
            equipment_wf(*final(self)),
            auto_equipped(*old(self), *final(self), new_item, r),
    {
        match new_item.slot() {
            EquipmentSlot::Helmet => self.helmet.auto_equip(new_item),
            EquipmentSlot::Armor => self.armor.auto_equip(new_item),
            EquipmentSlot::Legs => self.legs.auto_equip(new_item),
            EquipmentSlot::Feet => self.feet.auto_equip(new_item),
            EquipmentSlot::Hands => self.hands.auto_equip(new_item),
            EquipmentSlot::Weapon => self.weapon.auto_equip(new_item),
            EquipmentSlot::Shield => self.shield.auto_equip(new_item),
            EquipmentSlot::Ring => {
                let index = Equipment::first_least_index(&self.ring);
                proof {
                    lemma_first_least_unique(self.ring@, index as int);
                }
                let mut slot = self.ring[index];
                let left = slot.auto_equip(new_item);
                self.ring.set(index, slot);
                left
            },
            EquipmentSlot::Amulet => self.amulet.auto_equip(new_item),
            EquipmentSlot::WondrousItem => {
                let index = Equipment::first_least_index(&self.wondrous_item);
                proof {
                    lemma_first_least_unique(self.wondrous_item@, index as int);
                }
                let mut slot = self.wondrous_item[index];
                let left = slot.auto_equip(new_item);
                self.wondrous_item.set(index, slot);
                left
            },
        }
    }

    /// Appends the line of a single slot.
    fn append_single(string: &mut String, n: &NameMe, title: &str)
        ensures
            final(string)@ == old(string)@ + single_line(*n, title@),
    {
        if let Some(it) = n.item {
            string.append("\n\t");
            string.append("🎲\t");
            string.append(title);
            string.append(it.generate().name.as_str());
        }
    }

    /// Appends the title line and the lines of the items of `v`.
    fn append_many(string: &mut String, v: &Vec<NameMe>, title: &str, prefix: &str)
        ensures
            final(string)@ == old(string)@ + title_line(any_worn(v@), title@) + worn_lines(v@, prefix@),
    {
        let mut any = false;
        let mut lines = String::new();
        let mut i: usize = 0;
        while i < v.len()
            invariant
                i <= v@.len(),
                any == any_worn(v@.take(i as int)),
                lines@ == worn_lines(v@.take(i as int), prefix@),
            decreases v@.len() - i,
        {
            proof {
                assert(v@.take(i + 1).drop_last() =~= v@.take(i as int));
            }
            if let Some(it) = v[i].item {
                any = true;
                lines.append(prefix);
                lines.append(it.generate().name.as_str());
            }
            i = i + 1;
        }
        proof {
            assert(v@.take(i as int) =~= v@);
        }
        if any {
            string.append("\n\t");
            string.append("🎲\t");
            string.append(title);
        }
        string.append(lines.as_str());
    }

    /// The text that shows what a character wears.
    pub fn to_string(&self) -> (r: String)
        ensures
            r@ == equipment_text(*self),
    {
        let mut string = String::new();
        Equipment::append_single(&mut string, &self.helmet, "Helmet: ");
        Equipment::append_single(&mut string, &self.armor, "Armor: ");
        Equipment::append_single(&mut string, &self.legs, "Legs: ");
        Equipment::append_single(&mut string, &self.feet, "Feet: ");
        Equipment::append_single(&mut string, &self.hands, "Hands: ");
        Equipment::append_single(&mut string, &self.weapon, "Weapon: ");
        Equipment::append_single(&mut string, &self.shield, "Shield: ");
        Equipment::append_many(&mut string, &self.ring, "Rings: ", "\n\t\t\t💍\t ");
        Equipment::append_single(&mut string, &self.amulet, "Amulet: ");
        Equipment::append_many(&mut string, &self.wondrous_item, "Wondrous Items: ", "\n\t\t\t\t");
        string
    }
}


/// How many times `x` occurs in a list of items.
pub open spec fn count_of(s: Seq<ItemsWeHave>, x: ItemsWeHave) -> nat
    decreases s.len(),
{
    if s.len() == 0 {
        0
    } else {
        count_of(s.drop_last(), x) + if s.last() == x { 1nat } else { 0nat }
    }
}

/// How many slots of `s` hold `x`.
pub open spec fn slots_holding(s: Seq<NameMe>, x: ItemsWeHave) -> nat
    decreases s.len(),
{
    if s.len() == 0 {
        0
    } else {
        slots_holding(s.drop_last(), x) + if s.last().item == Some(x) { 1nat } else { 0nat }
    }
}

/// Whether an optional item is `x`, as a count.
pub open spec fn is_item(o: Option<ItemsWeHave>, x: ItemsWeHave) -> nat {
    if o == Some(x) {
        1
    } else {
        0
    }
}

proof fn lemma_count_concat(a: Seq<ItemsWeHave>, b: Seq<ItemsWeHave>, x: ItemsWeHave)
    ensures
        count_of(a + b, x) == count_of(a, x) + count_of(b, x),
    decreases b.len(),
{
    if b.len() > 0 {
        lemma_count_concat(a, b.drop_last(), x);
        assert((a + b).drop_last() =~= a + b.drop_last());
    } else {
        assert(a + b =~= a);
    }
}

proof fn lemma_count_remove(s: Seq<ItemsWeHave>, k: int, x: ItemsWeHave)
    requires
        0 <= k < s.len(),
    ensures
        count_of(s.remove(k), x) + (if s[k] == x { 1nat } else { 0nat }) == count_of(s, x),
{
    assert(s =~= s.subrange(0, k) + seq![s[k]] + s.subrange(k + 1, s.len() as int));
    assert(s.remove(k) =~= s.subrange(0, k) + s.subrange(k + 1, s.len() as int));
    lemma_count_concat(s.subrange(0, k) + seq![s[k]], s.subrange(k + 1, s.len() as int), x);
    lemma_count_concat(s.subrange(0, k), seq![s[k]], x);
    lemma_count_concat(s.subrange(0, k), s.subrange(k + 1, s.len() as int), x);
    lemma_count_single(s[k], x);
}

proof fn lemma_count_single(v: ItemsWeHave, x: ItemsWeHave)
    ensures
        count_of(seq![v], x) == (if v == x { 1nat } else { 0nat }),
{
    assert(seq![v].drop_last() =~= Seq::<ItemsWeHave>::empty());
    assert(seq![v].last() == v);
    assert(count_of(Seq::<ItemsWeHave>::empty(), x) == 0);
}

proof fn lemma_slots_single(v: NameMe, x: ItemsWeHave)
    ensures
        slots_holding(seq![v], x) == is_item(v.item, x),
{
    assert(seq![v].drop_last() =~= Seq::<NameMe>::empty());
    assert(seq![v].last() == v);
    assert(slots_holding(Seq::<NameMe>::empty(), x) == 0);
}

proof fn lemma_slots_concat(a: Seq<NameMe>, b: Seq<NameMe>, x: ItemsWeHave)
    ensures
        slots_holding(a + b, x) == slots_holding(a, x) + slots_holding(b, x),
    decreases b.len(),
{
    if b.len() > 0 {
        lemma_slots_concat(a, b.drop_last(), x);
        assert((a + b).drop_last() =~= a + b.drop_last());
    } else {
        assert(a + b =~= a);
    }
}

proof fn lemma_slots_update(s: Seq<NameMe>, k: int, v: NameMe, x: ItemsWeHave)
    requires
        0 <= k < s.len(),
    ensures
        slots_holding(s.update(k, v), x) + is_item(s[k].item, x) == slots_holding(s, x) + is_item(v.item, x),
{
    let pre = s.subrange(0, k);
    let post = s.subrange(k + 1, s.len() as int);
    assert(s =~= pre + seq![s[k]] + post);
    assert(s.update(k, v) =~= pre + seq![v] + post);
    lemma_slots_concat(pre + seq![s[k]], post, x);
    lemma_slots_concat(pre, seq![s[k]], x);
    lemma_slots_concat(pre + seq![v], post, x);
    lemma_slots_concat(pre, seq![v], x);
    lemma_slots_single(s[k], x);
    lemma_slots_single(v, x);
}

proof fn lemma_slots_of_two(a: NameMe, b: NameMe, x: ItemsWeHave)
    ensures
        slots_holding(seq![a, b], x) == is_item(a.item, x) + is_item(b.item, x),
{
    assert(seq![a, b].drop_last() =~= seq![a]);
    assert(seq![a, b].last() == b);
    lemma_slots_single(a, x);
}

proof fn lemma_slots_of_three(a: NameMe, b: NameMe, c: NameMe, x: ItemsWeHave)
    ensures
        slots_holding(seq![a, b, c], x) == is_item(a.item, x) + is_item(b.item, x) + is_item(c.item, x),
{
    assert(seq![a, b, c].drop_last() =~= seq![a, b]);
    lemma_slots_of_two(a, b, x);
}

/// The slots of `worn(e)`, split into the single slots, the rings and the wondrous items.
proof fn lemma_worn_parts(e: Equipment, x: ItemsWeHave)
    ensures
        slots_holding(worn(e), x) == slots_holding(
            seq![e.armor, e.helmet, e.legs, e.feet, e.hands, e.shield, e.amulet, e.weapon],
            x,
        ) + slots_holding(e.ring@, x) + slots_holding(e.wondrous_item@, x),
{
    let singles = seq![e.armor, e.helmet, e.legs, e.feet, e.hands, e.shield, e.amulet, e.weapon];
    lemma_slots_concat(singles + e.ring@, e.wondrous_item@, x);
    lemma_slots_concat(singles, e.ring@, x);
}

/// Where only single slots differ (`slot` being the one that may), the count moves by what
/// that slot held before and after.
proof fn lemma_worn_single_change(before: Equipment, after: Equipment, slot: EquipmentSlot, x: ItemsWeHave)
    requires
        is_single(slot),
        others_unchanged(before, after, slot),
    ensures
        slots_holding(worn(after), x) + is_item(single_slot(before, slot).item, x)
            == slots_holding(worn(before), x) + is_item(single_slot(after, slot).item, x),
{
    lemma_worn_parts(before, x);
    lemma_worn_parts(after, x);
    let sb = seq![before.armor, before.helmet, before.legs, before.feet, before.hands, before.shield, before.amulet, before.weapon];
    let k: int = match slot {
        EquipmentSlot::Armor => 0,
        EquipmentSlot::Helmet => 1,
        EquipmentSlot::Legs => 2,
        EquipmentSlot::Feet => 3,
        EquipmentSlot::Hands => 4,
        EquipmentSlot::Shield => 5,
        EquipmentSlot::Amulet => 6,
        _ => 7,
    };
    assert(seq![after.armor, after.helmet, after.legs, after.feet, after.hands, after.shield, after.amulet, after.weapon]
        =~= sb.update(k, single_slot(after, slot)));
    assert(sb[k] == single_slot(before, slot));
    lemma_slots_update(sb, k, single_slot(after, slot), x);
}

/// Where only the rings (or only the wondrous items) differ, the count moves with them.
proof fn lemma_worn_many_change(before: Equipment, after: Equipment, slot: EquipmentSlot, x: ItemsWeHave)
    requires
        slot == EquipmentSlot::Ring || slot == EquipmentSlot::WondrousItem,
        others_unchanged(before, after, slot),
    ensures
        slots_holding(worn(after), x) + slots_holding(before.ring@, x) + slots_holding(before.wondrous_item@, x)
            == slots_holding(worn(before), x) + slots_holding(after.ring@, x) + slots_holding(after.wondrous_item@, x),
{
    lemma_worn_parts(before, x);
    lemma_worn_parts(after, x);
}

/// Putting an item on from the inventory neither loses nor makes items: for every item,
/// the inventory's copies and the slots holding it add up to the same number before and
/// after, the item taken from the inventory being worn and what it replaced going back.
pub proof fn law_equip_keeps_items(
    before: Equipment,
    after: Equipment,
    bag_before: Seq<ItemsWeHave>,
    bag_after: Seq<ItemsWeHave>,
    k: int,
    item: ItemsWeHave,
    r: Option<ItemsWeHave>,
    x: ItemsWeHave,
)
    requires
        equipment_wf(before),
        equipped(before, after, item, r),
        0 <= k < bag_before.len(),
        bag_before[k] == item,
        bag_after == bag_before.remove(k) + match r {
            Some(o) => seq![o],
            None => Seq::<ItemsWeHave>::empty(),
        },
    ensures
        slots_holding(worn(after), x) + count_of(bag_after, x) == slots_holding(worn(before), x) + count_of(
            bag_before,
            x,
        ),
{
    let back = match r {
        Some(o) => seq![o],
        None => Seq::<ItemsWeHave>::empty(),
    };
    lemma_count_concat(bag_before.remove(k), back, x);
    lemma_count_remove(bag_before, k, x);
    if let Some(o) = r {
        lemma_count_single(o, x);
    }
    assert(count_of(back, x) == is_item(r, x));
    let slot = template_slot(item);
    if is_single(slot) {
        lemma_worn_single_change(before, after, slot, x);
    } else if slot == EquipmentSlot::Ring {
        lemma_worn_many_change(before, after, slot, x);
        match first_free(before.ring@) {
            Some(j) => {
                assert(0 <= j < 2) by {
                    assert(exists|i: int| 0 <= i < before.ring@.len() && !before.ring@[i].player_equipped);
                }
                lemma_slots_update(before.ring@, j, worn_by_choice(before.ring@[j], item), x);
            },
            None => {
                assert(before.ring@ =~= seq![before.ring@[0], before.ring@[1]]);
                lemma_slots_of_two(before.ring@[0], before.ring@[1], x);
                lemma_slots_of_two(before.ring@[1], worn_by_choice(before.ring@[0], item), x);
            },
        }
    } else {
        lemma_worn_many_change(before, after, slot, x);
        match first_free(before.wondrous_item@) {
            Some(j) => {
                assert(0 <= j < 3) by {
                    assert(exists|i: int| 0 <= i < before.wondrous_item@.len() && !before.wondrous_item@[i].player_equipped);
                }
                lemma_slots_update(before.wondrous_item@, j, worn_by_choice(before.wondrous_item@[j], item), x);
            },
            None => {
                let w = before.wondrous_item@;
                assert(w =~= seq![w[0], w[1], w[2]]);
                lemma_slots_of_three(w[0], w[1], w[2], x);
                lemma_slots_of_three(w[1], w[2], worn_by_choice(w[0], item), x);
            },
        }
    }
}

/// Putting an item on automatically neither loses nor makes items: the slots holding any
/// item, plus what comes back, count the same as before plus the new item.
pub proof fn law_auto_equip_keeps_items(before: Equipment, after: Equipment, item: ItemsWeHave, r: Option<ItemsWeHave>, x: ItemsWeHave)
    requires
        equipment_wf(before),
        auto_equipped(before, after, item, r),
    ensures
        slots_holding(worn(after), x) + is_item(r, x) == slots_holding(worn(before), x) + (if item == x {
            1nat
        } else {
            0nat
        }),
{
    let slot = template_slot(item);
    if is_single(slot) {
        lemma_worn_single_change(before, after, slot, x);
    } else if slot == EquipmentSlot::Ring {
        lemma_worn_many_change(before, after, slot, x);
        let j = least_slot(before.ring@);
        lemma_slots_update(before.ring@, j, auto_equip_result(before.ring@[j], item).0, x);
    } else {
        lemma_worn_many_change(before, after, slot, x);
        let j = least_slot(before.wondrous_item@);
        lemma_slots_update(before.wondrous_item@, j, auto_equip_result(before.wondrous_item@[j], item).0, x);
    }
}

/// Automatic equipping never overrides what the player chose: a single slot the player
/// filled stays as it was, and the new item comes back.
pub proof fn law_auto_equip_respects_choice(before: Equipment, after: Equipment, item: ItemsWeHave, r: Option<ItemsWeHave>)
    requires
        auto_equipped(before, after, item, r),
        is_single(template_slot(item)),
        single_slot(before, template_slot(item)).player_equipped,
    ensures
        single_slot(after, template_slot(item)) == single_slot(before, template_slot(item)),
        r == Some(item),
{
}

/// Selling a slot keeps the inventory's worth: what leaves is worth exactly the gold gained,
/// and every item either leaves or stays.
pub proof fn law_sell_keeps_worth(s: Seq<ItemsWeHave>, slot: EquipmentSlot)
    ensures
        value_of(of_slot(s, slot)) + value_of(not_of_slot(s, slot)) == value_of(s),
        of_slot(s, slot).len() + not_of_slot(s, slot).len() == s.len(),
    decreases s.len(),
{
    if s.len() > 0 {
        law_sell_keeps_worth(s.drop_last(), slot);
        if template_slot(s.last()) == slot {
            assert(of_slot(s, slot).drop_last() =~= of_slot(s.drop_last(), slot));
        } else {
            assert(not_of_slot(s, slot).drop_last() =~= not_of_slot(s.drop_last(), slot));
        }
    }
}

/// An item added to an inventory that holds nothing of its name is the one found by that
/// name, and taking it gives back the inventory as it was.
pub proof fn law_take_after_push(s: Seq<ItemsWeHave>, item: ItemsWeHave)
    requires
        first_named(s, template_name(item)) is None,
    ensures
        first_named(s.push(item), template_name(item)) == Some(s.len() as int),
        s.push(item).remove(s.len() as int) == s,
{
    let t = s.push(item);
    let name = template_name(item);
    assert(t[s.len() as int] == item);
    assert(forall|j: int| 0 <= j < s.len() ==> template_name(#[trigger] t[j]) != name) by {
        assert forall|j: int| 0 <= j < s.len() implies template_name(#[trigger] t[j]) != name by {
            assert(t[j] == s[j]);
            if template_name(s[j]) == name {
                assert(exists|i: int| 0 <= i < s.len() && template_name(s[i]) == name);
            }
        }
    }
    let k = choose|i: int| 0 <= i < t.len() && template_name(t[i]) == name && forall|j: int| 0 <= j < i ==> template_name(#[trigger] t[j]) != name;
    assert(0 <= k < t.len() && template_name(t[k]) == name);
    if k < s.len() {
        assert(template_name(t[k]) != name);
    }
    assert(t.remove(s.len() as int) =~= s);
}

impl Rarity {
    /// The name of the variant, as `{:?}` writes it.
    pub open spec fn variant_name(self) -> Seq<char> {
        match self {
            Rarity::Common => "Common"@,
            Rarity::Uncommon => "Uncommon"@,
            Rarity::Rare => "Rare"@,
            Rarity::VeryRare => "VeryRare"@,
            Rarity::Epic => "Epic"@,
            Rarity::Legendary => "Legendary"@,
            Rarity::Artifact => "Artifact"@,
            Rarity::Wondrous => "Wondrous"@,
            Rarity::Unique => "Unique"@,
        }
    }

    /// The name of the variant.
    pub fn variant_text(&self) -> (r: &'static str)
        ensures
            r@ == self.variant_name(),
    {
        match self {
            Rarity::Common => "Common",
            Rarity::Uncommon => "Uncommon",
            Rarity::Rare => "Rare",
            Rarity::VeryRare => "VeryRare",
            Rarity::Epic => "Epic",
            Rarity::Legendary => "Legendary",
            Rarity::Artifact => "Artifact",
            Rarity::Wondrous => "Wondrous",
            Rarity::Unique => "Unique",
        }
    }
}

impl EquipmentSlot {
    /// The name of the variant, as `{:?}` writes it.
    pub open spec fn variant_name(self) -> Seq<char> {
        match self {
            EquipmentSlot::Helmet => "Helmet"@,
            EquipmentSlot::Armor => "Armor"@,
            EquipmentSlot::Legs => "Legs"@,
            EquipmentSlot::Feet => "Feet"@,
            EquipmentSlot::Hands => "Hands"@,
            EquipmentSlot::Weapon => "Weapon"@,
            EquipmentSlot::Shield => "Shield"@,
            EquipmentSlot::Ring => "Ring"@,
            EquipmentSlot::Amulet => "Amulet"@,
            EquipmentSlot::WondrousItem => "WondrousItem"@,
        }
    }

    /// The name of the variant.
    pub fn variant_text(&self) -> (r: &'static str)
        ensures
            r@ == self.variant_name(),
    {
        match self {
            EquipmentSlot::Helmet => "Helmet",
            EquipmentSlot::Armor => "Armor",
            EquipmentSlot::Legs => "Legs",
            EquipmentSlot::Feet => "Feet",
            EquipmentSlot::Hands => "Hands",
            EquipmentSlot::Weapon => "Weapon",
            EquipmentSlot::Shield => "Shield",
            EquipmentSlot::Ring => "Ring",
            EquipmentSlot::Amulet => "Amulet",
            EquipmentSlot::WondrousItem => "WondrousItem",
        }
    }
}

} // verus!
