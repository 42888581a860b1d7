use vstd::prelude::*;
use vstd::string::StringExecFns;
use crate::enemies::{all_mobs, Enemy, Mob, MobGrade};
use crate::random::{random_below, random_ratio, weighted_index};

verus! {

/// The ASCII lower-case form of a character; other characters stay.
pub open spec fn ascii_lower(c: char) -> char {
    if 'A' <= c <= 'Z' {
        ((c as int) + 32) as char
    } else {
        c
    }
}

/// Whether two texts match with ASCII letters compared without case.
pub open spec fn ascii_fold_eq(a: Seq<char>, b: Seq<char>) -> bool {
    &&& a.len() == b.len()
    &&& forall|i: int| 0 <= i < a.len() ==> ascii_lower(#[trigger] a[i]) == ascii_lower(b[i])
}

/// The ASCII lower-case form of a character.
fn lower_char(c: char) -> (r: char)
    ensures
        r == ascii_lower(c),
{
    if 'A' <= c && c <= 'Z' {
        ((c as u8) + 32) as char
    } else {
        c
    }
}

/// Whether two texts match with ASCII letters compared without case, as
/// `str::eq_ignore_ascii_case` decides it.
fn eq_ignore_ascii_case(a: &str, b: &str) -> (r: bool)
    ensures
        r == ascii_fold_eq(a@, b@),
{
    let n = a.unicode_len();
    if n != b.unicode_len() {
        return false;
    }
    let mut i: usize = 0;
    while i < n
        invariant
            n == a@.len() == b@.len(),
            i <= n,
            forall|j: int| 0 <= j < i ==> ascii_lower(#[trigger] a@[j]) == ascii_lower(b@[j]),
        decreases n - i,
    {
        if lower_char(a.get_char(i)) != lower_char(b.get_char(i)) {
            return false;
        }
        i = i + 1;
    }
    true
}

/// The ways out of a location.
#[derive(Debug, Clone, Copy, PartialEq, Eq, Structural)]
pub enum ValidDirections {
    East,
    West,
    North,
    South,
    Up,
    Down,
}

/// The direction a word names: its name or its first letter, in any case.
pub open spec fn direction_named(s: Seq<char>) -> Option<ValidDirections> {
    if ascii_fold_eq(s, "east"@) || ascii_fold_eq(s, "e"@) {
        Some(ValidDirections::East)
    } else if ascii_fold_eq(s, "west"@) || ascii_fold_eq(s, "w"@) {
        Some(ValidDirections::West)
    } else if ascii_fold_eq(s, "north"@) || ascii_fold_eq(s, "n"@) {
        Some(ValidDirections::North)
    } else if ascii_fold_eq(s, "south"@) || ascii_fold_eq(s, "s"@) {
        Some(ValidDirections::South)
    } else if ascii_fold_eq(s, "up"@) || ascii_fold_eq(s, "u"@) {
        Some(ValidDirections::Up)
    } else if ascii_fold_eq(s, "down"@) || ascii_fold_eq(s, "d"@) {
        Some(ValidDirections::Down)
    } else {
        None
    }
}

impl ValidDirections {
    /// The name of a direction, capitalised.
    pub open spec fn name(self) -> Seq<char> {
        match self {
            ValidDirections::East => "East"@,
            ValidDirections::West => "West"@,
            ValidDirections::North => "North"@,
            ValidDirections::South => "South"@,
            ValidDirections::Up => "Up"@,
            ValidDirections::Down => "Down"@,
        }
    }

    /// The name of a direction in lower case.
    pub open spec fn word(self) -> Seq<char> {
        match self {
            ValidDirections::East => "east"@,
            ValidDirections::West => "west"@,
            ValidDirections::North => "north"@,
            ValidDirections::South => "south"@,
            ValidDirections::Up => "up"@,
            ValidDirections::Down => "down"@,
        }
    }

    /// The direction a word names, its name or first letter in any case; an error naming
    /// the word otherwise.
    pub fn try_from(value: &str) -> (r: Result<ValidDirections, String>)
        ensures
            match direction_named(value@) {
                Some(d) => r == Ok::<ValidDirections, String>(d),
                None => r matches Err(e) && e@ == "Invalid direction: "@ + value@,
            },
    {
        if eq_ignore_ascii_case(value, "east") || eq_ignore_ascii_case(value, "e") {
            return Ok(ValidDirections::East);
        }
        if eq_ignore_ascii_case(value, "west") || eq_ignore_ascii_case(value, "w") {
            return Ok(ValidDirections::West);
        }
        if eq_ignore_ascii_case(value, "north") || eq_ignore_ascii_case(value, "n") {
            return Ok(ValidDirections::North);
        }
        if eq_ignore_ascii_case(value, "south") || eq_ignore_ascii_case(value, "s") {
            return Ok(ValidDirections::South);
        }
        if eq_ignore_ascii_case(value, "up") || eq_ignore_ascii_case(value, "u") {
            return Ok(ValidDirections::Up);
        }
        if eq_ignore_ascii_case(value, "down") || eq_ignore_ascii_case(value, "d") {
            return Ok(ValidDirections::Down);
        }
        let mut e = "Invalid direction: ".to_owned();
        e.append(value);
        Err(e)
    }

    /// The name of the direction in lower case.
    pub fn to_string(&self) -> (r: String)
        ensures
            r@ == self.word(),
    {
        match self {
            ValidDirections::East => "east".to_owned(),
            ValidDirections::West => "west".to_owned(),
            ValidDirections::North => "north".to_owned(),
            ValidDirections::South => "south".to_owned(),
            ValidDirections::Up => "up".to_owned(),
            ValidDirections::Down => "down".to_owned(),
        }
    }

    /// The capitalised name of the direction.
    pub fn name_text(&self) -> (r: &'static str)
        ensures
            r@ == self.name(),
    {
        match self {
            ValidDirections::East => "East",
            ValidDirections::West => "West",
            ValidDirections::North => "North",
            ValidDirections::South => "South",
            ValidDirections::Up => "Up",
            ValidDirections::Down => "Down",
        }
    }
}

/// The names of directions, separated by commas.
pub open spec fn names_joined(v: Seq<ValidDirections>) -> Seq<char>
    decreases v.len(),
{
    if v.len() == 0 {
        Seq::empty()
    } else if v.len() == 1 {
        v[0].name()
    } else {
        names_joined(v.drop_last()) + ", "@ + v.last().name()
    }
}

/// A list of directions as it is shown: their names in brackets, separated by commas.
pub open spec fn directions_text(v: Seq<ValidDirections>) -> Seq<char> {
    "["@ + names_joined(v) + "]"@
}

/// The text that lists directions.
pub fn directions_to_string(v: &Vec<ValidDirections>) -> (r: String)
    ensures
        r@ == directions_text(v@),
{
    let mut joined = String::new();
    let mut i: usize = 0;
    while i < v.len()
        invariant
            i <= v@.len(),
            joined@ == names_joined(v@.take(i as int)),
        decreases v@.len() - i,
    {
        proof {
            assert(v@.take(i + 1).drop_last() =~= v@.take(i as int));
        }
        if i > 0 {
            joined.append(", ");
        } else {
            assert(v@.take(1)[0] == v@[0]);
        }
        joined.append(v[i].name_text());
        i = i + 1;
    }
    proof {
        assert(v@.take(i as int) =~= v@);
    }
    let mut r = "[".to_owned();
    r.append(joined.as_str());
    r.append("]");
    r
}

/// The colour a message is shown in.
#[derive(Debug, Clone, Copy, PartialEq, Eq, Structural)]
pub enum Tone {
    Red,
    LightRed,
    Green,
    Magenta,
    DarkMagenta,
    Cyan,
    Yellow,
    DarkYellow,
    Blue,
    DarkBlue,
    White,
    Grey,
    DarkGreen,
}

/// A point of the map: east, north and height.
#[derive(Debug, Clone, Copy, PartialEq, Eq, Structural)]
pub struct Coordinates {
    pub x: i32,
    pub y: i32,
    pub z: u8,
}

/// A location as the map file describes it.
#[derive(Debug, Clone)]
pub struct Description {
    pub x: i32,
    pub y: i32,
    pub z: u8,
    pub descriptor: String,
    pub tile: String,
}

/// A place on the map: its coordinates, the ways out, the enemy there if any, whether the
/// character fled from it, and what it looks like.
#[derive(Debug, Clone)]
pub struct Location {
    pub x: i32,
    pub y: i32,
    pub z: u8,
    pub directions: Vec<ValidDirections>,
    pub enemy: Option<Enemy>,
    pub tagged: bool,
    pub descriptor: String,
}

/// The coordinates of a location.
pub open spec fn coords_of(l: Location) -> Coordinates {
    Coordinates { x: l.x, y: l.y, z: l.z }
}

/// The index of the location at `c`, if any (the first, where several are).
pub open spec fn index_at(locs: Seq<Location>, c: Coordinates) -> Option<int> {
    if exists|i: int| 0 <= i < locs.len() && coords_of(locs[i]) == c {
        Some(choose|i: int| 0 <= i < locs.len() && coords_of(locs[i]) == c
            && forall|j: int| 0 <= j < i ==> coords_of(#[trigger] locs[j]) != c)
    } else {
        None
    }
}

/// The map and where the character stands.
#[derive(Debug, Clone)]
pub struct Locations {
    pub locations: Vec<Location>,
    pub current: Coordinates,
}

/// Whether the character stands on a location of the map.
pub open spec fn has_current(l: Locations) -> bool {
    index_at(l.locations@, l.current) is Some
}

/// The location the character stands on.
pub open spec fn here(l: Locations) -> Location {
    l.locations@[index_at(l.locations@, l.current).unwrap()]
}

/// The coordinates one step from `c` in direction `d`.
pub open spec fn step(c: Coordinates, d: ValidDirections) -> (int, int, int) {
    match d {
        ValidDirections::East => (c.x + 1, c.y as int, c.z as int),
        ValidDirections::West => (c.x - 1, c.y as int, c.z as int),
        ValidDirections::North => (c.x as int, c.y + 1, c.z as int),
        ValidDirections::South => (c.x as int, c.y - 1, c.z as int),
        ValidDirections::Up => (c.x as int, c.y as int, c.z + 1),
        ValidDirections::Down => (c.x as int, c.y as int, c.z - 1),
    }
}

/// Whether one step from `c` in every direction stays within the coordinates' types.
pub open spec fn steps_fit(c: Coordinates) -> bool {
    &&& i32::MIN < c.x < i32::MAX
    &&& i32::MIN < c.y < i32::MAX
    &&& 0 < c.z < u8::MAX
}

/// The coordinates one step from `c` in direction `d`, within their types.
pub open spec fn step_to(c: Coordinates, d: ValidDirections) -> Coordinates {
    let s = step(c, d);
    Coordinates { x: s.0 as i32, y: s.1 as i32, z: s.2 as u8 }
}

/// Whether some location of `locs` stands at `c`.
pub open spec fn occupied(locs: Seq<Location>, c: Coordinates) -> bool {
    exists|i: int| 0 <= i < locs.len() && coords_of(locs[i]) == c
}

/// The ways out of `c`: north, south, east, west, up and down, where a location lies.
pub open spec fn ways_out(locs: Seq<Location>, c: Coordinates) -> Seq<ValidDirections> {
    (if occupied(locs, step_to(c, ValidDirections::North)) { seq![ValidDirections::North] } else { Seq::empty() })
        + (if occupied(locs, step_to(c, ValidDirections::South)) { seq![ValidDirections::South] } else { Seq::empty() })
        + (if occupied(locs, step_to(c, ValidDirections::East)) { seq![ValidDirections::East] } else { Seq::empty() })
        + (if occupied(locs, step_to(c, ValidDirections::West)) { seq![ValidDirections::West] } else { Seq::empty() })
        + (if occupied(locs, step_to(c, ValidDirections::Up)) { seq![ValidDirections::Up] } else { Seq::empty() })
        + (if occupied(locs, step_to(c, ValidDirections::Down)) { seq![ValidDirections::Down] } else { Seq::empty() })
}

/// The index of the location at `c` in `locs`, if any.
fn position(locs: &Vec<Location>, c: Coordinates) -> (r: Option<usize>)
    ensures
        match r {
            Some(i) => i < locs@.len() && index_at(locs@, c) == Some(i as int),
            None => index_at(locs@, c) is None,
        },
{
    let mut i: usize = 0;
    while i < locs.len()
        invariant
            i <= locs@.len(),
            forall|j: int| 0 <= j < i ==> coords_of(#[trigger] locs@[j]) != c,
        decreases locs@.len() - i,
    {
        if locs[i].x == c.x && locs[i].y == c.y && locs[i].z == c.z {
            let ghost k = choose|k: int| 0 <= k < locs@.len() && coords_of(locs@[k]) == c
                && forall|j: int| 0 <= j < k ==> coords_of(#[trigger] locs@[j]) != c;
            proof {
                assert(coords_of(locs@[i as int]) == c);
                if k < i {
                    assert(coords_of(locs@[k]) != c);
                } else if k > i {
                    assert(coords_of(locs@[i as int]) != c);
                }
            }
            return Some(i);
        }
        i = i + 1;
    }
    None
}

/// Whether a location of `locations` stands at `c`.
fn occupied_at(locations: &Vec<Location>, c: Coordinates) -> (r: bool)
    ensures
        r == occupied(locations@, c),
{
    let found = position(locations, c);
    proof {
        if occupied(locations@, c) {
            assert(index_at(locations@, c) is Some);
        }
    }
    found.is_some()
}

/// The ways out of `c` among `locations`: north, south, east, west, up and down, where a
/// location lies.
pub fn valid_direction_map(c: Coordinates, locations: &Vec<Location>) -> (r: Vec<ValidDirections>)
    requires
        steps_fit(c),
    ensures
        r@ == ways_out(locations@, c),
{
    let mut neighbors: Vec<ValidDirections> = Vec::new();
    let north = Coordinates { x: c.x, y: c.y + 1, z: c.z };
    let south = Coordinates { x: c.x, y: c.y - 1, z: c.z };
    let east = Coordinates { x: c.x + 1, y: c.y, z: c.z };
    let west = Coordinates { x: c.x - 1, y: c.y, z: c.z };
    let up = Coordinates { x: c.x, y: c.y, z: c.z + 1 };
    let down = Coordinates { x: c.x, y: c.y, z: c.z - 1 };
    let has_north = occupied_at(locations, north);
    let has_south = occupied_at(locations, south);
    let has_east = occupied_at(locations, east);
    let has_west = occupied_at(locations, west);
    let has_up = occupied_at(locations, up);
    let has_down = occupied_at(locations, down);
    if has_north {
        neighbors.push(ValidDirections::North);
    }
    if has_south {
        neighbors.push(ValidDirections::South);
    }
    if has_east {
        neighbors.push(ValidDirections::East);
    }
    if has_west {
        neighbors.push(ValidDirections::West);
    }
    if has_up {
        neighbors.push(ValidDirections::Up);
    }
    if has_down {
        neighbors.push(ValidDirections::Down);
    }
    proof {
        assert(north == step_to(c, ValidDirections::North));
        assert(south == step_to(c, ValidDirections::South));
        assert(east == step_to(c, ValidDirections::East));
        assert(west == step_to(c, ValidDirections::West));
        assert(up == step_to(c, ValidDirections::Up));
        assert(down == step_to(c, ValidDirections::Down));
        assert(neighbors@ =~= ways_out(locations@, c));
    }
    neighbors
}

/// The coordinates a description places its location at.
pub open spec fn desc_coords(d: Description) -> Coordinates {
    Coordinates { x: d.x, y: d.y, z: d.z }
}

/// The index of the last description placed at `c`, if any: it is the one that counts.
pub open spec fn described(descs: Seq<Description>, c: Coordinates) -> Option<int>
    decreases descs.len(),
{
    if descs.len() == 0 {
        None
    } else if desc_coords(descs.last()) == c {
        Some(descs.len() - 1)
    } else {
        described(descs.drop_last(), c)
    }
}

/// No two locations stand at the same coordinates.
pub open spec fn distinct_places(locs: Seq<Location>) -> bool {
    forall|i: int, j: int| 0 <= i < j < locs.len() ==> coords_of(#[trigger] locs[i]) != coords_of(#[trigger] locs[j])
}

/// Each location stands where a description places one, with what the last such
/// description says, no enemy and untagged.
pub open spec fn from_descriptions_of(locs: Seq<Location>, descs: Seq<Description>) -> bool {
    &&& distinct_places(locs)
    &&& forall|i: int| 0 <= i < locs.len() ==> {
        let l = #[trigger] locs[i];
        &&& described(descs, coords_of(l)) is Some
        &&& l.descriptor@ == descs[described(descs, coords_of(l)).unwrap()].descriptor@
        &&& l.enemy is None
        &&& !l.tagged
    }
    &&& forall|j: int| 0 <= j < descs.len() ==> occupied(locs, desc_coords(#[trigger] descs[j]))
}

proof fn lemma_described_in_prefix(descs: Seq<Description>, n: int, c: Coordinates)
    requires
        0 <= n < descs.len(),
        desc_coords(descs[n]) != c,
    ensures
        described(descs.take(n + 1), c) == described(descs.take(n), c),
{
    assert(descs.take(n + 1).drop_last() =~= descs.take(n));
}

proof fn lemma_described_bound(descs: Seq<Description>, c: Coordinates)
    ensures
        described(descs, c) matches Some(k) ==> 0 <= k < descs.len() && desc_coords(descs[k]) == c,
    decreases descs.len(),
{
    if descs.len() > 0 && desc_coords(descs.last()) != c {
        lemma_described_bound(descs.drop_last(), c);
    }
}

impl Locations {
    /// The map of the descriptions, each location with its ways out, and the character at
    /// (1, 1, 1). Where descriptions share coordinates, the last one counts.
    pub fn new(descriptions: Vec<Description>) -> (r: Locations)
        requires
            forall|j: int| 0 <= j < descriptions@.len() ==> steps_fit(desc_coords(#[trigger] descriptions@[j])),
        ensures
            r.current == (Coordinates { x: 1, y: 1, z: 1 }),
            from_descriptions_of(r.locations@, descriptions@),
            forall|i: int| 0 <= i < r.locations@.len() ==> (#[trigger] r.locations@[i]).directions@
                == ways_out(r.locations@, coords_of(r.locations@[i])),
    {
        let mut locs: Vec<Location> = Vec::new();
        let mut n: usize = 0;
        while n < descriptions.len()
            invariant
                n <= descriptions@.len(),
                from_descriptions_of(locs@, descriptions@.take(n as int)),
                forall|i: int| 0 <= i < locs@.len() ==> steps_fit(coords_of(#[trigger] locs@[i])),
                forall|j: int| 0 <= j < descriptions@.len() ==> steps_fit(desc_coords(#[trigger] descriptions@[j])),
            decreases descriptions@.len() - n,
        {
            let d = &descriptions[n];
            let c = Coordinates { x: d.x, y: d.y, z: d.z };
            let location = Location {
                x: d.x,
                y: d.y,
                z: d.z,
                directions: Vec::new(),
                enemy: None,
                tagged: false,
                descriptor: d.descriptor.clone(),
            };
            let ghost before = locs@;
            let ghost prefix = descriptions@.take(n as int);
            let ghost next = descriptions@.take(n + 1);
            proof {
                assert(next.drop_last() =~= prefix);
                assert(next.last() == descriptions@[n as int]);
                assert(described(next, c) == Some(n as int));
                assert forall|k: Coordinates| k != c implies described(next, k) == described(prefix, k) by {
                    lemma_described_in_prefix(descriptions@, n as int, k);
                }
                assert forall|j: int| 0 <= j < n implies next[j] == prefix[j] by {}
            }
            match position(&locs, c) {
                Some(k) => {
                    locs.set(k, location);
                    proof {
                        assert forall|i: int| 0 <= i < locs@.len() implies {
                            let l = #[trigger] locs@[i];
                            &&& described(next, coords_of(l)) is Some
                            &&& l.descriptor@ == next[described(next, coords_of(l)).unwrap()].descriptor@
                            &&& l.enemy is None
                            &&& !l.tagged
                        } by {
                            if i != k {
                                assert(coords_of(before[i]) != c);
                                lemma_described_bound(prefix, coords_of(before[i]));
                            }
                        }
                        assert forall|j: int| 0 <= j < next.len() implies occupied(locs@, desc_coords(#[trigger] next[j])) by {
                            if j < n {
                                assert(occupied(before, desc_coords(prefix[j])));
                                let w = choose|w: int| 0 <= w < before.len() && coords_of(before[w]) == desc_coords(prefix[j]);
                                assert(coords_of(locs@[w]) == desc_coords(next[j]));
                            } else {
                                assert(coords_of(locs@[k as int]) == c);
                            }
                        }
                    }
                },
                None => {
                    locs.push(location);
                    proof {
                        assert(!occupied(before, c));
                        assert forall|i: int| 0 <= i < locs@.len() implies {
                            let l = #[trigger] locs@[i];
                            &&& described(next, coords_of(l)) is Some
                            &&& l.descriptor@ == next[described(next, coords_of(l)).unwrap()].descriptor@
                            &&& l.enemy is None
                            &&& !l.tagged
                        } by {
                            if i < before.len() {
                                assert(coords_of(before[i]) != c);
                                lemma_described_bound(prefix, coords_of(before[i]));
                            }
                        }
                        assert forall|j: int| 0 <= j < next.len() implies occupied(locs@, desc_coords(#[trigger] next[j])) by {
                            if j < n {
                                assert(occupied(before, desc_coords(prefix[j])));
                                let w = choose|w: int| 0 <= w < before.len() && coords_of(before[w]) == desc_coords(prefix[j]);
                                assert(coords_of(locs@[w]) == desc_coords(next[j]));
                            } else {
                                assert(coords_of(locs@[before.len() as int]) == c);
                            }
                        }
                        assert forall|i: int, j: int| 0 <= i < j < locs@.len() implies coords_of(#[trigger] locs@[i])
                            != coords_of(#[trigger] locs@[j]) by {
                            if j == before.len() {
                                assert(coords_of(before[i]) != c);
                            }
                        }
                    }
                },
            }
            n = n + 1;
        }
        proof {
            assert(descriptions@.take(n as int) =~= descriptions@);
        }
        let ghost placed = locs@;
        let mut i: usize = 0;
        while i < locs.len()
            invariant
                i <= locs@.len(),
                locs@.len() == placed.len(),
                forall|j: int| 0 <= j < locs@.len() ==> coords_of(#[trigger] locs@[j]) == coords_of(placed[j]),
                forall|j: int| 0 <= j < locs@.len() ==> (#[trigger] locs@[j]).descriptor == placed[j].descriptor
                    && locs@[j].enemy is None && !locs@[j].tagged,
                forall|j: int| 0 <= j < locs@.len() ==> steps_fit(coords_of(#[trigger] locs@[j])),
                forall|j: int| 0 <= j < i ==> (#[trigger] locs@[j]).directions@ == ways_out(placed, coords_of(placed[j])),
            decreases locs@.len() - i,
        {
            let c = Coordinates { x: locs[i].x, y: locs[i].y, z: locs[i].z };
            let ghost current = locs@;
            proof {
                assert forall|k: Coordinates| occupied(current, k) == occupied(placed, k) by {
                    if occupied(current, k) {
                        let w = choose|w: int| 0 <= w < current.len() && coords_of(current[w]) == k;
                        assert(coords_of(placed[w]) == k);
                    }
                    if occupied(placed, k) {
                        let w = choose|w: int| 0 <= w < placed.len() && coords_of(placed[w]) == k;
                        assert(coords_of(current[w]) == k);
                    }
                }
                assert(ways_out(current, c) =~= ways_out(placed, c));
            }
            let dirs = valid_direction_map(c, &locs);
            let mut l = locs[i].clone_place();
            l.directions = dirs;
            locs.set(i, l);
            i = i + 1;
        }
        proof {
            assert forall|k: Coordinates| occupied(locs@, k) == occupied(placed, k) by {
                if occupied(locs@, k) {
                    let w = choose|w: int| 0 <= w < locs@.len() && coords_of(locs@[w]) == k;
                    assert(coords_of(placed[w]) == k);
                }
                if occupied(placed, k) {
                    let w = choose|w: int| 0 <= w < placed.len() && coords_of(placed[w]) == k;
                    assert(coords_of(locs@[w]) == k);
                }
            }
            assert forall|j: int| 0 <= j < locs@.len() implies (#[trigger] locs@[j]).directions@
                == ways_out(locs@, coords_of(locs@[j])) by {
                assert(ways_out(locs@, coords_of(locs@[j])) =~= ways_out(placed, coords_of(placed[j])));
            }
            assert forall|j: int| 0 <= j < descriptions@.len() implies occupied(locs@, desc_coords(#[trigger] descriptions@[j])) by {
                assert(occupied(placed, desc_coords(descriptions@[j])));
            }
        }
        Locations { locations: locs, current: Coordinates { x: 1, y: 1, z: 1 } }
    }
}

impl Location {
    /// A copy of an enemy-free location's coordinates, descriptor and tag, without its ways
    /// out.
    fn clone_place(&self) -> (r: Location)
        requires
            self.enemy is None,
        ensures
            coords_of(r) == coords_of(*self),
            r.descriptor == self.descriptor,
            r.enemy is None,
            r.tagged == self.tagged,
            r.directions@.len() == 0,
    {
        Location {
            x: self.x,
            y: self.y,
            z: self.z,
            directions: Vec::new(),
            enemy: None,
            tagged: self.tagged,
            descriptor: self.descriptor.clone(),
        }
    }
}

/// The map's invariant: no two locations share coordinates, each location's ways out are
/// those to its neighbours, and a step in any direction from any location stays within the
/// coordinates' types.
pub open spec fn map_wf(l: Locations) -> bool {
    &&& distinct_places(l.locations@)
    &&& forall|i: int| 0 <= i < l.locations@.len() ==> (#[trigger] l.locations@[i]).directions@
        == ways_out(l.locations@, coords_of(l.locations@[i]))
    &&& forall|i: int| 0 <= i < l.locations@.len() ==> steps_fit(coords_of(#[trigger] l.locations@[i]))
}

/// What a journey led to: it was refused, the character was ambushed by an enemy it had fled
/// from, an enemy is in sight, or the place is open (for an enemy to appear at random).
#[derive(Debug, Clone, Copy, PartialEq, Eq, Structural)]
pub enum Arrival {
    Refused,
    Ambushed,
    EnemyInSight,
    Open,
}

/// The texts and tones of a list of messages.
pub open spec fn message_texts(m: Seq<(String, Tone)>) -> Seq<(Seq<char>, Tone)> {
    m.map_values(|x: (String, Tone)| (x.0@, x.1))
}

/// The messages that refuse a journey and list the ways out.
pub open spec fn refusal(here: Location) -> Seq<(Seq<char>, Tone)> {
    seq![
        ("You can travel in the following directions: "@, Tone::Red),
        (directions_text(here.directions@), Tone::Red),
    ]
}

/// The messages on arrival at `at`, and what the arrival led to.
pub open spec fn arrival_report(at: Location) -> (Seq<(Seq<char>, Tone)>, Arrival) {
    let first = seq![
        (at.descriptor@, Tone::Green),
        ("You can travel in the following directions: "@ + directions_text(at.directions@), Tone::Magenta),
    ];
    match at.enemy {
        Some(e) => if at.tagged {
            (first + seq![
                ("You have been here before...and the locals remember you"@, Tone::Red),
                ("Enemy "@ + e.kind.label() + " prepares their attack"@, Tone::Red),
            ], Arrival::Ambushed)
        } else {
            (first + seq![("You see a "@ + e.kind.label() + " in the distance"@, Tone::Red)], Arrival::EnemyInSight)
        },
        None => (first, Arrival::Open),
    }
}

/// Two lists of locations with the same coordinates, one by one.
pub open spec fn same_places(a: Seq<Location>, b: Seq<Location>) -> bool {
    &&& a.len() == b.len()
    &&& forall|i: int| 0 <= i < a.len() ==> coords_of(#[trigger] a[i]) == coords_of(b[i])
}

proof fn lemma_same_occupied(a: Seq<Location>, b: Seq<Location>, k: Coordinates)
    requires
        same_places(a, b),
    ensures
        occupied(a, k) == occupied(b, k),
{
    if occupied(a, k) {
        let w = choose|w: int| 0 <= w < a.len() && coords_of(a[w]) == k;
        assert(coords_of(b[w]) == k);
    }
    if occupied(b, k) {
        let w = choose|w: int| 0 <= w < b.len() && coords_of(b[w]) == k;
        assert(coords_of(a[w]) == k);
    }
}

proof fn lemma_same_ways_out(a: Seq<Location>, b: Seq<Location>, k: Coordinates)
    requires
        same_places(a, b),
    ensures
        ways_out(a, k) == ways_out(b, k),
{
    lemma_same_occupied(a, b, step_to(k, ValidDirections::North));
    lemma_same_occupied(a, b, step_to(k, ValidDirections::South));
    lemma_same_occupied(a, b, step_to(k, ValidDirections::East));
    lemma_same_occupied(a, b, step_to(k, ValidDirections::West));
    lemma_same_occupied(a, b, step_to(k, ValidDirections::Up));
    lemma_same_occupied(a, b, step_to(k, ValidDirections::Down));
}

/// Where no two locations share coordinates, a location is found at its own coordinates.
proof fn lemma_index_of_distinct(locs: Seq<Location>, i: int)
    requires
        distinct_places(locs),
        0 <= i < locs.len(),
    ensures
        index_at(locs, coords_of(locs[i])) == Some(i),
{
    let c = coords_of(locs[i]);
    assert(occupied(locs, c));
    let k = choose|k: int| 0 <= k < locs.len() && coords_of(locs[k]) == c
        && forall|j: int| 0 <= j < k ==> coords_of(#[trigger] locs[j]) != c;
    if k < i {
        assert(coords_of(locs[k]) != coords_of(locs[i]));
    } else if i < k {
        assert(coords_of(locs[i]) != coords_of(locs[k]));
    }
}

/// Changing what stands at one place keeps the map's invariant and where the character is.
proof fn lemma_map_kept(before: Locations, after: Locations)
    requires
        map_wf(before),
        has_current(before),
        after.current == before.current,
        same_places(before.locations@, after.locations@),
        forall|i: int| 0 <= i < after.locations@.len() ==> (#[trigger] after.locations@[i]).directions@
            == before.locations@[i].directions@,
    ensures
        map_wf(after),
        has_current(after),
        index_at(after.locations@, after.current) == index_at(before.locations@, before.current),
{
    let k = index_at(before.locations@, before.current).unwrap();
    assert(0 <= k < before.locations@.len() && coords_of(before.locations@[k]) == before.current) by {
        let w = choose|w: int| 0 <= w < before.locations@.len() && coords_of(before.locations@[w]) == before.current
            && forall|j: int| 0 <= j < w ==> coords_of(#[trigger] before.locations@[j]) != before.current;
    }
    assert forall|i: int| 0 <= i < after.locations@.len() implies (#[trigger] after.locations@[i]).directions@
        == ways_out(after.locations@, coords_of(after.locations@[i])) by {
        lemma_same_ways_out(before.locations@, after.locations@, coords_of(after.locations@[i]));
        assert(coords_of(after.locations@[i]) == coords_of(before.locations@[i]));
    }
    assert forall|i: int, j: int| 0 <= i < j < after.locations@.len() implies coords_of(#[trigger] after.locations@[i])
        != coords_of(#[trigger] after.locations@[j]) by {
        assert(coords_of(before.locations@[i]) != coords_of(before.locations@[j]));
    }
    assert forall|i: int| 0 <= i < after.locations@.len() implies steps_fit(coords_of(#[trigger] after.locations@[i])) by {
        assert(coords_of(before.locations@[i]) == coords_of(after.locations@[i]));
    }
    assert(coords_of(after.locations@[k]) == after.current);
    lemma_index_of_distinct(after.locations@, k);
}

/// Putting at `k` a location with the same coordinates and ways out keeps a map's invariant.
proof fn lemma_same_place_kept(l: Locations, k: int)
    requires
        map_wf(l),
        0 <= k < l.locations@.len(),
    ensures
        forall|p: Location|
            coords_of(p) == coords_of(l.locations@[k]) && p.directions@ == l.locations@[k].directions@ ==> {
                let u = #[trigger] l.locations@.update(k, p);
                &&& distinct_places(u)
                &&& forall|i: int| 0 <= i < u.len() ==> (#[trigger] u[i]).directions@ == ways_out(u, coords_of(u[i]))
                &&& forall|i: int| 0 <= i < u.len() ==> steps_fit(coords_of(#[trigger] u[i]))
            },
{
    let a = l.locations@;
    assert forall|p: Location|
        coords_of(p) == coords_of(a[k]) && p.directions@ == a[k].directions@ implies {
            let u = #[trigger] a.update(k, p);
            &&& distinct_places(u)
            &&& forall|i: int| 0 <= i < u.len() ==> (#[trigger] u[i]).directions@ == ways_out(u, coords_of(u[i]))
            &&& forall|i: int| 0 <= i < u.len() ==> steps_fit(coords_of(#[trigger] u[i]))
        } by {
        let u = a.update(k, p);
        assert(same_places(a, u));
        assert forall|i: int| 0 <= i < u.len() implies (#[trigger] u[i]).directions@ == ways_out(u, coords_of(u[i])) by {
            lemma_same_ways_out(a, u, coords_of(u[i]));
        }
        assert forall|i: int, j: int| 0 <= i < j < u.len() implies coords_of(#[trigger] u[i]) != coords_of(#[trigger] u[j]) by {
            assert(coords_of(a[i]) != coords_of(a[j]));
        }
        assert forall|i: int| 0 <= i < u.len() implies steps_fit(coords_of(#[trigger] u[i])) by {
            assert(coords_of(a[i]) == coords_of(u[i]));
        }
    }
}

/// Whether the character can flee: there is a way out, and where the first leads, an enemy
/// met without a character was fled from before, if there is one.
pub open spec fn can_flee(l: Locations, has_character: bool) -> bool {
    &&& here(l).directions@.len() > 0
    &&& ({
        let d = here(l).directions@[0];
        has_character || there(l, d).enemy is None || there(l, d).tagged
    })
}

/// `after` is `before` after fleeing: the place left is marked as fled from, the character
/// stands one step along the first way out, and `report` is what it finds there (see
/// `arrival_report`).
pub open spec fn fled(before: Locations, after: Locations, report: (Seq<(Seq<char>, Tone)>, Arrival)) -> bool {
    let d = here(before).directions@[0];
    let k = index_at(before.locations@, before.current).unwrap();
    &&& after.locations@ == before.locations@.update(k, Location { tagged: true, ..here(before) })
    &&& after.current == step_to(before.current, d)
    &&& report == arrival_report(here(after))
}

/// The direction that leads back.
pub open spec fn opposite(d: ValidDirections) -> ValidDirections {
    match d {
        ValidDirections::East => ValidDirections::West,
        ValidDirections::West => ValidDirections::East,
        ValidDirections::North => ValidDirections::South,
        ValidDirections::South => ValidDirections::North,
        ValidDirections::Up => ValidDirections::Down,
        ValidDirections::Down => ValidDirections::Up,
    }
}

/// An occupied place is one of the ways out of a place one step away from it.
#[verifier::spinoff_prover]
proof fn lemma_way_in(locs: Seq<Location>, c: Coordinates, d: ValidDirections)
    requires
        occupied(locs, step_to(c, d)),
    ensures
        ways_out(locs, c).contains(d),
{
    let n = if occupied(locs, step_to(c, ValidDirections::North)) { seq![ValidDirections::North] } else { Seq::empty() };
    let so = if occupied(locs, step_to(c, ValidDirections::South)) { seq![ValidDirections::South] } else { Seq::empty() };
    let e = if occupied(locs, step_to(c, ValidDirections::East)) { seq![ValidDirections::East] } else { Seq::empty() };
    let we = if occupied(locs, step_to(c, ValidDirections::West)) { seq![ValidDirections::West] } else { Seq::empty() };
    let u = if occupied(locs, step_to(c, ValidDirections::Up)) { seq![ValidDirections::Up] } else { Seq::empty() };
    let dn = if occupied(locs, step_to(c, ValidDirections::Down)) { seq![ValidDirections::Down] } else { Seq::empty() };
    let w = ways_out(locs, c);
    assert(w == n + so + e + we + u + dn);
    match d {
        ValidDirections::North => assert(w[0] == d),
        ValidDirections::South => assert(w[n.len() as int] == d),
        ValidDirections::East => assert(w[(n.len() + so.len()) as int] == d),
        ValidDirections::West => assert(w[(n.len() + so.len() + e.len()) as int] == d),
        ValidDirections::Up => assert(w[(n.len() + so.len() + e.len() + we.len()) as int] == d),
        ValidDirections::Down => assert(w[(n.len() + so.len() + e.len() + we.len() + u.len()) as int] == d),
    }
}

/// Every way out has a way back: one step along a way out of the place the character stands
/// on lies a location, the opposite way out of it leads back, and it is among its ways out.
pub proof fn law_way_back(l: Locations, d: ValidDirections)
    requires
        map_wf(l),
        has_current(l),
        here(l).directions@.contains(d),
    ensures
        ({
            let c1 = step_to(l.current, d);
            &&& index_at(l.locations@, c1) is Some
            &&& step_to(c1, opposite(d)) == l.current
            &&& l.locations@[index_at(l.locations@, c1).unwrap()].directions@.contains(opposite(d))
        }),
{
    let locs = l.locations@;
    let k = index_at(locs, l.current).unwrap();
    assert(0 <= k < locs.len() && coords_of(locs[k]) == l.current) by {
        let w = choose|w: int| 0 <= w < locs.len() && coords_of(locs[w]) == l.current
            && forall|j: int| 0 <= j < w ==> coords_of(#[trigger] locs[j]) != l.current;
    }
    assert(steps_fit(coords_of(locs[k])));
    lemma_way_out_occupied(locs, l.current, d);
    let c1 = step_to(l.current, d);
    let t = index_at(locs, c1).unwrap();
    assert(0 <= t < locs.len() && coords_of(locs[t]) == c1) by {
        let w = choose|w: int| 0 <= w < locs.len() && coords_of(locs[w]) == c1
            && forall|j: int| 0 <= j < w ==> coords_of(#[trigger] locs[j]) != c1;
    }
    assert(step_to(c1, opposite(d)) == l.current);
    assert(occupied(locs, step_to(c1, opposite(d))));
    lemma_way_in(locs, c1, opposite(d));
    assert(locs[t].directions@ == ways_out(locs, coords_of(locs[t])));
}

impl Locations {
    /// Index of the location the character stands on.
    fn here_index(&self) -> (r: usize)
        requires
            has_current(*self),
        ensures
            r < self.locations@.len(),
            index_at(self.locations@, self.current) == Some(r as int),
    {
        position(&self.locations, self.current).unwrap()
    }

    /// The location the character stands on.
    pub fn current(&self) -> (r: &Location)
        requires
            has_current(*self),
        ensures
            *r == here(*self),
    {
        let i = self.here_index();
        &self.locations[i]
    }

    /// The enemy where the character stands, if any.
    pub fn enemy(&self) -> (r: Option<&Enemy>)
        requires
            has_current(*self),
        ensures
            match here(*self).enemy {
                Some(e) => r == Some(&e),
                None => r is None,
            },
    {
        self.current().enemy.as_ref()
    }

    /// Marks the location the character stands on as one it fled from.
    pub fn tag_enemy(&mut self)
        requires
            has_current(*old(self)),
            map_wf(*old(self)),
        ensures
            map_wf(*final(self)),
            has_current(*final(self)),
            final(self).current == old(self).current,
            final(self).locations@ == old(self).locations@.update(
                index_at(old(self).locations@, old(self).current).unwrap(),
                Location { tagged: true, ..here(*old(self)) },
            ),
    {
        let i = self.here_index();
        let ghost before = *self;
        let mut l = self.locations.remove(i);
        l.tagged = true;
        self.locations.insert(i, l);
        proof {
            assert(self.locations@ =~= before.locations@.update(i as int, Location { tagged: true, ..here(before) }));
            lemma_map_kept(before, *self);
        }
    }

    /// Clears the enemy where the character stands.
    pub fn enemy_killed(&mut self)
        requires
            has_current(*old(self)),
            map_wf(*old(self)),
        ensures
            map_wf(*final(self)),
            has_current(*final(self)),
            final(self).current == old(self).current,
            final(self).locations@ == old(self).locations@.update(
                index_at(old(self).locations@, old(self).current).unwrap(),
                Location { enemy: None, ..here(*old(self)) },
            ),
    {
        let i = self.here_index();
        let ghost before = *self;
        let mut l = self.locations.remove(i);
        l.enemy = None;
        self.locations.insert(i, l);
        proof {
            assert(self.locations@ =~= before.locations@.update(i as int, Location { enemy: None, ..here(before) }));
            lemma_map_kept(before, *self);
        }
    }

    /// The enemy where the character stands, to change in place.
    pub fn get_mut_enemy(&mut self) -> (r: &mut Enemy)
        requires
            has_current(*old(self)),
            map_wf(*old(self)),
            here(*old(self)).enemy is Some,
        ensures
            *r == here(*old(self)).enemy.unwrap(),
            map_wf(*final(self)),
            has_current(*final(self)),
            index_at(final(self).locations@, final(self).current) == index_at(old(self).locations@, old(self).current),
            final(self).current == old(self).current,
            final(self).locations@ == old(self).locations@.update(
                index_at(old(self).locations@, old(self).current).unwrap(),
                Location { enemy: Some(*final(r)), ..here(*old(self)) },
            ),
    {
        let i = self.here_index();
        proof {
            lemma_same_place_kept(*self, i as int);
        }
        let place = &mut self.locations[i];
        place.enemy.as_mut().unwrap()
    }

    /// Puts an enemy where the character stands.
    pub fn place_enemy(&mut self, enemy: Enemy)
        requires
            has_current(*old(self)),
            map_wf(*old(self)),
        ensures
            map_wf(*final(self)),
            has_current(*final(self)),
            final(self).current == old(self).current,
            final(self).locations@ == old(self).locations@.update(
                index_at(old(self).locations@, old(self).current).unwrap(),
                Location { enemy: Some(enemy), ..here(*old(self)) },
            ),
    {
        let i = self.here_index();
        let ghost before = *self;
        let mut l = self.locations.remove(i);
        l.enemy = Some(enemy);
        self.locations.insert(i, l);
        proof {
            assert(self.locations@ =~= before.locations@.update(i as int, Location { enemy: Some(enemy), ..here(before) }));
            lemma_map_kept(before, *self);
        }
    }

    /// Sends the character back to (1, 1, 1).
    pub fn go_to_origin(&mut self)
        ensures
            final(self).current == (Coordinates { x: 1, y: 1, z: 1 }),
            final(self).locations == old(self).locations,
    {
        self.current = Coordinates { x: 1, y: 1, z: 1 };
    }

    /// Moves the character one step in `direction`; returns where it stands now.
    pub fn shift_direction(&mut self, direction: ValidDirections) -> (r: Coordinates)
        requires
            steps_fit(old(self).current),
        ensures
            r == step_to(old(self).current, direction),
            final(self).current == r,
            final(self).locations == old(self).locations,
    {
        let c = self.current;
        let new_location = match direction {
            ValidDirections::East => Coordinates { x: c.x + 1, y: c.y, z: c.z },
            ValidDirections::West => Coordinates { x: c.x - 1, y: c.y, z: c.z },
            ValidDirections::North => Coordinates { x: c.x, y: c.y + 1, z: c.z },
            ValidDirections::South => Coordinates { x: c.x, y: c.y - 1, z: c.z },
            ValidDirections::Up => Coordinates { x: c.x, y: c.y, z: c.z + 1 },
            ValidDirections::Down => Coordinates { x: c.x, y: c.y, z: c.z - 1 },
        };
        self.current = new_location;
        new_location
    }
}

/// The direction a journey takes: the first argument, where it names one of the ways out.
pub open spec fn travel_target(l: Locations, args: Seq<&str>) -> Option<ValidDirections> {
    if args.len() > 0 {
        match direction_named(args[0]@) {
            Some(d) => if here(l).directions@.contains(d) {
                Some(d)
            } else {
                None
            },
            None => None,
        }
    } else {
        None
    }
}

/// The location one step from the character in direction `d`.
pub open spec fn there(l: Locations, d: ValidDirections) -> Location {
    l.locations@[index_at(l.locations@, step_to(l.current, d)).unwrap()]
}

/// A way out leads to a location.
#[verifier::spinoff_prover]
#[verifier::rlimit(60)]
proof fn lemma_way_out_occupied(locs: Seq<Location>, c: Coordinates, d: ValidDirections)
    requires
        ways_out(locs, c).contains(d),
    ensures
        occupied(locs, step_to(c, d)),
{
    let w = ways_out(locs, c);
    let i = choose|i: int| 0 <= i < w.len() && w[i] == d;
    if !occupied(locs, step_to(c, d)) {
        let n = if occupied(locs, step_to(c, ValidDirections::North)) { seq![ValidDirections::North] } else { Seq::empty() };
        let so = if occupied(locs, step_to(c, ValidDirections::South)) { seq![ValidDirections::South] } else { Seq::empty() };
        let e = if occupied(locs, step_to(c, ValidDirections::East)) { seq![ValidDirections::East] } else { Seq::empty() };
        let we = if occupied(locs, step_to(c, ValidDirections::West)) { seq![ValidDirections::West] } else { Seq::empty() };
        let u = if occupied(locs, step_to(c, ValidDirections::Up)) { seq![ValidDirections::Up] } else { Seq::empty() };
        let dn = if occupied(locs, step_to(c, ValidDirections::Down)) { seq![ValidDirections::Down] } else { Seq::empty() };
        assert(w == n + so + e + we + u + dn);
        assert(forall|j: int| 0 <= j < w.len() ==> w[j] != d);
    }
}

/// The lower-case name of a direction names it.
proof fn lemma_word_names(d: ValidDirections)
    ensures
        direction_named(d.word()) == Some(d),
{
    reveal_strlit("east");
    reveal_strlit("e");
    reveal_strlit("west");
    reveal_strlit("w");
    reveal_strlit("north");
    reveal_strlit("n");
    reveal_strlit("south");
    reveal_strlit("s");
    reveal_strlit("up");
    reveal_strlit("u");
    reveal_strlit("down");
    reveal_strlit("d");
    let w = d.word();
    assert(ascii_fold_eq(w, w));
    if d != ValidDirections::East {
        assert(!ascii_fold_eq(w, "east"@) && !ascii_fold_eq(w, "e"@)) by {
            if w.len() == 4 {
                assert(ascii_lower(w[0]) != ascii_lower("east"@[0]) || ascii_lower(w[1]) != ascii_lower("east"@[1]));
            }
        }
    }
    if d != ValidDirections::West {
        assert(!ascii_fold_eq(w, "west"@) && !ascii_fold_eq(w, "w"@)) by {
            if w.len() == 4 {
                assert(ascii_lower(w[0]) != ascii_lower("west"@[0]) || ascii_lower(w[1]) != ascii_lower("west"@[1]));
            }
        }
    }
    if d != ValidDirections::North {
        assert(!ascii_fold_eq(w, "north"@) && !ascii_fold_eq(w, "n"@)) by {
            if w.len() == 5 {
                assert(ascii_lower(w[0]) != ascii_lower("north"@[0]));
            }
        }
    }
    if d != ValidDirections::South {
        assert(!ascii_fold_eq(w, "south"@) && !ascii_fold_eq(w, "s"@)) by {
            if w.len() == 5 {
                assert(ascii_lower(w[0]) != ascii_lower("south"@[0]));
            }
        }
    }
    if d != ValidDirections::Up {
        assert(!ascii_fold_eq(w, "up"@) && !ascii_fold_eq(w, "u"@));
    }
}

/// The messages that refuse a journey from `here`.
fn refusal_messages(here: &Location) -> (r: Vec<(String, Tone)>)
    ensures
        message_texts(r@) == refusal(*here),
{
    let r = vec![
        ("You can travel in the following directions: ".to_owned(), Tone::Red),
        (directions_to_string(&here.directions), Tone::Red),
    ];
    assert(message_texts(r@) =~= refusal(*here));
    r
}

/// Whether `v` holds `d`.
fn holds_direction(v: &Vec<ValidDirections>, d: ValidDirections) -> (r: bool)
    ensures
        r == v@.contains(d),
{
    let mut i: usize = 0;
    while i < v.len()
        invariant
            i <= v@.len(),
            forall|j: int| 0 <= j < i ==> v@[j] != d,
        decreases v@.len() - i,
    {
        if v[i] == d {
            assert(v@[i as int] == d);
            return true;
        }
        i = i + 1;
    }
    false
}

/// The messages on arrival at `at`, and what the arrival led to.
fn arrival_messages(at: &Location) -> (r: (Vec<(String, Tone)>, Arrival))
    ensures
        (message_texts(r.0@), r.1) == arrival_report(*at),
{
    let mut travel = "You can travel in the following directions: ".to_owned();
    travel.append(directions_to_string(&at.directions).as_str());
    let mut msg = vec![(at.descriptor.clone(), Tone::Green), (travel, Tone::Magenta)];
    let ghost first = message_texts(msg@);
    let arrival = match &at.enemy {
        Some(e) => {
            let kind = e.kind.to_string();
            if at.tagged {
                msg.push(("You have been here before...and the locals remember you".to_owned(), Tone::Red));
                let mut prepares = "Enemy ".to_owned();
                prepares.append(kind.as_str());
                prepares.append(" prepares their attack");
                msg.push((prepares, Tone::Red));
                Arrival::Ambushed
            } else {
                let mut sight = "You see a ".to_owned();
                sight.append(kind.as_str());
                sight.append(" in the distance");
                msg.push((sight, Tone::Red));
                Arrival::EnemyInSight
            }
        },
        None => Arrival::Open,
    };
    proof {
        assert(message_texts(msg@) =~= arrival_report(*at).0);
    }
    (msg, arrival)
}

impl Locations {
    /// Travels in the direction the first argument names. Where there is none, it is not a
    /// direction, or no way leads there, the journey is refused and the ways out are listed;
    /// else the character moves and is told what it finds (see `arrival_report`).
    /// `has_character` tells whether a character travels; an enemy in sight is reported to a
    /// character only.
    pub fn travel(&mut self, args: &[&str], has_character: bool) -> (r: (Vec<(String, Tone)>, Arrival))
        requires
            has_current(*old(self)),
            map_wf(*old(self)),
            travel_target(*old(self), args@) matches Some(d) ==> has_character || there(*old(self), d).enemy is None
                || there(*old(self), d).tagged,
        ensures
            map_wf(*final(self)),
            has_current(*final(self)),
            final(self).locations == old(self).locations,
            match travel_target(*old(self), args@) {
                None => final(self).current == old(self).current && message_texts(r.0@) == refusal(here(*old(self)))
                    && r.1 == Arrival::Refused,
                Some(d) => final(self).current == step_to(old(self).current, d) && here(*final(self)) == there(
                    *old(self),
                    d,
                ) && (message_texts(r.0@), r.1) == arrival_report(here(*final(self))),
            },
    {
        let i = self.here_index();
        if args.len() == 0 {
            return (refusal_messages(&self.locations[i]), Arrival::Refused);
        }
        let direction = match ValidDirections::try_from(args[0]) {
            Ok(dir) => dir,
            Err(_) => {
                return (refusal_messages(&self.locations[i]), Arrival::Refused);
            },
        };
        if !holds_direction(&self.locations[i].directions, direction) {
            return (refusal_messages(&self.locations[i]), Arrival::Refused);
        }
        proof {
            let locs = self.locations@;
            assert(coords_of(locs[i as int]) == self.current) by {
                let w = choose|w: int| 0 <= w < locs.len() && coords_of(locs[w]) == self.current
                    && forall|j: int| 0 <= j < w ==> coords_of(#[trigger] locs[j]) != self.current;
            }
            assert(steps_fit(coords_of(locs[i as int])));
            lemma_way_out_occupied(locs, self.current, direction);
        }
        self.shift_direction(direction);
        let j = self.here_index();
        arrival_messages(&self.locations[j])
    }

    /// Flees the enemy: the place is marked as fled from, and the character travels the first
    /// way out.
    #[verifier::rlimit(30)]
    pub fn flee(&mut self, has_character: bool) -> (r: (Vec<(String, Tone)>, Arrival))
        requires
            has_current(*old(self)),
            map_wf(*old(self)),
            can_flee(*old(self), has_character),
        ensures
            map_wf(*final(self)),
            has_current(*final(self)),
            fled(*old(self), *final(self), (message_texts(r.0@), r.1)),
    {
        let direction = self.current().directions[0];
        let word = direction.to_string();
        let ghost before = *self;
        let ghost k = index_at(before.locations@, before.current).unwrap();
        self.tag_enemy();
        let args = [word.as_str()];
        proof {
            lemma_word_names(direction);
            let locs = before.locations@;
            assert(0 <= k < locs.len() && coords_of(locs[k]) == before.current) by {
                let w = choose|w: int| 0 <= w < locs.len() && coords_of(locs[w]) == before.current
                    && forall|j: int| 0 <= j < w ==> coords_of(#[trigger] locs[j]) != before.current;
            }
            lemma_index_of_distinct(self.locations@, k);
            assert(here(*self) == (Location { tagged: true, ..here(before) }));
            assert(here(*self).directions@.contains(direction)) by {
                assert(here(*self).directions@[0] == direction);
            }
            assert(args@[0]@ == direction.word());
            assert(travel_target(*self, args@) == Some(direction));
            lemma_way_out_occupied(locs, before.current, direction);
            let dest = step_to(before.current, direction);
            let t = index_at(locs, dest).unwrap();
            assert(0 <= t < locs.len() && coords_of(locs[t]) == dest) by {
                let w = choose|w: int| 0 <= w < locs.len() && coords_of(locs[w]) == dest
                    && forall|j: int| 0 <= j < w ==> coords_of(#[trigger] locs[j]) != dest;
            }
            assert(steps_fit(before.current));
            assert(dest != before.current);
            assert(t != k);
            lemma_index_of_distinct(self.locations@, t);
            assert(there(*self, direction) == there(before, direction));
        }
        self.travel(&args, has_character)
    }
}


/// How far a location lies from the start, in bands: within 5, within 10, within 15, or
/// further (distances compared through their squares).
pub open spec fn distance_band(l: Location) -> int {
    let d = l.x * l.x + l.y * l.y + l.z * l.z;
    if d <= 25 {
        0
    } else if d <= 100 {
        1
    } else if d <= 225 {
        2
    } else {
        3
    }
}

/// The weights of the ranks drawn in a band (see `rank_of_draw`): weak, normal and strong
/// near the start, then champion, elite and legendary join in the farther bands.
pub open spec fn band_weights(band: int) -> Seq<u32> {
    if band == 0 {
        seq![50u32, 40, 10]
    } else if band == 1 {
        seq![20u32, 30, 30, 20]
    } else if band == 2 {
        seq![10u32, 20, 30, 30, 10]
    } else {
        seq![10u32, 20, 20, 30, 20]
    }
}

/// The ranks an enemy's strength is drawn from, weakest first.
#[derive(Debug, Clone, Copy, PartialEq, Eq, Structural)]
pub enum DrawnRank {
    Weak,
    Normal,
    Strong,
    Champion,
    Elite,
    Legendary,
}

/// The `i`-th rank.
pub open spec fn rank_of_draw(i: int) -> DrawnRank {
    if i == 0 {
        DrawnRank::Weak
    } else if i == 1 {
        DrawnRank::Normal
    } else if i == 2 {
        DrawnRank::Strong
    } else if i == 3 {
        DrawnRank::Champion
    } else if i == 4 {
        DrawnRank::Elite
    } else {
        DrawnRank::Legendary
    }
}

/// The mob grade of a rank. Mob kinds come in four grades, weak, normal, strong and boss, so
/// champions, elites and legendaries are all bosses.
pub open spec fn grade_of_rank(r: DrawnRank) -> MobGrade {
    match r {
        DrawnRank::Weak => MobGrade::Weak,
        DrawnRank::Normal => MobGrade::Normal,
        DrawnRank::Strong => MobGrade::Strong,
        _ => MobGrade::Boss,
    }
}

impl DrawnRank {
    /// The mob grade of the rank (see `grade_of_rank`).
    pub fn grade(&self) -> (r: MobGrade)
        ensures
            r == grade_of_rank(*self),
    {
        match self {
            DrawnRank::Weak => MobGrade::Weak,
            DrawnRank::Normal => MobGrade::Normal,
            DrawnRank::Strong => MobGrade::Strong,
            _ => MobGrade::Boss,
        }
    }
}

/// The farther from the start, the higher the ranks that can be drawn: every rank of a band
/// can be drawn (its weight is positive), and a band at least as far can draw at least as
/// many ranks, so the highest rank possible never falls as the distance grows.
pub proof fn law_farther_reaches_higher(near: Location, far: Location)
    requires
        near.x * near.x + near.y * near.y + near.z * near.z <= far.x * far.x + far.y * far.y + far.z * far.z,
    ensures
        forall|i: int| 0 <= i < band_weights(distance_band(near)).len() ==> #[trigger] band_weights(distance_band(near))[i] > 0,
        band_weights(distance_band(near)).len() <= band_weights(distance_band(far)).len(),
{
}

/// The weights of the band of `l`.
fn weights_for(l: &Location) -> (r: Vec<u32>)
    requires
        l.x * l.x + l.y * l.y + l.z * l.z <= i32::MAX,
    ensures
        r@ == band_weights(distance_band(*l)),
{
    let x = l.x as i64;
    let y = l.y as i64;
    let z = l.z as i64;
    assert(x * x + y * y + z * z <= i32::MAX);
    assert(x * x >= 0 && y * y >= 0 && z * z >= 0) by (nonlinear_arith);
    let d: i64 = x * x + y * y + z * z;
    let r = if d <= 25 {
        vec![50u32, 40, 10]
    } else if d <= 100 {
        vec![20u32, 30, 30, 20]
    } else if d <= 225 {
        vec![10u32, 20, 30, 30, 10]
    } else {
        vec![10u32, 20, 20, 30, 20]
    };
    assert(r@ =~= band_weights(distance_band(*l)));
    r
}

/// The rank of an enemy at `l`: drawn with the weights of its distance band (see
/// `band_weights`), the further from the start, the stronger.
pub fn grade_at(l: &Location) -> (r: DrawnRank)
    requires
        l.x * l.x + l.y * l.y + l.z * l.z <= i32::MAX,
    ensures
        exists|i: int|
            0 <= i < band_weights(distance_band(*l)).len() && band_weights(distance_band(*l))[i] > 0
                && r == #[trigger] rank_of_draw(i),
{
    let weights = weights_for(l);
    proof {
        reveal_with_fuel(crate::random::weight_sum, 6);
    }
    let i = weighted_index(&weights);
    let r = if i == 0 {
        DrawnRank::Weak
    } else if i == 1 {
        DrawnRank::Normal
    } else if i == 2 {
        DrawnRank::Strong
    } else if i == 3 {
        DrawnRank::Champion
    } else if i == 4 {
        DrawnRank::Elite
    } else {
        DrawnRank::Legendary
    };
    assert(r == rank_of_draw(i as int));
    r
}

/// The mob kinds of a grade, in declaration order.
fn kinds_of(grade: MobGrade) -> (r: Vec<Mob>)
    ensures
        r@.len() > 0,
        forall|i: int| 0 <= i < r@.len() ==> (#[trigger] r@[i]).grade_of() == grade,
{
    let all = Mob::all();
    let mut r: Vec<Mob> = Vec::new();
    let mut i: usize = 0;
    while i < all.len()
        invariant
            i <= all@.len(),
            all@ == all_mobs(),
            forall|j: int| 0 <= j < r@.len() ==> (#[trigger] r@[j]).grade_of() == grade,
            r@.len() == 0 ==> forall|j: int| 0 <= j < i ==> (#[trigger] all_mobs()[j]).grade_of() != grade,
        decreases all@.len() - i,
    {
        if all[i].grade() == grade {
            r.push(all[i]);
        }
        i = i + 1;
    }
    proof {
        if r@.len() == 0 {
            match grade {
                MobGrade::Weak => assert(all_mobs()[0].grade_of() == grade),
                MobGrade::Normal => assert(all_mobs()[1].grade_of() == grade),
                MobGrade::Strong => assert(all_mobs()[2].grade_of() == grade),
                MobGrade::Boss => assert(all_mobs()[3].grade_of() == grade),
            }
        }
    }
    r
}

/// Whether an enemy appears at the place the character stands, and of which kind: the
/// enemy there, if any; else, with chance 85 in 100, a kind of the grade of the rank drawn
/// for the place (see `grade_at` and `grade_of_rank`), each kind of that grade equally likely.
pub fn mob_generation_algo(l: &Location) -> (r: Option<Mob>)
    requires
        l.x * l.x + l.y * l.y + l.z * l.z <= i32::MAX,
    ensures
        l.enemy matches Some(e) ==> r == Some(e.kind),
        l.enemy is None ==> (r matches Some(m) ==> exists|i: int|
            0 <= i < band_weights(distance_band(*l)).len() && band_weights(distance_band(*l))[i] > 0
                && m.grade_of() == grade_of_rank(#[trigger] rank_of_draw(i))),
{
    if let Some(e) = &l.enemy {
        return Some(e.kind);
    }
    if !random_ratio(85, 100) {
        return None;
    }
    let rank = grade_at(l);
    let grade = rank.grade();
    let kinds = kinds_of(grade);
    let pick = random_below(kinds.len() as u64) as usize;
    Some(kinds[pick])
}

} // verus!
