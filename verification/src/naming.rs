use vstd::prelude::*;
use vstd::string::StringExecFns;
use heck::ToSnakeCase;
use crate::classes::Classes;
use crate::skills::Skill;

verus! {

/// What `heck` makes of a text in snake case: its words, in lower case, joined by underscores.
pub uninterp spec fn snake_case(s: Seq<char>) -> Seq<char>;

/// Calls `heck::ToSnakeCase::to_snake_case`. The claim is only that its result depends on
/// the text alone: it is `snake_case(s@)`.
#[verifier::external_body]
fn to_snake_case(s: &str) -> (r: String)
    ensures
        r@ == snake_case(s@),
{
    s.to_snake_case()
}

/// How `Debug` shows a list of words: each quoted and escaped, in brackets, comma separated.
pub uninterp spec fn words_debug(words: Seq<Seq<char>>) -> Seq<char>;

/// The words of a slice, as sequences of characters.
pub open spec fn words_of(words: Seq<&str>) -> Seq<Seq<char>> {
    words.map_values(|w: &str| w@)
}

/// Formats `words` with `Debug`. The claim is only that the text depends on the words
/// alone: it is `words_debug` of them.
#[verifier::external_body]
pub(crate) fn debug_words(words: &[&str]) -> (r: String)
    ensures
        r@ == words_debug(words_of(words@)),
{
    format!("{:?}", words)
}

/// Every skill, in declaration order.
pub open spec fn all_skills() -> Seq<Skill> {
    seq![
        Skill::Tornado,
        Skill::MagicMissile,
        Skill::FireBall,
        Skill::WaterBall,
        Skill::PoisonFlask,
        Skill::Earthquake,
        Skill::RadiantIntellect,
        Skill::Slash,
        Skill::EarthShatter,
        Skill::SteelRain,
        Skill::Rapture,
        Skill::Backstab,
        Skill::HolySmite,
        Skill::DivineBlessing,
        Skill::SuicidalPersuasion,
        Skill::Seduction,
        Skill::Mesmerize,
        Skill::Excoriate,
        Skill::ArcaneNeedle,
        Skill::PrismaticFlourish,
        Skill::ShadowStrike,
        Skill::SolarFlareShot,
        Skill::FireDance,
        Skill::PowerStrike,
        Skill::EarthquakeSlam,
        Skill::IronFusillade,
        Skill::PrismaticHowl,
        Skill::MightyBlow,
        Skill::NebulaHammer,
        Skill::BruteForce,
    ]
}

/// Every class, in declaration order.
pub open spec fn all_classes() -> Seq<Classes> {
    seq![Classes::Warrior, Classes::Wizard, Classes::Sorcerer, Classes::Paladin]
}

/// The index of the first skill whose shown name, in snake case, is `word` in snake case.
pub open spec fn first_skill_named(word: Seq<char>, from: int) -> Option<int>
    decreases all_skills().len() - from,
{
    if from < 0 || from >= all_skills().len() {
        None
    } else if snake_case(all_skills()[from].label()) == snake_case(word) {
        Some(from)
    } else {
        first_skill_named(word, from + 1)
    }
}

/// The skill a word names: the first whose shown name, in snake case, is the word in snake
/// case.
pub open spec fn skill_named(word: Seq<char>) -> Option<Skill> {
    match first_skill_named(word, 0) {
        Some(i) => Some(all_skills()[i]),
        None => None,
    }
}

/// The index of the first class whose shown name, in snake case, is `word` in snake case.
pub open spec fn first_class_named(word: Seq<char>, from: int) -> Option<int>
    decreases all_classes().len() - from,
{
    if from < 0 || from >= all_classes().len() {
        None
    } else if snake_case(all_classes()[from].label()) == snake_case(word) {
        Some(from)
    } else {
        first_class_named(word, from + 1)
    }
}

/// The class a word names: the first whose shown name, in snake case, is the word in snake
/// case.
pub open spec fn class_named(word: Seq<char>) -> Option<Classes> {
    match first_class_named(word, 0) {
        Some(i) => Some(all_classes()[i]),
        None => None,
    }
}

/// The variant names of skills as `Debug` shows a list of them.
pub open spec fn skill_names_joined(v: Seq<Skill>) -> Seq<char>
    decreases v.len(),
{
    if v.len() == 0 {
        Seq::empty()
    } else if v.len() == 1 {
        v[0].variant_name()
    } else {
        skill_names_joined(v.drop_last()) + ", "@ + v.last().variant_name()
    }
}

/// A list of skills as `Debug` shows it.
pub open spec fn skills_debug(v: Seq<Skill>) -> Seq<char> {
    "["@ + skill_names_joined(v) + "]"@
}

impl Skill {
    /// The name of the variant, as `Debug` shows it.
    pub open spec fn variant_name(self) -> Seq<char> {
        match self {
            Skill::Tornado => "Tornado"@,
            Skill::MagicMissile => "MagicMissile"@,
            Skill::FireBall => "FireBall"@,
            Skill::WaterBall => "WaterBall"@,
            Skill::PoisonFlask => "PoisonFlask"@,
            Skill::Earthquake => "Earthquake"@,
            Skill::RadiantIntellect => "RadiantIntellect"@,
            Skill::Slash => "Slash"@,
            Skill::EarthShatter => "EarthShatter"@,
            Skill::SteelRain => "SteelRain"@,
            Skill::Rapture => "Rapture"@,
            Skill::Backstab => "Backstab"@,
            Skill::HolySmite => "HolySmite"@,
            Skill::DivineBlessing => "DivineBlessing"@,
            Skill::SuicidalPersuasion => "SuicidalPersuasion"@,
            Skill::Seduction => "Seduction"@,
            Skill::Mesmerize => "Mesmerize"@,
            Skill::Excoriate => "Excoriate"@,
            Skill::ArcaneNeedle => "ArcaneNeedle"@,
            Skill::PrismaticFlourish => "PrismaticFlourish"@,
            Skill::ShadowStrike => "ShadowStrike"@,
            Skill::SolarFlareShot => "SolarFlareShot"@,
            Skill::FireDance => "FireDance"@,
            Skill::PowerStrike => "PowerStrike"@,
            Skill::EarthquakeSlam => "EarthquakeSlam"@,
            Skill::IronFusillade => "IronFusillade"@,
            Skill::PrismaticHowl => "PrismaticHowl"@,
            Skill::MightyBlow => "MightyBlow"@,
            Skill::NebulaHammer => "NebulaHammer"@,
            Skill::BruteForce => "BruteForce"@,
        }
    }

    /// The name of the variant, as `Debug` shows it.
    pub fn variant_text(&self) -> (r: &'static str)
        ensures
            r@ == self.variant_name(),
    {
        match self {
            Skill::Tornado => "Tornado",
            Skill::MagicMissile => "MagicMissile",
            Skill::FireBall => "FireBall",
            Skill::WaterBall => "WaterBall",
            Skill::PoisonFlask => "PoisonFlask",
            Skill::Earthquake => "Earthquake",
            Skill::RadiantIntellect => "RadiantIntellect",
            Skill::Slash => "Slash",
            Skill::EarthShatter => "EarthShatter",
            Skill::SteelRain => "SteelRain",
            Skill::Rapture => "Rapture",
            Skill::Backstab => "Backstab",
            Skill::HolySmite => "HolySmite",
            Skill::DivineBlessing => "DivineBlessing",
            Skill::SuicidalPersuasion => "SuicidalPersuasion",
            Skill::Seduction => "Seduction",
            Skill::Mesmerize => "Mesmerize",
            Skill::Excoriate => "Excoriate",
            Skill::ArcaneNeedle => "ArcaneNeedle",
            Skill::PrismaticFlourish => "PrismaticFlourish",
            Skill::ShadowStrike => "ShadowStrike",
            Skill::SolarFlareShot => "SolarFlareShot",
            Skill::FireDance => "FireDance",
            Skill::PowerStrike => "PowerStrike",
            Skill::EarthquakeSlam => "EarthquakeSlam",
            Skill::IronFusillade => "IronFusillade",
            Skill::PrismaticHowl => "PrismaticHowl",
            Skill::MightyBlow => "MightyBlow",
            Skill::NebulaHammer => "NebulaHammer",
            Skill::BruteForce => "BruteForce",
        }
    }

    /// Every skill, in declaration order.
    pub fn all() -> (r: Vec<Skill>)
        ensures
            r@ == all_skills(),
    {
        let r = vec![
            Skill::Tornado,
            Skill::MagicMissile,
            Skill::FireBall,
            Skill::WaterBall,
            Skill::PoisonFlask,
            Skill::Earthquake,
            Skill::RadiantIntellect,
            Skill::Slash,
            Skill::EarthShatter,
            Skill::SteelRain,
            Skill::Rapture,
            Skill::Backstab,
            Skill::HolySmite,
            Skill::DivineBlessing,
            Skill::SuicidalPersuasion,
            Skill::Seduction,
            Skill::Mesmerize,
            Skill::Excoriate,
            Skill::ArcaneNeedle,
            Skill::PrismaticFlourish,
            Skill::ShadowStrike,
            Skill::SolarFlareShot,
            Skill::FireDance,
            Skill::PowerStrike,
            Skill::EarthquakeSlam,
            Skill::IronFusillade,
            Skill::PrismaticHowl,
            Skill::MightyBlow,
            Skill::NebulaHammer,
            Skill::BruteForce,
        ];
        assert(r@ =~= all_skills());
        r
    }

    /// The skill a word names (see `skill_named`); else an error naming the word.
    pub fn try_from(value: String) -> (r: Result<Skill, String>)
        ensures
            match skill_named(value@) {
                Some(s) => r == Ok::<Skill, String>(s),
                None => r matches Err(e) && e@ == "Unable to parse Skill from "@ + value@,
            },
    {
        let wanted = to_snake_case(value.as_str());
        let skills = Skill::all();
        let mut i: usize = 0;
        while i < skills.len()
            invariant
                skills@ == all_skills(),
                i <= skills@.len(),
                wanted@ == snake_case(value@),
                first_skill_named(value@, 0) == first_skill_named(value@, i as int),
            decreases skills@.len() - i,
        {
            let shown = skills[i].to_string();
            let name = to_snake_case(shown.as_str());
            if name == wanted {
                return Ok(skills[i]);
            }
            i = i + 1;
        }
        let mut e = "Unable to parse Skill from ".to_owned();
        e.append(value.as_str());
        Err(e)
    }
}

impl Classes {
    /// Every class, in declaration order.
    pub fn all() -> (r: Vec<Classes>)
        ensures
            r@ == all_classes(),
    {
        let r = vec![Classes::Warrior, Classes::Wizard, Classes::Sorcerer, Classes::Paladin];
        assert(r@ =~= all_classes());
        r
    }

    /// The class a word names (see `class_named`); else an error naming the word.
    pub fn try_from(value: String) -> (r: Result<Classes, String>)
        ensures
            match class_named(value@) {
                Some(c) => r == Ok::<Classes, String>(c),
                None => r matches Err(e) && e@ == "Unable to parse Classes from "@ + value@,
            },
    {
        let wanted = to_snake_case(value.as_str());
        let classes = Classes::all();
        let mut i: usize = 0;
        while i < classes.len()
            invariant
                classes@ == all_classes(),
                i <= classes@.len(),
                wanted@ == snake_case(value@),
                first_class_named(value@, 0) == first_class_named(value@, i as int),
            decreases classes@.len() - i,
        {
            let shown = classes[i].to_string();
            let name = to_snake_case(shown.as_str());
            if name == wanted {
                return Ok(classes[i]);
            }
            i = i + 1;
        }
        let mut e = "Unable to parse Classes from ".to_owned();
        e.append(value.as_str());
        Err(e)
    }
}

/// The text that lists skills as `Debug` shows them.
pub fn skills_to_string(v: &Vec<Skill>) -> (r: String)
    ensures
        r@ == skills_debug(v@),
{
    let mut joined = String::new();
    let mut i: usize = 0;
    while i < v.len()
        invariant
            i <= v@.len(),
            joined@ == skill_names_joined(v@.take(i as int)),
        decreases v@.len() - i,
    {
        proof {
            assert(v@.take(i + 1).drop_last() =~= v@.take(i as int));
        }
        if i > 0 {
            joined.append(", ");
        } else {
            assert(v@.take(1)[0] == v@[0]);
        }
        let name = v[i].variant_text();
        joined.append(name);
        i = i + 1;
    }
    proof {
        assert(v@.take(i as int) =~= v@);
    }
    let mut r = "[".to_owned();
    r.append(joined.as_str());
    r.append("]");
    r
}

} // verus!
