use vstd::prelude::*;
use vstd::string::StringExecFns;
use crate::classes::Classes;
use crate::naming::{all_classes, all_skills, class_named, debug_words, skill_named, skills_debug, skills_to_string, words_debug, words_of};
use crate::player::{attribute_text, attribute_to_string, character_wf, is_new_character, trait_inserted, Character};
use crate::skills::{Skill, SkillSet};
use crate::text::{decimal, unsigned_text};
use crate::traits::{trait_named, CharacterTraits};
use crate::units::{attribute_value, attributes_get, lowercase, to_lowercase};
use crate::world::{arrival_report, can_flee, fled, has_current, here, map_wf, message_texts, refusal, step_to, there, travel_target, Arrival, Coordinates, Location, Locations, Tone};
use crate::enemies::{Enemy, EnemyState};
use crate::constructed::template_name;
use crate::text::{signed_decimal, signed_text};

verus! {

/// What a change of character awaiting confirmation would undo: the class, name and
/// character before it. The map is not kept: nothing moves the character while a change
/// awaits its answer.
#[derive(Debug)]
pub struct Saved {
    pub class: Option<Classes>,
    pub name: Option<String>,
    pub character: Option<Character>,
}

/// An answer the game waits for: a confirmation of a change, or a hero's name.
#[derive(Debug)]
pub enum InputStates {
    Confirm(Box<Saved>),
    Name,
}

/// What the game is doing: nothing in particular, camping (with the ticks rested so far),
/// fighting, or waiting for an answer.
#[derive(Debug)]
pub enum State {
    Null,
    Camping(u64),
    Fighting,
    Input(InputStates),
}

/// A game in the terminal: the chosen class and name, the character, the map and what the
/// game is doing.
#[derive(Debug)]
pub struct GameState {
    pub class: Option<Classes>,
    pub name: Option<String>,
    pub character: Option<Character>,
    pub location: Locations,
    pub state: State,
}

/// The text of an optional name.
pub open spec fn name_view(n: Option<String>) -> Option<Seq<char>> {
    match n {
        Some(s) => Some(s@),
        None => None,
    }
}

/// One line per value, each in the same tone.
pub open spec fn lines_in(lines: Seq<Seq<char>>, tone: Tone) -> Seq<(Seq<char>, Tone)> {
    lines.map_values(|l: Seq<char>| (l, tone))
}

/// How a class is listed: its shown name.
pub open spec fn class_lines() -> Seq<Seq<char>> {
    all_classes().map_values(|c: Classes| c.label())
}

/// The messages that refuse a class and list the classes.
pub open spec fn invalid_class(args: Seq<&str>) -> Seq<(Seq<char>, Tone)> {
    seq![("Invalid class "@ + words_debug(words_of(args)) + " choose one of the following"@, Tone::Red)]
        + lines_in(class_lines(), Tone::Magenta)
}

/// The greeting of a hero.
pub open spec fn welcome(name: Seq<char>) -> Seq<char> {
    "Welcome to Carrion-Eris "@ + name
}

/// The warning that a new character replaces the one there is.
pub open spec fn confirm_text() -> Seq<char> {
    "This action will delete your current character please confirm ( yes / no )"@
}

/// The question for a hero's name.
pub open spec fn name_prompt() -> Seq<char> {
    "-- What is your hero's name? --"@
}

/// The words joined by single spaces.
pub open spec fn joined_words(words: Seq<Seq<char>>) -> Seq<char>
    decreases words.len(),
{
    if words.len() == 0 {
        Seq::empty()
    } else if words.len() == 1 {
        words[0]
    } else {
        joined_words(words.drop_last()) + " "@ + words.last()
    }
}

/// The lines that show a character: its level and class, one line per attribute, and its
/// traits where it has any.
pub open spec fn character_lines(c: Character) -> Seq<Seq<char>> {
    seq![
        "Level: "@ + decimal(c.level as nat),
        "Class: "@ + c.class.label(),
        attribute_text(c.attributes.strength),
        attribute_text(c.attributes.intelligence),
        attribute_text(c.attributes.dexterity),
        attribute_text(c.attributes.constitution),
        attribute_text(c.attributes.wisdom),
        attribute_text(c.attributes.charisma),
    ] + if c.traits@.len() == 0 {
        Seq::empty()
    } else {
        seq!["Traits: {"@ + trait_names_joined(c.traits@) + "}"@]
    }
}

/// The names of traits, separated by commas.
pub open spec fn trait_names_joined(v: Seq<CharacterTraits>) -> Seq<char>
    decreases v.len(),
{
    if v.len() == 0 {
        Seq::empty()
    } else if v.len() == 1 {
        v[0].label()
    } else {
        trait_names_joined(v.drop_last()) + ", "@ + v.last().label()
    }
}

/// The lines that show a skill set: the skill, its level and its experience.
pub open spec fn skill_set_lines(s: SkillSet) -> Seq<Seq<char>> {
    seq![
        "Skill: "@ + s.skill.label(),
        "Level: "@ + decimal(s.level as nat),
        "Experience: "@ + decimal(s.experience as nat),
    ]
}

/// Whether a character's attributes can take any trait without overflowing.
pub open spec fn trait_room(c: Character) -> bool {
    &&& attribute_value(c.attributes.strength) + 3 <= u32::MAX
    &&& attribute_value(c.attributes.intelligence) + 5 <= u32::MAX
    &&& attribute_value(c.attributes.dexterity) + 3 <= u32::MAX
    &&& attribute_value(c.attributes.constitution) + 3 <= u32::MAX
    &&& attribute_value(c.attributes.wisdom) + 3 <= u32::MAX
    &&& attribute_value(c.attributes.charisma) + 3 <= u32::MAX
}

/// Every trait, in declaration order.
pub open spec fn all_traits() -> Seq<CharacterTraits> {
    seq![
        CharacterTraits::FolkHero,
        CharacterTraits::Robust,
        CharacterTraits::Nimble,
        CharacterTraits::Genius,
        CharacterTraits::Lucky,
        CharacterTraits::Charismatic,
        CharacterTraits::Strong,
        CharacterTraits::Hermit,
        CharacterTraits::Addict,
        CharacterTraits::Cursed,
        CharacterTraits::Unlucky,
        CharacterTraits::Righteous,
        CharacterTraits::Greedy,
        CharacterTraits::Keen,
        CharacterTraits::Energetic,
    ]
}

/// The skills a character can use: in declaration order, those whose attribute it has above
/// seventeen.
pub open spec fn usable_skills(c: Character) -> Seq<Skill> {
    all_skills().filter(usable_by(c))
}

/// Whether a character has the attribute of a skill above seventeen.
pub open spec fn usable_by(c: Character) -> spec_fn(Skill) -> bool {
    |s: Skill| attributes_get(c.attributes, s.stat().unwrap()) > 17
}

/// The messages that refuse a skill and list those the character can use.
pub open spec fn invalid_skill(args: Seq<&str>, c: Character) -> Seq<(Seq<char>, Tone)> {
    seq![
        ("Invalid skill "@ + words_debug(words_of(args)) + " choose one of the following"@, Tone::Red),
        (skills_debug(usable_skills(c)), Tone::Red),
    ]
}

/// The messages of choosing a skill by the first argument: the skill it names where the
/// character can use it, or the refusal.
pub open spec fn skill_choice(c: Character, args: Seq<&str>) -> Result<(Seq<(Seq<char>, Tone)>, Skill), Seq<(Seq<char>, Tone)>> {
    match skill_named(args[0]@) {
        Some(s) => if usable_skills(c).contains(s) {
            Ok((seq![("Equipped "@ + s.label(), Tone::Green)], s))
        } else {
            Err(invalid_skill(args, c))
        },
        None => Err(invalid_skill(args, c)),
    }
}

/// The messages of a list of messages, as texts.
pub open spec fn texts_of(m: Result<(Vec<(String, Tone)>, Skill), Vec<(String, Tone)>>) -> Result<(Seq<(Seq<char>, Tone)>, Skill), Seq<(Seq<char>, Tone)>> {
    match m {
        Ok((v, s)) => Ok((message_texts(v@), s)),
        Err(v) => Err(message_texts(v@)),
    }
}

/// Adds one message per line, each in the same tone.
fn push_lines(msgs: &mut Vec<(String, Tone)>, lines: Vec<String>, tone: Tone)
    ensures
        message_texts(final(msgs)@) == message_texts(old(msgs)@) + lines_in(lines@.map_values(|l: String| l@), tone),
{
    let ghost start = message_texts(msgs@);
    let mut i: usize = 0;
    while i < lines.len()
        invariant
            i <= lines@.len(),
            message_texts(msgs@) == start + lines_in(lines@.take(i as int).map_values(|l: String| l@), tone),
        decreases lines@.len() - i,
    {
        let line = lines[i].clone();
        let ghost prev = msgs@;
        msgs.push((line, tone));
        proof {
            assert(msgs@ == prev.push((line, tone)));
            assert(message_texts(msgs@) =~= message_texts(prev).push((lines@[i as int]@, tone)));
            assert(lines@.take(i + 1).map_values(|l: String| l@) =~= lines@.take(i as int).map_values(|l: String| l@).push(lines@[i as int]@));
            assert(lines_in(lines@.take(i + 1).map_values(|l: String| l@), tone) =~= lines_in(lines@.take(i as int).map_values(|l: String| l@), tone).push((lines@[i as int]@, tone)));
        }
        i = i + 1;
    }
    proof {
        assert(lines@.take(i as int) =~= lines@);
    }
}

/// The shown names of the classes, one per line.
fn class_texts() -> (r: Vec<String>)
    ensures
        r@.map_values(|l: String| l@) == class_lines(),
{
    let r = vec![
        Classes::Warrior.to_string(),
        Classes::Wizard.to_string(),
        Classes::Sorcerer.to_string(),
        Classes::Paladin.to_string(),
    ];
    assert(r@.map_values(|l: String| l@) =~= class_lines());
    r
}

/// The names of the traits, one per line.
fn trait_texts() -> (r: Vec<String>)
    ensures
        r@.map_values(|l: String| l@) == all_traits().map_values(|t: CharacterTraits| t.label()),
{
    let traits = vec![
        CharacterTraits::FolkHero,
        CharacterTraits::Robust,
        CharacterTraits::Nimble,
        CharacterTraits::Genius,
        CharacterTraits::Lucky,
        CharacterTraits::Charismatic,
        CharacterTraits::Strong,
        CharacterTraits::Hermit,
        CharacterTraits::Addict,
        CharacterTraits::Cursed,
        CharacterTraits::Unlucky,
        CharacterTraits::Righteous,
        CharacterTraits::Greedy,
        CharacterTraits::Keen,
        CharacterTraits::Energetic,
    ];
    assert(traits@ =~= all_traits());
    let mut r: Vec<String> = Vec::new();
    let mut i: usize = 0;
    while i < traits.len()
        invariant
            i <= traits@.len(),
            traits@ == all_traits(),
            r@.map_values(|l: String| l@) == traits@.take(i as int).map_values(|t: CharacterTraits| t.label()),
        decreases traits@.len() - i,
    {
        let ghost prev = r@;
        let shown = traits[i].to_string();
        r.push(shown);
        proof {
            assert(r@ == prev.push(shown));
            assert(r@.map_values(|l: String| l@) =~= prev.map_values(|l: String| l@).push(shown@));
            assert(traits@.take(i + 1).map_values(|t: CharacterTraits| t.label()) =~= traits@.take(i as int).map_values(|t: CharacterTraits| t.label()).push(traits@[i as int].label()));
        }
        i = i + 1;
    }
    assert(traits@.take(i as int) =~= traits@);
    r
}

/// The messages that refuse a class and list the classes.
fn invalid_class_messages(args: &[&str]) -> (r: Vec<(String, Tone)>)
    ensures
        message_texts(r@) == invalid_class(args@),
{
    let mut first = "Invalid class ".to_owned();
    first.append(debug_words(args).as_str());
    first.append(" choose one of the following");
    let mut msgs = vec![(first, Tone::Red)];
    push_lines(&mut msgs, class_texts(), Tone::Magenta);
    msgs
}

/// The words joined by single spaces.
fn join_words(words: &[&str]) -> (r: String)
    ensures
        r@ == joined_words(words_of(words@)),
{
    let mut r = String::new();
    let mut i: usize = 0;
    while i < words.len()
        invariant
            i <= words@.len(),
            r@ == joined_words(words_of(words@.take(i as int))),
        decreases words@.len() - i,
    {
        proof {
            assert(words_of(words@.take(i + 1)).drop_last() =~= words_of(words@.take(i as int)));
        }
        if i > 0 {
            r.append(" ");
        }
        r.append(words[i]);
        i = i + 1;
    }
    proof {
        assert(words@.take(i as int) =~= words@);
    }
    r
}

/// A copy of an optional name.
fn copy_name(n: &Option<String>) -> (r: Option<String>)
    ensures
        name_view(r) == name_view(*n),
{
    match n {
        Some(s) => Some(s.clone()),
        None => None,
    }
}

/// Whether a text holds the letter `y`.
fn holds_y(s: &String) -> (r: bool)
    ensures
        r == s@.contains('y'),
{
    let chars = s.as_str();
    let n = chars.unicode_len();
    let mut i: usize = 0;
    while i < n
        invariant
            i <= n,
            n == s@.len(),
            chars@ == s@,
            forall|j: int| 0 <= j < i ==> s@[j] != 'y',
        decreases n - i,
    {
        if chars.get_char(i) == 'y' {
            return true;
        }
        i = i + 1;
    }
    false
}


/// The message that a character of class `c` begins at the first level.
pub open spec fn level_text(c: Classes) -> Seq<char> {
    "You are a level 1 "@ + c.label()
}

/// `after` is `before` after a character of class `c` was asked for with the arguments
/// `args`, with the messages `msgs`. A second argument names the hero. Without a name the
/// game asks for one; with one the character is made at once, and where there was a
/// character already, the game first keeps what it would undo and asks to confirm.
pub open spec fn created(
    before: GameState,
    after: GameState,
    c: Classes,
    args: Seq<&str>,
    msgs: Seq<(Seq<char>, Tone)>,
) -> bool {
    let name = if args.len() > 1 { Some(args[1]@) } else { name_view(before.name) };
    let had = before.character is Some;
    &&& after.class == Some(c)
    &&& name_view(after.name) == name
    &&& after.location == before.location
    &&& match name {
        None => {
            &&& after.state == State::Input(InputStates::Name)
            &&& after.character == before.character
            &&& msgs == (if had { seq![(confirm_text(), Tone::Red)] } else { seq![(level_text(c), Tone::Green)] })
                + seq![(name_prompt(), Tone::DarkGreen)]
        },
        Some(n) => {
            &&& after.character matches Some(ch) && is_new_character(ch, n, 1, c) && character_wf(ch)
            &&& if had {
                &&& after.state matches State::Input(InputStates::Confirm(saved)) && saved.class == before.class
                    && name_view(saved.name) == name && saved.character == before.character
                &&& msgs == seq![(confirm_text(), Tone::Red)]
            } else {
                &&& after.state == before.state
                &&& msgs == seq![(level_text(c), Tone::Green)] + if before.state is Null {
                    seq![(welcome(n), Tone::Green)]
                } else {
                    Seq::empty()
                }
            }
        },
    }
}

/// The class the first argument names, if any.
pub open spec fn class_argument(args: Seq<&str>) -> Option<Classes> {
    if args.len() > 0 {
        class_named(args[0]@)
    } else {
        None
    }
}

/// Creates a character of the class the first argument names (see `created`); refuses
/// anything else and lists the classes.
pub fn create(state: &mut GameState, args: &[&str]) -> (r: Vec<(String, Tone)>)
    ensures
        match class_argument(args@) {
            None => message_texts(r@) == invalid_class(args@) && *final(state) == *old(state),
            Some(c) => created(*old(state), *final(state), c, args@, message_texts(r@)),
        },
{
    if args.len() == 0 {
        return invalid_class_messages(args);
    }
    let word = args[0].to_owned();
    let class = match Classes::try_from(word) {
        Ok(c) => c,
        Err(_) => {
            return invalid_class_messages(args);
        },
    };
    if args.len() > 1 {
        state.name = Some(args[1].to_owned());
    }
    let had = state.character.is_some();
    let mut msgs: Vec<(String, Tone)> = Vec::new();
    let mut level = "You are a level 1 ".to_owned();
    level.append(class.to_string().as_str());
    match copy_name(&state.name) {
        None => {
            state.class = Some(class);
            state.state = State::Input(InputStates::Name);
            if had {
                msgs.push(("This action will delete your current character please confirm ( yes / no )".to_owned(), Tone::Red));
            } else {
                msgs.push((level, Tone::Green));
            }
            msgs.push(("-- What is your hero's name? --".to_owned(), Tone::DarkGreen));
        },
        Some(n) => {
            let mut greeting = "Welcome to Carrion-Eris ".to_owned();
            greeting.append(n.as_str());
            if had {
                let previous = Saved { class: state.class, name: copy_name(&state.name), character: state.character.take() };
                state.state = State::Input(InputStates::Confirm(Box::new(previous)));
                msgs.push(("This action will delete your current character please confirm ( yes / no )".to_owned(), Tone::Red));
            } else {
                msgs.push((level, Tone::Green));
            }
            state.class = Some(class);
            state.character = Some(Character::new(n, 1, class));
            if !had {
                if let State::Null = state.state {
                    msgs.push((greeting, Tone::Green));
                }
            }
        },
    }
    proof {
        assert(message_texts(msgs@) =~= match class_argument(args@) {
            Some(c) => {
                let name = if args@.len() > 1 { Some(args@[1]@) } else { name_view(old(state).name) };
                let had = old(state).character is Some;
                match name {
                    None => (if had { seq![(confirm_text(), Tone::Red)] } else { seq![(level_text(c), Tone::Green)] })
                        + seq![(name_prompt(), Tone::DarkGreen)],
                    Some(n) => if had {
                        seq![(confirm_text(), Tone::Red)]
                    } else {
                        seq![(level_text(c), Tone::Green)] + if old(state).state is Null {
                            seq![(welcome(n), Tone::Green)]
                        } else {
                            Seq::empty()
                        }
                    },
                }
            },
            None => Seq::empty(),
        });
    }
    msgs
}

/// Names the hero with the arguments joined by spaces, and greets it.
pub fn name(state: &mut GameState, args: &[&str]) -> (r: Vec<(String, Tone)>)
    ensures
        name_view(final(state).name) == Some(joined_words(words_of(args@))),
        final(state).class == old(state).class,
        final(state).character == old(state).character,
        final(state).location == old(state).location,
        final(state).state == old(state).state,
        message_texts(r@) == seq![(welcome(joined_words(words_of(args@))), Tone::Green)],
{
    let name = join_words(args);
    let mut greeting = "Welcome to Carrion-Eris ".to_owned();
    greeting.append(name.as_str());
    state.name = Some(name);
    let r = vec![(greeting, Tone::Green)];
    assert(message_texts(r@) =~= seq![(welcome(joined_words(words_of(args@))), Tone::Green)]);
    r
}

/// Whether an answer agrees: it holds a `y` in any case.
pub open spec fn agrees(answer: Seq<char>) -> bool {
    lowercase(answer).contains('y')
}

/// `after` is `before` after the answer `line` to what the game waited for (`input`), with
/// the messages `msgs`. A name makes the hero of the chosen class and greets it. A
/// confirmation that does not agree undoes the change ("Change aborted"); one that agrees
/// shows the new character. Either way the game then waits for nothing, on the same map.
pub open spec fn answered(input: InputStates, line: Seq<char>, before: GameState, after: GameState, msgs: Seq<(Seq<char>, Tone)>) -> bool {
    &&& after.location == before.location
    &&& after.state == State::Null
    &&& match input {
        InputStates::Name => {
            &&& name_view(after.name) == Some(line)
            &&& after.class == before.class
            &&& after.character matches Some(ch) && is_new_character(ch, line, 1, before.class.unwrap()) && character_wf(ch)
            &&& msgs == seq![(welcome(line), Tone::Green)]
        },
        InputStates::Confirm(saved) => if agrees(line) {
            &&& after.class == before.class
            &&& after.name == before.name
            &&& after.character == before.character
            &&& msgs == lines_in(character_lines(before.character.unwrap()), Tone::Magenta)
        } else {
            &&& after.class == saved.class
            &&& after.name == saved.name
            &&& after.character == saved.character
            &&& msgs == seq![("Change aborted"@, Tone::Red)]
        },
    }
}

/// Whether an answer agrees (see `agrees`).
pub fn agrees_text(answer: &String) -> (r: bool)
    ensures
        r == agrees(answer@),
{
    holds_y(&to_lowercase(answer.as_str()))
}

impl InputStates {
    /// Takes the answer the game waited for. A name makes the hero of the chosen class and
    /// greets it. A confirmation that does not agree undoes the change ("Change aborted");
    /// one that agrees shows the new character. Either way the game then waits for nothing.
    pub fn command(self, command: String, state: &mut GameState) -> (r: Vec<(String, Tone)>)
        requires
            self is Name ==> old(state).class is Some,
            self is Confirm && agrees(command@) ==> old(state).character is Some,
        ensures
            answered(self, command@, *old(state), *final(state), message_texts(r@)),
    {
        let ghost me = self;
        let mut msgs: Vec<(String, Tone)> = Vec::new();
        match self {
            InputStates::Name => {
                let class = state.class.unwrap();
                let mut greeting = "Welcome to Carrion-Eris ".to_owned();
                greeting.append(command.as_str());
                state.name = Some(command.clone());
                state.character = Some(Character::new(command, 1, class));
                msgs.push((greeting, Tone::Green));
                state.state = State::Null;
            },
            InputStates::Confirm(saved) => {
                let lower = to_lowercase(command.as_str());
                if !holds_y(&lower) {
                    let previous = *saved;
                    state.class = previous.class;
                    state.name = previous.name;
                    state.character = previous.character;
                    msgs.push(("Change aborted".to_owned(), Tone::Red));
                    state.state = State::Null;
                } else {
                    match &state.character {
                        Some(c) => {
                            push_lines(&mut msgs, c.display_for_cli(), Tone::Magenta);
                        },
                        None => {},
                    }
                    state.state = State::Null;
                }
            },
        }
        proof {
            if me is Confirm {
                if agrees(command@) {
                    assert(message_texts(msgs@) =~= lines_in(character_lines(old(state).character.unwrap()), Tone::Magenta));
                } else {
                    assert(message_texts(msgs@) =~= seq![("Change aborted"@, Tone::Red)]);
                }
            } else {
                assert(message_texts(msgs@) =~= seq![(welcome(command@), Tone::Green)]);
            }
        }
        msgs
    }
}

/// Takes the trait the first argument names, where the character has one waiting: it
/// reports whether the trait was new. Without arguments it lists the traits; without a
/// character it says nothing.
pub fn select_trait(state: &mut GameState, args: &[&str]) -> (r: Vec<(String, Tone)>)
    requires
        old(state).character matches Some(c) ==> character_wf(c) && trait_room(c),
    ensures
        match old(state).character {
            None => r@.len() == 0 && *final(state) == *old(state),
            Some(c) => if c.available_traits == 0 {
                message_texts(r@) == seq![("No trait points avaliable"@, Tone::Red)] && *final(state) == *old(state)
            } else if args@.len() == 0 {
                message_texts(r@) == lines_in(all_traits().map_values(|t: CharacterTraits| t.label()), Tone::Blue)
                    && *final(state) == *old(state)
            } else {
                match trait_named(lowercase(args@[0]@)) {
                    None => message_texts(r@) == seq![("Unable to parse character trait"@, Tone::Red)]
                        && *final(state) == *old(state),
                    Some(t) => {
                        let fresh = !c.traits@.contains(t);
                        &&& final(state).character matches Some(c2) && trait_inserted(c, c2, t, fresh) && character_wf(c2)
                        &&& final(state).class == old(state).class
                        &&& final(state).name == old(state).name
                        &&& final(state).location == old(state).location
                        &&& final(state).state == old(state).state
                        &&& message_texts(r@) == seq![
                            if fresh {
                                (t.label() + " Trait added"@, Tone::Green)
                            } else {
                                (t.label() + " Trait already chosen"@, Tone::Red)
                            },
                        ]
                    },
                }
            },
        },
{
    let mut msgs: Vec<(String, Tone)> = Vec::new();
    match &mut state.character {
        None => {},
        Some(c) => {
            if c.available_traits == 0 {
                msgs.push(("No trait points avaliable".to_owned(), Tone::Red));
            } else if args.len() == 0 {
                push_lines(&mut msgs, trait_texts(), Tone::Blue);
            } else {
                match CharacterTraits::try_from(args[0].to_owned()) {
                    Ok(t) => {
                        let mut text = t.to_string();
                        if c.insert_trait(t) {
                            text.append(" Trait added");
                            msgs.push((text, Tone::Green));
                        } else {
                            text.append(" Trait already chosen");
                            msgs.push((text, Tone::Red));
                        }
                    },
                    Err(_) => {
                        msgs.push(("Unable to parse character trait".to_owned(), Tone::Red));
                    },
                }
            }
        },
    }
    proof {
        if let Some(c) = old(state).character {
            if c.available_traits != 0 && args@.len() == 0 {
                assert(message_texts(msgs@) =~= lines_in(all_traits().map_values(|t: CharacterTraits| t.label()), Tone::Blue));
            }
        }
    }
    msgs
}

/// Whether the list holds the skill.
fn holds_skill(v: &Vec<Skill>, s: Skill) -> (r: bool)
    ensures
        r == v@.contains(s),
{
    let mut i: usize = 0;
    while i < v.len()
        invariant
            i <= v@.len(),
            forall|j: int| 0 <= j < i ==> v@[j] != s,
        decreases v@.len() - i,
    {
        if v[i] == s {
            assert(v@[i as int] == s);
            return true;
        }
        i = i + 1;
    }
    false
}

/// The messages that refuse a skill and list those the character can use.
fn invalid_skill_messages(args: &[&str], valid: &Vec<Skill>) -> (r: Vec<(String, Tone)>)
    ensures
        message_texts(r@) == seq![
            ("Invalid skill "@ + words_debug(words_of(args@)) + " choose one of the following"@, Tone::Red),
            (skills_debug(valid@), Tone::Red),
        ],
{
    let mut first = "Invalid skill ".to_owned();
    first.append(debug_words(args).as_str());
    first.append(" choose one of the following");
    let r = vec![(first, Tone::Red), (skills_to_string(valid), Tone::Red)];
    assert(message_texts(r@) =~= seq![
        ("Invalid skill "@ + words_debug(words_of(args@)) + " choose one of the following"@, Tone::Red),
        (skills_debug(valid@), Tone::Red),
    ]);
    r
}

/// Chooses the skill the first argument names, where the character can use it (see
/// `skill_choice`).
pub fn choose_skill(character: &Character, args: &[&str]) -> (r: Result<(Vec<(String, Tone)>, Skill), Vec<(String, Tone)>>)
    requires
        args@.len() >= 1,
    ensures
        texts_of(r) == skill_choice(*character, args@),
{
    let valid = character.skill_list();
    let skill = match Skill::try_from(args[0].to_owned()) {
        Ok(skill) => skill,
        Err(_) => {
            return Err(invalid_skill_messages(args, &valid));
        },
    };
    if !holds_skill(&valid, skill) {
        return Err(invalid_skill_messages(args, &valid));
    }
    let mut text = "Equipped ".to_owned();
    text.append(skill.to_string().as_str());
    let msgs = vec![(text, Tone::Green)];
    assert(message_texts(msgs@) =~= seq![("Equipped "@ + skill.label(), Tone::Green)]);
    Ok((msgs, skill))
}

/// A skill set of `s`, just learnt.
pub open spec fn fresh_skill_set(s: Skill) -> SkillSet {
    SkillSet { skill: s, experience: 0, active: true, level: 1 }
}

/// Without arguments, shows the character's skill; else changes to the skill the first
/// argument names, where the character can use it (see `skill_choice`).
pub fn change_skill(state: &mut GameState, args: &[&str]) -> (r: Vec<(String, Tone)>)
    requires
        old(state).character is Some,
    ensures
        ({
            let c = old(state).character.unwrap();
            if args@.len() == 0 {
                message_texts(r@) == lines_in(skill_set_lines(c.current_skill), Tone::White) && *final(state) == *old(state)
            } else {
                match skill_choice(c, args@) {
                    Ok((m, s)) => {
                        &&& message_texts(r@) == m
                        &&& final(state).character == Some(Character { current_skill: fresh_skill_set(s), ..c })
                        &&& final(state).class == old(state).class
                        &&& final(state).name == old(state).name
                        &&& final(state).location == old(state).location
                        &&& final(state).state == old(state).state
                    },
                    Err(m) => message_texts(r@) == m && *final(state) == *old(state),
                }
            }
        }),
{
    let mut msgs: Vec<(String, Tone)> = Vec::new();
    if args.len() == 0 {
        let lines = state.character.as_ref().unwrap().current_skill.display_for_cli();
        push_lines(&mut msgs, lines, Tone::White);
        return msgs;
    }
    match choose_skill(state.character.as_ref().unwrap(), args) {
        Ok((ok, skill)) => {
            match &mut state.character {
                Some(c) => {
                    c.current_skill = SkillSet::new(skill);
                },
                None => {},
            }
            ok
        },
        Err(e) => e,
    }
}

/// What a fight asks for next: nothing, the arrival after fleeing to be dealt with (an enemy
/// may appear in the open), the character's strike, or the enemy's.
#[derive(Debug, Clone, Copy, PartialEq, Eq, Structural)]
pub enum FightTurn {
    Over,
    Fled(Arrival),
    Strike,
    Counter,
}

/// What a fight needs: a map, and while fighting a character, an enemy where it stands and,
/// where the character is weak enough to flee, a way to flee by.
pub open spec fn fight_ready(s: GameState, flee_at: i32) -> bool {
    &&& map_wf(s.location)
    &&& has_current(s.location)
    &&& s.state is Fighting ==> {
        &&& s.character is Some
        &&& here(s.location).enemy is Some
        &&& s.character.unwrap().hp <= flee_at ==> can_flee(s.location, true)
    }
}

/// `after` is `before` after a fight command with the arguments `args`, where a character
/// with at most `flee_at` health flees; `msgs` are its messages and `turn` what comes next.
/// Doing nothing, the command starts a fight with the enemy in sight. Fighting, a single
/// argument first changes the skill (a refused skill ends the command); then the character
/// flees where it is weak enough, or is to strike.
pub open spec fn fought(
    before: GameState,
    after: GameState,
    args: Seq<&str>,
    flee_at: i32,
    msgs: Seq<(Seq<char>, Tone)>,
    turn: FightTurn,
) -> bool {
    match before.state {
        State::Null => match here(before.location).enemy {
            Some(e) => {
                &&& after == (GameState { state: State::Fighting, ..before })
                &&& msgs == seq![("You are fighting a "@ + e.kind.label(), Tone::Red)]
                &&& turn == FightTurn::Over
            },
            None => {
                &&& after == before
                &&& msgs == seq![("There is nothing to fight here"@, Tone::Red)]
                &&& turn == FightTurn::Over
            },
        },
        State::Fighting => {
            let c = before.character.unwrap();
            if args.len() == 1 && skill_choice(c, args) is Err {
                &&& after == before
                &&& skill_choice(c, args) == Err::<(Seq<(Seq<char>, Tone)>, Skill), Seq<(Seq<char>, Tone)>>(msgs)
                &&& turn == FightTurn::Over
            } else {
                let (pre, c1) = if args.len() == 1 {
                    let (m, s) = skill_choice(c, args)->Ok_0;
                    (m, Character { current_skill: fresh_skill_set(s), ..c })
                } else {
                    (Seq::empty(), c)
                };
                if c.hp <= flee_at {
                    let head = pre + seq![("You attempt to flee"@, Tone::Red)];
                    &&& after.character == Some(c1)
                    &&& after.class == before.class
                    &&& after.name == before.name
                    &&& after.state == State::Null
                    &&& msgs.take(head.len() as int) == head
                    &&& turn matches FightTurn::Fled(a) && fled(before.location, after.location, (msgs.skip(head.len() as int), a))
                } else {
                    &&& after == (GameState { character: Some(c1), ..before })
                    &&& msgs == pre
                    &&& turn == FightTurn::Strike
                }
            }
        },
        _ => {
            &&& after == before
            &&& msgs == seq![("You cannot fight right now"@, Tone::Red)]
            &&& turn == FightTurn::Over
        },
    }
}

/// The report of a strike: damage done and the skill it was done with.
pub open spec fn did_text(d: i32, s: Skill) -> Seq<char> {
    "You did "@ + signed_decimal(d as int) + " damage with "@ + s.label()
}

/// The messages when the enemy `e` was killed by the character `c`, which did `d` damage:
/// the kill, the experience, the gold and items where it had items, the damage done and the
/// character.
pub open spec fn kill_report(e: Enemy, c: Character, d: i32) -> Seq<(Seq<char>, Tone)> {
    seq![
        ("You have killed the "@ + e.kind.label(), Tone::Green),
        ("You have gained "@ + decimal(e.experience as nat) + " experience"@, Tone::Cyan),
    ] + (if e.items@.len() > 0 {
        seq![("You have gained "@ + decimal(e.gold as nat) + " gold"@, Tone::Yellow)]
            + lines_in(e.items@.map_values(|it: crate::constructed::ItemsWeHave| template_name(it)), Tone::DarkYellow)
    } else {
        Seq::empty()
    }) + seq![(did_text(d, c.current_skill.skill), Tone::Magenta)] + lines_in(character_lines(c), Tone::White)
}

/// The messages when the character was killed after doing `d` damage and taking `t`.
pub open spec fn death_report(d: i32, t: i32, s: Skill) -> Seq<(Seq<char>, Tone)> {
    seq![
        (did_text(d, s), Tone::Magenta),
        ("Enemy did "@ + signed_decimal(t as int) + " damage"@, Tone::Blue),
        ("You have been killed... better luck next time"@, Tone::DarkYellow),
        (Seq::empty(), Tone::White),
        ("Create a new character to continue your adventures"@, Tone::Blue),
    ]
}

/// The messages of a round both sides survived.
pub open spec fn round_report(d: i32, t: i32, s: Skill, e: Enemy, hp: i32) -> Seq<(Seq<char>, Tone)> {
    seq![
        (did_text(d, s), Tone::Magenta),
        ("Enemy did "@ + signed_decimal(t as int) + " damage"@, Tone::Blue),
        ("Enemy "@ + e.kind.label() + " has "@ + signed_decimal(e.health as int) + " health remaining"@, Tone::DarkBlue),
        ("You have "@ + signed_decimal(hp as int) + " health remaining"@, Tone::DarkMagenta),
    ]
}

/// Appends the second list of messages to the first.
fn push_all(msgs: &mut Vec<(String, Tone)>, more: Vec<(String, Tone)>)
    ensures
        message_texts(final(msgs)@) == message_texts(old(msgs)@) + message_texts(more@),
{
    let mut more = more;
    let ghost a = msgs@;
    let ghost b = more@;
    msgs.append(&mut more);
    assert(message_texts(msgs@) =~= message_texts(a) + message_texts(b));
}

/// A fight command (see `fought`). Where the character is to strike, the strike is done
/// outside, then `after_strike` goes on.
pub fn fight(state: &mut GameState, args: &[&str], flee_at: i32) -> (r: (Vec<(String, Tone)>, FightTurn))
    requires
        fight_ready(*old(state), flee_at),
    ensures
        fought(*old(state), *final(state), args@, flee_at, message_texts(r.0@), r.1),
{
    match &state.state {
        State::Null => {
            match state.location.enemy() {
                Some(e) => {
                    let mut text = "You are fighting a ".to_owned();
                    text.append(e.kind.to_string().as_str());
                    state.state = State::Fighting;
                    let r = vec![(text, Tone::Red)];
                    assert(message_texts(r@) =~= seq![("You are fighting a "@ + here(old(state).location).enemy.unwrap().kind.label(), Tone::Red)]);
                    return (r, FightTurn::Over);
                },
                None => {
                    let r = vec![("There is nothing to fight here".to_owned(), Tone::Red)];
                    assert(message_texts(r@) =~= seq![("There is nothing to fight here"@, Tone::Red)]);
                    return (r, FightTurn::Over);
                },
            }
        },
        State::Fighting => {},
        _ => {
            let r = vec![("You cannot fight right now".to_owned(), Tone::Red)];
            assert(message_texts(r@) =~= seq![("You cannot fight right now"@, Tone::Red)]);
            return (r, FightTurn::Over);
        },
    }
    let mut msgs: Vec<(String, Tone)> = Vec::new();
    if args.len() == 1 {
        match choose_skill(state.character.as_ref().unwrap(), args) {
            Ok((m, skill)) => {
                msgs = m;
                match &mut state.character {
                    Some(c) => {
                        c.current_skill = SkillSet::new(skill);
                    },
                    None => {},
                }
            },
            Err(m) => {
                return (m, FightTurn::Over);
            },
        }
    }
    proof {
        if args@.len() != 1 {
            assert(message_texts(msgs@) =~= Seq::<(Seq<char>, Tone)>::empty());
        }
    }
    let ghost pre = message_texts(msgs@);
    let hp = state.character.as_ref().unwrap().hp;
    if hp <= flee_at {
        msgs.push(("You attempt to flee".to_owned(), Tone::Red));
        let ghost head = message_texts(msgs@);
        assert(head =~= pre + seq![("You attempt to flee"@, Tone::Red)]);
        let (more, arrival) = state.location.flee(true);
        let ghost tail = message_texts(more@);
        push_all(&mut msgs, more);
        state.state = State::Null;
        assert(message_texts(msgs@).take(head.len() as int) =~= head);
        assert(message_texts(msgs@).skip(head.len() as int) =~= tail);
        return (msgs, FightTurn::Fled(arrival));
    }
    (msgs, FightTurn::Strike)
}

/// The lines naming what an enemy carried.
fn item_lines(e: &Enemy) -> (r: Vec<String>)
    ensures
        r@.map_values(|l: String| l@) == e.items@.map_values(|it: crate::constructed::ItemsWeHave| template_name(it)),
{
    let mut r: Vec<String> = Vec::new();
    let mut i: usize = 0;
    while i < e.items.len()
        invariant
            i <= e.items@.len(),
            r@.map_values(|l: String| l@) == e.items@.take(i as int).map_values(|it: crate::constructed::ItemsWeHave| template_name(it)),
        decreases e.items@.len() - i,
    {
        let ghost prev = r@;
        let name = e.items[i].generate().name;
        r.push(name);
        proof {
            assert(r@.map_values(|l: String| l@) =~= prev.map_values(|l: String| l@).push(name@));
            assert(e.items@.take(i + 1).map_values(|it: crate::constructed::ItemsWeHave| template_name(it))
                =~= e.items@.take(i as int).map_values(|it: crate::constructed::ItemsWeHave| template_name(it)).push(template_name(e.items@[i as int])));
        }
        i = i + 1;
    }
    assert(e.items@.take(i as int) =~= e.items@);
    r
}

/// What the messages of a strike by a skill are.
fn did_message(d: i32, s: Skill) -> (r: String)
    ensures
        r@ == did_text(d, s),
{
    let mut t = "You did ".to_owned();
    t.append(signed_text(d as i64).as_str());
    t.append(" damage with ");
    t.append(s.to_string().as_str());
    t
}

/// Goes on after the character struck for `damage_done`, with the messages so far. Where
/// the enemy died, the fight ends: the enemy leaves the map and the kill is reported (see
/// `kill_report`; the messages so far are dropped). Else the enemy is to strike back.
pub fn after_strike(state: &mut GameState, damage_done: i32, msgs: Vec<(String, Tone)>) -> (r: (Vec<(String, Tone)>, FightTurn))
    requires
        map_wf(old(state).location),
        has_current(old(state).location),
        old(state).character is Some,
        here(old(state).location).enemy is Some,
    ensures
        ({
            let e = here(old(state).location).enemy.unwrap();
            let c = old(state).character.unwrap();
            if e.state == EnemyState::Dead {
                let k = crate::world::index_at(old(state).location.locations@, old(state).location.current).unwrap();
                &&& final(state).location.locations@ == old(state).location.locations@.update(
                    k,
                    Location { enemy: None, ..here(old(state).location) },
                )
                &&& final(state).location.current == old(state).location.current
                &&& map_wf(final(state).location)
                &&& final(state).state == State::Null
                &&& final(state).character == old(state).character
                &&& final(state).class == old(state).class
                &&& final(state).name == old(state).name
                &&& message_texts(r.0@) == kill_report(e, c, damage_done)
                &&& r.1 == FightTurn::Over
            } else {
                &&& *final(state) == *old(state)
                &&& r.0@ == msgs@
                &&& r.1 == FightTurn::Counter
            }
        }),
{
    let (alive, report) = match state.location.enemy() {
        Some(e) => {
            if e.alive() {
                (true, Vec::new())
            } else {
                let c = state.character.as_ref().unwrap();
                let mut killed = "You have killed the ".to_owned();
                killed.append(e.kind.to_string().as_str());
                let mut gained = "You have gained ".to_owned();
                gained.append(unsigned_text(e.experience as u64).as_str());
                gained.append(" experience");
                let mut report = vec![(killed, Tone::Green), (gained, Tone::Cyan)];
                let ghost first = message_texts(report@);
                assert(first =~= seq![
                    ("You have killed the "@ + e.kind.label(), Tone::Green),
                    ("You have gained "@ + decimal(e.experience as nat) + " experience"@, Tone::Cyan),
                ]);
                let mut loot: Vec<(String, Tone)> = Vec::new();
                if e.items.len() > 0 {
                    let mut gold = "You have gained ".to_owned();
                    gold.append(unsigned_text(e.gold).as_str());
                    gold.append(" gold");
                    loot.push((gold, Tone::Yellow));
                    assert(message_texts(loot@) =~= seq![("You have gained "@ + decimal(e.gold as nat) + " gold"@, Tone::Yellow)]);
                    push_lines(&mut loot, item_lines(e), Tone::DarkYellow);
                } else {
                    assert(message_texts(loot@) =~= Seq::<(Seq<char>, Tone)>::empty());
                }
                push_all(&mut report, loot);
                let did = vec![(did_message(damage_done, c.current_skill.skill), Tone::Magenta)];
                assert(message_texts(did@) =~= seq![(did_text(damage_done, c.current_skill.skill), Tone::Magenta)]);
                push_all(&mut report, did);
                push_lines(&mut report, c.display_for_cli(), Tone::White);
                (false, report)
            }
        },
        None => (true, Vec::new()),
    };
    if alive {
        return (msgs, FightTurn::Counter);
    }
    assert(message_texts(report@) =~= kill_report(here(old(state).location).enemy.unwrap(), old(state).character.unwrap(), damage_done));
    state.state = State::Null;
    state.location.enemy_killed();
    (report, FightTurn::Over)
}

/// Ends a round after the enemy struck back for `damage_taken`, the character having done
/// `damage_done`, with the messages so far. A character without health is dead: it is gone,
/// the map is walked from its start again and the game waits (see `death_report`; the
/// messages so far are dropped). Else the fight goes on and the round is reported after the
/// messages so far (see `round_report`).
pub fn after_counter(state: &mut GameState, damage_done: i32, damage_taken: i32, msgs: Vec<(String, Tone)>) -> (r: Vec<(String, Tone)>)
    requires
        has_current(old(state).location),
        old(state).character is Some,
        here(old(state).location).enemy is Some,
    ensures
        ({
            let c = old(state).character.unwrap();
            if c.hp <= 0 {
                &&& final(state).character is None
                &&& final(state).location.current == (Coordinates { x: 1, y: 1, z: 1 })
                &&& final(state).location.locations == old(state).location.locations
                &&& final(state).state == State::Null
                &&& final(state).class == old(state).class
                &&& final(state).name == old(state).name
                &&& message_texts(r@) == death_report(damage_done, damage_taken, c.current_skill.skill)
            } else {
                &&& *final(state) == (GameState { state: State::Fighting, ..*old(state) })
                &&& message_texts(r@) == message_texts(msgs@) + round_report(
                    damage_done,
                    damage_taken,
                    c.current_skill.skill,
                    here(old(state).location).enemy.unwrap(),
                    c.hp,
                )
            }
        }),
{
    let c = state.character.as_ref().unwrap();
    let skill = c.current_skill.skill;
    let hp = c.hp;
    let mut taken = "Enemy did ".to_owned();
    taken.append(signed_text(damage_taken as i64).as_str());
    taken.append(" damage");
    if hp <= 0 {
        let r = vec![
            (did_message(damage_done, skill), Tone::Magenta),
            (taken, Tone::Blue),
            ("You have been killed... better luck next time".to_owned(), Tone::DarkYellow),
            (String::new(), Tone::White),
            ("Create a new character to continue your adventures".to_owned(), Tone::Blue),
        ];
        assert(message_texts(r@) =~= death_report(damage_done, damage_taken, skill));
        state.character = None;
        state.location.go_to_origin();
        state.state = State::Null;
        return r;
    }
    let e = state.location.enemy().unwrap();
    let mut left = "Enemy ".to_owned();
    left.append(e.kind.to_string().as_str());
    left.append(" has ");
    left.append(signed_text(e.health as i64).as_str());
    left.append(" health remaining");
    let mut yours = "You have ".to_owned();
    yours.append(signed_text(hp as i64).as_str());
    yours.append(" health remaining");
    let round = vec![
        (did_message(damage_done, skill), Tone::Magenta),
        (taken, Tone::Blue),
        (left, Tone::DarkBlue),
        (yours, Tone::DarkMagenta),
    ];
    assert(message_texts(round@) =~= round_report(damage_done, damage_taken, skill, here(old(state).location).enemy.unwrap(), hp));
    let mut msgs = msgs;
    push_all(&mut msgs, round);
    state.state = State::Fighting;
    msgs
}

/// How one call of `camp` changes the game, leaving the messages aside: doing nothing, the
/// game turns to camping at tick zero; camping below `total` ticks, one tick more; camping
/// `total` ticks or more, the character's health is restored and the game does nothing;
/// in any other state nothing changes.
pub open spec fn camp_step(before: GameState, after: GameState, total: u64) -> bool {
    &&& after.class == before.class
    &&& after.name == before.name
    &&& after.location == before.location
    &&& match before.state {
        State::Camping(x) => if x >= total {
            &&& before.character is Some ==> after.character == Some(
                Character { hp: before.character.unwrap().max_hp as i32, ..before.character.unwrap() },
            )
            &&& after.state == State::Null
        } else {
            &&& after.character == before.character
            &&& after.state == State::Camping((x + 1) as u64)
        },
        State::Null => after.character == before.character && after.state == State::Camping(0),
        _ => after == before,
    }
}

proof fn lemma_camp_ticks(runs: Seq<GameState>, total: u64, k: int)
    requires
        runs.len() == total + 3,
        runs[0].state == State::Null,
        forall|j: int| #![trigger runs[j]] 0 <= j < total + 2 ==> camp_step(runs[j], runs[j + 1], total),
        1 <= k <= total + 1,
    ensures
        runs[k].state == State::Camping((k - 1) as u64),
        runs[k].character == runs[0].character,
    decreases k,
{
    let p = runs[k - 1];
    assert(runs[(k - 1) + 1] == runs[k]);
    if k > 1 {
        lemma_camp_ticks(runs, total, k - 1);
    }
}

/// A night's camp ends: from doing nothing with a character, `total + 2` calls of `camp`
/// set up camp, rest tick after tick through `total`, and break camp, leaving the game
/// doing nothing and the character at full health.
pub proof fn law_camp_night_ends(runs: Seq<GameState>, total: u64)
    requires
        runs.len() == total + 3,
        runs[0].state == State::Null,
        runs[0].character is Some,
        forall|j: int| #![trigger runs[j]] 0 <= j < total + 2 ==> camp_step(runs[j], runs[j + 1], total),
    ensures
        forall|k: int| 1 <= k <= total + 1 ==> (#[trigger] runs[k]).state == State::Camping((k - 1) as u64),
        runs.last().state == State::Null,
        runs.last().character == Some(
            Character { hp: runs[0].character.unwrap().max_hp as i32, ..runs[0].character.unwrap() },
        ),
{
    assert forall|k: int| 1 <= k <= total + 1 implies (#[trigger] runs[k]).state == State::Camping((k - 1) as u64) by {
        lemma_camp_ticks(runs, total, k);
    }
    lemma_camp_ticks(runs, total, total + 1);
    let p = runs[total + 1];
    assert(runs[(total + 1) + 1] == runs[total + 2]);
}

/// Camps: doing nothing, the character sets up camp; camping, it rests one tick more, and
/// after `total_ticks` ticks breaks camp with its health restored. Returns the messages and,
/// while resting, the tick rested (whose share of the night is shown apart).
pub fn camp(state: &mut GameState, total_ticks: u64) -> (r: (Vec<(String, Tone)>, Option<u64>))
    requires
        old(state).state matches State::Camping(x) && x >= total_ticks ==> old(state).character is Some,
    ensures
        camp_step(*old(state), *final(state), total_ticks),
        final(state).class == old(state).class,
        final(state).name == old(state).name,
        final(state).location == old(state).location,
        match old(state).state {
            State::Camping(x) => if x >= total_ticks {
                let c = old(state).character.unwrap();
                &&& final(state).character == Some(Character { hp: c.max_hp as i32, ..c })
                &&& final(state).state == State::Null
                &&& message_texts(r.0@) == seq![("You break camp refreshed"@, Tone::Grey)]
                &&& r.1 is None
            } else {
                &&& final(state).character == old(state).character
                &&& final(state).state == State::Camping((x + 1) as u64)
                &&& r.0@.len() == 0
                &&& r.1 == Some(x)
            },
            State::Null => {
                &&& final(state).character == old(state).character
                &&& final(state).state == State::Camping(0)
                &&& message_texts(r.0@) == seq![("You setup camp for the night"@, Tone::Grey)]
                &&& r.1 is None
            },
            _ => *final(state) == *old(state) && r.0@.len() == 0 && r.1 is None,
        },
{
    let ticks = match &state.state {
        State::Camping(x) => *x,
        State::Null => {
            state.state = State::Camping(0);
            let r = vec![("You setup camp for the night".to_owned(), Tone::Grey)];
            assert(message_texts(r@) =~= seq![("You setup camp for the night"@, Tone::Grey)]);
            return (r, None);
        },
        _ => {
            return (Vec::new(), None);
        },
    };
    if ticks >= total_ticks {
        match &mut state.character {
            Some(c) => {
                c.hp = c.max_hp as i32;
            },
            None => {},
        }
        state.state = State::Null;
        let r = vec![("You break camp refreshed".to_owned(), Tone::Grey)];
        assert(message_texts(r@) =~= seq![("You break camp refreshed"@, Tone::Grey)]);
        return (r, None);
    }
    state.state = State::Camping(ticks + 1);
    (Vec::new(), Some(ticks))
}

/// The commands of the game while nothing in particular happens.
#[derive(Debug, Clone, Copy, PartialEq, Eq, Structural)]
pub enum CommandKind {
    Trait,
    Eq,
    Camp,
    Fight,
    AutoFight,
    Skill,
    Go,
    Create,
    Name,
    Travel,
    Help,
}

/// The commands of the game during a fight.
#[derive(Debug, Clone, Copy, PartialEq, Eq, Structural)]
pub enum BattleCommandKind {
    Attack,
    Cast,
    Use,
    Help,
    Auto,
}

/// The commands, in the order they are looked up and listed.
pub open spec fn all_commands() -> Seq<CommandKind> {
    seq![
        CommandKind::Trait,
        CommandKind::Eq,
        CommandKind::Camp,
        CommandKind::Fight,
        CommandKind::AutoFight,
        CommandKind::Skill,
        CommandKind::Go,
        CommandKind::Create,
        CommandKind::Name,
        CommandKind::Travel,
        CommandKind::Help,
    ]
}

/// The battle commands, in the order they are looked up and listed.
pub open spec fn all_battle_commands() -> Seq<BattleCommandKind> {
    seq![
        BattleCommandKind::Attack,
        BattleCommandKind::Cast,
        BattleCommandKind::Use,
        BattleCommandKind::Help,
        BattleCommandKind::Auto,
    ]
}

impl CommandKind {
    /// The word that calls the command.
    pub open spec fn word(self) -> Seq<char> {
        match self {
            CommandKind::Trait => "trait"@,
            CommandKind::Eq => "eq"@,
            CommandKind::Camp => "camp"@,
            CommandKind::Fight => "fight"@,
            CommandKind::AutoFight => "af"@,
            CommandKind::Skill => "skill"@,
            CommandKind::Go => "g"@,
            CommandKind::Create => "create"@,
            CommandKind::Name => "name"@,
            CommandKind::Travel => "travel"@,
            CommandKind::Help => "help"@,
        }
    }

    /// How the command is explained.
    pub open spec fn help(self) -> Seq<char> {
        match self {
            CommandKind::Trait => "Select a trait - usage ( trait [ name ] ) "@,
            CommandKind::Eq => "Display your equipment - usage ( eq )"@,
            CommandKind::Camp => "Spend some time camping to rest up - usage ( camp [ optional ( break ) ] ) "@,
            CommandKind::Fight => "Fight the enemy - usage ( fight )"@,
            CommandKind::AutoFight => "Auto Fight - usage ( af )"@,
            CommandKind::Skill => "Change your skill or display your current skill - usage ( skill [ optional ( skill ) ] )"@,
            CommandKind::Go => "Travel to a new location - usage ( g [ direction ] )"@,
            CommandKind::Create => "Create a new character - usage ( create [ class ] )"@,
            CommandKind::Name => "Rename your character - usage ( name [ name ] )"@,
            CommandKind::Travel => "Travel to a new location - usage ( travel [ direction ] )"@,
            CommandKind::Help => "Prints the help menu - usage ( help )"@,
        }
    }

    /// The word that calls the command.
    pub fn word_text(&self) -> (r: &'static str)
        ensures
            r@ == self.word(),
    {
        match self {
            CommandKind::Trait => "trait",
            CommandKind::Eq => "eq",
            CommandKind::Camp => "camp",
            CommandKind::Fight => "fight",
            CommandKind::AutoFight => "af",
            CommandKind::Skill => "skill",
            CommandKind::Go => "g",
            CommandKind::Create => "create",
            CommandKind::Name => "name",
            CommandKind::Travel => "travel",
            CommandKind::Help => "help",
        }
    }

    /// How the command is explained.
    pub fn help_text(&self) -> (r: &'static str)
        ensures
            r@ == self.help(),
    {
        match self {
            CommandKind::Trait => "Select a trait - usage ( trait [ name ] ) ",
            CommandKind::Eq => "Display your equipment - usage ( eq )",
            CommandKind::Camp => "Spend some time camping to rest up - usage ( camp [ optional ( break ) ] ) ",
            CommandKind::Fight => "Fight the enemy - usage ( fight )",
            CommandKind::AutoFight => "Auto Fight - usage ( af )",
            CommandKind::Skill => "Change your skill or display your current skill - usage ( skill [ optional ( skill ) ] )",
            CommandKind::Go => "Travel to a new location - usage ( g [ direction ] )",
            CommandKind::Create => "Create a new character - usage ( create [ class ] )",
            CommandKind::Name => "Rename your character - usage ( name [ name ] )",
            CommandKind::Travel => "Travel to a new location - usage ( travel [ direction ] )",
            CommandKind::Help => "Prints the help menu - usage ( help )",
        }
    }

    /// Every command, in the order they are looked up and listed.
    pub fn all() -> (r: Vec<CommandKind>)
        ensures
            r@ == all_commands(),
    {
        let r = vec![
            CommandKind::Trait,
            CommandKind::Eq,
            CommandKind::Camp,
            CommandKind::Fight,
            CommandKind::AutoFight,
            CommandKind::Skill,
            CommandKind::Go,
            CommandKind::Create,
            CommandKind::Name,
            CommandKind::Travel,
            CommandKind::Help,
        ];
        assert(r@ =~= all_commands());
        r
    }
}

impl BattleCommandKind {
    /// The word that calls the command.
    pub open spec fn word(self) -> Seq<char> {
        match self {
            BattleCommandKind::Attack => "attack"@,
            BattleCommandKind::Cast => "cast"@,
            BattleCommandKind::Use => "use"@,
            BattleCommandKind::Help => "help"@,
            BattleCommandKind::Auto => "auto"@,
        }
    }

    /// How the command is explained.
    pub open spec fn help(self) -> Seq<char> {
        match self {
            BattleCommandKind::Attack => "Attack the enemy - usage ( attack [ skill ] )"@,
            BattleCommandKind::Cast => "Cast a spell - usage ( cast [ spell ] )"@,
            BattleCommandKind::Use => "Use an item - usage ( item [ item ] )"@,
            BattleCommandKind::Help => "Prints the help menu - usage ( battle )"@,
            BattleCommandKind::Auto => "Auto battles"@,
        }
    }

    /// The word that calls the command.
    pub fn word_text(&self) -> (r: &'static str)
        ensures
            r@ == self.word(),
    {
        match self {
            BattleCommandKind::Attack => "attack",
            BattleCommandKind::Cast => "cast",
            BattleCommandKind::Use => "use",
            BattleCommandKind::Help => "help",
            BattleCommandKind::Auto => "auto",
        }
    }

    /// How the command is explained.
    pub fn help_text(&self) -> (r: &'static str)
        ensures
            r@ == self.help(),
    {
        match self {
            BattleCommandKind::Attack => "Attack the enemy - usage ( attack [ skill ] )",
            BattleCommandKind::Cast => "Cast a spell - usage ( cast [ spell ] )",
            BattleCommandKind::Use => "Use an item - usage ( item [ item ] )",
            BattleCommandKind::Help => "Prints the help menu - usage ( battle )",
            BattleCommandKind::Auto => "Auto battles",
        }
    }

    /// Every battle command, in the order they are looked up and listed.
    pub fn all() -> (r: Vec<BattleCommandKind>)
        ensures
            r@ == all_battle_commands(),
    {
        let r = vec![
            BattleCommandKind::Attack,
            BattleCommandKind::Cast,
            BattleCommandKind::Use,
            BattleCommandKind::Help,
            BattleCommandKind::Auto,
        ];
        assert(r@ =~= all_battle_commands());
        r
    }
}

/// The help of the commands, one line each.
pub open spec fn help_lines() -> Seq<(Seq<char>, Tone)> {
    all_commands().map_values(|c: CommandKind| (c.help(), Tone::DarkYellow))
}

/// The help of the battle commands, one line each.
pub open spec fn battle_help_lines() -> Seq<(Seq<char>, Tone)> {
    all_battle_commands().map_values(|c: BattleCommandKind| (c.help(), Tone::DarkYellow))
}

/// The help of every command.
pub fn help() -> (r: Vec<(String, Tone)>)
    ensures
        message_texts(r@) == help_lines(),
{
    let commands = CommandKind::all();
    let mut r: Vec<(String, Tone)> = Vec::new();
    let mut i: usize = 0;
    while i < commands.len()
        invariant
            i <= commands@.len(),
            commands@ == all_commands(),
            message_texts(r@) == all_commands().take(i as int).map_values(|c: CommandKind| (c.help(), Tone::DarkYellow)),
        decreases commands@.len() - i,
    {
        let ghost prev = message_texts(r@);
        r.push((commands[i].help_text().to_owned(), Tone::DarkYellow));
        proof {
            assert(message_texts(r@) =~= prev.push((commands@[i as int].help(), Tone::DarkYellow)));
            assert(all_commands().take(i + 1).map_values(|c: CommandKind| (c.help(), Tone::DarkYellow))
                =~= all_commands().take(i as int).map_values(|c: CommandKind| (c.help(), Tone::DarkYellow)).push((commands@[i as int].help(), Tone::DarkYellow)));
        }
        i = i + 1;
    }
    assert(all_commands().take(i as int) =~= all_commands());
    r
}

/// The help of every battle command.
pub fn battle_help() -> (r: Vec<(String, Tone)>)
    ensures
        message_texts(r@) == battle_help_lines(),
{
    let commands = BattleCommandKind::all();
    let mut r: Vec<(String, Tone)> = Vec::new();
    let mut i: usize = 0;
    while i < commands.len()
        invariant
            i <= commands@.len(),
            commands@ == all_battle_commands(),
            message_texts(r@) == all_battle_commands().take(i as int).map_values(|c: BattleCommandKind| (c.help(), Tone::DarkYellow)),
        decreases commands@.len() - i,
    {
        let ghost prev = message_texts(r@);
        r.push((commands[i].help_text().to_owned(), Tone::DarkYellow));
        proof {
            assert(message_texts(r@) =~= prev.push((commands@[i as int].help(), Tone::DarkYellow)));
            assert(all_battle_commands().take(i + 1).map_values(|c: BattleCommandKind| (c.help(), Tone::DarkYellow))
                =~= all_battle_commands().take(i as int).map_values(|c: BattleCommandKind| (c.help(), Tone::DarkYellow)).push((commands@[i as int].help(), Tone::DarkYellow)));
        }
        i = i + 1;
    }
    assert(all_battle_commands().take(i as int) =~= all_battle_commands());
    r
}

/// Whether a character is ASCII whitespace: a space, a tab, a line feed, a form feed or a
/// carriage return.
pub open spec fn ascii_space(c: char) -> bool {
    c == ' ' || c == '\t' || c == '\n' || c == '\x0C' || c == '\r'
}

/// The words of a text: its longest runs of characters that are not ASCII whitespace.
pub open spec fn words_in(s: Seq<char>) -> Seq<Seq<char>>
    decreases s.len(),
{
    if s.len() == 0 {
        Seq::empty()
    } else {
        let w = words_in(s.drop_last());
        let c = s.last();
        if ascii_space(c) {
            w
        } else if s.len() >= 2 && !ascii_space(s[s.len() - 2]) {
            w.drop_last().push(w.last().push(c))
        } else {
            w.push(seq![c])
        }
    }
}

/// The words of a line (see `words_in`).
pub fn split_words(line: &str) -> (r: Vec<String>)
    ensures
        r@.map_values(|w: String| w@) == words_in(line@),
{
    let n = line.unicode_len();
    let mut words: Vec<String> = Vec::new();
    let mut start: usize = 0;
    let mut inside = false;
    let mut i: usize = 0;
    while i < n
        invariant
            n == line@.len(),
            i <= n,
            start <= i,
            inside <==> (i > 0 && !ascii_space(line@[i - 1])),
            inside ==> start < i,
            words_in(line@.take(i as int)) == if inside {
                words@.map_values(|w: String| w@).push(line@.subrange(start as int, i as int))
            } else {
                words@.map_values(|w: String| w@)
            },
        decreases n - i,
    {
        let c = line.get_char(i);
        proof {
            assert(line@.take(i + 1).drop_last() =~= line@.take(i as int));
            assert(line@.take(i + 1).last() == c);
            if i > 0 {
                assert(line@.take(i + 1)[i - 1] == line@[i - 1]);
            }
        }
        if c == ' ' || c == '\t' || c == '\n' || c == '\x0C' || c == '\r' {
            if inside {
                let ghost before = words@.map_values(|w: String| w@);
                let word = line.substring_char(start, i).to_owned();
                words.push(word);
                assert(words@.map_values(|w: String| w@) =~= before.push(line@.subrange(start as int, i as int)));
                inside = false;
            }
        } else {
            if !inside {
                start = i;
                inside = true;
                assert(line@.subrange(start as int, i + 1) =~= seq![c]);
            } else {
                assert(line@.subrange(start as int, i + 1) =~= line@.subrange(start as int, i as int).push(c));
            }
        }
        i = i + 1;
    }
    if inside {
        let ghost before = words@.map_values(|w: String| w@);
        let word = line.substring_char(start, n).to_owned();
        words.push(word);
        assert(words@.map_values(|w: String| w@) =~= before.push(line@.subrange(start as int, n as int)));
    }
    assert(line@.take(n as int) =~= line@);
    words
}

/// The command a word calls, if any.
pub open spec fn command_named(w: Seq<char>) -> Option<CommandKind> {
    if w == "trait"@ {
        Some(CommandKind::Trait)
    } else if w == "eq"@ {
        Some(CommandKind::Eq)
    } else if w == "camp"@ {
        Some(CommandKind::Camp)
    } else if w == "fight"@ {
        Some(CommandKind::Fight)
    } else if w == "af"@ {
        Some(CommandKind::AutoFight)
    } else if w == "skill"@ {
        Some(CommandKind::Skill)
    } else if w == "g"@ {
        Some(CommandKind::Go)
    } else if w == "create"@ {
        Some(CommandKind::Create)
    } else if w == "name"@ {
        Some(CommandKind::Name)
    } else if w == "travel"@ {
        Some(CommandKind::Travel)
    } else if w == "help"@ {
        Some(CommandKind::Help)
    } else {
        None
    }
}

/// The battle command a word calls, if any.
pub open spec fn battle_command_named(w: Seq<char>) -> Option<BattleCommandKind> {
    if w == "attack"@ {
        Some(BattleCommandKind::Attack)
    } else if w == "cast"@ {
        Some(BattleCommandKind::Cast)
    } else if w == "use"@ {
        Some(BattleCommandKind::Use)
    } else if w == "help"@ {
        Some(BattleCommandKind::Help)
    } else if w == "auto"@ {
        Some(BattleCommandKind::Auto)
    } else {
        None
    }
}

/// What a line typed in the game asks for: nothing, an unknown command (with the messages
/// that say so), a command with its arguments, a battle command with its arguments, or the
/// answer the game waits for (the whole line).
#[derive(Debug)]
pub enum Parsed {
    Nothing,
    Unknown(Vec<(String, Tone)>),
    Run(CommandKind, Vec<String>),
    Battle(BattleCommandKind, Vec<String>),
    Answer,
}

/// The texts of a list of words.
pub open spec fn texts(v: Seq<String>) -> Seq<Seq<char>> {
    v.map_values(|w: String| w@)
}

/// The command a word calls.
fn find_command(w: &String) -> (r: Option<CommandKind>)
    ensures
        r == command_named(w@),
{
    let commands = CommandKind::all();
    let mut i: usize = 0;
    while i < commands.len()
        invariant
            i <= commands@.len(),
            commands@ == all_commands(),
            forall|j: int| 0 <= j < i ==> all_commands()[j].word() != w@,
        decreases commands@.len() - i,
    {
        let word = commands[i].word_text().to_owned();
        if *w == word {
            return Some(commands[i]);
        }
        i = i + 1;
    }
    proof {
        assert(all_commands()[0].word() != w@);
        assert(all_commands()[1].word() != w@);
        assert(all_commands()[2].word() != w@);
        assert(all_commands()[3].word() != w@);
        assert(all_commands()[4].word() != w@);
        assert(all_commands()[5].word() != w@);
        assert(all_commands()[6].word() != w@);
        assert(all_commands()[7].word() != w@);
        assert(all_commands()[8].word() != w@);
        assert(all_commands()[9].word() != w@);
        assert(all_commands()[10].word() != w@);
    }
    None
}

/// The battle command a word calls.
fn find_battle_command(w: &String) -> (r: Option<BattleCommandKind>)
    ensures
        r == battle_command_named(w@),
{
    let commands = BattleCommandKind::all();
    let mut i: usize = 0;
    while i < commands.len()
        invariant
            i <= commands@.len(),
            commands@ == all_battle_commands(),
            forall|j: int| 0 <= j < i ==> all_battle_commands()[j].word() != w@,
        decreases commands@.len() - i,
    {
        let word = commands[i].word_text().to_owned();
        if *w == word {
            return Some(commands[i]);
        }
        i = i + 1;
    }
    proof {
        assert(all_battle_commands()[0].word() != w@);
        assert(all_battle_commands()[1].word() != w@);
        assert(all_battle_commands()[2].word() != w@);
        assert(all_battle_commands()[3].word() != w@);
        assert(all_battle_commands()[4].word() != w@);
    }
    None
}

/// The message that a line is no command.
fn not_recognized(line: &str) -> (r: (String, Tone))
    ensures
        r.0@ == "Command not recognized "@ + line@,
        r.1 == Tone::Red,
{
    let mut t = "Command not recognized ".to_owned();
    t.append(line);
    (t, Tone::Red)
}

/// What a line asks for in the state the game is in. Doing nothing or fighting, the first
/// word calls a command of that state, the other words are its arguments; an unknown word is
/// answered with the help of that state. Waiting for an answer, the line is the answer; while
/// camping, lines are ignored, as is a line without words.
pub fn parse_command(state: &GameState, line: &str) -> (r: Parsed)
    ensures
        ({
            let ws = words_in(line@);
            match state.state {
                State::Null => if ws.len() == 0 {
                    r is Nothing
                } else {
                    match command_named(ws[0]) {
                        Some(k) => r matches Parsed::Run(k2, args) && k2 == k && texts(args@) == ws.skip(1),
                        None => r matches Parsed::Unknown(m) && message_texts(m@)
                            == seq![("Command not recognized "@ + line@, Tone::Red)] + help_lines(),
                    }
                },
                State::Fighting => if ws.len() == 0 {
                    r is Nothing
                } else {
                    match battle_command_named(ws[0]) {
                        Some(k) => r matches Parsed::Battle(k2, args) && k2 == k && texts(args@) == ws.skip(1),
                        None => r matches Parsed::Unknown(m) && message_texts(m@)
                            == seq![("Command not recognized "@ + line@, Tone::Red)] + battle_help_lines(),
                    }
                },
                State::Input(_) => r is Answer,
                State::Camping(_) => r is Nothing,
            }
        }),
{
    let fighting = match &state.state {
        State::Null => false,
        State::Fighting => true,
        State::Input(_) => {
            return Parsed::Answer;
        },
        State::Camping(_) => {
            return Parsed::Nothing;
        },
    };
    let mut words = split_words(line);
    if words.len() == 0 {
        return Parsed::Nothing;
    }
    let ghost all = texts(words@);
    let first = words.remove(0);
    assert(texts(words@) =~= all.skip(1));
    if !fighting {
        match find_command(&first) {
            Some(k) => Parsed::Run(k, words),
            None => {
                let mut m = vec![not_recognized(line)];
                assert(message_texts(m@) =~= seq![("Command not recognized "@ + line@, Tone::Red)]);
                push_all(&mut m, help());
                Parsed::Unknown(m)
            },
        }
    } else {
        match find_battle_command(&first) {
            Some(k) => Parsed::Battle(k, words),
            None => {
                let mut m = vec![not_recognized(line)];
                assert(message_texts(m@) =~= seq![("Command not recognized "@ + line@, Tone::Red)]);
                push_all(&mut m, battle_help());
                Parsed::Unknown(m)
            },
        }
    }
}

/// Why an automatic fight cannot start, if it cannot: it takes no arguments, and while doing
/// nothing (`af`) there must be an enemy here.
pub open spec fn auto_refusal(s: GameState, args: Seq<&str>, check_enemy: bool) -> Option<Seq<(Seq<char>, Tone)>> {
    if args.len() > 0 {
        Some(seq![("Auto Battle can not be used with a skill change"@, Tone::Red)])
    } else if check_enemy && here(s.location).enemy is None {
        Some(seq![("There is nothing to fight here"@, Tone::Red)])
    } else {
        None
    }
}

/// The refusal of an automatic fight (see `auto_refusal`); `check_enemy` is set for the
/// command given while doing nothing.
pub fn auto_refused(state: &GameState, args: &[&str], check_enemy: bool) -> (r: Option<Vec<(String, Tone)>>)
    requires
        has_current(state.location),
    ensures
        match auto_refusal(*state, args@, check_enemy) {
            Some(m) => r matches Some(v) && message_texts(v@) == m,
            None => r is None,
        },
{
    if args.len() > 0 {
        let v = vec![("Auto Battle can not be used with a skill change".to_owned(), Tone::Red)];
        assert(message_texts(v@) =~= seq![("Auto Battle can not be used with a skill change"@, Tone::Red)]);
        return Some(v);
    }
    if check_enemy && state.location.enemy().is_none() {
        let v = vec![("There is nothing to fight here".to_owned(), Tone::Red)];
        assert(message_texts(v@) =~= seq![("There is nothing to fight here"@, Tone::Red)]);
        return Some(v);
    }
    None
}

/// What the game does with a typed line: it is done, with these messages; or a command or a
/// battle command is to be run with its arguments, outside (it travels, fights, camps or
/// shows what needs the terminal).
#[derive(Debug)]
pub enum Step {
    Done(Vec<(String, Tone)>),
    Run(CommandKind, Vec<String>),
    Battle(BattleCommandKind, Vec<String>),
}

/// The words as slices of the strings that hold them.
fn borrowed(words: &Vec<String>) -> (r: Vec<&str>)
    ensures
        words_of(r@) == texts(words@),
{
    let mut r: Vec<&str> = Vec::new();
    let mut i: usize = 0;
    while i < words.len()
        invariant
            i <= words@.len(),
            words_of(r@) == texts(words@.take(i as int)),
        decreases words@.len() - i,
    {
        let ghost prev = r@;
        r.push(words[i].as_str());
        proof {
            assert(words_of(r@) =~= words_of(prev).push(words@[i as int]@));
            assert(texts(words@.take(i + 1)) =~= texts(words@.take(i as int)).push(words@[i as int]@));
        }
        i = i + 1;
    }
    assert(words@.take(i as int) =~= words@);
    r
}

impl GameState {
    /// A game on a map, before anything was chosen.
    pub fn new(location: Locations) -> (r: GameState)
        ensures
            r.class is None,
            r.name is None,
            r.character is None,
            r.location == location,
            r.state == State::Null,
    {
        GameState { class: None, name: None, character: None, location, state: State::Null }
    }

    /// Takes a typed line (see `parse_command`). An answer the game waited for is taken at
    /// once (see `InputStates::command`), as are `create`, `name` and `help`, and the refusal
    /// of an unknown command; any other command is to be run outside.
    pub fn command(&mut self, line: String) -> (r: Step)
        requires
            old(self).state matches State::Input(i) ==> (i is Name ==> old(self).class is Some)
                && (i is Confirm && agrees(line@) ==> old(self).character is Some),
        ensures
            ({
                let ws = words_in(line@);
                match old(self).state {
                    State::Input(_) => r is Done && final(self).state == State::Null,
                    State::Camping(_) => r matches Step::Done(m) && m@.len() == 0 && *final(self) == *old(self),
                    State::Null => if ws.len() == 0 {
                        r matches Step::Done(m) && m@.len() == 0 && *final(self) == *old(self)
                    } else {
                        match command_named(ws[0]) {
                            Some(CommandKind::Create) => r matches Step::Done(m) && match class_named_in(ws.skip(1)) {
                                None => message_texts(m@) == invalid_class_words(ws.skip(1)) && *final(self) == *old(self),
                                Some(c) => created_by_words(*old(self), *final(self), c, ws.skip(1), message_texts(m@)),
                            },
                            Some(CommandKind::Name) => r matches Step::Done(m)
                                && name_view(final(self).name) == Some(joined_words(ws.skip(1)))
                                && *final(self) == (GameState { name: final(self).name, ..*old(self) })
                                && message_texts(m@) == seq![(welcome(joined_words(ws.skip(1))), Tone::Green)],
                            Some(CommandKind::Help) => r matches Step::Done(m) && message_texts(m@) == help_lines()
                                && *final(self) == *old(self),
                            Some(k) => r matches Step::Run(k2, args) && k2 == k && texts(args@) == ws.skip(1)
                                && *final(self) == *old(self),
                            None => r matches Step::Done(m) && message_texts(m@)
                                == seq![("Command not recognized "@ + line@, Tone::Red)] + help_lines()
                                && *final(self) == *old(self),
                        }
                    },
                    State::Fighting => if ws.len() == 0 {
                        r matches Step::Done(m) && m@.len() == 0 && *final(self) == *old(self)
                    } else {
                        match battle_command_named(ws[0]) {
                            Some(BattleCommandKind::Help) => r matches Step::Done(m) && message_texts(m@) == battle_help_lines()
                                && *final(self) == *old(self),
                            Some(k) => r matches Step::Battle(k2, args) && k2 == k && texts(args@) == ws.skip(1)
                                && *final(self) == *old(self),
                            None => r matches Step::Done(m) && message_texts(m@)
                                == seq![("Command not recognized "@ + line@, Tone::Red)] + battle_help_lines()
                                && *final(self) == *old(self),
                        }
                    },
                }
            }),
    {
        match parse_command(self, line.as_str()) {
            Parsed::Nothing => Step::Done(Vec::new()),
            Parsed::Unknown(m) => Step::Done(m),
            Parsed::Answer => {
                let mut waiting = State::Null;
                std::mem::swap(&mut waiting, &mut self.state);
                match waiting {
                    State::Input(input) => Step::Done(input.command(line, self)),
                    _ => Step::Done(Vec::new()),
                }
            },
            Parsed::Run(kind, words) => {
                let args = borrowed(&words);
                match kind {
                    CommandKind::Create => Step::Done(create(self, args.as_slice())),
                    CommandKind::Name => Step::Done(name(self, args.as_slice())),
                    CommandKind::Help => Step::Done(help()),
                    _ => Step::Run(kind, words),
                }
            },
            Parsed::Battle(kind, words) => match kind {
                BattleCommandKind::Help => Step::Done(battle_help()),
                _ => Step::Battle(kind, words),
            },
        }
    }
}

/// The class the first of `words` names, if any.
pub open spec fn class_named_in(words: Seq<Seq<char>>) -> Option<Classes> {
    if words.len() > 0 {
        class_named(words[0])
    } else {
        None
    }
}

/// The messages that refuse a class given by words, and list the classes.
pub open spec fn invalid_class_words(words: Seq<Seq<char>>) -> Seq<(Seq<char>, Tone)> {
    seq![("Invalid class "@ + words_debug(words) + " choose one of the following"@, Tone::Red)]
        + lines_in(class_lines(), Tone::Magenta)
}

/// `created`, with the arguments given as words.
pub open spec fn created_by_words(
    before: GameState,
    after: GameState,
    c: Classes,
    words: Seq<Seq<char>>,
    msgs: Seq<(Seq<char>, Tone)>,
) -> bool {
    exists|args: Seq<&str>| words_of(args) == words && #[trigger] created(before, after, c, args, msgs)
}

/// Making a new character over one there is, and then not agreeing, brings back the class
/// and the character from before and the map; the name stays the one the change gave (a
/// second argument, or the name from before), and the game waits for nothing.
pub proof fn law_aborted_change_restores(
    s0: GameState,
    s1: GameState,
    c: Classes,
    args: Seq<&str>,
    m1: Seq<(Seq<char>, Tone)>,
    line: Seq<char>,
    s2: GameState,
    m2: Seq<(Seq<char>, Tone)>,
)
    requires
        s0.character is Some,
        created(s0, s1, c, args, m1),
        s1.state matches State::Input(i) && answered(i, line, s1, s2, m2),
        !agrees(line),
        args.len() > 1 || s0.name is Some,
    ensures
        s2.class == s0.class,
        s2.character == s0.character,
        s2.location == s0.location,
        name_view(s2.name) == (if args.len() > 1 { Some(args[1]@) } else { name_view(s0.name) }),
        s2.state == State::Null,
        m2 == seq![("Change aborted"@, Tone::Red)],
{
}

impl Character {
    /// The skills the character can use: in declaration order, those whose attribute it has
    /// above seventeen.
    pub fn skill_list(&self) -> (r: Vec<Skill>)
        ensures
            r@ == usable_skills(*self),
    {
        let skills = Skill::all();
        let mut r: Vec<Skill> = Vec::new();
        let mut i: usize = 0;
        while i < skills.len()
            invariant
                i <= skills@.len(),
                skills@ == all_skills(),
                r@ == all_skills().take(i as int).filter(usable_by(*self)),
            decreases skills@.len() - i,
        {
            let skill = skills[i];
            proof {
                assert(all_skills().take(i + 1) =~= all_skills().take(i as int).push(skill));
                all_skills().take(i as int).lemma_filter_push(skill, usable_by(*self));
            }
            let attribute = skill.attribute_scaling().unwrap();
            if self.attributes.get(&attribute) > 17 {
                r.push(skill);
            }
            i = i + 1;
        }
        proof {
            assert(all_skills().take(i as int) =~= all_skills());
        }
        r
    }

    /// The lines that show the character (see `character_lines`).
    pub fn display_for_cli(&self) -> (r: Vec<String>)
        ensures
            r@.map_values(|l: String| l@) == character_lines(*self),
    {
        let mut level = "Level: ".to_owned();
        level.append(unsigned_text(self.level as u64).as_str());
        let mut class = "Class: ".to_owned();
        class.append(self.class.to_string().as_str());
        let mut lines = vec![
            level,
            class,
            attribute_to_string(&self.attributes.strength),
            attribute_to_string(&self.attributes.intelligence),
            attribute_to_string(&self.attributes.dexterity),
            attribute_to_string(&self.attributes.constitution),
            attribute_to_string(&self.attributes.wisdom),
            attribute_to_string(&self.attributes.charisma),
        ];
        if self.traits.len() > 0 {
            let mut joined = String::new();
            let mut i: usize = 0;
            while i < self.traits.len()
                invariant
                    i <= self.traits@.len(),
                    joined@ == trait_names_joined(self.traits@.take(i as int)),
                decreases self.traits@.len() - i,
            {
                proof {
                    assert(self.traits@.take(i + 1).drop_last() =~= self.traits@.take(i as int));
                }
                if i > 0 {
                    joined.append(", ");
                } else {
                    assert(self.traits@.take(1)[0] == self.traits@[0]);
                }
                joined.append(self.traits[i].to_string().as_str());
                i = i + 1;
            }
            proof {
                assert(self.traits@.take(i as int) =~= self.traits@);
            }
            let mut traits = "Traits: {".to_owned();
            traits.append(joined.as_str());
            traits.append("}");
            lines.push(traits);
        }
        assert(lines@.map_values(|l: String| l@) =~= character_lines(*self));
        lines
    }
}

impl SkillSet {
    /// The lines that show the skill set (see `skill_set_lines`).
    pub fn display_for_cli(&self) -> (r: Vec<String>)
        ensures
            r@.map_values(|l: String| l@) == skill_set_lines(*self),
    {
        let mut skill = "Skill: ".to_owned();
        skill.append(self.skill.to_string().as_str());
        let mut level = "Level: ".to_owned();
        level.append(unsigned_text(self.level as u64).as_str());
        let mut experience = "Experience: ".to_owned();
        experience.append(unsigned_text(self.experience).as_str());
        let lines = vec![skill, level, experience];
        assert(lines@.map_values(|l: String| l@) =~= skill_set_lines(*self));
        lines
    }
}


/// A journey of the game in the direction the first argument names (see `Locations::travel`):
/// the map and the messages are those of the journey, and where the locals of a place visited
/// before ambush the character the game turns to the fight; nothing else changes.
pub fn travel(state: &mut GameState, args: &[&str]) -> (r: (Vec<(String, Tone)>, Arrival))
    requires
        has_current(old(state).location),
        map_wf(old(state).location),
        travel_target(old(state).location, args@) matches Some(d) ==> old(state).character is Some
            || there(old(state).location, d).enemy is None || there(old(state).location, d).tagged,
    ensures
        map_wf(final(state).location),
        has_current(final(state).location),
        final(state).location.locations == old(state).location.locations,
        match travel_target(old(state).location, args@) {
            None => final(state).location.current == old(state).location.current
                && message_texts(r.0@) == refusal(here(old(state).location)) && r.1 == Arrival::Refused,
            Some(d) => final(state).location.current == step_to(old(state).location.current, d)
                && here(final(state).location) == there(old(state).location, d)
                && (message_texts(r.0@), r.1) == arrival_report(here(final(state).location)),
        },
        final(state).state == if r.1 == Arrival::Ambushed { State::Fighting } else { old(state).state },
        final(state).class == old(state).class,
        final(state).name == old(state).name,
        final(state).character == old(state).character,
{
    let has_character = state.character.is_some();
    let r = state.location.travel(args, has_character);
    if let Arrival::Ambushed = r.1 {
        state.state = State::Fighting;
    }
    r
}

} // verus!
