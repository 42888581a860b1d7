use vstd::prelude::*;
use std::fmt::Debug;
use std::hash::Hash;
use vstd::std_specs::cmp::PartialEqSpec;

verus! {

/// What can go wrong while driving a game state machine.
#[derive(Debug)]
pub enum GameError {
    InvalidClass(String),
    StateNotFound(String),
    StateMachineNotInitialized,
    StateMachineAlreadyInitialized,
    NoCharacter,
    NoEnemy,
    NoBattleInfo,
}

/// The error that the state machine hands to its callers.
#[derive(Debug)]
pub struct PublicGameError(GameError);

impl PublicGameError {
    /// The error this value carries.
    pub closed spec fn error(&self) -> GameError {
        self.0
    }

    pub fn new(e: GameError) -> (r: Self)
        ensures
            r.error() == e,
    {
        Self(e)
    }

    pub fn kind(&self) -> (r: &GameError)
        ensures
            *r == self.error(),
    {
        &self.0
    }
}

/// What a state or the global handler asks the machine to do next.
#[derive(Debug, PartialEq, Eq)]
pub enum Response<S> {
    Transition(S),
    Ignore,
}

/// Behaviour of one state; implemented by users of the machine.
pub trait Stateful<S, CTX, E> {
    fn on_enter(&mut self, context: &mut CTX) -> Response<S>;

    fn on_event(&mut self, event: &E, context: &mut CTX) -> Response<S>;

    fn on_exit(&mut self, context: &mut CTX);
}

/// Builds the behaviour object of a state key; implemented by the state key type.
pub trait FsmEnum<S, CTX, E> {
    /// The behaviour object type of the states.
    type State: Stateful<S, CTX, E>;

    fn create(value: &S) -> Self::State;
}

/// A handler that sees every event before the current state does.
pub trait EventHandler<S, CTX, E> {
    fn on_event(&self, event: &E, ctx: &mut CTX) -> Response<S>;
}

/// Equality of state keys as the key type's `==` decides it.
pub open spec fn same_state<S: PartialEq>(a: S, b: S) -> bool {
    a.eq_spec(&b)
}

/// The state that entering a state leads to while the machine initialises:
/// every `Transition` is followed, `Ignore` stops.
pub fn init_enter_outcome<S>(response: Response<S>) -> (next: Option<S>)
    ensures
        match response {
            Response::Transition(s) => next == Some(s),
            Response::Ignore => next is None,
        },
{
    match response {
        Response::Transition(s) => Some(s),
        Response::Ignore => None,
    }
}

/// The state that entering `current` leads to after a transition:
/// a `Transition` to a different state is followed, a `Transition` to
/// `current` itself and `Ignore` stop.
pub fn transition_enter_outcome<S: PartialEq>(current: &S, response: Response<S>) -> (next: Option<S>)
    ensures
        S::obeys_eq_spec() ==> match response {
            Response::Transition(s) => if same_state(s, *current) {
                next is None
            } else {
                next == Some(s)
            },
            Response::Ignore => next is None,
        },
        next matches Some(n) ==> response == Response::Transition(n),
{
    match response {
        Response::Transition(s) => {
            if s == *current {
                None
            } else {
                Some(s)
            }
        },
        Response::Ignore => None,
    }
}

/// What the global handler's answer means for the current state: a `Transition`
/// to a different state is taken at once, anything else lets the current state
/// see the event.
pub fn handler_outcome<S: PartialEq>(current: &S, response: Response<S>) -> (next: Option<S>)
    ensures
        S::obeys_eq_spec() ==> match response {
            Response::Transition(s) => if same_state(s, *current) {
                next is None
            } else {
                next == Some(s)
            },
            Response::Ignore => next is None,
        },
        next matches Some(n) ==> response == Response::Transition(n),
{
    transition_enter_outcome(current, response)
}

/// A finite state machine over state keys `S`, a shared context `CTX` and events `E`.
/// The behaviour object of each state is created on first use and kept.
#[verifier::reject_recursive_types(S)]
#[verifier::reject_recursive_types(CTX)]
#[verifier::reject_recursive_types(E)]
pub struct StateMachine<S, CTX, E> where
    S: Hash + PartialEq + Eq + Clone + FsmEnum<S, CTX, E>,
    E: Debug,
 {
    current_state: Option<S>,
    keys: Vec<S>,
    states: Vec<<S as FsmEnum<S, CTX, E>>::State>,
    context: CTX,
    handler: Option<Box<dyn EventHandler<S, CTX, E>>>,
}

impl<S, CTX, E> StateMachine<S, CTX, E> where
    S: Hash + PartialEq + Eq + Clone + FsmEnum<S, CTX, E>,
    E: Debug,
    CTX: Debug,
 {
    /// The state the machine is in, if it has been initialised.
    pub closed spec fn current(&self) -> Option<S> {
        self.current_state
    }

    /// The state keys whose behaviour objects have been created, in order of creation.
    pub closed spec fn known_states(&self) -> Seq<S> {
        self.keys@
    }

    /// The shared context.
    pub closed spec fn context(&self) -> CTX {
        self.context
    }

    /// Whether a global event handler is installed.
    pub closed spec fn has_handler(&self) -> bool {
        self.handler is Some
    }

    /// How one call moves the current state from `self` to `after`: an initialising call
    /// (`init`) gives a machine without one a current state and leaves a started machine as
    /// it is; any other call keeps a machine started or not started.
    pub open spec fn started_after(&self, after: Self, initialising: bool) -> bool {
        if initialising {
            &&& self.current() is Some ==> after == *self
            &&& self.current() is None ==> after.current() is Some
        } else {
            &&& self.current() is None ==> after.current() is None
            &&& self.current() is Some ==> after.current() is Some
        }
    }

    /// Once a machine is initialised its current state stays set: over any run of calls from
    /// a new machine, where each call moves the current state as its contract says (see
    /// `started_after`), the machine has a current state exactly where an `init` was among
    /// the calls.
    pub proof fn law_started_stays_started(runs: Seq<Self>, inits: Seq<bool>)
        requires
            runs.len() == inits.len() + 1,
            runs[0].current() is None,
            forall|k: int| 0 <= k < inits.len() ==> #[trigger] runs[k].started_after(runs[k + 1], inits[k]),
        ensures
            runs.last().current() is Some <==> exists|k: int| 0 <= k < inits.len() && #[trigger] inits[k],
        decreases inits.len(),
    {
        if inits.len() > 0 {
            let n = inits.len() - 1;
            Self::law_started_stays_started(runs.drop_last(), inits.drop_last());
            assert(runs.drop_last().last() == runs[n]);
            assert(runs[n].started_after(runs[n + 1], inits[n]));
            if exists|k: int| 0 <= k < n && #[trigger] inits.drop_last()[k] {
                let k = choose|k: int| 0 <= k < n && #[trigger] inits.drop_last()[k];
                assert(inits[k]);
            }
            if exists|k: int| 0 <= k < inits.len() && #[trigger] inits[k] {
                let k = choose|k: int| 0 <= k < inits.len() && #[trigger] inits[k];
                if k < n {
                    assert(inits.drop_last()[k]);
                }
            }
        }
    }

    /// `after` knows the states `self` knows and, where `state` was not among them, a clone
    /// of it after them; where keys obey their `==`, it is added exactly when no known key
    /// equals it.
    pub open spec fn state_added(&self, after: Self, state: S) -> bool {
        &&& after.known_states() == self.known_states() || (after.known_states().len() == self.known_states().len() + 1
            && after.known_states().subrange(0, self.known_states().len() as int) == self.known_states() && cloned(
            state,
            after.known_states().last(),
        ))
        &&& S::obeys_eq_spec() ==> (after.known_states() == self.known_states() <==> exists|j: int|
            0 <= j < self.known_states().len() && same_state(#[trigger] self.known_states()[j], state))
    }

    /// Adding a state twice adds nothing the second time, where keys obey their `==` and a
    /// clone of a key equals it.
    pub proof fn law_add_state_twice(m0: Self, m1: Self, m2: Self, state: S)
        requires
            S::obeys_eq_spec(),
            forall|a: S, b: S| cloned(a, b) ==> #[trigger] same_state(b, a),
            m0.state_added(m1, state),
            m1.state_added(m2, state),
        ensures
            m2.known_states() == m1.known_states(),
    {
        if m1.known_states() == m0.known_states() {
            let j = choose|j: int| 0 <= j < m0.known_states().len() && same_state(#[trigger] m0.known_states()[j], state);
            assert(same_state(m1.known_states()[j], state));
        } else {
            let n = m1.known_states().len() - 1;
            assert(m1.known_states()[n] == m1.known_states().last());
            assert(same_state(m1.known_states()[n], state));
        }
    }

    /// Each known state key has exactly one behaviour object.
    pub closed spec fn wf(&self) -> bool {
        self.keys@.len() == self.states@.len()
    }

    pub fn new(ctx: CTX) -> (r: Self)
        ensures
            r.wf(),
            r.current() is None,
            r.known_states() == Seq::<S>::empty(),
            r.context() == ctx,
            !r.has_handler(),
    {
        Self { current_state: None, keys: Vec::new(), states: Vec::new(), context: ctx, handler: None }
    }

    pub fn current_state(&self) -> (r: Option<&S>)
        ensures
            match self.current() {
                Some(s) => r == Some(&s),
                None => r is None,
            },
    {
        self.current_state.as_ref()
    }

    pub fn get_state(&self) -> (r: S)
        requires
            self.current() is Some,
        ensures
            cloned(self.current()->0, r),
    {
        self.current_state.as_ref().unwrap().clone()
    }

    pub fn current_context(&mut self) -> (r: &CTX)
        ensures
            *r == old(self).context(),
            *final(self) == *old(self),
    {
        &self.context
    }

    /// Position of the first known key equal to `s`, or `None`.
    fn position(keys: &Vec<S>, s: &S) -> (r: Option<usize>)
        ensures
            r matches Some(i) ==> i < keys@.len() && (S::obeys_eq_spec() ==> same_state(keys@[i as int], *s)),
            S::obeys_eq_spec() ==> (r is None <==> forall|j: int| 0 <= j < keys@.len() ==> !same_state(#[trigger] keys@[j], *s)),
    {
        let mut i: usize = 0;
        while i < keys.len()
            invariant
                i <= keys@.len(),
                S::obeys_eq_spec() ==> forall|j: int| 0 <= j < i ==> !same_state(#[trigger] keys@[j], *s),
            decreases keys@.len() - i,
        {
            if keys[i] == *s {
                return Some(i);
            }
            i = i + 1;
        }
        None
    }

    /// Index of the behaviour object of `s`, created first where `s` is not known yet.
    fn index_or_create(
        keys: &mut Vec<S>,
        states: &mut Vec<<S as FsmEnum<S, CTX, E>>::State>,
        s: &S,
    ) -> (i: usize)
        requires
            old(keys)@.len() == old(states)@.len(),
        ensures
            final(keys)@.len() == final(states)@.len(),
            i < final(keys)@.len(),
            S::obeys_eq_spec() ==> same_state(final(keys)@[i as int], *s) || final(keys)@[i as int] == *s
                || cloned(*s, final(keys)@[i as int]),
            final(keys)@ == old(keys)@ || (final(keys)@.len() == old(keys)@.len() + 1
                && final(keys)@.subrange(0, old(keys)@.len() as int) == old(keys)@
                && cloned(*s, final(keys)@.last())),
            S::obeys_eq_spec() ==> (final(keys)@ == old(keys)@ <==> exists|j: int|
                0 <= j < old(keys)@.len() && same_state(#[trigger] old(keys)@[j], *s)),
            S::obeys_eq_spec() && (exists|j: int| 0 <= j < old(keys)@.len() && same_state(#[trigger] old(keys)@[j], *s))
                ==> final(states)@ == old(states)@,
    {
        match Self::position(keys, s) {
            Some(i) => i,
            None => {
                let st = S::create(s);
                keys.push(s.clone());
                states.push(st);
                assert(keys@.subrange(0, old(keys)@.len() as int) =~= old(keys)@);
                keys.len() - 1
            },
        }
    }

    pub fn add_state(&mut self, state: S)
        requires
            old(self).wf(),
        ensures
            final(self).wf(),
            final(self).current() == old(self).current(),
            old(self).started_after(*final(self), false),
            final(self).context() == old(self).context(),
            final(self).has_handler() == old(self).has_handler(),
            old(self).state_added(*final(self), state),
    {
        let _ = Self::index_or_create(&mut self.keys, &mut self.states, &state);
    }

    /// Puts the machine in `state` and follows the transitions that entering states asks for,
    /// until a state answers `Ignore` (at most `u64::MAX` transitions are followed).
    /// A machine that is already initialised is left as it is.
    pub fn init(&mut self, state: S) -> (r: Result<(), PublicGameError>)
        requires
            old(self).wf(),
        ensures
            final(self).wf(),
            r is Ok,
            old(self).current() is Some ==> *final(self) == *old(self),
            old(self).current() is None ==> final(self).current() is Some,
            old(self).started_after(*final(self), true),
            old(self).known_states().is_prefix_of(final(self).known_states()),
            final(self).has_handler() == old(self).has_handler(),
    {
        if self.current_state.is_none() {
            self.current_state = Some(state.clone());
            let mut fuel: u64 = u64::MAX;
            loop
                invariant
                    self.wf(),
                    self.current_state is Some,
                    old(self).known_states().is_prefix_of(self.known_states()),
                    self.has_handler() == old(self).has_handler(),
                decreases fuel,
            {
                let ghost before = self.keys@;
                let i = Self::index_or_create(
                    &mut self.keys,
                    &mut self.states,
                    self.current_state.as_ref().unwrap(),
                );
                assert(old(self).known_states().is_prefix_of(self.known_states())) by {
                    assert(before.is_prefix_of(self.keys@));
                }
                let response = self.states[i].on_enter(&mut self.context);
                match init_enter_outcome(response) {
                    Some(next) => {
                        self.current_state = Some(next);
                    },
                    None => {
                        break ;
                    },
                }
                if fuel == 0 {
                    break ;
                }
                fuel = fuel - 1;
            }
        }
        Ok(())
    }

    /// Leaves the current state for `new_state`: the current state's `on_exit` runs, then
    /// `new_state` is entered and transitions that entering asks for are followed until a
    /// state answers `Ignore` or asks for itself (at most `u64::MAX` of them).
    pub fn transition(&mut self, new_state: S) -> (r: Result<(), PublicGameError>)
        requires
            old(self).wf(),
        ensures
            final(self).wf(),
            old(self).current() is None ==> (r matches Err(e) && e.error()
                == GameError::StateMachineNotInitialized && *final(self) == *old(self)),
            old(self).current() is Some ==> r is Ok && final(self).current() is Some,
            old(self).started_after(*final(self), false),
            old(self).known_states().is_prefix_of(final(self).known_states()),
            final(self).has_handler() == old(self).has_handler(),
    {
        if self.current_state.is_none() {
            return Err(PublicGameError::new(GameError::StateMachineNotInitialized));
        }
        let i = Self::index_or_create(&mut self.keys, &mut self.states, self.current_state.as_ref().unwrap());
        self.states[i].on_exit(&mut self.context);
        self.current_state = Some(new_state);
        let mut fuel: u64 = u64::MAX;
        loop
            invariant
                self.wf(),
                self.current_state is Some,
                old(self).known_states().is_prefix_of(self.known_states()),
                self.has_handler() == old(self).has_handler(),
            decreases fuel,
        {
            let ghost before = self.keys@;
            let i = Self::index_or_create(&mut self.keys, &mut self.states, self.current_state.as_ref().unwrap());
            assert(old(self).known_states().is_prefix_of(self.known_states())) by {
                assert(before.is_prefix_of(self.keys@));
            }
            let response = self.states[i].on_enter(&mut self.context);
            match transition_enter_outcome(self.current_state.as_ref().unwrap(), response) {
                Some(next) => {
                    self.current_state = Some(next);
                },
                None => {
                    break ;
                },
            }
            if fuel == 0 {
                break ;
            }
            fuel = fuel - 1;
        }
        Ok(())
    }

    /// Hands `event` first to the global handler, whose transition to a different state is
    /// taken at once; otherwise to the current state, whose transition is taken.
    pub fn event(&mut self, event: &E) -> (r: Result<(), PublicGameError>)
        requires
            old(self).wf(),
        ensures
            final(self).wf(),
            old(self).current() is None ==> (r matches Err(e) && e.error()
                == GameError::StateMachineNotInitialized && *final(self) == *old(self)),
            old(self).current() is Some ==> r is Ok && final(self).current() is Some,
            old(self).started_after(*final(self), false),
            old(self).known_states().is_prefix_of(final(self).known_states()),
            final(self).has_handler() == old(self).has_handler(),
    {
        if self.current_state.is_none() {
            return Err(PublicGameError::new(GameError::StateMachineNotInitialized));
        }
        if let Some(global) = &self.handler {
            let response = global.on_event(event, &mut self.context);
            match handler_outcome(self.current_state.as_ref().unwrap(), response) {
                Some(next) => {
                    return self.transition(next);
                },
                None => {},
            }
        }
        let ghost before = self.keys@;
        let i = Self::index_or_create(&mut self.keys, &mut self.states, self.current_state.as_ref().unwrap());
        assert(old(self).known_states().is_prefix_of(self.known_states())) by {
            assert(before.is_prefix_of(self.keys@));
        }
        let response = self.states[i].on_event(event, &mut self.context);
        match init_enter_outcome(response) {
            Some(next) => {
                let ghost mid = self.keys@;
                let r = self.transition(next);
                assert(old(self).known_states().is_prefix_of(self.known_states())) by {
                    assert(mid.is_prefix_of(self.keys@));
                }
                return r;
            },
            None => {},
        }
        Ok(())
    }

    pub fn set_handler<H>(&mut self, handler: Option<Box<dyn EventHandler<S, CTX, E>>>)
        requires
            old(self).wf(),
        ensures
            final(self).wf(),
            final(self).has_handler() == handler is Some,
            final(self).current() == old(self).current(),
            old(self).started_after(*final(self), false),
            final(self).known_states() == old(self).known_states(),
            final(self).context() == old(self).context(),
    {
        self.handler = handler;
    }
}

} // verus!
