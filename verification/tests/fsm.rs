use carrion_eris::fsm::{
    handler_outcome, init_enter_outcome, transition_enter_outcome, EventHandler, FsmEnum, GameError,
    PublicGameError, Response, StateMachine, Stateful,
};

#[derive(Clone, PartialEq, Eq, Hash, Debug)]
enum Light {
    Red,
    Green,
    Yellow,
    Blinking,
}

struct LightState(Light);

impl Stateful<Light, Vec<String>, String> for LightState {
    fn on_enter(&mut self, context: &mut Vec<String>) -> Response<Light> {
        context.push(format!("enter {:?}", self.0));
        match self.0 {
            // entering the blinking state falls straight through to red
            Light::Blinking => Response::Transition(Light::Red),
            _ => Response::Ignore,
        }
    }

    fn on_event(&mut self, event: &String, context: &mut Vec<String>) -> Response<Light> {
        context.push(format!("event {:?} {}", self.0, event));
        if event == "next" {
            Response::Transition(match self.0 {
                Light::Red => Light::Green,
                Light::Green => Light::Yellow,
                Light::Yellow => Light::Red,
                Light::Blinking => Light::Red,
            })
        } else {
            Response::Ignore
        }
    }

    fn on_exit(&mut self, context: &mut Vec<String>) {
        context.push(format!("exit {:?}", self.0));
    }
}

impl FsmEnum<Light, Vec<String>, String> for Light {
    type State = LightState;

    fn create(value: &Light) -> LightState {
        LightState(value.clone())
    }
}

struct Emergency;

impl EventHandler<Light, Vec<String>, String> for Emergency {
    fn on_event(&self, event: &String, ctx: &mut Vec<String>) -> Response<Light> {
        if event == "emergency" {
            ctx.push("emergency".to_string());
            Response::Transition(Light::Blinking)
        } else {
            Response::Ignore
        }
    }
}

fn machine() -> StateMachine<Light, Vec<String>, String> {
    StateMachine::new(Vec::new())
}

#[test]
fn new_machine_is_uninitialised() {
    let mut m = machine();
    assert!(m.current_state().is_none());
    assert!(m.current_context().is_empty());
}

#[test]
fn events_before_init_are_refused() {
    let mut m = machine();
    let r = m.event(&"next".to_string());
    assert!(matches!(r, Err(ref e) if matches!(e.kind(), GameError::StateMachineNotInitialized)));
    let r = m.transition(Light::Green);
    assert!(matches!(r, Err(ref e) if matches!(e.kind(), GameError::StateMachineNotInitialized)));
    assert!(m.current_state().is_none());
}

#[test]
fn init_enters_the_first_state() {
    let mut m = machine();
    assert!(m.init(Light::Red).is_ok());
    assert_eq!(m.get_state(), Light::Red);
    assert_eq!(m.current_context(), &vec!["enter Red".to_string()]);
}

#[test]
fn init_follows_transitions_on_enter() {
    let mut m = machine();
    assert!(m.init(Light::Blinking).is_ok());
    assert_eq!(m.get_state(), Light::Red);
    assert_eq!(m.current_context(), &vec!["enter Blinking".to_string(), "enter Red".to_string()]);
}

#[test]
fn init_twice_changes_nothing() {
    let mut m = machine();
    m.init(Light::Red).unwrap();
    m.init(Light::Green).unwrap();
    assert_eq!(m.get_state(), Light::Red);
    assert_eq!(m.current_context().len(), 1);
}

#[test]
fn events_move_through_states() {
    let mut m = machine();
    m.init(Light::Red).unwrap();
    m.event(&"next".to_string()).unwrap();
    assert_eq!(m.get_state(), Light::Green);
    m.event(&"next".to_string()).unwrap();
    assert_eq!(m.get_state(), Light::Yellow);
    m.event(&"other".to_string()).unwrap();
    assert_eq!(m.get_state(), Light::Yellow);
    assert_eq!(
        m.current_context(),
        &vec![
            "enter Red".to_string(),
            "event Red next".to_string(),
            "exit Red".to_string(),
            "enter Green".to_string(),
            "event Green next".to_string(),
            "exit Green".to_string(),
            "enter Yellow".to_string(),
            "event Yellow other".to_string(),
        ]
    );
}

#[test]
fn global_handler_comes_first() {
    let mut m = machine();
    m.set_handler::<Emergency>(Some(Box::new(Emergency)));
    m.init(Light::Green).unwrap();
    m.event(&"emergency".to_string()).unwrap();
    // blinking falls through to red on entering
    assert_eq!(m.get_state(), Light::Red);
    assert_eq!(
        m.current_context(),
        &vec![
            "enter Green".to_string(),
            "emergency".to_string(),
            "exit Green".to_string(),
            "enter Blinking".to_string(),
            "enter Red".to_string(),
        ]
    );
}

#[test]
fn transition_runs_exit_and_enter() {
    let mut m = machine();
    m.init(Light::Red).unwrap();
    m.transition(Light::Yellow).unwrap();
    assert_eq!(m.get_state(), Light::Yellow);
    assert_eq!(
        m.current_context(),
        &vec!["enter Red".to_string(), "exit Red".to_string(), "enter Yellow".to_string()]
    );
}

#[test]
fn add_state_creates_once() {
    let mut m = machine();
    m.add_state(Light::Red);
    m.add_state(Light::Red);
    m.add_state(Light::Green);
    assert!(m.current_state().is_none());
}

#[test]
fn outcome_functions() {
    assert_eq!(init_enter_outcome(Response::Transition(Light::Red)), Some(Light::Red));
    assert_eq!(init_enter_outcome::<Light>(Response::Ignore), None);
    assert_eq!(transition_enter_outcome(&Light::Red, Response::Transition(Light::Red)), None);
    assert_eq!(transition_enter_outcome(&Light::Red, Response::Transition(Light::Green)), Some(Light::Green));
    assert_eq!(transition_enter_outcome(&Light::Red, Response::Ignore), None);
    assert_eq!(handler_outcome(&Light::Red, Response::Transition(Light::Green)), Some(Light::Green));
    assert_eq!(handler_outcome(&Light::Red, Response::Transition(Light::Red)), None);
}

#[test]
fn public_error_keeps_its_kind() {
    let e = PublicGameError::new(GameError::NoEnemy);
    assert!(matches!(e.kind(), GameError::NoEnemy));
}
