use swarmonomicon::state::AgentStateManager;
use swarmonomicon::types::{State, StateMachine};

fn state(name: &str, prompt: &str, transitions: Option<Vec<(&str, &str)>>) -> (String, State) {
    (
        name.to_string(),
        State {
            name: name.to_string(),
            data: None,
            prompt: Some(prompt.to_string()),
            transitions: transitions.map(|t| {
                t.into_iter().map(|(e, s)| (e.to_string(), s.to_string())).collect()
            }),
            validation: None,
        },
    )
}

fn haiku_machine() -> StateMachine {
    StateMachine {
        states: vec![
            state(
                "awaiting_topic",
                "What shall we write about?",
                Some(vec![("topic_received", "complete")]),
            ),
            state(
                "complete",
                "Would you like another haiku?",
                Some(vec![("yes", "awaiting_topic"), ("no", "goodbye")]),
            ),
            state("goodbye", "Farewell!", None),
        ],
        initial_state: "awaiting_topic".to_string(),
    }
}

#[test]
fn manager_starts_at_initial_state() {
    let m = AgentStateManager::new(Some(haiku_machine()));
    assert_eq!(m.get_current_state_name(), Some("awaiting_topic"));
    assert_eq!(m.get_current_state().unwrap().name, "awaiting_topic");
}

#[test]
fn manager_without_machine_has_no_state() {
    let mut m = AgentStateManager::new(None);
    assert_eq!(m.get_current_state_name(), None);
    assert!(m.get_current_state().is_none());
    assert!(m.transition("anything").is_none());
    assert_eq!(m.get_current_state_name(), None);
}

#[test]
fn declared_event_moves_the_cursor() {
    let mut m = AgentStateManager::new(Some(haiku_machine()));
    let reached = m.transition("topic_received").map(|s| s.name.clone());
    assert_eq!(reached, Some("complete".to_string()));
    assert_eq!(m.get_current_state_name(), Some("complete"));
    let reached = m.transition("no").map(|s| s.name.clone());
    assert_eq!(reached, Some("goodbye".to_string()));
    assert_eq!(m.get_current_state_name(), Some("goodbye"));
}

#[test]
fn undeclared_event_is_ignored() {
    let mut m = AgentStateManager::new(Some(haiku_machine()));
    assert!(m.transition("no").is_none());
    assert_eq!(m.get_current_state_name(), Some("awaiting_topic"));
    m.transition("topic_received");
    m.transition("no");
    assert!(m.transition("yes").is_none());
    assert_eq!(m.get_current_state_name(), Some("goodbye"));
}

#[test]
fn transition_to_missing_state_is_ignored() {
    let machine = StateMachine {
        states: vec![state("awaiting_topic", "?", Some(vec![("topic_received", "complete")]))],
        initial_state: "awaiting_topic".to_string(),
    };
    let mut m = AgentStateManager::new(Some(machine));
    assert!(m.transition("topic_received").is_none());
    assert_eq!(m.get_current_state_name(), Some("awaiting_topic"));
}

#[test]
fn well_formedness_is_checked() {
    assert!(haiku_machine().is_well_formed());
    let dangling = StateMachine {
        states: vec![state("awaiting_topic", "?", Some(vec![("topic_received", "complete")]))],
        initial_state: "awaiting_topic".to_string(),
    };
    assert!(!dangling.is_well_formed());
    let lost = StateMachine {
        states: vec![state("a", "?", None)],
        initial_state: "b".to_string(),
    };
    assert!(!lost.is_well_formed());
    let empty = StateMachine { states: vec![], initial_state: "".to_string() };
    assert!(!empty.is_well_formed());
    let twice = StateMachine {
        states: vec![state("a", "?", None), state("b", "?", None), state("a", "?", None)],
        initial_state: "a".to_string(),
    };
    assert!(!twice.is_well_formed());
    let forked = StateMachine {
        states: vec![state("a", "?", Some(vec![("go", "a"), ("stay", "a"), ("go", "a")]))],
        initial_state: "a".to_string(),
    };
    assert!(!forked.is_well_formed());
    let looped = StateMachine {
        states: vec![state("a", "?", Some(vec![("again", "a")]))],
        initial_state: "a".to_string(),
    };
    assert!(looped.is_well_formed());
}

#[test]
fn first_entry_for_a_name_counts() {
    let machine = StateMachine {
        states: vec![
            state("a", "first", Some(vec![("go", "b"), ("go", "a")])),
            state("b", "second", None),
            state("a", "shadowed", Some(vec![("go", "a")])),
        ],
        initial_state: "a".to_string(),
    };
    assert_eq!(machine.find_state("a").unwrap().prompt, Some("first".to_string()));
    assert!(machine.find_state("c").is_none());
    let mut m = AgentStateManager::new(Some(machine));
    assert_eq!(m.transition("go").unwrap().name, "b");
    assert_eq!(m.get_current_state().unwrap().prompt, Some("second".to_string()));
}
