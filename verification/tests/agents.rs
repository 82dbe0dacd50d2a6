use std::collections::HashMap;

use swarmonomicon::agent::Agent;
use swarmonomicon::agents::greeter::GreeterAgent;
use swarmonomicon::agents::haiku::HaikuAgent;
use swarmonomicon::agents::user_agent::{suggest_agent, TodoItem, TodoStatus, UserAgent, UserAgentState};
use swarmonomicon::agents::wrapper::AgentWrapper;
use swarmonomicon::ai::{AiProvider, ChatMessage};
use swarmonomicon::error::Error;
use swarmonomicon::types::{AgentConfig, Message, State, StateMachine, Tool};

fn greeter_config() -> AgentConfig {
    AgentConfig {
        name: "greeter".to_string(),
        public_description: "Swarmonomicon's Guide to Unhinged Front Desk Wizardry".to_string(),
        instructions: "Master of controlled chaos and improvisational engineering".to_string(),
        tools: vec![],
        downstream_agents: vec!["project".to_string(), "git".to_string(), "haiku".to_string()],
        personality: Some("mad_scientist_receptionist".to_string()),
        state_machine: None,
    }
}

fn said(text: &str) -> Message {
    Message::new(text.to_string())
}

struct Poet;

impl AiProvider for Poet {
    fn chat(&self, _system_prompt: &str, messages: Vec<ChatMessage>) -> Result<String, String> {
        Ok(format!("a haiku in reply to: {}", messages[0].content))
    }
}

fn haiku_test_config(states: Vec<(String, State)>) -> AgentConfig {
    AgentConfig {
        name: "haiku".to_string(),
        public_description: "Test haiku agent".to_string(),
        instructions: "Test haiku generation".to_string(),
        tools: vec![],
        downstream_agents: vec![],
        personality: None,
        state_machine: Some(StateMachine {
            states,
            initial_state: "awaiting_topic".to_string(),
        }),
    }
}

fn awaiting_topic() -> (String, State) {
    (
        "awaiting_topic".to_string(),
        State {
            name: "awaiting_topic".to_string(),
            data: None,
            prompt: Some("What shall we write about?".to_string()),
            transitions: Some(vec![("topic_received".to_string(), "complete".to_string())]),
            validation: None,
        },
    )
}

#[test]
fn test_greeter_creation() {
    let config = greeter_config();
    let agent = GreeterAgent::new(config);
    assert!(agent.get_current_state().is_some());
}

#[test]
fn test_greeter_response() {
    let config = greeter_config();
    let mut agent = GreeterAgent::new(config);
    let response = agent.process_message(said("hi")).unwrap();
    assert!(response.content.contains("haiku"));
    assert_eq!(response.role, Some("assistant".to_string()));
    assert!(response.metadata.is_some());
}

#[test]
fn test_greeter_transfer() {
    let config = greeter_config();
    let mut agent = GreeterAgent::new(config);

    assert!(agent.transfer_to("haiku".to_string(), said("over to you")).is_ok());
    assert_eq!(agent.get_current_state().unwrap().name, "transfer_to_haiku");

    assert!(agent.transfer_to("nonexistent".to_string(), said("anyone?")).is_err());
}

#[test]
fn test_haiku_generation() {
    let mut agent = HaikuAgent::new(haiku_test_config(vec![awaiting_topic()])).with_ai_client(Poet);
    let response = agent.process_message(said("nature")).unwrap();
    assert!(response.content.contains("haiku"), "Response should contain a haiku");
}

#[test]
fn test_state_transitions() {
    let complete = (
        "complete".to_string(),
        State {
            name: "complete".to_string(),
            data: None,
            prompt: Some("Would you like another haiku?".to_string()),
            transitions: Some(vec![
                ("yes".to_string(), "awaiting_topic".to_string()),
                ("no".to_string(), "goodbye".to_string()),
            ]),
            validation: None,
        },
    );
    let goodbye = (
        "goodbye".to_string(),
        State {
            name: "goodbye".to_string(),
            data: None,
            prompt: Some("Farewell!".to_string()),
            transitions: None,
            validation: None,
        },
    );
    let mut agent = HaikuAgent::new(haiku_test_config(vec![awaiting_topic(), complete, goodbye]))
        .with_ai_client(Poet);

    let state = agent.get_current_state();
    assert!(state.is_some());
    assert_eq!(state.unwrap().name, "awaiting_topic");

    let response = agent.process_message(said("nature")).unwrap();
    assert!(response.content.contains("haiku"));

    let state = agent.get_current_state();
    assert!(state.is_some());
    assert_eq!(state.unwrap().name, "complete");
}

#[test]
fn test_agent_wrapper() {
    let config = AgentConfig {
        name: "test".to_string(),
        public_description: "Test agent".to_string(),
        instructions: "Test instructions".to_string(),
        tools: vec![],
        downstream_agents: vec![],
        personality: None,
        state_machine: None,
    };

    let agent = GreeterAgent::new(config);
    let mut wrapper = AgentWrapper::new(agent);

    let response = wrapper.process_message(said("test"));
    assert!(response.is_ok());

    let state = wrapper.get_current_state();
    assert!(state.is_some());
    assert_eq!(wrapper.get_check_interval(), 30);
    assert_eq!(wrapper.get_todo_list().len(), 0);
}

#[test]
fn greeter_walks_through_its_conversation() {
    let mut agent = GreeterAgent::new(greeter_config());
    let welcome = agent.process_message(said("what is this place")).unwrap();
    assert!(welcome.content.starts_with("Step right in!"));
    assert_eq!(agent.get_current_state().unwrap().name, "greeting");

    let help = agent.process_message(said("HELP")).unwrap();
    assert!(help.content.starts_with("Let me illuminate the path"));
    assert_eq!(agent.get_current_state().unwrap().name, "help");
    let metadata = help.metadata.unwrap();
    assert_eq!(metadata.agent, "greeter");
    assert_eq!(
        metadata.state,
        Some("Questions! Excellent! That's how all the best mad science begins.".to_string())
    );

    let unsure = agent.process_message(said("help")).unwrap();
    assert!(unsure.content.starts_with("Which department of mad science"));
    assert_eq!(agent.get_current_state().unwrap().name, "help");

    let bye = agent.process_message(said("Quit")).unwrap();
    assert!(bye.content.starts_with("Farewell, fellow tinkerer!"));
    assert_eq!(agent.get_current_state().unwrap().name, "goodbye");

    let after = agent.process_message(said("haiku")).unwrap();
    assert!(after.content.starts_with("Off to new experiments!"));
    assert_eq!(agent.get_current_state().unwrap().name, "goodbye");
}

#[test]
fn greeter_hands_over_on_yes() {
    let mut agent = GreeterAgent::new(greeter_config());
    let reply = agent.process_message(said("Yes")).unwrap();
    assert!(reply.content.starts_with("Ah, this looks like a job"));
    assert_eq!(agent.get_current_state().unwrap().name, "transfer_to_haiku");
    let next = agent.process_message(said("anything")).unwrap();
    assert!(next.content.starts_with("Calibrating the haiku matrices"));
}

#[test]
fn greeter_config_carries_its_machine() {
    let agent = GreeterAgent::new(greeter_config());
    let config = agent.get_config();
    let machine = config.state_machine.unwrap();
    assert_eq!(machine.initial_state, "greeting");
    assert_eq!(machine.states.len(), 4);
    assert_eq!(config.downstream_agents, vec!["project", "git", "haiku"]);
}

#[test]
fn refused_transfer_leaves_greeter_where_it_was() {
    let mut agent = GreeterAgent::new(greeter_config());
    agent.process_message(said("help")).unwrap();
    let refused = agent.transfer_to("browser".to_string(), said("x"));
    assert_eq!(refused, Err(Error::InvalidTransferTarget("browser".to_string())));
    assert_eq!(agent.get_current_state().unwrap().name, "help");
}

#[test]
fn greeter_refuses_tool_calls() {
    let mut agent = GreeterAgent::new(greeter_config());
    let tool = Tool {
        name: "anything".to_string(),
        description: "does anything".to_string(),
        parameters: HashMap::new(),
    };
    assert_eq!(
        agent.call_tool(&tool, HashMap::new()),
        Err(Error::ToolError("Tool calling not yet implemented".to_string()))
    );
}

#[test]
fn haiku_without_service_fails_and_stays() {
    let mut agent = HaikuAgent::new(haiku_test_config(vec![]));
    let r = agent.process_message(said("nature"));
    assert_eq!(r, Err(Error::ExternalServiceError("AI service unreachable".to_string())));
    assert_eq!(agent.get_current_state().unwrap().name, "awaiting_topic");
}

#[test]
fn haiku_message_names_state_and_traits() {
    let mut agent = HaikuAgent::new(haiku_test_config(vec![])).with_ai_client(Poet);
    let m = agent.process_message(said("rivers")).unwrap();
    assert_eq!(m.content, "a haiku in reply to: Create a haiku about: rivers");
    let metadata = m.metadata.unwrap();
    assert_eq!(metadata.agent, "haiku");
    assert_eq!(metadata.state, Some("complete".to_string()));
    assert_eq!(
        metadata.personality_traits,
        Some(vec![
            "poetic".to_string(),
            "algorithmic".to_string(),
            "zen_like".to_string(),
            "pattern_seeking".to_string(),
            "mad_tinker_inspired".to_string(),
        ])
    );
}

#[test]
fn haiku_transfer_checks_the_allow_list() {
    let mut config = haiku_test_config(vec![]);
    config.downstream_agents = vec!["greeter".to_string()];
    let mut agent = HaikuAgent::new(config);
    let passed = agent.transfer_to("greeter".to_string(), said("back to you")).unwrap();
    assert_eq!(passed.content, "back to you");
    assert_eq!(
        agent.transfer_to("git".to_string(), said("x")),
        Err(Error::InvalidTransferTarget("git".to_string()))
    );
}

#[test]
fn haiku_reports_tool_calls() {
    let mut agent = HaikuAgent::new(haiku_test_config(vec![]));
    let tool = Tool {
        name: "brush".to_string(),
        description: "paints".to_string(),
        parameters: HashMap::new(),
    };
    let mut params = HashMap::new();
    params.insert("colour".to_string(), "red".to_string());
    let r = agent.call_tool(&tool, params).unwrap();
    assert_eq!(r, "Called tool brush with params {\"colour\": \"red\"}");
}

fn item(description: &str) -> TodoItem {
    TodoItem {
        description: description.to_string(),
        status: TodoStatus::Pending,
        assigned_agent: None,
        context: None,
        error: None,
        created_at: 0,
        updated_at: 0,
    }
}

fn user_config() -> AgentConfig {
    AgentConfig {
        name: "user".to_string(),
        public_description: "The person at the keyboard".to_string(),
        instructions: "Decide".to_string(),
        tools: vec![],
        downstream_agents: vec!["greeter".to_string()],
        personality: None,
        state_machine: None,
    }
}

#[test]
fn user_agent_routes_by_keywords() {
    let user = UserAgent::new(user_config());
    assert_eq!(user.determine_next_agent(&item("Commit the fix")), Some("git".to_string()));
    assert_eq!(
        user.determine_next_agent(&item("Set up a NEW workspace")),
        Some("project-init".to_string())
    );
    assert_eq!(user.determine_next_agent(&item("a poem about rain")), Some("haiku".to_string()));
    assert_eq!(user.determine_next_agent(&item("open the landing page")), Some("browser".to_string()));
    assert_eq!(user.determine_next_agent(&item("say HELLO")), Some("greeter".to_string()));
    assert_eq!(user.determine_next_agent(&item("mop up")), None);
    assert_eq!(suggest_agent("repository and poem"), Some("git".to_string()));
}

#[test]
fn user_agent_is_made_from_its_config() {
    let user = UserAgent::assemble("u-1".to_string(), user_config(), 77);
    assert_eq!(user.id, "u-1");
    assert_eq!(user.name, "user");
    assert_eq!(user.description, "The person at the keyboard");
    assert_eq!(user.image_url, None);
    assert_eq!(user.get_created_at(), 77);
    assert_eq!(user.get_updated_at(), 77);
    let fresh = UserAgent::new(user_config());
    assert_eq!(fresh.id.len(), 36);
    assert_eq!(fresh.get_created_at(), fresh.get_updated_at());
    assert!(fresh.get_created_at() > 1_600_000_000);
}

#[test]
fn user_agent_acknowledges_and_transfers() {
    let mut user = UserAgent::new(user_config());
    let m = user.process_message(said("ping")).unwrap();
    assert_eq!(m.content, "User received: ping");
    assert!(user.get_current_state().is_none());
    assert!(user.transfer_to("greeter".to_string(), said("x")).is_ok());
    assert_eq!(
        user.transfer_to("haiku".to_string(), said("x")),
        Err(Error::InvalidTransferTarget("haiku".to_string()))
    );
}

#[test]
fn user_agent_state_records_processing() {
    let mut state = UserAgentState::new(user_config());
    assert_eq!(state.state_file, "user.json");
    assert_eq!(state.state, "");
    assert_eq!(state.get_last_processed(), None);
    state.mark_processed(12);
    assert_eq!(state.get_last_processed(), Some(12));
    state.update_last_processed();
    assert!(state.get_last_processed().unwrap() > 1_600_000_000);
}
