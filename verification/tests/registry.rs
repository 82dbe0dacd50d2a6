use swarmonomicon::agent::Agent;
use swarmonomicon::agents::greeter::GreeterAgent;
use swarmonomicon::agents::wrapper::{delegate_task, AgentWrapper};
use swarmonomicon::error::Error;
use swarmonomicon::registry::{agent_kind, default_agents, AgentKind, AgentRegistry};
use swarmonomicon::todo::task::{TaskPriority, TaskStatus, TodoTask};
use swarmonomicon::transfer::TransferService;
use swarmonomicon::types::{AgentConfig, Message};

fn create_test_configs() -> Vec<AgentConfig> {
    vec![
        AgentConfig {
            name: String::from("greeter"),
            public_description: String::from("Greets users"),
            instructions: String::from("Greet the user"),
            tools: vec![],
            downstream_agents: vec![String::from("haiku")],
            personality: None,
            state_machine: None,
        },
        AgentConfig {
            name: String::from("haiku"),
            public_description: String::from("Creates haikus"),
            instructions: String::from("Create haikus"),
            tools: vec![],
            downstream_agents: vec![],
            personality: None,
            state_machine: None,
        },
    ]
}

fn said(text: &str) -> Message {
    Message::new(text.to_string())
}

#[test]
fn test_agent_registry() {
    let configs = create_test_configs();
    let mut registry = AgentRegistry::new();

    let agent = GreeterAgent::new(configs[0].clone());
    registry.register(configs[0].name.clone(), agent);

    assert!(registry.get_agent("greeter").is_some());
    assert!(registry.get_agent("nonexistent").is_none());

    let all_agents: Vec<_> = registry.list_agents();
    assert_eq!(all_agents.len(), 1);
}

#[test]
fn test_agent_transfer() {
    let mut registry = AgentRegistry::new();
    let agent = GreeterAgent::new(AgentConfig {
        name: "test_greeter".to_string(),
        public_description: "Test greeter agent".to_string(),
        instructions: "Test instructions".to_string(),
        tools: vec![],
        downstream_agents: vec!["test_target".to_string()],
        personality: None,
        state_machine: None,
    });

    registry.register("test_greeter".to_string(), agent);
    let mut service = TransferService::new(registry);

    let response = service.transfer(
        "test_greeter",
        "test_target",
        Message::new("transfer to test_target".to_string()),
    );
    assert!(response.is_err());

    let result = service.transfer(
        "test_greeter",
        "nonexistent",
        Message::new("transfer to nonexistent".to_string()),
    );
    assert!(result.is_err());
}

#[test]
fn lookup_gives_what_was_registered() {
    let configs = create_test_configs();
    let mut registry = AgentRegistry::new();
    assert!(!registry.contains("greeter"));
    registry.register_agent(GreeterAgent::new(configs[0].clone()));
    registry.register_agent(GreeterAgent::new(configs[1].clone()));
    assert!(registry.contains("greeter"));
    assert!(registry.contains("haiku"));
    assert!(!registry.contains("git"));
    assert_eq!(registry.get_agent("greeter").unwrap().get_config().public_description, "Greets users");
    assert_eq!(registry.get_agent("haiku").unwrap().get_config().public_description, "Creates haikus");
    assert_eq!(registry.list_agents(), vec!["greeter", "haiku"]);
}

#[test]
fn registering_again_replaces_the_agent() {
    let configs = create_test_configs();
    let mut registry = AgentRegistry::new();
    registry.register("front".to_string(), GreeterAgent::new(configs[0].clone()));
    registry.register("front".to_string(), GreeterAgent::new(configs[1].clone()));
    assert_eq!(registry.list_agents(), vec!["front"]);
    assert_eq!(registry.get_agent("front").unwrap().get_config().name, "haiku");
}

#[test]
fn get_mut_changes_the_registered_agent() {
    let configs = create_test_configs();
    let mut registry = AgentRegistry::new();
    registry.register_agent(GreeterAgent::new(configs[0].clone()));
    registry.get_mut("greeter").unwrap().process_message(said("help")).unwrap();
    assert_eq!(registry.get_agent("greeter").unwrap().get_current_state().unwrap().name, "help");
    assert!(registry.get_mut("missing").is_none());
}

#[test]
fn current_agent_is_set_explicitly() {
    let configs = create_test_configs();
    let mut registry = AgentRegistry::new();
    registry.register_agent(GreeterAgent::new(configs[0].clone()));
    assert_eq!(registry.get_current_agent(), None);
    registry.set_current_agent("greeter".to_string());
    assert_eq!(registry.get_current_agent(), Some("greeter"));
}

#[test]
fn from_agents_lets_the_last_of_a_name_stand() {
    let mut first = create_test_configs().remove(0);
    first.public_description = "first".to_string();
    let mut second = create_test_configs().remove(0);
    second.public_description = "second".to_string();
    let other = create_test_configs().remove(1);
    let registry = AgentRegistry::from_agents(vec![
        GreeterAgent::new(first),
        GreeterAgent::new(other),
        GreeterAgent::new(second),
    ]);
    assert_eq!(registry.list_agents(), vec!["greeter", "haiku"]);
    assert_eq!(registry.get_agent("greeter").unwrap().get_config().public_description, "second");
}

#[test]
fn from_agents_registers_under_declared_names() {
    let configs = create_test_configs();
    let registry = AgentRegistry::from_agents(vec![
        GreeterAgent::new(configs[0].clone()),
        GreeterAgent::new(configs[1].clone()),
    ]);
    assert!(registry.contains("greeter"));
    assert!(registry.contains("haiku"));
    assert_eq!(registry.list_agents().len(), 2);
    assert_eq!(registry.get_current_agent(), None);
}

fn two_agents() -> TransferService<GreeterAgent> {
    let mut registry = AgentRegistry::new();
    let mut configs = create_test_configs();
    configs.push(AgentConfig {
        name: "git".to_string(),
        public_description: "Git".to_string(),
        instructions: "Git".to_string(),
        tools: vec![],
        downstream_agents: vec![],
        personality: None,
        state_machine: None,
    });
    for c in configs {
        registry.register_agent(GreeterAgent::new(c));
    }
    TransferService::new(registry)
}

#[test]
fn transfer_follows_the_allow_list() {
    let mut service = two_agents();
    let m = service.transfer("greeter", "haiku", said("m")).unwrap();
    assert_eq!(m.content, "m");
    assert_eq!(
        service.get_agent("greeter").unwrap().get_current_state().unwrap().name,
        "transfer_to_haiku"
    );
    assert_eq!(service.get_agent("haiku").unwrap().get_current_state().unwrap().name, "greeting");
    assert_eq!(service.get_current_agent_name(), Err(Error::NotFound("current agent".to_string())));
}

#[test]
fn transfer_outside_the_allow_list_changes_nothing() {
    let mut service = two_agents();
    let r = service.transfer("greeter", "git", said("m"));
    assert_eq!(r, Err(Error::InvalidTransferTarget("git".to_string())));
    assert_eq!(service.get_agent("greeter").unwrap().get_current_state().unwrap().name, "greeting");
    assert_eq!(service.get_agent("git").unwrap().get_current_state().unwrap().name, "greeting");
}

#[test]
fn transfer_between_unknown_agents_is_not_found() {
    let mut service = two_agents();
    assert_eq!(
        service.transfer("nobody", "haiku", said("m")),
        Err(Error::NotFound("nobody".to_string()))
    );
    assert_eq!(
        service.transfer("greeter", "nobody", said("m")),
        Err(Error::NotFound("nobody".to_string()))
    );
    assert_eq!(
        service.transfer("nobody", "nowhere", said("m")),
        Err(Error::NotFound("nobody".to_string()))
    );
    assert_eq!(service.get_agent("greeter").unwrap().get_current_state().unwrap().name, "greeting");
}

#[test]
fn messages_go_to_the_current_agent() {
    let mut service = two_agents();
    assert_eq!(
        service.process_message(said("help")),
        Err(Error::NotFound("current agent".to_string()))
    );
    assert_eq!(
        service.set_current_agent_name("nobody"),
        Err(Error::NotFound("nobody".to_string()))
    );
    assert_eq!(service.set_current_agent_name("greeter"), Ok(()));
    assert_eq!(service.get_current_agent_name(), Ok("greeter".to_string()));
    let reply = service.process_message(said("help")).unwrap();
    assert!(reply.content.starts_with("Let me illuminate"));
    assert_eq!(service.get_agent("greeter").unwrap().get_current_state().unwrap().name, "help");
    assert_eq!(service.get_agent("haiku").unwrap().get_current_state().unwrap().name, "greeting");
    assert_eq!(
        service.get_agent("nobody").err(),
        Some(Error::NotFound("nobody".to_string()))
    );
}

#[test]
fn default_agents_are_the_five_builtin_ones() {
    let agents = default_agents();
    let names: Vec<&str> = agents.iter().map(|a| a.name.as_str()).collect();
    assert_eq!(names, vec!["greeter", "haiku", "git", "project-init", "browser"]);
    assert_eq!(agents[2].public_description, "Agent that helps with git operations.");
    assert_eq!(
        agents[3].instructions,
        "Help users create new projects with proper structure and configuration."
    );
    for a in &agents {
        assert!(a.tools.is_empty());
        assert!(a.downstream_agents.is_empty());
        assert_eq!(a.personality, None);
        assert_eq!(a.state_machine, None);
    }
    let kinds: Vec<_> = agents.iter().map(|a| agent_kind(a).unwrap()).collect();
    assert_eq!(
        kinds,
        vec![
            AgentKind::Greeter,
            AgentKind::Haiku,
            AgentKind::Git,
            AgentKind::ProjectInit,
            AgentKind::Browser
        ]
    );
    let mut odd = agents[0].clone();
    odd.name = "oracle".to_string();
    assert_eq!(agent_kind(&odd), Err(Error::NotFound("oracle".to_string())));
}

fn task(id: &str, target: &str) -> TodoTask {
    TodoTask {
        id: id.to_string(),
        description: "water the plants".to_string(),
        enhanced_description: None,
        priority: TaskPriority::Low,
        project: None,
        source_agent: None,
        target_agent: target.to_string(),
        status: TaskStatus::Pending,
        created_at: 1431648000,
        completed_at: None,
    }
}

#[test]
fn tasks_are_delegated_to_their_target() {
    let configs = create_test_configs();
    let mut registry = AgentRegistry::new();
    registry.register("greeter".to_string(), AgentWrapper::new(GreeterAgent::new(configs[0].clone())));
    assert_eq!(
        delegate_task(&mut registry, task("t1", "greeter")),
        Ok("Added new todo: water the plants".to_string())
    );
    assert_eq!(
        delegate_task(&mut registry, task("t2", "nobody")),
        Err(Error::NotFound("nobody".to_string()))
    );
    let wrapper = registry.get_mut("greeter").unwrap();
    assert_eq!(wrapper.get_todo_list().len(), 1);
    let reports = wrapper.run_once_at(99);
    assert_eq!(reports.len(), 1);
    assert_eq!(reports[0].id, "t1");
    assert!(reports[0].outcome.is_ok());
    let stored = wrapper.get_todo_list().find_all();
    assert_eq!(stored[0].status, TaskStatus::Completed);
    assert_eq!(stored[0].completed_at, Some(99));
}
