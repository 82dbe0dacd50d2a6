use std::cell::RefCell;

use swarmonomicon::agent::Agent;
use swarmonomicon::agents::greeter::GreeterAgent;
use swarmonomicon::ai::{AiProvider, ChatMessage, NoAiClient};
use swarmonomicon::api::TaskResponse;
use swarmonomicon::error::{Error, StorageError};
use swarmonomicon::todo::enrich::{
    advance, clean_request, enhance_request, enrich, fall_back, interpret_reply, merge_project,
    project_from_reply, read_reply, settle, EnrichState, EnrichStep, Enrichment, ProjectCatalog,
    CLEAN_PROMPT, ENHANCE_PROMPT,
};
use swarmonomicon::todo::list::{
    final_status, pending_for, process_task, task_message, was_claimed, TodoList,
    CHECK_INTERVAL_SECS,
};
use swarmonomicon::todo::store::{
    after_first_insert, after_retry, classify_store_error, disambiguated, with_discriminator,
    InsertStep,
};
use swarmonomicon::todo::task::{TaskPriority, TaskStatus, TodoTask};
use swarmonomicon::todo::tool::{
    assemble_task, new_task, parse_command, render_todos, status_update_result, TodoCommand,
    TodoTool,
};
use swarmonomicon::types::{AgentConfig, Message};

fn catalog() -> ProjectCatalog {
    ProjectCatalog {
        projects: vec![
            ("Swarmonomicon".to_string(), "agent swarm coordination".to_string()),
            (".hammerspoon".to_string(), "desktop automation".to_string()),
            ("mqtt-get-var".to_string(), "MQTT variable utility".to_string()),
        ],
        default_project: "madness_interactive".to_string(),
    }
}

/// Answers the three passes by what the instructions ask for.
struct Oracle {
    asked: RefCell<Vec<String>>,
}

impl Oracle {
    fn new() -> Self {
        Oracle { asked: RefCell::new(Vec::new()) }
    }
}

fn enhanced_for(text: &str) -> (&'static str, &'static str) {
    let text = text.to_lowercase();
    if text.contains("security") {
        (
            "Address the critical security vulnerability in the login flow: audit authentication, close unauthorized access paths and add regression tests",
            "high",
        )
    } else if text.contains("readme") {
        (
            "Update the readme documentation with the new features, including setup instructions and usage examples for each",
            "medium",
        )
    } else if text.contains("optimize") {
        (
            "Optimize database queries to improve performance: profile slow statements, add indexes and cache hot reads",
            "medium",
        )
    } else {
        ("Look into the matter in detail and resolve it with care and tests", "low")
    }
}

impl AiProvider for Oracle {
    fn chat(&self, system_prompt: &str, messages: Vec<ChatMessage>) -> Result<String, String> {
        let content = messages[0].content.clone();
        self.asked.borrow_mut().push(content.clone());
        if system_prompt == ENHANCE_PROMPT {
            let (text, priority) = enhanced_for(&content);
            Ok(format!("Here you go: {{'description': '{}', 'priority': '{}'}}", text, priority))
        } else if system_prompt == CLEAN_PROMPT {
            let (text, priority) = enhanced_for(&content);
            Ok(format!("{{\"description\":\"{}\",\"priority\":\"{}\"}}", text, priority))
        } else if content.contains("Swarmonomicon") {
            Ok("\"Swarmonomicon\"".to_string())
        } else if content.contains("Hammerspoon") {
            Ok(" '.hammerspoon' ".to_string())
        } else if content.contains("mqtt-get-var") {
            Ok("mqtt-get-var\n".to_string())
        } else {
            Ok("madness_interactive".to_string())
        }
    }
}

fn params(pairs: Vec<(&str, &str)>) -> Vec<(String, String)> {
    pairs.into_iter().map(|(k, v)| (k.to_string(), v.to_string())).collect()
}

#[test]
fn test_todo_operations() {
    let mut tool = TodoTool::new(catalog()).with_ai_client(Oracle::new());

    let result = tool
        .execute(&params(vec![
            ("command", "add"),
            ("description", "Test todo"),
            ("project", "test_project"),
        ]))
        .unwrap();
    assert!(result.contains("Added new todo"));

    let result = tool.execute(&params(vec![("command", "list")])).unwrap();
    assert!(result.contains("Test todo"));
}

#[test]
fn test_ai_enhancement() {
    let ai = Oracle::new();
    let test_cases = vec![
        (
            "fix critical security vulnerability in login",
            vec![TaskPriority::High],
            vec!["security", "vulnerability", "authentication", "unauthorized"],
        ),
        (
            "update readme with new features",
            vec![TaskPriority::Low, TaskPriority::Medium],
            vec!["documentation", "features", "instructions"],
        ),
        (
            "optimize database queries",
            vec![TaskPriority::Medium, TaskPriority::High],
            vec!["performance", "optimize", "database"],
        ),
    ];

    for (description, valid_priorities, expected_keywords) in test_cases {
        let Enrichment { description: enhanced, priority, project } =
            enrich(&ai, description, &catalog());

        assert!(
            valid_priorities.contains(&priority),
            "Priority {:?} for '{}' not in acceptable range: {:?}",
            priority,
            description,
            valid_priorities
        );
        assert!(enhanced.len() > description.len() * 2);

        let enhanced_lower = enhanced.to_lowercase();
        let found_keywords: Vec<_> =
            expected_keywords.iter().filter(|&&k| enhanced_lower.contains(k)).collect();
        assert!(found_keywords.len() >= expected_keywords.len() / 2);

        assert!(!project.is_empty(), "Project name should not be empty");
    }
}

#[test]
fn test_project_field() {
    let mut tool = TodoTool::new(catalog()).with_ai_client(Oracle::new());

    tool.execute(&params(vec![
        ("command", "add"),
        ("description", "Project todo"),
        ("project", "test_project"),
    ]))
    .unwrap();
    let all = tool.todo_list().find_all();
    let todo = all.iter().find(|t| t.description == "Project todo").expect("Todo should exist");
    assert_eq!(todo.project, Some("test_project".to_string()));

    tool.execute(&params(vec![("command", "add"), ("description", "No project todo")])).unwrap();
    let all = tool.todo_list().find_all();
    let todo = all.iter().find(|t| t.description == "No project todo").expect("Todo should exist");
    assert_eq!(todo.project, Some("madness_interactive".to_string()));
}

#[test]
fn test_project_prediction() {
    let ai = Oracle::new();
    let test_cases = vec![
        ("Update the README for Swarmonomicon with new API documentation", "Swarmonomicon"),
        ("Fix Hammerspoon window management hotkeys", ".hammerspoon"),
        ("Update MQTT variable handling in mqtt-get-var utility", "mqtt-get-var"),
    ];

    for (description, expected_project) in test_cases {
        let project = enrich(&ai, description, &catalog()).project;
        assert_eq!(project, expected_project);
        assert!(!project.is_empty(), "Project name should not be empty");
    }

    let vague_description = "Fix a bug that was reported yesterday";
    let project = enrich(&ai, vague_description, &catalog()).project;
    assert!(!project.is_empty(), "Project name should not be empty");
}

#[test]
fn test_project_prediction_in_add_todo() {
    let mut tool = TodoTool::new(catalog()).with_ai_client(Oracle::new());
    let description = "Update the Swarmonomicon API documentation with new endpoints";
    tool.add_todo(description, None, "test_agent", None).unwrap();

    let all = tool.todo_list().find_all();
    let todo = all.iter().find(|t| t.description == description).expect("Todo should exist");
    assert!(todo.project.is_some(), "Todo should have a project assigned");
    assert_eq!(todo.project, Some("Swarmonomicon".to_string()));
}

#[test]
fn requests_carry_the_texts() {
    let r = enhance_request("fix login bug");
    assert_eq!(r.system_prompt, ENHANCE_PROMPT);
    assert_eq!(r.messages.len(), 1);
    assert_eq!(r.messages[0].role, "user");
    assert_eq!(
        r.messages[0].content,
        "Task: 'fix login bug'\nOutput a JSON object with enhanced description and priority following the STRICT rules exactly."
    );
    let c = clean_request("{oops}");
    assert_eq!(c.system_prompt, CLEAN_PROMPT);
    assert_eq!(c.messages[0].content, "Clean and format this into proper JSON:\n{oops}");
    let p = catalog().classify_request("tidy up");
    assert!(p.system_prompt.contains(
        "- Swarmonomicon: agent swarm coordination\n- .hammerspoon: desktop automation\n- mqtt-get-var: MQTT variable utility\n\n\nRULES:"
    ));
    assert!(p.system_prompt.contains("use \"madness_interactive\" as the default"));
    assert_eq!(
        p.messages[0].content,
        format!("Task description: 'tidy up'\nWhich project does this {}", "task belong to?")
    );
    assert_eq!(
        catalog().descriptions_text(),
        "- Swarmonomicon: agent swarm coordination\n- .hammerspoon: desktop automation\n- mqtt-get-var: MQTT variable utility\n"
    );
}

#[test]
fn replies_are_read_leniently() {
    assert_eq!(
        read_reply("raw", "{\"description\":\"better\",\"priority\":\"high\"}"),
        ("better".to_string(), TaskPriority::High)
    );
    assert_eq!(
        read_reply("raw", "{\"description\":\"better\",\"priority\":\"low\"}"),
        ("better".to_string(), TaskPriority::Low)
    );
    assert_eq!(
        read_reply("raw", "{\"description\":\"better\",\"priority\":\"urgent\"}"),
        ("better".to_string(), TaskPriority::Medium)
    );
    assert_eq!(
        read_reply("raw", "{\"priority\":\"high\"}"),
        ("raw".to_string(), TaskPriority::High)
    );
    assert_eq!(
        read_reply("raw", "{\"description\": 7, \"priority\": 1}"),
        ("raw".to_string(), TaskPriority::Medium)
    );
    assert_eq!(read_reply("raw", "[1, 2]"), ("raw".to_string(), TaskPriority::Medium));
    assert_eq!(read_reply("raw", "not json at all"), ("raw".to_string(), TaskPriority::Medium));
    assert_eq!(read_reply("raw", ""), ("raw".to_string(), TaskPriority::Medium));
    assert_eq!(
        interpret_reply("raw", None, Some("HIGH".to_string())),
        ("raw".to_string(), TaskPriority::Medium)
    );
}

#[test]
fn project_names_are_unwrapped() {
    assert_eq!(project_from_reply("  \"Swarmonomicon\"\n"), "Swarmonomicon");
    assert_eq!(project_from_reply("'.hammerspoon'"), ".hammerspoon");
    assert_eq!(project_from_reply("\"'both'\""), "both");
    assert_eq!(project_from_reply("'\"inner kept\"'"), "\"inner kept\"");
    assert_eq!(project_from_reply("plain"), "plain");
    assert_eq!(project_from_reply("   "), "");
    assert_eq!(merge_project(Some("mine"), "guessed".to_string()), "mine");
    assert_eq!(merge_project(None, "guessed".to_string()), "guessed");
}

#[test]
fn pipeline_steps_follow_the_replies() {
    let cat = catalog();
    let step = advance(EnrichState::Enhancing, "d", &cat, Ok("first".to_string()));
    assert_eq!(
        step,
        EnrichStep::Ask { request: clean_request("first"), then: EnrichState::Cleaning }
    );
    let step = advance(EnrichState::Cleaning, "d", &cat, Ok("{}".to_string()));
    assert_eq!(
        step,
        EnrichStep::Ask {
            request: cat.classify_request("d"),
            then: EnrichState::Classifying { cleaned: "{}".to_string() },
        }
    );
    let done = advance(
        EnrichState::Classifying {
            cleaned: "{\"description\":\"x\",\"priority\":\"low\"}".to_string(),
        },
        "d",
        &cat,
        Err("timeout".to_string()),
    );
    assert_eq!(
        done,
        EnrichStep::Done(Enrichment {
            description: "x".to_string(),
            priority: TaskPriority::Low,
            project: "madness_interactive".to_string(),
        })
    );
    for state in [EnrichState::Enhancing, EnrichState::Cleaning] {
        assert_eq!(
            advance(state, "d", &cat, Err("down".to_string())),
            EnrichStep::Done(fall_back("d", &cat))
        );
    }
}

struct FailsAt {
    pass: usize,
    seen: RefCell<usize>,
}

impl AiProvider for FailsAt {
    fn chat(&self, _system_prompt: &str, _messages: Vec<ChatMessage>) -> Result<String, String> {
        let n = *self.seen.borrow();
        *self.seen.borrow_mut() = n + 1;
        if n == self.pass {
            Err("timeout".to_string())
        } else {
            Ok("{\"description\":\"sharper\",\"priority\":\"high\"}".to_string())
        }
    }
}

#[test]
fn a_failure_in_any_pass_degrades_gracefully() {
    let cat = catalog();
    let fallback = Enrichment {
        description: "d".to_string(),
        priority: TaskPriority::Medium,
        project: "madness_interactive".to_string(),
    };
    assert_eq!(enrich(&FailsAt { pass: 0, seen: RefCell::new(0) }, "d", &cat), fallback);
    assert_eq!(enrich(&FailsAt { pass: 1, seen: RefCell::new(0) }, "d", &cat), fallback);
    assert_eq!(
        enrich(&FailsAt { pass: 2, seen: RefCell::new(0) }, "d", &cat),
        Enrichment {
            description: "sharper".to_string(),
            priority: TaskPriority::High,
            project: "madness_interactive".to_string(),
        }
    );
    assert_eq!(enrich(&NoAiClient, "d", &cat), fallback);
}

fn task(id: &str, description: &str, target: &str) -> TodoTask {
    TodoTask {
        id: id.to_string(),
        description: description.to_string(),
        enhanced_description: None,
        priority: TaskPriority::Medium,
        project: None,
        source_agent: None,
        target_agent: target.to_string(),
        status: TaskStatus::Pending,
        created_at: 1431648000,
        completed_at: None,
    }
}

#[test]
fn identical_keys_get_one_disambiguated_retry() {
    let mut list = TodoList::new();
    assert_eq!(list.add_task(task("k", "water", "git")), Ok("Added new todo: water".to_string()));
    assert_eq!(list.add_task(task("k", "water", "git")), Ok("Added new todo: water".to_string()));
    assert_eq!(
        list.add_task(task("k", "water", "git")),
        Err(Error::StorageError(StorageError::DuplicateKey))
    );
    let ids: Vec<String> = list.find_all().into_iter().map(|t| t.id).collect();
    assert_eq!(ids, vec!["k", "k_20150515_000000"]);
}

#[test]
fn a_task_without_calendar_time_cannot_be_disambiguated() {
    let mut list = TodoList::new();
    let mut t = task("k", "water", "git");
    t.created_at = i64::MAX;
    assert!(disambiguated(t.clone()).is_none());
    assert!(list.add_task(t.clone()).is_ok());
    assert_eq!(list.add_task(t), Err(Error::StorageError(StorageError::DuplicateKey)));
    assert_eq!(list.len(), 1);
}

#[test]
fn insert_refuses_a_taken_id() {
    let mut list = TodoList::new();
    assert_eq!(list.insert(task("a", "one", "git")), Ok(()));
    assert_eq!(list.insert(task("b", "two", "git")), Ok(()));
    assert_eq!(list.insert(task("a", "three", "git")), Err(StorageError::DuplicateKey));
    assert_eq!(list.len(), 2);
    assert_eq!(list.id_of_description("two"), Some("b".to_string()));
    assert_eq!(list.status_of("b"), Some(TaskStatus::Pending));
    assert_eq!(list.status_of("c"), None);
    assert_eq!(list.id_of_description("three"), None);
}

#[test]
fn insertion_protocol_follows_the_store() {
    let t = task("k", "water", "git");
    assert_eq!(
        after_first_insert(t.clone(), Ok(())),
        InsertStep::Stored("Added new todo: water".to_string())
    );
    let again = with_discriminator(t.clone(), "20150515_000000");
    assert_eq!(again.id, "k_20150515_000000");
    assert_eq!(again.description, "water");
    assert_eq!(disambiguated(t.clone()), Some(again.clone()));
    assert_eq!(
        after_first_insert(t.clone(), Err(StorageError::DuplicateKey)),
        InsertStep::Retry(again)
    );
    assert_eq!(
        after_first_insert(t.clone(), Err(StorageError::Other("disk full".to_string()))),
        InsertStep::Failed(Error::StorageError(StorageError::Other("disk full".to_string())))
    );
    assert_eq!(after_retry("water", Ok(())), Ok("Added new todo: water".to_string()));
    assert_eq!(
        after_retry("water", Err(StorageError::DuplicateKey)),
        Err(Error::StorageError(StorageError::DuplicateKey))
    );
    assert_eq!(
        after_retry("water", Err(StorageError::Other("gone".to_string()))),
        Err(Error::StorageError(StorageError::Other("gone".to_string())))
    );
    assert_eq!(
        classify_store_error("E11000 duplicate key error collection: todos".to_string()),
        StorageError::DuplicateKey
    );
    assert_eq!(
        classify_store_error("connection reset".to_string()),
        StorageError::Other("connection reset".to_string())
    );
}

#[test]
fn status_only_moves_forward() {
    let (pending, in_progress, completed, failed) = (
        TaskStatus::Pending,
        TaskStatus::InProgress,
        TaskStatus::Completed,
        TaskStatus::Failed,
    );
    let all = [pending, in_progress, completed, failed];
    let allowed = [
        (pending, in_progress),
        (pending, completed),
        (pending, failed),
        (in_progress, completed),
        (in_progress, failed),
    ];
    for from in all {
        for to in all {
            assert_eq!(from.can_become(to), allowed.contains(&(from, to)), "{:?} -> {:?}", from, to);
        }
    }
    assert!(!pending.is_terminal());
    assert!(!in_progress.is_terminal());
    assert!(completed.is_terminal());
    assert!(failed.is_terminal());
    assert_eq!(in_progress.as_str(), "InProgress");

    let mut t = task("k", "water", "git");
    assert!(t.advance(in_progress, 5));
    assert_eq!((t.status, t.completed_at), (in_progress, None));
    assert!(!t.advance(pending, 6));
    assert_eq!((t.status, t.completed_at), (in_progress, None));
    assert!(t.advance(failed, 7));
    assert_eq!((t.status, t.completed_at), (failed, Some(7)));
    assert!(!t.advance(completed, 8));
    assert!(!t.advance(in_progress, 8));
    assert_eq!((t.status, t.completed_at), (failed, Some(7)));
}

#[test]
fn update_status_counts_what_it_changed() {
    let mut list = TodoList::new();
    list.insert(task("a", "one", "git")).unwrap();
    assert_eq!(list.update_status("missing", TaskStatus::InProgress, 1), 0);
    assert_eq!(list.update_status("a", TaskStatus::InProgress, 1), 1);
    assert_eq!(list.update_status("a", TaskStatus::Pending, 2), 0);
    assert_eq!(list.update_status("a", TaskStatus::Completed, 3), 1);
    assert_eq!(list.update_status("a", TaskStatus::Failed, 4), 0);
    let stored = list.find_all();
    assert_eq!(stored[0].status, TaskStatus::Completed);
    assert_eq!(stored[0].completed_at, Some(3));
}

#[test]
fn message_text_prefers_the_enhanced_description() {
    let mut t = task("k", "raw words", "git");
    assert_eq!(t.message_text(), "raw words");
    t.enhanced_description = Some(String::new());
    assert_eq!(t.message_text(), "raw words");
    t.enhanced_description = Some("better words".to_string());
    assert_eq!(t.message_text(), "better words");
}

/// Fails on every message that mentions "boom".
struct Moody {
    config: AgentConfig,
    seen: Vec<String>,
}

impl Agent for Moody {
    fn process_message(&mut self, message: Message) -> Result<Message, Error> {
        self.seen.push(message.content.clone());
        if message.content.contains("boom") {
            Err(Error::ExternalServiceError("exploded".to_string()))
        } else {
            Ok(Message::new(format!("done: {}", message.content)))
        }
    }

    fn transfer_to(&mut self, target_agent: String, _message: Message) -> Result<Message, Error> {
        Err(Error::InvalidTransferTarget(target_agent))
    }

    fn call_tool(
        &mut self,
        _tool: &swarmonomicon::types::Tool,
        _params: std::collections::HashMap<String, String>,
    ) -> Result<String, Error> {
        Err(Error::ToolError("no tools".to_string()))
    }

    fn get_current_state(&self) -> Option<swarmonomicon::types::State> {
        None
    }

    fn get_config(&self) -> AgentConfig {
        self.config.clone()
    }
}

fn moody() -> Moody {
    Moody {
        config: AgentConfig {
            name: "git".to_string(),
            public_description: "moody".to_string(),
            instructions: "".to_string(),
            tools: vec![],
            downstream_agents: vec![],
            personality: None,
            state_machine: None,
        },
        seen: vec![],
    }
}

#[test]
fn a_round_takes_pending_tasks_in_order_and_survives_failures() {
    let mut list = TodoList::new();
    list.insert(task("1", "first", "git")).unwrap();
    list.insert(task("2", "for someone else", "haiku")).unwrap();
    list.insert(task("3", "boom", "git")).unwrap();
    let mut started = task("4", "already started", "git");
    started.status = TaskStatus::InProgress;
    list.insert(started).unwrap();
    let mut enhanced = task("5", "last", "git");
    enhanced.enhanced_description = Some("last, in detail".to_string());
    list.insert(enhanced).unwrap();

    let mut agent = moody();
    let reports = list.run_pending_at("git", &mut agent, 500);

    assert_eq!(agent.seen, vec!["first", "boom", "last, in detail"]);
    let ids: Vec<&str> = reports.iter().map(|r| r.id.as_str()).collect();
    assert_eq!(ids, vec!["1", "3", "5"]);
    assert_eq!(reports[0].outcome.as_ref().unwrap().content, "done: first");
    assert_eq!(
        reports[1].outcome,
        Err(Error::ExternalServiceError("exploded".to_string()))
    );
    assert!(reports[2].outcome.is_ok());

    let after: Vec<(String, TaskStatus, Option<i64>)> =
        list.find_all().into_iter().map(|t| (t.id, t.status, t.completed_at)).collect();
    assert_eq!(
        after,
        vec![
            ("1".to_string(), TaskStatus::Completed, Some(500)),
            ("2".to_string(), TaskStatus::Pending, None),
            ("3".to_string(), TaskStatus::Failed, Some(500)),
            ("4".to_string(), TaskStatus::InProgress, None),
            ("5".to_string(), TaskStatus::Completed, Some(500)),
        ]
    );

    let again = list.run_pending("git", &mut agent);
    assert!(again.is_empty());
    assert_eq!(agent.seen.len(), 3);
    assert_eq!(CHECK_INTERVAL_SECS, 30);
}

#[test]
fn process_task_hands_the_text_over() {
    let mut agent = moody();
    let r = process_task(&mut agent, &task("1", "polish", "git"), 9).unwrap();
    assert_eq!(r.content, "done: polish");
    assert_eq!(agent.seen, vec!["polish"]);
}

#[test]
fn security_task_for_git_is_stored_pending_and_processed() {
    let mut tool = TodoTool::new(catalog()).with_ai_client(Oracle::new());
    let said = tool
        .add_todo("fix critical security vulnerability in login", None, "git", None)
        .unwrap();
    assert_eq!(said, "Added new todo: fix critical security vulnerability in login");
    let stored = tool.todo_list().find_all();
    assert_eq!(stored.len(), 1);
    assert_eq!(stored[0].priority, TaskPriority::High);
    assert_eq!(stored[0].status, TaskStatus::Pending);
    assert_eq!(stored[0].target_agent, "git");
    assert_eq!(stored[0].description, "fix critical security vulnerability in login");
    assert_eq!(stored[0].source_agent, Some("mcp_server".to_string()));
    assert_eq!(stored[0].completed_at, None);

    let mut list = TodoList::new();
    list.insert(stored[0].clone()).unwrap();
    let mut agent = moody();
    let reports = list.run_pending_at("git", &mut agent, stored[0].created_at + 30);
    assert_eq!(reports.len(), 1);
    let after = list.find_all();
    assert_eq!(after[0].status, TaskStatus::Completed);
    assert_eq!(after[0].target_agent, "git");
    assert_eq!(after[0].completed_at, Some(stored[0].created_at + 30));
    assert!(agent.seen[0].contains("security vulnerability"));
}

#[test]
fn new_tasks_are_pending_and_filed() {
    let e = Enrichment {
        description: "better".to_string(),
        priority: TaskPriority::High,
        project: "guessed".to_string(),
    };
    let t = assemble_task("id-1".to_string(), "raw", e, Some("mine"), "git", 42);
    assert_eq!(
        t,
        TodoTask {
            id: "id-1".to_string(),
            description: "raw".to_string(),
            enhanced_description: Some("better".to_string()),
            priority: TaskPriority::High,
            project: Some("mine".to_string()),
            source_agent: Some("mcp_server".to_string()),
            target_agent: "git".to_string(),
            status: TaskStatus::Pending,
            created_at: 42,
            completed_at: None,
        }
    );
    let e = Enrichment {
        description: "better".to_string(),
        priority: TaskPriority::Low,
        project: "guessed".to_string(),
    };
    let a = new_task("raw", e, None, "git");
    assert_eq!(a.project, Some("guessed".to_string()));
    assert_eq!(a.id.chars().count(), 36);
    assert!(a.created_at > 1_600_000_000);
    let e = Enrichment {
        description: "better".to_string(),
        priority: TaskPriority::Low,
        project: "guessed".to_string(),
    };
    let b = new_task("raw", e, None, "git");
    assert_ne!(a.id, b.id);
}

#[test]
fn commands_are_read_from_parameters() {
    assert_eq!(
        parse_command(&params(vec![("description", "x")])),
        Err(Error::ToolError("Missing command parameter".to_string()))
    );
    assert_eq!(
        parse_command(&params(vec![("command", "add")])),
        Err(Error::ToolError("Missing todo description".to_string()))
    );
    assert_eq!(
        parse_command(&params(vec![("command", "complete")])),
        Err(Error::ToolError("Missing todo description".to_string()))
    );
    assert_eq!(
        parse_command(&params(vec![("command", "fail")])),
        Err(Error::ToolError("Missing todo description".to_string()))
    );
    assert_eq!(
        parse_command(&params(vec![("command", "dance"), ("description", "x")])),
        Err(Error::ToolError("Unknown todo command".to_string()))
    );
    assert_eq!(parse_command(&params(vec![("command", "list")])), Ok(TodoCommand::List));
    assert_eq!(
        parse_command(&params(vec![("command", "add"), ("description", "x")])),
        Ok(TodoCommand::Add {
            description: "x".to_string(),
            context: None,
            target_agent: "user".to_string(),
            project: None,
        })
    );
    assert_eq!(
        parse_command(&params(vec![
            ("project", "p"),
            ("target_agent", "git"),
            ("context", "c"),
            ("description", "x"),
            ("command", "add"),
            ("command", "list"),
        ])),
        Ok(TodoCommand::Add {
            description: "x".to_string(),
            context: Some("c".to_string()),
            target_agent: "git".to_string(),
            project: Some("p".to_string()),
        })
    );
    assert_eq!(
        parse_command(&params(vec![("command", "complete"), ("description", "x")])),
        Ok(TodoCommand::Complete { description: "x".to_string() })
    );
    assert_eq!(
        parse_command(&params(vec![("command", "fail"), ("description", "x")])),
        Ok(TodoCommand::Fail { description: "x".to_string() })
    );
}

#[test]
fn the_tool_lists_completes_and_fails() {
    let mut tool = TodoTool::new(catalog());
    assert_eq!(tool.execute(&params(vec![("command", "list")])), Ok("No todos found.".to_string()));
    tool.execute(&params(vec![("command", "add"), ("description", "one")])).unwrap();
    tool.execute(&params(vec![("command", "add"), ("description", "two")])).unwrap();
    assert_eq!(
        tool.execute(&params(vec![("command", "complete"), ("description", "one")])),
        Ok("Updated todo status to Completed".to_string())
    );
    assert_eq!(
        tool.execute(&params(vec![("command", "fail"), ("description", "one")])),
        Err(Error::ValidationError("Cannot move a todo from Completed to Failed".to_string()))
    );
    assert_eq!(
        tool.execute(&params(vec![("command", "fail"), ("description", "two")])),
        Ok("Updated todo status to Failed".to_string())
    );
    assert_eq!(
        tool.execute(&params(vec![("command", "complete"), ("description", "three")])),
        Err(Error::NotFound("three".to_string()))
    );
    assert_eq!(
        tool.list_todos(),
        "Current todos:\n- one (Completed)\n- two (Failed)\n"
    );
    assert_eq!(
        tool.execute(&params(vec![("command", "sing")])),
        Err(Error::ToolError("Unknown todo command".to_string()))
    );
    let stored = tool.todo_list().find_all();
    assert_eq!(stored[0].enhanced_description, Some("one".to_string()));
    assert_eq!(stored[0].priority, TaskPriority::Medium);
    assert_eq!(stored[0].project, Some("madness_interactive".to_string()));
    assert_eq!(stored[0].target_agent, "user");
    assert!(stored[0].completed_at.is_some());
}

#[test]
fn listings_and_update_messages() {
    assert_eq!(render_todos(&vec![]), "No todos found.");
    let mut started = task("2", "second", "git");
    started.status = TaskStatus::InProgress;
    assert_eq!(
        render_todos(&vec![task("1", "first", "git"), started]),
        "Current todos:\n- first (Pending)\n- second (InProgress)\n"
    );
    let pending = Some(TaskStatus::Pending);
    assert_eq!(
        status_update_result("first", pending, TaskStatus::Completed, 1),
        Ok("Updated todo status to Completed".to_string())
    );
    assert_eq!(
        status_update_result("first", pending, TaskStatus::Completed, 0),
        Err(Error::NotFound("first".to_string()))
    );
    assert_eq!(
        status_update_result("first", pending, TaskStatus::Failed, 2),
        Err(Error::NotFound("first".to_string()))
    );
    assert_eq!(
        status_update_result("first", None, TaskStatus::Failed, 1),
        Err(Error::NotFound("first".to_string()))
    );
    assert_eq!(
        status_update_result("first", Some(TaskStatus::Completed), TaskStatus::InProgress, 1),
        Err(Error::ValidationError("Cannot move a todo from Completed to InProgress".to_string()))
    );
    assert_eq!(
        status_update_result("first", Some(TaskStatus::Failed), TaskStatus::Completed, 0),
        Err(Error::ValidationError("Cannot move a todo from Failed to Completed".to_string()))
    );
}

#[test]
fn a_task_is_shown_as_it_is() {
    let mut t = task("k", "water", "git");
    t.project = Some("garden".to_string());
    t.completed_at = Some(3);
    let shown = TaskResponse::from(t.clone());
    assert_eq!(shown.id, t.id);
    assert_eq!(shown.description, t.description);
    assert_eq!(shown.enhanced_description, t.enhanced_description);
    assert_eq!(shown.priority, t.priority);
    assert_eq!(shown.project, t.project);
    assert_eq!(shown.source_agent, t.source_agent);
    assert_eq!(shown.target_agent, t.target_agent);
    assert_eq!(shown.status, t.status);
    assert_eq!(shown.created_at, t.created_at);
    assert_eq!(shown.completed_at, t.completed_at);
}

#[test]
fn greeter_works_through_its_tasks() {
    let mut list = TodoList::new();
    list.insert(task("1", "help", "greeter")).unwrap();
    let mut greeter = GreeterAgent::new(AgentConfig {
        name: "greeter".to_string(),
        public_description: "".to_string(),
        instructions: "".to_string(),
        tools: vec![],
        downstream_agents: vec![],
        personality: None,
        state_machine: None,
    });
    let reports = list.run_pending_at("greeter", &mut greeter, 1);
    assert_eq!(reports.len(), 1);
    assert_eq!(greeter.get_current_state().unwrap().name, "help");
}

#[test]
fn three_replies_settle_like_the_steps() {
    let cat = catalog();
    let ok = |s: &str| -> Result<String, String> { Ok(s.to_string()) };
    let err = || -> Result<String, String> { Err("down".to_string()) };
    let json = "{\"description\":\"sharper\",\"priority\":\"low\"}";
    assert_eq!(
        settle("d", &cat, ok("anything"), ok(json), ok("'mqtt-get-var'")),
        Enrichment {
            description: "sharper".to_string(),
            priority: TaskPriority::Low,
            project: "mqtt-get-var".to_string(),
        }
    );
    assert_eq!(
        settle("d", &cat, ok("anything"), ok(json), err()),
        Enrichment {
            description: "sharper".to_string(),
            priority: TaskPriority::Low,
            project: "madness_interactive".to_string(),
        }
    );
    assert_eq!(settle("d", &cat, err(), ok(json), ok("x")), fall_back("d", &cat));
    assert_eq!(settle("d", &cat, ok("anything"), err(), ok("x")), fall_back("d", &cat));
    assert_eq!(
        settle("d", &cat, ok("anything"), ok("no json"), ok("x")),
        Enrichment {
            description: "d".to_string(),
            priority: TaskPriority::Medium,
            project: "madness_interactive".to_string(),
        }
    );
    assert_eq!(
        settle("d", &cat, ok("anything"), ok("no json"), ok(" \"Swarmonomicon\" ")),
        Enrichment {
            description: "d".to_string(),
            priority: TaskPriority::Medium,
            project: "Swarmonomicon".to_string(),
        }
    );
}

#[test]
fn a_project_is_held_to_the_catalog() {
    let cat = catalog();
    assert_eq!(cat.settle_project("Swarmonomicon".to_string()), "Swarmonomicon");
    assert_eq!(cat.settle_project(".hammerspoon".to_string()), ".hammerspoon");
    assert_eq!(cat.settle_project("mqtt-get-var".to_string()), "mqtt-get-var");
    assert_eq!(cat.settle_project("madness_interactive".to_string()), "madness_interactive");
    assert_eq!(cat.settle_project("swarmonomicon".to_string()), "madness_interactive");
    assert_eq!(cat.settle_project("agent swarm coordination".to_string()), "madness_interactive");
    assert_eq!(cat.settle_project("".to_string()), "madness_interactive");
    assert_eq!(cat.settle_project("I think it is Swarmonomicon".to_string()), "madness_interactive");
    assert_eq!(cat.predict_project(Ok(" '.hammerspoon'\n".to_string())), ".hammerspoon");
    assert_eq!(cat.predict_project(Ok("nothing I know".to_string())), "madness_interactive");
    assert_eq!(cat.predict_project(Ok("".to_string())), "madness_interactive");
    assert_eq!(cat.predict_project(Err("timeout".to_string())), "madness_interactive");
    let bare = ProjectCatalog { projects: vec![], default_project: "a".to_string() };
    let other = ProjectCatalog { projects: vec![], default_project: "b".to_string() };
    assert_eq!(bare.settle_project("b".to_string()), "a");
    assert_eq!(other.settle_project("b".to_string()), "b");
    let ai = Oracle::new();
    assert_eq!(enrich(&ai, "Fix a bug that was reported yesterday", &bare).project, "a");
    assert_eq!(enrich(&ai, "Update the README for Swarmonomicon", &bare).project, "a");
    assert_eq!(enrich(&ai, "Update the README for Swarmonomicon", &cat).project, "Swarmonomicon");
}

#[test]
fn pending_tasks_are_picked_in_order() {
    let mut done = task("2", "done", "git");
    done.status = TaskStatus::Completed;
    let all = vec![
        task("1", "first", "git"),
        done,
        task("3", "other", "haiku"),
        task("4", "last", "git"),
    ];
    let due = pending_for(&all, "git");
    let ids: Vec<&str> = due.iter().map(|t| t.id.as_str()).collect();
    assert_eq!(ids, vec!["1", "4"]);
    assert_eq!(due[1], all[3]);
    assert!(pending_for(&all, "greeter").is_empty());
    assert!(was_claimed(&Ok(1)));
    assert!(!was_claimed(&Ok(0)));
    assert!(!was_claimed(&Ok(2)));
    assert!(!was_claimed(&Err(Error::StorageError(StorageError::DuplicateKey))));
    assert_eq!(final_status(true), TaskStatus::Completed);
    assert_eq!(final_status(false), TaskStatus::Failed);
    let m = task_message(&all[0], 8);
    assert_eq!(m.content, "first");
    assert_eq!(m.role, Some("assistant".to_string()));
    assert_eq!(m.timestamp, Some(8));
    assert_eq!(m.metadata, None);
}
