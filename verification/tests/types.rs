use std::collections::HashMap;

use swarmonomicon::error::{Error, StorageError};
use swarmonomicon::types::{Message, MessageMetadata, State, Tool};

#[test]
fn new_message_is_from_the_assistant() {
    let m = Message::new("hello".to_string());
    assert_eq!(m.content, "hello");
    assert_eq!(m.metadata, None);
    assert_eq!(m.role, Some("assistant".to_string()));
    assert!(m.timestamp.unwrap() > 1_600_000_000);
    let at = Message::at("hello".to_string(), 5);
    assert_eq!(at.timestamp, Some(5));
    assert_eq!(at.to_text(), "hello");
}

#[test]
fn message_builders_set_one_field() {
    let m = Message::at("c".to_string(), 5)
        .with_role(Some("user".to_string()))
        .with_timestamp(None)
        .with_metadata(MessageMetadata::new("greeter".to_string()));
    assert_eq!(m.content, "c");
    assert_eq!(m.role, Some("user".to_string()));
    assert_eq!(m.timestamp, None);
    assert_eq!(m.metadata.as_ref().unwrap().agent, "greeter");
    let none = m.clone().with_role(None);
    assert_eq!(none.role, None);
    assert_eq!(none.metadata, m.metadata);
}

#[test]
fn metadata_builders_set_one_field() {
    let mut context = HashMap::new();
    context.insert("k".to_string(), "v".to_string());
    let mut results = HashMap::new();
    results.insert("tool".to_string(), "ok".to_string());
    let bare = MessageMetadata::new("haiku".to_string());
    assert_eq!(
        bare,
        MessageMetadata {
            agent: "haiku".to_string(),
            state: None,
            personality_traits: None,
            transfer_target: None,
            context: None,
            tool_results: None,
        }
    );
    let full = bare
        .with_state("complete".to_string())
        .with_personality(vec!["zen".to_string()])
        .with_transfer_target("git".to_string())
        .with_context(context.clone())
        .with_tool_results(results.clone());
    assert_eq!(
        full,
        MessageMetadata {
            agent: "haiku".to_string(),
            state: Some("complete".to_string()),
            personality_traits: Some(vec!["zen".to_string()]),
            transfer_target: Some("git".to_string()),
            context: Some(context),
            tool_results: Some(results),
        }
    );
    assert_eq!(full.clone(), full);
}

#[test]
fn state_from_name_is_bare() {
    let s = State::from_str("idle");
    assert_eq!(
        s,
        State { name: "idle".to_string(), data: None, prompt: None, transitions: None, validation: None }
    );
    assert_eq!(s.find_target("go"), None);
    let mut t = s.clone();
    t.transitions = Some(vec![
        ("go".to_string(), "a".to_string()),
        ("stop".to_string(), "b".to_string()),
        ("go".to_string(), "c".to_string()),
    ]);
    assert_eq!(t.find_target("go"), Some(&"a".to_string()));
    assert_eq!(t.find_target("stop"), Some(&"b".to_string()));
    assert_eq!(t.find_target("wait"), None);
}

#[test]
fn tools_are_copied_whole() {
    let mut parameters = HashMap::new();
    parameters.insert("path".to_string(), "string".to_string());
    let tool = Tool { name: "ls".to_string(), description: "lists".to_string(), parameters };
    assert_eq!(tool.clone(), tool);
}

#[test]
fn errors_have_text() {
    assert_eq!(Error::NotFound("git".to_string()).message(), "not found: git");
    assert_eq!(
        Error::InvalidTransferTarget("git".to_string()).message(),
        "Invalid transfer target: git"
    );
    assert_eq!(Error::ValidationError("x".to_string()).message(), "validation failed: x");
    assert_eq!(Error::ToolError("x".to_string()).message(), "tool error: x");
    assert_eq!(
        Error::StorageError(StorageError::DuplicateKey).message(),
        "storage error: duplicate key"
    );
    assert_eq!(
        Error::StorageError(StorageError::Other("x".to_string())).message(),
        "storage error: x"
    );
    assert_eq!(
        Error::ExternalServiceError("x".to_string()).message(),
        "external service error: x"
    );
}
