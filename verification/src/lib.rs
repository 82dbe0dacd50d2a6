//! Coordination core for a set of named conversational agents: a per-agent
//! state machine, a registry with validated transfer between agents, and a
//! task pipeline that classifies, stores and dispatches background work.

pub mod agent;
pub mod agents;
pub mod ai;
pub mod api;
pub mod clock;
pub mod error;
pub mod ident;
pub mod json;
pub mod lookup;
pub mod registry;
pub mod state;
pub mod text;
pub mod todo;
pub mod tools;
pub mod transfer;
pub mod types;
