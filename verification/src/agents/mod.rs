//! The agents that come with the library.

pub mod greeter;
pub mod haiku;
pub mod user_agent;
pub mod wrapper;
pub mod git_assistant;
pub mod browser_agent;
