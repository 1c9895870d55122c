//! AI agents.
//!
//! - [`anthropic`] — the Anthropic Messages API client's logic
//! - [`planner`] — task plans
use vstd::prelude::*;

pub mod anthropic;
pub mod planner;

verus! {

/// Kind of agent.
#[derive(Debug, Clone, Copy, PartialEq, Eq, Structural)]
pub enum AgentKind {
    /// The Anthropic Messages API.
    Anthropic,
}

/// State of an agent.
#[derive(Debug, Clone, Copy, PartialEq, Eq, Structural)]
pub enum AgentState {
    /// Idle.
    Idle,
    /// Running.
    Running,
    /// Finished.
    Done,
    /// Failed.
    Failed,
}

} // verus!
