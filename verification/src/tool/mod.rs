//! The tools the agent can call.

pub mod function;
pub mod runtime;
pub mod shell;
