//! The language model side of the agent.

pub mod openai;
