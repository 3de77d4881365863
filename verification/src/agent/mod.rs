//! The agent side: the events a run streams out, the mapping of a model's
//! streamed chunks to those events, and the decisions of the ReAct loop.

pub mod llm;
pub mod react;
pub mod stream_event;
