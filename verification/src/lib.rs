//! Approval, sandbox and retry policy for a small tool-running coding agent,
//! together with the text formatting, stream parsing and terminal state that
//! surround it.

pub mod text;
pub mod agent;
pub mod approval;
pub mod cli;
pub mod model;
pub mod util;
pub mod sandbox;
pub mod tool;
