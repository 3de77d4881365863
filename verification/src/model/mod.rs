//! The data that approval, sandbox and retry decisions are made on.

pub mod approval;
pub mod capability;
pub mod command_request;
pub mod event;
pub mod execution;
