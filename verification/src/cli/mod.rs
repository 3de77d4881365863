//! The terminal interface: its state, the decisions of its event loop, and
//! the layout of its view.

pub mod app;
pub mod event_loop;
pub mod markdown;
pub mod view;
