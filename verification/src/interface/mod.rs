//! The terminal interface: actions, the application state machine and the panes.

pub mod action;
pub mod app;
pub mod components;
