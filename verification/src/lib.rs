//! Core logic of a terminal client for Twitch chat: configuration, the
//! application's action state machine, the chat history, the pane tiler and the
//! decisions taken on EventSub websocket frames.

pub mod api;
pub mod configuration;
pub mod interface;
