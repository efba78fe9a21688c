//! The panes that the tiler lays out.

pub mod chat;
pub mod fetcher;
pub mod metadata;
pub mod tiler;
