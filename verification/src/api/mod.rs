//! The Twitch side: decisions taken on EventSub websocket frames.

pub mod beatmap;
pub mod eventsub;
