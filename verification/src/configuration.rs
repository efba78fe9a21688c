//! User configuration read from `config.toml`.

use crate::interface::action::Action;
use crate::interface::app::Mode;
use crossterm::event::KeyEvent;
use std::collections::HashMap;
use vstd::prelude::*;

verus! {

/// Credentials for the Twitch account the client logs in with.
#[derive(Debug)]
pub struct Twitch {
    pub username: String,
    pub access_token: String,
}

/// How chat lines are shown.
#[derive(Debug, Clone, Copy)]
pub struct ChatConfig {
    pub timestamp: bool,
    pub use_color: bool,
    pub margin: u8,
}

/// The whole configuration file.
#[derive(Debug)]
pub struct Configuration {
    pub twitch: Twitch,
    pub chat: ChatConfig,
}

impl Clone for Twitch {
    fn clone(&self) -> (res: Self)
        ensures
            res == *self,
    {
        Twitch { username: self.username.clone(), access_token: self.access_token.clone() }
    }
}

impl Clone for Configuration {
    fn clone(&self) -> (res: Self)
        ensures
            res == *self,
    {
        Configuration { twitch: self.twitch.clone(), chat: self.chat }
    }
}

impl Default for Twitch {
    fn default() -> (res: Self)
        ensures
            res.username@ == Seq::<char>::empty(),
            res.access_token@ == Seq::<char>::empty(),
    {
        Twitch { username: String::new(), access_token: String::new() }
    }
}

impl Default for ChatConfig {
    fn default() -> (res: Self)
        ensures
            !res.timestamp,
            !res.use_color,
            res.margin == 0,
    {
        ChatConfig { timestamp: false, use_color: false, margin: 0 }
    }
}

impl Default for Configuration {
    fn default() -> (res: Self)
        ensures
            res.twitch.username@ == Seq::<char>::empty(),
            res.twitch.access_token@ == Seq::<char>::empty(),
            res.chat == (ChatConfig { timestamp: false, use_color: false, margin: 0 }),
    {
        Configuration { twitch: Twitch::default(), chat: ChatConfig::default() }
    }
}

impl Configuration {
    /// A configuration for the given account, with the default chat settings.
    pub fn new(username: String, access_token: String) -> (res: Self)
        ensures
            res.twitch.username == username,
            res.twitch.access_token == access_token,
            res.chat == (ChatConfig { timestamp: false, use_color: false, margin: 0 }),
    {
        Configuration { twitch: Twitch { username, access_token }, chat: ChatConfig::default() }
    }
}

/// Key sequences bound to actions, per input mode.
#[derive(Debug, Clone)]
pub struct KeyBindings(pub HashMap<Mode, HashMap<Vec<KeyEvent>, Box<Action>>>);

impl Default for KeyBindings {
    fn default() -> (res: Self)
        ensures
            res.0@ == Map::<Mode, HashMap<Vec<KeyEvent>, Box<Action>>>::empty(),
    {
        KeyBindings(HashMap::new())
    }
}

} // verus!
