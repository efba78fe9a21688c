use groyne::configuration::{ChatConfig, Configuration, KeyBindings, Twitch};
use groyne::interface::app::Mode;

#[test]
fn new_configuration_keeps_credentials_and_default_chat() {
    let config = Configuration::new("streamer".to_string(), "token123".to_string());
    assert_eq!(config.twitch.username, "streamer");
    assert_eq!(config.twitch.access_token, "token123");
    assert!(!config.chat.timestamp);
    assert!(!config.chat.use_color);
    assert_eq!(config.chat.margin, 0);
}

#[test]
fn defaults_are_empty() {
    let twitch = Twitch::default();
    assert!(twitch.username.is_empty());
    assert!(twitch.access_token.is_empty());
    let chat = ChatConfig::default();
    assert!(!chat.timestamp && !chat.use_color && chat.margin == 0);
    let config = Configuration::default();
    assert!(config.twitch.username.is_empty());
    assert_eq!(config.chat.margin, 0);
}

#[test]
fn configuration_clone_is_equal() {
    let config = Configuration::new("a".to_string(), "b".to_string());
    let copy = config.clone();
    assert_eq!(copy.twitch.username, "a");
    assert_eq!(copy.twitch.access_token, "b");
}

#[test]
fn key_bindings_start_empty() {
    let bindings = KeyBindings::default();
    assert!(bindings.0.is_empty());
    assert!(bindings.0.get(&Mode::Home).is_none());
}

#[test]
fn mode_defaults_to_home() {
    assert_eq!(Mode::default(), Mode::Home);
}

#[test]
fn key_bindings_clone() {
    let bindings = KeyBindings::default();
    let copy = bindings.clone();
    assert!(copy.0.is_empty());
}
