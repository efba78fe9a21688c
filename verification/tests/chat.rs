use groyne::configuration::{ChatConfig, Configuration};
use groyne::interface::action::Action;
use groyne::interface::components::chat::{
    time_label, Chat, ChatMessage, ChatState, CHAT_HISTORY_CAPACITY,
};
use ratatui::style::Color;

fn message(n: usize) -> ChatMessage {
    ChatMessage {
        username: format!("user{n}"),
        text: format!("message {n}"),
        color: "#00FF7F".to_string(),
        timestamp: jiff::Timestamp::from_second(1_700_000_000 + n as i64).unwrap(),
    }
}

#[test]
fn new_state_is_empty() {
    let state = ChatState::new();
    assert!(state.messages().is_empty());
}

#[test]
fn push_keeps_order() {
    let mut state = ChatState::new();
    state.push(message(1));
    state.push(message(2));
    state.push(message(3));
    let texts: Vec<String> = state.messages().into_iter().map(|m| m.text).collect();
    assert_eq!(texts, vec!["message 1", "message 2", "message 3"]);
}

#[test]
fn history_keeps_latest_fifty() {
    let mut state = ChatState::new();
    for n in 0..120 {
        state.push(message(n));
    }
    let messages = state.messages();
    assert_eq!(CHAT_HISTORY_CAPACITY, 50);
    assert_eq!(messages.len(), 50);
    assert_eq!(messages[0].username, "user70");
    assert_eq!(messages[49].username, "user119");
    for (i, m) in messages.iter().enumerate() {
        assert_eq!(m.text, format!("message {}", 70 + i));
    }
}

#[test]
fn history_at_capacity_drops_oldest_only() {
    let mut state = ChatState::new();
    for n in 0..50 {
        state.push(message(n));
    }
    assert_eq!(state.messages().len(), 50);
    assert_eq!(state.messages()[0].username, "user0");
    state.push(message(50));
    let messages = state.messages();
    assert_eq!(messages.len(), 50);
    assert_eq!(messages[0].username, "user1");
    assert_eq!(messages[49].username, "user50");
}

#[test]
fn chat_name_before_and_after_connecting() {
    let mut chat = Chat::new();
    assert_eq!(chat.name(), "Connecting...");
    let emitted = chat.update(&Action::Connected("somestreamer".to_string()));
    assert!(emitted.is_none());
    assert_eq!(chat.name(), "Chat: [somestreamer]");
}

#[test]
fn chat_update_adds_messages_and_ignores_others() {
    let mut chat = Chat::new();
    assert!(chat.update(&Action::ChatMessage(message(7))).is_none());
    assert!(chat.update(&Action::Tick).is_none());
    assert!(chat.update(&Action::Render).is_none());
    assert!(chat.update(&Action::Quit).is_none());
    let messages = chat.messages();
    assert_eq!(messages.len(), 1);
    assert_eq!(messages[0].username, "user7");
    assert_eq!(chat.name(), "Connecting...");
}

#[test]
fn format_message_plain() {
    let chat = Chat::new();
    let m = message(3);
    let line = chat.format_message(&m);
    assert!(line.time_label.is_none());
    assert_eq!(line.color, None);
    assert_eq!(line.username, "user3");
    assert_eq!(line.text, ": message 3");
}

#[test]
fn format_message_with_timestamp_and_color() {
    let mut chat = Chat::new();
    let mut config = Configuration::new("me".to_string(), "tok".to_string());
    config.chat = ChatConfig { timestamp: true, use_color: true, margin: 2 };
    chat.register_config_handler(&config);
    assert_eq!(chat.config().margin, 2);
    let m = message(4);
    let line = chat.format_message(&m);
    let label = line.time_label.clone().unwrap();
    assert_eq!(label.len(), 9);
    assert!(label.ends_with(' '));
    assert_eq!(label.as_bytes()[2], b':');
    assert_eq!(line.color, Some(Color::Rgb(0x00, 0xFF, 0x7F)));
    assert_eq!(line.text, ": message 4");
}

#[test]
fn message_clone_is_equal() {
    let m = message(9);
    let c = m.clone();
    assert_eq!(c.username, m.username);
    assert_eq!(c.text, m.text);
    assert_eq!(c.color, m.color);
    assert_eq!(c.timestamp, m.timestamp);
}

#[test]
fn named_and_unreadable_colors() {
    let mut chat = Chat::new();
    let mut config = Configuration::new("me".to_string(), "tok".to_string());
    config.chat = ChatConfig { timestamp: false, use_color: true, margin: 0 };
    chat.register_config_handler(&config);
    let mut m = message(5);
    m.color = "light blue".to_string();
    assert_eq!(chat.format_message(&m).color, Some(Color::LightBlue));
    assert_eq!(chat.format_message_checked(&m).unwrap().color, Some(Color::LightBlue));
    m.color = String::new();
    assert!(chat.format_message_checked(&m).is_none());
    m.color = "#12345".to_string();
    assert!(chat.format_message_checked(&m).is_none());
    let plain = Chat::new();
    assert_eq!(plain.format_message_checked(&m).unwrap().color, None);
}

#[test]
fn time_label_adds_a_space() {
    assert_eq!(time_label("15:45:10".to_string()), "15:45:10 ");
}
