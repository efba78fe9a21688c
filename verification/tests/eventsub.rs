use groyne::api::beatmap::has_beatmap_id;
use groyne::api::eventsub::{receive_outcome, receive_step, ReceiveOutcome, ReceiveStep, SocketMessage};
use groyne::api::eventsub::{
    construct_message_from_payload, frame_outcome, handle_frame_at, handle_message, handle_notification,
    process_chat_message, session_from_frame, token_needs_refresh, welcome_outcome, ChatPayload,
    EventSubError, FrameOutcome, MessageOutcome, NotificationKind, Unhandled, WebsocketFrame,
};

const WELCOME: &str = r#"{
  "metadata": {
    "message_id": "96a3f3b5-5dec-4eed-908e-e11ee657416c",
    "message_type": "session_welcome",
    "message_timestamp": "2023-07-19T14:56:51.634234626Z"
  },
  "payload": {
    "session": {
      "id": "AQoQILE98gtqShGmLD7AM6yJThAB",
      "status": "connected",
      "connected_at": "2023-07-19T14:56:51.616329898Z",
      "keepalive_timeout_seconds": 10,
      "reconnect_url": null
    }
  }
}"#;

const KEEPALIVE: &str = r#"{
  "metadata": {
    "message_id": "8d8e0935-0e0c-479a-8fa2-ad4c02cef742",
    "message_type": "session_keepalive",
    "message_timestamp": "2022-11-04T13:11:49.770459792Z"
  },
  "payload": {}
}"#;

const RECONNECT: &str = r#"{
  "metadata": {
    "message_id": "84c1e79a-2a4b-4c13-ba0b-4312293e9308",
    "message_type": "session_reconnect",
    "message_timestamp": "2019-11-18T09:10:11.234Z"
  },
  "payload": {
    "session": {
      "id": "AQoQexAWVYKSTIu4ec_2VAxyuhAB",
      "status": "reconnecting",
      "keepalive_timeout_seconds": null,
      "reconnect_url": "wss://eventsub.wss.twitch.tv?reconnect",
      "connected_at": "2019-11-16T10:11:12.123Z"
    }
  }
}"#;

const LINK: &str = "https://osu.ppy.sh/beatmapsets/1#osu/75";

const CHAT_NOTIFICATION: &str = r##"{
  "metadata": {
    "message_id": "befa7b53-d79d-478f-86b9-120f112b044e",
    "message_type": "notification",
    "message_timestamp": "2023-11-06T18:11:47.492Z",
    "subscription_type": "channel.chat.message",
    "subscription_version": "1"
  },
  "payload": {
    "subscription": {
      "id": "0b7f3361-672b-4d39-b307-dd5b576c9b27",
      "status": "enabled",
      "type": "channel.chat.message",
      "version": "1",
      "condition": { "broadcaster_user_id": "1971641", "user_id": "2914196" },
      "transport": { "method": "websocket", "session_id": "AgoQHR3s6Mb4T8GFB1l3DlPfiRIGY2VsbC1h" },
      "created_at": "2023-11-06T18:11:47.492253549Z",
      "cost": 0
    },
    "event": {
      "broadcaster_user_id": "1971641",
      "broadcaster_user_login": "streamer",
      "broadcaster_user_name": "streamer",
      "chatter_user_id": "4145994",
      "chatter_user_login": "viewer32",
      "chatter_user_name": "Viewer32",
      "message_id": "cc106a89-1814-919d-454c-f4f2f970aae7",
      "message": {
        "text": "Hi chat",
        "fragments": [ { "type": "text", "text": "Hi chat", "cheermote": null, "emote": null, "mention": null } ]
      },
      "color": "#00FF7F",
      "badges": [],
      "message_type": "text",
      "cheer": null,
      "reply": null,
      "channel_points_custom_reward_id": null,
      "source_broadcaster_user_id": null,
      "source_broadcaster_user_login": null,
      "source_broadcaster_user_name": null,
      "source_message_id": null,
      "source_badges": null
    }
  }
}"##;

#[test]
fn welcome_opens_the_session() {
    match session_from_frame(WELCOME) {
        Ok(id) => assert_eq!(id, "AQoQILE98gtqShGmLD7AM6yJThAB"),
        Err(e) => panic!("unexpected {e:?}"),
    }
}

#[test]
fn keepalive_before_welcome_is_refused() {
    assert!(matches!(session_from_frame(KEEPALIVE), Err(EventSubError::KeepaliveBeforeWelcome)));
}

#[test]
fn other_first_frames_are_refused() {
    assert!(matches!(session_from_frame(RECONNECT), Err(EventSubError::UnexpectedFirstMessage)));
    assert!(matches!(session_from_frame(CHAT_NOTIFICATION), Err(EventSubError::UnexpectedFirstMessage)));
}

#[test]
fn garbage_is_a_parse_error() {
    match session_from_frame("not json") {
        Err(EventSubError::Parse(message)) => assert!(!message.is_empty()),
        other => panic!("unexpected {other:?}"),
    }
    assert!(matches!(handle_message("{}"), MessageOutcome::Fail(EventSubError::Parse(_))));
}

#[test]
fn running_session_ignores_welcome_and_keepalive() {
    assert!(matches!(handle_message(WELCOME), MessageOutcome::Ignore));
    assert!(matches!(handle_message(KEEPALIVE), MessageOutcome::Ignore));
}

#[test]
fn reconnect_moves_to_the_given_url() {
    match handle_message(RECONNECT) {
        MessageOutcome::Reconnect(url) => assert_eq!(url, "wss://eventsub.wss.twitch.tv?reconnect"),
        other => panic!("unexpected {other:?}"),
    }
}

#[test]
fn chat_without_beatmap_is_not_a_request() {
    assert!(matches!(handle_message(CHAT_NOTIFICATION), MessageOutcome::Ignore));
    assert!(matches!(
        handle_frame_at(CHAT_NOTIFICATION, Some(jiff::Timestamp::UNIX_EPOCH)),
        MessageOutcome::Ignore
    ));
}

fn beatmap_notification() -> String {
    CHAT_NOTIFICATION.replace("Hi chat", LINK)
}

#[test]
fn beatmap_request_becomes_a_chat_message() {
    match handle_message(&beatmap_notification()) {
        MessageOutcome::Chat(message) => {
            assert_eq!(message.username, "Viewer32");
            assert_eq!(message.text, LINK);
            assert_eq!(message.color, "#00FF7F");
        }
        other => panic!("unexpected {other:?}"),
    }
}

#[test]
fn welcome_outcome_cases() {
    let ok = welcome_outcome(Ok(WebsocketFrame::Welcome("s".to_string())));
    assert!(matches!(ok, Ok(ref id) if id == "s"));
    assert!(matches!(welcome_outcome(Ok(WebsocketFrame::Keepalive)), Err(EventSubError::KeepaliveBeforeWelcome)));
    assert!(matches!(welcome_outcome(Ok(WebsocketFrame::Revocation)), Err(EventSubError::UnexpectedFirstMessage)));
    let err = welcome_outcome(Err("bad".to_string()));
    assert!(matches!(err, Err(EventSubError::Parse(ref m)) if m == "bad"));
}

#[test]
fn frame_outcome_cases() {
    assert!(matches!(frame_outcome(Ok(WebsocketFrame::Keepalive)), FrameOutcome::Ignore));
    assert!(matches!(
        frame_outcome(Ok(WebsocketFrame::Welcome(String::new()))),
        FrameOutcome::Ignore
    ));
    assert!(matches!(
        frame_outcome(Ok(WebsocketFrame::Revocation)),
        FrameOutcome::Unhandled(Unhandled::Revocation)
    ));
    assert!(matches!(
        frame_outcome(Ok(WebsocketFrame::Reconnect(None))),
        FrameOutcome::Unhandled(Unhandled::ReconnectWithoutUrl)
    ));
    assert!(matches!(
        frame_outcome(Ok(WebsocketFrame::Reconnect(Some("u".to_string())))),
        FrameOutcome::Reconnect(ref u) if u == "u"
    ));
    assert!(matches!(
        frame_outcome(Ok(WebsocketFrame::Unrecognized)),
        FrameOutcome::Unhandled(Unhandled::UnknownFrame)
    ));
}

const REQUEST_TEXT: &str = "play https://osu.ppy.sh/b/75 please";

fn payload() -> ChatPayload {
    ChatPayload("name".to_string(), REQUEST_TEXT.to_string(), "#FFFFFF".to_string())
}

#[test]
fn frame_outcome_passes_notifications_on() {
    assert!(matches!(
        frame_outcome(Ok(WebsocketFrame::Notification(NotificationKind::OtherEvent))),
        FrameOutcome::Notification(NotificationKind::OtherEvent)
    ));
}

#[test]
fn handled_notifications() {
    let now: jiff::Timestamp = "2024-01-02T03:04:05Z".parse().unwrap();
    match handle_notification(NotificationKind::Chat(payload()), Some(now)) {
        MessageOutcome::Chat(m) => {
            assert_eq!(m.username, "name");
            assert_eq!(m.text, REQUEST_TEXT);
            assert_eq!(m.color, "#FFFFFF");
            assert_eq!(m.timestamp, now);
        }
        other => panic!("unexpected {other:?}"),
    }
    assert!(matches!(
        handle_notification(NotificationKind::Chat(payload()), None),
        MessageOutcome::Unhandled(Unhandled::ClockOutOfRange)
    ));
    assert!(matches!(
        handle_notification(NotificationKind::SubscriptionRevoked, None),
        MessageOutcome::Fail(EventSubError::SubscriptionRevoked)
    ));
}

#[test]
fn payload_becomes_stamped_message() {
    let now: jiff::Timestamp = "2024-01-02T03:04:05Z".parse().unwrap();
    match construct_message_from_payload(payload(), now) {
        Ok(Some(m)) => {
            assert_eq!(m.username, "name");
            assert_eq!(m.text, REQUEST_TEXT);
            assert_eq!(m.color, "#FFFFFF");
            assert_eq!(m.timestamp, now);
        }
        other => panic!("unexpected {other:?}"),
    }
    match process_chat_message(payload(), now) {
        MessageOutcome::Chat(m) => {
            assert_eq!(m.username, "name");
            assert_eq!(m.timestamp, now);
        }
        other => panic!("unexpected {other:?}"),
    }
}

#[test]
fn chat_notification_is_stamped_with_the_current_time() {
    let before = jiff::Timestamp::now();
    match handle_message(&beatmap_notification()) {
        MessageOutcome::Chat(message) => {
            assert!(message.timestamp >= before);
            assert!(message.timestamp <= jiff::Timestamp::now());
        }
        other => panic!("unexpected {other:?}"),
    }
}

#[test]
fn reads_of_the_socket() {
    assert_eq!(receive_step(Some("frame".to_string())), ReceiveStep::Handle("frame".to_string()));
    assert_eq!(receive_step(None), ReceiveStep::Wait);
}

#[test]
fn token_refresh_threshold() {
    assert!(token_needs_refresh(0));
    assert!(token_needs_refresh(59));
    assert!(!token_needs_refresh(60));
    assert!(!token_needs_refresh(3600));
}

#[test]
fn received_messages() {
    assert!(matches!(
        receive_outcome(SocketMessage::Text("{}".to_string())),
        ReceiveOutcome::Frame(ref t) if t == "{}"
    ));
    assert!(matches!(receive_outcome(SocketMessage::Ping), ReceiveOutcome::RefreshToken));
    assert!(matches!(receive_outcome(SocketMessage::Pong), ReceiveOutcome::RefreshToken));
    assert!(matches!(
        receive_outcome(SocketMessage::Close { reason: Some("bye".to_string()) }),
        ReceiveOutcome::Closed(ref r) if r == "bye"
    ));
    assert!(matches!(
        receive_outcome(SocketMessage::Close { reason: None }),
        ReceiveOutcome::Closed(ref r) if r.is_empty()
    ));
    assert!(matches!(receive_outcome(SocketMessage::Binary), ReceiveOutcome::Unsupported));
    assert!(matches!(receive_outcome(SocketMessage::RawFrame), ReceiveOutcome::Unsupported));
}

#[test]
fn frames_handled_at_a_given_time() {
    let now: jiff::Timestamp = "2024-05-06T07:08:09Z".parse().unwrap();
    match handle_frame_at(&beatmap_notification(), Some(now)) {
        MessageOutcome::Chat(m) => {
            assert_eq!(m.username, "Viewer32");
            assert_eq!(m.text, LINK);
            assert_eq!(m.color, "#00FF7F");
            assert_eq!(m.timestamp, now);
        }
        other => panic!("unexpected {other:?}"),
    }
    assert!(matches!(
        handle_frame_at(&beatmap_notification(), None),
        MessageOutcome::Unhandled(Unhandled::ClockOutOfRange)
    ));
    assert!(matches!(handle_frame_at(KEEPALIVE, None), MessageOutcome::Ignore));
}

#[test]
fn payload_without_beatmap_gives_none() {
    let now = jiff::Timestamp::UNIX_EPOCH;
    let plain = ChatPayload("name".to_string(), String::new(), "#FFFFFF".to_string());
    assert!(matches!(construct_message_from_payload(plain, now), Ok(None)));
    let plain = ChatPayload("name".to_string(), "hello".to_string(), "#FFFFFF".to_string());
    assert!(matches!(process_chat_message(plain, now), MessageOutcome::Ignore));
    let plain = ChatPayload("name".to_string(), "hi".to_string(), String::new());
    assert!(matches!(
        handle_notification(NotificationKind::Chat(plain), Some(now)),
        MessageOutcome::Ignore
    ));
}

#[test]
fn beatmap_ids_in_text() {
    assert!(has_beatmap_id("https://osu.ppy.sh/b/75"));
    assert!(has_beatmap_id("see osu.ppy.sh/beatmaps/129891 now"));
    assert!(has_beatmap_id("https://osu.ppy.sh/beatmapsets/39804#osu/129891"));
    assert!(has_beatmap_id("https://osu.ppy.sh/beatmapsets/1#taiko/2"));
    assert!(has_beatmap_id("https://osu.ppy.sh/beatmapsets/1#fruits/2"));
    assert!(has_beatmap_id("https://osu.ppy.sh/beatmapsets/1#mania/2"));
    assert!(has_beatmap_id("\u{e9}\u{e9} osu.ppy.sh/b/9"));
    assert!(!has_beatmap_id(""));
    assert!(!has_beatmap_id("Hi chat"));
    assert!(!has_beatmap_id("https://osu.ppy.sh/b/"));
    assert!(!has_beatmap_id("https://osu.ppy.sh/b/x1"));
    assert!(!has_beatmap_id("https://osu.ppy.sh/beatmapsets/39804"));
    assert!(!has_beatmap_id("#osu/"));
}
