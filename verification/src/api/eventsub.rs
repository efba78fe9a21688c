//! EventSub over a websocket: what the client does with each frame it receives.

use crate::api::beatmap::{has_beatmap_id, holds_beatmap_id};
use crate::interface::components::chat::ChatMessage;
use std::borrow::Cow;
use twitch_api::eventsub::event::websocket::EventsubWebsocketData::{
    Keepalive,
    Notification,
    Reconnect,
    Revocation,
    Welcome,
};
use twitch_api::eventsub::{Event, Message, Payload};
use vstd::prelude::*;
use self::NotificationKind::{Chat, OtherChatMessage, OtherEvent, SubscriptionRevoked, VerificationRequest};

verus! {

/// A websocket frame, as far as the client reads it.
#[derive(Debug)]
pub enum WebsocketFrame {
    /// A session welcome, with the session id.
    Welcome(String),
    Keepalive,
    /// A notification, with what its event carries.
    Notification(NotificationKind),
    Revocation,
    /// A request to reconnect, with the URL to reconnect to, when given.
    Reconnect(Option<String>),
    Unrecognized,
}

/// The fields of a chat message notification that the client keeps, in this
/// order: the sender's display name, the message text and the sender's colour.
#[derive(Debug)]
pub struct ChatPayload(pub String, pub String, pub String);

/// What the event of a notification carries, as far as the client reads it.
#[derive(Debug)]
pub enum NotificationKind {
    /// A chat message of the `channel.chat.message` subscription.
    Chat(ChatPayload),
    /// The `channel.chat.message` subscription was revoked.
    SubscriptionRevoked,
    /// A webhook verification request of that subscription.
    VerificationRequest,
    /// Any other message of that subscription.
    OtherChatMessage,
    /// An event of another subscription type.
    OtherEvent,
}

/// What `Event::parse_websocket` makes of a frame's text: the frame, or the
/// parser's explanation of why the text is not one.
pub uninterp spec fn parsed_frame(frame: Seq<char>) -> Result<WebsocketFrame, String>;

/// `Event::parse_websocket`: parses a frame's JSON text. The result is named
/// `parsed_frame`. The session id, reconnect URL, parser message and the
/// fields of a chat message are copied out as strings; the event of a
/// notification is told apart by its subscription type and message variant.
#[verifier::external_body]
fn parse_websocket(frame: &str) -> (parsed: Result<WebsocketFrame, String>)
    ensures
        parsed == parsed_frame(frame@),
{
    Ok(match Event::parse_websocket(frame).map_err(|error| error.to_string())? {
        Welcome { payload, .. } => WebsocketFrame::Welcome(payload.session.id.into_owned()),
        Keepalive { .. } => WebsocketFrame::Keepalive,
        Notification { payload: Event::ChannelChatMessageV1(Payload { message, .. }), .. } => WebsocketFrame::Notification(match message {
            Message::Notification(p) => Chat(ChatPayload(p.chatter_user_name.to_string(), p.message.text, p.color.take())),
            Message::Revocation() => SubscriptionRevoked,
            Message::VerificationRequest(_) => VerificationRequest,
            _ => OtherChatMessage,
        }),
        Notification { .. } => WebsocketFrame::Notification(OtherEvent),
        Revocation { .. } => WebsocketFrame::Revocation,
        Reconnect { payload, .. } => WebsocketFrame::Reconnect(payload.session.reconnect_url.map(Cow::into_owned)),
        _ => WebsocketFrame::Unrecognized,
    })
}

/// `jiff::Timestamp::try_from(SystemTime::now())`: the current time, or
/// `None` when the system clock lies outside the range jiff supports. Nothing
/// is stated of the result, which depends on the clock.
#[verifier::external_body]
fn current_timestamp() -> Option<jiff::Timestamp> {
    jiff::Timestamp::try_from(std::time::SystemTime::now()).ok()
}

/// Why the client gives up on a connection.
#[derive(Debug)]
pub enum EventSubError {
    /// The frame is not EventSub JSON.
    Parse(String),
    /// A keepalive came before the welcome message.
    KeepaliveBeforeWelcome,
    /// Something other than a welcome message came first.
    UnexpectedFirstMessage,
    /// The chat subscription was revoked.
    SubscriptionRevoked,
}

/// Frames the client has no way to handle; the program stops on them.
#[derive(Debug, Clone, Copy, PartialEq, Eq, Structural)]
pub enum Unhandled {
    Revocation,
    ReconnectWithoutUrl,
    UnknownFrame,
    VerificationRequest,
    UnknownChatMessage,
    UnexpectedEvent,
    /// The system clock could not be read as a timestamp.
    ClockOutOfRange,
}

/// What to do with a frame once the session runs.
#[derive(Debug)]
pub enum FrameOutcome {
    Ignore,
    Reconnect(String),
    Notification(NotificationKind),
    Fail(EventSubError),
    Unhandled(Unhandled),
}

/// What to do with a frame, all the way down to the chat message.
#[derive(Debug)]
pub enum MessageOutcome {
    Ignore,
    Reconnect(String),
    Chat(ChatMessage),
    Fail(EventSubError),
    Unhandled(Unhandled),
}

/// The first frame of a connection must be a welcome; its session id opens
/// the session.
pub open spec fn welcome_spec(parsed: Result<WebsocketFrame, String>) -> Result<String, EventSubError> {
    match parsed {
        Err(message) => Err(EventSubError::Parse(message)),
        Ok(WebsocketFrame::Welcome(session_id)) => Ok(session_id),
        Ok(WebsocketFrame::Keepalive) => Err(EventSubError::KeepaliveBeforeWelcome),
        Ok(_) => Err(EventSubError::UnexpectedFirstMessage),
    }
}

/// Frames of a running session: welcomes and keepalives change nothing, a
/// reconnect moves to the URL it gives, notifications are read further.
pub open spec fn frame_spec(parsed: Result<WebsocketFrame, String>) -> FrameOutcome {
    match parsed {
        Err(message) => FrameOutcome::Fail(EventSubError::Parse(message)),
        Ok(WebsocketFrame::Welcome(_)) => FrameOutcome::Ignore,
        Ok(WebsocketFrame::Keepalive) => FrameOutcome::Ignore,
        Ok(WebsocketFrame::Notification(kind)) => FrameOutcome::Notification(kind),
        Ok(WebsocketFrame::Revocation) => FrameOutcome::Unhandled(Unhandled::Revocation),
        Ok(WebsocketFrame::Reconnect(reconnect_url)) => match reconnect_url {
            Some(url) => FrameOutcome::Reconnect(url),
            None => FrameOutcome::Unhandled(Unhandled::ReconnectWithoutUrl),
        },
        Ok(WebsocketFrame::Unrecognized) => FrameOutcome::Unhandled(Unhandled::UnknownFrame),
    }
}

/// The chat message made from a notification's payload, received at `now`.
pub open spec fn message_from(payload: ChatPayload, now: jiff::Timestamp) -> ChatMessage {
    ChatMessage { username: payload.0, text: payload.1, color: payload.2, timestamp: now }
}

/// What a chat message payload received at `now` comes to: a beatmap request
/// is passed on as a chat message; a message that names no beatmap is not a
/// request.
pub open spec fn chat_spec(payload: ChatPayload, now: jiff::Timestamp) -> MessageOutcome {
    if holds_beatmap_id(payload.1@) {
        MessageOutcome::Chat(message_from(payload, now))
    } else {
        MessageOutcome::Ignore
    }
}

/// Notifications, given the time read for a chat message: a chat message goes
/// as `chat_spec` says (no time could be read: the clock is out of range); a
/// revoked subscription ends the session; anything else cannot be handled.
pub open spec fn notification_spec(kind: NotificationKind, now: Option<jiff::Timestamp>) -> MessageOutcome {
    match kind {
        NotificationKind::Chat(payload) => match now {
            Some(time) => chat_spec(payload, time),
            None => MessageOutcome::Unhandled(Unhandled::ClockOutOfRange),
        },
        NotificationKind::SubscriptionRevoked => MessageOutcome::Fail(EventSubError::SubscriptionRevoked),
        NotificationKind::VerificationRequest => MessageOutcome::Unhandled(Unhandled::VerificationRequest),
        NotificationKind::OtherChatMessage => MessageOutcome::Unhandled(Unhandled::UnknownChatMessage),
        NotificationKind::OtherEvent => MessageOutcome::Unhandled(Unhandled::UnexpectedEvent),
    }
}

/// The session id the first frame opens (see `welcome_spec`).
pub fn welcome_outcome(parsed: Result<WebsocketFrame, String>) -> (res: Result<String, EventSubError>)
    ensures
        res == welcome_spec(parsed),
{
    match parsed {
        Err(message) => Err(EventSubError::Parse(message)),
        Ok(WebsocketFrame::Welcome(session_id)) => Ok(session_id),
        Ok(WebsocketFrame::Keepalive) => Err(EventSubError::KeepaliveBeforeWelcome),
        Ok(_) => Err(EventSubError::UnexpectedFirstMessage),
    }
}

/// Parses the first frame of a connection and takes the session id from its
/// welcome (see `welcome_spec`).
pub fn session_from_frame(frame: &str) -> (res: Result<String, EventSubError>)
    ensures
        res == welcome_spec(parsed_frame(frame@)),
{
    welcome_outcome(parse_websocket(frame))
}

/// What to do with a parsed frame of a running session (see `frame_spec`).
pub fn frame_outcome(parsed: Result<WebsocketFrame, String>) -> (res: FrameOutcome)
    ensures
        res == frame_spec(parsed),
{
    match parsed {
        Err(message) => FrameOutcome::Fail(EventSubError::Parse(message)),
        Ok(WebsocketFrame::Welcome(_)) => FrameOutcome::Ignore,
        Ok(WebsocketFrame::Keepalive) => FrameOutcome::Ignore,
        Ok(WebsocketFrame::Notification(kind)) => FrameOutcome::Notification(kind),
        Ok(WebsocketFrame::Revocation) => FrameOutcome::Unhandled(Unhandled::Revocation),
        Ok(WebsocketFrame::Reconnect(reconnect_url)) => match reconnect_url {
            Some(url) => FrameOutcome::Reconnect(url),
            None => FrameOutcome::Unhandled(Unhandled::ReconnectWithoutUrl),
        },
        Ok(WebsocketFrame::Unrecognized) => FrameOutcome::Unhandled(Unhandled::UnknownFrame),
    }
}

/// Attempts to read a beatmap request from a chat message received at `now`:
/// when its text names a beatmap (see `holds_beatmap_id`), the request is the
/// chat message, with its sender, text and colour, stamped with `now`; a text
/// that names no beatmap gives `None`.
pub fn construct_message_from_payload(payload: ChatPayload, now: jiff::Timestamp) -> (res: Result<
    Option<ChatMessage>,
    EventSubError,
>)
    ensures
        res == (if holds_beatmap_id(payload.1@) {
            Ok::<Option<ChatMessage>, EventSubError>(Some(message_from(payload, now)))
        } else {
            Ok(None)
        }),
{
    if has_beatmap_id(payload.1.as_str()) {
        Ok(Some(ChatMessage { username: payload.0, text: payload.1, color: payload.2, timestamp: now }))
    } else {
        Ok(None)
    }
}

/// Processes a chat message received at `now`: a beatmap request is passed
/// on, any other message is not a request (see `chat_spec`).
pub fn process_chat_message(payload: ChatPayload, now: jiff::Timestamp) -> (res: MessageOutcome)
    ensures
        res == chat_spec(payload, now),
{
    match construct_message_from_payload(payload, now) {
        Ok(Some(message)) => MessageOutcome::Chat(message),
        Ok(None) => MessageOutcome::Ignore,
        Err(error) => MessageOutcome::Fail(error),
    }
}

/// Handles the notification of a `channel.chat.message` subscription: a chat
/// message is processed with the time read for it, a revocation ends the
/// session (see `notification_spec`). Nothing else is handled here.
pub fn handle_notification(kind: NotificationKind, now: Option<jiff::Timestamp>) -> (res: MessageOutcome)
    requires
        kind is Chat || kind is SubscriptionRevoked,
    ensures
        res == notification_spec(kind, now),
{
    match kind {
        NotificationKind::Chat(payload) => match now {
            Some(time) => process_chat_message(payload, time),
            None => MessageOutcome::Unhandled(Unhandled::ClockOutOfRange),
        },
        _ => MessageOutcome::Fail(EventSubError::SubscriptionRevoked),
    }
}

/// What a frame of a running session comes to, given the time read for a
/// chat message (see `frame_spec` and `notification_spec`).
pub open spec fn message_spec(parsed: Result<WebsocketFrame, String>, now: Option<jiff::Timestamp>) -> MessageOutcome {
    match frame_spec(parsed) {
        FrameOutcome::Ignore => MessageOutcome::Ignore,
        FrameOutcome::Reconnect(url) => MessageOutcome::Reconnect(url),
        FrameOutcome::Fail(error) => MessageOutcome::Fail(error),
        FrameOutcome::Unhandled(reason) => MessageOutcome::Unhandled(reason),
        FrameOutcome::Notification(kind) => notification_spec(kind, now),
    }
}

/// Handles a frame of a running session with the time `now` read for a chat
/// message: parses the frame and decides (see `message_spec`).
pub fn handle_frame_at(frame: &str, now: Option<jiff::Timestamp>) -> (res: MessageOutcome)
    ensures
        res == message_spec(parsed_frame(frame@), now),
{
    match frame_outcome(parse_websocket(frame)) {
        FrameOutcome::Ignore => MessageOutcome::Ignore,
        FrameOutcome::Reconnect(url) => MessageOutcome::Reconnect(url),
        FrameOutcome::Fail(error) => MessageOutcome::Fail(error),
        FrameOutcome::Unhandled(reason) => MessageOutcome::Unhandled(reason),
        FrameOutcome::Notification(kind) => match kind {
            NotificationKind::Chat(payload) => handle_notification(NotificationKind::Chat(payload), now),
            NotificationKind::SubscriptionRevoked => handle_notification(NotificationKind::SubscriptionRevoked, now),
            NotificationKind::VerificationRequest => MessageOutcome::Unhandled(Unhandled::VerificationRequest),
            NotificationKind::OtherChatMessage => MessageOutcome::Unhandled(Unhandled::UnknownChatMessage),
            NotificationKind::OtherEvent => MessageOutcome::Unhandled(Unhandled::UnexpectedEvent),
        },
    }
}

/// Handles a frame of a running session: parses it and decides (see
/// `frame_spec`); a notification is handled with the current time, read from
/// the system clock, for a chat message (see `notification_spec`).
pub fn handle_message(frame: &str) -> (res: MessageOutcome)
    ensures
        match frame_spec(parsed_frame(frame@)) {
            FrameOutcome::Ignore => res is Ignore,
            FrameOutcome::Reconnect(url) => res == MessageOutcome::Reconnect(url),
            FrameOutcome::Fail(error) => res == MessageOutcome::Fail(error),
            FrameOutcome::Unhandled(reason) => res == MessageOutcome::Unhandled(reason),
            FrameOutcome::Notification(kind) => exists|now: Option<jiff::Timestamp>|
                res == #[trigger] notification_spec(kind, now),
        },
{
    let now = current_timestamp();
    let res = handle_frame_at(frame, now);
    proof {
        if let FrameOutcome::Notification(kind) = frame_spec(parsed_frame(frame@)) {
            assert(res == notification_spec(kind, now));
        }
    }
    res
}

/// What the loops that read the socket do with what one read gave: a frame
/// is handled, an empty read is waited past.
#[derive(Debug, PartialEq, Eq)]
pub enum ReceiveStep {
    Handle(String),
    Wait,
}

/// The step for one read of the socket (see `ReceiveStep`).
pub fn receive_step(received: Option<String>) -> (step: ReceiveStep)
    ensures
        match received {
            Some(frame) => step == ReceiveStep::Handle(frame),
            None => step is Wait,
        },
{
    match received {
        Some(frame) => ReceiveStep::Handle(frame),
        None => ReceiveStep::Wait,
    }
}

/// A websocket message as the socket delivers it.
#[derive(Debug)]
pub enum SocketMessage {
    Text(String),
    Binary,
    Ping,
    Pong,
    Close { reason: Option<String> },
    RawFrame,
}

/// What receiving a websocket message comes to.
#[derive(Debug)]
pub enum ReceiveOutcome {
    /// A text frame to hand to the frame handling.
    Frame(String),
    /// A ping or pong: nothing to hand on; a good moment to refresh the token.
    RefreshToken,
    /// The server closed the connection, for the reason given (empty when none).
    Closed(String),
    /// Binary and raw frames, which the client does not handle.
    Unsupported,
}

/// What a received message comes to: text frames are handed on, pings and
/// pongs only refresh the token, a close ends the connection with its reason
/// (empty when none is given), binary and raw frames are not handled.
pub fn receive_outcome(message: SocketMessage) -> (res: ReceiveOutcome)
    ensures
        match message {
            SocketMessage::Text(payload) => res == ReceiveOutcome::Frame(payload),
            SocketMessage::Ping | SocketMessage::Pong => res is RefreshToken,
            SocketMessage::Close { reason } => res matches ReceiveOutcome::Closed(text) && text@
                == (match reason {
                Some(r) => r@,
                None => Seq::<char>::empty(),
            }),
            SocketMessage::Binary | SocketMessage::RawFrame => res is Unsupported,
        },
{
    match message {
        SocketMessage::Text(payload) => ReceiveOutcome::Frame(payload),
        SocketMessage::Ping | SocketMessage::Pong => ReceiveOutcome::RefreshToken,
        SocketMessage::Close { reason } => ReceiveOutcome::Closed(
            match reason {
                Some(r) => r,
                None => String::new(),
            },
        ),
        SocketMessage::Binary | SocketMessage::RawFrame => ReceiveOutcome::Unsupported,
    }
}

/// Whether a user token that expires in the given number of seconds must be
/// refreshed: when less than a minute is left.
pub fn token_needs_refresh(expires_in_secs: u64) -> (refresh: bool)
    ensures
        refresh == (expires_in_secs < 60),
{
    expires_in_secs < 60
}

} // verus!
