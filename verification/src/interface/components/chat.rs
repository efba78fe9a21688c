//! The chat pane: a bounded history of the latest chat messages.

use crate::configuration::{ChatConfig, Configuration};
use crate::interface::action::Action;
use ratatui::style::Color;
use ringbuffer::{AllocRingBuffer, RingBuffer};
use vstd::prelude::*;
use vstd::string::StringExecFns;

verus! {

/// `jiff::Timestamp`, the arrival time of a message, carried opaque.
#[verifier::external_type_specification]
#[verifier::external_body]
pub struct ExTimestamp(jiff::Timestamp);

/// `ringbuffer::AllocRingBuffer`, the bounded message history, held opaque.
#[verifier::external_type_specification]
#[verifier::external_body]
#[verifier::reject_recursive_types(T)]
pub struct ExAllocRingBuffer<T>(AllocRingBuffer<T>);

/// `ratatui::style::Color`, a terminal colour, carried opaque.
#[verifier::external_type_specification]
#[verifier::external_body]
pub struct ExColor(Color);

/// What `Color::from_str` makes of a colour's text: the colour, or `None`
/// when the text names no colour.
pub uninterp spec fn parsed_color(text: Seq<char>) -> Option<Color>;

/// `Color::from_str`, called through `str::parse`: reads a colour name, an
/// index or a `#rrggbb` hex colour. The result is named `parsed_color`.
#[verifier::external_body]
fn parse_color(text: &str) -> (color: Option<Color>)
    ensures
        color == parsed_color(text@),
{
    text.parse::<Color>().ok()
}

/// How many messages the chat pane keeps.
pub const CHAT_HISTORY_CAPACITY: usize = 50;

/// One chat message as received.
#[derive(Debug, PartialEq, Eq, PartialOrd, Ord)]
pub struct ChatMessage {
    pub username: String,
    pub text: String,
    pub color: String,
    pub timestamp: jiff::Timestamp,
}

impl Clone for ChatMessage {
    fn clone(&self) -> (res: Self)
        ensures
            res == *self,
    {
        ChatMessage {
            username: self.username.clone(),
            text: self.text.clone(),
            color: self.color.clone(),
            timestamp: self.timestamp,
        }
    }
}

/// The messages held by a ring buffer, oldest first.
pub uninterp spec fn ring_messages(buffer: AllocRingBuffer<ChatMessage>) -> Seq<ChatMessage>;

/// The number of messages a ring buffer holds before it drops the oldest.
pub uninterp spec fn ring_capacity(buffer: AllocRingBuffer<ChatMessage>) -> nat;

/// `AllocRingBuffer::new`: an empty buffer of the given capacity (the crate
/// asserts that the capacity is not zero).
#[verifier::external_body]
fn ring_new(capacity: usize) -> (buffer: AllocRingBuffer<ChatMessage>)
    requires
        capacity > 0,
    ensures
        ring_messages(buffer) == Seq::<ChatMessage>::empty(),
        ring_capacity(buffer) == capacity,
{
    AllocRingBuffer::new(capacity)
}

/// `RingBuffer::enqueue` on an `AllocRingBuffer`: appends the message; when the
/// buffer is full, the oldest message is dropped first and handed back. The
/// crate's body writes into its allocation and bumps two counters, and does not
/// panic short of `usize::MAX` enqueues.
#[verifier::external_body]
fn ring_enqueue(buffer: &mut AllocRingBuffer<ChatMessage>, message: ChatMessage) -> (evicted:
    Option<ChatMessage>)
    ensures
        ring_capacity(*final(buffer)) == ring_capacity(*old(buffer)),
        ring_messages(*old(buffer)).len() < ring_capacity(*old(buffer)) ==> {
            &&& ring_messages(*final(buffer)) == ring_messages(*old(buffer)).push(message)
            &&& evicted is None
        },
        ring_messages(*old(buffer)).len() == ring_capacity(*old(buffer)) ==> {
            &&& ring_messages(*final(buffer)) == ring_messages(*old(buffer)).drop_first().push(
                message,
            )
            &&& evicted == Some(ring_messages(*old(buffer))[0])
        },
    no_unwind
{
    buffer.enqueue(message)
}

/// `RingBuffer::len`: the number of messages held.
#[verifier::external_body]
fn ring_len(buffer: &AllocRingBuffer<ChatMessage>) -> (n: usize)
    ensures
        n == ring_messages(*buffer).len(),
{
    buffer.len()
}

/// `RingBuffer::get`: `None` on an empty buffer, else the message at `index`
/// counted from the oldest, modulo the length.
#[verifier::external_body]
fn ring_get(buffer: &AllocRingBuffer<ChatMessage>, index: usize) -> (message: Option<&ChatMessage>)
    ensures
        ring_messages(*buffer).len() == 0 ==> message is None,
        ring_messages(*buffer).len() > 0 ==> message == Some(
            &ring_messages(*buffer)[index as int % ring_messages(*buffer).len() as int],
        ),
{
    buffer.get(index)
}

/// The history after a message arrives: the message is appended and, once
/// `capacity` messages are held, the oldest one is dropped.
pub open spec fn after_push(history: Seq<ChatMessage>, message: ChatMessage, capacity: nat) -> Seq<
    ChatMessage,
> {
    if history.len() < capacity {
        history.push(message)
    } else {
        history.drop_first().push(message)
    }
}

/// The history after the messages arrive one after the other, first to last.
pub open spec fn history_after(history: Seq<ChatMessage>, arrivals: Seq<ChatMessage>, capacity: nat) -> Seq<
    ChatMessage,
>
    decreases arrivals.len(),
{
    if arrivals.len() == 0 {
        history
    } else {
        after_push(history_after(history, arrivals.drop_last(), capacity), arrivals.last(), capacity)
    }
}

/// The last `capacity` elements of a sequence (all of it when it is shorter).
pub open spec fn latest(messages: Seq<ChatMessage>, capacity: nat) -> Seq<ChatMessage> {
    if messages.len() <= capacity {
        messages
    } else {
        messages.skip(messages.len() - capacity)
    }
}

/// Adding a message to the latest ones gives the latest ones of the longer
/// sequence.
proof fn lemma_after_push_latest(messages: Seq<ChatMessage>, message: ChatMessage, capacity: nat)
    requires
        capacity > 0,
    ensures
        after_push(latest(messages, capacity), message, capacity) == latest(
            messages.push(message),
            capacity,
        ),
{
    let kept = latest(messages, capacity);
    if messages.len() < capacity {
    } else {
        assert(kept.len() == capacity);
        assert(kept.drop_first().push(message) =~= messages.push(message).skip(
            messages.push(message).len() - capacity,
        ));
    }
}

/// Law: whatever history the pane starts from (within its capacity), after a
/// run of arrivals it holds exactly the latest `capacity` messages of the old
/// history followed by the arrivals, oldest first. In particular, from an empty
/// history it holds the last 50 messages received, in the order received.
pub proof fn lemma_history_keeps_latest(
    history: Seq<ChatMessage>,
    arrivals: Seq<ChatMessage>,
    capacity: nat,
)
    requires
        capacity > 0,
        history.len() <= capacity,
    ensures
        history_after(history, arrivals, capacity) == latest(history + arrivals, capacity),
        history_after(history, arrivals, capacity).len() <= capacity,
    decreases arrivals.len(),
{
    if arrivals.len() == 0 {
        assert(history + arrivals =~= history);
    } else {
        lemma_history_keeps_latest(history, arrivals.drop_last(), capacity);
        lemma_after_push_latest(history + arrivals.drop_last(), arrivals.last(), capacity);
        assert((history + arrivals.drop_last()).push(arrivals.last()) =~= history + arrivals);
    }
}

/// The chat history and the channel it belongs to.
pub struct ChatState {
    chat_buffer: AllocRingBuffer<ChatMessage>,
    channel: Option<String>,
}

impl ChatState {
    #[verifier::type_invariant]
    spec fn bounded(self) -> bool {
        &&& ring_capacity(self.chat_buffer) == CHAT_HISTORY_CAPACITY
        &&& ring_messages(self.chat_buffer).len() <= CHAT_HISTORY_CAPACITY
    }

    /// The messages held, oldest first.
    pub closed spec fn history(self) -> Seq<ChatMessage> {
        ring_messages(self.chat_buffer)
    }

    /// The channel the chat is connected to, once known.
    pub closed spec fn channel_name(self) -> Option<String> {
        self.channel
    }

    /// An empty history with no channel.
    pub fn new() -> (res: Self)
        ensures
            res.history() == Seq::<ChatMessage>::empty(),
            res.channel_name() is None,
    {
        ChatState { chat_buffer: ring_new(CHAT_HISTORY_CAPACITY), channel: None }
    }

    /// Records a message; the oldest is dropped when the history is full.
    pub fn push(&mut self, message: ChatMessage)
        ensures
            final(self).history() == after_push(
                old(self).history(),
                message,
                CHAT_HISTORY_CAPACITY as nat,
            ),
            final(self).history().len() <= CHAT_HISTORY_CAPACITY,
            final(self).channel_name() == old(self).channel_name(),
    {
        proof {
            use_type_invariant(&*self);
        }
        let _ = ring_enqueue(&mut self.chat_buffer, message);
    }

    /// The messages held, oldest first.
    pub fn messages(&self) -> (res: Vec<ChatMessage>)
        ensures
            res@ == self.history(),
            res@.len() <= CHAT_HISTORY_CAPACITY,
    {
        proof {
            use_type_invariant(self);
        }
        let n = ring_len(&self.chat_buffer);
        let mut res: Vec<ChatMessage> = Vec::new();
        let mut i: usize = 0;
        while i < n
            invariant
                n == ring_messages(self.chat_buffer).len(),
                i <= n,
                res@ == ring_messages(self.chat_buffer).take(i as int),
            decreases n - i,
        {
            proof {
                vstd::arithmetic::div_mod::lemma_small_mod(i as nat, n as nat);
            }
            let m = ring_get(&self.chat_buffer, i);
            match m {
                Some(m) => {
                    res.push(m.clone());
                },
                None => {},
            }
            assert(ring_messages(self.chat_buffer).take(i + 1) == ring_messages(
                self.chat_buffer,
            ).take(i as int).push(ring_messages(self.chat_buffer)[i as int]));
            i = i + 1;
        }
        assert(ring_messages(self.chat_buffer).take(n as int) == ring_messages(self.chat_buffer));
        res
    }
}


/// `Timestamp::to_zoned` in the machine's time zone (`TimeZone::system`),
/// then the time of day rounded to the second, as jiff prints it. jiff
/// documents that rounding a time of day can fail only for a bad rounding
/// configuration, which rounding to the second is not, so a text is always
/// given. The text depends on the machine's time zone and is not stated.
#[verifier::external_body]
fn local_time_of_day(timestamp: jiff::Timestamp) -> (time: Option<String>)
    ensures
        time is Some,
{
    timestamp.to_zoned(jiff::tz::TimeZone::system()).time().round(jiff::Unit::Second).ok().map(|time| time.to_string())
}

/// The label that leads a chat line: the time of day, then a space.
pub fn time_label(time_of_day: String) -> (label: String)
    ensures
        label@ == time_of_day@ + " "@,
{
    time_of_day.concat(" ")
}

/// What a chat line shows, piece by piece, before it is styled for the
/// terminal: the time label (when enabled), the sender, the colour of the
/// sender's name (when enabled) and the text after a `": "` separator.
#[derive(Debug)]
pub struct MessageLine {
    pub time_label: Option<String>,
    pub username: String,
    pub color: Option<Color>,
    pub text: String,
}

/// Whether a chat line can be shown under the given settings: when colours
/// are on, the sender's colour must name a colour.
pub open spec fn line_showable(display: ChatConfig, value: ChatMessage) -> bool {
    display.use_color ==> parsed_color(value.color@) is Some
}

/// The line that shows `value` under the given settings: a time label that
/// ends in a space when times are on, the sender, the sender's colour when
/// colours are on, and the text after `": "`.
pub open spec fn shows(display: ChatConfig, value: ChatMessage, line: MessageLine) -> bool {
    &&& (line.time_label is Some) == display.timestamp
    &&& (line.time_label matches Some(label) ==> exists|time: Seq<char>| label@ == time + " "@)
    &&& line.username == value.username
    &&& line.color == (if display.use_color {
        parsed_color(value.color@)
    } else {
        None
    })
    &&& line.text@ == line_text(value.text@)
}

/// The text shown after the sender's name.
pub open spec fn line_text(text: Seq<char>) -> Seq<char> {
    ": "@ + text
}

/// The pane's title: the channel once connected.
pub open spec fn chat_title(channel: Option<String>) -> Seq<char> {
    match channel {
        Some(name) => "Chat: ["@ + name@ + "]"@,
        None => "Connecting..."@,
    }
}

/// How one action changes a chat pane: a connection names the channel, a chat
/// message joins the history, every other action leaves the pane as it is; the
/// display settings never change.
pub open spec fn chat_step(before: Chat, action: Action, after: Chat) -> bool {
    &&& after.display() == before.display()
    &&& match action {
        Action::Connected(name) => {
            &&& after.channel() == Some(name)
            &&& after.history() == before.history()
        },
        Action::ChatMessage(message) => {
            &&& after.history() == after_push(
                before.history(),
                message,
                CHAT_HISTORY_CAPACITY as nat,
            )
            &&& after.channel() == before.channel()
        },
        _ => after == before,
    }
}

/// Law: only a connection and a chat message change the chat pane; any other
/// action (a resize, a tick, a key, ...) leaves its history, its channel and
/// its settings as they are.
pub proof fn lemma_other_actions_keep_history(before: Chat, action: Action, after: Chat)
    requires
        chat_step(before, action, after),
        !(action is Connected),
        !(action is ChatMessage),
    ensures
        after.history() == before.history(),
        after.channel() == before.channel(),
        after.display() == before.display(),
{
}

/// Law: an arriving chat message becomes the newest entry of the history; the
/// history grows by one until it holds 50 messages and then keeps 50, and the
/// messages before the new one are the latest of the old history, in their
/// order. Nothing else is ever removed.
pub proof fn lemma_message_becomes_newest(before: Chat, message: ChatMessage, after: Chat)
    requires
        before.history().len() <= CHAT_HISTORY_CAPACITY,
        chat_step(before, Action::ChatMessage(message), after),
    ensures
        after.history().len() > 0,
        after.history().last() == message,
        after.history().len() == (if before.history().len() < CHAT_HISTORY_CAPACITY {
            before.history().len() + 1
        } else {
            CHAT_HISTORY_CAPACITY as nat
        }),
        after.history().drop_last() == before.history().subrange(
            before.history().len() + 1 - after.history().len(),
            before.history().len() as int,
        ),
        after.channel() == before.channel(),
{
    assert(after.history().drop_last() =~= before.history().subrange(
        before.history().len() + 1 - after.history().len(),
        before.history().len() as int,
    ));
}

/// Law: once a connection to a channel reaches the pane, its title names that
/// channel, and messages arriving afterwards leave the title as it is.
pub proof fn lemma_title_names_channel(
    before: Chat,
    name: String,
    connected: Chat,
    message: ChatMessage,
    after: Chat,
)
    requires
        chat_step(before, Action::Connected(name), connected),
        chat_step(connected, Action::ChatMessage(message), after),
    ensures
        chat_title(connected.channel()) == "Chat: ["@ + name@ + "]"@,
        chat_title(after.channel()) == chat_title(connected.channel()),
{
}

/// The chat pane.
pub struct Chat {
    state: ChatState,
    config: ChatConfig,
}

impl Chat {
    /// The messages the pane holds, oldest first.
    pub closed spec fn history(self) -> Seq<ChatMessage> {
        self.state.history()
    }

    /// The channel the pane shows, once connected.
    pub closed spec fn channel(self) -> Option<String> {
        self.state.channel_name()
    }

    /// The display settings the pane uses.
    pub closed spec fn display(self) -> ChatConfig {
        self.config
    }

    /// An empty pane with the default display settings.
    pub fn new() -> (res: Self)
        ensures
            res.history() == Seq::<ChatMessage>::empty(),
            res.channel() is None,
            res.display() == (ChatConfig { timestamp: false, use_color: false, margin: 0 }),
    {
        Chat { state: ChatState::new(), config: ChatConfig::default() }
    }

    /// The pieces of the line that shows `value` under the pane's settings
    /// (see `shows`). With colours on, the sender's colour must name a colour.
    pub fn format_message(&self, value: &ChatMessage) -> (line: MessageLine)
        requires
            line_showable(self.display(), *value),
        ensures
            shows(self.display(), *value, line),
    {
        let time_label = if self.config.timestamp {
            let time = local_time_of_day(value.timestamp).unwrap();
            let label = time_label(time);
            assert(label@ == time@ + " "@);
            Some(label)
        } else {
            None
        };
        let color = if self.config.use_color {
            parse_color(value.color.as_str())
        } else {
            None
        };
        let text = String::from_str(": ").concat(value.text.as_str());
        MessageLine { time_label, username: value.username.clone(), color, text }
    }

    /// The line that shows `value`, or `None` when colours are on and the
    /// sender's colour names no colour (see `line_showable` and `shows`).
    pub fn format_message_checked(&self, value: &ChatMessage) -> (line: Option<MessageLine>)
        ensures
            (line is Some) == line_showable(self.display(), *value),
            line matches Some(l) ==> shows(self.display(), *value, l),
    {
        if self.config.use_color && parse_color(value.color.as_str()).is_none() {
            None
        } else {
            Some(self.format_message(value))
        }
    }

    /// Reacts to an action: a connection names the channel, a chat message
    /// joins the history; every other action leaves the pane as it is. No
    /// action is emitted in return.
    pub fn update(&mut self, action: &Action) -> (emitted: Option<Action>)
        ensures
            emitted is None,
            chat_step(*old(self), *action, *final(self)),
    {
        match action {
            Action::Connected(name) => {
                proof {
                    use_type_invariant(&self.state);
                }
                self.state.channel = Some(name.clone());
            },
            Action::ChatMessage(message) => {
                self.state.push(message.clone());
            },
            _ => {},
        }
        None
    }

    /// Takes the chat settings from the configuration.
    pub fn register_config_handler(&mut self, config: &Configuration)
        ensures
            final(self).display() == config.chat,
            final(self).history() == old(self).history(),
            final(self).channel() == old(self).channel(),
    {
        self.config = config.chat;
    }

    /// The pane's title.
    pub fn name(&self) -> (title: String)
        ensures
            title@ == chat_title(self.channel()),
    {
        match &self.state.channel {
            Some(name) => String::from_str("Chat: [").concat(name.as_str()).concat("]"),
            None => String::from_str("Connecting..."),
        }
    }

    /// The messages the pane holds, oldest first.
    pub fn messages(&self) -> (res: Vec<ChatMessage>)
        ensures
            res@ == self.history(),
    {
        self.state.messages()
    }

    /// The display settings the pane uses.
    pub fn config(&self) -> (res: ChatConfig)
        ensures
            res == self.display(),
    {
        self.config
    }
}

} // verus!
