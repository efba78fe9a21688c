//! Actions that flow between the event sources and the panes.

use crate::interface::components::chat::ChatMessage;
use crate::interface::components::metadata::ChannelInfo;
use vstd::prelude::*;

verus! {

/// `crossterm::event::KeyEvent`, a key press, carried opaque.
#[verifier::external_type_specification]
#[verifier::external_body]
pub struct ExKeyEvent(crossterm::event::KeyEvent);

/// `crossterm::event::MouseEvent`, carried opaque.
#[verifier::external_type_specification]
#[verifier::external_body]
pub struct ExMouseEvent(crossterm::event::MouseEvent);

/// What the application distinguishes in a key press.
#[derive(Debug, Clone, Copy, PartialEq, Eq, Structural)]
pub enum KeyKind {
    Escape,
    Tab,
    Other,
}

/// A key press: the terminal's event, carried on to the editor, and the kind
/// of key the terminal front end read from its key code.
#[derive(Debug, Clone, Copy, PartialEq)]
pub struct KeyPress {
    pub kind: KeyKind,
    pub event: crossterm::event::KeyEvent,
}

/// Orientation of a split.
#[derive(Debug, Clone, Copy, PartialEq, Eq, Structural)]
pub enum Axis {
    Horizontal,
    Vertical,
}

/// Which way along an axis: towards its start (left, up) or its end.
#[derive(Debug, Clone, Copy, PartialEq, Eq, Structural)]
pub enum Towards {
    Start,
    End,
}

/// How far a pane moves: within its nearest split, or to the nearest pane on
/// screen.
#[derive(Debug, Clone, Copy, PartialEq, Eq, Structural)]
pub enum MoveScope {
    Split,
    Window,
}

/// Layout commands the tiler understands.
#[derive(Debug, Clone, Copy, PartialEq, Eq, Structural)]
pub enum TilingAction {
    FocusNext,
    FocusPrev,
    FocusDirection { direction: Axis, towards: Towards },
    SplitFocused { direction: Axis },
    CloseFocused,
    MoveFocused { direction: Axis, towards: Towards, scope: MoveScope },
}

/// What the Helix worker answers.
#[derive(Debug, Clone, PartialEq, Eq)]
pub enum HelixResponse {
    Channel(ChannelInfo),
    Debug(String),
}

/// Everything that can happen to the application.
#[derive(Debug, Clone, PartialEq)]
pub enum Action {
    Tick,
    Render,
    Resize(u16, u16),
    Suspend,
    Resume,
    Quit,
    ClearScreen,
    Error(String),
    Help,
    Connected(String),
    ChatMessage(ChatMessage),
    HelixResponse(HelixResponse),
    KeyEvent(KeyPress),
    TilingAction(TilingAction),
}

} // verus!
