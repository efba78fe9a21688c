use crossterm::event::{KeyCode, KeyEvent, KeyModifiers};
use groyne::configuration::{ChatConfig, Configuration};
use groyne::interface::action::{Action, Axis, KeyKind, KeyPress, MoveScope, TilingAction, Towards};
use groyne::interface::app::TuiEvent;
use groyne::interface::components::chat::Chat;
use groyne::interface::components::fetcher::Fetcher;
use groyne::interface::components::tiler::{Pane, Tiler};

fn config() -> Configuration {
    let mut config = Configuration::new("me".to_string(), "tok".to_string());
    config.chat = ChatConfig { timestamp: true, use_color: false, margin: 1 };
    config
}

#[test]
fn first_pane_takes_root_then_split() {
    let mut tiler = Tiler::new(config());
    assert_eq!(tiler.focused_pane_id(), 0);
    assert!(tiler.get_focused_pane().is_none());
    assert_eq!(tiler.insert_pane(Pane::Chat(Chat::new())), Some(0));
    assert_eq!(tiler.focused_pane_id(), 0);
    let second = tiler.insert_pane(Pane::Fetcher(Fetcher::new())).unwrap();
    assert_ne!(second, 0);
    assert_eq!(tiler.focused_pane_id(), second);
    assert!(matches!(tiler.get_focused_pane(), Some(Pane::Fetcher(_))));
    assert_eq!(tiler.panes().len(), 2);
}

#[test]
fn inserted_ids_are_fresh() {
    let mut tiler = Tiler::new(config());
    let a = tiler.insert_pane(Pane::Chat(Chat::new())).unwrap();
    let b = tiler.insert_pane(Pane::Chat(Chat::new())).unwrap();
    let c = tiler.insert_pane(Pane::Chat(Chat::new())).unwrap();
    assert!(a != b && b != c && a != c);
    assert_eq!((a, b, c), (0, 1, 2));
}

#[test]
fn remove_pane_takes_it_out() {
    let mut tiler = Tiler::new(config());
    tiler.insert_pane(Pane::Chat(Chat::new()));
    let id = tiler.insert_pane(Pane::Fetcher(Fetcher::new())).unwrap();
    assert!(matches!(tiler.remove_pane(id), Some(Pane::Fetcher(_))));
    assert!(tiler.remove_pane(id).is_none());
    assert!(tiler.get_focused_pane().is_none());
    assert_eq!(tiler.panes().len(), 1);
}

#[test]
fn init_places_chat_and_fetcher_configured() {
    let mut tiler = Tiler::new(config());
    tiler.init(80, 24);
    assert_eq!(tiler.panes().len(), 2);
    match tiler.panes().get(&0) {
        Some(Pane::Chat(chat)) => {
            assert!(chat.config().timestamp);
            assert_eq!(chat.config().margin, 1);
        }
        _ => panic!("root tile should hold the chat"),
    }
    assert!(matches!(tiler.get_focused_pane(), Some(Pane::Fetcher(_))));
}

#[test]
fn focus_next_cycles_between_tiles() {
    let mut tiler = Tiler::new(config());
    tiler.init(80, 24);
    let fetcher = tiler.focused_pane_id();
    tiler.update(&Action::TilingAction(TilingAction::FocusNext));
    assert_eq!(tiler.focused_pane_id(), 0);
    assert_eq!(tiler.panes().len(), 2);
    tiler.update(&Action::TilingAction(TilingAction::FocusNext));
    assert_eq!(tiler.focused_pane_id(), fetcher);
}

#[test]
fn split_action_adds_a_tile() {
    let mut tiler = Tiler::new(config());
    tiler.init(80, 24);
    tiler.update(&Action::TilingAction(TilingAction::SplitFocused { direction: Axis::Vertical }));
    tiler.layout_mut().compute_layout(ratatui::layout::Rect::new(0, 0, 80, 24));
    assert_eq!(tiler.layout().panes().len(), 3);
    assert_eq!(tiler.panes().len(), 2);
}

#[test]
fn keys_reach_only_the_focused_pane() {
    let mut tiler = Tiler::new(config());
    tiler.init(80, 24);
    let key = KeyPress { kind: KeyKind::Other, event: KeyEvent::new(KeyCode::Char('x'), KeyModifiers::NONE) };
    assert!(tiler.update(&Action::KeyEvent(key)).is_none());
    match tiler.get_focused_pane() {
        Some(Pane::Fetcher(fetcher)) => assert_eq!(fetcher.input_lines(), vec!["x".to_string()]),
        _ => panic!("the fetcher should be focused"),
    }
}

#[test]
fn other_actions_reach_every_pane() {
    let mut tiler = Tiler::new(config());
    tiler.init(80, 24);
    tiler.update(&Action::Connected("chan".to_string()));
    match tiler.panes().get(&0) {
        Some(Pane::Chat(chat)) => assert_eq!(chat.name(), "Chat: [chan]"),
        _ => panic!("root tile should hold the chat"),
    }
}

#[test]
fn tiler_emits_nothing_for_terminal_events() {
    let mut tiler = Tiler::new(config());
    let key = KeyPress { kind: KeyKind::Escape, event: KeyEvent::new(KeyCode::Esc, KeyModifiers::NONE) };
    assert!(tiler.handle_events(&TuiEvent::Key(key)).is_none());
    assert!(tiler.handle_events(&TuiEvent::Tick).is_none());
    assert_eq!(tiler.name(), "Tiler");
}

#[test]
fn pane_names() {
    let chat = Pane::Chat(Chat::new());
    let fetcher = Pane::Fetcher(Fetcher::new());
    assert_eq!(chat.name(), "Connecting...");
    assert_eq!(fetcher.name(), "Fetcher");
}

#[test]
fn close_after_split_restores_the_tiles() {
    let mut tiler = Tiler::new(config());
    tiler.init(80, 24);
    let area = ratatui::layout::Rect::new(0, 0, 80, 24);
    tiler.layout_mut().compute_layout(area);
    let before: Vec<u64> = tiler.layout().panes().iter().map(|p| p.id.get()).collect();
    tiler.update(&Action::TilingAction(TilingAction::SplitFocused { direction: Axis::Vertical }));
    tiler.update(&Action::TilingAction(TilingAction::CloseFocused));
    tiler.layout_mut().compute_layout(area);
    let mut after: Vec<u64> = tiler.layout().panes().iter().map(|p| p.id.get()).collect();
    let mut expected = before.clone();
    after.sort();
    expected.sort();
    assert_eq!(after, expected);
    assert_eq!(tiler.panes().len(), 2);
}

#[test]
fn moving_the_focused_pane_keeps_it_focused() {
    let mut tiler = Tiler::new(config());
    tiler.init(80, 24);
    let area = ratatui::layout::Rect::new(0, 0, 80, 24);
    let fetcher = tiler.focused_pane_id();
    assert_eq!(fetcher, 1);
    tiler.update(&Action::TilingAction(TilingAction::MoveFocused {
        direction: Axis::Horizontal,
        towards: Towards::Start,
        scope: MoveScope::Window,
    }));
    tiler.layout_mut().compute_layout(area);
    assert_eq!(tiler.focused_pane_id(), fetcher);
    let left = tiler.layout().panes().iter().min_by_key(|p| p.rect.x).map(|p| p.id.get());
    assert_eq!(left, Some(fetcher));
    tiler.update(&Action::TilingAction(TilingAction::MoveFocused {
        direction: Axis::Horizontal,
        towards: Towards::End,
        scope: MoveScope::Split,
    }));
    tiler.layout_mut().compute_layout(area);
    assert_eq!(tiler.focused_pane_id(), fetcher);
    let left = tiler.layout().panes().iter().min_by_key(|p| p.rect.x).map(|p| p.id.get());
    assert_eq!(left, Some(0));
    assert_eq!(tiler.panes().len(), 2);
}

#[test]
fn focus_moves_by_direction() {
    let mut tiler = Tiler::new(config());
    tiler.init(80, 24);
    assert_eq!(tiler.focused_pane_id(), 1);
    tiler.update(&Action::TilingAction(TilingAction::FocusDirection {
        direction: Axis::Horizontal,
        towards: Towards::Start,
    }));
    assert_eq!(tiler.focused_pane_id(), 0);
    tiler.update(&Action::TilingAction(TilingAction::FocusDirection {
        direction: Axis::Horizontal,
        towards: Towards::Start,
    }));
    assert_eq!(tiler.focused_pane_id(), 0);
}

#[test]
fn focus_stays_on_a_tile() {
    let mut tiler = Tiler::new(config());
    tiler.init(80, 24);
    let area = ratatui::layout::Rect::new(0, 0, 80, 24);
    let actions = [
        TilingAction::SplitFocused { direction: Axis::Horizontal },
        TilingAction::FocusPrev,
        TilingAction::CloseFocused,
        TilingAction::FocusNext,
        TilingAction::CloseFocused,
        TilingAction::CloseFocused,
    ];
    for action in actions {
        tiler.update(&Action::TilingAction(action));
        tiler.layout_mut().compute_layout(area);
        let focus = tiler.focused_pane_id();
        assert!(tiler.layout().panes().iter().any(|p| p.id.get() == focus));
    }
}
