//! The application's state machine: terminal events become actions, and
//! actions change the state and tell the terminal what to do.

use crate::configuration::Configuration;
use crate::interface::action::{Action, KeyKind, KeyPress, TilingAction};
use crate::interface::components::tiler::{Tiler, fresh_chat, fresh_fetcher, tiler_step};
use crossterm::event::{KeyEvent, MouseEvent};
use vstd::prelude::*;

verus! {

/// Terminal events, as the terminal loop reports them.
#[derive(Debug)]
pub enum TuiEvent {
    Quit,
    Tick,
    Render,
    Resize(u16, u16),
    Key(KeyPress),
    Mouse(MouseEvent),
    Other,
}

/// Input modes of the key bindings.
#[derive(Debug, Copy, Clone, PartialEq, Eq, Hash, Structural)]
pub enum Mode {
    Home,
}

impl Default for Mode {
    fn default() -> (mode: Self)
        ensures
            mode == Mode::Home,
    {
        Mode::Home
    }
}

/// What the terminal has to do after an action.
#[derive(Debug, Clone, Copy, PartialEq, Eq, Structural)]
pub enum AppEffect {
    Nothing,
    ClearScreen,
    Resize(u16, u16),
    Render,
}

/// What the main loop does once the pending actions are handled.
#[derive(Debug, Clone, Copy, PartialEq, Eq, Structural)]
pub enum LoopStep {
    Continue,
    Suspend,
    Quit,
}

/// The action a key press becomes: Esc quits, Tab moves the focus to the next
/// pane, and every other key goes on to the panes as it is.
pub open spec fn key_action_spec(key: KeyPress) -> Action {
    match key.kind {
        KeyKind::Escape => Action::Quit,
        KeyKind::Tab => Action::TilingAction(TilingAction::FocusNext),
        KeyKind::Other => Action::KeyEvent(key),
    }
}

/// The actions a terminal event becomes, before the key press is told apart
/// (`None` for a key press, whose action `key_action_spec` gives).
pub open spec fn event_action(event: TuiEvent) -> Option<Action> {
    match event {
        TuiEvent::Quit => Some(Action::Quit),
        TuiEvent::Tick => Some(Action::Tick),
        TuiEvent::Render => Some(Action::Render),
        TuiEvent::Resize(w, h) => Some(Action::Resize(w, h)),
        _ => None,
    }
}

/// The quit and suspend flags after an action: Quit sets the first, Suspend
/// sets and Resume clears the second.
pub open spec fn flags_after(quit: bool, suspend: bool, action: Action) -> (bool, bool) {
    match action {
        Action::Quit => (true, suspend),
        Action::Suspend => (quit, true),
        Action::Resume => (quit, false),
        _ => (quit, suspend),
    }
}

/// What the terminal has to do after an action.
pub open spec fn effect_of(action: Action) -> AppEffect {
    match action {
        Action::ClearScreen => AppEffect::ClearScreen,
        Action::Resize(w, h) => AppEffect::Resize(w, h),
        Action::Render => AppEffect::Render,
        _ => AppEffect::Nothing,
    }
}

/// What the main loop does: a pending suspension comes before quitting.
pub open spec fn loop_step_spec(quit: bool, suspend: bool) -> LoopStep {
    if suspend {
        LoopStep::Suspend
    } else if quit {
        LoopStep::Quit
    } else {
        LoopStep::Continue
    }
}

/// The quit and suspend flags after a run of actions, first to last.
pub open spec fn flags_after_all(quit: bool, suspend: bool, actions: Seq<Action>) -> (bool, bool)
    decreases actions.len(),
{
    if actions.len() == 0 {
        (quit, suspend)
    } else {
        let (q, s) = flags_after_all(quit, suspend, actions.drop_last());
        flags_after(q, s, actions.last())
    }
}

/// Law: only Quit makes the application quit and only Suspend makes it
/// suspend: from a running state, every other action (a resize, a render, a
/// tick, a chat message, ...) keeps the main loop going.
pub proof fn lemma_only_quit_quits(quit: bool, suspend: bool, action: Action)
    ensures
        !(action is Quit) ==> flags_after(quit, suspend, action).0 == quit,
        !(action is Suspend) ==> (flags_after(quit, suspend, action).1 ==> suspend),
        (!quit && !suspend && !(action is Quit) && !(action is Suspend)) ==> {
            let (q, s) = flags_after(quit, suspend, action);
            loop_step_spec(q, s) == LoopStep::Continue
        },
{
}

/// Law: once the application is quitting, no run of actions makes it stop
/// quitting.
pub proof fn lemma_quit_is_final(suspend: bool, actions: Seq<Action>)
    ensures
        flags_after_all(true, suspend, actions).0,
    decreases actions.len(),
{
    if actions.len() > 0 {
        lemma_quit_is_final(suspend, actions.drop_last());
    }
}

/// Law: Resume undoes Suspend: suspending and then resuming leaves the
/// application running, with its quit flag as it was.
pub proof fn lemma_resume_undoes_suspend(quit: bool, suspend: bool)
    ensures
        ({
            let (q, s) = flags_after(quit, suspend, Action::Suspend);
            flags_after(q, s, Action::Resume)
        }) == (quit, false),
        loop_step_spec(quit, false) != LoopStep::Suspend,
{
}

/// Law: a pending suspension is served before quitting, and the loop goes on
/// only when neither is pending.
pub proof fn lemma_loop_step_order(quit: bool, suspend: bool)
    ensures
        suspend ==> loop_step_spec(quit, suspend) == LoopStep::Suspend,
        (quit && !suspend) ==> loop_step_spec(quit, suspend) == LoopStep::Quit,
        (loop_step_spec(quit, suspend) == LoopStep::Continue) <==> (!quit && !suspend),
{
}

/// The state the application keeps between terminal events.
pub struct AppState {
    config: Configuration,
    should_quit: bool,
    should_suspend: bool,
    last_tick_key_events: Vec<KeyEvent>,
    tiler: Tiler,
}

impl AppState {
    pub closed spec fn quitting(self) -> bool {
        self.should_quit
    }

    pub closed spec fn suspending(self) -> bool {
        self.should_suspend
    }

    pub closed spec fn recent_keys(self) -> Seq<KeyEvent> {
        self.last_tick_key_events@
    }

    pub closed spec fn components(self) -> Tiler {
        self.tiler
    }

    pub closed spec fn settings(self) -> Configuration {
        self.config
    }

    /// A fresh state: not quitting, not suspended, and a tiler that has not
    /// placed its panes yet.
    pub fn new(config: Configuration) -> (res: Self)
        ensures
            !res.quitting(),
            !res.suspending(),
            res.recent_keys() == Seq::<KeyEvent>::empty(),
            res.settings() == config,
            res.components().settings() == config,
            res.components().tiles() == set![0u64],
            res.components().focus() == 0,
            res.components().next_id() == 1,
            res.components().pane_map() == Map::<u64, crate::interface::components::tiler::Pane>::empty(),
    {
        let tiler = Tiler::new(config.clone());
        AppState {
            config,
            should_quit: false,
            should_suspend: false,
            last_tick_key_events: Vec::new(),
            tiler,
        }
    }

    /// Start-up of the components: the tiler receives the configuration, then
    /// places its panes in a terminal of the given size.
    pub fn start(&mut self, width: u16, height: u16)
        ensures
            final(self).quitting() == old(self).quitting(),
            final(self).suspending() == old(self).suspending(),
            final(self).recent_keys() == old(self).recent_keys(),
            final(self).settings() == old(self).settings(),
            final(self).components().settings() == old(self).components().settings(),
            old(self).components().pane_map().is_empty() ==> {
                let tiler = final(self).components();
                &&& tiler.pane_map().contains_key(0)
                &&& fresh_chat(tiler.pane_map()[0], old(self).components().settings().chat)
                &&& !old(self).components().tiles().contains(old(self).components().next_id())
                    ==> {
                    &&& tiler.pane_map().dom() == set![0u64, old(self).components().next_id()]
                    &&& fresh_fetcher(tiler.pane_map()[old(self).components().next_id()])
                    &&& tiler.focus() == old(self).components().next_id()
                }
            },
    {
        let config = self.config.clone();
        self.tiler.register_config_handler(&config);
        self.tiler.init(width, height);
    }

    /// The action a key press becomes: Esc quits, Tab moves the focus, any
    /// other key goes on to the panes (see `key_action_spec`).
    pub fn handle_key_event(&self, key: KeyPress) -> (action: Action)
        ensures
            action == key_action_spec(key),
    {
        match key.kind {
            KeyKind::Escape => Action::Quit,
            KeyKind::Tab => Action::TilingAction(TilingAction::FocusNext),
            KeyKind::Other => Action::KeyEvent(key),
        }
    }

    /// The actions a terminal event becomes: one for quit, tick, render,
    /// resize and key events, none otherwise. The components are asked too,
    /// and emit nothing.
    pub fn handle_events(&mut self, event: TuiEvent) -> (actions: Vec<Action>)
        ensures
            *final(self) == *old(self),
            event_action(event) matches Some(a) ==> actions@ == seq![a],
            event matches TuiEvent::Key(key) ==> actions@ == seq![key_action_spec(key)],
            (event is Mouse || event is Other) ==> actions@.len() == 0,
    {
        let mut actions: Vec<Action> = Vec::new();
        match event {
            TuiEvent::Quit => actions.push(Action::Quit),
            TuiEvent::Tick => actions.push(Action::Tick),
            TuiEvent::Render => actions.push(Action::Render),
            TuiEvent::Resize(w, h) => actions.push(Action::Resize(w, h)),
            TuiEvent::Key(key) => actions.push(self.handle_key_event(key)),
            _ => {},
        }
        match self.tiler.handle_events(&event) {
            Some(action) => actions.push(action),
            None => {},
        }
        actions
    }

    /// Handles one action: Tick forgets the key presses of the last tick,
    /// Quit, Suspend and Resume set the flags (see `flags_after`), the
    /// terminal effect is reported (see `effect_of`), and the tiler receives
    /// the action (see `tiler_step`).
    pub fn handle_action(&mut self, action: Action) -> (effect: AppEffect)
        requires
            (action is KeyEvent) ==> old(self).components().focus_has_pane(),
        ensures
            effect == effect_of(action),
            (final(self).quitting(), final(self).suspending()) == flags_after(
                old(self).quitting(),
                old(self).suspending(),
                action,
            ),
            final(self).recent_keys() == (if action is Tick {
                Seq::<KeyEvent>::empty()
            } else {
                old(self).recent_keys()
            }),
            tiler_step(old(self).components(), action, final(self).components()),
            final(self).settings() == old(self).settings(),
    {
        let effect = match action {
            Action::Tick => {
                self.last_tick_key_events.clear();
                AppEffect::Nothing
            },
            Action::Quit => {
                self.should_quit = true;
                AppEffect::Nothing
            },
            Action::Suspend => {
                self.should_suspend = true;
                AppEffect::Nothing
            },
            Action::Resume => {
                self.should_suspend = false;
                AppEffect::Nothing
            },
            Action::ClearScreen => AppEffect::ClearScreen,
            Action::Resize(w, h) => AppEffect::Resize(w, h),
            Action::Render => AppEffect::Render,
            _ => AppEffect::Nothing,
        };
        let _ = self.tiler.update(&action);
        effect
    }

    /// What the main loop does next (see `loop_step_spec`).
    pub fn loop_step(&self) -> (step: LoopStep)
        ensures
            step == loop_step_spec(self.quitting(), self.suspending()),
    {
        if self.should_suspend {
            LoopStep::Suspend
        } else if self.should_quit {
            LoopStep::Quit
        } else {
            LoopStep::Continue
        }
    }

    /// The actions queued once the terminal is suspended: resume, then clear
    /// the screen.
    pub fn actions_after_suspend() -> (actions: Vec<Action>)
        ensures
            actions@.len() == 2,
            actions@[0] is Resume,
            actions@[1] is ClearScreen,
    {
        let mut actions: Vec<Action> = Vec::new();
        actions.push(Action::Resume);
        actions.push(Action::ClearScreen);
        actions
    }

    /// The tiler, for drawing.
    pub fn tiler(&self) -> (tiler: &Tiler)
        ensures
            *tiler == self.components(),
    {
        &self.tiler
    }

    /// The tiler, to change (for drawing).
    pub fn tiler_mut(&mut self) -> (tiler: &mut Tiler)
        ensures
            *tiler == old(self).components(),
            final(self).components() == *final(tiler),
            final(self).quitting() == old(self).quitting(),
            final(self).suspending() == old(self).suspending(),
            final(self).recent_keys() == old(self).recent_keys(),
            final(self).settings() == old(self).settings(),
    {
        &mut self.tiler
    }
}

} // verus!
