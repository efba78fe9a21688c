//! The tiler: lays the panes out with a tiling layout and routes actions to them.

use crate::configuration::{ChatConfig, Configuration};
use crate::interface::action::{Action, Axis, MoveScope, TilingAction, Towards};
use crate::interface::action::TilingAction::{
    CloseFocused,
    FocusDirection,
    FocusNext,
    FocusPrev,
    MoveFocused,
    SplitFocused,
};
use crate::interface::components::chat::{
    after_push,
    Chat,
    ChatMessage,
    chat_step,
    CHAT_HISTORY_CAPACITY,
};
use crate::interface::app::TuiEvent;
use crate::interface::components::fetcher::{Fetcher, editor_lines, fetcher_step};
use crossterm::event::KeyEvent;
use ratatui::layout::{Direction, Rect};
use ratatui_hypertile::{Hypertile, HypertileAction};
use ratatui_hypertile::MoveScope as HypertileMoveScope;
use ratatui_hypertile::Towards as HypertileTowards;
use std::collections::HashMap;
use vstd::multiset::Multiset;
use vstd::prelude::*;
use vstd::string::StringExecFns;
use vstd::std_specs::iter::IteratorSpec;

verus! {

/// `ratatui_hypertile::Hypertile`, the tiling layout, held opaque.
#[verifier::external_type_specification]
#[verifier::external_body]
pub struct ExHypertile(Hypertile);

/// The panes a layout holds, by id (the leaves of its tree).
pub uninterp spec fn tiled_panes(layout: Hypertile) -> Set<u64>;

/// The pane that has the focus (always one of the leaves).
pub uninterp spec fn focused_tile(layout: Hypertile) -> u64;

/// The id the layout gives the next pane it creates.
pub uninterp spec fn next_tile_id(layout: Hypertile) -> u64;

/// The directions of the layout's splits (the inner nodes of its tree).
pub uninterp spec fn tile_splits(layout: Hypertile) -> Multiset<Axis>;

/// The id counter after an allocation: one up, stopping at `u64::MAX`.
pub open spec fn bumped(id: u64) -> u64 {
    if id == u64::MAX {
        id
    } else {
        (id + 1) as u64
    }
}

/// A split of the focused pane in the given direction, as the layout does it:
/// an id is always allocated; when that id is not a pane yet (ids run out only
/// at `u64::MAX`), the focused pane is split, the new pane takes that id and the
/// focus; otherwise the panes, the focus and the splits stay as they are.
pub open spec fn split_step(before: Hypertile, direction: Axis, after: Hypertile) -> bool {
    &&& next_tile_id(after) == bumped(next_tile_id(before))
    &&& if !tiled_panes(before).contains(next_tile_id(before)) {
        &&& tiled_panes(after) == tiled_panes(before).insert(next_tile_id(before))
        &&& focused_tile(after) == next_tile_id(before)
        &&& tile_splits(after) == tile_splits(before).insert(direction)
    } else {
        &&& tiled_panes(after) == tiled_panes(before)
        &&& focused_tile(after) == focused_tile(before)
        &&& tile_splits(after) == tile_splits(before)
    }
}

/// How a layout command changes the layout. Moving the focus keeps the panes,
/// the splits and the id counter. Moving the focused pane swaps it with
/// another pane or with its sibling in a split: the panes, the splits, the id
/// counter and the focused pane stay. A split goes as `split_step` says. Closing
/// removes the focused pane and the split above it when there is another pane,
/// and changes nothing when the focused pane is the only one. The focus always
/// rests on one of the panes.
pub open spec fn layout_step(before: Hypertile, action: TilingAction, after: Hypertile) -> bool {
    &&& tiled_panes(after).contains(focused_tile(after))
    &&& match action {
        TilingAction::FocusNext | TilingAction::FocusPrev | TilingAction::FocusDirection { .. } => {
            &&& tiled_panes(after) == tiled_panes(before)
            &&& tile_splits(after) == tile_splits(before)
            &&& next_tile_id(after) == next_tile_id(before)
        },
        TilingAction::MoveFocused { .. } => {
            &&& tiled_panes(after) == tiled_panes(before)
            &&& tile_splits(after) == tile_splits(before)
            &&& next_tile_id(after) == next_tile_id(before)
            &&& focused_tile(after) == focused_tile(before)
        },
        TilingAction::SplitFocused { direction } => split_step(before, direction, after),
        TilingAction::CloseFocused => {
            &&& next_tile_id(after) == next_tile_id(before)
            &&& if exists|t: u64| tiled_panes(before).contains(t) && t != focused_tile(before) {
                &&& tiled_panes(after) == tiled_panes(before).remove(focused_tile(before))
                &&& exists|a: Axis|
                    tile_splits(before).count(a) > 0 && tile_splits(after) == tile_splits(
                        before,
                    ).remove(a)
            } else {
                &&& tiled_panes(after) == tiled_panes(before)
                &&& focused_tile(after) == focused_tile(before)
                &&& tile_splits(after) == tile_splits(before)
            }
        },
    }
}

/// `Hypertile::new`: a layout of the root pane 0 alone, focused, with no split;
/// the next pane will get id 1.
#[verifier::external_body]
fn layout_new() -> (layout: Hypertile)
    ensures
        tiled_panes(layout) == set![0u64],
        focused_tile(layout) == 0,
        next_tile_id(layout) == 1,
        tile_splits(layout) == Multiset::<Axis>::empty(),
{
    Hypertile::new()
}

/// `Hypertile::focused_pane`: the id of the focused pane.
#[verifier::external_body]
fn layout_focused_pane(layout: &Hypertile) -> (id: Option<u64>)
    ensures
        id == Some(focused_tile(*layout)),
{
    layout.focused_pane().map(|pane| pane.get())
}

/// `Hypertile::split_focused` with `Direction::Horizontal` (see `split_step`):
/// gives the new pane's id, which is never the root's 0, or `None` when ids have
/// run out. The crate allocates ids upwards from 1, and its focused path always
/// leads to a pane, so no other failure arises.
#[verifier::external_body]
fn layout_split_focused(layout: &mut Hypertile) -> (id: Option<u64>)
    ensures
        split_step(*old(layout), Axis::Horizontal, *final(layout)),
        id == (if !tiled_panes(*old(layout)).contains(next_tile_id(*old(layout))) {
            Some(next_tile_id(*old(layout)))
        } else {
            None
        }),
        id != Some(0u64),
{
    layout.split_focused(Direction::Horizontal).ok().map(|pane| pane.get())
}

/// `Hypertile::compute_layout` over the area at the origin with the given size:
/// the pane geometry is recomputed; the tree, the focus and the id counter stay
/// as they are.
#[verifier::external_body]
fn layout_compute(layout: &mut Hypertile, width: u16, height: u16)
    ensures
        tiled_panes(*final(layout)) == tiled_panes(*old(layout)),
        focused_tile(*final(layout)) == focused_tile(*old(layout)),
        next_tile_id(*final(layout)) == next_tile_id(*old(layout)),
        tile_splits(*final(layout)) == tile_splits(*old(layout)),
{
    layout.compute_layout(Rect::new(0, 0, width, height))
}

/// `Hypertile::apply_action` with the command's `HypertileAction`: see
/// `layout_step`.
#[verifier::external_body]
fn layout_apply(layout: &mut Hypertile, action: TilingAction)
    ensures
        layout_step(*old(layout), action, *final(layout)),
{
    let direction = match action { SplitFocused { direction: Axis::Vertical } | FocusDirection { direction: Axis::Vertical, .. } | MoveFocused { direction: Axis::Vertical, .. } => Direction::Vertical, _ => Direction::Horizontal };
    let towards = match action { FocusDirection { towards: Towards::Start, .. } | MoveFocused { towards: Towards::Start, .. } => HypertileTowards::Start, _ => HypertileTowards::End };
    let _ = layout.apply_action(match action {
        FocusNext => HypertileAction::FocusNext,
        FocusPrev => HypertileAction::FocusPrev,
        FocusDirection { .. } => HypertileAction::FocusDirection { direction, towards },
        SplitFocused { .. } => HypertileAction::SplitFocused { direction },
        CloseFocused => HypertileAction::CloseFocused,
        MoveFocused { scope: MoveScope::Split, .. } => HypertileAction::MoveFocused { direction, towards, scope: HypertileMoveScope::Split },
        MoveFocused { .. } => HypertileAction::MoveFocused { direction, towards, scope: HypertileMoveScope::Window },
    });
}

/// A prefix grown by one element holds what the shorter prefix holds and that
/// element.
proof fn lemma_take_next_contains(s: Seq<u64>, i: int, k: u64)
    requires
        0 <= i < s.len(),
    ensures
        s.take(i + 1).contains(k) == (s.take(i).contains(k) || k == s[i]),
{
    let longer = s.take(i + 1);
    let shorter = s.take(i);
    assert(longer == shorter.push(s[i]));
    if longer.contains(k) {
        let j = choose|j: int| 0 <= j < longer.len() && longer[j] == k;
        if j < i {
            assert(shorter[j] == k);
        }
    }
    if shorter.contains(k) {
        let j = choose|j: int| 0 <= j < shorter.len() && shorter[j] == k;
        assert(longer[j] == k);
    }
    if k == s[i] {
        assert(longer[i] == k);
    }
}

/// A pane the tiler can hold.
pub enum Pane {
    Chat(Chat),
    Fetcher(Fetcher),
}

/// How one action changes a pane (see `chat_step` and `fetcher_step`); a pane
/// never changes its kind.
pub open spec fn pane_step(before: Pane, action: Action, after: Pane) -> bool {
    match before {
        Pane::Chat(b) => match after {
            Pane::Chat(a) => chat_step(b, action, a),
            Pane::Fetcher(_) => false,
        },
        Pane::Fetcher(b) => match after {
            Pane::Fetcher(a) => fetcher_step(b, action, a),
            Pane::Chat(_) => false,
        },
    }
}

/// How the configuration reaches a pane: a chat pane takes its chat settings,
/// a fetcher has none to take.
pub open spec fn pane_configured(before: Pane, config: Configuration, after: Pane) -> bool {
    match before {
        Pane::Chat(b) => match after {
            Pane::Chat(a) => {
                &&& a.display() == config.chat
                &&& a.history() == b.history()
                &&& a.channel() == b.channel()
            },
            Pane::Fetcher(_) => false,
        },
        Pane::Fetcher(b) => after == before,
    }
}

/// What the tiler hands to all of its panes at once.
#[derive(Clone, Copy)]
enum PaneInput<'a> {
    Act(&'a Action),
    Config(&'a Configuration),
}

/// How a pane takes an input (see `pane_step` and `pane_configured`).
spec fn pane_reacts(before: Pane, input: PaneInput, after: Pane) -> bool {
    match input {
        PaneInput::Act(action) => pane_step(before, *action, after),
        PaneInput::Config(config) => pane_configured(before, *config, after),
    }
}

/// A chat pane as start-up places it: no messages, no channel yet, and the
/// given display settings.
pub open spec fn fresh_chat(pane: Pane, display: ChatConfig) -> bool {
    &&& pane matches Pane::Chat(chat)
    &&& chat.history() == Seq::<crate::interface::components::chat::ChatMessage>::empty()
    &&& chat.channel() is None
    &&& chat.display() == display
}

/// A fetcher pane as start-up places it: one empty line in the editor and no
/// output.
pub open spec fn fresh_fetcher(pane: Pane) -> bool {
    &&& pane matches Pane::Fetcher(fetcher)
    &&& editor_lines(fetcher.editor()) == seq![Seq::<char>::empty()]
    &&& fetcher.output_text()@ == Seq::<char>::empty()
}

impl Pane {
    /// Passes an input to the pane.
    fn react(&mut self, input: PaneInput)
        ensures
            pane_reacts(*old(self), input, *final(self)),
    {
        match input {
            PaneInput::Act(action) => {
                let _ = self.update(action);
            },
            PaneInput::Config(config) => self.register_config_handler(config),
        }
    }

    /// Passes the action to the pane. No action is emitted in return.
    pub fn update(&mut self, action: &Action) -> (emitted: Option<Action>)
        ensures
            emitted is None,
            pane_step(*old(self), *action, *final(self)),
    {
        match self {
            Pane::Chat(chat) => chat.update(action),
            Pane::Fetcher(fetcher) => fetcher.update(action),
        }
    }

    /// Passes the configuration to the pane.
    pub fn register_config_handler(&mut self, config: &Configuration)
        ensures
            pane_configured(*old(self), *config, *final(self)),
    {
        match self {
            Pane::Chat(chat) => chat.register_config_handler(config),
            Pane::Fetcher(_) => {},
        }
    }

    /// The pane's title.
    pub fn name(&self) -> (title: String)
        ensures
            match *self {
                Pane::Chat(chat) => title@ == crate::interface::components::chat::chat_title(
                    chat.channel(),
                ),
                Pane::Fetcher(_) => title@ == "Fetcher"@,
            },
    {
        match self {
            Pane::Chat(chat) => chat.name(),
            Pane::Fetcher(fetcher) => fetcher.name(),
        }
    }
}

/// How one action changes the tiler: layout commands go to the layout, keys to
/// the pane in the focused tile, everything else to every pane; the
/// configuration never changes.
pub open spec fn tiler_step(before: Tiler, action: Action, after: Tiler) -> bool {
    &&& after.settings() == before.settings()
    &&& match action {
        Action::TilingAction(command) => {
            &&& layout_step(before.layout_value(), command, after.layout_value())
            &&& after.pane_map() == before.pane_map()
        },
        Action::KeyEvent(_) => {
            &&& after.layout_value() == before.layout_value()
            &&& after.pane_map().dom() == before.pane_map().dom()
            &&& pane_step(
                before.pane_map()[before.focus()],
                action,
                after.pane_map()[before.focus()],
            )
            &&& forall|k: u64|
                k != before.focus() ==> #[trigger] after.pane_map().get(k) == before.pane_map().get(
                    k,
                )
        },
        _ => {
            &&& after.layout_value() == before.layout_value()
            &&& after.pane_map().dom() == before.pane_map().dom()
            &&& forall|k: u64|
                before.pane_map().contains_key(k) ==> pane_step(
                    before.pane_map()[k],
                    action,
                    #[trigger] after.pane_map()[k],
                )
        },
    }
}

/// Law: an action that is neither a layout command nor a key reaches every
/// pane, the focused one included, and leaves the layout alone: a chat message
/// joins the history of every chat pane, whichever tile has the focus.
pub proof fn lemma_chat_message_reaches_every_pane(
    before: Tiler,
    message: ChatMessage,
    after: Tiler,
    k: u64,
)
    requires
        tiler_step(before, Action::ChatMessage(message), after),
        before.pane_map().contains_key(k),
        before.pane_map()[k] is Chat,
    ensures
        after.pane_map().contains_key(k),
        after.pane_map()[k] matches Pane::Chat(chat) && chat.history() == after_push(
            before.pane_map()[k]->Chat_0.history(),
            message,
            CHAT_HISTORY_CAPACITY as nat,
        ),
        after.tiles() == before.tiles(),
        after.focus() == before.focus(),
{
}

/// Law: every action other than a layout command or a key reaches every pane
/// of the tiler, the focused one included (see `pane_step`).
pub proof fn lemma_broadcast_reaches_focused_pane(before: Tiler, action: Action, after: Tiler)
    requires
        tiler_step(before, action, after),
        !(action is TilingAction),
        !(action is KeyEvent),
        before.pane_map().contains_key(before.focus()),
    ensures
        pane_step(before.pane_map()[before.focus()], action, after.pane_map()[before.focus()]),
        after.focus() == before.focus(),
{
}

/// Law: every action keeps the focus on one of the layout's tiles.
pub proof fn lemma_focus_stays_on_a_tile(before: Tiler, action: Action, after: Tiler)
    requires
        before.tiles().contains(before.focus()),
        tiler_step(before, action, after),
    ensures
        after.tiles().contains(after.focus()),
{
}

/// Law: closing the tile a split has just made gives back the tiles the
/// layout had before the split, with as many splits, and leaves the panes as
/// they were. (A split makes a tile unless the layout's ids have run out.)
pub proof fn lemma_close_undoes_split(before: Tiler, direction: Axis, split: Tiler, after: Tiler)
    requires
        before.tiles().contains(before.focus()),
        !before.tiles().contains(before.next_id()),
        tiler_step(before, Action::TilingAction(TilingAction::SplitFocused { direction }), split),
        tiler_step(split, Action::TilingAction(TilingAction::CloseFocused), after),
    ensures
        after.tiles() == before.tiles(),
        after.splits().len() == before.splits().len(),
        after.pane_map() == before.pane_map(),
{
    assert(split.tiles().contains(before.focus()) && before.focus() != split.focus());
    assert(after.tiles() =~= before.tiles());
}

/// The tiler: a layout and the pane shown in each of its tiles.
pub struct Tiler {
    layout: Hypertile,
    panes: HashMap<u64, Pane>,
    config: Configuration,
}

impl Tiler {
    /// The ids of the layout's panes.
    pub open spec fn tiles(self) -> Set<u64> {
        tiled_panes(self.layout_value())
    }

    /// The id of the focused tile.
    pub open spec fn focus(self) -> u64 {
        focused_tile(self.layout_value())
    }

    /// The id the next split will give.
    pub open spec fn next_id(self) -> u64 {
        next_tile_id(self.layout_value())
    }

    /// The directions of the layout's splits.
    pub open spec fn splits(self) -> Multiset<Axis> {
        tile_splits(self.layout_value())
    }

    /// The panes, by tile id.
    pub closed spec fn pane_map(self) -> Map<u64, Pane> {
        self.panes@
    }

    /// The configuration the panes receive on start-up.
    pub closed spec fn settings(self) -> Configuration {
        self.config
    }

    /// The layout.
    pub closed spec fn layout_value(self) -> Hypertile {
        self.layout
    }

    /// Whether the focused tile shows a pane.
    pub open spec fn focus_has_pane(self) -> bool {
        self.pane_map().contains_key(self.focus())
    }

    /// A layout of the root tile alone and no panes yet.
    pub fn new(config: Configuration) -> (res: Self)
        ensures
            res.tiles() == set![0u64],
            res.focus() == 0,
            res.next_id() == 1,
            res.splits() == Multiset::<Axis>::empty(),
            res.pane_map() == Map::<u64, Pane>::empty(),
            res.settings() == config,
    {
        Tiler { layout: layout_new(), panes: HashMap::new(), config }
    }

    /// The layout.
    pub fn layout(&self) -> (res: &Hypertile)
        ensures
            *res == self.layout_value(),
    {
        &self.layout
    }

    /// The layout, to change.
    pub fn layout_mut(&mut self) -> (res: &mut Hypertile)
        ensures
            *res == old(self).layout_value(),
            final(self).layout_value() == *final(res),
            final(self).pane_map() == old(self).pane_map(),
            final(self).settings() == old(self).settings(),
    {
        &mut self.layout
    }

    /// The panes, by tile id.
    pub fn panes(&self) -> (res: &HashMap<u64, Pane>)
        ensures
            res@ == self.pane_map(),
    {
        &self.panes
    }

    /// The panes, to change (for drawing).
    pub fn panes_mut(&mut self) -> (res: &mut HashMap<u64, Pane>)
        ensures
            res@ == old(self).pane_map(),
            final(self).pane_map() == final(res)@,
            final(self).layout_value() == old(self).layout_value(),
            final(self).settings() == old(self).settings(),
    {
        &mut self.panes
    }

    /// Places a pane: the first one fills the root tile; every later one gets a
    /// new tile split off the focused one, which takes the focus. Gives the new
    /// tile's id, or `None` when the layout refuses the split.
    pub fn insert_pane(&mut self, component: Pane) -> (id: Option<u64>)
        ensures
            final(self).settings() == old(self).settings(),
            old(self).pane_map().is_empty() ==> {
                &&& id == Some(0u64)
                &&& final(self).pane_map() == old(self).pane_map().insert(0, component)
                &&& final(self).layout_value() == old(self).layout_value()
            },
            !old(self).pane_map().is_empty() ==> {
                &&& split_step(old(self).layout_value(), Axis::Horizontal, final(self).layout_value())
                &&& id == (if !old(self).tiles().contains(old(self).next_id()) {
                    Some(old(self).next_id())
                } else {
                    None
                })
                &&& match id {
                    Some(id) => {
                        &&& id != 0
                        &&& final(self).pane_map() == old(self).pane_map().insert(id, component)
                    },
                    None => final(self).pane_map() == old(self).pane_map(),
                }
            },
    {
        broadcast use vstd::std_specs::hash::group_hash_axioms;

        let id = if self.panes.is_empty() {
            0u64
        } else {
            match layout_split_focused(&mut self.layout) {
                Some(id) => id,
                None => {
                    return None;
                },
            }
        };
        self.panes.insert(id, component);
        Some(id)
    }

    /// Takes the pane out of the tile with the given id.
    pub fn remove_pane(&mut self, pane_id: u64) -> (removed: Option<Pane>)
        ensures
            final(self).pane_map() == old(self).pane_map().remove(pane_id),
            final(self).layout_value() == old(self).layout_value(),
            final(self).settings() == old(self).settings(),
            removed == (if old(self).pane_map().contains_key(pane_id) {
                Some(old(self).pane_map()[pane_id])
            } else {
                None
            }),
    {
        broadcast use vstd::std_specs::hash::group_hash_axioms;

        self.panes.remove(&pane_id)
    }

    /// The id of the focused tile.
    pub fn focused_pane_id(&self) -> (id: u64)
        ensures
            id == self.focus(),
    {
        match layout_focused_pane(&self.layout) {
            Some(id) => id,
            None => 0,
        }
    }

    /// The pane in the focused tile, if that tile shows one.
    pub fn get_focused_pane(&self) -> (pane: Option<&Pane>)
        ensures
            pane == (if self.focus_has_pane() {
                Some(&self.pane_map()[self.focus()])
            } else {
                None
            }),
    {
        broadcast use vstd::std_specs::hash::group_hash_axioms;

        let id = self.focused_pane_id();
        self.panes.get(&id)
    }

    /// The ids of the tiles that show a pane, each once, in no particular order.
    fn pane_ids(&self) -> (ids: Vec<u64>)
        ensures
            ids@.to_set() == self.pane_map().dom(),
            ids@.no_duplicates(),
    {
        broadcast use vstd::std_specs::hash::group_hash_axioms;

        let mut ids: Vec<u64> = Vec::new();
        for id in it: self.panes.keys()
            invariant
                ids@ == it.seq().take(it.index()).unref(),
                it.seq() == vstd::std_specs::hash::spec_keys_iter(&self.panes).remaining(),
        {
            ids.push(*id);
        }
        proof {
            let keys = vstd::std_specs::hash::spec_keys_iter(&self.panes).remaining();
            assert(keys.take(keys.len() as int) == keys);
        }
        ids
    }

    /// Hands the same input to every pane, in no particular order.
    fn for_each_pane(&mut self, input: PaneInput)
        ensures
            final(self).pane_map().dom() == old(self).pane_map().dom(),
            forall|k: u64|
                old(self).pane_map().contains_key(k) ==> pane_reacts(
                    old(self).pane_map()[k],
                    input,
                    #[trigger] final(self).pane_map()[k],
                ),
            final(self).layout_value() == old(self).layout_value(),
            final(self).settings() == old(self).settings(),
    {
        broadcast use vstd::std_specs::hash::group_hash_axioms;

        let ids = self.pane_ids();
        let ghost before = self.panes@;
        let ghost layout = self.layout;
        let ghost settings = self.config;
        let mut i: usize = 0;
        while i < ids.len()
            invariant
                ids@.to_set() == before.dom(),
                ids@.no_duplicates(),
                i <= ids.len(),
                self.panes@.dom() == before.dom(),
                forall|k: u64| #[trigger]
                    self.panes@.contains_key(k) ==> (if ids@.take(i as int).contains(k) {
                        pane_reacts(before[k], input, self.panes@[k])
                    } else {
                        self.panes@[k] == before[k]
                    }),
                self.layout == layout,
                self.config == settings,
            decreases ids.len() - i,
        {
            let id = ids[i];
            proof {
                assert(ids@.to_set().contains(id));
                assert(!ids@.take(i as int).contains(id));
                assert forall|k: u64| #[trigger] ids@.take(i + 1).contains(k) == (ids@.take(
                    i as int,
                ).contains(k) || k == id) by {
                    lemma_take_next_contains(ids@, i as int, k);
                }
            }
            match self.panes.remove(&id) {
                Some(pane) => {
                    let mut pane = pane;
                    pane.react(input);
                    self.panes.insert(id, pane);
                },
                None => {},
            }
            i = i + 1;
        }
        proof {
            assert(ids@.take(ids@.len() as int) == ids@);
            assert forall|k: u64| before.contains_key(k) implies ids@.contains(k) by {
                assert(ids@.to_set().contains(k));
            }
        }
    }

    /// Passes the configuration to every pane, in no particular order.
    pub fn register_config_handler(&mut self, config: &Configuration)
        ensures
            final(self).pane_map().dom() == old(self).pane_map().dom(),
            forall|k: u64|
                old(self).pane_map().contains_key(k) ==> pane_configured(
                    old(self).pane_map()[k],
                    *config,
                    #[trigger] final(self).pane_map()[k],
                ),
            final(self).layout_value() == old(self).layout_value(),
            final(self).settings() == old(self).settings(),
    {
        self.for_each_pane(PaneInput::Config(config));
    }

    /// Routes an action (see `tiler_step`). No action is emitted in return.
    pub fn update(&mut self, action: &Action) -> (emitted: Option<Action>)
        requires
            (*action is KeyEvent) ==> old(self).focus_has_pane(),
        ensures
            emitted is None,
            tiler_step(*old(self), *action, *final(self)),
    {
        broadcast use vstd::std_specs::hash::group_hash_axioms;

        match action {
            Action::TilingAction(command) => {
                layout_apply(&mut self.layout, *command);
            },
            Action::KeyEvent(_) => {
                let id = self.focused_pane_id();
                match self.panes.remove(&id) {
                    Some(pane) => {
                        let mut pane = pane;
                        let _ = pane.update(action);
                        self.panes.insert(id, pane);
                    },
                    None => {},
                }
            },
            _ => {
                self.for_each_pane(PaneInput::Act(action));
            },
        }
        None
    }

    /// Fills the layout on start-up: a chat pane in the root tile and a
    /// fetcher in a tile split off it, sized to the terminal; then every pane
    /// receives the tiler's configuration.
    pub fn init(&mut self, width: u16, height: u16)
        ensures
            final(self).settings() == old(self).settings(),
            old(self).pane_map().dom().subset_of(final(self).pane_map().dom()),
            old(self).pane_map().is_empty() ==> {
                &&& final(self).pane_map().contains_key(0)
                &&& fresh_chat(final(self).pane_map()[0], old(self).settings().chat)
                &&& if !old(self).tiles().contains(old(self).next_id()) {
                    &&& old(self).next_id() != 0
                    &&& final(self).pane_map().dom() == set![0u64, old(self).next_id()]
                    &&& fresh_fetcher(final(self).pane_map()[old(self).next_id()])
                    &&& final(self).focus() == old(self).next_id()
                    &&& final(self).tiles() == old(self).tiles().insert(old(self).next_id())
                    &&& final(self).splits() == old(self).splits().insert(Axis::Horizontal)
                } else {
                    &&& final(self).pane_map().dom() == set![0u64]
                    &&& final(self).tiles() == old(self).tiles()
                }
            },
    {
        broadcast use vstd::std_specs::hash::group_hash_axioms;

        let ghost fresh = self.panes@.is_empty();
        let ghost tiles0 = tiled_panes(self.layout);
        let _ = self.insert_pane(Pane::Chat(Chat::new()));
        let ghost after_chat = self.panes@;
        assert(fresh ==> after_chat.dom() == set![0u64]);
        assert(fresh ==> !after_chat.is_empty()) by {
            if fresh {
                assert(after_chat.dom().contains(0));
            }
        }
        let ghost next0 = next_tile_id(self.layout);
        let ghost tiles1 = tiled_panes(self.layout);
        let _ = self.insert_pane(Pane::Fetcher(Fetcher::new()));
        let ghost after_fetcher = self.panes@;
        proof {
            if fresh && !tiles1.contains(next0) {
                assert(after_fetcher.dom() =~= set![0u64, next0]);
                assert(after_fetcher[0] is Chat);
            }
            if fresh && tiles1.contains(next0) {
                assert(after_fetcher.dom() =~= set![0u64]);
            }
        }
        layout_compute(&mut self.layout, width, height);
        let config = self.config.clone();
        let ghost before_config = self.panes@;
        self.register_config_handler(&config);
        proof {
            if fresh {
                assert(before_config.contains_key(0));
                assert(before_config[0] is Chat);
            }
        }
    }

    /// Terminal events reach the tiler's own key and mouse handlers, which
    /// emit nothing.
    pub fn handle_events(&mut self, event: &TuiEvent) -> (emitted: Option<Action>)
        ensures
            emitted is None,
            *final(self) == *old(self),
    {
        match event {
            TuiEvent::Key(key) => self.handle_key_event(key.event),
            TuiEvent::Mouse(mouse) => self.handle_mouse_event(*mouse),
            _ => None,
        }
    }

    /// Keys are not handled by the tiler itself.
    pub fn handle_key_event(&mut self, key: KeyEvent) -> (emitted: Option<Action>)
        ensures
            emitted is None,
            *final(self) == *old(self),
    {
        None
    }

    /// Mouse events are not handled by the tiler itself.
    pub fn handle_mouse_event(&mut self, mouse: crossterm::event::MouseEvent) -> (emitted: Option<
        Action,
    >)
        ensures
            emitted is None,
            *final(self) == *old(self),
    {
        None
    }

    /// The pane's title.
    pub fn name(&self) -> (title: String)
        ensures
            title@ == "Tiler"@,
    {
        String::from_str("Tiler")
    }
}

} // verus!
