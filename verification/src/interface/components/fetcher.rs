//! The fetcher pane: a line editor over an output area.

use crate::interface::action::Action;
use crossterm::event::{KeyEvent, MouseEvent};
use ratatui::widgets::Block;
use ratatui_textarea::TextArea;
use vstd::prelude::*;
use vstd::string::StringExecFns;

verus! {

/// A line editor: a `TextArea` held whole and read only through the
/// editor's wrappers below. The `area` field is public so that the terminal
/// front end can draw the widget; no contract here can name `TextArea`.
#[verifier::external_body]
pub struct Editor {
    pub area: TextArea<'static>,
}

/// The lines the editor holds.
pub uninterp spec fn editor_lines(editor: Editor) -> Seq<Seq<char>>;

/// `TextArea::default`: an editor holding one empty line.
#[verifier::external_body]
fn editor_default() -> (editor: Editor)
    ensures
        editor_lines(editor) == seq![Seq::<char>::empty()],
{
    Editor { area: TextArea::default() }
}

/// `TextArea::set_block` with `Block::default()`: frames the editor with a
/// plain block; the lines stay as they are.
#[verifier::external_body]
fn editor_set_default_block(editor: &mut Editor)
    ensures
        editor_lines(*final(editor)) == editor_lines(*old(editor)),
{
    editor.area.set_block(Block::default())
}

/// What `TextArea::input` makes of an editor and a key: the editor after the
/// key, under the crate's default key map.
pub uninterp spec fn edited(editor: Editor, key: KeyEvent) -> Editor;

/// `TextArea::input`: the editor applies the key with its default key map.
/// The editor after the call is named `edited`, a function of the editor
/// before it and the key alone. As the crate documents, the flag tells whether
/// the text was modified; when it is false, the lines stay as they are.
#[verifier::external_body]
fn editor_input(editor: &mut Editor, key: KeyEvent) -> (modified: bool)
    ensures
        *final(editor) == edited(*old(editor), key),
        !modified ==> editor_lines(*final(editor)) == editor_lines(*old(editor)),
{
    editor.area.input(key)
}

/// `TextArea::lines`: the lines the editor holds, copied out.
#[verifier::external_body]
fn editor_text(editor: &Editor) -> (lines: Vec<String>)
    ensures
        lines@.len() == editor_lines(*editor).len(),
        forall|i: int| 0 <= i < lines@.len() ==> #[trigger] lines@[i]@ == editor_lines(*editor)[i],
{
    editor.area.lines().to_vec()
}

/// The fetcher pane.
pub struct Fetcher {
    input: Editor,
    output: String,
}

/// How one action changes a fetcher: a key goes to the editor and nothing else
/// changes; every other action leaves the pane as it is.
pub open spec fn fetcher_step(before: Fetcher, action: Action, after: Fetcher) -> bool {
    match action {
        Action::KeyEvent(key) => {
            &&& after.editor() == edited(before.editor(), key.event)
            &&& after.output_text() == before.output_text()
        },
        _ => after == before,
    }
}

impl Fetcher {
    /// The text shown above the editor.
    pub closed spec fn output_text(self) -> String {
        self.output
    }

    /// The editor.
    pub closed spec fn editor(self) -> Editor {
        self.input
    }

    /// An empty editor in a plain block, over an empty output.
    pub fn new() -> (res: Self)
        ensures
            res.output_text()@ == Seq::<char>::empty(),
            editor_lines(res.editor()) == seq![Seq::<char>::empty()],
    {
        let mut input = editor_default();
        editor_set_default_block(&mut input);
        Fetcher { input, output: String::new() }
    }

    /// Reacts to an action: keys go to the editor. No action is emitted in
    /// return.
    pub fn update(&mut self, action: &Action) -> (emitted: Option<Action>)
        ensures
            emitted is None,
            fetcher_step(*old(self), *action, *final(self)),
    {
        match action {
            Action::KeyEvent(key) => self.handle_key_event(key.event),
            _ => None,
        }
    }

    /// Hands a key to the editor.
    pub fn handle_key_event(&mut self, key: KeyEvent) -> (emitted: Option<Action>)
        ensures
            emitted is None,
            final(self).editor() == edited(old(self).editor(), key),
            final(self).output_text() == old(self).output_text(),
    {
        let _ = editor_input(&mut self.input, key);
        None
    }

    /// Mouse events are ignored.
    pub fn handle_mouse_event(&mut self, mouse: MouseEvent) -> (emitted: Option<Action>)
        ensures
            emitted is None,
            *final(self) == *old(self),
    {
        None
    }

    /// The pane's title.
    pub fn name(&self) -> (title: String)
        ensures
            title@ == "Fetcher"@,
    {
        String::from_str("Fetcher")
    }

    /// The text shown above the editor.
    pub fn output(&self) -> (res: &String)
        ensures
            *res == self.output_text(),
    {
        &self.output
    }

    /// The lines typed into the editor.
    pub fn input_lines(&self) -> (lines: Vec<String>)
        ensures
            lines@.len() == editor_lines(self.editor()).len(),
            forall|i: int|
                0 <= i < lines@.len() ==> #[trigger] lines@[i]@ == editor_lines(self.editor())[i],
    {
        editor_text(&self.input)
    }

    /// The editor, for drawing.
    pub fn input_mut(&mut self) -> (res: &mut Editor)
        ensures
            *res == old(self).editor(),
            final(self).editor() == *final(res),
            final(self).output_text() == old(self).output_text(),
    {
        &mut self.input
    }
}

} // verus!
