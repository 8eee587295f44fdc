//! The key dispatcher: a state machine over editing and its two prompts.
//!
//! Each key either edits the document, moves into or through a prompt, or
//! asks the caller for outside work (write a file, open a file, end the
//! session) through the returned [`Action`].
use vstd::prelude::*;

use crate::editor::Editor;

verus! {

/// The modifier keys held with a key, as far as the dispatcher tells them apart.
#[derive(Clone, Copy, Debug, PartialEq, Eq, Structural)]
pub enum Modifiers {
    Plain,
    Shift,
    Control,
    Other,
}

/// A key press.
#[derive(Clone, Copy, Debug, PartialEq, Eq, Structural)]
pub enum Key {
    Char(char, Modifiers),
    Up,
    Down,
    Left,
    Right,
    Home,
    End,
    Enter,
    Backspace,
    Delete,
    Tab,
    Esc,
    Other,
}

/// What a file name is asked for.
#[derive(Clone, Copy, Debug, PartialEq, Eq, Structural)]
pub enum Purpose {
    Save,
    SaveThenExit,
    Open,
}

/// The dispatcher's state.
pub enum Mode {
    Normal,
    /// "Save modified buffer? (y/n)"
    ConfirmSave,
    /// A file name is being typed.
    AskFilename { purpose: Purpose, name: Vec<char> },
}

/// What the caller is to do after a key.
pub enum Action {
    Continue,
    /// End the session.
    Exit,
    /// Write the document's text to `path`; after a successful write the
    /// document takes `path` as its name and is unmodified. End the session
    /// afterwards where `then_exit` is set.
    Write { path: Vec<char>, then_exit: bool },
    /// Replace the document with the one read from `file`.
    Open { file: Vec<char> },
}

pub struct InputHandler {
    pub mode: Mode,
}

/// Control characters: U+0000 to U+001F and U+007F to U+009F.
pub open spec fn is_control(c: char) -> bool {
    (c as u32) <= 0x1f || (0x7f <= (c as u32) && (c as u32) <= 0x9f)
}

pub fn is_control_char(c: char) -> (r: bool)
    ensures
        r == is_control(c),
{
    let v = c as u32;
    v <= 0x1f || (0x7f <= v && v <= 0x9f)
}

/// The prompt for a file name is open, for `purpose`, holding `name`.
pub open spec fn asking(h: &InputHandler, purpose: Purpose, name: Seq<char>) -> bool {
    &&& h.mode is AskFilename
    &&& h.mode->purpose == purpose
    &&& h.mode->name@ == name
}

pub open spec fn writes(a: &Action, path: Seq<char>, then_exit: bool) -> bool {
    &&& a is Write
    &&& a->path@ == path
    &&& a->then_exit == then_exit
}

/// A key typed while editing.
pub open spec fn normal_step(e0: &Editor, key: Key, h1: &InputHandler, e1: &Editor, a: &Action) -> bool {
    if key == Key::Char('x', Modifiers::Control) {
        &&& *e1 == *e0
        &&& if e0.modified {
            h1.mode is ConfirmSave && a is Continue
        } else {
            h1.mode is Normal && a is Exit
        }
    } else if key == Key::Char('s', Modifiers::Control) {
        &&& *e1 == *e0
        &&& match e0.filename {
            Some(n) => h1.mode is Normal && writes(a, n@, false),
            None => asking(h1, Purpose::Save, Seq::empty()) && a is Continue,
        }
    } else if key == Key::Char('o', Modifiers::Control) {
        &&& *e1 == *e0
        &&& asking(h1, Purpose::Open, Seq::empty())
        &&& a is Continue
    } else {
        &&& h1.mode is Normal
        &&& a is Continue
        &&& match key {
            Key::Up => e1.moved_up(e0),
            Key::Down => e1.moved_down(e0),
            Key::Left => e1.moved_left(e0),
            Key::Right => e1.moved_right(e0),
            Key::Home => *e1 == (Editor { cursor_x: 0, ..*e0 }),
            Key::End => e1.cursor_x == e0.line().len() && *e1 == (Editor {
                cursor_x: e1.cursor_x,
                ..*e0
            }),
            Key::Enter => e1.newline_inserted(e0),
            Key::Backspace => e1.deleted_backward(e0),
            Key::Delete => e1.deleted_forward(e0),
            Key::Tab => e1.char_inserted(e0, '\t'),
            Key::Char(c, m) => if (m == Modifiers::Plain || m == Modifiers::Shift) && !is_control(c) {
                e1.char_inserted(e0, c)
            } else {
                *e1 == *e0
            },
            _ => *e1 == *e0,
        }
    }
}

/// A key typed at the save question.
pub open spec fn confirm_step(e0: &Editor, key: Key, h1: &InputHandler, e1: &Editor, a: &Action) -> bool {
    &&& *e1 == *e0
    &&& if key is Char && (key->Char_0 == 'y' || key->Char_0 == 'Y') {
        match e0.filename {
            Some(n) => h1.mode is Normal && writes(a, n@, true),
            None => asking(h1, Purpose::SaveThenExit, Seq::empty()) && a is Continue,
        }
    } else if key is Esc || (key is Char && (key->Char_0 == 'n' || key->Char_0 == 'N')) {
        h1.mode is Normal && a is Exit
    } else {
        h1.mode is ConfirmSave && a is Continue
    }
}

/// A key typed at the file name prompt, for `purpose`, which holds `name`.
pub open spec fn filename_step(
    purpose: Purpose,
    name: Seq<char>,
    e0: &Editor,
    key: Key,
    h1: &InputHandler,
    e1: &Editor,
    a: &Action,
) -> bool {
    if key is Enter && name.len() > 0 {
        &&& h1.mode is Normal
        &&& *e1 == *e0
        &&& match purpose {
            Purpose::Save => writes(a, name, false),
            Purpose::SaveThenExit => writes(a, name, true),
            Purpose::Open => a is Open && a->file@ == name,
        }
    } else if key is Enter || key is Esc {
        &&& h1.mode is Normal
        &&& *e1 == *e0
        &&& if purpose == Purpose::SaveThenExit {
            a is Exit
        } else {
            a is Continue
        }
    } else {
        &&& *e1 == *e0
        &&& a is Continue
        &&& if key is Backspace {
            asking(h1, purpose, if name.len() > 0 { name.drop_last() } else { name })
        } else if key is Char && !is_control(key->Char_0) {
            asking(h1, purpose, name.push(key->Char_0))
        } else {
            asking(h1, purpose, name)
        }
    }
}

/// The effect of `key` on a dispatcher in state `h0` and a document `e0`.
pub open spec fn handled(h0: &InputHandler, e0: &Editor, key: Key, h1: &InputHandler, e1: &Editor, a: &Action) -> bool {
    match h0.mode {
        Mode::Normal => normal_step(e0, key, h1, e1, a),
        Mode::ConfirmSave => confirm_step(e0, key, h1, e1, a),
        Mode::AskFilename { purpose, name } => filename_step(purpose, name@, e0, key, h1, e1, a),
    }
}

impl InputHandler {
    pub fn new() -> (r: InputHandler)
        ensures
            r.mode is Normal,
    {
        InputHandler { mode: Mode::Normal }
    }

    /// Applies one key press to the dispatcher and the document.
    pub fn process_key(&mut self, editor: &mut Editor, key: Key) -> (a: Action)
        requires
            old(editor).wf(),
        ensures
            final(editor).wf(),
            handled(old(self), old(editor), key, final(self), final(editor), &a),
    {
        let mut mode = Mode::Normal;
        std::mem::swap(&mut mode, &mut self.mode);
        match mode {
            Mode::Normal => self.normal_key(editor, key),
            Mode::ConfirmSave => self.confirm_key(editor, key),
            Mode::AskFilename { purpose, name } => self.filename_key(editor, key, purpose, name),
        }
    }

    fn normal_key(&mut self, editor: &mut Editor, key: Key) -> (a: Action)
        requires
            old(editor).wf(),
            old(self).mode is Normal,
        ensures
            final(editor).wf(),
            normal_step(old(editor), key, final(self), final(editor), &a),
    {
        if key == Key::Char('x', Modifiers::Control) {
            if editor.modified {
                self.mode = Mode::ConfirmSave;
                Action::Continue
            } else {
                Action::Exit
            }
        } else if key == Key::Char('s', Modifiers::Control) {
            match &editor.filename {
                Some(n) => {
                    let path = n.clone();
                    assert(path@ =~= n@);
                    Action::Write { path, then_exit: false }
                },
                None => {
                    self.mode = Mode::AskFilename { purpose: Purpose::Save, name: Vec::new() };
                    Action::Continue
                },
            }
        } else if key == Key::Char('o', Modifiers::Control) {
            self.mode = Mode::AskFilename { purpose: Purpose::Open, name: Vec::new() };
            Action::Continue
        } else {
            match key {
                Key::Up => editor.move_cursor_up(),
                Key::Down => editor.move_cursor_down(),
                Key::Left => editor.move_cursor_left(),
                Key::Right => editor.move_cursor_right(),
                Key::Home => editor.move_to_line_start(),
                Key::End => editor.move_to_line_end(),
                Key::Enter => editor.insert_newline(),
                Key::Backspace => editor.delete_char(),
                Key::Delete => editor.delete_char_forward(),
                Key::Tab => editor.insert_char('\t'),
                Key::Char(c, m) => {
                    if (m == Modifiers::Plain || m == Modifiers::Shift) && !is_control_char(c) {
                        editor.insert_char(c);
                    }
                },
                _ => {},
            }
            Action::Continue
        }
    }

    fn confirm_key(&mut self, editor: &mut Editor, key: Key) -> (a: Action)
        requires
            old(editor).wf(),
            old(self).mode is Normal,
        ensures
            final(editor).wf(),
            confirm_step(old(editor), key, final(self), final(editor), &a),
    {
        match key {
            Key::Char(c, _) if c == 'y' || c == 'Y' => match &editor.filename {
                Some(n) => {
                    let path = n.clone();
                    assert(path@ =~= n@);
                    Action::Write { path, then_exit: true }
                },
                None => {
                    self.mode = Mode::AskFilename { purpose: Purpose::SaveThenExit, name: Vec::new() };
                    Action::Continue
                },
            },
            Key::Char(c, _) if c == 'n' || c == 'N' => Action::Exit,
            Key::Esc => Action::Exit,
            _ => {
                self.mode = Mode::ConfirmSave;
                Action::Continue
            },
        }
    }

    fn filename_key(&mut self, editor: &mut Editor, key: Key, purpose: Purpose, name: Vec<char>) -> (a: Action)
        requires
            old(editor).wf(),
            old(self).mode is Normal,
        ensures
            final(editor).wf(),
            filename_step(purpose, name@, old(editor), key, final(self), final(editor), &a),
    {
        let mut name = name;
        match key {
            Key::Enter => {
                if name.len() > 0 {
                    match purpose {
                        Purpose::Save | Purpose::SaveThenExit => {
                            Action::Write { path: name, then_exit: purpose == Purpose::SaveThenExit }
                        },
                        Purpose::Open => Action::Open { file: name },
                    }
                } else if purpose == Purpose::SaveThenExit {
                    Action::Exit
                } else {
                    Action::Continue
                }
            },
            Key::Esc => {
                if purpose == Purpose::SaveThenExit {
                    Action::Exit
                } else {
                    Action::Continue
                }
            },
            Key::Backspace => {
                name.pop();
                self.mode = Mode::AskFilename { purpose, name };
                Action::Continue
            },
            Key::Char(c, _) => {
                if !is_control_char(c) {
                    name.push(c);
                }
                self.mode = Mode::AskFilename { purpose, name };
                Action::Continue
            },
            _ => {
                self.mode = Mode::AskFilename { purpose, name };
                Action::Continue
            },
        }
    }
}

} // verus!
