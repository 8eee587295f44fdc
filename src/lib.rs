//! A small terminal text editor: a line buffer with a cursor, the frame that
//! shows it, and the key dispatcher that edits it.
use vstd::prelude::*;

pub mod display;
pub mod editor;
pub mod input;
pub mod text;

pub use display::Display;
pub use editor::{start_editor, Editor};
pub use input::{Action, InputHandler, Key, Mode, Modifiers, Purpose};
