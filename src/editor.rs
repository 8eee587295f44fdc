//! The document: an ordered sequence of lines, a cursor and a scroll offset.
use vstd::prelude::*;

use crate::text::{join_lines, joined, lines_of, split_lines};

verus! {

/// Number of text rows on a screen of the given height: two rows are kept
/// for the status bar and the help bar.
pub open spec fn visible_rows_of(height: int) -> int {
    if height > 2 {
        height - 2
    } else {
        0
    }
}

/// The scroll offset after the cursor moved to `row`: the smallest change
/// that brings the row back into the visible window.
pub open spec fn scrolled(offset: int, row: int, visible: int) -> int {
    if row < offset {
        row
    } else if visible > 0 && row >= offset + visible {
        row - visible + 1
    } else {
        offset
    }
}

/// An editable document together with its cursor and viewport.
///
/// Columns count characters of a line; a cursor column equal to the line's
/// length stands at its end. Whenever an operation changes the cursor's row,
/// the scroll offset follows so that the row stays on screen.
pub struct Editor {
    pub content: Vec<Vec<char>>,
    pub cursor_x: usize,
    pub cursor_y: usize,
    pub offset_y: usize,
    pub filename: Option<Vec<char>>,
    pub modified: bool,
    pub terminal_height: usize,
    pub terminal_width: usize,
}

impl Editor {
    /// The lines of the document.
    pub open spec fn lines(&self) -> Seq<Seq<char>> {
        self.content@.map_values(|l: Vec<char>| l@)
    }

    /// The line under the cursor.
    pub open spec fn line(&self) -> Seq<char> {
        self.lines()[self.cursor_y as int]
    }

    pub open spec fn visible_rows(&self) -> int {
        visible_rows_of(self.terminal_height as int)
    }

    /// The cursor stands on a line of a non-empty document, within or at the end
    /// of it, and inside the visible window.
    pub open spec fn wf(&self) -> bool {
        &&& self.lines().len() >= 1
        &&& self.cursor_y < self.lines().len()
        &&& self.cursor_x <= self.line().len()
        &&& self.offset_y <= self.cursor_y
        &&& self.visible_rows() > 0 ==> self.cursor_y < self.offset_y + self.visible_rows()
    }

    /// What an edit or a move leaves alone.
    pub open spec fn same_setting(&self, prev: &Editor) -> bool {
        &&& self.filename == prev.filename
        &&& self.terminal_height == prev.terminal_height
        &&& self.terminal_width == prev.terminal_width
    }

    /// An empty, unnamed, unmodified document on a screen of the given size.
    pub fn new(width: usize, height: usize) -> (r: Editor)
        ensures
            r.wf(),
            r.lines() == seq![Seq::<char>::empty()],
            r.cursor_x == 0 && r.cursor_y == 0 && r.offset_y == 0,
            r.filename is None,
            !r.modified,
            r.terminal_width == width && r.terminal_height == height,
    {
        let r = Editor {
            content: vec![Vec::new()],
            cursor_x: 0,
            cursor_y: 0,
            offset_y: 0,
            filename: None,
            modified: false,
            terminal_height: height,
            terminal_width: width,
        };
        assert(r.lines() =~= seq![Seq::<char>::empty()]);
        r
    }

    /// Pulls the cursor column back to the end of the current line if it lies
    /// beyond it.
    pub fn clamp_cursor_x(&mut self)
        requires
            old(self).cursor_y < old(self).lines().len(),
        ensures
            final(self).cursor_x == if old(self).cursor_x <= old(self).line().len() {
                old(self).cursor_x as int
            } else {
                old(self).line().len() as int
            },
            final(self).content == old(self).content,
            final(self).cursor_y == old(self).cursor_y,
            final(self).offset_y == old(self).offset_y,
            final(self).modified == old(self).modified,
            final(self).same_setting(old(self)),
    {
        let line_len = self.content[self.cursor_y].len();
        if self.cursor_x > line_len {
            self.cursor_x = line_len;
        }
    }

    /// The cursor's row moved to `row` and the scroll offset followed it.
    pub open spec fn scrolled_to(&self, prev: &Editor) -> bool {
        self.offset_y == scrolled(prev.offset_y as int, self.cursor_y as int, prev.visible_rows())
    }

    /// `self` is `prev` with `c` inserted at the cursor, the cursor past it.
    pub open spec fn char_inserted(&self, prev: &Editor, c: char) -> bool {
        &&& self.wf()
        &&& self.lines() == prev.lines().update(
            prev.cursor_y as int,
            prev.line().insert(prev.cursor_x as int, c),
        )
        &&& self.cursor_x == prev.cursor_x + 1
        &&& self.cursor_y == prev.cursor_y
        &&& self.offset_y == prev.offset_y
        &&& self.modified
        &&& self.same_setting(prev)
    }

    /// `self` is `prev` with the current line split at the cursor, the cursor at
    /// the start of the new line below.
    pub open spec fn newline_inserted(&self, prev: &Editor) -> bool {
        let y = prev.cursor_y as int;
        let x = prev.cursor_x as int;
        &&& self.wf()
        &&& self.lines() == prev.lines().update(y, prev.line().subrange(0, x)).insert(
            y + 1,
            prev.line().subrange(x, prev.line().len() as int),
        )
        &&& self.cursor_x == 0
        &&& self.cursor_y == y + 1
        &&& self.scrolled_to(prev)
        &&& self.modified
        &&& self.same_setting(prev)
    }

    /// `self` is `prev` after a backspace: the character before the cursor is
    /// removed, or at a line start the line is joined to the one above; nothing
    /// changes at the start of the document.
    pub open spec fn deleted_backward(&self, prev: &Editor) -> bool {
        let y = prev.cursor_y as int;
        let x = prev.cursor_x as int;
        &&& self.wf()
        &&& if x > 0 {
            &&& self.lines() == prev.lines().update(y, prev.line().remove(x - 1))
            &&& self.cursor_x == x - 1
            &&& self.cursor_y == y
            &&& self.offset_y == prev.offset_y
            &&& self.modified
            &&& self.same_setting(prev)
        } else if y > 0 {
            &&& self.lines() == prev.lines().update(y - 1, prev.lines()[y - 1] + prev.line()).remove(y)
            &&& self.cursor_x == prev.lines()[y - 1].len()
            &&& self.cursor_y == y - 1
            &&& self.scrolled_to(prev)
            &&& self.modified
            &&& self.same_setting(prev)
        } else {
            *self == *prev
        }
    }

    /// `self` is `prev` after a forward delete: the character under the cursor
    /// is removed, or at a line end the next line is joined to it; nothing
    /// changes at the end of the document.
    pub open spec fn deleted_forward(&self, prev: &Editor) -> bool {
        let y = prev.cursor_y as int;
        let x = prev.cursor_x as int;
        &&& self.wf()
        &&& if x < prev.line().len() {
            &&& self.lines() == prev.lines().update(y, prev.line().remove(x))
            &&& self.cursor_x == x
            &&& self.cursor_y == y
            &&& self.offset_y == prev.offset_y
            &&& self.modified
            &&& self.same_setting(prev)
        } else if y + 1 < prev.lines().len() {
            &&& self.lines() == prev.lines().update(y, prev.line() + prev.lines()[y + 1]).remove(y + 1)
            &&& self.cursor_x == x
            &&& self.cursor_y == y
            &&& self.offset_y == prev.offset_y
            &&& self.modified
            &&& self.same_setting(prev)
        } else {
            *self == *prev
        }
    }

    /// Only the cursor and the scroll offset may differ.
    pub open spec fn same_document(&self, prev: &Editor) -> bool {
        &&& self.content == prev.content
        &&& self.modified == prev.modified
        &&& self.same_setting(prev)
    }

    /// The column kept when moving to row `row`: the old column, or the row's
    /// end if that is shorter.
    pub open spec fn clamped_column(&self, row: int) -> int {
        let len = self.lines()[row].len() as int;
        if self.cursor_x <= len {
            self.cursor_x as int
        } else {
            len
        }
    }

    pub open spec fn moved_up(&self, prev: &Editor) -> bool {
        let y = prev.cursor_y as int;
        &&& self.wf()
        &&& self.same_document(prev)
        &&& if y > 0 {
            &&& self.cursor_y == y - 1
            &&& self.cursor_x == prev.clamped_column(y - 1)
            &&& self.scrolled_to(prev)
        } else {
            *self == *prev
        }
    }

    pub open spec fn moved_down(&self, prev: &Editor) -> bool {
        let y = prev.cursor_y as int;
        &&& self.wf()
        &&& self.same_document(prev)
        &&& if y + 1 < prev.lines().len() {
            &&& self.cursor_y == y + 1
            &&& self.cursor_x == prev.clamped_column(y + 1)
            &&& self.scrolled_to(prev)
        } else {
            *self == *prev
        }
    }

    pub open spec fn moved_left(&self, prev: &Editor) -> bool {
        let y = prev.cursor_y as int;
        let x = prev.cursor_x as int;
        &&& self.wf()
        &&& self.same_document(prev)
        &&& if x > 0 {
            &&& self.cursor_x == x - 1
            &&& self.cursor_y == y
            &&& self.offset_y == prev.offset_y
        } else if y > 0 {
            &&& self.cursor_x == prev.lines()[y - 1].len()
            &&& self.cursor_y == y - 1
            &&& self.scrolled_to(prev)
        } else {
            *self == *prev
        }
    }

    pub open spec fn moved_right(&self, prev: &Editor) -> bool {
        let y = prev.cursor_y as int;
        let x = prev.cursor_x as int;
        &&& self.wf()
        &&& self.same_document(prev)
        &&& if x < prev.line().len() {
            &&& self.cursor_x == x + 1
            &&& self.cursor_y == y
            &&& self.offset_y == prev.offset_y
        } else if y + 1 < prev.lines().len() {
            &&& self.cursor_x == 0
            &&& self.cursor_y == y + 1
            &&& self.scrolled_to(prev)
        } else {
            *self == *prev
        }
    }

    /// Number of text rows on the screen.
    pub fn visible_row_count(&self) -> (r: usize)
        ensures
            r == self.visible_rows(),
    {
        if self.terminal_height > 2 {
            self.terminal_height - 2
        } else {
            0
        }
    }

    /// Moves the scroll offset just enough to show the cursor's row.
    fn scroll_to_cursor(&mut self)
        requires
            old(self).cursor_y < old(self).lines().len(),
        ensures
            final(self).offset_y == scrolled(
                old(self).offset_y as int,
                old(self).cursor_y as int,
                old(self).visible_rows(),
            ),
            final(self).offset_y <= final(self).cursor_y,
            final(self).visible_rows() > 0 ==> final(self).cursor_y < final(self).offset_y
                + final(self).visible_rows(),
            final(self).content == old(self).content,
            final(self).cursor_x == old(self).cursor_x,
            final(self).cursor_y == old(self).cursor_y,
            final(self).modified == old(self).modified,
            final(self).same_setting(old(self)),
    {
        let rows = self.visible_row_count();
        if self.cursor_y < self.offset_y {
            self.offset_y = self.cursor_y;
        } else if rows > 0 && self.cursor_y - self.offset_y >= rows {
            self.offset_y = self.cursor_y - rows + 1;
        }
    }

    /// Inserts `c` at the cursor and moves the cursor past it.
    pub fn insert_char(&mut self, c: char)
        requires
            old(self).wf(),
        ensures
            final(self).char_inserted(old(self), c),
    {
        let y = self.cursor_y;
        let mut line = self.content.remove(y);
        line.insert(self.cursor_x, c);
        let grown = line.len();
        assert(self.cursor_x < grown);
        self.content.insert(y, line);
        self.cursor_x = self.cursor_x + 1;
        self.modified = true;
        assert(self.lines() =~= old(self).lines().update(
            y as int,
            old(self).line().insert(old(self).cursor_x as int, c),
        ));
    }

    /// Splits the current line at the cursor; the tail becomes a new line
    /// below, and the cursor moves to its start.
    pub fn insert_newline(&mut self)
        requires
            old(self).wf(),
        ensures
            final(self).newline_inserted(old(self)),
    {
        let y = self.cursor_y;
        let count = self.content.len();
        assert(y < count);
        let mut head = self.content.remove(y);
        let tail = head.split_off(self.cursor_x);
        self.content.insert(y, head);
        self.content.insert(y + 1, tail);
        self.cursor_y = y + 1;
        self.cursor_x = 0;
        self.modified = true;
        self.scroll_to_cursor();
        let ghost x = old(self).cursor_x as int;
        assert(self.lines() =~= old(self).lines().update(y as int, old(self).line().subrange(0, x)).insert(
            y + 1,
            old(self).line().subrange(x, old(self).line().len() as int),
        ));
    }

    /// Backspace: removes the character before the cursor, or joins the current
    /// line to the end of the previous one when the cursor is at a line start.
    pub fn delete_char(&mut self)
        requires
            old(self).wf(),
        ensures
            final(self).deleted_backward(old(self)),
    {
        let y = self.cursor_y;
        if self.cursor_x > 0 {
            let mut line = self.content.remove(y);
            line.remove(self.cursor_x - 1);
            self.content.insert(y, line);
            self.cursor_x = self.cursor_x - 1;
            self.modified = true;
            assert(self.lines() =~= old(self).lines().update(
                y as int,
                old(self).line().remove(old(self).cursor_x - 1),
            ));
        } else if y > 0 {
            let mut current = self.content.remove(y);
            let mut above = self.content.remove(y - 1);
            let join = above.len();
            above.append(&mut current);
            self.content.insert(y - 1, above);
            self.cursor_y = y - 1;
            self.cursor_x = join;
            self.modified = true;
            self.scroll_to_cursor();
            assert(self.lines() =~= old(self).lines().update(
                y - 1,
                old(self).lines()[y - 1] + old(self).line(),
            ).remove(y as int));
        }
    }

    /// Delete: removes the character under the cursor, or joins the next line
    /// to the current one when the cursor is at a line end.
    pub fn delete_char_forward(&mut self)
        requires
            old(self).wf(),
        ensures
            final(self).deleted_forward(old(self)),
    {
        let y = self.cursor_y;
        if self.cursor_x < self.content[y].len() {
            let mut line = self.content.remove(y);
            line.remove(self.cursor_x);
            self.content.insert(y, line);
            self.modified = true;
            assert(self.lines() =~= old(self).lines().update(
                y as int,
                old(self).line().remove(old(self).cursor_x as int),
            ));
        } else if y < self.content.len() - 1 {
            let mut below = self.content.remove(y + 1);
            let mut line = self.content.remove(y);
            line.append(&mut below);
            self.content.insert(y, line);
            self.modified = true;
            assert(self.lines() =~= old(self).lines().update(
                y as int,
                old(self).line() + old(self).lines()[y + 1],
            ).remove(y + 1));
        }
    }

    pub fn move_cursor_up(&mut self)
        requires
            old(self).wf(),
        ensures
            final(self).moved_up(old(self)),
    {
        if self.cursor_y > 0 {
            self.cursor_y = self.cursor_y - 1;
            self.scroll_to_cursor();
            self.clamp_cursor_x();
        }
    }

    pub fn move_cursor_down(&mut self)
        requires
            old(self).wf(),
        ensures
            final(self).moved_down(old(self)),
    {
        if self.cursor_y < self.content.len() - 1 {
            self.cursor_y = self.cursor_y + 1;
            self.scroll_to_cursor();
            self.clamp_cursor_x();
        }
    }

    pub fn move_cursor_left(&mut self)
        requires
            old(self).wf(),
        ensures
            final(self).moved_left(old(self)),
    {
        if self.cursor_x > 0 {
            self.cursor_x = self.cursor_x - 1;
        } else if self.cursor_y > 0 {
            self.cursor_y = self.cursor_y - 1;
            self.cursor_x = self.content[self.cursor_y].len();
            self.scroll_to_cursor();
        }
    }

    pub fn move_cursor_right(&mut self)
        requires
            old(self).wf(),
        ensures
            final(self).moved_right(old(self)),
    {
        if self.cursor_x < self.content[self.cursor_y].len() {
            self.cursor_x = self.cursor_x + 1;
        } else if self.cursor_y < self.content.len() - 1 {
            self.cursor_y = self.cursor_y + 1;
            self.cursor_x = 0;
            self.scroll_to_cursor();
        }
    }
    /// A document named `filename`, read from `contents`; `None` stands for a
    /// file that does not exist yet, which gives an empty document.
    pub fn open_file(filename: Vec<char>, contents: Option<Vec<char>>, width: usize, height: usize) -> (r: Editor)
        ensures
            r.wf(),
            r.lines() == match contents {
                Some(t) => lines_of(t@),
                None => seq![Seq::<char>::empty()],
            },
            r.cursor_x == 0 && r.cursor_y == 0 && r.offset_y == 0,
            r.filename == Some(filename),
            !r.modified,
            r.terminal_width == width && r.terminal_height == height,
    {
        let mut r = Editor::new(width, height);
        r.filename = Some(filename);
        if let Some(t) = contents {
            r.content = split_lines(&t);
        }
        r
    }

    /// The text written when the document is saved: its lines joined by `\n`.
    pub fn text(&self) -> (r: Vec<char>)
        ensures
            r@ == joined(self.lines()),
    {
        join_lines(&self.content)
    }

    /// Records that the document was written out.
    pub fn mark_saved(&mut self)
        ensures
            *final(self) == (Editor { modified: false, ..*old(self) }),
    {
        self.modified = false;
    }

    /// Records that the document was written out to `path`, which becomes its
    /// name.
    pub fn mark_saved_as(&mut self, path: Vec<char>)
        ensures
            *final(self) == (Editor { modified: false, filename: Some(path), ..*old(self) }),
    {
        self.modified = false;
        self.filename = Some(path);
    }

    /// Home: the cursor goes to the start of its line.
    pub fn move_to_line_start(&mut self)
        requires
            old(self).wf(),
        ensures
            final(self).wf(),
            *final(self) == (Editor { cursor_x: 0, ..*old(self) }),
    {
        self.cursor_x = 0;
    }

    /// End: the cursor goes to the end of its line.
    pub fn move_to_line_end(&mut self)
        requires
            old(self).wf(),
        ensures
            final(self).wf(),
            final(self).cursor_x == old(self).line().len(),
            *final(self) == (Editor { cursor_x: final(self).cursor_x, ..*old(self) }),
    {
        self.cursor_x = self.content[self.cursor_y].len();
    }
}

/// The document a session starts with: the named file, or an empty unnamed
/// document when no name is given. `contents` is the named file's text, or
/// `None` where no such file exists.
pub fn start_editor(filename: Option<Vec<char>>, contents: Option<Vec<char>>, width: usize, height: usize) -> (r: Editor)
    ensures
        r.wf(),
        r.filename == filename,
        r.lines() == match (filename, contents) {
            (Some(_), Some(t)) => lines_of(t@),
            _ => seq![Seq::<char>::empty()],
        },
        r.cursor_x == 0 && r.cursor_y == 0 && r.offset_y == 0,
        !r.modified,
        r.terminal_width == width && r.terminal_height == height,
{
    match filename {
        Some(name) => Editor::open_file(name, contents, width, height),
        None => Editor::new(width, height),
    }
}

/// Typing a character and then a backspace gives back the lines, the cursor
/// and the scroll offset from before.
pub proof fn lemma_insert_then_backspace(a: Editor, b: Editor, c: Editor, ch: char)
    requires
        a.wf(),
        b.char_inserted(&a, ch),
        c.deleted_backward(&b),
    ensures
        c.lines() == a.lines(),
        c.cursor_x == a.cursor_x,
        c.cursor_y == a.cursor_y,
        c.offset_y == a.offset_y,
{
    let y = a.cursor_y as int;
    assert(b.line() == b.lines()[y]);
    assert(a.line() == a.lines()[y]);
    assert(a.line().insert(a.cursor_x as int, ch).remove(a.cursor_x as int) =~= a.line());
    assert(c.lines() =~= a.lines());
}

/// Splitting a line and then a backspace at the start of the new line gives
/// back the line and the cursor as they were.
pub proof fn lemma_newline_then_backspace(a: Editor, b: Editor, c: Editor)
    requires
        a.wf(),
        b.newline_inserted(&a),
        c.deleted_backward(&b),
    ensures
        c.lines() == a.lines(),
        c.cursor_x == a.cursor_x,
        c.cursor_y == a.cursor_y,
{
    let y = a.cursor_y as int;
    let x = a.cursor_x as int;
    assert(a.line() == a.lines()[y]);
    assert(b.line() == b.lines()[y + 1]);
    assert(b.lines()[y] == a.line().subrange(0, x));
    assert(b.lines()[y + 1] == a.line().subrange(x, a.line().len() as int));
    assert(a.line().subrange(0, x) + a.line().subrange(x, a.line().len() as int) =~= a.line());
    assert(c.lines() =~= a.lines());
}

/// The column reached by moving down from row `from` to row `to` starting at
/// column `x`: each row passed cuts the column to its length.
pub open spec fn column_after_moving_down(lines: Seq<Seq<char>>, x: int, from: int, to: int) -> int
    decreases to - from,
{
    if to <= from {
        x
    } else {
        let c = column_after_moving_down(lines, x, from, to - 1);
        if c <= lines[to].len() {
            c
        } else {
            lines[to].len() as int
        }
    }
}

proof fn lemma_move_down_prefix(states: Seq<Editor>, k: int)
    requires
        0 <= k < states.len(),
        states[0].wf(),
        forall|i: int| 0 <= i < states.len() - 1 ==> #[trigger] states[i + 1].moved_down(&states[i]),
    ensures
        states[k].wf(),
        states[k].lines() == states[0].lines(),
        states[k].cursor_y == if states[0].cursor_y + k < states[0].lines().len() - 1 {
            states[0].cursor_y + k
        } else {
            states[0].lines().len() - 1
        },
        states[k].cursor_x == column_after_moving_down(
            states[0].lines(),
            states[0].cursor_x as int,
            states[0].cursor_y as int,
            states[k].cursor_y as int,
        ),
    decreases k,
{
    if k > 0 {
        lemma_move_down_prefix(states, k - 1);
        let j = k - 1;
        assert(states[j + 1].moved_down(&states[j]));
    }
}

/// Moving down again and again ends on the last line, at the starting column
/// cut to the length of each line passed, with the lines untouched: once
/// there, further moves down change nothing.
pub proof fn lemma_move_down_stops_at_last_line(states: Seq<Editor>)
    requires
        states.len() >= 1,
        states[0].wf(),
        forall|i: int| 0 <= i < states.len() - 1 ==> #[trigger] states[i + 1].moved_down(&states[i]),
        states.len() - 1 >= states[0].lines().len() - 1 - states[0].cursor_y,
    ensures
        states.last().wf(),
        states.last().cursor_y == states[0].lines().len() - 1,
        states.last().cursor_x <= states.last().lines().last().len(),
        states.last().cursor_x == column_after_moving_down(
            states[0].lines(),
            states[0].cursor_x as int,
            states[0].cursor_y as int,
            states[0].lines().len() - 1,
        ),
        states.last().lines() == states[0].lines(),
{
    lemma_move_down_prefix(states, states.len() - 1);
    let e = states.last();
    assert(e.line() == e.lines()[e.lines().len() - 1]);
}

} // verus!
