//! What a frame shows: the text rows, the status bar, the help bar and where
//! the cursor stands. Writing it to a terminal is left to the caller.
use vstd::prelude::*;

use crate::editor::Editor;

verus! {

/// The key-binding hints of the help bar.
pub const HELP: &'static str = "^X Exit  ^S Save  ^O Open  Arrow keys to move";

/// The first `w` characters of `s`.
pub open spec fn truncated(s: Seq<char>, w: int) -> Seq<char> {
    if s.len() > w {
        s.subrange(0, w)
    } else {
        s
    }
}

/// `s` with spaces added on the right up to `w` characters.
pub open spec fn padded(s: Seq<char>, w: int) -> Seq<char> {
    if s.len() < w {
        s + Seq::new((w - s.len()) as nat, |k: int| ' ')
    } else {
        s
    }
}

pub open spec fn digit(d: nat) -> char {
    if d == 0 {
        '0'
    } else if d == 1 {
        '1'
    } else if d == 2 {
        '2'
    } else if d == 3 {
        '3'
    } else if d == 4 {
        '4'
    } else if d == 5 {
        '5'
    } else if d == 6 {
        '6'
    } else if d == 7 {
        '7'
    } else if d == 8 {
        '8'
    } else {
        '9'
    }
}

/// The decimal digits of `n`, without leading zeros.
pub open spec fn decimal(n: nat) -> Seq<char>
    decreases n,
{
    if n < 10 {
        seq![digit(n)]
    } else {
        decimal(n / 10).push(digit(n % 10))
    }
}

/// The text of the status bar before it is fitted to the screen:
/// ` name | Line row/total | Col column ` and a mark for unsaved changes.
pub open spec fn status_of(e: Editor) -> Seq<char> {
    let name = match e.filename {
        Some(n) => n@,
        None => "New File"@,
    };
    seq![' '] + name + " | Line "@ + decimal((e.cursor_y + 1) as nat) + "/"@ + decimal(e.lines().len())
        + " | Col "@ + decimal((e.cursor_x + 1) as nat) + " "@ + if e.modified {
        "[Modified]"@
    } else {
        Seq::empty()
    }
}

/// Screen row `i`: the document line shown there, or `~` past the end of the
/// document, cut and padded to the screen's width.
pub open spec fn screen_row(e: Editor, i: int) -> Seq<char> {
    let w = e.terminal_width as int;
    let index = e.offset_y + i;
    if index < e.lines().len() {
        padded(truncated(e.lines()[index], w), w)
    } else {
        padded(seq!['~'], w)
    }
}

/// The column where the hardware cursor is put: the cursor's column, or the
/// last column of the screen where it would fall off the right edge.
pub open spec fn display_column(x: int, w: int) -> int {
    if x > 0 && w > 0 && x >= w {
        w - 1
    } else {
        x
    }
}

fn push_digit(out: &mut Vec<char>, d: u128)
    requires
        d < 10,
    ensures
        final(out)@ == old(out)@.push(digit(d as nat)),
{
    let c = if d == 0 {
        '0'
    } else if d == 1 {
        '1'
    } else if d == 2 {
        '2'
    } else if d == 3 {
        '3'
    } else if d == 4 {
        '4'
    } else if d == 5 {
        '5'
    } else if d == 6 {
        '6'
    } else if d == 7 {
        '7'
    } else if d == 8 {
        '8'
    } else {
        '9'
    };
    out.push(c);
}

/// Appends the decimal digits of `n`.
fn push_decimal(out: &mut Vec<char>, n: u128)
    ensures
        final(out)@ == old(out)@ + decimal(n as nat),
    decreases n,
{
    if n >= 10 {
        push_decimal(out, n / 10);
    }
    push_digit(out, n % 10);
    proof {
        if n >= 10 {
            assert(old(out)@ + decimal(n as nat) =~= old(out)@ + decimal((n / 10) as nat) + seq![
                digit((n % 10) as nat),
            ]);
        } else {
            assert(old(out)@ + decimal(n as nat) =~= old(out)@.push(digit(n as nat)));
        }
    }
}

/// Appends the characters of `s`.
fn push_str(out: &mut Vec<char>, s: &str)
    ensures
        final(out)@ == old(out)@ + s@,
{
    let n = s.unicode_len();
    let mut i: usize = 0;
    while i < n
        invariant
            n == s@.len(),
            i <= n,
            out@ == old(out)@ + s@.subrange(0, i as int),
        decreases n - i,
    {
        out.push(s.get_char(i));
        i = i + 1;
        assert(s@.subrange(0, i as int) =~= s@.subrange(0, i - 1).push(s@[i - 1]));
    }
    assert(s@.subrange(0, n as int) =~= s@);
}

/// Appends `k` spaces.
fn push_spaces(out: &mut Vec<char>, k: usize)
    ensures
        final(out)@ == old(out)@ + Seq::new(k as nat, |j: int| ' '),
{
    let mut i: usize = 0;
    while i < k
        invariant
            i <= k,
            out@ == old(out)@ + Seq::new(i as nat, |j: int| ' '),
        decreases k - i,
    {
        out.push(' ');
        i = i + 1;
        assert(old(out)@ + Seq::new(i as nat, |j: int| ' ') =~= old(out)@ + Seq::new(
            (i - 1) as nat,
            |j: int| ' ',
        ) + seq![' ']);
    }
}

/// Appends `s` cut to at most `w` characters, then, where `pad` is set,
/// spaces up to `w` characters.
fn push_fitted(out: &mut Vec<char>, s: &Vec<char>, w: usize, pad: bool)
    ensures
        final(out)@ == old(out)@ + if pad {
            padded(truncated(s@, w as int), w as int)
        } else {
            truncated(s@, w as int)
        },
{
    let n = if s.len() > w {
        w
    } else {
        s.len()
    };
    let mut i: usize = 0;
    while i < n
        invariant
            n == truncated(s@, w as int).len(),
            i <= n,
            out@ == old(out)@ + truncated(s@, w as int).subrange(0, i as int),
        decreases n - i,
    {
        out.push(s[i]);
        i = i + 1;
        assert(truncated(s@, w as int).subrange(0, i as int) =~= truncated(s@, w as int).subrange(
            0,
            i - 1,
        ).push(s@[i - 1]));
    }
    assert(truncated(s@, w as int).subrange(0, n as int) =~= truncated(s@, w as int));
    if pad && n < w {
        push_spaces(out, w - n);
    }
    assert(out@ =~= old(out)@ + if pad {
        padded(truncated(s@, w as int), w as int)
    } else {
        truncated(s@, w as int)
    });
}

/// Paints the editor's state into rows of characters.
pub struct Display;

impl Display {
    pub fn new() -> (r: Display) {
        Display
    }

    /// Screen row `i` of the text area.
    pub fn row_text(&self, editor: &Editor, i: usize) -> (r: Vec<char>)
        requires
            editor.wf(),
        ensures
            r@ == screen_row(*editor, i as int),
    {
        let mut out: Vec<char> = Vec::new();
        let w = editor.terminal_width;
        if i < editor.content.len() - editor.offset_y {
            let index = editor.offset_y + i;
            assert(editor.content@[index as int]@ == editor.lines()[index as int]);
            push_fitted(&mut out, &editor.content[index], w, true);
            assert(out@ =~= padded(truncated(editor.lines()[index as int], w as int), w as int));
            assert(editor.lines().len() == editor.content@.len());
        } else {
            out.push('~');
            if w > 1 {
                push_spaces(&mut out, w - 1);
            }
            assert(out@ =~= padded(seq!['~'], w as int));
        }
        proof {
            assert(out@ =~= screen_row(*editor, i as int));
        }
        out
    }

    /// All rows of the text area, top to bottom.
    pub fn text_rows(&self, editor: &Editor) -> (r: Vec<Vec<char>>)
        requires
            editor.wf(),
        ensures
            r@.len() == editor.visible_rows(),
            forall|i: int| 0 <= i < r@.len() ==> #[trigger] r@[i]@ == screen_row(*editor, i),
    {
        let rows = editor.visible_row_count();
        let mut out: Vec<Vec<char>> = Vec::new();
        let mut i: usize = 0;
        while i < rows
            invariant
                editor.wf(),
                rows == editor.visible_rows(),
                i <= rows,
                out@.len() == i,
                forall|k: int| 0 <= k < i ==> #[trigger] out@[k]@ == screen_row(*editor, k),
            decreases rows - i,
        {
            out.push(self.row_text(editor, i));
            i = i + 1;
        }
        out
    }

    /// The status bar, cut and padded to the screen's width.
    pub fn status_text(&self, editor: &Editor) -> (r: Vec<char>)
        requires
            editor.wf(),
        ensures
            r@ == padded(
                truncated(status_of(*editor), editor.terminal_width as int),
                editor.terminal_width as int,
            ),
    {
        let mut status: Vec<char> = vec![' '];
        match &editor.filename {
            Some(name) => {
                let mut k: usize = 0;
                while k < name.len()
                    invariant
                        k <= name@.len(),
                        status@ == seq![' '] + name@.subrange(0, k as int),
                    decreases name@.len() - k,
                {
                    status.push(name[k]);
                    k = k + 1;
                    assert(name@.subrange(0, k as int) =~= name@.subrange(0, k - 1).push(name@[k - 1]));
                }
                assert(name@.subrange(0, k as int) =~= name@);
            },
            None => push_str(&mut status, "New File"),
        }
        push_str(&mut status, " | Line ");
        push_decimal(&mut status, editor.cursor_y as u128 + 1);
        push_str(&mut status, "/");
        push_decimal(&mut status, editor.content.len() as u128);
        push_str(&mut status, " | Col ");
        push_decimal(&mut status, editor.cursor_x as u128 + 1);
        push_str(&mut status, " ");
        if editor.modified {
            push_str(&mut status, "[Modified]");
        }
        proof {
            assert(status@ =~= status_of(*editor));
        }
        let mut out: Vec<char> = Vec::new();
        push_fitted(&mut out, &status, editor.terminal_width, true);
        assert(out@ =~= padded(
            truncated(status_of(*editor), editor.terminal_width as int),
            editor.terminal_width as int,
        ));
        out
    }

    /// The help bar, cut to the screen's width.
    pub fn help_text(&self, editor: &Editor) -> (r: Vec<char>)
        ensures
            r@ == truncated(HELP@, editor.terminal_width as int),
    {
        let mut help: Vec<char> = Vec::new();
        push_str(&mut help, HELP);
        assert(help@ =~= HELP@);
        let mut out: Vec<char> = Vec::new();
        push_fitted(&mut out, &help, editor.terminal_width, false);
        assert(out@ =~= truncated(HELP@, editor.terminal_width as int));
        out
    }

    /// Where the hardware cursor goes, as (column, screen row).
    pub fn cursor_position(&self, editor: &Editor) -> (r: (usize, usize))
        requires
            editor.wf(),
        ensures
            r.0 == display_column(editor.cursor_x as int, editor.terminal_width as int),
            r.1 == editor.cursor_y - editor.offset_y,
    {
        let x = if editor.cursor_x > 0 && editor.terminal_width > 0 && editor.cursor_x
            >= editor.terminal_width {
            editor.terminal_width - 1
        } else {
            editor.cursor_x
        };
        (x, editor.cursor_y - editor.offset_y)
    }
}

} // verus!
