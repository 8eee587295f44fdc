//! Plain-text files as line sequences: splitting on read, joining on write.
use vstd::prelude::*;

verus! {

/// `s` without one trailing carriage return.
pub open spec fn strip_cr(s: Seq<char>) -> Seq<char> {
    if s.len() > 0 && s.last() == '\r' {
        s.drop_last()
    } else {
        s
    }
}

/// Reading `s` from the left: the lines closed by a newline so far, and the
/// characters of the line still open.
pub open spec fn scan(s: Seq<char>) -> (Seq<Seq<char>>, Seq<char>)
    decreases s.len(),
{
    if s.len() == 0 {
        (Seq::empty(), Seq::empty())
    } else {
        let (done, open) = scan(s.drop_last());
        if s.last() == '\n' {
            (done.push(strip_cr(open)), Seq::empty())
        } else {
            (done, open.push(s.last()))
        }
    }
}

/// The lines of `s`: separated by `\n` or `\r\n`. The text after the last
/// line ending is the last line, empty where the text ends in a line ending,
/// so an empty text is one empty line.
pub open spec fn lines_of(s: Seq<char>) -> Seq<Seq<char>> {
    scan(s).0.push(scan(s).1)
}

/// The lines joined with a single `\n` between neighbours.
pub open spec fn joined(lines: Seq<Seq<char>>) -> Seq<char>
    decreases lines.len(),
{
    if lines.len() == 0 {
        Seq::empty()
    } else if lines.len() == 1 {
        lines[0]
    } else {
        joined(lines.drop_last()) + seq!['\n'] + lines.last()
    }
}

/// No line holds a newline, and none but the last ends in a carriage return.
pub open spec fn separable(lines: Seq<Seq<char>>) -> bool {
    &&& forall|i: int, j: int|
        0 <= i < lines.len() && 0 <= j < lines[i].len() ==> #[trigger] lines[i][j] != '\n'
    &&& forall|i: int|
        0 <= i < lines.len() - 1 ==> #[trigger] strip_cr(lines[i]) == lines[i]
}

proof fn lemma_scan_append_line(a: Seq<char>, b: Seq<char>)
    requires
        forall|j: int| 0 <= j < b.len() ==> b[j] != '\n',
    ensures
        scan(a + b) == (scan(a).0, scan(a).1 + b),
    decreases b.len(),
{
    if b.len() == 0 {
        assert(a + b =~= a);
        assert(scan(a).1 + b =~= scan(a).1);
    } else {
        lemma_scan_append_line(a, b.drop_last());
        assert((a + b).drop_last() =~= a + b.drop_last());
        assert(scan(a).1 + b.drop_last() + seq![b.last()] =~= scan(a).1 + b);
    }
}

proof fn lemma_scan_joined(lines: Seq<Seq<char>>)
    requires
        lines.len() >= 1,
        separable(lines),
    ensures
        scan(joined(lines)) == (lines.drop_last(), lines.last()),
    decreases lines.len(),
{
    if lines.len() == 1 {
        lemma_scan_append_line(Seq::empty(), lines[0]);
        assert(Seq::<char>::empty() + lines[0] =~= lines[0]);
        assert(lines.drop_last() =~= Seq::empty());
    } else {
        let rest = lines.drop_last();
        assert forall|i: int, j: int| 0 <= i < rest.len() && 0 <= j < rest[i].len() implies #[trigger] rest[i][j] != '\n' by {
            assert(lines[i][j] != '\n');
        }
        assert forall|i: int| 0 <= i < rest.len() - 1 implies #[trigger] strip_cr(rest[i]) == rest[i] by {
            assert(strip_cr(lines[i]) == lines[i]);
        }
        assert(strip_cr(lines[rest.len() - 1]) == lines[rest.len() - 1]);
        lemma_scan_joined(rest);
        let head = joined(rest) + seq!['\n'];
        assert(head.drop_last() =~= joined(rest));
        assert(rest.drop_last().push(rest.last()) =~= rest);
        let last = lines.last();
        assert forall|j: int| 0 <= j < last.len() implies last[j] != '\n' by {
            assert(lines[lines.len() - 1][j] != '\n');
        }
        lemma_scan_append_line(head, last);
        assert(scan(head).1 + last =~= last);
    }
}

/// Writing lines and reading them back gives the same lines, for every
/// document whose lines are separable.
pub proof fn lemma_write_read_round_trip(lines: Seq<Seq<char>>)
    requires
        lines.len() >= 1,
        separable(lines),
    ensures
        lines_of(joined(lines)) == lines,
{
    lemma_scan_joined(lines);
    assert(lines.drop_last().push(lines.last()) =~= lines);
}

/// Splits `text` into lines as a text file is read.
pub fn split_lines(text: &Vec<char>) -> (r: Vec<Vec<char>>)
    ensures
        r@.map_values(|l: Vec<char>| l@) == lines_of(text@),
        r@.len() >= 1,
{
    let mut done: Vec<Vec<char>> = Vec::new();
    let mut open: Vec<char> = Vec::new();
    let mut i: usize = 0;
    while i < text.len()
        invariant
            i <= text@.len(),
            done@.map_values(|l: Vec<char>| l@) == scan(text@.subrange(0, i as int)).0,
            open@ == scan(text@.subrange(0, i as int)).1,
        decreases text@.len() - i,
    {
        let c = text[i];
        let ghost before = text@.subrange(0, i as int);
        assert(text@.subrange(0, i + 1).drop_last() =~= before);
        if c == '\n' {
            if open.len() > 0 && open[open.len() - 1] == '\r' {
                open.pop();
            }
            let mut line: Vec<char> = Vec::new();
            std::mem::swap(&mut line, &mut open);
            done.push(line);
            assert(done@.map_values(|l: Vec<char>| l@) =~= scan(before).0.push(strip_cr(scan(before).1)));
        } else {
            open.push(c);
        }
        i = i + 1;
    }
    assert(text@.subrange(0, text@.len() as int) =~= text@);
    done.push(open);
    assert(done@.map_values(|l: Vec<char>| l@) =~= scan(text@).0.push(scan(text@).1));
    done
}

/// Joins `lines` with a single `\n` between neighbours, as a file is written.
pub fn join_lines(lines: &Vec<Vec<char>>) -> (r: Vec<char>)
    ensures
        r@ == joined(lines@.map_values(|l: Vec<char>| l@)),
{
    let ghost ls = lines@.map_values(|l: Vec<char>| l@);
    let mut out: Vec<char> = Vec::new();
    let mut i: usize = 0;
    while i < lines.len()
        invariant
            i <= lines@.len(),
            ls == lines@.map_values(|l: Vec<char>| l@),
            out@ == joined(ls.subrange(0, i as int)),
        decreases lines@.len() - i,
    {
        let ghost start = out@;
        if i > 0 {
            out.push('\n');
        }
        let line = &lines[i];
        let mut j: usize = 0;
        while j < line.len()
            invariant
                j <= line@.len(),
                out@ == if i > 0 {
                    start + seq!['\n'] + line@.subrange(0, j as int)
                } else {
                    start + line@.subrange(0, j as int)
                },
            decreases line@.len() - j,
        {
            out.push(line[j]);
            j = j + 1;
            assert(line@.subrange(0, j as int) =~= line@.subrange(0, j - 1).push(line@[j - 1]));
        }
        assert(line@.subrange(0, j as int) =~= line@);
        assert(ls.subrange(0, i + 1).drop_last() =~= ls.subrange(0, i as int));
        if i == 0 {
            assert(joined(ls.subrange(0, 0)) == Seq::<char>::empty());
            assert(start + line@ =~= line@);
        }
        i = i + 1;
    }
    assert(ls.subrange(0, lines@.len() as int) =~= ls);
    out
}

} // verus!
