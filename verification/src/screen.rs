//! The text buffer of a terminal as the checks see it: physical rows with
//! their wrap marks, and the logical lines that the wrap marks tie together.

use vstd::prelude::*;
use crate::text;

verus! {

/// One physical row of the buffer (scrollback and viewport alike).
pub struct PhysicalLine {
    /// The text of the row, as many characters as it has cells in use.
    pub text: String,
    /// Whether the last cell carries the wrap mark: the next row continues
    /// this one.
    pub wrapped: bool,
}

/// A physical row as text and wrap mark.
pub struct LineView {
    pub text: Seq<char>,
    pub wrapped: bool,
}

impl View for PhysicalLine {
    type V = LineView;

    open spec fn view(&self) -> LineView {
        LineView { text: self.text@, wrapped: self.wrapped }
    }
}

/// The rows of a buffer as text and wrap marks.
pub open spec fn rows(lines: Seq<PhysicalLine>) -> Seq<LineView> {
    lines.map_values(|l: PhysicalLine| l@)
}

/// `lines` with `head` put in front of the text of the first one; `head`
/// alone where there is none.
pub open spec fn glued(head: Seq<char>, lines: Seq<Seq<char>>) -> Seq<Seq<char>> {
    if lines.len() == 0 {
        seq![head]
    } else {
        seq![head + lines[0]] + lines.skip(1)
    }
}

/// The logical lines of a buffer: a row with the wrap mark is continued by
/// what follows, a row without it ends its line.
pub open spec fn logical(lines: Seq<LineView>) -> Seq<Seq<char>>
    decreases lines.len(),
{
    if lines.len() == 0 {
        seq![]
    } else if lines[0].wrapped {
        glued(lines[0].text, logical(lines.skip(1)))
    } else {
        seq![lines[0].text] + logical(lines.skip(1))
    }
}

/// The rows one after the other, each without its trailing white space.
pub open spec fn flattened(lines: Seq<LineView>) -> Seq<char> {
    text::concat(lines.map_values(|l: LineView| text::trimmed_end(l.text)))
}

/// The texts of the rows.
pub open spec fn row_texts(lines: Seq<LineView>) -> Seq<Seq<char>> {
    lines.map_values(|l: LineView| l.text)
}

/// The rows and the characters of a buffer can be counted together.
pub open spec fn countable(lines: Seq<LineView>) -> bool {
    text::total_len(row_texts(lines)) + lines.len() <= usize::MAX
}

/// The rows that hold one logical line split into `segments`: every row but
/// the last one carries the wrap mark.
pub open spec fn wrapped_rows(segments: Seq<Seq<char>>) -> Seq<LineView> {
    Seq::new(
        segments.len(),
        |i: int| LineView { text: segments[i], wrapped: i + 1 < segments.len() },
    )
}

/// The rows that hold the logical lines of `layout`, each split as given.
pub open spec fn laid_out(layout: Seq<Seq<Seq<char>>>) -> Seq<LineView>
    decreases layout.len(),
{
    if layout.len() == 0 {
        seq![]
    } else {
        wrapped_rows(layout[0]) + laid_out(layout.skip(1))
    }
}

/// The text buffer of the terminal, one string per physical row.
pub fn screen_text(lines: &Vec<PhysicalLine>) -> (r: Vec<String>)
    ensures
        text::texts(r@) == row_texts(rows(lines@)),
{
    let mut out: Vec<String> = Vec::new();
    for i in 0..lines.len()
        invariant
            out@.len() == i,
            forall|j: int| 0 <= j < i ==> #[trigger] out@[j]@ == lines@[j].text@,
    {
        out.push(lines[i].text.clone());
    }
    assert(text::texts(out@) =~= row_texts(rows(lines@)));
    out
}

/// Joins the physical rows back into logical lines by their wrap marks. A
/// buffer that ends in a wrapped row ends in an unfinished logical line, which
/// counts as one.
pub fn logical_lines(lines: &Vec<PhysicalLine>) -> (r: Vec<String>)
    ensures
        text::texts(r@) == logical(rows(lines@)),
{
    let mut out: Vec<String> = Vec::new();
    let mut pending: Option<String> = None;
    assert(rows(lines@).skip(0) =~= rows(lines@));
    assert(text::texts(out@) + logical(rows(lines@)) =~= logical(rows(lines@)));
    for i in 0..lines.len()
        invariant
            logical(rows(lines@)) == text::texts(out@) + (match pending {
                Some(p) => glued(p@, logical(rows(lines@).skip(i as int))),
                None => logical(rows(lines@).skip(i as int)),
            }),
    {
        let ghost rest = rows(lines@).skip(i as int);
        let ghost before = text::texts(out@);
        let ghost head: Option<Seq<char>> = if pending is Some { Some(pending->0@) } else { None };
        proof {
            assert(rest[0] == lines@[i as int]@);
            assert(rest.skip(1) =~= rows(lines@).skip(i + 1));
        }
        let row = lines[i].text.clone();
        let joined_text = match pending.take() {
            Some(p) => {
                let mut p = p;
                p.append(row.as_str());
                p
            },
            None => row,
        };
        if lines[i].wrapped {
            proof {
                if head is Some {
                    let tail = logical(rest.skip(1));
                    if tail.len() > 0 {
                        assert(head->0 + (rest[0].text + tail[0]) =~= joined_text@ + tail[0]);
                    }
                    assert(glued(head->0, glued(rest[0].text, tail)) =~= glued(
                        joined_text@,
                        tail,
                    ));
                }
            }
            pending = Some(joined_text);
        } else {
            out.push(joined_text);
            proof {
                assert(text::texts(out@) =~= before.push(joined_text@));
                let tail = logical(rest.skip(1));
                assert(before + (seq![joined_text@] + tail) =~= before.push(joined_text@) + tail);
                if head is Some {
                    assert(glued(head->0, seq![rest[0].text] + tail) =~= seq![joined_text@]
                        + tail);
                }
            }
            pending = None;
        }
    }
    let ghost before = text::texts(out@);
    if let Some(p) = pending {
        out.push(p);
        assert(text::texts(out@) =~= before + seq![p@]);
    } else {
        assert(before + Seq::<Seq<char>>::empty() =~= before);
    }
    out
}

/// All rows one after the other, each without its trailing white space. A text
/// that was split over rows stands in one piece here, whatever the wrap marks
/// say.
pub fn phys_joined(lines: &Vec<PhysicalLine>) -> (r: String)
    ensures
        r@ == flattened(rows(lines@)),
{
    let mut out = String::new();
    let ghost trimmed = rows(lines@).map_values(|l: LineView| text::trimmed_end(l.text));
    for i in 0..lines.len()
        invariant
            trimmed == rows(lines@).map_values(|l: LineView| text::trimmed_end(l.text)),
            out@ == text::concat(trimmed.take(i as int)),
    {
        assert(trimmed.take(i + 1).drop_last() =~= trimmed.take(i as int));
        out.append(text::trim_end(lines[i].text.as_str()).as_str());
    }
    assert(trimmed.take(lines@.len() as int) =~= trimmed);
    out
}

/// `concat` unfolded at the front.
pub proof fn concat_from_front(list: Seq<Seq<char>>)
    requires
        list.len() > 0,
    ensures
        text::concat(list) == list[0] + text::concat(list.skip(1)),
    decreases list.len(),
{
    if list.len() == 1 {
        assert(list.drop_last() =~= seq![]);
        assert(list.skip(1) =~= seq![]);
        assert(text::concat(list) =~= list[0] + text::concat(list.skip(1)));
    } else {
        concat_from_front(list.drop_last());
        assert(list.drop_last().skip(1) =~= list.skip(1).drop_last());
        assert(text::concat(list) =~= list[0] + text::concat(list.skip(1)));
    }
}

/// The rows of one logical line, in whatever segments, join back into it and
/// leave the lines below alone.
pub proof fn one_line_joins_back(segments: Seq<Seq<char>>, below: Seq<LineView>)
    requires
        segments.len() > 0,
    ensures
        logical(wrapped_rows(segments) + below) == seq![text::concat(segments)] + logical(below),
    decreases segments.len(),
{
    let lines = wrapped_rows(segments) + below;
    concat_from_front(segments);
    if segments.len() == 1 {
        assert(lines.skip(1) =~= below);
        assert(text::concat(segments.skip(1)) =~= seq![]);
        assert(segments[0] + text::concat(segments.skip(1)) =~= segments[0]);
    } else {
        let rest = segments.skip(1);
        one_line_joins_back(rest, below);
        assert(lines.skip(1) =~= wrapped_rows(rest) + below);
        assert(lines[0].wrapped);
        assert(glued(segments[0], seq![text::concat(rest)] + logical(below)) =~= seq![
            segments[0] + text::concat(rest),
        ] + logical(below));
    }
}

/// Wrapping loses nothing: rows that hold logical lines in any split join back
/// into exactly those lines.
pub proof fn wrapped_lines_join_back(layout: Seq<Seq<Seq<char>>>)
    requires
        forall|i: int| 0 <= i < layout.len() ==> #[trigger] layout[i].len() > 0,
    ensures
        logical(laid_out(layout)) == layout.map_values(|s: Seq<Seq<char>>| text::concat(s)),
    decreases layout.len(),
{
    let whole = layout.map_values(|s: Seq<Seq<char>>| text::concat(s));
    if layout.len() == 0 {
        assert(whole =~= seq![]);
    } else {
        let rest = layout.skip(1);
        assert forall|i: int| 0 <= i < rest.len() implies #[trigger] rest[i].len() > 0 by {
            assert(rest[i] == layout[i + 1]);
        }
        wrapped_lines_join_back(rest);
        one_line_joins_back(layout[0], laid_out(rest));
        assert(whole =~= seq![text::concat(layout[0])] + rest.map_values(
            |s: Seq<Seq<char>>| text::concat(s),
        ));
    }
}

/// The logical lines do not depend on the width at which they were wrapped:
/// two layouts of the same lines give the same logical lines.
pub proof fn logical_lines_survive_rewrap(
    before: Seq<Seq<Seq<char>>>,
    after: Seq<Seq<Seq<char>>>,
)
    requires
        forall|i: int| 0 <= i < before.len() ==> #[trigger] before[i].len() > 0,
        forall|i: int| 0 <= i < after.len() ==> #[trigger] after[i].len() > 0,
        before.map_values(|s: Seq<Seq<char>>| text::concat(s)) == after.map_values(
            |s: Seq<Seq<char>>| text::concat(s),
        ),
    ensures
        logical(laid_out(before)) == logical(laid_out(after)),
{
    wrapped_lines_join_back(before);
    wrapped_lines_join_back(after);
}

/// Joining rows into logical lines keeps every character, and makes no more lines
/// than there are rows.
pub proof fn joining_keeps_the_length(lines: Seq<LineView>)
    ensures
        text::total_len(logical(lines)) == text::total_len(row_texts(lines)),
        logical(lines).len() <= lines.len(),
    decreases lines.len(),
{
    if lines.len() == 0 {
        assert(row_texts(lines) =~= seq![]);
    } else {
        let head = lines[0].text;
        let rest = lines.skip(1);
        joining_keeps_the_length(rest);
        assert(row_texts(lines) =~= seq![head] + row_texts(rest));
        text::total_len_adds_up(seq![head], row_texts(rest));
        assert(seq![head].drop_last() =~= seq![]);
        assert(text::total_len(seq![head]) == head.len()) by {
            assert(text::total_len(Seq::<Seq<char>>::empty()) == 0);
        }
        let below = logical(rest);
        if lines[0].wrapped {
            if below.len() > 0 {
                let first = seq![head + below[0]];
                text::total_len_adds_up(first, below.skip(1));
                text::total_len_adds_up(seq![below[0]], below.skip(1));
                assert(below =~= seq![below[0]] + below.skip(1));
                assert(first.drop_last() =~= seq![]);
                assert(seq![below[0]].drop_last() =~= seq![]);
                assert(text::total_len(first) == head.len() + below[0].len()) by {
                    assert(text::total_len(Seq::<Seq<char>>::empty()) == 0);
                }
                assert(text::total_len(seq![below[0]]) == below[0].len()) by {
                    assert(text::total_len(Seq::<Seq<char>>::empty()) == 0);
                }
            }
        } else {
            text::total_len_adds_up(seq![head], below);
        }
    }
}

/// The rows are flattened one by one, each without the white space behind it, whatever
/// its wrap mark says.
pub proof fn rows_are_flattened_one_by_one(above: Seq<LineView>, row: LineView)
    ensures
        flattened(above.push(row)) == flattened(above) + text::trimmed_end(row.text),
        flattened(seq![]).len() == 0,
{
    let trimmed = |l: LineView| text::trimmed_end(l.text);
    let all = above.push(row).map_values(trimmed);
    assert(all.drop_last() =~= above.map_values(trimmed));
    assert(Seq::<LineView>::empty().map_values(trimmed) =~= seq![]);
}

/// A row without a wrap mark ends its line: what follows it does not touch the lines
/// above.
pub proof fn an_unwrapped_row_ends_its_line(above: Seq<LineView>, row: LineView, below: Seq<LineView>)
    requires
        !row.wrapped,
    ensures
        logical(above.push(row) + below) == logical(above.push(row)) + logical(below),
    decreases above.len(),
{
    let all = above.push(row) + below;
    let upper = above.push(row);
    if above.len() == 0 {
        assert(all.skip(1) =~= below);
        assert(upper.skip(1) =~= seq![]);
        assert(logical(upper.skip(1)) == Seq::<Seq<char>>::empty());
        assert(logical(upper) =~= seq![row.text]);
        assert(logical(all) =~= logical(upper) + logical(below));
    } else {
        let rest = above.skip(1);
        an_unwrapped_row_ends_its_line(rest, row, below);
        assert(all.skip(1) =~= rest.push(row) + below);
        assert(upper.skip(1) =~= rest.push(row));
        a_finished_buffer_has_lines(rest.push(row));
        assert(logical(all) =~= logical(upper) + logical(below));
    }
}

/// A buffer with rows has lines.
proof fn a_finished_buffer_has_lines(lines: Seq<LineView>)
    requires
        lines.len() > 0,
    ensures
        logical(lines).len() > 0,
{
}

/// A buffer shows the text of each of its rows, in order.
pub proof fn every_row_has_its_text(lines: Seq<LineView>, i: int)
    requires
        0 <= i < lines.len(),
    ensures
        row_texts(lines).len() == lines.len(),
        row_texts(lines)[i] == lines[i].text,
{
}

} // verus!
