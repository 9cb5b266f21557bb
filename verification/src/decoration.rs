//! The decoration: a block of text, taken apart into the lines that are set
//! beside the report.

use crate::text::{chars_of, text_of};
use vstd::prelude::*;

verus! {

/// The place of the first line feed in a text, or the text's length where
/// it has none.
pub open spec fn first_line_feed(text: Seq<char>) -> int
    decreases text.len(),
{
    if text.len() == 0 || text[0] == '\n' {
        0
    } else {
        1 + first_line_feed(text.drop_first())
    }
}

/// A line without the carriage return at its end, if it has one there.
pub open spec fn without_carriage_return(line: Seq<char>) -> Seq<char> {
    if line.len() > 0 && line.last() == '\r' {
        line.drop_last()
    } else {
        line
    }
}

/// The lines of a text. A line ends with a line feed, or with a carriage
/// return and a line feed; neither belongs to the line. What stands after
/// the last line feed is a line too, unless nothing stands there; a carriage
/// return at its end stays.
pub open spec fn lines_of(text: Seq<char>) -> Seq<Seq<char>>
    decreases text.len(),
    via lines_of_terminates
{
    if text.len() == 0 {
        Seq::empty()
    } else {
        let end = first_line_feed(text);
        if end >= text.len() {
            seq![text]
        } else {
            seq![without_carriage_return(text.take(end))] + lines_of(text.skip(end + 1))
        }
    }
}

#[via_fn]
proof fn lines_of_terminates(text: Seq<char>) {
    first_line_feed_bounds(text);
}

/// The first line feed is the one place that holds a line feed and has none
/// before it.
proof fn first_line_feed_is(text: Seq<char>, end: int)
    requires
        0 <= end <= text.len(),
        forall|i: int| 0 <= i < end ==> text[i] != '\n',
        end < text.len() ==> text[end] == '\n',
    ensures
        first_line_feed(text) == end,
    decreases end,
{
    if end > 0 {
        let rest = text.drop_first();
        assert forall|i: int| 0 <= i < end - 1 implies rest[i] != '\n' by {
            assert(rest[i] == text[i + 1]);
        }
        if end < text.len() {
            assert(rest[end - 1] == text[end]);
        }
        assert(text[0] != '\n');
        first_line_feed_is(rest, end - 1);
    }
}

/// No line has a line feed in it, so a row of the output that is made of a
/// line of the decoration stays one row.
pub proof fn lines_hold_no_line_feed(text: Seq<char>)
    ensures
        forall|i: int, j: int|
            0 <= i < lines_of(text).len() && 0 <= j < lines_of(text)[i].len() ==> lines_of(
                text,
            )[i][j] != '\n',
    decreases text.len(),
{
    if text.len() > 0 {
        let end = first_line_feed(text);
        first_line_feed_bounds(text);
        if end < text.len() {
            lines_hold_no_line_feed(text.skip(end + 1));
            let head = without_carriage_return(text.take(end));
            let rest = lines_of(text.skip(end + 1));
            assert forall|i: int, j: int|
                0 <= i < lines_of(text).len() && 0 <= j < lines_of(text)[i].len() implies lines_of(
                text,
            )[i][j] != '\n' by {
                if i == 0 {
                    assert(lines_of(text)[0] == head);
                    assert(head[j] == text[j]);
                } else {
                    assert(lines_of(text)[i] == rest[i - 1]);
                }
            }
        }
    }
}

proof fn first_line_feed_bounds(text: Seq<char>)
    ensures
        0 <= first_line_feed(text) <= text.len(),
        forall|i: int| 0 <= i < first_line_feed(text) ==> text[i] != '\n',
        first_line_feed(text) < text.len() ==> text[first_line_feed(text)] == '\n',
    decreases text.len(),
{
    if text.len() == 0 || text[0] == '\n' {
    } else {
        let rest = text.drop_first();
        first_line_feed_bounds(rest);
        assert forall|i: int| 0 <= i < first_line_feed(text) implies text[i] != '\n' by {
            if i > 0 {
                assert(text[i] == rest[i - 1]);
            }
        }
        if first_line_feed(text) < text.len() {
            assert(text[first_line_feed(text)] == rest[first_line_feed(rest)]);
        }
    }
}

/// Takes a text apart into its lines.
pub fn split_lines(text: &str) -> (lines: Vec<String>)
    ensures
        lines.deep_view() == lines_of(text@),
{
    let chars = chars_of(text);
    let mut lines: Vec<String> = Vec::new();
    let mut start: usize = 0;
    let mut i: usize = 0;
    assert(chars@.skip(0) =~= chars@);
    while i < chars.len()
        invariant
            start <= i <= chars.len(),
            chars@ == text@,
            forall|k: int| start <= k < i ==> chars@[k] != '\n',
            lines_of(text@) == lines.deep_view() + lines_of(chars@.skip(start as int)),
        decreases chars.len() - i,
    {
        if chars[i] == '\n' {
            let ghost rest = chars@.skip(start as int);
            let ghost before = lines.deep_view();
            let end = if i > start && chars[i - 1] == '\r' {
                i - 1
            } else {
                i
            };
            let line = text_of(&chars, start, end);
            proof {
                assert forall|k: int| 0 <= k < i - start implies rest[k] != '\n' by {
                    assert(rest[k] == chars@[start + k]);
                }
                first_line_feed_is(rest, i - start);
                assert(rest.take(i - start) =~= chars@.subrange(start as int, i as int));
                assert(line@ =~= without_carriage_return(rest.take(i - start)));
                assert(rest.skip(i - start + 1) =~= chars@.skip(i + 1));
            }
            lines.push(line);
            assert(lines.deep_view() =~= before.push(line@));
            assert(lines_of(text@) =~= lines.deep_view() + lines_of(chars@.skip(i + 1)));
            start = i + 1;
        }
        i = i + 1;
    }
    if start < chars.len() {
        let ghost rest = chars@.skip(start as int);
        let ghost before = lines.deep_view();
        let line = text_of(&chars, start, chars.len());
        proof {
            assert forall|k: int| 0 <= k < rest.len() implies rest[k] != '\n' by {
                assert(rest[k] == chars@[start + k]);
            }
            first_line_feed_is(rest, rest.len() as int);
            assert(line@ =~= rest);
        }
        lines.push(line);
        assert(lines.deep_view() =~= before.push(line@));
    } else {
        assert(chars@.skip(start as int) =~= Seq::<char>::empty());
        assert(lines.deep_view() + Seq::<Seq<char>>::empty() =~= lines.deep_view());
    }
    lines
}

} // verus!
