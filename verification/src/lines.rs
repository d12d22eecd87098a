//! How the lines of a note stand in a file: one after the other, each
//! closed by a newline. A last line that is not closed still counts.

use vstd::prelude::*;

verus! {

/// The byte that closes a line.
pub const NEWLINE: u8 = 10;

/// The lines of a note, as plain byte strings.
pub open spec fn lines_view(lines: Seq<Vec<u8>>) -> Seq<Seq<u8>> {
    lines.map_values(|line: Vec<u8>| line@)
}

pub open spec fn no_newline(line: Seq<u8>) -> bool {
    forall|i: int| 0 <= i < line.len() ==> #[trigger] line[i] != NEWLINE
}

pub open spec fn no_newlines(lines: Seq<Seq<u8>>) -> bool {
    forall|i: int| 0 <= i < lines.len() ==> no_newline(#[trigger] lines[i])
}

/// Whether a content is whole: empty, or closed by a newline.
pub open spec fn closed(content: Seq<u8>) -> bool {
    content.len() == 0 || content.last() == NEWLINE
}

/// Where the first line of a content ends: at its first newline, or at the
/// end of the content if it has none.
pub open spec fn line_end(content: Seq<u8>) -> nat
    decreases content.len(),
{
    if content.len() == 0 || content[0] == NEWLINE {
        0
    } else {
        1 + line_end(content.skip(1))
    }
}

/// The lines that a content holds, in order and without their newlines.
pub open spec fn lines_of(content: Seq<u8>) -> Seq<Seq<u8>>
    decreases content.len(),
{
    if content.len() == 0 {
        Seq::empty()
    } else {
        let end = line_end(content);
        let rest = if end < content.len() {
            content.skip(end as int + 1)
        } else {
            Seq::empty()
        };
        seq![content.take(end as int)] + lines_of(rest)
    }
}

/// The content that holds the given lines: each followed by a newline.
pub open spec fn rendered(lines: Seq<Seq<u8>>) -> Seq<u8>
    decreases lines.len(),
{
    if lines.len() == 0 {
        Seq::empty()
    } else {
        rendered(lines.drop_last()) + lines.last() + seq![NEWLINE]
    }
}

/// A content with its last line closed.
pub open spec fn closed_form(content: Seq<u8>) -> Seq<u8> {
    if closed(content) {
        content
    } else {
        content.push(NEWLINE)
    }
}

/// The first line ends within the content, holds no newline, and is
/// followed by one unless the content ends there.
pub proof fn lemma_line_end(content: Seq<u8>)
    ensures
        line_end(content) <= content.len(),
        no_newline(content.take(line_end(content) as int)),
        line_end(content) < content.len() ==> content[line_end(content) as int] == NEWLINE,
    decreases content.len(),
{
    if content.len() == 0 || content[0] == NEWLINE {
    } else {
        let tail = content.skip(1);
        lemma_line_end(tail);
        let end = line_end(content) as int;
        assert forall|i: int| 0 <= i < end implies #[trigger] content.take(end)[i]
            != NEWLINE by {
            if i > 0 {
                assert(tail.take(end - 1)[i - 1] == content[i]);
            }
        }
    }
}

/// A position with no newline before it, and with a newline or the end of
/// the content at it, is where the first line ends.
pub proof fn lemma_line_end_is(content: Seq<u8>, end: int)
    requires
        0 <= end <= content.len(),
        no_newline(content.take(end)),
        end < content.len() ==> content[end] == NEWLINE,
    ensures
        line_end(content) == end,
    decreases end,
{
    if end == 0 {
    } else {
        assert(content.take(end)[0] == content[0]);
        let tail = content.skip(1);
        assert forall|i: int| 0 <= i < end - 1 implies #[trigger] tail.take(end - 1)[i]
            != NEWLINE by {
            assert(content.take(end)[i + 1] == tail[i]);
        }
        lemma_line_end_is(tail, end - 1);
    }
}

/// A line without a newline, once closed, reads back as itself.
pub proof fn lemma_one_line(line: Seq<u8>)
    requires
        no_newline(line),
    ensures
        lines_of(line + seq![NEWLINE]) == seq![line],
{
    let content = line + seq![NEWLINE];
    assert(content.take(line.len() as int) == line);
    lemma_line_end_is(content, line.len() as int);
    assert(content.skip(line.len() as int + 1) == Seq::<u8>::empty());
    assert(lines_of(Seq::<u8>::empty()) == Seq::<Seq<u8>>::empty());
    assert(seq![line] + Seq::<Seq<u8>>::empty() == seq![line]);
}

/// After a whole content, what follows is read on its own.
pub proof fn lemma_lines_of_concat(first: Seq<u8>, second: Seq<u8>)
    requires
        closed(first),
    ensures
        lines_of(first + second) == lines_of(first) + lines_of(second),
    decreases first.len(),
{
    if first.len() == 0 {
        assert(first + second == second);
        assert(lines_of(first) + lines_of(second) == lines_of(second));
    } else {
        let both = first + second;
        lemma_line_end(first);
        let end = line_end(first) as int;
        if end == first.len() {
            assert(first.take(end)[end - 1] == first.last());
        }
        assert(end < first.len());
        assert(both.take(end) == first.take(end));
        lemma_line_end_is(both, end);
        let rest = first.skip(end + 1);
        assert(both.skip(end + 1) == rest + second);
        if rest.len() > 0 {
            assert(rest.last() == first.last());
        }
        lemma_lines_of_concat(rest, second);
        assert(seq![first.take(end)] + (lines_of(rest) + lines_of(second)) == (seq![
            first.take(end),
        ] + lines_of(rest)) + lines_of(second));
    }
}

/// To close the last line of a content adds no line and changes none.
pub proof fn lemma_lines_of_closed_form(content: Seq<u8>)
    ensures
        lines_of(closed_form(content)) == lines_of(content),
    decreases content.len(),
{
    if !closed(content) {
        let longer = content.push(NEWLINE);
        lemma_line_end(content);
        let end = line_end(content) as int;
        assert(longer.take(end) == content.take(end));
        lemma_line_end_is(longer, end);
        if end == content.len() {
            assert(longer.skip(end + 1) == Seq::<u8>::empty());
        } else {
            let rest = content.skip(end + 1);
            assert(rest.len() > 0);
            assert(rest.last() == content.last());
            assert(longer.skip(end + 1) == rest.push(NEWLINE));
            lemma_lines_of_closed_form(rest);
        }
    }
}

/// No line of a content holds a newline.
pub proof fn lemma_lines_hold_no_newline(content: Seq<u8>)
    ensures
        no_newlines(lines_of(content)),
    decreases content.len(),
{
    if content.len() > 0 {
        lemma_line_end(content);
        let end = line_end(content);
        let rest = if end < content.len() {
            content.skip(end as int + 1)
        } else {
            Seq::empty()
        };
        lemma_lines_hold_no_newline(rest);
    }
}

/// What is written is whole.
pub proof fn lemma_rendered_is_closed(lines: Seq<Seq<u8>>)
    ensures
        closed(rendered(lines)),
{
}

/// Lines that are written and read again come back unchanged, as long as
/// none of them holds a newline.
pub proof fn lemma_lines_of_rendered(lines: Seq<Seq<u8>>)
    requires
        no_newlines(lines),
    ensures
        lines_of(rendered(lines)) == lines,
    decreases lines.len(),
{
    if lines.len() == 0 {
    } else {
        let before = lines.drop_last();
        lemma_lines_of_rendered(before);
        lemma_rendered_is_closed(before);
        lemma_one_line(lines.last());
        lemma_lines_of_concat(rendered(before), lines.last() + seq![NEWLINE]);
        assert(rendered(lines) == rendered(before) + (lines.last() + seq![NEWLINE]));
        assert(before + seq![lines.last()] == lines);
    }
}

/// Adds the bytes of `more` at the end of `bytes`.
pub fn push_all(bytes: &mut Vec<u8>, more: &[u8])
    ensures
        final(bytes)@ == old(bytes)@ + more@,
{
    let mut i: usize = 0;
    while i < more.len()
        invariant
            i <= more.len(),
            bytes@ == old(bytes)@ + more@.take(i as int),
        decreases more.len() - i,
    {
        bytes.push(more[i]);
        i += 1;
        assert(bytes@ == old(bytes)@ + more@.take(i as int));
    }
    assert(more@.take(more.len() as int) == more@);
}

/// The lines that a content holds, see [`lines_of`].
pub fn split_lines(content: &[u8]) -> (lines: Vec<Vec<u8>>)
    ensures
        lines_view(lines@) == lines_of(content@),
{
    let mut lines: Vec<Vec<u8>> = Vec::new();
    let mut start: usize = 0;
    assert(content@.skip(0) == content@);
    assert(lines_view(lines@) + lines_of(content@) == lines_of(content@));
    while start < content.len()
        invariant
            start <= content.len(),
            lines_of(content@) == lines_view(lines@) + lines_of(content@.skip(start as int)),
        decreases content.len() - start,
    {
        let ghost rest = content@.skip(start as int);
        let mut line: Vec<u8> = Vec::new();
        let mut end: usize = start;
        while end < content.len() && content[end] != NEWLINE
            invariant
                start <= end <= content.len(),
                rest == content@.skip(start as int),
                line@ == rest.take(end - start),
                no_newline(line@),
            decreases content.len() - end,
        {
            line.push(content[end]);
            end += 1;
            assert(line@ == rest.take(end - start));
        }
        proof {
            lemma_line_end_is(rest, end - start);
            let ghost after: int = if end < content.len() {
                end + 1
            } else {
                end as int
            };
            assert(content@.skip(after) == if end - start < rest.len() {
                rest.skip(end - start + 1)
            } else {
                Seq::empty()
            });
            assert(lines_view(lines@.push(line)) == lines_view(lines@) + seq![line@]);
            assert((lines_view(lines@) + seq![line@]) + lines_of(content@.skip(after))
                == lines_view(lines@) + (seq![line@] + lines_of(content@.skip(after))));
        }
        lines.push(line);
        start = if end < content.len() {
            end + 1
        } else {
            end
        };
    }
    proof {
        assert(content@.skip(start as int).len() == 0);
        assert(lines_view(lines@) + Seq::<Seq<u8>>::empty() == lines_view(lines@));
    }
    lines
}

/// The content that holds the given lines, see [`rendered`].
pub fn render_lines(lines: &Vec<Vec<u8>>) -> (content: Vec<u8>)
    ensures
        content@ == rendered(lines_view(lines@)),
{
    let mut content: Vec<u8> = Vec::new();
    let mut i: usize = 0;
    while i < lines.len()
        invariant
            i <= lines.len(),
            content@ == rendered(lines_view(lines@).take(i as int)),
        decreases lines.len() - i,
    {
        let line = &lines[i];
        push_all(&mut content, line.as_slice());
        content.push(NEWLINE);
        proof {
            let longer = lines_view(lines@).take(i + 1);
            assert(longer.drop_last() == lines_view(lines@).take(i as int));
            assert(longer.last() == line@);
        }
        i += 1;
    }
    proof {
        assert(lines_view(lines@).take(lines.len() as int) == lines_view(lines@));
    }
    content
}

} // verus!
