//! The plain-text variant of loading: physical lines, trimmed, each a
//! chapter heading or body text.

use crate::blocks::{BlockSpec, LabeledBlock};
use crate::heading::{is_chapter_heading, is_heading};
use crate::text::{from_chars, to_chars, trim, trim_range};
use vstd::prelude::*;

verus! {

/// The text that follows the last line feed of `text`: the line that is still
/// open at its end.
pub open spec fn open_line(text: Seq<char>) -> Seq<char>
    decreases text.len(),
{
    if text.len() == 0 || text.last() == '\n' {
        Seq::empty()
    } else {
        open_line(text.drop_last()).push(text.last())
    }
}

/// The lines of `text` that a line feed ends, without the line feed.
pub open spec fn closed_lines(text: Seq<char>) -> Seq<Seq<char>>
    decreases text.len(),
{
    if text.len() == 0 {
        Seq::empty()
    } else if text.last() == '\n' {
        closed_lines(text.drop_last()).push(open_line(text.drop_last()))
    } else {
        closed_lines(text.drop_last())
    }
}

/// The physical lines of `text`: each line that a line feed ends, and the text
/// after the last line feed where there is any.
pub open spec fn physical_lines(text: Seq<char>) -> Seq<Seq<char>> {
    if open_line(text).len() > 0 {
        closed_lines(text).push(open_line(text))
    } else {
        closed_lines(text)
    }
}

/// The block that one physical line becomes: trimmed, a heading where it
/// reads as one, body text otherwise.
pub open spec fn line_block(line: Seq<char>) -> BlockSpec {
    let text = trim(line);
    if is_chapter_heading(text) {
        BlockSpec::Heading(text)
    } else {
        BlockSpec::Body(text)
    }
}

/// The blocks of a plain-text document: one for each physical line.
pub open spec fn text_blocks(text: Seq<char>) -> Seq<BlockSpec> {
    physical_lines(text).map_values(|line: Seq<char>| line_block(line))
}

/// `line` holds no line feed.
pub open spec fn no_line_feed(line: Seq<char>) -> bool {
    forall|i: int| 0 <= i < line.len() ==> #[trigger] line[i] != '\n'
}

/// No physical line holds a line feed.
pub proof fn lemma_lines_hold_no_line_feed(text: Seq<char>)
    ensures
        no_line_feed(open_line(text)),
        forall|l: int| 0 <= l < closed_lines(text).len() ==> no_line_feed(#[trigger] closed_lines(text)[l]),
        forall|l: int|
            0 <= l < physical_lines(text).len() ==> no_line_feed(#[trigger] physical_lines(text)[l]),
    decreases text.len(),
{
    if text.len() > 0 {
        let shorter = text.drop_last();
        lemma_lines_hold_no_line_feed(shorter);
        if text.last() == '\n' {
            assert forall|l: int| 0 <= l < closed_lines(text).len() implies no_line_feed(
                #[trigger] closed_lines(text)[l],
            ) by {
                if l < closed_lines(shorter).len() {
                    assert(closed_lines(text)[l] == closed_lines(shorter)[l]);
                }
            }
        } else {
            let line = open_line(text);
            assert forall|i: int| 0 <= i < line.len() implies #[trigger] line[i] != '\n' by {
                if i < open_line(shorter).len() {
                    assert(line[i] == open_line(shorter)[i]);
                }
            }
        }
    }
    assert forall|l: int| 0 <= l < physical_lines(text).len() implies no_line_feed(
        #[trigger] physical_lines(text)[l],
    ) by {
        if l < closed_lines(text).len() {
            assert(physical_lines(text)[l] == closed_lines(text)[l]);
        }
    }
}

/// The text that `lines` make when each is ended by a line feed.
pub open spec fn joined_lines(lines: Seq<Seq<char>>) -> Seq<char>
    decreases lines.len(),
{
    if lines.len() == 0 {
        Seq::empty()
    } else {
        joined_lines(lines.drop_last()) + lines.last() + seq!['\n']
    }
}

/// Splitting loses nothing but the line feeds: the closed lines, each ended
/// by a line feed, and the open line after them make up the text again.
pub proof fn lemma_lines_rebuild_text(text: Seq<char>)
    ensures
        joined_lines(closed_lines(text)) + open_line(text) == text,
    decreases text.len(),
{
    if text.len() == 0 {
        assert(joined_lines(closed_lines(text)) + open_line(text) =~= text);
    } else {
        let shorter = text.drop_last();
        lemma_lines_rebuild_text(shorter);
        if text.last() == '\n' {
            let lines = closed_lines(text);
            assert(lines.drop_last() =~= closed_lines(shorter));
            assert(lines.last() == open_line(shorter));
            assert(joined_lines(lines) + open_line(text) =~= shorter.push('\n'));
        } else {
            assert(joined_lines(closed_lines(text)) + open_line(text) =~= (joined_lines(
                closed_lines(shorter),
            ) + open_line(shorter)).push(text.last()));
        }
        assert(shorter.push(text.last()) =~= text);
    }
}

fn push_line_block(blocks: &mut Vec<LabeledBlock>, chars: &Vec<char>, from: usize, to: usize)
    requires
        from <= to <= chars@.len(),
    ensures
        final(blocks).deep_view() == old(blocks).deep_view().push(
            line_block(chars@.subrange(from as int, to as int)),
        ),
{
    let ghost before = blocks.deep_view();
    let (a, b) = trim_range(chars, from, to);
    let heading = is_heading(chars, a, b);
    let text = from_chars(chars, a, b);
    if heading {
        blocks.push(LabeledBlock::Heading(text));
    } else {
        blocks.push(LabeledBlock::Body(text));
    }
    assert(blocks.deep_view() =~= before.push(
        line_block(chars@.subrange(from as int, to as int)),
    ));
}

/// Loads a plain-text document: splits it into physical lines, trims each,
/// and labels it as a chapter heading or as body text.
pub fn load_text(text: &str) -> (blocks: Vec<LabeledBlock>)
    ensures
        blocks.deep_view() == text_blocks(text@),
{
    let chars = to_chars(text);
    let mut blocks: Vec<LabeledBlock> = Vec::new();
    let mut start: usize = 0;
    let mut i: usize = 0;
    assert(blocks.deep_view() =~= closed_lines(chars@.take(0)).map_values(
        |line: Seq<char>| line_block(line),
    ));
    assert(open_line(chars@.take(0)) =~= chars@.subrange(0, 0));
    while i < chars.len()
        invariant
            start <= i <= chars@.len(),
            blocks.deep_view() == closed_lines(chars@.take(i as int)).map_values(
                |line: Seq<char>| line_block(line),
            ),
            open_line(chars@.take(i as int)) == chars@.subrange(start as int, i as int),
        decreases chars@.len() - i,
    {
        proof {
            let upto = chars@.take(i + 1);
            assert(upto.drop_last() =~= chars@.take(i as int));
            assert(upto.last() == chars@[i as int]);
        }
        if chars[i] == '\n' {
            push_line_block(&mut blocks, &chars, start, i);
            start = i + 1;
            proof {
                assert(blocks.deep_view() =~= closed_lines(chars@.take(i + 1)).map_values(
                    |line: Seq<char>| line_block(line),
                ));
                assert(open_line(chars@.take(i + 1)) =~= chars@.subrange(start as int, i + 1));
            }
        } else {
            proof {
                assert(open_line(chars@.take(i + 1)) =~= chars@.subrange(start as int, i + 1));
            }
        }
        i += 1;
    }
    assert(chars@.take(i as int) =~= chars@);
    if start < i {
        push_line_block(&mut blocks, &chars, start, i);
    }
    assert(blocks.deep_view() =~= text_blocks(text@));
    blocks
}

} // verus!
