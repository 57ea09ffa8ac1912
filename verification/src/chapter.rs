//! The chapter index: which display lines start a chapter, and which chapter
//! a line belongs to.

use crate::blocks::BlockSpec;
use crate::paginate::{block_lines, paginate_spec, Line, LineSpec};
use vstd::prelude::*;

verus! {

/// A chapter of the open document: its ordinal, its title, and the display
/// line on which it starts.
#[derive(Debug)]
pub struct Chapter {
    pub index: usize,
    pub title: String,
    pub start_line: usize,
}

/// The mathematical value of a [`Chapter`].
pub struct ChapterSpec {
    pub index: nat,
    pub title: Seq<char>,
    pub start_line: nat,
}

impl View for Chapter {
    type V = ChapterSpec;

    open spec fn view(&self) -> ChapterSpec {
        ChapterSpec {
            index: self.index as nat,
            title: self.title@,
            start_line: self.start_line as nat,
        }
    }
}

impl DeepView for Chapter {
    type V = ChapterSpec;

    open spec fn deep_view(&self) -> ChapterSpec {
        self@
    }
}

impl Clone for Chapter {
    fn clone(&self) -> (copy: Chapter)
        ensures
            copy@ == self@,
    {
        Chapter { index: self.index, title: self.title.clone(), start_line: self.start_line }
    }
}

/// The chapters of a sequence of display lines: one for each marker line, in
/// order, numbered from zero and titled by the line's text.
pub open spec fn chapter_index(lines: Seq<LineSpec>) -> Seq<ChapterSpec>
    decreases lines.len(),
{
    if lines.len() == 0 {
        Seq::empty()
    } else {
        let before = chapter_index(lines.drop_last());
        if lines.last().is_chapter {
            before.push(
                ChapterSpec {
                    index: before.len(),
                    title: lines.last().content,
                    start_line: (lines.len() - 1) as nat,
                },
            )
        } else {
            before
        }
    }
}

/// Every chapter carries its ordinal and starts on a marker line whose text
/// is its title; the start lines rise strictly.
pub open spec fn chapters_sound(lines: Seq<LineSpec>, chapters: Seq<ChapterSpec>) -> bool {
    &&& forall|k: int|
        0 <= k < chapters.len() ==> {
            &&& (#[trigger] chapters[k]).index == k
            &&& chapters[k].start_line < lines.len()
            &&& lines[chapters[k].start_line as int].is_chapter
            &&& chapters[k].title == lines[chapters[k].start_line as int].content
        }
    &&& forall|j: int, k: int|
        0 <= j < k < chapters.len() ==> (#[trigger] chapters[j]).start_line < (
        #[trigger] chapters[k]).start_line
}

/// Every marker line is the start of some chapter.
pub open spec fn chapters_complete(lines: Seq<LineSpec>, chapters: Seq<ChapterSpec>) -> bool {
    forall|i: int|
        0 <= i < lines.len() && (#[trigger] lines[i]).is_chapter ==> exists|k: int|
            0 <= k < chapters.len() && (#[trigger] chapters[k]).start_line == i
}

/// The chapter index lists exactly the marker lines, each once, in rising
/// order.
pub proof fn lemma_chapter_index(lines: Seq<LineSpec>)
    ensures
        chapters_sound(lines, chapter_index(lines)),
        chapters_complete(lines, chapter_index(lines)),
    decreases lines.len(),
{
    if lines.len() > 0 {
        let shorter = lines.drop_last();
        let before = chapter_index(shorter);
        let chapters = chapter_index(lines);
        lemma_chapter_index(shorter);
        assert forall|i: int| 0 <= i < lines.len() && (#[trigger] lines[i]).is_chapter implies exists|
            k: int,
        | 0 <= k < chapters.len() && (#[trigger] chapters[k]).start_line == i by {
            if i < shorter.len() {
                assert(shorter[i].is_chapter);
                let k = choose|k: int|
                    0 <= k < before.len() && (#[trigger] before[k]).start_line == i;
                assert(chapters[k].start_line == i);
            } else {
                assert(chapters[chapters.len() - 1].start_line == i);
            }
        }
        assert forall|k: int| 0 <= k < chapters.len() implies {
            &&& (#[trigger] chapters[k]).index == k
            &&& chapters[k].start_line < lines.len()
            &&& lines[chapters[k].start_line as int].is_chapter
            &&& chapters[k].title == lines[chapters[k].start_line as int].content
        } by {
            if k < before.len() {
                assert(chapters[k] == before[k]);
                assert(lines[before[k].start_line as int] == shorter[before[k].start_line as int]);
            }
        }
        assert forall|j: int, k: int| 0 <= j < k < chapters.len() implies (
        #[trigger] chapters[j]).start_line < (#[trigger] chapters[k]).start_line by {
            assert(chapters[j] == before[j]);
            if k < before.len() {
                assert(chapters[k] == before[k]);
            }
        }
    }
}

/// Builds the chapter index of a sequence of display lines.
pub fn build_chapters(lines: &Vec<Line>) -> (chapters: Vec<Chapter>)
    ensures
        chapters.deep_view() == chapter_index(lines.deep_view()),
{
    let mut chapters: Vec<Chapter> = Vec::new();
    let mut i: usize = 0;
    assert(chapters.deep_view() =~= chapter_index(lines.deep_view().take(0)));
    while i < lines.len()
        invariant
            i <= lines.len(),
            chapters.deep_view() == chapter_index(lines.deep_view().take(i as int)),
        decreases lines.len() - i,
    {
        let ghost prev = chapters.deep_view();
        proof {
            let upto = lines.deep_view().take(i + 1);
            assert(upto.drop_last() =~= lines.deep_view().take(i as int));
            assert(upto.last() == lines.deep_view()[i as int]);
        }
        if lines[i].is_chapter {
            let chapter = Chapter {
                index: chapters.len(),
                title: lines[i].content.clone(),
                start_line: i,
            };
            chapters.push(chapter);
            assert(chapters.deep_view() =~= prev.push(
                ChapterSpec {
                    index: prev.len(),
                    title: lines.deep_view()[i as int].content,
                    start_line: i as nat,
                },
            ));
        }
        i += 1;
    }
    assert(lines.deep_view().take(i as int) =~= lines.deep_view());
    chapters
}

/// How many of the chapters start at or before `position`.
pub open spec fn chapters_started(chapters: Seq<ChapterSpec>, position: nat) -> nat
    decreases chapters.len(),
{
    if chapters.len() == 0 {
        0
    } else {
        let before = chapters_started(chapters.drop_last(), position);
        if chapters.last().start_line <= position {
            before + 1
        } else {
            before
        }
    }
}

/// The ordinal of the chapter that a position belongs to: the last chapter
/// that starts at or before it, and the first chapter for a position that
/// precedes every chapter.
pub open spec fn chapter_at(chapters: Seq<ChapterSpec>, position: nat) -> int {
    if chapters_started(chapters, position) == 0 {
        0
    } else {
        chapters_started(chapters, position) - 1
    }
}

/// The start lines of `chapters` rise strictly.
pub open spec fn starts_rising(chapters: Seq<ChapterSpec>) -> bool {
    forall|j: int, k: int|
        0 <= j < k < chapters.len() ==> (#[trigger] chapters[j]).start_line < (
        #[trigger] chapters[k]).start_line
}

/// With rising start lines, the chapters that have started by `position` are
/// a prefix of the list: exactly the first `chapters_started` of them.
pub proof fn lemma_chapters_started(chapters: Seq<ChapterSpec>, position: nat)
    requires
        starts_rising(chapters),
    ensures
        chapters_started(chapters, position) <= chapters.len(),
        forall|k: int|
            0 <= k < chapters.len() ==> ((#[trigger] chapters[k]).start_line <= position <==> k
                < chapters_started(chapters, position)),
    decreases chapters.len(),
{
    if chapters.len() > 0 {
        let shorter = chapters.drop_last();
        assert forall|j: int, k: int| 0 <= j < k < shorter.len() implies (
        #[trigger] shorter[j]).start_line < (#[trigger] shorter[k]).start_line by {
            assert(shorter[j] == chapters[j]);
            assert(shorter[k] == chapters[k]);
        }
        lemma_chapters_started(shorter, position);
        let last = chapters.len() - 1;
        assert forall|k: int| 0 <= k < chapters.len() implies ((
        #[trigger] chapters[k]).start_line <= position <==> k < chapters_started(
            chapters,
            position,
        )) by {
            if k < last {
                assert(shorter[k] == chapters[k]);
                assert(chapters[k].start_line < chapters[last].start_line);
            }
            if chapters[last].start_line <= position {
                if last > 0 {
                    assert(shorter[last - 1] == chapters[last - 1]);
                    assert(chapters[last - 1].start_line < chapters[last].start_line);
                }
            }
        }
    }
}

/// A line belongs to chapter `k` when it lies at or after that chapter's start
/// line and before the start line of the next chapter.
pub proof fn lemma_chapter_at_within(chapters: Seq<ChapterSpec>, k: int, position: nat)
    requires
        starts_rising(chapters),
        0 <= k < chapters.len(),
        chapters[k].start_line <= position,
        k + 1 < chapters.len() ==> position < chapters[k + 1].start_line,
    ensures
        chapter_at(chapters, position) == k,
{
    lemma_chapters_started(chapters, position);
    let started = chapters_started(chapters, position) as int;
    assert(k < started);
    if k + 1 < chapters.len() {
        assert(!(chapters[k + 1].start_line <= position));
        assert(!(k + 1 < started));
    }
}

/// The titles of `chapters`, in order.
pub open spec fn chapter_titles(chapters: Seq<ChapterSpec>) -> Seq<Seq<char>> {
    chapters.map_values(|chapter: ChapterSpec| chapter.title)
}

/// The texts of the headings among `blocks`, in order.
pub open spec fn heading_titles(blocks: Seq<BlockSpec>) -> Seq<Seq<char>>
    decreases blocks.len(),
{
    if blocks.len() == 0 {
        Seq::empty()
    } else {
        let before = heading_titles(blocks.drop_last());
        match blocks.last() {
            BlockSpec::Heading(text) => before.push(text),
            BlockSpec::Body(_) => before,
        }
    }
}

/// Lines that hold no marker add no chapter.
pub proof fn lemma_body_lines_add_no_chapter(lines: Seq<LineSpec>, more: Seq<LineSpec>)
    requires
        forall|i: int| 0 <= i < more.len() ==> !(#[trigger] more[i]).is_chapter,
    ensures
        chapter_index(lines + more) == chapter_index(lines),
    decreases more.len(),
{
    if more.len() == 0 {
        assert(lines + more =~= lines);
    } else {
        assert((lines + more).drop_last() =~= lines + more.drop_last());
        assert((lines + more).last() == more[more.len() - 1]);
        lemma_body_lines_add_no_chapter(lines, more.drop_last());
    }
}

/// Whatever the line size, a document has one chapter for each of its
/// headings, in order and under the heading's text.
pub proof fn lemma_chapter_titles(blocks: Seq<BlockSpec>, size: nat)
    ensures
        chapter_titles(chapter_index(paginate_spec(blocks, size))) == heading_titles(blocks),
        chapter_index(paginate_spec(blocks, size)).len() == heading_titles(blocks).len(),
    decreases blocks.len(),
{
    if blocks.len() == 0 {
        assert(chapter_titles(chapter_index(paginate_spec(blocks, size))) =~= heading_titles(
            blocks,
        ));
    } else {
        let before = paginate_spec(blocks.drop_last(), size);
        let lines = paginate_spec(blocks, size);
        lemma_chapter_titles(blocks.drop_last(), size);
        match blocks.last() {
            BlockSpec::Heading(text) => {
                assert(lines =~= before.push(LineSpec { is_chapter: true, content: text }));
                assert(lines.drop_last() =~= before);
                assert(chapter_titles(chapter_index(lines)) =~= chapter_titles(
                    chapter_index(before),
                ).push(text));
            },
            BlockSpec::Body(text) => {
                lemma_body_lines_add_no_chapter(before, block_lines(blocks.last(), size));
            },
        }
    }
}

} // verus!
