//! Laws of pagination and of navigation, stated over the mathematical values
//! of the engine's types and proved.

use crate::blocks::LabeledBlock;
use crate::chapter::{
    chapter_at, chapter_index, lemma_chapter_at_within, lemma_chapter_index,
    lemma_chapter_titles, lemma_chapters_started, starts_rising,
};
use crate::error::ReaderError;
use crate::paginate::{paginate_spec, Line, LineSpec};
use crate::reader::{step_taken, ReaderModel};
use vstd::arithmetic::div_mod::lemma_div_is_ordered;
use vstd::prelude::*;

verus! {

/// Pagination is deterministic: two runs on documents of equal value, with
/// the same line size, give display lines of equal value, and so the same
/// chapters.
pub proof fn lemma_pagination_deterministic(
    first: Vec<LabeledBlock>,
    second: Vec<LabeledBlock>,
    line_size: usize,
    first_lines: Vec<Line>,
    second_lines: Vec<Line>,
)
    requires
        first.deep_view() == second.deep_view(),
        first_lines.deep_view() == paginate_spec(first.deep_view(), line_size as nat),
        second_lines.deep_view() == paginate_spec(second.deep_view(), line_size as nat),
    ensures
        first_lines.deep_view() == second_lines.deep_view(),
        chapter_index(first_lines.deep_view()) == chapter_index(second_lines.deep_view()),
{
}

/// The start lines of the chapters rise strictly, and every line from a
/// chapter's start line up to the line before the next chapter's start line
/// belongs to that chapter.
pub proof fn lemma_chapters_partition_lines(lines: Seq<LineSpec>, k: int, line: nat)
    requires
        0 <= k < chapter_index(lines).len(),
        chapter_index(lines)[k].start_line <= line,
        k + 1 < chapter_index(lines).len() ==> line < chapter_index(lines)[k + 1].start_line,
    ensures
        starts_rising(chapter_index(lines)),
        chapter_at(chapter_index(lines), line) == k,
{
    lemma_chapter_index(lines);
    lemma_chapter_at_within(chapter_index(lines), k, line);
}

/// Moving the cursor to a line of the document and reading there gives the
/// text of that line.
pub proof fn lemma_set_position_then_get_line(reader: ReaderModel, n: nat)
    requires
        n < reader.total_lines(),
    ensures
        reader.set_position(n) is Ok,
        reader.set_position(n)->Ok_0.line() == Some(reader.lines()[n as int].content),
        reader.set_position(n)->Ok_0.lines() == reader.lines(),
{
}

/// The reader after `times` steps to the next line, or the error of the
/// first step that failed.
pub open spec fn next_lines(reader: ReaderModel, times: nat) -> Result<ReaderModel, ReaderError>
    decreases times,
{
    if times == 0 {
        Ok(reader)
    } else {
        match next_lines(reader, (times - 1) as nat) {
            Ok(moved) => moved.next_line(),
            Err(error) => Err(error),
        }
    }
}

/// From the first line, stepping to the next line `times` times, for any
/// number below the number of lines, reaches line `times`.
pub proof fn lemma_next_line_walks_the_document(reader: ReaderModel, times: nat)
    requires
        reader.position == 0,
        times < reader.total_lines(),
    ensures
        next_lines(reader, times) == Ok::<ReaderModel, ReaderError>(reader.with_position(times)),
    decreases times,
{
    if times > 0 {
        lemma_next_line_walks_the_document(reader, (times - 1) as nat);
        let moved = reader.with_position((times - 1) as nat);
        assert(moved.next_line() == Ok::<ReaderModel, ReaderError>(reader.with_position(times)));
    } else {
        assert(reader.with_position(0) == reader);
    }
}

/// On the last line a step to the next line fails as out of bounds and
/// leaves the cursor where it is; so does a step to the line before on the
/// first line.
pub proof fn lemma_line_steps_stop_at_the_ends(
    reader: ReaderModel,
    after: ReaderModel,
    result: Result<(), ReaderError>,
)
    requires
        reader.wf(),
    ensures
        reader.position + 1 == reader.total_lines() && step_taken(
            reader.next_line(),
            reader,
            after,
            result,
        ) ==> result == Err::<(), ReaderError>(ReaderError::OutOfBounds) && after.position
            == reader.position,
        reader.position == 0 && step_taken(reader.prev_line(), reader, after, result) ==> result
            == Err::<(), ReaderError>(ReaderError::OutOfBounds) && after.position == 0,
{
}

/// From any line of chapter `k`, the step to the next chapter lands on the
/// start line of chapter `k + 1`; in the last chapter it fails for want of a
/// chapter and the reader stays as it is.
pub proof fn lemma_next_chapter(
    reader: ReaderModel,
    k: int,
    after: ReaderModel,
    result: Result<(), ReaderError>,
)
    requires
        0 <= k < reader.chapters().len(),
        reader.chapters()[k].start_line <= reader.position,
        k + 1 < reader.chapters().len() ==> reader.position < reader.chapters()[k + 1].start_line,
        step_taken(reader.next_chapter(), reader, after, result),
    ensures
        reader.current_chapter() == k,
        k + 1 < reader.chapters().len() ==> result is Ok && after == reader.with_position(
            reader.chapters()[k + 1].start_line,
        ),
        k + 1 == reader.chapters().len() ==> result == Err::<(), ReaderError>(
            ReaderError::NoAdjacentChapter,
        ) && after == reader,
{
    lemma_chapters_partition_lines(reader.lines(), k, reader.position);
}

/// From any line of chapter `k`, the step to the chapter before lands on the
/// start line of chapter `k - 1`; in the first chapter it fails for want of a
/// chapter and the reader stays as it is.
pub proof fn lemma_prev_chapter(
    reader: ReaderModel,
    k: int,
    after: ReaderModel,
    result: Result<(), ReaderError>,
)
    requires
        0 <= k < reader.chapters().len(),
        reader.chapters()[k].start_line <= reader.position,
        k + 1 < reader.chapters().len() ==> reader.position < reader.chapters()[k + 1].start_line,
        step_taken(reader.prev_chapter(), reader, after, result),
    ensures
        k > 0 ==> result is Ok && after == reader.with_position(
            reader.chapters()[k - 1].start_line,
        ),
        k == 0 ==> result == Err::<(), ReaderError>(ReaderError::NoAdjacentChapter) && after
            == reader,
{
    lemma_chapters_partition_lines(reader.lines(), k, reader.position);
}

/// Every navigation step leaves the cursor on a line of the document.
pub proof fn lemma_steps_keep_the_cursor_in_range(reader: ReaderModel, n: nat)
    requires
        reader.wf(),
    ensures
        reader.set_position(n) matches Ok(moved) ==> moved.wf(),
        reader.next_line() matches Ok(moved) ==> moved.wf(),
        reader.prev_line() matches Ok(moved) ==> moved.wf(),
        reader.next_chapter() matches Ok(moved) ==> moved.wf(),
        reader.prev_chapter() matches Ok(moved) ==> moved.wf(),
{
    lemma_chapter_index(reader.lines());
    let chapters = reader.chapters();
    let current = reader.current_chapter();
    if current + 1 < chapters.len() {
        assert(chapters[current + 1].start_line < reader.total_lines());
    }
    if 0 < current < chapters.len() {
        assert(chapters[current - 1].start_line < reader.total_lines());
    }
}

/// The progress does not fall as the cursor moves forward through the
/// document, is zero on the first line, and stays below the whole.
pub proof fn lemma_progress_rises(earlier: ReaderModel, later: ReaderModel)
    requires
        earlier.wf(),
        later.wf(),
        earlier.lines() == later.lines(),
        earlier.position <= later.position,
    ensures
        earlier.progress() <= later.progress(),
        earlier.position == 0 ==> earlier.progress() == 0,
        later.progress() < 10000,
        later.total_lines() > 0 ==> later.progress() == later.position * 10000 / later.total_lines(),
{
    let total = earlier.total_lines();
    if total > 0 {
        assert(earlier.position * 10000 <= later.position * 10000);
        lemma_div_is_ordered(
            (earlier.position * 10000) as int,
            (later.position * 10000) as int,
            total as int,
        );
        assert(later.position * 10000 / total < 10000) by (nonlinear_arith)
            requires
                0 <= later.position < total,
        ;
    }
}

/// Paginating anew with another line size keeps the cursor in the chapter it
/// was in: it lands on the first line of the chapter with the same ordinal
/// and the same title.
pub proof fn lemma_repaginate_keeps_the_chapter(reader: ReaderModel, line_size: nat)
    requires
        reader.wf(),
        line_size > 0,
    ensures
        reader.repaginate(line_size).wf(),
        reader.repaginate(line_size).blocks == reader.blocks,
        reader.repaginate(line_size).line_size == line_size,
        reader.repaginate(line_size).chapters().len() == reader.chapters().len(),
        reader.chapters().len() > 0 ==> {
            let after = reader.repaginate(line_size);
            let current = reader.current_chapter();
            &&& 0 <= current < reader.chapters().len()
            &&& after.current_chapter() == current
            &&& after.position == after.chapters()[current].start_line
            &&& after.chapters()[current].title == reader.chapters()[current].title
        },
{
    let after = reader.repaginate(line_size);
    let resized = ReaderModel { line_size, position: 0, ..reader };
    let current = reader.current_chapter();
    lemma_chapter_titles(reader.blocks, reader.line_size);
    lemma_chapter_titles(reader.blocks, line_size);
    lemma_chapter_index(reader.lines());
    lemma_chapter_index(resized.lines());
    lemma_chapters_started(reader.chapters(), reader.position);
    assert(after.lines() == resized.lines());
    if reader.chapters().len() > 0 {
        let chapters = after.chapters();
        assert(chapters[current].start_line < after.total_lines());
        lemma_chapter_at_within(chapters, current, chapters[current].start_line);
        let old_titles = reader.chapters().map_values(|c: crate::chapter::ChapterSpec| c.title);
        let new_titles = chapters.map_values(|c: crate::chapter::ChapterSpec| c.title);
        assert(old_titles[current] == new_titles[current]);
    }
}

} // verus!
