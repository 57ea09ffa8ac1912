//! The reader: an open document with its display lines, its chapters and a
//! cursor, and the steps that move the cursor.

use crate::blocks::{BlockSpec, LabeledBlock};
use crate::chapter::{
    build_chapters, chapter_at, chapter_index, chapters_started, lemma_chapter_index, Chapter,
    ChapterSpec,
};
use crate::error::ReaderError;
use crate::paginate::{paginate, paginate_spec, Line, LineSpec};
use vstd::prelude::*;

verus! {

/// The mathematical value of a [`NovelReader`]: the document as loaded, the
/// line size it is paginated with, and the reading position. The display
/// lines and the chapters follow from these.
pub struct ReaderModel {
    pub novel_id: i64,
    pub novel_path: Seq<char>,
    pub blocks: Seq<BlockSpec>,
    pub line_size: nat,
    pub position: nat,
}

/// A stored position brought into the range of a document of `total` lines.
pub open spec fn clamp_position(position: nat, total: nat) -> nat {
    if total == 0 {
        0
    } else if position >= total {
        (total - 1) as nat
    } else {
        position
    }
}

impl ReaderModel {
    /// The display lines of the document.
    pub open spec fn lines(self) -> Seq<LineSpec> {
        paginate_spec(self.blocks, self.line_size)
    }

    /// The chapter index of the document.
    pub open spec fn chapters(self) -> Seq<ChapterSpec> {
        chapter_index(self.lines())
    }

    /// The number of display lines.
    pub open spec fn total_lines(self) -> nat {
        self.lines().len()
    }

    /// The line size is positive, and the position is a line of the
    /// document, or zero where the document has no line.
    pub open spec fn wf(self) -> bool {
        &&& self.line_size > 0
        &&& (self.position < self.total_lines() || (self.total_lines() == 0 && self.position == 0))
    }

    /// The same reader with the cursor on line `position`.
    pub open spec fn with_position(self, position: nat) -> ReaderModel {
        ReaderModel { position, ..self }
    }

    /// The text of the line under the cursor.
    pub open spec fn line(self) -> Option<Seq<char>> {
        if self.position < self.total_lines() {
            Some(self.lines()[self.position as int].content)
        } else {
            None
        }
    }

    /// The move of the cursor to line `position`: possible where the document
    /// has that line.
    pub open spec fn set_position(self, position: nat) -> Result<ReaderModel, ReaderError> {
        if position < self.total_lines() {
            Ok(self.with_position(position))
        } else {
            Err(ReaderError::OutOfBounds)
        }
    }

    /// The step to the next line: possible anywhere but on the last line.
    pub open spec fn next_line(self) -> Result<ReaderModel, ReaderError> {
        if self.position + 1 < self.total_lines() {
            Ok(self.with_position(self.position + 1))
        } else {
            Err(ReaderError::OutOfBounds)
        }
    }

    /// The step to the line before: possible anywhere but on the first line.
    pub open spec fn prev_line(self) -> Result<ReaderModel, ReaderError> {
        if self.position > 0 {
            Ok(self.with_position((self.position - 1) as nat))
        } else {
            Err(ReaderError::OutOfBounds)
        }
    }

    /// The ordinal of the chapter under the cursor.
    pub open spec fn current_chapter(self) -> int {
        chapter_at(self.chapters(), self.position)
    }

    /// The step to the start of the next chapter: possible where a chapter
    /// follows the one under the cursor.
    pub open spec fn next_chapter(self) -> Result<ReaderModel, ReaderError> {
        let next = self.current_chapter() + 1;
        if next < self.chapters().len() {
            Ok(self.with_position(self.chapters()[next].start_line))
        } else {
            Err(ReaderError::NoAdjacentChapter)
        }
    }

    /// The step to the start of the chapter before: possible where a chapter
    /// precedes the one under the cursor.
    pub open spec fn prev_chapter(self) -> Result<ReaderModel, ReaderError> {
        let current = self.current_chapter();
        if 0 < current < self.chapters().len() {
            Ok(self.with_position(self.chapters()[current - 1].start_line))
        } else {
            Err(ReaderError::NoAdjacentChapter)
        }
    }

    /// The same document paginated with another line size. The cursor goes to
    /// the start of the chapter it was in, or to the first line where the
    /// document has no chapter.
    pub open spec fn repaginate(self, line_size: nat) -> ReaderModel {
        let resized = ReaderModel { line_size, position: 0, ..self };
        let current = self.current_chapter();
        if current < resized.chapters().len() {
            resized.with_position(resized.chapters()[current].start_line)
        } else {
            resized
        }
    }

    /// The share of the document that lies before the cursor, in hundredths
    /// of a percent, rounded down.
    pub open spec fn progress(self) -> nat {
        if self.total_lines() == 0 {
            0
        } else {
            self.position * 10000 / self.total_lines()
        }
    }
}

/// How a navigation step shows in the reader: where the step is possible, the
/// reader takes the new state and the call returns `Ok`; where it is not, the
/// reader stays as it was and the call returns the error.
pub open spec fn step_taken(
    step: Result<ReaderModel, ReaderError>,
    before: ReaderModel,
    after: ReaderModel,
    result: Result<(), ReaderError>,
) -> bool {
    match step {
        Ok(next) => result is Ok && after == next,
        Err(error) => result == Err::<(), ReaderError>(error) && after == before,
    }
}

/// What a reader shows of itself on request: the document's identity, its
/// chapters, the cursor, the number of lines, the chapter under the cursor
/// where there is any, and the progress.
pub struct ReaderSnapshot {
    pub novel_id: i64,
    pub novel_path: String,
    pub chapters: Vec<Chapter>,
    pub read_position: usize,
    pub total_lines: usize,
    pub current_chapter: Option<Chapter>,
    pub progress_basis_points: u64,
}

/// The mathematical value of a [`ReaderSnapshot`].
pub struct SnapshotSpec {
    pub novel_id: i64,
    pub novel_path: Seq<char>,
    pub chapters: Seq<ChapterSpec>,
    pub read_position: nat,
    pub total_lines: nat,
    pub current_chapter: Option<ChapterSpec>,
    pub progress_basis_points: nat,
}

impl View for ReaderSnapshot {
    type V = SnapshotSpec;

    open spec fn view(&self) -> SnapshotSpec {
        SnapshotSpec {
            novel_id: self.novel_id,
            novel_path: self.novel_path@,
            chapters: self.chapters.deep_view(),
            read_position: self.read_position as nat,
            total_lines: self.total_lines as nat,
            current_chapter: match self.current_chapter {
                Some(chapter) => Some(chapter@),
                None => None,
            },
            progress_basis_points: self.progress_basis_points as nat,
        }
    }
}

impl ReaderModel {
    /// What the reader shows of itself on request.
    pub open spec fn snapshot(self) -> SnapshotSpec {
        SnapshotSpec {
            novel_id: self.novel_id,
            novel_path: self.novel_path,
            chapters: self.chapters(),
            read_position: self.position,
            total_lines: self.total_lines(),
            current_chapter: if self.chapters().len() > 0 {
                Some(self.chapters()[self.current_chapter()])
            } else {
                None
            },
            progress_basis_points: self.progress(),
        }
    }
}

/// The open document with its reading cursor.
pub struct NovelReader {
    novel_id: i64,
    novel_path: String,
    blocks: Vec<LabeledBlock>,
    line_size: usize,
    lines: Vec<Line>,
    chapters: Vec<Chapter>,
    read_position: usize,
}

impl View for NovelReader {
    type V = ReaderModel;

    open spec fn view(&self) -> ReaderModel {
        self.model()
    }
}

impl NovelReader {
    /// The mathematical value of the reader.
    pub closed spec fn model(&self) -> ReaderModel {
        ReaderModel {
            novel_id: self.novel_id,
            novel_path: self.novel_path@,
            blocks: self.blocks.deep_view(),
            line_size: self.line_size as nat,
            position: self.read_position as nat,
        }
    }

    #[verifier::type_invariant]
    spec fn consistent(&self) -> bool {
        &&& self.lines.deep_view() == self.model().lines()
        &&& self.chapters.deep_view() == self.model().chapters()
        &&& self.model().wf()
    }

    /// A reader over a loaded document, paginated with `line_size`. The
    /// stored position is brought into the range of the document.
    pub fn from_blocks(
        novel_id: i64,
        novel_path: String,
        blocks: Vec<LabeledBlock>,
        read_position: usize,
        line_size: usize,
    ) -> (reader: NovelReader)
        requires
            line_size > 0,
        ensures
            reader@ == (ReaderModel {
                novel_id,
                novel_path: novel_path@,
                blocks: blocks.deep_view(),
                line_size: line_size as nat,
                position: clamp_position(
                    read_position as nat,
                    paginate_spec(blocks.deep_view(), line_size as nat).len(),
                ),
            }),
            reader@.wf(),
    {
        let lines = paginate(&blocks, line_size);
        let chapters = build_chapters(&lines);
        let total = lines.len();
        let position = if total == 0 {
            0
        } else if read_position >= total {
            total - 1
        } else {
            read_position
        };
        NovelReader { novel_id, novel_path, blocks, line_size, lines, chapters, read_position: position }
    }

    /// The text of the line under the cursor; `None` only where the document
    /// has no line.
    pub fn get_line(&self) -> (line: Option<&str>)
        ensures
            self@.wf(),
            match line {
                Some(text) => self@.line() == Some(text@),
                None => self@.line() is None,
            },
    {
        proof {
            use_type_invariant(self);
        }
        if self.read_position >= self.lines.len() {
            return None;
        }
        Some(self.lines[self.read_position].content.as_str())
    }

    /// Moves the cursor to line `read_position`.
    pub fn set_read_position(&mut self, read_position: usize) -> (result: Result<(), ReaderError>)
        ensures
            step_taken(
                old(self)@.set_position(read_position as nat),
                old(self)@,
                final(self)@,
                result,
            ),
            final(self)@.wf(),
    {
        proof {
            use_type_invariant(&*self);
        }
        if read_position >= self.lines.len() {
            return Err(ReaderError::OutOfBounds);
        }
        self.read_position = read_position;
        Ok(())
    }

    /// Moves the cursor to the next line.
    pub fn next_line(&mut self) -> (result: Result<(), ReaderError>)
        ensures
            step_taken(old(self)@.next_line(), old(self)@, final(self)@, result),
            final(self)@.wf(),
    {
        proof {
            use_type_invariant(&*self);
        }
        if self.lines.len() == 0 || self.read_position >= self.lines.len() - 1 {
            return Err(ReaderError::OutOfBounds);
        }
        self.read_position = self.read_position + 1;
        Ok(())
    }

    /// Moves the cursor to the line before.
    pub fn prev_line(&mut self) -> (result: Result<(), ReaderError>)
        ensures
            step_taken(old(self)@.prev_line(), old(self)@, final(self)@, result),
            final(self)@.wf(),
    {
        proof {
            use_type_invariant(&*self);
        }
        if self.read_position == 0 {
            return Err(ReaderError::OutOfBounds);
        }
        self.read_position = self.read_position - 1;
        Ok(())
    }

    fn current_ordinal(&self) -> (ordinal: usize)
        ensures
            ordinal == self@.current_chapter(),
            self.chapters.len() > 0 ==> ordinal < self.chapters.len(),
            self.chapters.len() == 0 ==> ordinal == 0,
    {
        let ghost chapters = self.chapters.deep_view();
        let ghost position = self.read_position as nat;
        proof {
            use_type_invariant(self);
        }
        let mut started: usize = 0;
        let mut i: usize = 0;
        assert(chapters.take(0) =~= Seq::<ChapterSpec>::empty());
        while i < self.chapters.len()
            invariant
                chapters == self.chapters.deep_view(),
                position == self.read_position as nat,
                started <= i <= self.chapters.len(),
                started == chapters_started(chapters.take(i as int), position),
            decreases self.chapters.len() - i,
        {
            proof {
                let upto = chapters.take(i + 1);
                assert(upto.drop_last() =~= chapters.take(i as int));
                assert(upto.last() == chapters[i as int]);
            }
            if self.chapters[i].start_line <= self.read_position {
                started = started + 1;
            }
            i += 1;
        }
        assert(chapters.take(i as int) =~= chapters);
        if started == 0 {
            0
        } else {
            started - 1
        }
    }

    /// The chapter under the cursor: the last one that starts at or before
    /// it, and the first chapter where the cursor precedes every chapter.
    pub fn current_chapter(&self) -> (chapter: &Chapter)
        requires
            self@.chapters().len() > 0,
        ensures
            self@.wf(),
            0 <= self@.current_chapter() < self@.chapters().len(),
            chapter@ == self@.chapters()[self@.current_chapter()],
    {
        proof {
            use_type_invariant(self);
        }
        let ordinal = self.current_ordinal();
        &self.chapters[ordinal]
    }

    /// Moves the cursor to the first line of the next chapter.
    pub fn next_chapter(&mut self) -> (result: Result<(), ReaderError>)
        ensures
            step_taken(old(self)@.next_chapter(), old(self)@, final(self)@, result),
            final(self)@.wf(),
    {
        proof {
            use_type_invariant(&*self);
            lemma_chapter_index(self@.lines());
        }
        let ordinal = self.current_ordinal();
        if self.chapters.len() == 0 || ordinal >= self.chapters.len() - 1 {
            return Err(ReaderError::NoAdjacentChapter);
        }
        let target = self.chapters[ordinal + 1].start_line;
        assert(target == self@.chapters()[ordinal + 1].start_line);
        self.read_position = target;
        Ok(())
    }

    /// Moves the cursor to the first line of the chapter before.
    pub fn prev_chapter(&mut self) -> (result: Result<(), ReaderError>)
        ensures
            step_taken(old(self)@.prev_chapter(), old(self)@, final(self)@, result),
            final(self)@.wf(),
    {
        proof {
            use_type_invariant(&*self);
            lemma_chapter_index(self@.lines());
        }
        let ordinal = self.current_ordinal();
        if ordinal == 0 {
            return Err(ReaderError::NoAdjacentChapter);
        }
        let target = self.chapters[ordinal - 1].start_line;
        assert(target == self@.chapters()[ordinal - 1].start_line);
        self.read_position = target;
        Ok(())
    }

    /// Paginates the document anew with another line size, and moves the
    /// cursor to the start of the chapter it was in.
    pub fn repaginate(&mut self, line_size: usize)
        requires
            line_size > 0,
        ensures
            final(self)@ == old(self)@.repaginate(line_size as nat),
            final(self)@.wf(),
    {
        proof {
            use_type_invariant(&*self);
        }
        let ordinal = self.current_ordinal();
        let lines = paginate(&self.blocks, line_size);
        let chapters = build_chapters(&lines);
        let position = if ordinal < chapters.len() {
            chapters[ordinal].start_line
        } else {
            0
        };
        proof {
            lemma_chapter_index(lines.deep_view());
            if ordinal < chapters.len() {
                assert(chapters.deep_view()[ordinal as int].start_line < lines.len());
            }
        }
        let ghost document = self.blocks.deep_view();
        let mut taken = NovelReader::from_blocks(0, String::new(), Vec::new(), 0, 1);
        std::mem::swap(self, &mut taken);
        let NovelReader { novel_id, novel_path, blocks, .. } = taken;
        assert(blocks.deep_view() == document);
        *self = NovelReader {
            novel_id,
            novel_path,
            blocks,
            line_size,
            lines,
            chapters,
            read_position: position,
        };
    }

    /// The share of the document that lies before the cursor, in hundredths
    /// of a percent, rounded down.
    pub fn progress_basis_points(&self) -> (progress: u64)
        ensures
            self@.wf(),
            progress == self@.progress(),
            progress < 10000,
    {
        proof {
            use_type_invariant(self);
        }
        let total = self.lines.len();
        if total == 0 {
            return 0;
        }
        let position = self.read_position;
        assert(position * 10000 / (total as int) < 10000) by (nonlinear_arith)
            requires
                0 <= position < total,
        ;
        let scaled: u128 = position as u128 * 10000;
        (scaled / (total as u128)) as u64
    }

    /// The id under which the novel stands on the shelf.
    pub fn novel_id(&self) -> (id: i64)
        ensures
            id == self@.novel_id,
    {
        self.novel_id
    }

    /// The path of the file that the document was loaded from.
    pub fn novel_path(&self) -> (path: &str)
        ensures
            path@ == self@.novel_path,
    {
        self.novel_path.as_str()
    }

    /// The line size that the document is paginated with.
    pub fn line_size(&self) -> (size: usize)
        ensures
            size == self@.line_size,
            size > 0,
    {
        proof {
            use_type_invariant(self);
        }
        self.line_size
    }

    /// The line under the cursor.
    pub fn read_position(&self) -> (position: usize)
        ensures
            position == self@.position,
            self@.wf(),
    {
        proof {
            use_type_invariant(self);
        }
        self.read_position
    }

    /// The number of display lines.
    pub fn total_lines(&self) -> (total: usize)
        ensures
            total == self@.total_lines(),
    {
        proof {
            use_type_invariant(self);
        }
        self.lines.len()
    }

    /// The document as loaded.
    pub fn blocks(&self) -> (blocks: &Vec<LabeledBlock>)
        ensures
            blocks.deep_view() == self@.blocks,
    {
        &self.blocks
    }

    /// The display lines.
    pub fn lines(&self) -> (lines: &Vec<Line>)
        ensures
            lines.deep_view() == self@.lines(),
    {
        proof {
            use_type_invariant(self);
        }
        &self.lines
    }

    /// The chapter index.
    pub fn chapters(&self) -> (chapters: &Vec<Chapter>)
        ensures
            chapters.deep_view() == self@.chapters(),
    {
        proof {
            use_type_invariant(self);
        }
        &self.chapters
    }

    /// What the reader shows of itself on request.
    pub fn snapshot(&self) -> (snapshot: ReaderSnapshot)
        ensures
            snapshot@ == self@.snapshot(),
            self@.wf(),
    {
        proof {
            use_type_invariant(self);
        }
        let mut chapters: Vec<Chapter> = Vec::new();
        let mut i: usize = 0;
        while i < self.chapters.len()
            invariant
                i <= self.chapters.len(),
                chapters.deep_view() == self.chapters.deep_view().take(i as int),
            decreases self.chapters.len() - i,
        {
            let ghost before = chapters.deep_view();
            chapters.push(self.chapters[i].clone());
            assert(chapters.deep_view() =~= before.push(self.chapters.deep_view()[i as int]));
            assert(chapters.deep_view() =~= self.chapters.deep_view().take(i + 1));
            i += 1;
        }
        assert(self.chapters.deep_view().take(i as int) =~= self.chapters.deep_view());
        let current_chapter = if self.chapters.len() > 0 {
            Some(self.current_chapter().clone())
        } else {
            None
        };
        ReaderSnapshot {
            novel_id: self.novel_id,
            novel_path: self.novel_path.clone(),
            chapters,
            read_position: self.read_position,
            total_lines: self.lines.len(),
            current_chapter,
            progress_basis_points: self.progress_basis_points(),
        }
    }
}

} // verus!
