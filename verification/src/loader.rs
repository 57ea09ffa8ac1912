//! Loading a document from what was read of its file, whatever its format.

use crate::blocks::{BlockSpec, LabeledBlock};
use crate::chapter::{build_chapters, chapter_index, Chapter};
use crate::container::{
    blocks_result_is, book_blocks, load_container, ResourceSpec, SpineResource,
};
use crate::encoding::{decode_as, decode_outcome, guess_view, validate_encoding};
use crate::error::ReaderError;
use crate::format::{
    document_format, extension, format_of_extension, format_of_extension_of, DocumentFormat,
};
use crate::paginate::{paginate, paginate_spec, Line, LineSpec};
use crate::plain::{load_text, text_blocks};
use crate::reader::{clamp_position, NovelReader, ReaderModel};
use vstd::prelude::*;

verus! {

/// What was read of the file of a document, by its format: of a plain-text
/// file its bytes and the guess at their encoding, if any was found; of a
/// zipped book the entries of its spine, in order.
pub enum DocumentSource {
    PlainText { data: Vec<u8>, encoding: Option<String> },
    Container { resources: Vec<SpineResource> },
}

/// The mathematical value of a [`DocumentSource`].
pub enum SourceSpec {
    PlainText { data: Seq<u8>, encoding: Option<Seq<char>> },
    Container { resources: Seq<ResourceSpec> },
}

impl View for DocumentSource {
    type V = SourceSpec;

    open spec fn view(&self) -> SourceSpec {
        match self {
            DocumentSource::PlainText { data, encoding } => SourceSpec::PlainText {
                data: data@,
                encoding: guess_view(*encoding),
            },
            DocumentSource::Container { resources } => SourceSpec::Container {
                resources: resources.deep_view(),
            },
        }
    }
}

impl SourceSpec {
    /// The format that the source is of.
    pub open spec fn format(self) -> DocumentFormat {
        match self {
            SourceSpec::PlainText { .. } => DocumentFormat::PlainText,
            SourceSpec::Container { .. } => DocumentFormat::Container,
        }
    }

    /// The blocks that the source loads as. Plain text is decoded under the
    /// guessed encoding, with replacement, and split into lines; with no
    /// usable guess it is of unsupported encoding. A book gives the blocks of
    /// its resources; one that is missing or corrupt is an input failure.
    pub open spec fn blocks(self) -> Result<Seq<BlockSpec>, ReaderError> {
        match self {
            SourceSpec::PlainText { data, encoding } => match decode_outcome(data, encoding) {
                Ok(text) => Ok(text_blocks(text)),
                Err(error) => Err(error),
            },
            SourceSpec::Container { resources } => book_blocks(resources),
        }
    }
}

impl DocumentSource {
    /// The format that the source is of.
    pub fn format(&self) -> (format: DocumentFormat)
        ensures
            format == self@.format(),
    {
        match self {
            DocumentSource::PlainText { .. } => DocumentFormat::PlainText,
            DocumentSource::Container { .. } => DocumentFormat::Container,
        }
    }
}

/// What the document at `path` loads as, from what was read of its file. A
/// path whose extension names no known format is of unsupported format, and
/// so is a source of another format than the path names.
pub open spec fn load_outcome(
    path: Seq<char>,
    source: SourceSpec,
) -> Result<Seq<BlockSpec>, ReaderError> {
    if format_of_extension(extension(path)) == Some(source.format()) {
        source.blocks()
    } else {
        Err(ReaderError::UnsupportedFormat)
    }
}

/// Loads a document from what was read of its file.
pub fn load_source(source: &DocumentSource) -> (result: Result<Vec<LabeledBlock>, ReaderError>)
    ensures
        blocks_result_is(result, source@.blocks()),
{
    match source {
        DocumentSource::PlainText { data, encoding } => {
            match decode_as(data, encoding) {
                Ok(text) => Ok(load_text(text.as_str())),
                Err(error) => Err(error),
            }
        },
        DocumentSource::Container { resources } => load_container(resources),
    }
}

/// Loads the document at `path` from what was read of its file: the
/// extension of the path tells the format, and the source must be of it.
pub fn load_blocks(
    path: &str,
    source: &DocumentSource,
) -> (result: Result<Vec<LabeledBlock>, ReaderError>)
    ensures
        blocks_result_is(result, load_outcome(path@, source@)),
{
    match document_format(path) {
        Ok(format) => {
            if format == source.format() {
                load_source(source)
            } else {
                Err(ReaderError::UnsupportedFormat)
            }
        },
        Err(error) => Err(error),
    }
}

/// The texts of `lines`, in order.
pub open spec fn line_texts(lines: Seq<LineSpec>) -> Seq<Seq<char>> {
    lines.map_values(|line: LineSpec| line.content)
}

/// The texts of the display lines, in order.
pub fn line_contents(lines: &Vec<Line>) -> (texts: Vec<String>)
    ensures
        texts.deep_view() == line_texts(lines.deep_view()),
{
    let mut texts: Vec<String> = Vec::new();
    let mut i: usize = 0;
    assert(texts.deep_view() =~= line_texts(lines.deep_view()).take(0));
    while i < lines.len()
        invariant
            i <= lines.len(),
            texts.deep_view() == line_texts(lines.deep_view()).take(i as int),
        decreases lines.len() - i,
    {
        let ghost before = texts.deep_view();
        texts.push(lines[i].content.clone());
        assert(texts.deep_view() =~= before.push(lines.deep_view()[i as int].content));
        assert(texts.deep_view() =~= line_texts(lines.deep_view()).take(i + 1));
        i += 1;
    }
    assert(line_texts(lines.deep_view()).take(i as int) =~= line_texts(lines.deep_view()));
    texts
}

/// What is asked of a file before it is taken in, given the extension of
/// its name and the guess at the encoding of its bytes. A file whose
/// extension names no known format is refused as of unsupported format; one
/// of a known format for which no encoding was found, as of unsupported
/// encoding.
pub fn check_novel_file(
    extension: &str,
    best: &Option<String>,
) -> (result: Result<DocumentFormat, ReaderError>)
    ensures
        result == match format_of_extension(extension@) {
            None => Err::<DocumentFormat, ReaderError>(ReaderError::UnsupportedFormat),
            Some(format) => if best is Some {
                Ok::<DocumentFormat, ReaderError>(format)
            } else {
                Err::<DocumentFormat, ReaderError>(ReaderError::UnsupportedEncoding)
            },
        },
{
    match format_of_extension_of(extension) {
        Err(error) => Err(error),
        Ok(format) => match validate_encoding(best) {
            Ok(()) => Ok(format),
            Err(error) => Err(error),
        },
    }
}

impl NovelReader {
    /// Loads the document at `path` from what was read of its file and
    /// reflows it: the texts of its display lines, and its chapters.
    pub fn read_lines(
        path: &str,
        source: &DocumentSource,
        line_size: usize,
    ) -> (result: Result<(Vec<String>, Vec<Chapter>), ReaderError>)
        requires
            line_size > 0,
        ensures
            match load_outcome(path@, source@) {
                Ok(blocks) => result matches Ok((texts, chapters)) && texts.deep_view()
                    == line_texts(paginate_spec(blocks, line_size as nat)) && chapters.deep_view()
                    == chapter_index(paginate_spec(blocks, line_size as nat)),
                Err(error) => result matches Err(found) && found == error,
            },
    {
        match load_blocks(path, source) {
            Err(error) => Err(error),
            Ok(blocks) => {
                let lines = paginate(&blocks, line_size);
                let chapters = build_chapters(&lines);
                let texts = line_contents(&lines);
                Ok((texts, chapters))
            },
        }
    }

    /// Opens the document at `novel_path` from what was read of its file,
    /// paginated with `line_size`, with the cursor on the stored position or,
    /// where the document is shorter, on its last line.
    pub fn new(
        novel_id: i64,
        novel_path: String,
        source: &DocumentSource,
        read_position: usize,
        line_size: usize,
    ) -> (result: Result<NovelReader, ReaderError>)
        requires
            line_size > 0,
        ensures
            match load_outcome(novel_path@, source@) {
                Ok(blocks) => result matches Ok(reader) && reader@ == (ReaderModel {
                    novel_id,
                    novel_path: novel_path@,
                    blocks,
                    line_size: line_size as nat,
                    position: clamp_position(
                        read_position as nat,
                        paginate_spec(blocks, line_size as nat).len(),
                    ),
                }) && reader@.wf(),
                Err(error) => result matches Err(found) && found == error,
            },
    {
        match load_blocks(novel_path.as_str(), source) {
            Err(error) => Err(error),
            Ok(blocks) => Ok(
                NovelReader::from_blocks(novel_id, novel_path, blocks, read_position, line_size),
            ),
        }
    }
}

} // verus!
