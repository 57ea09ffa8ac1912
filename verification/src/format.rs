//! The formats of documents, told by the names of their files.

use crate::error::ReaderError;
use crate::text::to_chars;
use vstd::prelude::*;

verus! {

/// The kinds of document that the engine loads.
#[derive(Clone, Copy, Debug, PartialEq, Eq, Structural)]
pub enum DocumentFormat {
    /// Plain text, in some encoding.
    PlainText,
    /// A zipped book: content resources in the order of its spine.
    Container,
}

/// The part of `path` after its last full stop; the whole of it where it
/// has none.
pub open spec fn extension(path: Seq<char>) -> Seq<char>
    decreases path.len(),
{
    if path.len() == 0 || path.last() == '.' {
        Seq::empty()
    } else {
        extension(path.drop_last()).push(path.last())
    }
}

/// The part of `name` before its first full stop; the whole of it where it
/// has none.
pub open spec fn stem(name: Seq<char>) -> Seq<char>
    decreases name.len(),
{
    if name.len() == 0 || name.first() == '.' {
        Seq::empty()
    } else {
        seq![name.first()] + stem(name.drop_first())
    }
}

/// The format that a file extension stands for.
pub open spec fn format_of_extension(extension: Seq<char>) -> Option<DocumentFormat> {
    if extension == seq!['t', 'x', 't'] {
        Some(DocumentFormat::PlainText)
    } else if extension == seq!['e', 'p', 'u', 'b'] {
        Some(DocumentFormat::Container)
    } else {
        None
    }
}

/// From index `from` on, `path` holds no full stop, and one stands just
/// before it unless it is the start: so the extension starts there.
pub proof fn lemma_extension_starts(path: Seq<char>, from: int)
    requires
        0 <= from <= path.len(),
        from == 0 || path[from - 1] == '.',
        forall|i: int| from <= i < path.len() ==> #[trigger] path[i] != '.',
    ensures
        extension(path) == path.subrange(from, path.len() as int),
    decreases path.len() - from,
{
    if from == path.len() {
        assert(path.subrange(from, path.len() as int) =~= Seq::<char>::empty());
    } else {
        let shorter = path.drop_last();
        assert forall|i: int| from <= i < shorter.len() implies #[trigger] shorter[i] != '.' by {
            assert(shorter[i] == path[i]);
        }
        lemma_extension_starts(shorter, from);
        assert(path.subrange(from, path.len() as int) =~= shorter.subrange(
            from,
            shorter.len() as int,
        ).push(path.last()));
    }
}

/// Up to index `to`, `name` holds no full stop, and one stands at `to`
/// unless it is the end: so the stem ends there.
pub proof fn lemma_stem_ends(name: Seq<char>, to: int)
    requires
        0 <= to <= name.len(),
        to == name.len() || name[to] == '.',
        forall|i: int| 0 <= i < to ==> #[trigger] name[i] != '.',
    ensures
        stem(name) == name.subrange(0, to),
    decreases to,
{
    if to == 0 {
        assert(name.subrange(0, to) =~= Seq::<char>::empty());
    } else {
        let rest = name.drop_first();
        assert forall|i: int| 0 <= i < to - 1 implies #[trigger] rest[i] != '.' by {
            assert(rest[i] == name[i + 1]);
        }
        lemma_stem_ends(rest, to - 1);
        assert(name.subrange(0, to) =~= seq![name.first()] + rest.subrange(0, to - 1));
    }
}

/// The format of a document, told by the extension of its file.
pub fn format_of_extension_of(extension: &str) -> (result: Result<DocumentFormat, ReaderError>)
    ensures
        result == match format_of_extension(extension@) {
            Some(format) => Ok::<DocumentFormat, ReaderError>(format),
            None => Err::<DocumentFormat, ReaderError>(ReaderError::UnsupportedFormat),
        },
{
    let chars = to_chars(extension);
    assert(chars@.subrange(0, chars@.len() as int) =~= extension@);
    chars_format(&chars, 0)
}

fn chars_format(chars: &Vec<char>, from: usize) -> (result: Result<DocumentFormat, ReaderError>)
    requires
        from <= chars@.len(),
    ensures
        result == match format_of_extension(chars@.subrange(from as int, chars@.len() as int)) {
            Some(format) => Ok::<DocumentFormat, ReaderError>(format),
            None => Err::<DocumentFormat, ReaderError>(ReaderError::UnsupportedFormat),
        },
{
    let ghost ext = chars@.subrange(from as int, chars@.len() as int);
    let n = chars.len() - from;
    if n == 3 && chars[from] == 't' && chars[from + 1] == 'x' && chars[from + 2] == 't' {
        assert(ext =~= seq!['t', 'x', 't']);
        Ok(DocumentFormat::PlainText)
    } else if n == 4 && chars[from] == 'e' && chars[from + 1] == 'p' && chars[from + 2] == 'u'
        && chars[from + 3] == 'b' {
        assert(ext =~= seq!['e', 'p', 'u', 'b']);
        Ok(DocumentFormat::Container)
    } else {
        proof {
            if ext == seq!['t', 'x', 't'] {
                assert(ext.len() == 3 && ext[0] == 't' && ext[1] == 'x' && ext[2] == 't');
            }
            if ext == seq!['e', 'p', 'u', 'b'] {
                assert(ext.len() == 4 && ext[0] == 'e' && ext[1] == 'p' && ext[2] == 'u' && ext[3]
                    == 'b');
            }
        }
        Err(ReaderError::UnsupportedFormat)
    }
}

/// The format of the document at `path`, told by what follows the last full
/// stop of the path.
pub fn document_format(path: &str) -> (result: Result<DocumentFormat, ReaderError>)
    ensures
        result == match format_of_extension(extension(path@)) {
            Some(format) => Ok::<DocumentFormat, ReaderError>(format),
            None => Err::<DocumentFormat, ReaderError>(ReaderError::UnsupportedFormat),
        },
{
    let chars = to_chars(path);
    let mut from: usize = chars.len();
    while from > 0 && chars[from - 1] != '.'
        invariant
            from <= chars@.len(),
            forall|i: int| from <= i < chars@.len() ==> #[trigger] chars@[i] != '.',
        decreases from,
    {
        from -= 1;
    }
    proof {
        lemma_extension_starts(chars@, from as int);
    }
    chars_format(&chars, from)
}

/// The title under which a file is listed: its name up to the first full
/// stop.
pub fn novel_title(filename: &str) -> (title: String)
    ensures
        title@ == stem(filename@),
{
    let chars = to_chars(filename);
    let mut to: usize = 0;
    while to < chars.len() && chars[to] != '.'
        invariant
            to <= chars@.len(),
            forall|i: int| 0 <= i < to ==> #[trigger] chars@[i] != '.',
        decreases chars@.len() - to,
    {
        to += 1;
    }
    proof {
        lemma_stem_ends(chars@, to as int);
    }
    crate::text::from_chars(&chars, 0, to)
}

} // verus!
