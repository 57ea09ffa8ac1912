//! Pagination: the reflow of a document into display lines of bounded length,
//! counted in code points.

use crate::blocks::{BlockSpec, LabeledBlock};
use vstd::arithmetic::div_mod::{lemma_fundamental_div_mod, lemma_fundamental_div_mod_converse};
use vstd::prelude::*;

verus! {

/// One display line: at most `line_size` code points of text, or a chapter
/// heading, which is never split.
pub struct Line {
    pub is_chapter: bool,
    pub content: String,
}

/// The mathematical value of a [`Line`].
pub struct LineSpec {
    pub is_chapter: bool,
    pub content: Seq<char>,
}

impl View for Line {
    type V = LineSpec;

    open spec fn view(&self) -> LineSpec {
        LineSpec { is_chapter: self.is_chapter, content: self.content@ }
    }
}

impl DeepView for Line {
    type V = LineSpec;

    open spec fn deep_view(&self) -> LineSpec {
        self@
    }
}

/// How many chunks of at most `size` code points a text of `len` code points
/// falls into: `len / size`, rounded up.
pub open spec fn chunk_count(len: nat, size: nat) -> nat
    recommends
        size > 0,
{
    ((len + size - 1) / (size as int)) as nat
}

/// The `i`-th chunk of `text`: the code points from `i * size` up to
/// `(i + 1) * size`, or up to the end of the text where that comes first.
pub open spec fn chunk(text: Seq<char>, size: nat, i: int) -> Seq<char> {
    let start = i * size;
    let end = if start + size <= text.len() {
        start + size
    } else {
        text.len() as int
    };
    text.subrange(start, end)
}

/// The body lines that a text falls into.
pub open spec fn body_lines(text: Seq<char>, size: nat) -> Seq<LineSpec> {
    Seq::new(
        chunk_count(text.len(), size),
        |i: int| LineSpec { is_chapter: false, content: chunk(text, size, i) },
    )
}

/// The display lines of one block.
pub open spec fn block_lines(block: BlockSpec, size: nat) -> Seq<LineSpec> {
    match block {
        BlockSpec::Heading(text) => seq![LineSpec { is_chapter: true, content: text }],
        BlockSpec::Body(text) => body_lines(text, size),
    }
}

/// The display lines of a document: those of its blocks, in order.
pub open spec fn paginate_spec(blocks: Seq<BlockSpec>, size: nat) -> Seq<LineSpec>
    decreases blocks.len(),
{
    if blocks.len() == 0 {
        Seq::empty()
    } else {
        paginate_spec(blocks.drop_last(), size) + block_lines(blocks.last(), size)
    }
}

/// The chunks that a text falls into.
pub open spec fn chunks(text: Seq<char>, size: nat) -> Seq<Seq<char>> {
    Seq::new(chunk_count(text.len(), size), |i: int| chunk(text, size, i))
}

/// `parts`, put end to end.
pub open spec fn concat(parts: Seq<Seq<char>>) -> Seq<char>
    decreases parts.len(),
{
    if parts.len() == 0 {
        Seq::empty()
    } else {
        concat(parts.drop_last()) + parts.last()
    }
}

/// The chunks cover the text and no more: the last one starts inside the
/// text, or there is none where the text is empty.
pub proof fn lemma_chunk_count(len: nat, size: nat)
    requires
        size > 0,
    ensures
        len <= chunk_count(len, size) * size,
        chunk_count(len, size) > 0 ==> (chunk_count(len, size) - 1) * size < len,
        len == 0 ==> chunk_count(len, size) == 0,
{
    let x = len + size - 1;
    let q = x / (size as int);
    lemma_fundamental_div_mod(x, size as int);
    assert(0 <= x % (size as int) < size);
    assert(x == size * q + x % (size as int));
    assert(q >= 0) by (nonlinear_arith)
        requires
            x == size * q + x % (size as int),
            x % (size as int) < size,
            x >= 0,
            size > 0,
    ;
    assert(len <= q * size && (q > 0 ==> (q - 1) * size < len) && (len == 0 ==> q == 0))
        by (nonlinear_arith)
        requires
            x == len + size - 1,
            x == size * q + x % (size as int),
            0 <= x % (size as int) < size,
            size > 0,
            q >= 0,
    ;
}

/// Every chunk holds at least one code point and at most `size` of them,
/// and every chunk but the last holds exactly `size`.
pub proof fn lemma_chunk_lengths(text: Seq<char>, size: nat, i: int)
    requires
        size > 0,
        0 <= i < chunk_count(text.len(), size),
    ensures
        i * size < text.len(),
        1 <= chunk(text, size, i).len() <= size,
        i + 1 < chunk_count(text.len(), size) ==> chunk(text, size, i).len() == size,
{
    let count = chunk_count(text.len(), size) as int;
    lemma_chunk_count(text.len(), size);
    assert(i * size <= (count - 1) * size && (i + 1 < count ==> (i + 1) * size <= (count - 1)
        * size) && (i + 1) * size == i * size + size && i * size >= 0) by (nonlinear_arith)
        requires
            0 <= i < count,
            size > 0,
    ;
}

/// The first `upto` chunks, put end to end, are the text up to where the
/// last of them ends.
pub proof fn lemma_chunks_cover_prefix(text: Seq<char>, size: nat, upto: int)
    requires
        size > 0,
        0 <= upto <= chunk_count(text.len(), size),
    ensures
        concat(chunks(text, size).take(upto)) == text.subrange(
            0,
            if upto * size <= text.len() {
                upto * size
            } else {
                text.len() as int
            },
        ),
    decreases upto,
{
    let parts = chunks(text, size).take(upto);
    if upto == 0 {
        assert(concat(parts) =~= text.subrange(0, 0));
    } else {
        lemma_chunks_cover_prefix(text, size, upto - 1);
        lemma_chunk_lengths(text, size, upto - 1);
        assert(parts.drop_last() =~= chunks(text, size).take(upto - 1));
        assert(parts.last() == chunk(text, size, upto - 1));
        assert(upto * size == (upto - 1) * size + size) by (nonlinear_arith);
        let end = if upto * size <= text.len() {
            upto * size
        } else {
            text.len() as int
        };
        assert(concat(parts) =~= text.subrange(0, end));
    }
}

/// The chunks, put end to end, are the text.
pub proof fn lemma_chunks_rebuild_text(text: Seq<char>, size: nat)
    requires
        size > 0,
    ensures
        concat(chunks(text, size)) == text,
        body_lines(text, size).len() == chunks(text, size).len(),
        forall|i: int|
            0 <= i < chunks(text, size).len() ==> (#[trigger] body_lines(text, size)[i]).content
                == chunks(text, size)[i],
{
    let count = chunk_count(text.len(), size) as int;
    lemma_chunk_count(text.len(), size);
    lemma_chunks_cover_prefix(text, size, count);
    assert(chunks(text, size).take(count) =~= chunks(text, size));
    assert(text.subrange(0, text.len() as int) =~= text);
}

proof fn lemma_chunk_count_partial(len: nat, size: nat, k: nat, n: nat)
    requires
        size > 0,
        len == k * size + n,
        1 <= n <= size,
    ensures
        chunk_count(len, size) == k + 1,
{
    assert(len + size - 1 == (k + 1) * size + (n - 1)) by (nonlinear_arith)
        requires
            len == k * size + n,
    ;
    lemma_fundamental_div_mod_converse(len + size - 1, size as int, (k + 1) as int, n - 1);
}

/// Appends to `lines` the body lines that `text` falls into.
pub fn push_body_lines(lines: &mut Vec<Line>, text: &str, line_size: usize)
    requires
        line_size > 0,
    ensures
        final(lines).deep_view() == old(lines).deep_view() + body_lines(text@, line_size as nat),
{
    let ghost before = lines.deep_view();
    let ghost size = line_size as nat;
    let ghost mut k: nat = 0;
    let mut current = String::new();
    let mut n: usize = 0;
    for c in it: text.chars()
        invariant
            line_size > 0,
            size == line_size as nat,
            it.seq() == text@,
            n == current@.len(),
            n <= line_size,
            k * size + n == it.index(),
            it.index() > 0 ==> n > 0,
            current@ == text@.subrange((k * size) as int, it.index() as int),
            lines.deep_view() == before + Seq::new(
                k,
                |i: int| LineSpec { is_chapter: false, content: chunk(text@, size, i) },
            ),
    {
        if n == line_size {
            proof {
                assert((k + 1) * size == k * size + size) by (nonlinear_arith);
                assert(current@ == chunk(text@, size, k as int));
            }
            let ghost prev = lines.deep_view();
            lines.push(Line { is_chapter: false, content: current });
            proof {
                assert(lines.deep_view() =~= prev.push(
                    LineSpec { is_chapter: false, content: chunk(text@, size, k as int) },
                ));
                assert(lines.deep_view() =~= before + Seq::new(
                    k + 1,
                    |i: int| LineSpec { is_chapter: false, content: chunk(text@, size, i) },
                ));
                k = k + 1;
            }
            current = String::new();
            n = 0;
        }
        current.push(c);
        n += 1;
        proof {
            assert(current@ =~= text@.subrange((k * size) as int, it.index() + 1));
        }
    }
    if n > 0 {
        proof {
            lemma_chunk_count_partial(text@.len(), size, k, n as nat);
            assert(current@ =~= chunk(text@, size, k as int));
        }
        let ghost prev = lines.deep_view();
        lines.push(Line { is_chapter: false, content: current });
        proof {
            assert(lines.deep_view() =~= prev.push(
                LineSpec { is_chapter: false, content: chunk(text@, size, k as int) },
            ));
            assert(lines.deep_view() =~= before + body_lines(text@, size));
        }
    } else {
        proof {
            assert(text@.len() == 0);
            assert(k == 0) by (nonlinear_arith)
                requires
                    k * size == 0,
                    size > 0,
            ;
            assert(chunk_count(0, size) == 0) by (nonlinear_arith)
                requires
                    size > 0,
            ;
            assert(lines.deep_view() =~= before + body_lines(text@, size));
        }
    }
}

/// Reflows a document into display lines: one marker line for each heading,
/// and for each body text its chunks of at most `line_size` code points.
pub fn paginate(blocks: &Vec<LabeledBlock>, line_size: usize) -> (lines: Vec<Line>)
    requires
        line_size > 0,
    ensures
        lines.deep_view() == paginate_spec(blocks.deep_view(), line_size as nat),
{
    let mut lines: Vec<Line> = Vec::new();
    let mut b: usize = 0;
    assert(lines.deep_view() =~= paginate_spec(blocks.deep_view().take(0), line_size as nat));
    while b < blocks.len()
        invariant
            line_size > 0,
            b <= blocks.len(),
            lines.deep_view() == paginate_spec(blocks.deep_view().take(b as int), line_size as nat),
        decreases blocks.len() - b,
    {
        let ghost prev = lines.deep_view();
        match &blocks[b] {
            LabeledBlock::Heading(text) => {
                lines.push(Line { is_chapter: true, content: text.clone() });
                assert(lines.deep_view() =~= prev + block_lines(
                    blocks.deep_view()[b as int],
                    line_size as nat,
                ));
            },
            LabeledBlock::Body(text) => {
                push_body_lines(&mut lines, text.as_str(), line_size);
            },
        }
        proof {
            let upto = blocks.deep_view().take(b + 1);
            assert(upto.drop_last() =~= blocks.deep_view().take(b as int));
            assert(upto.last() == blocks.deep_view()[b as int]);
        }
        b += 1;
    }
    assert(blocks.deep_view().take(b as int) =~= blocks.deep_view());
    lines
}

} // verus!
