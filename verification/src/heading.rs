//! The pattern of a chapter heading.

use vstd::prelude::*;

verus! {

/// The characters that may number a chapter: the Chinese numerals from zero
/// to ten, hundred, thousand and ten thousand, and the digits 0 to 9.
pub open spec fn is_numeral(c: char) -> bool {
    c == '零' || c == '一' || c == '二' || c == '三' || c == '四' || c == '五' || c == '六' || c
        == '七' || c == '八' || c == '九' || c == '十' || c == '百' || c == '千' || c == '万' || (
    0x30 <= c as u32 && c as u32 <= 0x39)
}

/// Whether `c` may number a chapter.
pub fn char_is_numeral(c: char) -> (r: bool)
    ensures
        r == is_numeral(c),
{
    let u: u32 = c as u32;
    c == '零' || c == '一' || c == '二' || c == '三' || c == '四' || c == '五' || c == '六' || c
        == '七' || c == '八' || c == '九' || c == '十' || c == '百' || c == '千' || c == '万' || (
    0x30 <= u && u <= 0x39)
}

/// `line` is a chapter heading whose number ends just before index `k`: the
/// word 第, then the numerals `line[1..k]`, at least one, then 章 at `k`, then
/// any text that stays on the line.
pub open spec fn heading_at(line: Seq<char>, k: int) -> bool {
    &&& 2 <= k < line.len()
    &&& line[0] == '第'
    &&& forall|i: int| 1 <= i < k ==> is_numeral(#[trigger] line[i])
    &&& line[k] == '章'
    &&& forall|i: int| k < i < line.len() ==> #[trigger] line[i] != '\n'
}

/// `line`, taken whole, is a chapter heading.
pub open spec fn is_chapter_heading(line: Seq<char>) -> bool {
    exists|k: int| heading_at(line, k)
}

/// Whether `chars[from..to]` is a chapter heading.
pub fn is_heading(chars: &Vec<char>, from: usize, to: usize) -> (r: bool)
    requires
        from <= to <= chars@.len(),
    ensures
        r == is_chapter_heading(chars@.subrange(from as int, to as int)),
{
    let ghost line = chars@.subrange(from as int, to as int);
    if to - from < 3 || chars[from] != '第' {
        assert(forall|k: int| !heading_at(line, k));
        return false;
    }
    let mut i: usize = from + 1;
    while i < to && char_is_numeral(chars[i])
        invariant
            from < i <= to <= chars@.len(),
            line == chars@.subrange(from as int, to as int),
            forall|j: int| 1 <= j < i - from ==> is_numeral(#[trigger] line[j]),
        decreases to - i,
    {
        i += 1;
    }
    let ghost k0 = i - from;
    assert(k0 < line.len() ==> !is_numeral(line[k0]));
    assert(!is_numeral('章'));
    if i == from + 1 || i >= to || chars[i] != '章' {
        assert forall|k: int| !heading_at(line, k) by {
            if heading_at(line, k) {
                if k < k0 {
                    assert(is_numeral(line[k]));
                } else if k > k0 {
                    assert(is_numeral(line[k0]));
                }
            }
        }
        return false;
    }
    let mut j: usize = i + 1;
    while j < to
        invariant
            from < i < j <= to <= chars@.len(),
            k0 == i - from,
            2 <= k0 < line.len(),
            line == chars@.subrange(from as int, to as int),
            line[0] == '第',
            line[k0] == '章',
            !is_numeral('章'),
            forall|m: int| 1 <= m < k0 ==> is_numeral(#[trigger] line[m]),
            forall|m: int| k0 < m < j - from ==> #[trigger] line[m] != '\n',
        decreases to - j,
    {
        if chars[j] == '\n' {
            assert forall|k: int| !heading_at(line, k) by {
                if heading_at(line, k) {
                    if k < k0 {
                        assert(is_numeral(line[k]));
                    } else if k > k0 {
                        assert(is_numeral(line[k0]));
                    } else {
                        assert(line[j - from] == '\n');
                    }
                }
            }
            return false;
        }
        j += 1;
    }
    assert(heading_at(line, k0));
    true
}

} // verus!
