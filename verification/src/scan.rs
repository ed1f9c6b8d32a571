//! Reading a text byte by byte: where the next mark stands, and whether a
//! stretch of the text is a given word.

use vstd::prelude::*;
use vstd::slice::*;
use vstd::string::*;

verus! {

/// Where the first `mark` at or behind `from` stands, or where the text
/// ends if there is none.
pub open spec fn mark_at(text: Seq<u8>, from: int, mark: u8) -> int
    decreases text.len() - from,
{
    if from < 0 || from >= text.len() {
        from
    } else if text[from] == mark {
        from
    } else {
        mark_at(text, from + 1, mark)
    }
}

/// Finds the first `mark` at or behind `from`.
pub fn find_mark(text: &[u8], from: usize, mark: u8) -> (end: usize)
    requires
        from <= text@.len(),
    ensures
        end == mark_at(text@, from as int, mark),
        from <= end <= text@.len(),
{
    let mut end = from;
    while end < text.len() && text[end] != mark
        invariant
            from <= end <= text@.len(),
            mark_at(text@, from as int, mark) == mark_at(text@, end as int, mark),
        decreases text@.len() - end,
    {
        end += 1;
    }
    end
}

/// Whether the bytes of `text` from `from` to `to` are those of `word`.
pub fn is_word(text: &[u8], from: usize, to: usize, word: &str) -> (same: bool)
    requires
        from <= to <= text@.len(),
    ensures
        same == (text@.subrange(from as int, to as int) == word.spec_bytes()),
{
    let bytes = word.as_bytes();
    let ghost part = text@.subrange(from as int, to as int);
    if bytes.len() != to - from {
        return false;
    }
    let mut i: usize = 0;
    while i < bytes.len()
        invariant
            from <= to <= text@.len(),
            bytes@.len() == to - from,
            bytes@ == word.spec_bytes(),
            part == text@.subrange(from as int, to as int),
            i <= bytes@.len(),
            forall|j: int| 0 <= j < i ==> part[j] == bytes@[j],
        decreases bytes@.len() - i,
    {
        if text[from + i] != bytes[i] {
            assert(part[i as int] != bytes@[i as int]);
            return false;
        }
        i += 1;
    }
    assert(part =~= bytes@);
    true
}

} // verus!
