//! The configured column list of a listing, checked once against the columns
//! that an item is read from.

use vstd::prelude::*;
use vstd::slice::*;
use vstd::string::*;
use crate::scan::{find_mark, is_word, mark_at};

verus! {

/// The byte `,`, which parts the items of a list.
pub const COMMA: u8 = 44;

/// The byte of a blank.
pub const BLANK: u8 = 32;

/// A text without the blanks it begins with.
pub open spec fn without_leading_blanks(text: Seq<u8>) -> Seq<u8>
    decreases text.len(),
{
    if text.len() > 0 && text[0] == BLANK {
        without_leading_blanks(text.skip(1))
    } else {
        text
    }
}

/// A text without the blanks it ends with.
pub open spec fn without_trailing_blanks(text: Seq<u8>) -> Seq<u8>
    decreases text.len(),
{
    if text.len() > 0 && text.last() == BLANK {
        without_trailing_blanks(text.drop_last())
    } else {
        text
    }
}

/// A text without the blanks around it.
pub open spec fn trimmed(text: Seq<u8>) -> Seq<u8> {
    without_trailing_blanks(without_leading_blanks(text))
}

/// Whether `word` is an item of the comma-separated list, from `from` on.
/// The blanks around an item are no part of it.
pub open spec fn lists(list: Seq<u8>, from: int, word: Seq<u8>) -> bool
    decreases list.len() - from,
{
    if from < 0 || from > list.len() {
        false
    } else {
        let end = mark_at(list, from, COMMA);
        trimmed(list.subrange(from, end)) == word || (from <= end < list.len() && lists(
            list,
            end + 1,
            word,
        ))
    }
}

/// Whether a column list gives a listing the columns that an item is read
/// from: it is `*`, or names `id`, `name`, `created_at` and `checked`, in
/// any order and among any others.
pub open spec fn names_todo(list: Seq<u8>) -> bool {
    ||| lists(list, 0, "*".spec_bytes())
    ||| {
        &&& lists(list, 0, "id".spec_bytes())
        &&& lists(list, 0, "name".spec_bytes())
        &&& lists(list, 0, "created_at".spec_bytes())
        &&& lists(list, 0, "checked".spec_bytes())
    }
}

/// Finds where the text from `from` to `to` begins and ends without the
/// blanks around it.
fn trim(list: &[u8], from: usize, to: usize) -> (bounds: (usize, usize))
    requires
        from <= to <= list@.len(),
    ensures
        from <= bounds.0 <= bounds.1 <= to,
        list@.subrange(bounds.0 as int, bounds.1 as int) == trimmed(
            list@.subrange(from as int, to as int),
        ),
{
    let mut first = from;
    while first < to && list[first] == BLANK
        invariant
            from <= first <= to <= list@.len(),
            without_leading_blanks(list@.subrange(from as int, to as int))
                == without_leading_blanks(list@.subrange(first as int, to as int)),
        decreases to - first,
    {
        assert(list@.subrange(first as int, to as int).skip(1) == list@.subrange(
            first + 1,
            to as int,
        ));
        first += 1;
    }
    let mut last = to;
    while last > first && list[last - 1] == BLANK
        invariant
            first <= last <= to <= list@.len(),
            without_trailing_blanks(list@.subrange(first as int, to as int))
                == without_trailing_blanks(list@.subrange(first as int, last as int)),
        decreases last - first,
    {
        assert(list@.subrange(first as int, last as int).drop_last() == list@.subrange(
            first as int,
            last - 1,
        ));
        last -= 1;
    }
    (first, last)
}

/// Whether `word` is an item of the comma-separated list.
fn lists_word(list: &[u8], word: &str) -> (listed: bool)
    ensures
        listed == lists(list@, 0, word.spec_bytes()),
{
    let mut from: usize = 0;
    loop
        invariant
            from <= list@.len(),
            lists(list@, 0, word.spec_bytes()) == lists(list@, from as int, word.spec_bytes()),
        decreases list@.len() - from,
    {
        let end = find_mark(list, from, COMMA);
        let (first, last) = trim(list, from, end);
        if is_word(list, first, last, word) {
            return true;
        }
        if end >= list.len() {
            return false;
        }
        from = end + 1;
    }
}

/// Checks the configured column list, once, before any row is read: whether
/// it gives a listing the columns that an item is read from. Rows are read
/// by these names, so the order in the list is free; a list that lacks one
/// of them would have every listing fail.
pub fn selects_todo(fields: &str) -> (complete: bool)
    ensures
        complete == names_todo(fields.spec_bytes()),
{
    let list = fields.as_bytes();
    lists_word(list, "*") || (lists_word(list, "id") && lists_word(list, "name") && lists_word(
        list,
        "created_at",
    ) && lists_word(list, "checked"))
}

} // verus!
