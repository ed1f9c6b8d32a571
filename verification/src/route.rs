//! The dispatcher's route table: which handler a method and a path select.

use vstd::prelude::*;
use vstd::slice::*;
use vstd::string::*;
use crate::scan::{find_mark, is_word, mark_at};

verus! {

/// The byte `/`, which parts the segments of a path.
pub const SLASH: u8 = 47;

/// The byte `+`.
pub const PLUS: u8 = 43;

/// The byte `-`.
pub const MINUS: u8 = 45;

/// The byte `0`, the least decimal digit.
pub const ZERO: u8 = 48;

/// The byte `9`, the greatest decimal digit.
pub const NINE: u8 = 57;

/// The method of a request, as far as the route table tells methods apart.
#[derive(Clone, Copy, Debug, PartialEq, Eq, Structural)]
pub enum Method {
    Get,
    Post,
    Put,
    Delete,
    /// Any other method.
    Other,
}

/// What the route table selects for a request.
#[derive(Clone, Copy, Debug, PartialEq, Eq, Structural)]
pub enum Route {
    /// `GET /health`
    Health,
    /// `GET /todo`
    ListTodos,
    /// `POST /todo`
    CreateTodo,
    /// `PUT /todo/{id}`
    UpdateTodo(i32),
    /// `DELETE /todo/{id}`
    DeleteTodo(i32),
    /// The path is not served.
    NotFound,
    /// The path is served, but not with this method.
    MethodNotAllowed,
}

/// Where the segment that starts at `from` ends: at the next `/`, or at the
/// end of the path.
pub open spec fn segment_end(path: Seq<u8>, from: int) -> int {
    mark_at(path, from, SLASH)
}

/// Where the segment after the one that ends at `end` starts: behind the
/// `/`, if there is one.
pub open spec fn next_start(path: Seq<u8>, end: int) -> int {
    if end < path.len() {
        end + 1
    } else {
        end
    }
}

/// Whether a byte is a decimal digit.
pub open spec fn is_digit(byte: u8) -> bool {
    ZERO <= byte <= NINE
}

/// Whether a text is made of decimal digits only.
pub open spec fn all_digits(text: Seq<u8>) -> bool {
    forall|i: int| 0 <= i < text.len() ==> is_digit(#[trigger] text[i])
}

/// The number that decimal digits denote.
pub open spec fn digits_value(digits: Seq<u8>) -> int
    decreases digits.len(),
{
    if digits.len() == 0 {
        0
    } else {
        10 * digits_value(digits.drop_last()) + (digits.last() - ZERO)
    }
}

/// The number that a sign and decimal digits denote, where there is a digit,
/// nothing but digits, and a 32-bit signed integer holds the number.
pub open spec fn signed_value(negative: bool, digits: Seq<u8>) -> Option<i32> {
    let value = if negative {
        -digits_value(digits)
    } else {
        digits_value(digits)
    };
    if digits.len() > 0 && all_digits(digits) && i32::MIN <= value <= i32::MAX {
        Some(value as i32)
    } else {
        None
    }
}

/// The id that a path segment denotes: an optional sign, `+` or `-`, then
/// one decimal digit or more, for a number that a 32-bit signed integer
/// holds.
pub open spec fn parsed_id(segment: Seq<u8>) -> Option<i32> {
    if segment.len() > 0 && segment[0] == MINUS {
        signed_value(true, segment.skip(1))
    } else if segment.len() > 0 && segment[0] == PLUS {
        signed_value(false, segment.skip(1))
    } else {
        signed_value(false, segment)
    }
}

/// The route table.
///
/// One leading `/` is skipped, and the path is read segment by segment; a
/// path may end in one `/`.
///
/// - `health` alone is served with GET.
/// - `todo` alone is served with GET, which lists, and with POST, which
///   creates.
/// - `todo` and an id are served with PUT, which updates, and with DELETE,
///   which deletes.
///
/// Any other method on one of these paths is refused, and no other path is
/// served.
pub open spec fn routed(method: Method, path: Seq<u8>) -> Route {
    let start: int = if path.len() > 0 && path[0] == SLASH {
        1
    } else {
        0
    };
    let end = segment_end(path, start);
    let head = path.subrange(start, end);
    let next = next_start(path, end);
    let id_end = segment_end(path, next);
    let id = parsed_id(path.subrange(next, id_end));
    if head == "health".spec_bytes() && next == path.len() {
        match method {
            Method::Get => Route::Health,
            _ => Route::MethodNotAllowed,
        }
    } else if head == "todo".spec_bytes() && next == path.len() {
        match method {
            Method::Get => Route::ListTodos,
            Method::Post => Route::CreateTodo,
            _ => Route::MethodNotAllowed,
        }
    } else if head == "todo".spec_bytes() && id is Some && next_start(path, id_end) == path.len() {
        match method {
            Method::Put => Route::UpdateTodo(id->0),
            Method::Delete => Route::DeleteTodo(id->0),
            _ => Route::MethodNotAllowed,
        }
    } else {
        Route::NotFound
    }
}

proof fn lemma_digits_value_bounds(digits: Seq<u8>)
    requires
        all_digits(digits),
    ensures
        0 <= digits_value(digits),
    decreases digits.len(),
{
    if digits.len() > 0 {
        assert(is_digit(digits.last()));
        assert(all_digits(digits.drop_last())) by {
            assert forall|i: int| 0 <= i < digits.drop_last().len() implies is_digit(
                #[trigger] digits.drop_last()[i],
            ) by {
                assert(digits.drop_last()[i] == digits[i]);
            }
        }
        lemma_digits_value_bounds(digits.drop_last());
    }
}

/// A number is at least what any beginning of its digits denotes.
proof fn lemma_digits_value_grows(digits: Seq<u8>, k: int)
    requires
        all_digits(digits),
        0 <= k <= digits.len(),
    ensures
        digits_value(digits.take(k)) <= digits_value(digits),
    decreases digits.len() - k,
{
    if k == digits.len() {
        assert(digits.take(k) == digits);
    } else {
        let longer = digits.take(k + 1);
        assert(longer.drop_last() == digits.take(k));
        assert(longer.last() == digits[k]);
        assert(is_digit(digits[k]));
        assert(all_digits(digits.take(k))) by {
            assert forall|i: int| 0 <= i < digits.take(k).len() implies is_digit(
                #[trigger] digits.take(k)[i],
            ) by {
                assert(digits.take(k)[i] == digits[i]);
            }
        }
        lemma_digits_value_bounds(digits.take(k));
        lemma_digits_value_grows(digits, k + 1);
    }
}

/// Reads the number that a sign and the bytes of `path` from `from` to `to`
/// denote.
fn parse_digits(path: &[u8], from: usize, to: usize, negative: bool) -> (number: Option<i32>)
    requires
        from <= to <= path@.len(),
    ensures
        number == signed_value(negative, path@.subrange(from as int, to as int)),
{
    let ghost digits = path@.subrange(from as int, to as int);
    if from == to {
        return None;
    }
    let limit: i64 = 2147483648;
    let mut value: i64 = 0;
    let mut i: usize = from;
    while i < to
        invariant
            from <= i <= to <= path@.len(),
            from < to,
            digits == path@.subrange(from as int, to as int),
            all_digits(digits.take(i - from)),
            value == digits_value(digits.take(i - from)),
            0 <= value <= limit,
            limit == 2147483648,
        decreases to - i,
    {
        let byte = path[i];
        let ghost before = digits.take(i - from);
        let ghost after = digits.take(i - from + 1);
        proof {
            assert(digits[i - from] == byte);
            assert(after.drop_last() == before);
            assert(after.last() == byte);
        }
        if byte < ZERO || byte > NINE {
            assert(!is_digit(digits[i - from]));
            return None;
        }
        value = value * 10 + (byte - ZERO) as i64;
        proof {
            assert forall|j: int| 0 <= j < after.len() implies is_digit(#[trigger] after[j]) by {
                if j < before.len() {
                    assert(after[j] == before[j]);
                }
            }
        }
        if value > limit {
            proof {
                if all_digits(digits) {
                    lemma_digits_value_grows(digits, i - from + 1);
                }
            }
            return None;
        }
        i += 1;
    }
    proof {
        assert(digits.take(to - from) == digits);
    }
    if negative {
        Some((-value) as i32)
    } else if value < limit {
        Some(value as i32)
    } else {
        None
    }
}

/// Reads the id that the bytes of `path` from `from` to `to` denote.
fn parse_id(path: &[u8], from: usize, to: usize) -> (id: Option<i32>)
    requires
        from <= to <= path@.len(),
    ensures
        id == parsed_id(path@.subrange(from as int, to as int)),
{
    let ghost segment = path@.subrange(from as int, to as int);
    if from == to {
        return None;
    }
    assert(segment[0] == path@[from as int]);
    if path[from] == MINUS {
        assert(segment.skip(1) == path@.subrange(from + 1, to as int));
        parse_digits(path, from + 1, to, true)
    } else if path[from] == PLUS {
        assert(segment.skip(1) == path@.subrange(from + 1, to as int));
        parse_digits(path, from + 1, to, false)
    } else {
        parse_digits(path, from, to, false)
    }
}

/// Selects the handler for a request by the route table. `path` is the path
/// of the request, without the query.
pub fn route(method: Method, path: &str) -> (selected: Route)
    ensures
        selected == routed(method, path.spec_bytes()),
{
    let bytes = path.as_bytes();
    let start: usize = if bytes.len() > 0 && bytes[0] == SLASH {
        1
    } else {
        0
    };
    let end = find_mark(bytes, start, SLASH);
    let next: usize = if end < bytes.len() {
        end + 1
    } else {
        end
    };
    let health = is_word(bytes, start, end, "health");
    let todo = is_word(bytes, start, end, "todo");
    if health && next == bytes.len() {
        return match method {
            Method::Get => Route::Health,
            _ => Route::MethodNotAllowed,
        };
    }
    if !todo {
        return Route::NotFound;
    }
    if next == bytes.len() {
        return match method {
            Method::Get => Route::ListTodos,
            Method::Post => Route::CreateTodo,
            _ => Route::MethodNotAllowed,
        };
    }
    let id_end = find_mark(bytes, next, SLASH);
    let after: usize = if id_end < bytes.len() {
        id_end + 1
    } else {
        id_end
    };
    match parse_id(bytes, next, id_end) {
        Some(id) => {
            if after != bytes.len() {
                Route::NotFound
            } else {
                match method {
                    Method::Put => Route::UpdateTodo(id),
                    Method::Delete => Route::DeleteTodo(id),
                    _ => Route::MethodNotAllowed,
                }
            }
        },
        None => Route::NotFound,
    }
}

} // verus!
