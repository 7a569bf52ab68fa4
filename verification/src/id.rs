//! Composite identifiers: the folder ids on the way from the root to a
//! message, followed by the message's own id, written as decimal numbers
//! joined by `_`.

use crate::text::{
    all_digits, decimal_digits, decimal_value, digit_value, free_of, is_digit, lemma_decimal_digits,
    lemma_digits_push, lemma_split_append, lemma_split_push, push_char, push_decimal, split,
};
use vstd::prelude::*;

verus! {

/// The character that separates the numbers of a written identifier.
pub const SEPARATOR: char = '_';

/// A written identifier that is not a `_`-joined list of decimal `u32`s.
#[derive(Debug, Clone, Copy, PartialEq, Eq)]
pub struct ParseError {}

/// One number of a written identifier: digits only, at least one, and no
/// larger than a `u32`.
pub open spec fn is_segment(s: Seq<char>) -> bool {
    s.len() > 0 && all_digits(s) && decimal_value(s) <= u32::MAX
}

/// The pieces of a written identifier between its separators.
pub open spec fn parts(s: Seq<char>) -> Seq<Seq<char>> {
    split(s, SEPARATOR)
}

/// What a written identifier denotes: the numbers of its pieces, in order,
/// provided every piece is a number.
pub open spec fn id_path_of(s: Seq<char>) -> Option<Seq<u32>> {
    let pieces = parts(s);
    if forall|k: int| 0 <= k < pieces.len() ==> is_segment(#[trigger] pieces[k]) {
        Some(Seq::new(pieces.len(), |k: int| decimal_value(pieces[k]) as u32))
    } else {
        None
    }
}

/// How a path is written: its numbers in base ten, joined by separators.
pub open spec fn id_text(path: Seq<u32>) -> Seq<char>
    decreases path.len(),
{
    if path.len() == 0 {
        Seq::<char>::empty()
    } else if path.len() == 1 {
        decimal_digits(path[0] as nat)
    } else {
        id_text(path.drop_last()).push(SEPARATOR) + decimal_digits(path.last() as nat)
    }
}

/// Whether the pieces read so far can still be the start of a well-formed
/// identifier: all but the last are numbers, and the last holds digits only
/// and has not outgrown a `u32`.
pub open spec fn readable(pieces: Seq<Seq<char>>) -> bool {
    &&& forall|k: int| 0 <= k < pieces.len() - 1 ==> is_segment(#[trigger] pieces[k])
    &&& all_digits(pieces.last())
    &&& decimal_value(pieces.last()) <= u32::MAX
}

/// What one more character does to whether the pieces are still readable:
/// a separator asks for a digit before it, a digit must not carry the last
/// number beyond a `u32`, and any other character spoils the identifier.
proof fn lemma_readable_push(s: Seq<char>, c: char)
    ensures
        c == SEPARATOR ==> readable(parts(s.push(c))) == (readable(parts(s)) && parts(
            s,
        ).last().len() > 0),
        is_digit(c) ==> readable(parts(s.push(c))) == (readable(parts(s)) && 10 * decimal_value(
            parts(s).last(),
        ) + digit_value(c) <= u32::MAX),
        c != SEPARATOR && !is_digit(c) ==> !readable(parts(s.push(c))),
{
    lemma_split_push(s, SEPARATOR, c);
    let before = parts(s);
    let after = parts(s.push(c));
    lemma_digits_push(before.last(), c);
    if c == SEPARATOR {
        assert(after.last() == Seq::<char>::empty());
        assert(after[before.len() - 1] == before.last());
        if readable(before) && before.last().len() > 0 {
            assert forall|k: int| 0 <= k < after.len() - 1 implies is_segment(
                #[trigger] after[k],
            ) by {
                if k < before.len() - 1 {
                    assert(after[k] == before[k]);
                }
            }
        }
        if readable(after) {
            assert(is_segment(after[before.len() - 1]));
            assert forall|k: int| 0 <= k < before.len() - 1 implies is_segment(
                #[trigger] before[k],
            ) by {
                assert(after[k] == before[k]);
            }
        }
    } else {
        assert(after.last() == before.last().push(c));
        if readable(after) {
            assert forall|k: int| 0 <= k < before.len() - 1 implies is_segment(
                #[trigger] before[k],
            ) by {
                assert(after[k] == before[k]);
            }
        }
        if readable(before) && is_digit(c) && 10 * decimal_value(before.last()) + digit_value(c)
            <= u32::MAX {
            assert forall|k: int| 0 <= k < after.len() - 1 implies is_segment(
                #[trigger] after[k],
            ) by {
                assert(after[k] == before[k]);
            }
        }
    }
}

/// Reads a written identifier.
///
/// Succeeds exactly on the strings made of one or more decimal numbers that
/// each fit in a `u32`, joined by single separators; the result holds the
/// numbers in the order written. Anything else (an empty piece, a character
/// that is no digit, a number too large) is a `ParseError`.
pub fn parse_id_path(id: &str) -> (r: Result<Vec<u32>, ParseError>)
    ensures
        match r {
            Ok(path) => id_path_of(id@) == Some(path@),
            Err(_) => id_path_of(id@) is None,
        },
{
    broadcast use vstd::string::group_string_axioms;

    let mut path: Vec<u32> = Vec::new();
    let mut current: u32 = 0;
    let mut digits: bool = false;
    let mut good: bool = true;
    proof {
        assert(id@.take(0) == Seq::<char>::empty());
    }
    for c in it: id.chars()
        invariant
            it.seq() == id@,
            good == readable(parts(id@.take(it.index()))),
            good ==> ({
                let pieces = parts(id@.take(it.index()));
                &&& path@.len() == pieces.len() - 1
                &&& forall|k: int|
                    0 <= k < path@.len() ==> #[trigger] path@[k] == decimal_value(pieces[k])
                &&& current == decimal_value(pieces.last())
                &&& digits == (pieces.last().len() > 0)
            }),
    {
        let ghost read = id@.take(it.index());
        proof {
            assert(id@.take(it.index() + 1) == read.push(c));
            lemma_split_push(read, SEPARATOR, c);
            lemma_readable_push(read, c);
            lemma_digits_push(parts(read).last(), c);
        }
        if good {
            if c == SEPARATOR {
                if digits {
                    path.push(current);
                    current = 0;
                    digits = false;
                } else {
                    good = false;
                }
            } else if '0' <= c && c <= '9' {
                let d: u32 = (c as u32) - ('0' as u32);
                let next: u64 = current as u64 * 10 + d as u64;
                if next <= u32::MAX as u64 {
                    current = next as u32;
                    digits = true;
                } else {
                    good = false;
                }
            } else {
                good = false;
            }
        }
    }
    proof {
        assert(id@.take(id@.len() as int) == id@);
    }
    let ghost pieces = parts(id@);
    if good && digits {
        path.push(current);
        proof {
            assert forall|k: int| 0 <= k < pieces.len() implies is_segment(
                #[trigger] pieces[k],
            ) by {}
            assert(path@ =~= Seq::new(pieces.len(), |k: int| decimal_value(pieces[k]) as u32));
        }
        Ok(path)
    } else {
        proof {
            if forall|k: int| 0 <= k < pieces.len() ==> is_segment(#[trigger] pieces[k]) {
                lemma_split_push(id@, SEPARATOR, SEPARATOR);
                assert(is_segment(pieces[pieces.len() - 1]));
                assert(readable(pieces));
            }
        }
        Err(ParseError {})
    }
}

/// Writes a path as an identifier: its numbers in base ten, joined by
/// separators. The empty path is written as the empty string.
pub fn format_id_path(path: &[u32]) -> (id: String)
    ensures
        id@ == id_text(path@),
{
    let mut id = String::new();
    let mut i: usize = 0;
    while i < path.len()
        invariant
            i <= path.len(),
            id@ == id_text(path@.take(i as int)),
        decreases path.len() - i,
    {
        proof {
            assert(path@.take(i + 1).drop_last() == path@.take(i as int));
        }
        if i > 0 {
            push_char(&mut id, SEPARATOR);
        }
        push_decimal(&mut id, path[i] as u128);
        i = i + 1;
    }
    proof {
        assert(path@.take(path.len() as int) == path@);
    }
    id
}

/// The identifier of a message: the ids of the folders that lead to it from
/// just below the root, then its own id.
pub fn message_id(folders: &[u32], message: u32) -> (id: String)
    ensures
        id@ == id_text(folders@.push(message)),
{
    let mut id = format_id_path(folders);
    if folders.len() > 0 {
        push_char(&mut id, SEPARATOR);
    }
    push_decimal(&mut id, message as u128);
    proof {
        assert(folders@.push(message).drop_last() == folders@);
    }
    id
}

/// The pieces of a written path are its numbers as written.
proof fn lemma_split_text(path: Seq<u32>)
    requires
        path.len() > 0,
    ensures
        parts(id_text(path)) == Seq::new(path.len(), |k: int| decimal_digits(path[k] as nat)),
    decreases path.len(),
{
    let written = Seq::new(path.len(), |k: int| decimal_digits(path[k] as nat));
    let last = decimal_digits(path.last() as nat);
    lemma_decimal_digits(path.last() as nat);
    assert(free_of(last, SEPARATOR)) by {
        assert forall|i: int| 0 <= i < last.len() implies #[trigger] last[i] != SEPARATOR by {
            assert(is_digit(last[i]));
        }
    }
    if path.len() == 1 {
        let nothing = Seq::<char>::empty();
        lemma_split_append(nothing, SEPARATOR, last);
        assert(nothing + last == last);
        assert(parts(nothing) == seq![nothing]);
        assert(parts(id_text(path)) == written);
    } else {
        let front = path.drop_last();
        lemma_split_text(front);
        let joined = id_text(front).push(SEPARATOR);
        lemma_split_push(id_text(front), SEPARATOR, SEPARATOR);
        lemma_split_append(joined, SEPARATOR, last);
        assert(Seq::<char>::empty() + last == last);
        assert(parts(id_text(path)) == written);
    }
}

/// Reading what was written gives the path back: every path of at least one
/// number survives `format_id_path` followed by `parse_id_path`.
pub proof fn lemma_id_round_trip(path: Seq<u32>)
    requires
        path.len() > 0,
    ensures
        id_path_of(id_text(path)) == Some(path),
{
    lemma_split_text(path);
    let pieces = parts(id_text(path));
    assert forall|k: int| 0 <= k < pieces.len() implies is_segment(#[trigger] pieces[k]) by {
        lemma_decimal_digits(path[k] as nat);
    }
    let numbers = Seq::new(pieces.len(), |k: int| decimal_value(pieces[k]) as u32);
    assert(numbers =~= path) by {
        assert forall|k: int| 0 <= k < path.len() implies numbers[k] == path[k] by {
            lemma_decimal_digits(path[k] as nat);
        }
    }
}

} // verus!
