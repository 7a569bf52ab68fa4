//! Strings as sequences of characters: cutting at a separator, numbers in
//! base ten, and the one way this library makes a `String` grow.

use vstd::prelude::*;

verus! {

/// The pieces of `s` between occurrences of `sep`. A string without the
/// separator is one piece; two separators in a row enclose an empty piece,
/// and so do a separator and either end of the string.
pub open spec fn split(s: Seq<char>, sep: char) -> Seq<Seq<char>>
    decreases s.len(),
{
    if s.len() == 0 {
        seq![Seq::<char>::empty()]
    } else {
        let before = split(s.drop_last(), sep);
        if s.last() == sep {
            before.push(Seq::<char>::empty())
        } else {
            before.update(before.len() - 1, before.last().push(s.last()))
        }
    }
}

/// Whether `c` occurs nowhere in `s`.
pub open spec fn free_of(s: Seq<char>, c: char) -> bool {
    forall|i: int| 0 <= i < s.len() ==> #[trigger] s[i] != c
}

/// One more character either opens a new piece or extends the last one.
pub proof fn lemma_split_push(s: Seq<char>, sep: char, c: char)
    ensures
        split(s, sep).len() > 0,
        c == sep ==> split(s.push(c), sep) == split(s, sep).push(Seq::<char>::empty()),
        c != sep ==> split(s.push(c), sep) == split(s, sep).update(
            split(s, sep).len() - 1,
            split(s, sep).last().push(c),
        ),
    decreases s.len(),
{
    if s.len() > 0 {
        lemma_split_push(s.drop_last(), sep, s.last());
    }
    assert(s.push(c).drop_last() == s);
}

/// Text without a separator extends the last piece of what it follows.
pub proof fn lemma_split_append(s: Seq<char>, sep: char, tail: Seq<char>)
    requires
        free_of(tail, sep),
    ensures
        split(s, sep).len() > 0,
        split(s + tail, sep) == split(s, sep).update(
            split(s, sep).len() - 1,
            split(s, sep).last() + tail,
        ),
    decreases tail.len(),
{
    let pieces = split(s, sep);
    lemma_split_push(s, sep, sep);
    if tail.len() == 0 {
        assert(s + tail == s);
        assert(pieces.last() + tail == pieces.last());
        assert(pieces.update(pieces.len() - 1, pieces.last()) == pieces);
    } else {
        let front = tail.drop_last();
        assert(tail[tail.len() - 1] != sep);
        assert forall|i: int| 0 <= i < front.len() implies #[trigger] front[i] != sep by {
            assert(front[i] == tail[i]);
        }
        lemma_split_append(s, sep, front);
        assert(s + tail == (s + front).push(tail.last()));
        lemma_split_push(s + front, sep, tail.last());
        assert((pieces.last() + front).push(tail.last()) == pieces.last() + tail);
        assert(split(s + tail, sep) == pieces.update(pieces.len() - 1, pieces.last() + tail));
    }
}

/// Whether `c` is one of the ten digits `0` to `9`.
pub open spec fn is_digit(c: char) -> bool {
    '0' <= c && c <= '9'
}

/// The number that the digit `c` stands for.
pub open spec fn digit_value(c: char) -> nat {
    (c as int - '0' as int) as nat
}

/// The digit that stands for `d`, a number below ten.
pub open spec fn digit_char(d: nat) -> char {
    (d + '0' as int) as char
}

/// Whether `s` holds digits and nothing else.
pub open spec fn all_digits(s: Seq<char>) -> bool {
    forall|i: int| 0 <= i < s.len() ==> is_digit(#[trigger] s[i])
}

/// The number that a string of digits denotes in base ten.
pub open spec fn decimal_value(s: Seq<char>) -> nat
    decreases s.len(),
{
    if s.len() == 0 {
        0
    } else {
        10 * decimal_value(s.drop_last()) + digit_value(s.last())
    }
}

/// How `n` is written in base ten, without leading zeros.
pub open spec fn decimal_digits(n: nat) -> Seq<char>
    decreases n,
{
    if n < 10 {
        seq![digit_char(n)]
    } else {
        decimal_digits(n / 10).push(digit_char(n % 10))
    }
}

/// One more digit at the end multiplies by ten and adds the digit.
pub proof fn lemma_digits_push(s: Seq<char>, c: char)
    ensures
        all_digits(s.push(c)) == (all_digits(s) && is_digit(c)),
        decimal_value(s.push(c)) == 10 * decimal_value(s) + digit_value(c),
{
    assert(s.push(c).drop_last() == s);
    if all_digits(s.push(c)) {
        assert(is_digit(s.push(c)[s.len() as int]));
        assert forall|i: int| 0 <= i < s.len() implies is_digit(#[trigger] s[i]) by {
            assert(s[i] == s.push(c)[i]);
        }
    }
}

/// A number as written is made of digits, at least one, and denotes the
/// number.
pub proof fn lemma_decimal_digits(n: nat)
    ensures
        decimal_digits(n).len() > 0,
        all_digits(decimal_digits(n)),
        decimal_value(decimal_digits(n)) == n,
    decreases n,
{
    if n < 10 {
        let one = seq![digit_char(n)];
        assert(one.drop_last() == Seq::<char>::empty());
        assert(decimal_value(one.drop_last()) == 0);
    } else {
        lemma_decimal_digits(n / 10);
        lemma_digits_push(decimal_digits(n / 10), digit_char(n % 10));
    }
}

/// `String::push` of the standard library: the string grows by the one
/// character given, at its end.
#[verifier::external_body]
pub(crate) fn push_char(text: &mut String, c: char)
    ensures
        final(text)@ == old(text)@.push(c),
{
    text.push(c);
}

/// The digit that stands for `d`.
fn digit_of(d: u128) -> (c: char)
    requires
        d < 10,
    ensures
        c == digit_char(d as nat),
{
    (d as u8 + 48u8) as char
}

/// Appends `n` in base ten, without sign or leading zeros.
pub fn push_decimal(text: &mut String, n: u128)
    ensures
        final(text)@ == old(text)@ + decimal_digits(n as nat),
    decreases n,
{
    if n >= 10 {
        push_decimal(text, n / 10);
    }
    push_char(text, digit_of(n % 10));
}

/// How a number with a sign is written in base ten: a minus sign before
/// the digits of a negative one.
pub open spec fn signed_digits(n: int) -> Seq<char> {
    if n < 0 {
        seq!['-'] + decimal_digits((-n) as nat)
    } else {
        decimal_digits(n as nat)
    }
}

/// Appends `n` in base ten, with a minus sign where it is negative.
pub fn push_signed(text: &mut String, n: i64)
    ensures
        final(text)@ == old(text)@ + signed_digits(n as int),
{
    if n < 0 {
        push_char(text, '-');
        push_decimal(text, (-(n as i128)) as u128);
        assert(text@ =~= old(text)@ + signed_digits(n as int));
    } else {
        push_decimal(text, n as u128);
    }
}

/// The text of a string that may be absent.
pub open spec fn text_of(s: Option<String>) -> Option<Seq<char>> {
    match s {
        Some(s) => Some(s@),
        None => None,
    }
}

} // verus!
