//! Turning the bytes of a string property into text, by the code page that
//! the item names for them.

use crate::error::Error;
use encoding_rs::Encoding;
use vstd::prelude::*;
use vstd::slice::slice_subrange;
use vstd::utf8::{encode_utf8, valid_utf8};

verus! {

/// `encoding_rs::Encoding`, a decoder. Nothing is known of what it holds;
/// it is only carried from where it is looked up to where it decodes.
#[verifier::external_type_specification]
#[verifier::external_body]
pub struct ExEncoding(Encoding);

/// The code page of 7-bit ASCII, which has no decoder of its own: its bytes
/// are read as Latin-1.
pub const ASCII_CODE_PAGE: u32 = 20127;

/// The longest run of bytes that is decoded. A decoder sets aside up to
/// three bytes of text for each byte, and may do so twice; what it sets
/// aside must stay within what an `isize` can count.
pub open spec fn decodable(length: nat) -> bool {
    length <= usize::MAX / 16
}

/// The decoder that goes with a Windows code page, if one does.
pub uninterp spec fn encoding_of(code_page: u16) -> Option<&'static Encoding>;

/// The text that a decoder makes of bytes, a byte order mark at their start
/// left out and every malformed sequence replaced by U+FFFD.
pub uninterp spec fn decoded(encoding: &Encoding, bytes: Seq<u8>) -> Seq<char>;

/// The text whose characters have the code points that the bytes give.
pub open spec fn latin1_text(bytes: Seq<u8>) -> Seq<char> {
    Seq::new(bytes.len(), |i: int| bytes[i] as char)
}

/// Whether a byte, read as a code point, is a control character: below
/// U+0020, or from U+007F to U+009F.
pub open spec fn is_control(byte: u8) -> bool {
    byte < 0x20 || (0x7f <= byte && byte <= 0x9f)
}

/// The number of control characters with which the bytes begin.
pub open spec fn leading_controls(bytes: Seq<u8>) -> nat
    decreases bytes.len(),
{
    if bytes.len() == 0 || !is_control(bytes[0]) {
        0
    } else {
        1 + leading_controls(bytes.drop_first())
    }
}

/// Where the text of a string property begins: behind the control
/// characters at its start. Bytes that are all control characters are taken
/// from their first.
pub open spec fn text_start(bytes: Seq<u8>) -> nat {
    if leading_controls(bytes) == bytes.len() {
        0
    } else {
        leading_controls(bytes)
    }
}

/// What the bytes of a string property are read as under a decoder, or
/// under none: the text behind the leading control characters, and a
/// `BadCodePage` where the code page has no decoder.
pub open spec fn text_under(encoding: Option<&'static Encoding>, bytes: Seq<u8>, code_page: u32)
    -> Result<Seq<char>, Error> {
    match encoding {
        Some(encoding) => Ok(decoded(encoding, bytes.skip(text_start(bytes) as int))),
        None => Err(Error::BadCodePage(code_page)),
    }
}

/// What the bytes of a string property are read as under a code page.
pub open spec fn text_in(bytes: Seq<u8>, code_page: u32) -> Result<Seq<char>, Error> {
    if code_page == ASCII_CODE_PAGE {
        Ok(latin1_text(bytes))
    } else if code_page > u16::MAX {
        Err(Error::BadCodePage(code_page))
    } else {
        text_under(encoding_of(code_page as u16), bytes, code_page)
    }
}

/// `encoding_rs::mem::decode_latin1`: every byte becomes the character
/// whose code point it is. The call sets aside two bytes of text for each
/// byte, which is why the bytes must be `decodable`.
#[verifier::external_body]
fn decode_latin1(bytes: &[u8]) -> (text: String)
    requires
        decodable(bytes@.len()),
    ensures
        text@ == latin1_text(bytes@),
{
    encoding_rs::mem::decode_latin1(bytes).into_owned()
}

/// `codepage::to_encoding`: a look-up in a fixed table, so that one code
/// page always gives the same decoder, or none.
#[verifier::external_body]
fn to_encoding(code_page: u16) -> (encoding: Option<&'static Encoding>)
    ensures
        encoding == encoding_of(code_page),
{
    codepage::to_encoding(code_page)
}

/// `encoding_rs::Encoding::decode`, of which the text is kept: the same
/// bytes under the same decoder always give the same text. The call fails
/// where the space it sets aside cannot be counted, which is why the bytes
/// must be `decodable`.
#[verifier::external_body]
fn decode(encoding: &'static Encoding, bytes: &[u8]) -> (text: String)
    requires
        decodable(bytes@.len()),
    ensures
        text@ == decoded(encoding, bytes@),
{
    encoding.decode(bytes).0.into_owned()
}

/// `String::from_utf8` of the standard library: bytes that are UTF-8 become
/// the string that holds them, and no others do.
#[verifier::external_body]
fn text_from_utf8(bytes: Vec<u8>) -> (text: Option<String>)
    ensures
        (text is Some) == valid_utf8(bytes@),
        text matches Some(text) ==> encode_utf8(text@) == bytes@,
{
    match String::from_utf8(bytes) {
        Ok(text) => Some(text),
        Err(_) => None,
    }
}

/// Whether a byte, read as a code point, is a control character.
fn control(byte: u8) -> (is: bool)
    ensures
        is == is_control(byte),
{
    byte < 0x20 || (0x7f <= byte && byte <= 0x9f)
}

/// Where the text of a string property begins, as `text_start` says.
pub fn first_text_byte(bytes: &[u8]) -> (start: usize)
    ensures
        start == text_start(bytes@),
        start <= bytes@.len(),
{
    let mut i: usize = 0;
    proof {
        assert(bytes@.skip(0) == bytes@);
    }
    while i < bytes.len() && control(bytes[i])
        invariant
            i <= bytes.len(),
            leading_controls(bytes@) == i + leading_controls(bytes@.skip(i as int)),
        decreases bytes.len() - i,
    {
        proof {
            assert(bytes@.skip(i as int).drop_first() == bytes@.skip(i + 1));
        }
        i = i + 1;
    }
    proof {
        if i < bytes.len() {
            assert(bytes@.skip(i as int)[0] == bytes@[i as int]);
        }
    }
    if i == bytes.len() {
        0
    } else {
        i
    }
}

/// Reads the bytes of a string property under the decoder that was looked
/// up for its code page, if there was one.
pub fn decode_with(encoding: Option<&'static Encoding>, bytes: &[u8], code_page: u32) -> (text:
    Result<String, Error>)
    requires
        decodable(bytes@.len()),
    ensures
        match text {
            Ok(text) => text_under(encoding, bytes@, code_page) == Ok::<Seq<char>, Error>(text@),
            Err(error) => text_under(encoding, bytes@, code_page) == Err::<Seq<char>, Error>(error),
        },
{
    match encoding {
        Some(encoding) => {
            let start = first_text_byte(bytes);
            Ok(decode(encoding, slice_subrange(bytes, start, bytes.len())))
        },
        None => Err(Error::BadCodePage(code_page)),
    }
}

/// Reads the bytes of a string property under a code page.
///
/// Code page 20127 reads every byte as the character of that code point.
/// Any other code page must be one that has a decoder, else it is refused
/// as a `BadCodePage`; its decoder reads the bytes behind the control
/// characters at their start.
pub fn to_string(bytes: &[u8], code_page: u32) -> (text: Result<String, Error>)
    requires
        decodable(bytes@.len()),
    ensures
        match text {
            Ok(text) => text_in(bytes@, code_page) == Ok::<Seq<char>, Error>(text@),
            Err(error) => text_in(bytes@, code_page) == Err::<Seq<char>, Error>(error),
        },
{
    if code_page == ASCII_CODE_PAGE {
        Ok(decode_latin1(bytes))
    } else if code_page > 0xffff {
        Err(Error::BadCodePage(code_page))
    } else {
        decode_with(to_encoding(code_page as u16), bytes, code_page)
    }
}

/// What bytes that end in a NUL are read as where the item names no code
/// page: the UTF-8 text before the NUL. The NUL must be the last byte and
/// the only one, and the bytes before it must be UTF-8.
pub open spec fn is_terminated(bytes: Seq<u8>) -> bool {
    &&& bytes.len() > 0
    &&& bytes.last() == 0
    &&& forall|i: int| 0 <= i < bytes.len() - 1 ==> #[trigger] bytes[i] != 0
}

/// Reads bytes that end in a NUL as UTF-8 text.
///
/// Bytes without a NUL at their end, or with one before it, are refused as
/// `NotTerminated`; bytes before the NUL that are no UTF-8 as `NotUtf8`.
pub fn terminated_text(bytes: Vec<u8>) -> (text: Result<String, Error>)
    ensures
        match text {
            Ok(text) => is_terminated(bytes@) && encode_utf8(text@) == bytes@.drop_last(),
            Err(error) => if is_terminated(bytes@) {
                error == Error::NotUtf8 && !valid_utf8(bytes@.drop_last())
            } else {
                error == Error::NotTerminated
            },
        },
{
    let mut bytes = bytes;
    let ghost given = bytes@;
    let mut i: usize = 0;
    while i < bytes.len() && bytes[i] != 0
        invariant
            i <= bytes.len(),
            bytes@ == given,
            forall|k: int| 0 <= k < i ==> #[trigger] bytes@[k] != 0,
        decreases bytes.len() - i,
    {
        i = i + 1;
    }
    if bytes.len() == 0 || i != bytes.len() - 1 {
        proof {
            if is_terminated(given) {
                if i < given.len() - 1 {
                    assert(given[i as int] != 0);
                }
            }
        }
        return Err(Error::NotTerminated);
    }
    bytes.pop();
    assert(bytes@ == given.drop_last());
    match text_from_utf8(bytes) {
        Some(text) => Ok(text),
        None => Err(Error::NotUtf8),
    }
}

/// Reads the bytes of a string property of an item: under the code page
/// that the item names, or, where it names none, as UTF-8 text that ends in
/// a NUL.
pub fn try_get_item_string(code_page: Option<u32>, bytes: Vec<u8>) -> (text: Result<String, Error>)
    requires
        decodable(bytes@.len()),
    ensures
        match code_page {
            Some(code_page) => match text {
                Ok(text) => text_in(bytes@, code_page) == Ok::<Seq<char>, Error>(text@),
                Err(error) => text_in(bytes@, code_page) == Err::<Seq<char>, Error>(error),
            },
            None => match text {
                Ok(text) => is_terminated(bytes@) && encode_utf8(text@) == bytes@.drop_last(),
                Err(error) => if is_terminated(bytes@) {
                    error == Error::NotUtf8 && !valid_utf8(bytes@.drop_last())
                } else {
                    error == Error::NotTerminated
                },
            },
        },
{
    match code_page {
        Some(code_page) => to_string(bytes.as_slice(), code_page),
        None => terminated_text(bytes),
    }
}

} // verus!
