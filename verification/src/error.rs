//! What can be wrong with a value read from an archive.

use crate::text::{decimal_digits, push_decimal, push_signed, signed_digits};
use vstd::prelude::*;
use vstd::string::StringExecFns;

verus! {

/// A value read from an archive that this library cannot take.
#[derive(Debug, Clone, Copy, PartialEq, Eq, Structural)]
pub enum Error {
    /// A number that stands for no kind of item.
    BadItemType(u8),
    /// A number that stands for no kind of value.
    BadValueType(u32),
    /// A number that stands for no kind of attachment.
    BadAttachmentType(i32),
    /// An item was taken for a folder and is none.
    NotAFolder,
    /// A code page that has no decoder.
    BadCodePage(u32),
    /// Bytes that should end in a NUL, and hold no other, and do not.
    NotTerminated,
    /// Bytes that should be UTF-8 and are not.
    NotUtf8,
}

/// What is said of each error.
pub open spec fn error_text(error: Error) -> Seq<char> {
    match error {
        Error::BadItemType(value) => "Unrecognized item type "@ + decimal_digits(value as nat),
        Error::BadValueType(value) => "Unrecognized value type "@ + decimal_digits(value as nat),
        Error::BadAttachmentType(value) => "Unrecognized attachment type "@ + signed_digits(
            value as int,
        ),
        Error::NotAFolder => "Item is not a folder."@,
        Error::BadCodePage(value) => ("Codepage "@ + decimal_digits(value as nat))
            + " is not supported."@,
        Error::NotTerminated => "String does not end in a single NUL"@,
        Error::NotUtf8 => "String is not valid UTF-8"@,
    }
}

impl Error {
    /// What is said of this error.
    pub fn to_string(&self) -> (text: String)
        ensures
            text@ == error_text(*self),
    {
        match self {
            Error::BadItemType(value) => {
                let mut text = String::from_str("Unrecognized item type ");
                push_decimal(&mut text, *value as u128);
                text
            },
            Error::BadValueType(value) => {
                let mut text = String::from_str("Unrecognized value type ");
                push_decimal(&mut text, *value as u128);
                text
            },
            Error::BadAttachmentType(value) => {
                let mut text = String::from_str("Unrecognized attachment type ");
                push_signed(&mut text, *value as i64);
                text
            },
            Error::NotAFolder => String::from_str("Item is not a folder."),
            Error::BadCodePage(value) => {
                let mut text = String::from_str("Codepage ");
                push_decimal(&mut text, *value as u128);
                text.append(" is not supported.");
                text
            },
            Error::NotTerminated => String::from_str("String does not end in a single NUL"),
            Error::NotUtf8 => String::from_str("String is not valid UTF-8"),
        }
    }
}

} // verus!
