//! The kinds of attachment, as the archive format numbers them.

use crate::error::Error;
use vstd::prelude::*;

verus! {

/// How an attachment holds what is attached.
#[derive(Debug, Clone, Copy, PartialEq, Eq, Structural)]
pub enum AttachmentType {
    Undefined,
    /// The attached bytes themselves.
    Data,
    /// An item of the archive.
    Item,
    /// A reference to something kept elsewhere.
    Reference,
}

impl AttachmentType {
    /// The number that the archive format gives this kind of attachment:
    /// 0, or the letter `d`, `i` or `r`.
    pub open spec fn code(self) -> i32 {
        match self {
            AttachmentType::Undefined => 0,
            AttachmentType::Data => 100,
            AttachmentType::Item => 105,
            AttachmentType::Reference => 114,
        }
    }

    /// The number that the archive format gives this kind of attachment.
    pub fn to_i32(&self) -> (code: i32)
        ensures
            code == self.code(),
    {
        match self {
            AttachmentType::Undefined => 0,
            AttachmentType::Data => 100,
            AttachmentType::Item => 105,
            AttachmentType::Reference => 114,
        }
    }

    /// The kind of attachment that `value` stands for. Every number that
    /// stands for none is refused as a `BadAttachmentType` that holds it.
    pub fn from_i32(value: i32) -> (kind: Result<AttachmentType, Error>)
        ensures
            forall|other: AttachmentType|
                #[trigger] other.code() == value <==> kind == Ok::<AttachmentType, Error>(other),
            kind is Err ==> kind == Err::<AttachmentType, Error>(Error::BadAttachmentType(value)),
    {
        match value {
            0 => Ok(AttachmentType::Undefined),
            100 => Ok(AttachmentType::Data),
            105 => Ok(AttachmentType::Item),
            114 => Ok(AttachmentType::Reference),
            _ => Err(Error::BadAttachmentType(value)),
        }
    }
}

} // verus!
