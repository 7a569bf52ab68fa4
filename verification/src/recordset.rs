//! Reading the bytes of a record entry from a chosen place.

use vstd::prelude::*;

verus! {

/// From where an offset into an entry's bytes is counted.
#[derive(Debug, Clone, Copy, PartialEq, Eq, Structural)]
pub enum Seek {
    /// From the first byte.
    Start,
    /// From the place last read.
    Current,
    /// From behind the last byte.
    End,
}

impl Seek {
    /// The number that the archive format gives this way of counting.
    pub open spec fn code(self) -> i32 {
        match self {
            Seek::Start => 0,
            Seek::Current => 1,
            Seek::End => 2,
        }
    }

    /// The number that the archive format gives this way of counting.
    pub fn to_i32(&self) -> (code: i32)
        ensures
            code == self.code(),
    {
        match self {
            Seek::Start => 0,
            Seek::Current => 1,
            Seek::End => 2,
        }
    }

    /// The way of counting that `value` stands for, if it stands for one.
    pub fn from_i32(value: i32) -> (whence: Option<Seek>)
        ensures
            forall|other: Seek| #[trigger] other.code() == value <==> whence == Some(other),
    {
        match value {
            0 => Some(Seek::Start),
            1 => Some(Seek::Current),
            2 => Some(Seek::End),
            _ => None,
        }
    }
}

} // verus!
