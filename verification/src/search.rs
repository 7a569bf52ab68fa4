//! Fetching the results of a search page by page.

use vstd::prelude::*;

verus! {

/// The filter that keeps the documents of messages with attachments.
pub const HAS_ATTACHMENTS_FILTER: &'static str = "has_attachments = true";

/// The filter of a search, if it has one.
pub fn filter(has_attachments: bool) -> (filter: Option<&'static str>)
    ensures
        filter == if has_attachments {
            Some(HAS_ATTACHMENTS_FILTER)
        } else {
            None
        },
{
    if has_attachments {
        Some(HAS_ATTACHMENTS_FILTER)
    } else {
        None
    }
}

/// Where the page after the one just fetched begins, if there is one to
/// fetch: a page of `hits` results that began at `offset` is followed by
/// one that begins behind its last result, and an empty page is the last.
/// No page follows either where its beginning is beyond what a `usize` can
/// count.
pub fn next_offset(offset: usize, hits: usize) -> (next: Option<usize>)
    ensures
        next == if hits > 0 && offset + hits <= usize::MAX {
            Some((offset + hits) as usize)
        } else {
            None
        },
{
    if hits == 0 {
        None
    } else {
        offset.checked_add(hits)
    }
}

} // verus!
