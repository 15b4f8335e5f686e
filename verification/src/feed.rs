//! Reading the feed page by page.

use vstd::prelude::*;
use crate::failure::{Failure, STATUS_BAD_REQUEST, STATUS_INTERNAL_ERROR, STATUS_OK};
use crate::limits::PAGE_SIZE;

verus! {

/// Number of posts to skip for the page asked for. Pages count from 1; a
/// request without a page, or for page 0, is malformed.
pub open spec fn offset_of(page: Option<u32>) -> Result<i64, Failure> {
    match page {
        Some(p) if p >= 1 => Ok(((p - 1) * PAGE_SIZE) as i64),
        _ => Err(Failure::Malformed),
    }
}

/// Validates the page of a feed request and turns it into the number of
/// posts that the persistence layer has to skip.
pub fn page_offset(page: Option<u32>) -> (offset: Result<i64, Failure>)
    ensures
        offset == offset_of(page),
        offset matches Ok(skip) ==> skip >= 0 && skip % PAGE_SIZE == 0,
{
    match page {
        Some(p) => {
            if p >= 1 {
                let before: i64 = (p - 1) as i64;
                Ok(before * PAGE_SIZE)
            } else {
                Err(Failure::Malformed)
            }
        },
        None => Err(Failure::Malformed),
    }
}

/// How serving a feed page went after the request was found valid.
#[derive(Clone, Copy, Debug, PartialEq, Eq, Structural)]
pub enum FeedOutcome {
    /// The page was loaded and serialized.
    Served,
    /// No connection to the persistence layer could be had.
    NoConnection,
    /// The persistence layer failed.
    LoadFailed,
    /// The page could not be serialized.
    SerializeFailed,
}

/// The status that answers a feed request: 400 for a request without a valid
/// page, 500 when serving it failed, 200 otherwise.
pub open spec fn feed_status_of(page: Option<u32>, outcome: FeedOutcome) -> u16 {
    if offset_of(page) is Err {
        STATUS_BAD_REQUEST
    } else if outcome == FeedOutcome::Served {
        STATUS_OK
    } else {
        STATUS_INTERNAL_ERROR
    }
}

/// The status code of the response to a feed request.
pub fn feed_status(page: Option<u32>, outcome: FeedOutcome) -> (code: u16)
    ensures
        code == feed_status_of(page, outcome),
{
    match page_offset(page) {
        Err(_) => STATUS_BAD_REQUEST,
        Ok(_) => match outcome {
            FeedOutcome::Served => STATUS_OK,
            _ => STATUS_INTERNAL_ERROR,
        },
    }
}

} // verus!
