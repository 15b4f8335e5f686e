//! Admission of an image that is fetched from a remote address.
//!
//! A fetched image is judged chunk by chunk like an uploaded one, with an
//! `ImageScan`. Before the first chunk, the response itself is looked at.

use vstd::prelude::*;
use crate::failure::STATUS_OK;
use crate::limits::MAX_IMAGE_SIZE;

verus! {

/// Whether the body of a response is worth reading: the status is 200 and
/// the length that the response declares, if it declares one, is within the
/// ceiling for images.
pub open spec fn admissible(status: u16, content_length: Option<u64>) -> bool {
    &&& status == STATUS_OK
    &&& match content_length {
        Some(n) => n <= MAX_IMAGE_SIZE,
        None => true,
    }
}

/// Decides from status and declared length whether to read the body.
pub fn download_admissible(status: u16, content_length: Option<u64>) -> (ok: bool)
    ensures
        ok == admissible(status, content_length),
{
    if status != STATUS_OK {
        return false;
    }
    match content_length {
        Some(n) => n <= MAX_IMAGE_SIZE as u64,
        None => true,
    }
}

} // verus!
