//! Fixed ceilings of the ingestion pipeline.

use vstd::prelude::*;

verus! {

/// Longest accepted post text, in bytes.
pub const MAX_TEXT_SIZE: usize = 2000;

/// Longest accepted author name, in bytes.
pub const MAX_USERNAME_SIZE: usize = 128;

/// Largest accepted image, in bytes (2 MiB).
pub const MAX_IMAGE_SIZE: usize = 2097152;

/// Largest accepted metadata payload, in bytes: text, author name and a date.
pub const MAX_METADATA_SIZE: usize = 2138;

/// Number of posts on one feed page.
pub const PAGE_SIZE: i64 = 5;

/// Most parts that are discarded while draining an abandoned request.
pub const MAX_CHUNKS: u32 = 20;

/// Seconds to wait for one more part while draining.
pub const CHUNK_TIMEOUT_SECS: u64 = 1;

} // verus!
