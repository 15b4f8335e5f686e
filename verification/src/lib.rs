//! Ingestion core of a small blog server.
//!
//! One request bundles a metadata part and up to two images. This crate holds
//! every decision of that pipeline as verified, side-effect free code: how a
//! part is classified, when an image is accepted, which stored files have to be
//! removed after a failure, how long leftover request data is drained and what
//! is finally persisted. The surrounding server performs the I/O and reports
//! what happened.

pub mod download;
pub mod drain;
pub mod failure;
pub mod feed;
pub mod field;
pub mod image_name;
pub mod ingest;
pub mod laws;
pub mod limits;
pub mod metadata;
pub mod models;
pub mod report;
pub mod sniff;

pub use report::unroll_anyhow_result;
