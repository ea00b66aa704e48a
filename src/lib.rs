//! Batch image transform-and-pack pipeline.
//!
//! A batch of named raw images is decoded, transformed one by one (in parallel),
//! re-encoded as PNG and packed, in submission order, into one stored ZIP archive.
//! Any failure of any item fails the whole batch.

pub mod error;
pub mod raster;
pub mod archive;
pub mod batch;
pub mod pipeline;
