//! Image conversion pipeline: decode an in-memory byte buffer into a typed
//! raster image, inspect its metadata, resample it to new dimensions, and
//! re-encode it into a byte buffer with a declared MIME type and filename.

pub mod codec;
pub mod compress;
pub mod error;
pub mod image;
