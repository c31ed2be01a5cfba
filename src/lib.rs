//! Streaming LZ4 frame compression of in-memory buffers and byte streams,
//! with bounded working memory.

pub mod compression;
pub mod encoder;
pub mod error;
pub mod stream;
