//! A zero-copy reader for RIFF-family chunk containers.
//!
//! A RIFF stream is a flat sequence of chunks, each a 4-byte ASCII tag,
//! a 4-byte little-endian payload length, the payload itself, and a pad
//! byte after odd-length payloads. The reader walks a borrowed byte
//! buffer and hands out chunk views that borrow sub-slices of that
//! buffer; no payload byte is ever copied.

pub mod chunk;
pub mod error;
pub mod laws;
pub mod reader;
pub mod wire;

pub use chunk::Chunk;
pub use chunk::ChunkId;
pub use error::RiffError;
pub use reader::RiffReader;
