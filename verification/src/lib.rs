//! Page-oriented storage core of a database engine.
//!
//! The crate owns the physical layout of fixed-size pages in segment files,
//! the per-page CRC-32 integrity code, the aligned-buffer discipline needed
//! for direct I/O, and the bookkeeping of the append-only write-ahead log.
//! All decisions are made here, over plain values; the actual kernel I/O is
//! driven by an unverified shell that submits the operations this crate
//! prepares and hands their completions back in.

use vstd::prelude::*;

pub mod addressing;
pub mod buffer;
pub mod codec;
pub mod manager;
pub mod resident;
pub mod stateless;
pub mod types;

verus! {

/// Size of one on-disk page in bytes: a 4-byte big-endian checksum header
/// followed by the payload.
pub const PAGE_SIZE: usize = 8192;

/// Number of pages one segment file holds.
pub const PAGES_PER_SEGMENT: u32 = 131072;

/// Full size of a segment file in bytes (1 GiB); segment files are
/// pre-allocated to this size when first created.
pub const SEGMENT_SIZE_BYTES: u64 = 1073741824;

} // verus!
