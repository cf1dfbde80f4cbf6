//! Choice of how a file's bytes reach the engine.

use vstd::prelude::*;

verus! {

/// Chunk size for files up to `LARGE_FILE_THRESHOLD` bytes.
pub const BUFFER_SIZE: usize = 2 * 1024 * 1024;

/// Largest file read whole into memory when it cannot be mapped.
pub const MMAP_THRESHOLD: u64 = 4 * 1024 * 1024 * 1024;

/// Size above which the larger chunk is used.
pub const LARGE_FILE_THRESHOLD: u64 = 100 * 1024 * 1024;

/// Chunk size for files above `LARGE_FILE_THRESHOLD` bytes.
pub const LARGE_BUFFER_SIZE: usize = 4 * 1024 * 1024;

/// How the file's bytes are presented to the engine.
#[derive(Debug, Clone, Copy, PartialEq, Eq, Structural)]
pub enum Strategy {
    /// A read-only mapping of the whole file.
    Mapped,
    /// The whole file read into one owned buffer.
    FullBuffer,
    /// Fixed-size chunks read one after another.
    Chunked,
}

pub open spec fn strategy_for(file_size: u64, mapping_available: bool) -> Strategy {
    if mapping_available {
        Strategy::Mapped
    } else if file_size <= MMAP_THRESHOLD {
        Strategy::FullBuffer
    } else {
        Strategy::Chunked
    }
}

/// A mapping is used whenever one was obtained; otherwise the file is read
/// whole up to `MMAP_THRESHOLD` bytes, and in chunks beyond.
pub fn select_strategy(file_size: u64, mapping_available: bool) -> (r: Strategy)
    ensures
        r == strategy_for(file_size, mapping_available),
{
    if mapping_available {
        Strategy::Mapped
    } else if file_size <= MMAP_THRESHOLD {
        Strategy::FullBuffer
    } else {
        Strategy::Chunked
    }
}

/// Size of each read in chunked mode.
pub fn chunk_size(file_size: u64) -> (r: usize)
    ensures
        r == (if file_size > LARGE_FILE_THRESHOLD { LARGE_BUFFER_SIZE } else { BUFFER_SIZE }),
        r > 0,
{
    if file_size > LARGE_FILE_THRESHOLD {
        LARGE_BUFFER_SIZE
    } else {
        BUFFER_SIZE
    }
}

impl Strategy {
    /// Whether the whole file is one contiguous buffer.
    pub open spec fn is_contiguous(self) -> bool {
        self == Strategy::Mapped || self == Strategy::FullBuffer
    }
}

/// Hashing units run concurrently only over one contiguous buffer, and only
/// when more than one algorithm is requested.
pub fn use_parallel(strategy: Strategy, algorithm_count: usize) -> (r: bool)
    ensures
        r == (strategy.is_contiguous() && algorithm_count > 1),
{
    match strategy {
        Strategy::Chunked => false,
        _ => algorithm_count > 1,
    }
}

/// Whether a single-algorithm pass first tries a mapping: only for a
/// non-empty file up to `MMAP_THRESHOLD` bytes.
pub fn single_pass_tries_mapping(file_size: u64) -> (r: bool)
    ensures
        r == (0 < file_size && file_size <= MMAP_THRESHOLD),
{
    file_size <= MMAP_THRESHOLD && file_size > 0
}

} // verus!
