//! Chunks: a file is moved in pieces of one mebibyte, and a transfer resumes
//! at the edge of a piece, so that no half-written piece is ever kept.

use vstd::prelude::*;

verus! {

/// The size of a piece, and the grain of resuming.
pub const CHUNK_SIZE: u64 = 1024 * 1024;

/// How much is read at a time for hashing.
pub const HASH_READ_BUFFER_SIZE: u64 = 256 * 1024;

/// How much is written between two progress reports.
pub const PROGRESS_SLICE_SIZE: u64 = 64 * 1024;

/// The smaller of two numbers.
pub open spec fn least(a: int, b: int) -> int {
    if a < b {
        a
    } else {
        b
    }
}

/// The edge of the chunk that `offset` lies in.
pub open spec fn chunk_edge(offset: int) -> int {
    offset - offset % (CHUNK_SIZE as int)
}

/// A position where a chunk of a file of `size` bytes starts, or its end.
pub open spec fn on_edge(position: int, size: int) -> bool {
    position % (CHUNK_SIZE as int) == 0 || position == size
}

/// The smaller of two numbers.
pub fn smaller(a: u64, b: u64) -> (r: u64)
    ensures
        r == least(a as int, b as int),
{
    if a < b {
        a
    } else {
        b
    }
}

/// Rounds an offset down to a chunk edge.
pub fn align_down(offset: u64) -> (r: u64)
    ensures
        r == chunk_edge(offset as int),
        r <= offset,
        offset - r < CHUNK_SIZE,
        r % CHUNK_SIZE == 0,
{
    offset - (offset % CHUNK_SIZE)
}

/// The length of the chunk at `offset` of a file of `size` bytes.
pub fn chunk_len(offset: u64, size: u64) -> (r: u64)
    requires
        offset < size,
    ensures
        r == least(CHUNK_SIZE as int, size - offset),
        0 < r <= CHUNK_SIZE,
        offset + r <= size,
{
    smaller(CHUNK_SIZE, size - offset)
}

/// Where the next written slice of a chunk of `len` bytes ends.
pub fn slice_end(written: u64, len: u64) -> (r: u64)
    requires
        written < len,
    ensures
        r == least(written + PROGRESS_SLICE_SIZE, len as int),
        written < r <= len,
{
    if len - written < PROGRESS_SLICE_SIZE {
        len
    } else {
        written + PROGRESS_SLICE_SIZE
    }
}

/// How many bytes in front of a resume offset are compared before resuming.
pub fn boundary_len(offset: u64) -> (r: u64)
    ensures
        r == least(CHUNK_SIZE as int, offset as int),
{
    smaller(CHUNK_SIZE, offset)
}

/// Rounding down twice is rounding down once.
pub proof fn chunk_edge_is_stable(offset: int)
    requires
        0 <= offset,
    ensures
        chunk_edge(chunk_edge(offset)) == chunk_edge(offset),
        0 <= chunk_edge(offset) <= offset < chunk_edge(offset) + CHUNK_SIZE,
{
}

/// Rounding down keeps the order of offsets.
pub proof fn chunk_edge_is_monotone(a: int, b: int)
    requires
        0 <= a <= b,
    ensures
        chunk_edge(a) <= chunk_edge(b),
{
}

/// From a chunk edge, the next chunk leads to a chunk edge again.
pub proof fn chunks_tile_the_file(offset: int, size: int)
    requires
        0 <= offset < size,
        on_edge(offset, size),
    ensures
        on_edge(offset + least(CHUNK_SIZE as int, size - offset), size),
{
}

/// A chunk holds a mebibyte, but for the last one, which ends with the file.
pub proof fn chunks_hold_a_mebibyte(offset: u64, size: u64, len: u64)
    requires
        offset < size,
        call_ensures(chunk_len, (offset, size), len),
    ensures
        len <= 1_048_576,
        offset + len <= size,
        len == 1_048_576 || offset + len == size,
{
}

/// Progress is reported every 64 kibibytes, and at the end of a chunk.
pub proof fn slices_follow_each_other(written: u64, len: u64, end: u64)
    requires
        written < len,
        call_ensures(slice_end, (written, len), end),
    ensures
        written < end <= len,
        end == written + 65_536 || end == len,
        end <= written + 65_536,
{
}

} // verus!
