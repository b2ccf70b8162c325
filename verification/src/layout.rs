//! Sizes of the tree encoding and the arithmetic that maps a byte range of
//! the content to the chunks that hold it.

use vstd::prelude::*;

verus! {

/// Number of content bytes in a chunk, the leaf of the hash tree. Only the
/// last chunk of a content may be shorter.
pub const CHUNK_SIZE: usize = 1024;

/// Number of bytes in a digest.
pub const HASH_SIZE: usize = 32;

/// Number of bytes in a parent node: the digests of its two children.
pub const PARENT_SIZE: usize = 64;

/// Number of bytes in the length header that the encoder crate puts in
/// front of its encodings.
pub const HEADER_SIZE: usize = 8;

/// Largest content length that a slice can be decoded for. A tree over
/// more bytes would be deeper than the decoder's stack of pending digests.
pub const MAX_CONTENT_LEN: u64 = 0x8000_0000_0000_0000;

/// Number of chunks of a content of `content_len` bytes. The empty content
/// still has one (empty) chunk.
pub open spec fn spec_count_chunks(content_len: nat) -> nat {
    if content_len == 0 {
        1
    } else {
        ((content_len + 1023) / 1024) as nat
    }
}

/// Number of bytes of the outboard encoding of a content of `content_len`
/// bytes: one parent node for every chunk but one, and nothing else. A
/// content of one chunk has the empty encoding.
pub open spec fn spec_outboard_size(content_len: nat) -> nat {
    (64 * (spec_count_chunks(content_len) - 1)) as nat
}

/// Offset at which the chunk that holds `offset` begins.
pub open spec fn chunk_floor(offset: int) -> int {
    (offset / 1024) * 1024
}

/// Smallest chunk boundary that is not below `offset`.
pub open spec fn chunk_ceil(offset: int) -> int {
    ((offset + 1023) / 1024) * 1024
}

/// Whether the query `(start, len)` asks for no byte of a content of
/// `content_len` bytes.
pub open spec fn empty_query(start: u64, len: u64, content_len: u64) -> bool {
    len == 0 || start >= content_len
}

/// Offset of the first byte that extraction reads for the query: the start
/// of the chunk that holds `start`.
pub open spec fn window_lo(start: u64) -> int {
    chunk_floor(start as int)
}

/// Offset one past the last byte that extraction reads for the query: the
/// end of the chunk that holds the last byte asked for, or the end of the
/// content where the query runs past it.
pub open spec fn window_hi(start: u64, len: u64, content_len: u64) -> int {
    if chunk_ceil(start + len) <= content_len {
        chunk_ceil(start + len)
    } else {
        content_len as int
    }
}

/// Number of chunks of a content.
pub fn count_chunks(content_len: u64) -> (n: u64)
    ensures
        n == spec_count_chunks(content_len as nat),
{
    let full: u64 = content_len / 1024;
    if content_len == 0 {
        1
    } else if content_len % 1024 != 0 {
        full + 1
    } else {
        full
    }
}

/// Size of the outboard encoding of a content.
pub fn outboard_size(content_len: u64) -> (n: u64)
    ensures
        n == spec_outboard_size(content_len as nat),
{
    let parents: u64 = count_chunks(content_len) - 1;
    64 * parents
}

/// Bounds `(lo, hi)` of the content bytes that extraction reads for a query,
/// or `None` where the query asks for no byte of the content.
///
/// The window begins on a chunk boundary, less than a chunk before `start`.
/// It holds every byte of the content that the query asks for, and ends on
/// the next chunk boundary behind them or with the content.
pub fn query_window(start: u64, len: u64, content_len: u64) -> (r: Option<(u64, u64)>)
    ensures
        empty_query(start, len, content_len) <==> r is None,
        r matches Some((lo, hi)) ==> {
            &&& lo == window_lo(start)
            &&& hi == window_hi(start, len, content_len)
            &&& lo % 1024 == 0
            &&& start - 1024 < lo <= start < hi <= content_len
            &&& start + len <= content_len ==> start + len <= hi < start + len + 1024
            &&& start + len > content_len ==> hi == content_len
            &&& hi == content_len || hi % 1024 == 0
        },
{
    if len == 0 || start >= content_len {
        return None;
    }
    let lo: u64 = start - start % 1024;
    let room: u64 = content_len - start;
    if len >= room {
        return Some((lo, content_len));
    }
    let end: u64 = start + len;
    let over: u64 = end % 1024;
    if over == 0 {
        return Some((lo, end));
    }
    let pad: u64 = 1024 - over;
    if content_len - end <= pad {
        Some((lo, content_len))
    } else {
        Some((lo, end + pad))
    }
}

} // verus!
