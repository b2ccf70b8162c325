//! What holds of building, extracting and decoding together.

use crate::decode::{slice_decoder_output, spec_decode};
use crate::error::ProofError;
use crate::extract::{content_window, read_part, spec_extract, spec_extract_slice};
use crate::header::framed;
use crate::layout::{empty_query, window_hi, window_lo, MAX_CONTENT_LEN};
use crate::outboard::is_encoding_of;
use vstd::prelude::*;

verus! {

/// The chunks `first..=last` of a content, as far as the content has them.
pub open spec fn chunk_run(content: Seq<u8>, first: int, last: int) -> Seq<u8> {
    let from = if first * 1024 <= content.len() {
        first * 1024
    } else {
        content.len() as int
    };
    let to = if (last + 1) * 1024 <= content.len() {
        (last + 1) * 1024
    } else {
        content.len() as int
    };
    content.subrange(from, to)
}

/// The bytes of a content that the query `(start, len)` asks for: those of
/// the range that the content has.
pub open spec fn asked(content: Seq<u8>, start: u64, len: u64) -> Seq<u8> {
    let from = if start <= content.len() {
        start as int
    } else {
        content.len() as int
    };
    let to = if start + len <= content.len() {
        start + len
    } else {
        content.len() as int
    };
    content.subrange(from, to)
}

/// Two builds from one input agree: they give the same outboard encoding
/// and the same root digest.
pub proof fn lemma_builds_agree(
    input: Seq<u8>,
    obao_1: Seq<u8>,
    root_1: Seq<u8>,
    obao_2: Seq<u8>,
    root_2: Seq<u8>,
)
    requires
        is_encoding_of(input, obao_1, root_1),
        is_encoding_of(input, obao_2, root_2),
    ensures
        obao_1 == obao_2,
        root_1 == root_2,
{
}

/// The chunks of a range stand for the whole content. Where the range
/// `(start, len)` begins in chunk `first` and ends in or before chunk
/// `last`, extraction from the chunks `first..=last` alone gives what
/// extraction from the whole content gives, slice for slice and error for
/// error, whatever the outboard encoding.
pub proof fn lemma_chunks_stand_for_content(
    content: Seq<u8>,
    obao: Seq<u8>,
    start: u64,
    len: u64,
    first: int,
    last: int,
)
    requires
        content.len() <= u64::MAX,
        first == start / 1024,
        start + len <= (last + 1) * 1024,
    ensures
        spec_extract(obao, chunk_run(content, first, last), start, len, content.len() as u64)
            == spec_extract_slice(content, obao, start, len),
{
    let n = content.len() as u64;
    if !empty_query(start, len, n) {
        let lo = window_lo(start);
        let hi = window_hi(start, len, n);
        assert(lo == first * 1024);
        assert(lo <= start < n);
        assert(lo < hi <= n);
        assert(hi <= (last + 1) * 1024);
        let run = chunk_run(content, first, last);
        let rest = content_window(content, start);
        assert(rest == content.skip(lo));
        assert(run.len() >= hi - lo);
        assert(rest.len() >= hi - lo);
        assert(read_part(run, start, len, n) =~= content.subrange(lo, hi));
        assert(read_part(rest, start, len, n) =~= content.subrange(lo, hi));
    }
}

/// A query that asks for no byte gets the empty slice from extraction,
/// from a window and from the whole content, and no error. Such is a query
/// of length 0, and one that starts at or behind the end of the content.
pub proof fn lemma_nothing_asked_nothing_extracted(
    content: Seq<u8>,
    window: Seq<u8>,
    obao: Seq<u8>,
    start: u64,
    len: u64,
)
    requires
        content.len() <= u64::MAX,
        empty_query(start, len, content.len() as u64),
    ensures
        spec_extract(obao, window, start, len, content.len() as u64) == Ok::<Seq<u8>, ProofError>(
            Seq::empty(),
        ),
        spec_extract_slice(content, obao, start, len) == Ok::<Seq<u8>, ProofError>(Seq::empty()),
{
}

/// For a query that asks for no byte of the content, the empty slice
/// decodes to no byte and no error, whatever the root digest.
pub proof fn lemma_nothing_extracted_nothing_decoded(
    root: Seq<u8>,
    start: u64,
    len: u64,
    content_len: u64,
)
    requires
        empty_query(start, len, content_len),
    ensures
        spec_decode(Seq::empty(), root, start, len, content_len) == Ok::<Seq<u8>, ProofError>(
            Seq::empty(),
        ),
{
}

/// For a query that asks for no byte of a content, decoding what
/// extraction gives returns the bytes asked for: none.
pub proof fn lemma_round_trip_of_nothing(
    content: Seq<u8>,
    obao: Seq<u8>,
    root: Seq<u8>,
    start: u64,
    len: u64,
)
    requires
        content.len() <= u64::MAX,
        empty_query(start, len, content.len() as u64),
    ensures
        spec_extract_slice(content, obao, start, len) matches Ok(slice) && spec_decode(
            slice,
            root,
            start,
            len,
            content.len() as u64,
        ) == Ok::<Seq<u8>, ProofError>(asked(content, start, len)),
{
    assert(asked(content, start, len) =~= Seq::<u8>::empty());
}

/// A slice cut down to nothing is no proof for a query that asks for
/// bytes, and a slice that holds bytes is none for a query that asks for
/// no byte.
pub proof fn lemma_empty_slice_for_empty_query_only(
    slice: Seq<u8>,
    root: Seq<u8>,
    start: u64,
    len: u64,
    content_len: u64,
)
    requires
        (slice.len() == 0) != empty_query(start, len, content_len),
    ensures
        spec_decode(slice, root, start, len, content_len) == Err::<Seq<u8>, ProofError>(
            ProofError::InvalidData,
        ),
{
}

/// Decoding releases bytes for a query that asks for some only where the
/// decoder has accepted the slice and has taken all of it: what it
/// released is what the decoder verified, and no byte of the slice is left
/// over.
pub proof fn lemma_released_is_verified(
    slice: Seq<u8>,
    root: Seq<u8>,
    start: u64,
    len: u64,
    content_len: u64,
    content: Seq<u8>,
)
    requires
        !empty_query(start, len, content_len),
        spec_decode(slice, root, start, len, content_len) == Ok::<Seq<u8>, ProofError>(content),
    ensures
        slice.len() > 0,
        content_len <= MAX_CONTENT_LEN,
        slice_decoder_output(framed(content_len, slice), root, start, len) == Some(
            (content, 8 + slice.len()),
        ),
{
}

} // verus!
