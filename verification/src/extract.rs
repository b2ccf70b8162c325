//! Extraction of a slice: the proof for one byte range.
//!
//! A slice is the nodes of the tree as a walk from the root meets them,
//! left before right: the parent nodes whose subtrees hold bytes of the
//! range, and the chunks that hold bytes of the range, whole. It holds no
//! length and no marks: what comes next follows from the query and the
//! length of the content. The slice of a content of one chunk is the chunk.
//!
//! The walk reads the content front to back, from the start of the first
//! chunk of the range. So the chunks of the range are all the content that
//! extraction needs, and the window adapter hands them to it.

use crate::error::{or_io_error, outcome_view, ProofError};
use crate::header::{body_of, framed, lemma_framed, recorded_len, with_header, without_header};
use crate::layout::{empty_query, query_window, window_hi, window_lo};
use crate::window::FakeSeeker;
use vstd::prelude::*;
use vstd::slice::slice_subrange;

verus! {

/// What a `bao::encode::SliceExtractor` gives when it is read to its end:
/// its slice, which opens with the length header, or `None` where it
/// reports an error. The extractor is made by `SliceExtractor::new_outboard`
/// over an outboard encoding with its header, a window adapter that has
/// `unread` left to hand out, and the query.
pub uninterp spec fn slice_extractor_output(
    obao: Seq<u8>,
    unread: Seq<u8>,
    start: u64,
    len: u64,
) -> Option<Seq<u8>>;

/// Makes a `bao::encode::SliceExtractor` with `new_outboard` and reads it
/// to its end. The extractor reads the outboard encoding through a cursor
/// and the content through the window adapter, so what it returns depends
/// on the four arguments alone: the contract gives that result its name.
///
/// It also states how every slice begins: the extractor's first step is to
/// copy the length header of the encoding to its output. And it states the
/// slice of a content of one chunk: the tree has no parent node, so the
/// extractor reads the chunk from the window and hands it on behind the
/// header, and fails only where the window is shorter than the content.
///
/// It is called for queries that ask for at least one byte of the content
/// whose length the encoding records.
#[verifier::external_body]
fn run_slice_extractor(obao: &[u8], source: FakeSeeker, start: u64, len: u64) -> (r: Result<
    Vec<u8>,
    std::io::Error,
>)
    requires
        recorded_len(obao@) matches Some(n) && !empty_query(start, len, n),
    ensures
        match r {
            Ok(slice) => {
                &&& slice_extractor_output(obao@, source@, start, len) == Some(slice@)
                &&& slice@.len() >= 8
                &&& slice@.subrange(0, 8) == obao@.subrange(0, 8)
                &&& match recorded_len(obao@) {
                    Some(n) => n <= 1024 ==> source@.len() >= n && body_of(slice@)
                        == source@.take(n as int),
                    None => true,
                }
            },
            Err(_) => {
                &&& slice_extractor_output(obao@, source@, start, len) is None
                &&& match recorded_len(obao@) {
                    Some(n) => n <= 1024 ==> source@.len() < n,
                    None => true,
                }
            },
        },
{
    let outboard = std::io::Cursor::new(obao);
    let mut extractor = bao::encode::SliceExtractor::new_outboard(source, outboard, start, len);
    let mut slice = Vec::new();
    match std::io::Read::read_to_end(&mut extractor, &mut slice) {
        Ok(_) => Ok(slice),
        Err(e) => Err(e),
    }
}

/// The bytes of a window that extraction reads for a query on a content of
/// `content_len` bytes: as many as lie between the start of the chunk that
/// holds `start` and the end of the chunk that holds the last byte asked
/// for. What the window holds behind them plays no part.
pub open spec fn read_part(window: Seq<u8>, start: u64, len: u64, content_len: u64) -> Seq<u8> {
    let needed = window_hi(start, len, content_len) - window_lo(start);
    if window.len() <= needed {
        window
    } else {
        window.take(needed)
    }
}

/// The outcome of extracting the slice for `(start, len)` from the outboard
/// encoding of a content of `content_len` bytes and a window of the
/// content.
///
/// A query that asks for no byte, because its length is 0 or because it
/// starts at or behind the end of the content, has the empty slice. For any
/// other query the extractor decides, and the slice is what it returns
/// without the header; it fails where the encoding or the window ends
/// before the walk is done.
pub open spec fn spec_extract(
    obao: Seq<u8>,
    window: Seq<u8>,
    start: u64,
    len: u64,
    content_len: u64,
) -> Result<Seq<u8>, ProofError> {
    if empty_query(start, len, content_len) {
        Ok(Seq::empty())
    } else {
        match slice_extractor_output(
            framed(content_len, obao),
            read_part(window, start, len, content_len),
            start,
            len,
        ) {
            Some(slice) => Ok(body_of(slice)),
            None => Err(ProofError::Io),
        }
    }
}

/// The outcome of extraction for a content of one chunk: the slice is the
/// content, taken from the front of the window, and extraction fails where
/// the window is shorter than the content.
pub open spec fn spec_extract_one_chunk(window: Seq<u8>, content_len: u64) -> Result<
    Seq<u8>,
    ProofError,
> {
    if window.len() >= content_len {
        Ok(window.take(content_len as int))
    } else {
        Err(ProofError::Io)
    }
}

/// The content from the start of the chunk that holds `start` on: the
/// window that the whole content offers for a query.
pub open spec fn content_window(content: Seq<u8>, start: u64) -> Seq<u8> {
    if window_lo(start) <= content.len() {
        content.skip(window_lo(start))
    } else {
        Seq::empty()
    }
}

/// The outcome of extracting the slice for `(start, len)` from an outboard
/// encoding and the whole content.
pub open spec fn spec_extract_slice(content: Seq<u8>, obao: Seq<u8>, start: u64, len: u64) -> Result<
    Seq<u8>,
    ProofError,
> {
    spec_extract(obao, content_window(content, start), start, len, content.len() as u64)
}

/// Extracts the slice for the byte range `(start, len)` from the outboard
/// encoding of a content of `content_len` bytes and a window of the
/// content. The window must begin with the first byte of the chunk that
/// holds `start`, and reach to the end of the chunk that holds the last
/// byte of the range, or to the end of the content. It may reach further.
///
/// Returns the empty slice where `len` is 0 or `start` is not below
/// `content_len`. Fails with `ProofError::Io` where the encoding or the
/// window ends before extraction has read what it needs. For a content of
/// one chunk the slice is the content itself.
pub fn extract_window(obao: &[u8], window: &[u8], start: u64, len: u64, content_len: u64) -> (r:
    Result<Vec<u8>, ProofError>)
    ensures
        outcome_view(r) == spec_extract(obao@, window@, start, len, content_len),
        content_len <= 1024 && !empty_query(start, len, content_len) ==> outcome_view(r)
            == spec_extract_one_chunk(window@, content_len),
{
    match query_window(start, len, content_len) {
        None => Ok(Vec::new()),
        Some((lo, hi)) => {
            let needed: u64 = hi - lo;
            let have: usize = window.len();
            let part: &[u8] = if have as u64 <= needed {
                window
            } else {
                slice_subrange(window, 0, needed as usize)
            };
            let with_obao_header = with_header(content_len, obao);
            proof {
                lemma_framed(content_len, obao@);
            }
            match or_io_error(
                run_slice_extractor(with_obao_header.as_slice(), FakeSeeker::new(part), start, len),
            ) {
                Ok(slice) => {
                    let body = without_header(slice.as_slice());
                    assert(content_len <= 1024 ==> body@ =~= window@.take(content_len as int));
                    Ok(body)
                },
                Err(e) => Err(e),
            }
        },
    }
}

/// Extracts the slice for the one chunk that begins at `start_index` from
/// the outboard encoding of a content of `content_len` bytes and that
/// chunk alone.
pub fn create_slice(obao: Vec<u8>, chunks: &[u8], start_index: usize, content_len: u64) -> (r:
    Result<Vec<u8>, ProofError>)
    ensures
        outcome_view(r) == spec_extract(obao@, chunks@, start_index as u64, 1024, content_len),
        content_len <= 1024 && start_index < content_len ==> outcome_view(r)
            == spec_extract_one_chunk(chunks@, content_len),
{
    extract_window(obao.as_slice(), chunks, start_index as u64, 1024, content_len)
}

/// Extracts the slice for the byte range `(start, len)` from an outboard
/// encoding and the whole content. The slice is the one that
/// `extract_window` gives for the chunks of the range.
pub fn extract_slice(content: &[u8], obao: &[u8], start: u64, len: u64) -> (r: Result<
    Vec<u8>,
    ProofError,
>)
    ensures
        outcome_view(r) == spec_extract_slice(content@, obao@, start, len),
        content@.len() <= 1024 && !empty_query(start, len, content@.len() as u64) ==> outcome_view(
            r,
        ) == Ok::<Seq<u8>, ProofError>(content@),
{
    let have: usize = content.len();
    let lo: u64 = start - start % 1024;
    let from: usize = if lo <= have as u64 {
        lo as usize
    } else {
        have
    };
    let window: &[u8] = slice_subrange(content, from, have);
    assert(window@ =~= content_window(content@, start));
    let r = extract_window(obao, window, start, len, have as u64);
    assert(content@.len() <= 1024 && !empty_query(start, len, have as u64) ==> window@.take(
        have as int,
    ) =~= content@);
    r
}

} // verus!
