//! Decoding of a slice: a proof is held against the root digest.
//!
//! The decoder walks the slice as extraction wrote it. It hashes every
//! parent node and every chunk that it meets and compares the digest with
//! the one that the node's parent, or the root digest, holds for it. Only
//! bytes of chunks that passed are released, cut to the range of the query.
//!
//! A slice does not say how long the content is. The length is given with
//! the query: it fixes the shape of the tree, and with it the place of
//! every node in the slice.

use crate::digest::Digest;
use crate::error::{outcome_view, ProofError};
use crate::header::{framed, lemma_framed, recorded_len, with_header};
use crate::layout::{empty_query, MAX_CONTENT_LEN};
use vstd::prelude::*;

verus! {

/// What a `bao::decode::SliceDecoder` gives when it is read to its end,
/// and how many bytes of the slice it has taken by then; `None` where it
/// reports an error. The decoder is made by `SliceDecoder::new` over a
/// slice that opens with the length header, the root digest and the query.
pub uninterp spec fn slice_decoder_output(slice: Seq<u8>, root: Seq<u8>, start: u64, len: u64)
    -> Option<(Seq<u8>, nat)>;

/// Makes a `bao::decode::SliceDecoder` with `new` over a cursor on the
/// slice, reads it to its end, and asks the cursor for its position. What
/// comes back depends on the four arguments alone: the contract gives it its
/// name. It also states what the decoder's `read` shows: it hands out no
/// more bytes than the query asks for.
///
/// The decoder keeps the digests that it still expects on a stack of 54
/// entries, which is enough for a content of up to 2^63 bytes. A slice for
/// a longer content is kept away from it. It is called for queries that ask
/// for at least one byte of the content whose length the header records.
#[verifier::external_body]
fn run_slice_decoder(slice: &[u8], root: &Digest, start: u64, len: u64) -> (r: Result<
    (Vec<u8>, u64),
    std::io::Error,
>)
    requires
        recorded_len(slice@) matches Some(n) && n <= MAX_CONTENT_LEN && !empty_query(
            start,
            len,
            n,
        ),
    ensures
        match r {
            Ok((content, used)) => {
                &&& slice_decoder_output(slice@, root@, start, len) == Some(
                    (content@, used as nat),
                )
                &&& content@.len() <= len
            },
            Err(_) => slice_decoder_output(slice@, root@, start, len) is None,
        },
{
    let hash = bao::Hash::from(root.bytes);
    let mut decoder = bao::decode::SliceDecoder::new(std::io::Cursor::new(slice), &hash, start, len);
    let mut content = Vec::new();
    match std::io::Read::read_to_end(&mut decoder, &mut content) {
        Ok(_) => Ok((content, decoder.into_inner().position())),
        Err(e) => Err(e),
    }
}

/// The verdict on a slice that has `slice_len` bytes with its header, given
/// what the decoder made of it. The content is released where the decoder
/// accepted the slice and took all of it. A slice that the decoder refused,
/// and one with bytes left over, is invalid.
pub open spec fn verdict(run: Option<(Seq<u8>, nat)>, slice_len: nat) -> Result<
    Seq<u8>,
    ProofError,
> {
    match run {
        Some((content, used)) => if used == slice_len {
            Ok(content)
        } else {
            Err(ProofError::InvalidData)
        },
        None => Err(ProofError::InvalidData),
    }
}

/// What the decoder returned, as `verdict` takes it.
pub open spec fn run_view(outcome: Result<(Vec<u8>, u64), std::io::Error>) -> Option<
    (Seq<u8>, nat),
> {
    match outcome {
        Ok((content, used)) => Some((content@, used as nat)),
        Err(_) => None,
    }
}

/// The outcome of decoding a slice for the query `(start, len)` on a
/// content of `content_len` bytes, against a root digest.
///
/// A query that asks for no byte of the content has the empty slice, which
/// decodes to no byte; any other slice has bytes left over for it and is
/// invalid. A query that asks for bytes is not answered by the empty slice:
/// that slice ends too early. Nor can a slice be held against a content of
/// more than `MAX_CONTENT_LEN` bytes. For any other slice the decoder
/// decides, and `verdict` is passed on it.
pub open spec fn spec_decode(
    slice: Seq<u8>,
    root: Seq<u8>,
    start: u64,
    len: u64,
    content_len: u64,
) -> Result<Seq<u8>, ProofError> {
    if empty_query(start, len, content_len) {
        if slice.len() == 0 {
            Ok(Seq::empty())
        } else {
            Err(ProofError::InvalidData)
        }
    } else if slice.len() == 0 || content_len > MAX_CONTENT_LEN {
        Err(ProofError::InvalidData)
    } else {
        verdict(
            slice_decoder_output(framed(content_len, slice), root, start, len),
            8 + slice.len(),
        )
    }
}

/// Passes the verdict on a slice that has `slice_len` bytes with its
/// header, given what the decoder returned for it: the content and the
/// number of bytes of the slice that it took, or its error.
pub fn conclude(outcome: Result<(Vec<u8>, u64), std::io::Error>, slice_len: usize) -> (r: Result<
    Vec<u8>,
    ProofError,
>)
    ensures
        outcome_view(r) == verdict(run_view(outcome), slice_len as nat),
{
    match outcome {
        Ok((content, used)) => {
            if used == slice_len as u64 {
                Ok(content)
            } else {
                Err(ProofError::InvalidData)
            }
        },
        Err(_) => Err(ProofError::InvalidData),
    }
}

/// Decodes a slice for the byte range `(start, len)` of a content of
/// `content_len` bytes against the root digest of the content, and returns
/// the bytes of the range.
///
/// Every failure is `ProofError::InvalidData`, and no byte is returned with
/// it. Bytes are returned only where the decoder has accepted the slice and
/// has taken all of it, and never more than `len` of them. The empty slice
/// is accepted for a query that asks for no byte, and for no other.
pub fn decode_slice(slice: &[u8], root: &Digest, start: u64, len: u64, content_len: u64) -> (r:
    Result<Vec<u8>, ProofError>)
    ensures
        outcome_view(r) == spec_decode(slice@, root@, start, len, content_len),
        r matches Ok(content) ==> content@.len() <= len,
        r matches Err(e) ==> e == ProofError::InvalidData,
{
    if len == 0 || start >= content_len {
        return if slice.len() == 0 {
            Ok(Vec::new())
        } else {
            Err(ProofError::InvalidData)
        };
    }
    if slice.len() == 0 || content_len > MAX_CONTENT_LEN {
        return Err(ProofError::InvalidData);
    }
    let with_slice_header = with_header(content_len, slice);
    proof {
        lemma_framed(content_len, slice@);
    }
    conclude(
        run_slice_decoder(with_slice_header.as_slice(), root, start, len),
        with_slice_header.len(),
    )
}

} // verus!
