//! The outboard encoding of a file, and its root digest.
//!
//! The encoding is the parent nodes of the hash tree, each before its
//! subtrees and the left subtree before the right one. A parent node is the
//! digests of its two children. The encoding holds no content and no
//! length: its size follows from the length of the content.

use crate::digest::Digest;
use crate::header::{body_of, spec_header, without_header};
use crate::layout::spec_outboard_size;
use vstd::prelude::*;

verus! {

/// What `bao::encode::outboard` computes for an input: its outboard
/// encoding, which opens with the length header, and the root digest.
pub uninterp spec fn outboard_encoding(input: Seq<u8>) -> (Seq<u8>, Seq<u8>);

/// The outboard encoding of an input: the parent nodes, without the header
/// of the encoder crate.
pub open spec fn outboard_of(input: Seq<u8>) -> Seq<u8> {
    body_of(outboard_encoding(input).0)
}

/// The root digest of an input.
pub open spec fn root_of(input: Seq<u8>) -> Seq<u8> {
    outboard_encoding(input).1
}

/// Whether `obao` and `root` are the outboard encoding and the root digest
/// of `input`.
pub open spec fn is_encoding_of(input: Seq<u8>, obao: Seq<u8>, root: Seq<u8>) -> bool {
    obao == outboard_of(input) && root == root_of(input)
}

/// Calls `bao::encode::outboard`. The contract gives its two results their
/// names, and states of the encoding what the format fixes without regard
/// to the hash function: it is the header for the length of the input, and
/// behind it one parent node of 64 bytes for every chunk but one.
#[verifier::external_body]
fn encode_outboard(input: &[u8]) -> (r: (Vec<u8>, Digest))
    ensures
        (r.0@, r.1@) == outboard_encoding(input@),
        r.0@.len() == 8 + spec_outboard_size(input@.len()),
        r.0@.subrange(0, 8) == spec_header(input@.len() as u64),
{
    let (obao, hash) = bao::encode::outboard(input);
    (obao, Digest { bytes: *hash.as_bytes() })
}

/// Builds the outboard encoding of a whole input, and its root digest.
///
/// Both depend on the input alone: the same input gives the same encoding
/// and the same digest. The encoding has 64 bytes for every chunk but one,
/// so it is empty for an input of one chunk or less.
pub fn create_obao(whole_input: Vec<u8>) -> (r: (Vec<u8>, Digest))
    ensures
        is_encoding_of(whole_input@, r.0@, r.1@),
        r.0@.len() == spec_outboard_size(whole_input@.len()),
{
    let (with_header, root) = encode_outboard(whole_input.as_slice());
    (without_header(with_header.as_slice()), root)
}

} // verus!
