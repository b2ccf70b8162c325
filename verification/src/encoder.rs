//! The outboard encoding, built by writing the input through the
//! incremental encoder.

use crate::error::{or_io_error, ProofError};
use crate::header::without_header;
use crate::layout::spec_outboard_size;
use crate::outboard::{outboard_encoding, outboard_of};
use vstd::prelude::*;

verus! {

/// Writes the whole input to a `bao::encode::Encoder` made by
/// `Encoder::new_outboard` over a cursor on a vector, and finalizes it.
/// These are the calls that `bao::encode::outboard` makes, and it unwraps
/// their results: writes to a vector do not fail. So the encoder reports no
/// error, and the vector holds what `bao::encode::outboard` returns for the
/// input, of the size that the format fixes.
#[verifier::external_body]
fn encode_outboard_incrementally(input: &[u8]) -> (r: Result<Vec<u8>, std::io::Error>)
    ensures
        r is Ok,
        r matches Ok(obao) ==> obao@ == outboard_encoding(input@).0,
        r matches Ok(obao) ==> obao@.len() == 8 + spec_outboard_size(input@.len()),
{
    let mut obao = Vec::new();
    let mut encoder = bao::encode::Encoder::new_outboard(std::io::Cursor::new(&mut obao));
    match std::io::Write::write_all(&mut encoder, input) {
        Ok(()) => match encoder.finalize() {
            Ok(_) => Ok(obao),
            Err(e) => Err(e),
        },
        Err(e) => Err(e),
    }
}

/// Builds the outboard encoding of a whole input in one forward pass over
/// it. It never fails, and the encoding is the one that
/// `outboard::create_obao` gives.
pub fn create_obao(whole_input: Vec<u8>) -> (r: Result<Vec<u8>, ProofError>)
    ensures
        r matches Ok(obao) && obao@ == outboard_of(whole_input@) && obao@.len()
            == spec_outboard_size(whole_input@.len()),
{
    match or_io_error(encode_outboard_incrementally(whole_input.as_slice())) {
        Ok(with_header) => Ok(without_header(with_header.as_slice())),
        Err(e) => Err(e),
    }
}

} // verus!
