//! The two ways in which extraction and decoding fail.

use vstd::prelude::*;

verus! {

/// Why no slice, or no content, was returned.
#[derive(Clone, Copy, Debug, PartialEq, Eq, Structural)]
pub enum ProofError {
    /// A source ended before everything was read that the traversal of the
    /// tree asked of it.
    Io,
    /// The slice is no proof for the root digest: a digest does not match,
    /// the slice ends too early, or bytes are left over behind its end.
    InvalidData,
}

/// The outcome of an operation as contracts speak of it: the bytes of a
/// result, or the error.
pub open spec fn outcome_view(r: Result<Vec<u8>, ProofError>) -> Result<Seq<u8>, ProofError> {
    match r {
        Ok(bytes) => Ok(bytes@),
        Err(e) => Err(e),
    }
}

/// Turns what a reader over memory returned into the outcome of this
/// crate: the bytes as they are, and every error of the reader into
/// `ProofError::Io`.
pub fn or_io_error(outcome: Result<Vec<u8>, std::io::Error>) -> (r: Result<Vec<u8>, ProofError>)
    ensures
        match outcome {
            Ok(bytes) => r == Ok::<Vec<u8>, ProofError>(bytes),
            Err(_) => r == Err::<Vec<u8>, ProofError>(ProofError::Io),
        },
{
    match outcome {
        Ok(bytes) => Ok(bytes),
        Err(_) => Err(ProofError::Io),
    }
}

} // verus!
