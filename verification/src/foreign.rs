//! Types of the standard library that pass through this crate unopened.

use vstd::prelude::*;

verus! {

/// `std::io::Error`: the error of a reader. Nothing is known of a value of
/// it but that it is one.
#[verifier::external_type_specification]
#[verifier::external_body]
pub struct ExIoError(std::io::Error);

/// `std::io::SeekFrom`: the target of a seek. The window adapter takes one
/// and does not look at it.
#[verifier::external_type_specification]
#[verifier::external_body]
pub struct ExSeekFrom(std::io::SeekFrom);

} // verus!
