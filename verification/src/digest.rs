//! The root digest: the one value that a verifier has to know of a file.

use crate::layout::HASH_SIZE;
use vstd::prelude::*;

verus! {

/// The digest of a whole file, the root of its hash tree.
#[derive(Clone, Copy, Debug, PartialEq, Eq)]
pub struct Digest {
    pub bytes: [u8; HASH_SIZE],
}

impl View for Digest {
    type V = Seq<u8>;

    open spec fn view(&self) -> Seq<u8> {
        self.bytes@
    }
}

impl Digest {
    /// The digest that holds the given bytes.
    pub fn from_bytes(bytes: [u8; HASH_SIZE]) -> (d: Digest)
        ensures
            d@ == bytes@,
            d.bytes == bytes,
    {
        Digest { bytes }
    }

    /// The bytes of the digest.
    pub fn as_bytes(&self) -> (b: &[u8; HASH_SIZE])
        ensures
            b@ == self@,
            *b == self.bytes,
    {
        &self.bytes
    }
}

} // verus!
