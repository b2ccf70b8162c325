//! Proofs that a byte range belongs to a file, for a verifier that knows
//! only the file's root digest.
//!
//! The file is hashed as a binary tree over chunks of 1024 bytes. The
//! outboard encoding holds the tree's parent nodes and none of the content.
//! A slice is the part of the tree that leads to the chunks of one byte
//! range, with those chunks inline: it is extracted from the outboard
//! encoding and the chunks alone, and decoded against the root digest.
//! Neither holds a length or any other framing: the length of the content
//! is given with the query.
//!
//! - `outboard` and `encoder` build the outboard encoding and the root
//!   digest of a whole input.
//! - `window` holds the adapter that lets a run of chunks stand in for the
//!   whole file, and `extract` makes slices with it.
//! - `decode` holds a slice against a root digest and releases the bytes
//!   of the range.
//! - `layout` holds the arithmetic of chunks, and `header` the length
//!   header that the encoder crate wants in front of what it reads.
//! - `laws` states what holds of these together.
//!
//! Hashing, and the walks over the tree that extraction and decoding make,
//! are those of the `bao` crate. The functions that call it say so; their
//! contracts give its results names and prove the rest from there.

pub mod decode;
pub mod digest;
pub mod encoder;
pub mod error;
pub mod extract;
pub mod foreign;
pub mod header;
pub mod laws;
pub mod layout;
pub mod outboard;
pub mod window;
