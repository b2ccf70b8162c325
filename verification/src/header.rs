//! The length header of the encoder crate's formats.
//!
//! The encodings of this crate hold no framing: an outboard encoding is
//! parent nodes and nothing else, a slice is parent nodes and chunks. The
//! encoder crate opens each of its encodings with the length of the
//! content, in eight bytes, least significant byte first. The header is put
//! in front of what goes to it and taken off what comes back.

use crate::layout::HEADER_SIZE;
use vstd::prelude::*;
use vstd::slice::{slice_subrange, slice_to_vec};

verus! {

/// The number that eight bytes spell, least significant byte first.
pub open spec fn header_value(h: Seq<u8>) -> nat
    recommends
        h.len() == 8,
{
    (h[0] as nat)
        + 0x100 * (h[1] as nat)
        + 0x1_0000 * (h[2] as nat)
        + 0x100_0000 * (h[3] as nat)
        + 0x1_0000_0000 * (h[4] as nat)
        + 0x100_0000_0000 * (h[5] as nat)
        + 0x1_0000_0000_0000 * (h[6] as nat)
        + 0x100_0000_0000_0000 * (h[7] as nat)
}

/// The content length that a framed encoding records, or `None` where it
/// is too short to hold a header.
pub open spec fn recorded_len(framed: Seq<u8>) -> Option<u64> {
    if framed.len() < 8 {
        None
    } else {
        Some(header_value(framed.subrange(0, 8)) as u64)
    }
}

/// The `count` lowest bytes of a number, least significant byte first.
pub open spec fn low_bytes(value: nat, count: nat) -> Seq<u8>
    decreases count,
{
    if count == 0 {
        Seq::empty()
    } else {
        seq![(value % 0x100) as u8] + low_bytes(value / 0x100, (count - 1) as nat)
    }
}

/// The header for a content of `content_len` bytes.
pub open spec fn spec_header(content_len: u64) -> Seq<u8> {
    low_bytes(content_len as nat, 8)
}

/// An encoding with the header for `content_len` in front of it.
pub open spec fn framed(content_len: u64, body: Seq<u8>) -> Seq<u8> {
    spec_header(content_len) + body
}

/// A framed encoding without its header. An encoding too short to hold a
/// header has no body.
pub open spec fn body_of(framed: Seq<u8>) -> Seq<u8> {
    if framed.len() < 8 {
        Seq::empty()
    } else {
        framed.skip(8)
    }
}

/// The header for a length has eight bytes and spells that length.
pub proof fn lemma_header(content_len: u64)
    ensures
        spec_header(content_len).len() == 8,
        header_value(spec_header(content_len)) == content_len,
{
    reveal_with_fuel(low_bytes, 9);
    let h = spec_header(content_len);
    let q0 = content_len as nat;
    let q1 = q0 / 0x100;
    let q2 = q1 / 0x100;
    let q3 = q2 / 0x100;
    let q4 = q3 / 0x100;
    let q5 = q4 / 0x100;
    let q6 = q5 / 0x100;
    let q7 = q6 / 0x100;
    assert(h =~= seq![
        (q0 % 0x100) as u8,
        (q1 % 0x100) as u8,
        (q2 % 0x100) as u8,
        (q3 % 0x100) as u8,
        (q4 % 0x100) as u8,
        (q5 % 0x100) as u8,
        (q6 % 0x100) as u8,
        (q7 % 0x100) as u8,
    ]);
    assert(q7 < 0x100);
}

/// A framed encoding records the length that its header was made for, and
/// its body is the encoding that was framed.
pub proof fn lemma_framed(content_len: u64, body: Seq<u8>)
    ensures
        framed(content_len, body).len() == 8 + body.len(),
        framed(content_len, body).subrange(0, 8) == spec_header(content_len),
        recorded_len(framed(content_len, body)) == Some(content_len),
        body_of(framed(content_len, body)) == body,
{
    lemma_header(content_len);
    let f = framed(content_len, body);
    assert(f.subrange(0, 8) =~= spec_header(content_len));
    assert(f.skip(8) =~= body);
}

/// Puts the header for `content_len` in front of an encoding.
pub fn with_header(content_len: u64, body: &[u8]) -> (r: Vec<u8>)
    ensures
        r@ == framed(content_len, body@),
{
    let mut out: Vec<u8> = Vec::new();
    let mut rest: u64 = content_len;
    let mut i: usize = 0;
    while i < 8
        invariant
            i <= 8,
            out@.len() == i,
            out@ + low_bytes(rest as nat, (8 - i) as nat) == low_bytes(content_len as nat, 8),
        decreases 8 - i,
    {
        let ghost before = out@;
        out.push((rest % 0x100) as u8);
        proof {
            let tail = low_bytes((rest / 0x100) as nat, (8 - i - 1) as nat);
            assert(low_bytes(rest as nat, (8 - i) as nat) == seq![(rest % 0x100) as u8] + tail);
            assert(out@ + tail =~= before + (seq![(rest % 0x100) as u8] + tail));
        }
        rest = rest / 0x100;
        i += 1;
    }
    assert(out@ =~= spec_header(content_len));
    out.extend_from_slice(body);
    assert(out@ =~= framed(content_len, body@));
    out
}

/// Takes the header off a framed encoding.
pub fn without_header(framed: &[u8]) -> (r: Vec<u8>)
    ensures
        r@ == body_of(framed@),
{
    if framed.len() < HEADER_SIZE {
        Vec::new()
    } else {
        slice_to_vec(slice_subrange(framed, HEADER_SIZE, framed.len()))
    }
}

} // verus!
