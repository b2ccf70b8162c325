//! The window adapter: a run of chunks in memory that stands in for the
//! whole file while a slice is extracted.
//!
//! Extraction seeks to the first chunk of the range and then reads chunk
//! after chunk. A source that holds just those chunks can therefore answer
//! every seek by doing nothing: the next read is already the right one.

use vstd::prelude::*;
use vstd::slice::slice_subrange;

verus! {

/// A forward-only view of a byte buffer that can be handed to code which
/// asks for a seekable reader. Reading hands out the buffer front to back.
/// Seeking moves nothing and reports how many bytes have been read.
///
/// The buffer must begin with the first byte of the first chunk that the
/// query touches. Nothing here can tell whether it does: a slice extracted
/// from a buffer that begins elsewhere does not decode.
pub struct FakeSeeker<'a> {
    reader: &'a [u8],
    bytes_read: u64,
}

impl<'a> View for FakeSeeker<'a> {
    type V = Seq<u8>;

    /// The bytes that have not been read yet.
    closed spec fn view(&self) -> Seq<u8> {
        self.reader@
    }
}

impl<'a> FakeSeeker<'a> {
    #[verifier::type_invariant]
    spec fn counter_fits(self) -> bool {
        self.bytes_read + self.reader@.len() <= u64::MAX
    }

    /// The number of bytes that have been read.
    pub closed spec fn bytes_read(self) -> nat {
        self.bytes_read as nat
    }

    /// Wraps a buffer of which nothing has been read.
    pub fn new(reader: &'a [u8]) -> (w: Self)
        ensures
            w@ == reader@,
            w.bytes_read() == 0,
    {
        let total: usize = reader.len();
        assert(reader@.len() == total);
        FakeSeeker { reader, bytes_read: 0 }
    }

    /// The number of bytes that have been read.
    pub fn position(&self) -> (n: u64)
        ensures
            n == self.bytes_read(),
    {
        self.bytes_read
    }

    /// The number of bytes that are left to read.
    pub fn remaining(&self) -> (n: usize)
        ensures
            n == self@.len(),
    {
        self.reader.len()
    }
}

impl<'a> std::io::Read for FakeSeeker<'a> {
    /// Moves as many of the unread bytes to the front of `buf` as fit, and
    /// counts them. Never fails; returns 0 once the buffer is used up.
    fn read(&mut self, buf: &mut [u8]) -> (r: std::io::Result<usize>)
        ensures
            r matches Ok(n) && {
                &&& n == if old(buf)@.len() <= old(self)@.len() {
                    old(buf)@.len()
                } else {
                    old(self)@.len()
                }
                &&& final(buf)@ == old(self)@.take(n as int) + old(buf)@.skip(n as int)
                &&& final(self)@ == old(self)@.skip(n as int)
                &&& final(self).bytes_read() == old(self).bytes_read() + n
            },
    {
        proof {
            use_type_invariant(&*self);
        }
        let n: usize = if buf.len() <= self.reader.len() {
            buf.len()
        } else {
            self.reader.len()
        };
        let mut i: usize = 0;
        while i < n
            invariant
                i <= n,
                n <= buf@.len(),
                n <= self.reader@.len(),
                buf@.len() == old(buf)@.len(),
                *self == *old(self),
                forall|k: int| 0 <= k < i ==> buf@[k] == self.reader@[k],
                forall|k: int| i <= k < buf@.len() ==> buf@[k] == old(buf)@[k],
            decreases n - i,
        {
            buf[i] = self.reader[i];
            i += 1;
        }
        self.reader = slice_subrange(self.reader, n, self.reader.len());
        self.bytes_read = self.bytes_read + n as u64;
        Ok(n)
    }
}

impl<'a> std::io::Seek for FakeSeeker<'a> {
    /// Leaves the adapter as it is, whatever the target, and returns the
    /// number of bytes read so far.
    fn seek(&mut self, pos: std::io::SeekFrom) -> (r: std::io::Result<u64>)
        ensures
            r matches Ok(n) && n == old(self).bytes_read(),
            *final(self) == *old(self),
    {
        Ok(self.bytes_read)
    }
}

} // verus!
