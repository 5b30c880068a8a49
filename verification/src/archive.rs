//! Sequential, exclusive cursors over an in-memory byte buffer.
//!
//! [`ArchiveReader`] consumes fixed-width little-endian primitives and raw
//! byte runs, advancing a forward-only position by exactly the width read; a
//! short read fails with [`Error::IoError`] and leaves the cursor where it
//! was.  [`ArchiveWriter`] mirrors each read operation with an append.

use vstd::prelude::*;

use crate::error::Error;
use crate::wire::enc_i32;
use crate::wire::enc_i64;
use crate::wire::enc_u32;
use crate::wire::enc_u64;
use crate::wire::i32_at;
use crate::wire::i32_of_u32;
use crate::wire::i64_at;
use crate::wire::i64_of_u64;
use crate::wire::u32_at;
use crate::wire::u32_of_i32;
use crate::wire::u64_at;
use crate::wire::u64_of_i64;

verus! {

/// Read cursor: a byte buffer and a forward-only position within it.
pub struct ArchiveReader {
    data: Vec<u8>,
    pos: usize,
}

impl ArchiveReader {
    /// The whole underlying byte stream; reading never changes it.
    pub closed spec fn stream(self) -> Seq<u8> {
        self.data@
    }

    /// The current cursor position.
    pub closed spec fn cursor(self) -> int {
        self.pos as int
    }

    /// The cursor never leaves the buffer.
    pub open spec fn wf(self) -> bool {
        0 <= self.cursor() <= self.stream().len()
    }

    /// A fresh cursor at the start of `data`.
    pub fn new(data: Vec<u8>) -> (r: ArchiveReader)
        ensures
            r.wf(),
            r.stream() == data@,
            r.cursor() == 0,
    {
        ArchiveReader { data, pos: 0 }
    }

    /// The byte offset the cursor stands at, for error reporting.
    pub fn position(&self) -> (r: usize)
        requires
            self.wf(),
        ensures
            r == self.cursor(),
    {
        self.pos
    }

    /// How many bytes are left to read.
    pub fn remaining(&self) -> (r: usize)
        requires
            self.wf(),
        ensures
            r == self.stream().len() - self.cursor(),
    {
        self.data.len() - self.pos
    }

    /// Reads one little-endian `u32` and advances the cursor by four.
    pub fn read_u32(&mut self) -> (r: Result<u32, Error>)
        requires
            old(self).wf(),
        ensures
            final(self).wf(),
            final(self).stream() == old(self).stream(),
            (r is Ok) <==> old(self).cursor() + 4 <= old(self).stream().len(),
            r matches Ok(v) ==> final(self).cursor() == old(self).cursor() + 4 && v == u32_at(
                old(self).stream(),
                old(self).cursor(),
            ),
            r is Err ==> *final(self) == *old(self) && r == Err::<u32, Error>(Error::IoError),
    {
        if self.data.len() - self.pos < 4 {
            return Err(Error::IoError);
        }
        let b0 = self.data[self.pos];
        let b1 = self.data[self.pos + 1];
        let b2 = self.data[self.pos + 2];
        let b3 = self.data[self.pos + 3];
        let v = b0 as u32 + b1 as u32 * 0x100 + b2 as u32 * 0x1_0000 + b3 as u32 * 0x100_0000;
        self.pos = self.pos + 4;
        Ok(v)
    }

    /// Reads one little-endian `i32` and advances the cursor by four.
    pub fn read_i32(&mut self) -> (r: Result<i32, Error>)
        requires
            old(self).wf(),
        ensures
            final(self).wf(),
            final(self).stream() == old(self).stream(),
            (r is Ok) <==> old(self).cursor() + 4 <= old(self).stream().len(),
            r matches Ok(v) ==> final(self).cursor() == old(self).cursor() + 4 && v == i32_at(
                old(self).stream(),
                old(self).cursor(),
            ),
            r is Err ==> *final(self) == *old(self) && r == Err::<i32, Error>(Error::IoError),
    {
        let u = match self.read_u32() {
            Ok(u) => u,
            Err(e) => {
                return Err(e);
            },
        };
        let r = if u < 0x8000_0000 {
            u as i32
        } else {
            ((u as i64) - 0x1_0000_0000i64) as i32
        };
        assert(r == i32_of_u32(u));
        Ok(r)
    }

    /// Reads one little-endian `u64` and advances the cursor by eight.
    pub fn read_u64(&mut self) -> (r: Result<u64, Error>)
        requires
            old(self).wf(),
        ensures
            final(self).wf(),
            final(self).stream() == old(self).stream(),
            (r is Ok) <==> old(self).cursor() + 8 <= old(self).stream().len(),
            r matches Ok(v) ==> final(self).cursor() == old(self).cursor() + 8 && v == u64_at(
                old(self).stream(),
                old(self).cursor(),
            ),
            r is Err ==> *final(self) == *old(self) && r == Err::<u64, Error>(Error::IoError),
    {
        if self.data.len() - self.pos < 8 {
            return Err(Error::IoError);
        }
        let b0 = self.data[self.pos];
        let b1 = self.data[self.pos + 1];
        let b2 = self.data[self.pos + 2];
        let b3 = self.data[self.pos + 3];
        let b4 = self.data[self.pos + 4];
        let b5 = self.data[self.pos + 5];
        let b6 = self.data[self.pos + 6];
        let b7 = self.data[self.pos + 7];
        let lo = b0 as u64 + b1 as u64 * 0x100 + b2 as u64 * 0x1_0000 + b3 as u64 * 0x100_0000;
        let hi = b4 as u64 + b5 as u64 * 0x100 + b6 as u64 * 0x1_0000 + b7 as u64 * 0x100_0000;
        let v = lo + hi * 0x1_0000_0000;
        self.pos = self.pos + 8;
        Ok(v)
    }

    /// Reads one little-endian `i64` and advances the cursor by eight.
    pub fn read_i64(&mut self) -> (r: Result<i64, Error>)
        requires
            old(self).wf(),
        ensures
            final(self).wf(),
            final(self).stream() == old(self).stream(),
            (r is Ok) <==> old(self).cursor() + 8 <= old(self).stream().len(),
            r matches Ok(v) ==> final(self).cursor() == old(self).cursor() + 8 && v == i64_at(
                old(self).stream(),
                old(self).cursor(),
            ),
            r is Err ==> *final(self) == *old(self) && r == Err::<i64, Error>(Error::IoError),
    {
        let u = match self.read_u64() {
            Ok(u) => u,
            Err(e) => {
                return Err(e);
            },
        };
        let r = if u < 0x8000_0000_0000_0000 {
            u as i64
        } else {
            ((u as i128) - 0x1_0000_0000_0000_0000i128) as i64
        };
        assert(r == i64_of_u64(u));
        Ok(r)
    }

    /// Reads `n` raw bytes verbatim and advances the cursor by `n`.
    pub fn read_exact(&mut self, n: usize) -> (r: Result<Vec<u8>, Error>)
        requires
            old(self).wf(),
        ensures
            final(self).wf(),
            final(self).stream() == old(self).stream(),
            (r is Ok) <==> old(self).cursor() + n <= old(self).stream().len(),
            r matches Ok(v) ==> final(self).cursor() == old(self).cursor() + n && v@ == old(
                self,
            ).stream().subrange(old(self).cursor(), old(self).cursor() + n),
            r is Err ==> *final(self) == *old(self) && r == Err::<Vec<u8>, Error>(Error::IoError),
    {
        if self.data.len() - self.pos < n {
            return Err(Error::IoError);
        }
        let end: usize = self.pos + n;
        let mut v: Vec<u8> = Vec::new();
        let mut i: usize = 0;
        while i < n
            invariant
                self.wf(),
                end == self.pos + n,
                end <= self.data@.len(),
                0 <= i <= n,
                v@.len() == i,
                forall|k: int| 0 <= k < i ==> v@[k] == self.data@[self.pos + k],
            decreases n - i,
        {
            let at: usize = self.pos + i;
            v.push(self.data[at]);
            i = i + 1;
        }
        assert(v@ =~= self.data@.subrange(self.pos as int, self.pos + n));
        self.pos = self.pos + n;
        Ok(v)
    }
}

/// Write cursor: an append-only byte buffer.
pub struct ArchiveWriter {
    out: Vec<u8>,
}

impl ArchiveWriter {
    /// Everything written so far, in order.
    pub closed spec fn stream(self) -> Seq<u8> {
        self.out@
    }

    /// A fresh, empty writer.
    pub fn new() -> (r: ArchiveWriter)
        ensures
            r.stream() == Seq::<u8>::empty(),
    {
        ArchiveWriter { out: Vec::new() }
    }

    /// Hands the written bytes to the caller.
    pub fn into_bytes(self) -> (r: Vec<u8>)
        ensures
            r@ == self.stream(),
    {
        self.out
    }

    /// How many bytes have been written so far.
    pub fn written(&self) -> (r: usize)
        ensures
            r == self.stream().len(),
    {
        self.out.len()
    }

    /// Appends one little-endian `u32`.
    pub fn write_u32(&mut self, v: u32)
        ensures
            final(self).stream() == old(self).stream() + enc_u32(v),
    {
        self.out.push((v % 0x100) as u8);
        self.out.push(((v / 0x100) % 0x100) as u8);
        self.out.push(((v / 0x1_0000) % 0x100) as u8);
        self.out.push(((v / 0x100_0000) % 0x100) as u8);
        assert(final(self).stream() =~= old(self).stream() + enc_u32(v));
    }

    /// Appends one little-endian `i32` as its two's-complement carrier.
    pub fn write_i32(&mut self, v: i32)
        ensures
            final(self).stream() == old(self).stream() + enc_i32(v),
    {
        let u = if v >= 0 {
            v as u32
        } else {
            ((v as i64) + 0x1_0000_0000i64) as u32
        };
        assert(u == u32_of_i32(v));
        self.write_u32(u);
    }

    /// Appends one little-endian `u64`.
    pub fn write_u64(&mut self, v: u64)
        ensures
            final(self).stream() == old(self).stream() + enc_u64(v),
    {
        let lo = (v % 0x1_0000_0000) as u32;
        let hi = (v / 0x1_0000_0000) as u32;
        self.write_u32(lo);
        self.write_u32(hi);
        assert(final(self).stream() =~= old(self).stream() + enc_u64(v));
    }

    /// Appends one little-endian `i64` as its two's-complement carrier.
    pub fn write_i64(&mut self, v: i64)
        ensures
            final(self).stream() == old(self).stream() + enc_i64(v),
    {
        let u = if v >= 0 {
            v as u64
        } else {
            ((v as i128) + 0x1_0000_0000_0000_0000i128) as u64
        };
        assert(u == u64_of_i64(v));
        self.write_u64(u);
    }

    /// Appends raw bytes verbatim.
    pub fn write_raw(&mut self, b: &Vec<u8>)
        ensures
            final(self).stream() == old(self).stream() + b@,
    {
        let n = b.len();
        let mut i: usize = 0;
        while i < n
            invariant
                n == b@.len(),
                0 <= i <= n,
                self.out@ == old(self).out@ + b@.subrange(0, i as int),
            decreases n - i,
        {
            self.out.push(b[i]);
            assert(self.out@ =~= old(self).out@ + b@.subrange(0, i + 1));
            i = i + 1;
        }
        assert(b@.subrange(0, n as int) =~= b@);
    }
}

} // verus!
