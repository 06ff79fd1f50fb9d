//! Byte-level building blocks of the wire formats: big-endian integer
//! conversions and a monotonic read cursor over a byte buffer.

use vstd::prelude::*;
use vstd::slice::{slice_subrange, slice_to_vec};

use crate::error::PpaassError;

verus! {

/// The two-byte big-endian encoding of a 16-bit unsigned integer.
pub open spec fn spec_u16_to_be_bytes(x: u16) -> Seq<u8> {
    seq![((x >> 8) & 0xff) as u8, (x & 0xff) as u8]
}

/// The 16-bit unsigned integer that a two-byte big-endian sequence encodes.
pub open spec fn spec_u16_from_be_bytes(s: Seq<u8>) -> u16
    recommends
        s.len() == 2,
{
    (((s[0] as u16) << 8) | (s[1] as u16)) as u16
}

/// The eight-byte big-endian encoding of a 64-bit unsigned integer.
pub open spec fn spec_u64_to_be_bytes(x: u64) -> Seq<u8> {
    seq![
        ((x >> 56) & 0xff) as u8,
        ((x >> 48) & 0xff) as u8,
        ((x >> 40) & 0xff) as u8,
        ((x >> 32) & 0xff) as u8,
        ((x >> 24) & 0xff) as u8,
        ((x >> 16) & 0xff) as u8,
        ((x >> 8) & 0xff) as u8,
        (x & 0xff) as u8,
    ]
}

/// The 64-bit unsigned integer that an eight-byte big-endian sequence encodes.
pub open spec fn spec_u64_from_be_bytes(s: Seq<u8>) -> u64
    recommends
        s.len() == 8,
{
    (((s[0] as u64) << 56) | ((s[1] as u64) << 48) | ((s[2] as u64) << 40) | ((s[3] as u64) << 32)
        | ((s[4] as u64) << 24) | ((s[5] as u64) << 16) | ((s[6] as u64) << 8) | (
    s[7] as u64)) as u64
}

/// Reading back the big-endian bytes of a 16-bit integer yields the integer.
pub proof fn lemma_u16_be_round_trip(x: u16)
    ensures
        spec_u16_to_be_bytes(x).len() == 2,
        spec_u16_from_be_bytes(spec_u16_to_be_bytes(x)) == x,
{
    assert((((((x >> 8) & 0xff) as u8 as u16) << 8) | ((x & 0xff) as u8 as u16)) as u16 == x)
        by (bit_vector);
}

/// Reading back the big-endian bytes of a 64-bit integer yields the integer.
pub proof fn lemma_u64_be_round_trip(x: u64)
    ensures
        spec_u64_to_be_bytes(x).len() == 8,
        spec_u64_from_be_bytes(spec_u64_to_be_bytes(x)) == x,
{
    assert(((((x >> 56) & 0xff) as u8 as u64) << 56) | ((((x >> 48) & 0xff) as u8 as u64) << 48)
        | ((((x >> 40) & 0xff) as u8 as u64) << 40) | ((((x >> 32) & 0xff) as u8 as u64) << 32)
        | ((((x >> 24) & 0xff) as u8 as u64) << 24) | ((((x >> 16) & 0xff) as u8 as u64) << 16)
        | ((((x >> 8) & 0xff) as u8 as u64) << 8) | ((x & 0xff) as u8 as u64) == x)
        by (bit_vector);
}

/// Appends the bytes of `src` to `out`, in order.
pub fn push_bytes(out: &mut Vec<u8>, src: &[u8])
    ensures
        final(out)@ == old(out)@ + src@,
{
    let ghost initial = out@;
    let mut i: usize = 0;
    while i < src.len()
        invariant
            i <= src@.len(),
            out@ == initial + src@.subrange(0, i as int),
        decreases src@.len() - i,
    {
        let b = *vstd::slice::slice_index_get(src, i);
        out.push(b);
        i = i + 1;
    }
    assert(src@.subrange(0, src@.len() as int) == src@);
}

/// Appends the two-byte big-endian encoding of `x` to `out`.
pub fn push_u16_be(out: &mut Vec<u8>, x: u16)
    ensures
        final(out)@ == old(out)@ + spec_u16_to_be_bytes(x),
{
    out.push(((x >> 8) & 0xff) as u8);
    out.push((x & 0xff) as u8);
    assert(out@ == old(out)@ + spec_u16_to_be_bytes(x));
}

/// Appends the eight-byte big-endian encoding of `x` to `out`.
pub fn push_u64_be(out: &mut Vec<u8>, x: u64)
    ensures
        final(out)@ == old(out)@ + spec_u64_to_be_bytes(x),
{
    out.push(((x >> 56) & 0xff) as u8);
    out.push(((x >> 48) & 0xff) as u8);
    out.push(((x >> 40) & 0xff) as u8);
    out.push(((x >> 32) & 0xff) as u8);
    out.push(((x >> 24) & 0xff) as u8);
    out.push(((x >> 16) & 0xff) as u8);
    out.push(((x >> 8) & 0xff) as u8);
    out.push((x & 0xff) as u8);
    assert(out@ == old(out)@ + spec_u64_to_be_bytes(x));
}

/// A read-only traversal position over a byte buffer.
///
/// The position only ever moves forward. Every read either returns the bytes
/// at the current position and advances past them, or fails with
/// [`PpaassError::BufferUnderflow`] and leaves the position where it was —
/// a read never inspects bytes past the end of the buffer.
pub struct ByteCursor<'a> {
    data: &'a [u8],
    pos: usize,
}

impl<'a> ByteCursor<'a> {
    /// The whole underlying buffer.
    pub closed spec fn spec_data(&self) -> Seq<u8> {
        self.data@
    }

    /// The current read position.
    pub closed spec fn spec_pos(&self) -> int {
        self.pos as int
    }

    /// The position never exceeds the buffer length.
    pub open spec fn wf(&self) -> bool {
        0 <= self.spec_pos() <= self.spec_data().len()
    }

    /// The bytes not yet consumed.
    pub open spec fn remaining_bytes(&self) -> Seq<u8>
        recommends
            self.wf(),
    {
        self.spec_data().subrange(self.spec_pos(), self.spec_data().len() as int)
    }

    /// Creates a cursor positioned at the start of `data`.
    pub fn new(data: &'a [u8]) -> (r: ByteCursor<'a>)
        ensures
            r.wf(),
            r.spec_data() == data@,
            r.spec_pos() == 0,
    {
        ByteCursor { data, pos: 0 }
    }

    /// The current read position, as an offset from the start of the buffer.
    pub fn position(&self) -> (r: usize)
        ensures
            r as int == self.spec_pos(),
    {
        self.pos
    }

    /// How many bytes remain to be read.
    pub fn remaining(&self) -> (r: usize)
        requires
            self.wf(),
        ensures
            r as int == self.remaining_bytes().len(),
    {
        self.data.len() - self.pos
    }

    /// Reads one byte, advancing past it.
    pub fn read_u8(&mut self) -> (r: Result<u8, PpaassError>)
        requires
            old(self).wf(),
        ensures
            final(self).wf(),
            final(self).spec_data() == old(self).spec_data(),
            match r {
                Ok(b) => old(self).remaining_bytes().len() >= 1 && b == old(
                    self,
                ).remaining_bytes()[0] && final(self).spec_pos() == old(self).spec_pos() + 1,
                Err(e) => e == PpaassError::BufferUnderflow && old(self).remaining_bytes().len()
                    == 0 && final(self).spec_pos() == old(self).spec_pos(),
            },
    {
        if self.pos < self.data.len() {
            let b = *vstd::slice::slice_index_get(self.data, self.pos);
            self.pos = self.pos + 1;
            Ok(b)
        } else {
            Err(PpaassError::BufferUnderflow)
        }
    }

    /// Reads a 16-bit big-endian integer, advancing past its two bytes.
    pub fn read_u16_be(&mut self) -> (r: Result<u16, PpaassError>)
        requires
            old(self).wf(),
        ensures
            final(self).wf(),
            final(self).spec_data() == old(self).spec_data(),
            match r {
                Ok(x) => old(self).remaining_bytes().len() >= 2 && x == spec_u16_from_be_bytes(
                    old(self).remaining_bytes().subrange(0, 2),
                ) && final(self).spec_pos() == old(self).spec_pos() + 2,
                Err(e) => e == PpaassError::BufferUnderflow && old(self).remaining_bytes().len()
                    < 2 && final(self).spec_pos() == old(self).spec_pos(),
            },
    {
        if self.data.len() - self.pos >= 2 {
            let b0 = *vstd::slice::slice_index_get(self.data, self.pos);
            let b1 = *vstd::slice::slice_index_get(self.data, self.pos + 1);
            self.pos = self.pos + 2;
            Ok(((b0 as u16) << 8) | (b1 as u16))
        } else {
            Err(PpaassError::BufferUnderflow)
        }
    }

    /// Reads a 64-bit big-endian integer, advancing past its eight bytes.
    pub fn read_u64_be(&mut self) -> (r: Result<u64, PpaassError>)
        requires
            old(self).wf(),
        ensures
            final(self).wf(),
            final(self).spec_data() == old(self).spec_data(),
            match r {
                Ok(x) => old(self).remaining_bytes().len() >= 8 && x == spec_u64_from_be_bytes(
                    old(self).remaining_bytes().subrange(0, 8),
                ) && final(self).spec_pos() == old(self).spec_pos() + 8,
                Err(e) => e == PpaassError::BufferUnderflow && old(self).remaining_bytes().len()
                    < 8 && final(self).spec_pos() == old(self).spec_pos(),
            },
    {
        if self.data.len() - self.pos >= 8 {
            let b0 = *vstd::slice::slice_index_get(self.data, self.pos);
            let b1 = *vstd::slice::slice_index_get(self.data, self.pos + 1);
            let b2 = *vstd::slice::slice_index_get(self.data, self.pos + 2);
            let b3 = *vstd::slice::slice_index_get(self.data, self.pos + 3);
            let b4 = *vstd::slice::slice_index_get(self.data, self.pos + 4);
            let b5 = *vstd::slice::slice_index_get(self.data, self.pos + 5);
            let b6 = *vstd::slice::slice_index_get(self.data, self.pos + 6);
            let b7 = *vstd::slice::slice_index_get(self.data, self.pos + 7);
            self.pos = self.pos + 8;
            Ok(
                ((b0 as u64) << 56) | ((b1 as u64) << 48) | ((b2 as u64) << 40) | ((b3 as u64)
                    << 32) | ((b4 as u64) << 24) | ((b5 as u64) << 16) | ((b6 as u64) << 8) | (
                b7 as u64),
            )
        } else {
            Err(PpaassError::BufferUnderflow)
        }
    }

    /// Reads exactly `n` bytes into a fresh vector, advancing past them.
    pub fn read_bytes(&mut self, n: usize) -> (r: Result<Vec<u8>, PpaassError>)
        requires
            old(self).wf(),
        ensures
            final(self).wf(),
            final(self).spec_data() == old(self).spec_data(),
            match r {
                Ok(v) => old(self).remaining_bytes().len() >= n && v@ == old(
                    self,
                ).remaining_bytes().subrange(0, n as int) && final(self).spec_pos() == old(
                    self,
                ).spec_pos() + n,
                Err(e) => e == PpaassError::BufferUnderflow && old(self).remaining_bytes().len()
                    < n && final(self).spec_pos() == old(self).spec_pos(),
            },
    {
        if self.data.len() - self.pos >= n {
            let part = slice_subrange(self.data, self.pos, self.pos + n);
            let v = slice_to_vec(part);
            self.pos = self.pos + n;
            Ok(v)
        } else {
            Err(PpaassError::BufferUnderflow)
        }
    }
}

} // verus!
