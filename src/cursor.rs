use vstd::prelude::*;

use crate::error::PduError;

verus! {

/// The value of a little-endian 16-bit integer whose bytes are `lo`, `hi`.
pub open spec fn le_u16(lo: u8, hi: u8) -> u16 {
    (lo as int + 256 * hi as int) as u16
}

/// The value of a little-endian 32-bit integer whose bytes are `b0` .. `b3`.
pub open spec fn le_u32(b0: u8, b1: u8, b2: u8, b3: u8) -> u32 {
    (b0 as int + 256 * b1 as int + 65536 * b2 as int + 16777216 * b3 as int) as u32
}

/// The two bytes of `v`, least significant first.
pub open spec fn u16_bytes(v: u16) -> Seq<u8> {
    seq![(v % 256) as u8, (v / 256) as u8]
}

/// The four bytes of `v`, least significant first.
pub open spec fn u32_bytes(v: u32) -> Seq<u8> {
    seq![(v % 256) as u8, ((v / 256) % 256) as u8, ((v / 65536) % 256) as u8, (v / 16777216) as u8]
}

/// Reading back the bytes of a 16-bit value gives that value.
pub proof fn lemma_u16_round_trip(v: u16)
    ensures
        le_u16(u16_bytes(v)[0], u16_bytes(v)[1]) == v,
{
}

/// Reading back the bytes of a 32-bit value gives that value.
pub proof fn lemma_u32_round_trip(v: u32)
    ensures
        le_u32(u32_bytes(v)[0], u32_bytes(v)[1], u32_bytes(v)[2], u32_bytes(v)[3]) == v,
{
}

/// A read position over a borrowed byte slice. Every successful read
/// advances the position by exactly the width of the value read; a read
/// past the end fails and leaves the position where it was.
pub struct ReadCursor<'a> {
    inner: &'a [u8],
    pos: usize,
}

impl<'a> ReadCursor<'a> {
    /// The whole underlying buffer.
    pub closed spec fn data(&self) -> Seq<u8> {
        self.inner@
    }

    /// The number of bytes consumed so far.
    pub closed spec fn position(&self) -> int {
        self.pos as int
    }

    pub open spec fn wf(&self) -> bool {
        0 <= self.position() <= self.data().len()
    }

    /// The bytes not yet consumed.
    pub open spec fn rest(&self) -> Seq<u8> {
        self.data().subrange(self.position(), self.data().len() as int)
    }

    pub fn new(bytes: &'a [u8]) -> (r: Self)
        ensures
            r.wf(),
            r.data() == bytes@,
            r.position() == 0,
    {
        ReadCursor { inner: bytes, pos: 0 }
    }

    /// Number of bytes consumed so far.
    pub fn pos(&self) -> (r: usize)
        requires
            self.wf(),
        ensures
            r == self.position(),
    {
        self.pos
    }

    /// Number of bytes left to read.
    pub fn len(&self) -> (r: usize)
        requires
            self.wf(),
        ensures
            r == self.data().len() - self.position(),
            r == self.rest().len(),
    {
        self.inner.len() - self.pos
    }

    pub fn is_empty(&self) -> (r: bool)
        requires
            self.wf(),
        ensures
            r == (self.position() == self.data().len()),
    {
        self.inner.len() == self.pos
    }

    pub fn read_u8(&mut self, field: &'static str) -> (r: Result<u8, PduError>)
        requires
            old(self).wf(),
        ensures
            final(self).wf(),
            final(self).data() == old(self).data(),
            old(self).position() + 1 <= old(self).data().len() ==> {
                &&& r == Ok::<u8, PduError>(old(self).data()[old(self).position()])
                &&& final(self).position() == old(self).position() + 1
            },
            old(self).position() + 1 > old(self).data().len() ==> {
                &&& r == Err::<u8, PduError>(
                    PduError::NotEnoughBytes {
                        field,
                        received: (old(self).data().len() - old(self).position()) as usize,
                        expected: 1,
                    },
                )
                &&& final(self).position() == old(self).position()
            },
    {
        if self.inner.len() - self.pos < 1 {
            return Err(PduError::NotEnoughBytes { field, received: self.inner.len() - self.pos, expected: 1 });
        }
        let b = self.inner[self.pos];
        self.pos = self.pos + 1;
        Ok(b)
    }

    pub fn read_u16(&mut self, field: &'static str) -> (r: Result<u16, PduError>)
        requires
            old(self).wf(),
        ensures
            final(self).wf(),
            final(self).data() == old(self).data(),
            old(self).position() + 2 <= old(self).data().len() ==> {
                &&& r == Ok::<u16, PduError>(
                    le_u16(
                        old(self).data()[old(self).position()],
                        old(self).data()[old(self).position() + 1],
                    ),
                )
                &&& final(self).position() == old(self).position() + 2
            },
            old(self).position() + 2 > old(self).data().len() ==> {
                &&& r == Err::<u16, PduError>(
                    PduError::NotEnoughBytes {
                        field,
                        received: (old(self).data().len() - old(self).position()) as usize,
                        expected: 2,
                    },
                )
                &&& final(self).position() == old(self).position()
            },
    {
        if self.inner.len() - self.pos < 2 {
            return Err(PduError::NotEnoughBytes { field, received: self.inner.len() - self.pos, expected: 2 });
        }
        let lo = self.inner[self.pos];
        let hi = self.inner[self.pos + 1];
        self.pos = self.pos + 2;
        Ok(lo as u16 + (hi as u16) * 256)
    }

    pub fn read_u32(&mut self, field: &'static str) -> (r: Result<u32, PduError>)
        requires
            old(self).wf(),
        ensures
            final(self).wf(),
            final(self).data() == old(self).data(),
            old(self).position() + 4 <= old(self).data().len() ==> {
                &&& r == Ok::<u32, PduError>(
                    le_u32(
                        old(self).data()[old(self).position()],
                        old(self).data()[old(self).position() + 1],
                        old(self).data()[old(self).position() + 2],
                        old(self).data()[old(self).position() + 3],
                    ),
                )
                &&& final(self).position() == old(self).position() + 4
            },
            old(self).position() + 4 > old(self).data().len() ==> {
                &&& r == Err::<u32, PduError>(
                    PduError::NotEnoughBytes {
                        field,
                        received: (old(self).data().len() - old(self).position()) as usize,
                        expected: 4,
                    },
                )
                &&& final(self).position() == old(self).position()
            },
    {
        if self.inner.len() - self.pos < 4 {
            return Err(PduError::NotEnoughBytes { field, received: self.inner.len() - self.pos, expected: 4 });
        }
        let b0 = self.inner[self.pos] as u32;
        let b1 = self.inner[self.pos + 1] as u32;
        let b2 = self.inner[self.pos + 2] as u32;
        let b3 = self.inner[self.pos + 3] as u32;
        self.pos = self.pos + 4;
        Ok(b0 + b1 * 256 + b2 * 65536 + b3 * 16777216)
    }
}

/// Appends one byte.
pub fn write_u8(dst: &mut Vec<u8>, value: u8)
    ensures
        final(dst)@ == old(dst)@.push(value),
{
    dst.push(value);
}

/// Appends `value` in little-endian order.
pub fn write_u16(dst: &mut Vec<u8>, value: u16)
    ensures
        final(dst)@ == old(dst)@ + u16_bytes(value),
{
    dst.push((value % 256) as u8);
    dst.push((value / 256) as u8);
    assert(dst@ =~= old(dst)@ + u16_bytes(value));
}

/// Appends `value` in little-endian order.
pub fn write_u32(dst: &mut Vec<u8>, value: u32)
    ensures
        final(dst)@ == old(dst)@ + u32_bytes(value),
{
    dst.push((value % 256) as u8);
    dst.push(((value / 256) % 256) as u8);
    dst.push(((value / 65536) % 256) as u8);
    dst.push((value / 16777216) as u8);
    assert(dst@ =~= old(dst)@ + u32_bytes(value));
}

} // verus!
