//! The byte-level codec: writing and reading fixed-width signed integers in
//! big-endian order against an in-memory byte stream.
//!
//! [`KafkaSerializer`] appends the exact big-endian encoding of each value to
//! a caller-owned byte sink; [`KafkaDeserializer`] consumes exactly the byte
//! count of the requested width from a caller-owned byte source, or fails
//! with [`CodecError::ShortRead`] and consumes nothing. This is the only
//! path with an explicit byte-order guarantee; its contracts are stated over
//! the encoding functions of [`crate::wire`].

use crate::wire::{
    be_bytes16, be_bytes32, be_bytes64, be_bytes8, decode16, decode32, decode64, decode8, signed16,
    signed32, signed64, signed8, unsigned16, unsigned32, unsigned64, unsigned8,
};
use vstd::prelude::*;

verus! {

/// A failure of the byte-level codec path.
///
/// These are I/O-shaped failures of the direct codec and are distinct from
/// whatever errors a generic serialization framework raises on the
/// typed-integer path; the two are never merged.
#[derive(Clone, Copy, PartialEq, Eq, Structural, Debug)]
pub enum CodecError {
    /// Fewer bytes were available than the requested width requires; no
    /// value is produced and no byte is consumed.
    ShortRead,
}

/// The 8-bit two's-complement pattern of `v`, as a byte.
fn unsigned_of_i8(v: i8) -> (u: u8)
    ensures
        u as int == unsigned8(v),
{
    if v >= 0 {
        v as u8
    } else {
        ((v as i16) + 0x100) as u8
    }
}

/// The 16-bit two's-complement pattern of `v`.
fn unsigned_of_i16(v: i16) -> (u: u16)
    ensures
        u as int == unsigned16(v),
{
    if v >= 0 {
        v as u16
    } else {
        ((v as i32) + 0x1_0000) as u16
    }
}

/// The 32-bit two's-complement pattern of `v`.
fn unsigned_of_i32(v: i32) -> (u: u32)
    ensures
        u as int == unsigned32(v),
{
    if v >= 0 {
        v as u32
    } else {
        ((v as i64) + 0x1_0000_0000) as u32
    }
}

/// The 64-bit two's-complement pattern of `v`.
fn unsigned_of_i64(v: i64) -> (u: u64)
    ensures
        u as int == unsigned64(v),
{
    if v >= 0 {
        v as u64
    } else {
        ((v as i128) + 0x1_0000_0000_0000_0000) as u64
    }
}

/// The signed value whose 8-bit two's-complement pattern is `u`.
fn signed_of_u8(u: u8) -> (v: i8)
    ensures
        v as int == signed8(u as int),
{
    if u < 0x80 {
        u as i8
    } else {
        ((u as i16) - 0x100) as i8
    }
}

/// The signed value whose 16-bit two's-complement pattern is `u`.
fn signed_of_u16(u: u16) -> (v: i16)
    ensures
        v as int == signed16(u as int),
{
    if u < 0x8000 {
        u as i16
    } else {
        ((u as i32) - 0x1_0000) as i16
    }
}

/// The signed value whose 32-bit two's-complement pattern is `u`.
fn signed_of_u32(u: u32) -> (v: i32)
    ensures
        v as int == signed32(u as int),
{
    if u < 0x8000_0000 {
        u as i32
    } else {
        ((u as i64) - 0x1_0000_0000) as i32
    }
}

/// The signed value whose 64-bit two's-complement pattern is `u`.
fn signed_of_u64(u: u64) -> (v: i64)
    ensures
        v as int == signed64(u as int),
{
    if u < 0x8000_0000_0000_0000 {
        u as i64
    } else {
        ((u as i128) - 0x1_0000_0000_0000_0000) as i64
    }
}

/// A writer of wire data: appends big-endian encodings to an owned byte
/// sink. The view is the sequence of bytes written to the sink so far.
pub struct KafkaSerializer {
    sink: Vec<u8>,
}

impl View for KafkaSerializer {
    type V = Seq<u8>;

    closed spec fn view(&self) -> Seq<u8> {
        self.sink@
    }
}

impl KafkaSerializer {
    /// Wraps a caller-owned byte sink for the duration of a write session.
    pub fn new(sink: Vec<u8>) -> (s: Self)
        ensures
            s@ == sink@,
    {
        KafkaSerializer { sink }
    }

    /// Writes an 8-bit value as its single two's-complement byte. The
    /// in-memory sink always accepts, so the result is always `Ok`.
    pub fn write_i8(&mut self, val: i8) -> (r: Result<(), CodecError>)
        ensures
            r is Ok,
            final(self)@ == old(self)@ + be_bytes8(val),
    {
        let u: u8 = unsigned_of_i8(val);
        self.sink.push(u);
        proof {
            assert(self.sink@ =~= old(self).sink@ + be_bytes8(val));
        }
        Ok(())
    }

    /// Writes a 16-bit value as exactly 2 bytes, most significant first.
    /// The in-memory sink always accepts, so the result is always `Ok`.
    pub fn write_i16(&mut self, val: i16) -> (r: Result<(), CodecError>)
        ensures
            r is Ok,
            final(self)@ == old(self)@ + be_bytes16(val),
    {
        let u: u16 = unsigned_of_i16(val);
        self.sink.push((u / 0x100) as u8);
        self.sink.push((u % 0x100) as u8);
        proof {
            assert(self.sink@ =~= old(self).sink@ + be_bytes16(val));
        }
        Ok(())
    }

    /// Writes a 32-bit value as exactly 4 bytes, most significant first.
    /// The in-memory sink always accepts, so the result is always `Ok`.
    pub fn write_i32(&mut self, val: i32) -> (r: Result<(), CodecError>)
        ensures
            r is Ok,
            final(self)@ == old(self)@ + be_bytes32(val),
    {
        let u: u32 = unsigned_of_i32(val);
        self.sink.push((u / 0x100_0000) as u8);
        self.sink.push(((u / 0x1_0000) % 0x100) as u8);
        self.sink.push(((u / 0x100) % 0x100) as u8);
        self.sink.push((u % 0x100) as u8);
        proof {
            assert(self.sink@ =~= old(self).sink@ + be_bytes32(val));
        }
        Ok(())
    }

    /// Writes a 64-bit value as exactly 8 bytes, most significant first.
    /// The in-memory sink always accepts, so the result is always `Ok`.
    pub fn write_i64(&mut self, val: i64) -> (r: Result<(), CodecError>)
        ensures
            r is Ok,
            final(self)@ == old(self)@ + be_bytes64(val),
    {
        let u: u64 = unsigned_of_i64(val);
        self.sink.push((u / 0x100_0000_0000_0000) as u8);
        self.sink.push(((u / 0x1_0000_0000_0000) % 0x100) as u8);
        self.sink.push(((u / 0x100_0000_0000) % 0x100) as u8);
        self.sink.push(((u / 0x1_0000_0000) % 0x100) as u8);
        self.sink.push(((u / 0x100_0000) % 0x100) as u8);
        self.sink.push(((u / 0x1_0000) % 0x100) as u8);
        self.sink.push(((u / 0x100) % 0x100) as u8);
        self.sink.push((u % 0x100) as u8);
        proof {
            assert(self.sink@ =~= old(self).sink@ + be_bytes64(val));
        }
        Ok(())
    }

    /// Ends the write session and returns the sink to the caller.
    pub fn into_inner(self) -> (sink: Vec<u8>)
        ensures
            sink@ == self@,
    {
        self.sink
    }
}

/// A reader of wire data: consumes big-endian encodings from an owned byte
/// source, front to back. The view is the sequence of bytes not yet
/// consumed.
pub struct KafkaDeserializer {
    source: Vec<u8>,
    pos: usize,
}

impl View for KafkaDeserializer {
    type V = Seq<u8>;

    closed spec fn view(&self) -> Seq<u8> {
        self.source@.skip(self.pos as int)
    }
}

impl KafkaDeserializer {
    #[verifier::type_invariant]
    spec fn wf(self) -> bool {
        self.pos <= self.source@.len()
    }

    /// Wraps a caller-owned byte source for the duration of a read session.
    pub fn new(source: Vec<u8>) -> (s: Self)
        ensures
            s@ == source@,
    {
        let s = KafkaDeserializer { source, pos: 0 };
        proof {
            assert(s@ =~= s.source@);
        }
        s
    }

    /// The number of bytes not yet consumed.
    pub fn remaining(&self) -> (n: usize)
        ensures
            n == self@.len(),
    {
        proof {
            use_type_invariant(&*self);
        }
        self.source.len() - self.pos
    }

    /// Reads an 8-bit value from the next byte. Fails, consuming nothing,
    /// if and only if no byte is available.
    pub fn read_i8(&mut self) -> (r: Result<i8, CodecError>)
        ensures
            r is Ok <==> old(self)@.len() >= 1,
            r is Ok ==> final(self)@ == old(self)@.skip(1) && r->Ok_0 as int == decode8(
                old(self)@.take(1),
            ),
            r is Err ==> final(self)@ == old(self)@ && r->Err_0 == CodecError::ShortRead,
    {
        proof {
            use_type_invariant(&*self);
        }
        if self.source.len() - self.pos < 1 {
            return Err(CodecError::ShortRead);
        }
        let b0: u8 = self.source[self.pos];
        self.pos = self.pos + 1;
        proof {
            assert(self@ =~= old(self)@.skip(1));
        }
        Ok(signed_of_u8(b0))
    }

    /// Reads a 16-bit value from the next 2 bytes, most significant first.
    /// Fails, consuming nothing, if and only if fewer than 2 bytes are
    /// available.
    pub fn read_i16(&mut self) -> (r: Result<i16, CodecError>)
        ensures
            r is Ok <==> old(self)@.len() >= 2,
            r is Ok ==> final(self)@ == old(self)@.skip(2) && r->Ok_0 as int == decode16(
                old(self)@.take(2),
            ),
            r is Err ==> final(self)@ == old(self)@ && r->Err_0 == CodecError::ShortRead,
    {
        proof {
            use_type_invariant(&*self);
        }
        if self.source.len() - self.pos < 2 {
            return Err(CodecError::ShortRead);
        }
        let b0: u8 = self.source[self.pos];
        let b1: u8 = self.source[self.pos + 1];
        self.pos = self.pos + 2;
        let u: u16 = (b0 as u16) * 0x100 + (b1 as u16);
        proof {
            assert(self@ =~= old(self)@.skip(2));
        }
        Ok(signed_of_u16(u))
    }

    /// Reads a 32-bit value from the next 4 bytes, most significant first.
    /// Fails, consuming nothing, if and only if fewer than 4 bytes are
    /// available.
    pub fn read_i32(&mut self) -> (r: Result<i32, CodecError>)
        ensures
            r is Ok <==> old(self)@.len() >= 4,
            r is Ok ==> final(self)@ == old(self)@.skip(4) && r->Ok_0 as int == decode32(
                old(self)@.take(4),
            ),
            r is Err ==> final(self)@ == old(self)@ && r->Err_0 == CodecError::ShortRead,
    {
        proof {
            use_type_invariant(&*self);
        }
        if self.source.len() - self.pos < 4 {
            return Err(CodecError::ShortRead);
        }
        let b0: u8 = self.source[self.pos];
        let b1: u8 = self.source[self.pos + 1];
        let b2: u8 = self.source[self.pos + 2];
        let b3: u8 = self.source[self.pos + 3];
        self.pos = self.pos + 4;
        let u: u32 = (b0 as u32) * 0x100_0000 + (b1 as u32) * 0x1_0000 + (b2 as u32) * 0x100 + (
        b3 as u32);
        proof {
            assert(self@ =~= old(self)@.skip(4));
        }
        Ok(signed_of_u32(u))
    }

    /// Reads a 64-bit value from the next 8 bytes, most significant first.
    /// Fails, consuming nothing, if and only if fewer than 8 bytes are
    /// available.
    pub fn read_i64(&mut self) -> (r: Result<i64, CodecError>)
        ensures
            r is Ok <==> old(self)@.len() >= 8,
            r is Ok ==> final(self)@ == old(self)@.skip(8) && r->Ok_0 as int == decode64(
                old(self)@.take(8),
            ),
            r is Err ==> final(self)@ == old(self)@ && r->Err_0 == CodecError::ShortRead,
    {
        proof {
            use_type_invariant(&*self);
        }
        if self.source.len() - self.pos < 8 {
            return Err(CodecError::ShortRead);
        }
        let b0: u8 = self.source[self.pos];
        let b1: u8 = self.source[self.pos + 1];
        let b2: u8 = self.source[self.pos + 2];
        let b3: u8 = self.source[self.pos + 3];
        let b4: u8 = self.source[self.pos + 4];
        let b5: u8 = self.source[self.pos + 5];
        let b6: u8 = self.source[self.pos + 6];
        let b7: u8 = self.source[self.pos + 7];
        self.pos = self.pos + 8;
        let u: u64 = (b0 as u64) * 0x100_0000_0000_0000 + (b1 as u64) * 0x1_0000_0000_0000 + (
        b2 as u64) * 0x100_0000_0000 + (b3 as u64) * 0x1_0000_0000 + (b4 as u64) * 0x100_0000 + (
        b5 as u64) * 0x1_0000 + (b6 as u64) * 0x100 + (b7 as u64);
        proof {
            assert(self@ =~= old(self)@.skip(8));
        }
        Ok(signed_of_u64(u))
    }

}

} // verus!
