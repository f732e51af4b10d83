//! Encoding of values on the wire.
use vstd::prelude::*;
use crate::message::wire::{le_u32, text_bytes};

verus! {

/// A value that has an encoding on the wire.
pub trait Pack: Sized {
    /// The bytes that encode this value.
    spec fn packed(&self) -> Seq<u8>;

    /// Encodes this value.
    fn pack(&self) -> (bytes: Vec<u8>)
        ensures
            bytes@ == self.packed(),
    ;
}

/// Appends the little-endian bytes of `x` to `out`.
pub fn push_u32(out: &mut Vec<u8>, x: u32)
    ensures
        final(out)@ == old(out)@ + le_u32(x),
{
    out.push((x % 256) as u8);
    out.push(((x / 256) % 256) as u8);
    out.push(((x / 65536) % 256) as u8);
    out.push(((x / 16777216) % 256) as u8);
    assert(final(out)@ =~= old(out)@ + le_u32(x));
}

/// Appends `bytes` to `out`.
pub fn push_slice(out: &mut Vec<u8>, bytes: &[u8])
    ensures
        final(out)@ == old(out)@ + bytes@,
{
    let ghost start = out@;
    let mut i: usize = 0;
    while i < bytes.len()
        invariant
            i <= bytes@.len(),
            out@ == start + bytes@.subrange(0, i as int),
        decreases bytes@.len() - i,
    {
        out.push(bytes[i]);
        i = i + 1;
        assert(out@ =~= start + bytes@.subrange(0, i as int));
    }
    assert(bytes@.subrange(0, i as int) =~= bytes@);
}

/// Appends the encoding of `text`, a 32-bit byte count and the UTF-8 bytes,
/// to `out`. The count is the byte count taken modulo 2^32.
pub fn push_text(out: &mut Vec<u8>, text: &str)
    ensures
        final(out)@ == old(out)@ + le_u32(text_bytes(text@).len() as u32) + text_bytes(text@),
{
    let bytes = text.as_bytes();
    let length = bytes.len() as u32;
    push_u32(out, length);
    push_slice(out, bytes);
}

/// The encoding of a boolean: one byte, 1 for true and 0 for false.
pub open spec fn bool_byte(b: bool) -> u8 {
    if b { 1 } else { 0 }
}

impl Pack for u32 {
    open spec fn packed(&self) -> Seq<u8> {
        le_u32(*self)
    }

    fn pack(&self) -> (bytes: Vec<u8>) {
        let mut bytes: Vec<u8> = Vec::new();
        push_u32(&mut bytes, *self);
        assert(bytes@ =~= le_u32(*self));
        bytes
    }
}

impl Pack for u8 {
    open spec fn packed(&self) -> Seq<u8> {
        seq![*self]
    }

    fn pack(&self) -> (bytes: Vec<u8>) {
        let mut bytes: Vec<u8> = Vec::new();
        bytes.push(*self);
        assert(bytes@ =~= seq![*self]);
        bytes
    }
}

impl Pack for bool {
    open spec fn packed(&self) -> Seq<u8> {
        seq![bool_byte(*self)]
    }

    fn pack(&self) -> (bytes: Vec<u8>) {
        let mut bytes: Vec<u8> = Vec::new();
        if *self {
            bytes.push(1);
        } else {
            bytes.push(0);
        }
        assert(bytes@ =~= seq![bool_byte(*self)]);
        bytes
    }
}

impl Pack for String {
    /// The byte count is the UTF-8 length taken modulo 2^32, as the
    /// count is written as a `u32`.
    open spec fn packed(&self) -> Seq<u8> {
        le_u32(text_bytes(self@).len() as u32) + text_bytes(self@)
    }

    fn pack(&self) -> (bytes: Vec<u8>) {
        let mut bytes: Vec<u8> = Vec::new();
        push_text(&mut bytes, self.as_str());
        assert(bytes@ =~= self.packed());
        bytes
    }
}

/// The length prefix of a byte vector: its length, or `u32::MAX` where the
/// length does not fit in 32 bits.
pub open spec fn capped_len(len: nat) -> u32 {
    if len <= u32::MAX { len as u32 } else { u32::MAX }
}

impl Pack for Vec<u8> {
    open spec fn packed(&self) -> Seq<u8> {
        le_u32(capped_len(self@.len())) + self@
    }

    fn pack(&self) -> (bytes: Vec<u8>) {
        let length: u32 = if self.len() <= 4294967295usize {
            self.len() as u32
        } else {
            u32::MAX
        };
        let mut bytes: Vec<u8> = Vec::new();
        push_u32(&mut bytes, length);
        push_slice(&mut bytes, self.as_slice());
        assert(bytes@ =~= self.packed());
        bytes
    }
}

} // verus!
