//! A builder of message bodies over a `buf_redux` buffer.
use vstd::prelude::*;
use crate::buffer::{buf_redux_contents, new_buffer, push_bytes, buffer_bytes, buffer_len};
use crate::message::wire::{le_u32, text_bytes};
use crate::message::pack::push_u32;

verus! {

/// A message body under construction.
pub struct SlskBuffer {
    buffer: buf_redux::Buffer,
}

impl View for SlskBuffer {
    type V = Seq<u8>;

    /// The bytes appended so far.
    closed spec fn view(&self) -> Seq<u8> {
        buf_redux_contents(self.buffer)
    }
}

impl SlskBuffer {
    /// An empty body.
    pub fn new() -> (r: Self)
        ensures
            r@ == Seq::<u8>::empty(),
    {
        SlskBuffer { buffer: new_buffer() }
    }

    /// Appends the four little-endian bytes of `value`.
    pub fn append_u32(self, value: u32) -> (r: Self)
        ensures
            r@ == self@ + le_u32(value),
    {
        let mut this = self;
        let mut bytes: Vec<u8> = Vec::new();
        push_u32(&mut bytes, value);
        push_bytes(&mut this.buffer, bytes.as_slice());
        this
    }

    /// Appends a text: its UTF-8 byte count, modulo 2^32, as a little-endian
    /// `u32`, then its bytes.
    pub fn append_string(self, value: &str) -> (r: Self)
        requires
            text_bytes(value@).len() <= usize::MAX / 2,
        ensures
            r@ == self@ + le_u32(text_bytes(value@).len() as u32) + text_bytes(value@),
    {
        let mut this = self;
        let bytes = value.as_bytes();
        let length = bytes.len() as u32;
        let mut prefix: Vec<u8> = Vec::new();
        push_u32(&mut prefix, length);
        push_bytes(&mut this.buffer, prefix.as_slice());
        push_bytes(&mut this.buffer, bytes);
        this
    }

    /// A new buffer holding a copy of the body.
    pub fn raw_buffer(&self) -> (r: buf_redux::Buffer)
        requires
            self@.len() <= usize::MAX / 2,
        ensures
            buf_redux_contents(r) == self@,
    {
        let mut buffer = new_buffer();
        push_bytes(&mut buffer, buffer_bytes(&self.buffer));
        buffer
    }

    /// The complete message: the body's length, modulo 2^32, as a
    /// little-endian `u32`, then the body.
    pub fn to_buffer(&self) -> (r: buf_redux::Buffer)
        requires
            self@.len() <= usize::MAX / 2,
        ensures
            buf_redux_contents(r) == le_u32(self@.len() as u32) + self@,
    {
        let mut complete = new_buffer();
        let buffer_len: u32 = buffer_len(&self.buffer) as u32;
        let mut prefix: Vec<u8> = Vec::new();
        push_u32(&mut prefix, buffer_len);
        push_bytes(&mut complete, prefix.as_slice());
        push_bytes(&mut complete, buffer_bytes(&self.buffer));
        complete
    }
}

} // verus!
