//! The byte buffers of the `buf_redux` and `buffer_redux` crates, which the
//! protocol code fills and drains. Their contents are named, and each method
//! that the protocol code calls has a wrapper stating what it does to them.
use vstd::prelude::*;

verus! {

/// `buf_redux`'s growable byte buffer.
#[verifier::external_type_specification]
#[verifier::external_body]
pub struct ExBufReduxBuffer(buf_redux::Buffer);

/// `buffer_redux`'s growable byte buffer.
#[verifier::external_type_specification]
#[verifier::external_body]
pub struct ExBufferReduxBuffer(buffer_redux::Buffer);

/// The bytes held by a `buf_redux` buffer, from its head to its tail.
pub uninterp spec fn buf_redux_contents(buffer: buf_redux::Buffer) -> Seq<u8>;

/// The bytes held by a `buffer_redux` buffer, from its head to its tail.
pub uninterp spec fn buffer_redux_contents(buffer: buffer_redux::Buffer) -> Seq<u8>;

/// Calls `buf_redux::Buffer::new`. Trusted: the new buffer holds no bytes.
#[verifier::external_body]
pub(crate) fn new_buffer() -> (buffer: buf_redux::Buffer)
    ensures
        buf_redux_contents(buffer) == Seq::<u8>::empty(),
{
    buf_redux::Buffer::new()
}

/// Calls `buf_redux::Buffer::push_bytes`. Trusted: the bytes are appended at
/// the tail (the source grows the buffer when it lacks room). The method
/// computes twice the slice's length, so slices longer than half the address
/// space are left out; that an allocation may fail is not stated.
#[verifier::external_body]
pub(crate) fn push_bytes(buffer: &mut buf_redux::Buffer, bytes: &[u8])
    requires
        bytes@.len() <= usize::MAX / 2,
    ensures
        buf_redux_contents(*final(buffer)) == buf_redux_contents(*old(buffer)) + bytes@,
{
    buffer.push_bytes(bytes)
}

/// Calls `buf_redux::Buffer::buf`. Trusted: the slice is the buffer's contents.
#[verifier::external_body]
pub(crate) fn buffer_bytes(buffer: &buf_redux::Buffer) -> (bytes: &[u8])
    ensures
        bytes@ == buf_redux_contents(*buffer),
{
    buffer.buf()
}

/// Calls `buf_redux::Buffer::len`. Trusted: the number of bytes held.
#[verifier::external_body]
pub(crate) fn buffer_len(buffer: &buf_redux::Buffer) -> (len: usize)
    ensures
        len == buf_redux_contents(*buffer).len(),
{
    buffer.len()
}

/// Calls `buffer_redux::Buffer::buf`. Trusted: the slice is the buffer's
/// contents.
#[verifier::external_body]
pub(crate) fn ring_bytes(buffer: &buffer_redux::Buffer) -> (bytes: &[u8])
    ensures
        bytes@ == buffer_redux_contents(*buffer),
{
    buffer.buf()
}

/// Calls `buffer_redux::Buffer::len`. Trusted: the number of bytes held.
#[verifier::external_body]
pub(crate) fn ring_len(buffer: &buffer_redux::Buffer) -> (len: usize)
    ensures
        len == buffer_redux_contents(*buffer).len(),
{
    buffer.len()
}

/// Calls `buffer_redux::Buffer::push_bytes`. Trusted: the bytes are appended
/// at the tail (the source grows the buffer when it lacks room). The method
/// computes twice the slice's length, so slices longer than half the address
/// space are left out; that an allocation may fail is not stated.
#[verifier::external_body]
pub(crate) fn ring_push(buffer: &mut buffer_redux::Buffer, bytes: &[u8])
    requires
        bytes@.len() <= usize::MAX / 2,
    ensures
        buffer_redux_contents(*final(buffer)) == buffer_redux_contents(*old(buffer)) + bytes@,
{
    buffer.push_bytes(bytes)
}

/// Calls `buffer_redux::Buffer::consume`. Trusted: the first `amount` bytes
/// leave the buffer (the source moves its head by `amount`, at most to the
/// tail; amounts past the tail are left out, as the head could overflow).
#[verifier::external_body]
pub(crate) fn ring_consume(buffer: &mut buffer_redux::Buffer, amount: usize)
    requires
        amount <= buffer_redux_contents(*old(buffer)).len(),
    ensures
        buffer_redux_contents(*final(buffer)) == buffer_redux_contents(*old(buffer)).skip(
            amount as int,
        ),
{
    buffer.consume(amount)
}

} // verus!
