//! Cutting the bytes read from a connection into messages. Each message on
//! the connection is a 32-bit little-endian size followed by that many bytes.
use vstd::prelude::*;
use crate::buffer::{buffer_redux_contents, ring_bytes, ring_len, ring_consume, ring_push};
use crate::message::wire::{le_u32, u32_at};
use crate::message::unpack::read_u32;
use crate::message::pack::Pack;
use crate::protocol::message::{login_body, login_frame};
use crate::protocol::slsk_buffer::SlskBuffer;

verus! {

/// The size that the first four bytes announce.
pub open spec fn frame_size(contents: Seq<u8>) -> u32 {
    u32_at(contents, 0)
}

/// Whether the frame at the front is complete: its size plus the four bytes
/// of the size fits in the bytes held, their count taken modulo 2^32.
pub open spec fn frame_complete(contents: Seq<u8>) -> bool {
    frame_size(contents) + 4 <= (contents.len() as u32)
}

/// The size announced by the bytes received so far, where at least four have
/// arrived.
pub fn pending_frame_size(memory: &buffer_redux::Buffer) -> (size: Option<u32>)
    ensures
        buffer_redux_contents(*memory).len() < 4 ==> size is None,
        buffer_redux_contents(*memory).len() >= 4 ==> size == Some(
            frame_size(buffer_redux_contents(*memory)),
        ),
{
    let bytes = ring_bytes(memory);
    if bytes.len() >= 4 {
        Some(read_u32(bytes, 0))
    } else {
        None
    }
}

/// Takes the frame at the front of the bytes received so far, size included,
/// where it is complete; otherwise leaves the bytes as they are.
pub fn take_message(memory: &mut buffer_redux::Buffer) -> (message: Option<Vec<u8>>)
    requires
        buffer_redux_contents(*old(memory)).len() >= 4,
        frame_size(buffer_redux_contents(*old(memory))) <= u32::MAX - 4,
    ensures
        ({
            let contents = buffer_redux_contents(*old(memory));
            let length = frame_size(contents) + 4;
            if frame_complete(contents) {
                &&& message matches Some(m) && m@ == contents.take(length)
                &&& buffer_redux_contents(*final(memory)) == contents.skip(length)
            } else {
                &&& message is None
                &&& buffer_redux_contents(*final(memory)) == contents
            }
        }),
{
    let message_size = read_u32(ring_bytes(memory), 0);
    if message_size + 4 <= ring_len(memory) as u32 {
        let length = message_size + 4;
        let bytes = ring_bytes(memory);
        let message = vstd::slice::slice_to_vec(
            vstd::slice::slice_subrange(bytes, 0, length as usize),
        );
        ring_consume(memory, length as usize);
        assert(message@ =~= buffer_redux_contents(*old(memory)).take(length as int));
        Some(message)
    } else {
        None
    }
}

/// What the received bytes give once they join those received before.
pub enum Received {
    /// Fewer than four bytes are held: there is no size to read yet.
    NoSize,
    /// The announced size plus its four bytes overflows 32 bits.
    SizeOverflow,
    /// The frame taken from the front, where it is complete.
    Frame(Option<Vec<u8>>),
}

/// Adds the bytes just read from the connection to those received before and
/// takes the frame at the front where it is complete. Where fewer than four
/// bytes are held, or the size they announce overflows once its own four
/// bytes are added, that is reported and the bytes are kept.
pub fn receive(memory: &mut buffer_redux::Buffer, bytes: &[u8]) -> (r: Received)
    requires
        bytes@.len() <= usize::MAX / 2,
    ensures
        ({
            let contents = buffer_redux_contents(*old(memory)) + bytes@;
            let length = frame_size(contents) + 4;
            if contents.len() < 4 {
                &&& r is NoSize
                &&& buffer_redux_contents(*final(memory)) == contents
            } else if frame_size(contents) > u32::MAX - 4 {
                &&& r is SizeOverflow
                &&& buffer_redux_contents(*final(memory)) == contents
            } else if frame_complete(contents) {
                &&& r matches Received::Frame(Some(m)) && m@ == contents.take(length)
                &&& buffer_redux_contents(*final(memory)) == contents.skip(length)
            } else {
                &&& r matches Received::Frame(None)
                &&& buffer_redux_contents(*final(memory)) == contents
            }
        }),
{
    ring_push(memory, bytes);
    match pending_frame_size(memory) {
        None => Received::NoSize,
        Some(size) => {
            if size > u32::MAX - 4 {
                Received::SizeOverflow
            } else {
                Received::Frame(take_message(memory))
            }
        },
    }
}

/// Bytes written after their 32-bit length make a complete frame, wherever
/// less than 4 GiB stands in the buffer: taking the message gives back the
/// length and the bytes, and leaves what followed.
pub proof fn lemma_length_prefixed(payload: Seq<u8>, rest: Seq<u8>)
    requires
        payload.len() <= u32::MAX - 4,
        4 + payload.len() + rest.len() <= u32::MAX,
    ensures
        ({
            let frame = le_u32(payload.len() as u32) + payload;
            let contents = frame + rest;
            &&& frame_size(contents) == payload.len()
            &&& frame_complete(contents)
            &&& contents.take(frame_size(contents) + 4) == frame
            &&& contents.skip(frame_size(contents) + 4) == rest
            &&& contents.subrange(4, frame_size(contents) + 4) == payload
        }),
{
    let n = payload.len();
    let frame = le_u32(n as u32) + payload;
    let contents = frame + rest;
    crate::message::wire::lemma_u32_roundtrip(n as u32, Seq::empty(), payload + rest);
    assert(contents =~= Seq::<u8>::empty() + le_u32(n as u32) + (payload + rest));
    assert(contents.take(n + 4int) =~= frame);
    assert(contents.skip(n + 4int) =~= rest);
    assert(contents.subrange(4, n + 4int) =~= payload);
}

/// A payload written with its length prefix by `Vec<u8>`'s encoding, which is
/// how messages are written to a connection, is a complete frame wherever
/// less than 4 GiB stands in the buffer: taking the message gives back exactly
/// that encoding and leaves what followed.
pub proof fn law_frame_roundtrip(payload: Vec<u8>, rest: Seq<u8>)
    requires
        payload@.len() <= u32::MAX - 4,
        4 + payload@.len() + rest.len() <= u32::MAX,
    ensures
        ({
            let contents = payload.packed() + rest;
            &&& frame_size(contents) == payload@.len()
            &&& frame_complete(contents)
            &&& contents.take(frame_size(contents) + 4) == payload.packed()
            &&& contents.skip(frame_size(contents) + 4) == rest
            &&& contents.subrange(4, frame_size(contents) + 4) == payload@
        }),
{
    lemma_length_prefixed(payload@, rest);
}

/// The framed login is a complete frame to the receiving side: taking the
/// message from a buffer that starts with it gives back the whole login.
pub proof fn law_login_frame_is_complete(username: Seq<char>, password: Seq<char>, rest: Seq<u8>)
    requires
        login_body(username, password).len() <= u32::MAX - 4,
        4 + login_body(username, password).len() + rest.len() <= u32::MAX,
    ensures
        ({
            let contents = login_frame(username, password) + rest;
            &&& frame_complete(contents)
            &&& contents.take(frame_size(contents) + 4) == login_frame(username, password)
            &&& contents.skip(frame_size(contents) + 4) == rest
        }),
{
    lemma_length_prefixed(login_body(username, password), rest);
}

/// The complete message a body builder gives (`SlskBuffer::to_buffer`) is
/// the body it holds (what `raw_buffer` copies) after the body's length, and
/// the receiving side takes it whole, with the body after the four bytes of
/// the length.
pub proof fn law_slsk_buffer_frame(body: SlskBuffer, rest: Seq<u8>)
    requires
        body@.len() <= u32::MAX - 4,
        4 + body@.len() + rest.len() <= u32::MAX,
    ensures
        ({
            let frame = le_u32(body@.len() as u32) + body@;
            let contents = frame + rest;
            &&& frame_complete(contents)
            &&& contents.take(frame_size(contents) + 4) == frame
            &&& contents.skip(frame_size(contents) + 4) == rest
            &&& contents.subrange(4, frame_size(contents) + 4) == body@
        }),
{
    lemma_length_prefixed(body@, rest);
}

} // verus!
