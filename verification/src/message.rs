//! Messages of the protocol and their encoding on the wire.
pub mod wire;
pub mod pack;
pub mod unpack;
pub mod laws;
pub mod request_laws;
pub mod inflate;
pub mod peer;
pub mod peer_requests;
pub mod peer_responses;
pub mod server_requests;
pub mod server_responses;

use vstd::prelude::*;
use crate::buffer::{buf_redux_contents, new_buffer, push_bytes, buffer_bytes, buffer_len};
use crate::digest::{credentials_hash, hash_credentials};
use crate::message::wire::text_bytes;
use crate::message::pack::push_u32;
use crate::protocol::message::{login_frame, login_fits};

verus! {

/// Messages built directly into a framed buffer.
pub enum Message {
    LoginRequest(&'static str, &'static str),
}

/// Appends the little-endian bytes of `value` to `buffer`.
fn push_u32_bytes(buffer: &mut buf_redux::Buffer, value: u32)
    ensures
        buf_redux_contents(*final(buffer)) == buf_redux_contents(*old(buffer))
            + crate::message::wire::le_u32(value),
{
    let mut bytes: Vec<u8> = Vec::new();
    push_u32(&mut bytes, value);
    push_bytes(buffer, bytes.as_slice());
}

impl Message {
    /// Whether the message fits the buffers it is built in.
    pub open spec fn fits(&self) -> bool {
        match self {
            Message::LoginRequest(username, password) => login_fits(username@, password@),
        }
    }

    /// The framed bytes of the message.
    pub open spec fn framed(&self) -> Seq<u8> {
        match self {
            Message::LoginRequest(username, password) => login_frame(username@, password@),
        }
    }

    /// The message, framed, in a buffer.
    pub fn as_buffer(&self) -> (buffer: buf_redux::Buffer)
        requires
            self.fits(),
        ensures
            buf_redux_contents(buffer) == self.framed(),
            match self {
                Message::LoginRequest(username, password) => text_bytes(
                    credentials_hash(username@, password@),
                ).len() == 32,
            },
    {
        match self {
            Message::LoginRequest(username, password) => {
                let message_type: u32 = 1;
                let username_bytes = username.as_bytes();
                let password_bytes = password.as_bytes();
                let unknown_field: u32 = 160;
                let another_unknown_field: u32 = 0x11;
                let computed_string = hash_credentials(username, password);

                let mut message = new_buffer();
                push_u32_bytes(&mut message, message_type);
                let username_len: u32 = username_bytes.len() as u32;
                push_u32_bytes(&mut message, username_len);
                push_bytes(&mut message, username_bytes);
                let password_len: u32 = password_bytes.len() as u32;
                push_u32_bytes(&mut message, password_len);
                push_bytes(&mut message, password_bytes);
                push_u32_bytes(&mut message, unknown_field);
                let hex_credentials_len: u32 = computed_string.as_str().as_bytes().len() as u32;
                push_u32_bytes(&mut message, hex_credentials_len);
                push_bytes(&mut message, computed_string.as_str().as_bytes());
                push_u32_bytes(&mut message, another_unknown_field);

                let mut complete = new_buffer();
                let message_len: u32 = buffer_len(&message) as u32;
                push_u32_bytes(&mut complete, message_len);
                push_bytes(&mut complete, buffer_bytes(&message));
                assert(buf_redux_contents(message) =~= crate::protocol::message::login_body(
                    username@,
                    password@,
                ));
                complete
            },
        }
    }
}

} // verus!
