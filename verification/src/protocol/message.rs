//! The login message as a framed buffer, with the credentials hash.
use vstd::prelude::*;
use crate::buffer::buf_redux_contents;
use vstd::utf8::encode_utf8;
use crate::digest::{credentials_hash, hash_credentials, lower_hex, md5_digest};
use crate::message::pack::Pack;
use crate::message::unpack::Unpack;
use crate::message::laws::{law_u32_roundtrip, lemma_text_field_at};
use crate::message::wire::{le_u32, text_bytes, text_field};
use crate::protocol::slsk_buffer::SlskBuffer;

verus! {

/// The body of a login: code 1, the user name, the password, the version 160,
/// the credentials hash, then 17.
pub open spec fn login_body(username: Seq<char>, password: Seq<char>) -> Seq<u8> {
    le_u32(1) + text_field(username) + text_field(password) + le_u32(160) + text_field(
        credentials_hash(username, password),
    ) + le_u32(17)
}

/// A login framed for the connection: the body's length, modulo 2^32, then
/// the body.
pub open spec fn login_frame(username: Seq<char>, password: Seq<char>) -> Seq<u8> {
    le_u32(login_body(username, password).len() as u32) + login_body(username, password)
}

/// Whether a login's body fits the buffers it is built in: the two texts
/// and the 56 bytes around them take at most half the address space.
pub open spec fn login_fits(username: Seq<char>, password: Seq<char>) -> bool {
    text_bytes(username).len() + text_bytes(password).len() + 56 <= usize::MAX / 2
}

/// A message that can be written to the server as a framed buffer.
pub trait Message {
    /// The framed bytes of the message.
    spec fn framed(&self) -> Seq<u8>;

    /// Whether the message fits the buffers it is built in.
    spec fn fits(&self) -> bool;

    /// The message, framed, in a buffer.
    fn as_buffer(&self) -> (buffer: buf_redux::Buffer)
        requires
            self.fits(),
        ensures
            buf_redux_contents(buffer) == self.framed(),
    ;
}

/// A login request.
pub struct LoginRequest {
    pub username: &'static str,
    pub password: &'static str,
}

/// A login request for the given credentials.
pub fn login_request(username: &'static str, password: &'static str) -> (r: Box<LoginRequest>)
    ensures
        r.username@ == username@,
        r.password@ == password@,
{
    Box::new(LoginRequest { username, password })
}

impl Message for LoginRequest {
    open spec fn framed(&self) -> Seq<u8> {
        login_frame(self.username@, self.password@)
    }

    open spec fn fits(&self) -> bool {
        login_fits(self.username@, self.password@)
    }

    /// The credentials hash that the frame carries is 32 bytes long.
    fn as_buffer(&self) -> (buffer: buf_redux::Buffer)
        ensures
            text_bytes(credentials_hash(self.username@, self.password@)).len() == 32,
    {
        let hash = hash_credentials(self.username, self.password);
        let body = SlskBuffer::new().append_u32(1).append_string(self.username).append_string(
            self.password,
        ).append_u32(160).append_string(hash.as_str()).append_u32(17);
        let buffer = body.to_buffer();
        assert(body@ =~= login_body(self.username@, self.password@));
        buffer
    }
}

} // verus!

verus! {

/// Building a login through the `Message` enum and through a `LoginRequest`
/// gives the same framed bytes.
pub proof fn law_login_encodings_agree(username: &'static str, password: &'static str)
    ensures
        crate::message::Message::LoginRequest(username, password).framed() == (LoginRequest {
            username,
            password,
        }).framed(),
        crate::message::Message::LoginRequest(username, password).fits() == (LoginRequest {
            username,
            password,
        }).fits(),
{
}

} // verus!

verus! {

/// A framed login reads back, after the 32-bit size of what follows it, as
/// code 1, the user name, the password, the version 160, the credentials hash
/// (the lowercase hexadecimal MD5 digest of the user name's UTF-8 bytes
/// followed by the password's), then 17, which ends the frame.
#[verifier::rlimit(60)]
pub proof fn law_login_frame_reads_back(username: Seq<char>, password: Seq<char>)
    requires
        encode_utf8(username).len() + encode_utf8(password).len() + encode_utf8(
            lower_hex(md5_digest(encode_utf8(username) + encode_utf8(password))),
        ).len() + 24 <= u32::MAX,
    ensures
        ({
            let hash = lower_hex(md5_digest(encode_utf8(username) + encode_utf8(password)));
            let frame = login_frame(username, password);
            let p1 = 12 + encode_utf8(username).len();
            let p2 = p1 + 4 + encode_utf8(password).len();
            let p3 = p2 + 8 + encode_utf8(hash).len();
            &&& u32::unpacked_at(frame, 0) == Some(((frame.len() - 4) as u32, 4int))
            &&& u32::unpacked_at(frame, 4) == Some((1u32, 8int))
            &&& String::unpacked_at(frame, 8) == Some((username, p1 as int))
            &&& String::unpacked_at(frame, p1 as int) == Some((password, p2 as int))
            &&& u32::unpacked_at(frame, p2 as int) == Some((160u32, p2 + 4int))
            &&& String::unpacked_at(frame, p2 + 4int) == Some((hash, p3 as int))
            &&& u32::unpacked_at(frame, p3 as int) == Some((17u32, p3 + 4int))
            &&& frame.len() == p3 + 4
        }),
{
    let hash = lower_hex(md5_digest(encode_utf8(username) + encode_utf8(password)));
    let body = login_body(username, password);
    let size = le_u32(body.len() as u32);
    let frame = login_frame(username, password);
    assert(credentials_hash(username, password) == hash);
    assert(frame =~= size + le_u32(1) + text_field(username) + text_field(password) + le_u32(160)
        + text_field(hash) + le_u32(17));
    lemma_login_fields(body.len() as u32, username, password, hash);
}

/// The seven fields of a framed login, each read where the one before ends.
#[verifier::rlimit(60)]
proof fn lemma_login_fields(size: u32, username: Seq<char>, password: Seq<char>, hash: Seq<char>)
    requires
        encode_utf8(username).len() <= u32::MAX,
        encode_utf8(password).len() <= u32::MAX,
        encode_utf8(hash).len() <= u32::MAX,
    ensures
        ({
            let s = le_u32(size);
            let one = le_u32(1);
            let u = text_field(username);
            let p = text_field(password);
            let v = le_u32(160);
            let h = text_field(hash);
            let e = le_u32(17);
            let frame = s + one + u + p + v + h + e;
            &&& u32::unpacked_at(frame, 0) == Some((size, 4int))
            &&& u32::unpacked_at(frame, 4) == Some((1u32, 8int))
            &&& String::unpacked_at(frame, 8) == Some((username, 8 + u.len() as int))
            &&& String::unpacked_at(frame, 8 + u.len() as int) == Some(
                (password, 8 + u.len() + p.len() as int),
            )
            &&& u32::unpacked_at(frame, 8 + u.len() + p.len() as int) == Some(
                (160u32, 12 + u.len() + p.len() as int),
            )
            &&& String::unpacked_at(frame, 12 + u.len() + p.len() as int) == Some(
                (hash, 12 + u.len() + p.len() + h.len() as int),
            )
            &&& u32::unpacked_at(frame, 12 + u.len() + p.len() + h.len() as int) == Some(
                (17u32, 16 + u.len() + p.len() + h.len() as int),
            )
        }),
{
    let s = le_u32(size);
    let one = le_u32(1);
    let u = text_field(username);
    let p = text_field(password);
    let v = le_u32(160);
    let h = text_field(hash);
    let e = le_u32(17);
    let frame = s + one + u + p + v + h + e;
    assert(u32::unpacked_at(frame, 0) == Some((size, 4int))) by {
        assert(frame =~= Seq::<u8>::empty() + size.packed() + (one + u + p + v + h + e));
        law_u32_roundtrip(size, Seq::empty(), one + u + p + v + h + e);
    }
    assert(u32::unpacked_at(frame, 4) == Some((1u32, 8int))) by {
        assert(frame =~= s + 1u32.packed() + (u + p + v + h + e));
        law_u32_roundtrip(1, s, u + p + v + h + e);
    }
    assert(String::unpacked_at(frame, 8) == Some((username, 8 + u.len() as int))) by {
        assert(frame =~= (s + one) + u + (p + v + h + e));
        lemma_text_field_at(username, s + one, p + v + h + e);
    }
    assert(String::unpacked_at(frame, 8 + u.len() as int) == Some(
        (password, 8 + u.len() + p.len() as int),
    )) by {
        assert(frame =~= (s + one + u) + p + (v + h + e));
        lemma_text_field_at(password, s + one + u, v + h + e);
    }
    assert(u32::unpacked_at(frame, 8 + u.len() + p.len() as int) == Some(
        (160u32, 12 + u.len() + p.len() as int),
    )) by {
        assert(frame =~= (s + one + u + p) + 160u32.packed() + (h + e));
        law_u32_roundtrip(160, s + one + u + p, h + e);
    }
    assert(String::unpacked_at(frame, 12 + u.len() + p.len() as int) == Some(
        (hash, 12 + u.len() + p.len() + h.len() as int),
    )) by {
        assert(frame =~= (s + one + u + p + v) + h + e);
        lemma_text_field_at(hash, s + one + u + p + v, e);
    }
    assert(u32::unpacked_at(frame, 12 + u.len() + p.len() + h.len() as int) == Some(
        (17u32, 16 + u.len() + p.len() + h.len() as int),
    )) by {
        assert(frame =~= (s + one + u + p + v + h) + 17u32.packed() + Seq::<u8>::empty());
        law_u32_roundtrip(17, s + one + u + p + v + h, Seq::empty());
    }
}

} // verus!
