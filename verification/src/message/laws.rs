//! What a read gives back of a write: every value with both an encoding and a
//! decoding reads back as itself, wherever its encoding stands in a stream.
use vstd::prelude::*;
use vstd::utf8::{encode_utf8_valid_utf8, encode_utf8_decode_utf8};
use vstd::seq_lib::lemma_concat_associative;
use crate::message::wire::{le_u32, text_bytes, text_field, lemma_u32_roundtrip};
use crate::message::peer_responses::{PeerInit, PeerInitView};
use crate::message::server_responses::{
    LoginResponse, LoginResponseView, ConnectToPeer, ConnectToPeerView,
};
use crate::message::pack::{Pack, bool_byte};
use crate::message::unpack::{Unpack, text_from_bytes};

verus! {

/// A `u8` reads back as itself.
pub proof fn law_u8_roundtrip(x: u8, pre: Seq<u8>, post: Seq<u8>)
    ensures
        <u8 as Unpack>::unpacked_at(pre + x.packed() + post, pre.len() as int) == Some(
            (x, pre.len() + 1int),
        ),
{
    let s = pre + x.packed() + post;
    assert(s[pre.len() as int] == x);
}

/// A boolean reads back as itself.
pub proof fn law_bool_roundtrip(b: bool, pre: Seq<u8>, post: Seq<u8>)
    ensures
        <bool as Unpack>::unpacked_at(pre + b.packed() + post, pre.len() as int) == Some(
            (b, pre.len() + 1int),
        ),
{
    let s = pre + b.packed() + post;
    assert(s[pre.len() as int] == bool_byte(b));
}

/// A `u32` reads back as itself.
pub proof fn law_u32_roundtrip(x: u32, pre: Seq<u8>, post: Seq<u8>)
    ensures
        <u32 as Unpack>::unpacked_at(pre + x.packed() + post, pre.len() as int) == Some(
            (x, pre.len() + 4int),
        ),
{
    lemma_u32_roundtrip(x, pre, post);
}

/// A text field reads back as its text, wherever it stands in a stream,
/// where the text's UTF-8 encoding is shorter than 2^32 bytes.
pub proof fn lemma_text_field_at(text: Seq<char>, pre: Seq<u8>, post: Seq<u8>)
    requires
        text_bytes(text).len() <= u32::MAX,
    ensures
        <String as Unpack>::unpacked_at(pre + text_field(text) + post, pre.len() as int) == Some(
            (text, pre.len() + text_field(text).len() as int),
        ),
{
    let bytes = text_bytes(text);
    let n = bytes.len();
    let all = pre + text_field(text) + post;
    let p = pre.len() as int;
    assert(all =~= pre + le_u32(n as u32) + (bytes + post));
    lemma_u32_roundtrip(n as u32, pre, bytes + post);
    assert(all.subrange(p + 4, p + 4 + n) =~= bytes);
    encode_utf8_valid_utf8(text);
    encode_utf8_decode_utf8(text);
    reveal(text_from_bytes);
    assert(text_from_bytes(bytes) == text);
}

/// A text whose UTF-8 encoding is shorter than 2^32 bytes reads back as
/// itself. (A longer one does not: its byte count is written modulo 2^32.)
pub proof fn law_text_roundtrip(s: String, pre: Seq<u8>, post: Seq<u8>)
    requires
        text_bytes(s@).len() <= u32::MAX,
    ensures
        <String as Unpack>::unpacked_at(pre + s.packed() + post, pre.len() as int) == Some(
            (s@, pre.len() + s.packed().len() as int),
        ),
{
    assert(s.packed() == text_field(s@));
    lemma_text_field_at(s@, pre, post);
}

/// The bytes of a login response: whether it succeeded, the message, and
/// where it succeeded the address, the password hash and the supporter flag.
pub open spec fn login_response_bytes(
    success: bool,
    message: Seq<char>,
    ip: u32,
    hash: Seq<char>,
    is_supporter: bool,
) -> Seq<u8> {
    seq![bool_byte(success)] + text_field(message) + if success {
        le_u32(ip) + text_field(hash) + seq![bool_byte(is_supporter)]
    } else {
        Seq::empty()
    }
}

/// A login response reads back as the response whose fields were written,
/// with the address, hash and supporter flag only where it succeeded, and the
/// read ends where the response's bytes end.
#[verifier::rlimit(60)]
pub proof fn law_login_response_reads_back(
    success: bool,
    message: Seq<char>,
    ip: u32,
    hash: Seq<char>,
    is_supporter: bool,
    pre: Seq<u8>,
    post: Seq<u8>,
)
    requires
        text_bytes(message).len() <= u32::MAX,
        text_bytes(hash).len() <= u32::MAX,
    ensures
        ({
            let body = login_response_bytes(success, message, ip, hash, is_supporter);
            LoginResponse::unpacked_at(pre + body + post, pre.len() as int) == Some(
                (
                    LoginResponseView {
                        success,
                        message,
                        ip: if success { Some(ip) } else { None },
                        hash: if success { Some(hash) } else { None },
                        is_supporter: if success { Some(is_supporter) } else { None },
                    },
                    pre.len() + body.len() as int,
                ),
            )
        }),
{
    let b = seq![bool_byte(success)];
    let m = text_field(message);
    let c = le_u32(ip);
    let h = text_field(hash);
    let f = seq![bool_byte(is_supporter)];
    let tail: Seq<u8> = if success { c + h + f } else { Seq::empty() };
    let body = login_response_bytes(success, message, ip, hash, is_supporter);
    let all = pre + body + post;
    let r2 = tail + post;
    let r1 = m + r2;
    let q1 = pre + b;
    let q2 = q1 + m;
    let p0 = pre.len() as int;
    assert(all == pre + (b + r1)) by {
        assert(all =~= pre + (b + r1));
    }
    assert(bool::unpacked_at(all, p0) == Some((success, q1.len() as int))) by {
        lemma_concat_associative(pre, b, r1);
        law_bool_roundtrip(success, pre, r1);
    }
    assert(String::unpacked_at(all, q1.len() as int) == Some((message, q2.len() as int))) by {
        lemma_concat_associative(pre, b, r1);
        lemma_concat_associative(q1, m, r2);
        lemma_text_field_at(message, q1, r2);
    }
    if success {
        let s4 = f + post;
        let s3 = h + s4;
        let q3 = q2 + c;
        let q4 = q3 + h;
        assert(r2 == c + s3) by {
            assert(r2 =~= c + s3);
        }
        assert(u32::unpacked_at(all, q2.len() as int) == Some((ip, q3.len() as int))) by {
            lemma_concat_associative(pre, b, r1);
            lemma_concat_associative(q1, m, r2);
            lemma_concat_associative(q2, c, s3);
            law_u32_roundtrip(ip, q2, s3);
        }
        assert(String::unpacked_at(all, q3.len() as int) == Some((hash, q4.len() as int))) by {
            lemma_concat_associative(pre, b, r1);
            lemma_concat_associative(q1, m, r2);
            lemma_concat_associative(q2, c, s3);
            lemma_concat_associative(q3, h, s4);
            lemma_text_field_at(hash, q3, s4);
        }
        assert(bool::unpacked_at(all, q4.len() as int) == Some((is_supporter, q4.len() + 1int)))
            by {
            lemma_concat_associative(pre, b, r1);
            lemma_concat_associative(q1, m, r2);
            lemma_concat_associative(q2, c, s3);
            lemma_concat_associative(q3, h, s4);
            lemma_concat_associative(q4, f, post);
            law_bool_roundtrip(is_supporter, q4, post);
        }
        lemma_login_response_fields(
            all,
            p0,
            q1.len() as int,
            q2.len() as int,
            q3.len() as int,
            q4.len() as int,
            q4.len() + 1int,
            success,
            message,
            ip,
            hash,
            is_supporter,
        );
    } else {
        lemma_login_response_fields(
            all,
            p0,
            q1.len() as int,
            q2.len() as int,
            0,
            0,
            0,
            success,
            message,
            ip,
            hash,
            is_supporter,
        );
    }
}

/// A login response is read from its fields.
proof fn lemma_login_response_fields(
    bytes: Seq<u8>,
    p0: int,
    p1: int,
    p2: int,
    p3: int,
    p4: int,
    p5: int,
    success: bool,
    message: Seq<char>,
    ip: u32,
    hash: Seq<char>,
    is_supporter: bool,
)
    requires
        bool::unpacked_at(bytes, p0) == Some((success, p1)),
        String::unpacked_at(bytes, p1) == Some((message, p2)),
        success ==> u32::unpacked_at(bytes, p2) == Some((ip, p3)),
        success ==> String::unpacked_at(bytes, p3) == Some((hash, p4)),
        success ==> bool::unpacked_at(bytes, p4) == Some((is_supporter, p5)),
    ensures
        LoginResponse::unpacked_at(bytes, p0) == Some(
            (
                LoginResponseView {
                    success,
                    message,
                    ip: if success { Some(ip) } else { None },
                    hash: if success { Some(hash) } else { None },
                    is_supporter: if success { Some(is_supporter) } else { None },
                },
                if success { p5 } else { p2 },
            ),
        ),
{
}

/// The introduction a peer sends reads back as the one whose fields were
/// written: the user name, the connection type, then the token.
pub proof fn law_peer_init_reads_back(
    username: Seq<char>,
    connection_type: Seq<char>,
    token: u32,
    pre: Seq<u8>,
    post: Seq<u8>,
)
    requires
        text_bytes(username).len() <= u32::MAX,
        text_bytes(connection_type).len() <= u32::MAX,
    ensures
        ({
            let body = text_field(username) + text_field(connection_type) + le_u32(token);
            PeerInit::unpacked_at(pre + body + post, pre.len() as int) == Some(
                (PeerInitView { username, connection_type, token }, pre.len() + body.len() as int),
            )
        }),
{
    let a = text_field(username);
    let b = text_field(connection_type);
    let body = a + b + le_u32(token);
    let all = pre + body + post;
    assert(all =~= pre + a + (b + le_u32(token) + post));
    lemma_text_field_at(username, pre, b + le_u32(token) + post);
    assert(all =~= (pre + a) + b + (le_u32(token) + post));
    lemma_text_field_at(connection_type, pre + a, le_u32(token) + post);
    assert(all =~= (pre + a + b) + token.packed() + post);
    law_u32_roundtrip(token, pre + a + b, post);
}

/// Regrouping five fields between a prefix and a suffix.
proof fn lemma_regroup_five(
    pre: Seq<u8>,
    a: Seq<u8>,
    b: Seq<u8>,
    c: Seq<u8>,
    d: Seq<u8>,
    e: Seq<u8>,
    post: Seq<u8>,
)
    ensures
        pre + (a + b + c + d + e) + post == pre + (a + (b + (c + (d + (e + post))))),
{
    assert(pre + (a + b + c + d + e) + post =~= pre + (a + (b + (c + (d + (e + post))))));
}

/// A request to connect to a peer is read from its five fields.
proof fn lemma_connect_to_peer_fields(
    bytes: Seq<u8>,
    p0: int,
    p1: int,
    p2: int,
    p3: int,
    p4: int,
    p5: int,
    username: Seq<char>,
    connection_type: Seq<char>,
    ip: u32,
    port: u32,
    token: u32,
)
    requires
        String::unpacked_at(bytes, p0) == Some((username, p1)),
        String::unpacked_at(bytes, p1) == Some((connection_type, p2)),
        u32::unpacked_at(bytes, p2) == Some((ip, p3)),
        u32::unpacked_at(bytes, p3) == Some((port, p4)),
        u32::unpacked_at(bytes, p4) == Some((token, p5)),
    ensures
        ConnectToPeer::unpacked_at(bytes, p0) == Some(
            (ConnectToPeerView { username, connection_type, ip, port, token }, p5),
        ),
{
}

/// A request to connect to a peer reads back as the one whose fields were
/// written: the user name, the connection type, the address, the port, then
/// the token.
#[verifier::rlimit(60)]
pub proof fn law_connect_to_peer_reads_back(
    username: Seq<char>,
    connection_type: Seq<char>,
    ip: u32,
    port: u32,
    token: u32,
    pre: Seq<u8>,
    post: Seq<u8>,
)
    requires
        text_bytes(username).len() <= u32::MAX,
        text_bytes(connection_type).len() <= u32::MAX,
    ensures
        ({
            let body = text_field(username) + text_field(connection_type) + le_u32(ip) + le_u32(
                port,
            ) + le_u32(token);
            ConnectToPeer::unpacked_at(pre + body + post, pre.len() as int) == Some(
                (
                    ConnectToPeerView { username, connection_type, ip, port, token },
                    pre.len() + body.len() as int,
                ),
            )
        }),
{
    let a = text_field(username);
    let b = text_field(connection_type);
    let c = le_u32(ip);
    let d = le_u32(port);
    let e = le_u32(token);
    let all = pre + (a + b + c + d + e) + post;
    let r4 = e + post;
    let r3 = d + r4;
    let r2 = c + r3;
    let r1 = b + r2;
    let q1 = pre + a;
    let q2 = q1 + b;
    let q3 = q2 + c;
    let q4 = q3 + d;
    lemma_regroup_five(pre, a, b, c, d, e, post);
    let p0 = pre.len() as int;
    let p5 = q4.len() + 4int;
    assert(String::unpacked_at(all, p0) == Some((username, q1.len() as int))) by {
        lemma_concat_associative(pre, a, r1);
        lemma_text_field_at(username, pre, r1);
    }
    assert(String::unpacked_at(all, q1.len() as int) == Some((connection_type, q2.len() as int)))
        by {
        lemma_concat_associative(pre, a, r1);
        lemma_concat_associative(q1, b, r2);
        lemma_text_field_at(connection_type, q1, r2);
    }
    assert(u32::unpacked_at(all, q2.len() as int) == Some((ip, q3.len() as int))) by {
        lemma_concat_associative(pre, a, r1);
        lemma_concat_associative(q1, b, r2);
        lemma_concat_associative(q2, c, r3);
        law_u32_roundtrip(ip, q2, r3);
    }
    assert(u32::unpacked_at(all, q3.len() as int) == Some((port, q4.len() as int))) by {
        lemma_concat_associative(pre, a, r1);
        lemma_concat_associative(q1, b, r2);
        lemma_concat_associative(q2, c, r3);
        lemma_concat_associative(q3, d, r4);
        law_u32_roundtrip(port, q3, r4);
    }
    assert(u32::unpacked_at(all, q4.len() as int) == Some((token, q4.len() + 4int))) by {
        lemma_concat_associative(pre, a, r1);
        lemma_concat_associative(q1, b, r2);
        lemma_concat_associative(q2, c, r3);
        lemma_concat_associative(q3, d, r4);
        lemma_concat_associative(q4, e, post);
        law_u32_roundtrip(token, q4, post);
    }
    lemma_connect_to_peer_fields(
        all,
        p0,
        q1.len() as int,
        q2.len() as int,
        q3.len() as int,
        q4.len() as int,
        p5,
        username,
        connection_type,
        ip,
        port,
        token,
    );
}

} // verus!
