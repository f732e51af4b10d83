//! The MD5 hash of a user's credentials, written as lowercase hexadecimal.
use vstd::prelude::*;
use vstd::utf8::{encode_utf8, is_ascii_chars, is_ascii_chars_encode_utf8};
use crate::message::wire::text_bytes;
use crate::message::pack::push_slice;

verus! {

/// The MD5 digest of `data`.
pub uninterp spec fn md5_digest(data: Seq<u8>) -> Seq<u8>;

/// Calls `md5::compute`. Trusted: the 16 bytes of the result are the value
/// named `md5_digest`; nothing is stated of how they are computed.
#[verifier::external_body]
fn md5_compute(data: &[u8]) -> (digest: [u8; 16])
    ensures
        digest@ == md5_digest(data@),
{
    md5::compute(data).0
}

/// Calls `String::push`. Trusted: `c` is appended to the text.
#[verifier::external_body]
fn push_char(text: &mut String, c: char)
    ensures
        final(text)@ == old(text)@.push(c),
{
    text.push(c)
}

/// The lowercase hexadecimal digit for a value below 16.
pub open spec fn hex_digit(d: u8) -> char
    recommends
        d < 16,
{
    if d < 10 {
        (48 + d) as char
    } else {
        (87 + d) as char
    }
}

/// Each byte as two lowercase hexadecimal digits, high digit first: what
/// `md5::Digest`'s `LowerHex` formatting writes.
pub open spec fn lower_hex(bytes: Seq<u8>) -> Seq<char>
    decreases bytes.len(),
{
    if bytes.len() == 0 {
        Seq::empty()
    } else {
        let b = bytes.last();
        lower_hex(bytes.drop_last()).push(hex_digit(b / 16)).push(hex_digit(b % 16))
    }
}

/// The hexadecimal text has two ASCII digits per byte.
pub proof fn lemma_lower_hex_ascii(bytes: Seq<u8>)
    ensures
        lower_hex(bytes).len() == 2 * bytes.len(),
        is_ascii_chars(lower_hex(bytes)),
    decreases bytes.len(),
{
    if bytes.len() > 0 {
        lemma_lower_hex_ascii(bytes.drop_last());
        let h = lower_hex(bytes);
        assert forall|i| 0 <= i < h.len() implies '\0' <= #[trigger] h[i] <= '\u{7f}' by {
            if i < h.len() - 2 {
                assert(h[i] == lower_hex(bytes.drop_last())[i]);
            }
        }
    }
}

/// The digit for a value below 16.
fn digit(d: u8) -> (c: char)
    requires
        d < 16,
    ensures
        c == hex_digit(d),
{
    if d < 10 {
        (48 + d) as char
    } else {
        (87 + d) as char
    }
}

/// Writes `bytes` as lowercase hexadecimal.
pub fn to_lower_hex(bytes: &[u8]) -> (text: String)
    ensures
        text@ == lower_hex(bytes@),
{
    let mut text = String::new();
    let mut i: usize = 0;
    while i < bytes.len()
        invariant
            i <= bytes@.len(),
            text@ == lower_hex(bytes@.subrange(0, i as int)),
        decreases bytes@.len() - i,
    {
        let b = bytes[i];
        push_char(&mut text, digit(b / 16));
        push_char(&mut text, digit(b % 16));
        i = i + 1;
        assert(bytes@.subrange(0, i as int).drop_last() =~= bytes@.subrange(0, i - 1));
    }
    assert(bytes@.subrange(0, i as int) =~= bytes@);
    text
}

/// The credentials hash that a login carries: the MD5 digest of the user
/// name followed by the password, as lowercase hexadecimal.
pub open spec fn credentials_hash(username: Seq<char>, password: Seq<char>) -> Seq<char> {
    lower_hex(md5_digest(text_bytes(username) + text_bytes(password)))
}

/// Computes the credentials hash of a login.
pub fn hash_credentials(username: &str, password: &str) -> (hash: String)
    ensures
        hash@ == credentials_hash(username@, password@),
        hash@ == lower_hex(md5_digest(encode_utf8(username@) + encode_utf8(password@))),
        text_bytes(hash@).len() == 32,
{
    let mut data: Vec<u8> = Vec::new();
    push_slice(&mut data, username.as_bytes());
    push_slice(&mut data, password.as_bytes());
    let digest = md5_compute(data.as_slice());
    let hash = to_lower_hex(digest.as_slice());
    proof {
        lemma_lower_hex_ascii(digest@);
        is_ascii_chars_encode_utf8(hash@);
    }
    hash
}

/// Each byte is written as two lowercase hexadecimal digits, its high half
/// first: `0`-`9` for values below ten, `a`-`f` for ten to fifteen.
pub proof fn law_lower_hex_digits(bytes: Seq<u8>)
    ensures
        lower_hex(bytes).len() == 2 * bytes.len(),
        forall|i: int|
            0 <= i < bytes.len() ==> {
                let high = bytes[i] / 16;
                let low = bytes[i] % 16;
                &&& #[trigger] lower_hex(bytes)[2 * i] == (if high < 10 {
                    (48 + high) as char
                } else {
                    (87 + high) as char
                })
                &&& lower_hex(bytes)[2 * i + 1] == (if low < 10 {
                    (48 + low) as char
                } else {
                    (87 + low) as char
                })
            },
    decreases bytes.len(),
{
    if bytes.len() > 0 {
        let front = bytes.drop_last();
        law_lower_hex_digits(front);
        assert forall|i: int| 0 <= i < bytes.len() implies {
            let high = bytes[i] / 16;
            let low = bytes[i] % 16;
            &&& #[trigger] lower_hex(bytes)[2 * i] == (if high < 10 {
                (48 + high) as char
            } else {
                (87 + high) as char
            })
            &&& lower_hex(bytes)[2 * i + 1] == (if low < 10 {
                (48 + low) as char
            } else {
                (87 + low) as char
            })
        } by {
            if i < bytes.len() - 1 {
                assert(bytes[i] == front[i]);
                assert(lower_hex(bytes)[2 * i] == lower_hex(front)[2 * i]);
                assert(lower_hex(bytes)[2 * i + 1] == lower_hex(front)[2 * i + 1]);
            }
        }
    }
}

} // verus!
