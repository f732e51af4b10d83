//! The mathematical model of the wire format: integers are little-endian,
//! text is a 32-bit byte count followed by the UTF-8 bytes of the text.
use vstd::prelude::*;
use vstd::utf8::*;

verus! {

/// The four little-endian bytes of `x`.
pub open spec fn le_u32(x: u32) -> Seq<u8> {
    seq![
        (x % 256) as u8,
        ((x / 256) % 256) as u8,
        ((x / 65536) % 256) as u8,
        ((x / 16777216) % 256) as u8,
    ]
}

/// The little-endian `u32` stored at `pos` in `s`.
pub open spec fn u32_at(s: Seq<u8>, pos: int) -> u32
    recommends
        0 <= pos,
        pos + 4 <= s.len(),
{
    (s[pos] + 256 * s[pos + 1] + 65536 * s[pos + 2] + 16777216 * s[pos + 3]) as u32
}

/// The little-endian `u64` stored at `pos` in `s`.
pub open spec fn u64_at(s: Seq<u8>, pos: int) -> u64
    recommends
        0 <= pos,
        pos + 8 <= s.len(),
{
    (u32_at(s, pos) + 4294967296 * u32_at(s, pos + 4)) as u64
}

/// The UTF-8 bytes of a text.
pub open spec fn text_bytes(text: Seq<char>) -> Seq<u8> {
    encode_utf8(text)
}

/// A text as it stands in a message body: its UTF-8 byte count, modulo 2^32,
/// then its bytes.
pub open spec fn text_field(text: Seq<char>) -> Seq<u8> {
    le_u32(text_bytes(text).len() as u32) + text_bytes(text)
}

/// Reading the 32-bit length prefix back gives the value that was written.
pub proof fn lemma_u32_roundtrip(x: u32, pre: Seq<u8>, post: Seq<u8>)
    ensures
        u32_at(pre + le_u32(x) + post, pre.len() as int) == x,
{
    let s = pre + le_u32(x) + post;
    let p = pre.len() as int;
    assert(s[p] == le_u32(x)[0]);
    assert(s[p + 1] == le_u32(x)[1]);
    assert(s[p + 2] == le_u32(x)[2]);
    assert(s[p + 3] == le_u32(x)[3]);
    assert((x % 256) + 256 * ((x / 256) % 256) + 65536 * ((x / 65536) % 256) + 16777216 * ((x
        / 16777216) % 256) == x) by (nonlinear_arith);
}

} // verus!
