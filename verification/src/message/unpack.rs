//! Decoding of values from the wire.
use vstd::prelude::*;
use vstd::utf8::{decode_utf8, valid_utf8};
use crate::message::wire::{u32_at, u64_at};

verus! {

/// A value that can be read back from its encoding on the wire.
pub trait Unpack: Sized + View {
    /// The value encoded at `pos` in `bytes` and the position just past its
    /// encoding, or `None` where the encoding would run past the end.
    spec fn unpacked_at(bytes: Seq<u8>, pos: int) -> Option<(Self::V, int)>;

    /// Reads the value encoded at `pos` in `bytes`, and the position just past
    /// it; `None` where the bytes from `pos` do not hold one.
    fn unpack_at(bytes: &[u8], pos: usize) -> (r: Option<(Self, usize)>)
        requires
            pos <= bytes@.len(),
        ensures
            match Self::unpacked_at(bytes@, pos as int) {
                None => r is None,
                Some((v, end)) => r matches Some((x, e)) && x@ == v && e == end && pos <= e
                    <= bytes@.len(),
            },
    ;

    /// Reads the value at the front of `bytes` and removes its encoding.
    fn unpack(bytes: &mut Vec<u8>) -> (r: Self)
        requires
            Self::unpacked_at(old(bytes)@, 0) is Some,
        ensures
            match Self::unpacked_at(old(bytes)@, 0) {
                Some((v, end)) => r@ == v && final(bytes)@ == old(bytes)@.skip(end),
                None => false,
            },
    {
        let front = Self::unpack_at(bytes.as_slice(), 0);
        let (value, end) = front.unwrap();
        let rest = bytes.split_off(end);
        *bytes = rest;
        value
    }
}

impl Unpack for u8 {
    open spec fn unpacked_at(bytes: Seq<u8>, pos: int) -> Option<(u8, int)> {
        if 0 <= pos && pos + 1 <= bytes.len() {
            Some((bytes[pos], pos + 1))
        } else {
            None
        }
    }

    fn unpack_at(bytes: &[u8], pos: usize) -> (r: Option<(u8, usize)>) {
        if pos < bytes.len() {
            Some((bytes[pos], pos + 1))
        } else {
            None
        }
    }
}

impl Unpack for bool {
    /// Only the byte 1 reads as true.
    open spec fn unpacked_at(bytes: Seq<u8>, pos: int) -> Option<(bool, int)> {
        if 0 <= pos && pos + 1 <= bytes.len() {
            Some((bytes[pos] == 1, pos + 1))
        } else {
            None
        }
    }

    fn unpack_at(bytes: &[u8], pos: usize) -> (r: Option<(bool, usize)>) {
        if pos < bytes.len() {
            Some((bytes[pos] == 1, pos + 1))
        } else {
            None
        }
    }
}

/// Reads the little-endian `u32` at `pos`.
pub fn read_u32(bytes: &[u8], pos: usize) -> (x: u32)
    requires
        pos + 4 <= bytes@.len(),
    ensures
        x == u32_at(bytes@, pos as int),
{
    let b0 = bytes[pos] as u32;
    let b1 = bytes[pos + 1] as u32;
    let b2 = bytes[pos + 2] as u32;
    let b3 = bytes[pos + 3] as u32;
    b0 + 256 * b1 + 65536 * b2 + 16777216 * b3
}

impl Unpack for u32 {
    open spec fn unpacked_at(bytes: Seq<u8>, pos: int) -> Option<(u32, int)> {
        if 0 <= pos && pos + 4 <= bytes.len() {
            Some((u32_at(bytes, pos), pos + 4))
        } else {
            None
        }
    }

    fn unpack_at(bytes: &[u8], pos: usize) -> (r: Option<(u32, usize)>) {
        if bytes.len() >= 4 && pos <= bytes.len() - 4 {
            Some((read_u32(bytes, pos), pos + 4))
        } else {
            None
        }
    }
}

impl Unpack for u64 {
    open spec fn unpacked_at(bytes: Seq<u8>, pos: int) -> Option<(u64, int)> {
        if 0 <= pos && pos + 8 <= bytes.len() {
            Some((u64_at(bytes, pos), pos + 8))
        } else {
            None
        }
    }

    fn unpack_at(bytes: &[u8], pos: usize) -> (r: Option<(u64, usize)>) {
        if bytes.len() >= 8 && pos <= bytes.len() - 8 {
            let low = read_u32(bytes, pos) as u64;
            let high = read_u32(bytes, pos + 4) as u64;
            Some((low + 4294967296 * high, pos + 8))
        } else {
            None
        }
    }
}

/// What `String::from_utf8_lossy` makes of bytes that are not valid UTF-8.
pub uninterp spec fn utf8_lossy(bytes: Seq<u8>) -> Seq<char>;

/// The text that a run of bytes decodes to: the UTF-8 decoding where the bytes
/// are valid UTF-8, and otherwise the lossy decoding, which puts U+FFFD in
/// place of each invalid sequence.
#[verifier::opaque]
pub open spec fn text_from_bytes(bytes: Seq<u8>) -> Seq<char> {
    if valid_utf8(bytes) {
        decode_utf8(bytes)
    } else {
        utf8_lossy(bytes)
    }
}

/// Calls `String::from_utf8_lossy`. Trusted: its result is the UTF-8
/// decoding of `bytes` where they are valid UTF-8 (std documents that valid
/// input is returned unchanged), and otherwise the value named `utf8_lossy`,
/// of which nothing more is stated.
#[verifier::external_body]
fn decode_text(bytes: &[u8]) -> (text: String)
    ensures
        valid_utf8(bytes@) ==> text@ == decode_utf8(bytes@),
        !valid_utf8(bytes@) ==> text@ == utf8_lossy(bytes@),
{
    String::from_utf8_lossy(bytes).into_owned()
}

impl Unpack for String {
    /// A 32-bit byte count followed by that many bytes of text.
    open spec fn unpacked_at(bytes: Seq<u8>, pos: int) -> Option<(Seq<char>, int)> {
        if 0 <= pos && pos + 4 <= bytes.len() && pos + 4 + u32_at(bytes, pos) <= bytes.len() {
            let end = pos + 4 + u32_at(bytes, pos);
            Some((text_from_bytes(bytes.subrange(pos + 4, end)), end))
        } else {
            None
        }
    }

    fn unpack_at(bytes: &[u8], pos: usize) -> (r: Option<(String, usize)>) {
        if bytes.len() >= 4 && pos <= bytes.len() - 4 {
            let length = read_u32(bytes, pos) as usize;
            let start = pos + 4;
            if length <= bytes.len() - start {
                let end = start + length;
                let text = decode_text(vstd::slice::slice_subrange(bytes, start, end));
                proof {
                    reveal(text_from_bytes);
                }
                Some((text, end))
            } else {
                None
            }
        } else {
            None
        }
    }
}


/// `n` values encoded one after another from `pos`, and the position just
/// past the last; `None` where the bytes run out before the `n`-th value ends.
pub open spec fn unpacked_n_at<T: Unpack>(bytes: Seq<u8>, pos: int, n: nat) -> Option<
    (Seq<T::V>, int),
>
    decreases n,
{
    if n == 0 {
        Some((Seq::empty(), pos))
    } else {
        match unpacked_n_at::<T>(bytes, pos, (n - 1) as nat) {
            Some((values, p)) => match T::unpacked_at(bytes, p) {
                Some((v, q)) => Some((values.push(v), q)),
                None => None,
            },
            None => None,
        }
    }
}

/// Once a run of values fails to read, every longer run fails too.
pub proof fn lemma_unpacked_n_fails_onward<T: Unpack>(bytes: Seq<u8>, pos: int, i: nat, n: nat)
    requires
        i <= n,
        unpacked_n_at::<T>(bytes, pos, i) is None,
    ensures
        unpacked_n_at::<T>(bytes, pos, n) is None,
    decreases n - i,
{
    if i < n {
        lemma_unpacked_n_fails_onward::<T>(bytes, pos, i + 1, n);
    }
}

/// The views of the values in `values`.
pub open spec fn views<T: View>(values: Seq<T>) -> Seq<T::V> {
    values.map_values(|x: T| x@)
}

/// Reads `n` values encoded one after another from `pos`.
pub fn unpack_n_at<T: Unpack>(bytes: &[u8], pos: usize, n: u32) -> (r: Option<(Vec<T>, usize)>)
    requires
        pos <= bytes@.len(),
    ensures
        match unpacked_n_at::<T>(bytes@, pos as int, n as nat) {
            None => r is None,
            Some((vs, end)) => r matches Some((xs, e)) && views(xs@) == vs && e == end && pos
                <= e <= bytes@.len(),
        },
{
    let mut values: Vec<T> = Vec::new();
    let mut p = pos;
    let mut i: u32 = 0;
    while i < n
        invariant
            i <= n,
            pos <= p <= bytes@.len(),
            unpacked_n_at::<T>(bytes@, pos as int, i as nat) == Some((views(values@), p as int)),
        decreases n - i,
    {
        match T::unpack_at(bytes, p) {
            Some((v, q)) => {
                proof {
                    assert(views(values@.push(v)) =~= views(values@).push(v@));
                }
                values.push(v);
                p = q;
                i = i + 1;
            },
            None => {
                proof {
                    lemma_unpacked_n_fails_onward::<T>(bytes@, pos as int, (i + 1) as nat, n as nat);
                }
                return None;
            },
        }
    }
    Some((values, p))
}

} // verus!
