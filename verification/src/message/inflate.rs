//! zlib decompression of search results, through `flate2`.
use vstd::prelude::*;
use flate2::{Decompress, DecompressError, FlushDecompress};

verus! {

/// `flate2`'s error for a corrupt zlib stream.
#[verifier::external_type_specification]
#[verifier::external_body]
pub struct ExDecompressError(DecompressError);

/// What a fresh zlib decompressor writes, with `FlushDecompress::Sync`, into an
/// output of `capacity` bytes when fed `input`; `None` where it reports a
/// corrupt stream.
pub uninterp spec fn zlib_sync_inflate(input: Seq<u8>, capacity: nat) -> Option<Seq<u8>>;

/// Calls `Decompress::new(true)`, then `Decompress::decompress` with
/// `FlushDecompress::Sync` into a zeroed output of `capacity` bytes, and keeps
/// the `total_out` bytes written. Trusted: the result is the value named
/// `zlib_sync_inflate`, which depends on the input and the capacity alone, and
/// the output is at most `capacity` bytes, as the decompressor writes only into
/// the slice it is given. What the decompressor writes for a given stream is
/// not stated.
#[verifier::external_body]
fn decompress_sync(input: &[u8], capacity: usize) -> (r: Result<Vec<u8>, DecompressError>)
    requires
        capacity <= isize::MAX,
    ensures
        r is Ok <==> zlib_sync_inflate(input@, capacity as nat) is Some,
        r matches Ok(out) ==> zlib_sync_inflate(input@, capacity as nat) == Some(out@)
            && out@.len() <= capacity,
{
    let mut decompress = Decompress::new(true);
    let mut out = vec![0u8; capacity];
    match decompress.decompress(input, &mut out, FlushDecompress::Sync) {
        Ok(_) => {
            out.truncate(decompress.total_out() as usize);
            Ok(out)
        },
        Err(e) => Err(e),
    }
}

/// The decompressed content of a compressed message body: the body is
/// inflated into room for 4096 bytes per compressed byte. `None` where the
/// stream is corrupt or that room would exceed `isize::MAX` bytes.
pub open spec fn inflated(compressed: Seq<u8>) -> Option<Seq<u8>> {
    if compressed.len() * 4096 <= isize::MAX {
        zlib_sync_inflate(compressed, compressed.len() * 4096)
    } else {
        None
    }
}

/// Decompresses a compressed message body.
pub fn inflate(compressed: &[u8]) -> (r: Option<Vec<u8>>)
    ensures
        match inflated(compressed@) {
            None => r is None,
            Some(content) => r matches Some(out) && out@ == content,
        },
{
    if compressed.len() <= (isize::MAX as usize) / 4096 {
        match decompress_sync(compressed, compressed.len() * 4096) {
            Ok(out) => Some(out),
            Err(_) => None,
        }
    } else {
        None
    }
}

} // verus!
