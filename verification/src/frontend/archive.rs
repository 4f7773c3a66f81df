//! Save states on disk are compressed.

use vstd::prelude::*;

verus! {

/// The compression level of save states.
pub const STATE_LEVEL: i32 = 3;

/// What `zstd::encode_all` makes of the data at a compression level: the
/// compressed bytes, or the text of its error.
pub uninterp spec fn zstd_encoded(data: Seq<u8>, level: i32) -> Result<Seq<u8>, Seq<char>>;

/// What `zstd::decode_all` makes of the bytes: the data, or the text of its
/// error.
pub uninterp spec fn zstd_decoded(bytes: Seq<u8>) -> Result<Seq<u8>, Seq<char>>;

/// Whether `bytes` decompress to `data`.
pub open spec fn decodes_to(bytes: Seq<u8>, data: Seq<u8>) -> bool {
    match zstd_decoded(bytes) {
        Ok(d) => d == data,
        Err(e) => false,
    }
}

/// The value of a result over its parts' views.
pub open spec fn viewed(r: Result<Vec<u8>, String>) -> Result<Seq<u8>, Seq<char>> {
    match r {
        Ok(v) => Ok(v@),
        Err(e) => Err(e@),
    }
}

/// Calls `zstd::encode_all`. Its result is a function of the data and the
/// level, and what it encodes `zstd::decode_all` gives back.
#[verifier::external_body]
fn zstd_encode(data: &[u8], level: i32) -> (r: Result<Vec<u8>, String>)
    ensures
        viewed(r) == zstd_encoded(data@, level),
        r is Ok ==> decodes_to(r->Ok_0@, data@),
{
    match zstd::encode_all(data, level) {
        Ok(v) => Ok(v),
        Err(e) => Err(e.to_string()),
    }
}

/// Calls `zstd::decode_all`. Its result is a function of the bytes.
#[verifier::external_body]
fn zstd_decode(bytes: &[u8]) -> (r: Result<Vec<u8>, String>)
    ensures
        viewed(r) == zstd_decoded(bytes@),
{
    match zstd::decode_all(bytes) {
        Ok(v) => Ok(v),
        Err(e) => Err(e.to_string()),
    }
}

/// Compresses a serialized machine for a save-state file. What comes out
/// decompresses to it again.
pub fn compress_state(data: &[u8]) -> (r: Result<Vec<u8>, String>)
    ensures
        viewed(r) == zstd_encoded(data@, STATE_LEVEL),
        r is Ok ==> decodes_to(r->Ok_0@, data@),
{
    zstd_encode(data, STATE_LEVEL)
}

/// Decompresses a save-state file.
pub fn decompress_state(bytes: &[u8]) -> (r: Result<Vec<u8>, String>)
    ensures
        viewed(r) == zstd_decoded(bytes@),
{
    zstd_decode(bytes)
}

} // verus!
