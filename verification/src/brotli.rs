//! The brotli codec adapter: verified fail-soft encode/decode over the
//! brotli engine.

use vstd::prelude::*;

use std::io::Read;

use crate::decoded_or_empty;

verus! {

/// What the brotli decoder yields for a buffer: `Some` of the
/// decompressed bytes when the buffer is a well-formed brotli stream,
/// `None` when decoding fails. A function of the bytes alone.
pub uninterp spec fn brotli_plain(data: Seq<u8>) -> Option<Seq<u8>>;

/// Relies on brotli::Decompressor: decoding is deterministic in the
/// input bytes, and the internal buffer size (with zero mapped to the
/// engine's own default) only affects chunking, never the outcome.
#[verifier::external_body]
fn brotli_decompress(data: &[u8], buffer_size: usize) -> (r: Option<Vec<u8>>)
    ensures
        match r {
            Some(v) => brotli_plain(data@) == Some(v@),
            None => brotli_plain(data@) is None,
        },
{
    let mut decompressor = ::brotli::Decompressor::new(data, buffer_size);
    let mut out: Vec<u8> = Vec::new();
    match decompressor.read_to_end(&mut out) {
        Ok(_) => Some(out),
        Err(_) => None,
    }
}

/// Relies on brotli::enc::BrotliCompress with the engine's default
/// parameters: on success the output is a brotli stream that
/// brotli::Decompressor decompresses back to the input.
#[verifier::external_body]
fn brotli_compress(data: &[u8]) -> (r: Option<Vec<u8>>)
    ensures
        r matches Some(v) ==> brotli_plain(v@) == Some(data@),
{
    let mut input: &[u8] = data;
    let mut out: Vec<u8> = Vec::new();
    let params = ::brotli::enc::BrotliEncoderParams::default();
    match ::brotli::enc::BrotliCompress(&mut input, &mut out, &params) {
        Ok(_) => Some(out),
        Err(_) => None,
    }
}

/// Compresses `data` as brotli. On an engine failure the result is the
/// empty buffer; otherwise it is a stream that [`decode`] maps back to
/// `data`. The buffer hint is accepted for interface uniformity but the
/// engine's own buffering defaults are used.
pub fn encode(data: &[u8], _buffer_size: usize) -> (r: Vec<u8>)
    ensures
        brotli_plain(r@) == Some(data@) || r@ == Seq::<u8>::empty(),
{
    match brotli_compress(data) {
        Some(v) => v,
        None => Vec::new(),
    }
}

/// Decompresses brotli `data`. Malformed input yields the empty buffer,
/// never an error; the result depends on `data` alone.
pub fn decode(data: &[u8], buffer_size: usize) -> (r: Vec<u8>)
    ensures
        r@ == decoded_or_empty(brotli_plain(data@)),
{
    match brotli_decompress(data, buffer_size) {
        Some(v) => v,
        None => Vec::new(),
    }
}

} // verus!
