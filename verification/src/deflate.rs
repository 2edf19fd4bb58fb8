//! The deflate codec adapter: verified fail-soft encode/decode over the
//! flate2 engine.

use vstd::prelude::*;

use std::io::Read;
use std::io::Write;

use crate::decoded_or_empty;

verus! {

/// What flate2's deflate decoder yields for a buffer: `Some` of the
/// decompressed bytes when the buffer is a well-formed raw deflate
/// stream, `None` when decoding fails. A function of the bytes alone.
pub uninterp spec fn deflate_plain(data: Seq<u8>) -> Option<Seq<u8>>;

/// Relies on flate2::read::DeflateDecoder, read through a buffered
/// reader: decoding is deterministic in the input bytes, and the buffer
/// capacity only affects chunking, never the outcome.
#[verifier::external_body]
fn deflate_decompress(data: &[u8], buffer_size: usize) -> (r: Option<Vec<u8>>)
    ensures
        match r {
            Some(v) => deflate_plain(data@) == Some(v@),
            None => deflate_plain(data@) is None,
        },
{
    let decoder = flate2::read::DeflateDecoder::new(data);
    let mut reader = std::io::BufReader::with_capacity(buffer_size, decoder);
    let mut out: Vec<u8> = Vec::new();
    match reader.read_to_end(&mut out) {
        Ok(_) => Some(out),
        Err(_) => None,
    }
}

/// Relies on flate2::write::DeflateEncoder: on success the output is a
/// raw deflate stream that flate2's own deflate decoder decompresses
/// back to the input.
#[verifier::external_body]
fn deflate_compress(data: &[u8], buffer_size: usize) -> (r: Option<Vec<u8>>)
    ensures
        r matches Some(v) ==> deflate_plain(v@) == Some(data@),
{
    let encoder = flate2::write::DeflateEncoder::new(Vec::new(), flate2::Compression::default());
    let mut writer = std::io::BufWriter::with_capacity(buffer_size, encoder);
    if writer.write_all(data).is_err() {
        return None;
    }
    match writer.into_inner() {
        Ok(encoder) => encoder.finish().ok(),
        Err(_) => None,
    }
}

/// Compresses `data` as raw deflate. On an engine failure the result is
/// the empty buffer; otherwise it is a stream that [`decode`] maps back
/// to `data`, whatever the buffer hint.
pub fn encode(data: &[u8], buffer_size: usize) -> (r: Vec<u8>)
    ensures
        deflate_plain(r@) == Some(data@) || r@ == Seq::<u8>::empty(),
{
    match deflate_compress(data, buffer_size) {
        Some(v) => v,
        None => Vec::new(),
    }
}

/// Decompresses deflate `data`. Malformed input yields the empty buffer,
/// never an error; the result depends on `data` alone.
pub fn decode(data: &[u8], buffer_size: usize) -> (r: Vec<u8>)
    ensures
        r@ == decoded_or_empty(deflate_plain(data@)),
{
    match deflate_decompress(data, buffer_size) {
        Some(v) => v,
        None => Vec::new(),
    }
}

} // verus!
