//! The gzip codec adapter: verified fail-soft encode/decode over the
//! flate2 engine.

use vstd::prelude::*;

use std::io::Read;
use std::io::Write;

use crate::decoded_or_empty;

verus! {

/// What flate2's gzip decoder yields for a buffer: `Some` of the
/// decompressed bytes when the buffer is a well-formed gzip stream,
/// `None` when decoding fails. A function of the bytes alone.
pub uninterp spec fn gzip_plain(data: Seq<u8>) -> Option<Seq<u8>>;

/// Relies on flate2::read::GzDecoder, read through a buffered reader:
/// decoding is deterministic in the input bytes, and the buffer capacity
/// only affects chunking, never the outcome.
#[verifier::external_body]
fn gzip_decompress(data: &[u8], buffer_size: usize) -> (r: Option<Vec<u8>>)
    ensures
        match r {
            Some(v) => gzip_plain(data@) == Some(v@),
            None => gzip_plain(data@) is None,
        },
{
    let decoder = flate2::read::GzDecoder::new(data);
    let mut reader = std::io::BufReader::with_capacity(buffer_size, decoder);
    let mut out: Vec<u8> = Vec::new();
    match reader.read_to_end(&mut out) {
        Ok(_) => Some(out),
        Err(_) => None,
    }
}

/// Relies on flate2::write::GzEncoder: on success the output is a gzip
/// stream that flate2's own gzip decoder decompresses back to the input.
#[verifier::external_body]
fn gzip_compress(data: &[u8], buffer_size: usize) -> (r: Option<Vec<u8>>)
    ensures
        r matches Some(v) ==> gzip_plain(v@) == Some(data@),
{
    let encoder = flate2::write::GzEncoder::new(Vec::new(), flate2::Compression::default());
    let mut writer = std::io::BufWriter::with_capacity(buffer_size, encoder);
    if writer.write_all(data).is_err() {
        return None;
    }
    match writer.into_inner() {
        Ok(encoder) => encoder.finish().ok(),
        Err(_) => None,
    }
}

/// Compresses `data` as gzip. On an engine failure the result is the
/// empty buffer; otherwise it is a stream that [`decode`] maps back to
/// `data`, whatever the buffer hint.
pub fn encode(data: &[u8], buffer_size: usize) -> (r: Vec<u8>)
    ensures
        gzip_plain(r@) == Some(data@) || r@ == Seq::<u8>::empty(),
{
    match gzip_compress(data, buffer_size) {
        Some(v) => v,
        None => Vec::new(),
    }
}

/// Decompresses gzip `data`. Malformed input yields the empty buffer,
/// never an error; the result depends on `data` alone.
pub fn decode(data: &[u8], buffer_size: usize) -> (r: Vec<u8>)
    ensures
        r@ == decoded_or_empty(gzip_plain(data@)),
{
    match gzip_decompress(data, buffer_size) {
        Some(v) => v,
        None => Vec::new(),
    }
}

} // verus!
