//! A verified dispatch layer over HTTP body compression.
//!
//! The crate models the closed set of `content-encoding` values used for
//! HTTP message bodies (`gzip`, `deflate`, `br`, or none) and routes
//! encode/decode requests to the matching codec engine, passing data
//! through unchanged when no known encoding applies. The codec engines
//! themselves are outside collaborators; every decision around them ---
//! identifier parsing and rendering, header lookup, dispatch, and the
//! fail-soft handling of engine errors --- is verified.

use vstd::prelude::*;

pub mod ascii;
pub mod brotli;
pub mod compress;
pub mod deflate;
pub mod gzip;
pub mod headers;

pub use compress::Compress;
pub use headers::Headers;

verus! {

/// The outcome of a decode step with failure mapped to the empty buffer:
/// the uniform fail-soft policy of every decoder in this crate.
pub open spec fn decoded_or_empty(p: Option<Seq<u8>>) -> Seq<u8> {
    match p {
        Some(v) => v,
        None => Seq::<u8>::empty(),
    }
}

} // verus!
