//! The content-encoding identifier: a closed set of compression variants
//! with total parsing, canonical rendering, header extraction, and
//! dispatch of encode/decode calls to the matching codec.

use vstd::prelude::*;

use crate::ascii::eq_ignore_case;
use crate::ascii::str_eq_ignore_case;
use crate::brotli::brotli_plain;
use crate::decoded_or_empty;
use crate::deflate::deflate_plain;
use crate::gzip::gzip_plain;
use crate::headers::lookup;
use crate::headers::Headers;
use vstd::slice::slice_to_vec;

verus! {

/// A compression algorithm named by an HTTP `content-encoding` value.
///
/// `Unknown` is the catch-all for any unrecognized or absent encoding:
/// under it, encode and decode pass data through unchanged.
#[derive(Debug, Clone, Copy, PartialEq, Eq, Hash, PartialOrd, Ord, Structural)]
pub enum Compress {
    /// The gzip format.
    Gzip,
    /// The raw deflate format.
    Deflate,
    /// The brotli format.
    Br,
    /// No recognized compression.
    Unknown,
}

/// The identifier named by a piece of text, matched case-insensitively
/// against the three canonical encoding names; anything else, the empty
/// string included, is `Unknown`.
pub open spec fn parse_spec(s: Seq<char>) -> Compress {
    if eq_ignore_case(s, "gzip"@) {
        Compress::Gzip
    } else if eq_ignore_case(s, "deflate"@) {
        Compress::Deflate
    } else if eq_ignore_case(s, "br"@) {
        Compress::Br
    } else {
        Compress::Unknown
    }
}

/// The canonical name of an identifier; `Unknown` has none and renders
/// to the empty string.
pub open spec fn render_spec(id: Compress) -> Seq<char> {
    match id {
        Compress::Gzip => "gzip"@,
        Compress::Deflate => "deflate"@,
        Compress::Br => "br"@,
        Compress::Unknown => ""@,
    }
}

/// What decoding a buffer under an identifier yields: the codec's
/// outcome for the three known encodings, and unconditional pass-through
/// for `Unknown`.
pub open spec fn plain_of(id: Compress, data: Seq<u8>) -> Option<Seq<u8>> {
    match id {
        Compress::Gzip => gzip_plain(data),
        Compress::Deflate => deflate_plain(data),
        Compress::Br => brotli_plain(data),
        Compress::Unknown => Some(data),
    }
}

/// The decoded bytes of a buffer under an identifier, with a failed
/// decode mapped to the empty buffer.
pub open spec fn decoded_of(id: Compress, data: Seq<u8>) -> Seq<u8> {
    decoded_or_empty(plain_of(id, data))
}

/// The identifier a header collection selects: the value of its first
/// `content-encoding` field (field name matched case-insensitively) fed
/// through parsing, or `Unknown` when no such field exists.
pub open spec fn from_headers_spec(h: Seq<(Seq<char>, Seq<char>)>) -> Compress {
    match lookup(h, "content-encoding"@) {
        Some(v) => parse_spec(v),
        None => Compress::Unknown,
    }
}

impl Compress {
    /// Reads an identifier from text. Total: any text that is not a known
    /// encoding name yields `Unknown`, never an error.
    pub fn parse(data: &str) -> (r: Self)
        ensures
            r == parse_spec(data@),
    {
        if str_eq_ignore_case(data, "gzip") {
            Self::Gzip
        } else if str_eq_ignore_case(data, "deflate") {
            Self::Deflate
        } else if str_eq_ignore_case(data, "br") {
            Self::Br
        } else {
            Self::Unknown
        }
    }

    /// The canonical encoding name of this identifier, empty for `Unknown`.
    pub fn render(&self) -> (r: String)
        ensures
            r@ == render_spec(*self),
    {
        match self {
            Self::Gzip => "gzip".to_owned(),
            Self::Deflate => "deflate".to_owned(),
            Self::Br => "br".to_owned(),
            Self::Unknown => "".to_owned(),
        }
    }

    /// Extracts the identifier a header collection selects: the first
    /// `content-encoding` field wins, whatever the case of its name, and
    /// absence or an unrecognized value yields `Unknown`.
    pub fn from(header: &Headers) -> (r: Self)
        ensures
            r == from_headers_spec(header@),
    {
        match header.find("content-encoding") {
            Some(value) => Self::parse(value.as_str()),
            None => Self::Unknown,
        }
    }

    /// Decompresses `data` under this identifier: the matching codec for
    /// the three known encodings, with malformed input mapped to the
    /// empty buffer, and `data` unchanged for `Unknown`. The result
    /// depends on the identifier and the bytes alone, never on the
    /// buffer hint.
    pub fn decode(&self, data: &[u8], buffer_size: usize) -> (r: Vec<u8>)
        ensures
            r@ == decoded_of(*self, data@),
            *self == Compress::Unknown ==> r@ == data@,
    {
        match self {
            Self::Gzip => crate::gzip::decode(data, buffer_size),
            Self::Deflate => crate::deflate::decode(data, buffer_size),
            Self::Br => crate::brotli::decode(data, buffer_size),
            Self::Unknown => slice_to_vec(data),
        }
    }

    /// Compresses `data` under this identifier: the matching codec for
    /// the three known encodings, and `data` unchanged for `Unknown`.
    /// For a known encoding the result is either a stream that
    /// [`Compress::decode`] maps back to `data` --- under any buffer
    /// hint --- or, on an engine failure, the empty buffer.
    pub fn encode(&self, data: &[u8], buffer_size: usize) -> (r: Vec<u8>)
        ensures
            *self == Compress::Unknown ==> r@ == data@,
            *self != Compress::Unknown ==> plain_of(*self, r@) == Some(data@) || r@
                == Seq::<u8>::empty(),
    {
        match self {
            Self::Gzip => crate::gzip::encode(data, buffer_size),
            Self::Deflate => crate::deflate::encode(data, buffer_size),
            Self::Br => crate::brotli::encode(data, buffer_size),
            Self::Unknown => slice_to_vec(data),
        }
    }

    /// True exactly when this identifier is `Unknown`.
    pub fn is_unknown(&self) -> (r: bool)
        ensures
            r == (*self == Compress::Unknown),
    {
        *self == Self::Unknown
    }
}

impl Default for Compress {
    /// The default identifier is `Unknown`: no recognized compression.
    fn default() -> (r: Self)
        ensures
            r == Compress::Unknown,
    {
        Compress::Unknown
    }
}

/// Round trip: whenever encoding under an identifier succeeds --- the
/// encoder's output decodes to `Some` of the original bytes, which
/// [`Compress::encode`] guarantees for every non-empty result and for
/// `Unknown` always --- decoding that output under the same identifier
/// returns exactly the original buffer, whatever buffer hints either
/// side used.
pub proof fn lemma_round_trip(id: Compress, encoded: Seq<u8>, b: Seq<u8>)
    requires
        plain_of(id, encoded) == Some(b),
    ensures
        decoded_of(id, encoded) == b,
{
}

/// Pass-through: under `Unknown`, both encoding and decoding leave every
/// buffer unchanged.
pub proof fn lemma_unknown_pass_through(b: Seq<u8>)
    ensures
        plain_of(Compress::Unknown, b) == Some(b),
        decoded_of(Compress::Unknown, b) == b,
{
}

/// Parsing inverts rendering: rendering any identifier and parsing the
/// result yields the identifier again. For the three known values the
/// canonical name parses back to them; `Unknown` renders to the empty
/// string, which parses to `Unknown`.
pub proof fn lemma_parse_render_inverse(id: Compress)
    ensures
        parse_spec(render_spec(id)) == id,
{
    reveal_strlit("gzip");
    reveal_strlit("deflate");
    reveal_strlit("br");
    reveal_strlit("");
}

/// Rendering inverts parsing up to ASCII case: any text that parses to a
/// known identifier is an ASCII case-insensitive match of that
/// identifier's canonical name.
pub proof fn lemma_render_parse_inverse(t: Seq<char>)
    requires
        parse_spec(t) != Compress::Unknown,
    ensures
        eq_ignore_case(render_spec(parse_spec(t)), t),
{
}

} // verus!
