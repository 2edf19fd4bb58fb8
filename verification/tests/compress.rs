use http_compress::Compress;
use http_compress::Headers;

#[test]
fn test() {
    let headers = Headers::new();
    let data: Vec<u8> = vec![];
    let body: Vec<u8> = Compress::from(&headers).decode(&data, 1_024_000);
    assert_eq!(body, data);

    let _ = Compress::Gzip.encode(&[], 1_024_000);
    let _ = Compress::Deflate.encode(&[], 1_024_000);
    let _ = Compress::Br.encode(&[], 1_024_000);

    let _ = Compress::Gzip.decode(&[], 1_024_000);
    let _ = Compress::Deflate.decode(&[], 1_024_000);
    let _ = Compress::Br.decode(&[], 1_024_000);
}

fn round_trip(id: Compress, data: &[u8], encode_hint: usize, decode_hint: usize) {
    let encoded = id.encode(data, encode_hint);
    let decoded = id.decode(&encoded, decode_hint);
    assert_eq!(decoded, data);
}

#[test]
fn round_trip_gzip() {
    let data = b"hello world, hello world, hello world";
    round_trip(Compress::Gzip, data, 1024, 1024);
    let encoded = Compress::Gzip.encode(data, 1024);
    assert_ne!(encoded, data.to_vec());
}

#[test]
fn round_trip_deflate() {
    let data = b"a longer body with some repetition, repetition, repetition";
    round_trip(Compress::Deflate, data, 1024, 1024);
    let encoded = Compress::Deflate.encode(data, 1024);
    assert_ne!(encoded, data.to_vec());
}

#[test]
fn round_trip_brotli() {
    let data = b"brotli bodies also come back unchanged after a round trip";
    round_trip(Compress::Br, data, 1024, 1024);
    let encoded = Compress::Br.encode(data, 1024);
    assert_ne!(encoded, data.to_vec());
}

#[test]
fn round_trip_buffer_hints() {
    let data = b"buffer hints change throughput, never the bytes that come back";
    for id in [Compress::Gzip, Compress::Deflate, Compress::Br] {
        for encode_hint in [1usize, 1024, 1_024_000] {
            for decode_hint in [1usize, 1024, 1_024_000] {
                round_trip(id, data, encode_hint, decode_hint);
            }
        }
    }
}

#[test]
fn unknown_passes_data_through() {
    let data = b"not compressed at all";
    let encoded = Compress::Unknown.encode(data, 1024);
    assert_eq!(encoded, data.to_vec());
    let decoded = Compress::Unknown.decode(data, 1024);
    assert_eq!(decoded, data.to_vec());
}

#[test]
fn parse_is_total_and_case_insensitive() {
    assert_eq!(Compress::parse("GZIP"), Compress::Gzip);
    assert_eq!(Compress::parse("Deflate"), Compress::Deflate);
    assert_eq!(Compress::parse("br"), Compress::Br);
    assert_eq!(Compress::parse("xyz"), Compress::Unknown);
    assert_eq!(Compress::parse(""), Compress::Unknown);
}

#[test]
fn render_known_values() {
    assert_eq!(Compress::parse("gzip").render(), "gzip");
    assert_eq!(Compress::parse("deflate").render(), "deflate");
    assert_eq!(Compress::parse("br").render(), "br");
    assert_eq!(Compress::Unknown.render(), "");
}

#[test]
fn header_extraction() {
    let mut headers = Headers::new();
    headers.insert("content-encoding".to_string(), "gzip".to_string());
    assert_eq!(Compress::from(&headers), Compress::Gzip);

    let empty = Headers::new();
    assert_eq!(Compress::from(&empty), Compress::Unknown);

    let mut case_variant = Headers::new();
    case_variant.insert("Content-Encoding".to_string(), "BR".to_string());
    assert_eq!(Compress::from(&case_variant), Compress::Br);
}

#[test]
fn header_first_match_wins() {
    let mut headers = Headers::new();
    headers.insert("Content-Encoding".to_string(), "deflate".to_string());
    headers.insert("content-encoding".to_string(), "gzip".to_string());
    assert_eq!(headers.len(), 2);
    assert_eq!(Compress::from(&headers), Compress::Deflate);
}

#[test]
fn header_other_fields_ignored() {
    let mut headers = Headers::new();
    headers.insert("content-type".to_string(), "text/plain".to_string());
    headers.insert("content-encoding".to_string(), "unsupported".to_string());
    assert_eq!(Compress::from(&headers), Compress::Unknown);
}

#[test]
fn decode_fails_soft_on_corrupt_input() {
    // Not a gzip stream: the two magic bytes are wrong.
    let junk: Vec<u8> = vec![0x13, 0x37, 0xde, 0xad, 0xbe, 0xef, 0x01, 0x02];
    assert_eq!(Compress::Gzip.decode(&junk, 1024), Vec::<u8>::new());
    // Not a deflate stream: the first block uses the reserved block type.
    let bad_block: Vec<u8> = vec![0x07, 0x00, 0x00, 0x00];
    assert_eq!(Compress::Deflate.decode(&bad_block, 1024), Vec::<u8>::new());
}

#[test]
fn empty_input() {
    assert_eq!(Compress::Gzip.decode(&[], 1024), Vec::<u8>::new());
    let encoded = Compress::Gzip.encode(&[], 1024);
    assert_eq!(Compress::Gzip.decode(&encoded, 1024), Vec::<u8>::new());
}

#[test]
fn is_unknown_and_default() {
    assert!(Compress::Unknown.is_unknown());
    assert!(!Compress::Gzip.is_unknown());
    assert!(!Compress::Deflate.is_unknown());
    assert!(!Compress::Br.is_unknown());
    assert!(Compress::default().is_unknown());
}

#[test]
fn codec_functions_round_trip() {
    let data = b"each codec module also stands on its own";
    let gz = http_compress::gzip::encode(data, 1024);
    assert_eq!(http_compress::gzip::decode(&gz, 1024), data.to_vec());
    let df = http_compress::deflate::encode(data, 1024);
    assert_eq!(http_compress::deflate::decode(&df, 1024), data.to_vec());
    let br = http_compress::brotli::encode(data, 1024);
    assert_eq!(http_compress::brotli::decode(&br, 1024), data.to_vec());
}

#[test]
fn headers_find_reports_first_value() {
    let mut headers = Headers::new();
    headers.insert("Accept".to_string(), "*/*".to_string());
    headers.insert("CONTENT-ENCODING".to_string(), "gzip".to_string());
    assert_eq!(headers.find("content-encoding"), Some("gzip".to_string()));
    assert_eq!(headers.find("content-length"), None);
}
