use peerlink::codec::{decode, encode, DecodeError};

fn is_blob_char(c: char) -> bool {
    c.is_ascii_uppercase() || c.is_ascii_lowercase() || c.is_ascii_digit() || c == '+' || c == '/'
        || c == '='
}

#[test]
fn round_trip_empty() {
    let blob = encode("");
    assert_eq!(decode(&blob), Ok(String::new()));
}

#[test]
fn round_trip_ascii() {
    let text = "hello, peer";
    let blob = encode(text);
    assert_ne!(blob, text);
    assert_eq!(decode(&blob), Ok(text.to_string()));
}

#[test]
fn round_trip_non_ascii() {
    let text = "grüße \u{1F600} здраво 連線";
    let blob = encode(text);
    assert!(blob.chars().all(|c| c.is_ascii()));
    assert_eq!(decode(&blob), Ok(text.to_string()));
}

#[test]
fn round_trip_session_description() {
    let text = r#"{"type":"offer","sdp":"v=0\r\no=- 3904384361787272233 2 IN IP4 127.0.0.1\r\ns=-\r\nt=0 0\r\na=group:BUNDLE 0\r\na=extmap-allow-mixed\r\na=msid-semantic: WMS\r\nm=application 3083 UDP/DTLS/SCTP webrtc-datachannel\r\nc=IN IP4 91.141.58.14\r\na=candidate:216262018 1 udp 2113937151 0854a906-ecc4-4de5-a709-aef252cac4bc.local 58250 typ host generation 0 network-cost 999\r\na=ice-ufrag:9f/g\r\na=setup:actpass\r\na=mid:0\r\na=sctp-port:5000\r\na=max-message-size:262144\r\n"}"#;
    let blob = encode(text);
    assert!(blob.len() < text.len(), "compression should shorten a long descriptor");
    assert_eq!(decode(&blob), Ok(text.to_string()));
}

#[test]
fn encode_output_stays_in_alphabet() {
    for text in ["", "a", "hello, peer", "grüße \u{1F600}", "\u{0}\u{7f}", "=+/="] {
        let blob = encode(text);
        assert!(blob.chars().all(is_blob_char), "bad char in blob for {text:?}");
    }
}

#[test]
fn decode_rejects_non_alphabet_input() {
    assert_eq!(decode("not base64 !!!"), Err(DecodeError::InvalidAlphabet));
    assert_eq!(decode("abc\u{e4}"), Err(DecodeError::InvalidAlphabet));
}

#[test]
fn decode_rejects_bad_padding() {
    assert_eq!(decode("A"), Err(DecodeError::InvalidAlphabet));
}

#[test]
fn decode_rejects_non_zlib_bytes() {
    // "aGVsbG8=" is valid base64 for b"hello", which is not a zlib stream.
    assert_eq!(decode("aGVsbG8="), Err(DecodeError::InvalidStream));
    // The empty blob decodes to zero bytes, which are not a zlib stream either.
    assert_eq!(decode(""), Err(DecodeError::InvalidStream));
}

#[test]
fn decode_rejects_invalid_utf8_payload() {
    // A well-formed zlib stream whose payload is not UTF-8.
    let mut enc = flate2::write::ZlibEncoder::new(Vec::new(), flate2::Compression::best());
    std::io::Write::write_all(&mut enc, &[0xff, 0xfe, 0x80]).unwrap();
    let compressed = enc.finish().unwrap();
    let blob = base64::Engine::encode(&base64::prelude::BASE64_STANDARD, &compressed);
    assert_eq!(decode(&blob), Err(DecodeError::InvalidUtf8));
}

#[test]
fn decode_never_returns_truncated_text() {
    // Corrupting a valid blob's tail must fail, not yield partial text.
    let blob = encode("a longer text so that corruption lands inside the stream");
    let truncated: String = blob.chars().take(blob.len() / 2).collect();
    assert!(decode(&truncated).is_err());
}
