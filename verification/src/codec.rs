//! Signaling-blob codec: turns descriptor text into a compressed, text-safe
//! blob that survives manual copy-paste, and turns such a blob back into the
//! original text. Encoding is zlib compression followed by base64; decoding
//! is the reverse and rejects malformed input instead of guessing.

use vstd::prelude::*;
use vstd::utf8::{decode_utf8, encode_utf8, valid_utf8};

verus! {

/// The characters a signaling blob may contain: the base64 standard
/// alphabet together with the `=` padding character.
pub open spec fn is_blob_char(c: char) -> bool {
    ||| 'A' as u32 <= c as u32 <= 'Z' as u32
    ||| 'a' as u32 <= c as u32 <= 'z' as u32
    ||| '0' as u32 <= c as u32 <= '9' as u32
    ||| c == '+'
    ||| c == '/'
    ||| c == '='
}

/// The byte sequence the zlib compressor produces for the given bytes.
pub uninterp spec fn zlib_deflate(data: Seq<u8>) -> Seq<u8>;

/// What the zlib decompressor yields for the given bytes: the decompressed
/// payload, or `None` when they do not form a valid zlib stream.
pub uninterp spec fn zlib_inflate(data: Seq<u8>) -> Option<Seq<u8>>;

/// The text the base64 encoder (standard alphabet, padded) produces.
pub uninterp spec fn base64_text(data: Seq<u8>) -> Seq<char>;

/// What the base64 decoder yields for the given text: the decoded bytes,
/// or `None` when the text is not valid padded base64.
pub uninterp spec fn base64_parse(text: Seq<char>) -> Option<Seq<u8>>;

/// Relies on flate2's `ZlibEncoder` over a `Vec` sink with a fixed
/// compression level: it never fails, its output is a function of the input
/// bytes alone, and flate2's `ZlibDecoder` restores exactly those bytes.
#[verifier::external_body]
pub(crate) fn deflate_bytes(data: &Vec<u8>) -> (out: Vec<u8>)
    ensures
        out@ == zlib_deflate(data@),
        zlib_inflate(out@) == Some(data@),
{
    let mut enc = flate2::write::ZlibEncoder::new(Vec::new(), flate2::Compression::best());
    std::io::Write::write_all(&mut enc, data.as_slice()).unwrap();
    enc.finish().unwrap()
}

/// Relies on flate2's `ZlibDecoder`: reading it to the end yields the
/// decompressed bytes, or an error when the input is not a valid zlib stream.
#[verifier::external_body]
pub(crate) fn inflate_bytes(data: &Vec<u8>) -> (out: Option<Vec<u8>>)
    ensures
        out matches Some(raw) ==> zlib_inflate(data@) == Some(raw@),
        out is None <==> zlib_inflate(data@) is None,
{
    let mut dec = flate2::read::ZlibDecoder::new(data.as_slice());
    let mut raw = Vec::new();
    match std::io::Read::read_to_end(&mut dec, &mut raw) {
        Ok(_) => Some(raw),
        Err(_) => None,
    }
}

/// Relies on base64's `BASE64_STANDARD` engine: encoding is a function of the
/// input bytes alone, emits only standard-alphabet characters and `=`
/// padding, and the same engine's decoder restores exactly the input bytes.
#[verifier::external_body]
pub(crate) fn base64_encode(data: &Vec<u8>) -> (out: String)
    ensures
        out@ == base64_text(data@),
        base64_parse(out@) == Some(data@),
        forall|i: int| 0 <= i < out@.len() ==> is_blob_char(#[trigger] out@[i]),
{
    base64::Engine::encode(&base64::prelude::BASE64_STANDARD, data.as_slice())
}

/// Relies on base64's `BASE64_STANDARD` engine: decoding succeeds only when
/// every input character is in the standard alphabet or `=` padding.
#[verifier::external_body]
pub(crate) fn base64_decode(text: &str) -> (out: Option<Vec<u8>>)
    ensures
        out matches Some(data) ==> base64_parse(text@) == Some(data@),
        out is None <==> base64_parse(text@) is None,
        out is Some ==> forall|i: int| 0 <= i < text@.len() ==> is_blob_char(
            #[trigger] text@[i],
        ),
{
    match base64::Engine::decode(&base64::prelude::BASE64_STANDARD, text) {
        Ok(data) => Some(data),
        Err(_) => None,
    }
}

/// Relies on `String::from_utf8`: it succeeds exactly on byte sequences that
/// satisfy `valid_utf8`, and decodes them as `decode_utf8` describes.
#[verifier::external_body]
pub(crate) fn bytes_to_text(bytes: Vec<u8>) -> (out: Option<String>)
    ensures
        out matches Some(text) ==> valid_utf8(bytes@) && text@ == decode_utf8(bytes@),
        out is None <==> !valid_utf8(bytes@),
{
    match String::from_utf8(bytes) {
        Ok(text) => Some(text),
        Err(_) => None,
    }
}

/// Why a blob was rejected: each variant names the first layer at which the
/// input turned out to be malformed.
#[derive(Clone, Copy, Debug, PartialEq, Eq, Structural)]
pub enum DecodeError {
    /// The blob is not valid padded base64 text.
    InvalidAlphabet,
    /// The base64-decoded bytes are not a valid zlib stream.
    InvalidStream,
    /// The decompressed bytes are not valid UTF-8 text.
    InvalidUtf8,
    /// The decompressed bytes carry no recognisable descriptor kind tag.
    InvalidDescriptor,
}

/// The status line each decode error surfaces as.
pub open spec fn decode_error_label_spec(e: DecodeError) -> Seq<char> {
    match e {
        DecodeError::InvalidAlphabet => "the code is not valid text-safe encoding"@,
        DecodeError::InvalidStream => "the code does not hold a compressed descriptor"@,
        DecodeError::InvalidUtf8 => "the decompressed descriptor is not text"@,
        DecodeError::InvalidDescriptor => "the decompressed descriptor has no known kind"@,
    }
}

impl DecodeError {
    /// The status line this error surfaces as, for the status reporter.
    pub fn label(&self) -> (label: &'static str)
        ensures
            label@ == decode_error_label_spec(*self),
    {
        match self {
            DecodeError::InvalidAlphabet => "the code is not valid text-safe encoding",
            DecodeError::InvalidStream => "the code does not hold a compressed descriptor",
            DecodeError::InvalidUtf8 => "the decompressed descriptor is not text",
            DecodeError::InvalidDescriptor => "the decompressed descriptor has no known kind",
        }
    }
}

/// The blob that `encode` produces for the given text.
pub open spec fn encode_spec(text: Seq<char>) -> Seq<char> {
    base64_text(zlib_deflate(encode_utf8(text)))
}

/// The text a blob decodes to, or `None` when the blob is malformed at
/// some layer: not base64, not a zlib stream, or not UTF-8.
pub open spec fn decode_spec(blob: Seq<char>) -> Option<Seq<char>> {
    match base64_parse(blob) {
        Option::None => Option::None,
        Option::Some(compressed) => match zlib_inflate(compressed) {
            Option::None => Option::None,
            Option::Some(raw) => if valid_utf8(raw) {
                Option::Some(decode_utf8(raw))
            } else {
                Option::None
            },
        },
    }
}

/// The error `decode` reports for a malformed blob: the first layer that
/// rejects the input.
pub open spec fn decode_error_spec(blob: Seq<char>) -> DecodeError {
    match base64_parse(blob) {
        Option::None => DecodeError::InvalidAlphabet,
        Option::Some(compressed) => match zlib_inflate(compressed) {
            Option::None => DecodeError::InvalidStream,
            Option::Some(_) => DecodeError::InvalidUtf8,
        },
    }
}

/// Encodes descriptor text as a signaling blob safe for a plain text field.
/// Succeeds for every text, including the empty one; the output uses only
/// the text-safe alphabet, and `decode` restores the text exactly.
pub fn encode(text: &str) -> (blob: String)
    ensures
        blob@ == encode_spec(text@),
        decode_spec(blob@) == Some(text@),
        forall|i: int| 0 <= i < blob@.len() ==> is_blob_char(#[trigger] blob@[i]),
{
    broadcast use vstd::utf8::encode_utf8_valid_utf8, vstd::utf8::encode_utf8_decode_utf8;

    let bytes = vstd::string::StrSliceExecFns::as_bytes_vec(text);
    let compressed = deflate_bytes(&bytes);
    base64_encode(&compressed)
}

/// Decodes a signaling blob back to descriptor text. A malformed blob is
/// always rejected with the `DecodeError` of its first bad layer; no
/// partial or truncated text is ever returned.
pub fn decode(blob: &str) -> (r: Result<String, DecodeError>)
    ensures
        r is Ok <==> decode_spec(blob@) is Some,
        r matches Ok(text) ==> decode_spec(blob@) == Some(text@),
        r matches Err(e) ==> e == decode_error_spec(blob@),
        (exists|i: int| 0 <= i < blob@.len() && !is_blob_char(#[trigger] blob@[i])) ==> r is Err,
{
    let compressed = match base64_decode(blob) {
        Some(data) => data,
        None => {
            return Err(DecodeError::InvalidAlphabet);
        },
    };
    let raw = match inflate_bytes(&compressed) {
        Some(raw) => raw,
        None => {
            return Err(DecodeError::InvalidStream);
        },
    };
    match bytes_to_text(raw) {
        Some(text) => Ok(text),
        None => Err(DecodeError::InvalidUtf8),
    }
}

} // verus!
