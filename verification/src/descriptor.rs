//! Connection descriptors and their blob form. A descriptor pairs a kind
//! (offer or answer) with the transport's opaque text. Its blob form frames
//! the kind as one leading tag byte before the payload's UTF-8 bytes, then
//! runs the signaling-blob codec, so the receiving side can dispatch on the
//! kind without inspecting the payload.

use vstd::prelude::*;
use vstd::utf8::{decode_utf8, encode_utf8, valid_utf8};

use crate::codec;
use crate::codec::{
    base64_parse, base64_text, is_blob_char, zlib_deflate, zlib_inflate, DecodeError,
};

verus! {

/// Whether a descriptor carries an offer or an answer.
#[derive(Clone, Copy, Debug, PartialEq, Eq, Structural)]
pub enum DescriptorKind {
    Offer,
    Answer,
}

/// A connection descriptor: what one endpoint proposes to the other.
/// The payload is the transport's own text, treated as opaque.
#[derive(Debug, PartialEq, Eq)]
pub struct ConnectionDescriptor {
    pub kind: DescriptorKind,
    pub payload: String,
}

/// The mathematical value of a descriptor.
#[verifier::ext_equal]
pub struct DescriptorModel {
    pub kind: DescriptorKind,
    pub payload: Seq<char>,
}

impl View for ConnectionDescriptor {
    type V = DescriptorModel;

    open spec fn view(&self) -> DescriptorModel {
        DescriptorModel { kind: self.kind, payload: self.payload@ }
    }
}

impl ConnectionDescriptor {
    /// An equal copy of the descriptor.
    pub fn duplicate(&self) -> (r: ConnectionDescriptor)
        ensures
            r == *self,
    {
        ConnectionDescriptor { kind: self.kind, payload: self.payload.clone() }
    }
}

/// The tag byte that marks a descriptor's kind in the framed bytes.
pub open spec fn kind_tag(kind: DescriptorKind) -> u8 {
    match kind {
        DescriptorKind::Offer => 'O' as u8,
        DescriptorKind::Answer => 'A' as u8,
    }
}

fn tag_of(kind: DescriptorKind) -> (t: u8)
    ensures
        t == kind_tag(kind),
{
    match kind {
        DescriptorKind::Offer => 'O' as u8,
        DescriptorKind::Answer => 'A' as u8,
    }
}

/// The framed bytes of a descriptor: one kind tag, then the payload's UTF-8.
pub open spec fn descriptor_bytes(d: DescriptorModel) -> Seq<u8> {
    seq![kind_tag(d.kind)] + encode_utf8(d.payload)
}

/// What framed bytes parse back to: `None` when they are empty, carry an
/// unknown tag, or their payload part is not valid UTF-8.
pub open spec fn parse_descriptor_bytes(bytes: Seq<u8>) -> Option<DescriptorModel> {
    if bytes.len() == 0 {
        Option::None
    } else if bytes[0] != kind_tag(DescriptorKind::Offer) && bytes[0] != kind_tag(
        DescriptorKind::Answer,
    ) {
        Option::None
    } else if !valid_utf8(bytes.drop_first()) {
        Option::None
    } else {
        let kind = if bytes[0] == kind_tag(DescriptorKind::Offer) {
            DescriptorKind::Offer
        } else {
            DescriptorKind::Answer
        };
        Option::Some(DescriptorModel { kind, payload: decode_utf8(bytes.drop_first()) })
    }
}

/// The blob that `encode_descriptor` produces for the given descriptor.
pub open spec fn descriptor_blob_spec(d: DescriptorModel) -> Seq<char> {
    base64_text(zlib_deflate(descriptor_bytes(d)))
}

/// The descriptor a blob decodes to, or `None` when the blob is malformed
/// at any layer.
pub open spec fn parse_blob_spec(blob: Seq<char>) -> Option<DescriptorModel> {
    match base64_parse(blob) {
        Option::None => Option::None,
        Option::Some(compressed) => match zlib_inflate(compressed) {
            Option::None => Option::None,
            Option::Some(raw) => parse_descriptor_bytes(raw),
        },
    }
}

/// The error `decode_descriptor` reports for a malformed blob: the first
/// layer that rejects the input.
pub open spec fn parse_blob_error_spec(blob: Seq<char>) -> DecodeError {
    match base64_parse(blob) {
        Option::None => DecodeError::InvalidAlphabet,
        Option::Some(compressed) => match zlib_inflate(compressed) {
            Option::None => DecodeError::InvalidStream,
            Option::Some(raw) => if raw.len() == 0 || (raw[0] != kind_tag(DescriptorKind::Offer)
                && raw[0] != kind_tag(DescriptorKind::Answer)) {
                DecodeError::InvalidDescriptor
            } else {
                DecodeError::InvalidUtf8
            },
        },
    }
}

/// Encodes a descriptor as a signaling blob. Succeeds for every descriptor;
/// the output uses only the text-safe alphabet, and `decode_descriptor`
/// restores the descriptor exactly, payload byte for byte.
pub fn encode_descriptor(d: &ConnectionDescriptor) -> (blob: String)
    ensures
        blob@ == descriptor_blob_spec(d@),
        parse_blob_spec(blob@) == Some(d@),
        forall|i: int| 0 <= i < blob@.len() ==> is_blob_char(#[trigger] blob@[i]),
{
    broadcast use vstd::utf8::encode_utf8_valid_utf8, vstd::utf8::encode_utf8_decode_utf8;

    let mut bytes = vstd::string::StrSliceExecFns::as_bytes_vec(d.payload.as_str());
    bytes.insert(0, tag_of(d.kind));
    proof {
        assert(bytes@ =~= descriptor_bytes(d@));
        assert(descriptor_bytes(d@).drop_first() =~= encode_utf8(d.payload@));
        assert(parse_descriptor_bytes(descriptor_bytes(d@)) == Some(d@));
    }
    let compressed = codec::deflate_bytes(&bytes);
    codec::base64_encode(&compressed)
}

/// Decodes a signaling blob into a descriptor. A malformed blob is always
/// rejected with the `DecodeError` of its first bad layer; no partial
/// descriptor is ever returned.
pub fn decode_descriptor(blob: &str) -> (r: Result<ConnectionDescriptor, DecodeError>)
    ensures
        r is Ok <==> parse_blob_spec(blob@) is Some,
        r matches Ok(d) ==> parse_blob_spec(blob@) == Some(d@),
        r matches Err(e) ==> e == parse_blob_error_spec(blob@),
{
    let compressed = match codec::base64_decode(blob) {
        Some(data) => data,
        None => {
            return Err(DecodeError::InvalidAlphabet);
        },
    };
    let mut raw = match codec::inflate_bytes(&compressed) {
        Some(raw) => raw,
        None => {
            return Err(DecodeError::InvalidStream);
        },
    };
    if raw.len() == 0 {
        return Err(DecodeError::InvalidDescriptor);
    }
    let ghost framed = raw@;
    let tag = raw.remove(0);
    proof {
        assert(raw@ =~= framed.drop_first());
    }
    let kind = if tag == 'O' as u8 {
        DescriptorKind::Offer
    } else if tag == 'A' as u8 {
        DescriptorKind::Answer
    } else {
        return Err(DecodeError::InvalidDescriptor);
    };
    match codec::bytes_to_text(raw) {
        Some(payload) => Ok(ConnectionDescriptor { kind, payload }),
        None => Err(DecodeError::InvalidUtf8),
    }
}

} // verus!
