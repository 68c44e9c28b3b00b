//! How descriptions and candidates are carried as bytes.

use vstd::bytes::spec_u64_from_le_bytes;
use vstd::bytes::spec_u64_to_le_bytes;
use vstd::prelude::*;
use vstd::utf8::decode_utf8;
use vstd::utf8::encode_utf8;
use vstd::utf8::valid_utf8;

verus! {

/// What can go wrong when `bincode` encodes or decodes.
#[verifier::external_type_specification]
#[verifier::external_body]
pub struct ExBincodeErrorKind(bincode::ErrorKind);

/// A value that signals can carry.
pub trait SignalPayload: Sized {
    /// What a value stands for.
    type Model;

    /// What this value stands for.
    spec fn model(&self) -> Self::Model;

    /// The bytes that carry a value, or none where it cannot be carried.
    spec fn encoding(model: Self::Model) -> Option<Seq<u8>>;

    /// The value that bytes carry, or none where they carry none.
    spec fn decoding(bytes: Seq<u8>) -> Option<Self::Model>;

    /// What was encoded decodes to the value it was encoded from.
    proof fn decoding_inverts_encoding(model: Self::Model)
        ensures
            Self::encoding(model) matches Some(bytes) ==> Self::decoding(bytes) == Some(model),
    ;

    /// Encode this value.
    fn encode(self) -> (bytes: Result<Vec<u8>, bincode::Error>)
        ensures
            match Self::encoding(self.model()) {
                Some(encoding) => bytes matches Ok(b) && b@ == encoding,
                None => bytes is Err,
            },
    ;

    /// Decode a value.
    fn decode(bytes: Vec<u8>) -> (value: Result<Self, bincode::Error>)
        ensures
            match Self::decoding(bytes@) {
                Some(model) => value matches Ok(v) && v.model() == model,
                None => value is Err,
            },
    ;
}

/// The bytes that carry a text: its length in bytes as eight bytes, the least significant first,
/// and then the text in UTF-8.
pub open spec fn text_encoding(text: Seq<char>) -> Seq<u8> {
    spec_u64_to_le_bytes(encode_utf8(text).len() as u64) + encode_utf8(text)
}

/// How many bytes of text the first eight bytes announce.
pub open spec fn announced_length(bytes: Seq<u8>) -> int {
    spec_u64_from_le_bytes(bytes.take(8)) as int
}

/// The text that bytes carry: there are eight bytes of length, at least as many bytes as they
/// announce, and those are UTF-8. What follows them is ignored.
pub open spec fn text_decoding(bytes: Seq<u8>) -> Option<Seq<char>> {
    if bytes.len() >= 8 && 8 + announced_length(bytes) <= bytes.len() && valid_utf8(
        bytes.subrange(8, 8 + announced_length(bytes)),
    ) {
        Some(decode_utf8(bytes.subrange(8, 8 + announced_length(bytes))))
    } else {
        None
    }
}

/// Calls `bincode::serialize` on a string: it succeeds, with the length of the string in bytes as
/// eight bytes, the least significant first, and then the string in UTF-8.
#[verifier::external_body]
fn bincode_serialize_text(text: &String) -> (bytes: Result<Vec<u8>, bincode::Error>)
    ensures
        bytes is Ok,
        bytes->Ok_0@ == text_encoding(text@),
{
    bincode::serialize(text)
}

/// Calls `bincode::deserialize` for a string: it reads a length of eight bytes and as many bytes of
/// UTF-8 as that announces, ignores what follows, and fails where bytes are missing or are not
/// UTF-8.
#[verifier::external_body]
fn bincode_deserialize_text(bytes: &Vec<u8>) -> (text: Result<String, bincode::Error>)
    ensures
        match text_decoding(bytes@) {
            Some(decoded) => text matches Ok(t) && t@ == decoded,
            None => text is Err,
        },
{
    bincode::deserialize(bytes.as_slice())
}

impl SignalPayload for String {
    type Model = Seq<char>;

    open spec fn model(&self) -> Seq<char> {
        self@
    }

    /// Every text that fits into memory can be carried.
    open spec fn encoding(model: Seq<char>) -> Option<Seq<u8>> {
        if encode_utf8(model).len() <= u64::MAX {
            Some(text_encoding(model))
        } else {
            None
        }
    }

    open spec fn decoding(bytes: Seq<u8>) -> Option<Seq<char>> {
        text_decoding(bytes)
    }

    proof fn decoding_inverts_encoding(model: Seq<char>) {
        if encode_utf8(model).len() <= u64::MAX {
            let text = encode_utf8(model);
            let bytes = text_encoding(model);
            vstd::bytes::lemma_auto_spec_u64_to_from_le_bytes();
            assert(bytes.take(8) == spec_u64_to_le_bytes(text.len() as u64));
            assert(bytes.subrange(8, 8 + announced_length(bytes)) == text);
            vstd::utf8::encode_utf8_valid_utf8(model);
            vstd::utf8::encode_utf8_decode_utf8(model);
        }
    }

    fn encode(self) -> (bytes: Result<Vec<u8>, bincode::Error>) {
        // A slice of bytes is never longer than `u64` can count.
        let utf8: &[u8] = self.as_str().as_bytes();
        assert(utf8.len() == encode_utf8(self@).len());
        bincode_serialize_text(&self)
    }

    fn decode(bytes: Vec<u8>) -> (text: Result<String, bincode::Error>) {
        bincode_deserialize_text(&bytes)
    }
}

/// A value that was put into bytes beforehand. Signals carry the bytes as they are.
#[derive(Debug, Clone, PartialEq, Eq)]
pub struct EncodedPayload {
    pub bytes: Vec<u8>,
}

impl SignalPayload for EncodedPayload {
    type Model = Seq<u8>;

    open spec fn model(&self) -> Seq<u8> {
        self.bytes@
    }

    open spec fn encoding(model: Seq<u8>) -> Option<Seq<u8>> {
        Some(model)
    }

    open spec fn decoding(bytes: Seq<u8>) -> Option<Seq<u8>> {
        Some(bytes)
    }

    proof fn decoding_inverts_encoding(model: Seq<u8>) {
    }

    fn encode(self) -> (bytes: Result<Vec<u8>, bincode::Error>) {
        Ok(self.bytes)
    }

    fn decode(bytes: Vec<u8>) -> (payload: Result<EncodedPayload, bincode::Error>) {
        Ok(EncodedPayload { bytes })
    }
}

} // verus!
