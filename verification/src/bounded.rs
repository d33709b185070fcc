//! Length-capped text fields: strict encoding, fail-soft decoding.
//!
//! A field holds the UTF-8 bytes of a text and never more of them than its
//! capacity. Encoding refuses a text that does not fit; nothing is cut off.
//! Decoding cannot fail: bytes that are not UTF-8 read as the empty text.

use bounded_collections::{BoundedVec, ConstU32};
use std::string::FromUtf8Error;
use vstd::prelude::*;
use vstd::slice::slice_to_vec;
use vstd::string::StrSliceExecFns;
use vstd::utf8::{decode_utf8, encode_utf8, encode_utf8_decode_utf8, encode_utf8_valid_utf8, valid_utf8};

verus! {

/// `bounded_collections::BoundedVec`, carried as an opaque value.
#[verifier::external_type_specification]
#[verifier::external_body]
#[verifier::reject_recursive_types(T)]
#[verifier::reject_recursive_types(S)]
pub struct ExBoundedVec<T, S>(BoundedVec<T, S>);

/// `bounded_collections::ConstU32`, the capacity of a bounded vector as a type.
#[verifier::external_type_specification]
#[verifier::external_body]
pub struct ExConstU32<const N: u32>(ConstU32<N>);

/// `std::string::FromUtf8Error`, carried as an opaque value.
#[verifier::external_type_specification]
#[verifier::external_body]
pub struct ExFromUtf8Error(FromUtf8Error);

/// A text field of at most 64 bytes.
pub type Str64 = BoundedVec<u8, ConstU32<64>>;

/// A text field of at most 128 bytes.
pub type Str128 = BoundedVec<u8, ConstU32<128>>;

/// The bytes that a 64-byte field holds.
pub uninterp spec fn str64_bytes(field: BoundedVec<u8, ConstU32<64>>) -> Seq<u8>;

/// The bytes that a 128-byte field holds.
pub uninterp spec fn str128_bytes(field: BoundedVec<u8, ConstU32<128>>) -> Seq<u8>;

/// `BoundedVec::try_from(Vec<u8>)` at capacity 64: a vector of at most 64
/// bytes becomes the field's content as it is; a longer one is refused.
#[verifier::external_body]
fn str64_from_vec(bytes: Vec<u8>) -> (r: Result<Str64, Vec<u8>>)
    ensures
        r is Ok <==> bytes@.len() <= 64,
        r matches Ok(field) ==> str64_bytes(field) == bytes@,
{
    Str64::try_from(bytes)
}

/// `BoundedVec::try_from(Vec<u8>)` at capacity 128: a vector of at most 128
/// bytes becomes the field's content as it is; a longer one is refused.
#[verifier::external_body]
fn str128_from_vec(bytes: Vec<u8>) -> (r: Result<Str128, Vec<u8>>)
    ensures
        r is Ok <==> bytes@.len() <= 128,
        r matches Ok(field) ==> str128_bytes(field) == bytes@,
{
    Str128::try_from(bytes)
}

/// `BoundedVec::as_slice`, reached through its `Deref` to `Vec`: the
/// field's content, borrowed.
#[verifier::external_body]
pub(crate) fn str64_as_slice(field: &Str64) -> (bytes: &[u8])
    ensures
        bytes@ == str64_bytes(*field),
{
    field.as_slice()
}

/// `BoundedVec::as_slice`, reached through its `Deref` to `Vec`: the
/// field's content, borrowed.
#[verifier::external_body]
pub(crate) fn str128_as_slice(field: &Str128) -> (bytes: &[u8])
    ensures
        bytes@ == str128_bytes(*field),
{
    field.as_slice()
}

/// `String::from_utf8` succeeds exactly on well-formed UTF-8, and the text
/// it returns is the one those bytes encode.
pub assume_specification[ String::from_utf8 ](bytes: Vec<u8>) -> (r: Result<String, FromUtf8Error>)
    ensures
        r is Ok <==> valid_utf8(bytes@),
        r matches Ok(text) ==> text@ == decode_utf8(bytes@),
;

/// A text was longer than the field that should hold it.
#[derive(Clone, Copy, Debug, PartialEq, Eq)]
pub struct OverflowError;

/// Whether the UTF-8 encoding of `text` has at most `capacity` bytes.
pub open spec fn fits(text: Seq<char>, capacity: nat) -> bool {
    encode_utf8(text).len() <= capacity
}

/// The text that stored bytes stand for: what they decode to as UTF-8, and
/// the empty text when they are not UTF-8.
pub open spec fn decode_text(bytes: Seq<u8>) -> Seq<char> {
    if valid_utf8(bytes) {
        decode_utf8(bytes)
    } else {
        Seq::empty()
    }
}

/// Encodes `text` into a 64-byte field, or refuses it whole.
pub fn encode_64(text: &str) -> (r: Result<Str64, OverflowError>)
    ensures
        r is Ok <==> fits(text@, 64),
        r matches Ok(field) ==> str64_bytes(field) == encode_utf8(text@),
{
    match str64_from_vec(text.as_bytes_vec()) {
        Ok(field) => Ok(field),
        Err(_) => Err(OverflowError),
    }
}

/// Encodes `text` into a 128-byte field, or refuses it whole.
pub fn encode_128(text: &str) -> (r: Result<Str128, OverflowError>)
    ensures
        r is Ok <==> fits(text@, 128),
        r matches Ok(field) ==> str128_bytes(field) == encode_utf8(text@),
{
    match str128_from_vec(text.as_bytes_vec()) {
        Ok(field) => Ok(field),
        Err(_) => Err(OverflowError),
    }
}

/// Decodes bytes to the text they stand for.
pub fn decode_bytes(bytes: Vec<u8>) -> (text: String)
    ensures
        text@ == decode_text(bytes@),
{
    match String::from_utf8(bytes) {
        Ok(text) => text,
        Err(_) => String::new(),
    }
}

/// Decodes a 64-byte field to the text it stands for.
pub fn decode_64(field: &Str64) -> (text: String)
    ensures
        text@ == decode_text(str64_bytes(*field)),
{
    decode_bytes(slice_to_vec(str64_as_slice(field)))
}

/// Decodes a 128-byte field to the text it stands for.
pub fn decode_128(field: &Str128) -> (text: String)
    ensures
        text@ == decode_text(str128_bytes(*field)),
{
    decode_bytes(slice_to_vec(str128_as_slice(field)))
}

/// Decoding what was encoded gives the text back, whatever the text.
pub proof fn lemma_decode_encode(text: Seq<char>)
    ensures
        decode_text(encode_utf8(text)) == text,
{
    encode_utf8_valid_utf8(text);
    encode_utf8_decode_utf8(text);
}

} // verus!
