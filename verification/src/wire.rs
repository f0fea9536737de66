//! Protocol Buffers wire format: the byte sequences that the encoders of the
//! `prost` crate produce, stated as specification functions, and the trusted
//! wrappers around those encoders.

use vstd::prelude::*;
use vstd::utf8::encode_utf8;

verus! {

/// Smallest field tag that the wire format allows.
pub const MIN_TAG: u32 = 1;

/// Largest field tag that the wire format allows.
pub const MAX_TAG: u32 = 536_870_911;

/// Wire type of a varint field.
pub open spec fn wire_type_varint() -> nat {
    0
}

/// Wire type of a length-delimited field (strings, nested messages).
pub open spec fn wire_type_length_delimited() -> nat {
    2
}

/// The unsigned LEB128 encoding of `value`: seven bits per byte, least
/// significant group first, high bit set on every byte but the last.
pub open spec fn varint(value: nat) -> Seq<u8>
    decreases value,
{
    if value < 128 {
        seq![value as u8]
    } else {
        seq![(value % 128 + 128) as u8] + varint(value / 128)
    }
}

/// The key of a field: its tag and wire type packed into one varint.
pub open spec fn field_key(tag: nat, wire_type: nat) -> Seq<u8> {
    varint(tag * 8 + wire_type)
}

/// A length-delimited field: key, length of the body, body.
pub open spec fn length_delimited_field(tag: nat, body: Seq<u8>) -> Seq<u8> {
    field_key(tag, wire_type_length_delimited()) + varint(body.len()) + body
}

/// A `string` field of a proto3 message: absent when the string is empty,
/// else its UTF-8 bytes, length-delimited.
pub open spec fn string_field(tag: nat, s: Seq<char>) -> Seq<u8> {
    if s.len() == 0 {
        Seq::empty()
    } else {
        length_delimited_field(tag, encode_utf8(s))
    }
}

/// A `uint64` field of a proto3 message: absent when zero, else key and varint.
pub open spec fn uint64_field(tag: nat, value: u64) -> Seq<u8> {
    if value == 0 {
        Seq::empty()
    } else {
        field_key(tag, wire_type_varint()) + varint(value as nat)
    }
}

/// Writes the LEB128 encoding of `value` at the end of `buf`.
///
/// Trusted: calls `prost::encoding::encode_varint`, which emits the low seven
/// bits of the value with the high bit set while the value is at least 128,
/// then shifts it right by seven, and finally emits the last byte. The
/// contract claims that the bytes appended are exactly `varint(value)`; the
/// `requires` keeps the vector below the size at which growing it panics.
#[verifier::external_body]
pub(crate) fn encode_varint(value: u64, buf: &mut Vec<u8>)
    requires
        old(buf)@.len() + varint(value as nat).len() <= isize::MAX,
    ensures
        final(buf)@ == old(buf)@ + varint(value as nat),
{
    prost::encoding::encode_varint(value, buf);
}

/// The number of bytes of the LEB128 encoding of `value`.
///
/// Trusted: calls `prost::encoding::encoded_len_varint`; the contract claims
/// that it returns the length of `varint(value)`, which its documentation
/// gives as the encoded length (between 1 and 10).
#[verifier::external_body]
pub(crate) fn encoded_len_varint(value: u64) -> (len: usize)
    ensures
        len == varint(value as nat).len(),
{
    prost::encoding::encoded_len_varint(value)
}

/// Writes the key of a length-delimited field with tag `tag`.
///
/// Trusted: calls `prost::encoding::encode_key` with
/// `WireType::LengthDelimited`, which encodes `(tag << 3) | 2` as a varint; for
/// a tag in the allowed range that is `field_key(tag, 2)`. Out of that range
/// the function fails a debug assertion, so the `requires` leaves it out.
#[verifier::external_body]
pub(crate) fn encode_length_delimited_key(tag: u32, buf: &mut Vec<u8>)
    requires
        MIN_TAG <= tag <= MAX_TAG,
        old(buf)@.len() + field_key(tag as nat, wire_type_length_delimited()).len() <= isize::MAX,
    ensures
        final(buf)@ == old(buf)@ + field_key(tag as nat, wire_type_length_delimited()),
{
    prost::encoding::encode_key(tag, prost::encoding::WireType::LengthDelimited, buf);
}

/// Writes a `string` field: key, byte length, UTF-8 bytes.
///
/// Trusted: calls `prost::encoding::string::encode`, which writes the key of
/// a length-delimited field, the varint of `value.len()` (its length in bytes)
/// and then `value.as_bytes()`. The contract claims exactly that sequence,
/// with the bytes given by the UTF-8 encoding of the string's characters.
/// Unlike `string_field`, it writes the field even for an empty string: the
/// callers skip empty strings themselves.
#[verifier::external_body]
pub(crate) fn encode_string(tag: u32, value: &String, buf: &mut Vec<u8>)
    requires
        MIN_TAG <= tag <= MAX_TAG,
        old(buf)@.len() + length_delimited_field(tag as nat, encode_utf8(value@)).len()
            <= isize::MAX,
    ensures
        final(buf)@ == old(buf)@ + length_delimited_field(tag as nat, encode_utf8(value@)),
{
    prost::encoding::string::encode(tag, value, buf);
}

/// Writes a `uint64` field: key with the varint wire type, then the value.
///
/// Trusted: calls `prost::encoding::uint64::encode`, which writes
/// `encode_key(tag, WireType::Varint)` and then `encode_varint(value)`. It
/// writes the field even for zero: the callers skip zero themselves.
#[verifier::external_body]
pub(crate) fn encode_uint64(tag: u32, value: u64, buf: &mut Vec<u8>)
    requires
        MIN_TAG <= tag <= MAX_TAG,
        old(buf)@.len() + field_key(tag as nat, wire_type_varint()).len() + varint(
            value as nat,
        ).len() <= isize::MAX,
    ensures
        final(buf)@ == old(buf)@ + field_key(tag as nat, wire_type_varint()) + varint(
            value as nat,
        ),
{
    prost::encoding::uint64::encode(tag, &value, buf);
}

} // verus!
