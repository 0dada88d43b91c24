//! The Protocol Buffers wire format, as far as the device families of this
//! crate use it: varints, field keys, and fields of the varint, 64-bit and
//! length-delimited wire types.
//!
//! The spec functions say what the bytes of a field are. The bytes
//! themselves are written by the `prost` crate.

use vstd::prelude::*;

verus! {

/// The smallest field number that the format admits.
pub const MIN_TAG: u32 = 1;

/// The largest field number that the format admits: 2^29 - 1.
pub const MAX_TAG: u32 = 0x1FFF_FFFF;

/// Wire type of a field that holds one varint.
pub const WIRE_VARINT: u8 = 0;

/// Wire type of a field that holds eight bytes.
pub const WIRE_SIXTY_FOUR_BIT: u8 = 1;

/// Wire type of a field that holds a length and that many bytes.
pub const WIRE_LENGTH_DELIMITED: u8 = 2;

/// Base-128 encoding of a number: seven bits per byte, least significant
/// group first, the top bit of a byte set when another byte follows.
pub open spec fn varint(value: nat) -> Seq<u8>
    decreases value,
{
    if value < 128 {
        seq![value as u8]
    } else {
        seq![(128 + value % 128) as u8] + varint(value / 128)
    }
}

/// The key that opens a field: field number and wire type in one varint.
pub open spec fn field_key(tag: u32, wire_type: u8) -> Seq<u8> {
    varint((tag as nat) * 8 + wire_type as nat)
}

/// The eight bytes of a 64-bit value, least significant first.
pub open spec fn little_endian_64(value: u64) -> Seq<u8> {
    seq![
        (value % 0x100) as u8,
        (value / 0x100 % 0x100) as u8,
        (value / 0x1_0000 % 0x100) as u8,
        (value / 0x100_0000 % 0x100) as u8,
        (value / 0x1_0000_0000 % 0x100) as u8,
        (value / 0x100_0000_0000 % 0x100) as u8,
        (value / 0x1_0000_0000_0000 % 0x100) as u8,
        (value / 0x100_0000_0000_0000 % 0x100) as u8,
    ]
}

/// A `uint32` field: key, then the value as a varint.
pub open spec fn uint32_field(tag: u32, value: u32) -> Seq<u8> {
    field_key(tag, WIRE_VARINT) + varint(value as nat)
}

/// An `int32` field, which also carries enumerations: key, then the value
/// as a varint. A negative value is widened to 64 bits in two's complement
/// first.
pub open spec fn int32_field(tag: u32, value: i32) -> Seq<u8> {
    field_key(tag, WIRE_VARINT) + varint(
        if value >= 0 {
            value as nat
        } else {
            (0x1_0000_0000_0000_0000 + value) as nat
        },
    )
}

/// A `fixed64` field: key, then the value in eight bytes. A `double` field
/// has the same bytes when `value` is the bit pattern of the number.
pub open spec fn fixed64_field(tag: u32, value: u64) -> Seq<u8> {
    field_key(tag, WIRE_SIXTY_FOUR_BIT) + little_endian_64(value)
}

/// A length-delimited field, which carries nested messages among others:
/// key, length of the body as a varint, body.
pub open spec fn length_delimited_field(tag: u32, body: Seq<u8>) -> Seq<u8> {
    field_key(tag, WIRE_LENGTH_DELIMITED) + varint(body.len()) + body
}

/// Whether the bits are those of the number zero as a binary64, of either
/// sign.
pub open spec fn is_zero_double(bits: u64) -> bool {
    bits == 0 || bits == 0x8000_0000_0000_0000
}

/// A `uint32` field of a message in proto3 syntax: left out when the value
/// is the default, 0.
pub open spec fn optional_uint32_field(tag: u32, value: u32) -> Seq<u8> {
    if value == 0 {
        Seq::empty()
    } else {
        uint32_field(tag, value)
    }
}

/// An enumeration field of a message in proto3 syntax: left out when the
/// value is the default, 0.
pub open spec fn optional_enum_field(tag: u32, number: i32) -> Seq<u8> {
    if number == 0 {
        Seq::empty()
    } else {
        int32_field(tag, number)
    }
}

/// A `double` field of a message in proto3 syntax, given by its bit pattern:
/// left out when the number equals zero.
pub open spec fn optional_double_field(tag: u32, bits: u64) -> Seq<u8> {
    if is_zero_double(bits) {
        Seq::empty()
    } else {
        fixed64_field(tag, bits)
    }
}

/// Appends a `uint32` field to `buf`.
///
/// Trusted: calls `prost::encoding::uint32::encode`, which writes the key of
/// the field with the varint wire type and then the value as a varint. It
/// asserts in debug builds that the tag is in range.
#[verifier::external_body]
pub(crate) fn put_uint32(tag: u32, value: u32, buf: &mut Vec<u8>)
    requires
        MIN_TAG <= tag <= MAX_TAG,
    ensures
        final(buf)@ == old(buf)@ + uint32_field(tag, value),
{
    prost::encoding::uint32::encode(tag, &value, buf);
}

/// Appends an `int32` field to `buf`.
///
/// Trusted: calls `prost::encoding::int32::encode`, which writes the key of
/// the field with the varint wire type and then the value, cast to `u64`, as
/// a varint. It asserts in debug builds that the tag is in range.
#[verifier::external_body]
pub(crate) fn put_int32(tag: u32, value: i32, buf: &mut Vec<u8>)
    requires
        MIN_TAG <= tag <= MAX_TAG,
    ensures
        final(buf)@ == old(buf)@ + int32_field(tag, value),
{
    prost::encoding::int32::encode(tag, &value, buf);
}

/// Appends a `fixed64` field to `buf`.
///
/// Trusted: calls `prost::encoding::fixed64::encode`, which writes the key
/// of the field with the 64-bit wire type and then the value in little-endian
/// byte order. It asserts in debug builds that the tag is in range.
#[verifier::external_body]
pub(crate) fn put_fixed64(tag: u32, value: u64, buf: &mut Vec<u8>)
    requires
        MIN_TAG <= tag <= MAX_TAG,
    ensures
        final(buf)@ == old(buf)@ + fixed64_field(tag, value),
{
    prost::encoding::fixed64::encode(tag, &value, buf);
}

/// Appends a length-delimited field with the given body to `buf`.
///
/// Trusted: calls `prost::encoding::bytes::encode`, which writes the key of
/// the field with the length-delimited wire type, the length of the body as
/// a varint, and the body. It asserts in debug builds that the tag is in
/// range.
#[verifier::external_body]
pub(crate) fn put_length_delimited(tag: u32, body: &Vec<u8>, buf: &mut Vec<u8>)
    requires
        MIN_TAG <= tag <= MAX_TAG,
    ensures
        final(buf)@ == old(buf)@ + length_delimited_field(tag, body@),
{
    prost::encoding::bytes::encode(tag, body, buf);
}

/// Appends a `uint32` field of a proto3 message, unless the value is 0.
pub(crate) fn put_optional_uint32(tag: u32, value: u32, buf: &mut Vec<u8>)
    requires
        MIN_TAG <= tag <= MAX_TAG,
    ensures
        final(buf)@ == old(buf)@ + optional_uint32_field(tag, value),
{
    if value != 0 {
        put_uint32(tag, value, buf);
    }
}

/// Appends an enumeration field of a proto3 message, unless the number is 0.
pub(crate) fn put_optional_enum(tag: u32, number: i32, buf: &mut Vec<u8>)
    requires
        MIN_TAG <= tag <= MAX_TAG,
    ensures
        final(buf)@ == old(buf)@ + optional_enum_field(tag, number),
{
    if number != 0 {
        put_int32(tag, number, buf);
    }
}

/// Appends a `double` field of a proto3 message, given by its bit pattern,
/// unless the number equals zero.
pub(crate) fn put_optional_double(tag: u32, bits: u64, buf: &mut Vec<u8>)
    requires
        MIN_TAG <= tag <= MAX_TAG,
    ensures
        final(buf)@ == old(buf)@ + optional_double_field(tag, bits),
{
    if bits != 0 && bits != 0x8000_0000_0000_0000 {
        put_fixed64(tag, bits, buf);
    }
}

} // verus!
