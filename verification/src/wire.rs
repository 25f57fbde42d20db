//! Integers on the wire: every integer field of a packet is little-endian,
//! without padding before or after it.
//!
//! The bytes are made and read by `zerocopy`. What is stated of it here is
//! taken on trust; everything else in the codec is proved from it.
use vstd::bytes::spec_u32_from_le_bytes;
use vstd::bytes::spec_u32_to_le_bytes;
use vstd::bytes::spec_u64_from_le_bytes;
use vstd::bytes::spec_u64_to_le_bytes;
use vstd::prelude::*;
use zerocopy::FromBytes;

verus! {

/// The eight bytes of a `u64`, by `zerocopy::little_endian::U64::new` and
/// `to_bytes`: the bytes of the value in little-endian order, the least
/// significant byte first.
#[verifier::external_body]
fn u64_wire_bytes(value: u64) -> (bytes: Vec<u8>)
    ensures
        bytes@ == spec_u64_to_le_bytes(value),
{
    zerocopy::little_endian::U64::new(value).to_bytes().to_vec()
}

/// The four bytes of a `u32`, by `zerocopy::little_endian::U32::new` and
/// `to_bytes`: the bytes of the value in little-endian order, the least
/// significant byte first.
#[verifier::external_body]
fn u32_wire_bytes(value: u32) -> (bytes: Vec<u8>)
    ensures
        bytes@ == spec_u32_to_le_bytes(value),
{
    zerocopy::little_endian::U32::new(value).to_bytes().to_vec()
}

/// Reads a `u64` from exactly eight bytes, by `read_from_bytes` of
/// `zerocopy::little_endian::U64` and `get`. `read_from_bytes` fails when the
/// source does not have the size of the type; otherwise the value is the one
/// whose little-endian bytes the source holds.
#[verifier::external_body]
pub(crate) fn read_u64(source: &[u8]) -> (value: Option<u64>)
    ensures
        source@.len() == 8 ==> value == Some(spec_u64_from_le_bytes(source@)),
        source@.len() != 8 ==> value is None,
{
    match zerocopy::little_endian::U64::read_from_bytes(source) {
        Ok(number) => Some(number.get()),
        Err(_) => None,
    }
}

/// Reads a `u32` from exactly four bytes, by `read_from_bytes` of
/// `zerocopy::little_endian::U32` and `get`. `read_from_bytes` fails when the
/// source does not have the size of the type; otherwise the value is the one
/// whose little-endian bytes the source holds.
#[verifier::external_body]
pub(crate) fn read_u32(source: &[u8]) -> (value: Option<u32>)
    ensures
        source@.len() == 4 ==> value == Some(spec_u32_from_le_bytes(source@)),
        source@.len() != 4 ==> value is None,
{
    match zerocopy::little_endian::U32::read_from_bytes(source) {
        Ok(number) => Some(number.get()),
        Err(_) => None,
    }
}

/// Appends the eight bytes of a `u64` to a buffer.
pub(crate) fn put_u64(buffer: &mut Vec<u8>, value: u64)
    ensures
        final(buffer)@ == old(buffer)@ + spec_u64_to_le_bytes(value),
{
    let mut bytes = u64_wire_bytes(value);
    buffer.append(&mut bytes);
}

/// Appends the four bytes of a `u32` to a buffer.
pub(crate) fn put_u32(buffer: &mut Vec<u8>, value: u32)
    ensures
        final(buffer)@ == old(buffer)@ + spec_u32_to_le_bytes(value),
{
    let mut bytes = u32_wire_bytes(value);
    buffer.append(&mut bytes);
}

/// Reads the `u64` that stands at `offset` in a longer source.
pub(crate) fn read_u64_at(source: &[u8], offset: usize) -> (value: u64)
    requires
        offset + 8 <= source@.len(),
    ensures
        value == spec_u64_from_le_bytes(source@.subrange(offset as int, offset + 8)),
{
    let end = source.len();
    assert(offset + 8 <= end);
    let field = vstd::slice::slice_subrange(source, offset, offset + 8);
    read_u64(field).unwrap()
}

/// Reads the `u32` that stands at `offset` in a longer source.
pub(crate) fn read_u32_at(source: &[u8], offset: usize) -> (value: u32)
    requires
        offset + 4 <= source@.len(),
    ensures
        value == spec_u32_from_le_bytes(source@.subrange(offset as int, offset + 4)),
{
    let end = source.len();
    assert(offset + 4 <= end);
    let field = vstd::slice::slice_subrange(source, offset, offset + 4);
    read_u32(field).unwrap()
}

} // verus!
