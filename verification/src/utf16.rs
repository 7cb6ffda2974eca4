//! Grouping of bytes into 16-bit code units, in either byte order.

use vstd::prelude::*;

verus! {

/// The byte sequence has an odd length, so it cannot be split into 16-bit units.
#[derive(Debug, PartialEq)]
pub struct UnevenByteSequenceError;

/// Order in which the two bytes of a 16-bit unit are stored.
#[derive(Debug, PartialEq, Eq, Clone, Copy)]
pub enum ByteOrder {
    /// Most significant byte first.
    Big,
    /// Least significant byte first.
    Little,
}

/// The unit whose most significant byte is `high` and whose least significant byte is `low`.
pub open spec fn unit_of(high: u8, low: u8) -> u16 {
    (high as int * 256 + low as int) as u16
}

/// Most significant byte of `unit`.
pub open spec fn high_byte(unit: u16) -> u8 {
    (unit as int / 256) as u8
}

/// Least significant byte of `unit`.
pub open spec fn low_byte(unit: u16) -> u8 {
    (unit as int % 256) as u8
}

/// The unit stored as the byte pair `first`, `second` in the given order.
pub open spec fn unit_from_pair(first: u8, second: u8, order: ByteOrder) -> u16 {
    match order {
        ByteOrder::Big => unit_of(first, second),
        ByteOrder::Little => unit_of(second, first),
    }
}

/// The byte that `unit` stores at position `offset` (0 or 1) in the given order.
pub open spec fn byte_of_unit(unit: u16, offset: int, order: ByteOrder) -> u8 {
    if (offset == 0) == (order == ByteOrder::Big) {
        high_byte(unit)
    } else {
        low_byte(unit)
    }
}

/// The units held by consecutive byte pairs of `bytes`. A trailing single byte is ignored.
pub open spec fn pack(bytes: Seq<u8>, order: ByteOrder) -> Seq<u16> {
    Seq::new(bytes.len() / 2, |i: int| unit_from_pair(bytes[2 * i], bytes[2 * i + 1], order))
}

/// The bytes that store `units` one after another in the given order.
pub open spec fn unpack(units: Seq<u16>, order: ByteOrder) -> Seq<u8> {
    Seq::new(2 * units.len(), |i: int| byte_of_unit(units[i / 2], i % 2, order))
}

/// Packing the bytes of a unit sequence recovers the units.
pub proof fn lemma_pack_unpack(units: Seq<u16>, order: ByteOrder)
    ensures
        unpack(units, order).len() == 2 * units.len(),
        pack(unpack(units, order), order) == units,
{
    let bytes = unpack(units, order);
    assert forall|i: int| 0 <= i < units.len() implies pack(bytes, order)[i] == units[i] by {
        assert((2 * i) / 2 == i && (2 * i) % 2 == 0);
        assert((2 * i + 1) / 2 == i && (2 * i + 1) % 2 == 1);
    }
    assert(pack(bytes, order) =~= units);
}

/// Storing the units of an even-length byte sequence recovers the bytes.
pub proof fn lemma_unpack_pack(bytes: Seq<u8>, order: ByteOrder)
    requires
        bytes.len() % 2 == 0,
    ensures
        unpack(pack(bytes, order), order) == bytes,
{
    let units = pack(bytes, order);
    assert forall|i: int| 0 <= i < bytes.len() implies unpack(units, order)[i] == bytes[i] by {
        assert(2 * (i / 2) + i % 2 == i);
    }
    assert(unpack(units, order) =~= bytes);
}

/// The bytes of a concatenation are the concatenation of the bytes.
pub proof fn lemma_unpack_concat(left: Seq<u16>, right: Seq<u16>, order: ByteOrder)
    ensures
        unpack(left + right, order) == unpack(left, order) + unpack(right, order),
{
    assert(unpack(left + right, order) =~= unpack(left, order) + unpack(right, order));
}

/// Joins two bytes into the unit they store in the given order.
fn join_pair(first: u8, second: u8, order: ByteOrder) -> (unit: u16)
    ensures
        unit == unit_from_pair(first, second, order),
{
    match order {
        ByteOrder::Big => (first as u16) * 256 + (second as u16),
        ByteOrder::Little => (second as u16) * 256 + (first as u16),
    }
}

/// Groups `input` into 16-bit units stored in the given order.
fn to_u16(input: &[u8], order: ByteOrder) -> (result: Result<Vec<u16>, UnevenByteSequenceError>)
    ensures
        match result {
            Ok(units) => input@.len() % 2 == 0 && units@ == pack(input@, order),
            Err(_) => input@.len() % 2 != 0,
        },
{
    if input.len() % 2 != 0 {
        return Err(UnevenByteSequenceError);
    }
    let mut units: Vec<u16> = Vec::new();
    let mut i: usize = 0;
    while i < input.len()
        invariant
            input@.len() % 2 == 0,
            i % 2 == 0,
            i <= input@.len(),
            units@ == pack(input@.take(i as int), order),
        decreases input@.len() - i,
    {
        let unit = join_pair(input[i], input[i + 1], order);
        units.push(unit);
        i = i + 2;
        assert(units@ =~= pack(input@.take(i as int), order));
    }
    assert(input@.take(i as int) =~= input@);
    Ok(units)
}

/// Converts big-endian bytes into the 16-bit units they hold.
///
/// Fails exactly when `input` has an odd length; no partial result is produced.
pub fn to_u16_be(input: &[u8]) -> (result: Result<Vec<u16>, UnevenByteSequenceError>)
    ensures
        match result {
            Ok(units) => input@.len() % 2 == 0 && units@ == pack(input@, ByteOrder::Big),
            Err(_) => input@.len() % 2 != 0,
        },
{
    to_u16(input, ByteOrder::Big)
}

/// Converts little-endian bytes into the 16-bit units they hold.
///
/// Fails exactly when `input` has an odd length; no partial result is produced.
pub fn to_u16_le(input: &[u8]) -> (result: Result<Vec<u16>, UnevenByteSequenceError>)
    ensures
        match result {
            Ok(units) => input@.len() % 2 == 0 && units@ == pack(input@, ByteOrder::Little),
            Err(_) => input@.len() % 2 != 0,
        },
{
    to_u16(input, ByteOrder::Little)
}

} // verus!
