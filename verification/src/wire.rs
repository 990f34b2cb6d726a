//! Little-endian layouts of the 64-bit integers that travel in payloads and
//! rest in records.

use vstd::prelude::*;

verus! {

/// The eight bytes of `value`, least significant first.
pub open spec fn u64_le(value: u64) -> Seq<u8> {
    seq![
        (value % 0x100) as u8,
        (value / 0x100 % 0x100) as u8,
        (value / 0x1_0000 % 0x100) as u8,
        (value / 0x100_0000 % 0x100) as u8,
        (value / 0x1_0000_0000 % 0x100) as u8,
        (value / 0x100_0000_0000 % 0x100) as u8,
        (value / 0x1_0000_0000_0000 % 0x100) as u8,
        (value / 0x100_0000_0000_0000 % 0x100) as u8,
    ]
}

/// The number that the first eight bytes of `bytes` spell, least significant
/// byte first.
pub open spec fn le_u64(bytes: Seq<u8>) -> u64 {
    (bytes[0] as int + bytes[1] as int * 0x100 + bytes[2] as int * 0x1_0000 + bytes[3] as int
        * 0x100_0000 + bytes[4] as int * 0x1_0000_0000 + bytes[5] as int * 0x100_0000_0000
        + bytes[6] as int * 0x1_0000_0000_0000 + bytes[7] as int * 0x100_0000_0000_0000) as u64
}

/// The bit pattern that stands for `value` in two's complement.
pub open spec fn twos_complement(value: i64) -> u64 {
    if value >= 0 {
        value as u64
    } else {
        (value + 0x1_0000_0000_0000_0000) as u64
    }
}

/// The signed number that the bit pattern `bits` stands for in two's
/// complement.
pub open spec fn from_twos_complement(bits: u64) -> i64 {
    if bits < 0x8000_0000_0000_0000 {
        bits as i64
    } else {
        (bits - 0x1_0000_0000_0000_0000) as i64
    }
}

/// Reading back what `u64_le` laid out gives the number again.
pub proof fn lemma_le_u64_of_u64_le(value: u64)
    ensures
        u64_le(value).len() == 8,
        le_u64(u64_le(value)) == value,
{
    assert(value == (value % 0x100) + (value / 0x100 % 0x100) * 0x100 + (value / 0x1_0000 % 0x100)
        * 0x1_0000 + (value / 0x100_0000 % 0x100) * 0x100_0000 + (value / 0x1_0000_0000 % 0x100)
        * 0x1_0000_0000 + (value / 0x100_0000_0000 % 0x100) * 0x100_0000_0000 + (value
        / 0x1_0000_0000_0000 % 0x100) * 0x1_0000_0000_0000 + (value / 0x100_0000_0000_0000 % 0x100)
        * 0x100_0000_0000_0000) by (bit_vector);
}

/// Laying out what `le_u64` read gives the first eight bytes again.
pub proof fn lemma_u64_le_of_le_u64(bytes: Seq<u8>)
    requires
        bytes.len() >= 8,
    ensures
        u64_le(le_u64(bytes)) == bytes.subrange(0, 8),
{
    let b0 = bytes[0];
    let b1 = bytes[1];
    let b2 = bytes[2];
    let b3 = bytes[3];
    let b4 = bytes[4];
    let b5 = bytes[5];
    let b6 = bytes[6];
    let b7 = bytes[7];
    let value = le_u64(bytes);
    assert(value == b0 as int + b1 as int * 0x100 + b2 as int * 0x1_0000 + b3 as int * 0x100_0000
        + b4 as int * 0x1_0000_0000 + b5 as int * 0x100_0000_0000 + b6 as int
        * 0x1_0000_0000_0000 + b7 as int * 0x100_0000_0000_0000);
    assert(value % 0x100 == b0 && value / 0x100 % 0x100 == b1 && value / 0x1_0000 % 0x100 == b2
        && value / 0x100_0000 % 0x100 == b3 && value / 0x1_0000_0000 % 0x100 == b4 && value
        / 0x100_0000_0000 % 0x100 == b5 && value / 0x1_0000_0000_0000 % 0x100 == b6 && value
        / 0x100_0000_0000_0000 % 0x100 == b7) by (bit_vector)
        requires
            value == b0 as int + b1 as int * 0x100 + b2 as int * 0x1_0000 + b3 as int
                * 0x100_0000 + b4 as int * 0x1_0000_0000 + b5 as int * 0x100_0000_0000 + b6 as int
                * 0x1_0000_0000_0000 + b7 as int * 0x100_0000_0000_0000,
    ;
    assert(u64_le(value) =~= bytes.subrange(0, 8));
}

/// The bit pattern of a signed number stands for that number.
pub proof fn lemma_from_twos_complement_of_twos_complement(value: i64)
    ensures
        from_twos_complement(twos_complement(value)) == value,
{
}

/// The signed number that a bit pattern stands for has that bit pattern.
pub proof fn lemma_twos_complement_of_from_twos_complement(bits: u64)
    ensures
        twos_complement(from_twos_complement(bits)) == bits,
{
}

/// The bit pattern of `value`.
pub fn i64_to_bits(value: i64) -> (bits: u64)
    ensures
        bits == twos_complement(value),
{
    if value >= 0 {
        value as u64
    } else {
        let above_min: i64 = value + i64::MAX + 1;
        above_min as u64 + 0x8000_0000_0000_0000
    }
}

/// The signed number with bit pattern `bits`.
pub fn i64_from_bits(bits: u64) -> (value: i64)
    ensures
        value == from_twos_complement(bits),
{
    if bits < 0x8000_0000_0000_0000 {
        bits as i64
    } else {
        let above_min: i64 = (bits - 0x8000_0000_0000_0000) as i64;
        above_min - i64::MAX - 1
    }
}

/// The eight bytes of `value`, least significant first, on their own.
pub fn u64_le_bytes(value: u64) -> (bytes: Vec<u8>)
    ensures
        bytes@ == u64_le(value),
{
    let mut bytes: Vec<u8> = Vec::new();
    bytes.push((value % 0x100) as u8);
    bytes.push((value / 0x100 % 0x100) as u8);
    bytes.push((value / 0x1_0000 % 0x100) as u8);
    bytes.push((value / 0x100_0000 % 0x100) as u8);
    bytes.push((value / 0x1_0000_0000 % 0x100) as u8);
    bytes.push((value / 0x100_0000_0000 % 0x100) as u8);
    bytes.push((value / 0x1_0000_0000_0000 % 0x100) as u8);
    bytes.push((value / 0x100_0000_0000_0000 % 0x100) as u8);
    assert(bytes@ =~= u64_le(value));
    bytes
}

/// Reads the eight bytes at `at` as a little-endian number.
pub(crate) fn read_u64_le(buffer: &[u8], at: usize) -> (value: u64)
    requires
        at + 8 <= buffer@.len(),
    ensures
        value == le_u64(buffer@.subrange(at as int, at + 8)),
{
    let value = buffer[at] as u64 + buffer[at + 1] as u64 * 0x100 + buffer[at + 2] as u64
        * 0x1_0000 + buffer[at + 3] as u64 * 0x100_0000 + buffer[at + 4] as u64 * 0x1_0000_0000
        + buffer[at + 5] as u64 * 0x100_0000_0000 + buffer[at + 6] as u64 * 0x1_0000_0000_0000
        + buffer[at + 7] as u64 * 0x100_0000_0000_0000;
    value
}

/// Overwrites the eight bytes at `at` with `value`, least significant byte
/// first, and leaves every other byte as it was.
pub(crate) fn write_u64_le(buffer: &mut [u8], at: usize, value: u64)
    requires
        at + 8 <= old(buffer)@.len(),
    ensures
        final(buffer)@ == old(buffer)@.subrange(0, at as int) + u64_le(value) + old(
            buffer,
        )@.subrange(at + 8, old(buffer)@.len() as int),
{
    let length: usize = buffer.len();
    buffer[at] = (value % 0x100) as u8;
    buffer[at + 1] = (value / 0x100 % 0x100) as u8;
    buffer[at + 2] = (value / 0x1_0000 % 0x100) as u8;
    buffer[at + 3] = (value / 0x100_0000 % 0x100) as u8;
    buffer[at + 4] = (value / 0x1_0000_0000 % 0x100) as u8;
    buffer[at + 5] = (value / 0x100_0000_0000 % 0x100) as u8;
    buffer[at + 6] = (value / 0x1_0000_0000_0000 % 0x100) as u8;
    buffer[at + 7] = (value / 0x100_0000_0000_0000 % 0x100) as u8;
    assert(buffer@ =~= old(buffer)@.subrange(0, at as int) + u64_le(value) + old(
        buffer,
    )@.subrange(at + 8, old(buffer)@.len() as int));
}

} // verus!
