//! Fixed-width little-endian encode/decode over a byte buffer.
//!
//! Values of 8, 16 and 32 bits are packed and unpacked byte at a time in
//! little-endian order. An out-of-range offset signals a sizing bug in the
//! caller, so every function demands in-bounds access up front.

use vstd::prelude::*;

verus! {

/// Little-endian 16-bit value stored at byte offset `i` of `s`.
pub open spec fn le16_at(s: Seq<u8>, i: int) -> u16
    recommends
        0 <= i,
        i + 2 <= s.len(),
{
    (s[i] + s[i + 1] * 0x100) as u16
}

/// Little-endian 32-bit value stored at byte offset `i` of `s`.
pub open spec fn le32_at(s: Seq<u8>, i: int) -> u32
    recommends
        0 <= i,
        i + 4 <= s.len(),
{
    (s[i] + s[i + 1] * 0x100 + s[i + 2] * 0x10000 + s[i + 3] * 0x1000000) as u32
}

/// `s` with the two little-endian bytes of `v` written at offset `i`.
pub open spec fn enc16_at(s: Seq<u8>, i: int, v: u16) -> Seq<u8>
    recommends
        0 <= i,
        i + 2 <= s.len(),
{
    s.update(i, (v % 0x100) as u8).update(i + 1, (v / 0x100) as u8)
}

/// `s` with the four little-endian bytes of `v` written at offset `i`.
pub open spec fn enc32_at(s: Seq<u8>, i: int, v: u32) -> Seq<u8>
    recommends
        0 <= i,
        i + 4 <= s.len(),
{
    s.update(i, (v % 0x100) as u8).update(i + 1, ((v / 0x100) % 0x100) as u8).update(
        i + 2,
        ((v / 0x10000) % 0x100) as u8,
    ).update(i + 3, ((v / 0x1000000) % 0x100) as u8)
}

/// Reads the byte stored at offset `address`.
pub fn read_le_8(memory: &Vec<u8>, address: u32) -> (r: u8)
    requires
        address < memory@.len(),
    ensures
        r == memory@[address as int],
{
    memory[address as usize]
}

/// Reads the little-endian 16-bit value stored at offset `address`.
pub fn read_le_16(memory: &Vec<u8>, address: u32) -> (r: u16)
    requires
        address + 2 <= memory@.len(),
    ensures
        r == le16_at(memory@, address as int),
{
    let n: usize = memory.len();
    let b0 = memory[address as usize];
    let b1 = memory[address as usize + 1];
    (b0 as u16) + (b1 as u16) * 0x100
}

/// Reads the little-endian 32-bit value stored at offset `address`.
pub fn read_le_32(memory: &Vec<u8>, address: u32) -> (r: u32)
    requires
        address + 4 <= memory@.len(),
    ensures
        r == le32_at(memory@, address as int),
{
    let n: usize = memory.len();
    let b0 = memory[address as usize];
    let b1 = memory[address as usize + 1];
    let b2 = memory[address as usize + 2];
    let b3 = memory[address as usize + 3];
    (b0 as u32) + (b1 as u32) * 0x100 + (b2 as u32) * 0x10000 + (b3 as u32) * 0x1000000
}

/// Writes `value` at offset `address`.
pub fn write_le_8(memory: &mut Vec<u8>, address: u32, value: u8)
    requires
        address < old(memory)@.len(),
    ensures
        final(memory)@ == old(memory)@.update(address as int, value),
        final(memory)@.len() == old(memory)@.len(),
{
    memory.set(address as usize, value);
}

/// Writes the two little-endian bytes of `value` at offset `address`.
pub fn write_le_16(memory: &mut Vec<u8>, address: u32, value: u16)
    requires
        address + 2 <= old(memory)@.len(),
    ensures
        final(memory)@ == enc16_at(old(memory)@, address as int, value),
        final(memory)@.len() == old(memory)@.len(),
{
    let n: usize = memory.len();
    memory.set(address as usize, (value % 0x100) as u8);
    memory.set(address as usize + 1, (value / 0x100) as u8);
}

/// Writes the four little-endian bytes of `value` at offset `address`.
pub fn write_le_32(memory: &mut Vec<u8>, address: u32, value: u32)
    requires
        address + 4 <= old(memory)@.len(),
    ensures
        final(memory)@ == enc32_at(old(memory)@, address as int, value),
        final(memory)@.len() == old(memory)@.len(),
{
    let n: usize = memory.len();
    memory.set(address as usize, (value % 0x100) as u8);
    memory.set(address as usize + 1, ((value / 0x100) % 0x100) as u8);
    memory.set(address as usize + 2, ((value / 0x10000) % 0x100) as u8);
    memory.set(address as usize + 3, ((value / 0x1000000) % 0x100) as u8);
}

/// Law: decoding a byte after encoding it returns the byte written, at
/// every in-bounds offset.
pub proof fn lemma_round_trip_8(s: Seq<u8>, i: int, v: u8)
    requires
        0 <= i < s.len(),
    ensures
        s.update(i, v)[i] == v,
{
}

/// Law: decoding a 16-bit value after encoding it returns the value
/// written, at every in-bounds offset and for every representable value.
pub proof fn lemma_round_trip_16(s: Seq<u8>, i: int, v: u16)
    requires
        0 <= i,
        i + 2 <= s.len(),
    ensures
        le16_at(enc16_at(s, i, v), i) == v,
{
    assert(v % 0x100 + (v / 0x100) * 0x100 == v) by (bit_vector);
}

/// Law: decoding a 32-bit value after encoding it returns the value
/// written, at every in-bounds offset and for every representable value.
pub proof fn lemma_round_trip_32(s: Seq<u8>, i: int, v: u32)
    requires
        0 <= i,
        i + 4 <= s.len(),
    ensures
        le32_at(enc32_at(s, i, v), i) == v,
{
    assert(v % 0x100 + ((v / 0x100) % 0x100) * 0x100 + ((v / 0x10000) % 0x100) * 0x10000 + ((v
        / 0x1000000) % 0x100) * 0x1000000 == v) by (bit_vector);
}

} // verus!
