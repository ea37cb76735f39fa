//! Little-endian access to byte memory, in which the level's things and
//! command lists are laid out as the game stores them.
use vstd::prelude::*;

verus! {

/// The unsigned 16-bit value stored little-endian at `o`.
pub open spec fn u16_at(m: Seq<u8>, o: int) -> u16 {
    (m[o] as int + 256 * m[o + 1] as int) as u16
}

/// The signed value of a 16-bit word in two's complement.
pub open spec fn signed16(v: u16) -> int {
    if v < 32768 {
        v as int
    } else {
        v as int - 65536
    }
}

/// The signed 16-bit value stored little-endian at `o`.
pub open spec fn i16_at(m: Seq<u8>, o: int) -> int {
    signed16(u16_at(m, o))
}

/// The 16-bit word whose two's-complement value is `v`.
pub open spec fn word_of(v: int) -> u16 {
    (if v >= 0 { v } else { v + 65536 }) as u16
}

/// `m` with the 16-bit word `v` stored little-endian at `o`.
pub open spec fn put_u16(m: Seq<u8>, o: int, v: u16) -> Seq<u8> {
    m.update(o, (v % 256) as u8).update(o + 1, (v / 256) as u8)
}

/// `m` with the byte `v` stored at `o`.
pub open spec fn put_u8(m: Seq<u8>, o: int, v: u8) -> Seq<u8> {
    m.update(o, v)
}

/// Reads the byte at `o`.
pub fn read_u8(m: &Vec<u8>, o: usize) -> (r: u8)
    requires
        o < m@.len(),
    ensures
        r == m@[o as int],
{
    m[o]
}

/// Reads the little-endian 16-bit word at `o`.
pub fn read_u16(m: &Vec<u8>, o: usize) -> (r: u16)
    requires
        o + 2 <= m@.len(),
    ensures
        r == u16_at(m@, o as int),
{
    let len = m.len();
    assert(o + 1 < len);
    m[o] as u16 + 256 * (m[o + 1] as u16)
}

/// Reads the little-endian signed 16-bit word at `o`.
pub fn read_i16(m: &Vec<u8>, o: usize) -> (r: i16)
    requires
        o + 2 <= m@.len(),
    ensures
        r as int == i16_at(m@, o as int),
{
    let u = read_u16(m, o);
    if u < 32768 {
        u as i16
    } else {
        (u as i32 - 65536) as i16
    }
}

/// Stores the byte `v` at `o`.
pub fn write_u8(m: &mut Vec<u8>, o: usize, v: u8)
    requires
        o < old(m)@.len(),
    ensures
        final(m)@ == put_u8(old(m)@, o as int, v),
{
    m.set(o, v);
}

/// Stores the 16-bit word `v` little-endian at `o`.
pub fn write_u16(m: &mut Vec<u8>, o: usize, v: u16)
    requires
        o + 2 <= old(m)@.len(),
    ensures
        final(m)@ == put_u16(old(m)@, o as int, v),
{
    let len = m.len();
    assert(o + 1 < len);
    m.set(o, (v % 256) as u8);
    m.set(o + 1, (v / 256) as u8);
}

/// Stores the signed 16-bit value `v` little-endian at `o`.
pub fn write_i16(m: &mut Vec<u8>, o: usize, v: i16)
    requires
        o + 2 <= old(m)@.len(),
    ensures
        final(m)@ == put_u16(old(m)@, o as int, word_of(v as int)),
{
    let w: u16 = if v >= 0 { v as u16 } else { (v as i32 + 65536) as u16 };
    write_u16(m, o, w);
}

} // verus!
