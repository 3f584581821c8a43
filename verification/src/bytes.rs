//! Little-endian integers, as bytes and as the numbers they stand for.
use vstd::prelude::*;

verus! {

/// The number that two bytes stand for, low byte first.
pub open spec fn le16(lo: u8, hi: u8) -> int {
    lo + 256 * hi
}

/// The number that four bytes stand for, low byte first.
pub open spec fn le32(b0: u8, b1: u8, b2: u8, b3: u8) -> int {
    b0 + 256 * b1 + 65536 * b2 + 16777216 * b3
}

/// The byte of weight 256^k in a number, for k below 4.
pub open spec fn byte_of(x: int, k: int) -> u8 {
    if k == 0 {
        (x % 256) as u8
    } else if k == 1 {
        (x / 256 % 256) as u8
    } else if k == 2 {
        (x / 65536 % 256) as u8
    } else {
        (x / 16777216 % 256) as u8
    }
}

/// A signed 16-bit number as the unsigned number with the same bits.
pub open spec fn bits16(x: i16) -> int {
    if x < 0 {
        x + 65536
    } else {
        x as int
    }
}

/// A signed 32-bit number as the unsigned number with the same bits.
pub open spec fn bits32(x: i32) -> int {
    if x < 0 {
        x + 4294967296
    } else {
        x as int
    }
}

pub fn u16_to_le(x: u16) -> (r: [u8; 2])
    ensures
        r@ == seq![byte_of(x as int, 0), byte_of(x as int, 1)],
        le16(r@[0], r@[1]) == x,
{
    let r = [(x % 256) as u8, (x / 256) as u8];
    proof {
        assert(r@ =~= seq![byte_of(x as int, 0), byte_of(x as int, 1)]);
    }
    r
}

pub fn u16_from_le(lo: u8, hi: u8) -> (r: u16)
    ensures
        r == le16(lo, hi),
{
    lo as u16 + 256 * (hi as u16)
}

pub fn u32_to_le(x: u32) -> (r: [u8; 4])
    ensures
        r@ == seq![
            byte_of(x as int, 0),
            byte_of(x as int, 1),
            byte_of(x as int, 2),
            byte_of(x as int, 3),
        ],
        le32(r@[0], r@[1], r@[2], r@[3]) == x,
{
    let r = [
        (x % 256) as u8,
        (x / 256 % 256) as u8,
        (x / 65536 % 256) as u8,
        (x / 16777216) as u8,
    ];
    proof {
        assert(r@ =~= seq![
            byte_of(x as int, 0),
            byte_of(x as int, 1),
            byte_of(x as int, 2),
            byte_of(x as int, 3),
        ]);
    }
    r
}

pub fn u32_from_le(b0: u8, b1: u8, b2: u8, b3: u8) -> (r: u32)
    ensures
        r == le32(b0, b1, b2, b3),
{
    b0 as u32 + 256 * (b1 as u32) + 65536 * (b2 as u32) + 16777216 * (b3 as u32)
}

pub fn i16_to_bits(x: i16) -> (r: u16)
    ensures
        r == bits16(x),
{
    if x < 0 {
        (x as i32 + 65536) as u16
    } else {
        x as u16
    }
}

pub fn i16_from_bits(x: u16) -> (r: i16)
    ensures
        bits16(r) == x,
{
    if x >= 32768 {
        (x as i32 - 65536) as i16
    } else {
        x as i16
    }
}

pub fn i32_to_bits(x: i32) -> (r: u32)
    ensures
        r == bits32(x),
{
    if x < 0 {
        (x as i64 + 4294967296) as u32
    } else {
        x as u32
    }
}

pub fn i32_from_bits(x: u32) -> (r: i32)
    ensures
        bits32(r) == x,
{
    if x >= 2147483648 {
        (x as i64 - 4294967296) as i32
    } else {
        x as i32
    }
}

/// Two bytes are the bytes of the number they stand for.
pub proof fn le16_bytes(lo: u8, hi: u8)
    ensures
        byte_of(le16(lo, hi), 0) == lo,
        byte_of(le16(lo, hi), 1) == hi,
{
}

/// A 16-bit number is the number that its two bytes stand for.
pub proof fn le16_of_bytes(x: int)
    requires
        0 <= x < 65536,
    ensures
        le16(byte_of(x, 0), byte_of(x, 1)) == x,
{
}

/// Four bytes are the bytes of the number they stand for.
pub proof fn le32_bytes(b0: u8, b1: u8, b2: u8, b3: u8)
    ensures
        byte_of(le32(b0, b1, b2, b3), 0) == b0,
        byte_of(le32(b0, b1, b2, b3), 1) == b1,
        byte_of(le32(b0, b1, b2, b3), 2) == b2,
        byte_of(le32(b0, b1, b2, b3), 3) == b3,
{
    let x = le32(b0, b1, b2, b3);
    assert(x / 256 == b1 + 256 * b2 + 65536 * b3);
    assert(x / 65536 == b2 + 256 * b3);
    assert(x / 16777216 == b3);
}

/// A 32-bit number is the number that its four bytes stand for.
pub proof fn le32_of_bytes(x: int)
    requires
        0 <= x < 4294967296,
    ensures
        le32(byte_of(x, 0), byte_of(x, 1), byte_of(x, 2), byte_of(x, 3)) == x,
{
}

} // verus!
