//! Reading values stored in either byte order.

use vstd::prelude::*;

use super::{Address16, Address32, Address64};

verus! {

/// The endianness of a value.
#[derive(Copy, Clone, Debug, PartialEq, Eq, Structural, Hash)]
pub enum Endian {
    /// Big endian.
    Big,
    /// Little endian.
    Little,
}

/// The bytes of a 16-bit value in reverse order.
pub open spec fn swap16(x: u16) -> u16 {
    ((x % 0x100) * 0x100 + x / 0x100) as u16
}

/// The bytes of a 32-bit value in reverse order.
pub open spec fn swap32(x: u32) -> u32 {
    ((x % 0x100) * 0x100_0000 + ((x / 0x100) % 0x100) * 0x1_0000 + ((x / 0x1_0000) % 0x100) * 0x100
        + x / 0x100_0000) as u32
}

/// The bytes of a 64-bit value in reverse order: the reversed halves,
/// swapped.
pub open spec fn swap64(x: u64) -> u64 {
    (swap32((x % 0x1_0000_0000) as u32) as u64 * 0x1_0000_0000 + swap32((x / 0x1_0000_0000) as u32)
        as u64) as u64
}

/// A value stored in memory in a given byte order, read on the
/// little-endian hosts auto splitters run on: a little-endian value reads as
/// it is, a big-endian one with its bytes reversed.
pub trait FromEndian: Sized {
    /// The value stored big-endian.
    spec fn be_value(&self) -> Self;

    /// The value stored little-endian.
    spec fn le_value(&self) -> Self;

    /// Converts the value from big endian.
    fn from_be(&self) -> (r: Self)
        ensures
            r == self.be_value(),
    ;

    /// Converts the value from little endian.
    fn from_le(&self) -> (r: Self)
        ensures
            r == self.le_value(),
    ;

    /// Converts the value from the given endian.
    fn from_endian(&self, endian: Endian) -> (r: Self)
        ensures
            r == match endian {
                Endian::Big => self.be_value(),
                Endian::Little => self.le_value(),
            },
    {
        match endian {
            Endian::Big => self.from_be(),
            Endian::Little => self.from_le(),
        }
    }
}

impl FromEndian for u8 {
    open spec fn be_value(&self) -> u8 {
        *self
    }

    open spec fn le_value(&self) -> u8 {
        *self
    }

    fn from_be(&self) -> (r: u8) {
        *self
    }

    fn from_le(&self) -> (r: u8) {
        *self
    }
}

impl FromEndian for u16 {
    open spec fn be_value(&self) -> u16 {
        swap16(*self)
    }

    open spec fn le_value(&self) -> u16 {
        *self
    }

    fn from_be(&self) -> (r: u16) {
        let x = *self;
        let r = (x << 8u16) | (x >> 8u16);
        assert(r == swap16(x)) by (bit_vector)
            requires
                r == (x << 8u16) | (x >> 8u16),
        ;
        r
    }

    fn from_le(&self) -> (r: u16) {
        *self
    }
}

impl FromEndian for u32 {
    open spec fn be_value(&self) -> u32 {
        swap32(*self)
    }

    open spec fn le_value(&self) -> u32 {
        *self
    }

    fn from_be(&self) -> (r: u32) {
        let x = *self;
        let r = ((x & 0xFFu32) << 24u32) | ((x & 0xFF00u32) << 8u32) | ((x >> 8u32) & 0xFF00u32) | (x
            >> 24u32);
        assert(r == swap32(x)) by (bit_vector)
            requires
                r == ((x & 0xFFu32) << 24u32) | ((x & 0xFF00u32) << 8u32) | ((x >> 8u32) & 0xFF00u32)
                    | (x >> 24u32),
        ;
        r
    }

    fn from_le(&self) -> (r: u32) {
        *self
    }
}

impl FromEndian for u64 {
    open spec fn be_value(&self) -> u64 {
        swap64(*self)
    }

    open spec fn le_value(&self) -> u64 {
        *self
    }

    fn from_be(&self) -> (r: u64) {
        let x = *self;
        let lo = (x & 0xFFFF_FFFFu64) as u32;
        let hi = (x >> 32u64) as u32;
        assert(lo == (x % 0x1_0000_0000) as u32 && hi == (x / 0x1_0000_0000) as u32) by (bit_vector)
            requires
                lo == (x & 0xFFFF_FFFFu64) as u32,
                hi == (x >> 32u64) as u32,
        ;
        let swapped_lo = lo.from_be() as u64;
        let swapped_hi = hi.from_be() as u64;
        swapped_lo * 0x1_0000_0000 + swapped_hi
    }

    fn from_le(&self) -> (r: u64) {
        *self
    }
}

impl FromEndian for i8 {
    open spec fn be_value(&self) -> i8 {
        *self
    }

    open spec fn le_value(&self) -> i8 {
        *self
    }

    fn from_be(&self) -> (r: i8) {
        *self
    }

    fn from_le(&self) -> (r: i8) {
        *self
    }
}

impl FromEndian for i16 {
    open spec fn be_value(&self) -> i16 {
        swap16(*self as u16) as i16
    }

    open spec fn le_value(&self) -> i16 {
        *self
    }

    fn from_be(&self) -> (r: i16) {
        (*self as u16).from_be() as i16
    }

    fn from_le(&self) -> (r: i16) {
        *self
    }
}

impl FromEndian for i32 {
    open spec fn be_value(&self) -> i32 {
        swap32(*self as u32) as i32
    }

    open spec fn le_value(&self) -> i32 {
        *self
    }

    fn from_be(&self) -> (r: i32) {
        (*self as u32).from_be() as i32
    }

    fn from_le(&self) -> (r: i32) {
        *self
    }
}

impl FromEndian for i64 {
    open spec fn be_value(&self) -> i64 {
        swap64(*self as u64) as i64
    }

    open spec fn le_value(&self) -> i64 {
        *self
    }

    fn from_be(&self) -> (r: i64) {
        (*self as u64).from_be() as i64
    }

    fn from_le(&self) -> (r: i64) {
        *self
    }
}

impl FromEndian for bool {
    open spec fn be_value(&self) -> bool {
        *self
    }

    open spec fn le_value(&self) -> bool {
        *self
    }

    fn from_be(&self) -> (r: bool) {
        *self
    }

    fn from_le(&self) -> (r: bool) {
        *self
    }
}

impl FromEndian for Address16 {
    open spec fn be_value(&self) -> Address16 {
        Address16(swap16(self.0))
    }

    open spec fn le_value(&self) -> Address16 {
        *self
    }

    fn from_be(&self) -> (r: Address16) {
        Address16(self.0.from_be())
    }

    fn from_le(&self) -> (r: Address16) {
        *self
    }
}

impl FromEndian for Address32 {
    open spec fn be_value(&self) -> Address32 {
        Address32(swap32(self.0))
    }

    open spec fn le_value(&self) -> Address32 {
        *self
    }

    fn from_be(&self) -> (r: Address32) {
        Address32(self.0.from_be())
    }

    fn from_le(&self) -> (r: Address32) {
        *self
    }
}

impl FromEndian for Address64 {
    open spec fn be_value(&self) -> Address64 {
        Address64(swap64(self.0))
    }

    open spec fn le_value(&self) -> Address64 {
        *self
    }

    fn from_be(&self) -> (r: Address64) {
        Address64(self.0.from_be())
    }

    fn from_le(&self) -> (r: Address64) {
        *self
    }
}


/// Converting from big endian twice gives the value back: reversing the
/// bytes of a value is its own inverse, at every width.
pub proof fn lemma_big_endian_twice(x16: u16, x32: u32, x64: u64)
    ensures
        x16.be_value().be_value() == x16,
        x32.be_value().be_value() == x32,
        x64.be_value().be_value() == x64,
{
    assert(swap16(swap16(x16)) == x16) by (bit_vector);
    assert(swap32(swap32(x32)) == x32) by (bit_vector);
    let lo = (x64 % 0x1_0000_0000) as u32;
    let hi = (x64 / 0x1_0000_0000) as u32;
    assert(swap32(swap32(lo)) == lo) by (bit_vector);
    assert(swap32(swap32(hi)) == hi) by (bit_vector);
    let y = swap64(x64);
    assert(y == (swap32(lo) as u64 * 0x1_0000_0000 + swap32(hi) as u64) as u64);
    assert((y % 0x1_0000_0000) as u32 == swap32(hi) && (y / 0x1_0000_0000) as u32 == swap32(lo)) by (bit_vector)
        requires
            y == (swap32(lo) as u64 * 0x1_0000_0000 + swap32(hi) as u64) as u64,
    ;
    assert(swap64(y) == x64) by (bit_vector)
        requires
            swap64(y) == (swap32(swap32(hi)) as u64 * 0x1_0000_0000 + swap32(swap32(lo)) as u64) as u64,
            swap32(swap32(hi)) == hi,
            swap32(swap32(lo)) == lo,
            lo == (x64 % 0x1_0000_0000) as u32,
            hi == (x64 / 0x1_0000_0000) as u32,
    ;
}

/// Converting from little endian leaves a value as it is on the
/// little-endian hosts auto splitters run on, at every width.
pub proof fn lemma_little_endian_is_as_read(x8: u8, x16: u16, x32: u32, x64: u64)
    ensures
        x8.le_value() == x8,
        x16.le_value() == x16,
        x32.le_value() == x32,
        x64.le_value() == x64,
{
}

/// Byte `k` of a 16-bit value, counting from the least significant.
pub open spec fn byte16(x: u16, k: u16) -> u16 {
    (x >> (8 * k) as u16) & 0xff
}

/// Byte `k` of a 32-bit value, counting from the least significant.
pub open spec fn byte32(x: u32, k: u32) -> u32 {
    (x >> (8 * k) as u32) & 0xff
}

/// Byte `k` of a 64-bit value, counting from the least significant.
pub open spec fn byte64(x: u64, k: u64) -> u64 {
    (x >> (8 * k) as u64) & 0xff
}

/// Converting an unsigned value from big endian reverses its bytes: byte
/// `k` of the result is byte `n - 1 - k` of the value, for a value of `n`
/// bytes.
pub proof fn lemma_big_endian_reverses_the_bytes(x16: u16, x32: u32, x64: u64, k: u64)
    ensures
        k < 2 ==> byte16(x16.be_value(), k as u16) == byte16(x16, (1 - k) as u16),
        k < 4 ==> byte32(x32.be_value(), k as u32) == byte32(x32, (3 - k) as u32),
        k < 8 ==> byte64(x64.be_value(), k) == byte64(x64, (7 - k) as u64),
{
    if k < 2 {
        let j = k as u16;
        assert(byte16(swap16(x16), j) == byte16(x16, (1 - j) as u16)) by (bit_vector)
            requires
                j < 2,
        ;
    }
    if k < 4 {
        let j = k as u32;
        assert(byte32(swap32(x32), j) == byte32(x32, (3 - j) as u32)) by (bit_vector)
            requires
                j < 4,
        ;
    }
    if k < 8 {
        assert(byte64(swap64(x64), k) == byte64(x64, (7 - k) as u64)) by (bit_vector)
            requires
                k < 8,
        ;
    }
}

/// Converting a signed value from big endian reverses the bytes of its
/// two's complement bits: it agrees, bit for bit, with the unsigned
/// conversion of the same bits.
pub proof fn lemma_signed_big_endian_is_the_unsigned_one(x16: i16, x32: i32, x64: i64)
    ensures
        x16.be_value() as u16 == (x16 as u16).be_value(),
        x32.be_value() as u32 == (x32 as u32).be_value(),
        x64.be_value() as u64 == (x64 as u64).be_value(),
{
    let y16 = swap16(x16 as u16);
    let y32 = swap32(x32 as u32);
    let y64 = swap64(x64 as u64);
    assert((y16 as i16) as u16 == y16) by (bit_vector);
    assert((y32 as i32) as u32 == y32) by (bit_vector);
    assert((y64 as i64) as u64 == y64) by (bit_vector);
}

/// Converting an address from big endian reverses the bytes of its value,
/// as for the unsigned integer of its width.
pub proof fn lemma_addresses_convert_as_their_values(a16: Address16, a32: Address32, a64: Address64)
    ensures
        a16.be_value().0 == a16.0.be_value(),
        a32.be_value().0 == a32.0.be_value(),
        a64.be_value().0 == a64.0.be_value(),
{
}

/// A value of a single byte reads the same in either byte order, and a
/// little-endian value of any width reads as it is stored.
pub proof fn lemma_single_bytes_and_little_endian_read_as_stored(
    b: bool,
    x8: i8,
    y8: u8,
    x16: i16,
    x32: i32,
    x64: i64,
    a16: Address16,
    a32: Address32,
    a64: Address64,
)
    ensures
        b.be_value() == b && b.le_value() == b,
        x8.be_value() == x8 && x8.le_value() == x8,
        y8.be_value() == y8,
        x16.le_value() == x16,
        x32.le_value() == x32,
        x64.le_value() == x64,
        a16.le_value() == a16,
        a32.le_value() == a32,
        a64.le_value() == a64,
{
}

} // verus!
