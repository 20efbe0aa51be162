//! Addresses and pointer widths.

use vstd::prelude::*;

pub mod endian;

pub use endian::{Endian, FromEndian};

verus! {

/// The largest value a 64-bit address holds, plus one.
pub open spec fn addr_modulus() -> int {
    0x1_0000_0000_0000_0000
}

/// Offsetting an address by some bytes, wrapping around the address space.
pub open spec fn wrap_add(a: u64, b: int) -> u64 {
    ((a as int + b) % addr_modulus()) as u64
}

/// Offsetting an address moves it by exactly the offset, around the 64-bit
/// address space: an offset that stays inside it lands at the sum, and any
/// offset lands where the sum does, up to a whole turn of the space.
pub proof fn lemma_offsets_move_by_their_size(a: u64, b: int)
    ensures
        0 <= a + b < addr_modulus() ==> wrap_add(a, b) == a + b,
        (wrap_add(a, b) - (a + b)) % addr_modulus() == 0,
{
    let m = addr_modulus();
    vstd::arithmetic::div_mod::lemma_fundamental_div_mod(a + b, m);
    vstd::arithmetic::div_mod::lemma_mod_bound(a + b, m);
    vstd::arithmetic::div_mod::lemma_mod_multiples_basic(-((a + b) / m), m);
    if 0 <= a + b < m {
        vstd::arithmetic::div_mod::lemma_small_mod((a + b) as nat, m as nat);
    }
}

/// Pointer size represents the width (in bytes) of memory addresses used
/// in a certain process.
#[derive(Copy, Clone, Debug, PartialEq, Eq, Structural, Hash)]
pub enum PointerSize {
    /// A 16-bit (2 byte wide) pointer size
    Bit16,
    /// A 32-bit (4 byte wide) pointer size
    Bit32,
    /// A 64-bit (8 byte wide) pointer size
    Bit64,
}

impl PointerSize {
    /// How many bytes a pointer of this width takes.
    pub open spec fn width(self) -> u64 {
        match self {
            PointerSize::Bit16 => 2,
            PointerSize::Bit32 => 4,
            PointerSize::Bit64 => 8,
        }
    }

    /// Returns how many bytes a pointer of this width takes.
    pub fn bytes(self) -> (n: u64)
        ensures
            n == self.width(),
    {
        match self {
            PointerSize::Bit16 => 2,
            PointerSize::Bit32 => 4,
            PointerSize::Bit64 => 8,
        }
    }
}

/// A general purpose address.
#[derive(Copy, Clone, Debug, Default, PartialEq, Eq, Structural, Hash, PartialOrd, Ord)]
pub struct Address(pub u64);

/// A 16-bit address that can be read from a process's memory.
#[derive(Copy, Clone, Debug, Default, PartialEq, Eq, Structural, Hash, PartialOrd, Ord)]
pub struct Address16(pub u16);

/// A 32-bit address that can be read from a process's memory.
#[derive(Copy, Clone, Debug, Default, PartialEq, Eq, Structural, Hash, PartialOrd, Ord)]
pub struct Address32(pub u32);

/// A 64-bit address that can be read from a process's memory.
#[derive(Copy, Clone, Debug, Default, PartialEq, Eq, Structural, Hash, PartialOrd, Ord)]
pub struct Address64(pub u64);

impl Address {
    /// The null pointer pointing to address 0.
    pub fn null() -> (a: Address)
        ensures
            a.0 == 0,
    {
        Address(0)
    }

    /// Creates a new address from the given value.
    pub fn new(value: u64) -> (a: Address)
        ensures
            a.0 == value,
    {
        Address(value)
    }

    /// Returns the underlying address as an integer.
    pub fn value(self) -> (v: u64)
        ensures
            v == self.0,
    {
        self.0
    }

    /// Checks whether the address is null.
    pub fn is_null(self) -> (b: bool)
        ensures
            b == (self.0 == 0),
    {
        self.0 == 0
    }

    /// Offsets the address by the given number of bytes, wrapping around.
    pub fn add(self, bytes: u64) -> (a: Address)
        ensures
            a.0 == wrap_add(self.0, bytes as int),
    {
        Address(self.0.wrapping_add(bytes))
    }

    /// Offsets the address by the given signed number of bytes, wrapping
    /// around.
    pub fn add_signed(self, bytes: i64) -> (a: Address)
        ensures
            a.0 == wrap_add(self.0, bytes as int),
    {
        let r = self.0.wrapping_add_signed(bytes);
        proof {
            assert(r == wrap_add(self.0, bytes as int)) by {
                vstd::arithmetic::div_mod::lemma_mod_bound(self.0 as int + bytes as int, addr_modulus());
            }
        }
        Address(r)
    }
}

} // verus!
