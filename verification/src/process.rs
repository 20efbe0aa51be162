//! A process as an auto splitter sees it: the memory it has mapped, and the
//! modules it has loaded. Every read answers from the mapped memory; a read
//! that touches unmapped bytes fails.

use vstd::prelude::*;

use vstd::string::StringSliceAdditionalSpecFns;

use crate::primitives::{Address, PointerSize};

verus! {

/// A failed read or lookup.
#[derive(Copy, Clone, Debug, PartialEq, Eq, Structural)]
pub struct Error {}

/// One contiguous stretch of mapped memory.
pub struct MemoryRegion {
    /// The address of the first byte.
    pub base: u64,
    /// The bytes, from the first on.
    pub bytes: Vec<u8>,
}

/// A loaded module: its name, where it starts, and how many bytes it spans.
pub struct ModuleInfo {
    /// The module's file name, as bytes.
    pub name: Vec<u8>,
    /// The address the module is loaded at.
    pub base: u64,
    /// How many bytes the module spans.
    pub size: u64,
}

/// A process whose memory an auto splitter reads.
pub struct Process {
    /// The mapped memory. A read answers from the first region that holds
    /// all of it.
    pub regions: Vec<MemoryRegion>,
    /// The loaded modules, the executable first.
    pub modules: Vec<ModuleInfo>,
}

/// Whether a region holds all `n` bytes from `addr` on.
pub open spec fn region_holds(r: MemoryRegion, addr: u64, n: nat) -> bool {
    r.base <= addr && addr + n <= r.base + r.bytes@.len()
}

/// The `n` bytes from `addr` on, out of the first region holding them all.
pub open spec fn read_in(regions: Seq<MemoryRegion>, addr: u64, n: nat) -> Option<Seq<u8>>
    decreases regions.len(),
{
    if regions.len() == 0 {
        None
    } else if region_holds(regions[0], addr, n) {
        let off = addr - regions[0].base;
        Some(regions[0].bytes@.subrange(off, off + n))
    } else {
        read_in(regions.drop_first(), addr, n)
    }
}

/// What a successful read hands back is exactly as long as asked.
pub proof fn lemma_read_len(regions: Seq<MemoryRegion>, addr: u64, n: nat)
    ensures
        read_in(regions, addr, n) matches Some(b) ==> b.len() == n,
    decreases regions.len(),
{
    if regions.len() > 0 && !region_holds(regions[0], addr, n) {
        lemma_read_len(regions.drop_first(), addr, n);
    }
}

/// Only what one region holds can be read, so a read never spans more
/// bytes than a `usize` counts.
pub proof fn lemma_read_fits(regions: Seq<MemoryRegion>, addr: u64, n: nat)
    ensures
        read_in(regions, addr, n) is Some ==> n <= usize::MAX,
    decreases regions.len(),
{
    if regions.len() > 0 {
        if region_holds(regions[0], addr, n) {
            assert(regions[0].bytes@.len() == regions[0].bytes.len());
        } else {
            lemma_read_fits(regions.drop_first(), addr, n);
        }
    }
}

/// The little-endian value of two bytes.
pub open spec fn le_u16(b: Seq<u8>) -> u16 {
    (b[0] + b[1] * 0x100) as u16
}

/// The little-endian value of four bytes.
pub open spec fn le_u32(b: Seq<u8>) -> u32 {
    (b[0] + b[1] * 0x100 + b[2] * 0x1_0000 + b[3] * 0x100_0000) as u32
}

/// The little-endian value of eight bytes.
pub open spec fn le_u64(b: Seq<u8>) -> u64 {
    (le_u32(b) + le_u32(b.subrange(4, 8)) * 0x1_0000_0000) as u64
}

/// The two's complement reading of a 32-bit value.
pub open spec fn as_i32(v: u32) -> i32 {
    (if v >= 0x8000_0000 { v - 0x1_0000_0000 } else { v as int }) as i32
}

/// Whether a string's bytes are the given name.
pub open spec fn name_is(name: Seq<u8>, text: Seq<u8>) -> bool {
    name == text
}

/// The index of the first module with the given name.
pub open spec fn module_in(modules: Seq<ModuleInfo>, name: Seq<u8>) -> Option<ModuleInfo>
    decreases modules.len(),
{
    if modules.len() == 0 {
        None
    } else if modules[0].name@ == name {
        Some(modules[0])
    } else {
        module_in(modules.drop_first(), name)
    }
}

/// The pointer of the given width that little-endian bytes hold.
pub open spec fn decode_ptr(b: Seq<u8>, ps: PointerSize) -> u64 {
    match ps {
        PointerSize::Bit16 => le_u16(b) as u64,
        PointerSize::Bit32 => le_u32(b) as u64,
        PointerSize::Bit64 => le_u64(b),
    }
}

/// The `count` pointers that bytes hold one after another.
pub open spec fn decode_ptrs(b: Seq<u8>, ps: PointerSize, count: nat) -> Seq<u64> {
    Seq::new(
        count,
        |k: int| decode_ptr(b.subrange(k * ps.width(), (k + 1) * ps.width()), ps),
    )
}

/// Decodes the pointer little-endian bytes hold.
pub fn decode_pointer(b: &[u8], at: usize, ps: PointerSize) -> (r: u64)
    requires
        at + ps.width() <= b@.len(),
    ensures
        r == decode_ptr(b@.subrange(at as int, at + ps.width()), ps),
{
    let ghost s = b@.subrange(at as int, at + ps.width());
    match ps {
        PointerSize::Bit16 => {
            assert(s[0] == b@[at as int] && s[1] == b@[at + 1]);
            (b[at] as u64) + (b[at + 1] as u64) * 0x100
        },
        PointerSize::Bit32 => {
            assert(s[0] == b@[at as int] && s[1] == b@[at + 1] && s[2] == b@[at + 2] && s[3]
                == b@[at + 3]);
            (b[at] as u64) + (b[at + 1] as u64) * 0x100 + (b[at + 2] as u64) * 0x1_0000 + (b[at
                + 3] as u64) * 0x100_0000
        },
        PointerSize::Bit64 => {
            assert(s[0] == b@[at as int] && s[1] == b@[at + 1] && s[2] == b@[at + 2] && s[3]
                == b@[at + 3]);
            assert(s.subrange(4, 8)[0] == b@[at + 4] && s.subrange(4, 8)[1] == b@[at + 5]
                && s.subrange(4, 8)[2] == b@[at + 6] && s.subrange(4, 8)[3] == b@[at + 7]);
            let lo = (b[at] as u64) + (b[at + 1] as u64) * 0x100 + (b[at + 2] as u64) * 0x1_0000
                + (b[at + 3] as u64) * 0x100_0000;
            let hi = (b[at + 4] as u64) + (b[at + 5] as u64) * 0x100 + (b[at + 6] as u64)
                * 0x1_0000 + (b[at + 7] as u64) * 0x100_0000;
            lo + hi * 0x1_0000_0000
        },
    }
}

impl Process {
    /// The `count` pointers of the given width stored one after another from
    /// `addr` on, read in one go.
    pub open spec fn mem_ptrs(self, addr: u64, ps: PointerSize, count: nat) -> Option<Seq<u64>> {
        match self.mem(addr, count * (ps.width() as nat)) {
            Some(b) => Some(decode_ptrs(b, ps, count)),
            None => None,
        }
    }

    /// The `n` bytes from `addr` on, if mapped.
    pub open spec fn mem(self, addr: u64, n: nat) -> Option<Seq<u8>> {
        read_in(self.regions@, addr, n)
    }

    /// The byte at `addr`, if mapped.
    pub open spec fn mem_u8(self, addr: u64) -> Option<u8> {
        match self.mem(addr, 1) {
            Some(b) => Some(b[0]),
            None => None,
        }
    }

    /// The little-endian `u16` at `addr`, if mapped.
    pub open spec fn mem_u16(self, addr: u64) -> Option<u16> {
        match self.mem(addr, 2) {
            Some(b) => Some(le_u16(b)),
            None => None,
        }
    }

    /// The little-endian `u32` at `addr`, if mapped.
    pub open spec fn mem_u32(self, addr: u64) -> Option<u32> {
        match self.mem(addr, 4) {
            Some(b) => Some(le_u32(b)),
            None => None,
        }
    }

    /// The little-endian `i32` at `addr`, if mapped.
    pub open spec fn mem_i32(self, addr: u64) -> Option<i32> {
        match self.mem_u32(addr) {
            Some(v) => Some(as_i32(v)),
            None => None,
        }
    }

    /// The little-endian `u64` at `addr`, if mapped.
    pub open spec fn mem_u64(self, addr: u64) -> Option<u64> {
        match self.mem(addr, 8) {
            Some(b) => Some(le_u64(b)),
            None => None,
        }
    }

    /// The pointer of the given width at `addr`, if mapped.
    pub open spec fn mem_ptr(self, addr: u64, ps: PointerSize) -> Option<u64> {
        match ps {
            PointerSize::Bit16 => match self.mem_u16(addr) {
                Some(v) => Some(v as u64),
                None => None,
            },
            PointerSize::Bit32 => match self.mem_u32(addr) {
                Some(v) => Some(v as u64),
                None => None,
            },
            PointerSize::Bit64 => self.mem_u64(addr),
        }
    }

    /// The pointer of the given width at `addr`, if mapped and not null.
    pub open spec fn mem_nonnull(self, addr: u64, ps: PointerSize) -> Option<u64> {
        match self.mem_ptr(addr, ps) {
            Some(v) => if v != 0 { Some(v) } else { None },
            None => None,
        }
    }

    /// The first loaded module with the given name.
    pub open spec fn module_named(self, name: Seq<u8>) -> Option<ModuleInfo> {
        module_in(self.modules@, name)
    }

    /// Builds a process out of its mapped memory and its loaded modules.
    pub fn new(regions: Vec<MemoryRegion>, modules: Vec<ModuleInfo>) -> (p: Process)
        ensures
            p.regions@ == regions@,
            p.modules@ == modules@,
    {
        Process { regions, modules }
    }

    /// Reads `n` bytes starting at `addr`.
    pub fn read_bytes(&self, addr: Address, n: u64) -> (r: Option<Vec<u8>>)
        ensures
            match r {
                Some(v) => self.mem(addr.0, n as nat) == Some(v@) && v@.len() == n,
                None => self.mem(addr.0, n as nat).is_none(),
            },
    {
        proof {
            lemma_read_len(self.regions@, addr.0, n as nat);
            assert(self.regions@.skip(0) =~= self.regions@);
        }
        let mut i: usize = 0;
        while i < self.regions.len()
            invariant
                0 <= i <= self.regions@.len(),
                read_in(self.regions@, addr.0, n as nat) == read_in(
                    self.regions@.skip(i as int),
                    addr.0,
                    n as nat,
                ),
            decreases self.regions@.len() - i,
        {
            let r = &self.regions[i];
            proof {
                assert(self.regions@.skip(i as int)[0] == self.regions@[i as int]);
                assert(self.regions@.skip(i as int).drop_first() =~= self.regions@.skip(i + 1));
            }
            if r.base <= addr.0 && (addr.0 - r.base) as u128 + n as u128 <= r.bytes.len() as u128 {
                let off = (addr.0 - r.base) as usize;
                let end = off + n as usize;
                let mut out: Vec<u8> = Vec::new();
                let mut j: usize = off;
                while j < end
                    invariant
                        off <= j <= end,
                        end <= r.bytes@.len(),
                        out@ =~= r.bytes@.subrange(off as int, j as int),
                    decreases end - j,
                {
                    out.push(r.bytes[j]);
                    j += 1;
                }
                return Some(out);
            }
            i += 1;
        }
        proof {
            assert(self.regions@.skip(i as int).len() == 0);
        }
        None
    }

    /// Reads the byte at `addr`.
    pub fn read_u8(&self, addr: Address) -> (r: Option<u8>)
        ensures
            r == self.mem_u8(addr.0),
    {
        let b = self.read_bytes(addr, 1)?;
        Some(b[0])
    }

    /// Reads the little-endian `u16` at `addr`.
    pub fn read_u16(&self, addr: Address) -> (r: Option<u16>)
        ensures
            r == self.mem_u16(addr.0),
    {
        let b = self.read_bytes(addr, 2)?;
        Some((b[0] as u16) + (b[1] as u16) * 0x100)
    }

    /// Reads the little-endian `u32` at `addr`.
    pub fn read_u32(&self, addr: Address) -> (r: Option<u32>)
        ensures
            r == self.mem_u32(addr.0),
    {
        let b = self.read_bytes(addr, 4)?;
        Some(
            (b[0] as u32) + (b[1] as u32) * 0x100 + (b[2] as u32) * 0x1_0000 + (b[3] as u32)
                * 0x100_0000,
        )
    }

    /// Reads the little-endian `i32` at `addr`.
    pub fn read_i32(&self, addr: Address) -> (r: Option<i32>)
        ensures
            r == self.mem_i32(addr.0),
    {
        let v = self.read_u32(addr)?;
        if v >= 0x8000_0000 {
            Some((v as i64 - 0x1_0000_0000) as i32)
        } else {
            Some(v as i32)
        }
    }

    /// Reads the little-endian `u64` at `addr`.
    pub fn read_u64(&self, addr: Address) -> (r: Option<u64>)
        ensures
            r == self.mem_u64(addr.0),
    {
        let b = self.read_bytes(addr, 8)?;
        let lo = (b[0] as u64) + (b[1] as u64) * 0x100 + (b[2] as u64) * 0x1_0000 + (b[3] as u64)
            * 0x100_0000;
        let hi = (b[4] as u64) + (b[5] as u64) * 0x100 + (b[6] as u64) * 0x1_0000 + (b[7] as u64)
            * 0x100_0000;
        proof {
            assert(b@.subrange(4, 8)[0] == b@[4]);
            assert(b@.subrange(4, 8)[1] == b@[5]);
            assert(b@.subrange(4, 8)[2] == b@[6]);
            assert(b@.subrange(4, 8)[3] == b@[7]);
        }
        Some(lo + hi * 0x1_0000_0000)
    }

    /// Reads a pointer of the given width at `addr`.
    pub fn read_ptr(&self, addr: Address, ps: PointerSize) -> (r: Option<Address>)
        ensures
            match r {
                Some(a) => self.mem_ptr(addr.0, ps) == Some(a.0),
                None => self.mem_ptr(addr.0, ps).is_none(),
            },
    {
        match ps {
            PointerSize::Bit16 => {
                let v = self.read_u16(addr)?;
                Some(Address(v as u64))
            },
            PointerSize::Bit32 => {
                let v = self.read_u32(addr)?;
                Some(Address(v as u64))
            },
            PointerSize::Bit64 => {
                let v = self.read_u64(addr)?;
                Some(Address(v))
            },
        }
    }

    /// Reads `count` pointers of the given width stored one after another
    /// from `addr` on, in one go.
    pub fn read_ptrs(&self, addr: Address, ps: PointerSize, count: u64) -> (r: Option<Vec<Address>>)
        ensures
            match r {
                Some(v) => self.mem_ptrs(addr.0, ps, count as nat) == Some(
                    v@.map_values(|a: Address| a.0),
                ),
                None => self.mem_ptrs(addr.0, ps, count as nat).is_none(),
            },
    {
        let w = ps.bytes();
        let n = match count.checked_mul(w) {
            Some(n) => n,
            None => {
                proof {
                    lemma_read_fits(self.regions@, addr.0, count as nat * (ps.width() as nat));
                }
                return None;
            },
        };
        let b = self.read_bytes(addr, n)?;
        proof {
            lemma_read_fits(self.regions@, addr.0, n as nat);
        }
        let mut out: Vec<Address> = Vec::new();
        let mut k: u64 = 0;
        while k < count
            invariant
                0 <= k <= count,
                b@.len() <= usize::MAX,
                w == ps.width(),
                b@.len() == count * w,
                out@.map_values(|a: Address| a.0) =~= decode_ptrs(b@, ps, count as nat).take(
                    k as int,
                ),
            decreases count - k,
        {
            assert((k + 1) * w <= count * w) by (nonlinear_arith)
                requires
                    k < count,
            ;
            assert(k * w + w == (k + 1) * w) by (nonlinear_arith);
            let v = decode_pointer(b.as_slice(), (k * w) as usize, ps);
            proof {
                assert(b@.subrange((k * w) as int, (k * w) as int + ps.width()) =~= b@.subrange(
                    k * ps.width(),
                    (k + 1) * ps.width(),
                ));
                assert(decode_ptrs(b@, ps, count as nat)[k as int] == v);
            }
            let ghost before = out@;
            out.push(Address(v));
            proof {
                assert(out@.map_values(|a: Address| a.0) =~= before.map_values(|a: Address| a.0).push(
                    v,
                ));
            }
            k += 1;
        }
        Some(out)
    }

    /// Reads a pointer of the given width at `addr`, refusing a null one.
    pub fn read_nonnull(&self, addr: Address, ps: PointerSize) -> (r: Option<Address>)
        ensures
            match r {
                Some(a) => self.mem_nonnull(addr.0, ps) == Some(a.0),
                None => self.mem_nonnull(addr.0, ps).is_none(),
            },
    {
        let a = self.read_ptr(addr, ps)?;
        if a.0 == 0 {
            None
        } else {
            Some(a)
        }
    }

    /// Reads a pointer of the given width at `addr`.
    pub fn read_pointer(&self, addr: Address, ps: PointerSize) -> (r: Result<Address, Error>)
        ensures
            match r {
                Ok(a) => self.mem_ptr(addr.0, ps) == Some(a.0),
                Err(_) => self.mem_ptr(addr.0, ps).is_none(),
            },
    {
        match self.read_ptr(addr, ps) {
            Some(a) => Ok(a),
            None => Err(Error {}),
        }
    }

    /// Finds the first loaded module with the given name.
    pub fn find_module(&self, name: &str) -> (r: Option<&ModuleInfo>)
        ensures
            match r {
                Some(m) => self.module_named(name.spec_bytes()) == Some(*m),
                None => self.module_named(name.spec_bytes()).is_none(),
            },
    {
        let text = name.as_bytes();
        proof {
            assert(self.modules@.skip(0) =~= self.modules@);
        }
        let mut i: usize = 0;
        while i < self.modules.len()
            invariant
                0 <= i <= self.modules@.len(),
                text@ == name.spec_bytes(),
                module_in(self.modules@, text@) == module_in(self.modules@.skip(i as int), text@),
            decreases self.modules@.len() - i,
        {
            proof {
                assert(self.modules@.skip(i as int)[0] == self.modules@[i as int]);
                assert(self.modules@.skip(i as int).drop_first() =~= self.modules@.skip(i + 1));
            }
            if bytes_eq(self.modules[i].name.as_slice(), text) {
                return Some(&self.modules[i]);
            }
            i += 1;
        }
        proof {
            assert(self.modules@.skip(i as int).len() == 0);
        }
        None
    }

    /// Returns the address the named module is loaded at.
    pub fn get_module_address(&self, name: &str) -> (r: Result<Address, Error>)
        ensures
            match r {
                Ok(a) => self.module_named(name.spec_bytes()) matches Some(m) && a.0 == m.base,
                Err(_) => self.module_named(name.spec_bytes()).is_none(),
            },
    {
        match self.find_module(name) {
            Some(m) => Ok(Address(m.base)),
            None => Err(Error {}),
        }
    }

    /// Returns where the named module starts and how many bytes it spans.
    pub fn get_module_range(&self, name: &str) -> (r: Result<(Address, u64), Error>)
        ensures
            match r {
                Ok(range) => self.module_named(name.spec_bytes()) matches Some(m) && range.0.0
                    == m.base && range.1 == m.size,
                Err(_) => self.module_named(name.spec_bytes()).is_none(),
            },
    {
        match self.find_module(name) {
            Some(m) => Ok((Address(m.base), m.size)),
            None => Err(Error {}),
        }
    }

    /// Returns where the process's executable starts and how many bytes it
    /// spans: the first module loaded.
    pub fn get_main_module_range(&self) -> (r: Result<(Address, u64), Error>)
        ensures
            match r {
                Ok(range) => self.modules@.len() > 0 && range.0.0 == self.modules@[0].base
                    && range.1 == self.modules@[0].size,
                Err(_) => self.modules@.len() == 0,
            },
    {
        if self.modules.len() == 0 {
            Err(Error {})
        } else {
            Ok((Address(self.modules[0].base), self.modules[0].size))
        }
    }
}

/// Compares two byte strings.
pub fn bytes_eq(a: &[u8], b: &[u8]) -> (r: bool)
    ensures
        r == (a@ == b@),
{
    if a.len() != b.len() {
        return false;
    }
    let mut i: usize = 0;
    while i < a.len()
        invariant
            a@.len() == b@.len(),
            0 <= i <= a@.len(),
            forall|j: int| 0 <= j < i ==> a@[j] == b@[j],
        decreases a@.len() - i,
    {
        if a[i] != b[i] {
            return false;
        }
        i += 1;
    }
    proof {
        assert(a@ =~= b@);
    }
    true
}

} // verus!
