//! Support for reading a Game Boy Advance game's memory through the
//! emulator that runs it.

use vstd::prelude::*;
use vstd::string::StringSliceAdditionalSpecFns;

use vstd::arithmetic::div_mod::{
    lemma_add_mod_noop, lemma_fundamental_div_mod, lemma_mod_bound, lemma_mod_equivalence, lemma_small_mod,
};

use crate::primitives::{addr_modulus, wrap_add, Address, PointerSize};
use crate::process::{le_u32, le_u64, Error, Process};

verus! {

/// A Game Boy Advance emulator: the process running it, and where the
/// console's two work RAMs sit in that process's memory.
pub struct Emulator {
    /// The emulator's process.
    pub process: Process,
    /// Where the 256 KiB of on-board work RAM sits.
    pub ewram: Address,
    /// Where the 32 KiB of in-chip work RAM sits.
    pub iwram: Address,
}

/// Where mGBA keeps the pointers to the two work RAMs, from its module's
/// base: four pointers followed, then the pair read.
pub open spec fn mgba_path() -> Seq<u64> {
    seq![0x01D01868, 0x38, 0x10, 0x8]
}

/// The offset of the pair at the end of mGBA's path.
pub const MGBA_PAIR: u64 = 0x28;

/// Where Visual Boy Advance keeps the pair of 32-bit pointers to the two
/// work RAMs.
pub const VBA_PAIR: u64 = 0x0040_0000 + 0x001A_8F50;

/// Follows 64-bit pointers from `addr`, adding each offset and reading the
/// pointer there.
pub open spec fn follow64(p: Process, addr: u64, offsets: Seq<u64>) -> Option<u64>
    decreases offsets.len(),
{
    if offsets.len() == 0 {
        Some(addr)
    } else {
        match p.mem_ptr(wrap_add(addr, offsets[0] as int), PointerSize::Bit64) {
            Some(next) => follow64(p, next, offsets.drop_first()),
            None => None,
        }
    }
}

/// The two work RAMs mGBA's path leads to, when neither is null.
pub open spec fn mgba_ram_of(p: Process) -> Option<(u64, u64)> {
    match p.module_named("mGBA.exe".spec_bytes()) {
        None => None,
        Some(m) => match follow64(p, m.base, mgba_path()) {
            None => None,
            Some(at) => match p.mem(wrap_add(at, MGBA_PAIR as int), 16) {
                None => None,
                Some(b) => {
                    let ewram = le_u64(b.subrange(0, 8));
                    let iwram = le_u64(b.subrange(8, 16));
                    if ewram == 0 || iwram == 0 {
                        None
                    } else {
                        Some((ewram, iwram))
                    }
                },
            },
        },
    }
}

/// The two work RAMs Visual Boy Advance points at, when neither is null.
pub open spec fn vba_ram_of(p: Process) -> Option<(u64, u64)> {
    match p.mem(VBA_PAIR, 8) {
        None => None,
        Some(b) => {
            let ewram = le_u32(b.subrange(0, 4)) as u64;
            let iwram = le_u32(b.subrange(4, 8)) as u64;
            if ewram == 0 || iwram == 0 {
                None
            } else {
                Some((ewram, iwram))
            }
        },
    }
}

/// Where a console address sits in the emulator's memory: the top byte
/// picks the work RAM, 2 for the on-board one and 3 for the in-chip one, and
/// the low 24 bits are the offset into it.
pub open spec fn ram_address_of(ewram: u64, iwram: u64, addr: u64) -> Option<u64> {
    let section = addr / 0x100_0000;
    let offset = addr % 0x100_0000;
    if section == 2 {
        Some(wrap_add(ewram, offset as int))
    } else if section == 3 {
        Some(wrap_add(iwram, offset as int))
    } else {
        None
    }
}

/// The first byte of each work RAM is at the start of its section of the
/// console's address space, 0x0200_0000 for the on-board one and 0x0300_0000
/// for the in-chip one, and no other section maps into them.
pub proof fn lemma_sections_start_at_their_work_ram(ewram: u64, iwram: u64, addr: u64)
    ensures
        ram_address_of(ewram, iwram, 0x0200_0000) == Some(ewram),
        ram_address_of(ewram, iwram, 0x0300_0000) == Some(iwram),
        ram_address_of(ewram, iwram, addr) is Some <==> 0x0200_0000 <= addr < 0x0400_0000,
{
    assert(wrap_add(ewram, 0) == ewram);
    assert(wrap_add(iwram, 0) == iwram);
}

/// Within one 16 MiB section, console addresses map in order and one to
/// one: an address `k` bytes further on lands `k` bytes further on in the
/// work RAM.
pub proof fn lemma_console_addresses_map_in_order(ewram: u64, iwram: u64, addr: u64, k: u64)
    requires
        addr + k <= u64::MAX,
        addr / 0x100_0000 == (addr + k) / 0x100_0000,
    ensures
        ram_address_of(ewram, iwram, addr) matches Some(at) ==> ram_address_of(
            ewram,
            iwram,
            (addr + k) as u64,
        ) == Some(wrap_add(at, k as int)),
        ram_address_of(ewram, iwram, addr) is Some && k > 0 ==> ram_address_of(
            ewram,
            iwram,
            (addr + k) as u64,
        ) != ram_address_of(ewram, iwram, addr),
{
    let b = (addr + k) as u64;
    let o = addr % 0x100_0000;
    assert(b % 0x100_0000 == o + k);
    let m = addr_modulus();
    if addr / 0x100_0000 == 2 || addr / 0x100_0000 == 3 {
        let base = if addr / 0x100_0000 == 2 { ewram } else { iwram };
        lemma_add_mod_noop(base + o, k as int, m);
        lemma_small_mod(k as nat, m as nat);
        assert(wrap_add(wrap_add(base, o as int), k as int) == wrap_add(base, (o + k) as int));
        if k > 0 {
            lemma_small_mod(k as nat, m as nat);
            lemma_add_mod_noop(base + o, k as int, m);
            assert((base + o + k) % m != (base + o) % m) by {
                lemma_fundamental_div_mod(base + o, m);
                lemma_fundamental_div_mod(base + o + k, m);
                lemma_mod_bound(base + o, m);
                lemma_mod_bound(base + o + k, m);
                assert(k < m);
                if (base + o + k) % m == (base + o) % m {
                    lemma_mod_equivalence(base + o + k, base + o, m);
                    assert((base + o + k - (base + o)) % m == 0);
                    assert((k as int) % m == 0);
                }
            }
        }
    }
}

/// Decodes the little-endian `u64` at `at` in a buffer.
fn le64_at(b: &Vec<u8>, at: usize) -> (v: u64)
    requires
        b@.len() == 16,
        at == 0 || at == 8,
    ensures
        v == le_u64(b@.subrange(at as int, at + 8)),
{
    let lo = (b[at] as u64) + (b[at + 1] as u64) * 0x100 + (b[at + 2] as u64) * 0x1_0000
        + (b[at + 3] as u64) * 0x100_0000;
    let hi = (b[at + 4] as u64) + (b[at + 5] as u64) * 0x100 + (b[at + 6] as u64) * 0x1_0000
        + (b[at + 7] as u64) * 0x100_0000;
    proof {
        let s = b@.subrange(at as int, at + 8);
        assert(s[0] == b@[at as int] && s[1] == b@[at + 1] && s[2] == b@[at + 2] && s[3] == b@[at
            + 3] && s[4] == b@[at + 4] && s[5] == b@[at + 5] && s[6] == b@[at + 6] && s[7] == b@[at
            + 7]);
    }
    lo + hi * 0x1_0000_0000
}

/// Decodes the little-endian `u32` at `at` in a buffer.
fn le32_at(b: &Vec<u8>, at: usize) -> (v: u32)
    requires
        b@.len() == 8,
        at == 0 || at == 4,
    ensures
        v == le_u32(b@.subrange(at as int, at + 4)),
{
    proof {
        let s = b@.subrange(at as int, at + 4);
        assert(s[0] == b@[at as int] && s[1] == b@[at + 1] && s[2] == b@[at + 2] && s[3] == b@[at
            + 3]);
    }
    (b[at] as u32) + (b[at + 1] as u32) * 0x100 + (b[at + 2] as u32) * 0x1_0000 + (b[at + 3] as u32)
        * 0x100_0000
}

/// Whether an emulator was recognized in a process: its two work RAMs are
/// the pair the process holds, and it reads through that process.
pub open spec fn recognized(e: Emulator, p: Process, ram: Option<(u64, u64)>) -> bool {
    ram == Some((e.ewram.0, e.iwram.0)) && e.process == p
}

impl Emulator {
    /// Attaches to a Game Boy Advance emulator among the processes running
    /// mGBA and Visual Boy Advance, when either runs: mGBA is tried first,
    /// then Visual Boy Advance.
    pub fn attach(mgba: Option<Process>, vba: Option<Process>) -> (r: Option<Emulator>)
        ensures
            match mgba {
                Some(p) if mgba_ram_of(p) is Some => r matches Some(e) && recognized(e, p, mgba_ram_of(p)),
                _ => match vba {
                    Some(q) => match r {
                        Some(e) => recognized(e, q, vba_ram_of(q)),
                        None => vba_ram_of(q).is_none(),
                    },
                    None => r.is_none(),
                },
            },
    {
        if let Some(p) = mgba {
            if let Some(e) = Self::look_for_mgba(p) {
                return Some(e);
            }
        }
        match vba {
            Some(q) => Self::look_for_vba(q),
            None => None,
        }
    }

    /// Recognizes an mGBA process: its module holds the path to the pair of
    /// pointers to the two work RAMs.
    #[verifier::loop_isolation(false)]
    pub fn look_for_mgba(process: Process) -> (r: Option<Emulator>)
        ensures
            match r {
                Some(e) => mgba_ram_of(process) == Some((e.ewram.0, e.iwram.0)) && e.process
                    == process,
                None => mgba_ram_of(process).is_none(),
            },
    {
        let base = match process.get_module_address("mGBA.exe") {
            Ok(a) => a,
            Err(_) => return None,
        };
        let path: [u64; 4] = [0x01D01868, 0x38, 0x10, 0x8];
        let ghost offsets = mgba_path();
        proof {
            assert(path@ =~= offsets);
            assert(offsets.skip(0) =~= offsets);
        }
        let mut at = base;
        let mut k: usize = 0;
        while k < 4
            invariant
                0 <= k <= 4,
                path@ == offsets,
                offsets == mgba_path(),
                follow64(process, base.0, offsets) == follow64(process, at.0, offsets.skip(k as int)),
            decreases 4 - k,
        {
            proof {
                assert(offsets.skip(k as int)[0] == offsets[k as int]);
                assert(offsets.skip(k as int).drop_first() =~= offsets.skip(k + 1));
            }
            at = match process.read_ptr(at.add(path[k]), PointerSize::Bit64) {
                Some(a) => a,
                None => return None,
            };
            k += 1;
        }
        proof {
            assert(offsets.skip(4) =~= Seq::<u64>::empty());
        }
        let pair = process.read_bytes(at.add(MGBA_PAIR), 16)?;
        let ewram = le64_at(&pair, 0);
        let iwram = le64_at(&pair, 8);
        if ewram == 0 || iwram == 0 {
            return None;
        }
        Some(Emulator { process, ewram: Address(ewram), iwram: Address(iwram) })
    }

    /// Recognizes a Visual Boy Advance process: it keeps the pair of 32-bit
    /// pointers to the two work RAMs at a fixed address.
    pub fn look_for_vba(process: Process) -> (r: Option<Emulator>)
        ensures
            match r {
                Some(e) => vba_ram_of(process) == Some((e.ewram.0, e.iwram.0)) && e.process == process,
                None => vba_ram_of(process).is_none(),
            },
    {
        let pair = process.read_bytes(Address(VBA_PAIR), 8)?;
        let ewram = le32_at(&pair, 0) as u64;
        let iwram = le32_at(&pair, 4) as u64;
        if ewram == 0 || iwram == 0 {
            return None;
        }
        Some(Emulator { process, ewram: Address(ewram), iwram: Address(iwram) })
    }

    /// Where a console address sits in the emulator's memory, when it lies
    /// in one of the two work RAMs.
    pub fn ram_address(&self, addr: Address) -> (r: Result<Address, Error>)
        ensures
            match r {
                Ok(a) => ram_address_of(self.ewram.0, self.iwram.0, addr.0) == Some(a.0),
                Err(_) => ram_address_of(self.ewram.0, self.iwram.0, addr.0).is_none(),
            },
    {
        let address = addr.0;
        let section = address / 0x100_0000;
        let offset = address % 0x100_0000;
        if section == 2 {
            Ok(self.ewram.add(offset))
        } else if section == 3 {
            Ok(self.iwram.add(offset))
        } else {
            Err(Error {})
        }
    }

    /// Reads `n` bytes of the console's memory from `addr` on.
    pub fn read_bytes(&self, addr: Address, n: u64) -> (r: Result<Vec<u8>, Error>)
        ensures
            match r {
                Ok(v) => ram_address_of(self.ewram.0, self.iwram.0, addr.0) matches Some(at)
                    && self.process.mem(at, n as nat) == Some(v@),
                Err(_) => match ram_address_of(self.ewram.0, self.iwram.0, addr.0) {
                    Some(at) => self.process.mem(at, n as nat).is_none(),
                    None => true,
                },
            },
    {
        let at = self.ram_address(addr)?;
        match self.process.read_bytes(at, n) {
            Some(v) => Ok(v),
            None => Err(Error {}),
        }
    }
}

} // verus!
