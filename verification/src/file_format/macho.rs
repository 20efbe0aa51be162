//! Mach-O headers: the word size a module was built for, the symbols its
//! symbol table names, and the UUID it was linked with.

use vstd::prelude::*;

use crate::primitives::{wrap_add, Address, PointerSize};
use crate::process::Process;
use crate::string::{cstr_is, read_cstr_is};

verus! {

/// The magic of a 32-bit Mach-O header.
pub const MH_MAGIC: u32 = 0xFEED_FACE;

/// The magic of a 64-bit Mach-O header.
pub const MH_MAGIC_64: u32 = 0xFEED_FACF;

/// The pointer size a Mach-O module was built for, by its header's magic.
pub open spec fn macho_pointer_size(p: Process, base: u64) -> Option<PointerSize> {
    match p.mem_u32(base) {
        Some(magic) => if magic == MH_MAGIC_64 {
            Some(PointerSize::Bit64)
        } else if magic == MH_MAGIC {
            Some(PointerSize::Bit32)
        } else {
            None
        },
        None => None,
    }
}

/// Reads the pointer size the Mach-O module at `module` was built for.
pub fn pointer_size(process: &Process, module: Address) -> (r: Option<PointerSize>)
    ensures
        r == macho_pointer_size(*process, module.0),
{
    let magic = process.read_u32(module)?;
    if magic == MH_MAGIC_64 {
        Some(PointerSize::Bit64)
    } else if magic == MH_MAGIC {
        Some(PointerSize::Bit32)
    } else {
        None
    }
}


/// The load command of a 64-bit segment.
pub const LC_SEGMENT_64: u32 = 0x19;

/// The load command of the symbol table.
pub const LC_SYMTAB: u32 = 0x2;

/// The load command of the UUID.
pub const LC_UUID: u32 = 0x1B;

/// The size of one 64-bit symbol.
pub const NLIST_SIZE: u64 = 16;

/// `a - b`, wrapping around.
pub open spec fn wrap_sub(a: u64, b: u64) -> u64 {
    if a >= b {
        (a - b) as u64
    } else {
        (a - b + 0x1_0000_0000_0000_0000) as u64
    }
}

/// `a - b`, wrapping around.
fn wrapping_sub(a: u64, b: u64) -> (r: u64)
    ensures
        r == wrap_sub(a, b),
{
    if a >= b {
        a - b
    } else {
        u64::MAX - (b - a) + 1
    }
}

/// The sixteen bytes a segment name of `text` fills, padded with nuls.
pub open spec fn segment_name(text: Seq<u8>) -> Seq<u8> {
    text + Seq::new((16 - text.len()) as nat, |i: int| 0u8)
}

/// `__TEXT`.
pub open spec fn text_name() -> Seq<u8> {
    segment_name(seq![0x5Fu8, 0x5F, 0x54, 0x45, 0x58, 0x54])
}

/// `__LINKEDIT`.
pub open spec fn linkedit_name() -> Seq<u8> {
    segment_name(seq![0x5Fu8, 0x5F, 0x4C, 0x49, 0x4E, 0x4B, 0x45, 0x44, 0x49, 0x54])
}

/// Whether the load command at `at` is the one sought: of the given kind,
/// and, when a segment name is given, a segment of that name.
pub open spec fn is_command(p: Process, at: u64, kind: u32, segment: Option<Seq<u8>>) -> bool {
    p.mem_u32(at) == Some(kind) && match segment {
        Some(name) => p.mem(wrap_add(at, 8), 16) == Some(name),
        None => true,
    }
}

/// The first load command sought, among commands `i` up to `n`, the `i`th
/// sitting at `at`. A command of size zero ends the walk.
pub open spec fn command_from(p: Process, at: u64, i: int, n: int, kind: u32, segment: Option<Seq<u8>>) -> Option<u64>
    decreases n - i,
{
    if i >= n {
        None
    } else if is_command(p, at, kind, segment) {
        Some(at)
    } else {
        match p.mem_u32(wrap_add(at, 4)) {
            Some(size) => if size == 0 {
                None
            } else {
                command_from(p, wrap_add(at, size as int), i + 1, n, kind, segment)
            },
            None => None,
        }
    }
}

/// The first load command sought in the 64-bit module at `base`.
pub open spec fn command(p: Process, base: u64, kind: u32, segment: Option<Seq<u8>>) -> Option<u64> {
    match p.mem_u32(wrap_add(base, 0x10)) {
        Some(n) => command_from(p, wrap_add(base, 0x20), 0, n as int, kind, segment),
        None => None,
    }
}

/// The value of the first symbol, among symbols `i` up to `n` of the table
/// at `symtab`, called `name`.
pub open spec fn nlist_from(p: Process, symtab: u64, strtab: u64, i: int, n: int, name: Seq<u8>) -> Option<u64>
    decreases n - i,
{
    if i >= n {
        None
    } else {
        let sym = wrap_add(symtab, NLIST_SIZE * i);
        match p.mem_u32(sym) {
            None => None,
            Some(strx) => if cstr_is(p, wrap_add(strtab, strx as int), name) {
                p.mem_u64(wrap_add(sym, 8))
            } else {
                nlist_from(p, symtab, strtab, i + 1, n, name)
            },
        }
    }
}

/// The address the 64-bit module at `base` names `name` in its symbol
/// table. The module sits where `__TEXT` was linked to plus a slide, and the
/// symbol table lies in `__LINKEDIT`, slid alike.
pub open spec fn symbol_named(p: Process, base: u64, name: Seq<u8>) -> Option<u64> {
    match (
        command(p, base, LC_SYMTAB, None),
        command(p, base, LC_SEGMENT_64, Some(text_name())),
        command(p, base, LC_SEGMENT_64, Some(linkedit_name())),
    ) {
        (Some(symtab), Some(text), Some(linkedit)) => match (
            p.mem_u32(wrap_add(symtab, 8)),
            p.mem_u32(wrap_add(symtab, 12)),
            p.mem_u32(wrap_add(symtab, 16)),
            p.mem_u64(wrap_add(text, 0x18)),
            p.mem_u64(wrap_add(linkedit, 0x18)),
            p.mem_u64(wrap_add(linkedit, 0x28)),
        ) {
            (Some(symoff), Some(nsyms), Some(stroff), Some(text_vmaddr), Some(le_vmaddr), Some(le_fileoff)) => {
                let linkedit_at = wrap_add(base, wrap_sub(wrap_sub(le_vmaddr, text_vmaddr), le_fileoff) as int);
                match nlist_from(
                    p,
                    wrap_add(linkedit_at, symoff as int),
                    wrap_add(linkedit_at, stroff as int),
                    0,
                    nsyms as int,
                    name,
                ) {
                    Some(value) => Some(wrap_add(base, wrap_sub(value, text_vmaddr) as int)),
                    None => None,
                }
            },
            _ => None,
        },
        _ => None,
    }
}

/// The UUID the 64-bit module at `base` was linked with.
pub open spec fn uuid(p: Process, base: u64) -> Option<Seq<u8>> {
    match command(p, base, LC_UUID, None) {
        Some(at) => p.mem(wrap_add(at, 8), 16),
        None => None,
    }
}

fn read_is_command(process: &Process, at: Address, kind: u32, segment: &Option<Vec<u8>>) -> (r: bool)
    ensures
        r == is_command(*process, at.0, kind, match segment { Some(v) => Some(v@), None => None }),
{
    match process.read_u32(at) {
        Some(k) => if k != kind {
            false
        } else {
            match segment {
                Some(name) => match process.read_bytes(at.add(8), 16) {
                    Some(b) => crate::process::bytes_eq(b.as_slice(), name.as_slice()),
                    None => false,
                },
                None => true,
            }
        },
        None => false,
    }
}

fn find_command(process: &Process, module: Address, kind: u32, segment: &Option<Vec<u8>>) -> (r: Option<Address>)
    ensures
        match r {
            Some(a) => command(*process, module.0, kind, match segment { Some(v) => Some(v@), None => None }) == Some(a.0),
            None => command(*process, module.0, kind, match segment { Some(v) => Some(v@), None => None }).is_none(),
        },
{
    let ghost seg = match segment { Some(v) => Some(v@), None => None };
    let n = process.read_u32(module.add(0x10))?;
    let mut at = module.add(0x20);
    let mut i: u32 = 0;
    while i < n
        invariant
            i <= n,
            seg == match segment { Some(v) => Some(v@), None => None },
            command(*process, module.0, kind, seg) == command_from(*process, at.0, i as int, n as int, kind, seg),
        decreases n - i,
    {
        if read_is_command(process, at, kind, segment) {
            return Some(at);
        }
        let size = process.read_u32(at.add(4))?;
        if size == 0 {
            return None;
        }
        at = at.add(size as u64);
        i += 1;
    }
    None
}

/// Finds the address the 64-bit module at `module` names `name` in its
/// symbol table, going through the table in order.
pub fn find_symbol(process: &Process, module: Address, name: &[u8]) -> (r: Option<Address>)
    ensures
        match r {
            Some(a) => symbol_named(*process, module.0, name@) == Some(a.0),
            None => symbol_named(*process, module.0, name@).is_none(),
        },
{
    let text = vec![0x5Fu8, 0x5F, 0x54, 0x45, 0x58, 0x54, 0, 0, 0, 0, 0, 0, 0, 0, 0, 0];
    let linkedit = vec![0x5Fu8, 0x5F, 0x4C, 0x49, 0x4E, 0x4B, 0x45, 0x44, 0x49, 0x54, 0, 0, 0, 0, 0, 0];
    assert(text@ =~= text_name());
    assert(linkedit@ =~= linkedit_name());
    let symtab = find_command(process, module, LC_SYMTAB, &None)?;
    let text = find_command(process, module, LC_SEGMENT_64, &Some(text))?;
    let linkedit = find_command(process, module, LC_SEGMENT_64, &Some(linkedit))?;
    let symoff = process.read_u32(symtab.add(8))?;
    let nsyms = process.read_u32(symtab.add(12))?;
    let stroff = process.read_u32(symtab.add(16))?;
    let text_vmaddr = process.read_u64(text.add(0x18))?;
    let le_vmaddr = process.read_u64(linkedit.add(0x18))?;
    let le_fileoff = process.read_u64(linkedit.add(0x28))?;
    let linkedit_at = module.add(wrapping_sub(wrapping_sub(le_vmaddr, text_vmaddr), le_fileoff));
    let syms = linkedit_at.add(symoff as u64);
    let strs = linkedit_at.add(stroff as u64);
    assert(symbol_named(*process, module.0, name@) == match nlist_from(*process, syms.0, strs.0, 0, nsyms as int, name@) {
        Some(v) => Some(wrap_add(module.0, wrap_sub(v, text_vmaddr) as int)),
        None => None,
    });
    let mut i: u32 = 0;
    while i < nsyms
        invariant
            i <= nsyms,
            symbol_named(*process, module.0, name@) == match nlist_from(*process, syms.0, strs.0, 0, nsyms as int, name@) {
                Some(v) => Some(wrap_add(module.0, wrap_sub(v, text_vmaddr) as int)),
                None => None,
            },
            nlist_from(*process, syms.0, strs.0, 0, nsyms as int, name@) == nlist_from(
                *process,
                syms.0,
                strs.0,
                i as int,
                nsyms as int,
                name@,
            ),
        decreases nsyms - i,
    {
        let sym = syms.add(NLIST_SIZE * i as u64);
        let strx = process.read_u32(sym)?;
        if read_cstr_is(process, strs.add(strx as u64), name) {
            let value = process.read_u64(sym.add(8))?;
            return Some(module.add(wrapping_sub(value, text_vmaddr)));
        }
        i += 1;
    }
    None
}

/// Reads the UUID the 64-bit module at `module` was linked with.
pub fn read_uuid(process: &Process, module: Address) -> (r: Option<Vec<u8>>)
    ensures
        match r {
            Some(v) => uuid(*process, module.0) == Some(v@),
            None => uuid(*process, module.0).is_none(),
        },
{
    let at = find_command(process, module, LC_UUID, &None)?;
    process.read_bytes(at.add(8), 16)
}

} // verus!
