//! Executable and Linkable Format headers: the word size a module was built
//! for, the symbols its dynamic section exports, and the build ID its notes
//! carry.

use vstd::prelude::*;

use crate::primitives::{wrap_add, Address, PointerSize};
use crate::process::Process;
use crate::string::{cstr_is, read_cstr_is};

verus! {

/// `\x7FELF`, the identification's magic, read little-endian.
pub const ELF_MAGIC: u32 = 0x464C_457F;

/// The pointer size an ELF module was built for, by the class byte of its
/// identification: 1 for 32-bit objects, 2 for 64-bit ones.
pub open spec fn elf_pointer_size(p: Process, base: u64) -> Option<PointerSize> {
    match (p.mem_u32(base), p.mem_u8(wrap_add(base, 4))) {
        (Some(magic), Some(class)) => if magic != ELF_MAGIC {
            None
        } else if class == 1 {
            Some(PointerSize::Bit32)
        } else if class == 2 {
            Some(PointerSize::Bit64)
        } else {
            None
        },
        _ => None,
    }
}

/// Reads the pointer size the ELF module at `module` was built for.
pub fn pointer_size(process: &Process, module: Address) -> (r: Option<PointerSize>)
    ensures
        r == elf_pointer_size(*process, module.0),
{
    let magic = process.read_u32(module)?;
    let class = process.read_u8(module.add(4))?;
    if magic != ELF_MAGIC {
        None
    } else if class == 1 {
        Some(PointerSize::Bit32)
    } else if class == 2 {
        Some(PointerSize::Bit64)
    } else {
        None
    }
}


/// The type of a program header describing the dynamic section.
pub const PT_DYNAMIC: u32 = 2;

/// The type of a program header describing notes.
pub const PT_NOTE: u32 = 4;

/// The dynamic tag of the string table's address.
pub const DT_STRTAB: u64 = 5;

/// The dynamic tag of the symbol table's address.
pub const DT_SYMTAB: u64 = 6;

/// The note type of a GNU build ID.
pub const NT_GNU_BUILD_ID: u32 = 3;

/// The size of one 64-bit symbol.
pub const SYM_SIZE: u64 = 24;

/// The program header table of the 64-bit module at `base`: where it sits,
/// how large one header is, and how many there are.
pub open spec fn program_headers(p: Process, base: u64) -> Option<(u64, u16, u16)> {
    match (p.mem_u64(wrap_add(base, 0x20)), p.mem_u16(wrap_add(base, 0x36)), p.mem_u16(wrap_add(base, 0x38))) {
        (Some(off), Some(size), Some(count)) => Some((wrap_add(base, off as int), size, count)),
        _ => None,
    }
}

/// The first program header, among headers `i` up to `n` of the table at
/// `at`, of the given type.
pub open spec fn segment_from(p: Process, at: u64, size: u16, i: int, n: int, kind: u32) -> Option<u64>
    decreases n - i,
{
    if i >= n {
        None
    } else {
        let h = wrap_add(at, i * size);
        match p.mem_u32(h) {
            None => None,
            Some(t) => if t == kind {
                Some(h)
            } else {
                segment_from(p, at, size, i + 1, n, kind)
            },
        }
    }
}

/// The value of the first dynamic entry, among entries `i` up to `n` of the
/// section at `d`, with the given tag. The null entry ends the section.
pub open spec fn dynamic_value(p: Process, d: u64, i: int, n: int, tag: u64) -> Option<u64>
    decreases n - i,
{
    if i >= n {
        None
    } else {
        match p.mem_u64(wrap_add(d, 16 * i)) {
            None => None,
            Some(t) => if t == 0 {
                None
            } else if t == tag {
                p.mem_u64(wrap_add(d, 16 * i + 8))
            } else {
                dynamic_value(p, d, i + 1, n, tag)
            },
        }
    }
}

/// An address a dynamic entry holds: the loader relocates them to absolute
/// addresses, and one below the module's base is still relative to it.
pub open spec fn resolved(base: u64, v: u64) -> u64 {
    if v < base {
        wrap_add(base, v as int)
    } else {
        v
    }
}

/// The dynamic section of the module at `base` and its number of entries.
pub open spec fn dynamic_section(p: Process, base: u64) -> Option<(u64, u64)> {
    match program_headers(p, base) {
        Some((at, size, count)) => match segment_from(p, at, size, 0, count as int, PT_DYNAMIC) {
            Some(h) => match (p.mem_u64(wrap_add(h, 0x10)), p.mem_u64(wrap_add(h, 0x28))) {
                (Some(vaddr), Some(memsz)) => Some((wrap_add(base, vaddr as int), memsz / 16)),
                _ => None,
            },
            None => None,
        },
        None => None,
    }
}

/// The address of the first symbol, among symbols `i` up to `n` of the
/// table at `symtab`, called `name`.
pub open spec fn symbol_from(
    p: Process,
    base: u64,
    symtab: u64,
    strtab: u64,
    i: int,
    n: int,
    name: Seq<u8>,
) -> Option<u64>
    decreases n - i,
{
    if i >= n {
        None
    } else {
        let sym = wrap_add(symtab, SYM_SIZE * i);
        match p.mem_u32(sym) {
            None => None,
            Some(st_name) => if cstr_is(p, wrap_add(strtab, st_name as int), name) {
                match p.mem_u64(wrap_add(sym, 8)) {
                    Some(value) => Some(wrap_add(base, value as int)),
                    None => None,
                }
            } else {
                symbol_from(p, base, symtab, strtab, i + 1, n, name)
            },
        }
    }
}

/// The address the 64-bit module at `base` exports under `name`. The
/// dynamic symbol table runs up to the string table, which follows it.
pub open spec fn symbol_named(p: Process, base: u64, name: Seq<u8>) -> Option<u64> {
    match dynamic_section(p, base) {
        Some((d, n)) => match (dynamic_value(p, d, 0, n as int, DT_SYMTAB), dynamic_value(
            p,
            d,
            0,
            n as int,
            DT_STRTAB,
        )) {
            (Some(sym), Some(str)) => {
                let symtab = resolved(base, sym);
                let strtab = resolved(base, str);
                let count = if strtab > symtab {
                    (strtab - symtab) / (SYM_SIZE as int)
                } else {
                    0
                };
                symbol_from(p, base, symtab, strtab, 0, count, name)
            },
            _ => None,
        },
        None => None,
    }
}

fn read_program_headers(process: &Process, module: Address) -> (r: Option<(Address, u16, u16)>)
    ensures
        match r {
            Some((at, size, count)) => program_headers(*process, module.0) == Some((at.0, size, count)),
            None => program_headers(*process, module.0).is_none(),
        },
{
    let off = process.read_u64(module.add(0x20))?;
    let size = process.read_u16(module.add(0x36))?;
    let count = process.read_u16(module.add(0x38))?;
    Some((module.add(off), size, count))
}

fn find_segment(process: &Process, at: Address, size: u16, from: u16, count: u16, kind: u32) -> (r:
    Option<Address>)
    requires
        from <= count,
    ensures
        match r {
            Some(h) => segment_from(*process, at.0, size, from as int, count as int, kind) == Some(h.0),
            None => segment_from(*process, at.0, size, from as int, count as int, kind).is_none(),
        },
{
    let mut i: u16 = from;
    while i < count
        invariant
            from <= i <= count,
            segment_from(*process, at.0, size, from as int, count as int, kind) == segment_from(
                *process,
                at.0,
                size,
                i as int,
                count as int,
                kind,
            ),
        decreases count - i,
    {
        assert((i as int) * (size as int) <= 0xFFFF * 0xFFFF) by (nonlinear_arith)
            requires
                i <= 0xFFFF,
                size <= 0xFFFF,
        ;
        let h = at.add(i as u64 * size as u64);
        let t = process.read_u32(h)?;
        if t == kind {
            return Some(h);
        }
        i += 1;
    }
    None
}

fn find_dynamic_value(process: &Process, d: Address, n: u64, tag: u64) -> (r: Option<u64>)
    requires
        n <= u64::MAX / 16,
    ensures
        r == dynamic_value(*process, d.0, 0, n as int, tag),
{
    let mut i: u64 = 0;
    while i < n
        invariant
            i <= n,
            n <= u64::MAX / 16,
            dynamic_value(*process, d.0, 0, n as int, tag) == dynamic_value(
                *process,
                d.0,
                i as int,
                n as int,
                tag,
            ),
        decreases n - i,
    {
        let t = process.read_u64(d.add(16 * i))?;
        if t == 0 {
            return None;
        } else if t == tag {
            return process.read_u64(d.add(16 * i + 8));
        }
        i += 1;
    }
    None
}

fn read_dynamic_section(process: &Process, module: Address) -> (r: Option<(Address, u64)>)
    ensures
        match r {
            Some((d, n)) => dynamic_section(*process, module.0) == Some((d.0, n)),
            None => dynamic_section(*process, module.0).is_none(),
        },
{
    let (at, size, count) = read_program_headers(process, module)?;
    let h = find_segment(process, at, size, 0, count, PT_DYNAMIC)?;
    let vaddr = process.read_u64(h.add(0x10))?;
    let memsz = process.read_u64(h.add(0x28))?;
    Some((module.add(vaddr), memsz / 16))
}

/// Finds the address the 64-bit module at `module` exports under `name`,
/// going through its dynamic symbol table in order.
pub fn find_symbol(process: &Process, module: Address, name: &[u8]) -> (r: Option<Address>)
    ensures
        match r {
            Some(a) => symbol_named(*process, module.0, name@) == Some(a.0),
            None => symbol_named(*process, module.0, name@).is_none(),
        },
{
    let (d, n) = read_dynamic_section(process, module)?;
    let sym = find_dynamic_value(process, d, n, DT_SYMTAB)?;
    let str = find_dynamic_value(process, d, n, DT_STRTAB)?;
    let symtab = if sym < module.0 { module.add(sym) } else { Address(sym) };
    let strtab = if str < module.0 { module.add(str) } else { Address(str) };
    let count: u64 = if strtab.0 > symtab.0 { (strtab.0 - symtab.0) / SYM_SIZE } else { 0 };
    let mut i: u64 = 0;
    while i < count
        invariant
            i <= count,
            count as int == if strtab.0 > symtab.0 { (strtab.0 - symtab.0) / (SYM_SIZE as int) } else { 0 },
            symbol_named(*process, module.0, name@) == symbol_from(
                *process,
                module.0,
                symtab.0,
                strtab.0,
                i as int,
                count as int,
                name@,
            ),
        decreases count - i,
    {
        let at = symtab.add(SYM_SIZE * i);
        let st_name = process.read_u32(at)?;
        if read_cstr_is(process, strtab.add(st_name as u64), name) {
            let value = process.read_u64(at.add(8))?;
            return Some(module.add(value));
        }
        i += 1;
    }
    None
}


/// `GNU` and its nul, the name of a GNU note.
pub open spec fn gnu_name() -> Seq<u8> {
    seq![0x47u8, 0x4E, 0x55, 0x00]
}

/// A note field's size, padded to four bytes.
pub open spec fn align4(x: u32) -> nat {
    ((x + 3) / 4 * 4) as nat
}

/// The three words heading the note at `at`: the sizes of its name and of
/// its descriptor, and its type.
pub open spec fn note_header(p: Process, at: u64) -> Option<(u32, u32, u32)> {
    match (p.mem_u32(at), p.mem_u32(wrap_add(at, 4)), p.mem_u32(wrap_add(at, 8))) {
        (Some(namesz), Some(descsz), Some(t)) => Some((namesz, descsz, t)),
        _ => None,
    }
}

/// Whether `GNU` and its nul sit at `at`.
pub open spec fn is_gnu_at(p: Process, at: u64) -> bool {
    p.mem(at, 4) == Some(gnu_name())
}

/// The build ID among the notes from offset `o` up to `size` of the note
/// segment at `s`: the descriptor of the first GNU note of the build-ID
/// type. A note reaching past the segment ends the search.
pub open spec fn build_id_note(p: Process, s: u64, o: int, size: int) -> Option<Seq<u8>>
    decreases size - o,
{
    if o < 0 || o + 12 > size {
        None
    } else {
        match note_header(p, wrap_add(s, o)) {
            Some((namesz, descsz, t)) => {
                let desc = o + 12 + align4(namesz);
                if desc > size {
                    None
                } else if t == NT_GNU_BUILD_ID && namesz == 4 && is_gnu_at(p, wrap_add(s, o + 12)) {
                    p.mem(wrap_add(s, desc), descsz as nat)
                } else if desc + align4(descsz) > size {
                    None
                } else {
                    build_id_note(p, s, desc + align4(descsz), size)
                }
            },
            None => None,
        }
    }
}

/// The build ID the note segments among program headers `i` up to `n`
/// carry: the first one found, in header order. A note segment sits at its
/// virtual address from the module's base.
pub open spec fn build_id_from(p: Process, base: u64, at: u64, size: u16, i: int, n: int) -> Option<
    Seq<u8>,
>
    decreases n - i,
{
    if i >= n {
        None
    } else {
        let h = wrap_add(at, i * size);
        match p.mem_u32(h) {
            None => None,
            Some(t) => if t == PT_NOTE {
                match (p.mem_u64(wrap_add(h, 0x10)), p.mem_u64(wrap_add(h, 0x20))) {
                    (Some(vaddr), Some(filesz)) => match build_id_note(
                        p,
                        wrap_add(base, vaddr as int),
                        0,
                        filesz as int,
                    ) {
                        Some(id) => Some(id),
                        None => build_id_from(p, base, at, size, i + 1, n),
                    },
                    _ => None,
                }
            } else {
                build_id_from(p, base, at, size, i + 1, n)
            },
        }
    }
}

/// The build ID the 64-bit module at `base` carries in its notes.
pub open spec fn build_id(p: Process, base: u64) -> Option<Seq<u8>> {
    match program_headers(p, base) {
        Some((at, size, count)) => build_id_from(p, base, at, size, 0, count as int),
        None => None,
    }
}

/// What one note of a note segment settles.
enum NoteStep {
    /// The search ends here, with the build ID when one was found.
    Done(Option<Vec<u8>>),
    /// The search goes on at the next note's offset.
    Next(u64),
}

fn read_note_header(process: &Process, at: Address) -> (r: Option<(u32, u32, u32)>)
    ensures
        r == note_header(*process, at.0),
{
    let namesz = process.read_u32(at)?;
    let descsz = process.read_u32(at.add(4))?;
    let t = process.read_u32(at.add(8))?;
    Some((namesz, descsz, t))
}

fn read_is_gnu(process: &Process, at: Address) -> (r: bool)
    ensures
        r == is_gnu_at(*process, at.0),
{
    match process.read_bytes(at, 4) {
        Some(name) => {
            if name[0] == 0x47 && name[1] == 0x4E && name[2] == 0x55 && name[3] == 0x00 {
                assert(name@ =~= gnu_name());
                true
            } else {
                assert(name@ != gnu_name()) by {
                    if name@ == gnu_name() {
                        assert(name@[0] == 0x47 && name@[1] == 0x4E && name@[2] == 0x55 && name@[3] == 0);
                    }
                }
                false
            }
        },
        None => false,
    }
}

fn pad4(x: u32) -> (r: u64)
    ensures
        r == align4(x),
{
    (x as u64 + 3) / 4 * 4
}

fn note_at(process: &Process, s: Address, o: u64, size: u64) -> (r: NoteStep)
    requires
        o as int + 12 <= size,
    ensures
        match r {
            NoteStep::Done(Some(v)) => build_id_note(*process, s.0, o as int, size as int) == Some(v@),
            NoteStep::Done(None) => build_id_note(*process, s.0, o as int, size as int).is_none(),
            NoteStep::Next(n) => o < n <= size && build_id_note(*process, s.0, o as int, size as int)
                == build_id_note(*process, s.0, n as int, size as int),
        },
{
    let (namesz, descsz, t) = match read_note_header(process, s.add(o)) {
        Some(h) => h,
        None => return NoteStep::Done(None),
    };
    let name_pad = pad4(namesz);
    let desc_pad = pad4(descsz);
    if name_pad > size - o - 12 {
        return NoteStep::Done(None);
    }
    let desc = o + 12 + name_pad;
    if t == NT_GNU_BUILD_ID && namesz == 4 && read_is_gnu(process, s.add(o + 12)) {
        return NoteStep::Done(process.read_bytes(s.add(desc), descsz as u64));
    }
    if desc_pad > size - desc {
        return NoteStep::Done(None);
    }
    NoteStep::Next(desc + desc_pad)
}

fn find_build_id_note(process: &Process, s: Address, size: u64) -> (r: Option<Vec<u8>>)
    ensures
        match r {
            Some(v) => build_id_note(*process, s.0, 0, size as int) == Some(v@),
            None => build_id_note(*process, s.0, 0, size as int).is_none(),
        },
{
    let mut o: u64 = 0;
    while o <= size && size - o >= 12
        invariant
            build_id_note(*process, s.0, 0, size as int) == build_id_note(
                *process,
                s.0,
                o as int,
                size as int,
            ),
        decreases size - o,
    {
        match note_at(process, s, o, size) {
            NoteStep::Done(found) => return found,
            NoteStep::Next(n) => o = n,
        }
    }
    None
}

/// Reads the build ID the 64-bit module at `module` carries in its notes.
pub fn read_build_id(process: &Process, module: Address) -> (r: Option<Vec<u8>>)
    ensures
        match r {
            Some(v) => build_id(*process, module.0) == Some(v@),
            None => build_id(*process, module.0).is_none(),
        },
{
    let (at, size, count) = read_program_headers(process, module)?;
    let mut i: u16 = 0;
    while i < count
        invariant
            i <= count,
            build_id(*process, module.0) == build_id_from(
                *process,
                module.0,
                at.0,
                size,
                i as int,
                count as int,
            ),
        decreases count - i,
    {
        assert((i as int) * (size as int) <= 0xFFFF * 0xFFFF) by (nonlinear_arith)
            requires
                i <= 0xFFFF,
                size <= 0xFFFF,
        ;
        let h = at.add(i as u64 * size as u64);
        let t = process.read_u32(h)?;
        if t == PT_NOTE {
            let vaddr = process.read_u64(h.add(0x10))?;
            let filesz = process.read_u64(h.add(0x20))?;
            let found = find_build_id_note(process, module.add(vaddr), filesz);
            if found.is_some() {
                return found;
            }
        }
        i += 1;
    }
    None
}

} // verus!
