//! Portable Executable headers: the machine a module was built for, the size
//! of its image, and the file version stamped in its version resource.

use vstd::prelude::*;

use crate::primitives::{wrap_add, Address, PointerSize};
use crate::process::Process;
use crate::string::{cstr_is, read_cstr_is};

verus! {

/// `MZ`, the DOS header's magic.
pub const DOS_MAGIC: u16 = 0x5A4D;

/// `PE`, what the COFF header's signature starts with.
pub const PE_MAGIC: u16 = 0x4550;

/// The magic of a 64-bit optional header.
pub const PE32_PLUS_MAGIC: u16 = 0x20B;

/// The resource type of a version resource.
pub const RT_VERSION: u32 = 0x10;

/// The signature heading `VS_FIXEDFILEINFO`.
pub const FIXED_FILE_INFO_MAGIC: u32 = 0xFEEF_04BD;

/// The address of the COFF header of the module at `base`, when the DOS
/// header's magic and the start of the COFF signature are in place.
pub open spec fn coff_header(p: Process, base: u64) -> Option<u64> {
    match (p.mem_u16(base), p.mem_u32(wrap_add(base, 0x3C))) {
        (Some(mz), Some(lfanew)) => if mz == DOS_MAGIC {
            let at = wrap_add(base, lfanew as int);
            match p.mem_u16(at) {
                Some(magic) => if magic == PE_MAGIC {
                    Some(at)
                } else {
                    None
                },
                None => None,
            }
        } else {
            None
        },
        _ => None,
    }
}

/// The machine field of the module at `base`.
pub open spec fn machine(p: Process, base: u64) -> Option<u16> {
    match coff_header(p, base) {
        Some(at) => p.mem_u16(wrap_add(at, 4)),
        None => None,
    }
}

/// The pointer size a machine type runs with.
pub open spec fn machine_pointer_size(machine: u16) -> Option<PointerSize> {
    if machine == 0x8664 || machine == 0xAA64 {
        Some(PointerSize::Bit64)
    } else if machine == 0x14C || machine == 0x1C0 || machine == 0x1C4 {
        Some(PointerSize::Bit32)
    } else {
        None
    }
}

/// The pointer size of the module at `base`, by its machine type.
pub open spec fn pointer_size_of(p: Process, base: u64) -> Option<PointerSize> {
    match machine(p, base) {
        Some(m) => machine_pointer_size(m),
        None => None,
    }
}

/// The address of the optional header of the module at `base`.
pub open spec fn optional_header(p: Process, base: u64) -> Option<u64> {
    match coff_header(p, base) {
        Some(at) => Some(wrap_add(at, 0x18)),
        None => None,
    }
}

/// The size of the image of the module at `base`.
pub open spec fn size_of_image(p: Process, base: u64) -> Option<u32> {
    match optional_header(p, base) {
        Some(at) => p.mem_u32(wrap_add(at, 0x38)),
        None => None,
    }
}

/// Reads the machine field of the module at `module`.
pub fn read_machine(process: &Process, module: Address) -> (r: Option<u16>)
    ensures
        r == machine(*process, module.0),
{
    let at = read_coff_header(process, module)?;
    process.read_u16(at.add(4))
}

fn read_coff_header(process: &Process, module: Address) -> (r: Option<Address>)
    ensures
        match r {
            Some(a) => coff_header(*process, module.0) == Some(a.0),
            None => coff_header(*process, module.0).is_none(),
        },
{
    let mz = process.read_u16(module)?;
    let lfanew = process.read_u32(module.add(0x3C))?;
    if mz != DOS_MAGIC {
        return None;
    }
    let at = module.add(lfanew as u64);
    let magic = process.read_u16(at)?;
    if magic == PE_MAGIC {
        Some(at)
    } else {
        None
    }
}

/// Maps a machine type to the pointer size it runs with.
pub fn pointer_size_of_machine(machine: u16) -> (r: Option<PointerSize>)
    ensures
        r == machine_pointer_size(machine),
{
    if machine == 0x8664 || machine == 0xAA64 {
        Some(PointerSize::Bit64)
    } else if machine == 0x14C || machine == 0x1C0 || machine == 0x1C4 {
        Some(PointerSize::Bit32)
    } else {
        None
    }
}

/// Reads the pointer size of the module at `module` off its machine type.
pub fn read_pointer_size(process: &Process, module: Address) -> (r: Option<PointerSize>)
    ensures
        r == pointer_size_of(*process, module.0),
{
    let m = read_machine(process, module)?;
    pointer_size_of_machine(m)
}

/// Reads the size of the image of the module at `module`.
pub fn read_size_of_image(process: &Process, module: Address) -> (r: Option<u32>)
    ensures
        r == size_of_image(*process, module.0),
{
    let at = read_coff_header(process, module)?;
    process.read_u32(at.add(0x18).add(0x38))
}

/// The four parts of a module's file version.
#[derive(Copy, Clone, Debug, PartialEq, Eq, Structural)]
pub struct FileVersion {
    /// The major version.
    pub major_version: u16,
    /// The minor version.
    pub minor_version: u16,
    /// The build part.
    pub build_part: u16,
    /// The private part.
    pub private_part: u16,
}

/// The resource directory of the module at `base`: its address.
pub open spec fn resource_root(p: Process, base: u64) -> Option<u64> {
    match optional_header(p, base) {
        Some(opt) => match p.mem_u16(opt) {
            Some(magic) => {
                let dirs = if magic == PE32_PLUS_MAGIC {
                    wrap_add(opt, 0x70)
                } else {
                    wrap_add(opt, 0x60)
                };
                match p.mem_u32(wrap_add(dirs, 16)) {
                    Some(rva) => if rva != 0 {
                        Some(wrap_add(base, rva as int))
                    } else {
                        None
                    },
                    None => None,
                }
            },
            None => None,
        },
        None => None,
    }
}

/// The offset field of the first id entry, among entries `i` up to `n` of
/// the directory at `dir`, whose id is `id`.
pub open spec fn entry_with_id(p: Process, dir: u64, i: int, n: int, id: u32) -> Option<u32>
    decreases n - i,
{
    if i >= n {
        None
    } else {
        let at = wrap_add(dir, 0x10 + 8 * i);
        match (p.mem_u32(at), p.mem_u32(wrap_add(at, 4))) {
            (Some(entry_id), Some(off)) => if entry_id == id {
                Some(off)
            } else {
                entry_with_id(p, dir, i + 1, n, id)
            },
            _ => None,
        }
    }
}

/// The offset field of a directory's first entry.
pub open spec fn first_entry(p: Process, dir: u64) -> Option<u32> {
    p.mem_u32(wrap_add(dir, 0x14))
}

/// Whether a directory entry's offset leads to another directory.
pub open spec fn is_subdirectory(off: u32) -> bool {
    off >= 0x8000_0000
}

/// The address of the version resource's data of the module at `base`.
pub open spec fn version_data(p: Process, base: u64) -> Option<u64> {
    match resource_root(p, base) {
        Some(root) => match (p.mem_u16(wrap_add(root, 0xC)), p.mem_u16(wrap_add(root, 0xE))) {
            (Some(named), Some(ids)) => match entry_with_id(
                p,
                root,
                named as int,
                named + ids,
                RT_VERSION,
            ) {
                Some(type_off) => if is_subdirectory(type_off) {
                    let type_dir = wrap_add(root, type_off - 0x8000_0000);
                    match first_entry(p, type_dir) {
                        Some(name_off) => if is_subdirectory(name_off) {
                            let lang_dir = wrap_add(root, name_off - 0x8000_0000);
                            match first_entry(p, lang_dir) {
                                Some(data_off) => if !is_subdirectory(data_off) {
                                    match p.mem_u32(wrap_add(root, data_off as int)) {
                                        Some(rva) => Some(wrap_add(base, rva as int)),
                                        None => None,
                                    }
                                } else {
                                    None
                                },
                                None => None,
                            }
                        } else {
                            None
                        },
                        None => None,
                    }
                } else {
                    None
                },
                None => None,
            },
            _ => None,
        },
        None => None,
    }
}

/// The file version stamped in the version resource of the module at
/// `base`.
pub open spec fn file_version(p: Process, base: u64) -> Option<FileVersion> {
    match version_data(p, base) {
        Some(info) => {
            let fixed = wrap_add(info, 0x28);
            match (
                p.mem_u32(fixed),
                p.mem_u16(wrap_add(fixed, 8)),
                p.mem_u16(wrap_add(fixed, 10)),
                p.mem_u16(wrap_add(fixed, 12)),
                p.mem_u16(wrap_add(fixed, 14)),
            ) {
                (Some(magic), Some(minor), Some(major), Some(private), Some(build)) => if magic
                    == FIXED_FILE_INFO_MAGIC {
                    Some(
                        FileVersion {
                            major_version: major,
                            minor_version: minor,
                            build_part: build,
                            private_part: private,
                        },
                    )
                } else {
                    None
                },
                _ => None,
            }
        },
        None => None,
    }
}

fn read_resource_root(process: &Process, module: Address) -> (r: Option<Address>)
    ensures
        match r {
            Some(a) => resource_root(*process, module.0) == Some(a.0),
            None => resource_root(*process, module.0).is_none(),
        },
{
    let coff = read_coff_header(process, module)?;
    let opt = coff.add(0x18);
    let magic = process.read_u16(opt)?;
    let dirs = if magic == PE32_PLUS_MAGIC {
        opt.add(0x70)
    } else {
        opt.add(0x60)
    };
    let rva = process.read_u32(dirs.add(16))?;
    if rva != 0 {
        Some(module.add(rva as u64))
    } else {
        None
    }
}

fn find_entry(process: &Process, dir: Address, first: u16, count: u16, id: u32) -> (r: Option<
    u32,
>)
    ensures
        r == entry_with_id(*process, dir.0, first as int, first + count, id),
{
    let end: u32 = first as u32 + count as u32;
    let mut i: u32 = first as u32;
    while i < end
        invariant
            first <= i <= end,
            end == first + count,
            entry_with_id(*process, dir.0, first as int, end as int, id) == entry_with_id(
                *process,
                dir.0,
                i as int,
                end as int,
                id,
            ),
        decreases end - i,
    {
        let at = dir.add(0x10 + 8 * i as u64);
        let entry_id = process.read_u32(at)?;
        let off = process.read_u32(at.add(4))?;
        if entry_id == id {
            return Some(off);
        }
        i += 1;
    }
    None
}

impl FileVersion {
    /// Reads the file version stamped in the version resource of the module
    /// at `module`.
    pub fn read(process: &Process, module: Address) -> (r: Option<FileVersion>)
        ensures
            r == file_version(*process, module.0),
    {
        let root = read_resource_root(process, module)?;
        let named = process.read_u16(root.add(0xC))?;
        let ids = process.read_u16(root.add(0xE))?;
        let type_off = find_entry(process, root, named, ids, RT_VERSION)?;
        if type_off < 0x8000_0000 {
            return None;
        }
        let type_dir = root.add((type_off - 0x8000_0000) as u64);
        let name_off = process.read_u32(type_dir.add(0x14))?;
        if name_off < 0x8000_0000 {
            return None;
        }
        let lang_dir = root.add((name_off - 0x8000_0000) as u64);
        let data_off = process.read_u32(lang_dir.add(0x14))?;
        if data_off >= 0x8000_0000 {
            return None;
        }
        let rva = process.read_u32(root.add(data_off as u64))?;
        let info = module.add(rva as u64);
        let fixed = info.add(0x28);
        let magic = process.read_u32(fixed)?;
        let minor = process.read_u16(fixed.add(8))?;
        let major = process.read_u16(fixed.add(10))?;
        let private = process.read_u16(fixed.add(12))?;
        let build = process.read_u16(fixed.add(14))?;
        if magic != FIXED_FILE_INFO_MAGIC {
            return None;
        }
        Some(
            FileVersion {
                major_version: major,
                minor_version: minor,
                build_part: build,
                private_part: private,
            },
        )
    }
}


/// The export directory of the module at `base`: its address.
pub open spec fn export_directory(p: Process, base: u64) -> Option<u64> {
    match optional_header(p, base) {
        Some(opt) => match p.mem_u16(opt) {
            Some(magic) => {
                let dirs = if magic == PE32_PLUS_MAGIC {
                    wrap_add(opt, 0x70)
                } else {
                    wrap_add(opt, 0x60)
                };
                match p.mem_u32(dirs) {
                    Some(rva) => if rva != 0 {
                        Some(wrap_add(base, rva as int))
                    } else {
                        None
                    },
                    None => None,
                }
            },
            None => None,
        },
        None => None,
    }
}

/// The tables an export directory points at: the number of names, and where
/// the name, ordinal and function tables sit.
pub open spec fn export_tables(p: Process, base: u64, dir: u64) -> Option<(u32, u64, u64, u64)> {
    match (
        p.mem_u32(wrap_add(dir, 0x18)),
        p.mem_u32(wrap_add(dir, 0x1C)),
        p.mem_u32(wrap_add(dir, 0x20)),
        p.mem_u32(wrap_add(dir, 0x24)),
    ) {
        (Some(count), Some(functions), Some(names), Some(ordinals)) => Some(
            (
                count,
                wrap_add(base, names as int),
                wrap_add(base, ordinals as int),
                wrap_add(base, functions as int),
            ),
        ),
        _ => None,
    }
}

/// The address of the first export, among names `i` up to `n`, called
/// `name`. An unreadable name is passed over; an unreadable table entry
/// ends the search.
pub open spec fn export_from(
    p: Process,
    base: u64,
    names: u64,
    ordinals: u64,
    functions: u64,
    i: int,
    n: int,
    name: Seq<u8>,
) -> Option<u64>
    decreases n - i,
{
    if i >= n {
        None
    } else {
        match p.mem_u32(wrap_add(names, 4 * i)) {
            None => None,
            Some(name_rva) => if cstr_is(p, wrap_add(base, name_rva as int), name) {
                match p.mem_u16(wrap_add(ordinals, 2 * i)) {
                    None => None,
                    Some(ordinal) => match p.mem_u32(wrap_add(functions, 4 * ordinal)) {
                        Some(rva) => Some(wrap_add(base, rva as int)),
                        None => None,
                    },
                }
            } else {
                export_from(p, base, names, ordinals, functions, i + 1, n, name)
            },
        }
    }
}

/// The address the module at `base` exports under `name`.
pub open spec fn export_named(p: Process, base: u64, name: Seq<u8>) -> Option<u64> {
    match export_directory(p, base) {
        Some(dir) => match export_tables(p, base, dir) {
            Some((count, names, ordinals, functions)) => export_from(
                p,
                base,
                names,
                ordinals,
                functions,
                0,
                count as int,
                name,
            ),
            None => None,
        },
        None => None,
    }
}

fn read_export_directory(process: &Process, module: Address) -> (r: Option<Address>)
    ensures
        match r {
            Some(a) => export_directory(*process, module.0) == Some(a.0),
            None => export_directory(*process, module.0).is_none(),
        },
{
    let coff = read_coff_header(process, module)?;
    let opt = coff.add(0x18);
    let magic = process.read_u16(opt)?;
    let dirs = if magic == PE32_PLUS_MAGIC {
        opt.add(0x70)
    } else {
        opt.add(0x60)
    };
    let rva = process.read_u32(dirs)?;
    if rva != 0 {
        Some(module.add(rva as u64))
    } else {
        None
    }
}

/// Finds the address the module at `module` exports under `name`, going
/// through its export directory's names in order.
pub fn find_export(process: &Process, module: Address, name: &[u8]) -> (r: Option<Address>)
    ensures
        match r {
            Some(a) => export_named(*process, module.0, name@) == Some(a.0),
            None => export_named(*process, module.0, name@).is_none(),
        },
{
    let dir = read_export_directory(process, module)?;
    let count = process.read_u32(dir.add(0x18))?;
    let functions_rva = process.read_u32(dir.add(0x1C))?;
    let names_rva = process.read_u32(dir.add(0x20))?;
    let ordinals_rva = process.read_u32(dir.add(0x24))?;
    let names = module.add(names_rva as u64);
    let ordinals = module.add(ordinals_rva as u64);
    let functions = module.add(functions_rva as u64);
    let mut i: u32 = 0;
    while i < count
        invariant
            i <= count,
            export_named(*process, module.0, name@) == export_from(
                *process,
                module.0,
                names.0,
                ordinals.0,
                functions.0,
                i as int,
                count as int,
                name@,
            ),
        decreases count - i,
    {
        let name_rva = process.read_u32(names.add(4 * i as u64))?;
        if read_cstr_is(process, module.add(name_rva as u64), name) {
            let ordinal = process.read_u16(ordinals.add(2 * i as u64))?;
            let rva = process.read_u32(functions.add(4 * ordinal as u64))?;
            return Some(module.add(rva as u64));
        }
        i += 1;
    }
    None
}

} // verus!
