//! Support for attaching to Unity games that are using the standard Mono
//! backend.

use vstd::prelude::*;
use vstd::string::StringSliceAdditionalSpecFns;

pub mod class;
pub mod identity;
pub mod image;
pub mod linux_builds;
pub mod mac_builds;
pub mod offsets;
pub mod pointer;
pub mod version;

pub use class::Class;
pub use identity::{BuildId, Identity};
pub use image::Image;
pub use offsets::MonoOffsets;
pub use pointer::UnityPointer;
pub use version::Version;

use super::il2cpp::{
    absolute, displaced, first_match, first_matching, read_absolute, read_displaced, widen, widened,
};
use super::managed;
use super::managed::{unity_stop, DictionaryOffsets, HashSetOffsets, ListOffsets, Walk};
use super::BinaryFormat;
use crate::file_format::{elf, macho, pe};
use crate::primitives::{wrap_add, Address, PointerSize};
use crate::process::{Error, Process};
use crate::signature::{scan_positions, Signature};

use super::managed::readers;
use super::managed::readers::{
    array_at, dictionary_at, hash_set_at, list_at, reference_array_at, reference_list_at, string_at,
    string_object_at,
};
use super::managed::{Element, ManagedArray, ManagedString};

verus! {

/// Represents access to a Unity game that is using the standard Mono backend.
#[derive(Copy, Clone, Debug)]
pub struct Module {
    /// The global holding the list of loaded assemblies.
    pub assemblies: Address,
    /// The Mono version the game runs.
    pub version: Version,
    /// The layout the module reads with.
    pub offsets: MonoOffsets,
    /// The pointer width of the target.
    pub pointer_size: PointerSize,
}

/// Where the named module sits and how many bytes it spans.
pub open spec fn module_range(p: Process, name: Seq<u8>) -> Option<(Address, u64)> {
    match p.module_named(name) {
        Some(m) => Some((Address(m.base), m.size)),
        None => None,
    }
}

/// The runtime library a game loaded, its format and its name, looked for in
/// this order: `mono.dll`, `libmono.so`, `libmono.0.dylib`,
/// `mono-2.0-bdwgc.dll`, `libmonobdwgc-2.0.so`, `libmonobdwgc-2.0.dylib`.
pub open spec fn runtime_module_of(p: Process) -> Option<((Address, u64), BinaryFormat, Seq<u8>)> {
    if let Some(r) = module_range(p, "mono.dll".spec_bytes()) {
        Some((r, BinaryFormat::PE, "mono.dll".spec_bytes()))
    } else if let Some(r) = module_range(p, "libmono.so".spec_bytes()) {
        Some((r, BinaryFormat::ELF, "libmono.so".spec_bytes()))
    } else if let Some(r) = module_range(p, "libmono.0.dylib".spec_bytes()) {
        Some((r, BinaryFormat::MachO, "libmono.0.dylib".spec_bytes()))
    } else if let Some(r) = module_range(p, "mono-2.0-bdwgc.dll".spec_bytes()) {
        Some((r, BinaryFormat::PE, "mono-2.0-bdwgc.dll".spec_bytes()))
    } else if let Some(r) = module_range(p, "libmonobdwgc-2.0.so".spec_bytes()) {
        Some((r, BinaryFormat::ELF, "libmonobdwgc-2.0.so".spec_bytes()))
    } else if let Some(r) = module_range(p, "libmonobdwgc-2.0.dylib".spec_bytes()) {
        Some((r, BinaryFormat::MachO, "libmonobdwgc-2.0.dylib".spec_bytes()))
    } else {
        None
    }
}

/// The pointer width of the module at `base`, read as its format says.
pub open spec fn pointer_size_in(p: Process, base: u64, format: BinaryFormat) -> Option<PointerSize> {
    match format {
        BinaryFormat::PE => pe::pointer_size_of(p, base),
        BinaryFormat::ELF => elf::elf_pointer_size(p, base),
        BinaryFormat::MachO => macho::macho_pointer_size(p, base),
    }
}

/// `mono_assembly_foreach`.
pub open spec fn root_function_name() -> Seq<u8> {
    "mono_assembly_foreach".spec_bytes()
}

/// `_mono_assembly_foreach`, as a Mach-O symbol table names it.
pub open spec fn macho_root_function_name() -> Seq<u8> {
    "_mono_assembly_foreach".spec_bytes()
}

/// Where the runtime's `mono_assembly_foreach` starts, found among the
/// module's exported symbols.
pub open spec fn root_function_of(p: Process, base: u64, format: BinaryFormat) -> Option<u64> {
    match format {
        BinaryFormat::PE => pe::export_named(p, base, root_function_name()),
        BinaryFormat::ELF => elf::symbol_named(p, base, root_function_name()),
        BinaryFormat::MachO => macho::symbol_named(p, base, macho_root_function_name()),
    }
}

/// `mov rcx, [rip + disp]`.
pub open spec fn x64_rcx_load() -> Seq<u8> {
    "48 8B 0D".spec_bytes()
}

/// `mov rdi, [rip + disp]`.
pub open spec fn x64_rdi_load() -> Seq<u8> {
    "48 8B 3D".spec_bytes()
}

/// `push dword [addr]`.
pub open spec fn x86_push() -> Seq<u8> {
    "FF 35".spec_bytes()
}

/// `mov ecx, [addr]`.
pub open spec fn x86_ecx_load() -> Seq<u8> {
    "8B 0D".spec_bytes()
}

/// `adrp x?, page; ldr x0, [x?, #off]` on arm64: the bits each byte fixes.
pub open spec fn arm64_needle() -> Seq<u8> {
    seq![0x17u8, 0, 0, 0x90, 0xE0, 0x02, 0x40, 0xF9]
}

/// The bits of each byte of [`arm64_needle`] that have to match.
pub open spec fn arm64_mask() -> Seq<u8> {
    seq![0x1Fu8, 0, 0, 0x9F, 0xFF, 0x03, 0xC0, 0xFF]
}

/// The range of code the global is looked for in: the head of
/// `mono_assembly_foreach`.
pub open spec fn root_window(root: u64) -> (Address, u64) {
    (Address(root), 0x100)
}

/// The global a `rip`-relative load found by a written pattern reaches.
pub open spec fn relative_load(p: Process, root: u64, pattern: Seq<u8>) -> Option<Address> {
    match first_match(p, pattern, root_window(root)) {
        Some(hit) => match displaced(p, wrap_add(hit.0, 3)) {
            Some(a) => Some(Address(a)),
            None => None,
        },
        None => None,
    }
}

/// The address an `adrp` and a following `ldr` at `hit` load from: the page
/// of the code plus the page offset the `adrp` encodes, plus the `ldr`'s
/// scaled offset.
pub open spec fn arm64_target(p: Process, hit: u64) -> Option<u64> {
    match p.mem(hit, 8) {
        Some(bs) => {
            let page = hit - hit % 0x1000;
            let adrp = ((bs[3] / 32) % 4) * 0x1000 + (bs[0] / 32) * 0x4000 + bs[1] * 0x20000 + bs[2]
                * 0x200_0000;
            let ldr = (bs[5] / 4) * 8 + (bs[6] % 64) * 0x200;
            Some(wrap_add(page as u64, adrp + ldr))
        },
        None => None,
    }
}

/// Where the global holding the loaded assemblies sits, found in the code of
/// `mono_assembly_foreach` as the build's format and width load it.
pub open spec fn assemblies_of(p: Process, root: u64, ps: PointerSize, format: BinaryFormat) -> Option<
    Address,
> {
    match (ps, format) {
        (PointerSize::Bit64, BinaryFormat::PE) => relative_load(p, root, x64_rcx_load()),
        (PointerSize::Bit64, BinaryFormat::ELF) => relative_load(p, root, x64_rdi_load()),
        (PointerSize::Bit64, BinaryFormat::MachO) => match first_match(p, x64_rdi_load(), root_window(root)) {
            Some(_) => relative_load(p, root, x64_rdi_load()),
            None => {
                let hits = scan_positions(p, arm64_needle(), arm64_mask(), root, 0x100);
                if hits.len() > 0 {
                    match arm64_target(p, hits[0] as u64) {
                        Some(a) => Some(Address(a)),
                        None => None,
                    }
                } else {
                    None
                }
            },
        },
        (PointerSize::Bit32, BinaryFormat::PE) => {
            let hit = match first_match(p, x86_push(), root_window(root)) {
                Some(h) => Some(h),
                None => first_match(p, x86_ecx_load(), root_window(root)),
            };
            match hit {
                Some(h) => match absolute(p, wrap_add(h.0, 2)) {
                    Some(a) => Some(Address(a)),
                    None => None,
                },
                None => None,
            }
        },
        _ => None,
    }
}

/// The module found with a version and its layout inside the given runtime
/// module.
pub open spec fn attach_with_of(
    p: Process,
    module: (Address, u64),
    format: BinaryFormat,
    ps: PointerSize,
    version: Version,
    offsets: MonoOffsets,
) -> Option<Module> {
    match root_function_of(p, module.0.0, format) {
        Some(root) => match assemblies_of(p, root, ps, format) {
            Some(assemblies) => Some(Module { assemblies, version, offsets, pointer_size: ps }),
            None => None,
        },
        None => None,
    }
}

/// The module attached with the layout of the given version.
pub open spec fn attach_of(p: Process, version: Version) -> Option<Module> {
    match runtime_module_of(p) {
        Some((range, format, _)) => match pointer_size_in(p, range.0.0, format) {
            Some(ps) => match offsets::offsets_for(version, ps, format) {
                Some(offsets) => attach_with_of(p, range, format, ps, version, offsets),
                None => None,
            },
            None => None,
        },
        None => None,
    }
}

/// The module attached with the measured offsets of the build the runtime
/// names, when it names a known one and they attach; otherwise with the
/// layout of the version detected.
pub open spec fn attach_auto_detect_of(p: Process) -> Option<Module> {
    match runtime_module_of(p) {
        None => None,
        Some((range, format, name)) => match pointer_size_in(p, range.0.0, format) {
            None => None,
            Some(ps) => {
                let player = match module_range(p, "UnityPlayer.so".spec_bytes()) {
                    Some(r) => Some(r.0.0),
                    None => None,
                };
                let known = match identity::identity_of(p, range.0.0, name, player, format) {
                    Some(n) => identity::known_build_of(n, ps),
                    None => None,
                };
                let measured = match known {
                    Some((v, o)) => attach_with_of(p, range, format, ps, v, o),
                    None => None,
                };
                match measured {
                    Some(m) => Some(m),
                    None => match version::detect_of(p) {
                        Some(v) => attach_of(p, v),
                        None => None,
                    },
                }
            },
        },
    }
}

/// The shared walk a module reads with.
pub open spec fn walk_of(m: Module) -> Walk {
    Walk {
        runtime: managed::Runtime::Mono(
            managed::MonoRuntime {
                assemblies: m.assemblies,
                class_cache: m.offsets.image.class_cache,
                hash_table_size: m.offsets.hash_table.size as u16,
                hash_table_table: m.offsets.hash_table.table as u16,
                next_class_cache: m.offsets.class.next_class_cache,
                field_count: m.offsets.class.field_count,
                class_kind: m.offsets.class.class_kind,
                generic_class: m.offsets.generic.generic_class,
                container_class: m.offsets.generic.container_class,
                type_data: m.offsets.type_words.data,
                type_kind: m.offsets.type_words.kind,
                runtime_info: m.offsets.class.runtime_info,
                vtable_size: m.offsets.class.vtable_size as u16,
                vtable: m.offsets.v_table.vtable as u16,
                statics_in_vtable_data: m.version == Version::V1 || m.version == Version::V1Cattrs,
            },
        ),
        offsets: managed::WalkOffsets {
            assembly: managed::AssemblyOffsets {
                name_in_image: widen(m.offsets.image.assembly_name),
                name_in_assembly: widen(m.offsets.assembly.aname),
                image: m.offsets.assembly.image as u16,
            },
            class: managed::ClassOffsets {
                name: m.offsets.class.name as u16,
                namespace: m.offsets.class.namespace as u16,
                parent: m.offsets.class.parent as u16,
                declaring: m.offsets.class.nested_in,
                instance_size: m.offsets.class.instance_size,
                fields: m.offsets.class.fields as u16,
            },
            field: managed::FieldOffsets {
                name: m.offsets.field.name as u16,
                type_: m.offsets.field.type_,
                offset: m.offsets.field.offset as u16,
                stride: m.offsets.field.alignment as u16,
            },
        },
        stop: unity_stop(),
        pointer_size: m.pointer_size,
    }
}

/// The object a reference at `at` holds, when it is not null.
pub open spec fn referenced(p: Process, ps: PointerSize, at: u64) -> Option<u64> {
    p.mem_nonnull(at, ps)
}

/// Reads where the named module sits and how many bytes it spans.
fn read_module_range(process: &Process, name: &str) -> (r: Option<(Address, u64)>)
    ensures
        r == module_range(*process, name.spec_bytes()),
{
    match process.get_module_range(name) {
        Ok(range) => Some(range),
        Err(_) => None,
    }
}

/// The global a `rip`-relative load found by a signature reaches.
fn read_relative_load(process: &Process, root: Address, sig: &Signature) -> (r: Option<Address>)
    ensures
        r == match (if sig.matches_in(*process, root.0, 0x100).len() > 0 {
            Some(Address(sig.matches_in(*process, root.0, 0x100)[0] as u64))
        } else {
            None
        }) {
            Some(hit) => match displaced(*process, wrap_add(hit.0, 3)) {
                Some(a) => Some(Address(a)),
                None => None,
            },
            None => None,
        },
{
    let hit = first_matching(process, sig, (root, 0x100))?;
    read_displaced(process, hit.add(3))
}

/// Reads the address an `adrp` and a following `ldr` at `hit` load from.
fn read_arm64_target(process: &Process, hit: Address) -> (r: Option<Address>)
    ensures
        match r {
            Some(a) => arm64_target(*process, hit.0) == Some(a.0),
            None => arm64_target(*process, hit.0).is_none(),
        },
{
    let bs = process.read_bytes(hit, 8)?;
    let page = hit.0 - hit.0 % 0x1000;
    let adrp: u64 = ((bs[3] / 32) % 4) as u64 * 0x1000 + (bs[0] / 32) as u64 * 0x4000 + bs[1] as u64
        * 0x20000 + bs[2] as u64 * 0x200_0000;
    let ldr: u64 = (bs[5] / 4) as u64 * 8 + (bs[6] % 64) as u64 * 0x200;
    Some(Address(page).add(adrp + ldr))
}

impl Module {
    /// Tries attaching to a Unity game that is using the standard Mono
    /// backend. When the runtime names a build whose offsets were measured,
    /// those offsets are used. Otherwise this function detects the
    /// [Mono version](Version). If you know the version in advance or it
    /// fails detecting it, use [`attach`](Self::attach) instead.
    pub fn attach_auto_detect(process: &Process) -> (r: Option<Self>)
        ensures
            r == attach_auto_detect_of(*process),
    {
        let (module_range, format, name) = Self::find_runtime_module(process)?;
        let pointer_size = Self::pointer_size(process, module_range, format)?;
        let player = read_module_range(process, "UnityPlayer.so");
        let known = match Identity::read(process, (module_range, name), player, format) {
            Some(identity) => identity.known_build(pointer_size),
            None => None,
        };
        let measured = match known {
            Some((version, offsets)) => Self::attach_with(
                process,
                module_range,
                format,
                pointer_size,
                version,
                offsets,
            ),
            None => None,
        };
        match measured {
            Some(module) => Some(module),
            None => {
                let version = Version::detect(process)?;
                Self::attach(process, version)
            },
        }
    }

    /// Tries attaching to a Unity game that is using the standard Mono
    /// backend with the [Mono version](Version) provided. The version needs
    /// to be correct for this function to work. If you don't know the
    /// version in advance, use [`attach_auto_detect`](Self::attach_auto_detect)
    /// instead.
    pub fn attach(process: &Process, version: Version) -> (r: Option<Self>)
        ensures
            r == attach_of(*process, version),
    {
        let (module_range, format, _) = Self::find_runtime_module(process)?;
        let pointer_size = Self::pointer_size(process, module_range, format)?;
        let offsets = MonoOffsets::new(version, pointer_size, format)?;
        Self::attach_with(process, module_range, format, pointer_size, version, offsets)
    }

    /// Finds the runtime library the game loaded, its format and its name.
    pub fn find_runtime_module(process: &Process) -> (r: Option<((Address, u64), BinaryFormat, &'static str)>)
        ensures
            match r {
                Some((range, format, name)) => runtime_module_of(*process) == Some(
                    (range, format, name.spec_bytes()),
                ),
                None => runtime_module_of(*process).is_none(),
            },
    {
        if let Some(r) = read_module_range(process, "mono.dll") {
            return Some((r, BinaryFormat::PE, "mono.dll"));
        }
        if let Some(r) = read_module_range(process, "libmono.so") {
            return Some((r, BinaryFormat::ELF, "libmono.so"));
        }
        if let Some(r) = read_module_range(process, "libmono.0.dylib") {
            return Some((r, BinaryFormat::MachO, "libmono.0.dylib"));
        }
        if let Some(r) = read_module_range(process, "mono-2.0-bdwgc.dll") {
            return Some((r, BinaryFormat::PE, "mono-2.0-bdwgc.dll"));
        }
        if let Some(r) = read_module_range(process, "libmonobdwgc-2.0.so") {
            return Some((r, BinaryFormat::ELF, "libmonobdwgc-2.0.so"));
        }
        if let Some(r) = read_module_range(process, "libmonobdwgc-2.0.dylib") {
            return Some((r, BinaryFormat::MachO, "libmonobdwgc-2.0.dylib"));
        }
        None
    }

    /// Reads the pointer width of the runtime library as its format says.
    pub fn pointer_size(process: &Process, module_range: (Address, u64), format: BinaryFormat) -> (r:
        Option<PointerSize>)
        ensures
            r == pointer_size_in(*process, module_range.0.0, format),
    {
        match format {
            BinaryFormat::PE => pe::read_pointer_size(process, module_range.0),
            BinaryFormat::ELF => elf::pointer_size(process, module_range.0),
            BinaryFormat::MachO => macho::pointer_size(process, module_range.0),
        }
    }

    /// Finds where the runtime's `mono_assembly_foreach` starts among the
    /// library's exported symbols.
    pub fn root_function(process: &Process, module_range: (Address, u64), format: BinaryFormat) -> (r:
        Option<Address>)
        ensures
            match r {
                Some(a) => root_function_of(*process, module_range.0.0, format) == Some(a.0),
                None => root_function_of(*process, module_range.0.0, format).is_none(),
            },
    {
        let name = "mono_assembly_foreach".as_bytes();
        let macho_name = "_mono_assembly_foreach".as_bytes();
        match format {
            BinaryFormat::PE => pe::find_export(process, module_range.0, name),
            BinaryFormat::ELF => elf::find_symbol(process, module_range.0, name),
            BinaryFormat::MachO => macho::find_symbol(process, module_range.0, macho_name),
        }
    }

    /// Finds the global holding the loaded assemblies in the code of
    /// `mono_assembly_foreach`: x64 code loads it `rip`-relative, arm64 code
    /// through `adrp` and `ldr`, and x86 code names it absolutely, pushing it
    /// or loading it into `ecx`.
    pub fn find_assemblies(process: &Process, root: Address, pointer_size: PointerSize, format: BinaryFormat) -> (r:
        Option<Address>)
        ensures
            r == assemblies_of(*process, root.0, pointer_size, format),
    {
        match (pointer_size, format) {
            (PointerSize::Bit64, BinaryFormat::PE) => {
                let sig = Signature::new("48 8B 0D");
                read_relative_load(process, root, &sig)
            },
            (PointerSize::Bit64, BinaryFormat::ELF) => {
                let sig = Signature::new("48 8B 3D");
                read_relative_load(process, root, &sig)
            },
            (PointerSize::Bit64, BinaryFormat::MachO) => {
                let sig = Signature::new("48 8B 3D");
                if first_matching(process, &sig, (root, 0x100)).is_some() {
                    read_relative_load(process, root, &sig)
                } else {
                    let arm = Signature {
                        needle: vec![0x17u8, 0, 0, 0x90, 0xE0, 0x02, 0x40, 0xF9],
                        mask: vec![0x1Fu8, 0, 0, 0x9F, 0xFF, 0x03, 0xC0, 0xFF],
                    };
                    proof {
                        assert(arm.needle@ =~= arm64_needle());
                        assert(arm.mask@ =~= arm64_mask());
                    }
                    let hit = first_matching(process, &arm, (root, 0x100))?;
                    read_arm64_target(process, hit)
                }
            },
            (PointerSize::Bit32, BinaryFormat::PE) => {
                let push = Signature::new("FF 35");
                let load = Signature::new("8B 0D");
                let hit = match first_matching(process, &push, (root, 0x100)) {
                    Some(h) => h,
                    None => first_matching(process, &load, (root, 0x100))?,
                };
                read_absolute(process, hit.add(2))
            },
            _ => None,
        }
    }

    /// Attaches with a version and its layout inside the given runtime
    /// library: `mono_assembly_foreach` is found among its exports, and the
    /// global holding the loaded assemblies in that function's code.
    pub fn attach_with(
        process: &Process,
        module_range: (Address, u64),
        format: BinaryFormat,
        pointer_size: PointerSize,
        version: Version,
        offsets: MonoOffsets,
    ) -> (r: Option<Self>)
        ensures
            r == attach_with_of(*process, module_range, format, pointer_size, version, offsets),
    {
        let root = Self::root_function(process, module_range, format)?;
        let assemblies = Self::find_assemblies(process, root, pointer_size, format)?;
        Some(Module { assemblies, version, offsets, pointer_size })
    }

    /// Retrieves the [Mono version](Version) of the module.
    pub fn get_version(&self) -> (r: Version)
        ensures
            r == self.version,
    {
        self.version
    }

    /// Retrieves the [pointer size](PointerSize) of the process/module.
    pub fn get_pointer_size(&self) -> (r: PointerSize)
        ensures
            r == self.pointer_size,
    {
        self.pointer_size
    }

    /// The shared walk this module reads with.
    pub fn walk(&self) -> (w: Walk)
        ensures
            w == walk_of(*self),
    {
        Walk {
            runtime: managed::Runtime::Mono(
                managed::MonoRuntime {
                    assemblies: self.assemblies,
                    class_cache: self.offsets.image.class_cache,
                    hash_table_size: self.offsets.hash_table.size as u16,
                    hash_table_table: self.offsets.hash_table.table as u16,
                    next_class_cache: self.offsets.class.next_class_cache,
                    field_count: self.offsets.class.field_count,
                    class_kind: self.offsets.class.class_kind,
                    generic_class: self.offsets.generic.generic_class,
                    container_class: self.offsets.generic.container_class,
                    type_data: self.offsets.type_words.data,
                    type_kind: self.offsets.type_words.kind,
                    runtime_info: self.offsets.class.runtime_info,
                    vtable_size: self.offsets.class.vtable_size as u16,
                    vtable: self.offsets.v_table.vtable as u16,
                    statics_in_vtable_data: matches!(self.version, Version::V1 | Version::V1Cattrs),
                },
            ),
            offsets: managed::WalkOffsets {
                assembly: managed::AssemblyOffsets {
                    name_in_image: widened(self.offsets.image.assembly_name),
                    name_in_assembly: widened(self.offsets.assembly.aname),
                    image: self.offsets.assembly.image as u16,
                },
                class: managed::ClassOffsets {
                    name: self.offsets.class.name as u16,
                    namespace: self.offsets.class.namespace as u16,
                    parent: self.offsets.class.parent as u16,
                    declaring: self.offsets.class.nested_in,
                    instance_size: self.offsets.class.instance_size,
                    fields: self.offsets.class.fields as u16,
                },
                field: managed::FieldOffsets {
                    name: self.offsets.field.name as u16,
                    type_: self.offsets.field.type_,
                    offset: self.offsets.field.offset as u16,
                    stride: self.offsets.field.alignment as u16,
                },
            },
            stop: managed::ClimbStop::unity(),
            pointer_size: self.pointer_size,
        }
    }

    /// Looks for the specified binary [image](Image) inside the target
    /// process. An [image](Image) is a .NET DLL that is loaded by the game.
    /// The `Assembly-CSharp` [image](Image) is the main game assembly, and
    /// contains all the game logic. The
    /// [`get_default_image`](Self::get_default_image) function is a
    /// shorthand for this function that accesses the `Assembly-CSharp`
    /// [image](Image).
    pub fn get_image(&self, process: &Process, assembly_name: &str) -> (r: Option<Image>)
        ensures
            match r {
                Some(i) => walk_of(*self).find_image_of(*process, assembly_name.spec_bytes())
                    == Some(i.image.0),
                None => walk_of(*self).find_image_of(
                    *process,
                    assembly_name.spec_bytes(),
                ).is_none(),
            },
    {
        match self.walk().find_image(process, assembly_name) {
            Some(image) => Some(Image { image: image.address }),
            None => None,
        }
    }

    /// Looks for the `Assembly-CSharp` binary [image](Image) inside the
    /// target process: a shorthand for [`get_image`](Self::get_image).
    pub fn get_default_image(&self, process: &Process) -> (r: Option<Image>)
        ensures
            match r {
                Some(i) => walk_of(*self).find_image_of(*process, "Assembly-CSharp".spec_bytes())
                    == Some(i.image.0),
                None => walk_of(*self).find_image_of(
                    *process,
                    "Assembly-CSharp".spec_bytes(),
                ).is_none(),
            },
    {
        self.get_image(process, "Assembly-CSharp")
    }

    /// Resolves where a `List` keeps its backing array and live count,
    /// finding `System.Collections.Generic.List` in the class hierarchy of
    /// the object referenced at the given address. An object that is not a
    /// list misses, as does a null reference.
    pub fn get_list_offsets(&self, process: &Process, at: Address) -> (r: Option<ListOffsets>)
        ensures
            r == match referenced(*process, self.pointer_size, at.0) {
                Some(object) => walk_of(*self).list_offsets_of(*process, object),
                None => None,
            },
    {
        let object = process.read_nonnull(at, self.pointer_size)?;
        self.walk().list_offsets(process, object)
    }

    /// Resolves where a `Dictionary` keeps its backing entries and live
    /// counts, and how one entry lays out, from the object referenced at the
    /// given address.
    pub fn get_dictionary_offsets(&self, process: &Process, at: Address) -> (r: Option<
        DictionaryOffsets,
    >)
        ensures
            r == match referenced(*process, self.pointer_size, at.0) {
                Some(object) => walk_of(*self).dictionary_offsets_of(*process, object),
                None => None,
            },
    {
        let object = process.read_nonnull(at, self.pointer_size)?;
        self.walk().dictionary_offsets(process, object)
    }
    /// Resolves where a `HashSet` keeps its backing slots, live count and
    /// high-water mark, and how one slot lays out. The address must store a
    /// managed reference to a `System.Collections.Generic.HashSet`;
    /// subclasses are supported by finding that class in the object's
    /// hierarchy. The slot layout depends on the hash set's concrete value
    /// type, so the result must only be reused for the same hash set type.
    pub fn get_hash_set_offsets(&self, process: &Process, at: Address) -> (r: Option<HashSetOffsets>)
        ensures
            r == match referenced(*process, self.pointer_size, at.0) {
                Some(object) => walk_of(*self).hash_set_offsets_of(*process, object),
                None => None,
            },
    {
        let object = process.read_nonnull(at, self.pointer_size)?;
        self.walk().hash_set_offsets(process, object)
    }

    /// Reads the managed string the reference stored at `at` holds. A count
    /// past the buffer of `N` units refuses rather than truncates.
    pub fn read_string<const N: usize>(&self, process: &Process, at: Address) -> (r: Result<
        ManagedString<N>,
        Error,
    >)
        ensures
            match r {
                Ok(s) => string_at(*process, self.pointer_size, at.0, N as nat) == Some(s@),
                Err(_) => string_at(*process, self.pointer_size, at.0, N as nat).is_none(),
            },
    {
        readers::read_string::<N>(process, self.pointer_size, at)
    }

    /// Reads the managed string object at `object`, such as an element of a
    /// reference array. A null object refuses.
    pub fn read_string_object<const N: usize>(&self, process: &Process, object: Address) -> (r:
        Result<ManagedString<N>, Error>)
        ensures
            match r {
                Ok(s) => string_object_at(*process, self.pointer_size, object.0, N as nat) == Some(s@),
                Err(_) => string_object_at(*process, self.pointer_size, object.0, N as nat).is_none(),
            },
    {
        readers::read_string_object::<N>(process, self.pointer_size, object)
    }

    /// Reads the managed array of value elements the reference stored at
    /// `at` holds. A length past the buffer of `N` elements refuses.
    pub fn read_array<T: Element, const N: usize>(&self, process: &Process, at: Address) -> (r:
        Result<ManagedArray<T, N>, Error>)
        ensures
            match r {
                Ok(a) => array_at::<T>(*process, self.pointer_size, at.0, N as nat) == Some(a@),
                Err(_) => array_at::<T>(*process, self.pointer_size, at.0, N as nat).is_none(),
            },
    {
        readers::read_array::<T, N>(process, self.pointer_size, at)
    }

    /// Reads the managed array of references the reference stored at `at`
    /// holds, null elements kept in place.
    pub fn read_reference_array<const N: usize>(&self, process: &Process, at: Address) -> (r: Result<
        ManagedArray<Address, N>,
        Error,
    >)
        ensures
            match r {
                Ok(a) => reference_array_at(*process, self.pointer_size, at.0, N as nat) == Some(
                    a@.map_values(|x: Address| x.0),
                ),
                Err(_) => reference_array_at(*process, self.pointer_size, at.0, N as nat).is_none(),
            },
    {
        readers::read_reference_array::<N>(process, self.pointer_size, at)
    }

    /// Reads the live elements of the managed list the reference stored at
    /// `at` holds, with offsets [`get_list_offsets`](Self::get_list_offsets)
    /// resolved earlier. A count past the buffer of `N` elements, or past
    /// the backing array's own length, refuses.
    pub fn read_list<T: Element, const N: usize>(
        &self,
        process: &Process,
        offsets: ListOffsets,
        at: Address,
    ) -> (r: Result<Vec<T>, Error>)
        ensures
            match r {
                Ok(v) => list_at::<T>(*process, self.pointer_size, offsets, at.0, N as nat) == Some(v@),
                Err(_) => list_at::<T>(*process, self.pointer_size, offsets, at.0, N as nat).is_none(),
            },
    {
        readers::read_list::<T, N>(process, self.pointer_size, offsets, at)
    }
    /// Reads the live pairs of the managed dictionary the reference stored
    /// at `at` holds, with offsets
    /// [`get_dictionary_offsets`](Self::get_dictionary_offsets) resolved
    /// earlier. `N` bounds the live pairs; freed entries are skipped, and a
    /// live tally that cannot balance against the counts refuses.
    pub fn read_dictionary<K: Element, V: Element, const N: usize>(
        &self,
        process: &Process,
        offsets: DictionaryOffsets,
        at: Address,
    ) -> (r: Result<Vec<(K, V)>, Error>)
        ensures
            match r {
                Ok(v) => dictionary_at::<K, V>(*process, self.pointer_size, offsets, at.0, N as nat) == Some(v@),
                Err(_) => dictionary_at::<K, V>(*process, self.pointer_size, offsets, at.0, N as nat).is_none(),
            },
    {
        readers::read_dictionary::<K, V, N>(process, self.pointer_size, offsets, at)
    }

    /// Reads the live values of the managed hash set the reference stored
    /// at `at` holds, with offsets
    /// [`get_hash_set_offsets`](Self::get_hash_set_offsets) resolved
    /// earlier. The walk runs to the high-water mark; `N` bounds the live
    /// values, and their tally has to balance against the count exactly.
    pub fn read_hash_set<T: Element, const N: usize>(
        &self,
        process: &Process,
        offsets: HashSetOffsets,
        at: Address,
    ) -> (r: Result<Vec<T>, Error>)
        ensures
            match r {
                Ok(v) => hash_set_at::<T>(*process, self.pointer_size, offsets, at.0, N as nat) == Some(v@),
                Err(_) => hash_set_at::<T>(*process, self.pointer_size, offsets, at.0, N as nat).is_none(),
            },
    {
        readers::read_hash_set::<T, N>(process, self.pointer_size, offsets, at)
    }

    /// Reads the live references of the managed list the reference stored
    /// at `at` holds, at the target's pointer width, null elements kept in
    /// place.
    pub fn read_reference_list<const N: usize>(&self, process: &Process, offsets: ListOffsets, at: Address) -> (r:
        Result<Vec<Address>, Error>)
        ensures
            match r {
                Ok(v) => reference_list_at(*process, self.pointer_size, offsets, at.0, N as nat) == Some(
                    v@.map_values(|a: Address| a.0),
                ),
                Err(_) => reference_list_at(*process, self.pointer_size, offsets, at.0, N as nat).is_none(),
            },
    {
        readers::read_reference_list::<N>(process, self.pointer_size, offsets, at)
    }
}

} // verus!
