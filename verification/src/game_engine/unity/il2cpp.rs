//! Support for attaching to Unity games that are using the IL2CPP backend.

use vstd::prelude::*;
use vstd::string::StringSliceAdditionalSpecFns;

pub mod builds;
pub mod class;
pub mod image;
pub mod offsets;
pub mod pointer;
pub mod profiles;
pub mod version;

pub use class::Class;
pub use image::Image;
pub use pointer::UnityPointer;
pub use offsets::{
    AssemblyOffsets, ClassOffsets, FieldInfoOffsets, GenericOffsets, ImageOffsets, Profile,
    TypeOffsets, TypeStart,
};
pub use version::Version;

use builds::{nearest, nearest_build};
use super::managed;
use super::managed::{unity_stop, DictionaryOffsets, HashSetOffsets, ListOffsets, Walk};
use crate::file_format::pe;
use crate::file_format::pe::{file_version, pointer_size_of, size_of_image};
use crate::primitives::{wrap_add, Address, PointerSize};
use crate::process::{Error, Process};
use crate::signature::{pattern_scan, Signature};

use super::managed::readers;
use super::managed::readers::{
    array_at, dictionary_at, hash_set_at, list_at, reference_array_at, reference_list_at, string_at,
    string_object_at,
};
use super::managed::{Element, ManagedArray, ManagedString};

verus! {

/// Represents access to a Unity game that is using the IL2CPP backend.
#[derive(Copy, Clone, Debug)]
pub struct Module {
    /// The global holding the begin and end of the assemblies vector.
    pub assemblies: Address,
    /// The global holding the type info definition table.
    pub type_info_definition_table: Address,
    /// The layout the module reads with.
    pub profile: Profile,
    /// The pointer width of the target.
    pub pointer_size: PointerSize,
}

/// The code shapes the global scans accept, each naming what a match of it
/// yields.
#[derive(Copy, Clone, Debug)]
pub enum CodeHit {
    /// `jne; mov rbx, [begin]; cmp rbx, [end]`, yielding the vector's begin.
    X64Vector,
    /// `lea rcx, [name]`, yielding where the displacement sits, when it
    /// reaches the given name.
    X64NameLoad(Address),
    /// `jne; mov esi, [begin]; sub edi, ecx; cmp esi, [end]`, yielding the
    /// vector's begin.
    X86Vector,
    /// `push offset name; call`, yielding where the operand sits, when it is
    /// the given name.
    X86NamePush(Address),
}

/// The address a displacement at `at` reaches from the next instruction.
pub open spec fn displaced(p: Process, at: u64) -> Option<u64> {
    match p.mem_i32(at) {
        Some(d) => Some(wrap_add(wrap_add(at, 4), d as int)),
        None => None,
    }
}

/// The absolute 32-bit address stored at `at`.
pub open spec fn absolute(p: Process, at: u64) -> Option<u64> {
    match p.mem_u32(at) {
        Some(v) => Some(v as u64),
        None => None,
    }
}

/// What one match of a code shape yields, when it is the code the scan
/// looks for. The end of a vector sits one pointer past its begin.
pub open spec fn hit_yield(p: Process, kind: CodeHit, hit: u64) -> Option<Address> {
    match kind {
        CodeHit::X64Vector => match (displaced(p, wrap_add(hit, 5)), displaced(p, wrap_add(hit, 12))) {
            (Some(begin), Some(end)) => if end == wrap_add(begin, 8) {
                Some(Address(begin))
            } else {
                None
            },
            _ => None,
        },
        CodeHit::X64NameLoad(name) => if displaced(p, wrap_add(hit, 3)) == Some(name.0) {
            Some(Address(wrap_add(hit, 3)))
        } else {
            None
        },
        CodeHit::X86Vector => match (absolute(p, wrap_add(hit, 4)), absolute(p, wrap_add(hit, 12))) {
            (Some(begin), Some(end)) => if end == wrap_add(begin, 4) {
                Some(Address(begin))
            } else {
                None
            },
            _ => None,
        },
        CodeHit::X86NamePush(name) => if absolute(p, wrap_add(hit, 1)) == Some(name.0) {
            Some(Address(wrap_add(hit, 1)))
        } else {
            None
        },
    }
}

/// What the first match that yields anything yields.
pub open spec fn first_yield(p: Process, kind: CodeHit, hits: Seq<int>) -> Option<Address>
    decreases hits.len(),
{
    if hits.len() == 0 {
        None
    } else {
        match hit_yield(p, kind, hits[0] as u64) {
            Some(a) => Some(a),
            None => first_yield(p, kind, hits.drop_first()),
        }
    }
}

/// The lowest match of a written pattern in a range.
pub open spec fn first_match(p: Process, pattern: Seq<u8>, range: (Address, u64)) -> Option<Address> {
    let hits = pattern_scan(p, pattern, range.0.0, range.1);
    if hits.len() > 0 {
        Some(Address(hits[0] as u64))
    } else {
        None
    }
}

/// An address moved `by` bytes on, when there is one.
pub open spec fn moved(a: Option<Address>, by: u64) -> Option<Address> {
    match a {
        Some(a) => Some(Address(wrap_add(a.0, by as int))),
        None => None,
    }
}

/// The lower of two addresses, either of which may be missing.
pub open spec fn earliest(a: Option<Address>, b: Option<Address>) -> Option<Address> {
    match (a, b) {
        (Some(x), Some(y)) => if y.0 < x.0 {
            Some(y)
        } else {
            Some(x)
        },
        (Some(x), None) => Some(x),
        (None, y) => y,
    }
}

/// Where the module ends, saturating.
pub open spec fn module_end(module: (Address, u64)) -> u64 {
    if module.0.0 + module.1 > u64::MAX {
        u64::MAX
    } else {
        (module.0.0 + module.1) as u64
    }
}

/// The range from `start` for up to `len` bytes, cut at the module's end.
pub open spec fn window(module: (Address, u64), start: Address, len: u64) -> (Address, u64) {
    let end = module_end(module);
    let room: u64 = if end >= start.0 {
        (end - start.0) as u64
    } else {
        0
    };
    (start, if len <= room { len } else { room })
}

/// The two globals, once both lie inside the module.
pub open spec fn inside(module: (Address, u64), assemblies: Address, table: Address) -> Option<
    (Address, Address),
> {
    let end = module_end(module);
    if module.0.0 <= assemblies.0 < end && module.0.0 <= table.0 < end {
        Some((assemblies, table))
    } else {
        None
    }
}

/// `global-metadata.dat` and its nul.
pub open spec fn metadata_pattern() -> Seq<u8> {
    "67 6C 6F 62 61 6C 2D 6D 65 74 61 64 61 74 61 2E 64 61 74 00".spec_bytes()
}

/// The x64 loop over the assemblies vector.
pub open spec fn x64_vector_pattern() -> Seq<u8> {
    "75 ?? 48 8B 1D ?? ?? ?? ?? 48 3B 1D ?? ?? ?? ??".spec_bytes()
}

/// `lea rcx, [rip + disp]`.
pub open spec fn x64_lea_pattern() -> Seq<u8> {
    "48 8D 0D ?? ?? ?? ??".spec_bytes()
}

/// `shr rcx, imm8`.
pub open spec fn x64_shr_pattern() -> Seq<u8> {
    "48 C1 E9".spec_bytes()
}

/// `mov [rip + disp], rax`.
pub open spec fn x64_store_pattern() -> Seq<u8> {
    "48 89 05 ?? ?? ?? ??".spec_bytes()
}

/// The x86 loop over the assemblies vector.
pub open spec fn x86_vector_pattern() -> Seq<u8> {
    "75 ?? 8B 35 ?? ?? ?? ?? 2B F9 3B 35 ?? ?? ?? ??".spec_bytes()
}

/// `push offset name; call`.
pub open spec fn x86_push_pattern() -> Seq<u8> {
    "68 ?? ?? ?? ?? E8".spec_bytes()
}

/// `shr edx, imm8; push edx; call; mov [table], eax`: a count in bytes,
/// divided before the store.
pub open spec fn x86_divided_pattern() -> Seq<u8> {
    "C1 EA ?? 52 E8 ?? ?? ?? ?? A3 ?? ?? ?? ??".spec_bytes()
}

/// The divided store, with `ecx` reloaded after the call.
pub open spec fn x86_divided_reload_pattern() -> Seq<u8> {
    "C1 EA ?? 52 E8 ?? ?? ?? ?? 8B 0D ?? ?? ?? ?? A3 ?? ?? ?? ??".spec_bytes()
}

/// `push dword [eax + 0xF4]; call; mov [table], eax`: the count straight
/// from the header.
pub open spec fn x86_pushed_pattern() -> Seq<u8> {
    "FF B0 F4 00 00 00 E8 ?? ?? ?? ?? A3 ?? ?? ?? ??".spec_bytes()
}

/// Where the string naming the metadata file sits in the module.
pub open spec fn metadata_name_of(p: Process, module: (Address, u64)) -> Option<Address> {
    first_match(p, metadata_pattern(), module)
}

/// The assemblies vector and the type-info table found in x64 code.
pub open spec fn globals_x64_of(p: Process, module: (Address, u64)) -> Option<(Address, Address)> {
    let start = module.0.0;
    let len = module.1;
    match first_yield(p, CodeHit::X64Vector, pattern_scan(p, x64_vector_pattern(), start, len)) {
        None => None,
        Some(assemblies) => match metadata_name_of(p, module) {
            None => None,
            Some(name) => match first_yield(
                p,
                CodeHit::X64NameLoad(name),
                pattern_scan(p, x64_lea_pattern(), start, len),
            ) {
                None => None,
                Some(lea) => match moved(first_match(p, x64_shr_pattern(), window(module, lea, 0x200)), 3) {
                    None => None,
                    Some(shr) => match moved(
                        first_match(p, x64_store_pattern(), window(module, shr, 0x100)),
                        3,
                    ) {
                        None => None,
                        Some(store) => match displaced(p, store.0) {
                            None => None,
                            Some(table) => inside(module, assemblies, Address(table)),
                        },
                    },
                },
            },
        },
    }
}

/// The assemblies vector and the type-info table found in x86 code.
pub open spec fn globals_x86_of(p: Process, module: (Address, u64)) -> Option<(Address, Address)> {
    let start = module.0.0;
    let len = module.1;
    match first_yield(p, CodeHit::X86Vector, pattern_scan(p, x86_vector_pattern(), start, len)) {
        None => None,
        Some(assemblies) => match metadata_name_of(p, module) {
            None => None,
            Some(name) => match first_yield(
                p,
                CodeHit::X86NamePush(name),
                pattern_scan(p, x86_push_pattern(), start, len),
            ) {
                None => None,
                Some(push) => {
                    let w = window(module, push, 0x400);
                    match earliest(
                        earliest(
                            moved(first_match(p, x86_divided_pattern(), w), 10),
                            moved(first_match(p, x86_divided_reload_pattern(), w), 16),
                        ),
                        moved(first_match(p, x86_pushed_pattern(), w), 12),
                    ) {
                        None => None,
                        Some(store) => match absolute(p, store.0) {
                            None => None,
                            Some(table) => inside(module, assemblies, Address(table)),
                        },
                    }
                },
            },
        },
    }
}

/// `GameAssembly.dll` and the size of its image.
pub open spec fn runtime_module_of(p: Process) -> Option<(Address, u64)> {
    match p.module_named("GameAssembly.dll".spec_bytes()) {
        Some(m) => match size_of_image(p, m.base) {
            Some(size) => Some((Address(m.base), size as u64)),
            None => None,
        },
        None => None,
    }
}

/// The Unity version stamped on the player: all four parts of
/// `UnityPlayer.dll`'s file version.
pub open spec fn unity_version_of(p: Process) -> Option<(u16, u16, u16, u16)> {
    match p.module_named("UnityPlayer.dll".spec_bytes()) {
        Some(m) => match file_version(p, m.base) {
            Some(v) => Some((v.major_version, v.minor_version, v.build_part, v.private_part)),
            None => None,
        },
        None => None,
    }
}

/// The module found with a profile inside the given runtime module.
pub open spec fn attach_with_of(p: Process, module: (Address, u64), profile: Profile) -> Option<Module> {
    let globals = match profile.pointer_size {
        PointerSize::Bit64 => globals_x64_of(p, module),
        PointerSize::Bit32 => globals_x86_of(p, module),
        PointerSize::Bit16 => None,
    };
    match globals {
        Some((assemblies, table)) => Some(
            Module {
                assemblies,
                type_info_definition_table: table,
                profile,
                pointer_size: profile.pointer_size,
            },
        ),
        None => None,
    }
}

/// The module attached with a profile whose width the runtime module has.
pub open spec fn attach_of(p: Process, profile: Profile) -> Option<Module> {
    match runtime_module_of(p) {
        None => None,
        Some(module) => match pointer_size_of(p, module.0.0) {
            Some(ps) => if ps == profile.pointer_size {
                attach_with_of(p, module, profile)
            } else {
                None
            },
            None => None,
        },
    }
}

/// The module attached with the build nearest the player's Unity version.
pub open spec fn attach_auto_detect_of(p: Process) -> Option<Module> {
    match runtime_module_of(p) {
        None => None,
        Some(module) => match pointer_size_of(p, module.0.0) {
            None => None,
            Some(ps) => match unity_version_of(p) {
                None => None,
                Some(unity) => match nearest_build(unity, ps) {
                    None => None,
                    Some(build) => attach_with_of(p, module, build.profile),
                },
            },
        },
    }
}

/// A measured offset, widened.
pub open spec fn widen(o: Option<u8>) -> Option<u16> {
    match o {
        Some(v) => Some(v as u16),
        None => None,
    }
}

/// The shared walk a module reads with.
pub open spec fn walk_of(m: Module) -> Walk {
    let (handle, inline) = match m.profile.image.type_start {
        TypeStart::Inline(at) => (at, true),
        TypeStart::Handle(at) => (at, false),
    };
    Walk {
        runtime: managed::Runtime::Il2Cpp(
            managed::Il2CppRuntime {
                assemblies: m.assemblies,
                type_info_definition_table: m.type_info_definition_table,
                type_count: m.profile.image.type_count as u16,
                metadata_handle: handle as u16,
                handle_is_inline: inline,
                field_count: m.profile.class.field_count,
                static_fields: m.profile.class.static_fields as u16,
                cached_class: m.profile.generic.cached_class,
                type_data: m.profile.type_.data,
                type_kind: m.profile.type_.kind,
            },
        ),
        offsets: managed::WalkOffsets {
            assembly: managed::AssemblyOffsets {
                name_in_image: widen(m.profile.image.assembly_name),
                name_in_assembly: widen(m.profile.assembly.name),
                image: m.profile.assembly.image as u16,
            },
            class: managed::ClassOffsets {
                name: m.profile.class.name as u16,
                namespace: m.profile.class.namespace as u16,
                parent: m.profile.class.parent as u16,
                declaring: m.profile.class.declaring_type,
                instance_size: m.profile.class.instance_size,
                fields: m.profile.class.fields as u16,
            },
            field: managed::FieldOffsets {
                name: m.profile.field.name as u16,
                type_: m.profile.field.type_,
                offset: m.profile.field.offset as u16,
                stride: m.profile.field.size as u16,
            },
        },
        stop: unity_stop(),
        pointer_size: m.pointer_size,
    }
}

/// The object a reference at `at` holds, when it is not null.
pub open spec fn referenced(p: Process, ps: PointerSize, at: u64) -> Option<u64> {
    p.mem_nonnull(at, ps)
}

/// What one match of a code shape yields.
fn hit_yields(process: &Process, kind: CodeHit, hit: Address) -> (r: Option<Address>)
    ensures
        r == hit_yield(*process, kind, hit.0),
{
    match kind {
        CodeHit::X64Vector => {
            let begin = read_displaced(process, hit.add(5))?;
            let end = read_displaced(process, hit.add(12))?;
            if end.0 == begin.add(8).0 {
                Some(begin)
            } else {
                None
            }
        },
        CodeHit::X64NameLoad(name) => {
            let at = hit.add(3);
            match read_displaced(process, at) {
                Some(target) => if target.0 == name.0 {
                    Some(at)
                } else {
                    None
                },
                None => None,
            }
        },
        CodeHit::X86Vector => {
            let begin = read_absolute(process, hit.add(4))?;
            let end = read_absolute(process, hit.add(12))?;
            if end.0 == begin.add(4).0 {
                Some(begin)
            } else {
                None
            }
        },
        CodeHit::X86NamePush(name) => {
            let at = hit.add(1);
            match read_absolute(process, at) {
                Some(target) => if target.0 == name.0 {
                    Some(at)
                } else {
                    None
                },
                None => None,
            }
        },
    }
}

/// Reads the address a displacement at `at` reaches from the next
/// instruction.
pub(crate) fn read_displaced(process: &Process, at: Address) -> (r: Option<Address>)
    ensures
        match r {
            Some(a) => displaced(*process, at.0) == Some(a.0),
            None => displaced(*process, at.0).is_none(),
        },
{
    let d = process.read_i32(at)?;
    Some(at.add(4).add_signed(d as i64))
}

/// Reads the absolute 32-bit address stored at `at`.
pub(crate) fn read_absolute(process: &Process, at: Address) -> (r: Option<Address>)
    ensures
        match r {
            Some(a) => absolute(*process, at.0) == Some(a.0),
            None => absolute(*process, at.0).is_none(),
        },
{
    let v = process.read_u32(at)?;
    Some(Address(v as u64))
}

/// What the first match that yields anything yields.
fn first_yielding(process: &Process, kind: CodeHit, hits: &Vec<Address>) -> (r: Option<Address>)
    ensures
        r == first_yield(*process, kind, hits@.map_values(|a: Address| a.0 as int)),
{
    let ghost all = hits@.map_values(|a: Address| a.0 as int);
    let mut i: usize = 0;
    proof {
        assert(all.skip(0) =~= all);
    }
    while i < hits.len()
        invariant
            0 <= i <= hits@.len(),
            all == hits@.map_values(|a: Address| a.0 as int),
            first_yield(*process, kind, all) == first_yield(*process, kind, all.skip(i as int)),
        decreases hits@.len() - i,
    {
        proof {
            assert(all.skip(i as int)[0] == hits@[i as int].0 as int);
            assert(all.skip(i as int).drop_first() =~= all.skip(i + 1));
        }
        let found = hit_yields(process, kind, hits[i]);
        if found.is_some() {
            return found;
        }
        i += 1;
    }
    proof {
        assert(all.skip(i as int).len() == 0);
    }
    None
}

/// The lowest match of a signature in a range.
pub(crate) fn first_matching(process: &Process, sig: &Signature, range: (Address, u64)) -> (r: Option<Address>)
    ensures
        match r {
            Some(a) => sig.matches_in(*process, range.0.0, range.1).len() > 0 && a.0 as int
                == sig.matches_in(*process, range.0.0, range.1)[0],
            None => sig.matches_in(*process, range.0.0, range.1).len() == 0,
        },
{
    sig.scan_process_range(process, range)
}

/// The range from `start` for up to `len` bytes, cut at the module's end.
fn within(module: (Address, u64), start: Address, len: u64) -> (r: (Address, u64))
    ensures
        r == window(module, start, len),
{
    let end = module.0.0.saturating_add(module.1);
    let room = end.saturating_sub(start.0);
    (start, if len <= room { len } else { room })
}

/// An address moved `by` bytes on, when there is one.
fn moved_by(a: Option<Address>, by: u64) -> (r: Option<Address>)
    ensures
        r == moved(a, by),
{
    match a {
        Some(a) => Some(a.add(by)),
        None => None,
    }
}

/// The lower of two addresses, either of which may be missing.
fn earlier(a: Option<Address>, b: Option<Address>) -> (r: Option<Address>)
    ensures
        r == earliest(a, b),
{
    match (a, b) {
        (Some(x), Some(y)) => if y.0 < x.0 {
            Some(y)
        } else {
            Some(x)
        },
        (Some(x), None) => Some(x),
        (None, y) => y,
    }
}

/// Widens a measured offset.
pub(crate) fn widened(o: Option<u8>) -> (r: Option<u16>)
    ensures
        r == widen(o),
{
    match o {
        Some(v) => Some(v as u16),
        None => None,
    }
}

impl Module {
    /// Tries attaching to a Unity game that is using the IL2CPP backend. The
    /// game gets the offsets of the measured build nearest to its Unity
    /// version, its own build when someone measured that version.
    pub fn attach_auto_detect(process: &Process) -> (r: Option<Self>)
        ensures
            r == attach_auto_detect_of(*process),
    {
        let il2cpp_module = Self::find_runtime_module(process)?;
        let pointer_size = pe::read_pointer_size(process, il2cpp_module.0)?;
        let unity = Self::unity_version(process)?;
        let build = nearest(unity, pointer_size)?;
        Self::attach_with(process, il2cpp_module, build.profile)
    }

    /// Tries attaching to a Unity game that is using the IL2CPP backend with
    /// the provided measured [`Profile`]. The profile's pointer width must
    /// match the target process. Use a built-in [`profiles`] function for a
    /// known player, or construct a custom profile for another measured
    /// layout. If the target is not known in advance, use
    /// [`attach_auto_detect`](Self::attach_auto_detect) instead.
    pub fn attach(process: &Process, profile: Profile) -> (r: Option<Self>)
        ensures
            r == attach_of(*process, profile),
    {
        let il2cpp_module = Self::find_runtime_module(process)?;
        let pointer_size = pe::read_pointer_size(process, il2cpp_module.0)?;
        if pointer_size != profile.pointer_size {
            return None;
        }
        Self::attach_with(process, il2cpp_module, profile)
    }

    /// Finds `GameAssembly.dll` and the size of its image.
    pub fn find_runtime_module(process: &Process) -> (r: Option<(Address, u64)>)
        ensures
            r == runtime_module_of(*process),
    {
        let address = match process.get_module_address("GameAssembly.dll") {
            Ok(a) => a,
            Err(_) => return None,
        };
        let size = pe::read_size_of_image(process, address)?;
        Some((address, size as u64))
    }

    /// Reads the Unity version stamped on the player, all four parts of
    /// `UnityPlayer.dll`'s file version.
    pub fn unity_version(process: &Process) -> (r: Option<(u16, u16, u16, u16)>)
        ensures
            r == unity_version_of(*process),
    {
        let unity_player = match process.get_module_address("UnityPlayer.dll") {
            Ok(a) => a,
            Err(_) => return None,
        };
        let file_version = pe::FileVersion::read(process, unity_player)?;
        Some(
            (
                file_version.major_version,
                file_version.minor_version,
                file_version.build_part,
                file_version.private_part,
            ),
        )
    }

    /// Attaches with a profile inside the given runtime module, finding the
    /// globals in the code of the profile's width.
    pub fn attach_with(process: &Process, il2cpp_module: (Address, u64), profile: Profile) -> (r:
        Option<Self>)
        ensures
            r == attach_with_of(*process, il2cpp_module, profile),
    {
        let pointer_size = profile.pointer_size;
        let (assemblies, type_info_definition_table) = match pointer_size {
            PointerSize::Bit64 => Self::globals_x64(process, il2cpp_module)?,
            PointerSize::Bit32 => Self::globals_x86(process, il2cpp_module)?,
            PointerSize::Bit16 => return None,
        };
        Some(Module { assemblies, type_info_definition_table, profile, pointer_size })
    }

    /// Finds the assemblies vector and the type-info table in x64 code. Each
    /// is given as a displacement from the next instruction.
    pub fn globals_x64(process: &Process, il2cpp_module: (Address, u64)) -> (r: Option<
        (Address, Address),
    >)
        ensures
            r == globals_x64_of(*process, il2cpp_module),
    {
        let vector = Signature::new("75 ?? 48 8B 1D ?? ?? ?? ?? 48 3B 1D ?? ?? ?? ??");
        let hits = vector.scan_all(process, il2cpp_module);
        let assemblies = first_yielding(process, CodeHit::X64Vector, &hits)?;
        let s_metadata = Self::metadata_name(process, il2cpp_module)?;
        let lea_sig = Signature::new("48 8D 0D ?? ?? ?? ??");
        let loads = lea_sig.scan_all(process, il2cpp_module);
        let lea = first_yielding(process, CodeHit::X64NameLoad(s_metadata), &loads)?;
        let shr_sig = Signature::new("48 C1 E9");
        let shr = moved_by(first_matching(process, &shr_sig, within(il2cpp_module, lea, 0x200)), 3)?;
        let store_sig = Signature::new("48 89 05 ?? ?? ?? ??");
        let store = moved_by(first_matching(process, &store_sig, within(il2cpp_module, shr, 0x100)), 3)?;
        let table = read_displaced(process, store)?;
        Self::inside(il2cpp_module, assemblies, table)
    }

    /// Finds the assemblies vector and the type-info table in x86 code. Each
    /// is given as an absolute address. The table is the first store after
    /// the name, in whichever of its three shapes: through Unity 6000.2 the
    /// count is a byte size, so a shift divides it first, and some of those
    /// builds reload `ecx` after the call; from 6000.3 the count comes
    /// straight from the header, at 0xF4.
    pub fn globals_x86(process: &Process, il2cpp_module: (Address, u64)) -> (r: Option<
        (Address, Address),
    >)
        ensures
            r == globals_x86_of(*process, il2cpp_module),
    {
        let vector = Signature::new("75 ?? 8B 35 ?? ?? ?? ?? 2B F9 3B 35 ?? ?? ?? ??");
        let hits = vector.scan_all(process, il2cpp_module);
        let assemblies = first_yielding(process, CodeHit::X86Vector, &hits)?;
        let s_metadata = Self::metadata_name(process, il2cpp_module)?;
        let push_sig = Signature::new("68 ?? ?? ?? ?? E8");
        let pushes = push_sig.scan_all(process, il2cpp_module);
        let push = first_yielding(process, CodeHit::X86NamePush(s_metadata), &pushes)?;
        let window = within(il2cpp_module, push, 0x400);
        let divided = Signature::new("C1 EA ?? 52 E8 ?? ?? ?? ?? A3 ?? ?? ?? ??");
        let divided_reload = Signature::new(
            "C1 EA ?? 52 E8 ?? ?? ?? ?? 8B 0D ?? ?? ?? ?? A3 ?? ?? ?? ??",
        );
        let pushed = Signature::new("FF B0 F4 00 00 00 E8 ?? ?? ?? ?? A3 ?? ?? ?? ??");
        let store = earlier(
            earlier(
                moved_by(first_matching(process, &divided, window), 10),
                moved_by(first_matching(process, &divided_reload, window), 16),
            ),
            moved_by(first_matching(process, &pushed, window), 12),
        )?;
        let table = read_absolute(process, store)?;
        Self::inside(il2cpp_module, assemblies, table)
    }

    /// Finds the string `global-metadata.dat` in the module.
    pub fn metadata_name(process: &Process, il2cpp_module: (Address, u64)) -> (r: Option<Address>)
        ensures
            r == metadata_name_of(*process, il2cpp_module),
    {
        let name = Signature::new("67 6C 6F 62 61 6C 2D 6D 65 74 61 64 61 74 61 2E 64 61 74 00");
        first_matching(process, &name, il2cpp_module)
    }

    /// The two globals, once both lie inside the module.
    pub fn inside(module: (Address, u64), assemblies: Address, table: Address) -> (r: Option<
        (Address, Address),
    >)
        ensures
            r == inside(module, assemblies, table),
    {
        let end = module.0.0.saturating_add(module.1);
        if module.0.0 <= assemblies.0 && assemblies.0 < end && module.0.0 <= table.0 && table.0 < end {
            Some((assemblies, table))
        } else {
            None
        }
    }

    /// Retrieves the [pointer size](PointerSize) of the target process. This
    /// determines whether managed reference keys and values should be read
    /// as 32-bit or 64-bit addresses.
    pub fn get_pointer_size(&self) -> (r: PointerSize)
        ensures
            r == self.pointer_size,
    {
        self.pointer_size
    }

    /// The shared walk this module reads with.
    pub fn walk(&self) -> (w: Walk)
        ensures
            w == walk_of(*self),
    {
        let (metadata_handle, handle_is_inline) = match self.profile.image.type_start {
            TypeStart::Inline(at) => (at, true),
            TypeStart::Handle(at) => (at, false),
        };
        Walk {
            runtime: managed::Runtime::Il2Cpp(
                managed::Il2CppRuntime {
                    assemblies: self.assemblies,
                    type_info_definition_table: self.type_info_definition_table,
                    type_count: self.profile.image.type_count as u16,
                    metadata_handle: metadata_handle as u16,
                    handle_is_inline,
                    field_count: self.profile.class.field_count,
                    static_fields: self.profile.class.static_fields as u16,
                    cached_class: self.profile.generic.cached_class,
                    type_data: self.profile.type_.data,
                    type_kind: self.profile.type_.kind,
                },
            ),
            offsets: managed::WalkOffsets {
                assembly: managed::AssemblyOffsets {
                    name_in_image: widened(self.profile.image.assembly_name),
                    name_in_assembly: widened(self.profile.assembly.name),
                    image: self.profile.assembly.image as u16,
                },
                class: managed::ClassOffsets {
                    name: self.profile.class.name as u16,
                    namespace: self.profile.class.namespace as u16,
                    parent: self.profile.class.parent as u16,
                    declaring: self.profile.class.declaring_type,
                    instance_size: self.profile.class.instance_size,
                    fields: self.profile.class.fields as u16,
                },
                field: managed::FieldOffsets {
                    name: self.profile.field.name as u16,
                    type_: self.profile.field.type_,
                    offset: self.profile.field.offset as u16,
                    stride: self.profile.field.size as u16,
                },
            },
            stop: managed::ClimbStop::unity(),
            pointer_size: self.pointer_size,
        }
    }

    /// Looks for the specified binary [image](Image) inside the target
    /// process. An [image](Image) is a .NET DLL that is loaded by the game.
    /// The `Assembly-CSharp` [image](Image) is the main game assembly, and
    /// contains all the game logic. The
    /// [`get_default_image`](Self::get_default_image) function is a
    /// shorthand for this function that accesses the `Assembly-CSharp`
    /// [image](Image).
    pub fn get_image(&self, process: &Process, assembly_name: &str) -> (r: Option<Image>)
        ensures
            match r {
                Some(i) => walk_of(*self).find_image_of(*process, assembly_name.spec_bytes())
                    == Some(i.image.0),
                None => walk_of(*self).find_image_of(
                    *process,
                    assembly_name.spec_bytes(),
                ).is_none(),
            },
    {
        match self.walk().find_image(process, assembly_name) {
            Some(image) => Some(Image { image: image.address }),
            None => None,
        }
    }

    /// Looks for the `Assembly-CSharp` binary [image](Image) inside the
    /// target process: a shorthand for [`get_image`](Self::get_image).
    pub fn get_default_image(&self, process: &Process) -> (r: Option<Image>)
        ensures
            match r {
                Some(i) => walk_of(*self).find_image_of(*process, "Assembly-CSharp".spec_bytes())
                    == Some(i.image.0),
                None => walk_of(*self).find_image_of(
                    *process,
                    "Assembly-CSharp".spec_bytes(),
                ).is_none(),
            },
    {
        self.get_image(process, "Assembly-CSharp")
    }

    /// Resolves where a `List` keeps its backing array and live count,
    /// finding `System.Collections.Generic.List` in the class hierarchy of
    /// the object referenced at the given address. An object that is not a
    /// list misses, as does a null reference.
    pub fn get_list_offsets(&self, process: &Process, at: Address) -> (r: Option<ListOffsets>)
        ensures
            r == match referenced(*process, self.pointer_size, at.0) {
                Some(object) => walk_of(*self).list_offsets_of(*process, object),
                None => None,
            },
    {
        let object = process.read_nonnull(at, self.pointer_size)?;
        self.walk().list_offsets(process, object)
    }

    /// Resolves where a `Dictionary` keeps its backing entries and live
    /// counts, and how one entry lays out. The address must store a managed
    /// reference to a `System.Collections.Generic.Dictionary`; subclasses are
    /// supported by finding that class in the object's hierarchy. The entry
    /// layout depends on the dictionary's concrete key and value types, so
    /// the result must only be reused for the same dictionary type.
    pub fn get_dictionary_offsets(&self, process: &Process, at: Address) -> (r: Option<
        DictionaryOffsets,
    >)
        ensures
            r == match referenced(*process, self.pointer_size, at.0) {
                Some(object) => walk_of(*self).dictionary_offsets_of(*process, object),
                None => None,
            },
    {
        let object = process.read_nonnull(at, self.pointer_size)?;
        self.walk().dictionary_offsets(process, object)
    }
    /// Resolves where a `HashSet` keeps its backing slots, live count and
    /// high-water mark, and how one slot lays out. The address must store a
    /// managed reference to a `System.Collections.Generic.HashSet`;
    /// subclasses are supported by finding that class in the object's
    /// hierarchy. The slot layout depends on the hash set's concrete value
    /// type, so the result must only be reused for the same hash set type.
    pub fn get_hash_set_offsets(&self, process: &Process, at: Address) -> (r: Option<HashSetOffsets>)
        ensures
            r == match referenced(*process, self.pointer_size, at.0) {
                Some(object) => walk_of(*self).hash_set_offsets_of(*process, object),
                None => None,
            },
    {
        let object = process.read_nonnull(at, self.pointer_size)?;
        self.walk().hash_set_offsets(process, object)
    }

    /// Reads the managed string the reference stored at `at` holds. A count
    /// past the buffer of `N` units refuses rather than truncates.
    pub fn read_string<const N: usize>(&self, process: &Process, at: Address) -> (r: Result<
        ManagedString<N>,
        Error,
    >)
        ensures
            match r {
                Ok(s) => string_at(*process, self.pointer_size, at.0, N as nat) == Some(s@),
                Err(_) => string_at(*process, self.pointer_size, at.0, N as nat).is_none(),
            },
    {
        readers::read_string::<N>(process, self.pointer_size, at)
    }

    /// Reads the managed string object at `object`, such as an element of a
    /// reference array. A null object refuses.
    pub fn read_string_object<const N: usize>(&self, process: &Process, object: Address) -> (r:
        Result<ManagedString<N>, Error>)
        ensures
            match r {
                Ok(s) => string_object_at(*process, self.pointer_size, object.0, N as nat) == Some(s@),
                Err(_) => string_object_at(*process, self.pointer_size, object.0, N as nat).is_none(),
            },
    {
        readers::read_string_object::<N>(process, self.pointer_size, object)
    }

    /// Reads the managed array of value elements the reference stored at
    /// `at` holds. A length past the buffer of `N` elements refuses.
    pub fn read_array<T: Element, const N: usize>(&self, process: &Process, at: Address) -> (r:
        Result<ManagedArray<T, N>, Error>)
        ensures
            match r {
                Ok(a) => array_at::<T>(*process, self.pointer_size, at.0, N as nat) == Some(a@),
                Err(_) => array_at::<T>(*process, self.pointer_size, at.0, N as nat).is_none(),
            },
    {
        readers::read_array::<T, N>(process, self.pointer_size, at)
    }

    /// Reads the managed array of references the reference stored at `at`
    /// holds, null elements kept in place.
    pub fn read_reference_array<const N: usize>(&self, process: &Process, at: Address) -> (r: Result<
        ManagedArray<Address, N>,
        Error,
    >)
        ensures
            match r {
                Ok(a) => reference_array_at(*process, self.pointer_size, at.0, N as nat) == Some(
                    a@.map_values(|x: Address| x.0),
                ),
                Err(_) => reference_array_at(*process, self.pointer_size, at.0, N as nat).is_none(),
            },
    {
        readers::read_reference_array::<N>(process, self.pointer_size, at)
    }

    /// Reads the live elements of the managed list the reference stored at
    /// `at` holds, with offsets [`get_list_offsets`](Self::get_list_offsets)
    /// resolved earlier. A count past the buffer of `N` elements, or past
    /// the backing array's own length, refuses.
    pub fn read_list<T: Element, const N: usize>(
        &self,
        process: &Process,
        offsets: ListOffsets,
        at: Address,
    ) -> (r: Result<Vec<T>, Error>)
        ensures
            match r {
                Ok(v) => list_at::<T>(*process, self.pointer_size, offsets, at.0, N as nat) == Some(v@),
                Err(_) => list_at::<T>(*process, self.pointer_size, offsets, at.0, N as nat).is_none(),
            },
    {
        readers::read_list::<T, N>(process, self.pointer_size, offsets, at)
    }
    /// Reads the live pairs of the managed dictionary the reference stored
    /// at `at` holds, with offsets
    /// [`get_dictionary_offsets`](Self::get_dictionary_offsets) resolved
    /// earlier. `N` bounds the live pairs; freed entries are skipped, and a
    /// live tally that cannot balance against the counts refuses.
    pub fn read_dictionary<K: Element, V: Element, const N: usize>(
        &self,
        process: &Process,
        offsets: DictionaryOffsets,
        at: Address,
    ) -> (r: Result<Vec<(K, V)>, Error>)
        ensures
            match r {
                Ok(v) => dictionary_at::<K, V>(*process, self.pointer_size, offsets, at.0, N as nat) == Some(v@),
                Err(_) => dictionary_at::<K, V>(*process, self.pointer_size, offsets, at.0, N as nat).is_none(),
            },
    {
        readers::read_dictionary::<K, V, N>(process, self.pointer_size, offsets, at)
    }

    /// Reads the live values of the managed hash set the reference stored
    /// at `at` holds, with offsets
    /// [`get_hash_set_offsets`](Self::get_hash_set_offsets) resolved
    /// earlier. The walk runs to the high-water mark; `N` bounds the live
    /// values, and their tally has to balance against the count exactly.
    pub fn read_hash_set<T: Element, const N: usize>(
        &self,
        process: &Process,
        offsets: HashSetOffsets,
        at: Address,
    ) -> (r: Result<Vec<T>, Error>)
        ensures
            match r {
                Ok(v) => hash_set_at::<T>(*process, self.pointer_size, offsets, at.0, N as nat) == Some(v@),
                Err(_) => hash_set_at::<T>(*process, self.pointer_size, offsets, at.0, N as nat).is_none(),
            },
    {
        readers::read_hash_set::<T, N>(process, self.pointer_size, offsets, at)
    }

    /// Reads the live references of the managed list the reference stored
    /// at `at` holds, at the target's pointer width, null elements kept in
    /// place.
    pub fn read_reference_list<const N: usize>(&self, process: &Process, offsets: ListOffsets, at: Address) -> (r:
        Result<Vec<Address>, Error>)
        ensures
            match r {
                Ok(v) => reference_list_at(*process, self.pointer_size, offsets, at.0, N as nat) == Some(
                    v@.map_values(|a: Address| a.0),
                ),
                Err(_) => reference_list_at(*process, self.pointer_size, offsets, at.0, N as nat).is_none(),
            },
    {
        readers::read_reference_list::<N>(process, self.pointer_size, offsets, at)
    }
}

} // verus!
