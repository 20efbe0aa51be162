//! Support for attaching to games using the Unreal Engine.

use vstd::prelude::*;
use vstd::string::StringSliceAdditionalSpecFns;

pub mod pointer;

pub use pointer::UnrealPointer;

use crate::file_format::pe;
use crate::file_format::pe::{pointer_size_of, size_of_image};
use crate::primitives::{wrap_add, Address, PointerSize};
use crate::process::{le_u16, Error, Process};
use crate::signature::{pattern_scan, Signature};
use crate::string::{cstr, cstr_at, lemma_cstr_is_a_prefix, lemma_cstr_stops_at_a_nul, read_cstring, ArrayCString};
use crate::text::seq_first;

verus! {

/// How many bytes a name is read as.
pub const CSTR: usize = 128;

/// The version of Unreal Engine used by the game.
#[derive(Copy, Clone, Debug, PartialEq, Eq, Structural, Hash)]
#[allow(missing_docs)]
pub enum Version {
    V4_23,
    V4_24,
    V4_25,
    V4_26,
    V4_27,
    V5_0,
    V5_1,
    V5_2,
    V5_3,
    V5_4,
}

/// Where the engine's objects keep what the walk reads.
#[derive(Copy, Clone, Debug, PartialEq, Eq, Structural)]
pub struct Offsets {
    /// The `FName` of a `UObject`.
    pub uobject_fname: u8,
    /// The class of a `UObject`.
    pub uobject_class: u8,
    /// The parent of a `UClass`.
    pub uclass_super_field: u8,
    /// The first property of a `UClass`.
    pub uclass_property_link: u8,
    /// The `FName` of a property.
    pub uproperty_fname: u8,
    /// Where a property sits inside its object.
    pub uproperty_offset_internal: u8,
    /// The next property in the chain.
    pub uproperty_property_link_next: u8,
}

/// The layout an engine version keeps at a pointer width. Only 64-bit games
/// are supported.
pub open spec fn offsets_of(version: Version, ps: PointerSize) -> Option<Offsets> {
    match ps {
        PointerSize::Bit64 => Some(
            match version {
                Version::V4_23 | Version::V4_24 => Offsets {
                    uobject_fname: 0x18,
                    uobject_class: 0x10,
                    uclass_super_field: 0x40,
                    uclass_property_link: 0x48,
                    uproperty_fname: 0x18,
                    uproperty_offset_internal: 0x44,
                    uproperty_property_link_next: 0x50,
                },
                Version::V4_25 | Version::V4_26 | Version::V4_27 | Version::V5_0 | Version::V5_1
                | Version::V5_2 => Offsets {
                    uobject_fname: 0x18,
                    uobject_class: 0x10,
                    uclass_super_field: 0x40,
                    uclass_property_link: 0x50,
                    uproperty_fname: 0x28,
                    uproperty_offset_internal: 0x4C,
                    uproperty_property_link_next: 0x58,
                },
                Version::V5_3 | Version::V5_4 => Offsets {
                    uobject_fname: 0x18,
                    uobject_class: 0x10,
                    uclass_super_field: 0x40,
                    uclass_property_link: 0x50,
                    uproperty_fname: 0x20,
                    uproperty_offset_internal: 0x44,
                    uproperty_property_link_next: 0x48,
                },
            },
        ),
        _ => None,
    }
}

impl Offsets {
    /// The layout an engine version keeps at a pointer width.
    pub fn new(version: Version, pointer_size: PointerSize) -> (r: Option<Offsets>)
        ensures
            r == offsets_of(version, pointer_size),
    {
        match pointer_size {
            PointerSize::Bit64 => Some(
                match version {
                    // Tested on: Sonic Omens
                    Version::V4_23 | Version::V4_24 => Offsets {
                        uobject_fname: 0x18,
                        uobject_class: 0x10,
                        uclass_super_field: 0x40,
                        uclass_property_link: 0x48,
                        uproperty_fname: 0x18,
                        uproperty_offset_internal: 0x44,
                        uproperty_property_link_next: 0x50,
                    },
                    // Tested on: Tetris Effect / Kao the Kangaroo
                    Version::V4_25 | Version::V4_26 | Version::V4_27 | Version::V5_0
                    | Version::V5_1 | Version::V5_2 => Offsets {
                        uobject_fname: 0x18,
                        uobject_class: 0x10,
                        uclass_super_field: 0x40,
                        uclass_property_link: 0x50,
                        uproperty_fname: 0x28,
                        uproperty_offset_internal: 0x4C,
                        uproperty_property_link_next: 0x58,
                    },
                    // Tested on Unreal Physics
                    Version::V5_3 | Version::V5_4 => Offsets {
                        uobject_fname: 0x18,
                        uobject_class: 0x10,
                        uclass_super_field: 0x40,
                        uclass_property_link: 0x50,
                        uproperty_fname: 0x20,
                        uproperty_offset_internal: 0x44,
                        uproperty_property_link_next: 0x48,
                    },
                },
            ),
            _ => None,
        }
    }
}

/// Represents access to an Unreal Engine game.
///
/// This struct gives immediate access to 2 important structs present in
/// every UE game:
/// - GEngine: a static object that persists throughout the process' lifetime
/// - GWorld: a pointer to the currently loaded UWorld object
#[derive(Copy, Clone, Debug)]
pub struct Module {
    /// The pointer width of the game.
    pub pointer_size: PointerSize,
    /// The layout of the engine's objects.
    pub offsets: Offsets,
    /// Where GEngine lives.
    pub g_engine: Address,
    /// Where GWorld lives.
    pub g_world: Address,
    /// The base of the name pool's chunk array.
    pub fname_base: Address,
}

/// The lowest match of a written pattern in a range.
pub open spec fn first_match(p: Process, pattern: Seq<u8>, range: (Address, u64)) -> Option<u64> {
    let hits = pattern_scan(p, pattern, range.0.0, range.1);
    if hits.len() > 0 {
        Some(hits[0] as u64)
    } else {
        None
    }
}

/// The first of two patterns that matches, with the offset that goes with
/// it added to its lowest match.
pub open spec fn either_match(
    p: Process,
    range: (Address, u64),
    first: Seq<u8>,
    first_offset: u64,
    second: Seq<u8>,
    second_offset: u64,
) -> Option<u64> {
    match first_match(p, first, range) {
        Some(a) => Some(wrap_add(a, first_offset as int)),
        None => match first_match(p, second, range) {
            Some(a) => Some(wrap_add(a, second_offset as int)),
            None => None,
        },
    }
}

/// The address a displacement at `at` reaches from `after` bytes on.
pub open spec fn displaced_from(p: Process, at: u64, after: u64) -> Option<u64> {
    match p.mem_i32(at) {
        Some(d) => Some(wrap_add(wrap_add(at, after as int), d as int)),
        None => None,
    }
}

/// The code loading GEngine, and where the displacement sits in it.
pub open spec fn g_engine_at(p: Process, range: (Address, u64)) -> Option<u64> {
    either_match(p, range, "A8 01 75 ?? 48 C7 05".spec_bytes(), 7, "A8 01 75 ?? C7 05 ??".spec_bytes(), 6)
}

/// The code loading GWorld, and where the displacement sits in it.
pub open spec fn g_world_at(p: Process, range: (Address, u64)) -> Option<u64> {
    either_match(
        p,
        range,
        "80 7C 24 ?? 00 ?? ?? 48 8B 3D ?? ?? ?? ?? 48 ?? ?? ?? ?? ?? ?? ??".spec_bytes(),
        10,
        "48 8B 05 ?? ?? ?? ?? 48 3B ?? 48 0F 44 ?? 48 89 05 ?? ?? ?? ?? E8".spec_bytes(),
        3,
    )
}

/// The code loading the name pool, and where the displacement sits in it.
pub open spec fn fname_pool_at(p: Process, range: (Address, u64)) -> Option<u64> {
    match either_match(
        p,
        range,
        "74 09 48 8D 15 ?? ?? ?? ?? EB 16 ?? ??".spec_bytes(),
        5,
        "89 5C 24 ?? 89 44 24 ?? 74 ?? 48 8D 15".spec_bytes(),
        13,
    ) {
        Some(a) => Some(a),
        None => match first_match(p, "57 0F B7 F8 74 ?? B8 ?? ?? ?? ?? 8B 44".spec_bytes(), range) {
            Some(a) => Some(wrap_add(a, 7)),
            None => None,
        },
    }
}

/// The module of a game at `main`, read with a version's layout.
pub open spec fn attach_of(p: Process, version: Version, main: Address) -> Option<Module> {
    match pointer_size_of(p, main.0) {
        None => None,
        Some(ps) => match offsets_of(version, ps) {
            None => None,
            Some(offsets) => match size_of_image(p, main.0) {
                None => None,
                Some(size) => {
                    let range = (main, size as u64);
                    match g_engine_at(p, range) {
                        None => None,
                        Some(e) => match displaced_from(p, e, 8) {
                            None => None,
                            Some(g_engine) => match g_world_at(p, range) {
                                None => None,
                                Some(w) => match displaced_from(p, w, 4) {
                                    None => None,
                                    Some(g_world) => match fname_pool_at(p, range) {
                                        None => None,
                                        Some(f) => match displaced_from(p, f, 4) {
                                            None => None,
                                            Some(fname_base) => Some(
                                                Module {
                                                    pointer_size: ps,
                                                    offsets,
                                                    g_engine: Address(g_engine),
                                                    g_world: Address(g_world),
                                                    fname_base: Address(fname_base),
                                                },
                                            ),
                                        },
                                    },
                                },
                            },
                        },
                    }
                },
            },
        },
    }
}

/// Reads the address a displacement at `at` reaches from `after` bytes on.
fn read_displaced_from(process: &Process, at: Address, after: u64) -> (r: Option<Address>)
    ensures
        match r {
            Some(a) => displaced_from(*process, at.0, after) == Some(a.0),
            None => displaced_from(*process, at.0, after).is_none(),
        },
{
    let d = process.read_i32(at)?;
    Some(at.add(after).add_signed(d as i64))
}

/// The lowest match of a pattern in a range.
fn scan_first(process: &Process, pattern: &str, range: (Address, u64)) -> (r: Option<u64>)
    ensures
        r == first_match(*process, pattern.spec_bytes(), range),
{
    let sig = Signature::new(pattern);
    match sig.scan_process_range(process, range) {
        Some(a) => Some(a.0),
        None => None,
    }
}

/// The first of two patterns that matches, with its offset added.
fn scan_either(
    process: &Process,
    range: (Address, u64),
    first: &str,
    first_offset: u64,
    second: &str,
    second_offset: u64,
) -> (r: Option<u64>)
    ensures
        r == either_match(*process, range, first.spec_bytes(), first_offset, second.spec_bytes(), second_offset),
{
    match scan_first(process, first, range) {
        Some(a) => Some(Address(a).add(first_offset).0),
        None => match scan_first(process, second, range) {
            Some(a) => Some(Address(a).add(second_offset).0),
            None => None,
        },
    }
}

/// The object a global holds, when it is readable and not null.
pub open spec fn held_object(p: Process, ps: PointerSize, global: u64) -> Option<u64> {
    p.mem_nonnull(global, ps)
}

impl Module {
    /// Tries attaching to a UE game. The UE version needs to be correct for
    /// this function to work.
    pub fn attach(process: &Process, version: Version, main_module_address: Address) -> (r: Option<
        Self,
    >)
        ensures
            r == attach_of(*process, version, main_module_address),
    {
        let pointer_size = pe::read_pointer_size(process, main_module_address)?;
        let offsets = Offsets::new(version, pointer_size)?;
        let module_size = pe::read_size_of_image(process, main_module_address)? as u64;
        let module_range = (main_module_address, module_size);

        let e = scan_either(process, module_range, "A8 01 75 ?? 48 C7 05", 7, "A8 01 75 ?? C7 05 ??", 6)?;
        let g_engine = read_displaced_from(process, Address(e), 8)?;

        let w = scan_either(
            process,
            module_range,
            "80 7C 24 ?? 00 ?? ?? 48 8B 3D ?? ?? ?? ?? 48 ?? ?? ?? ?? ?? ?? ??",
            10,
            "48 8B 05 ?? ?? ?? ?? 48 3B ?? 48 0F 44 ?? 48 89 05 ?? ?? ?? ?? E8",
            3,
        )?;
        let g_world = read_displaced_from(process, Address(w), 4)?;

        let f = match scan_either(
            process,
            module_range,
            "74 09 48 8D 15 ?? ?? ?? ?? EB 16 ?? ??",
            5,
            "89 5C 24 ?? 89 44 24 ?? 74 ?? 48 8D 15",
            13,
        ) {
            Some(a) => a,
            None => Address(scan_first(process, "57 0F B7 F8 74 ?? B8 ?? ?? ?? ?? 8B 44", module_range)?).add(
                7,
            ).0,
        };
        let fname_base = read_displaced_from(process, Address(f), 4)?;

        Some(Module { pointer_size, offsets, g_engine, g_world, fname_base })
    }

    /// Returns the memory pointer to GWorld.
    pub fn g_world(&self) -> (a: Address)
        ensures
            a == self.g_world,
    {
        self.g_world
    }

    /// Returns the memory pointer to GEngine.
    pub fn g_engine(&self) -> (a: Address)
        ensures
            a == self.g_engine,
    {
        self.g_engine
    }

    /// Returns the current instance of GWorld.
    pub fn get_g_world_uobject(&self, process: &Process) -> (r: Option<UObject>)
        ensures
            match r {
                Some(o) => held_object(*process, self.pointer_size, self.g_world.0) == Some(o.object.0),
                None => held_object(*process, self.pointer_size, self.g_world.0).is_none(),
            },
    {
        match process.read_nonnull(self.g_world, self.pointer_size) {
            Some(object) => Some(UObject { object }),
            None => None,
        }
    }

    /// Returns the current instance of GEngine.
    pub fn get_g_engine_uobject(&self, process: &Process) -> (r: Option<UObject>)
        ensures
            match r {
                Some(o) => held_object(*process, self.pointer_size, self.g_engine.0) == Some(o.object.0),
                None => held_object(*process, self.pointer_size, self.g_engine.0).is_none(),
            },
    {
        match process.read_nonnull(self.g_engine, self.pointer_size) {
            Some(object) => Some(UObject { object }),
            None => None,
        }
    }

    /// Where the entry of the `FName` stored at `at` sits in the name pool:
    /// the chunk its chunk index names, at twice its offset.
    pub open spec fn fname_entry(self, p: Process, at: u64) -> Option<u64> {
        match p.mem(at, 4) {
            None => None,
            Some(pair) => {
                let chunk = le_u16(pair.subrange(2, 4));
                let slot = wrap_add(
                    self.fname_base.0,
                    ((self.pointer_size.width() * (chunk as u64 + 2)) % 0x1_0000_0000_0000_0000) as int,
                );
                match p.mem_ptr(slot, self.pointer_size) {
                    None => None,
                    Some(chunk_base) => Some(wrap_add(chunk_base, 2 * le_u16(pair.subrange(0, 2)) as int)),
                }
            },
        }
    }

    /// The `FName` stored at `at`, read as `n` bytes: the pair of its entry's
    /// offset and its chunk index leads through the name pool to the entry,
    /// whose header holds the length behind six flag bits, before the
    /// characters.
    pub open spec fn fname_of(self, p: Process, at: u64, n: nat) -> Option<Seq<u8>> {
        match p.mem(at, 4) {
            None => None,
            Some(pair) => {
                let name_offset = le_u16(pair.subrange(0, 2));
                let chunk = le_u16(pair.subrange(2, 4));
                let slot = wrap_add(
                    self.fname_base.0,
                    ((self.pointer_size.width() * (chunk as u64 + 2)) % 0x1_0000_0000_0000_0000) as int,
                );
                match p.mem_ptr(slot, self.pointer_size) {
                    None => None,
                    Some(chunk_base) => {
                        let entry = wrap_add(chunk_base, 2 * name_offset as int);
                        match p.mem_u16(entry) {
                            None => None,
                            Some(header) => match cstr_at(p, wrap_add(entry, 2), n) {
                                None => None,
                                Some(text) => {
                                    let len = header / 64;
                                    Some(
                                        if len < text.len() {
                                            text.take(len as int)
                                        } else {
                                            text
                                        },
                                    )
                                },
                            },
                        }
                    },
                }
            },
        }
    }

    /// Reads the `FName` stored at `at`.
    fn read_fname<const N: usize>(&self, process: &Process, at: Address) -> (r: Result<ArrayCString<N>, Error>)
        ensures
            match r {
                Ok(s) => self.fname_of(*process, at.0, N as nat) == Some(s@),
                Err(_) => self.fname_of(*process, at.0, N as nat).is_none(),
            },
    {
        let pair = match process.read_bytes(at, 4) {
            Some(b) => b,
            None => return Err(Error {}),
        };
        let name_offset = (pair[0] as u16) + (pair[1] as u16) * 0x100;
        let chunk = (pair[2] as u16) + (pair[3] as u16) * 0x100;
        proof {
            let lo = pair@.subrange(0, 2);
            let hi = pair@.subrange(2, 4);
            assert(lo[0] == pair@[0] && lo[1] == pair@[1]);
            assert(hi[0] == pair@[2] && hi[1] == pair@[3]);
        }
        let slot = self.fname_base.add(self.pointer_size.bytes().wrapping_mul(chunk as u64 + 2));
        let chunk_base = match process.read_ptr(slot, self.pointer_size) {
            Some(a) => a,
            None => return Err(Error {}),
        };
        let entry = chunk_base.add(2 * name_offset as u64);
        let header = match process.read_u16(entry) {
            Some(h) => h,
            None => return Err(Error {}),
        };
        let mut text = read_cstring::<N>(process, entry.add(2))?;
        text.set_len((header / 64) as usize);
        Ok(text)
    }
}

/// A name read out of the pool is the characters that follow its entry's
/// two-byte header, and it ends where the length in the header's upper ten
/// bits says, or earlier at a nul or at the end of the buffer; the bytes that
/// follow in the pool never reach into it.
pub proof fn lemma_fnames_keep_to_their_header_length(m: Module, p: Process, at: u64, n: nat)
    ensures
        m.fname_of(p, at, n) matches Some(t) ==> (m.fname_entry(p, at) matches Some(entry) && (p.mem_u16(
            entry,
        ) matches Some(header) && (p.mem(wrap_add(entry, 2), n) matches Some(b) && {
            &&& t.len() <= header / 64
            &&& t == b.take(t.len() as int)
            &&& !t.contains(0)
            &&& (t.len() == header / 64 || t.len() == n || b[t.len() as int] == 0)
        }))),
{
    if let Some(t) = m.fname_of(p, at, n) {
        let entry = m.fname_entry(p, at).unwrap();
        let header = p.mem_u16(entry).unwrap();
        let b = p.mem(wrap_add(entry, 2), n).unwrap();
        crate::process::lemma_read_len(p.regions@, wrap_add(entry, 2), n);
        lemma_cstr_is_a_prefix(b);
        lemma_cstr_stops_at_a_nul(b);
        let text = cstr(b);
        assert(cstr_at(p, wrap_add(entry, 2), n) == Some(text));
        if header / 64 < text.len() {
            assert(t == text.take((header / 64) as int));
            assert(t =~= b.take(t.len() as int));
            assert forall|i: int| 0 <= i < t.len() implies t[i] != 0 by {
                assert(t[i] == text[i]);
            }
        }
    }
}

/// An `UObject` is the base class of every Unreal Engine object, from which
/// every other class in the UE engine inherits from.
///
/// This struct represents a currently running instance of any UE class,
/// from which it's possible to perform introspection in order to return
/// various information, such as the class' `FName`, property names,
/// offsets, etc.
#[derive(Copy, Clone, Debug)]
pub struct UObject {
    /// Where the object lives.
    pub object: Address,
}

/// The bound on how many steps a climb or a property chain takes.
pub open spec fn chain_fuel() -> nat {
    0xFFFF_FFFF_FFFF_FFFF
}

/// The first property of a class: its own property link, or, while that is
/// null, its parent's, until a parent is null or a link cannot be read.
pub open spec fn first_property(p: Process, m: Module, class: u64, fuel: nat) -> Option<u64>
    decreases fuel,
{
    if fuel == 0 {
        None
    } else {
        match p.mem_ptr(wrap_add(class, m.offsets.uclass_property_link as int), m.pointer_size) {
            None => None,
            Some(link) => if link != 0 {
                Some(link)
            } else {
                match p.mem_nonnull(wrap_add(class, m.offsets.uclass_super_field as int), m.pointer_size) {
                    Some(parent) => first_property(p, m, parent, (fuel - 1) as nat),
                    None => None,
                }
            },
        }
    }
}

/// The chain of properties from `prop` on: a property is handed out when
/// its next link can be read, and the chain ends at a null link.
pub open spec fn properties_from(p: Process, m: Module, prop: u64, fuel: nat) -> Seq<u64>
    decreases fuel,
{
    if fuel == 0 || prop == 0 {
        Seq::empty()
    } else {
        match p.mem_ptr(wrap_add(prop, m.offsets.uproperty_property_link_next as int), m.pointer_size) {
            None => Seq::empty(),
            Some(next) => seq![prop] + properties_from(p, m, next, (fuel - 1) as nat),
        }
    }
}

/// The properties of a class, from the most derived.
pub open spec fn properties_of(p: Process, m: Module, class: u64) -> Seq<u64> {
    match first_property(p, m, class, chain_fuel()) {
        Some(prop) => properties_from(p, m, prop, chain_fuel()),
        None => Seq::empty(),
    }
}

/// Whether a property carries the given name.
pub open spec fn property_named(p: Process, m: Module, prop: u64, name: Seq<u8>) -> bool {
    m.fname_of(p, wrap_add(prop, m.offsets.uproperty_fname as int), CSTR as nat) == Some(name)
}

/// The offset of a class's property by name: the first property carrying
/// the name, and the offset it records.
pub open spec fn class_field_offset(p: Process, m: Module, class: u64, name: Seq<u8>) -> Option<u32> {
    match seq_first(properties_of(p, m, class), |prop: u64| property_named(p, m, prop, name)) {
        Some(prop) => p.mem_u32(wrap_add(prop, m.offsets.uproperty_offset_internal as int)),
        None => None,
    }
}

/// The class of the object at `object`.
pub open spec fn uclass_of(p: Process, m: Module, object: u64) -> Option<u64> {
    p.mem_nonnull(wrap_add(object, m.offsets.uobject_class as int), m.pointer_size)
}

/// The offset of a field of the object at `object`, by name.
pub open spec fn object_field_offset(p: Process, m: Module, object: u64, name: Seq<u8>) -> Option<u32> {
    match uclass_of(p, m, object) {
        Some(class) => class_field_offset(p, m, class, name),
        None => None,
    }
}

/// Finds the first property of a class.
fn find_first_property(process: &Process, module: &Module, class: Address) -> (r: Option<u64>)
    ensures
        r == first_property(*process, *module, class.0, chain_fuel()),
{
    let mut current = class;
    let mut fuel: u64 = 0xFFFF_FFFF_FFFF_FFFF;
    loop
        invariant
            first_property(*process, *module, class.0, chain_fuel()) == first_property(
                *process,
                *module,
                current.0,
                fuel as nat,
            ),
        decreases fuel,
    {
        if fuel == 0 {
            return None;
        }
        let link = process.read_ptr(current.add(module.offsets.uclass_property_link as u64), module.pointer_size)?;
        if link.0 != 0 {
            return Some(link.0);
        }
        current = process.read_nonnull(current.add(module.offsets.uclass_super_field as u64), module.pointer_size)?;
        fuel = fuel - 1;
    }
}

/// Finds the first property of a chain carrying the given name.
fn find_property(process: &Process, module: &Module, first: u64, name: &str) -> (r: Option<u64>)
    ensures
        r == seq_first(
            properties_from(*process, *module, first, chain_fuel()),
            |prop: u64| property_named(*process, *module, prop, name.spec_bytes()),
        ),
{
    let ghost pred = |prop: u64| property_named(*process, *module, prop, name.spec_bytes());
    let mut prop = first;
    let mut fuel: u64 = 0xFFFF_FFFF_FFFF_FFFF;
    loop
        invariant
            pred == (|prop: u64| property_named(*process, *module, prop, name.spec_bytes())),
            seq_first(properties_from(*process, *module, first, chain_fuel()), pred) == seq_first(
                properties_from(*process, *module, prop, fuel as nat),
                pred,
            ),
        decreases fuel,
    {
        if fuel == 0 || prop == 0 {
            return None;
        }
        let next = match process.read_ptr(
            Address(prop).add(module.offsets.uproperty_property_link_next as u64),
            module.pointer_size,
        ) {
            Some(a) => a,
            None => return None,
        };
        proof {
            let rest = properties_from(*process, *module, next.0, (fuel - 1) as nat);
            assert((seq![prop] + rest)[0] == prop);
            assert((seq![prop] + rest).drop_first() =~= rest);
        }
        let named = match module.read_fname::<CSTR>(
            process,
            Address(prop).add(module.offsets.uproperty_fname as u64),
        ) {
            Ok(n) => n.matches(name),
            Err(_) => false,
        };
        if named {
            return Some(prop);
        }
        prop = next.0;
        fuel = fuel - 1;
    }
}

impl UObject {
    /// Reads the `FName` of the object.
    pub fn get_fname<const N: usize>(&self, process: &Process, module: &Module) -> (r: Result<
        ArrayCString<N>,
        Error,
    >)
        ensures
            match r {
                Ok(s) => module.fname_of(
                    *process,
                    wrap_add(self.object.0, module.offsets.uobject_fname as int),
                    N as nat,
                ) == Some(s@),
                Err(_) => module.fname_of(
                    *process,
                    wrap_add(self.object.0, module.offsets.uobject_fname as int),
                    N as nat,
                ).is_none(),
            },
    {
        module.read_fname::<N>(process, self.object.add(module.offsets.uobject_fname as u64))
    }

    /// Tries to find a field with the specified name in the object and
    /// returns the offset of the field from the start of an instance of the
    /// class.
    pub fn get_field_offset(&self, process: &Process, module: &Module, field_name: &str) -> (r:
        Option<u32>)
        ensures
            r == object_field_offset(*process, *module, self.object.0, field_name.spec_bytes()),
    {
        let class = process.read_nonnull(
            self.object.add(module.offsets.uobject_class as u64),
            module.pointer_size,
        )?;
        let first = match find_first_property(process, module, class) {
            Some(f) => f,
            None => return None,
        };
        let prop = find_property(process, module, first, field_name)?;
        process.read_u32(Address(prop).add(module.offsets.uproperty_offset_internal as u64))
    }
}

} // verus!
