//! The walk over a managed runtime's metadata, shared by the runtimes that lay
//! their classes and fields out the same way.
//!
//! What the runtimes genuinely disagree on is behind [`Runtime`]: where the
//! images live, where an image keeps its classes, how a class counts its
//! fields, where its statics sit, and how a live object names its class. Below
//! that, the walk is written once.

use vstd::prelude::*;

use crate::primitives::{wrap_add, Address, PointerSize};
use crate::process::Process;
use crate::string::{cstr_at, read_cstring, ArrayCString};

pub mod array;
pub mod cursor;
pub mod pointer;
pub mod readers;
pub mod runtime;
pub mod string;
pub mod walk;

pub use array::ManagedArray;
pub use cursor::{Assemblies, Classes};
pub use readers::Element;
pub use string::ManagedString;
pub use runtime::{Il2CppRuntime, MonoRuntime, Runtime};
pub use pointer::PointerPath;
pub use walk::Walk;

verus! {

/// The offsets the shared walk reads, copied out of whichever runtime's own
/// offsets built it.
#[derive(Copy, Clone, Debug)]
pub struct WalkOffsets {
    /// Where an assembly keeps its image and name.
    pub assembly: AssemblyOffsets,
    /// Where a class keeps its names, parent and fields.
    pub class: ClassOffsets,
    /// Where a field entry keeps its name and offset.
    pub field: FieldOffsets,
}

/// Where an assembly keeps its image, and where its name is: on the assembly
/// itself, or through the image, whichever the offsets carry.
#[derive(Copy, Clone, Debug)]
pub struct AssemblyOffsets {
    /// The name pointer inside the image, when the image carries it.
    pub name_in_image: Option<u16>,
    /// The name pointer inside the assembly, when the assembly carries it.
    pub name_in_assembly: Option<u16>,
    /// The image pointer inside the assembly.
    pub image: u16,
}

/// Where a class keeps its names, its parent, its field array, and, when it
/// was measured, the class it is nested in and its boxed size.
#[derive(Copy, Clone, Debug)]
pub struct ClassOffsets {
    /// The class-name pointer.
    pub name: u16,
    /// The namespace pointer.
    pub namespace: u16,
    /// The parent-class pointer.
    pub parent: u16,
    /// The enclosing class, when measured.
    pub declaring: Option<u16>,
    /// The boxed instance size, when measured.
    pub instance_size: Option<u16>,
    /// The field array pointer.
    pub fields: u16,
}

/// Where a field entry keeps its name, type and offset, and the size of one
/// entry in a class's field array.
#[derive(Copy, Clone, Debug)]
pub struct FieldOffsets {
    /// The field-name pointer.
    pub name: u16,
    /// The field's type pointer, when measured.
    pub type_: Option<u16>,
    /// The field's offset.
    pub offset: u16,
    /// The size of one entry.
    pub stride: u16,
}

/// The names a walk stops climbing at when either answers, which is engine
/// policy rather than anything the runtime says: the engine's own classes
/// carry fields a game never declares.
#[derive(Copy, Clone, Debug)]
pub struct ClimbStop {
    /// The class name to stop at.
    pub class: &'static str,
    /// The namespace to stop at.
    pub namespace: &'static str,
}

/// Where Unity's climbs stop: at `Object`, and at anything in `UnityEngine`.
pub open spec fn unity_stop() -> ClimbStop {
    ClimbStop { class: "Object", namespace: "UnityEngine" }
}

impl ClimbStop {
    /// Unity's own base classes: `Object`, and anything in `UnityEngine`.
    pub fn unity() -> (s: ClimbStop)
        ensures
            s == unity_stop(),
            s.class@ == "Object"@,
            s.namespace@ == "UnityEngine"@,
    {
        ClimbStop { class: "Object", namespace: "UnityEngine" }
    }
}

/// Where a list keeps its backing array and live count, resolved once from
/// the list's class hierarchy and held by the caller, so the per-tick read
/// costs reads rather than a metadata walk.
#[derive(Copy, Clone, Debug, PartialEq, Eq, Structural, Hash)]
pub struct ListOffsets {
    /// The backing array field.
    pub items: u32,
    /// The live count field.
    pub size: u32,
}

/// How one entry of a dictionary's backing array lays out, measured from
/// the entry's own start.
#[derive(Copy, Clone, Debug, PartialEq, Eq, Structural, Hash)]
pub struct EntryLayout {
    /// The size of one entry.
    pub stride: u32,
    /// The entry's hash code.
    pub hash: u32,
    /// The entry's link to the next entry of its bucket.
    pub next: u32,
    /// The entry's key.
    pub key: u32,
    /// The entry's value.
    pub value: u32,
}

/// Where a dictionary keeps its backing entries and live counts, and how
/// one entry lays out.
#[derive(Copy, Clone, Debug, PartialEq, Eq, Structural, Hash)]
pub struct DictionaryOffsets {
    /// The entries array field.
    pub entries: u32,
    /// The count field.
    pub count: u32,
    /// The free count field.
    pub free_count: u32,
    /// How one entry lays out.
    pub layout: EntryLayout,
}

/// How one slot of a hash set's backing array lays out, measured from the
/// slot's own start.
#[derive(Copy, Clone, Debug, PartialEq, Eq, Structural, Hash)]
pub struct SlotLayout {
    /// The size of one slot.
    pub stride: u32,
    /// The slot's hash code.
    pub hash: u32,
    /// The slot's link to the next slot of its bucket.
    pub next: u32,
    /// The slot's value.
    pub value: u32,
}

/// Where a hash set keeps its backing slots, live count and high-water
/// mark, and how one slot lays out.
#[derive(Copy, Clone, Debug, PartialEq, Eq, Structural, Hash)]
pub struct HashSetOffsets {
    /// The slots array field.
    pub slots: u32,
    /// The count field.
    pub count: u32,
    /// The high-water mark field.
    pub last_index: u32,
    /// How one slot lays out.
    pub layout: SlotLayout,
}

/// A class, named by where the runtime keeps it.
#[derive(Copy, Clone, Debug, PartialEq, Eq, Structural)]
pub struct ClassRef {
    /// Where the runtime keeps the class.
    pub address: Address,
}

impl ClassRef {
    /// Names the class the runtime keeps at `address`.
    pub fn new(address: Address) -> (c: ClassRef)
        ensures
            c.address == address,
    {
        ClassRef { address }
    }
}

/// A field, named by where the runtime keeps it.
#[derive(Copy, Clone, Debug, PartialEq, Eq, Structural)]
pub struct FieldRef {
    /// Where the runtime keeps the field.
    pub address: Address,
}

impl FieldRef {
    /// Names the field the runtime keeps at `address`.
    pub fn new(address: Address) -> (f: FieldRef)
        ensures
            f.address == address,
    {
        FieldRef { address }
    }
}

/// An image, named by where the runtime keeps it.
#[derive(Copy, Clone, Debug, PartialEq, Eq, Structural)]
pub struct ImageRef {
    /// Where the runtime keeps the image.
    pub address: Address,
}

impl ImageRef {
    /// Names the image the runtime keeps at `address`.
    pub fn new(address: Address) -> (i: ImageRef)
        ensures
            i.address == address,
    {
        ImageRef { address }
    }
}

/// The address of slot `index` in an array of pointers of the given width.
pub open spec fn slot_at(base: u64, ps: PointerSize, index: u64) -> u64 {
    wrap_add(base, (ps.width() * index) % 0x1_0000_0000_0000_0000)
}

/// The address of a pointer-sized slot in an array of them.
pub fn slot(base: Address, pointer_size: PointerSize, index: u64) -> (a: Address)
    ensures
        a.0 == slot_at(base.0, pointer_size, index),
{
    let step = pointer_size.bytes().wrapping_mul(index);
    base.add(step)
}

/// The name stored behind the pointer at `at`, read as `n` bytes.
pub open spec fn name_at(p: Process, ps: PointerSize, at: u64, n: nat) -> Option<Seq<u8>> {
    match p.mem_ptr(at, ps) {
        Some(a) => cstr_at(p, a, n),
        None => None,
    }
}

/// Reads a name the runtime stores behind a pointer.
pub fn read_name<const N: usize>(process: &Process, pointer_size: PointerSize, at: Address) -> (r:
    Option<ArrayCString<N>>)
    ensures
        match r {
            Some(s) => name_at(*process, pointer_size, at.0, N as nat) == Some(s@),
            None => name_at(*process, pointer_size, at.0, N as nat).is_none(),
        },
{
    let address = process.read_ptr(at, pointer_size)?;
    match read_cstring::<N>(process, address) {
        Ok(s) => Some(s),
        Err(_) => None,
    }
}

} // verus!
