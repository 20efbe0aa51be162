//! The layout of a Mono runtime's metadata structures, per version, width
//! and binary format.

use vstd::prelude::*;

use super::super::BinaryFormat;
use super::version::Version;
use crate::primitives::PointerSize;

verus! {

/// Where each structure the walk reads keeps what it reads.
#[derive(Copy, Clone, Debug, PartialEq, Eq, Structural)]
pub struct MonoOffsets {
    /// Offsets within `MonoAssembly`.
    pub assembly: AssemblyOffsets,
    /// Offsets within `MonoImage`.
    pub image: ImageOffsets,
    /// Offsets within `MonoInternalHashTable`.
    pub hash_table: HashTableOffsets,
    /// Offsets within `MonoClass`.
    pub class: ClassOffsets,
    /// Offsets within `MonoGenericClass`.
    pub generic: GenericOffsets,
    /// Offsets within `MonoType`.
    pub type_words: TypeOffsets,
    /// Offsets and size of `MonoClassField`.
    pub field: FieldInfoOffsets,
    /// Offsets within `MonoVTable`.
    pub v_table: MonoVTableOffsets,
}

/// Offsets within `MonoAssembly`.
#[derive(Copy, Clone, Debug, PartialEq, Eq, Structural)]
pub struct AssemblyOffsets {
    /// The name pointer heading `MonoAssemblyName`, when the assembly keeps it.
    pub aname: Option<u8>,
    /// The image pointer.
    pub image: u8,
}

/// Offsets within `MonoImage`.
#[derive(Copy, Clone, Debug, PartialEq, Eq, Structural)]
pub struct ImageOffsets {
    /// The assembly-name pointer, when the image keeps it.
    pub assembly_name: Option<u8>,
    /// The class cache.
    pub class_cache: u16,
}

/// Offsets within `MonoInternalHashTable`.
#[derive(Copy, Clone, Debug, PartialEq, Eq, Structural)]
pub struct HashTableOffsets {
    /// The number of buckets.
    pub size: u8,
    /// The bucket array.
    pub table: u8,
}

/// Offsets within `MonoClass`.
#[derive(Copy, Clone, Debug, PartialEq, Eq, Structural)]
pub struct ClassOffsets {
    /// The class kind byte, when measured.
    pub class_kind: Option<u16>,
    /// The boxed instance size, when measured.
    pub instance_size: Option<u16>,
    /// The parent-class pointer.
    pub parent: u8,
    /// The enclosing class of a nested class, when measured.
    pub nested_in: Option<u16>,
    /// The class-name pointer.
    pub name: u8,
    /// The namespace-name pointer.
    pub namespace: u8,
    /// The vtable size. On the first two versions this is where the vtable
    /// keeps its static data instead.
    pub vtable_size: u8,
    /// The field array pointer.
    pub fields: u8,
    /// The runtime info pointer.
    pub runtime_info: u16,
    /// The number of fields the class declares.
    pub field_count: u16,
    /// The next class in a class-cache bucket.
    pub next_class_cache: u16,
}

/// Offsets within `MonoGenericClass`.
#[derive(Copy, Clone, Debug, PartialEq, Eq, Structural)]
pub struct GenericOffsets {
    /// A generic instance's instantiation descriptor, in the class, when
    /// measured.
    pub generic_class: Option<u16>,
    /// The definition an instantiation was made from, in the descriptor,
    /// when measured.
    pub container_class: Option<u16>,
}

/// Offsets within `MonoType`.
#[derive(Copy, Clone, Debug, PartialEq, Eq, Structural)]
pub struct TypeOffsets {
    /// The type's data word, when measured.
    pub data: Option<u16>,
    /// The byte holding the element kind, when measured.
    pub kind: Option<u16>,
}

/// Offsets and size of `MonoClassField`.
#[derive(Copy, Clone, Debug, PartialEq, Eq, Structural)]
pub struct FieldInfoOffsets {
    /// The field's `MonoType` pointer, when measured.
    pub type_: Option<u16>,
    /// The field-name pointer.
    pub name: u8,
    /// The field offset.
    pub offset: u8,
    /// The size of one field entry.
    pub alignment: u8,
}

/// Offsets within `MonoVTable`.
#[derive(Copy, Clone, Debug, PartialEq, Eq, Structural)]
pub struct MonoVTableOffsets {
    /// The method pointer array.
    pub vtable: u8,
}

/// What only a measurement supplies: the members a version's table carries
/// where every measured build of it agrees, and leaves out otherwise.
#[derive(Copy, Clone, Debug, PartialEq, Eq, Structural)]
pub struct Measured {
    /// See [`ClassOffsets::class_kind`].
    pub class_kind: Option<u16>,
    /// See [`ClassOffsets::instance_size`].
    pub instance_size: Option<u16>,
    /// See [`ClassOffsets::nested_in`].
    pub nested_in: Option<u16>,
    /// See [`GenericOffsets::generic_class`].
    pub generic_class: Option<u16>,
    /// See [`GenericOffsets::container_class`].
    pub container_class: Option<u16>,
    /// See [`TypeOffsets::data`].
    pub type_data: Option<u16>,
    /// See [`TypeOffsets::kind`].
    pub type_kind: Option<u16>,
    /// See [`FieldInfoOffsets::type_`].
    pub field_type: Option<u16>,
}

/// Nothing measured.
pub open spec fn unmeasured() -> Measured {
    Measured {
        class_kind: None,
        instance_size: None,
        nested_in: None,
        generic_class: None,
        container_class: None,
        type_data: None,
        type_kind: None,
        field_type: None,
    }
}

/// What every measured x64 build of the later Linux layouts agrees on, with
/// where the class kind sits.
pub open spec fn linux_measured(class_kind: u16) -> Measured {
    Measured {
        class_kind: Some(class_kind),
        instance_size: Some(0x1C),
        nested_in: Some(0x30),
        generic_class: Some(0xE8),
        container_class: Some(0x0),
        type_data: Some(0x0),
        type_kind: Some(0xA),
        field_type: Some(0x0),
    }
}

/// What the x64 Windows layout of the second version has measured: enough
/// to tell generic instances and nested classes apart.
pub open spec fn pe_v2_x64_measured() -> Measured {
    Measured {
        class_kind: Some(0x2A),
        instance_size: None,
        nested_in: Some(0x38),
        generic_class: Some(0xF0),
        container_class: Some(0x0),
        type_data: None,
        type_kind: None,
        field_type: None,
    }
}

/// A layout from its members, in the order the structures hold them: the
/// assembly's name and image, the image's class cache, the hash table's size
/// and buckets, the class's parent, name, namespace, vtable size, fields,
/// runtime info, field count and next cached class, the field's name, offset
/// and size, and the vtable's method array.
pub open spec fn layout(
    aname: u8,
    image: u8,
    class_cache: u16,
    size: u8,
    table: u8,
    parent: u8,
    name: u8,
    namespace: u8,
    vtable_size: u8,
    fields: u8,
    runtime_info: u16,
    field_count: u16,
    next_class_cache: u16,
    field_name: u8,
    field_offset: u8,
    alignment: u8,
    vtable: u8,
    m: Measured,
) -> MonoOffsets {
    MonoOffsets {
        assembly: AssemblyOffsets { aname: Some(aname), image },
        image: ImageOffsets { assembly_name: None, class_cache },
        hash_table: HashTableOffsets { size, table },
        class: ClassOffsets {
            class_kind: m.class_kind,
            instance_size: m.instance_size,
            parent,
            nested_in: m.nested_in,
            name,
            namespace,
            vtable_size,
            fields,
            runtime_info,
            field_count,
            next_class_cache,
        },
        generic: GenericOffsets { generic_class: m.generic_class, container_class: m.container_class },
        type_words: TypeOffsets { data: m.type_data, kind: m.type_kind },
        field: FieldInfoOffsets { type_: m.field_type, name: field_name, offset: field_offset, alignment },
        v_table: MonoVTableOffsets { vtable },
    }
}

/// The layout of a version at a width in a binary format, where one is
/// known: every version at both widths on Windows, and at 64 bits on Linux
/// and macOS.
pub open spec fn offsets_for(version: Version, ps: PointerSize, format: BinaryFormat) -> Option<MonoOffsets> {
    match (format, version, ps) {
        (BinaryFormat::PE, Version::V3, PointerSize::Bit64) => Some(layout(
            0x10, 0x60, 0x4D0, 0x18, 0x20, 0x30, 0x48, 0x50, 0x5C, 0x98, 0xD0, 0x100, 0x108,
            0x8, 0x18, 0x20, 0x48, unmeasured(),
        )),
        (BinaryFormat::PE, Version::V3, PointerSize::Bit32) => Some(layout(
            0x8, 0x48, 0x35C, 0x0C, 0x14, 0x20, 0x2C, 0x30, 0x38, 0x60, 0x7C, 0x9C, 0xA0,
            0x4, 0xC, 0x10, 0x2C, unmeasured(),
        )),
        (BinaryFormat::PE, Version::V2, PointerSize::Bit64) => Some(layout(
            0x10, 0x60, 0x4C0, 0x18, 0x20, 0x30, 0x48, 0x50, 0x5C, 0x98, 0xD0, 0x100, 0x108,
            0x8, 0x18, 0x20, 0x40, pe_v2_x64_measured(),
        )),
        (BinaryFormat::PE, Version::V2, PointerSize::Bit32) => Some(layout(
            0x8, 0x44, 0x354, 0x0C, 0x14, 0x20, 0x2C, 0x30, 0x38, 0x60, 0x84, 0xA4, 0xA8,
            0x4, 0xC, 0x10, 0x28, unmeasured(),
        )),
        (BinaryFormat::PE, Version::V1Cattrs, PointerSize::Bit64) => Some(layout(
            0x10, 0x58, 0x3D0, 0x18, 0x20, 0x30, 0x50, 0x58, 0x18, 0xB0, 0x100, 0x9C, 0x108,
            0x8, 0x18, 0x20, 0x48, unmeasured(),
        )),
        (BinaryFormat::PE, Version::V1Cattrs, PointerSize::Bit32) => Some(layout(
            0x8, 0x40, 0x2A0, 0x0C, 0x14, 0x24, 0x34, 0x38, 0x0C, 0x78, 0xA8, 0x68, 0xAC,
            0x4, 0xC, 0x10, 0x28, unmeasured(),
        )),
        (BinaryFormat::PE, Version::V1, PointerSize::Bit64) => Some(layout(
            0x10, 0x58, 0x3D0, 0x18, 0x20, 0x30, 0x48, 0x50, 0x18, 0xA8, 0xF8, 0x94, 0x100,
            0x8, 0x18, 0x20, 0x48, unmeasured(),
        )),
        (BinaryFormat::PE, Version::V1, PointerSize::Bit32) => Some(layout(
            0x8, 0x40, 0x2A0, 0x0C, 0x14, 0x24, 0x30, 0x34, 0x0C, 0x74, 0xA4, 0x64, 0xA8,
            0x4, 0xC, 0x10, 0x28, unmeasured(),
        )),
        (BinaryFormat::ELF, Version::V3, PointerSize::Bit64) => Some(layout(
            0x10, 0x60, 0x4D0, 0x18, 0x20, 0x28, 0x40, 0x48, 0x54, 0x90, 0xC8, 0xF8, 0x100,
            0x8, 0x18, 0x20, 0x48, linux_measured(0x1B),
        )),
        (BinaryFormat::ELF, Version::V2, PointerSize::Bit64) => Some(layout(
            0x10, 0x60, 0x4C0, 0x18, 0x20, 0x28, 0x40, 0x48, 0x54, 0x90, 0xC8, 0xF8, 0x100,
            0x8, 0x18, 0x20, 0x40, linux_measured(0x24),
        )),
        (BinaryFormat::MachO, Version::V3, PointerSize::Bit64) => Some(layout(
            0x10, 0x60, 0x4D0, 0x18, 0x20, 0x28, 0x40, 0x48, 0x54, 0x90, 0xC8, 0xF8, 0x100,
            0x8, 0x18, 0x20, 0x48, unmeasured(),
        )),
        (BinaryFormat::MachO, Version::V2, PointerSize::Bit64) => Some(layout(
            0x10, 0x60, 0x4C0, 0x18, 0x20, 0x28, 0x40, 0x48, 0x54, 0x90, 0xC8, 0xF8, 0x100,
            0x8, 0x18, 0x20, 0x40, unmeasured(),
        )),
        (_, Version::V1Cattrs, PointerSize::Bit64) => Some(layout(
            0x10, 0x58, 0x3D0, 0x18, 0x20, 0x28, 0x48, 0x50, 0x18, 0xA8, 0xF8, 0x94, 0x100,
            0x8, 0x18, 0x20, 0x48, unmeasured(),
        )),
        (_, Version::V1, PointerSize::Bit64) => Some(layout(
            0x10, 0x58, 0x3D0, 0x18, 0x20, 0x28, 0x40, 0x48, 0x18, 0xA0, 0xF0, 0x8C, 0xF8,
            0x8, 0x18, 0x20, 0x48, unmeasured(),
        )),
        _ => None,
    }
}


/// What a layout holds of the members only a measurement supplies.
pub open spec fn measured_of(o: MonoOffsets) -> Measured {
    Measured {
        class_kind: o.class.class_kind,
        instance_size: o.class.instance_size,
        nested_in: o.class.nested_in,
        generic_class: o.generic.generic_class,
        container_class: o.generic.container_class,
        type_data: o.type_words.data,
        type_kind: o.type_words.kind,
        field_type: o.field.type_,
    }
}

/// Whether two layouts place every member the walk always reads alike.
pub open spec fn same_core(a: MonoOffsets, b: MonoOffsets) -> bool {
    &&& a.assembly.image == b.assembly.image
    &&& a.image.class_cache == b.image.class_cache
    &&& a.hash_table == b.hash_table
    &&& a.class.parent == b.class.parent
    &&& a.class.name == b.class.name
    &&& a.class.namespace == b.class.namespace
    &&& a.class.vtable_size == b.class.vtable_size
    &&& a.class.fields == b.class.fields
    &&& a.class.runtime_info == b.class.runtime_info
    &&& a.class.field_count == b.class.field_count
    &&& a.class.next_class_cache == b.class.next_class_cache
    &&& a.field.name == b.field.name
    &&& a.field.offset == b.field.offset
    &&& a.field.alignment == b.field.alignment
}

/// Whether a member a table carries says no more than a measurement: it is
/// left out, or it is what was measured.
pub open spec fn says_no_more(table: Option<u16>, measured: Option<u16>) -> bool {
    table is None || table == measured
}

/// Whether a table's measured members contradict none of a build's.
pub open spec fn never_contradicts(table: Measured, build: Measured) -> bool {
    &&& says_no_more(table.class_kind, build.class_kind)
    &&& says_no_more(table.instance_size, build.instance_size)
    &&& says_no_more(table.nested_in, build.nested_in)
    &&& says_no_more(table.generic_class, build.generic_class)
    &&& says_no_more(table.container_class, build.container_class)
    &&& says_no_more(table.type_data, build.type_data)
    &&& says_no_more(table.type_kind, build.type_kind)
    &&& says_no_more(table.field_type, build.field_type)
}

/// Whether a table carries each member two builds agree on.
pub open spec fn carries_agreement(table: Measured, a: Measured, b: Measured) -> bool {
    &&& a.class_kind == b.class_kind ==> table.class_kind == a.class_kind
    &&& a.instance_size == b.instance_size ==> table.instance_size == a.instance_size
    &&& a.nested_in == b.nested_in ==> table.nested_in == a.nested_in
    &&& a.generic_class == b.generic_class ==> table.generic_class == a.generic_class
    &&& a.container_class == b.container_class ==> table.container_class == a.container_class
    &&& a.type_data == b.type_data ==> table.type_data == a.type_data
    &&& a.type_kind == b.type_kind ==> table.type_kind == a.type_kind
    &&& a.field_type == b.field_type ==> table.field_type == a.field_type
}

/// Lays out the members of [`layout`].
pub(crate) fn laid(
    aname: u8,
    image: u8,
    class_cache: u16,
    size: u8,
    table: u8,
    parent: u8,
    name: u8,
    namespace: u8,
    vtable_size: u8,
    fields: u8,
    runtime_info: u16,
    field_count: u16,
    next_class_cache: u16,
    field_name: u8,
    field_offset: u8,
    alignment: u8,
    vtable: u8,
    m: Measured,
) -> (r: MonoOffsets)
    ensures
        r == layout(
            aname, image, class_cache, size, table, parent, name, namespace, vtable_size, fields,
            runtime_info, field_count, next_class_cache, field_name, field_offset, alignment,
            vtable, m,
        ),
{
    MonoOffsets {
        assembly: AssemblyOffsets { aname: Some(aname), image },
        image: ImageOffsets { assembly_name: None, class_cache },
        hash_table: HashTableOffsets { size, table },
        class: ClassOffsets {
            class_kind: m.class_kind,
            instance_size: m.instance_size,
            parent,
            nested_in: m.nested_in,
            name,
            namespace,
            vtable_size,
            fields,
            runtime_info,
            field_count,
            next_class_cache,
        },
        generic: GenericOffsets { generic_class: m.generic_class, container_class: m.container_class },
        type_words: TypeOffsets { data: m.type_data, kind: m.type_kind },
        field: FieldInfoOffsets { type_: m.field_type, name: field_name, offset: field_offset, alignment },
        v_table: MonoVTableOffsets { vtable },
    }
}

/// Nothing measured.
pub(crate) fn nothing_measured() -> (m: Measured)
    ensures
        m == unmeasured(),
{
    Measured {
        class_kind: None,
        instance_size: None,
        nested_in: None,
        generic_class: None,
        container_class: None,
        type_data: None,
        type_kind: None,
        field_type: None,
    }
}

/// What the later Linux layouts agree on.
pub(crate) fn linux(class_kind: u16) -> (m: Measured)
    ensures
        m == linux_measured(class_kind),
{
    Measured {
        class_kind: Some(class_kind),
        instance_size: Some(0x1C),
        nested_in: Some(0x30),
        generic_class: Some(0xE8),
        container_class: Some(0x0),
        type_data: Some(0x0),
        type_kind: Some(0xA),
        field_type: Some(0x0),
    }
}

/// What the x64 Windows layout of the second version has measured.
fn pe_v2_x64() -> (m: Measured)
    ensures
        m == pe_v2_x64_measured(),
{
    Measured {
        class_kind: Some(0x2A),
        instance_size: None,
        nested_in: Some(0x38),
        generic_class: Some(0xF0),
        container_class: Some(0x0),
        type_data: None,
        type_kind: None,
        field_type: None,
    }
}

impl MonoOffsets {
    /// The layout of a Mono version at a pointer width in a binary format.
    /// Windows builds are known at both widths; Linux and macOS builds only
    /// at 64 bits. A Linux layout carries what every measured build of its
    /// version agrees on; a macOS layout, measured on a single build, carries
    /// none of it.
    pub fn new(version: Version, pointer_size: PointerSize, format: BinaryFormat) -> (r: Option<Self>)
        ensures
            r == offsets_for(version, pointer_size, format),
    {
        match (format, version, pointer_size) {
            (BinaryFormat::PE, Version::V3, PointerSize::Bit64) => Some(laid(
                0x10, 0x60, 0x4D0, 0x18, 0x20, 0x30, 0x48, 0x50, 0x5C, 0x98, 0xD0, 0x100, 0x108,
                0x8, 0x18, 0x20, 0x48, nothing_measured(),
            )),
            (BinaryFormat::PE, Version::V3, PointerSize::Bit32) => Some(laid(
                0x8, 0x48, 0x35C, 0x0C, 0x14, 0x20, 0x2C, 0x30, 0x38, 0x60, 0x7C, 0x9C, 0xA0,
                0x4, 0xC, 0x10, 0x2C, nothing_measured(),
            )),
            (BinaryFormat::PE, Version::V2, PointerSize::Bit64) => Some(laid(
                0x10, 0x60, 0x4C0, 0x18, 0x20, 0x30, 0x48, 0x50, 0x5C, 0x98, 0xD0, 0x100, 0x108,
                0x8, 0x18, 0x20, 0x40, pe_v2_x64(),
            )),
            (BinaryFormat::PE, Version::V2, PointerSize::Bit32) => Some(laid(
                0x8, 0x44, 0x354, 0x0C, 0x14, 0x20, 0x2C, 0x30, 0x38, 0x60, 0x84, 0xA4, 0xA8,
                0x4, 0xC, 0x10, 0x28, nothing_measured(),
            )),
            (BinaryFormat::PE, Version::V1Cattrs, PointerSize::Bit64) => Some(laid(
                0x10, 0x58, 0x3D0, 0x18, 0x20, 0x30, 0x50, 0x58, 0x18, 0xB0, 0x100, 0x9C, 0x108,
                0x8, 0x18, 0x20, 0x48, nothing_measured(),
            )),
            (BinaryFormat::PE, Version::V1Cattrs, PointerSize::Bit32) => Some(laid(
                0x8, 0x40, 0x2A0, 0x0C, 0x14, 0x24, 0x34, 0x38, 0x0C, 0x78, 0xA8, 0x68, 0xAC,
                0x4, 0xC, 0x10, 0x28, nothing_measured(),
            )),
            (BinaryFormat::PE, Version::V1, PointerSize::Bit64) => Some(laid(
                0x10, 0x58, 0x3D0, 0x18, 0x20, 0x30, 0x48, 0x50, 0x18, 0xA8, 0xF8, 0x94, 0x100,
                0x8, 0x18, 0x20, 0x48, nothing_measured(),
            )),
            (BinaryFormat::PE, Version::V1, PointerSize::Bit32) => Some(laid(
                0x8, 0x40, 0x2A0, 0x0C, 0x14, 0x24, 0x30, 0x34, 0x0C, 0x74, 0xA4, 0x64, 0xA8,
                0x4, 0xC, 0x10, 0x28, nothing_measured(),
            )),
            (BinaryFormat::ELF, Version::V3, PointerSize::Bit64) => Some(laid(
                0x10, 0x60, 0x4D0, 0x18, 0x20, 0x28, 0x40, 0x48, 0x54, 0x90, 0xC8, 0xF8, 0x100,
                0x8, 0x18, 0x20, 0x48, linux(0x1B),
            )),
            (BinaryFormat::ELF, Version::V2, PointerSize::Bit64) => Some(laid(
                0x10, 0x60, 0x4C0, 0x18, 0x20, 0x28, 0x40, 0x48, 0x54, 0x90, 0xC8, 0xF8, 0x100,
                0x8, 0x18, 0x20, 0x40, linux(0x24),
            )),
            (BinaryFormat::MachO, Version::V3, PointerSize::Bit64) => Some(laid(
                0x10, 0x60, 0x4D0, 0x18, 0x20, 0x28, 0x40, 0x48, 0x54, 0x90, 0xC8, 0xF8, 0x100,
                0x8, 0x18, 0x20, 0x48, nothing_measured(),
            )),
            (BinaryFormat::MachO, Version::V2, PointerSize::Bit64) => Some(laid(
                0x10, 0x60, 0x4C0, 0x18, 0x20, 0x28, 0x40, 0x48, 0x54, 0x90, 0xC8, 0xF8, 0x100,
                0x8, 0x18, 0x20, 0x40, nothing_measured(),
            )),
            (_, Version::V1Cattrs, PointerSize::Bit64) => Some(laid(
                0x10, 0x58, 0x3D0, 0x18, 0x20, 0x28, 0x48, 0x50, 0x18, 0xA8, 0xF8, 0x94, 0x100,
                0x8, 0x18, 0x20, 0x48, nothing_measured(),
            )),
            (_, Version::V1, PointerSize::Bit64) => Some(laid(
                0x10, 0x58, 0x3D0, 0x18, 0x20, 0x28, 0x40, 0x48, 0x18, 0xA0, 0xF0, 0x8C, 0xF8,
                0x8, 0x18, 0x20, 0x48, nothing_measured(),
            )),
            _ => None,
        }
    }
}

} // verus!
