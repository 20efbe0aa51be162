//! The measured layout of an IL2CPP runtime's metadata structures.

use vstd::prelude::*;

use crate::primitives::PointerSize;

verus! {

/// A complete measured IL2CPP runtime layout.
///
/// Profiles are deliberately exhaustive: a custom profile lists every
/// offset, so nothing is silently inherited from another player's layout.
/// Built-in measured profiles are available in
/// [`profiles`](super::profiles).
#[derive(Copy, Clone, Debug, PartialEq, Eq, Structural)]
pub struct Profile {
    /// The pointer width this profile was measured for.
    pub pointer_size: PointerSize,
    /// Offsets within `Il2CppAssembly`.
    pub assembly: AssemblyOffsets,
    /// Offsets within `Il2CppImage`.
    pub image: ImageOffsets,
    /// Offsets within `Il2CppClass`.
    pub class: ClassOffsets,
    /// Offsets within `Il2CppGenericClass`.
    pub generic: GenericOffsets,
    /// Offsets within `Il2CppType`.
    pub type_: TypeOffsets,
    /// Offsets and size of `FieldInfo`.
    pub field: FieldInfoOffsets,
}

/// Offsets within `Il2CppAssembly`.
#[derive(Copy, Clone, Debug, PartialEq, Eq, Structural)]
pub struct AssemblyOffsets {
    /// The image pointer.
    pub image: u8,
    /// The assembly-name pointer, when the name is stored on the assembly.
    /// Otherwise [`ImageOffsets::assembly_name`] locates it.
    pub name: Option<u8>,
}

/// Offsets within `Il2CppImage`.
#[derive(Copy, Clone, Debug, PartialEq, Eq, Structural)]
pub struct ImageOffsets {
    /// The assembly-name pointer, when the name is stored on the image.
    /// Otherwise [`AssemblyOffsets::name`] locates it.
    pub assembly_name: Option<u8>,
    /// The number of types in the image.
    pub type_count: u8,
    /// Where the image stores the index of its first type.
    pub type_start: TypeStart,
}

/// Where an image keeps the index of its first type in the type table.
#[derive(Copy, Clone, Debug, PartialEq, Eq, Structural)]
pub enum TypeStart {
    /// The index sits directly in the image at this offset.
    Inline(u8),
    /// A pointer sits in the image at this offset; the index sits where it
    /// points.
    Handle(u8),
}

/// Offsets within `Il2CppClass`.
#[derive(Copy, Clone, Debug, PartialEq, Eq, Structural)]
pub struct ClassOffsets {
    /// The class-name pointer.
    pub name: u8,
    /// The namespace-name pointer.
    pub namespace: u8,
    /// The declaring class, when measured.
    pub declaring_type: Option<u16>,
    /// The parent-class pointer.
    pub parent: u8,
    /// The field table pointer.
    pub fields: u8,
    /// The static-field storage pointer.
    pub static_fields: u8,
    /// The boxed instance size, when measured.
    pub instance_size: Option<u16>,
    /// The number of fields declared by the class.
    pub field_count: u16,
}

/// Offsets within `Il2CppGenericClass`.
#[derive(Copy, Clone, Debug, PartialEq, Eq, Structural)]
pub struct GenericOffsets {
    /// The class cached for a resolved generic instantiation, when measured.
    pub cached_class: Option<u16>,
}

/// Offsets within `Il2CppType`.
#[derive(Copy, Clone, Debug, PartialEq, Eq, Structural)]
pub struct TypeOffsets {
    /// The type-data pointer, when measured.
    pub data: Option<u16>,
    /// The byte describing the element kind, when measured.
    pub kind: Option<u16>,
}

/// Offsets and size of `FieldInfo`.
#[derive(Copy, Clone, Debug, PartialEq, Eq, Structural)]
pub struct FieldInfoOffsets {
    /// The field-name pointer.
    pub name: u8,
    /// The field's `Il2CppType` pointer, when measured.
    pub type_: Option<u16>,
    /// The field offset within its object or static storage.
    pub offset: u8,
    /// The size of one `FieldInfo` entry.
    pub size: u8,
}

} // verus!
