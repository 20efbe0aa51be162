//! What the managed runtimes genuinely disagree on.

use vstd::prelude::*;

use super::ClassRef;
use crate::primitives::{wrap_add, Address, PointerSize};
use crate::process::Process;

verus! {

/// The low bits of the class kind byte, whose value 3 marks a generic
/// instance.
pub const CLASS_KIND_MASK: u8 = 0x7;

/// The class kind of a generic instance.
pub const GENERIC_INSTANCE_KIND: u8 = 3;

/// The element kind of a single-dimensional array.
pub const SZARRAY: u8 = 0x1D;

/// The element kind of a generic instance.
pub const GENERIC_INSTANCE: u8 = 0x15;

/// Whether a type of this element kind names a class at all. End, Void,
/// Ptr, ByRef, Var, multidimensional Array, FnPtr, and MVar do not.
pub open spec fn spec_names_a_class(kind: u8) -> bool {
    !(kind == 0x00 || kind == 0x01 || kind == 0x0F || kind == 0x10 || kind == 0x13 || kind == 0x14
        || kind == 0x1B || kind == 0x1E)
}

/// Whether a type of this element kind names a class at all.
pub fn names_a_class(kind: u8) -> (r: bool)
    ensures
        r == spec_names_a_class(kind),
{
    !(kind == 0x00 || kind == 0x01 || kind == 0x0F || kind == 0x10 || kind == 0x13 || kind == 0x14
        || kind == 0x1B || kind == 0x1E)
}

/// Mono keeps its assemblies in a glib list, its classes in each image's hash
/// table, and its statics behind the class's vtable.
#[derive(Copy, Clone, Debug)]
pub struct MonoRuntime {
    /// The global holding the list of loaded assemblies.
    pub assemblies: Address,
    /// The class cache inside an image.
    pub class_cache: u16,
    /// The size of the cache's hash table.
    pub hash_table_size: u16,
    /// The bucket array of the cache's hash table.
    pub hash_table_table: u16,
    /// The next class in a bucket's chain.
    pub next_class_cache: u16,
    /// The number of fields a class declares.
    pub field_count: u16,
    /// The class kind byte, when measured.
    pub class_kind: Option<u16>,
    /// A generic instance's instantiation descriptor, when measured.
    pub generic_class: Option<u16>,
    /// The definition an instantiation was made from, when measured.
    pub container_class: Option<u16>,
    /// A type's data, when measured.
    pub type_data: Option<u16>,
    /// A type's element kind byte, when measured.
    pub type_kind: Option<u16>,
    /// The class's runtime info.
    pub runtime_info: u16,
    /// The class's vtable size.
    pub vtable_size: u16,
    /// The method pointer array of a vtable.
    pub vtable: u16,
    /// The older runtime keeps the static data in the vtable's own data slot,
    /// where the newer one stores it past the vtable's method pointer array.
    pub statics_in_vtable_data: bool,
}

/// IL2CPP keeps its assemblies in a vector, its classes in a table its images
/// slice into, and its statics on the class itself.
#[derive(Copy, Clone, Debug)]
pub struct Il2CppRuntime {
    /// The global holding the begin and end of the assemblies vector.
    pub assemblies: Address,
    /// The global holding the type info definition table.
    pub type_info_definition_table: Address,
    /// The number of types an image holds.
    pub type_count: u16,
    /// Where an image keeps the index of its first type, or a pointer to it.
    pub metadata_handle: u16,
    /// The older lineage keeps the handle inline in the image, where the newer
    /// one keeps a pointer to it.
    pub handle_is_inline: bool,
    /// The number of fields a class declares.
    pub field_count: u16,
    /// The class's static field storage.
    pub static_fields: u16,
    /// The class a generic instantiation resolved to, when measured.
    pub cached_class: Option<u16>,
    /// A type's data, when measured.
    pub type_data: Option<u16>,
    /// A type's element kind byte, when measured.
    pub type_kind: Option<u16>,
}

/// What the runtimes genuinely disagree on.
#[derive(Copy, Clone, Debug)]
pub enum Runtime {
    /// The standard Mono runtime.
    Mono(MonoRuntime),
    /// The IL2CPP runtime.
    Il2Cpp(Il2CppRuntime),
}

/// The byte at `addr`, or 0 when it cannot be read.
pub open spec fn u8_or_zero(p: Process, addr: u64) -> u8 {
    match p.mem_u8(addr) {
        Some(v) => v,
        None => 0,
    }
}

/// The class whose count slot holds a class's field count: a generic instance
/// carries no count, so the definition it was made from answers.
pub open spec fn counted_class_of(m: MonoRuntime, p: Process, ps: PointerSize, class: u64) -> u64 {
    match (m.class_kind, m.generic_class, m.container_class) {
        (Some(ck), Some(gc), Some(cc)) => {
            let kind = u8_or_zero(p, wrap_add(class, ck as int));
            if kind & CLASS_KIND_MASK != GENERIC_INSTANCE_KIND {
                class
            } else {
                match p.mem_nonnull(wrap_add(class, gc as int), ps) {
                    Some(descriptor) => match p.mem_nonnull(wrap_add(descriptor, cc as int), ps) {
                        Some(definition) => definition,
                        None => class,
                    },
                    None => class,
                }
            }
        },
        _ => class,
    }
}

/// How many fields a class declares.
pub open spec fn field_count_of(r: Runtime, p: Process, ps: PointerSize, class: u64) -> u64 {
    match r {
        Runtime::Mono(m) => match p.mem_i32(
            wrap_add(counted_class_of(m, p, ps, class), m.field_count as int),
        ) {
            Some(count) => if count > 0 {
                count as u64
            } else {
                0
            },
            None => 0,
        },
        Runtime::Il2Cpp(i) => match p.mem_u16(wrap_add(class, i.field_count as int)) {
            Some(count) => if count != 0xFFFF {
                count as u64
            } else {
                0
            },
            None => 0,
        },
    }
}

/// The slot holding a class's static table.
pub open spec fn static_slot_of(r: Runtime, p: Process, ps: PointerSize, class: u64) -> Option<u64> {
    match r {
        Runtime::Mono(m) => match p.mem_nonnull(wrap_add(class, m.runtime_info as int), ps) {
            Some(runtime_info) => match p.mem_nonnull(wrap_add(runtime_info, ps.width() as int), ps) {
                Some(vtables) => if m.statics_in_vtable_data {
                    Some(wrap_add(vtables, m.vtable_size as int))
                } else {
                    match p.mem_u32(wrap_add(class, m.vtable_size as int)) {
                        Some(size) => Some(
                            wrap_add(
                                wrap_add(vtables, m.vtable as int),
                                (ps.width() * size) % 0x1_0000_0000_0000_0000,
                            ),
                        ),
                        None => None,
                    }
                },
                None => None,
            },
            None => None,
        },
        Runtime::Il2Cpp(i) => Some(wrap_add(class, i.static_fields as int)),
    }
}

/// The address a class's static field offsets are measured from.
pub open spec fn static_table_of(r: Runtime, p: Process, ps: PointerSize, class: u64) -> Option<u64> {
    match static_slot_of(r, p, ps, class) {
        Some(slot) => p.mem_nonnull(slot, ps),
        None => None,
    }
}

/// The class IL2CPP's type at `at` resolves to, walking at most `steps` array
/// hops.
pub open spec fn il2cpp_type_class(
    p: Process,
    ps: PointerSize,
    data: u16,
    kind: u16,
    cached: u16,
    at: u64,
    steps: nat,
) -> Option<u64>
    decreases steps,
{
    if steps == 0 {
        None
    } else {
        match p.mem_u8(wrap_add(at, kind as int)) {
            Some(element) => if !spec_names_a_class(element) {
                None
            } else {
                match p.mem_nonnull(wrap_add(at, data as int), ps) {
                    Some(d) => if element == SZARRAY {
                        il2cpp_type_class(p, ps, data, kind, cached, d, (steps - 1) as nat)
                    } else if element == GENERIC_INSTANCE {
                        p.mem_nonnull(wrap_add(d, cached as int), ps)
                    } else {
                        None
                    },
                    None => None,
                }
            },
            None => None,
        }
    }
}

/// The class a field's type names, for the kinds a collection's backing field
/// presents.
pub open spec fn class_from_type_of(r: Runtime, p: Process, ps: PointerSize, ty: u64) -> Option<u64> {
    match r {
        Runtime::Mono(m) => match (m.type_data, m.type_kind) {
            (Some(data), Some(kind)) => match p.mem_u8(wrap_add(ty, kind as int)) {
                Some(k) => if !spec_names_a_class(k) || k == GENERIC_INSTANCE {
                    None
                } else {
                    p.mem_nonnull(wrap_add(ty, data as int), ps)
                },
                None => None,
            },
            _ => None,
        },
        Runtime::Il2Cpp(i) => match (i.type_data, i.type_kind, i.cached_class) {
            (Some(data), Some(kind), Some(cached)) => il2cpp_type_class(
                p,
                ps,
                data,
                kind,
                cached,
                ty,
                8,
            ),
            _ => None,
        },
    }
}

/// The class a live object belongs to.
pub open spec fn object_class_of(r: Runtime, p: Process, ps: PointerSize, object: u64) -> Option<u64> {
    match p.mem_nonnull(object, ps) {
        Some(head) => match r {
            Runtime::Mono(_) => p.mem_nonnull(head, ps),
            Runtime::Il2Cpp(_) => Some(head),
        },
        None => None,
    }
}

impl MonoRuntime {
    /// The class whose count slot holds this class's count: a generic
    /// instance carries the inflated fields itself but no count, so the
    /// definition it was made from answers, reached through the instantiation
    /// descriptor.
    pub fn counted_class(&self, process: &Process, pointer_size: PointerSize, class: ClassRef) -> (c:
        ClassRef)
        ensures
            c.address.0 == counted_class_of(*self, *process, pointer_size, class.address.0),
    {
        let (class_kind, generic_class, container_class) = match (
            self.class_kind,
            self.generic_class,
            self.container_class,
        ) {
            (Some(a), Some(b), Some(c)) => (a, b, c),
            _ => return class,
        };
        let kind = match process.read_u8(class.address.add(class_kind as u64)) {
            Some(k) => k,
            None => 0,
        };
        if kind & CLASS_KIND_MASK != GENERIC_INSTANCE_KIND {
            return class;
        }
        match process.read_nonnull(class.address.add(generic_class as u64), pointer_size) {
            Some(descriptor) => match process.read_nonnull(
                descriptor.add(container_class as u64),
                pointer_size,
            ) {
                Some(definition) => ClassRef::new(definition),
                None => class,
            },
            None => class,
        }
    }
}

impl Runtime {
    /// Reads how many fields a class declares.
    pub fn field_count(&self, process: &Process, pointer_size: PointerSize, class: ClassRef) -> (n:
        u64)
        ensures
            n == field_count_of(*self, *process, pointer_size, class.address.0),
    {
        match self {
            Runtime::Mono(mono) => {
                let counted = mono.counted_class(process, pointer_size, class);
                match process.read_i32(counted.address.add(mono.field_count as u64)) {
                    Some(count) => if count > 0 {
                        count as u64
                    } else {
                        0
                    },
                    None => 0,
                }
            },
            // A generic definition stores u16::MAX here; no real class
            // declares that many fields.
            Runtime::Il2Cpp(il2cpp) => match process.read_u16(
                class.address.add(il2cpp.field_count as u64),
            ) {
                Some(count) => if count != 0xFFFF {
                    count as u64
                } else {
                    0
                },
                None => 0,
            },
        }
    }

    /// Reads the address a class's static field offsets are measured from.
    pub fn static_table(&self, process: &Process, pointer_size: PointerSize, class: ClassRef) -> (r:
        Option<Address>)
        ensures
            match r {
                Some(a) => static_table_of(*self, *process, pointer_size, class.address.0) == Some(
                    a.0,
                ),
                None => static_table_of(*self, *process, pointer_size, class.address.0).is_none(),
            },
    {
        let slot = match self {
            Runtime::Mono(mono) => {
                let runtime_info = process.read_nonnull(
                    class.address.add(mono.runtime_info as u64),
                    pointer_size,
                )?;
                let vtables = process.read_nonnull(
                    runtime_info.add(pointer_size.bytes()),
                    pointer_size,
                )?;
                if mono.statics_in_vtable_data {
                    vtables.add(mono.vtable_size as u64)
                } else {
                    let vtable_size = process.read_u32(class.address.add(mono.vtable_size as u64))?;
                    vtables.add(mono.vtable as u64).add(
                        pointer_size.bytes().wrapping_mul(vtable_size as u64),
                    )
                }
            },
            Runtime::Il2Cpp(il2cpp) => class.address.add(il2cpp.static_fields as u64),
        };
        process.read_nonnull(slot, pointer_size)
    }

    /// Resolves the class a field's type names, for the kinds a collection's
    /// backing field presents: an array of a class the runtimes already
    /// inflated. Kinds that name no class, and the table-resolved plain
    /// definitions IL2CPP keeps behind an index or a handle, answer nothing.
    pub fn class_from_type(&self, process: &Process, pointer_size: PointerSize, type_address: Address) -> (r:
        Option<ClassRef>)
        ensures
            match r {
                Some(c) => class_from_type_of(*self, *process, pointer_size, type_address.0) == Some(
                    c.address.0,
                ),
                None => class_from_type_of(
                    *self,
                    *process,
                    pointer_size,
                    type_address.0,
                ).is_none(),
            },
    {
        match self {
            Runtime::Mono(mono) => {
                let (data, kind) = match (mono.type_data, mono.type_kind) {
                    (Some(d), Some(k)) => (d, k),
                    _ => return None,
                };
                let kind = process.read_u8(type_address.add(kind as u64))?;
                if !names_a_class(kind) || kind == GENERIC_INSTANCE {
                    return None;
                }
                let class = process.read_nonnull(type_address.add(data as u64), pointer_size)?;
                Some(ClassRef::new(class))
            },
            Runtime::Il2Cpp(il2cpp) => {
                let (data, kind, cached) = match (
                    il2cpp.type_data,
                    il2cpp.type_kind,
                    il2cpp.cached_class,
                ) {
                    (Some(d), Some(k), Some(c)) => (d, k, c),
                    _ => return None,
                };
                let mut at = type_address;
                let mut steps: u64 = 8;
                while steps > 0
                    invariant
                        steps <= 8,
                        class_from_type_of(*self, *process, pointer_size, type_address.0)
                            == il2cpp_type_class(
                            *process,
                            pointer_size,
                            data,
                            kind,
                            cached,
                            at.0,
                            steps as nat,
                        ),
                    decreases steps,
                {
                    let element = process.read_u8(at.add(kind as u64))?;
                    if !names_a_class(element) {
                        return None;
                    }
                    let d = process.read_nonnull(at.add(data as u64), pointer_size)?;
                    if element == SZARRAY {
                        at = d;
                    } else if element == GENERIC_INSTANCE {
                        let class = process.read_nonnull(d.add(cached as u64), pointer_size)?;
                        return Some(ClassRef::new(class));
                    } else {
                        return None;
                    }
                    steps -= 1;
                }
                None
            },
        }
    }

    /// Reads the class a live object belongs to, which is how a polymorphic
    /// field's runtime type is found.
    pub fn object_class(&self, process: &Process, pointer_size: PointerSize, object: Address) -> (r:
        Option<ClassRef>)
        ensures
            match r {
                Some(c) => object_class_of(*self, *process, pointer_size, object.0) == Some(
                    c.address.0,
                ),
                None => object_class_of(*self, *process, pointer_size, object.0).is_none(),
            },
    {
        let head = process.read_nonnull(object, pointer_size)?;
        // Mono reaches the class through the object's vtable, where IL2CPP
        // heads the object with it.
        match self {
            Runtime::Mono(_) => {
                let class = process.read_nonnull(head, pointer_size)?;
                Some(ClassRef::new(class))
            },
            Runtime::Il2Cpp(_) => Some(ClassRef::new(head)),
        }
    }
}

} // verus!
