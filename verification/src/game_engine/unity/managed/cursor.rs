//! Cursors over the assemblies a runtime has loaded and the classes an image
//! holds. Each step reads what it needs when it is taken.

use vstd::prelude::*;

use super::runtime::{Il2CppRuntime, MonoRuntime, Runtime};
use super::{slot, slot_at, ClassRef, ImageRef};
use crate::primitives::{wrap_add, Address, PointerSize};
use crate::process::Process;

verus! {

/// The pointer width a glib list node is read at: 64-bit targets read two
/// 64-bit pointers, every other target two 32-bit ones.
pub open spec fn node_width(ps: PointerSize) -> PointerSize {
    match ps {
        PointerSize::Bit64 => PointerSize::Bit64,
        _ => PointerSize::Bit32,
    }
}

/// Where an assembly walk stands.
#[derive(Copy, Clone, Debug)]
pub enum AssembliesState {
    /// The glib list: each node carries the assembly and the next node.
    Mono {
        /// The node to read next.
        node: Option<Address>,
    },
    /// The vector: a slice of assembly pointers.
    Il2Cpp {
        /// The first slot.
        base: Address,
        /// How many slots there are.
        count: u64,
        /// The slot to read next.
        index: u64,
    },
}

/// The assemblies an assembly walk still hands out, taking at most `fuel`
/// steps.
pub open spec fn assemblies_rest(p: Process, ps: PointerSize, st: AssembliesState, fuel: nat) -> Seq<
    u64,
>
    decreases fuel,
{
    if fuel == 0 {
        Seq::empty()
    } else {
        match st {
            AssembliesState::Mono { node } => match node {
                None => Seq::empty(),
                Some(at) => match p.mem_ptrs(at.0, node_width(ps), 2) {
                    Some(v) => seq![v[0]] + assemblies_rest(
                        p,
                        ps,
                        AssembliesState::Mono { node: Some(Address(v[1])) },
                        (fuel - 1) as nat,
                    ),
                    None => Seq::empty(),
                },
            },
            AssembliesState::Il2Cpp { base, count, index } => if index >= count {
                Seq::empty()
            } else {
                let rest = assemblies_rest(
                    p,
                    ps,
                    AssembliesState::Il2Cpp { base, count, index: (index + 1) as u64 },
                    (fuel - 1) as nat,
                );
                match p.mem_nonnull(slot_at(base.0, ps, index), ps) {
                    Some(a) => seq![a] + rest,
                    None => rest,
                }
            },
        }
    }
}

/// The pointer at `addr`, or null when it cannot be read.
pub open spec fn ptr_or_null(p: Process, addr: u64, ps: PointerSize) -> u64 {
    match p.mem_ptr(addr, ps) {
        Some(v) => v,
        None => 0,
    }
}

/// Where an assembly walk starts.
pub open spec fn assemblies_start(r: Runtime, p: Process, ps: PointerSize) -> AssembliesState {
    match r {
        Runtime::Mono(m) => AssembliesState::Mono {
            node: match p.mem_nonnull(m.assemblies.0, ps) {
                Some(n) => Some(Address(n)),
                None => None,
            },
        },
        Runtime::Il2Cpp(i) => {
            let first = ptr_or_null(p, i.assemblies.0, ps);
            let limit = ptr_or_null(p, wrap_add(i.assemblies.0, ps.width() as int), ps);
            let span: u64 = if limit >= first {
                (limit - first) as u64
            } else {
                0
            };
            AssembliesState::Il2Cpp {
                base: Address(first),
                count: (span / ps.width()) as u64,
                index: 0,
            }
        },
    }
}

/// Every assembly the runtime has loaded, in the order it keeps them.
pub open spec fn assemblies_of(r: Runtime, p: Process, ps: PointerSize) -> Seq<u64> {
    assemblies_rest(p, ps, assemblies_start(r, p, ps), 0xFFFF_FFFF_FFFF_FFFF)
}

/// Walks the runtime's loaded assemblies.
pub struct Assemblies<'a> {
    process: &'a Process,
    pointer_size: PointerSize,
    state: AssembliesState,
    fuel: u64,
}

impl<'a> Assemblies<'a> {
    /// The assemblies the walk still hands out.
    pub closed spec fn rest(&self) -> Seq<u64> {
        assemblies_rest(*self.process, self.pointer_size, self.state, self.fuel as nat)
    }

    /// What bounds the steps the walk has left.
    pub closed spec fn measure(&self) -> nat {
        self.fuel as nat
    }

    /// Starts walking the assemblies the runtime has loaded.
    pub fn new(process: &'a Process, pointer_size: PointerSize, runtime: &Runtime) -> (a: Self)
        ensures
            a.rest() == assemblies_of(*runtime, *process, pointer_size),
    {
        let state = match runtime {
            Runtime::Mono(mono) => Self::mono_start(process, pointer_size, mono),
            Runtime::Il2Cpp(il2cpp) => Self::il2cpp_start(process, pointer_size, il2cpp),
        };
        Assemblies { process, pointer_size, state, fuel: 0xFFFF_FFFF_FFFF_FFFF }
    }

    fn mono_start(process: &Process, pointer_size: PointerSize, mono: &MonoRuntime) -> (st:
        AssembliesState)
        ensures
            st == assemblies_start(Runtime::Mono(*mono), *process, pointer_size),
    {
        AssembliesState::Mono { node: process.read_nonnull(mono.assemblies, pointer_size) }
    }

    fn il2cpp_start(process: &Process, pointer_size: PointerSize, il2cpp: &Il2CppRuntime) -> (st:
        AssembliesState)
        ensures
            st == assemblies_start(Runtime::Il2Cpp(*il2cpp), *process, pointer_size),
    {
        let first = match process.read_ptr(il2cpp.assemblies, pointer_size) {
            Some(a) => a,
            None => Address(0),
        };
        let limit = match process.read_ptr(il2cpp.assemblies.add(pointer_size.bytes()), pointer_size) {
            Some(a) => a,
            None => Address(0),
        };
        let span = limit.0.saturating_sub(first.0);
        AssembliesState::Il2Cpp { base: first, count: span / pointer_size.bytes(), index: 0 }
    }

    /// Hands out the next assembly.
    pub fn next(&mut self) -> (r: Option<Address>)
        ensures
            old(self).rest() == match r {
                Some(a) => seq![a.0] + final(self).rest(),
                None => Seq::<u64>::empty(),
            },
            r is Some ==> final(self).measure() < old(self).measure(),
    {
        loop
            invariant
                old(self).rest() == self.rest(),
                self.fuel <= old(self).fuel,
            decreases self.fuel,
        {
            if self.fuel == 0 {
                return None;
            }
            let fuel = self.fuel - 1;
            match self.state {
                AssembliesState::Mono { node } => {
                    let at = match node {
                        Some(at) => at,
                        None => return None,
                    };
                    let width = match self.pointer_size {
                        PointerSize::Bit64 => PointerSize::Bit64,
                        _ => PointerSize::Bit32,
                    };
                    let pair = match self.process.read_ptrs(at, width, 2) {
                        Some(v) => v,
                        None => return None,
                    };
                    proof {
                        assert(pair@.map_values(|a: Address| a.0).len() == 2);
                        assert(pair@.len() == 2);
                        assert(pair@.map_values(|a: Address| a.0)[0] == pair@[0].0);
                        assert(pair@.map_values(|a: Address| a.0)[1] == pair@[1].0);
                    }
                    self.state = AssembliesState::Mono { node: Some(pair[1]) };
                    self.fuel = fuel;
                    return Some(pair[0]);
                },
                AssembliesState::Il2Cpp { base, count, index } => {
                    if index >= count {
                        return None;
                    }
                    let at = slot(base, self.pointer_size, index);
                    self.state = AssembliesState::Il2Cpp { base, count, index: index + 1 };
                    self.fuel = fuel;
                    if let Some(assembly) = self.process.read_nonnull(at, self.pointer_size) {
                        return Some(assembly);
                    }
                },
            }
        }
    }
}

/// Where a class walk stands.
#[derive(Copy, Clone, Debug)]
pub enum ClassesState {
    /// The image's hash table: a bucket array whose entries chain through the
    /// classes themselves.
    Mono {
        /// The bucket array.
        table: Address,
        /// How many buckets there are. The size the runtime stores is signed,
        /// and the walk has always taken it as a count wholesale, garbage
        /// included.
        size: u64,
        /// The bucket to read next.
        bucket: u64,
        /// The class to hand out next, in the current bucket's chain.
        chain: Option<Address>,
        /// Where a class keeps the next class of its chain.
        next_class_cache: u16,
    },
    /// The image's slice of the type info definition table.
    Il2Cpp {
        /// The first slot.
        slots: Address,
        /// How many slots there are.
        count: u64,
        /// The slot to read next.
        index: u64,
    },
}

/// The pointer at `addr` when it can be read and is not null.
pub open spec fn nonnull_addr(p: Process, addr: u64, ps: PointerSize) -> Option<Address> {
    match p.mem_nonnull(addr, ps) {
        Some(v) => Some(Address(v)),
        None => None,
    }
}

/// The classes a class walk still hands out, taking at most `fuel` steps.
pub open spec fn classes_rest(p: Process, ps: PointerSize, st: ClassesState, fuel: nat) -> Seq<u64>
    decreases fuel,
{
    if fuel == 0 {
        Seq::empty()
    } else {
        match st {
            ClassesState::Mono { table, size, bucket, chain, next_class_cache } => match chain {
                Some(class) => seq![class.0] + classes_rest(
                    p,
                    ps,
                    ClassesState::Mono {
                        table,
                        size,
                        bucket,
                        chain: nonnull_addr(p, wrap_add(class.0, next_class_cache as int), ps),
                        next_class_cache,
                    },
                    (fuel - 1) as nat,
                ),
                None => if table.0 == 0 || bucket >= size {
                    Seq::empty()
                } else {
                    classes_rest(
                        p,
                        ps,
                        ClassesState::Mono {
                            table,
                            size,
                            bucket: (bucket + 1) as u64,
                            chain: nonnull_addr(p, slot_at(table.0, ps, bucket), ps),
                            next_class_cache,
                        },
                        (fuel - 1) as nat,
                    )
                },
            },
            ClassesState::Il2Cpp { slots, count, index } => if index >= count {
                Seq::empty()
            } else {
                let rest = classes_rest(
                    p,
                    ps,
                    ClassesState::Il2Cpp { slots, count, index: (index + 1) as u64 },
                    (fuel - 1) as nat,
                );
                match p.mem_nonnull(slot_at(slots.0, ps, index), ps) {
                    Some(c) => seq![c] + rest,
                    None => rest,
                }
            },
        }
    }
}

/// The value of a signed 32-bit size taken wholesale as an unsigned 64-bit
/// count.
pub open spec fn i32_as_u64(v: i32) -> u64 {
    if v >= 0 {
        v as u64
    } else {
        (v + 0x1_0000_0000_0000_0000) as u64
    }
}

/// Takes a signed 32-bit size wholesale as an unsigned 64-bit count.
pub fn widen_i32(v: i32) -> (r: u64)
    ensures
        r == i32_as_u64(v),
{
    if v >= 0 {
        v as u64
    } else {
        0xFFFF_FFFF_FFFF_FFFF - ((-(v as i64) - 1) as u64)
    }
}

/// Where a class walk over an image starts.
pub open spec fn classes_start(r: Runtime, p: Process, ps: PointerSize, image: u64) -> ClassesState {
    match r {
        Runtime::Mono(m) => {
            let cache = wrap_add(image, m.class_cache as int);
            let size = match p.mem_i32(wrap_add(cache, m.hash_table_size as int)) {
                Some(v) => i32_as_u64(v),
                None => 0,
            };
            let table = if size == 0 {
                0
            } else {
                ptr_or_null(p, wrap_add(cache, m.hash_table_table as int), ps)
            };
            ClassesState::Mono {
                table: Address(table),
                size,
                bucket: 0,
                chain: None,
                next_class_cache: m.next_class_cache,
            }
        },
        Runtime::Il2Cpp(i) => {
            let count: u64 = match p.mem_u32(wrap_add(image, i.type_count as int)) {
                Some(v) => v as u64,
                None => 0,
            };
            let metadata = if count == 0 {
                0
            } else if i.handle_is_inline {
                wrap_add(image, i.metadata_handle as int)
            } else {
                ptr_or_null(p, wrap_add(image, i.metadata_handle as int), ps)
            };
            let handle: u32 = if metadata == 0 {
                0
            } else {
                match p.mem_u32(metadata) {
                    Some(v) => v,
                    None => 0,
                }
            };
            let table = if metadata == 0 {
                0
            } else {
                ptr_or_null(p, i.type_info_definition_table.0, ps)
            };
            let slots = if table == 0 {
                0
            } else {
                slot_at(table, ps, handle as u64)
            };
            ClassesState::Il2Cpp { slots: Address(slots), count, index: 0 }
        },
    }
}

/// Every class an image holds, in the order the runtime keeps them.
pub open spec fn classes_of(r: Runtime, p: Process, ps: PointerSize, image: u64) -> Seq<u64> {
    classes_rest(p, ps, classes_start(r, p, ps, image), 0xFFFF_FFFF_FFFF_FFFF)
}

/// Walks the classes an image holds.
pub struct Classes<'a> {
    process: &'a Process,
    pointer_size: PointerSize,
    state: ClassesState,
    fuel: u64,
}

impl<'a> Classes<'a> {
    /// The classes the walk still hands out.
    pub closed spec fn rest(&self) -> Seq<u64> {
        classes_rest(*self.process, self.pointer_size, self.state, self.fuel as nat)
    }

    /// What bounds the steps the walk has left.
    pub closed spec fn measure(&self) -> nat {
        self.fuel as nat
    }

    /// The slot array the walk reads, and its length, for IL2CPP.
    pub closed spec fn slots_spec(&self) -> Option<(u64, u64)> {
        match self.state {
            ClassesState::Il2Cpp { slots, count, .. } => Some((slots.0, count)),
            ClassesState::Mono { .. } => None,
        }
    }

    /// Starts walking the classes an image holds.
    pub fn new(process: &'a Process, pointer_size: PointerSize, runtime: &Runtime, image: ImageRef) -> (c:
        Self)
        ensures
            c.rest() == classes_of(*runtime, *process, pointer_size, image.address.0),
            c.slots_spec() == match classes_start(*runtime, *process, pointer_size, image.address.0) {
                ClassesState::Il2Cpp { slots, count, .. } => Some((slots.0, count)),
                ClassesState::Mono { .. } => None,
            },
    {
        let state = match runtime {
            Runtime::Mono(mono) => Self::mono_start(process, pointer_size, mono, image),
            Runtime::Il2Cpp(il2cpp) => Self::il2cpp_start(process, pointer_size, il2cpp, image),
        };
        Classes { process, pointer_size, state, fuel: 0xFFFF_FFFF_FFFF_FFFF }
    }

    fn mono_start(process: &Process, pointer_size: PointerSize, mono: &MonoRuntime, image: ImageRef) -> (st:
        ClassesState)
        ensures
            st == classes_start(Runtime::Mono(*mono), *process, pointer_size, image.address.0),
    {
        let cache = image.address.add(mono.class_cache as u64);
        let size = match process.read_i32(cache.add(mono.hash_table_size as u64)) {
            Some(v) => widen_i32(v),
            None => 0,
        };
        let table = if size == 0 {
            Address(0)
        } else {
            match process.read_ptr(cache.add(mono.hash_table_table as u64), pointer_size) {
                Some(a) => a,
                None => Address(0),
            }
        };
        ClassesState::Mono {
            table,
            size,
            bucket: 0,
            chain: None,
            next_class_cache: mono.next_class_cache,
        }
    }

    fn il2cpp_start(
        process: &Process,
        pointer_size: PointerSize,
        il2cpp: &Il2CppRuntime,
        image: ImageRef,
    ) -> (st: ClassesState)
        ensures
            st == classes_start(Runtime::Il2Cpp(*il2cpp), *process, pointer_size, image.address.0),
    {
        let count: u64 = match process.read_u32(image.address.add(il2cpp.type_count as u64)) {
            Some(v) => v as u64,
            None => 0,
        };
        let metadata = if count == 0 {
            Address(0)
        } else if il2cpp.handle_is_inline {
            image.address.add(il2cpp.metadata_handle as u64)
        } else {
            match process.read_ptr(image.address.add(il2cpp.metadata_handle as u64), pointer_size) {
                Some(a) => a,
                None => Address(0),
            }
        };
        let handle: u32 = if metadata.0 == 0 {
            0
        } else {
            match process.read_u32(metadata) {
                Some(v) => v,
                None => 0,
            }
        };
        let table = if metadata.0 == 0 {
            Address(0)
        } else {
            match process.read_ptr(il2cpp.type_info_definition_table, pointer_size) {
                Some(a) => a,
                None => Address(0),
            }
        };
        let slots = if table.0 == 0 {
            Address(0)
        } else {
            slot(table, pointer_size, handle as u64)
        };
        ClassesState::Il2Cpp { slots, count, index: 0 }
    }

    /// The slot array and its length, for the caller that iterates the slots
    /// itself.
    pub fn slots(&self) -> (r: Option<(Address, u64)>)
        ensures
            match r {
                Some(s) => self.slots_spec() == Some((s.0.0, s.1)),
                None => self.slots_spec().is_none(),
            },
    {
        match self.state {
            ClassesState::Il2Cpp { slots, count, .. } => Some((slots, count)),
            ClassesState::Mono { .. } => None,
        }
    }

    /// Hands out the next class.
    pub fn next(&mut self) -> (r: Option<ClassRef>)
        ensures
            old(self).rest() == match r {
                Some(c) => seq![c.address.0] + final(self).rest(),
                None => Seq::<u64>::empty(),
            },
            r is Some ==> final(self).measure() < old(self).measure(),
    {
        loop
            invariant
                old(self).rest() == self.rest(),
                self.fuel <= old(self).fuel,
            decreases self.fuel,
        {
            if self.fuel == 0 {
                return None;
            }
            let fuel = self.fuel - 1;
            match self.state {
                ClassesState::Mono { table, size, bucket, chain, next_class_cache } => {
                    if let Some(class) = chain {
                        let next = self.process.read_nonnull(
                            class.add(next_class_cache as u64),
                            self.pointer_size,
                        );
                        self.state = ClassesState::Mono {
                            table,
                            size,
                            bucket,
                            chain: next,
                            next_class_cache,
                        };
                        self.fuel = fuel;
                        return Some(ClassRef::new(class));
                    }
                    if table.0 == 0 || bucket >= size {
                        return None;
                    }
                    let head = self.process.read_nonnull(
                        slot(table, self.pointer_size, bucket),
                        self.pointer_size,
                    );
                    self.state = ClassesState::Mono {
                        table,
                        size,
                        bucket: bucket + 1,
                        chain: head,
                        next_class_cache,
                    };
                    self.fuel = fuel;
                },
                ClassesState::Il2Cpp { slots, count, index } => {
                    if index >= count {
                        return None;
                    }
                    let at = slot(slots, self.pointer_size, index);
                    self.state = ClassesState::Il2Cpp { slots, count, index: index + 1 };
                    self.fuel = fuel;
                    if let Some(class) = self.process.read_nonnull(at, self.pointer_size) {
                        return Some(ClassRef::new(class));
                    }
                },
            }
        }
    }
}

impl Runtime {
    /// Walks the assemblies the target has loaded.
    pub fn assemblies<'a>(&self, process: &'a Process, pointer_size: PointerSize) -> (a: Assemblies<'a>)
        ensures
            a.rest() == assemblies_of(*self, *process, pointer_size),
    {
        Assemblies::new(process, pointer_size, self)
    }

    /// Walks the classes an image holds.
    pub fn classes<'a>(&self, process: &'a Process, pointer_size: PointerSize, image: ImageRef) -> (c:
        Classes<'a>)
        ensures
            c.rest() == classes_of(*self, *process, pointer_size, image.address.0),
    {
        Classes::new(process, pointer_size, self, image)
    }
}

} // verus!
