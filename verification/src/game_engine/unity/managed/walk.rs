//! The walk itself: everything both runtimes lay out the same way, written
//! once against the operations [`Runtime`] supplies.

use vstd::prelude::*;
use vstd::string::StringSliceAdditionalSpecFns;

use super::super::{backing_name, get_backing_name, CSTR};
use super::cursor::{assemblies_of, classes_of};
use super::runtime::{field_count_of, object_class_of, static_table_of, Runtime};
use super::runtime::class_from_type_of;
use super::{
    name_at, read_name, ClassRef, ClimbStop, DictionaryOffsets, EntryLayout, FieldRef,
    HashSetOffsets, ImageRef, ListOffsets, SlotLayout, WalkOffsets,
};
use crate::primitives::{wrap_add, Address, PointerSize};
use crate::process::{bytes_eq, Process};
use crate::string::ArrayCString;
use crate::text::{
    find_byte, first_index, last_index, lemma_last_index, lemma_seq_first_cons, rfind_byte,
    seq_first, sub_bytes,
};

verus! {

/// The walk itself: everything both runtimes lay out the same way, written
/// once against the operations [`Runtime`] supplies. An adapter builds one
/// per call from what its module holds, so nothing here is stored anywhere.
#[derive(Copy, Clone, Debug)]
pub struct Walk {
    /// What the runtimes disagree on.
    pub runtime: Runtime,
    /// The offsets the walk reads.
    pub offsets: WalkOffsets,
    /// The names the field climb stops at.
    pub stop: ClimbStop,
    /// The pointer width of the target.
    pub pointer_size: PointerSize,
}

/// The most bytes one dictionary entry may span.
pub const ENTRY_SCRATCH: u32 = 256;

/// The collections whose backing the walk resolves.
#[derive(Copy, Clone, Debug, PartialEq, Eq, Structural)]
pub enum Collection {
    /// `System.Collections.Generic.Dictionary`.
    Dictionary,
    /// `System.Collections.Generic.HashSet`.
    HashSet,
}

/// Which member of a collection's own fields a name is.
pub open spec fn collection_member(kind: Collection, name: Seq<u8>) -> int {
    match kind {
        Collection::Dictionary => dictionary_member(name),
        Collection::HashSet => hash_set_member(name),
    }
}

/// Which member of a hash set's own fields a name is: the buckets, the
/// slots, the count, the high-water mark.
pub open spec fn hash_set_member(name: Seq<u8>) -> int {
    if name == "_buckets".spec_bytes() {
        0
    } else if name == "_slots".spec_bytes() {
        1
    } else if name == "_count".spec_bytes() {
        2
    } else if name == "_lastIndex".spec_bytes() {
        3
    } else {
        -1
    }
}

/// Which member of a dictionary's own fields a name is, in either corlib
/// naming generation: the buckets, the entries, the count, the free count.
pub open spec fn dictionary_member(name: Seq<u8>) -> int {
    if name == "_buckets".spec_bytes() || name == "buckets".spec_bytes() {
        0
    } else if name == "_entries".spec_bytes() || name == "entries".spec_bytes() {
        1
    } else if name == "_count".spec_bytes() || name == "count".spec_bytes() {
        2
    } else if name == "_freeCount".spec_bytes() || name == "freeCount".spec_bytes() {
        3
    } else {
        -1
    }
}

/// Which member of a dictionary entry a name is: the hash code, the link,
/// the key, the value.
pub open spec fn entry_member(name: Seq<u8>) -> int {
    if name == "hashCode".spec_bytes() {
        0
    } else if name == "next".spec_bytes() {
        1
    } else if name == "key".spec_bytes() {
        2
    } else if name == "value".spec_bytes() {
        3
    } else {
        -1
    }
}

/// A member's offset measured from the entry's own start rather than the
/// boxed object's.
pub open spec fn unboxed(offset: u32, header: u32) -> Option<u32> {
    if offset >= header {
        Some((offset - header) as u32)
    } else {
        None
    }
}

/// Whether a four-byte member at `member` ends inside an entry.
pub open spec fn ends_inside(member: u32, stride: u32) -> bool {
    member + 4 <= stride
}

/// The bound on how many steps any climb or chain of the walk takes.
pub open spec fn climb_fuel() -> nat {
    0xFFFF_FFFF_FFFF_FFFF
}


/// Which member of a collection's own fields a name is.
fn member_index(kind: Collection, name: &ArrayCString<CSTR>) -> (m: i8)
    ensures
        m == collection_member(kind, name@),
{
    match kind {
        Collection::Dictionary => if name.matches("_buckets") || name.matches("buckets") {
            0
        } else if name.matches("_entries") || name.matches("entries") {
            1
        } else if name.matches("_count") || name.matches("count") {
            2
        } else if name.matches("_freeCount") || name.matches("freeCount") {
            3
        } else {
            -1
        },
        Collection::HashSet => if name.matches("_buckets") {
            0
        } else if name.matches("_slots") {
            1
        } else if name.matches("_count") {
            2
        } else if name.matches("_lastIndex") {
            3
        } else {
            -1
        },
    }
}

impl Walk {
    /// The image an assembly carries.
    pub open spec fn image_of(self, p: Process, assembly: u64) -> Option<u64> {
        p.mem_nonnull(wrap_add(assembly, self.offsets.assembly.image as int), self.pointer_size)
    }

    /// An assembly's name, read as `n` bytes.
    pub open spec fn assembly_name_of(self, p: Process, assembly: u64, n: nat) -> Option<Seq<u8>> {
        match (self.offsets.assembly.name_in_image, self.offsets.assembly.name_in_assembly) {
            (Some(at), _) => match self.image_of(p, assembly) {
                Some(image) => name_at(p, self.pointer_size, wrap_add(image, at as int), n),
                None => None,
            },
            (None, Some(at)) => name_at(p, self.pointer_size, wrap_add(assembly, at as int), n),
            _ => None,
        }
    }

    /// A class's name, read as `n` bytes.
    pub open spec fn class_name_of(self, p: Process, class: u64, n: nat) -> Option<Seq<u8>> {
        name_at(p, self.pointer_size, wrap_add(class, self.offsets.class.name as int), n)
    }

    /// A class's namespace, read as `n` bytes.
    pub open spec fn class_namespace_of(self, p: Process, class: u64, n: nat) -> Option<Seq<u8>> {
        name_at(p, self.pointer_size, wrap_add(class, self.offsets.class.namespace as int), n)
    }

    /// A class's parent.
    pub open spec fn parent_of(self, p: Process, class: u64) -> Option<u64> {
        p.mem_nonnull(wrap_add(class, self.offsets.class.parent as int), self.pointer_size)
    }

    /// The image of the first loaded assembly with the given name.
    pub open spec fn find_image_of(self, p: Process, name: Seq<u8>) -> Option<u64> {
        match seq_first(
            assemblies_of(self.runtime, p, self.pointer_size),
            |a: u64| self.assembly_name_of(p, a, CSTR as nat) == Some(name),
        ) {
            Some(a) => self.image_of(p, a),
            None => None,
        }
    }

    /// The field entry at `index` of a field array.
    pub open spec fn field_entry(self, fields: u64, index: u64) -> u64 {
        wrap_add(fields, (index * self.offsets.field.stride) % 0x1_0000_0000_0000_0000)
    }

    /// A field's name, read as `n` bytes.
    pub open spec fn field_name_of(self, p: Process, field: u64, n: nat) -> Option<Seq<u8>> {
        name_at(p, self.pointer_size, wrap_add(field, self.offsets.field.name as int), n)
    }

    /// A field's offset.
    pub open spec fn field_offset_of(self, p: Process, field: u64) -> Option<u32> {
        p.mem_u32(wrap_add(field, self.offsets.field.offset as int))
    }

    /// Whether a field carries the written name, or is the backing field of
    /// a property of that name.
    pub open spec fn field_is(self, p: Process, field: u64, target: Seq<u8>) -> bool {
        match self.field_name_of(p, field, CSTR as nat) {
            Some(name) => name == target || backing_name(name) == Some(target),
            None => false,
        }
    }

    /// The first field from `index` on, among `count`, that carries the name.
    pub open spec fn own_field(
        self,
        p: Process,
        fields: u64,
        count: u64,
        index: u64,
        target: Seq<u8>,
    ) -> Option<u64>
        decreases count - index,
    {
        if index >= count {
            None
        } else if self.field_is(p, self.field_entry(fields, index), target) {
            Some(self.field_entry(fields, index))
        } else {
            self.own_field(p, fields, count, (index + 1) as u64, target)
        }
    }

    /// The field array a class declares, when it declares any.
    pub open spec fn fields_of(self, p: Process, class: u64) -> Option<u64> {
        if field_count_of(self.runtime, p, self.pointer_size, class) == 0 {
            None
        } else {
            p.mem_nonnull(wrap_add(class, self.offsets.class.fields as int), self.pointer_size)
        }
    }

    /// Whether the climb stops at a class, by its names; `None` when a name
    /// cannot be read.
    pub open spec fn stops_at(self, p: Process, class: u64) -> Option<bool> {
        match self.class_name_of(p, class, CSTR as nat) {
            Some(name) => if name == self.stop.class.spec_bytes() {
                Some(true)
            } else {
                match self.class_namespace_of(p, class, CSTR as nat) {
                    Some(ns) => Some(ns == self.stop.namespace.spec_bytes()),
                    None => None,
                }
            },
            None => None,
        }
    }

    /// The climb for a field by name, from `class` up the parent chain.
    pub open spec fn field_search(
        self,
        p: Process,
        class: Option<u64>,
        target: Seq<u8>,
        fuel: nat,
    ) -> Option<(u64, u32)>
        decreases fuel,
    {
        if fuel == 0 {
            None
        } else {
            match class {
                None => None,
                Some(c) => match self.stops_at(p, c) {
                    None => None,
                    Some(true) => None,
                    Some(false) => {
                        let next = self.parent_of(p, c);
                        match self.fields_of(p, c) {
                            None => self.field_search(p, next, target, (fuel - 1) as nat),
                            Some(fields) => match self.own_field(
                                p,
                                fields,
                                field_count_of(self.runtime, p, self.pointer_size, c),
                                0,
                                target,
                            ) {
                                Some(f) => match self.field_offset_of(p, f) {
                                    Some(o) => Some((c, o)),
                                    None => None,
                                },
                                None => self.field_search(p, next, target, (fuel - 1) as nat),
                            },
                        }
                    },
                },
            }
        }
    }

    /// Whether a class carries a written name without nesting: the namespace
    /// split off at the last dot when one is written.
    pub open spec fn plain_class_is(self, p: Process, class: u64, written: Seq<u8>) -> bool {
        match last_index(written, 0x2E) {
            Some(i) => self.class_name_of(p, class, CSTR as nat) == Some(
                written.subrange(i + 1, written.len() as int),
            ) && self.class_namespace_of(p, class, CSTR as nat) == Some(written.take(i)),
            None => self.class_name_of(p, class, CSTR as nat) == Some(written),
        }
    }

    /// Whether the classes enclosing `outer` carry, from the inside out, the
    /// `+`-separated parts of `rest` written from the outside in, the
    /// outermost being enclosed by nothing and carrying the namespace.
    pub open spec fn climb_encloses(
        self,
        p: Process,
        outer: u64,
        rest: Option<Seq<u8>>,
        namespace: Seq<u8>,
        declaring: u16,
    ) -> bool
        decreases
                match rest {
                    Some(r) => r.len() + 1,
                    None => 0,
                },
    {
        match rest {
            None => p.mem_ptr(wrap_add(outer, declaring as int), self.pointer_size) == Some(0u64)
                && self.class_namespace_of(p, outer, CSTR as nat) == Some(namespace),
            Some(r) => {
                let (part, more) = match last_index(r, 0x2B) {
                    Some(k) => {
                        proof {
                            lemma_last_index(r, 0x2B);
                        }
                        (r.subrange(k + 1, r.len() as int), Some(r.take(k)))
                    },
                    None => (r, None),
                };
                match p.mem_nonnull(wrap_add(outer, declaring as int), self.pointer_size) {
                    Some(o) => self.class_name_of(p, o, CSTR as nat) == Some(part)
                        && self.climb_encloses(p, o, more, namespace, declaring),
                    None => false,
                }
            },
        }
    }

    /// Whether a class whose own name matched the leaf is the one the written
    /// nesting meant.
    pub open spec fn encloses_of(
        self,
        p: Process,
        class: u64,
        nested: Seq<u8>,
        namespace: Seq<u8>,
        declaring: u16,
    ) -> bool {
        let outer_parts = match last_index(nested, 0x2B) {
            Some(j) => Some(nested.take(j)),
            None => None,
        };
        self.climb_encloses(p, class, outer_parts, namespace, declaring)
    }

    /// Whether a class carries a plain written name.
    pub open spec fn plain_pred(self, p: Process, written: Seq<u8>) -> spec_fn(u64) -> bool {
        |c: u64| self.plain_class_is(p, c, written)
    }

    /// Whether a class carries the leaf of a nested name and the enclosures
    /// written before it.
    pub open spec fn nested_pred(
        self,
        p: Process,
        leaf: Seq<u8>,
        nested: Seq<u8>,
        namespace: Seq<u8>,
        declaring: u16,
    ) -> spec_fn(u64) -> bool {
        |c: u64|
            self.class_name_of(p, c, CSTR as nat) == Some(leaf) && self.encloses_of(
                p,
                c,
                nested,
                namespace,
                declaring,
            )
    }

    /// The class a written name resolves to in an image: `Namespace.Name`,
    /// or `Namespace.Outer+Inner` for a nested class.
    pub open spec fn find_class_of(self, p: Process, image: u64, written: Seq<u8>) -> Option<u64> {
        let classes = classes_of(self.runtime, p, self.pointer_size, image);
        match first_index(written, 0x2B) {
            Some(plus) => {
                let (namespace, nested) = match last_index(written.take(plus), 0x2E) {
                    Some(i) => (written.take(i), written.subrange(i + 1, written.len() as int)),
                    None => (Seq::<u8>::empty(), written),
                };
                let leaf = match last_index(nested, 0x2B) {
                    Some(j) => nested.subrange(j + 1, nested.len() as int),
                    None => nested,
                };
                match self.offsets.class.declaring {
                    Some(declaring) => seq_first(
                        classes,
                        self.nested_pred(p, leaf, nested, namespace, declaring),
                    ),
                    None => None,
                }
            },
            None => seq_first(classes, self.plain_pred(p, written)),
        }
    }

    /// The first class from `class` up the parent chain that carries both
    /// names. A name that cannot be read ends the climb empty-handed.
    pub open spec fn find_ancestor(
        self,
        p: Process,
        class: u64,
        name: Seq<u8>,
        namespace: Seq<u8>,
        fuel: nat,
    ) -> Option<u64>
        decreases fuel,
    {
        if fuel == 0 {
            None
        } else {
            match self.class_name_of(p, class, CSTR as nat) {
                None => None,
                Some(n) => {
                    let here: Option<bool> = if n == name {
                        match self.class_namespace_of(p, class, CSTR as nat) {
                            None => None,
                            Some(ns) => Some(ns == namespace),
                        }
                    } else {
                        Some(false)
                    };
                    match here {
                        None => None,
                        Some(true) => Some(class),
                        Some(false) => match self.parent_of(p, class) {
                            Some(parent) => self.find_ancestor(
                                p,
                                parent,
                                name,
                                namespace,
                                (fuel - 1) as nat,
                            ),
                            None => None,
                        },
                    }
                },
            }
        }
    }

    /// The corlib class of the given name an object's class derives from.
    pub open spec fn object_ancestor(self, p: Process, object: u64, name: Seq<u8>) -> Option<u64> {
        match object_class_of(self.runtime, p, self.pointer_size, object) {
            Some(class) => self.find_ancestor(
                p,
                class,
                name,
                "System.Collections.Generic".spec_bytes(),
                climb_fuel(),
            ),
            None => None,
        }
    }

    /// The offsets of the `_items` and `_size` fields among the field
    /// entries from `index` on, the last readable entry of each name
    /// answering.
    pub open spec fn list_scan(
        self,
        p: Process,
        fields: u64,
        count: u64,
        index: u64,
        items: Option<u32>,
        size: Option<u32>,
    ) -> (Option<u32>, Option<u32>)
        decreases count - index,
    {
        if index >= count {
            (items, size)
        } else {
            let f = self.field_entry(fields, index);
            let next = (index + 1) as u64;
            match self.field_name_of(p, f, CSTR as nat) {
                None => self.list_scan(p, fields, count, next, items, size),
                Some(n) => if n == "_items".spec_bytes() {
                    self.list_scan(p, fields, count, next, self.field_offset_of(p, f), size)
                } else if n == "_size".spec_bytes() {
                    self.list_scan(p, fields, count, next, items, self.field_offset_of(p, f))
                } else {
                    self.list_scan(p, fields, count, next, items, size)
                },
            }
        }
    }

    /// Where a list object keeps its backing array and live count.
    pub open spec fn list_offsets_of(self, p: Process, object: u64) -> Option<ListOffsets> {
        match self.object_ancestor(p, object, "List`1".spec_bytes()) {
            Some(class) => match p.mem_nonnull(
                wrap_add(class, self.offsets.class.fields as int),
                self.pointer_size,
            ) {
                Some(fields) => match self.list_scan(
                    p,
                    fields,
                    field_count_of(self.runtime, p, self.pointer_size, class),
                    0,
                    None,
                    None,
                ) {
                    (Some(items), Some(size)) => Some(ListOffsets { items, size }),
                    _ => None,
                },
                None => None,
            },
            None => None,
        }
    }

    /// A dictionary class's own members, from the field entries at `index`
    /// on: each member the last readable entry of its name, with its offset.
    pub open spec fn dictionary_scan(
        self,
        kind: Collection,
        p: Process,
        fields: u64,
        count: u64,
        index: u64,
        found: Seq<Option<(u64, u32)>>,
    ) -> Seq<Option<(u64, u32)>>
        decreases count - index,
    {
        if index >= count {
            found
        } else {
            let f = self.field_entry(fields, index);
            let next = (index + 1) as u64;
            match (self.field_name_of(p, f, CSTR as nat), self.field_offset_of(p, f)) {
                (Some(n), Some(o)) => {
                    let m = collection_member(kind, n);
                    if m >= 0 {
                        self.dictionary_scan(kind, p, fields, count, next, found.update(m, Some((f, o))))
                    } else {
                        self.dictionary_scan(kind, p, fields, count, next, found)
                    }
                },
                _ => self.dictionary_scan(kind, p, fields, count, next, found),
            }
        }
    }

    /// An entry class's members, from the field entries at `index` on: each
    /// member the last readable entry of its name, its offset unboxed.
    pub open spec fn entry_scan(
        self,
        p: Process,
        fields: u64,
        count: u64,
        index: u64,
        header: u32,
        found: Seq<Option<u32>>,
    ) -> Seq<Option<u32>>
        decreases count - index,
    {
        if index >= count {
            found
        } else {
            let f = self.field_entry(fields, index);
            let next = (index + 1) as u64;
            match (self.field_name_of(p, f, CSTR as nat), self.field_offset_of(p, f)) {
                (Some(n), Some(o)) => {
                    let m = entry_member(n);
                    if m >= 0 {
                        self.entry_scan(p, fields, count, next, header, found.update(m, unboxed(o, header)))
                    } else {
                        self.entry_scan(p, fields, count, next, header, found)
                    }
                },
                _ => self.entry_scan(p, fields, count, next, header, found),
            }
        }
    }

    /// The own field array of a class, when readable.
    pub open spec fn own_field_array(self, p: Process, class: u64) -> Option<u64> {
        p.mem_nonnull(wrap_add(class, self.offsets.class.fields as int), self.pointer_size)
    }

    /// A dictionary class's members as `dictionary_scan` finds them over all
    /// of its own fields.
    pub open spec fn dictionary_members(self, kind: Collection, p: Process, class: u64) -> Seq<Option<(u64, u32)>> {
        let none: Seq<Option<(u64, u32)>> = seq![None, None, None, None];
        match self.own_field_array(p, class) {
            Some(fields) => self.dictionary_scan(
                kind,
                p,
                fields,
                field_count_of(self.runtime, p, self.pointer_size, class),
                0,
                none,
            ),
            None => none,
        }
    }

    /// An entry class's members as `entry_scan` finds them over all of its
    /// own fields.
    pub open spec fn entry_members(self, p: Process, class: u64, header: u32) -> Seq<Option<u32>> {
        let none: Seq<Option<u32>> = seq![None, None, None, None];
        match self.own_field_array(p, class) {
            Some(fields) => self.entry_scan(
                p,
                fields,
                field_count_of(self.runtime, p, self.pointer_size, class),
                0,
                header,
                none,
            ),
            None => none,
        }
    }

    /// The size of one dictionary entry, from the boxed size of its class.
    pub open spec fn entry_stride(self, p: Process, entry_class: u64, header: u32) -> Option<u32> {
        match self.offsets.class.instance_size {
            Some(at) => match p.mem_i32(wrap_add(entry_class, at as int)) {
                Some(size) => if size >= 0 && size as int >= header as int && size - header > 0
                    && size - header <= ENTRY_SCRATCH {
                    Some((size - header) as u32)
                } else {
                    None
                },
                None => None,
            },
            None => None,
        }
    }

    /// Where a dictionary object keeps its backing entries and live counts,
    /// and how one entry lays out.
    pub open spec fn dictionary_offsets_of(self, p: Process, object: u64) -> Option<
        DictionaryOffsets,
    > {
        match self.object_ancestor(p, object, "Dictionary`2".spec_bytes()) {
            Some(class) => {
                let found = self.dictionary_members(Collection::Dictionary, p, class);
                match (found[0], found[1], found[2], found[3], self.offsets.field.type_) {
                    (Some(_), Some(entries), Some(count), Some(free_count), Some(type_at)) => match p.mem_nonnull(
                        wrap_add(entries.0, type_at as int),
                        self.pointer_size,
                    ) {
                        Some(entry_type) => match class_from_type_of(
                            self.runtime,
                            p,
                            self.pointer_size,
                            entry_type,
                        ) {
                            Some(entry_class) => {
                                let header = (2 * self.pointer_size.width()) as u32;
                                match self.entry_stride(p, entry_class, header) {
                                    Some(stride) => {
                                        let members = self.entry_members(p, entry_class, header);
                                        match (members[0], members[1], members[2], members[3]) {
                                            (Some(hash), Some(next), Some(key), Some(value)) => if ends_inside(hash, stride)
                                                && ends_inside(next, stride) && key < stride && value
                                                < stride {
                                                Some(
                                                    DictionaryOffsets {
                                                        entries: entries.1,
                                                        count: count.1,
                                                        free_count: free_count.1,
                                                        layout: EntryLayout { stride, hash, next, key, value },
                                                    },
                                                )
                                            } else {
                                                None
                                            },
                                            _ => None,
                                        }
                                    },
                                    None => None,
                                }
                            },
                            None => None,
                        },
                        None => None,
                    },
                    _ => None,
                }
            },
            None => None,
        }
    }

    /// Where a hash set object keeps its backing slots, live count and
    /// high-water mark, and how one slot lays out: the slot class arrives
    /// through the slots field's own type, as a dictionary's entry class
    /// does, and its key, when it claims one, is not read.
    pub open spec fn hash_set_offsets_of(self, p: Process, object: u64) -> Option<HashSetOffsets> {
        match self.object_ancestor(p, object, "HashSet`1".spec_bytes()) {
            Some(class) => {
                let found = self.dictionary_members(Collection::HashSet, p, class);
                match (found[0], found[1], found[2], found[3], self.offsets.field.type_) {
                    (Some(_), Some(slots), Some(count), Some(last_index), Some(type_at)) => match p.mem_nonnull(
                        wrap_add(slots.0, type_at as int),
                        self.pointer_size,
                    ) {
                        Some(slot_type) => match class_from_type_of(
                            self.runtime,
                            p,
                            self.pointer_size,
                            slot_type,
                        ) {
                            Some(slot_class) => {
                                let header = (2 * self.pointer_size.width()) as u32;
                                match self.entry_stride(p, slot_class, header) {
                                    Some(stride) => {
                                        let members = self.entry_members(p, slot_class, header);
                                        match (members[0], members[1], members[3]) {
                                            (Some(hash), Some(next), Some(value)) => if ends_inside(hash, stride)
                                                && ends_inside(next, stride) && value < stride {
                                                Some(
                                                    HashSetOffsets {
                                                        slots: slots.1,
                                                        count: count.1,
                                                        last_index: last_index.1,
                                                        layout: SlotLayout { stride, hash, next, value },
                                                    },
                                                )
                                            } else {
                                                None
                                            },
                                            _ => None,
                                        }
                                    },
                                    None => None,
                                }
                            },
                            None => None,
                        },
                        None => None,
                    },
                    _ => None,
                }
            },
            None => None,
        }
    }

    /// Reads an assembly's name, off the assembly itself or through its image,
    /// whichever the offsets carry.
    pub fn assembly_name<const N: usize>(&self, process: &Process, assembly: Address) -> (r: Option<
        ArrayCString<N>,
    >)
        ensures
            match r {
                Some(s) => self.assembly_name_of(*process, assembly.0, N as nat) == Some(s@),
                None => self.assembly_name_of(*process, assembly.0, N as nat).is_none(),
            },
    {
        let at = match (self.offsets.assembly.name_in_image, self.offsets.assembly.name_in_assembly) {
            (Some(name), _) => {
                let image = self.assembly_image(process, assembly)?;
                image.address.add(name as u64)
            },
            (None, Some(name)) => assembly.add(name as u64),
            _ => return None,
        };
        read_name::<N>(process, self.pointer_size, at)
    }

    /// Reads the image an assembly carries.
    pub fn assembly_image(&self, process: &Process, assembly: Address) -> (r: Option<ImageRef>)
        ensures
            match r {
                Some(i) => self.image_of(*process, assembly.0) == Some(i.address.0),
                None => self.image_of(*process, assembly.0).is_none(),
            },
    {
        let image = process.read_nonnull(
            assembly.add(self.offsets.assembly.image as u64),
            self.pointer_size,
        )?;
        Some(ImageRef::new(image))
    }

    /// Reads a class's name.
    pub fn class_name<const N: usize>(&self, process: &Process, class: ClassRef) -> (r: Option<
        ArrayCString<N>,
    >)
        ensures
            match r {
                Some(s) => self.class_name_of(*process, class.address.0, N as nat) == Some(s@),
                None => self.class_name_of(*process, class.address.0, N as nat).is_none(),
            },
    {
        read_name::<N>(process, self.pointer_size, class.address.add(self.offsets.class.name as u64))
    }

    /// Reads a class's namespace.
    pub fn class_namespace<const N: usize>(&self, process: &Process, class: ClassRef) -> (r: Option<
        ArrayCString<N>,
    >)
        ensures
            match r {
                Some(s) => self.class_namespace_of(*process, class.address.0, N as nat) == Some(s@),
                None => self.class_namespace_of(*process, class.address.0, N as nat).is_none(),
            },
    {
        read_name::<N>(
            process,
            self.pointer_size,
            class.address.add(self.offsets.class.namespace as u64),
        )
    }

    /// Resolves a loaded image by its assembly name.
    pub fn find_image(&self, process: &Process, name: &str) -> (r: Option<ImageRef>)
        ensures
            match r {
                Some(i) => self.find_image_of(*process, name.spec_bytes()) == Some(i.address.0),
                None => self.find_image_of(*process, name.spec_bytes()).is_none(),
            },
    {
        let text = name.as_bytes();
        let ghost pred = |a: u64| self.assembly_name_of(*process, a, CSTR as nat) == Some(text@);
        let mut assemblies = self.runtime.assemblies(process, self.pointer_size);
        loop
            invariant
                text@ == name.spec_bytes(),
                pred == (|a: u64| self.assembly_name_of(*process, a, CSTR as nat) == Some(text@)),
                seq_first(assemblies_of(self.runtime, *process, self.pointer_size), pred)
                    == seq_first(assemblies.rest(), pred),
            decreases assemblies.measure(),
        {
            let ghost before = assemblies.rest();
            match assemblies.next() {
                Some(assembly) => {
                    proof {
                        lemma_seq_first_cons(assembly.0, assemblies.rest(), pred);
                    }
                    let matched = match self.assembly_name::<CSTR>(process, assembly) {
                        Some(read) => read.matches_bytes(text),
                        None => false,
                    };
                    if matched {
                        return self.assembly_image(process, assembly);
                    }
                },
                None => {
                    return None;
                },
            }
        }
    }

    /// Whether a class carries a written name without nesting.
    fn plain_class_matches(&self, process: &Process, class: ClassRef, written: &[u8]) -> (r: bool)
        ensures
            r == self.plain_class_is(*process, class.address.0, written@),
    {
        let name = match self.class_name::<CSTR>(process, class) {
            Some(n) => n,
            None => return false,
        };
        match rfind_byte(written, written.len(), 0x2E) {
            Some(i) => {
                proof {
                    lemma_last_index(written@, 0x2E);
                    assert(written@.take(written@.len() as int) =~= written@);
                }
                let leaf = sub_bytes(written, i + 1, written.len());
                if !name.matches_bytes(leaf.as_slice()) {
                    return false;
                }
                let namespace = match self.class_namespace::<CSTR>(process, class) {
                    Some(n) => n,
                    None => return false,
                };
                let written_ns = sub_bytes(written, 0, i);
                proof {
                    assert(written@.subrange(0, i as int) =~= written@.take(i as int));
                }
                namespace.matches_bytes(written_ns.as_slice())
            },
            None => {
                proof {
                    assert(written@.take(written@.len() as int) =~= written@);
                }
                name.matches_bytes(written)
            },
        }
    }

    /// Whether a class whose own name matched the leaf is the one the written
    /// name meant: each step out has to be the part written before it, the
    /// outermost has to be enclosed by nothing, and the namespace belongs to
    /// the outermost, the leaf's own being empty when nested.
    fn encloses(
        &self,
        process: &Process,
        class: ClassRef,
        nested: &[u8],
        namespace: &[u8],
        declaring: u16,
    ) -> (r: bool)
        ensures
            r == self.encloses_of(*process, class.address.0, nested@, namespace@, declaring),
    {
        let mut outer = class;
        let mut rest_end: Option<usize> = rfind_byte(nested, nested.len(), 0x2B);
        proof {
            assert(nested@.take(nested@.len() as int) =~= nested@);
            lemma_last_index(nested@, 0x2B);
        }
        loop
            invariant
                rest_end matches Some(e) ==> e <= nested@.len(),
                self.encloses_of(*process, class.address.0, nested@, namespace@, declaring)
                    == self.climb_encloses(
                    *process,
                    outer.address.0,
                    match rest_end {
                        Some(e) => Some(nested@.take(e as int)),
                        None => None,
                    },
                    namespace@,
                    declaring,
                ),
            decreases
                    match rest_end {
                        Some(e) => e + 1,
                        None => 0,
                    },
        {
            match rest_end {
                None => {
                    let enclosing = process.read_ptr(
                        outer.address.add(declaring as u64),
                        self.pointer_size,
                    );
                    match enclosing {
                        Some(a) => if a.0 != 0 {
                            return false;
                        },
                        None => return false,
                    }
                    return match self.class_namespace::<CSTR>(process, outer) {
                        Some(read) => read.matches_bytes(namespace),
                        None => false,
                    };
                },
                Some(e) => {
                    let k = rfind_byte(nested, e, 0x2B);
                    proof {
                        lemma_last_index(nested@.take(e as int), 0x2B);
                    }
                    let (from, more) = match k {
                        Some(k) => (k + 1, Some(k)),
                        None => (0, None),
                    };
                    proof {
                        if let Some(k) = k {
                            assert(nested@.take(e as int).subrange(k + 1, e as int) =~= nested@.subrange(
                                k + 1,
                                e as int,
                            ));
                            assert(nested@.take(e as int).take(k as int) =~= nested@.take(k as int));
                        } else {
                            assert(nested@.take(e as int) =~= nested@.subrange(0, e as int));
                        }
                    }
                    let part = sub_bytes(nested, from, e);
                    let o = match process.read_nonnull(
                        outer.address.add(declaring as u64),
                        self.pointer_size,
                    ) {
                        Some(o) => o,
                        None => return false,
                    };
                    let named = match self.class_name::<CSTR>(process, ClassRef::new(o)) {
                        Some(read) => read.matches_bytes(part.as_slice()),
                        None => false,
                    };
                    if !named {
                        return false;
                    }
                    outer = ClassRef::new(o);
                    rest_end = more;
                },
            }
        }
    }

    /// Resolves a class by name, with the namespace split off at the last dot
    /// when one is written. A nested class is written the way .NET writes it,
    /// `Outer+Inner`: the runtime stores the innermost name bare, so the leaf
    /// is what the lookup matches on, and the written enclosure is checked by
    /// climbing.
    pub fn find_class(&self, process: &Process, image: ImageRef, class_name: &str) -> (r: Option<
        ClassRef,
    >)
        ensures
            match r {
                Some(c) => self.find_class_of(*process, image.address.0, class_name.spec_bytes())
                    == Some(c.address.0),
                None => self.find_class_of(
                    *process,
                    image.address.0,
                    class_name.spec_bytes(),
                ).is_none(),
            },
    {
        let written = class_name.as_bytes();
        let ghost classes = classes_of(self.runtime, *process, self.pointer_size, image.address.0);
        match find_byte(written, 0x2B) {
            Some(plus) => {
                proof {
                    crate::text::lemma_first_index(written@, 0x2B);
                }
                let dot = rfind_byte(written, plus, 0x2E);
                proof {
                    lemma_last_index(written@.take(plus as int), 0x2E);
                }
                let (namespace, nested) = match dot {
                    Some(i) => {
                        let ns = sub_bytes(written, 0, i);
                        let nested = sub_bytes(written, i + 1, written.len());
                        proof {
                            assert(written@.subrange(0, i as int) =~= written@.take(i as int));
                        }
                        (ns, nested)
                    },
                    None => {
                        let nested = sub_bytes(written, 0, written.len());
                        proof {
                            assert(written@.subrange(0, written@.len() as int) =~= written@);
                        }
                        (Vec::new(), nested)
                    },
                };
                let declaring = match self.offsets.class.declaring {
                    Some(d) => d,
                    None => return None,
                };
                let j = rfind_byte(nested.as_slice(), nested.len(), 0x2B);
                proof {
                    assert(nested@.take(nested@.len() as int) =~= nested@);
                    lemma_last_index(nested@, 0x2B);
                }
                let leaf = match j {
                    Some(j) => sub_bytes(nested.as_slice(), j + 1, nested.len()),
                    None => sub_bytes(nested.as_slice(), 0, nested.len()),
                };
                proof {
                    if j is None {
                        assert(nested@.subrange(0, nested@.len() as int) =~= nested@);
                    }
                }
                self.first_nested(process, image, leaf.as_slice(), nested.as_slice(), namespace.as_slice(), declaring)
            },
            None => self.first_plain(process, image, written),
        }
    }

    /// Finds the first class of an image carrying a plain written name.
    fn first_plain(&self, process: &Process, image: ImageRef, written: &[u8]) -> (r: Option<ClassRef>)
        ensures
            match r {
                Some(c) => seq_first(
                    classes_of(self.runtime, *process, self.pointer_size, image.address.0),
                    self.plain_pred(*process, written@),
                ) == Some(c.address.0),
                None => seq_first(
                    classes_of(self.runtime, *process, self.pointer_size, image.address.0),
                    self.plain_pred(*process, written@),
                ).is_none(),
            },
    {
        let ghost pred = self.plain_pred(*process, written@);
        let mut classes_iter = self.runtime.classes(process, self.pointer_size, image);
        loop
            invariant
                pred == self.plain_pred(*process, written@),
                seq_first(
                    classes_of(self.runtime, *process, self.pointer_size, image.address.0),
                    pred,
                ) == seq_first(classes_iter.rest(), pred),
            decreases classes_iter.measure(),
        {
            match classes_iter.next() {
                Some(class) => {
                    proof {
                        lemma_seq_first_cons(class.address.0, classes_iter.rest(), pred);
                    }
                    if self.plain_class_matches(process, class, written) {
                        return Some(class);
                    }
                },
                None => return None,
            }
        }
    }

    /// Finds the first class of an image carrying the leaf of a nested name
    /// and the enclosures written before it.
    fn first_nested(
        &self,
        process: &Process,
        image: ImageRef,
        leaf: &[u8],
        nested: &[u8],
        namespace: &[u8],
        declaring: u16,
    ) -> (r: Option<ClassRef>)
        ensures
            match r {
                Some(c) => seq_first(
                    classes_of(self.runtime, *process, self.pointer_size, image.address.0),
                    self.nested_pred(*process, leaf@, nested@, namespace@, declaring),
                ) == Some(c.address.0),
                None => seq_first(
                    classes_of(self.runtime, *process, self.pointer_size, image.address.0),
                    self.nested_pred(*process, leaf@, nested@, namespace@, declaring),
                ).is_none(),
            },
    {
        let ghost pred = self.nested_pred(*process, leaf@, nested@, namespace@, declaring);
        let mut classes_iter = self.runtime.classes(process, self.pointer_size, image);
        loop
            invariant
                pred == self.nested_pred(*process, leaf@, nested@, namespace@, declaring),
                seq_first(
                    classes_of(self.runtime, *process, self.pointer_size, image.address.0),
                    pred,
                ) == seq_first(classes_iter.rest(), pred),
            decreases classes_iter.measure(),
        {
            match classes_iter.next() {
                Some(class) => {
                    proof {
                        lemma_seq_first_cons(class.address.0, classes_iter.rest(), pred);
                    }
                    let named = match self.class_name::<CSTR>(process, class) {
                        Some(read) => read.matches_bytes(leaf),
                        None => false,
                    };
                    if named && self.encloses(process, class, nested, namespace, declaring) {
                        return Some(class);
                    }
                },
                None => return None,
            }
        }
    }

    /// Resolves the parent class.
    pub fn parent(&self, process: &Process, class: ClassRef) -> (r: Option<ClassRef>)
        ensures
            match r {
                Some(c) => self.parent_of(*process, class.address.0) == Some(c.address.0),
                None => self.parent_of(*process, class.address.0).is_none(),
            },
    {
        let parent = process.read_nonnull(
            class.address.add(self.offsets.class.parent as u64),
            self.pointer_size,
        )?;
        Some(ClassRef::new(parent))
    }

    /// Reads a field's name.
    pub fn field_name<const N: usize>(&self, process: &Process, field: FieldRef) -> (r: Option<
        ArrayCString<N>,
    >)
        ensures
            match r {
                Some(s) => self.field_name_of(*process, field.address.0, N as nat) == Some(s@),
                None => self.field_name_of(*process, field.address.0, N as nat).is_none(),
            },
    {
        read_name::<N>(process, self.pointer_size, field.address.add(self.offsets.field.name as u64))
    }

    /// Reads a field's offset.
    pub fn field_offset(&self, process: &Process, field: FieldRef) -> (r: Option<u32>)
        ensures
            r == self.field_offset_of(*process, field.address.0),
    {
        process.read_u32(field.address.add(self.offsets.field.offset as u64))
    }

    /// The field entry at `index` of a field array.
    fn field_at(&self, fields: Address, index: u64) -> (f: FieldRef)
        ensures
            f.address.0 == self.field_entry(fields.0, index),
    {
        FieldRef::new(fields.add(index.wrapping_mul(self.offsets.field.stride as u64)))
    }

    /// Whether a field carries the written name, or is the backing field of a
    /// property of that name.
    fn field_carries(&self, process: &Process, field: FieldRef, target: &[u8]) -> (r: bool)
        ensures
            r == self.field_is(*process, field.address.0, target@),
    {
        match self.field_name::<CSTR>(process, field) {
            Some(name) => {
                if name.matches_bytes(target) {
                    true
                } else {
                    match get_backing_name(name.as_bytes()) {
                        Some(inner) => bytes_eq(inner.as_slice(), target),
                        None => false,
                    }
                }
            },
            None => false,
        }
    }

    /// Whether the climb stops at a class.
    fn stops(&self, process: &Process, class: ClassRef) -> (r: Option<bool>)
        ensures
            r == self.stops_at(*process, class.address.0),
    {
        let name = self.class_name::<CSTR>(process, class)?;
        if name.matches(self.stop.class) {
            return Some(true);
        }
        let namespace = self.class_namespace::<CSTR>(process, class)?;
        Some(namespace.matches(self.stop.namespace))
    }

    /// Reads where a class's own fields sit, when it declares any.
    fn own_fields(&self, process: &Process, class: ClassRef, count: u64) -> (r: Option<Address>)
        requires
            count == field_count_of(self.runtime, *process, self.pointer_size, class.address.0),
        ensures
            match r {
                Some(a) => self.fields_of(*process, class.address.0) == Some(a.0),
                None => self.fields_of(*process, class.address.0).is_none(),
            },
    {
        if count == 0 {
            None
        } else {
            process.read_nonnull(
                class.address.add(self.offsets.class.fields as u64),
                self.pointer_size,
            )
        }
    }

    /// Finds the first field a class declares that carries the name.
    fn find_own_field(&self, process: &Process, fields: Address, count: u64, target: &[u8]) -> (r:
        Option<FieldRef>)
        ensures
            match r {
                Some(f) => self.own_field(*process, fields.0, count, 0, target@) == Some(
                    f.address.0,
                ),
                None => self.own_field(*process, fields.0, count, 0, target@).is_none(),
            },
    {
        let mut index: u64 = 0;
        while index < count
            invariant
                0 <= index <= count,
                self.own_field(*process, fields.0, count, 0, target@) == self.own_field(
                    *process,
                    fields.0,
                    count,
                    index,
                    target@,
                ),
            decreases count - index,
        {
            let field = self.field_at(fields, index);
            if self.field_carries(process, field, target) {
                return Some(field);
            }
            index += 1;
        }
        None
    }

    /// Resolves a field by name, climbing the parent chain until either stop
    /// name answers, matching the written name or its backing field. Hands
    /// back the class the field was found on as well as the offset, since a
    /// static field's offset measures into that class's own static table.
    pub fn find_field_offset(&self, process: &Process, class: ClassRef, field_name: &str) -> (r:
        Option<(ClassRef, u32)>)
        ensures
            match r {
                Some((c, o)) => self.field_search(
                    *process,
                    Some(class.address.0),
                    field_name.spec_bytes(),
                    climb_fuel(),
                ) == Some((c.address.0, o)),
                None => self.field_search(
                    *process,
                    Some(class.address.0),
                    field_name.spec_bytes(),
                    climb_fuel(),
                ).is_none(),
            },
    {
        let target = field_name.as_bytes();
        let mut this_class: Option<ClassRef> = Some(class);
        let mut fuel: u64 = 0xFFFF_FFFF_FFFF_FFFF;
        loop
            invariant
                target@ == field_name.spec_bytes(),
                self.field_search(*process, Some(class.address.0), target@, climb_fuel())
                    == self.field_search(
                    *process,
                    match this_class {
                        Some(c) => Some(c.address.0),
                        None => None,
                    },
                    target@,
                    fuel as nat,
                ),
            decreases fuel,
        {
            if fuel == 0 {
                return None;
            }
            let class = match this_class {
                Some(c) => c,
                None => return None,
            };
            if self.stops(process, class)? {
                return None;
            }
            this_class = self.parent(process, class);
            fuel -= 1;
            let field_count = self.runtime.field_count(process, self.pointer_size, class);
            let fields = match self.own_fields(process, class, field_count) {
                Some(f) => f,
                None => continue,
            };
            if let Some(field) = self.find_own_field(process, fields, field_count, target) {
                let offset = self.field_offset(process, field)?;
                return Some((class, offset));
            }
        }
    }

    /// Climbs from `class` to the first class carrying both names.
    fn climb_to(&self, process: &Process, class: ClassRef, name: &[u8], namespace: &[u8]) -> (r:
        Option<ClassRef>)
        ensures
            match r {
                Some(c) => self.find_ancestor(
                    *process,
                    class.address.0,
                    name@,
                    namespace@,
                    climb_fuel(),
                ) == Some(c.address.0),
                None => self.find_ancestor(
                    *process,
                    class.address.0,
                    name@,
                    namespace@,
                    climb_fuel(),
                ).is_none(),
            },
    {
        let mut cur = class;
        let mut fuel: u64 = 0xFFFF_FFFF_FFFF_FFFF;
        loop
            invariant
                self.find_ancestor(*process, class.address.0, name@, namespace@, climb_fuel()) == self.find_ancestor(
                    *process,
                    cur.address.0,
                    name@,
                    namespace@,
                    fuel as nat,
                ),
            decreases fuel,
        {
            if fuel == 0 {
                return None;
            }
            let read = self.class_name::<CSTR>(process, cur)?;
            if read.matches_bytes(name) {
                let ns = self.class_namespace::<CSTR>(process, cur)?;
                if ns.matches_bytes(namespace) {
                    return Some(cur);
                }
            }
            cur = self.parent(process, cur)?;
            fuel -= 1;
        }
    }

    /// Resolves where a list keeps its backing array and live count, off the
    /// `System.Collections.Generic.List` class in the object's parent chain.
    /// Corlib names both fields the same across every generation the offsets
    /// tables cover. This also supports classes derived from `List` without
    /// accepting an unrelated class that happens to use the same field names.
    pub fn list_offsets(&self, process: &Process, object: Address) -> (r: Option<ListOffsets>)
        ensures
            r == self.list_offsets_of(*process, object.0),
    {
        let start = self.object_class(process, object)?;
        let class = self.climb_to(
            process,
            start,
            "List`1".as_bytes(),
            "System.Collections.Generic".as_bytes(),
        )?;
        let field_count = self.runtime.field_count(process, self.pointer_size, class);
        let fields = process.read_nonnull(
            class.address.add(self.offsets.class.fields as u64),
            self.pointer_size,
        )?;
        let mut items: Option<u32> = None;
        let mut size: Option<u32> = None;
        let mut index: u64 = 0;
        while index < field_count
            invariant
                0 <= index <= field_count,
                self.list_scan(*process, fields.0, field_count, 0, None, None) == self.list_scan(
                    *process,
                    fields.0,
                    field_count,
                    index,
                    items,
                    size,
                ),
            decreases field_count - index,
        {
            let field = self.field_at(fields, index);
            if let Some(name) = self.field_name::<CSTR>(process, field) {
                if name.matches_bytes("_items".as_bytes()) {
                    items = self.field_offset(process, field);
                } else if name.matches_bytes("_size".as_bytes()) {
                    size = self.field_offset(process, field);
                }
            }
            index += 1;
        }
        match (items, size) {
            (Some(items), Some(size)) => Some(ListOffsets { items, size }),
            _ => None,
        }
    }

    /// Reads a dictionary class's own members.
    fn read_dictionary_members(&self, kind: Collection, process: &Process, class: ClassRef) -> (r: (
        Option<(FieldRef, u32)>,
        Option<(FieldRef, u32)>,
        Option<(FieldRef, u32)>,
        Option<(FieldRef, u32)>,
    ))
        ensures
            ({
                let m = self.dictionary_members(kind, *process, class.address.0);
                let pick = |o: Option<(FieldRef, u32)>|
                    match o {
                        Some((f, off)) => Some((f.address.0, off)),
                        None => None,
                    };
                m[0] == pick(r.0) && m[1] == pick(r.1) && m[2] == pick(r.2) && m[3] == pick(r.3)
            }),
    {
        let field_count = self.runtime.field_count(process, self.pointer_size, class);
        let mut found: (
            Option<(FieldRef, u32)>,
            Option<(FieldRef, u32)>,
            Option<(FieldRef, u32)>,
            Option<(FieldRef, u32)>,
        ) = (None, None, None, None);
        let ghost none: Seq<Option<(u64, u32)>> = seq![None, None, None, None];
        let ghost pick = |o: Option<(FieldRef, u32)>|
            match o {
                Some((f, off)) => Some((f.address.0, off)),
                None => None,
            };
        let fields = match process.read_nonnull(
            class.address.add(self.offsets.class.fields as u64),
            self.pointer_size,
        ) {
            Some(f) => f,
            None => {
                assert(self.dictionary_members(kind, *process, class.address.0) =~= seq![
                    pick(found.0),
                    pick(found.1),
                    pick(found.2),
                    pick(found.3),
                ]);
                return found;
            },
        };
        let mut index: u64 = 0;
        while index < field_count
            invariant
                0 <= index <= field_count,
                pick == (|o: Option<(FieldRef, u32)>|
                    match o {
                        Some((f, off)) => Some((f.address.0, off)),
                        None => None,
                    }),
                self.dictionary_members(kind, *process, class.address.0) == self.dictionary_scan(
                    kind,
                    *process,
                    fields.0,
                    field_count,
                    index,
                    seq![pick(found.0), pick(found.1), pick(found.2), pick(found.3)],
                ),
            decreases field_count - index,
        {
            let field = self.field_at(fields, index);
            let ghost before = seq![pick(found.0), pick(found.1), pick(found.2), pick(found.3)];
            if let Some(name) = self.field_name::<CSTR>(process, field) {
                if let Some(offset) = self.field_offset(process, field) {
                    let m = member_index(kind, &name);
                    if m == 0 {
                        found.0 = Some((field, offset));
                    } else if m == 1 {
                        found.1 = Some((field, offset));
                    } else if m == 2 {
                        found.2 = Some((field, offset));
                    } else if m == 3 {
                        found.3 = Some((field, offset));
                    }
                    proof {
                        let m = collection_member(kind, name@);
                        if m >= 0 {
                            assert(before.update(m, Some((field.address.0, offset))) =~= seq![
                                pick(found.0),
                                pick(found.1),
                                pick(found.2),
                                pick(found.3),
                            ]);
                        } else {
                            assert(before =~= seq![
                                pick(found.0),
                                pick(found.1),
                                pick(found.2),
                                pick(found.3),
                            ]);
                        }
                    }
                }
            }
            index += 1;
        }
        found
    }

    /// Reads an entry class's members, their offsets unboxed.
    fn read_entry_members(&self, process: &Process, class: ClassRef, header: u32) -> (r: (
        Option<u32>,
        Option<u32>,
        Option<u32>,
        Option<u32>,
    ))
        ensures
            ({
                let m = self.entry_members(*process, class.address.0, header);
                m[0] == r.0 && m[1] == r.1 && m[2] == r.2 && m[3] == r.3
            }),
    {
        let field_count = self.runtime.field_count(process, self.pointer_size, class);
        let mut found: (Option<u32>, Option<u32>, Option<u32>, Option<u32>) = (
            None,
            None,
            None,
            None,
        );
        let fields = match process.read_nonnull(
            class.address.add(self.offsets.class.fields as u64),
            self.pointer_size,
        ) {
            Some(f) => f,
            None => {
                assert(self.entry_members(*process, class.address.0, header) =~= seq![
                    found.0,
                    found.1,
                    found.2,
                    found.3,
                ]);
                return found;
            },
        };
        let mut index: u64 = 0;
        while index < field_count
            invariant
                0 <= index <= field_count,
                self.entry_members(*process, class.address.0, header) == self.entry_scan(
                    *process,
                    fields.0,
                    field_count,
                    index,
                    header,
                    seq![found.0, found.1, found.2, found.3],
                ),
            decreases field_count - index,
        {
            let field = self.field_at(fields, index);
            let ghost before = seq![found.0, found.1, found.2, found.3];
            if let Some(name) = self.field_name::<CSTR>(process, field) {
                if let Some(offset) = self.field_offset(process, field) {
                    let member = offset.checked_sub(header);
                    if name.matches_bytes("hashCode".as_bytes()) {
                        found.0 = member;
                    } else if name.matches_bytes("next".as_bytes()) {
                        found.1 = member;
                    } else if name.matches_bytes("key".as_bytes()) {
                        found.2 = member;
                    } else if name.matches_bytes("value".as_bytes()) {
                        found.3 = member;
                    }
                    proof {
                        let m = entry_member(name@);
                        if m >= 0 {
                            assert(before.update(m, unboxed(offset, header)) =~= seq![
                                found.0,
                                found.1,
                                found.2,
                                found.3,
                            ]);
                        } else {
                            assert(before =~= seq![found.0, found.1, found.2, found.3]);
                        }
                    }
                }
            }
            index += 1;
        }
        found
    }

    /// Reads the size of one dictionary entry.
    fn read_entry_stride(&self, process: &Process, entry_class: ClassRef, header: u32) -> (r: Option<
        u32,
    >)
        ensures
            r == self.entry_stride(*process, entry_class.address.0, header),
    {
        let at = self.offsets.class.instance_size?;
        let size = process.read_i32(entry_class.address.add(at as u64))?;
        if size < 0 {
            return None;
        }
        let size = size as u32;
        let stride = size.checked_sub(header)?;
        if stride > 0 && stride <= ENTRY_SCRATCH {
            Some(stride)
        } else {
            None
        }
    }

    /// Resolves where a dictionary keeps its backing entries and live
    /// counts, and how one entry lays out, off the
    /// `System.Collections.Generic.Dictionary` class in the object's parent
    /// chain. Both corlib naming generations answer; the buckets field has
    /// to exist for the shape to be this one, though nothing here reads it.
    /// The parallel-arrays shape the oldest corlib used carries other names
    /// and misses cleanly.
    pub fn dictionary_offsets(&self, process: &Process, object: Address) -> (r: Option<
        DictionaryOffsets,
    >)
        ensures
            r == self.dictionary_offsets_of(*process, object.0),
    {
        let start = self.object_class(process, object)?;
        let class = self.climb_to(
            process,
            start,
            "Dictionary`2".as_bytes(),
            "System.Collections.Generic".as_bytes(),
        )?;
        let found = self.read_dictionary_members(Collection::Dictionary, process, class);
        let (entries, count, free_count) = match found {
            (Some(_), Some(entries), Some(count), Some(free_count)) => (entries, count, free_count),
            _ => return None,
        };
        let type_at = self.offsets.field.type_?;
        // The entry class arrives through the entries field's own type, and
        // its instance size, boxed header removed, is the entry stride.
        let entry_type = process.read_nonnull(entries.0.address.add(type_at as u64), self.pointer_size)?;
        let entry_class = self.runtime.class_from_type(process, self.pointer_size, entry_type)?;
        let header = (2 * self.pointer_size.bytes()) as u32;
        let stride = self.read_entry_stride(process, entry_class, header)?;
        // The members' offsets are recorded as if boxed; folding them by the
        // header measures them from the entry's own start.
        let (hash, next, key, value) = match self.read_entry_members(process, entry_class, header) {
            (Some(hash), Some(next), Some(key), Some(value)) => (hash, next, key, value),
            _ => return None,
        };
        let holds = hash as u64 + 4 <= stride as u64 && next as u64 + 4 <= stride as u64 && key
            < stride && value < stride;
        if holds {
            Some(
                DictionaryOffsets {
                    entries: entries.1,
                    count: count.1,
                    free_count: free_count.1,
                    layout: EntryLayout { stride, hash, next, key, value },
                },
            )
        } else {
            None
        }
    }

    /// Resolves where a hash set keeps its backing slots, live count and
    /// high-water mark, and how one slot lays out, off the
    /// `System.Collections.Generic.HashSet` class in the object's parent
    /// chain, so subclasses resolve and an unrelated class that happens to
    /// use the same field names does not.
    pub fn hash_set_offsets(&self, process: &Process, object: Address) -> (r: Option<HashSetOffsets>)
        ensures
            r == self.hash_set_offsets_of(*process, object.0),
    {
        let start = self.object_class(process, object)?;
        let class = self.climb_to(
            process,
            start,
            "HashSet`1".as_bytes(),
            "System.Collections.Generic".as_bytes(),
        )?;
        let found = self.read_dictionary_members(Collection::HashSet, process, class);
        let (slots, count, last_index) = match found {
            (Some(_), Some(slots), Some(count), Some(last_index)) => (slots, count, last_index),
            _ => return None,
        };
        let type_at = self.offsets.field.type_?;
        let slot_type = process.read_nonnull(slots.0.address.add(type_at as u64), self.pointer_size)?;
        let slot_class = self.runtime.class_from_type(process, self.pointer_size, slot_type)?;
        let header = (2 * self.pointer_size.bytes()) as u32;
        let stride = self.read_entry_stride(process, slot_class, header)?;
        let (hash, next, value) = match self.read_entry_members(process, slot_class, header) {
            (Some(hash), Some(next), _, Some(value)) => (hash, next, value),
            _ => return None,
        };
        let holds = hash as u64 + 4 <= stride as u64 && next as u64 + 4 <= stride as u64 && value
            < stride;
        if holds {
            Some(
                HashSetOffsets {
                    slots: slots.1,
                    count: count.1,
                    last_index: last_index.1,
                    layout: SlotLayout { stride, hash, next, value },
                },
            )
        } else {
            None
        }
    }

    /// Reads the address a class's static field offsets are measured from.
    pub fn static_table(&self, process: &Process, class: ClassRef) -> (r: Option<Address>)
        ensures
            match r {
                Some(a) => static_table_of(
                    self.runtime,
                    *process,
                    self.pointer_size,
                    class.address.0,
                ) == Some(a.0),
                None => static_table_of(
                    self.runtime,
                    *process,
                    self.pointer_size,
                    class.address.0,
                ).is_none(),
            },
    {
        self.runtime.static_table(process, self.pointer_size, class)
    }

    /// Reads the class a live object belongs to.
    pub fn object_class(&self, process: &Process, object: Address) -> (r: Option<ClassRef>)
        ensures
            match r {
                Some(c) => object_class_of(self.runtime, *process, self.pointer_size, object.0)
                    == Some(c.address.0),
                None => object_class_of(
                    self.runtime,
                    *process,
                    self.pointer_size,
                    object.0,
                ).is_none(),
            },
    {
        self.runtime.object_class(process, self.pointer_size, object)
    }
}

} // verus!
