//! The pointer path resolution both backends' `UnityPointer` types share.

use vstd::prelude::*;
use vstd::string::StringSliceAdditionalSpecFns;

use super::runtime::{object_class_of, static_table_of};
use super::walk::climb_fuel;
use super::{ClassRef, Element, ImageRef, Walk};
use crate::primitives::{wrap_add, Address};
use crate::process::{Error, Process};
use crate::text::{parse_offset, parse_offset_spec};

verus! {

/// What a pointer path holds: what it was written as, and how far an
/// earlier resolution got.
pub struct PathView {
    /// The static table the root field measures into.
    pub base: u64,
    /// The offsets resolved so far, then zeros.
    pub offsets: Seq<u32>,
    /// How many offsets are resolved.
    pub resolved: int,
    /// The class the path starts at, once found.
    pub starting_class: Option<u64>,
    /// The written name of the class the path starts at.
    pub class_name: Seq<u8>,
    /// How many parents up from the named class the path starts.
    pub parents: nat,
    /// The written fields, then empty ones.
    pub fields: Seq<Seq<u8>>,
    /// How many fields the path follows.
    pub depth: int,
}

/// Climbs `n` parents up from `class`.
pub open spec fn climb_parents(w: Walk, p: Process, class: u64, n: nat) -> Option<u64>
    decreases n,
{
    if n == 0 {
        Some(class)
    } else {
        match w.parent_of(p, class) {
            Some(parent) => climb_parents(w, p, parent, (n - 1) as nat),
            None => None,
        }
    }
}

/// Follows pointers from `addr`, adding each offset and reading the pointer
/// there.
pub open spec fn follow(w: Walk, p: Process, addr: u64, offsets: Seq<u32>) -> Option<u64>
    decreases offsets.len(),
{
    if offsets.len() == 0 {
        Some(addr)
    } else {
        match p.mem_ptr(wrap_add(addr, offsets[0] as int), w.pointer_size) {
            Some(next) => follow(w, p, next, offsets.drop_first()),
            None => None,
        }
    }
}

/// Following one more offset follows the prefix, then that offset.
pub proof fn lemma_follow_push(w: Walk, p: Process, addr: u64, offsets: Seq<u32>, off: u32)
    ensures
        follow(w, p, addr, offsets.push(off)) == match follow(w, p, addr, offsets) {
            Some(at) => p.mem_ptr(wrap_add(at, off as int), w.pointer_size),
            None => None,
        },
    decreases offsets.len(),
{
    if offsets.len() > 0 {
        assert(offsets.push(off)[0] == offsets[0]);
        assert(offsets.push(off).drop_first() =~= offsets.drop_first().push(off));
        if let Some(next) = p.mem_ptr(wrap_add(addr, offsets[0] as int), w.pointer_size) {
            lemma_follow_push(w, p, next, offsets.drop_first(), off);
        }
    } else {
        assert(offsets.push(off)[0] == off);
        assert(offsets.push(off).drop_first() =~= Seq::<u32>::empty());
        if let Some(next) = p.mem_ptr(wrap_add(addr, off as int), w.pointer_size) {
            assert(follow(w, p, next, Seq::<u32>::empty()) == Some(next));
        }
    }
}

/// A path that breaks partway breaks whatever follows.
pub proof fn lemma_follow_broken(w: Walk, p: Process, addr: u64, offsets: Seq<u32>, j: int, m: int)
    requires
        0 <= j <= m <= offsets.len(),
        follow(w, p, addr, offsets.take(j)).is_none(),
    ensures
        follow(w, p, addr, offsets.take(m)).is_none(),
    decreases m - j,
{
    if j < m {
        lemma_follow_push(w, p, addr, offsets.take(j), offsets[j]);
        assert(offsets.take(j).push(offsets[j]) =~= offsets.take(j + 1));
        lemma_follow_broken(w, p, addr, offsets, j + 1, m);
    }
}

/// The offset a field of the object at `object` sits at: the written
/// literal, or the field found on the object's own class.
pub open spec fn field_offset_spec(w: Walk, p: Process, object: u64, field: Seq<u8>) -> Option<u32> {
    match parse_offset_spec(field) {
        Some(o) => Some(o),
        None => match object_class_of(w.runtime, p, w.pointer_size, object) {
            Some(class) => match w.field_search(p, Some(class), field, climb_fuel()) {
                Some((_, o)) => Some(o),
                None => None,
            },
            None => None,
        },
    }
}

/// Resolves the fields from `s.resolved` on, from the object at `object`.
/// Each offset found is kept, even when the read after it fails.
pub open spec fn resolve_fields(w: Walk, p: Process, object: u64, s: PathView) -> (bool, PathView)
    decreases s.depth - s.resolved,
{
    if s.resolved >= s.depth || s.resolved < 0 {
        (true, s)
    } else {
        match field_offset_spec(w, p, object, s.fields[s.resolved]) {
            None => (false, s),
            Some(o) => {
                let next_state = PathView {
                    offsets: s.offsets.update(s.resolved, o),
                    resolved: s.resolved + 1,
                    ..s
                };
                match p.mem_ptr(wrap_add(object, o as int), w.pointer_size) {
                    Some(next) => resolve_fields(w, p, next, next_state),
                    None => (false, next_state),
                }
            },
        }
    }
}

/// Resolves the root field of a path, from its starting class: the written
/// literal measures into the starting class's static table, a named field
/// into the static table of the class the climb finds it on.
pub open spec fn resolve_root(w: Walk, p: Process, start: u64, s: PathView) -> (bool, PathView) {
    let found = match parse_offset_spec(s.fields[0]) {
        Some(o) => Some((start, o)),
        None => w.field_search(p, Some(start), s.fields[0], climb_fuel()),
    };
    match found {
        None => (false, s),
        Some((declaring, o)) => match static_table_of(w.runtime, p, w.pointer_size, declaring) {
            None => (false, s),
            Some(table) => (
                true,
                PathView { base: table, offsets: s.offsets.update(0, o), resolved: 1, ..s },
            ),
        },
    }
}

/// Tries to resolve a path, resuming behind whatever resolved on an earlier
/// call: whether it resolved all of it, and what it holds afterwards.
pub open spec fn resolve(w: Walk, p: Process, image: u64, s: PathView) -> (bool, PathView) {
    if s.resolved == s.depth {
        (true, s)
    } else {
        let start = match s.starting_class {
            Some(c) => Some(c),
            None => match w.find_class_of(p, image, s.class_name) {
                Some(named) => climb_parents(w, p, named, s.parents),
                None => None,
            },
        };
        match start {
            None => (false, s),
            Some(c) => {
                let s1 = PathView { starting_class: Some(c), ..s };
                let (rooted, s2) = if s1.resolved == 0 {
                    resolve_root(w, p, c, s1)
                } else {
                    (true, s1)
                };
                if !rooted {
                    (false, s2)
                } else {
                    match follow(w, p, s2.base, s2.offsets.take(s2.resolved)) {
                        None => (false, s2),
                        Some(object) => resolve_fields(w, p, object, s2),
                    }
                }
            },
        }
    }
}

/// Whether a path's counts are in range: no more resolved than it follows,
/// and no more followed than it holds offsets and fields for.
pub open spec fn path_in_range(s: PathView) -> bool {
    0 <= s.resolved <= s.depth && s.depth <= s.offsets.len() && s.depth <= s.fields.len()
}

/// What resolving keeps of a path: what it was written as, the offsets and
/// base already resolved, and its starting class once found; it resolves no
/// fewer offsets than before, and it answers success only once every offset
/// is resolved.
pub open spec fn keeps_what_resolved(s: PathView, r: (bool, PathView)) -> bool {
    &&& path_in_range(r.1)
    &&& r.1.depth == s.depth
    &&& r.1.class_name == s.class_name
    &&& r.1.parents == s.parents
    &&& r.1.fields == s.fields
    &&& r.1.resolved >= s.resolved
    &&& r.1.offsets.take(s.resolved) == s.offsets.take(s.resolved)
    &&& (s.resolved > 0 ==> r.1.base == s.base)
    &&& (s.starting_class is Some ==> r.1.starting_class == s.starting_class)
    &&& (r.0 ==> r.1.resolved == r.1.depth)
}

/// Resolving fields keeps what an earlier resolution found.
proof fn lemma_fields_keep_what_resolved(w: Walk, p: Process, object: u64, s: PathView)
    requires
        path_in_range(s),
    ensures
        keeps_what_resolved(s, resolve_fields(w, p, object, s)),
    decreases s.depth - s.resolved,
{
    if s.resolved < s.depth {
        if let Some(o) = field_offset_spec(w, p, object, s.fields[s.resolved]) {
            let next_state = PathView {
                offsets: s.offsets.update(s.resolved, o),
                resolved: s.resolved + 1,
                ..s
            };
            assert(next_state.offsets.take(s.resolved) =~= s.offsets.take(s.resolved));
            if let Some(next) = p.mem_ptr(wrap_add(object, o as int), w.pointer_size) {
                lemma_fields_keep_what_resolved(w, p, next, next_state);
                let r = resolve_fields(w, p, next, next_state);
                assert(r.1.offsets.take(next_state.resolved).take(s.resolved) =~= r.1.offsets.take(
                    s.resolved,
                ));
                assert(next_state.offsets.take(next_state.resolved).take(s.resolved)
                    =~= next_state.offsets.take(s.resolved));
            }
        }
    }
}

/// Resolving a path resumes behind whatever an earlier call resolved, and
/// keeps it: the offsets and base already found, and the starting class
/// once found, stay as they were, and no fewer offsets are resolved
/// afterwards. It answers success only once every offset is resolved.
pub proof fn lemma_resolution_keeps_what_resolved(w: Walk, p: Process, image: u64, s: PathView)
    requires
        path_in_range(s),
    ensures
        keeps_what_resolved(s, resolve(w, p, image, s)),
{
    if s.resolved != s.depth {
        let start = match s.starting_class {
            Some(c) => Some(c),
            None => match w.find_class_of(p, image, s.class_name) {
                Some(named) => climb_parents(w, p, named, s.parents),
                None => None,
            },
        };
        if let Some(c) = start {
            let s1 = PathView { starting_class: Some(c), ..s };
            let (rooted, s2) = if s1.resolved == 0 {
                resolve_root(w, p, c, s1)
            } else {
                (true, s1)
            };
            if s1.resolved == 0 {
                assert(s2.offsets.take(0) =~= s.offsets.take(0));
            }
            assert(s2.offsets.take(s.resolved) =~= s.offsets.take(s.resolved));
            if rooted {
                if let Some(object) = follow(w, p, s2.base, s2.offsets.take(s2.resolved)) {
                    lemma_fields_keep_what_resolved(w, p, object, s2);
                    let r = resolve_fields(w, p, object, s2);
                    assert(r.1.offsets.take(s2.resolved).take(s.resolved) =~= r.1.offsets.take(
                        s.resolved,
                    ));
                    assert(s2.offsets.take(s2.resolved).take(s.resolved) =~= s2.offsets.take(
                        s.resolved,
                    ));
                }
            }
        }
    }
}

/// A path that resolved stays resolved: resolving it again, on any memory
/// and from any image, answers success and changes nothing.
pub proof fn lemma_resolved_paths_stay_resolved(
    w: Walk,
    p: Process,
    image: u64,
    later: Process,
    later_image: u64,
    s: PathView,
)
    requires
        path_in_range(s),
        resolve(w, p, image, s).0,
    ensures
        resolve(w, later, later_image, resolve(w, p, image, s).1) == (true, resolve(w, p, image, s).1),
{
    lemma_resolution_keeps_what_resolved(w, p, image, s);
}

/// What a path written as a class name, a parent count and fields holds
/// before any resolution: the fields past the capacity dropped, empty ones
/// past those written.
pub open spec fn fresh_path(class_name: Seq<u8>, parents: nat, fields: Seq<Seq<u8>>, cap: nat) -> PathView {
    PathView {
        base: 0,
        offsets: Seq::new(cap, |i: int| 0u32),
        resolved: 0,
        starting_class: None,
        class_name,
        parents,
        fields: Seq::new(
            cap,
            |i: int| if i < fields.len() {
                fields[i]
            } else {
                "".spec_bytes()
            },
        ),
        depth: if fields.len() < cap {
            fields.len() as int
        } else {
            cap as int
        },
    }
}

/// The address a fully resolved path leads to: every offset but the last
/// followed from the base, the last added.
pub open spec fn path_target(w: Walk, p: Process, s: PathView) -> Option<u64> {
    if s.depth <= 0 {
        None
    } else {
        match follow(w, p, s.base, s.offsets.take(s.depth - 1)) {
            Some(at) => Some(wrap_add(at, s.offsets[s.depth - 1] as int)),
            None => None,
        }
    }
}

/// The pointer path resolution both backends' `UnityPointer` types share: a
/// static root found by class name, then fields resolved by name or written as
/// literal offsets, remembered across calls so a failed resolution resumes
/// where it left off.
pub struct PointerPath<const CAP: usize> {
    base_address: Address,
    offsets: Vec<u32>,
    resolved_offsets: usize,
    starting_class_name: &'static str,
    starting_class: Option<ClassRef>,
    nr_of_parents: usize,
    fields: Vec<&'static str>,
    depth: usize,
}

impl<const CAP: usize> View for PointerPath<CAP> {
    type V = PathView;

    closed spec fn view(&self) -> PathView {
        PathView {
            base: self.base_address.0,
            offsets: self.offsets@,
            resolved: self.resolved_offsets as int,
            starting_class: match self.starting_class {
                Some(c) => Some(c.address.0),
                None => None,
            },
            class_name: self.starting_class_name.spec_bytes(),
            parents: self.nr_of_parents as nat,
            fields: self.fields@.map_values(|f: &'static str| f.spec_bytes()),
            depth: self.depth as int,
        }
    }
}

/// Whether a path's view is consistent: as many offsets and fields as the
/// capacity, the depth within it, and the resolved count within the depth.
pub open spec fn path_wf(s: PathView, cap: nat) -> bool {
    s.offsets.len() == cap && s.fields.len() == cap && 0 <= s.resolved <= s.depth <= cap
}

impl<const CAP: usize> PointerPath<CAP> {
    /// Whether the path is consistent.
    pub closed spec fn wf(&self) -> bool {
        &&& self.offsets@.len() == CAP
        &&& self.fields@.len() == CAP
        &&& self.resolved_offsets <= self.depth <= CAP
    }

    /// A consistent path's counts are in range, so the resolution laws
    /// apply to it.
    pub proof fn lemma_in_range(&self)
        requires
            self.wf(),
        ensures
            path_in_range(self@),
    {
    }

    /// Creates a path that starts at the static table of the named class,
    /// `nr_of_parents` up from it, and follows the given fields, as many as
    /// the capacity holds.
    pub fn new(class_name: &'static str, nr_of_parents: usize, fields: &[&'static str]) -> (r: Self)
        ensures
            r.wf(),
            r@ == fresh_path(
                class_name.spec_bytes(),
                nr_of_parents as nat,
                fields@.map_values(|f: &'static str| f.spec_bytes()),
                CAP as nat,
            ),
    {
        let mut named: Vec<&'static str> = Vec::new();
        let mut offsets: Vec<u32> = Vec::new();
        let mut i: usize = 0;
        while i < CAP
            invariant
                0 <= i <= CAP,
                named@.len() == i,
                offsets@ =~= Seq::new(i as nat, |k: int| 0u32),
                forall|k: int|
                    0 <= k < i ==> #[trigger] named@[k] == if k < fields@.len() {
                        fields@[k]
                    } else {
                        ""
                    },
            decreases CAP - i,
        {
            if i < fields.len() {
                named.push(fields[i]);
            } else {
                named.push("");
            }
            offsets.push(0);
            i += 1;
        }
        let depth = if fields.len() < CAP {
            fields.len()
        } else {
            CAP
        };
        proof {
            let written = fields@.map_values(|f: &'static str| f.spec_bytes());
            assert(named@.map_values(|f: &'static str| f.spec_bytes()) =~= Seq::new(
                CAP as nat,
                |i: int| if i < written.len() {
                    written[i]
                } else {
                    "".spec_bytes()
                },
            ));
        }
        PointerPath {
            base_address: Address(0),
            offsets,
            resolved_offsets: 0,
            starting_class_name: class_name,
            starting_class: None,
            nr_of_parents,
            fields: named,
            depth,
        }
    }

    /// Finds the class the path starts at.
    #[verifier::loop_isolation(false)]
    fn starting(&mut self, process: &Process, walk: &Walk, image: ImageRef) -> (r: Option<ClassRef>)
        requires
            old(self).wf(),
        ensures
            final(self).wf(),
            match r {
                Some(c) => final(self)@ == PathView {
                    starting_class: Some(c.address.0),
                    ..old(self)@
                } && match old(self)@.starting_class {
                    Some(s) => s == c.address.0,
                    None => walk.find_class_of(*process, image.address.0, old(self)@.class_name)
                        matches Some(named) && climb_parents(
                        *walk,
                        *process,
                        named,
                        old(self)@.parents,
                    ) == Some(c.address.0),
                },
                None => final(self)@ == old(self)@ && old(self)@.starting_class.is_none() && match walk.find_class_of(
                    *process,
                    image.address.0,
                    old(self)@.class_name,
                ) {
                    Some(named) => climb_parents(
                        *walk,
                        *process,
                        named,
                        old(self)@.parents,
                    ).is_none(),
                    None => true,
                },
            },
    {
        if let Some(c) = self.starting_class {
            return Some(c);
        }
        let mut class = walk.find_class(process, image, self.starting_class_name)?;
        let ghost named = class.address.0;
        let mut n: usize = 0;
        while n < self.nr_of_parents
            invariant
                0 <= n <= self.nr_of_parents,
                climb_parents(*walk, *process, named, self.nr_of_parents as nat) == climb_parents(
                    *walk,
                    *process,
                    class.address.0,
                    (self.nr_of_parents - n) as nat,
                ),
            decreases self.nr_of_parents - n,
        {
            class = walk.parent(process, class)?;
            n += 1;
        }
        self.starting_class = Some(class);
        Some(class)
    }

    /// Tries to resolve the pointer path, resuming behind whatever resolved
    /// on an earlier call. Finding the starting class walks every class the
    /// image holds, so it is remembered the first time it answers.
    #[verifier::loop_isolation(false)]
    pub fn find_offsets(&mut self, process: &Process, walk: &Walk, image: ImageRef) -> (r: Result<
        (),
        Error,
    >)
        requires
            old(self).wf(),
        ensures
            final(self).wf(),
            (r is Ok, final(self)@) == resolve(*walk, *process, image.address.0, old(self)@),
    {
        if self.resolved_offsets == self.depth {
            return Ok(());
        }
        let ghost s0 = self@;
        let starting_class = match self.starting(process, walk, image) {
            Some(c) => c,
            None => {
                return Err(Error {});
            },
        };
        let ghost s1 = self@;
        // The root field and the base table resolve together: the root's
        // offset measures into the static table of whichever class declares
        // it, which a climb may find on a parent.
        if self.resolved_offsets == 0 {
            let (declaring, offset) = match parse_offset(self.fields[0].as_bytes()) {
                Some(offset) => (starting_class, offset),
                None => match walk.find_field_offset(process, starting_class, self.fields[0]) {
                    Some(found) => found,
                    None => return Err(Error {}),
                },
            };
            let table = match walk.static_table(process, declaring) {
                Some(t) => t,
                None => return Err(Error {}),
            };
            self.base_address = table;
            self.offsets.set(0, offset);
            self.resolved_offsets = 1;
            proof {
                assert(self@.fields =~= s1.fields);
                assert(self@ == resolve_root(*walk, *process, starting_class.address.0, s1).1);
            }
        }
        let ghost s2 = self@;
        // Whatever resolved already is walked again from the base, which is
        // what recovers the farthest object the resolution reached.
        let mut current_object = self.base_address;
        let mut k: usize = 0;
        proof {
            assert(s2.offsets.take(0) =~= Seq::<u32>::empty());
        }
        while k < self.resolved_offsets
            invariant
                self.wf(),
                self@ == s2,
                0 <= k <= self.resolved_offsets,
                follow(*walk, *process, s2.base, s2.offsets.take(k as int)) == Some(current_object.0),
            decreases self.resolved_offsets - k,
        {
            proof {
                lemma_follow_push(*walk, *process, s2.base, s2.offsets.take(k as int), s2.offsets[k as int]);
                assert(s2.offsets.take(k as int).push(s2.offsets[k as int]) =~= s2.offsets.take(k + 1));
            }
            current_object = match process.read_ptr(
                current_object.add(self.offsets[k] as u64),
                walk.pointer_size,
            ) {
                Some(a) => a,
                None => {
                    proof {
                        lemma_follow_broken(*walk, *process, s2.base, s2.offsets, k + 1, s2.resolved);
                    }
                    return Err(Error {});
                },
            };
            k += 1;
        }
        self.resolve_from(process, walk, current_object)
    }

    /// Resolves the fields from the resolved count on, from the object the
    /// resolved offsets reach.
    fn resolve_from(&mut self, process: &Process, walk: &Walk, object: Address) -> (r: Result<
        (),
        Error,
    >)
        requires
            old(self).wf(),
        ensures
            final(self).wf(),
            (r is Ok, final(self)@) == resolve_fields(*walk, *process, object.0, old(self)@),
        decreases old(self).depth - old(self).resolved_offsets,
    {
        if self.resolved_offsets >= self.depth {
            return Ok(());
        }
        let i = self.resolved_offsets;
        let field = self.fields[i];
        let offset = match parse_offset(field.as_bytes()) {
            Some(o) => o,
            None => {
                let class = match walk.object_class(process, object) {
                    Some(c) => c,
                    None => return Err(Error {}),
                };
                match walk.find_field_offset(process, class, field) {
                    Some((_, o)) => o,
                    None => return Err(Error {}),
                }
            },
        };
        let ghost before = self@;
        self.offsets.set(i, offset);
        self.resolved_offsets = i + 1;
        proof {
            assert(self@.fields =~= before.fields);
        }
        let next = match process.read_ptr(object.add(offset as u64), walk.pointer_size) {
            Some(a) => a,
            None => return Err(Error {}),
        };
        self.resolve_from(process, walk, next)
    }

    /// Dereferences the pointer path, returning the memory address of the
    /// value of interest.
    #[verifier::loop_isolation(false)]
    pub fn deref_offsets(&mut self, process: &Process, walk: &Walk, image: ImageRef) -> (r: Result<
        Address,
        Error,
    >)
        requires
            old(self).wf(),
        ensures
            final(self).wf(),
            final(self)@ == resolve(*walk, *process, image.address.0, old(self)@).1,
            match r {
                Ok(a) => resolve(*walk, *process, image.address.0, old(self)@).0 && path_target(
                    *walk,
                    *process,
                    final(self)@,
                ) == Some(a.0),
                Err(_) => !resolve(*walk, *process, image.address.0, old(self)@).0 || path_target(
                    *walk,
                    *process,
                    final(self)@,
                ).is_none(),
            },
    {
        self.find_offsets(process, walk, image)?;
        if self.depth == 0 {
            return Err(Error {});
        }
        let ghost s = self@;
        let mut address = self.base_address;
        let mut k: usize = 0;
        proof {
            assert(s.offsets.take(0) =~= Seq::<u32>::empty());
        }
        while k < self.depth - 1
            invariant
                self.wf(),
                self@ == s,
                self.depth >= 1,
                0 <= k <= self.depth - 1,
                follow(*walk, *process, s.base, s.offsets.take(k as int)) == Some(address.0),
            decreases self.depth - 1 - k,
        {
            proof {
                lemma_follow_push(*walk, *process, s.base, s.offsets.take(k as int), s.offsets[k as int]);
                assert(s.offsets.take(k as int).push(s.offsets[k as int]) =~= s.offsets.take(k + 1));
            }
            address = match process.read_ptr(address.add(self.offsets[k] as u64), walk.pointer_size) {
                Some(a) => a,
                None => {
                    proof {
                        lemma_follow_broken(*walk, *process, s.base, s.offsets, k + 1, s.depth - 1);
                    }
                    return Err(Error {});
                },
            };
            k += 1;
        }
        Ok(address.add(self.offsets[self.depth - 1] as u64))
    }

    /// Dereferences the pointer path, returning the value stored at the final
    /// memory address.
    pub fn deref<T: Element>(&mut self, process: &Process, walk: &Walk, image: ImageRef) -> (r: Result<
        T,
        Error,
    >)
        requires
            old(self).wf(),
        ensures
            final(self).wf(),
            final(self)@ == resolve(*walk, *process, image.address.0, old(self)@).1,
            value_behind::<T>(r, resolve(*walk, *process, image.address.0, old(self)@).0, *walk, *process, final(self)@),
    {
        let at = self.deref_offsets(process, walk, image)?;
        match T::read_at(process, at) {
            Some(v) => Ok(v),
            None => Err(Error {}),
        }
    }
}

/// What a dereference hands back: the value at the path's target when the
/// path resolved, reached its target and the value's bytes are mapped, and
/// an error otherwise.
pub open spec fn value_behind<T: Element>(r: Result<T, Error>, resolved: bool, walk: Walk, p: Process, path: PathView) -> bool {
    match r {
        Ok(v) => resolved && (path_target(walk, p, path) matches Some(t) && T::at(p, t) == Some(v)),
        Err(_) => !resolved || match path_target(walk, p, path) {
            Some(t) => T::at(p, t).is_none(),
            None => true,
        },
    }
}

} // verus!
