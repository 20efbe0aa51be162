//! Automatic pointer path resolution for Unreal Engine games.

use vstd::prelude::*;
use vstd::string::StringSliceAdditionalSpecFns;

use super::{object_field_offset, Module, UObject};
use crate::game_engine::unity::managed::Element;
use crate::primitives::{wrap_add, Address, PointerSize};
use crate::process::{Error, Process};
use crate::text::{parse_offset, parse_offset_spec};

verus! {

/// What a pointer path holds: its base, what it was written as, and how far
/// an earlier resolution got.
pub struct UnrealPathView {
    /// The global the path starts from.
    pub base: u64,
    /// The offsets resolved so far, then zeros.
    pub offsets: Seq<u64>,
    /// How many offsets are resolved.
    pub resolved: int,
    /// The written fields, then empty ones.
    pub fields: Seq<Seq<u8>>,
    /// How many fields the path follows.
    pub depth: int,
}

/// Follows pointers from `addr`, adding each offset and reading the pointer
/// there.
pub open spec fn follow_from(p: Process, ps: PointerSize, addr: u64, offsets: Seq<u64>) -> Option<u64>
    decreases offsets.len(),
{
    if offsets.len() == 0 {
        Some(addr)
    } else {
        match p.mem_ptr(wrap_add(addr, offsets[0] as int), ps) {
            Some(next) => follow_from(p, ps, next, offsets.drop_first()),
            None => None,
        }
    }
}

/// Following one more offset follows the prefix, then that offset.
pub proof fn lemma_follow_from_push(p: Process, ps: PointerSize, addr: u64, offsets: Seq<u64>, off: u64)
    ensures
        follow_from(p, ps, addr, offsets.push(off)) == match follow_from(p, ps, addr, offsets) {
            Some(at) => p.mem_ptr(wrap_add(at, off as int), ps),
            None => None,
        },
    decreases offsets.len(),
{
    if offsets.len() > 0 {
        assert(offsets.push(off)[0] == offsets[0]);
        assert(offsets.push(off).drop_first() =~= offsets.drop_first().push(off));
        if let Some(next) = p.mem_ptr(wrap_add(addr, offsets[0] as int), ps) {
            lemma_follow_from_push(p, ps, next, offsets.drop_first(), off);
        }
    } else {
        assert(offsets.push(off)[0] == off);
        assert(offsets.push(off).drop_first() =~= Seq::<u64>::empty());
        if let Some(next) = p.mem_ptr(wrap_add(addr, off as int), ps) {
            assert(follow_from(p, ps, next, Seq::<u64>::empty()) == Some(next));
        }
    }
}

/// A path that breaks partway breaks whatever follows.
pub proof fn lemma_follow_from_broken(p: Process, ps: PointerSize, addr: u64, offsets: Seq<u64>, j: int, m: int)
    requires
        0 <= j <= m <= offsets.len(),
        follow_from(p, ps, addr, offsets.take(j)).is_none(),
    ensures
        follow_from(p, ps, addr, offsets.take(m)).is_none(),
    decreases m - j,
{
    if j < m {
        lemma_follow_from_push(p, ps, addr, offsets.take(j), offsets[j]);
        assert(offsets.take(j).push(offsets[j]) =~= offsets.take(j + 1));
        lemma_follow_from_broken(p, ps, addr, offsets, j + 1, m);
    }
}

/// The offset a field of the object at `object` sits at: the written
/// literal, or the property found on the object's class.
pub open spec fn field_offset_of(p: Process, m: Module, object: u64, field: Seq<u8>) -> Option<u64> {
    match parse_offset_spec(field) {
        Some(o) => Some(o as u64),
        None => match object_field_offset(p, m, object, field) {
            Some(o) => Some(o as u64),
            None => None,
        },
    }
}

/// Resolves the fields from `s.resolved` on, from the object at `object`.
/// Each offset found is kept, even when the read after it fails.
pub open spec fn resolve_fields(p: Process, m: Module, object: u64, s: UnrealPathView) -> (bool, UnrealPathView)
    decreases s.depth - s.resolved,
{
    if s.resolved >= s.depth || s.resolved < 0 {
        (true, s)
    } else {
        match field_offset_of(p, m, object, s.fields[s.resolved]) {
            None => (false, s),
            Some(o) => {
                let next_state = UnrealPathView {
                    offsets: s.offsets.update(s.resolved, o),
                    resolved: s.resolved + 1,
                    ..s
                };
                match p.mem_ptr(wrap_add(object, o as int), m.pointer_size) {
                    Some(next) => resolve_fields(p, m, next, next_state),
                    None => (false, next_state),
                }
            },
        }
    }
}

/// Tries to resolve a path, resuming behind whatever resolved on an earlier
/// call: whether it resolved all of it, and what it holds afterwards.
pub open spec fn resolve(p: Process, m: Module, s: UnrealPathView) -> (bool, UnrealPathView) {
    if s.resolved == s.depth {
        (true, s)
    } else {
        match p.mem_ptr(s.base, m.pointer_size) {
            None => (false, s),
            Some(start) => match follow_from(p, m.pointer_size, start, s.offsets.take(s.resolved)) {
                None => (false, s),
                Some(object) => resolve_fields(p, m, object, s),
            },
        }
    }
}

/// Whether a path's counts are in range: no more resolved than it follows,
/// and no more followed than it holds offsets and fields for.
pub open spec fn path_in_range(s: UnrealPathView) -> bool {
    0 <= s.resolved <= s.depth && s.depth <= s.offsets.len() && s.depth <= s.fields.len()
}

/// What resolving keeps of a path: its base, what it was written as, and
/// the offsets already resolved; it resolves no fewer offsets than before,
/// and it answers success only once every offset is resolved.
pub open spec fn keeps_what_resolved(s: UnrealPathView, r: (bool, UnrealPathView)) -> bool {
    &&& path_in_range(r.1)
    &&& r.1.base == s.base
    &&& r.1.depth == s.depth
    &&& r.1.fields == s.fields
    &&& r.1.resolved >= s.resolved
    &&& r.1.offsets.take(s.resolved) == s.offsets.take(s.resolved)
    &&& (r.0 ==> r.1.resolved == r.1.depth)
}

/// Resolving fields keeps what an earlier resolution found.
proof fn lemma_fields_keep_what_resolved(p: Process, m: Module, object: u64, s: UnrealPathView)
    requires
        path_in_range(s),
    ensures
        keeps_what_resolved(s, resolve_fields(p, m, object, s)),
    decreases s.depth - s.resolved,
{
    if s.resolved < s.depth {
        if let Some(o) = field_offset_of(p, m, object, s.fields[s.resolved]) {
            let next_state = UnrealPathView {
                offsets: s.offsets.update(s.resolved, o),
                resolved: s.resolved + 1,
                ..s
            };
            assert(next_state.offsets.take(s.resolved) =~= s.offsets.take(s.resolved));
            if let Some(next) = p.mem_ptr(wrap_add(object, o as int), m.pointer_size) {
                lemma_fields_keep_what_resolved(p, m, next, next_state);
                let r = resolve_fields(p, m, next, next_state);
                assert(r.1.offsets.take(next_state.resolved).take(s.resolved) =~= r.1.offsets.take(
                    s.resolved,
                ));
                assert(next_state.offsets.take(next_state.resolved).take(s.resolved)
                    =~= next_state.offsets.take(s.resolved));
            }
        }
    }
}

/// Resolving a path resumes behind whatever an earlier call resolved, and
/// keeps it: the offsets already found stay as they were, and no fewer are
/// resolved afterwards. It answers success only once every offset is
/// resolved.
pub proof fn lemma_resolution_keeps_what_resolved(p: Process, m: Module, s: UnrealPathView)
    requires
        path_in_range(s),
    ensures
        keeps_what_resolved(s, resolve(p, m, s)),
{
    if s.resolved != s.depth {
        if let Some(start) = p.mem_ptr(s.base, m.pointer_size) {
            if let Some(object) = follow_from(p, m.pointer_size, start, s.offsets.take(s.resolved)) {
                lemma_fields_keep_what_resolved(p, m, object, s);
            }
        }
    }
}

/// A path that resolved stays resolved: resolving it again, on any memory,
/// answers success and changes nothing.
pub proof fn lemma_resolved_paths_stay_resolved(p: Process, m: Module, later: Process, s: UnrealPathView)
    requires
        path_in_range(s),
        resolve(p, m, s).0,
    ensures
        resolve(later, m, resolve(p, m, s).1) == (true, resolve(p, m, s).1),
{
    lemma_resolution_keeps_what_resolved(p, m, s);
}

/// The address a fully resolved path leads to: the object the base holds,
/// every offset but the last followed from it, the last added.
pub open spec fn path_target(p: Process, m: Module, s: UnrealPathView) -> Option<u64> {
    if s.depth <= 0 {
        None
    } else {
        match p.mem_ptr(s.base, m.pointer_size) {
            None => None,
            Some(start) => match follow_from(p, m.pointer_size, start, s.offsets.take(s.depth - 1)) {
                Some(at) => Some(wrap_add(at, s.offsets[s.depth - 1] as int)),
                None => None,
            },
        }
    }
}

/// What a path written as a base and fields holds before any resolution.
pub open spec fn fresh_path(base: u64, fields: Seq<Seq<u8>>, cap: nat) -> UnrealPathView {
    UnrealPathView {
        base,
        offsets: Seq::new(cap, |i: int| 0u64),
        resolved: 0,
        fields: Seq::new(
            cap,
            |i: int| if i < fields.len() {
                fields[i]
            } else {
                "".spec_bytes()
            },
        ),
        depth: if fields.len() < cap {
            fields.len() as int
        } else {
            cap as int
        },
    }
}

/// An implementation for automatic pointer path resolution: a global, then
/// fields resolved by name or written as literal offsets, remembered across
/// calls so a failed resolution resumes where it left off.
pub struct UnrealPointer<const CAP: usize> {
    base_address: Address,
    offsets: Vec<u64>,
    resolved_offsets: usize,
    fields: Vec<&'static str>,
    depth: usize,
}

impl<const CAP: usize> View for UnrealPointer<CAP> {
    type V = UnrealPathView;

    closed spec fn view(&self) -> UnrealPathView {
        UnrealPathView {
            base: self.base_address.0,
            offsets: self.offsets@,
            resolved: self.resolved_offsets as int,
            fields: self.fields@.map_values(|f: &'static str| f.spec_bytes()),
            depth: self.depth as int,
        }
    }
}

impl<const CAP: usize> UnrealPointer<CAP> {
    /// Whether the path is consistent.
    pub closed spec fn wf(&self) -> bool {
        &&& self.offsets@.len() == CAP
        &&& self.fields@.len() == CAP
        &&& self.resolved_offsets <= self.depth <= CAP
    }

    /// A consistent path's counts are in range, so the resolution laws
    /// apply to it.
    pub proof fn lemma_in_range(&self)
        requires
            self.wf(),
        ensures
            path_in_range(self@),
    {
    }

    /// Creates a new instance of the pointer path.
    ///
    /// `CAP` should be higher or equal to the number of offsets defined in
    /// `fields`. If a higher number of offsets is provided, the pointer path
    /// will be truncated according to the value of `CAP`.
    pub fn new(base_address: Address, fields: &[&'static str]) -> (r: Self)
        ensures
            r.wf(),
            r@ == fresh_path(base_address.0, fields@.map_values(|f: &'static str| f.spec_bytes()), CAP as nat),
    {
        let mut named: Vec<&'static str> = Vec::new();
        let mut offsets: Vec<u64> = Vec::new();
        let mut i: usize = 0;
        while i < CAP
            invariant
                0 <= i <= CAP,
                named@.len() == i,
                offsets@ =~= Seq::new(i as nat, |k: int| 0u64),
                forall|k: int|
                    0 <= k < i ==> #[trigger] named@[k] == if k < fields@.len() {
                        fields@[k]
                    } else {
                        ""
                    },
            decreases CAP - i,
        {
            if i < fields.len() {
                named.push(fields[i]);
            } else {
                named.push("");
            }
            offsets.push(0);
            i += 1;
        }
        let depth = if fields.len() < CAP {
            fields.len()
        } else {
            CAP
        };
        proof {
            let written = fields@.map_values(|f: &'static str| f.spec_bytes());
            assert(named@.map_values(|f: &'static str| f.spec_bytes()) =~= Seq::new(
                CAP as nat,
                |i: int| if i < written.len() {
                    written[i]
                } else {
                    "".spec_bytes()
                },
            ));
        }
        UnrealPointer { base_address, offsets, resolved_offsets: 0, fields: named, depth }
    }

    /// Tries to resolve the pointer path, resuming behind whatever resolved
    /// on an earlier call.
    #[verifier::loop_isolation(false)]
    pub fn find_offsets(&mut self, process: &Process, module: &Module) -> (r: Result<(), Error>)
        requires
            old(self).wf(),
        ensures
            final(self).wf(),
            (r is Ok, final(self)@) == resolve(*process, *module, old(self)@),
    {
        if self.resolved_offsets == self.depth {
            return Ok(());
        }
        let ghost s = self@;
        let start = match process.read_ptr(self.base_address, module.pointer_size) {
            Some(a) => a,
            None => return Err(Error {}),
        };
        // Whatever resolved already is walked again from the base, which is
        // what recovers the farthest object the resolution reached.
        let mut current = start;
        let mut k: usize = 0;
        proof {
            assert(s.offsets.take(0) =~= Seq::<u64>::empty());
        }
        while k < self.resolved_offsets
            invariant
                self.wf(),
                self@ == s,
                0 <= k <= self.resolved_offsets,
                follow_from(*process, module.pointer_size, start.0, s.offsets.take(k as int)) == Some(current.0),
            decreases self.resolved_offsets - k,
        {
            proof {
                lemma_follow_from_push(*process, module.pointer_size, start.0, s.offsets.take(k as int), s.offsets[k as int]);
                assert(s.offsets.take(k as int).push(s.offsets[k as int]) =~= s.offsets.take(k + 1));
            }
            current = match process.read_ptr(current.add(self.offsets[k]), module.pointer_size) {
                Some(a) => a,
                None => {
                    proof {
                        lemma_follow_from_broken(*process, module.pointer_size, start.0, s.offsets, k + 1, s.resolved);
                    }
                    return Err(Error {});
                },
            };
            k += 1;
        }
        self.resolve_from(process, module, current)
    }

    /// Resolves the fields from the resolved count on, from the object the
    /// resolved offsets reach.
    fn resolve_from(&mut self, process: &Process, module: &Module, object: Address) -> (r: Result<
        (),
        Error,
    >)
        requires
            old(self).wf(),
        ensures
            final(self).wf(),
            (r is Ok, final(self)@) == resolve_fields(*process, *module, object.0, old(self)@),
        decreases old(self).depth - old(self).resolved_offsets,
    {
        if self.resolved_offsets >= self.depth {
            return Ok(());
        }
        let i = self.resolved_offsets;
        let field = self.fields[i];
        let offset: u64 = match parse_offset(field.as_bytes()) {
            Some(o) => o as u64,
            None => match (UObject { object }).get_field_offset(process, module, field) {
                Some(o) => o as u64,
                None => return Err(Error {}),
            },
        };
        let ghost before = self@;
        self.offsets.set(i, offset);
        self.resolved_offsets = i + 1;
        proof {
            assert(self@.fields =~= before.fields);
        }
        let next = match process.read_ptr(object.add(offset), module.pointer_size) {
            Some(a) => a,
            None => return Err(Error {}),
        };
        self.resolve_from(process, module, next)
    }

    /// Dereferences the pointer path, returning the memory address at the
    /// end of the path.
    #[verifier::loop_isolation(false)]
    pub fn deref_offsets(&mut self, process: &Process, module: &Module) -> (r: Result<Address, Error>)
        requires
            old(self).wf(),
        ensures
            final(self).wf(),
            final(self)@ == resolve(*process, *module, old(self)@).1,
            match r {
                Ok(a) => resolve(*process, *module, old(self)@).0 && path_target(*process, *module, final(self)@)
                    == Some(a.0),
                Err(_) => !resolve(*process, *module, old(self)@).0 || path_target(
                    *process,
                    *module,
                    final(self)@,
                ).is_none(),
            },
    {
        self.find_offsets(process, module)?;
        if self.depth == 0 {
            return Err(Error {});
        }
        let ghost s = self@;
        let start = match process.read_ptr(self.base_address, module.pointer_size) {
            Some(a) => a,
            None => return Err(Error {}),
        };
        let mut address = start;
        let mut k: usize = 0;
        proof {
            assert(s.offsets.take(0) =~= Seq::<u64>::empty());
        }
        while k < self.depth - 1
            invariant
                self.wf(),
                self@ == s,
                self.depth >= 1,
                0 <= k <= self.depth - 1,
                follow_from(*process, module.pointer_size, start.0, s.offsets.take(k as int)) == Some(address.0),
            decreases self.depth - 1 - k,
        {
            proof {
                lemma_follow_from_push(*process, module.pointer_size, start.0, s.offsets.take(k as int), s.offsets[k as int]);
                assert(s.offsets.take(k as int).push(s.offsets[k as int]) =~= s.offsets.take(k + 1));
            }
            address = match process.read_ptr(address.add(self.offsets[k]), module.pointer_size) {
                Some(a) => a,
                None => {
                    proof {
                        lemma_follow_from_broken(*process, module.pointer_size, start.0, s.offsets, k + 1, s.depth - 1);
                    }
                    return Err(Error {});
                },
            };
            k += 1;
        }
        Ok(address.add(self.offsets[self.depth - 1]))
    }

    /// Dereferences the pointer path, returning the value stored at the
    /// final memory address.
    pub fn deref<T: Element>(&mut self, process: &Process, module: &Module) -> (r: Result<T, Error>)
        requires
            old(self).wf(),
        ensures
            final(self).wf(),
            final(self)@ == resolve(*process, *module, old(self)@).1,
            match r {
                Ok(v) => resolve(*process, *module, old(self)@).0 && (path_target(*process, *module, final(self)@)
                    matches Some(t) && T::at(*process, t) == Some(v)),
                Err(_) => !resolve(*process, *module, old(self)@).0 || match path_target(*process, *module, final(self)@) {
                    Some(t) => T::at(*process, t).is_none(),
                    None => true,
                },
            },
    {
        let at = self.deref_offsets(process, module)?;
        match T::read_at(process, at) {
            Some(v) => Ok(v),
            None => Err(Error {}),
        }
    }
}

} // verus!
