//! Automatic pointer path resolution for the Mono backend.

use vstd::prelude::*;
use vstd::string::StringSliceAdditionalSpecFns;

use super::{walk_of, Image, Module};
use crate::game_engine::unity::managed::pointer::{
    fresh_path, path_in_range, path_target, resolve, value_behind, PathView,
};
use crate::game_engine::unity::managed::{Element, ImageRef, PointerPath};
use crate::primitives::Address;
use crate::process::{Error, Process};

verus! {

/// A Mono-specific implementation for automatic pointer path resolution.
pub struct UnityPointer<const CAP: usize> {
    path: PointerPath<CAP>,
}

impl<const CAP: usize> View for UnityPointer<CAP> {
    type V = PathView;

    closed spec fn view(&self) -> PathView {
        self.path@
    }
}

impl<const CAP: usize> UnityPointer<CAP> {
    /// Whether the path is consistent.
    pub closed spec fn wf(&self) -> bool {
        self.path.wf()
    }

    /// A consistent path's counts are in range, so the resolution laws
    /// apply to it.
    pub proof fn lemma_in_range(&self)
        requires
            self.wf(),
        ensures
            path_in_range(self@),
    {
        self.path.lemma_in_range();
    }

    /// Creates a new instance of the pointer path.
    ///
    /// `CAP` should be higher or equal to the number of offsets defined in
    /// `fields`. If a higher number of offsets is provided, the pointer path
    /// will be truncated according to the value of `CAP`.
    pub fn new(class_name: &'static str, nr_of_parents: usize, fields: &[&'static str]) -> (r: Self)
        ensures
            r.wf(),
            r@ == fresh_path(
                class_name.spec_bytes(),
                nr_of_parents as nat,
                fields@.map_values(|f: &'static str| f.spec_bytes()),
                CAP as nat,
            ),
    {
        UnityPointer { path: PointerPath::new(class_name, nr_of_parents, fields) }
    }

    /// Dereferences the pointer path, returning the memory address of the
    /// value of interest. What resolves is remembered, so a later call
    /// resumes where this one stopped.
    pub fn deref_offsets(&mut self, process: &Process, module: &Module, image: &Image) -> (r: Result<
        Address,
        Error,
    >)
        requires
            old(self).wf(),
        ensures
            final(self).wf(),
            final(self)@ == resolve(walk_of(*module), *process, image.image.0, old(self)@).1,
            match r {
                Ok(a) => resolve(walk_of(*module), *process, image.image.0, old(self)@).0
                    && path_target(walk_of(*module), *process, final(self)@) == Some(a.0),
                Err(_) => !resolve(walk_of(*module), *process, image.image.0, old(self)@).0
                    || path_target(walk_of(*module), *process, final(self)@).is_none(),
            },
    {
        let walk = module.walk();
        self.path.deref_offsets(process, &walk, ImageRef::new(image.image))
    }

    /// Dereferences the pointer path, returning the value stored at the final
    /// memory address.
    pub fn deref<T: Element>(&mut self, process: &Process, module: &Module, image: &Image) -> (r: Result<
        T,
        Error,
    >)
        requires
            old(self).wf(),
        ensures
            final(self).wf(),
            final(self)@ == resolve(walk_of(*module), *process, image.image.0, old(self)@).1,
            value_behind::<T>(
                r,
                resolve(walk_of(*module), *process, image.image.0, old(self)@).0,
                walk_of(*module),
                *process,
                final(self)@,
            ),
    {
        let walk = module.walk();
        self.path.deref(process, &walk, ImageRef::new(image.image))
    }
}

} // verus!
