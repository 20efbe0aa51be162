//! The classes an image holds.

use vstd::prelude::*;
use vstd::string::StringSliceAdditionalSpecFns;

use super::{walk_of, Module};
use crate::game_engine::unity::managed::runtime::static_table_of;
use crate::game_engine::unity::managed::walk::climb_fuel;
use crate::game_engine::unity::managed::ClassRef;
use crate::primitives::{wrap_add, Address};
use crate::process::Process;

verus! {

/// A .NET class that is part of an [`Image`](super::Image).
#[derive(Copy, Clone, Debug)]
pub struct Class {
    /// Where the runtime keeps the class.
    pub class: Address,
}

/// The object a static field of a class holds: the field is found up the
/// parent chain, and its offset measures into the static table of whichever
/// class declares it.
pub open spec fn static_instance_of(m: Module, p: Process, class: u64, field: Seq<u8>) -> Option<u64> {
    let w = walk_of(m);
    match w.field_search(p, Some(class), field, climb_fuel()) {
        Some((declaring, offset)) => match static_table_of(w.runtime, p, m.pointer_size, declaring) {
            Some(table) => p.mem_nonnull(wrap_add(table, offset as int), m.pointer_size),
            None => None,
        },
        None => None,
    }
}

impl Class {
    /// Tries to find a field with the specified name in the class. This
    /// returns the offset of the field from the start of an instance of the
    /// class. If it's a static field, the offset will be from the start of
    /// the static table.
    pub fn get_field_offset(&self, process: &Process, module: &Module, field_name: &str) -> (r:
        Option<u32>)
        ensures
            r == match walk_of(*module).field_search(
                *process,
                Some(self.class.0),
                field_name.spec_bytes(),
                climb_fuel(),
            ) {
                Some((_, offset)) => Some(offset),
                None => None,
            },
    {
        match module.walk().find_field_offset(process, ClassRef::new(self.class), field_name) {
            Some((_, offset)) => Some(offset),
            None => None,
        }
    }

    /// Tries once to find the address of a static instance of the class
    /// based on its field name, refusing a null one. The field's offset
    /// measures into the static table of whichever class declares it, which
    /// a climb may find on a parent.
    pub fn get_static_instance(&self, process: &Process, module: &Module, field_name: &str) -> (r:
        Option<Address>)
        ensures
            match r {
                Some(a) => static_instance_of(*module, *process, self.class.0, field_name.spec_bytes())
                    == Some(a.0),
                None => static_instance_of(
                    *module,
                    *process,
                    self.class.0,
                    field_name.spec_bytes(),
                ).is_none(),
            },
    {
        let walk = module.walk();
        let (class, offset) = walk.find_field_offset(process, ClassRef::new(self.class), field_name)?;
        let static_table = walk.static_table(process, class)?;
        process.read_nonnull(static_table.add(offset as u64), module.pointer_size)
    }

    /// Returns the address of the static table of the class. This contains
    /// the values of all the static fields.
    pub fn get_static_table(&self, process: &Process, module: &Module) -> (r: Option<Address>)
        ensures
            match r {
                Some(a) => static_table_of(walk_of(*module).runtime, *process, module.pointer_size, self.class.0)
                    == Some(a.0),
                None => static_table_of(
                    walk_of(*module).runtime,
                    *process,
                    module.pointer_size,
                    self.class.0,
                ).is_none(),
            },
    {
        module.walk().static_table(process, ClassRef::new(self.class))
    }

    /// Tries to find the parent class.
    pub fn get_parent(&self, process: &Process, module: &Module) -> (r: Option<Class>)
        ensures
            match r {
                Some(c) => walk_of(*module).parent_of(*process, self.class.0) == Some(c.class.0),
                None => walk_of(*module).parent_of(*process, self.class.0).is_none(),
            },
    {
        match module.walk().parent(process, ClassRef::new(self.class)) {
            Some(c) => Some(Class { class: c.address }),
            None => None,
        }
    }
}

} // verus!
