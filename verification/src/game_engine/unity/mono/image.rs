//! The images a Mono module's assemblies carry.

use vstd::prelude::*;
use vstd::string::StringSliceAdditionalSpecFns;

use super::{walk_of, Class, Module};
use crate::game_engine::unity::managed::cursor::classes_of;
use crate::game_engine::unity::managed::ImageRef;
use crate::primitives::Address;
use crate::process::Process;

verus! {

/// An image is a .NET DLL that is loaded by the game. The `Assembly-CSharp`
/// image is the main game assembly, and contains all the game logic.
#[derive(Copy, Clone, Debug)]
pub struct Image {
    /// Where the runtime keeps the image.
    pub image: Address,
}

impl Image {
    /// Lists all [.NET classes](struct@Class) in the image, in the order the
    /// runtime keeps them.
    pub fn classes(&self, process: &Process, module: &Module) -> (r: Vec<Class>)
        ensures
            r@.map_values(|c: Class| c.class.0) == classes_of(
                walk_of(*module).runtime,
                *process,
                module.pointer_size,
                self.image.0,
            ),
    {
        let walk = module.walk();
        let mut cursor = walk.runtime.classes(process, module.pointer_size, ImageRef::new(self.image));
        let ghost all = classes_of(walk.runtime, *process, module.pointer_size, self.image.0);
        let mut found: Vec<Class> = Vec::new();
        loop
            invariant
                all == classes_of(walk_of(*module).runtime, *process, module.pointer_size, self.image.0),
                found@.map_values(|c: Class| c.class.0) + cursor.rest() == all,
            decreases cursor.measure(),
        {
            let ghost before = found@;
            let ghost rest = cursor.rest();
            match cursor.next() {
                Some(c) => {
                    found.push(Class { class: c.address });
                    proof {
                        assert(found@.map_values(|c: Class| c.class.0) =~= before.map_values(
                            |c: Class| c.class.0,
                        ).push(c.address.0));
                        assert(before.map_values(|c: Class| c.class.0).push(c.address.0) + cursor.rest()
                            =~= before.map_values(|c: Class| c.class.0) + rest);
                    }
                },
                None => {
                    proof {
                        assert(found@.map_values(|c: Class| c.class.0) + Seq::<u64>::empty()
                            =~= found@.map_values(|c: Class| c.class.0));
                    }
                    return found;
                },
            }
        }
    }

    /// Tries to find the specified [.NET class](struct@Class) in the image:
    /// by its name, after a namespace and a dot when one is written, and
    /// through the classes enclosing it when written `Outer+Inner`.
    pub fn get_class(&self, process: &Process, module: &Module, class_name: &str) -> (r: Option<Class>)
        ensures
            match r {
                Some(c) => walk_of(*module).find_class_of(*process, self.image.0, class_name.spec_bytes())
                    == Some(c.class.0),
                None => walk_of(*module).find_class_of(
                    *process,
                    self.image.0,
                    class_name.spec_bytes(),
                ).is_none(),
            },
    {
        match module.walk().find_class(process, ImageRef::new(self.image), class_name) {
            Some(c) => Some(Class { class: c.address }),
            None => None,
        }
    }
}

} // verus!
