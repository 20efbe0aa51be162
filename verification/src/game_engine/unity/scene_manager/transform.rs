//! Transforms: the entities a scene is built of, each with a game object,
//! components, and children.

use vstd::prelude::*;
use vstd::string::StringSliceAdditionalSpecFns;

use super::game_object::{
    class_named, components_of, find_class_named, managed_objects, read_components,
    read_managed_objects, word_width, words_of,
};
use super::SceneManager;
use crate::game_engine::unity::managed::Walk;
use crate::game_engine::unity::CSTR;
use crate::primitives::{wrap_add, Address, PointerSize};
use crate::process::{Error, Process};
use crate::string::{cstr_at, read_cstring, ArrayCString};
use crate::text::seq_first;

verus! {

/// The most children a transform's array is read with.
pub const MAX_CHILDREN: u64 = 128;

/// A `Transform` is a base class for all entities used in a Unity scene.
/// All classes of interest useful for an auto splitter can be found starting
/// from the addresses of the root `Transform`s linked in each scene.
#[derive(Copy, Clone, Debug)]
pub struct Transform {
    /// Where the transform lives.
    pub address: Address,
}

/// The game object of the transform at `t`.
pub open spec fn game_object_of(p: Process, sm: SceneManager, t: u64) -> Option<u64> {
    p.mem_ptr(wrap_add(t, sm.profile.transform.game_object as int), sm.pointer_size)
}

/// The name of the transform at `t`, its game object's name, read as `n`
/// bytes.
pub open spec fn transform_name_of(p: Process, sm: SceneManager, t: u64, n: nat) -> Option<Seq<u8>> {
    match game_object_of(p, sm, t) {
        Some(go) => match p.mem_ptr(wrap_add(go, sm.profile.game_object.name as int), sm.pointer_size) {
            Some(name) => cstr_at(p, name, n),
            None => None,
        },
        None => None,
    }
}

/// The managed objects the components of the transform at `t` hold.
pub open spec fn transform_objects_of(p: Process, sm: SceneManager, t: u64) -> Option<Seq<u64>> {
    match game_object_of(p, sm, t) {
        Some(go) => match components_of(p, sm, go) {
            Some(c) => Some(managed_objects(p, sm, c)),
            None => None,
        },
        None => None,
    }
}

/// The children of the transform at `t`: the transforms its dynamic array
/// holds, when the array is readable, not empty, and at most
/// [`MAX_CHILDREN`] long.
pub open spec fn children_of(p: Process, sm: SceneManager, t: u64) -> Option<Seq<u64>> {
    let ps = word_width(sm.pointer_size);
    match p.mem_ptrs(wrap_add(t, sm.profile.transform.children as int), ps, 3) {
        None => None,
        Some(words) => {
            let first = words[0];
            let count = words[2];
            if count == 0 || count > MAX_CHILDREN {
                None
            } else {
                p.mem_ptrs(first, ps, count as nat)
            }
        },
    }
}

/// Whether the transform at `t` carries the given name.
pub open spec fn transform_named(p: Process, sm: SceneManager, t: u64, name: Seq<u8>) -> bool {
    transform_name_of(p, sm, t, CSTR as nat) == Some(name)
}

/// Finds the first transform carrying the given name.
pub fn find_named(process: &Process, sm: &SceneManager, transforms: &Vec<Address>, name: &str) -> (r:
    Option<Address>)
    ensures
        match r {
            Some(a) => seq_first(
                transforms@.map_values(|a: Address| a.0),
                |t: u64| transform_named(*process, *sm, t, name.spec_bytes()),
            ) == Some(a.0),
            None => seq_first(
                transforms@.map_values(|a: Address| a.0),
                |t: u64| transform_named(*process, *sm, t, name.spec_bytes()),
            ).is_none(),
        },
{
    let ghost all = transforms@.map_values(|a: Address| a.0);
    let ghost pred = |t: u64| transform_named(*process, *sm, t, name.spec_bytes());
    let mut i: usize = 0;
    proof {
        assert(all.skip(0) =~= all);
    }
    while i < transforms.len()
        invariant
            0 <= i <= transforms@.len(),
            all == transforms@.map_values(|a: Address| a.0),
            pred == (|t: u64| transform_named(*process, *sm, t, name.spec_bytes())),
            seq_first(all, pred) == seq_first(all.skip(i as int), pred),
        decreases transforms@.len() - i,
    {
        proof {
            assert(all.skip(i as int)[0] == transforms@[i as int].0);
            assert(all.skip(i as int).drop_first() =~= all.skip(i + 1));
        }
        let t = Transform { address: transforms[i] };
        let named = match t.get_name::<CSTR>(process, sm) {
            Ok(n) => n.matches(name),
            Err(_) => false,
        };
        if named {
            return Some(transforms[i]);
        }
        i += 1;
    }
    proof {
        assert(all.skip(i as int).len() == 0);
    }
    None
}

impl Transform {
    /// Tries to return the name of the transform: its game object's name.
    pub fn get_name<const N: usize>(&self, process: &Process, scene_manager: &SceneManager) -> (r:
        Result<ArrayCString<N>, Error>)
        ensures
            match r {
                Ok(s) => transform_name_of(*process, *scene_manager, self.address.0, N as nat) == Some(s@),
                Err(_) => transform_name_of(*process, *scene_manager, self.address.0, N as nat).is_none(),
            },
    {
        let game_object = match process.read_ptr(
            self.address.add(scene_manager.profile.transform.game_object as u64),
            scene_manager.pointer_size,
        ) {
            Some(a) => a,
            None => return Err(Error {}),
        };
        let name = match process.read_ptr(
            game_object.add(scene_manager.profile.game_object.name as u64),
            scene_manager.pointer_size,
        ) {
            Some(a) => a,
            None => return Err(Error {}),
        };
        read_cstring::<N>(process, name)
    }

    /// Lists the managed objects the components of the transform's game
    /// object hold, past the transform itself: the classes a game attaches.
    pub fn classes(&self, process: &Process, scene_manager: &SceneManager) -> (r: Result<
        Vec<Address>,
        Error,
    >)
        ensures
            match r {
                Ok(v) => transform_objects_of(*process, *scene_manager, self.address.0) == Some(
                    v@.map_values(|a: Address| a.0),
                ),
                Err(_) => transform_objects_of(*process, *scene_manager, self.address.0).is_none(),
            },
    {
        let game_object = match process.read_ptr(
            self.address.add(scene_manager.profile.transform.game_object as u64),
            scene_manager.pointer_size,
        ) {
            Some(a) => a,
            None => return Err(Error {}),
        };
        let components = match read_components(process, scene_manager, game_object) {
            Some(v) => v,
            None => return Err(Error {}),
        };
        Ok(read_managed_objects(process, scene_manager, &components))
    }

    /// Tries to find the base address of a class attached to the
    /// transform's game object, by its name as the runtime's walk reads it.
    pub fn get_class(&self, process: &Process, scene_manager: &SceneManager, walk: &Walk, name: &str) -> (r:
        Result<Address, Error>)
        ensures
            match r {
                Ok(a) => transform_objects_of(*process, *scene_manager, self.address.0) matches Some(
                    objects,
                ) && seq_first(objects, |o: u64| class_named(*process, *walk, o, name.spec_bytes()))
                    == Some(a.0),
                Err(_) => match transform_objects_of(*process, *scene_manager, self.address.0) {
                    Some(objects) => seq_first(
                        objects,
                        |o: u64| class_named(*process, *walk, o, name.spec_bytes()),
                    ).is_none(),
                    None => true,
                },
            },
    {
        let objects = self.classes(process, scene_manager)?;
        match find_class_named(process, walk, &objects, name) {
            Some(a) => Ok(a),
            None => Err(Error {}),
        }
    }

    /// Lists the children transforms of this one.
    pub fn children(&self, process: &Process, scene_manager: &SceneManager) -> (r: Result<
        Vec<Transform>,
        Error,
    >)
        ensures
            match r {
                Ok(v) => children_of(*process, *scene_manager, self.address.0) == Some(
                    v@.map_values(|t: Transform| t.address.0),
                ),
                Err(_) => children_of(*process, *scene_manager, self.address.0).is_none(),
            },
    {
        let ps = words_of(scene_manager.pointer_size);
        let words = match process.read_ptrs(
            self.address.add(scene_manager.profile.transform.children as u64),
            ps,
            3,
        ) {
            Some(w) => w,
            None => return Err(Error {}),
        };
        proof {
            assert(words@.map_values(|a: Address| a.0).len() == 3);
            assert(words@.map_values(|a: Address| a.0)[0] == words@[0].0);
            assert(words@.map_values(|a: Address| a.0)[2] == words@[2].0);
        }
        let first = words[0];
        let count = words[2].0;
        if count == 0 || count > MAX_CHILDREN {
            return Err(Error {});
        }
        let children = match process.read_ptrs(first, ps, count) {
            Some(c) => c,
            None => return Err(Error {}),
        };
        let mut out: Vec<Transform> = Vec::new();
        let mut i: usize = 0;
        while i < children.len()
            invariant
                0 <= i <= children@.len(),
                out@.map_values(|t: Transform| t.address.0) =~= children@.map_values(|a: Address| a.0).take(
                    i as int,
                ),
            decreases children@.len() - i,
        {
            let ghost before = out@;
            out.push(Transform { address: children[i] });
            proof {
                assert(out@.map_values(|t: Transform| t.address.0) =~= before.map_values(
                    |t: Transform| t.address.0,
                ).push(children@[i as int].0));
            }
            i += 1;
        }
        proof {
            assert(children@.map_values(|a: Address| a.0).take(children@.len() as int)
                =~= children@.map_values(|a: Address| a.0));
        }
        Ok(out)
    }

    /// Tries to find a child transform of this one by its name.
    pub fn get_child(&self, process: &Process, scene_manager: &SceneManager, name: &str) -> (r: Result<
        Transform,
        Error,
    >)
        ensures
            match r {
                Ok(t) => children_of(*process, *scene_manager, self.address.0) matches Some(children)
                    && seq_first(
                    children,
                    |c: u64| transform_named(*process, *scene_manager, c, name.spec_bytes()),
                ) == Some(t.address.0),
                Err(_) => match children_of(*process, *scene_manager, self.address.0) {
                    Some(children) => seq_first(
                        children,
                        |c: u64| transform_named(*process, *scene_manager, c, name.spec_bytes()),
                    ).is_none(),
                    None => true,
                },
            },
    {
        let children = self.children(process, scene_manager)?;
        let mut addresses: Vec<Address> = Vec::new();
        let mut i: usize = 0;
        while i < children.len()
            invariant
                0 <= i <= children@.len(),
                addresses@.map_values(|a: Address| a.0) =~= children@.map_values(|t: Transform| t.address.0).take(
                    i as int,
                ),
            decreases children@.len() - i,
        {
            let ghost before = addresses@;
            addresses.push(children[i].address);
            proof {
                assert(addresses@.map_values(|a: Address| a.0) =~= before.map_values(|a: Address| a.0).push(
                    children@[i as int].address.0,
                ));
            }
            i += 1;
        }
        proof {
            assert(children@.map_values(|t: Transform| t.address.0).take(children@.len() as int)
                =~= children@.map_values(|t: Transform| t.address.0));
        }
        match find_named(process, scene_manager, &addresses, name) {
            Some(a) => Ok(Transform { address: a }),
            None => Err(Error {}),
        }
    }
}

} // verus!
