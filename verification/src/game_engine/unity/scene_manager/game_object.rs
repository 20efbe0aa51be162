//! Game objects, and the components attached to them.

use vstd::prelude::*;
use vstd::string::StringSliceAdditionalSpecFns;

use super::offsets::ReferenceShape;
use super::SceneManager;
use crate::game_engine::unity::managed::runtime::object_class_of;
use crate::game_engine::unity::managed::{ClassRef, Walk};
use crate::game_engine::unity::{il2cpp, mono, CSTR};
use crate::primitives::{wrap_add, Address, PointerSize};
use crate::process::{Error, Process};
use crate::string::{cstr_at, read_cstring, ArrayCString};
use crate::text::seq_first;

verus! {

/// The most components a game object's array is read with.
pub const MAX_COMPONENTS: u64 = 128;

/// The width the engine's dynamic arrays keep their words at: 64 bits on a
/// 64-bit player, 32 bits otherwise.
pub open spec fn word_width(ps: PointerSize) -> PointerSize {
    match ps {
        PointerSize::Bit64 => PointerSize::Bit64,
        _ => PointerSize::Bit32,
    }
}

/// Returns the width the engine's dynamic arrays keep their words at.
pub fn words_of(ps: PointerSize) -> (w: PointerSize)
    ensures
        w == word_width(ps),
{
    match ps {
        PointerSize::Bit64 => PointerSize::Bit64,
        _ => PointerSize::Bit32,
    }
}

/// The components a game object holds past its first, which is always the
/// transform: the component halves of the pairs its dynamic array holds,
/// when the array is readable, not empty, and at most
/// [`MAX_COMPONENTS`] long.
pub open spec fn components_of(p: Process, sm: SceneManager, game_object: u64) -> Option<Seq<u64>> {
    let ps = word_width(sm.pointer_size);
    match p.mem_ptrs(wrap_add(game_object, sm.profile.game_object.components as int), ps, 3) {
        None => None,
        Some(words) => {
            let pairs = words[0];
            let count = words[2];
            if count == 0 || count > MAX_COMPONENTS {
                None
            } else {
                match p.mem_ptrs(pairs, ps, 2 * count as nat) {
                    Some(ptrs) => Some(Seq::new((count - 1) as nat, |m: int| ptrs[2 * (m + 1) + 1])),
                    None => None,
                }
            }
        },
    }
}

/// The managed object a component holds, through the managed reference of
/// its `Object` base: the reference holds the object itself, or points at a
/// slot that holds it, by the shape of the build.
pub open spec fn managed_object_of(p: Process, sm: SceneManager, component: u64) -> Option<u64> {
    let reference = p.mem_nonnull(
        wrap_add(component, sm.profile.object.managed_reference as int),
        sm.pointer_size,
    );
    match sm.profile.reference {
        ReferenceShape::CachedObject => reference,
        ReferenceShape::RootSlot => match reference {
            Some(slot) => p.mem_nonnull(slot, sm.pointer_size),
            None => None,
        },
    }
}

/// The managed objects some components hold, in their order, leaving out
/// the components whose object cannot be reached.
pub open spec fn managed_objects(p: Process, sm: SceneManager, components: Seq<u64>) -> Seq<u64>
    decreases components.len(),
{
    if components.len() == 0 {
        Seq::empty()
    } else {
        let init = managed_objects(p, sm, components.drop_last());
        match managed_object_of(p, sm, components.last()) {
            Some(o) => init.push(o),
            None => init,
        }
    }
}

/// Whether a managed object's class, as a runtime's walk reads it, carries
/// the given name.
pub open spec fn class_named(p: Process, walk: Walk, object: u64, name: Seq<u8>) -> bool {
    match object_class_of(walk.runtime, p, walk.pointer_size, object) {
        Some(class) => walk.class_name_of(p, class, CSTR as nat) == Some(name),
        None => false,
    }
}

/// Reads the components a game object holds past its transform.
pub fn read_components(process: &Process, sm: &SceneManager, game_object: Address) -> (r: Option<
    Vec<Address>,
>)
    ensures
        match r {
            Some(v) => components_of(*process, *sm, game_object.0) == Some(
                v@.map_values(|a: Address| a.0),
            ),
            None => components_of(*process, *sm, game_object.0).is_none(),
        },
{
    let ps = words_of(sm.pointer_size);
    let words = process.read_ptrs(game_object.add(sm.profile.game_object.components as u64), ps, 3)?;
    proof {
        assert(words@.map_values(|a: Address| a.0).len() == 3);
        assert(words@.map_values(|a: Address| a.0)[0] == words@[0].0);
        assert(words@.map_values(|a: Address| a.0)[2] == words@[2].0);
    }
    let pairs = words[0];
    let count = words[2].0;
    if count == 0 || count > MAX_COMPONENTS {
        return None;
    }
    let ptrs = process.read_ptrs(pairs, ps, 2 * count)?;
    proof {
        assert(ptrs@.map_values(|a: Address| a.0).len() == 2 * count);
    }
    let ghost all = ptrs@.map_values(|a: Address| a.0);
    let mut out: Vec<Address> = Vec::new();
    let mut m: u64 = 1;
    while m < count
        invariant
            1 <= m <= count,
            count <= MAX_COMPONENTS,
            ptrs@.len() == 2 * count,
            all == ptrs@.map_values(|a: Address| a.0),
            out@.map_values(|a: Address| a.0) =~= Seq::new(
                (m - 1) as nat,
                |k: int| all[2 * (k + 1) + 1],
            ),
        decreases count - m,
    {
        let ghost before = out@;
        out.push(ptrs[(2 * m + 1) as usize]);
        proof {
            assert(out@.map_values(|a: Address| a.0) =~= before.map_values(|a: Address| a.0).push(
                all[2 * m + 1],
            ));
        }
        m += 1;
    }
    Some(out)
}

/// Reads the managed object a component holds.
pub fn read_managed_object(process: &Process, sm: &SceneManager, component: Address) -> (r: Option<
    Address,
>)
    ensures
        match r {
            Some(a) => managed_object_of(*process, *sm, component.0) == Some(a.0),
            None => managed_object_of(*process, *sm, component.0).is_none(),
        },
{
    let reference = process.read_nonnull(
        component.add(sm.profile.object.managed_reference as u64),
        sm.pointer_size,
    )?;
    match sm.profile.reference {
        ReferenceShape::CachedObject => Some(reference),
        ReferenceShape::RootSlot => process.read_nonnull(reference, sm.pointer_size),
    }
}

/// Reads the managed objects some components hold, leaving out the
/// components whose object cannot be reached.
pub fn read_managed_objects(process: &Process, sm: &SceneManager, components: &Vec<Address>) -> (r:
    Vec<Address>)
    ensures
        r@.map_values(|a: Address| a.0) == managed_objects(
            *process,
            *sm,
            components@.map_values(|a: Address| a.0),
        ),
{
    let ghost all = components@.map_values(|a: Address| a.0);
    let mut out: Vec<Address> = Vec::new();
    let mut i: usize = 0;
    proof {
        assert(all.take(0) =~= Seq::<u64>::empty());
    }
    while i < components.len()
        invariant
            0 <= i <= components@.len(),
            all == components@.map_values(|a: Address| a.0),
            out@.map_values(|a: Address| a.0) == managed_objects(*process, *sm, all.take(i as int)),
        decreases components@.len() - i,
    {
        let ghost before = out@;
        proof {
            assert(all.take(i + 1).drop_last() =~= all.take(i as int));
            assert(all.take(i + 1).last() == components@[i as int].0);
        }
        if let Some(object) = read_managed_object(process, sm, components[i]) {
            out.push(object);
            proof {
                assert(out@.map_values(|a: Address| a.0) =~= before.map_values(|a: Address| a.0).push(
                    object.0,
                ));
            }
        }
        i += 1;
    }
    proof {
        assert(all.take(i as int) =~= all);
    }
    out
}

/// Finds the first managed object whose class, as a runtime's walk reads
/// it, carries the given name.
pub fn find_class_named(process: &Process, walk: &Walk, objects: &Vec<Address>, name: &str) -> (r:
    Option<Address>)
    ensures
        match r {
            Some(a) => seq_first(
                objects@.map_values(|a: Address| a.0),
                |o: u64| class_named(*process, *walk, o, name.spec_bytes()),
            ) == Some(a.0),
            None => seq_first(
                objects@.map_values(|a: Address| a.0),
                |o: u64| class_named(*process, *walk, o, name.spec_bytes()),
            ).is_none(),
        },
{
    let ghost all = objects@.map_values(|a: Address| a.0);
    let ghost pred = |o: u64| class_named(*process, *walk, o, name.spec_bytes());
    let mut i: usize = 0;
    proof {
        assert(all.skip(0) =~= all);
    }
    while i < objects.len()
        invariant
            0 <= i <= objects@.len(),
            all == objects@.map_values(|a: Address| a.0),
            pred == (|o: u64| class_named(*process, *walk, o, name.spec_bytes())),
            seq_first(all, pred) == seq_first(all.skip(i as int), pred),
        decreases objects@.len() - i,
    {
        proof {
            assert(all.skip(i as int)[0] == objects@[i as int].0);
            assert(all.skip(i as int).drop_first() =~= all.skip(i + 1));
        }
        let named = match walk.object_class(process, objects[i]) {
            Some(class) => match walk.class_name::<CSTR>(process, class) {
                Some(n) => n.matches(name),
                None => false,
            },
            None => false,
        };
        if named {
            return Some(objects[i]);
        }
        i += 1;
    }
    proof {
        assert(all.skip(i as int).len() == 0);
    }
    None
}

/// Whether a component's managed object's class, as a runtime's walk reads
/// it, carries the given name.
pub open spec fn component_named(p: Process, sm: SceneManager, walk: Walk, component: u64, name: Seq<u8>) -> bool {
    match managed_object_of(p, sm, component) {
        Some(o) => class_named(p, walk, o, name),
        None => false,
    }
}

/// Finds the first component whose managed object's class carries the
/// given name.
pub fn find_component_named(
    process: &Process,
    sm: &SceneManager,
    walk: &Walk,
    components: &Vec<Address>,
    name: &str,
) -> (r: Option<Address>)
    ensures
        match r {
            Some(a) => seq_first(
                components@.map_values(|a: Address| a.0),
                |c: u64| component_named(*process, *sm, *walk, c, name.spec_bytes()),
            ) == Some(a.0),
            None => seq_first(
                components@.map_values(|a: Address| a.0),
                |c: u64| component_named(*process, *sm, *walk, c, name.spec_bytes()),
            ).is_none(),
        },
{
    let ghost all = components@.map_values(|a: Address| a.0);
    let ghost pred = |c: u64| component_named(*process, *sm, *walk, c, name.spec_bytes());
    let mut i: usize = 0;
    proof {
        assert(all.skip(0) =~= all);
    }
    while i < components.len()
        invariant
            0 <= i <= components@.len(),
            all == components@.map_values(|a: Address| a.0),
            pred == (|c: u64| component_named(*process, *sm, *walk, c, name.spec_bytes())),
            seq_first(all, pred) == seq_first(all.skip(i as int), pred),
        decreases components@.len() - i,
    {
        proof {
            assert(all.skip(i as int)[0] == components@[i as int].0);
            assert(all.skip(i as int).drop_first() =~= all.skip(i + 1));
        }
        let named = match read_managed_object(process, sm, components[i]) {
            Some(object) => match walk.object_class(process, object) {
                Some(class) => match walk.class_name::<CSTR>(process, class) {
                    Some(n) => n.matches(name),
                    None => false,
                },
                None => false,
            },
            None => false,
        };
        if named {
            return Some(components[i]);
        }
        i += 1;
    }
    proof {
        assert(all.skip(i as int).len() == 0);
    }
    None
}

/// Representing a Unity component, usually attached to a game object.
#[derive(Copy, Clone, Debug)]
pub struct Component {
    /// The base address of the component.
    pub address: Address,
}

impl Component {
    /// Retrieves the managed object this component holds, through the
    /// managed reference of its `Object` base.
    pub fn get_mono_object(&self, process: &Process, scene_manager: &SceneManager) -> (r: Result<
        Address,
        Error,
    >)
        ensures
            match r {
                Ok(a) => managed_object_of(*process, *scene_manager, self.address.0) == Some(a.0),
                Err(_) => managed_object_of(*process, *scene_manager, self.address.0).is_none(),
            },
    {
        match read_managed_object(process, scene_manager, self.address) {
            Some(a) => Ok(a),
            None => Err(Error {}),
        }
    }
}

/// Representing a game object. From a game object, you can get the
/// attached components, which include the C# scripts.
#[derive(Copy, Clone, Debug)]
pub struct GameObject {
    /// Where the game object lives.
    pub address: Address,
}

/// The name of the game object at `game_object`, read as `n` bytes.
pub open spec fn game_object_name_of(p: Process, sm: SceneManager, game_object: u64, n: nat) -> Option<Seq<u8>> {
    match p.mem_ptr(wrap_add(game_object, sm.profile.game_object.name as int), sm.pointer_size) {
        Some(name) => cstr_at(p, name, n),
        None => None,
    }
}

impl GameObject {
    /// Gets the name of the game object.
    pub fn get_name<const N: usize>(&self, process: &Process, scene_manager: &SceneManager) -> (r:
        Result<ArrayCString<N>, Error>)
        ensures
            match r {
                Ok(s) => game_object_name_of(*process, *scene_manager, self.address.0, N as nat) == Some(s@),
                Err(_) => game_object_name_of(*process, *scene_manager, self.address.0, N as nat).is_none(),
            },
    {
        let name = match process.read_ptr(
            self.address.add(scene_manager.profile.game_object.name as u64),
            scene_manager.pointer_size,
        ) {
            Some(a) => a,
            None => return Err(Error {}),
        };
        read_cstring::<N>(process, name)
    }

    /// Lists the components attached to this game object past the first,
    /// which is always its transform.
    pub fn components(&self, process: &Process, scene_manager: &SceneManager) -> (r: Result<
        Vec<Component>,
        Error,
    >)
        ensures
            match r {
                Ok(v) => components_of(*process, *scene_manager, self.address.0) == Some(
                    v@.map_values(|c: Component| c.address.0),
                ),
                Err(_) => components_of(*process, *scene_manager, self.address.0).is_none(),
            },
    {
        let found = match read_components(process, scene_manager, self.address) {
            Some(v) => v,
            None => return Err(Error {}),
        };
        let mut out: Vec<Component> = Vec::new();
        let mut i: usize = 0;
        while i < found.len()
            invariant
                0 <= i <= found@.len(),
                out@.map_values(|c: Component| c.address.0) =~= found@.map_values(|a: Address| a.0).take(
                    i as int,
                ),
            decreases found@.len() - i,
        {
            let ghost before = out@;
            out.push(Component { address: found[i] });
            proof {
                assert(out@.map_values(|c: Component| c.address.0) =~= before.map_values(
                    |c: Component| c.address.0,
                ).push(found@[i as int].0));
            }
            i += 1;
        }
        proof {
            assert(found@.map_values(|a: Address| a.0).take(found@.len() as int) =~= found@.map_values(
                |a: Address| a.0,
            ));
        }
        Ok(out)
    }

    /// The managed objects the components of this game object hold.
    pub open spec fn objects_of(self, p: Process, sm: SceneManager) -> Option<Seq<u64>> {
        match components_of(p, sm, self.address.0) {
            Some(c) => Some(managed_objects(p, sm, c)),
            None => None,
        }
    }

    /// Gets the managed object of a component attached to this game object
    /// by the name of its class, as the runtime's walk reads it.
    pub fn get_component_object(&self, process: &Process, scene_manager: &SceneManager, walk: &Walk, name: &str) -> (r:
        Result<Address, Error>)
        ensures
            match r {
                Ok(a) => self.objects_of(*process, *scene_manager) matches Some(objects) && seq_first(
                    objects,
                    |o: u64| class_named(*process, *walk, o, name.spec_bytes()),
                ) == Some(a.0),
                Err(_) => match self.objects_of(*process, *scene_manager) {
                    Some(objects) => seq_first(
                        objects,
                        |o: u64| class_named(*process, *walk, o, name.spec_bytes()),
                    ).is_none(),
                    None => true,
                },
            },
    {
        let components = match read_components(process, scene_manager, self.address) {
            Some(v) => v,
            None => return Err(Error {}),
        };
        let objects = read_managed_objects(process, scene_manager, &components);
        match find_class_named(process, walk, &objects, name) {
            Some(a) => Ok(a),
            None => Err(Error {}),
        }
    }

    /// Gets a component attached to this game object by the name of its
    /// managed object's class, on a game using the Mono backend.
    pub fn get_component_mono(&self, process: &Process, scene_manager: &SceneManager, module: &mono::Module, name: &str) -> (r:
        Result<Component, Error>)
        ensures
            match r {
                Ok(c) => components_of(*process, *scene_manager, self.address.0) matches Some(components)
                    && seq_first(
                    components,
                    |c: u64| component_named(*process, *scene_manager, mono::walk_of(*module), c, name.spec_bytes()),
                ) == Some(c.address.0),
                Err(_) => match components_of(*process, *scene_manager, self.address.0) {
                    Some(components) => seq_first(
                        components,
                        |c: u64| component_named(*process, *scene_manager, mono::walk_of(*module), c, name.spec_bytes()),
                    ).is_none(),
                    None => true,
                },
            },
    {
        let components = match read_components(process, scene_manager, self.address) {
            Some(v) => v,
            None => return Err(Error {}),
        };
        let walk = module.walk();
        match find_component_named(process, scene_manager, &walk, &components, name) {
            Some(a) => Ok(Component { address: a }),
            None => Err(Error {}),
        }
    }

    /// Gets the managed object of a component attached to this game object
    /// by the name of its class, on a game using the Mono backend.
    pub fn get_component_mono_object(&self, process: &Process, scene_manager: &SceneManager, module: &mono::Module, name: &str) -> (r:
        Result<Address, Error>)
        ensures
            match r {
                Ok(a) => self.objects_of(*process, *scene_manager) matches Some(objects) && seq_first(
                    objects,
                    |o: u64| class_named(*process, mono::walk_of(*module), o, name.spec_bytes()),
                ) == Some(a.0),
                Err(_) => match self.objects_of(*process, *scene_manager) {
                    Some(objects) => seq_first(
                        objects,
                        |o: u64| class_named(*process, mono::walk_of(*module), o, name.spec_bytes()),
                    ).is_none(),
                    None => true,
                },
            },
    {
        let walk = module.walk();
        self.get_component_object(process, scene_manager, &walk, name)
    }

    /// Tries to find the base address of the managed object of a component
    /// by the name of its class, on a game using the IL2CPP backend.
    pub fn get_class_il2cpp(&self, process: &Process, scene_manager: &SceneManager, module: &il2cpp::Module, name: &str) -> (r:
        Result<Address, Error>)
        ensures
            match r {
                Ok(a) => self.objects_of(*process, *scene_manager) matches Some(objects) && seq_first(
                    objects,
                    |o: u64| class_named(*process, il2cpp::walk_of(*module), o, name.spec_bytes()),
                ) == Some(a.0),
                Err(_) => match self.objects_of(*process, *scene_manager) {
                    Some(objects) => seq_first(
                        objects,
                        |o: u64| class_named(*process, il2cpp::walk_of(*module), o, name.spec_bytes()),
                    ).is_none(),
                    None => true,
                },
            },
    {
        let walk = module.walk();
        self.get_component_object(process, scene_manager, &walk, name)
    }
}

} // verus!
