//! Support for identifying the current scene in Unity games.
//!
//! The offsets come from the measured builds in [`builds`]. The walk over
//! transforms and game objects follows the layout the engine gives them.

use vstd::prelude::*;
use vstd::string::StringSliceAdditionalSpecFns;

pub mod builds;
pub mod game_object;
pub mod offsets;
pub mod scene;
pub mod transform;

pub use game_object::{Component, GameObject};
pub use offsets::{Anchor, PathShape, Profile, ReferenceShape};
pub use scene::Scene;
pub use transform::Transform;

use transform::{find_named, transform_named};

use builds::{elf_and_macho_x64, elf_and_macho_x64_layout, nearest, nearest_build};
use offsets::{anchor_displacement, anchor_pattern};
use super::BinaryFormat;
use crate::file_format::elf::elf_pointer_size;
use crate::file_format::macho::macho_pointer_size;
use crate::file_format::pe::{file_version, machine, pointer_size_of, size_of_image};
use crate::file_format::{elf, macho, pe};
use crate::primitives::{wrap_add, Address, PointerSize};
use crate::process::{Error, Process};
use crate::signature::{pattern_scan, Signature};
use crate::string::ArrayCString;
use crate::text::{seq_first, last_index, first_index, find_byte, rfind_byte, lemma_first_index, lemma_last_index};

verus! {

/// The scene manager allows you to easily identify the current scene loaded
/// in the attached Unity game.
///
/// It can be useful to identify splitting conditions or as an alternative to
/// the traditional class lookup in games with no useful static references.
#[derive(Copy, Clone, Debug)]
pub struct SceneManager {
    /// The pointer width of the game.
    pub pointer_size: PointerSize,
    /// Where the scene manager lives.
    pub address: Address,
    /// The layout the scene manager is read with.
    pub profile: Profile,
}

/// The module holding the engine: `UnityPlayer.dll` and its Linux and Mac
/// siblings, or else the game's own executable, which linked the engine in
/// on Unity 5.6, when it has a readable PE header.
pub open spec fn engine_module_of(p: Process) -> Option<((Address, u64), BinaryFormat)> {
    let dll = match p.module_named("UnityPlayer.dll".spec_bytes()) {
        Some(m) => match size_of_image(p, m.base) {
            Some(size) => Some(((Address(m.base), size as u64), BinaryFormat::PE)),
            None => None,
        },
        None => None,
    };
    let so = match p.module_named("UnityPlayer.so".spec_bytes()) {
        Some(m) => Some(((Address(m.base), m.size), BinaryFormat::ELF)),
        None => None,
    };
    let dylib = match p.module_named("UnityPlayer.dylib".spec_bytes()) {
        Some(m) => Some(((Address(m.base), m.size), BinaryFormat::MachO)),
        None => None,
    };
    let executable = if p.modules@.len() > 0 && machine(p, p.modules@[0].base) is Some {
        Some(((Address(p.modules@[0].base), p.modules@[0].size), BinaryFormat::PE))
    } else {
        None
    };
    if dll is Some {
        dll
    } else if so is Some {
        so
    } else if dylib is Some {
        dylib
    } else {
        executable
    }
}

/// The four parts of the file version of the engine module.
pub open spec fn unity_version_at(p: Process, base: u64) -> Option<(u16, u16, u16, u16)> {
    match file_version(p, base) {
        Some(v) => Some((v.major_version, v.minor_version, v.build_part, v.private_part)),
        None => None,
    }
}

/// The layout an engine module is read with: on Windows the measured build
/// nearest its Unity version, elsewhere the one x64 layout.
pub open spec fn profile_for(p: Process, player: (Address, u64), format: BinaryFormat) -> Option<Profile> {
    match format {
        BinaryFormat::PE => match pointer_size_of(p, player.0.0) {
            None => None,
            Some(ps) => match unity_version_at(p, player.0.0) {
                None => None,
                Some(unity) => match nearest_build(unity, ps) {
                    Some(b) => Some(b.profile),
                    None => None,
                },
            },
        },
        BinaryFormat::ELF => if elf_pointer_size(p, player.0.0) == Some(PointerSize::Bit64) {
            Some(elf_and_macho_x64_layout())
        } else {
            None
        },
        BinaryFormat::MachO => if macho_pointer_size(p, player.0.0) == Some(PointerSize::Bit64) {
            Some(elf_and_macho_x64_layout())
        } else {
            None
        },
    }
}

/// The global a match of the anchor names: relative to the next instruction
/// on x64, absolute on x86.
pub open spec fn anchor_global(p: Process, profile: Profile, hit: u64) -> Option<u64> {
    let at = wrap_add(hit, anchor_displacement(profile.anchor) as int);
    match profile.pointer_size {
        PointerSize::Bit64 => match p.mem_i32(at) {
            Some(offset) => Some(wrap_add(wrap_add(at, 4), offset as int)),
            None => None,
        },
        _ => match p.mem_u32(at) {
            Some(v) => Some(v as u64),
            None => None,
        },
    }
}

/// The scene manager found in an engine module through the anchor of a
/// profile: every match of the anchor must name the same global, and the
/// global must hold the manager.
pub open spec fn attach_with_of(p: Process, module: (Address, u64), profile: Profile) -> Option<SceneManager> {
    let hits = pattern_scan(p, anchor_pattern(profile.anchor), module.0.0, module.1);
    if hits.len() == 0 {
        None
    } else {
        match anchor_global(p, profile, hits[0] as u64) {
            None => None,
            Some(global) => if forall|i: int|
                1 <= i < hits.len() ==> anchor_global(p, profile, #[trigger] hits[i] as u64) == Some(
                    global,
                ) {
                match p.mem_nonnull(global, profile.pointer_size) {
                    Some(a) => Some(
                        SceneManager { pointer_size: profile.pointer_size, address: Address(a), profile },
                    ),
                    None => None,
                }
            } else {
                None
            },
        }
    }
}

/// The scene manager of a process.
pub open spec fn attach_of(p: Process) -> Option<SceneManager> {
    match engine_module_of(p) {
        None => None,
        Some((player, format)) => match profile_for(p, player, format) {
            Some(profile) => attach_with_of(p, player, profile),
            None => None,
        },
    }
}

/// The name of a scene, from its path: what follows the last `/`, up to the
/// first `.` after it.
pub open spec fn scene_name(path: Seq<u8>) -> Seq<u8> {
    let file = match last_index(path, 0x2F) {
        Some(i) => path.subrange(i + 1, path.len() as int),
        None => path,
    };
    match first_index(file, 0x2E) {
        Some(j) => file.take(j),
        None => file,
    }
}

/// A scene's name is a bare file name: it holds no `/`, and no `.`.
pub proof fn lemma_scene_names_hold_no_separator(path: Seq<u8>)
    ensures
        !scene_name(path).contains(0x2F),
        !scene_name(path).contains(0x2E),
{
    lemma_last_index(path, 0x2F);
    let file = match last_index(path, 0x2F) {
        Some(i) => path.subrange(i + 1, path.len() as int),
        None => path,
    };
    assert forall|k: int| 0 <= k < file.len() implies file[k] != 0x2F by {
        if let Some(i) = last_index(path, 0x2F) {
            assert(file[k] == path[i + 1 + k]);
        }
    }
    lemma_first_index(file, 0x2E);
    let name = scene_name(path);
    assert forall|k: int| 0 <= k < name.len() implies name[k] != 0x2F && name[k] != 0x2E by {
        assert(name[k] == file[k]);
    }
}

/// A scene's name is the file name in its path, cut at its first `.`: it
/// sits in the path right after the path's last `/` (or at its start when
/// there is none), and is followed by the end of the path or a `.`.
pub proof fn lemma_scene_names_are_the_file_name(path: Seq<u8>)
    ensures
        exists|i: int|
            #![trigger path.subrange(i, i + scene_name(path).len())]
            0 <= i && i + scene_name(path).len() <= path.len() && path.subrange(
                i,
                i + scene_name(path).len(),
            ) == scene_name(path) && (i == 0 || path[i - 1] == 0x2F) && (forall|j: int|
                i <= j < path.len() ==> path[j] != 0x2F) && (i + scene_name(path).len() == path.len()
                || path[i + scene_name(path).len()] == 0x2E),
{
    lemma_last_index(path, 0x2F);
    let i = match last_index(path, 0x2F) {
        Some(k) => k + 1,
        None => 0,
    };
    let file = path.subrange(i, path.len() as int);
    assert(match last_index(path, 0x2F) {
        Some(k) => path.subrange(k + 1, path.len() as int),
        None => path,
    } =~= file);
    lemma_first_index(file, 0x2E);
    let name = scene_name(path);
    assert(path.subrange(i, i + name.len()) =~= name);
    if i + name.len() < path.len() {
        assert(path[i + name.len()] == file[name.len() as int]);
    }
}

/// The global one match of the anchor names.
fn read_anchor_global(process: &Process, profile: Profile, hit: Address) -> (r: Option<u64>)
    ensures
        r == anchor_global(*process, profile, hit.0),
{
    let at = hit.add(profile.anchor.displacement() as u64);
    match profile.pointer_size {
        PointerSize::Bit64 => {
            let offset = process.read_i32(at)?;
            Some(at.add(4).add_signed(offset as i64).0)
        },
        _ => {
            let v = process.read_u32(at)?;
            Some(v as u64)
        },
    }
}

impl SceneManager {
    /// Attaches to the scene manager in the given process. On Windows, the
    /// Unity version of the game picks the measured build whose offsets the
    /// scene manager reads through: the build of that version, or else the
    /// newest build below it.
    pub fn attach(process: &Process) -> (r: Option<Self>)
        ensures
            r == attach_of(*process),
    {
        let (unity_player, format) = Self::engine_module(process)?;
        let profile = match format {
            BinaryFormat::PE => {
                let pointer_size = pe::read_pointer_size(process, unity_player.0)?;
                let unity = Self::unity_version(process, unity_player.0)?;
                let build = nearest(unity, pointer_size)?;
                build.profile
            },
            BinaryFormat::ELF => match elf::pointer_size(process, unity_player.0)? {
                PointerSize::Bit64 => elf_and_macho_x64(),
                _ => return None,
            },
            BinaryFormat::MachO => match macho::pointer_size(process, unity_player.0)? {
                PointerSize::Bit64 => elf_and_macho_x64(),
                _ => return None,
            },
        };
        Self::attach_with(process, unity_player, profile)
    }

    /// Finds the module that holds the engine: `UnityPlayer.dll` and its
    /// Linux and Mac siblings, or the game's own executable on Unity 5.6,
    /// which linked the engine in.
    pub fn engine_module(process: &Process) -> (r: Option<((Address, u64), BinaryFormat)>)
        ensures
            r == engine_module_of(*process),
    {
        if let Ok(address) = process.get_module_address("UnityPlayer.dll") {
            if let Some(size) = pe::read_size_of_image(process, address) {
                return Some(((address, size as u64), BinaryFormat::PE));
            }
        }
        if let Ok(range) = process.get_module_range("UnityPlayer.so") {
            return Some((range, BinaryFormat::ELF));
        }
        if let Ok(range) = process.get_module_range("UnityPlayer.dylib") {
            return Some((range, BinaryFormat::MachO));
        }
        let executable = match process.get_main_module_range() {
            Ok(range) => range,
            Err(_) => return None,
        };
        pe::read_machine(process, executable.0)?;
        Some((executable, BinaryFormat::PE))
    }

    /// Reads the four parts of the file version of the engine module, which
    /// name the Unity version of the game.
    pub fn unity_version(process: &Process, unity_player: Address) -> (r: Option<(u16, u16, u16, u16)>)
        ensures
            r == unity_version_at(*process, unity_player.0),
    {
        let file_version = pe::FileVersion::read(process, unity_player)?;
        Some(
            (
                file_version.major_version,
                file_version.minor_version,
                file_version.build_part,
                file_version.private_part,
            ),
        )
    }

    /// Finds the scene manager in the engine module through the anchor of
    /// the profile. Every match of the anchor must name the same global,
    /// and the global must hold the manager.
    #[verifier::loop_isolation(false)]
    pub fn attach_with(process: &Process, unity_player: (Address, u64), profile: Profile) -> (r:
        Option<Self>)
        ensures
            r == attach_with_of(*process, unity_player, profile),
    {
        let signature = Signature::new(profile.anchor.pattern());
        let hits = signature.scan_all(process, unity_player);
        let ghost all = hits@.map_values(|a: Address| a.0 as int);
        if hits.len() == 0 {
            return None;
        }
        proof {
            assert(all[0] == hits@[0].0 as int);
        }
        let global = read_anchor_global(process, profile, hits[0])?;
        let mut i: usize = 1;
        while i < hits.len()
            invariant
                1 <= i <= hits@.len(),
                all == hits@.map_values(|a: Address| a.0 as int),
                forall|j: int| 1 <= j < i ==> anchor_global(*process, profile, #[trigger] all[j] as u64) == Some(global),
            decreases hits@.len() - i,
        {
            let other = read_anchor_global(process, profile, hits[i]);
            proof {
                assert(all[i as int] == hits@[i as int].0 as int);
            }
            match other {
                Some(g) => if g != global {
                    assert(anchor_global(*process, profile, all[i as int] as u64) != Some(global));
                    return None;
                },
                None => {
                    assert(anchor_global(*process, profile, all[i as int] as u64) != Some(global));
                    return None;
                },
            }
            i += 1;
        }
        // Dereferencing one level, because this pointer never changes as
        // long as the game is open.
        let address = process.read_nonnull(Address(global), profile.pointer_size)?;
        Some(SceneManager { pointer_size: profile.pointer_size, address, profile })
    }

    /// Tries to retrieve the current active scene.
    pub fn get_current_scene(&self, process: &Process) -> (r: Result<Scene, Error>)
        ensures
            match r {
                Ok(s) => process.mem_nonnull(
                    wrap_add(self.address.0, self.profile.manager.active_scene as int),
                    self.pointer_size,
                ) == Some(s.address.0),
                Err(_) => process.mem_nonnull(
                    wrap_add(self.address.0, self.profile.manager.active_scene as int),
                    self.pointer_size,
                ).is_none(),
            },
    {
        match process.read_nonnull(self.address.add(self.profile.manager.active_scene as u64), self.pointer_size) {
            Some(address) => Ok(Scene { address }),
            None => Err(Error {}),
        }
    }

    /// `DontDestroyOnLoad` is a special Unity scene containing game objects
    /// that must be preserved when switching between different scenes (eg. a
    /// `scene1` starting some background music that continues when `scene2`
    /// loads). It is embedded in the scene manager.
    pub fn get_dont_destroy_on_load_scene(&self) -> (s: Scene)
        ensures
            s.address.0 == wrap_add(self.address.0, self.profile.manager.dont_destroy_on_load_scene as int),
    {
        Scene { address: self.address.add(self.profile.manager.dont_destroy_on_load_scene as u64) }
    }

    /// Returns the current scene index.
    ///
    /// The value returned is an [`i32`] because some games will show `-1` as
    /// their current scene until fully initialized.
    pub fn get_current_scene_index(&self, process: &Process) -> (r: Result<i32, Error>)
        ensures
            match r {
                Ok(i) => process.mem_nonnull(
                    wrap_add(self.address.0, self.profile.manager.active_scene as int),
                    self.pointer_size,
                ) matches Some(scene) && process.mem_i32(
                    wrap_add(scene, self.profile.scene.build_index as int),
                ) == Some(i),
                Err(_) => match process.mem_nonnull(
                    wrap_add(self.address.0, self.profile.manager.active_scene as int),
                    self.pointer_size,
                ) {
                    Some(scene) => process.mem_i32(
                        wrap_add(scene, self.profile.scene.build_index as int),
                    ).is_none(),
                    None => true,
                },
            },
    {
        let scene = self.get_current_scene(process)?;
        scene.index(process, self)
    }

    /// Returns the full path to the current scene. Use [`get_name`]
    /// afterwards to get the scene name.
    pub fn get_current_scene_path<const N: usize>(&self, process: &Process) -> (r: Result<
        ArrayCString<N>,
        Error,
    >)
        ensures
            match r {
                Ok(s) => process.mem_nonnull(
                    wrap_add(self.address.0, self.profile.manager.active_scene as int),
                    self.pointer_size,
                ) matches Some(scene) && scene::path_of(*process, *self, scene, N as nat) == Some(s@),
                Err(_) => match process.mem_nonnull(
                    wrap_add(self.address.0, self.profile.manager.active_scene as int),
                    self.pointer_size,
                ) {
                    Some(scene) => scene::path_of(*process, *self, scene, N as nat).is_none(),
                    None => true,
                },
            },
    {
        let scene = self.get_current_scene(process)?;
        scene.path::<N>(process, self)
    }

    /// Where the loaded scenes are: a dynamic array, the pointer to the
    /// scenes first, the allocation label next, then the count.
    pub open spec fn loaded_scenes(self) -> u64 {
        wrap_add(self.address.0, self.profile.manager.scenes as int)
    }

    /// Where the count of the loaded scenes sits.
    pub open spec fn scene_count_at(self) -> u64 {
        wrap_add(self.loaded_scenes(), 2 * self.pointer_size.width() as int)
    }

    /// Returns the number of currently loaded scenes in the attached game.
    pub fn get_scene_count(&self, process: &Process) -> (r: Result<u32, Error>)
        ensures
            match r {
                Ok(n) => process.mem_u32(self.scene_count_at()) == Some(n),
                Err(_) => process.mem_u32(self.scene_count_at()).is_none(),
            },
    {
        let at = self.address.add(self.profile.manager.scenes as u64).add(2 * self.pointer_size.bytes());
        match process.read_u32(at) {
            Some(n) => Ok(n),
            None => Err(Error {}),
        }
    }

    /// The loaded scenes, in the order the manager keeps them: each
    /// readable, non-null pointer among the counted ones. An unreadable
    /// array or count reads as none.
    pub open spec fn scenes_of(self, p: Process) -> Seq<u64> {
        let array = match p.mem_ptr(self.loaded_scenes(), self.pointer_size) {
            Some(a) => a,
            None => 0,
        };
        let count: u32 = match p.mem_u32(self.scene_count_at()) {
            Some(n) => n,
            None => 0,
        };
        scene_slots(p, self.pointer_size, array, count as nat, 0)
    }

    /// Lists all the currently loaded scenes in the attached game.
    pub fn scenes(&self, process: &Process) -> (r: Vec<Scene>)
        ensures
            r@.map_values(|s: Scene| s.address.0) == self.scenes_of(*process),
    {
        let array = match process.read_ptr(self.address.add(self.profile.manager.scenes as u64), self.pointer_size) {
            Some(a) => a,
            None => Address(0),
        };
        let count = match self.get_scene_count(process) {
            Ok(n) => n,
            Err(_) => 0,
        };
        let mut found: Vec<Scene> = Vec::new();
        let mut index: u32 = 0;
        while index < count
            invariant
                0 <= index <= count,
                found@.map_values(|s: Scene| s.address.0) + scene_slots(
                    *process,
                    self.pointer_size,
                    array.0,
                    count as nat,
                    index as nat,
                ) == scene_slots(*process, self.pointer_size, array.0, count as nat, 0),
            decreases count - index,
        {
            let ghost before = found@;
            let at = array.add((index as u64).wrapping_mul(self.pointer_size.bytes()));
            proof {
                assert(at.0 == slot_of(array.0, self.pointer_size, index as nat));
            }
            if let Some(address) = process.read_nonnull(at, self.pointer_size) {
                found.push(Scene { address });
                proof {
                    assert(found@.map_values(|s: Scene| s.address.0) =~= before.map_values(
                        |s: Scene| s.address.0,
                    ).push(address.0));
                    assert(before.map_values(|s: Scene| s.address.0).push(address.0) + scene_slots(
                        *process,
                        self.pointer_size,
                        array.0,
                        count as nat,
                        (index + 1) as nat,
                    ) =~= before.map_values(|s: Scene| s.address.0) + (seq![address.0] + scene_slots(
                        *process,
                        self.pointer_size,
                        array.0,
                        count as nat,
                        (index + 1) as nat,
                    )));
                }
            }
            index += 1;
        }
        proof {
            assert(found@.map_values(|s: Scene| s.address.0) + Seq::<u64>::empty()
                =~= found@.map_values(|s: Scene| s.address.0));
        }
        found
    }
}

/// The bound on how many nodes a walk over a root list visits.
pub open spec fn roots_fuel() -> nat {
    0xFFFF_FFFF_FFFF_FFFF
}

/// The transforms of a root list's nodes from `node` on: each node keeps
/// `prev` first, `next` second, and its transform after those. The walk
/// ends back at the head, at a null link, at a node whose transform cannot
/// be read or is null, and after a node whose link cannot be read.
pub open spec fn roots_walk(p: Process, ps: PointerSize, head: u64, node: u64, fuel: nat) -> Seq<u64>
    decreases fuel,
{
    if fuel == 0 || node == 0 || node == head {
        Seq::empty()
    } else {
        match p.mem_nonnull(wrap_add(node, 2 * ps.width() as int), ps) {
            None => Seq::empty(),
            Some(t) => seq![t] + match p.mem_ptr(wrap_add(node, ps.width() as int), ps) {
                Some(next) => roots_walk(p, ps, head, next, (fuel - 1) as nat),
                None => Seq::empty(),
            },
        }
    }
}

impl SceneManager {
    /// The root transforms of the scene at `scene`, first to last: the
    /// roots are a circular list whose head is embedded in the scene.
    pub open spec fn roots_of(self, p: Process, scene: u64) -> Seq<u64> {
        let head = wrap_add(scene, self.profile.scene.roots as int);
        match p.mem_ptr(wrap_add(head, self.pointer_size.width() as int), self.pointer_size) {
            Some(first) => roots_walk(p, self.pointer_size, head, first, roots_fuel()),
            None => Seq::empty(),
        }
    }

    /// Lists the root [`Transform`]s of the given scene, first to last.
    ///
    /// Each Unity scene normally has a linked list of [`Transform`]s. Each
    /// one can, recursively, have one or more children [`Transform`]s (and
    /// so on), as well as a list of components, which are classes (eg.
    /// `MonoBehaviour`) containing data we might want to retrieve for the
    /// auto splitter logic.
    pub fn root_game_objects(&self, process: &Process, scene: &Scene) -> (r: Vec<Transform>)
        ensures
            r@.map_values(|t: Transform| t.address.0) == self.roots_of(*process, scene.address.0),
    {
        let ps = self.pointer_size;
        let w = ps.bytes();
        let head = scene.address.add(self.profile.scene.roots as u64);
        let mut found: Vec<Transform> = Vec::new();
        let first = match process.read_ptr(head.add(w), ps) {
            Some(a) => a,
            None => return found,
        };
        let ghost whole = roots_walk(*process, ps, head.0, first.0, roots_fuel());
        let mut node = first;
        let mut fuel: u64 = 0xFFFF_FFFF_FFFF_FFFF;
        loop
            invariant
                w == ps.width(),
                whole == self.roots_of(*process, scene.address.0),
                found@.map_values(|t: Transform| t.address.0) + roots_walk(
                    *process,
                    ps,
                    head.0,
                    node.0,
                    fuel as nat,
                ) == whole,
            decreases fuel,
        {
            if fuel == 0 || node.0 == 0 || node.0 == head.0 {
                proof {
                    assert(found@.map_values(|t: Transform| t.address.0) + Seq::<u64>::empty()
                        =~= found@.map_values(|t: Transform| t.address.0));
                }
                return found;
            }
            let ghost before = found@;
            let transform = match process.read_nonnull(node.add(2 * w), ps) {
                Some(t) => t,
                None => {
                    proof {
                        assert(found@.map_values(|t: Transform| t.address.0) + Seq::<u64>::empty()
                            =~= found@.map_values(|t: Transform| t.address.0));
                    }
                    return found;
                },
            };
            found.push(Transform { address: transform });
            proof {
                assert(found@.map_values(|t: Transform| t.address.0) =~= before.map_values(
                    |t: Transform| t.address.0,
                ).push(transform.0));
            }
            match process.read_ptr(node.add(w), ps) {
                Some(next) => {
                    proof {
                        assert(before.map_values(|t: Transform| t.address.0).push(transform.0)
                            + roots_walk(*process, ps, head.0, next.0, (fuel - 1) as nat)
                            =~= before.map_values(|t: Transform| t.address.0) + (seq![transform.0]
                            + roots_walk(*process, ps, head.0, next.0, (fuel - 1) as nat)));
                    }
                    node = next;
                    fuel = fuel - 1;
                },
                None => {
                    proof {
                        assert(before.map_values(|t: Transform| t.address.0).push(transform.0)
                            =~= before.map_values(|t: Transform| t.address.0) + (seq![transform.0]
                            + Seq::<u64>::empty()));
                    }
                    return found;
                },
            }
        }
    }

    /// The root transform of the scene at `scene` carrying the given name.
    pub open spec fn named_root_of(self, p: Process, scene: u64, name: Seq<u8>) -> Option<u64> {
        seq_first(self.roots_of(p, scene), |t: u64| transform_named(p, self, t, name))
    }

    /// Finds the root transform of a scene carrying the given name.
    fn find_root(&self, process: &Process, scene: &Scene, name: &str) -> (r: Result<Transform, Error>)
        ensures
            match r {
                Ok(t) => self.named_root_of(*process, scene.address.0, name.spec_bytes()) == Some(
                    t.address.0,
                ),
                Err(_) => self.named_root_of(*process, scene.address.0, name.spec_bytes()).is_none(),
            },
    {
        let roots = self.root_game_objects(process, scene);
        let mut addresses: Vec<Address> = Vec::new();
        let mut i: usize = 0;
        while i < roots.len()
            invariant
                0 <= i <= roots@.len(),
                addresses@.map_values(|a: Address| a.0) =~= roots@.map_values(|t: Transform| t.address.0).take(
                    i as int,
                ),
            decreases roots@.len() - i,
        {
            let ghost before = addresses@;
            addresses.push(roots[i].address);
            proof {
                assert(addresses@.map_values(|a: Address| a.0) =~= before.map_values(|a: Address| a.0).push(
                    roots@[i as int].address.0,
                ));
            }
            i += 1;
        }
        proof {
            assert(roots@.map_values(|t: Transform| t.address.0).take(roots@.len() as int)
                =~= roots@.map_values(|t: Transform| t.address.0));
        }
        match find_named(process, self, &addresses, name) {
            Some(a) => Ok(Transform { address: a }),
            None => Err(Error {}),
        }
    }

    /// Tries to find the specified root [`Transform`] from the currently
    /// active Unity scene.
    pub fn get_root_game_object(&self, process: &Process, name: &str) -> (r: Result<Transform, Error>)
        ensures
            match r {
                Ok(t) => process.mem_nonnull(
                    wrap_add(self.address.0, self.profile.manager.active_scene as int),
                    self.pointer_size,
                ) matches Some(scene) && self.named_root_of(*process, scene, name.spec_bytes()) == Some(
                    t.address.0,
                ),
                Err(_) => match process.mem_nonnull(
                    wrap_add(self.address.0, self.profile.manager.active_scene as int),
                    self.pointer_size,
                ) {
                    Some(scene) => self.named_root_of(*process, scene, name.spec_bytes()).is_none(),
                    None => true,
                },
            },
    {
        let scene = self.get_current_scene(process)?;
        self.find_root(process, &scene, name)
    }

    /// Tries to find the specified root [`Transform`] from the
    /// `DontDestroyOnLoad` Unity scene.
    pub fn get_game_object_from_dont_destroy_on_load(&self, process: &Process, name: &str) -> (r:
        Result<Transform, Error>)
        ensures
            match r {
                Ok(t) => self.named_root_of(
                    *process,
                    wrap_add(self.address.0, self.profile.manager.dont_destroy_on_load_scene as int),
                    name.spec_bytes(),
                ) == Some(t.address.0),
                Err(_) => self.named_root_of(
                    *process,
                    wrap_add(self.address.0, self.profile.manager.dont_destroy_on_load_scene as int),
                    name.spec_bytes(),
                ).is_none(),
            },
    {
        let scene = self.get_dont_destroy_on_load_scene();
        self.find_root(process, &scene, name)
    }
}

/// The address of pointer slot `index` of an array, wrapping.
pub open spec fn slot_of(array: u64, ps: PointerSize, index: nat) -> u64 {
    wrap_add(array, ((index * ps.width()) % 0x1_0000_0000_0000_0000) as int)
}

/// The non-null pointers among slots `from` up to `count` of an array.
pub open spec fn scene_slots(p: Process, ps: PointerSize, array: u64, count: nat, from: nat) -> Seq<u64>
    decreases count - from,
{
    if from >= count {
        Seq::empty()
    } else {
        let rest = scene_slots(p, ps, array, count, from + 1);
        match p.mem_nonnull(slot_of(array, ps, from), ps) {
            Some(s) => seq![s] + rest,
            None => rest,
        }
    }
}

/// Returns the name of the scene from the given scene path, the same as
/// [`get_name`]: what follows the last `/`, up to the first `.` after it.
pub fn get_scene_name(scene_path: &[u8]) -> (r: Vec<u8>)
    ensures
        r@ == scene_name(scene_path@),
{
    get_name(scene_path)
}

/// Returns the name of the scene from the given scene path: what follows
/// the last `/`, up to the first `.` after it. The path is usually retrieved
/// from [`SceneManager::get_current_scene_path`].
pub fn get_name(scene_path: &[u8]) -> (r: Vec<u8>)
    ensures
        r@ == scene_name(scene_path@),
{
    let n = scene_path.len();
    proof {
        assert(scene_path@.take(n as int) =~= scene_path@);
    }
    proof {
        lemma_last_index(scene_path@, 0x2F);
    }
    let start = match rfind_byte(scene_path, n, 0x2F) {
        Some(i) => i + 1,
        None => 0,
    };
    let mut file: Vec<u8> = Vec::new();
    let mut k: usize = start;
    while k < n
        invariant
            start <= k <= n,
            n == scene_path@.len(),
            file@ =~= scene_path@.subrange(start as int, k as int),
        decreases n - k,
    {
        file.push(scene_path[k]);
        k += 1;
    }
    proof {
        if let Some(i) = last_index(scene_path@, 0x2F) {
            lemma_last_index(scene_path@, 0x2F);
        } else {
            assert(scene_path@.subrange(0, n as int) =~= scene_path@);
        }
    }
    proof {
        lemma_first_index(file@, 0x2E);
    }
    let end = match find_byte(file.as_slice(), 0x2E) {
        Some(j) => j,
        None => file.len(),
    };
    let mut name: Vec<u8> = Vec::new();
    let mut m: usize = 0;
    while m < end
        invariant
            0 <= m <= end,
            end <= file@.len(),
            name@ =~= file@.take(m as int),
        decreases end - m,
    {
        name.push(file[m]);
        m += 1;
    }
    proof {
        lemma_first_index(file@, 0x2E);
        if first_index(file@, 0x2E) is None {
            assert(file@.take(file@.len() as int) =~= file@);
        }
    }
    name
}

} // verus!
