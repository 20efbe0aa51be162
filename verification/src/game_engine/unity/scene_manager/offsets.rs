//! The measured layout of a player's scene manager, scenes, transforms and
//! game objects.

use vstd::prelude::*;
use vstd::string::StringSliceAdditionalSpecFns;

use crate::primitives::PointerSize;

verus! {

/// How the scene manager global is found: the body of a function that loads
/// the global, with the displacement of the load masked out.
#[derive(Copy, Clone, Debug, PartialEq, Eq, Structural)]
pub enum Anchor {
    /// A function that loads the global into r13 or r14 right after its
    /// prologue. It hits once on every player from Unity 2017.4 through
    /// 2023.1.
    PrologueLoadX64,
    /// The scene count getter of Unity 6: it loads the global into rax and
    /// reads the count at 0x18.
    SceneCountGetterX64,
    /// A function that loads the global into eax, then pushes ebx, clears it
    /// and stores eax in a local. It hits once on every player from Unity
    /// 2017.4 through 2021.3.
    LoadAndClearX86,
    /// The active scene getter of Unity 2022.3 and 2023.1: it loads the
    /// global into eax and reads the active scene at 0x28.
    ActiveSceneGetterX86,
    /// The scene at index getter of Unity 6: it loads the global into eax
    /// and compares the index with the scene count at 0x10.
    SceneAtGetterX86,
    /// The function the Linux and Mac x64 players load the global with.
    PushesThenLoadX64,
    /// The head of the function that tears the manager down on Unity 5.6,
    /// whose engine is linked into the game's own executable: the load of
    /// the global into ecx, a null check, a virtual call, and the 0x58 bytes
    /// it frees, which tell it apart from the other teardowns sharing the
    /// same head.
    TeardownHeadX86,
}

/// The written pattern of an anchor.
pub open spec fn anchor_pattern(a: Anchor) -> Seq<u8> {
    match a {
        Anchor::PrologueLoadX64 => "48 83 EC 20 4C 8B ?5 ?? ?? ?? ?? 33 F6".spec_bytes(),
        Anchor::SceneCountGetterX64 => "48 8B 05 ?? ?? ?? ?? 8B 40 18 C3 ?? ??".spec_bytes(),
        Anchor::LoadAndClearX86 => "A1 ?? ?? ?? ?? 53 33 DB 89 45 FC ?? ??".spec_bytes(),
        Anchor::ActiveSceneGetterX86 => "A1 ?? ?? ?? ?? 8B 48 28 ?? ?? ?? ?? ??".spec_bytes(),
        Anchor::SceneAtGetterX86 => "A1 ?? ?? ?? ?? 3B 50 10 ?? ?? ?? ?? ??".spec_bytes(),
        Anchor::PushesThenLoadX64 => "41 54 53 50 4C 8B ?5 ?? ?? ?? ?? 41 83".spec_bytes(),
        Anchor::TeardownHeadX86 => "8B 0D ?? ?? ?? ?? 56 8B F1 85 C9 74 08 8B 01 8B 10 6A 00 FF D2 6A 58 56".spec_bytes(),
    }
}

/// Where inside a match of an anchor the displacement of the load starts.
pub open spec fn anchor_displacement(a: Anchor) -> u8 {
    match a {
        Anchor::PrologueLoadX64 => 7,
        Anchor::SceneCountGetterX64 => 3,
        Anchor::LoadAndClearX86 => 1,
        Anchor::ActiveSceneGetterX86 => 1,
        Anchor::SceneAtGetterX86 => 1,
        Anchor::PushesThenLoadX64 => 7,
        Anchor::TeardownHeadX86 => 2,
    }
}

impl Anchor {
    /// The written pattern of the anchor.
    pub fn pattern(self) -> (s: &'static str)
        ensures
            s.spec_bytes() == anchor_pattern(self),
    {
        match self {
            Anchor::PrologueLoadX64 => "48 83 EC 20 4C 8B ?5 ?? ?? ?? ?? 33 F6",
            Anchor::SceneCountGetterX64 => "48 8B 05 ?? ?? ?? ?? 8B 40 18 C3 ?? ??",
            Anchor::LoadAndClearX86 => "A1 ?? ?? ?? ?? 53 33 DB 89 45 FC ?? ??",
            Anchor::ActiveSceneGetterX86 => "A1 ?? ?? ?? ?? 8B 48 28 ?? ?? ?? ?? ??",
            Anchor::SceneAtGetterX86 => "A1 ?? ?? ?? ?? 3B 50 10 ?? ?? ?? ?? ??",
            Anchor::PushesThenLoadX64 => "41 54 53 50 4C 8B ?5 ?? ?? ?? ?? 41 83",
            Anchor::TeardownHeadX86 => "8B 0D ?? ?? ?? ?? 56 8B F1 85 C9 74 08 8B 01 8B 10 6A 00 FF D2 6A 58 56",
        }
    }

    /// Where inside a match the displacement of the load starts.
    pub fn displacement(self) -> (d: u8)
        ensures
            d == anchor_displacement(self),
    {
        match self {
            Anchor::PrologueLoadX64 => 7,
            Anchor::SceneCountGetterX64 => 3,
            Anchor::LoadAndClearX86 => 1,
            Anchor::ActiveSceneGetterX86 => 1,
            Anchor::SceneAtGetterX86 => 1,
            Anchor::PushesThenLoadX64 => 7,
            Anchor::TeardownHeadX86 => 2,
        }
    }
}

/// How a scene keeps its path in the 32 bytes of its path field.
#[derive(Copy, Clone, Debug, PartialEq, Eq, Structural)]
pub enum PathShape {
    /// A pointer to the characters.
    Pointer,
    /// A path of up to 31 characters sits inline, with a NUL after it. A
    /// longer path sits behind a pointer, followed by its length and its
    /// capacity.
    InlineNul,
    /// Like [`InlineNul`](Self::InlineNul), but the last byte of the field
    /// holds 31 minus the length while the path is inline.
    InlineSpare,
}

/// How a component's managed reference leads to its managed object.
#[derive(Copy, Clone, Debug, PartialEq, Eq, Structural)]
pub enum ReferenceShape {
    /// The reference holds the managed object itself.
    CachedObject,
    /// The reference points at a slot that holds the managed object.
    RootSlot,
}

/// The members of `RuntimeSceneManager` the walk reads. The loaded scenes
/// are a dynamic array, with the pointer to the scenes at `scenes` and the
/// count two pointers after it. The `DontDestroyOnLoad` scene is embedded in
/// the manager by value.
#[derive(Copy, Clone, Debug, PartialEq, Eq, Structural)]
pub struct ManagerOffsets {
    /// The loaded scenes.
    pub scenes: u8,
    /// The active scene.
    pub active_scene: u8,
    /// The embedded `DontDestroyOnLoad` scene.
    pub dont_destroy_on_load_scene: u8,
}

/// The members of `UnityScene` the walk reads. The roots are a circular list
/// whose head is embedded in the scene at `roots`.
#[derive(Copy, Clone, Debug, PartialEq, Eq, Structural)]
pub struct SceneOffsets {
    /// The 32-byte path field.
    pub path: u8,
    /// The build index.
    pub build_index: u8,
    /// The head of the root list.
    pub roots: u16,
}

/// The members of `Transform` the walk reads. The game object is a member of
/// the `Component` base. The children are a dynamic array of transforms.
#[derive(Copy, Clone, Debug, PartialEq, Eq, Structural)]
pub struct TransformOffsets {
    /// The game object.
    pub game_object: u8,
    /// The children.
    pub children: u8,
}

/// The members of `GameObject` the walk reads. The components are a dynamic
/// array of pairs, each a type index and a pointer to the component.
#[derive(Copy, Clone, Debug, PartialEq, Eq, Structural)]
pub struct GameObjectOffsets {
    /// The components.
    pub components: u8,
    /// The name pointer.
    pub name: u8,
}

/// The members of `Object` the walk reads, which every component starts
/// with. The managed reference leads to the managed object of the component.
#[derive(Copy, Clone, Debug, PartialEq, Eq, Structural)]
pub struct ObjectOffsets {
    /// The managed reference.
    pub managed_reference: u8,
}

/// Everything the walk needs to know about one player: its pointer size, how
/// the scene manager is found, how a scene keeps its path, how a component
/// reaches its managed object, and the offsets of the engine structs.
#[derive(Copy, Clone, Debug, PartialEq, Eq, Structural)]
pub struct Profile {
    /// The pointer width of the player.
    pub pointer_size: PointerSize,
    /// How the scene manager global is found.
    pub anchor: Anchor,
    /// How a scene keeps its path.
    pub path: PathShape,
    /// How a component reaches its managed object.
    pub reference: ReferenceShape,
    /// Offsets within the scene manager.
    pub manager: ManagerOffsets,
    /// Offsets within a scene.
    pub scene: SceneOffsets,
    /// Offsets within a transform.
    pub transform: TransformOffsets,
    /// Offsets within a game object.
    pub game_object: GameObjectOffsets,
    /// Offsets within an object.
    pub object: ObjectOffsets,
}

} // verus!
