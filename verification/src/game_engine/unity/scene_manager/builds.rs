//! Known Unity players and the layout of their scene manager, scenes,
//! transforms and game objects. Each entry is one player. The full
//! Unity version says which player. The offsets of the measured players were
//! read off the player's code through the functions its PDB names, and the
//! offsets and the shapes were checked against a running player with a known
//! scene. Unity 5.6 carries the layout of 2017.4.

use vstd::prelude::*;

use super::offsets::{
    Anchor, GameObjectOffsets, ManagerOffsets, ObjectOffsets, PathShape, Profile, ReferenceShape,
    SceneOffsets, TransformOffsets,
};
use crate::game_engine::unity::measured;
use crate::game_engine::unity::measured::{nearest_in, nearest_index, Player};
use crate::primitives::PointerSize;

verus! {

/// One measured Unity player and the layout of its scene manager.
#[derive(Copy, Clone, Debug)]
pub struct Build {
    /// The four parts of the player's file version.
    pub unity: (u16, u16, u16, u16),
    /// The layout measured on that player.
    pub profile: Profile,
}

/// A measured layout, member by member.
pub open spec fn layout(
    ps: PointerSize,
    anchor: Anchor,
    path: PathShape,
    reference: ReferenceShape,
    scenes: u8,
    active_scene: u8,
    dont_destroy_on_load_scene: u8,
    path_at: u8,
    build_index: u8,
    roots: u16,
    game_object: u8,
    children: u8,
    components: u8,
    name: u8,
    managed_reference: u8,
) -> Profile {
    Profile {
        pointer_size: ps,
        anchor,
        path,
        reference,
        manager: ManagerOffsets { scenes, active_scene, dont_destroy_on_load_scene },
        scene: SceneOffsets { path: path_at, build_index, roots },
        transform: TransformOffsets { game_object, children },
        game_object: GameObjectOffsets { components, name },
        object: ObjectOffsets { managed_reference },
    }
}

/// Builds a measured layout, member by member.
fn measured(
    ps: PointerSize,
    anchor: Anchor,
    path: PathShape,
    reference: ReferenceShape,
    scenes: u8,
    active_scene: u8,
    dont_destroy_on_load_scene: u8,
    path_at: u8,
    build_index: u8,
    roots: u16,
    game_object: u8,
    children: u8,
    components: u8,
    name: u8,
    managed_reference: u8,
) -> (p: Profile)
    ensures
        p == layout(
            ps,
            anchor,
            path,
            reference,
            scenes,
            active_scene,
            dont_destroy_on_load_scene,
            path_at,
            build_index,
            roots,
            game_object,
            children,
            components,
            name,
            managed_reference,
        ),
{
    Profile {
        pointer_size: ps,
        anchor,
        path,
        reference,
        manager: ManagerOffsets { scenes, active_scene, dont_destroy_on_load_scene },
        scene: SceneOffsets { path: path_at, build_index, roots },
        transform: TransformOffsets { game_object, children },
        game_object: GameObjectOffsets { components, name },
        object: ObjectOffsets { managed_reference },
    }
}

/// The measured players, from the oldest to the newest.
pub open spec fn build_table() -> Seq<Build> {
    seq![
        // Unity 5.6.7f1, x64: the layout of 2017.4.
        Build { unity: (5, 6, 7, 3267), profile: layout(PointerSize::Bit64, Anchor::PrologueLoadX64, PathShape::Pointer, ReferenceShape::CachedObject, 0x8, 0x48, 0x70, 0x10, 0x98, 0xb0, 0x30, 0x70, 0x30, 0x68, 0x28) },
        // Unity 5.6.7f1, x86: the layout of 2017.4, found through the
        // manager's teardown.
        Build { unity: (5, 6, 7, 3267), profile: layout(PointerSize::Bit32, Anchor::TeardownHeadX86, PathShape::Pointer, ReferenceShape::CachedObject, 0x8, 0x28, 0x40, 0xc, 0x70, 0x88, 0x1c, 0x50, 0x1c, 0x48, 0x18) },
        // Unity 2017.4.40f1, x64.
        Build { unity: (2017, 4, 40, 5126), profile: layout(PointerSize::Bit64, Anchor::PrologueLoadX64, PathShape::Pointer, ReferenceShape::CachedObject, 0x8, 0x48, 0x70, 0x10, 0x98, 0xb0, 0x30, 0x70, 0x30, 0x68, 0x28) },
        // Unity 2017.4.40f1, x86.
        Build { unity: (2017, 4, 40, 5126), profile: layout(PointerSize::Bit32, Anchor::LoadAndClearX86, PathShape::Pointer, ReferenceShape::CachedObject, 0x8, 0x28, 0x40, 0xc, 0x70, 0x88, 0x1c, 0x50, 0x1c, 0x48, 0x18) },
        // Unity 2018.4.36f1, x64.
        Build { unity: (2018, 4, 36, 54151), profile: layout(PointerSize::Bit64, Anchor::PrologueLoadX64, PathShape::Pointer, ReferenceShape::CachedObject, 0x8, 0x48, 0x70, 0x10, 0x98, 0xb0, 0x30, 0x70, 0x30, 0x60, 0x28) },
        // Unity 2018.4.36f1, x86.
        Build { unity: (2018, 4, 36, 54151), profile: layout(PointerSize::Bit32, Anchor::LoadAndClearX86, PathShape::Pointer, ReferenceShape::CachedObject, 0x8, 0x28, 0x40, 0xc, 0x70, 0x88, 0x1c, 0x50, 0x1c, 0x3c, 0x18) },
        // Unity 2021.1.29f1, x64.
        Build { unity: (2021, 1, 29, 10531), profile: layout(PointerSize::Bit64, Anchor::PrologueLoadX64, PathShape::InlineNul, ReferenceShape::CachedObject, 0x8, 0x48, 0x70, 0x10, 0x98, 0xb0, 0x30, 0x70, 0x30, 0x60, 0x28) },
        // Unity 2022.3.0f1, x64.
        Build { unity: (2022, 3, 0, 4507), profile: layout(PointerSize::Bit64, Anchor::PrologueLoadX64, PathShape::InlineNul, ReferenceShape::CachedObject, 0x8, 0x48, 0x70, 0x10, 0x98, 0xb0, 0x30, 0x70, 0x30, 0x60, 0x28) },
        // Unity 2022.3.0f1, x86.
        Build { unity: (2022, 3, 0, 4507), profile: layout(PointerSize::Bit32, Anchor::ActiveSceneGetterX86, PathShape::Pointer, ReferenceShape::CachedObject, 0x8, 0x28, 0x40, 0xc, 0x70, 0x88, 0x1c, 0x50, 0x1c, 0x3c, 0x18) },
        // Unity 2023.1.22f1, x64.
        Build { unity: (2023, 1, 22, 16744), profile: layout(PointerSize::Bit64, Anchor::PrologueLoadX64, PathShape::InlineSpare, ReferenceShape::RootSlot, 0x8, 0x48, 0x70, 0x10, 0x98, 0xe8, 0x30, 0x70, 0x30, 0x60, 0x18) },
        // Unity 2023.1.22f1, x86.
        Build { unity: (2023, 1, 22, 16744), profile: layout(PointerSize::Bit32, Anchor::ActiveSceneGetterX86, PathShape::Pointer, ReferenceShape::RootSlot, 0x8, 0x28, 0x40, 0xc, 0x58, 0x94, 0x1c, 0x50, 0x1c, 0x3c, 0x10) },
        // Unity 6000.0.84f1, x64.
        Build { unity: (6000, 0, 84, 43887), profile: layout(PointerSize::Bit64, Anchor::SceneCountGetterX64, PathShape::InlineSpare, ReferenceShape::RootSlot, 0x8, 0x48, 0x70, 0x10, 0x98, 0xe8, 0x20, 0x60, 0x20, 0x50, 0x18) },
        // Unity 6000.0.84f1, x86.
        Build { unity: (6000, 0, 84, 43887), profile: layout(PointerSize::Bit32, Anchor::SceneAtGetterX86, PathShape::Pointer, ReferenceShape::RootSlot, 0x8, 0x28, 0x40, 0xc, 0x58, 0x98, 0x14, 0x48, 0x14, 0x34, 0x10) },
        // Unity 6000.1.17f1, x86.
        Build { unity: (6000, 1, 17, 47571), profile: layout(PointerSize::Bit32, Anchor::SceneAtGetterX86, PathShape::Pointer, ReferenceShape::RootSlot, 0x8, 0x28, 0x40, 0xc, 0x58, 0x94, 0x14, 0x48, 0x14, 0x34, 0x10) },
        // Unity 6000.2.12f1, x86.
        Build { unity: (6000, 2, 12, 40285), profile: layout(PointerSize::Bit32, Anchor::SceneAtGetterX86, PathShape::Pointer, ReferenceShape::RootSlot, 0x8, 0x28, 0x40, 0xc, 0x58, 0x98, 0x14, 0x48, 0x14, 0x34, 0x10) },
        // Unity 6000.3.21f1, x64.
        Build { unity: (6000, 3, 21, 9777), profile: layout(PointerSize::Bit64, Anchor::SceneCountGetterX64, PathShape::InlineSpare, ReferenceShape::RootSlot, 0x8, 0x48, 0x70, 0x10, 0x98, 0xe8, 0x20, 0x48, 0x20, 0x50, 0x18) },
        // Unity 6000.3.21f1, x86.
        Build { unity: (6000, 3, 21, 9777), profile: layout(PointerSize::Bit32, Anchor::SceneAtGetterX86, PathShape::Pointer, ReferenceShape::RootSlot, 0x8, 0x28, 0x40, 0xc, 0x58, 0x98, 0x14, 0x28, 0x14, 0x34, 0x10) },
        // Unity 6000.5.10f1, x64.
        Build { unity: (6000, 5, 10, 54518), profile: layout(PointerSize::Bit64, Anchor::SceneCountGetterX64, PathShape::InlineSpare, ReferenceShape::RootSlot, 0x8, 0x48, 0x70, 0x10, 0x98, 0x110, 0x28, 0x50, 0x28, 0x58, 0x20) },
        // Unity 6000.5.10f1, x86.
        Build { unity: (6000, 5, 10, 54518), profile: layout(PointerSize::Bit32, Anchor::SceneAtGetterX86, PathShape::Pointer, ReferenceShape::RootSlot, 0x8, 0x28, 0x40, 0x10, 0x5c, 0xc0, 0x20, 0x40, 0x20, 0x40, 0x18) },
    ]
}

/// Returns the measured players, from the oldest to the newest.
pub fn builds() -> (v: Vec<Build>)
    ensures
        v@ == build_table(),
{
    let v = vec![
        Build { unity: (5, 6, 7, 3267), profile: measured(PointerSize::Bit64, Anchor::PrologueLoadX64, PathShape::Pointer, ReferenceShape::CachedObject, 0x8, 0x48, 0x70, 0x10, 0x98, 0xb0, 0x30, 0x70, 0x30, 0x68, 0x28) },
        Build { unity: (5, 6, 7, 3267), profile: measured(PointerSize::Bit32, Anchor::TeardownHeadX86, PathShape::Pointer, ReferenceShape::CachedObject, 0x8, 0x28, 0x40, 0xc, 0x70, 0x88, 0x1c, 0x50, 0x1c, 0x48, 0x18) },
        Build { unity: (2017, 4, 40, 5126), profile: measured(PointerSize::Bit64, Anchor::PrologueLoadX64, PathShape::Pointer, ReferenceShape::CachedObject, 0x8, 0x48, 0x70, 0x10, 0x98, 0xb0, 0x30, 0x70, 0x30, 0x68, 0x28) },
        Build { unity: (2017, 4, 40, 5126), profile: measured(PointerSize::Bit32, Anchor::LoadAndClearX86, PathShape::Pointer, ReferenceShape::CachedObject, 0x8, 0x28, 0x40, 0xc, 0x70, 0x88, 0x1c, 0x50, 0x1c, 0x48, 0x18) },
        Build { unity: (2018, 4, 36, 54151), profile: measured(PointerSize::Bit64, Anchor::PrologueLoadX64, PathShape::Pointer, ReferenceShape::CachedObject, 0x8, 0x48, 0x70, 0x10, 0x98, 0xb0, 0x30, 0x70, 0x30, 0x60, 0x28) },
        Build { unity: (2018, 4, 36, 54151), profile: measured(PointerSize::Bit32, Anchor::LoadAndClearX86, PathShape::Pointer, ReferenceShape::CachedObject, 0x8, 0x28, 0x40, 0xc, 0x70, 0x88, 0x1c, 0x50, 0x1c, 0x3c, 0x18) },
        Build { unity: (2021, 1, 29, 10531), profile: measured(PointerSize::Bit64, Anchor::PrologueLoadX64, PathShape::InlineNul, ReferenceShape::CachedObject, 0x8, 0x48, 0x70, 0x10, 0x98, 0xb0, 0x30, 0x70, 0x30, 0x60, 0x28) },
        Build { unity: (2022, 3, 0, 4507), profile: measured(PointerSize::Bit64, Anchor::PrologueLoadX64, PathShape::InlineNul, ReferenceShape::CachedObject, 0x8, 0x48, 0x70, 0x10, 0x98, 0xb0, 0x30, 0x70, 0x30, 0x60, 0x28) },
        Build { unity: (2022, 3, 0, 4507), profile: measured(PointerSize::Bit32, Anchor::ActiveSceneGetterX86, PathShape::Pointer, ReferenceShape::CachedObject, 0x8, 0x28, 0x40, 0xc, 0x70, 0x88, 0x1c, 0x50, 0x1c, 0x3c, 0x18) },
        Build { unity: (2023, 1, 22, 16744), profile: measured(PointerSize::Bit64, Anchor::PrologueLoadX64, PathShape::InlineSpare, ReferenceShape::RootSlot, 0x8, 0x48, 0x70, 0x10, 0x98, 0xe8, 0x30, 0x70, 0x30, 0x60, 0x18) },
        Build { unity: (2023, 1, 22, 16744), profile: measured(PointerSize::Bit32, Anchor::ActiveSceneGetterX86, PathShape::Pointer, ReferenceShape::RootSlot, 0x8, 0x28, 0x40, 0xc, 0x58, 0x94, 0x1c, 0x50, 0x1c, 0x3c, 0x10) },
        Build { unity: (6000, 0, 84, 43887), profile: measured(PointerSize::Bit64, Anchor::SceneCountGetterX64, PathShape::InlineSpare, ReferenceShape::RootSlot, 0x8, 0x48, 0x70, 0x10, 0x98, 0xe8, 0x20, 0x60, 0x20, 0x50, 0x18) },
        Build { unity: (6000, 0, 84, 43887), profile: measured(PointerSize::Bit32, Anchor::SceneAtGetterX86, PathShape::Pointer, ReferenceShape::RootSlot, 0x8, 0x28, 0x40, 0xc, 0x58, 0x98, 0x14, 0x48, 0x14, 0x34, 0x10) },
        Build { unity: (6000, 1, 17, 47571), profile: measured(PointerSize::Bit32, Anchor::SceneAtGetterX86, PathShape::Pointer, ReferenceShape::RootSlot, 0x8, 0x28, 0x40, 0xc, 0x58, 0x94, 0x14, 0x48, 0x14, 0x34, 0x10) },
        Build { unity: (6000, 2, 12, 40285), profile: measured(PointerSize::Bit32, Anchor::SceneAtGetterX86, PathShape::Pointer, ReferenceShape::RootSlot, 0x8, 0x28, 0x40, 0xc, 0x58, 0x98, 0x14, 0x48, 0x14, 0x34, 0x10) },
        Build { unity: (6000, 3, 21, 9777), profile: measured(PointerSize::Bit64, Anchor::SceneCountGetterX64, PathShape::InlineSpare, ReferenceShape::RootSlot, 0x8, 0x48, 0x70, 0x10, 0x98, 0xe8, 0x20, 0x48, 0x20, 0x50, 0x18) },
        Build { unity: (6000, 3, 21, 9777), profile: measured(PointerSize::Bit32, Anchor::SceneAtGetterX86, PathShape::Pointer, ReferenceShape::RootSlot, 0x8, 0x28, 0x40, 0xc, 0x58, 0x98, 0x14, 0x28, 0x14, 0x34, 0x10) },
        Build { unity: (6000, 5, 10, 54518), profile: measured(PointerSize::Bit64, Anchor::SceneCountGetterX64, PathShape::InlineSpare, ReferenceShape::RootSlot, 0x8, 0x48, 0x70, 0x10, 0x98, 0x110, 0x28, 0x50, 0x28, 0x58, 0x20) },
        Build { unity: (6000, 5, 10, 54518), profile: measured(PointerSize::Bit32, Anchor::SceneAtGetterX86, PathShape::Pointer, ReferenceShape::RootSlot, 0x8, 0x28, 0x40, 0x10, 0x5c, 0xc0, 0x20, 0x40, 0x20, 0x40, 0x18) },
    ];
    proof {
        assert(v@ =~= build_table());
    }
    v
}

/// The layout used for a Linux or Mac x64 player. Those players are not
/// measured yet, so this keeps the signature and the offsets the walk used
/// before the table existed. The offsets are the x64 layout of Unity 2018.4
/// through 2022.3.
pub open spec fn elf_and_macho_x64_layout() -> Profile {
    layout(
        PointerSize::Bit64,
        Anchor::PushesThenLoadX64,
        PathShape::Pointer,
        ReferenceShape::CachedObject,
        0x8,
        0x48,
        0x70,
        0x10,
        0x98,
        0xb0,
        0x30,
        0x70,
        0x30,
        0x60,
        0x28,
    )
}

/// Returns the layout used for a Linux or Mac x64 player.
pub fn elf_and_macho_x64() -> (p: Profile)
    ensures
        p == elf_and_macho_x64_layout(),
{
    measured(
        PointerSize::Bit64,
        Anchor::PushesThenLoadX64,
        PathShape::Pointer,
        ReferenceShape::CachedObject,
        0x8,
        0x48,
        0x70,
        0x10,
        0x98,
        0xb0,
        0x30,
        0x70,
        0x30,
        0x60,
        0x28,
    )
}

/// What each build of a table is looked up by.
pub open spec fn players_of(t: Seq<Build>) -> Seq<Player> {
    t.map_values(|b: Build| Player { unity: b.unity, pointer_size: b.profile.pointer_size })
}

/// The build for a player at a pointer size: the player's own build, else
/// the newest at or below its major.minor, else the oldest.
pub open spec fn nearest_build(unity: (u16, u16, u16, u16), ps: PointerSize) -> Option<Build> {
    match nearest_in(players_of(build_table()), unity, ps) {
        Some(i) => Some(build_table()[i]),
        None => None,
    }
}

/// Lists what each build of a table is looked up by.
fn players(table: &Vec<Build>) -> (k: Vec<Player>)
    ensures
        k@ == players_of(table@),
{
    let mut k: Vec<Player> = Vec::new();
    let mut i: usize = 0;
    while i < table.len()
        invariant
            0 <= i <= table@.len(),
            k@ =~= players_of(table@).take(i as int),
        decreases table@.len() - i,
    {
        k.push(Player { unity: table[i].unity, pointer_size: table[i].profile.pointer_size });
        i += 1;
    }
    k
}

/// Finds the build for a player at its pointer size. The Unity version is
/// the four parts of the file version of `UnityPlayer.dll`. A measured
/// player gets its own build. Any other player gets the newest build whose
/// major.minor is at or below the player's major.minor, or the oldest build
/// when no build is below.
pub fn nearest(unity: (u16, u16, u16, u16), pointer_size: PointerSize) -> (r: Option<Build>)
    ensures
        r == nearest_build(unity, pointer_size),
{
    let table = builds();
    let keys = players(&table);
    match nearest_index(&keys, unity, pointer_size) {
        Some(i) => {
            proof {
                measured::lemma_nearest_keeps_the_width(players_of(build_table()), unity, pointer_size);
            }
            Some(table[i])
        },
        None => None,
    }
}

/// The build a player gets was measured at the player's pointer size, and a
/// player gets one exactly when some build was measured at that size.
pub proof fn lemma_nearest_keeps_the_size(unity: (u16, u16, u16, u16), ps: PointerSize)
    ensures
        nearest_build(unity, ps) matches Some(b) ==> b.profile.pointer_size == ps,
        nearest_build(unity, ps) is Some <==> exists|i: int|
            0 <= i < build_table().len() && #[trigger] build_table()[i].profile.pointer_size == ps,
{
    let t = build_table();
    let k = players_of(t);
    measured::lemma_nearest_keeps_the_width(k, unity, ps);
    if exists|i: int| 0 <= i < t.len() && #[trigger] t[i].profile.pointer_size == ps {
        let i = choose|i: int| 0 <= i < t.len() && #[trigger] t[i].profile.pointer_size == ps;
        assert(k[i].pointer_size == ps);
    }
    if exists|i: int| 0 <= i < k.len() && #[trigger] k[i].pointer_size == ps {
        let i = choose|i: int| 0 <= i < k.len() && #[trigger] k[i].pointer_size == ps;
        assert(t[i].profile.pointer_size == ps);
    }
}

/// A measured player gets its own build.
pub proof fn lemma_nearest_on_a_measured_player(i: int)
    requires
        0 <= i < build_table().len(),
    ensures
        nearest_build(build_table()[i].unity, build_table()[i].profile.pointer_size) matches Some(b)
            && b.unity == build_table()[i].unity && b.profile.pointer_size
            == build_table()[i].profile.pointer_size,
{
    measured::lemma_nearest_on_a_measured_player(players_of(build_table()), i);
}

/// How a component reaches its managed object follows the Unity version of
/// the build: a build from Unity 2023.1 on reaches it through a slot, an
/// older build holds it in the reference itself.
pub proof fn lemma_reference_shape_follows_the_unity_version(i: int)
    requires
        0 <= i < build_table().len(),
    ensures
        (build_table()[i].profile.reference == ReferenceShape::RootSlot) <==> (
        build_table()[i].unity.0 > 2023 || (build_table()[i].unity.0 == 2023
            && build_table()[i].unity.1 >= 1)),
{
}

} // verus!
