//! Known IL2CPP builds. Each entry is one measured player. The full Unity
//! version says which player. The offsets come from that player's
//! `GameAssembly.pdb`.

use vstd::prelude::*;

use super::offsets::{
    AssemblyOffsets, ClassOffsets, FieldInfoOffsets, GenericOffsets, ImageOffsets, Profile,
    TypeOffsets, TypeStart,
};
use crate::game_engine::unity::measured;
use crate::game_engine::unity::measured::{nearest_in, nearest_index, Player};
use crate::primitives::PointerSize;

verus! {

/// One measured IL2CPP player and the offsets from its PDB.
#[derive(Copy, Clone, Debug)]
pub struct Build {
    /// The four parts of the player's file version.
    pub unity: (u16, u16, u16, u16),
    /// The layout measured on that player.
    pub profile: Profile,
}

/// The layout every measured x64 player shares, with what moved between
/// players: whether the image keeps a handle to its first type's index
/// rather than the index itself, where the class keeps its statics, its
/// boxed size and its field count, and where a generic class caches the
/// class it resolved to.
pub open spec fn x64_layout(
    handle: bool,
    static_fields: u8,
    instance_size: u16,
    field_count: u16,
    cached_class: u16,
) -> Profile {
    Profile {
        pointer_size: PointerSize::Bit64,
        assembly: AssemblyOffsets { image: 0x0, name: None },
        image: ImageOffsets {
            assembly_name: Some(0x8),
            type_count: if handle { 0x18 } else { 0x1c },
            type_start: if handle { TypeStart::Handle(0x28) } else { TypeStart::Inline(0x18) },
        },
        class: ClassOffsets {
            name: 0x10,
            namespace: 0x18,
            declaring_type: Some(0x50),
            parent: 0x58,
            fields: 0x80,
            static_fields,
            instance_size: Some(instance_size),
            field_count,
        },
        generic: GenericOffsets { cached_class: Some(cached_class) },
        type_: TypeOffsets { data: Some(0x0), kind: Some(0xa) },
        field: FieldInfoOffsets { name: 0x0, type_: Some(0x8), offset: 0x18, size: 0x20 },
    }
}

/// The layout every measured x86 player shares, with what moved between
/// players, as for [`x64_layout`].
pub open spec fn x86_layout(
    handle: bool,
    static_fields: u8,
    instance_size: u16,
    field_count: u16,
    cached_class: u16,
) -> Profile {
    Profile {
        pointer_size: PointerSize::Bit32,
        assembly: AssemblyOffsets { image: 0x0, name: None },
        image: ImageOffsets {
            assembly_name: Some(0x4),
            type_count: if handle { 0xc } else { 0x10 },
            type_start: if handle { TypeStart::Handle(0x18) } else { TypeStart::Inline(0xc) },
        },
        class: ClassOffsets {
            name: 0x8,
            namespace: 0xc,
            declaring_type: Some(0x28),
            parent: 0x2c,
            fields: 0x40,
            static_fields,
            instance_size: Some(instance_size),
            field_count,
        },
        generic: GenericOffsets { cached_class: Some(cached_class) },
        type_: TypeOffsets { data: Some(0x0), kind: Some(0x6) },
        field: FieldInfoOffsets { name: 0x0, type_: Some(0x4), offset: 0xc, size: 0x14 },
    }
}

/// Builds an x64 layout.
fn x64(handle: bool, static_fields: u8, instance_size: u16, field_count: u16, cached_class: u16) -> (p: Profile)
    ensures
        p == x64_layout(handle, static_fields, instance_size, field_count, cached_class),
{
    Profile {
        pointer_size: PointerSize::Bit64,
        assembly: AssemblyOffsets { image: 0x0, name: None },
        image: ImageOffsets {
            assembly_name: Some(0x8),
            type_count: if handle { 0x18 } else { 0x1c },
            type_start: if handle { TypeStart::Handle(0x28) } else { TypeStart::Inline(0x18) },
        },
        class: ClassOffsets {
            name: 0x10,
            namespace: 0x18,
            declaring_type: Some(0x50),
            parent: 0x58,
            fields: 0x80,
            static_fields,
            instance_size: Some(instance_size),
            field_count,
        },
        generic: GenericOffsets { cached_class: Some(cached_class) },
        type_: TypeOffsets { data: Some(0x0), kind: Some(0xa) },
        field: FieldInfoOffsets { name: 0x0, type_: Some(0x8), offset: 0x18, size: 0x20 },
    }
}

/// Builds an x86 layout.
fn x86(handle: bool, static_fields: u8, instance_size: u16, field_count: u16, cached_class: u16) -> (p: Profile)
    ensures
        p == x86_layout(handle, static_fields, instance_size, field_count, cached_class),
{
    Profile {
        pointer_size: PointerSize::Bit32,
        assembly: AssemblyOffsets { image: 0x0, name: None },
        image: ImageOffsets {
            assembly_name: Some(0x4),
            type_count: if handle { 0xc } else { 0x10 },
            type_start: if handle { TypeStart::Handle(0x18) } else { TypeStart::Inline(0xc) },
        },
        class: ClassOffsets {
            name: 0x8,
            namespace: 0xc,
            declaring_type: Some(0x28),
            parent: 0x2c,
            fields: 0x40,
            static_fields,
            instance_size: Some(instance_size),
            field_count,
        },
        generic: GenericOffsets { cached_class: Some(cached_class) },
        type_: TypeOffsets { data: Some(0x0), kind: Some(0x6) },
        field: FieldInfoOffsets { name: 0x0, type_: Some(0x4), offset: 0xc, size: 0x14 },
    }
}

/// The measured players, from the oldest to the newest.
pub open spec fn build_table() -> Seq<Build> {
    seq![
        // Unity 2018.4.36f1, metadata version 24, x64.
        Build { unity: (2018, 4, 36, 54151), profile: x64_layout(false, 0xb8, 0xec, 0x114, 0x18) },
        // Unity 2018.4.36f1, metadata version 24, x86.
        Build { unity: (2018, 4, 36, 54151), profile: x86_layout(false, 0x5c, 0x84, 0xac, 0xc) },
        // Unity 2019.1.0f2, metadata version 24, x64.
        Build { unity: (2019, 1, 0, 11155), profile: x64_layout(false, 0xb8, 0xf4, 0x11c, 0x18) },
        // Unity 2019.1.0f2, metadata version 24, x86.
        Build { unity: (2019, 1, 0, 11155), profile: x86_layout(false, 0x5c, 0x80, 0xa8, 0xc) },
        // Unity 2019.4.41f2, metadata version 24, x64.
        Build { unity: (2019, 4, 41, 9172), profile: x64_layout(false, 0xb8, 0xf4, 0x11c, 0x18) },
        // Unity 2019.4.41f2, metadata version 24, x86.
        Build { unity: (2019, 4, 41, 9172), profile: x86_layout(false, 0x5c, 0x80, 0xa8, 0xc) },
        // Unity 2020.1.18f1, metadata version 24, x64.
        Build { unity: (2020, 1, 18, 38512), profile: x64_layout(false, 0xb8, 0xf4, 0x11c, 0x18) },
        // Unity 2020.1.18f1, metadata version 24, x86.
        Build { unity: (2020, 1, 18, 38512), profile: x86_layout(false, 0x5c, 0x80, 0xa8, 0xc) },
        // Unity 2020.2.0f1, metadata version 27, x64.
        Build { unity: (2020, 2, 0, 8671), profile: x64_layout(true, 0xb8, 0xf8, 0x120, 0x18) },
        // Unity 2020.2.0f1, metadata version 27, x86.
        Build { unity: (2020, 2, 0, 8671), profile: x86_layout(true, 0x5c, 0x80, 0xa8, 0xc) },
        // Unity 2021.3.11f1, metadata version 29, x64.
        Build { unity: (2021, 3, 11, 23713), profile: x64_layout(true, 0xb8, 0xf8, 0x120, 0x18) },
        // Unity 2021.3.11f1, metadata version 29, x86.
        Build { unity: (2021, 3, 11, 23713), profile: x86_layout(true, 0x5c, 0x80, 0xa8, 0xc) },
        // Unity 2022.3.0f1, metadata version 29, x64.
        Build { unity: (2022, 3, 0, 4507), profile: x64_layout(true, 0xb8, 0xf8, 0x124, 0x18) },
        // Unity 2022.3.0f1, metadata version 29, x86.
        Build { unity: (2022, 3, 0, 4507), profile: x86_layout(true, 0x5c, 0x80, 0xac, 0xc) },
        // Unity 2023.1.0f1, metadata version 29, x64.
        Build { unity: (2023, 1, 0, 2298), profile: x64_layout(true, 0xb8, 0xf8, 0x124, 0x18) },
        // Unity 2023.1.0f1, metadata version 29, x86.
        Build { unity: (2023, 1, 0, 2298), profile: x86_layout(true, 0x5c, 0x80, 0xac, 0xc) },
        // Unity 2023.1.22f1, metadata version 29, x64.
        Build { unity: (2023, 1, 22, 16744), profile: x64_layout(true, 0xb8, 0xf8, 0x124, 0x18) },
        // Unity 2023.1.22f1, metadata version 29, x86.
        Build { unity: (2023, 1, 22, 16744), profile: x86_layout(true, 0x5c, 0x80, 0xac, 0xc) },
        // Unity 6000.2.12f1, metadata version 31, x64.
        Build { unity: (6000, 2, 12, 40285), profile: x64_layout(true, 0xb8, 0xf8, 0x124, 0x18) },
        // Unity 6000.2.12f1, metadata version 31, x86.
        Build { unity: (6000, 2, 12, 40285), profile: x86_layout(true, 0x5c, 0x80, 0xac, 0xc) },
        // Unity 6000.3.21f1, metadata version 39, x64.
        Build { unity: (6000, 3, 21, 9777), profile: x64_layout(true, 0xb8, 0xf8, 0x124, 0x18) },
        // Unity 6000.3.21f1, metadata version 39, x86.
        Build { unity: (6000, 3, 21, 9777), profile: x86_layout(true, 0x5c, 0x80, 0xac, 0xc) },
        // Unity 6000.5.10f1, metadata version 107, x64.
        Build { unity: (6000, 5, 10, 54518), profile: x64_layout(true, 0xa0, 0xf8, 0x124, 0x18) },
        // Unity 6000.5.10f1, metadata version 107, x86.
        Build { unity: (6000, 5, 10, 54518), profile: x86_layout(true, 0x50, 0x80, 0xac, 0xc) },
        // Unity 6000.6.0f1, metadata version 108, x64.
        Build { unity: (6000, 6, 0, 63725), profile: x64_layout(true, 0x98, 0xf0, 0x11c, 0x10) },
        // Unity 6000.6.0f1, metadata version 108, x86.
        Build { unity: (6000, 6, 0, 63725), profile: x86_layout(true, 0x4c, 0x80, 0xac, 0x8) },
        // Unity 6000.7.0a3, metadata version 110, x64.
        Build { unity: (6000, 7, 0, 5476), profile: x64_layout(true, 0x98, 0xf0, 0x11c, 0x10) },
        // Unity 6000.7.0a3, metadata version 110, x86.
        Build { unity: (6000, 7, 0, 5476), profile: x86_layout(true, 0x4c, 0x80, 0xac, 0x8) },
    ]
}

/// Returns the measured players, from the oldest to the newest.
pub fn builds() -> (v: Vec<Build>)
    ensures
        v@ == build_table(),
{
    let v = vec![
        Build { unity: (2018, 4, 36, 54151), profile: x64(false, 0xb8, 0xec, 0x114, 0x18) },
        Build { unity: (2018, 4, 36, 54151), profile: x86(false, 0x5c, 0x84, 0xac, 0xc) },
        Build { unity: (2019, 1, 0, 11155), profile: x64(false, 0xb8, 0xf4, 0x11c, 0x18) },
        Build { unity: (2019, 1, 0, 11155), profile: x86(false, 0x5c, 0x80, 0xa8, 0xc) },
        Build { unity: (2019, 4, 41, 9172), profile: x64(false, 0xb8, 0xf4, 0x11c, 0x18) },
        Build { unity: (2019, 4, 41, 9172), profile: x86(false, 0x5c, 0x80, 0xa8, 0xc) },
        Build { unity: (2020, 1, 18, 38512), profile: x64(false, 0xb8, 0xf4, 0x11c, 0x18) },
        Build { unity: (2020, 1, 18, 38512), profile: x86(false, 0x5c, 0x80, 0xa8, 0xc) },
        Build { unity: (2020, 2, 0, 8671), profile: x64(true, 0xb8, 0xf8, 0x120, 0x18) },
        Build { unity: (2020, 2, 0, 8671), profile: x86(true, 0x5c, 0x80, 0xa8, 0xc) },
        Build { unity: (2021, 3, 11, 23713), profile: x64(true, 0xb8, 0xf8, 0x120, 0x18) },
        Build { unity: (2021, 3, 11, 23713), profile: x86(true, 0x5c, 0x80, 0xa8, 0xc) },
        Build { unity: (2022, 3, 0, 4507), profile: x64(true, 0xb8, 0xf8, 0x124, 0x18) },
        Build { unity: (2022, 3, 0, 4507), profile: x86(true, 0x5c, 0x80, 0xac, 0xc) },
        Build { unity: (2023, 1, 0, 2298), profile: x64(true, 0xb8, 0xf8, 0x124, 0x18) },
        Build { unity: (2023, 1, 0, 2298), profile: x86(true, 0x5c, 0x80, 0xac, 0xc) },
        Build { unity: (2023, 1, 22, 16744), profile: x64(true, 0xb8, 0xf8, 0x124, 0x18) },
        Build { unity: (2023, 1, 22, 16744), profile: x86(true, 0x5c, 0x80, 0xac, 0xc) },
        Build { unity: (6000, 2, 12, 40285), profile: x64(true, 0xb8, 0xf8, 0x124, 0x18) },
        Build { unity: (6000, 2, 12, 40285), profile: x86(true, 0x5c, 0x80, 0xac, 0xc) },
        Build { unity: (6000, 3, 21, 9777), profile: x64(true, 0xb8, 0xf8, 0x124, 0x18) },
        Build { unity: (6000, 3, 21, 9777), profile: x86(true, 0x5c, 0x80, 0xac, 0xc) },
        Build { unity: (6000, 5, 10, 54518), profile: x64(true, 0xa0, 0xf8, 0x124, 0x18) },
        Build { unity: (6000, 5, 10, 54518), profile: x86(true, 0x50, 0x80, 0xac, 0xc) },
        Build { unity: (6000, 6, 0, 63725), profile: x64(true, 0x98, 0xf0, 0x11c, 0x10) },
        Build { unity: (6000, 6, 0, 63725), profile: x86(true, 0x4c, 0x80, 0xac, 0x8) },
        Build { unity: (6000, 7, 0, 5476), profile: x64(true, 0x98, 0xf0, 0x11c, 0x10) },
        Build { unity: (6000, 7, 0, 5476), profile: x86(true, 0x4c, 0x80, 0xac, 0x8) },
    ];
    proof {
        assert(v@ =~= build_table());
    }
    v
}

/// What each build of a table is looked up by.
pub open spec fn players_of(t: Seq<Build>) -> Seq<Player> {
    t.map_values(|b: Build| Player { unity: b.unity, pointer_size: b.profile.pointer_size })
}

/// The build for a player at a width: the player's own build, else the
/// newest at or below its major.minor, else the oldest.
pub open spec fn nearest_build(unity: (u16, u16, u16, u16), ps: PointerSize) -> Option<Build> {
    match nearest_in(players_of(build_table()), unity, ps) {
        Some(i) => Some(build_table()[i]),
        None => None,
    }
}

/// Lists what each build of a table is looked up by.
fn players(table: &Vec<Build>) -> (k: Vec<Player>)
    ensures
        k@ == players_of(table@),
{
    let mut k: Vec<Player> = Vec::new();
    let mut i: usize = 0;
    while i < table.len()
        invariant
            0 <= i <= table@.len(),
            k@ =~= players_of(table@).take(i as int),
        decreases table@.len() - i,
    {
        k.push(Player { unity: table[i].unity, pointer_size: table[i].profile.pointer_size });
        i += 1;
    }
    k
}

/// Finds the build for a player at its width. The Unity version is the four
/// parts of the file version of `UnityPlayer.dll`. The last part tells `f1`
/// from `f2` and an alpha from its release. A measured player gets its own
/// build. Any other player gets the newest build whose major.minor is at or
/// below the player's major.minor, or the oldest build when no build is
/// below. This answer is right when the table holds the first player of
/// every layout, because a layout lasts until the next layout starts. When a
/// layout changed between two measured players, a player in that gap gets
/// the older layout.
pub fn nearest(unity: (u16, u16, u16, u16), pointer_size: PointerSize) -> (r: Option<Build>)
    ensures
        r == nearest_build(unity, pointer_size),
{
    let table = builds();
    let keys = players(&table);
    match nearest_index(&keys, unity, pointer_size) {
        Some(i) => {
            proof {
                lemma_nearest_keeps_in_table(players_of(build_table()), unity, pointer_size);
            }
            Some(table[i])
        },
        None => None,
    }
}

/// The index a lookup answers lies in the table.
proof fn lemma_nearest_keeps_in_table(t: Seq<Player>, unity: (u16, u16, u16, u16), ps: PointerSize)
    ensures
        nearest_in(t, unity, ps) matches Some(i) ==> 0 <= i < t.len(),
{
    measured::lemma_nearest_keeps_the_width(t, unity, ps);
}

/// The build a player gets was measured at the player's width, and a player
/// gets one exactly when some build was measured at that width.
pub proof fn lemma_nearest_keeps_the_width(unity: (u16, u16, u16, u16), ps: PointerSize)
    ensures
        nearest_build(unity, ps) matches Some(b) ==> b.profile.pointer_size == ps,
        nearest_build(unity, ps) is Some <==> exists|i: int|
            0 <= i < build_table().len() && #[trigger] build_table()[i].profile.pointer_size == ps,
{
    let t = build_table();
    let k = players_of(t);
    measured::lemma_nearest_keeps_the_width(k, unity, ps);
    if exists|i: int| 0 <= i < t.len() && #[trigger] t[i].profile.pointer_size == ps {
        let i = choose|i: int| 0 <= i < t.len() && #[trigger] t[i].profile.pointer_size == ps;
        assert(k[i].pointer_size == ps);
    }
    if exists|i: int| 0 <= i < k.len() && #[trigger] k[i].pointer_size == ps {
        let i = choose|i: int| 0 <= i < k.len() && #[trigger] k[i].pointer_size == ps;
        assert(t[i].profile.pointer_size == ps);
    }
}

/// A measured player gets its own build.
pub proof fn lemma_nearest_on_a_measured_player(i: int)
    requires
        0 <= i < build_table().len(),
    ensures
        nearest_build(build_table()[i].unity, build_table()[i].profile.pointer_size) matches Some(b)
            && b.unity == build_table()[i].unity && b.profile.pointer_size
            == build_table()[i].profile.pointer_size,
{
    let t = build_table();
    let k = players_of(t);
    measured::lemma_nearest_on_a_measured_player(k, i);
}

} // verus!
