//! Known Linux Mono builds: exact runtime binaries paired with the offsets
//! measured from them.
//!
//! A build is named by its build ID, which a linker computes from the binary
//! it writes, so it names that one build and nothing else. Mono's library
//! has one through 2019.4 and none after, so `UnityPlayer.so`'s ID names the
//! later builds instead. Each entry names the file its ID was read from.

use vstd::prelude::*;
use vstd::string::StringSliceAdditionalSpecFns;

use super::super::BinaryFormat;
use super::offsets::{
    carries_agreement, laid, layout, linux, linux_measured, measured_of, never_contradicts,
    offsets_for, same_core, Measured, MonoOffsets,
};
use super::version::Version;
use crate::primitives::PointerSize;
use crate::process::bytes_eq;

use crate::signature::hex_char;

verus! {

/// One exact Mono library and the offsets measured from it.
pub struct Build {
    /// The build ID the library, or the player naming it, carries.
    pub build_id: Vec<u8>,
    /// The pointer width of the build.
    pub pointer_size: PointerSize,
    /// The Mono version the build runs.
    pub version: Version,
    /// The offsets measured from the build.
    pub offsets: MonoOffsets,
}

/// A known build as a value.
pub struct KnownBuild {
    /// The build ID.
    pub build_id: Seq<u8>,
    /// The pointer width.
    pub pointer_size: PointerSize,
    /// The Mono version.
    pub version: Version,
    /// The measured offsets.
    pub offsets: MonoOffsets,
}

impl View for Build {
    type V = KnownBuild;

    open spec fn view(&self) -> KnownBuild {
        KnownBuild {
            build_id: self.build_id@,
            pointer_size: self.pointer_size,
            version: self.version,
            offsets: self.offsets,
        }
    }
}

/// Whether a byte is a lowercase hex digit.
pub open spec fn is_lower_hex(c: u8) -> bool {
    (0x30 <= c <= 0x39) || (0x61 <= c <= 0x66)
}

/// The value of a lowercase hex digit.
pub open spec fn lower_hex_value(c: u8) -> u8 {
    if c <= 0x39 {
        (c - 0x30) as u8
    } else {
        (c - 0x61 + 10) as u8
    }
}

/// Whether a build ID is written as it normally is: lowercase hex, two
/// digits a byte.
pub open spec fn is_written_id(s: Seq<u8>) -> bool {
    s.len() % 2 == 0 && forall|i: int| 0 <= i < s.len() ==> #[trigger] is_lower_hex(s[i])
}

/// The bytes a written build ID stores: each pair of digits, high first.
pub open spec fn stored_id(s: Seq<u8>) -> Seq<u8> {
    Seq::new(
        (s.len() / 2) as nat,
        |i: int| (lower_hex_value(s[2 * i]) * 16 + lower_hex_value(s[2 * i + 1])) as u8,
    )
}

/// Some bytes written as a build ID normally is: two lowercase hex digits a
/// byte, high first.
pub open spec fn written_id(b: Seq<u8>) -> Seq<u8> {
    Seq::new(
        2 * b.len(),
        |i: int| if i % 2 == 0 {
            hex_char(b[i / 2] / 16, false)
        } else {
            hex_char(b[i / 2] % 16, false)
        },
    )
}

/// Writing bytes as a build ID and reading it back gives the same bytes.
pub proof fn lemma_build_ids_read_back(b: Seq<u8>)
    ensures
        is_written_id(written_id(b)),
        stored_id(written_id(b)) == b,
{
    let w = written_id(b);
    assert forall|i: int| 0 <= i < w.len() implies #[trigger] is_lower_hex(w[i]) by {}
    assert forall|i: int| 0 <= i < b.len() implies stored_id(w)[i] == b[i] by {
        assert(w[2 * i] == hex_char(b[i] / 16, false));
        assert(w[2 * i + 1] == hex_char(b[i] % 16, false));
        assert(lower_hex_value(hex_char(b[i] / 16, false)) == b[i] / 16);
        assert(lower_hex_value(hex_char(b[i] % 16, false)) == b[i] % 16);
    }
    assert(stored_id(w) =~= b);
}

/// The value of a lowercase hex digit.
fn hex(c: u8) -> (v: u8)
    requires
        is_lower_hex(c),
    ensures
        v == lower_hex_value(c),
        v < 16,
{
    if c <= 0x39 {
        c - 0x30
    } else {
        c - 0x61 + 10
    }
}

/// Parses a build ID from the hex it is normally written as, into the bytes
/// the binary stores.
pub fn id(written: &str) -> (r: Vec<u8>)
    requires
        is_written_id(written.spec_bytes()),
    ensures
        r@ == stored_id(written.spec_bytes()),
{
    let s = written.as_bytes();
    let n = s.len() / 2;
    let mut parsed: Vec<u8> = Vec::new();
    let mut i: usize = 0;
    while i < n
        invariant
            s@ == written.spec_bytes(),
            is_written_id(s@),
            n == s@.len() / 2,
            s@.len() == s.len(),
            0 <= i <= n,
            parsed@ =~= stored_id(s@).take(i as int),
        decreases n - i,
    {
        assert(2 * i + 1 < s@.len());
        proof {
            assert(is_lower_hex(s@[2 * i as int]));
            assert(is_lower_hex(s@[2 * i + 1]));
        }
        let high = hex(s[2 * i]);
        let low = hex(s[2 * i + 1]);
        parsed.push(high * 16 + low);
        i += 1;
    }
    parsed
}


/// What the early Linux builds measured: all but the class kind, with the
/// instantiation descriptor where the build keeps it.
pub open spec fn early_measured(generic_class: u16) -> Measured {
    Measured {
        class_kind: None,
        instance_size: Some(0x1C),
        nested_in: Some(0x30),
        generic_class: Some(generic_class),
        container_class: Some(0x0),
        type_data: Some(0x0),
        type_kind: Some(0xA),
        field_type: Some(0x0),
    }
}

fn early(generic_class: u16) -> (m: Measured)
    ensures
        m == early_measured(generic_class),
{
    Measured {
        class_kind: None,
        instance_size: Some(0x1C),
        nested_in: Some(0x30),
        generic_class: Some(generic_class),
        container_class: Some(0x0),
        type_data: Some(0x0),
        type_kind: Some(0xA),
        field_type: Some(0x0),
    }
}

/// The offsets measured on 5.6.
pub open spec fn unity_5_6() -> MonoOffsets {
    layout(
        0x10, 0x58, 0x3D0, 0x18, 0x20, 0x28, 0x40, 0x48, 0x18, 0xA0, 0xF0, 0x8C, 0xF8, 0x8, 0x18,
        0x20, 0x48, early_measured(0xD0),
    )
}

/// The offsets measured on 2017.4.
pub open spec fn unity_2017_4() -> MonoOffsets {
    layout(
        0x10, 0x58, 0x3D0, 0x18, 0x20, 0x28, 0x48, 0x50, 0x18, 0xA8, 0xF8, 0x94, 0x100, 0x8, 0x18,
        0x20, 0x48, early_measured(0xD8),
    )
}

/// The offsets measured on 2018.4 and 2019.4.
pub open spec fn unity_2018_4() -> MonoOffsets {
    layout(
        0x10, 0x60, 0x4C0, 0x18, 0x20, 0x28, 0x40, 0x48, 0x54, 0x90, 0xC8, 0xF8, 0x100, 0x8, 0x18,
        0x20, 0x40, linux_measured(0x24),
    )
}

/// The offsets measured on 2021.3 through 6000.7.
pub open spec fn unity_2021_3() -> MonoOffsets {
    layout(
        0x10, 0x60, 0x4D0, 0x18, 0x20, 0x28, 0x40, 0x48, 0x54, 0x90, 0xC8, 0xF8, 0x100, 0x8, 0x18,
        0x20, 0x48, linux_measured(0x1B),
    )
}

/// A known build.
pub open spec fn known(id: Seq<u8>, version: Version, offsets: MonoOffsets) -> KnownBuild {
    KnownBuild { build_id: id, pointer_size: PointerSize::Bit64, version, offsets }
}

/// The known builds, from the oldest to the newest.
pub open spec fn build_table() -> Seq<KnownBuild> {
    seq![
        // 5.6.7f1, libmono.so
        known(
            seq![0xc1u8, 0xa5, 0x3e, 0xa7, 0x10, 0x9a, 0x2d, 0xa5, 0x82, 0x20, 0xab, 0x30, 0xf4, 0xca, 0xb7, 0xc8, 0xce, 0x8f, 0x38, 0x13],
            Version::V1,
            unity_5_6(),
        ),
        // 2017.4.40f1, libmono.so
        known(
            seq![0x93u8, 0xb5, 0xb9, 0x5d, 0x7a, 0x61, 0x12, 0xb3, 0xf7, 0xd5, 0x3b, 0x40, 0xe7, 0x9a, 0x66, 0x3c, 0xbc, 0xd6, 0x2b, 0x14],
            Version::V1Cattrs,
            unity_2017_4(),
        ),
        // 2018.4.36f1, libmonobdwgc-2.0.so
        known(
            seq![0xddu8, 0x78, 0x8d, 0x18, 0x60, 0xd9, 0xa7, 0x82, 0x46, 0x8c, 0xb7, 0x30, 0x46, 0x37, 0xdc, 0xdb, 0x7f, 0xbf, 0xd2, 0x89],
            Version::V2,
            unity_2018_4(),
        ),
        // 2019.4.41f2, libmonobdwgc-2.0.so
        known(
            seq![0x4eu8, 0x69, 0x0f, 0x26, 0x4a, 0x2a, 0x90, 0x12, 0x03, 0x47, 0xf9, 0x4a, 0xe4, 0x3b, 0x0b, 0x83, 0xd5, 0x78, 0xf6, 0x86],
            Version::V2,
            unity_2018_4(),
        ),
        // 2021.3.0f1, UnityPlayer.so
        known(seq![0xc1u8, 0x91, 0x05, 0xba, 0x5a, 0xab, 0xaf, 0x80], Version::V3, unity_2021_3()),
        // 2021.3.11f1, UnityPlayer.so
        known(seq![0x1eu8, 0xcf, 0x45, 0x33, 0x4b, 0x2b, 0x31, 0x90], Version::V3, unity_2021_3()),
        // 2022.3.0f1, UnityPlayer.so
        known(seq![0x03u8, 0xda, 0x1f, 0x34, 0xb6, 0xaf, 0x47, 0x65], Version::V3, unity_2021_3()),
        // 2023.1.0f1, UnityPlayer.so
        known(seq![0x63u8, 0xbe, 0x5b, 0xab, 0x8a, 0x2f, 0xba, 0xe2], Version::V3, unity_2021_3()),
        // 2023.1.22f1, UnityPlayer.so
        known(seq![0x3bu8, 0xc8, 0x9a, 0x83, 0x40, 0x3a, 0x19, 0xca], Version::V3, unity_2021_3()),
        // 6000.2.12f1, UnityPlayer.so
        known(
            seq![0xbdu8, 0xe0, 0x0f, 0x61, 0x93, 0x81, 0xee, 0x2e, 0x39, 0xd0, 0x91, 0x9c, 0xc8, 0x2f, 0x1b, 0xb7, 0xfd, 0x31, 0x4f, 0x21],
            Version::V3,
            unity_2021_3(),
        ),
        // 6000.3.21f1, UnityPlayer.so
        known(
            seq![0xadu8, 0x56, 0xac, 0x1a, 0xfb, 0xcf, 0x42, 0xb8, 0x46, 0x61, 0x0f, 0x49, 0xf2, 0xb6, 0xb7, 0x8d, 0x9f, 0x24, 0x03, 0x5f],
            Version::V3,
            unity_2021_3(),
        ),
        // 6000.5.8f1, UnityPlayer.so
        known(
            seq![0xacu8, 0x33, 0xe6, 0x3f, 0xb7, 0x91, 0xd3, 0x85, 0x76, 0x65, 0x40, 0xef, 0x0d, 0x21, 0xb4, 0xa6, 0x67, 0x7e, 0xdf, 0x71],
            Version::V3,
            unity_2021_3(),
        ),
        // 6000.7.0a3, UnityPlayer.so
        known(
            seq![0xc2u8, 0xe6, 0x62, 0x08, 0x66, 0x89, 0x84, 0xba, 0x64, 0x4c, 0x54, 0xc2, 0x77, 0xf6, 0x3e, 0x53, 0x7a, 0x57, 0xf0, 0x0e],
            Version::V3,
            unity_2021_3(),
        ),
    ]
}

fn build(id: Vec<u8>, version: Version, offsets: MonoOffsets) -> (b: Build)
    ensures
        b@ == known(id@, version, offsets),
{
    Build { build_id: id, pointer_size: PointerSize::Bit64, version, offsets }
}

/// Returns the known builds, from the oldest to the newest.
pub fn builds() -> (v: Vec<Build>)
    ensures
        v@.len() == build_table().len(),
        forall|i: int| 0 <= i < v@.len() ==> #[trigger] v@[i]@ == build_table()[i],
{
    let unity_5_6 = laid(
        0x10, 0x58, 0x3D0, 0x18, 0x20, 0x28, 0x40, 0x48, 0x18, 0xA0, 0xF0, 0x8C, 0xF8, 0x8, 0x18,
        0x20, 0x48, early(0xD0),
    );
    let unity_2017_4 = laid(
        0x10, 0x58, 0x3D0, 0x18, 0x20, 0x28, 0x48, 0x50, 0x18, 0xA8, 0xF8, 0x94, 0x100, 0x8, 0x18,
        0x20, 0x48, early(0xD8),
    );
    let unity_2018_4 = laid(
        0x10, 0x60, 0x4C0, 0x18, 0x20, 0x28, 0x40, 0x48, 0x54, 0x90, 0xC8, 0xF8, 0x100, 0x8, 0x18,
        0x20, 0x40, linux(0x24),
    );
    let unity_2021_3 = laid(
        0x10, 0x60, 0x4D0, 0x18, 0x20, 0x28, 0x40, 0x48, 0x54, 0x90, 0xC8, 0xF8, 0x100, 0x8, 0x18,
        0x20, 0x48, linux(0x1B),
    );
    let v = vec![
        build(
            vec![0xc1u8, 0xa5, 0x3e, 0xa7, 0x10, 0x9a, 0x2d, 0xa5, 0x82, 0x20, 0xab, 0x30, 0xf4, 0xca, 0xb7, 0xc8, 0xce, 0x8f, 0x38, 0x13],
            Version::V1,
            unity_5_6,
        ),
        build(
            vec![0x93u8, 0xb5, 0xb9, 0x5d, 0x7a, 0x61, 0x12, 0xb3, 0xf7, 0xd5, 0x3b, 0x40, 0xe7, 0x9a, 0x66, 0x3c, 0xbc, 0xd6, 0x2b, 0x14],
            Version::V1Cattrs,
            unity_2017_4,
        ),
        build(
            vec![0xddu8, 0x78, 0x8d, 0x18, 0x60, 0xd9, 0xa7, 0x82, 0x46, 0x8c, 0xb7, 0x30, 0x46, 0x37, 0xdc, 0xdb, 0x7f, 0xbf, 0xd2, 0x89],
            Version::V2,
            unity_2018_4,
        ),
        build(
            vec![0x4eu8, 0x69, 0x0f, 0x26, 0x4a, 0x2a, 0x90, 0x12, 0x03, 0x47, 0xf9, 0x4a, 0xe4, 0x3b, 0x0b, 0x83, 0xd5, 0x78, 0xf6, 0x86],
            Version::V2,
            unity_2018_4,
        ),
        build(vec![0xc1u8, 0x91, 0x05, 0xba, 0x5a, 0xab, 0xaf, 0x80], Version::V3, unity_2021_3),
        build(vec![0x1eu8, 0xcf, 0x45, 0x33, 0x4b, 0x2b, 0x31, 0x90], Version::V3, unity_2021_3),
        build(vec![0x03u8, 0xda, 0x1f, 0x34, 0xb6, 0xaf, 0x47, 0x65], Version::V3, unity_2021_3),
        build(vec![0x63u8, 0xbe, 0x5b, 0xab, 0x8a, 0x2f, 0xba, 0xe2], Version::V3, unity_2021_3),
        build(vec![0x3bu8, 0xc8, 0x9a, 0x83, 0x40, 0x3a, 0x19, 0xca], Version::V3, unity_2021_3),
        build(
            vec![0xbdu8, 0xe0, 0x0f, 0x61, 0x93, 0x81, 0xee, 0x2e, 0x39, 0xd0, 0x91, 0x9c, 0xc8, 0x2f, 0x1b, 0xb7, 0xfd, 0x31, 0x4f, 0x21],
            Version::V3,
            unity_2021_3,
        ),
        build(
            vec![0xadu8, 0x56, 0xac, 0x1a, 0xfb, 0xcf, 0x42, 0xb8, 0x46, 0x61, 0x0f, 0x49, 0xf2, 0xb6, 0xb7, 0x8d, 0x9f, 0x24, 0x03, 0x5f],
            Version::V3,
            unity_2021_3,
        ),
        build(
            vec![0xacu8, 0x33, 0xe6, 0x3f, 0xb7, 0x91, 0xd3, 0x85, 0x76, 0x65, 0x40, 0xef, 0x0d, 0x21, 0xb4, 0xa6, 0x67, 0x7e, 0xdf, 0x71],
            Version::V3,
            unity_2021_3,
        ),
        build(
            vec![0xc2u8, 0xe6, 0x62, 0x08, 0x66, 0x89, 0x84, 0xba, 0x64, 0x4c, 0x54, 0xc2, 0x77, 0xf6, 0x3e, 0x53, 0x7a, 0x57, 0xf0, 0x0e],
            Version::V3,
            unity_2021_3,
        ),
    ];
    proof {
        let t = build_table();
        assert(v@.len() == t.len());
        assert forall|i: int| 0 <= i < v@.len() implies #[trigger] v@[i]@ == t[i] by {
            assert(v@[i].build_id@ =~= t[i].build_id);
        }
    }
    v
}

/// The first build, from `from` on, that a build ID names.
pub open spec fn first_named(t: Seq<KnownBuild>, id: Seq<u8>, from: int) -> Option<int>
    decreases t.len() - from,
{
    if from < 0 || from >= t.len() {
        None
    } else if t[from].build_id == id {
        Some(from)
    } else {
        first_named(t, id, from + 1)
    }
}

/// The build a build ID names.
pub open spec fn find_build(id: Seq<u8>) -> Option<KnownBuild> {
    match first_named(build_table(), id, 0) {
        Some(i) => Some(build_table()[i]),
        None => None,
    }
}

/// Looks a build up by the ID read from the module that names it.
pub fn find(build_id: &[u8]) -> (r: Option<Build>)
    ensures
        match r {
            Some(b) => find_build(build_id@) == Some(b@),
            None => find_build(build_id@).is_none(),
        },
{
    let mut table = builds();
    let ghost t = build_table();
    let mut i: usize = 0;
    while i < table.len()
        invariant
            t == build_table(),
            table@.len() == t.len(),
            forall|j: int| 0 <= j < table@.len() ==> #[trigger] table@[j]@ == t[j],
            0 <= i <= t.len(),
            first_named(t, build_id@, 0) == first_named(t, build_id@, i as int),
        decreases t.len() - i,
    {
        if bytes_eq(table[i].build_id.as_slice(), build_id) {
            assert(table@[i as int]@ == t[i as int]);
            let b = table.remove(i);
            return Some(b);
        }
        assert(table@[i as int]@ == t[i as int]);
        i += 1;
    }
    None
}

/// No build ID names two builds.
pub proof fn lemma_table_names_each_build_once()
    ensures
        forall|i: int, j: int|
            0 <= i < j < build_table().len() ==> build_table()[i].build_id
                != build_table()[j].build_id,
{
    let t = build_table();
    assert forall|i: int, j: int| 0 <= i < j < t.len() implies t[i].build_id != t[j].build_id by {
        if t[i].build_id.len() == t[j].build_id.len() {
            assert(t[i].build_id[0] != t[j].build_id[0] || t[i].build_id[1] != t[j].build_id[1]);
        }
    }
}


/// A version's Linux table places the core members as every build measured
/// for that version and width does, and carries no measured member that
/// contradicts one.
pub proof fn lemma_version_tables_never_contradict_a_build(i: int)
    requires
        0 <= i < build_table().len(),
    ensures
        ({
            let b = build_table()[i];
            offsets_for(b.version, b.pointer_size, BinaryFormat::ELF) matches Some(t) ==> same_core(
                t,
                b.offsets,
            ) && never_contradicts(measured_of(t), measured_of(b.offsets))
        }),
{
}

/// Where two builds of one version and width agree on a measured member, the
/// version's Linux table carries it.
pub proof fn lemma_version_tables_carry_what_two_builds_agree_on(i: int, j: int)
    requires
        0 <= i < build_table().len(),
        0 <= j < build_table().len(),
        i != j,
        build_table()[i].version == build_table()[j].version,
        build_table()[i].pointer_size == build_table()[j].pointer_size,
    ensures
        ({
            let b = build_table()[i];
            offsets_for(b.version, b.pointer_size, BinaryFormat::ELF) matches Some(t)
                && carries_agreement(
                measured_of(t),
                measured_of(b.offsets),
                measured_of(build_table()[j].offsets),
            )
        }),
{
}

} // verus!
