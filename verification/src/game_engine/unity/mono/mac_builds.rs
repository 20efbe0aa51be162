//! Known Mac Mono builds: exact runtime binaries paired with the offsets
//! measured from them.
//!
//! A build is named by its UUID, which a linker derives from the binary it
//! writes, so it names that one build and nothing else. A Mac library holds a
//! slice per architecture, each linked separately with its own UUID, so one
//! build carries as many UUIDs as it has slices.

use vstd::prelude::*;
use vstd::string::StringSliceAdditionalSpecFns;

use super::super::BinaryFormat;
use super::offsets::{
    laid, layout, linux, linux_measured, measured_of, offsets_for, same_core, unmeasured,
    MonoOffsets,
};
use super::version::Version;
use crate::primitives::PointerSize;
use crate::process::bytes_eq;

use crate::signature::hex_char;

verus! {

/// One exact Mono library slice and the offsets measured from it.
pub struct Build {
    /// The UUID of the slice, as its load command stores it.
    pub uuid: Vec<u8>,
    /// The pointer width of the slice.
    pub pointer_size: PointerSize,
    /// The Mono version the build runs.
    pub version: Version,
    /// The offsets measured from the build.
    pub offsets: MonoOffsets,
}

/// A known slice as a value.
pub struct KnownSlice {
    /// The UUID.
    pub uuid: Seq<u8>,
    /// The pointer width.
    pub pointer_size: PointerSize,
    /// The Mono version.
    pub version: Version,
    /// The measured offsets.
    pub offsets: MonoOffsets,
}

impl View for Build {
    type V = KnownSlice;

    open spec fn view(&self) -> KnownSlice {
        KnownSlice {
            uuid: self.uuid@,
            pointer_size: self.pointer_size,
            version: self.version,
            offsets: self.offsets,
        }
    }
}

/// Whether a byte is an uppercase hex digit.
pub open spec fn is_upper_hex(c: u8) -> bool {
    (0x30 <= c <= 0x39) || (0x41 <= c <= 0x46)
}

/// The value of an uppercase hex digit.
pub open spec fn upper_hex_value(c: u8) -> u8 {
    if c <= 0x39 {
        (c - 0x30) as u8
    } else {
        (c - 0x41 + 10) as u8
    }
}

/// The bytes the rest of a written UUID stores, reading from `at` once
/// `index` bytes are in: a dash is passed over, a pair of digits is the next
/// byte, high first, until all 16 are in. Nothing when the text runs out or
/// holds something else first.
pub open spec fn uuid_from(s: Seq<u8>, at: int, index: int) -> Option<Seq<u8>>
    decreases 16 - index, s.len() - at,
{
    if index >= 16 {
        Some(Seq::empty())
    } else if at < 0 || at >= s.len() {
        None
    } else if s[at] == 0x2D {
        uuid_from(s, at + 1, index)
    } else if at + 1 < s.len() && is_upper_hex(s[at]) && is_upper_hex(s[at + 1]) {
        match uuid_from(s, at + 2, index + 1) {
            Some(rest) => Some(
                seq![(upper_hex_value(s[at]) * 16 + upper_hex_value(s[at + 1])) as u8] + rest,
            ),
            None => None,
        }
    } else {
        None
    }
}

/// The bytes a UUID written in its 36 characters stores.
pub open spec fn stored_uuid(s: Seq<u8>) -> Option<Seq<u8>> {
    if s.len() == 36 {
        uuid_from(s, 0, 0)
    } else {
        None
    }
}

/// A nibble written as an uppercase hex digit reads back as itself.
pub proof fn lemma_uuid_digits_read_back(n: u8)
    requires
        n < 16,
    ensures
        is_upper_hex(hex_char(n, true)),
        upper_hex_value(hex_char(n, true)) == n,
{
}

/// The value of an uppercase hex digit.
fn hex(c: u8) -> (v: u8)
    requires
        is_upper_hex(c),
    ensures
        v == upper_hex_value(c),
        v < 16,
{
    if c <= 0x39 {
        c - 0x30
    } else {
        c - 0x41 + 10
    }
}

/// Parses a UUID from the form it is normally written in, into the bytes the
/// load command stores.
pub fn id(written: &str) -> (r: Vec<u8>)
    requires
        stored_uuid(written.spec_bytes()) is Some,
    ensures
        Some(r@) == stored_uuid(written.spec_bytes()),
{
    let s = written.as_bytes();
    let mut parsed: Vec<u8> = Vec::new();
    let mut index: usize = 0;
    let mut at: usize = 0;
    while index < 16
        invariant
            s@ == written.spec_bytes(),
            s@.len() == 36,
            0 <= index <= 16,
            0 <= at <= 36,
            parsed@.len() == index,
            uuid_from(s@, at as int, index as int) is Some,
            uuid_from(s@, 0, 0) == Some(parsed@ + uuid_from(s@, at as int, index as int)->0),
        decreases 16 - index, 36 - at,
    {
        if s[at] == 0x2D {
            at += 1;
        } else {
            let high = hex(s[at]);
            let low = hex(s[at + 1]);
            let byte = high * 16 + low;
            proof {
                let rest = uuid_from(s@, at + 2, index + 1)->0;
                assert(parsed@ + uuid_from(s@, at as int, index as int)->0 =~= parsed@.push(byte)
                    + rest);
            }
            parsed.push(byte);
            index += 1;
            at += 2;
        }
    }
    proof {
        assert(parsed@ + Seq::<u8>::empty() =~= parsed@);
    }
    parsed
}

/// The offsets measured on 6000.5.
pub open spec fn unity_6000_5() -> MonoOffsets {
    layout(
        0x10, 0x60, 0x4D0, 0x18, 0x20, 0x28, 0x40, 0x48, 0x54, 0x90, 0xC8, 0xF8, 0x100, 0x8, 0x18,
        0x20, 0x48, linux_measured(0x1B),
    )
}

/// The known slices.
pub open spec fn build_table() -> Seq<KnownSlice> {
    seq![
        // 6000.5.10f1, x86_64
        KnownSlice {
            uuid: seq![0x7Fu8, 0xB2, 0xE1, 0x93, 0x87, 0x3C, 0x3C, 0x2F, 0xB0, 0x45, 0x4F, 0x07, 0x4B, 0xD0, 0x69, 0x96],
            pointer_size: PointerSize::Bit64,
            version: Version::V3,
            offsets: unity_6000_5(),
        },
        // 6000.5.10f1, arm64
        KnownSlice {
            uuid: seq![0xE9u8, 0xC5, 0xE0, 0x6A, 0x62, 0xE5, 0x3A, 0x9A, 0x9D, 0x5D, 0x54, 0xF0, 0xD1, 0x6F, 0xFF, 0xA8],
            pointer_size: PointerSize::Bit64,
            version: Version::V3,
            offsets: unity_6000_5(),
        },
    ]
}

/// Returns the known slices.
pub fn builds() -> (v: Vec<Build>)
    ensures
        v@.len() == build_table().len(),
        forall|i: int| 0 <= i < v@.len() ==> #[trigger] v@[i]@ == build_table()[i],
{
    let unity_6000_5 = laid(
        0x10, 0x60, 0x4D0, 0x18, 0x20, 0x28, 0x40, 0x48, 0x54, 0x90, 0xC8, 0xF8, 0x100, 0x8, 0x18,
        0x20, 0x48, linux(0x1B),
    );
    let v = vec![
        Build {
            uuid: vec![0x7Fu8, 0xB2, 0xE1, 0x93, 0x87, 0x3C, 0x3C, 0x2F, 0xB0, 0x45, 0x4F, 0x07, 0x4B, 0xD0, 0x69, 0x96],
            pointer_size: PointerSize::Bit64,
            version: Version::V3,
            offsets: unity_6000_5,
        },
        Build {
            uuid: vec![0xE9u8, 0xC5, 0xE0, 0x6A, 0x62, 0xE5, 0x3A, 0x9A, 0x9D, 0x5D, 0x54, 0xF0, 0xD1, 0x6F, 0xFF, 0xA8],
            pointer_size: PointerSize::Bit64,
            version: Version::V3,
            offsets: unity_6000_5,
        },
    ];
    proof {
        let t = build_table();
        assert forall|i: int| 0 <= i < v@.len() implies #[trigger] v@[i]@ == t[i] by {
            assert(v@[i].uuid@ =~= t[i].uuid);
        }
    }
    v
}

/// The first slice, from `from` on, that a UUID names.
pub open spec fn first_named(t: Seq<KnownSlice>, uuid: Seq<u8>, from: int) -> Option<int>
    decreases t.len() - from,
{
    if from < 0 || from >= t.len() {
        None
    } else if t[from].uuid == uuid {
        Some(from)
    } else {
        first_named(t, uuid, from + 1)
    }
}

/// The slice a UUID names.
pub open spec fn find_build(uuid: Seq<u8>) -> Option<KnownSlice> {
    match first_named(build_table(), uuid, 0) {
        Some(i) => Some(build_table()[i]),
        None => None,
    }
}

/// Looks a build up by the UUID read from the library.
pub fn find(uuid: &[u8]) -> (r: Option<Build>)
    ensures
        match r {
            Some(b) => find_build(uuid@) == Some(b@),
            None => find_build(uuid@).is_none(),
        },
{
    let mut table = builds();
    let ghost t = build_table();
    let mut i: usize = 0;
    while i < table.len()
        invariant
            t == build_table(),
            table@.len() == t.len(),
            forall|j: int| 0 <= j < table@.len() ==> #[trigger] table@[j]@ == t[j],
            0 <= i <= t.len(),
            first_named(t, uuid@, 0) == first_named(t, uuid@, i as int),
        decreases t.len() - i,
    {
        if bytes_eq(table[i].uuid.as_slice(), uuid) {
            assert(table@[i as int]@ == t[i as int]);
            let b = table.remove(i);
            return Some(b);
        }
        assert(table@[i as int]@ == t[i as int]);
        i += 1;
    }
    None
}

/// No UUID names two slices.
pub proof fn lemma_table_names_each_slice_once()
    ensures
        forall|i: int, j: int|
            0 <= i < j < build_table().len() ==> build_table()[i].uuid != build_table()[j].uuid,
{
    let t = build_table();
    assert(t[0].uuid[0] != t[1].uuid[0]);
}

/// One build says nothing about the versions a table stands in for: a
/// macOS table carries no measured member, and places the core members as
/// each known slice of its version does.
pub proof fn lemma_version_tables_say_nothing_a_single_build_would_have_to_carry(i: int)
    requires
        0 <= i < build_table().len(),
    ensures
        ({
            let b = build_table()[i];
            offsets_for(b.version, b.pointer_size, BinaryFormat::MachO) matches Some(t)
                && measured_of(t) == unmeasured() && same_core(t, b.offsets)
                && t.v_table == b.offsets.v_table
        }),
{
}

} // verus!
