//! The Mono runtime versions Unity ships, and how to tell which one a game
//! runs.

use vstd::prelude::*;
use vstd::string::StringSliceAdditionalSpecFns;

use super::{attach_of, module_range, walk_of, Module};
use crate::file_format::pe;
use crate::file_format::pe::{file_version, size_of_image};
use crate::game_engine::unity::il2cpp::{first_match, first_matching};
use crate::game_engine::unity::managed::cursor::classes_of;
use crate::game_engine::unity::managed::ImageRef;
use crate::game_engine::unity::BinaryFormat;
use crate::primitives::{wrap_add, Address};
use crate::process::Process;
use crate::signature::Signature;
use crate::text::{find_byte, first_index, sub_bytes};

verus! {

/// The version of Mono that was used for the game. These don't correlate to
/// the Mono version numbers.
#[derive(Copy, Clone, Debug, PartialEq, Eq, Structural, Hash)]
pub enum Version {
    /// Version 1
    V1,
    /// Version 1 with cattrs
    V1Cattrs,
    /// Version 2
    V2,
    /// Version 3
    V3,
}

/// The runtime a player of the given Unity version runs: the third version
/// from 2021.2 on, the second before.
pub open spec fn version_of_unity(major: int, minor: int) -> Version {
    if major > 2021 || (major == 2021 && minor >= 2) {
        Version::V3
    } else {
        Version::V2
    }
}

/// Whether a byte is a decimal digit.
pub open spec fn is_digit(c: u8) -> bool {
    0x30 <= c <= 0x39
}

/// The number the digits from `i` on spell, up to the first byte that is
/// not one, on top of what `acc` already holds.
pub open spec fn leading_from(s: Seq<u8>, i: int, acc: int) -> int
    decreases s.len() - i,
{
    if i < 0 || i >= s.len() || !is_digit(s[i]) {
        acc
    } else {
        leading_from(s, i + 1, acc * 10 + (s[i] - 0x30))
    }
}

/// The number the leading digits of a byte string spell.
pub open spec fn leading_number(s: Seq<u8>) -> int {
    leading_from(s, 0, 0)
}

/// `\0202?.`, where an ELF player's version string starts.
pub open spec fn version_string_pattern() -> Seq<u8> {
    "00 32 30 32 ?? 2E".spec_bytes()
}

/// The runtime the version string found in an ELF player names: its major
/// version before the dot, its minor after it. A player holding no such
/// string runs the second version.
pub open spec fn elf_player_version(p: Process, player: (Address, u64)) -> Option<Version> {
    match first_match(p, version_string_pattern(), player) {
        None => Some(Version::V2),
        Some(hit) => match p.mem(wrap_add(hit.0, 1), 6) {
            None => None,
            Some(b) => match first_index(b, 0x2E) {
                None => None,
                Some(dot) => Some(
                    version_of_unity(leading_number(b.take(dot)), leading_number(b.skip(dot + 1))),
                ),
            },
        },
    }
}

/// The Unity player: `UnityPlayer.dll` with the size of its image, else
/// `UnityPlayer.so`.
pub open spec fn unity_player_of(p: Process) -> Option<((Address, u64), BinaryFormat)> {
    match p.module_named("UnityPlayer.dll".spec_bytes()) {
        Some(m) if size_of_image(p, m.base) is Some => Some(
            ((Address(m.base), size_of_image(p, m.base)->0 as u64), BinaryFormat::PE),
        ),
        _ => match module_range(p, "UnityPlayer.so".spec_bytes()) {
            Some(r) => Some((r, BinaryFormat::ELF)),
            None => None,
        },
    }
}

/// The first version's two layouts, told apart: with cattrs, the first
/// class of the default image keeps the image where the plain layout keeps
/// the class's name.
pub open spec fn first_version_of(p: Process) -> Option<Version> {
    match attach_of(p, Version::V1) {
        None => None,
        Some(m) => match walk_of(m).find_image_of(p, "Assembly-CSharp".spec_bytes()) {
            None => None,
            Some(image) => {
                let classes = classes_of(walk_of(m).runtime, p, m.pointer_size, image);
                if classes.len() == 0 {
                    None
                } else {
                    match p.mem_ptr(wrap_add(classes[0], m.offsets.class.name as int), m.pointer_size) {
                        Some(at) => Some(
                            if at == image {
                                Version::V1Cattrs
                            } else {
                                Version::V1
                            },
                        ),
                        None => None,
                    }
                }
            },
        },
    }
}

/// The version a game runs: one of the first version's layouts when the old
/// runtime library is loaded, else what the Unity player's version says.
pub open spec fn detect_of(p: Process) -> Option<Version> {
    if p.module_named("mono.dll".spec_bytes()) is Some || p.module_named(
        "libmono.so".spec_bytes(),
    ) is Some {
        first_version_of(p)
    } else {
        match unity_player_of(p) {
            None => None,
            Some((range, BinaryFormat::PE)) => match file_version(p, range.0.0) {
                Some(v) => Some(version_of_unity(v.major_version as int, v.minor_version as int)),
                None => None,
            },
            Some((range, _)) => elf_player_version(p, range),
        }
    }
}

/// The number the leading digits of a byte string spell.
fn read_leading_number(s: &[u8]) -> (r: u32)
    requires
        s@.len() <= 6,
    ensures
        r == leading_number(s@),
{
    let mut acc: u32 = 0;
    let mut i: usize = 0;
    while i < s.len() && 0x30 <= s[i] && s[i] <= 0x39
        invariant
            0 <= i <= s@.len(),
            s@.len() <= 6,
            acc < pow10(i as nat),
            leading_number(s@) == leading_from(s@, i as int, acc as int),
        decreases s@.len() - i,
    {
        assert(pow10(i as nat) <= 100_000) by {
            reveal_with_fuel(pow10, 6);
        }
        assert(acc * 10 + 9 < 10 * pow10(i as nat));
        acc = acc * 10 + (s[i] - 0x30) as u32;
        i += 1;
    }
    acc
}

/// Ten to the `n`th, capped where the version strings end.
pub open spec fn pow10(n: nat) -> int
    decreases n,
{
    if n == 0 {
        1
    } else {
        10 * pow10((n - 1) as nat)
    }
}

impl Version {
    /// The runtime a player of the given Unity version runs.
    pub fn of_unity(major: u32, minor: u32) -> (r: Version)
        ensures
            r == version_of_unity(major as int, minor as int),
    {
        if major > 2021 || (major == 2021 && minor >= 2) {
            Version::V3
        } else {
            Version::V2
        }
    }

    /// Reads the runtime the version string in an ELF player names.
    fn of_elf_player(process: &Process, player: (Address, u64)) -> (r: Option<Version>)
        ensures
            r == elf_player_version(*process, player),
    {
        let sig = Signature::new("00 32 30 32 ?? 2E");
        let hit = match first_matching(process, &sig, player) {
            Some(h) => h,
            None => return Some(Version::V2),
        };
        let b = process.read_bytes(hit.add(1), 6)?;
        let dot = find_byte(b.as_slice(), 0x2E)?;
        proof {
            crate::text::lemma_first_index(b@, 0x2E);
        }
        let before = sub_bytes(b.as_slice(), 0, dot);
        let after = sub_bytes(b.as_slice(), dot + 1, 6);
        proof {
            assert(before@ =~= b@.take(dot as int));
            assert(after@ =~= b@.skip(dot + 1));
        }
        let unity = read_leading_number(before.as_slice());
        let minor = read_leading_number(after.as_slice());
        Some(Self::of_unity(unity, minor))
    }

    /// Tells the first version's two layouts apart on the default image's
    /// first class.
    fn first_version(process: &Process) -> (r: Option<Version>)
        ensures
            r == first_version_of(*process),
    {
        let module = Module::attach(process, Version::V1)?;
        let image = module.get_default_image(process)?;
        let walk = module.walk();
        let mut classes = walk.runtime.classes(process, module.pointer_size, ImageRef::new(image.image));
        let class = classes.next()?;
        let at = match process.read_pointer(
            class.address.add(module.offsets.class.name as u64),
            module.pointer_size,
        ) {
            Ok(a) => a,
            Err(_) => return None,
        };
        Some(
            if at.0 == image.image.0 {
                Version::V1Cattrs
            } else {
                Version::V1
            },
        )
    }

    /// Detects the Mono version a game runs. The old runtime library is the
    /// first version, with or without cattrs; otherwise the Unity player's
    /// version decides: its file version on Windows, the version string in
    /// its memory on Linux.
    pub fn detect(process: &Process) -> (r: Option<Version>)
        ensures
            r == detect_of(*process),
    {
        if process.get_module_address("mono.dll").is_ok() || process.get_module_address(
            "libmono.so",
        ).is_ok() {
            return Self::first_version(process);
        }
        let dll = match process.get_module_address("UnityPlayer.dll") {
            Ok(address) => match pe::read_size_of_image(process, address) {
                Some(size) => Some((address, size as u64)),
                None => None,
            },
            Err(_) => None,
        };
        match dll {
            Some(range) => {
                let file_version = pe::FileVersion::read(process, range.0)?;
                Some(Self::of_unity(file_version.major_version as u32, file_version.minor_version as u32))
            },
            None => {
                let range = match process.get_module_range("UnityPlayer.so") {
                    Ok(r) => r,
                    Err(_) => return None,
                };
                Self::of_elf_player(process, range)
            },
        }
    }
}

/// Whether Unity version `a` is at or before Unity version `b`, by major
/// version, then by minor version.
pub open spec fn unity_at_or_before(a: (int, int), b: (int, int)) -> bool {
    a.0 < b.0 || (a.0 == b.0 && a.1 <= b.1)
}

/// A Unity version runs the second or the third Mono version, and a later
/// Unity version never runs an older Mono version than an earlier one.
pub proof fn lemma_mono_versions_never_go_back(a: (int, int), b: (int, int))
    requires
        unity_at_or_before(a, b),
    ensures
        version_of_unity(a.0, a.1) == Version::V2 || version_of_unity(a.0, a.1) == Version::V3,
        version_of_unity(a.0, a.1) == Version::V3 ==> version_of_unity(b.0, b.1) == Version::V3,
        version_of_unity(b.0, b.1) == Version::V2 ==> version_of_unity(a.0, a.1) == Version::V2,
{
}

/// The third Mono version starts with Unity 2021.2: 2021.1 still runs the
/// second, and so does every earlier Unity, while every later one, 2022 and
/// on included, runs the third.
pub proof fn lemma_the_third_mono_version_starts_at_2021_2(major: int, minor: int)
    requires
        0 <= minor,
    ensures
        version_of_unity(2021, 2) == Version::V3,
        version_of_unity(2021, 1) == Version::V2,
        major > 2021 ==> version_of_unity(major, minor) == Version::V3,
        major < 2021 ==> version_of_unity(major, minor) == Version::V2,
{
    if major > 2021 {
        lemma_mono_versions_never_go_back((2021, 2), (major, minor));
    }
    if major < 2021 {
        lemma_mono_versions_never_go_back((major, minor), (2021, 1));
    }
}

} // verus!
