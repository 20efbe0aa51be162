//! The IL2CPP generations by the Unity version that introduced them.

use vstd::prelude::*;
use vstd::string::StringSliceAdditionalSpecFns;

use crate::file_format::pe;
use crate::file_format::pe::{file_version, pointer_size_of, FileVersion};
use crate::primitives::PointerSize;
use crate::process::Process;

verus! {

/// The version of IL2CPP that was used for the game.
#[derive(Copy, Clone, Debug, PartialEq, Eq, Structural, Hash)]
pub enum Version {
    /// The base version.
    Base,
    /// The version used starting from Unity 2019.0
    V2019,
    /// The version used starting from Unity 2020.2
    V2020,
    /// The version used starting from Unity 2022.2
    V2022,
}

/// The generation a 64-bit player of the given file version runs.
pub open spec fn version_of_file(v: FileVersion) -> Version {
    if v.major_version >= 2023 || (v.major_version == 2022 && v.minor_version >= 2) {
        Version::V2022
    } else if (v.major_version >= 2021 && v.major_version < 2023) || (v.major_version == 2020
        && v.minor_version >= 2) {
        Version::V2020
    } else if (v.major_version == 2020 && v.minor_version < 2) || v.major_version == 2019 {
        Version::V2019
    } else {
        Version::Base
    }
}

/// The generation the player of a process runs: a 32-bit player always
/// runs the base one.
pub open spec fn detect_of(p: Process) -> Option<Version> {
    match p.module_named("UnityPlayer.dll".spec_bytes()) {
        None => None,
        Some(m) => match pointer_size_of(p, m.base) {
            None => None,
            Some(ps) => if ps == PointerSize::Bit32 {
                Some(Version::Base)
            } else {
                match file_version(p, m.base) {
                    Some(v) => Some(version_of_file(v)),
                    None => None,
                }
            },
        },
    }
}

impl Version {
    /// The generation a 64-bit player of the given file version runs.
    pub fn of_file_version(file_version: FileVersion) -> (r: Version)
        ensures
            r == version_of_file(file_version),
    {
        let major = file_version.major_version;
        let minor = file_version.minor_version;
        if major >= 2023 || (major == 2022 && minor >= 2) {
            Version::V2022
        } else if (major >= 2021 && major < 2023) || (major == 2020 && minor >= 2) {
            Version::V2020
        } else if (major == 2020 && minor < 2) || major == 2019 {
            Version::V2019
        } else {
            Version::Base
        }
    }

    /// Detects the generation the player of a process runs.
    pub fn detect(process: &Process) -> (r: Option<Version>)
        ensures
            r == detect_of(*process),
    {
        let unity_module = match process.get_module_address("UnityPlayer.dll") {
            Ok(a) => a,
            Err(_) => return None,
        };
        if pe::read_pointer_size(process, unity_module)? == PointerSize::Bit32 {
            return Some(Version::Base);
        }
        let file_version = pe::FileVersion::read(process, unity_module)?;
        Some(Self::of_file_version(file_version))
    }
}

/// Where a generation stands among the generations, oldest first.
pub open spec fn generation_rank(v: Version) -> int {
    match v {
        Version::Base => 0,
        Version::V2019 => 1,
        Version::V2020 => 2,
        Version::V2022 => 3,
    }
}

/// A later player never runs an older generation than an earlier one.
pub proof fn lemma_generations_never_go_back(a: FileVersion, b: FileVersion)
    requires
        a.major_version < b.major_version || (a.major_version == b.major_version && a.minor_version
            <= b.minor_version),
    ensures
        generation_rank(version_of_file(a)) <= generation_rank(version_of_file(b)),
{
}

/// Each generation starts at the Unity version its name gives: 2019.0,
/// 2020.2 and 2022.2, and the players just before each still run the one
/// before it.
pub proof fn lemma_generations_start_where_they_are_named(build: u16, private: u16)
    ensures
        version_of_file((FileVersion { major_version: 2018, minor_version: 4, build_part: build, private_part: private })) == Version::Base,
        version_of_file((FileVersion { major_version: 2019, minor_version: 0, build_part: build, private_part: private })) == Version::V2019,
        version_of_file((FileVersion { major_version: 2020, minor_version: 1, build_part: build, private_part: private })) == Version::V2019,
        version_of_file((FileVersion { major_version: 2020, minor_version: 2, build_part: build, private_part: private })) == Version::V2020,
        version_of_file((FileVersion { major_version: 2022, minor_version: 1, build_part: build, private_part: private })) == Version::V2020,
        version_of_file((FileVersion { major_version: 2022, minor_version: 2, build_part: build, private_part: private })) == Version::V2022,
{
}

} // verus!
