//! What names the exact build of a runtime: the build ID a Linux binary
//! carries, or the UUID a Mac library was linked with.

use vstd::prelude::*;
use vstd::string::StringSliceAdditionalSpecFns;

use super::super::BinaryFormat;
use super::offsets::MonoOffsets;
use super::version::Version;
use super::{linux_builds, mac_builds};
use crate::file_format::{elf, macho};
use crate::primitives::{Address, PointerSize};
use crate::process::Process;

verus! {

/// The build ID a binary carries in its notes.
pub struct BuildId {
    bytes: Vec<u8>,
}

impl View for BuildId {
    type V = Seq<u8>;

    closed spec fn view(&self) -> Seq<u8> {
        self.bytes@
    }
}

impl BuildId {
    /// Returns the bytes of the build ID.
    pub fn as_bytes(&self) -> (b: &[u8])
        ensures
            b@ == self@,
    {
        self.bytes.as_slice()
    }
}

/// What names the exact build of a runtime.
pub enum Identity {
    /// A build ID, and the module that carries it.
    Build(BuildId, &'static str),
    /// The UUID a Mac library was linked with.
    Uuid(Vec<u8>),
}

/// What names a build, as a value.
pub enum Named {
    /// A build ID, and the name of the module that carries it.
    Build(Seq<u8>, Seq<u8>),
    /// A UUID.
    Uuid(Seq<u8>),
}

impl View for Identity {
    type V = Named;

    open spec fn view(&self) -> Named {
        match self {
            Identity::Build(id, module) => Named::Build(id@, module.spec_bytes()),
            Identity::Uuid(uuid) => Named::Uuid(uuid@),
        }
    }
}

/// What names the build of a runtime module. On Linux the runtime's own
/// build ID answers whenever it carries one, and the player's only when it
/// carries none; on macOS the library's UUID answers. Nothing names a
/// Windows build here.
pub open spec fn identity_of(
    p: Process,
    runtime: u64,
    runtime_name: Seq<u8>,
    player: Option<u64>,
    format: BinaryFormat,
) -> Option<Named> {
    match format {
        BinaryFormat::ELF => match elf::build_id(p, runtime) {
            Some(id) => Some(Named::Build(id, runtime_name)),
            None => match player {
                Some(base) => match elf::build_id(p, base) {
                    Some(id) => Some(Named::Build(id, "UnityPlayer.so".spec_bytes())),
                    None => None,
                },
                None => None,
            },
        },
        BinaryFormat::MachO => match macho::uuid(p, runtime) {
            Some(uuid) => Some(Named::Uuid(uuid)),
            None => None,
        },
        BinaryFormat::PE => None,
    }
}

/// The version and measured offsets of the known build a name names, when
/// it was measured at the given width.
pub open spec fn known_build_of(n: Named, ps: PointerSize) -> Option<(Version, MonoOffsets)> {
    match n {
        Named::Build(id, _) => match linux_builds::find_build(id) {
            Some(b) => if b.pointer_size == ps {
                Some((b.version, b.offsets))
            } else {
                None
            },
            None => None,
        },
        Named::Uuid(uuid) => match mac_builds::find_build(uuid) {
            Some(b) => if b.pointer_size == ps {
                Some((b.version, b.offsets))
            } else {
                None
            },
            None => None,
        },
    }
}

/// A runtime binary that names itself is the one that answers: its own
/// build ID names the build whatever the player carries, and the player's
/// answers only when the runtime carries none.
pub proof fn lemma_runtimes_that_name_themselves_are_never_passed_over(
    p: Process,
    runtime: u64,
    runtime_name: Seq<u8>,
    player: Option<u64>,
)
    ensures
        elf::build_id(p, runtime) matches Some(id) ==> identity_of(
            p,
            runtime,
            runtime_name,
            player,
            BinaryFormat::ELF,
        ) == Some(Named::Build(id, runtime_name)),
        identity_of(p, runtime, runtime_name, player, BinaryFormat::ELF) matches Some(
            Named::Build(id, name),
        ) ==> (elf::build_id(p, runtime) == Some(id) && name == runtime_name) || (elf::build_id(
            p,
            runtime,
        ) is None && (player matches Some(base) && elf::build_id(p, base) == Some(id)))
{
}

impl Identity {
    /// Reads what names the build of a runtime module: the module and its
    /// name, where the player sits when there is one, and the module's
    /// format.
    pub fn read(
        process: &Process,
        runtime: ((Address, u64), &'static str),
        player: Option<(Address, u64)>,
        format: BinaryFormat,
    ) -> (r: Option<Identity>)
        ensures
            match r {
                Some(i) => identity_of(
                    *process,
                    runtime.0.0.0,
                    runtime.1.spec_bytes(),
                    match player { Some(pl) => Some(pl.0.0), None => None },
                    format,
                ) == Some(i@),
                None => identity_of(
                    *process,
                    runtime.0.0.0,
                    runtime.1.spec_bytes(),
                    match player { Some(pl) => Some(pl.0.0), None => None },
                    format,
                ).is_none(),
            },
    {
        match format {
            BinaryFormat::ELF => match elf::read_build_id(process, runtime.0.0) {
                Some(id) => Some(Identity::Build(BuildId { bytes: id }, runtime.1)),
                None => match player {
                    Some(range) => match elf::read_build_id(process, range.0) {
                        Some(id) => Some(Identity::Build(BuildId { bytes: id }, "UnityPlayer.so")),
                        None => None,
                    },
                    None => None,
                },
            },
            BinaryFormat::MachO => match macho::read_uuid(process, runtime.0.0) {
                Some(uuid) => Some(Identity::Uuid(uuid)),
                None => None,
            },
            BinaryFormat::PE => None,
        }
    }

    /// The version and measured offsets of the known build this names, when
    /// it was measured at the given width.
    pub fn known_build(&self, pointer_size: PointerSize) -> (r: Option<(Version, MonoOffsets)>)
        ensures
            r == known_build_of(self@, pointer_size),
    {
        match self {
            Identity::Build(id, _) => match linux_builds::find(id.as_bytes()) {
                Some(b) => if b.pointer_size == pointer_size {
                    Some((b.version, b.offsets))
                } else {
                    None
                },
                None => None,
            },
            Identity::Uuid(uuid) => match mac_builds::find(uuid.as_slice()) {
                Some(b) => if b.pointer_size == pointer_size {
                    Some((b.version, b.offsets))
                } else {
                    None
                },
                None => None,
            },
        }
    }
}

} // verus!
