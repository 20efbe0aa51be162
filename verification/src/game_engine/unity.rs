//! Support for games using the Unity engine.

use vstd::prelude::*;

pub mod il2cpp;
pub mod managed;
pub mod measured;
pub mod mono;
pub mod scene_manager;

verus! {

/// The executable formats a Unity player ships in.
#[derive(Copy, Clone, Debug, PartialEq, Eq, Structural)]
pub enum BinaryFormat {
    /// Windows' Portable Executable.
    PE,
    /// Linux's Executable and Linkable Format.
    ELF,
    /// macOS's Mach-O.
    MachO,
}

/// How many bytes a name read out of the runtime's metadata spans.
pub const CSTR: usize = 128;

/// `>k__BackingField`, what a backing field's name ends with.
pub open spec fn backing_suffix() -> Seq<u8> {
    seq![0x3E, 0x6B, 0x5F, 0x5F, 0x42, 0x61, 0x63, 0x6B, 0x69, 0x6E, 0x67, 0x46, 0x69, 0x65, 0x6C, 0x64]
}

/// The name a property's compiler-generated backing field carries around the
/// property's own name.
pub open spec fn backing_name(field: Seq<u8>) -> Option<Seq<u8>> {
    let suffix = backing_suffix();
    if field.len() >= 17 && field[0] == 0x3C && field.subrange(field.len() - 16, field.len() as int) == suffix {
        Some(field.subrange(1, field.len() - 16))
    } else {
        None
    }
}

/// Returns the property name a backing field, `<Name>k__BackingField`, is
/// generated for.
pub fn get_backing_name(field: &[u8]) -> (r: Option<Vec<u8>>)
    ensures
        match r {
            Some(v) => backing_name(field@) == Some(v@),
            None => backing_name(field@).is_none(),
        },
{
    let suffix: [u8; 16] = [0x3E, 0x6B, 0x5F, 0x5F, 0x42, 0x61, 0x63, 0x6B, 0x69, 0x6E, 0x67, 0x46, 0x69, 0x65, 0x6C, 0x64];
    let ghost spec_suffix: Seq<u8> = backing_suffix();
    assert(suffix@ =~= spec_suffix);
    let n = field.len();
    if n < 17 || field[0] != 0x3C {
        return None;
    }
    let mut i: usize = 0;
    while i < 16
        invariant
            n == field@.len(),
            n >= 17,
            0 <= i <= 16,
            suffix@ == spec_suffix,
            spec_suffix == backing_suffix(),
            forall|j: int| 0 <= j < i ==> field@[n - 16 + j] == suffix@[j],
        decreases 16 - i,
    {
        if field[n - 16 + i] != suffix[i] {
            assert(field@.subrange(n - 16, n as int)[i as int] != spec_suffix[i as int]);
            return None;
        }
        i += 1;
    }
    assert(field@.subrange(n - 16, n as int) =~= spec_suffix);
    let mut out: Vec<u8> = Vec::new();
    let mut k: usize = 1;
    while k < n - 16
        invariant
            n == field@.len(),
            n >= 17,
            1 <= k <= n - 16,
            out@ =~= field@.subrange(1, k as int),
        decreases n - 16 - k,
    {
        out.push(field[k]);
        k += 1;
    }
    Some(out)
}

} // verus!
