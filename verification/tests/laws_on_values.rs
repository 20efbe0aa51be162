//! The library's laws, each checked on concrete values.

use asr::game_engine::unity::il2cpp::builds::nearest;
use asr::game_engine::unity::mono::{Module, MonoOffsets, UnityPointer, Version};
use asr::game_engine::unity::scene_manager::get_name;
use asr::game_engine::unity::BinaryFormat;
use asr::process::{MemoryRegion, ModuleInfo};
use asr::signature::Signature;
use asr::string::read_cstring;
use asr::{Address, PointerSize, Process};

const BASE: u64 = 0x50_0000;

fn put(image: &mut [u8], at: u64, bytes: &[u8]) {
    let at = at as usize;
    image[at..at + bytes.len()].copy_from_slice(bytes);
}

fn process(bytes: Vec<u8>) -> Process {
    Process::new(
        vec![MemoryRegion { base: BASE, bytes }],
        Vec::<ModuleInfo>::new(),
    )
}

// Every match a scan finds matches, they come out from the lowest, and none
// in the range is missed.
#[test]
fn scans_find_every_match_from_the_lowest() {
    let mut i = vec![0u8; 0x100];
    put(&mut i, 0x10, &[0xAB, 0x01]);
    put(&mut i, 0x40, &[0xAB, 0x02]);
    put(&mut i, 0x80, &[0xAB, 0x03]);
    put(&mut i, 0xC0, &[0xAC, 0x03]);
    let p = process(i);
    let sig = Signature::new("AB ??");
    let hits = sig.scan_all(&p, (Address::new(BASE), 0x100));
    assert_eq!(
        hits,
        [
            Address::new(BASE + 0x10),
            Address::new(BASE + 0x40),
            Address::new(BASE + 0x80)
        ]
    );
    assert!(hits.iter().all(|&h| sig.matches_at(&p, h)));
    assert_eq!(
        sig.scan_process_range(&p, (Address::new(BASE + 0x11), 0xEF)),
        Some(Address::new(BASE + 0x40))
    );
}

// A nul-terminated string is how its bytes start, without the nul.
#[test]
fn strings_are_how_their_bytes_start() {
    let mut i = vec![0u8; 0x40];
    put(&mut i, 0x0, b"Level\0Garbage");
    let p = process(i);
    let s = read_cstring::<16>(&p, Address::new(BASE)).unwrap();
    assert_eq!(s.as_bytes(), b"Level");
    assert!(!s.as_bytes().contains(&0));
}

// A scene's name is a bare file name.
#[test]
fn scene_names_hold_no_separator() {
    for path in [
        "Assets/Scenes/Boot.unity",
        "Boot",
        "a/b.c/d.e.f",
        "/",
        ".unity",
    ] {
        let name = get_name(path.as_bytes());
        assert!(!name.contains(&b'/'));
        assert!(!name.contains(&b'.'));
    }
}

// A pointer path that resolved stays resolved: the second call answers the
// same address without resolving anything again, even where the class it
// started at could no longer be found.
#[test]
fn resolved_paths_stay_resolved() {
    let mut i = vec![0u8; 0x2000];
    put(&mut i, 0x0, &(BASE + 0x10).to_le_bytes());
    put(&mut i, 0x10, &(BASE + 0x40).to_le_bytes());
    put(&mut i, 0x18, &0_u64.to_le_bytes());
    put(&mut i, 0x40 + 0x10, &(BASE + 0x800).to_le_bytes());
    put(&mut i, 0x40 + 0x60, &(BASE + 0x100).to_le_bytes());
    put(&mut i, 0x100 + 0x4C0 + 0x18, &1_i32.to_le_bytes());
    put(&mut i, 0x100 + 0x4C0 + 0x20, &(BASE + 0x200).to_le_bytes());
    put(&mut i, 0x200, &(BASE + 0x300).to_le_bytes());
    // The class `Timer`: its name, a field `tick` at 0x14 among its statics,
    // and its static table through the vtable.
    put(&mut i, 0x300 + 0x48, &(BASE + 0x880).to_le_bytes());
    put(&mut i, 0x300 + 0x50, &(BASE + 0x8C0).to_le_bytes());
    put(&mut i, 0x300 + 0x5C, &0_i32.to_le_bytes());
    put(&mut i, 0x300 + 0x98, &(BASE + 0x400).to_le_bytes());
    put(&mut i, 0x300 + 0xD0, &(BASE + 0x500).to_le_bytes());
    put(&mut i, 0x300 + 0x100, &1_i32.to_le_bytes());
    put(&mut i, 0x400 + 0x8, &(BASE + 0x900).to_le_bytes());
    put(&mut i, 0x400 + 0x18, &0x14_i32.to_le_bytes());
    put(&mut i, 0x500 + 0x8, &(BASE + 0x600).to_le_bytes());
    put(&mut i, 0x600 + 0x40, &(BASE + 0x700).to_le_bytes());
    put(&mut i, 0x800, b"Assembly-CSharp");
    put(&mut i, 0x880, b"Timer");
    put(&mut i, 0x8C0, b"Game");
    put(&mut i, 0x900, b"tick");

    let module = Module {
        assemblies: Address::new(BASE),
        version: Version::V2,
        offsets: MonoOffsets::new(Version::V2, PointerSize::Bit64, BinaryFormat::PE).unwrap(),
        pointer_size: PointerSize::Bit64,
    };
    let p = process(i);
    let image = module.get_default_image(&p).unwrap();
    let mut pointer = UnityPointer::<1>::new("Timer", 0, &["tick"]);
    let first = pointer.deref_offsets(&p, &module, &image).unwrap();
    assert_eq!(first, Address::new(BASE + 0x714));

    let gone = process(vec![0u8; 0x10]);
    assert_eq!(pointer.deref_offsets(&gone, &module, &image), Ok(first));
}

// A larger buffer reads the same string; a count past the buffer refuses.
#[test]
fn larger_buffers_read_the_same() {
    let mut i = vec![0u8; 0x100];
    put(&mut i, 0x0, &(BASE + 0x20).to_le_bytes());
    put(&mut i, 0x20 + 0x10, &5_i32.to_le_bytes());
    for (k, unit) in "Ridge".encode_utf16().enumerate() {
        put(&mut i, 0x20 + 0x14 + 2 * k as u64, &unit.to_le_bytes());
    }
    let p = process(i);
    let il2cpp_module = asr::game_engine::unity::il2cpp::Module {
        assemblies: Address::new(BASE),
        type_info_definition_table: Address::new(BASE),
        profile: nearest((2022, 3, 0, 4507), PointerSize::Bit64).unwrap().profile,
        pointer_size: PointerSize::Bit64,
    };
    let five = il2cpp_module.read_string::<5>(&p, Address::new(BASE)).unwrap();
    let many = il2cpp_module.read_string::<64>(&p, Address::new(BASE)).unwrap();
    assert_eq!(five.as_slice(), many.as_slice());
    assert!(il2cpp_module.read_string::<4>(&p, Address::new(BASE)).is_err());
}
