//! The managed readers over hand-laid string and array objects, through
//! both runtimes' modules. The readers are pointer-size ABI, not walk work,
//! so the fixtures are tiny blobs rather than the walk's class fixtures.

use asr::game_engine::unity::il2cpp;
use asr::game_engine::unity::il2cpp::builds::nearest;
use asr::game_engine::unity::managed::{ManagedArray, ManagedString};
use asr::game_engine::unity::mono::{Module, MonoOffsets, Version};
use asr::game_engine::unity::BinaryFormat;
use asr::process::{MemoryRegion, ModuleInfo};
use asr::{Address, PointerSize, Process};

const BASE: u64 = 0x30_0000;

fn put(image: &mut [u8], at: u64, bytes: &[u8]) {
    let at = at as usize;
    image[at..at + bytes.len()].copy_from_slice(bytes);
}

fn ptr(image: &mut [u8], at: u64, target: u64) {
    put(image, at, &target.to_le_bytes());
}

fn with_process<T>(regions: &[(u64, &[u8])], f: impl FnOnce(&Process) -> T) -> T {
    let process = Process::new(
        regions
            .iter()
            .map(|&(base, bytes)| MemoryRegion {
                base,
                bytes: bytes.to_vec(),
            })
            .collect(),
        Vec::<ModuleInfo>::new(),
    );
    f(&process)
}

fn utf16(image: &mut [u8], at: u64, text: &str) {
    for (index, unit) in text.encode_utf16().enumerate() {
        put(image, at + 2 * index as u64, &unit.to_le_bytes());
    }
}

// String and array objects at the 64-bit layout: two header words, then the
// string's i32 character count and inline UTF-16 characters, or the array's
// bounds word, length, and inline elements. Each slot at the front holds one
// reference the readers dereference.
fn image() -> Vec<u8> {
    let mut i = vec![0; 0x1000];

    ptr(&mut i, 0x0, BASE + 0x100); // a healthy string
    ptr(&mut i, 0x8, BASE + 0x200); // one claiming more than a buffer holds
    ptr(&mut i, 0x10, BASE + 0x300); // one claiming a negative count
    ptr(&mut i, 0x18, 0); // a null reference
    ptr(&mut i, 0x20, BASE + 0x400); // a string with a nul inside
    ptr(&mut i, 0x28, BASE + 0x500); // a healthy i32 array
    ptr(&mut i, 0x30, BASE + 0x600); // an array claiming more than a buffer holds
    ptr(&mut i, 0x38, BASE + 0x700); // a u16 array
    ptr(&mut i, 0x40, BASE + 0x800); // a string array with a null element

    put(&mut i, 0x100 + 0x10, &9_i32.to_le_bytes());
    utf16(&mut i, 0x100 + 0x14, "Chapter 3");

    put(&mut i, 0x200 + 0x10, &64_i32.to_le_bytes());
    put(&mut i, 0x300 + 0x10, &(-1_i32).to_le_bytes());

    // A managed string may hold a nul character; its count says where it
    // ends.
    put(&mut i, 0x400 + 0x10, &3_i32.to_le_bytes());
    for (index, unit) in [b'a' as u16, 0, b'b' as u16].into_iter().enumerate() {
        put(&mut i, 0x400 + 0x14 + 2 * index as u64, &unit.to_le_bytes());
    }

    // Mono stores the length as a u32 the allocator's zeroing pads to the
    // pointer-wide slot the reader judges, which is what these bytes lay.
    put(&mut i, 0x500 + 0x18, &3_u32.to_le_bytes());
    for (index, value) in [7_i32, 8, 9].into_iter().enumerate() {
        put(
            &mut i,
            0x500 + 0x20 + 4 * index as u64,
            &value.to_le_bytes(),
        );
    }

    put(&mut i, 0x600 + 0x18, &64_u32.to_le_bytes());

    put(&mut i, 0x700 + 0x18, &5_u32.to_le_bytes());
    utf16(&mut i, 0x700 + 0x20, "melon");

    put(&mut i, 0x900 + 0x10, &5_i32.to_le_bytes());
    utf16(&mut i, 0x900 + 0x14, "Docks");

    // The reference array's slots hold the two string objects around a null
    // element.
    put(&mut i, 0x800 + 0x18, &3_u32.to_le_bytes());
    ptr(&mut i, 0x800 + 0x20, BASE + 0x100);
    ptr(&mut i, 0x800 + 0x30, BASE + 0x900);

    i
}

fn module(pointer_size: PointerSize) -> Module {
    Module {
        assemblies: Address::new(BASE),
        version: Version::V2,
        offsets: MonoOffsets::new(Version::V2, pointer_size, BinaryFormat::PE).unwrap(),
        pointer_size,
    }
}

fn on_fixture(test: impl FnOnce(&Process, &Module)) {
    let bytes = image();
    with_process(&[(BASE, &bytes)], |process| {
        test(process, &module(PointerSize::Bit64));
    });
}

#[test]
fn readers_tests_strings_resolve_through_their_reference() {
    on_fixture(|process, module| {
        let read = module
            .read_string::<16>(process, Address::new(BASE))
            .unwrap();
        assert!(read.matches_str("Chapter 3"));
    });
}

// A nul character inside a managed string is a character like any other.
// The read keeps the runtime's count, so every unit stays reachable, and the
// string is not "a" just because a nul follows the a.
#[test]
fn strings_keep_a_nul_inside() {
    on_fixture(|process, module| {
        let read = module
            .read_string::<16>(process, Address::new(BASE + 0x20))
            .unwrap();
        assert_eq!(read.len(), 3);
        assert_eq!(read.as_slice(), [b'a' as u16, 0, b'b' as u16]);
        assert!(read.matches_str("a\0b"));
        assert!(read.matches(&[b'a' as u16, 0, b'b' as u16]));
        assert!(!read.matches_str("a"));
        assert!(!read.matches(&[b'a' as u16]));
        assert_ne!(
            read.as_slice(),
            module
                .read_string::<16>(process, Address::new(BASE))
                .unwrap()
                .as_slice()
        );
    });
}

// The buffer size is the bound past which a claimed count is nonsense: a
// torn read claims billions, and refusing beats truncating.
#[test]
fn string_counts_past_the_buffer_refuse() {
    on_fixture(|process, module| {
        assert!(module
            .read_string::<16>(process, Address::new(BASE + 0x8))
            .is_err());
        assert!(module
            .read_string::<16>(process, Address::new(BASE + 0x10))
            .is_err());
        assert!(module
            .read_string::<16>(process, Address::new(BASE + 0x18))
            .is_err());
    });
}

#[test]
fn readers_tests_arrays_resolve_through_their_reference() {
    on_fixture(|process, module| {
        let read = module
            .read_array::<i32, 8>(process, Address::new(BASE + 0x28))
            .unwrap();
        assert_eq!(read.as_slice(), [7, 8, 9]);
        assert_eq!(read.len(), 3);
        assert_eq!(read.as_slice()[1], 8);
        assert_eq!(read.as_slice(), [7, 8, 9]);
        assert_ne!(read.as_slice(), [7, 8]);
    });
}

// The element type is the caller's claim; a u16 claim strides a managed
// char array correctly.
#[test]
fn array_elements_stride_by_their_claimed_type() {
    on_fixture(|process, module| {
        let read = module
            .read_array::<u16, 8>(process, Address::new(BASE + 0x38))
            .unwrap();
        let melon: Vec<u16> = "melon".encode_utf16().collect();
        assert_eq!(read.as_slice(), melon);
    });
}

#[test]
fn array_lengths_past_the_buffer_refuse() {
    on_fixture(|process, module| {
        assert!(module
            .read_array::<i32, 8>(process, Address::new(BASE + 0x30))
            .is_err());
        assert!(module
            .read_array::<i32, 8>(process, Address::new(BASE + 0x18))
            .is_err());
    });
}

// The 32-bit layout halves the header, the reference width, and the length
// slot. The reference array's slots are 4 bytes wide with garbage right
// behind them, so a wide stride reads loudly wrong addresses.
#[test]
fn readers_resolve_on_32_bit_targets() {
    let mut i = vec![0; 0x1000];
    put(&mut i, 0x0, &((BASE + 0x100) as u32).to_le_bytes());
    put(&mut i, 0x100 + 0x8, &5_i32.to_le_bytes());
    utf16(&mut i, 0x100 + 0xC, "Ridge");
    put(&mut i, 0x8, &((BASE + 0x200) as u32).to_le_bytes());
    put(&mut i, 0x200 + 0xC, &2_u32.to_le_bytes());
    put(&mut i, 0x200 + 0x10, &21_i32.to_le_bytes());
    put(&mut i, 0x200 + 0x14, &22_i32.to_le_bytes());
    put(&mut i, 0x10, &((BASE + 0x300) as u32).to_le_bytes());
    put(&mut i, 0x300 + 0xC, &2_u32.to_le_bytes());
    put(&mut i, 0x300 + 0x10, &((BASE + 0x100) as u32).to_le_bytes());
    put(&mut i, 0x300 + 0x18, &u32::MAX.to_le_bytes());

    with_process(&[(BASE, &i)], |process| {
        let module = module(PointerSize::Bit32);
        let read = module
            .read_string::<8>(process, Address::new(BASE))
            .unwrap();
        assert!(read.matches_str("Ridge"));

        let read = module
            .read_array::<i32, 4>(process, Address::new(BASE + 0x8))
            .unwrap();
        assert_eq!(read.as_slice(), [21, 22]);

        let read = module
            .read_reference_array::<4>(process, Address::new(BASE + 0x10))
            .unwrap();
        assert_eq!(read.as_slice(), [Address::new(BASE + 0x100), Address::null()]);

        let read = module
            .read_string_object::<8>(process, read.as_slice()[0])
            .unwrap();
        assert!(read.matches_str("Ridge"));
    });
}

// Null elements are data: they come back as null addresses at their
// positions, since positions carry meaning and filtering is the caller's
// one-liner. Only a null array reference refuses.
#[test]
fn reference_arrays_preserve_null_elements_in_place() {
    on_fixture(|process, module| {
        let read = module
            .read_reference_array::<8>(process, Address::new(BASE + 0x40))
            .unwrap();
        assert_eq!(
            read.as_slice(),
            [
                Address::new(BASE + 0x100),
                Address::null(),
                Address::new(BASE + 0x900),
            ]
        );
    });
}

#[test]
fn reference_array_lengths_past_the_buffer_refuse() {
    on_fixture(|process, module| {
        assert!(module
            .read_reference_array::<2>(process, Address::new(BASE + 0x40))
            .is_err());
        assert!(module
            .read_reference_array::<8>(process, Address::new(BASE + 0x18))
            .is_err());
    });
}

// The object-address form composes over a reference array's elements; a
// null address refuses at the element, with the index in hand.
#[test]
fn string_objects_read_at_their_addresses() {
    on_fixture(|process, module| {
        let objects = module
            .read_reference_array::<8>(process, Address::new(BASE + 0x40))
            .unwrap();
        let objects = objects.as_slice();

        let read = module
            .read_string_object::<16>(process, objects[0])
            .unwrap();
        assert!(read.matches_str("Chapter 3"));
        assert!(module
            .read_string_object::<16>(process, objects[1])
            .is_err());
        let read = module
            .read_string_object::<16>(process, objects[2])
            .unwrap();
        assert!(read.matches_str("Docks"));
    });
}

// The IL2CPP module reads through the same readers; its array length really
// is pointer-sized, so the whole slot judges the claim.
fn il2cpp_image() -> Vec<u8> {
    let base = IL2CPP_BASE;
    let mut i = vec![0; 0x1000];

    ptr(&mut i, 0x0, base + 0x100);
    put(&mut i, 0x100 + 0x10, &4_i32.to_le_bytes());
    for (index, unit) in "Loop".encode_utf16().enumerate() {
        put(&mut i, 0x100 + 0x14 + 2 * index as u64, &unit.to_le_bytes());
    }

    // An array whose length slot carries garbage above the low u32.
    ptr(&mut i, 0x8, base + 0x200);
    put(&mut i, 0x200 + 0x18, &0x1_0000_0003_u64.to_le_bytes());

    ptr(&mut i, 0x10, base + 0x300);
    put(&mut i, 0x300 + 0x18, &2_u64.to_le_bytes());
    put(&mut i, 0x300 + 0x20, &11_u32.to_le_bytes());
    put(&mut i, 0x300 + 0x24, &22_u32.to_le_bytes());

    // A string array holding the string object and a null element.
    ptr(&mut i, 0x18, base + 0x400);
    put(&mut i, 0x400 + 0x18, &2_u64.to_le_bytes());
    ptr(&mut i, 0x400 + 0x20, base + 0x100);

    i
}

const IL2CPP_BASE: u64 = 0x40_0000;

fn on_il2cpp_fixture(test: impl FnOnce(&Process, &il2cpp::Module)) {
    let bytes = il2cpp_image();
    with_process(&[(IL2CPP_BASE, &bytes)], |process| {
        let module = il2cpp::Module {
            assemblies: Address::new(IL2CPP_BASE),
            type_info_definition_table: Address::new(IL2CPP_BASE + 0x10),
            profile: nearest((2022, 3, 0, 4507), PointerSize::Bit64).unwrap().profile,
            pointer_size: PointerSize::Bit64,
        };
        test(process, &module);
    });
}

#[test]
fn il2cpp_strings_resolve_through_their_reference() {
    on_il2cpp_fixture(|process, module| {
        let read = module
            .read_string::<8>(process, Address::new(IL2CPP_BASE))
            .unwrap();
        assert!(read.matches_str("Loop"));
    });
}

#[test]
fn il2cpp_arrays_resolve_through_their_reference() {
    on_il2cpp_fixture(|process, module| {
        let read = module
            .read_array::<u32, 4>(process, Address::new(IL2CPP_BASE + 0x10))
            .unwrap();
        assert_eq!(read.as_slice(), [11, 22]);
    });
}

// A length whose low u32 reads small but whose full width does not is
// garbage, not a small array. An i32 read here would wrongly succeed.
#[test]
fn array_lengths_judge_at_full_width() {
    on_il2cpp_fixture(|process, module| {
        assert!(module
            .read_array::<i32, 8>(process, Address::new(IL2CPP_BASE + 0x8))
            .is_err());
    });
}

#[test]
fn reference_arrays_resolve_through_their_reference() {
    on_il2cpp_fixture(|process, module| {
        let objects = module
            .read_reference_array::<4>(process, Address::new(IL2CPP_BASE + 0x18))
            .unwrap();
        assert_eq!(
            objects.as_slice(),
            [Address::new(IL2CPP_BASE + 0x100), Address::null()]
        );

        let read = module
            .read_string_object::<8>(process, objects.as_slice()[0])
            .unwrap();
        assert!(read.matches_str("Loop"));
        assert!(module
            .read_string_object::<8>(process, objects.as_slice()[1])
            .is_err());
    });
}

#[test]
fn compares_by_every_element() {
    let three = ManagedArray::<i32, 4>::from_elements(&[7, 8, 9]).unwrap();
    let two = ManagedArray::<i32, 4>::from_elements(&[7, 8]).unwrap();
    assert_eq!(three.len(), 3);
    assert!(!three.is_empty());
    assert_ne!(three.as_slice(), two.as_slice());
    assert_eq!(three.as_slice()[2], 9);
    assert_eq!(three.as_slice().iter().sum::<i32>(), 24);
}

#[test]
fn refuses_more_elements_than_it_holds() {
    assert!(ManagedArray::<u8, 2>::from_elements(&[1, 2, 3]).is_none());
    assert!(ManagedArray::<u8, 2>::from_elements(&[])
        .unwrap()
        .is_empty());
}

#[test]
fn compares_by_every_unit() {
    let with_nul = ManagedString::<4>::from_slice(&[b'a' as u16, 0, b'b' as u16]).unwrap();
    let a = ManagedString::<4>::from_slice(&[b'a' as u16]).unwrap();
    assert_eq!(with_nul.len(), 3);
    assert!(!with_nul.is_empty());
    assert_ne!(with_nul.as_slice(), a.as_slice());
    assert!(!with_nul.matches_str("a"));
    assert!(with_nul.matches_str("a\0b"));
    assert!(with_nul.matches(&[b'a' as u16, 0, b'b' as u16]));
    assert!(a.matches_str("a"));
    assert_eq!(with_nul.as_slice()[2], b'b' as u16);
}

#[test]
fn refuses_more_units_than_it_holds() {
    assert!(ManagedString::<2>::from_slice(&[1, 2, 3]).is_none());
    assert!(ManagedString::<2>::from_slice(&[]).unwrap().is_empty());
}

// Text beyond the basic plane compares through its surrogate pair.
#[test]
fn strings_compare_with_text_beyond_the_basic_plane() {
    let units: Vec<u16> = "a\u{1F600}".encode_utf16().collect();
    let read = ManagedString::<4>::from_slice(&units).unwrap();
    assert_eq!(read.len(), 3);
    assert!(read.matches_str("a\u{1F600}"));
    assert!(!read.matches_str("a"));
}
