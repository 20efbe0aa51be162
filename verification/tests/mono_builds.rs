//! The known Mono builds: how they are named, looked up, and how the
//! version tables stand in for the builds nobody measured.

use asr::game_engine::unity::mono::offsets::MonoOffsets;
use asr::game_engine::unity::mono::{linux_builds, mac_builds, Version};
use asr::game_engine::unity::BinaryFormat;
use asr::PointerSize;

// The build ID of 2019.4's Mono library, as it is stored.
const STORED: [u8; 20] = [
    0x4E, 0x69, 0x0F, 0x26, 0x4A, 0x2A, 0x90, 0x12, 0x03, 0x47, 0xF9, 0x4A, 0xE4, 0x3B, 0x0B,
    0x83, 0xD5, 0x78, 0xF6, 0x86,
];

// The arm64 slice of 6000.5.10f1, as the load command stores it.
const STORED_UUID: [u8; 16] = [
    0xE9, 0xC5, 0xE0, 0x6A, 0x62, 0xE5, 0x3A, 0x9A, 0x9D, 0x5D, 0x54, 0xF0, 0xD1, 0x6F, 0xFF,
    0xA8,
];

#[test]
fn parses_written_build_ids_into_stored_bytes() {
    assert_eq!(
        linux_builds::id("4e690f264a2a90120347f94ae43b0b83d578f686"),
        STORED
    );
    assert_eq!(linux_builds::id("c19105ba5aabaf80").len(), 8);
    assert!(linux_builds::id("").is_empty());
}

#[test]
fn table_names_each_build_once() {
    let builds = linux_builds::builds();
    for (index, build) in builds.iter().enumerate() {
        assert!(!builds[..index]
            .iter()
            .any(|earlier| earlier.build_id == build.build_id));
    }
}

#[test]
fn linux_builds_finds_known_builds() {
    let build = linux_builds::find(&STORED).unwrap();
    assert_eq!(build.pointer_size, PointerSize::Bit64);
    assert!(matches!(build.version, Version::V2));

    assert!(linux_builds::find(&[0; 20]).is_none());
    assert!(linux_builds::find(&[]).is_none());
}

// Pairs each member a measurement can supply with its name, so both tests
// compare the same set and a failure says which member it was.
fn grown(offsets: &MonoOffsets) -> [(&'static str, Option<u16>); 8] {
    [
        ("class_kind", offsets.class.class_kind),
        ("instance_size", offsets.class.instance_size),
        ("nested_in", offsets.class.nested_in),
        ("generic_class", offsets.generic.generic_class),
        ("container_class", offsets.generic.container_class),
        ("type data", offsets.type_words.data),
        ("type kind", offsets.type_words.kind),
        ("field type", offsets.field.type_),
    ]
}

// A version table stands in for the builds nobody measured. Two builds
// agreeing on a member is what justifies that, so the table has to carry
// what they agree on. One build on its own proves nothing.
#[test]
fn version_tables_carry_what_two_builds_agree_on() {
    let builds = linux_builds::builds();
    for build in &builds {
        let agreeing = builds.iter().filter(|other| {
            other.version == build.version && other.pointer_size == build.pointer_size
        });
        let mut agreed = grown(&build.offsets).map(|(name, measured)| (name, Some(measured)));
        let mut count = 0;
        for other in agreeing {
            count += 1;
            for (slot, (_, measured)) in grown(&other.offsets).into_iter().enumerate() {
                if agreed[slot].1 != Some(measured) {
                    agreed[slot].1 = None;
                }
            }
        }
        if count < 2 {
            continue;
        }

        let Some(table) = MonoOffsets::new(build.version, build.pointer_size, BinaryFormat::ELF)
        else {
            continue;
        };
        for (slot, (name, carried)) in grown(&table).into_iter().enumerate() {
            let (_, agreed) = agreed[slot];
            if let Some(agreed) = agreed {
                assert_eq!(carried, agreed, "the table says nothing about {name}");
            }
        }
    }
}

// A version table's value for any member must match every measured build
// it stands in for, or say nothing.
#[test]
fn version_tables_never_contradict_a_measured_build() {
    fn agrees(table: Option<u16>, measured: Option<u16>) -> bool {
        table.is_none() || table == measured
    }

    for build in linux_builds::builds() {
        let Some(table) = MonoOffsets::new(build.version, build.pointer_size, BinaryFormat::ELF)
        else {
            continue;
        };
        let measured = build.offsets;

        assert_eq!(table.assembly.image, measured.assembly.image);
        assert_eq!(table.image.class_cache, measured.image.class_cache);
        assert_eq!(table.hash_table.size, measured.hash_table.size);
        assert_eq!(table.hash_table.table, measured.hash_table.table);
        assert_eq!(table.class.parent, measured.class.parent);
        assert_eq!(table.class.name, measured.class.name);
        assert_eq!(table.class.namespace, measured.class.namespace);
        assert_eq!(table.class.vtable_size, measured.class.vtable_size);
        assert_eq!(table.class.fields, measured.class.fields);
        assert_eq!(table.class.runtime_info, measured.class.runtime_info);
        assert_eq!(table.class.field_count, measured.class.field_count);
        assert_eq!(
            table.class.next_class_cache,
            measured.class.next_class_cache,
        );
        assert_eq!(table.field.name, measured.field.name);
        assert_eq!(table.field.offset, measured.field.offset);
        assert_eq!(table.field.alignment, measured.field.alignment);

        assert!(agrees(table.class.class_kind, measured.class.class_kind));
        assert!(agrees(
            table.class.instance_size,
            measured.class.instance_size
        ));
        assert!(agrees(table.class.nested_in, measured.class.nested_in));
        assert!(agrees(
            table.generic.generic_class,
            measured.generic.generic_class
        ));
        assert!(agrees(
            table.generic.container_class,
            measured.generic.container_class
        ));
        assert!(agrees(table.type_words.data, measured.type_words.data));
        assert!(agrees(table.type_words.kind, measured.type_words.kind));
        assert!(agrees(table.field.type_, measured.field.type_));
    }
}

#[test]
fn parses_written_uuids_into_stored_bytes() {
    assert_eq!(
        mac_builds::id("E9C5E06A-62E5-3A9A-9D5D-54F0D16FFFA8"),
        STORED_UUID
    );
}

#[test]
fn table_names_each_slice_once() {
    let builds = mac_builds::builds();
    for (index, build) in builds.iter().enumerate() {
        assert!(!builds[..index]
            .iter()
            .any(|earlier| earlier.uuid == build.uuid));
    }
}

#[test]
fn mac_builds_finds_known_builds() {
    let build = mac_builds::find(&STORED_UUID).unwrap();
    assert_eq!(build.pointer_size, PointerSize::Bit64);
    assert!(matches!(build.version, Version::V3));

    assert!(mac_builds::find(&[0; 16]).is_none());
}

// One build says nothing about the versions a table stands in for, so the
// Mach-O tables stay silent about every member a measurement could fill.
#[test]
fn version_tables_say_nothing_a_single_build_would_have_to_carry() {
    for build in mac_builds::builds() {
        let Some(table) = MonoOffsets::new(build.version, build.pointer_size, BinaryFormat::MachO)
        else {
            continue;
        };

        assert_eq!(table.class.class_kind, None);
        assert_eq!(table.class.instance_size, None);
        assert_eq!(table.class.nested_in, None);
        assert_eq!(table.generic.generic_class, None);
        assert_eq!(table.generic.container_class, None);
        assert_eq!(table.type_words.data, None);
        assert_eq!(table.type_words.kind, None);
        assert_eq!(table.field.type_, None);

        let measured = build.offsets;
        assert_eq!(table.assembly.image, measured.assembly.image);
        assert_eq!(table.image.class_cache, measured.image.class_cache);
        assert_eq!(table.class.parent, measured.class.parent);
        assert_eq!(table.class.name, measured.class.name);
        assert_eq!(table.class.namespace, measured.class.namespace);
        assert_eq!(table.class.fields, measured.class.fields);
        assert_eq!(table.class.field_count, measured.class.field_count);
        assert_eq!(table.v_table.vtable, measured.v_table.vtable);
    }
}

// Each version has a table at 64 bits in every format, and at 32 bits only
// on Windows.
#[test]
fn version_tables_cover_each_format_and_width() {
    for version in [Version::V1, Version::V1Cattrs, Version::V2, Version::V3] {
        for format in [BinaryFormat::PE, BinaryFormat::ELF, BinaryFormat::MachO] {
            assert!(MonoOffsets::new(version, PointerSize::Bit64, format).is_some());
            assert_eq!(
                MonoOffsets::new(version, PointerSize::Bit32, format).is_some(),
                format == BinaryFormat::PE
            );
            assert!(MonoOffsets::new(version, PointerSize::Bit16, format).is_none());
        }
    }
    let v3 = MonoOffsets::new(Version::V3, PointerSize::Bit64, BinaryFormat::PE).unwrap();
    assert_eq!(v3.image.class_cache, 0x4D0);
    assert_eq!(v3.v_table.vtable, 0x48);
    let v1 = MonoOffsets::new(Version::V1, PointerSize::Bit32, BinaryFormat::PE).unwrap();
    assert_eq!(v1.class.field_count, 0x64);
}
