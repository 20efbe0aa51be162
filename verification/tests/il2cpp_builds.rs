use asr::game_engine::unity::il2cpp::Version;
use asr::game_engine::unity::il2cpp::builds::{builds, nearest};
use asr::game_engine::unity::il2cpp::profiles;
use asr::game_engine::unity::il2cpp::TypeStart;
use asr::PointerSize;

#[test]
fn builds_table_reads_oldest_to_newest() {
    let table = builds();
    assert!(table.windows(2).all(|pair| pair[0].unity <= pair[1].unity));
}

// Every player was measured at both widths, so each version in the table has
// an x64 entry and an x86 entry.
#[test]
fn every_version_is_measured_at_both_widths() {
    for build in builds() {
        let other = match build.profile.pointer_size {
            PointerSize::Bit64 => PointerSize::Bit32,
            _ => PointerSize::Bit64,
        };
        let twin = nearest(build.unity, other).unwrap();
        assert_eq!(
            twin.unity, build.unity,
            "{:?} at {:?} has no twin",
            build.unity, other
        );
    }
}

// A player nobody measured takes the newest build at or below its
// major.minor, or the oldest build when nothing is below. A measured player
// takes its own build even when a newer patch was measured.
#[test]
fn builds_nearest_takes_the_newest_build_at_or_below_the_major_minor() {
    let x64 = PointerSize::Bit64;
    let unity = |player| nearest(player, x64).unwrap().unity;
    assert_eq!(unity((2021, 3, 5, 1)), (2021, 3, 11, 23713));
    assert_eq!(unity((2021, 3, 45, 1)), (2021, 3, 11, 23713));
    assert_eq!(unity((2023, 1, 10, 1)), (2023, 1, 22, 16744));
    assert_eq!(unity((2023, 1, 0, 2298)), (2023, 1, 0, 2298));
    assert_eq!(unity((2022, 1, 0, 1)), (2021, 3, 11, 23713));
    assert_eq!(unity((2019, 2, 0, 1)), (2019, 1, 0, 11155));
    assert_eq!(unity((2020, 3, 48, 1)), (2020, 2, 0, 8671));
    assert_eq!(unity((2021, 1, 0, 1)), (2020, 2, 0, 8671));
    assert_eq!(unity((6000, 6, 5, 1)), (6000, 6, 0, 63725));
    assert_eq!(unity((7000, 0, 0, 0)), (6000, 7, 0, 5476));
    assert_eq!(unity((5, 6, 7, 0)), (2018, 4, 36, 54151));
}

// Players before Unity 2020.2 keep the index of the first type inside the
// image. From Unity 2020.2 on, the image keeps a pointer to it.
#[test]
fn type_start_moves_behind_a_handle_from_2020_2() {
    for build in builds() {
        let (inline, handle) = match build.profile.pointer_size {
            PointerSize::Bit64 => (0x18, 0x28),
            _ => (0xC, 0x18),
        };
        let before_2020_2 = (build.unity.0, build.unity.1) < (2020, 2);
        match build.profile.image.type_start {
            TypeStart::Inline(at) => {
                assert!(before_2020_2 && at == inline, "{:?}", build.unity)
            }
            TypeStart::Handle(at) => {
                assert!(!before_2020_2 && at == handle, "{:?}", build.unity)
            }
        }
    }
}

#[test]
fn nearest_is_the_build_itself_on_a_measured_version() {
    for build in builds() {
        let found = nearest(build.unity, build.profile.pointer_size).unwrap();
        assert_eq!(found.unity, build.unity);
        assert_eq!(found.profile.pointer_size, build.profile.pointer_size);
    }
}

#[test]
fn nearest_keeps_the_width() {
    let build = nearest((2021, 3, 5, 1), PointerSize::Bit32).unwrap();
    assert_eq!(build.unity, (2021, 3, 11, 23713));
    assert_eq!(build.profile.pointer_size, PointerSize::Bit32);
    assert!(nearest((2021, 3, 5, 1), PointerSize::Bit16).is_none());
}

#[test]
fn constants_name_the_expected_profiles() {
    let profiles = [
        (
            (2018, 4, 36, 54151),
            profiles::unity_2018_4_36f1_x86_64(),
            profiles::unity_2018_4_36f1_x86(),
        ),
        (
            (2019, 1, 0, 11155),
            profiles::unity_2019_1_0f2_x86_64(),
            profiles::unity_2019_1_0f2_x86(),
        ),
        (
            (2019, 4, 41, 9172),
            profiles::unity_2019_4_41f2_x86_64(),
            profiles::unity_2019_4_41f2_x86(),
        ),
        (
            (2020, 1, 18, 38512),
            profiles::unity_2020_1_18f1_x86_64(),
            profiles::unity_2020_1_18f1_x86(),
        ),
        (
            (2020, 2, 0, 8671),
            profiles::unity_2020_2_0f1_x86_64(),
            profiles::unity_2020_2_0f1_x86(),
        ),
        (
            (2021, 3, 11, 23713),
            profiles::unity_2021_3_11f1_x86_64(),
            profiles::unity_2021_3_11f1_x86(),
        ),
        (
            (2022, 3, 0, 4507),
            profiles::unity_2022_3_0f1_x86_64(),
            profiles::unity_2022_3_0f1_x86(),
        ),
        (
            (2023, 1, 0, 2298),
            profiles::unity_2023_1_0f1_x86_64(),
            profiles::unity_2023_1_0f1_x86(),
        ),
        (
            (2023, 1, 22, 16744),
            profiles::unity_2023_1_22f1_x86_64(),
            profiles::unity_2023_1_22f1_x86(),
        ),
        (
            (6000, 2, 12, 40285),
            profiles::unity_6000_2_12f1_x86_64(),
            profiles::unity_6000_2_12f1_x86(),
        ),
        (
            (6000, 3, 21, 9777),
            profiles::unity_6000_3_21f1_x86_64(),
            profiles::unity_6000_3_21f1_x86(),
        ),
        (
            (6000, 5, 10, 54518),
            profiles::unity_6000_5_10f1_x86_64(),
            profiles::unity_6000_5_10f1_x86(),
        ),
        (
            (6000, 6, 0, 63725),
            profiles::unity_6000_6_0f1_x86_64(),
            profiles::unity_6000_6_0f1_x86(),
        ),
        (
            (6000, 7, 0, 5476),
            profiles::unity_6000_7_0a3_x86_64(),
            profiles::unity_6000_7_0a3_x86(),
        ),
    ];

    for (unity, x86_64, x86) in profiles {
        assert_eq!(nearest(unity, PointerSize::Bit64).unwrap().profile, x86_64);
        assert_eq!(nearest(unity, PointerSize::Bit32).unwrap().profile, x86);
    }
}

// A spot check of the table against the measured players' own PDBs.
#[test]
fn measured_layouts_carry_their_pdb_offsets() {
    let p = profiles::unity_6000_5_10f1_x86_64();
    assert_eq!(p.class.static_fields, 0xA0);
    assert_eq!(p.class.field_count, 0x124);
    assert_eq!(p.image.type_count, 0x18);
    assert_eq!(p.image.type_start, TypeStart::Handle(0x28));
    let p = profiles::unity_2018_4_36f1_x86();
    assert_eq!(p.class.instance_size, Some(0x84));
    assert_eq!(p.image.type_start, TypeStart::Inline(0xC));
    assert_eq!(p.field.size, 0x14);
    assert_eq!(builds().len(), 28);
}

fn file_version(major_version: u16, minor_version: u16) -> asr::file_format::pe::FileVersion {
    asr::file_format::pe::FileVersion {
        major_version,
        minor_version,
        build_part: 0,
        private_part: 0,
    }
}

// Each generation starts at the Unity version its name gives, and every later
// player, 2023 and on included, runs the newest one.
#[test]
fn generations_follow_the_players_file_version() {
    let of = |major, minor| Version::of_file_version(file_version(major, minor));
    assert_eq!(of(2018, 4), Version::Base);
    assert_eq!(of(2019, 4), Version::V2019);
    assert_eq!(of(2020, 1), Version::V2019);
    assert_eq!(of(2020, 2), Version::V2020);
    assert_eq!(of(2021, 3), Version::V2020);
    assert_eq!(of(2022, 1), Version::V2020);
    assert_eq!(of(2022, 2), Version::V2022);
    assert_eq!(of(2023, 1), Version::V2022);
    assert_eq!(of(6000, 0), Version::V2022);
}
