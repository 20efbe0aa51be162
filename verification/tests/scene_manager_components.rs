use asr::game_engine::unity::scene_manager::builds::{builds, nearest};
use asr::game_engine::unity::scene_manager::{GameObject, ReferenceShape, SceneManager, Transform};
use asr::process::{MemoryRegion, ModuleInfo};
use asr::{Address, PointerSize, Process};

const BASE: u64 = 0x7FF6_1000_0000;
const TRANSFORM: u64 = 0x100;
const GAME_OBJECT: u64 = 0x200;
const PAIRS: u64 = 0x300;
const MARKER: u64 = 0x400;
const MOVER: u64 = 0x480;
const MARKER_OBJECT: u64 = 0x500;
const MOVER_OBJECT: u64 = 0x580;
const SLOTS: u64 = 0x600;

fn put(image: &mut [u8], at: u64, bytes: &[u8]) {
    let at = at as usize;
    image[at..at + bytes.len()].copy_from_slice(bytes);
}

fn ptr(image: &mut [u8], at: u64, target: u64) {
    put(image, at, &target.to_le_bytes());
}

fn with_process<T>(regions: &[(u64, &[u8])], f: impl FnOnce(&Process) -> T) -> T {
    let process = Process::new(
        regions
            .iter()
            .map(|&(base, bytes)| MemoryRegion {
                base,
                bytes: bytes.to_vec(),
            })
            .collect(),
        Vec::<ModuleInfo>::new(),
    );
    f(&process)
}

fn manager(unity: (u16, u16, u16, u16)) -> SceneManager {
    SceneManager {
        pointer_size: PointerSize::Bit64,
        address: Address::new(BASE),
        profile: nearest(unity, PointerSize::Bit64).unwrap().profile,
    }
}

// A transform whose game object holds three components: the transform
// itself, a Marker and a Mover. The two managed objects sit behind the
// components' managed references, by the shape of the build.
fn image(manager: &SceneManager) -> Vec<u8> {
    let profile = manager.profile;
    let mut i = vec![0; 0x1000];
    ptr(
        &mut i,
        TRANSFORM + profile.transform.game_object as u64,
        BASE + GAME_OBJECT,
    );
    ptr(
        &mut i,
        GAME_OBJECT + profile.game_object.components as u64,
        BASE + PAIRS,
    );
    ptr(
        &mut i,
        GAME_OBJECT + profile.game_object.components as u64 + 16,
        3,
    );
    ptr(&mut i, PAIRS + 8, BASE + TRANSFORM);
    ptr(&mut i, PAIRS + 24, BASE + MARKER);
    ptr(&mut i, PAIRS + 40, BASE + MOVER);
    let reference = profile.object.managed_reference as u64;
    match profile.reference {
        ReferenceShape::CachedObject => {
            ptr(&mut i, MARKER + reference, BASE + MARKER_OBJECT);
            ptr(&mut i, MOVER + reference, BASE + MOVER_OBJECT);
        }
        ReferenceShape::RootSlot => {
            ptr(&mut i, MARKER + reference, BASE + SLOTS);
            ptr(&mut i, MOVER + reference, BASE + SLOTS + 8);
            ptr(&mut i, SLOTS, BASE + MARKER_OBJECT);
            ptr(&mut i, SLOTS + 8, BASE + MOVER_OBJECT);
        }
    }
    i
}

fn components(manager: &SceneManager) -> Vec<Address> {
    with_process(&[(BASE, &image(manager))], |process: &Process| {
        let transform = Transform {
            address: Address::new(BASE + TRANSFORM),
        };
        transform.classes(process, manager).unwrap()
    })
}

#[test]
fn builds_point_at_a_slot_from_2023_1() {
    for build in builds() {
        let expected = if (build.unity.0, build.unity.1) < (2023, 1) {
            ReferenceShape::CachedObject
        } else {
            ReferenceShape::RootSlot
        };
        assert_eq!(build.profile.reference, expected, "{:?}", build.unity);
    }
}

#[test]
fn components_reach_their_managed_objects_through_the_cached_object() {
    let manager = manager((2018, 4, 36, 54151));
    assert_eq!(manager.profile.reference, ReferenceShape::CachedObject);
    assert_eq!(
        components(&manager),
        [
            Address::new(BASE + MARKER_OBJECT),
            Address::new(BASE + MOVER_OBJECT)
        ]
    );
}

#[test]
fn components_reach_their_managed_objects_through_the_slot() {
    let manager = manager((2023, 1, 22, 16744));
    assert_eq!(manager.profile.reference, ReferenceShape::RootSlot);
    assert_eq!(
        components(&manager),
        [
            Address::new(BASE + MARKER_OBJECT),
            Address::new(BASE + MOVER_OBJECT)
        ]
    );
}

// The game object's own view: its components past the transform, and the
// managed object each holds.
#[test]
fn game_objects_list_their_components_past_the_transform() {
    let manager = manager((2023, 1, 22, 16744));
    with_process(&[(BASE, &image(&manager))], |process: &Process| {
        let game_object = GameObject {
            address: Address::new(BASE + GAME_OBJECT),
        };
        let components = game_object.components(process, &manager).unwrap();
        let addresses: Vec<Address> = components.iter().map(|c| c.address).collect();
        assert_eq!(
            addresses,
            [Address::new(BASE + MARKER), Address::new(BASE + MOVER)]
        );
        assert_eq!(
            components[1].get_mono_object(process, &manager).unwrap(),
            Address::new(BASE + MOVER_OBJECT)
        );
        let empty = GameObject {
            address: Address::new(BASE + 0x900),
        };
        assert!(empty.components(process, &manager).is_err());
    });
}
