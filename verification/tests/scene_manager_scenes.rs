use asr::game_engine::unity::scene_manager::builds::{builds, nearest};
use asr::game_engine::unity::scene_manager::{get_name, get_scene_name, PathShape, Scene, SceneManager, Transform};
use asr::process::{MemoryRegion, ModuleInfo};
use asr::string::ArrayCString;
use asr::{Address, PointerSize, Process};

const BASE: u64 = 0x7FF6_1000_0000;
const SCENE: u64 = 0x100;
const TEXT: u64 = 0x800;

fn put(image: &mut [u8], at: u64, bytes: &[u8]) {
    let at = at as usize;
    image[at..at + bytes.len()].copy_from_slice(bytes);
}

fn ptr(image: &mut [u8], at: u64, target: u64) {
    put(image, at, &target.to_le_bytes());
}

fn with_process<T>(regions: &[(u64, &[u8])], f: impl FnOnce(&Process) -> T) -> T {
    let process = Process::new(
        regions
            .iter()
            .map(|&(base, bytes)| MemoryRegion {
                base,
                bytes: bytes.to_vec(),
            })
            .collect(),
        Vec::<ModuleInfo>::new(),
    );
    f(&process)
}

fn manager(unity: (u16, u16, u16, u16), pointer_size: PointerSize) -> SceneManager {
    SceneManager {
        pointer_size,
        address: Address::new(BASE),
        profile: nearest(unity, pointer_size).unwrap().profile,
    }
}

fn read_path(image: &[u8], manager: &SceneManager) -> Option<ArrayCString<128>> {
    with_process(&[(BASE, image)], |process: &Process| {
        let scene = Scene {
            address: Address::new(BASE + SCENE),
        };
        scene.path(process, manager).ok()
    })
}

// The path field of the scene sits at 0x10 on every x64 build and at 0xC on
// the x86 builds before Unity 6000.5.
fn field(manager: &SceneManager) -> u64 {
    SCENE + manager.profile.scene.path as u64
}

// A path kept behind a pointer, with the length and the capacity after it.
// Only x64 players keep a path inline, so only they spill one.
fn spilled(image: &mut [u8], at: u64, text: &[u8]) {
    put(image, TEXT, text);
    put(image, at, &(BASE + TEXT).to_le_bytes());
    put(image, at + 8, &(text.len() as u64).to_le_bytes());
    put(image, at + 16, &(text.len() as u64).to_le_bytes());
}

#[test]
fn x64_builds_change_the_path_shape_on_2021_and_2023_1() {
    for build in builds() {
        if build.profile.pointer_size != PointerSize::Bit64 {
            continue;
        }
        let major_minor = (build.unity.0, build.unity.1);
        let expected = if major_minor < (2021, 1) {
            PathShape::Pointer
        } else if major_minor < (2023, 1) {
            PathShape::InlineNul
        } else {
            PathShape::InlineSpare
        };
        assert_eq!(build.profile.path, expected, "{:?}", build.unity);
    }
}

#[test]
fn x86_builds_keep_the_path_behind_a_pointer() {
    for build in builds() {
        if build.profile.pointer_size == PointerSize::Bit32 {
            assert_eq!(build.profile.path, PathShape::Pointer, "{:?}", build.unity);
        }
    }
}

// The inline path starts with Unity 2021.1, so a 2021.1 or 2021.2 player
// takes the 2021.1 build and its shape, and a 2020.x player the pointer.
#[test]
fn the_first_inline_path_build_is_2021_1() {
    let shape = |player| {
        let build = nearest(player, PointerSize::Bit64).unwrap();
        (build.unity, build.profile.path)
    };
    let first = (2021, 1, 29, 10531);
    assert_eq!(shape((2021, 1, 0, 1)), (first, PathShape::InlineNul));
    assert_eq!(shape((2021, 2, 20, 62729)), (first, PathShape::InlineNul));
    assert_eq!(shape((2021, 3, 0, 44232)), (first, PathShape::InlineNul));
    assert_eq!(
        shape((2020, 3, 48, 1)),
        ((2018, 4, 36, 54151), PathShape::Pointer)
    );
}

#[test]
fn a_pointer_path_reads_through_the_pointer() {
    let manager = manager((2018, 4, 36, 54151), PointerSize::Bit64);
    let mut image = vec![0; 0x1000];
    put(&mut image, TEXT, b"Assets/Scenes/Boot.unity");
    put(&mut image, field(&manager), &(BASE + TEXT).to_le_bytes());

    let path = read_path(&image, &manager).unwrap();
    assert_eq!(path.as_bytes(), b"Assets/Scenes/Boot.unity");
}

#[test]
fn a_short_path_reads_inline_with_the_spare_byte() {
    let manager = manager((2023, 1, 22, 16744), PointerSize::Bit64);
    let mut image = vec![0; 0x1000];
    let at = field(&manager);
    put(&mut image, at, b"Assets/Scenes/Boot.unity");
    put(&mut image, at + 31, &[31 - 24]);

    let path = read_path(&image, &manager).unwrap();
    assert_eq!(path.as_bytes(), b"Assets/Scenes/Boot.unity");
}

#[test]
fn a_path_of_31_characters_fills_the_field() {
    let manager = manager((2023, 1, 22, 16744), PointerSize::Bit64);
    let mut image = vec![0; 0x1000];
    let at = field(&manager);
    put(&mut image, at, b"Assets/Scenes/Deep/Deeper.unity");
    put(&mut image, at + 31, &[0]);

    let path = read_path(&image, &manager).unwrap();
    assert_eq!(path.as_bytes(), b"Assets/Scenes/Deep/Deeper.unity");
}

#[test]
fn an_empty_path_reads_inline() {
    let manager = manager((2023, 1, 22, 16744), PointerSize::Bit64);
    let mut image = vec![0; 0x1000];
    put(&mut image, field(&manager) + 31, &[31]);

    let path = read_path(&image, &manager).unwrap();
    assert_eq!(path.as_bytes(), b"");
}

// The spilled form is tried first, so the last byte of the field, which is
// unrelated data while the path is spilled, never fakes an inline path.
#[test]
fn a_long_path_reads_through_the_pointer_beside_the_spare_byte() {
    let manager = manager((2023, 1, 22, 16744), PointerSize::Bit64);
    let mut image = vec![0; 0x1000];
    let at = field(&manager);
    spilled(&mut image, at, b"Assets/Scenes/Deeply/Nested/Second.unity");
    put(&mut image, at + 24, &[0x41; 8]);
    put(&mut image, at + 31, &[31 - 6]);

    let path = read_path(&image, &manager).unwrap();
    assert_eq!(path.as_bytes(), b"Assets/Scenes/Deeply/Nested/Second.unity");
}

// Before the spare byte existed, the bytes past the NUL of an inline path
// are whatever was there before.
#[test]
fn a_short_path_reads_inline_up_to_the_nul() {
    let manager = manager((2021, 1, 29, 10531), PointerSize::Bit64);
    let mut image = vec![0; 0x1000];
    let at = field(&manager);
    put(&mut image, at, b"Assets/Scenes/Boot.unity\0");
    put(&mut image, at + 25, &[0xCC; 7]);

    let path = read_path(&image, &manager).unwrap();
    assert_eq!(path.as_bytes(), b"Assets/Scenes/Boot.unity");
}

#[test]
fn a_long_path_reads_through_the_pointer_before_the_spare_byte_existed() {
    let manager = manager((2021, 1, 29, 10531), PointerSize::Bit64);
    let mut image = vec![0; 0x1000];
    spilled(
        &mut image,
        field(&manager),
        b"Assets/Scenes/Deeply/Nested/Second.unity",
    );

    let path = read_path(&image, &manager).unwrap();
    assert_eq!(path.as_bytes(), b"Assets/Scenes/Deeply/Nested/Second.unity");
}

// A spilled path whose pointer leads to text of another length is not
// trusted, and the field is not an inline path either.
#[test]
fn a_spilled_path_of_the_wrong_length_is_refused() {
    let manager = manager((2023, 1, 22, 16744), PointerSize::Bit64);
    let mut image = vec![0; 0x1000];
    let at = field(&manager);
    spilled(&mut image, at, b"Assets/Scenes/Deeply/Nested/Second.unity");
    put(&mut image, at + 8, &39_u64.to_le_bytes());

    assert!(read_path(&image, &manager).is_none());
}

// A path longer than what is read takes all the bytes read.
#[test]
fn a_spilled_path_longer_than_the_read_takes_the_read() {
    let manager = manager((2023, 1, 22, 16744), PointerSize::Bit64);
    let mut image = vec![0; 0x1000];
    let at = field(&manager);
    spilled(&mut image, at, b"Assets/Scenes/Deeply/Nested/Second.unity");
    let short = with_process(&[(BASE, &image)], |process: &Process| {
        let scene = Scene {
            address: Address::new(BASE + SCENE),
        };
        scene.path::<16>(process, &manager).ok()
    })
    .unwrap();
    assert_eq!(short.as_bytes(), b"Assets/Scenes/De");
}

#[test]
fn scene_names_are_the_file_name_without_the_extension() {
    assert_eq!(get_name(b"Assets/Scenes/Boot.unity"), b"Boot");
    assert_eq!(get_name(b"Boot.unity"), b"Boot");
    assert_eq!(get_name(b"Assets/Scenes/Boot"), b"Boot");
    assert_eq!(get_name(b"Assets/Scenes/a.b.unity"), b"a");
    assert_eq!(get_name(b""), b"");
}

#[test]
fn scene_names_read_the_same_under_either_name() {
    for path in [&b"Assets/Scenes/Boot.unity"[..], b"Boot", b"a/b/", b"x.y.z"] {
        assert_eq!(get_scene_name(path), get_name(path));
    }
    assert_eq!(get_scene_name(b"Levels/1-1.unity"), b"1-1");
}

// The current scene, its index and its path all come from the active scene
// pointer of the manager.
#[test]
fn the_current_scene_is_the_active_one() {
    let manager = manager((2018, 4, 36, 54151), PointerSize::Bit64);
    let mut image = vec![0; 0x1000];
    ptr(&mut image, 0x48, BASE + SCENE);
    put(&mut image, SCENE + 0x98, &7_i32.to_le_bytes());
    put(&mut image, TEXT, b"Assets/Scenes/Boot.unity");
    ptr(&mut image, SCENE + 0x10, BASE + TEXT);
    with_process(&[(BASE, &image)], |process: &Process| {
        assert_eq!(
            manager.get_current_scene(process).unwrap().address(),
            Address::new(BASE + SCENE)
        );
        assert_eq!(manager.get_current_scene_index(process).unwrap(), 7);
        let path = manager.get_current_scene_path::<128>(process).unwrap();
        assert_eq!(path.as_bytes(), b"Assets/Scenes/Boot.unity");
        assert_eq!(
            manager.get_dont_destroy_on_load_scene().address(),
            Address::new(BASE + 0x70)
        );
        assert!(manager.get_current_scene(process).unwrap().is_valid(process));
        assert!(!Scene {
            address: Address::new(0x10)
        }
        .is_valid(process));
    });
}

// Lays a ring of nodes behind the head at `head`, each node holding one of
// the transforms, and links the head to the first and last nodes.
fn ring(image: &mut [u8], head: u64, nodes: &[(u64, u64)]) {
    let around = |index: usize| -> u64 {
        match nodes.get(index) {
            Some(&(node, _)) => BASE + node,
            None => BASE + head,
        }
    };
    ptr(image, head, around(nodes.len().wrapping_sub(1)));
    ptr(image, head + 8, around(0));
    for (index, &(node, transform)) in nodes.iter().enumerate() {
        ptr(image, node, around(index.wrapping_sub(1)));
        ptr(image, node + 8, around(index + 1));
        ptr(image, node + 16, BASE + transform);
    }
}

fn roots_manager() -> SceneManager {
    manager((6000, 3, 21, 9777), PointerSize::Bit64)
}

fn roots(image: &[u8]) -> Vec<Address> {
    let manager = roots_manager();
    with_process(&[(BASE, image)], |process: &Process| {
        let scene = Scene {
            address: Address::new(BASE + SCENE),
        };
        manager
            .root_game_objects(process, &scene)
            .iter()
            .map(|transform| transform.address)
            .collect()
    })
}

#[test]
fn roots_come_out_first_to_last() {
    let mut image = vec![0; 0x1000];
    let head = SCENE + roots_manager().profile.scene.roots as u64;
    ring(
        &mut image,
        head,
        &[(0x400, 0x800), (0x440, 0x840), (0x480, 0x880)],
    );

    assert_eq!(
        roots(&image),
        [
            Address::new(BASE + 0x800),
            Address::new(BASE + 0x840),
            Address::new(BASE + 0x880)
        ]
    );
}

#[test]
fn an_empty_ring_has_no_roots() {
    let mut image = vec![0; 0x1000];
    let head = SCENE + roots_manager().profile.scene.roots as u64;
    ring(&mut image, head, &[]);

    assert_eq!(roots(&image), []);
}

#[test]
fn a_ring_that_does_not_close_stops_at_the_break() {
    let mut image = vec![0; 0x1000];
    let head = SCENE + roots_manager().profile.scene.roots as u64;
    ring(&mut image, head, &[(0x400, 0x800), (0x440, 0x840)]);
    ptr(&mut image, 0x440 + 8, 0);

    assert_eq!(
        roots(&image),
        [Address::new(BASE + 0x800), Address::new(BASE + 0x840)]
    );
}

// Root transforms are found by the names of their game objects, in the
// active scene and in the DontDestroyOnLoad scene the manager embeds.
#[test]
fn root_game_objects_are_found_by_name() {
    let manager = roots_manager();
    let mut image = vec![0; 0x2000];
    ptr(&mut image, manager.profile.manager.active_scene as u64, BASE + SCENE);
    let head = SCENE + manager.profile.scene.roots as u64;
    ring(&mut image, head, &[(0x400, 0x800), (0x440, 0x840)]);
    let go = manager.profile.transform.game_object as u64;
    let name = manager.profile.game_object.name as u64;
    ptr(&mut image, 0x800 + go, BASE + 0xA00);
    ptr(&mut image, 0x840 + go, BASE + 0xB00);
    ptr(&mut image, 0xA00 + name, BASE + 0xC00);
    ptr(&mut image, 0xB00 + name, BASE + 0xC80);
    put(&mut image, 0xC00, b"Player\0");
    put(&mut image, 0xC80, b"Camera\0");
    let dd_head = manager.profile.manager.dont_destroy_on_load_scene as u64
        + manager.profile.scene.roots as u64;
    ring(&mut image, dd_head, &[(0x480, 0x840)]);
    with_process(&[(BASE, &image)], |process: &Process| {
        let camera = manager.get_root_game_object(process, "Camera").unwrap();
        assert_eq!(camera.address, Address::new(BASE + 0x840));
        assert!(manager.get_root_game_object(process, "Enemy").is_err());
        let kept = manager
            .get_game_object_from_dont_destroy_on_load(process, "Camera")
            .unwrap();
        assert_eq!(kept.address, Address::new(BASE + 0x840));
        assert!(manager
            .get_game_object_from_dont_destroy_on_load(process, "Player")
            .is_err());
        let player = Transform {
            address: Address::new(BASE + 0x800),
        };
        assert_eq!(
            player.get_name::<128>(process, &manager).unwrap().as_bytes(),
            b"Player"
        );
    });
}

// A transform's children are a dynamic array of transforms, found by name.
#[test]
fn children_are_found_by_name() {
    let manager = roots_manager();
    let mut image = vec![0; 0x2000];
    let children = manager.profile.transform.children as u64;
    let go = manager.profile.transform.game_object as u64;
    let name = manager.profile.game_object.name as u64;
    ptr(&mut image, 0x100 + children, BASE + 0x300);
    ptr(&mut image, 0x100 + children + 16, 2);
    ptr(&mut image, 0x300, BASE + 0x800);
    ptr(&mut image, 0x308, BASE + 0x840);
    ptr(&mut image, 0x800 + go, BASE + 0xA00);
    ptr(&mut image, 0x840 + go, BASE + 0xB00);
    ptr(&mut image, 0xA00 + name, BASE + 0xC00);
    ptr(&mut image, 0xB00 + name, BASE + 0xC80);
    put(&mut image, 0xC00, b"Hand\0");
    put(&mut image, 0xC80, b"Foot\0");
    with_process(&[(BASE, &image)], |process: &Process| {
        let parent = Transform {
            address: Address::new(BASE + 0x100),
        };
        let kids = parent.children(process, &manager).unwrap();
        assert_eq!(kids.len(), 2);
        let foot = parent.get_child(process, &manager, "Foot").unwrap();
        assert_eq!(foot.address, Address::new(BASE + 0x840));
        assert!(parent.get_child(process, &manager, "Head").is_err());
        let leaf = Transform {
            address: Address::new(BASE + 0x800),
        };
        assert!(leaf.children(process, &manager).is_err());
    });
}

// The path comes back as text when it is UTF-8, and the scene's name is the
// file name up to its last dot, where `get_name` stops at the first.
#[test]
fn scene_paths_read_as_text_and_name_the_scene() {
    let manager = manager((2018, 4, 36, 54151), PointerSize::Bit64);
    let mut image = vec![0; 0x1000];
    put(&mut image, TEXT, "Assets/Scènes/Level.1.unity".as_bytes());
    put(&mut image, field(&manager), &(BASE + TEXT).to_le_bytes());

    with_process(&[(BASE, &image)], |process: &Process| {
        let scene = Scene {
            address: Address::new(BASE + SCENE),
        };
        assert_eq!(
            scene.path_as_string(process, &manager).unwrap(),
            "Assets/Scènes/Level.1.unity"
        );
        assert_eq!(scene.name(process, &manager).unwrap(), "Level.1");
    });
    assert_eq!(get_name("Assets/Scènes/Level.1.unity".as_bytes()), b"Level");

    // Bytes that are not UTF-8 name no text.
    let mut image = vec![0; 0x1000];
    put(&mut image, TEXT, b"Assets/\xFF.unity");
    put(&mut image, field(&manager), &(BASE + TEXT).to_le_bytes());
    with_process(&[(BASE, &image)], |process: &Process| {
        let scene = Scene {
            address: Address::new(BASE + SCENE),
        };
        assert!(scene.path_as_string(process, &manager).is_err());
        assert!(scene.name(process, &manager).is_err());
    });
}
