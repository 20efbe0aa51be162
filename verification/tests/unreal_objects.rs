use asr::game_engine::unreal::{Module, Offsets, UObject, UnrealPointer, Version};
use asr::process::{MemoryRegion, ModuleInfo};
use asr::{Address, PointerSize, Process};

const BASE: u64 = 0x1_4000_0000;

fn put(image: &mut [u8], at: u64, bytes: &[u8]) {
    let at = at as usize;
    image[at..at + bytes.len()].copy_from_slice(bytes);
}

fn ptr(image: &mut [u8], at: u64, target: u64) {
    put(image, at, &target.to_le_bytes());
}

fn process(image: Vec<u8>) -> Process {
    Process::new(
        vec![MemoryRegion {
            base: BASE,
            bytes: image,
        }],
        vec![ModuleInfo {
            name: b"Game.exe".to_vec(),
            base: BASE,
            size: 0x1000,
        }],
    )
}

// An FName entry: a header holding the length behind six flag bits, then the
// characters.
fn entry(image: &mut [u8], at: u64, name: &[u8]) {
    put(image, at, &((name.len() as u16) << 6).to_le_bytes());
    put(image, at + 2, name);
}

// The 4.25 layout: a world object whose class holds two properties, the
// second inherited through the property chain, and a name pool of one chunk.
fn world() -> (Vec<u8>, Module) {
    let offsets = Offsets::new(Version::V4_25, PointerSize::Bit64).unwrap();
    let module = Module {
        pointer_size: PointerSize::Bit64,
        offsets,
        g_engine: Address::new(BASE + 0x10),
        g_world: Address::new(BASE + 0x18),
        fname_base: Address::new(BASE + 0x100),
    };
    let mut i = vec![0; 0x4000];
    // The name pool: chunk 0 sits two pointers past the base.
    ptr(&mut i, 0x100 + 16, BASE + 0x1000);
    entry(&mut i, 0x1000, b"World");
    entry(&mut i, 0x1000 + 2 * 0x10, b"Players");
    entry(&mut i, 0x1000 + 2 * 0x20, b"Score");
    // GWorld holds the world object.
    ptr(&mut i, 0x18, BASE + 0x2000);
    // The world object names itself with entry 0, and its class.
    put(&mut i, 0x2000 + 0x18, &[0, 0, 0, 0]);
    ptr(&mut i, 0x2000 + 0x10, BASE + 0x2400);
    ptr(&mut i, 0x2000 + 0x80, BASE + 0x2800); // the Players field's value
    // The class: its property link is null, so the chain starts at its
    // parent.
    ptr(&mut i, 0x2400 + 0x50, 0);
    ptr(&mut i, 0x2400 + 0x40, BASE + 0x2500);
    ptr(&mut i, 0x2500 + 0x50, BASE + 0x2600);
    // Players at 0x80, then Score at 0x90.
    put(&mut i, 0x2600 + 0x28, &[0x10, 0, 0, 0]);
    put(&mut i, 0x2600 + 0x4C, &0x80_u32.to_le_bytes());
    ptr(&mut i, 0x2600 + 0x58, BASE + 0x2700);
    put(&mut i, 0x2700 + 0x28, &[0x20, 0, 0, 0]);
    put(&mut i, 0x2700 + 0x4C, &0x90_u32.to_le_bytes());
    ptr(&mut i, 0x2700 + 0x58, 0);
    // The Players value is another world object, its Score at 0x90.
    ptr(&mut i, 0x2800 + 0x10, BASE + 0x2400);
    put(&mut i, 0x2800 + 0x90, &42_u32.to_le_bytes());
    (i, module)
}

#[test]
fn objects_are_named_through_the_name_pool() {
    let (image, module) = world();
    let process = process(image);
    let world = module.get_g_world_uobject(&process).unwrap();
    assert_eq!(world.object, Address::new(BASE + 0x2000));
    assert_eq!(
        world.get_fname::<128>(&process, &module).unwrap().as_bytes(),
        b"World"
    );
    assert!(module.get_g_engine_uobject(&process).is_none());
    assert_eq!(module.g_world(), Address::new(BASE + 0x18));
    assert_eq!(module.g_engine(), Address::new(BASE + 0x10));
}

#[test]
fn field_offsets_follow_the_property_chain() {
    let (image, module) = world();
    let process = process(image);
    let world = UObject {
        object: Address::new(BASE + 0x2000),
    };
    assert_eq!(world.get_field_offset(&process, &module, "Players"), Some(0x80));
    assert_eq!(world.get_field_offset(&process, &module, "Score"), Some(0x90));
    assert_eq!(world.get_field_offset(&process, &module, "Lives"), None);
}

#[test]
fn pointers_resolve_names_and_literals() {
    let (image, module) = world();
    let process = process(image);
    let mut pointer = UnrealPointer::<2>::new(module.g_world(), &["Players", "Score"]);
    let at = pointer.deref_offsets(&process, &module).unwrap();
    assert_eq!(at, Address::new(BASE + 0x2800 + 0x90));
    assert_eq!(process.read_u32(at), Some(42));

    let mut literal = UnrealPointer::<2>::new(module.g_world(), &["0x80", "144"]);
    assert_eq!(
        literal.deref_offsets(&process, &module).unwrap(),
        Address::new(BASE + 0x2800 + 0x90)
    );

    let mut missing = UnrealPointer::<2>::new(module.g_world(), &["Players", "Lives"]);
    assert!(missing.deref_offsets(&process, &module).is_err());
}

#[test]
fn pointers_hand_back_the_value_at_their_target() {
    let (image, module) = world();
    let process = process(image);
    let mut pointer = UnrealPointer::<2>::new(module.g_world(), &["Players", "Score"]);
    assert_eq!(pointer.deref::<u32>(&process, &module), Ok(42));
    assert_eq!(pointer.deref::<u8>(&process, &module), Ok(42));

    let mut missing = UnrealPointer::<2>::new(module.g_world(), &["Players", "Lives"]);
    assert!(missing.deref::<u32>(&process, &module).is_err());
}

#[test]
fn layouts_exist_for_64_bit_games_only() {
    assert!(Offsets::new(Version::V5_4, PointerSize::Bit32).is_none());
    let v523 = Offsets::new(Version::V4_23, PointerSize::Bit64).unwrap();
    assert_eq!(v523.uclass_property_link, 0x48);
    let v53 = Offsets::new(Version::V5_3, PointerSize::Bit64).unwrap();
    assert_eq!(v53.uproperty_property_link_next, 0x48);
}

// A game's globals are found through the code that loads them.
#[test]
fn attach_finds_the_globals_through_their_loads() {
    let mut i = vec![0; 0x2000];
    put(&mut i, 0, b"MZ");
    put(&mut i, 0x3C, &0x80_u32.to_le_bytes());
    put(&mut i, 0x80, b"PE\0\0");
    put(&mut i, 0x84, &0x8664_u16.to_le_bytes());
    put(&mut i, 0x98, &0x20B_u16.to_le_bytes());
    put(&mut i, 0x98 + 0x38, &0x1000_u32.to_le_bytes());
    let rel = |from: u64, after: u64, to: u64| ((to as i64 - (from + after) as i64) as i32).to_le_bytes();
    // test al, 1; jne; mov [rip + disp], imm: GEngine sits 8 past the disp.
    put(&mut i, 0x200, &[0xA8, 0x01, 0x75, 0x10, 0x48, 0xC7, 0x05]);
    put(&mut i, 0x207, &rel(BASE + 0x207, 8, BASE + 0x800));
    // mov rax, [rip + disp]; cmp; cmove; mov [rip + disp], rax; call
    put(
        &mut i,
        0x300,
        &[
            0x48, 0x8B, 0x05, 0, 0, 0, 0, 0x48, 0x3B, 0xC1, 0x48, 0x0F, 0x44, 0xC1, 0x48, 0x89,
            0x05, 0, 0, 0, 0, 0xE8,
        ],
    );
    put(&mut i, 0x303, &rel(BASE + 0x303, 4, BASE + 0x808));
    // je; lea rdx, [rip + disp]; jmp
    put(&mut i, 0x400, &[0x74, 0x09, 0x48, 0x8D, 0x15, 0, 0, 0, 0, 0xEB, 0x16]);
    put(&mut i, 0x405, &rel(BASE + 0x405, 4, BASE + 0x900));
    let process = process(i);
    let module = Module::attach(&process, Version::V5_0, Address::new(BASE)).unwrap();
    assert_eq!(module.g_engine, Address::new(BASE + 0x800));
    assert_eq!(module.g_world, Address::new(BASE + 0x808));
    assert_eq!(module.fname_base, Address::new(BASE + 0x900));
    assert!(Module::attach(&process, Version::V5_0, Address::new(BASE + 0x10)).is_none());
}
