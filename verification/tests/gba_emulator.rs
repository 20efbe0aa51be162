use asr::gba::Emulator;
use asr::process::{MemoryRegion, ModuleInfo};
use asr::{Address, Process};

fn process(regions: Vec<(u64, Vec<u8>)>, modules: &[(&str, u64, u64)]) -> Process {
    Process::new(
        regions
            .into_iter()
            .map(|(base, bytes)| MemoryRegion { base, bytes })
            .collect(),
        modules
            .iter()
            .map(|&(name, base, size)| ModuleInfo {
                name: name.as_bytes().to_vec(),
                base,
                size,
            })
            .collect(),
    )
}

fn put(image: &mut [u8], at: u64, bytes: &[u8]) {
    let at = at as usize;
    image[at..at + bytes.len()].copy_from_slice(bytes);
}

const MGBA: u64 = 0x1_4000_0000;
const HEAP: u64 = 0x2_0000_0000;

// mGBA's path: four pointers from its module, then the pair.
fn mgba(ewram: u64, iwram: u64) -> Process {
    let mut heap = vec![0; 0x1_0000];
    let mut image = vec![0; 0x01D0_2000];
    put(&mut image, 0x01D01868, &(HEAP + 0x100).to_le_bytes());
    put(&mut heap, 0x100 + 0x38, &(HEAP + 0x200).to_le_bytes());
    put(&mut heap, 0x200 + 0x10, &(HEAP + 0x300).to_le_bytes());
    put(&mut heap, 0x300 + 0x8, &(HEAP + 0x400).to_le_bytes());
    put(&mut heap, 0x400 + 0x28, &ewram.to_le_bytes());
    put(&mut heap, 0x400 + 0x30, &iwram.to_le_bytes());
    put(&mut heap, 0x8000, &[1, 2, 3, 4]);
    put(&mut heap, 0x9010, &[9, 8]);
    process(
        vec![(MGBA, image), (HEAP, heap)],
        &[("mGBA.exe", MGBA, 0x01D0_2000)],
    )
}

#[test]
fn mgba_is_recognized_through_its_path() {
    let emulator = Emulator::look_for_mgba(mgba(HEAP + 0x8000, HEAP + 0x9000)).unwrap();
    assert_eq!(emulator.ewram, Address::new(HEAP + 0x8000));
    assert_eq!(emulator.iwram, Address::new(HEAP + 0x9000));
    assert!(Emulator::look_for_mgba(mgba(0, HEAP + 0x9000)).is_none());
    assert!(Emulator::look_for_vba(mgba(HEAP + 0x8000, HEAP + 0x9000)).is_none());
}

// The top byte of a console address picks the work RAM, the rest is the
// offset into it.
#[test]
fn console_addresses_land_in_their_work_ram() {
    let emulator = Emulator::look_for_mgba(mgba(HEAP + 0x8000, HEAP + 0x9000)).unwrap();
    assert_eq!(
        emulator.ram_address(Address::new(0x0200_0001)).unwrap(),
        Address::new(HEAP + 0x8001)
    );
    assert_eq!(
        emulator.ram_address(Address::new(0x0300_0010)).unwrap(),
        Address::new(HEAP + 0x9010)
    );
    assert!(emulator.ram_address(Address::new(0x0800_0000)).is_err());
    assert_eq!(
        emulator.read_bytes(Address::new(0x0200_0000), 4).unwrap(),
        [1, 2, 3, 4]
    );
    assert_eq!(
        emulator.read_bytes(Address::new(0x0300_0010), 2).unwrap(),
        [9, 8]
    );
}

#[test]
fn visual_boy_advance_keeps_its_pair_at_a_fixed_address() {
    let mut image = vec![0; 0x10];
    put(&mut image, 0, &0x0100_0000_u32.to_le_bytes());
    put(&mut image, 4, &0x0200_0000_u32.to_le_bytes());
    let emulator = Emulator::look_for_vba(process(vec![(0x005A_8F50, image)], &[])).unwrap();
    assert_eq!(emulator.ewram, Address::new(0x0100_0000));
    assert_eq!(emulator.iwram, Address::new(0x0200_0000));
}

fn vba() -> Process {
    let mut image = vec![0; 0x10];
    put(&mut image, 0, &0x0100_0000_u32.to_le_bytes());
    put(&mut image, 4, &0x0200_0000_u32.to_le_bytes());
    process(vec![(0x005A_8F50, image)], &[])
}

// mGBA is tried first; Visual Boy Advance answers only when mGBA does not.
#[test]
fn attaching_tries_mgba_then_visual_boy_advance() {
    let first = Emulator::attach(Some(mgba(HEAP + 0x8000, HEAP + 0x9000)), Some(vba())).unwrap();
    assert_eq!(first.ewram, Address::new(HEAP + 0x8000));

    let second = Emulator::attach(Some(mgba(0, HEAP + 0x9000)), Some(vba())).unwrap();
    assert_eq!(second.ewram, Address::new(0x0100_0000));
    assert_eq!(second.iwram, Address::new(0x0200_0000));

    let only = Emulator::attach(None, Some(vba())).unwrap();
    assert_eq!(only.iwram, Address::new(0x0200_0000));

    assert!(Emulator::attach(Some(mgba(0, HEAP + 0x9000)), None).is_none());
    assert!(Emulator::attach(None, None).is_none());
}
