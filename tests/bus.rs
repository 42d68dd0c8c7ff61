use nescore::cpu::Cpu;
use nescore::mapper::{choose_mapper, Mapper, UnknownMapper};
use nescore::memory::Memory;
use nescore::nesfile::NesFile;
use nescore::nrom::NRom;

fn cartridge(prg_rom: Vec<u8>, mapper: u8) -> NesFile {
    NesFile { flags: 0, prg_rom, chr_rom: vec![0; 0x2000], mapper }
}

fn pattern(len: usize) -> Vec<u8> {
    (0..len).map(|i| ((i * 7 + i / 256) % 251) as u8).collect()
}

#[test]
fn ram_mirrors_share_cells() {
    let mapper = NRom::new(cartridge(pattern(0x4000), 0));
    let mut memory = Memory::cpu(&mapper);
    memory.write(0x0800, 0xAB);
    assert_eq!(*memory.read(0x0000), 0xAB);
    memory.write(0x0000, 0x12);
    assert_eq!(*memory.read(0x0800), 0x12);
    assert_eq!(*memory.read(0x1800), 0x12);
    memory.write(0x1FFF, 0x34);
    assert_eq!(*memory.read(0x07FF), 0x34);
}

#[test]
fn register_mirrors_share_cells() {
    let mapper = NRom::new(cartridge(pattern(0x4000), 0));
    let mut memory = Memory::cpu(&mapper);
    memory.write(0x2008, 0x5C);
    assert_eq!(*memory.read(0x2000), 0x5C);
    memory.write(0x2000, 0x77);
    assert_eq!(*memory.read(0x2008), 0x77);
    memory.write(0x3FFF, 0x99);
    assert_eq!(*memory.read(0x2007), 0x99);
    memory.write(0x4000, 0x01);
    assert_eq!(*memory.read(0x2000), 0x77);
}

#[test]
fn fresh_bus_is_zero_and_full_size() {
    let mapper = NRom::new(cartridge(pattern(0x4000), 0));
    let mut memory = Memory::cpu(&mapper);
    assert_eq!(*memory.read(0x1234), 0);
    assert_eq!(memory.data_vec().len(), 0x10000);
}

#[test]
fn nrom128_halves_read_the_same_bank() {
    let prg = pattern(0x4000);
    let mapper = NRom::new(cartridge(prg.clone(), 0));
    let cpu = Cpu::new(&mapper);
    for k in [0usize, 1, 2, 0x100, 0x1FFF, 0x3FFE, 0x3FFF] {
        assert_eq!(*cpu.memory().read(0x8000 + k), prg[k]);
        assert_eq!(*cpu.memory().read(0xC000 + k), prg[k]);
    }
}

#[test]
fn nrom256_passes_addresses_through() {
    let prg = pattern(0x8000);
    let mapper = NRom::new(cartridge(prg.clone(), 0));
    let cpu = Cpu::new(&mapper);
    for k in [0usize, 1, 0x3FFF, 0x4000, 0x4001, 0x7FFF] {
        assert_eq!(*cpu.memory().read(0x8000 + k), prg[k]);
    }
    assert_ne!(*cpu.memory().read(0xC001), *cpu.memory().read(0x8001));
}

#[test]
fn nrom_translation() {
    let narrow = NRom::new(cartridge(pattern(0x4000), 0));
    assert_eq!(narrow.map_cpu_memory_index(0xC123), 0x8123);
    assert_eq!(narrow.map_cpu_memory_index(0x8123), 0x8123);
    assert_eq!(narrow.map_cpu_memory_index(0x7FFF), 0x7FFF);
    let wide = NRom::new(cartridge(pattern(0x8000), 0));
    assert_eq!(wide.map_cpu_memory_index(0xC123), 0xC123);
    let window = wide.pgr_window();
    assert_eq!(*window.start(), 0x8000);
    assert_eq!(*window.end(), 0xFFFF);
}

#[test]
fn init_memory_copies_program_rom_to_window() {
    let prg = pattern(0x4000);
    let mapper = NRom::new(cartridge(prg.clone(), 0));
    let mut data = vec![0xEEu8; 0x10000];
    mapper.init_memory(&mut data);
    assert_eq!(data.len(), 0x10000);
    assert_eq!(&data[0x8000..0xC000], &prg[..]);
    assert_eq!(data[0x7FFF], 0xEE);
    assert_eq!(data[0xC000], 0xEE);
}

#[test]
fn read_opcode_is_relative_to_window() {
    let prg = pattern(0x4000);
    let mapper = NRom::new(cartridge(prg.clone(), 0));
    let cpu = Cpu::new(&mapper);
    assert_eq!(*cpu.memory().read_opcode(0), prg[0]);
    assert_eq!(*cpu.memory().read_opcode(0x10), prg[0x10]);
    assert_eq!(*cpu.memory().read_opcode(0x4010), prg[0x10]);
}

#[test]
fn mapper_zero_selects_nrom() {
    let prg = pattern(0x4000);
    let mapper = choose_mapper(cartridge(prg.clone(), 0)).unwrap();
    let cpu = Cpu::new(&mapper);
    assert_eq!(*cpu.memory().read(0xC005), prg[5]);
}

#[test]
fn other_mapper_ids_are_unknown() {
    assert_eq!(choose_mapper(cartridge(pattern(0x4000), 1)).err(), Some(UnknownMapper { id: 1 }));
    assert_eq!(choose_mapper(cartridge(pattern(0x4000), 0xF0)).err(), Some(UnknownMapper { id: 0xF0 }));
}
