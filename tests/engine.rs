use nescore::cpu::{Cpu, StepError};
use nescore::instructions::{AddressingMode, DecodeError, OpCode};
use nescore::nesfile::NesFile;
use nescore::nrom::NRom;

fn nrom(program: &[u8], len: usize) -> NRom {
    let mut prg_rom = vec![0u8; len];
    prg_rom[..program.len()].copy_from_slice(program);
    NRom::new(NesFile { flags: 0, prg_rom, chr_rom: Vec::new(), mapper: 0 })
}

#[test]
fn new_cpu_starts_at_window() {
    let mapper = nrom(&[], 0x4000);
    let cpu = Cpu::new(&mapper);
    assert_eq!(cpu.pc(), 0x8000);
    assert_eq!(cpu.sp(), 0xFF);
    assert_eq!(cpu.carry_flag(), 0);
    assert_eq!(cpu.negative_flag(), 0);
}

#[test]
fn push_writes_stack_page_and_moves_down() {
    let mapper = nrom(&[], 0x4000);
    let mut cpu = Cpu::new(&mapper);
    cpu.push(0x11);
    cpu.push(0x22);
    assert_eq!(cpu.sp(), 0xFD);
    assert_eq!(*cpu.memory().read(0x1FF), 0x11);
    assert_eq!(*cpu.memory().read(0x1FE), 0x22);
}

#[test]
fn push_wraps_within_stack_page() {
    let mapper = nrom(&[], 0x4000);
    let mut cpu = Cpu::new(&mapper);
    for i in 0..255u8 {
        cpu.push(i);
    }
    assert_eq!(cpu.sp(), 0);
    cpu.push(0xA5);
    assert_eq!(*cpu.memory().read(0x100), 0xA5);
    assert_eq!(cpu.sp(), 0xFF);
}

#[test]
fn end_to_end_jsr() {
    let mapper = nrom(&[0x20, 0x00, 0x90], 0x4000);
    let mut cpu = Cpu::new(&mapper);
    assert_eq!(cpu.step(), Ok(()));
    assert_eq!(cpu.pc(), 0x9000);
    assert_eq!(cpu.sp(), 0xFD);
    // 0x8002, the last byte of the instruction: its byte masked as
    // `& 0xFF00 >> 8`, which is the low byte, then its low byte
    assert_eq!(*cpu.memory().read(0x1FF), 0x02);
    assert_eq!(*cpu.memory().read(0x1FE), 0x02);
}

#[test]
fn jsr_pushes_return_address_from_any_pc() {
    let mut program = vec![0u8; 0x8000];
    program[0x1234] = 0x20;
    program[0x1235] = 0x00;
    program[0x1236] = 0x80;
    program[0] = 0x20;
    program[1] = 0x34;
    program[2] = 0x92;
    let mapper = nrom(&program, 0x8000);
    let mut cpu = Cpu::new(&mapper);
    assert_eq!(cpu.step(), Ok(()));
    assert_eq!(cpu.pc(), 0x9234);
    assert_eq!(cpu.step(), Ok(()));
    assert_eq!(cpu.pc(), 0x8000);
    assert_eq!(cpu.sp(), 0xFB);
    assert_eq!(*cpu.memory().read(0x1FD), 0x36);
    assert_eq!(*cpu.memory().read(0x1FC), 0x36);
}

#[test]
fn lsr_absolute_shifts_memory_and_sets_carry() {
    let mapper = nrom(&[0x4E, 0xFF, 0x01], 0x4000);
    let mut cpu = Cpu::new(&mapper);
    cpu.push(0x05);
    assert_eq!(cpu.step(), Ok(()));
    assert_eq!(cpu.carry_flag(), 1);
    assert_eq!(*cpu.memory().read(0x1FF), 0x02);
    assert_eq!(cpu.pc(), 0x8003);
}

#[test]
fn lsr_zero_page_on_even_byte_clears_carry() {
    let mapper = nrom(&[0x4E, 0xFF, 0x01, 0x46, 0x10], 0x4000);
    let mut cpu = Cpu::new(&mapper);
    cpu.push(0x03);
    assert_eq!(cpu.step(), Ok(()));
    assert_eq!(cpu.carry_flag(), 1);
    assert_eq!(cpu.step(), Ok(()));
    assert_eq!(cpu.carry_flag(), 0);
    assert_eq!(*cpu.memory().read(0x10), 0);
    assert_eq!(cpu.pc(), 0x8005);
}

#[test]
fn lsr_of_0xff_leaves_0x7f() {
    let mapper = nrom(&[0x4E, 0x03, 0x80, 0xFF], 0x4000);
    let mut cpu = Cpu::new(&mapper);
    assert_eq!(cpu.step(), Ok(()));
    assert_eq!(cpu.carry_flag(), 1);
    assert_eq!(*cpu.memory().read(0x8003), 0x7F);
    assert_eq!(*cpu.memory().read(0xC003), 0x7F);
}

#[test]
fn step_reports_unknown_opcode() {
    let mapper = nrom(&[0x00], 0x4000);
    let mut cpu = Cpu::new(&mapper);
    assert_eq!(cpu.step(), Err(StepError::Decode(DecodeError::UnknownOpcode { id: 0, code: 0 })));
    assert_eq!(cpu.pc(), 0x8001);
}

#[test]
fn step_reports_unimplemented_mode() {
    let mapper = nrom(&[0x4A], 0x4000);
    let mut cpu = Cpu::new(&mapper);
    assert_eq!(
        cpu.step(),
        Err(StepError::UnimplementedAddressingMode {
            mode: AddressingMode::Implicit,
            op_code: OpCode::Lsr,
            code: 0x4A
        })
    );
    assert_eq!(cpu.pc(), 0x8001);
}

#[test]
fn step_reports_illegal_and_unofficial_opcodes() {
    let mapper = nrom(&[0x42, 0x03], 0x4000);
    let mut cpu = Cpu::new(&mapper);
    assert_eq!(cpu.step(), Err(StepError::Decode(DecodeError::IllegalOpcode { code: 0x42 })));
    assert_eq!(
        cpu.step(),
        Err(StepError::Decode(DecodeError::UnsupportedIllegalOpcode { code: 0x03 }))
    );
}
