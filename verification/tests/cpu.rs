use emulateme::controller::NoController;
use emulateme::cpu::{Cpu, Registers, StatusRegister};
use emulateme::decoder::{Instruction, Mnemonic, Mode};
use emulateme::interpreter::CpuError;
use emulateme::memory::MemoryError;
use emulateme::rom::{parse_rom, Rom};

/// A cartridge with `program` at $8000, the reset vector at $8000 and the
/// NMI and IRQ vectors at $9000.
fn rom_with(program: &[u8]) -> Rom {
    let mut prg = vec![0xEAu8; 16384];
    prg[..program.len()].copy_from_slice(program);
    prg[0x3FFA] = 0x00;
    prg[0x3FFB] = 0x90;
    prg[0x3FFC] = 0x00;
    prg[0x3FFD] = 0x80;
    prg[0x3FFE] = 0x00;
    prg[0x3FFF] = 0x90;
    let mut bytes = vec![0x4E, 0x45, 0x53, 0x1A, 1, 1, 0, 0, 0, 0, 0, 0, 0, 0, 0, 0];
    bytes.extend(prg);
    bytes.extend(std::iter::repeat(0).take(8192));
    parse_rom(&bytes).unwrap().1
}

fn cpu(rom: &Rom) -> Cpu<'_, NoController, NoController> {
    Cpu::new(rom, None, (NoController, NoController))
}

#[test]
fn power_on_state() {
    let rom = rom_with(&[]);
    let cpu = cpu(&rom);
    assert_eq!(cpu.vectors.reset, 0x8000);
    assert_eq!(cpu.vectors.nmi, 0x9000);
    assert_eq!(cpu.vectors.interrupt, 0x9000);
    assert_eq!(cpu.registers.pc, 0x8000);
    assert_eq!(cpu.registers.sp, 0xFD);
    assert_eq!(cpu.registers.p.bits(), 0x24);
    assert_eq!(cpu.memory.cycles, 7);
    let started = Cpu::new(&rom, Some(0xC000), (NoController, NoController));
    assert_eq!(started.registers.pc, 0xC000);
}

#[test]
fn registers_new() {
    let registers = Registers::new(0x1234);
    assert_eq!(registers.pc, 0x1234);
    assert_eq!((registers.a, registers.x, registers.y, registers.sp), (0, 0, 0, 0xFD));
    assert!(registers.p.contains(StatusRegister::INTERUPT));
    assert!(registers.p.contains(StatusRegister::ENABLED));
    assert!(!registers.p.contains(StatusRegister::CARRY));
}

#[test]
fn status_register_flags() {
    let mut p = StatusRegister::empty();
    p.insert(StatusRegister::CARRY | StatusRegister::ZERO);
    assert_eq!(p.bits(), 0x03);
    p.remove(StatusRegister::CARRY);
    assert_eq!(p.bits(), 0x02);
    p.set(StatusRegister::NEGATIVE, true);
    assert_eq!(p.bits(), 0x82);
    assert_eq!(p.union(StatusRegister::BREAK).bits(), 0x92);
    assert_eq!(p.difference(StatusRegister::ZERO).bits(), 0x80);
}

#[test]
fn load_add_store() {
    // LDA #$05; CLC; ADC #$03; STA $10
    let rom = rom_with(&[0xA9, 0x05, 0x18, 0x69, 0x03, 0x85, 0x10]);
    let mut cpu = cpu(&rom);
    cpu.step().unwrap();
    assert_eq!(cpu.registers.a, 5);
    assert_eq!(cpu.memory.cycles, 9);
    cpu.step().unwrap();
    cpu.step().unwrap();
    assert_eq!(cpu.registers.a, 8);
    cpu.step().unwrap();
    assert_eq!(cpu.memory.ram[0x10], 8);
    assert_eq!(cpu.registers.pc, 0x8007);
    assert_eq!(cpu.memory.cycles, 7 + 2 + 2 + 2 + 3);
}

#[test]
fn add_sets_carry_overflow_zero_negative() {
    // LDA #$7F; ADC #$01 -> $80, overflow and negative
    let rom = rom_with(&[0xA9, 0x7F, 0x69, 0x01, 0xA9, 0xFF, 0x69, 0x01]);
    let mut cpu = cpu(&rom);
    cpu.step().unwrap();
    cpu.step().unwrap();
    assert_eq!(cpu.registers.a, 0x80);
    assert!(cpu.registers.p.contains(StatusRegister::OVERFLOW));
    assert!(cpu.registers.p.contains(StatusRegister::NEGATIVE));
    assert!(!cpu.registers.p.contains(StatusRegister::CARRY));
    // LDA #$FF; ADC #$01 -> $00 with carry and zero
    cpu.step().unwrap();
    cpu.step().unwrap();
    assert_eq!(cpu.registers.a, 0x00);
    assert!(cpu.registers.p.contains(StatusRegister::CARRY));
    assert!(cpu.registers.p.contains(StatusRegister::ZERO));
    assert!(!cpu.registers.p.contains(StatusRegister::OVERFLOW));
}

#[test]
fn subtract_and_compare() {
    // SEC; LDA #$10; SBC #$20; CMP #$F0; LDX #$05; CPX #$06
    let rom = rom_with(&[0x38, 0xA9, 0x10, 0xE9, 0x20, 0xC9, 0xF0, 0xA2, 0x05, 0xE0, 0x06]);
    let mut cpu = cpu(&rom);
    for _ in 0..3 {
        cpu.step().unwrap();
    }
    assert_eq!(cpu.registers.a, 0xF0);
    assert!(!cpu.registers.p.contains(StatusRegister::CARRY));
    cpu.step().unwrap();
    assert!(cpu.registers.p.contains(StatusRegister::ZERO));
    assert!(cpu.registers.p.contains(StatusRegister::CARRY));
    cpu.step().unwrap();
    cpu.step().unwrap();
    assert!(!cpu.registers.p.contains(StatusRegister::CARRY));
    assert!(cpu.registers.p.contains(StatusRegister::NEGATIVE));
}

#[test]
fn subroutine_call_and_return() {
    // JSR $8005; BRK; BRK; INX; RTS
    let rom = rom_with(&[0x20, 0x05, 0x80, 0x00, 0x00, 0xE8, 0x60]);
    let mut cpu = cpu(&rom);
    cpu.step().unwrap();
    assert_eq!(cpu.registers.pc, 0x8005);
    assert_eq!(cpu.registers.sp, 0xFB);
    assert_eq!(cpu.memory.ram[0x1FD], 0x80);
    assert_eq!(cpu.memory.ram[0x1FC], 0x02);
    cpu.step().unwrap();
    assert_eq!(cpu.registers.x, 1);
    cpu.step().unwrap();
    assert_eq!(cpu.registers.pc, 0x8003);
    assert_eq!(cpu.registers.sp, 0xFD);
    assert_eq!(cpu.step(), Err(CpuError::Break));
}

#[test]
fn branches_forward_and_back() {
    // LDX #$03; DEX; BNE -3; STX $00
    let rom = rom_with(&[0xA2, 0x03, 0xCA, 0xD0, 0xFD, 0x86, 0x00]);
    let mut cpu = cpu(&rom);
    cpu.step().unwrap();
    for _ in 0..3 {
        cpu.step().unwrap();
        cpu.step().unwrap();
    }
    assert_eq!(cpu.registers.x, 0);
    assert_eq!(cpu.registers.pc, 0x8005);
    cpu.step().unwrap();
    assert_eq!(cpu.memory.ram[0], 0);
}

#[test]
fn stack_push_and_pull() {
    // LDA #$42; PHA; LDA #$00; PLA; PHP; PLP
    let rom = rom_with(&[0xA9, 0x42, 0x48, 0xA9, 0x00, 0x68, 0x08, 0x28]);
    let mut cpu = cpu(&rom);
    for _ in 0..4 {
        cpu.step().unwrap();
    }
    assert_eq!(cpu.registers.a, 0x42);
    assert_eq!(cpu.registers.sp, 0xFD);
    let before = cpu.registers.p.bits();
    cpu.step().unwrap();
    assert_eq!(cpu.memory.ram[0x1FD], before | 0x30);
    cpu.step().unwrap();
    assert_eq!(cpu.registers.p.bits(), before);
}

#[test]
fn interrupt_then_return() {
    // At $9000: RTI
    let mut program = vec![0xEAu8; 0x1001];
    program[0x1000] = 0x40;
    let rom = rom_with(&program);
    let mut cpu = cpu(&rom);
    let p = cpu.registers.p.bits();
    cpu.interrupt(cpu.vectors.nmi).unwrap();
    assert_eq!(cpu.registers.pc, 0x9000);
    assert_eq!(cpu.registers.sp, 0xFA);
    assert_eq!(cpu.memory.cycles, 10);
    cpu.step().unwrap();
    assert_eq!(cpu.registers.pc, 0x8000);
    assert_eq!(cpu.registers.sp, 0xFD);
    assert_eq!(cpu.registers.p.bits() | 0x30, p | 0x30);
}

#[test]
fn invalid_and_stopping_opcodes() {
    let rom = rom_with(&[0x03]);
    let mut cpu = cpu(&rom);
    assert_eq!(cpu.step(), Err(CpuError::InvalidOp(0x03)));
    let rom = rom_with(&[0x02]);
    let mut cpu = Cpu::new(&rom, None, (NoController, NoController));
    assert_eq!(cpu.step(), Err(CpuError::Stop));
}

#[test]
fn memory_errors_surface() {
    // STA $5000
    let rom = rom_with(&[0x8D, 0x00, 0x50]);
    let mut cpu = cpu(&rom);
    assert_eq!(cpu.step(), Err(CpuError::Memory(MemoryError::UnmappedWrite(0x5000))));
}

#[test]
fn execute_runs_a_decoded_instruction() {
    let rom = rom_with(&[]);
    let mut cpu = cpu(&rom);
    cpu.execute(Instruction { mnemonic: Mnemonic::Ldy, mode: Mode::Immediate, operand: 0x80 }).unwrap();
    assert_eq!(cpu.registers.y, 0x80);
    assert!(cpu.registers.p.contains(StatusRegister::NEGATIVE));
}

#[test]
fn cpu_error_messages() {
    assert_eq!(CpuError::InvalidOp(0x03).message(), "Invalid OP code $03");
    assert_eq!(CpuError::Break.message(), "Hit break instruction");
    assert_eq!(CpuError::Stop.message(), "Hit stop instruction");
    assert_eq!(CpuError::Memory(MemoryError::UnmappedWrite(0x5000)).message(), "Unmapped write to $5000");
}

#[test]
fn add_overflow_follows_the_signs() {
    // SEC; LDA #$80; ADC #$FF: -128 + -1 + 1 = -128, no overflow, carry out.
    let rom = rom_with(&[0x38, 0xA9, 0x80, 0x69, 0xFF, 0x18, 0xA9, 0x50, 0x69, 0x50, 0x38, 0xA9, 0x7F, 0x69, 0x00]);
    let mut cpu = cpu(&rom);
    for _ in 0..3 {
        cpu.step().unwrap();
    }
    assert_eq!(cpu.registers.a, 0x80);
    assert!(!cpu.registers.p.contains(StatusRegister::OVERFLOW));
    assert!(cpu.registers.p.contains(StatusRegister::CARRY));
    // CLC; LDA #$50; ADC #$50: 80 + 80 = 160 overflows.
    for _ in 0..3 {
        cpu.step().unwrap();
    }
    assert_eq!(cpu.registers.a, 0xA0);
    assert!(cpu.registers.p.contains(StatusRegister::OVERFLOW));
    // SEC; LDA #$7F; ADC #$00: 127 + 0 + 1 = 128 overflows.
    for _ in 0..3 {
        cpu.step().unwrap();
    }
    assert_eq!(cpu.registers.a, 0x80);
    assert!(cpu.registers.p.contains(StatusRegister::OVERFLOW));
}

#[test]
fn pattern_ram_cartridges_run() {
    let mut bytes = vec![0x4E, 0x45, 0x53, 0x1A, 1, 0, 0, 0, 0, 0, 0, 0, 0, 0, 0, 0];
    let mut prg = vec![0xEAu8; 16384];
    prg[0x3FFC] = 0x00;
    prg[0x3FFD] = 0x80;
    // LDA #$00; STA $2006; STA $2006; LDA $2007
    prg[..11].copy_from_slice(&[0xA9, 0x00, 0x8D, 0x06, 0x20, 0x8D, 0x06, 0x20, 0xAD, 0x07, 0x20]);
    bytes.extend(prg);
    let rom = parse_rom(&bytes).unwrap().1;
    let mut cpu = cpu(&rom);
    assert!(cpu.memory.ram.iter().all(|b| *b == 0));
    assert!(cpu.memory.saved.iter().all(|b| *b == 0));
    for _ in 0..3 {
        cpu.step().unwrap();
    }
    assert_eq!(
        cpu.step(),
        Err(CpuError::Memory(MemoryError::PpuError(emulateme::ppu::PpuMemoryError::UnmappedRead(0x0000))))
    );
}

#[test]
fn opcodes_fetched_from_ports() {
    let rom = rom_with(&[]);
    // $2004 gives the OAM byte at address 0: sprite 0's y, 0xFF (no such opcode).
    let mut cpu = Cpu::new(&rom, Some(0x2004), (NoController, NoController));
    let a = cpu.registers.a;
    assert_eq!(cpu.step(), Err(CpuError::InvalidOp(0xFF)));
    assert_eq!(cpu.registers.pc, 0x2005);
    assert_eq!(cpu.registers.a, a);
    // An empty joypad port reads 0: BRK.
    let mut cpu = Cpu::new(&rom, Some(0x4016), (NoController, NoController));
    assert_eq!(cpu.step(), Err(CpuError::Break));
    assert_eq!(cpu.registers.pc, 0x4017);
    assert_eq!(cpu.memory.controller_cycles, (1, 0));
    // $2002 gives the status, 0x80 at power on (an immediate NOP); its operand
    // at $2003 cannot be read, so the opcode is read again and reported.
    let mut cpu = Cpu::new(&rom, Some(0x2002), (NoController, NoController));
    assert_eq!(cpu.step(), Err(CpuError::InvalidOp(0x80)));
    assert_eq!(cpu.registers.pc, 0x2004);
}
