use emulateme::controller::NoController;
use emulateme::cpu::Cpu;
use emulateme::rom::{parse_rom, Rom};
use emulateme::state::{CpuRegisters, CpuState, PpuStateSprite};

fn rom() -> Rom {
    let mut prg = vec![0xEAu8; 16384];
    prg[0x3FFC] = 0x00;
    prg[0x3FFD] = 0x80;
    let mut bytes = vec![0x4E, 0x45, 0x53, 0x1A, 1, 1, 0, 0, 0, 0, 0, 0, 0, 0, 0, 0];
    bytes.extend(prg);
    bytes.extend(std::iter::repeat(0).take(8192));
    parse_rom(&bytes).unwrap().1
}

fn busy_cpu(rom: &Rom) -> Cpu<'_, NoController, NoController> {
    let mut cpu = Cpu::new(rom, None, (NoController, NoController));
    cpu.registers.a = 0x11;
    cpu.registers.x = 0x22;
    cpu.registers.y = 0x33;
    cpu.registers.sp = 0x80;
    cpu.memory.ram[0x123] = 0x45;
    cpu.memory.controller_cycles = (3, 4);
    cpu.memory.ppu.registers.oam_address = 9;
    cpu.memory.ppu.registers.read_buffer = 0x77;
    cpu.memory.ppu.registers.render.t = 0x1234;
    cpu.memory.ppu.registers.control.gen_nmi = true;
    cpu.memory.ppu.memory.oam[5].x = 0x99;
    cpu.memory.ppu.memory.names[2].contents[0x3FF] = 0x5A;
    cpu.memory.ppu.memory.palette.sprite[3][1] = 0x2C;
    cpu.memory.ppu.memory.palette.background_solid = 0x0F;
    cpu
}

#[test]
fn restore_after_save_gives_back_the_machine() {
    let rom = rom();
    let cpu = busy_cpu(&rom);
    let state = CpuState::from_cpu(&cpu);
    assert_eq!(state.ram.len(), 0x800);
    assert_eq!(state.ppu.memory.oam.len(), 64);
    assert_eq!(state.ppu.memory.names.len(), 4);
    let restored = state.restore(&rom, (NoController, NoController)).unwrap();
    assert_eq!(restored.registers.pc, cpu.registers.pc);
    assert_eq!(restored.registers.a, 0x11);
    assert_eq!(restored.registers.x, 0x22);
    assert_eq!(restored.registers.y, 0x33);
    assert_eq!(restored.registers.sp, 0x80);
    assert_eq!(restored.registers.p.bits(), cpu.registers.p.bits());
    assert_eq!(restored.memory.ram[0x123], 0x45);
    assert_eq!(restored.memory.ram.to_vec(), cpu.memory.ram.to_vec());
    assert_eq!(restored.memory.controller_cycles, (3, 4));
    assert_eq!(restored.memory.ppu.registers.oam_address, 9);
    assert_eq!(restored.memory.ppu.registers.read_buffer, 0x77);
    assert_eq!(restored.memory.ppu.registers.render.t, 0x1234);
    assert!(restored.memory.ppu.registers.control.gen_nmi);
    assert_eq!(restored.memory.ppu.memory.oam[5].x, 0x99);
    assert_eq!(restored.memory.ppu.memory.names[2].contents[0x3FF], 0x5A);
    assert_eq!(restored.memory.ppu.memory.palette.sprite[3][1], 0x2C);
    assert_eq!(restored.memory.ppu.memory.palette.background_solid, 0x0F);
    // Cartridge RAM is not saved; reading the vectors took six cycles.
    assert!(restored.memory.saved.iter().all(|b| *b == 0));
    assert_eq!(restored.memory.cycles, 6);
    assert_eq!(restored.vectors.reset, 0x8000);
}

#[test]
fn incomplete_states_do_not_restore() {
    let rom = rom();
    let cpu = busy_cpu(&rom);
    let mut state = CpuState::from_cpu(&cpu);
    state.ram.pop();
    assert!(state.restore(&rom, (NoController, NoController)).is_none());

    let mut state = CpuState::from_cpu(&cpu);
    state.ppu.memory.oam.pop();
    assert!(state.restore(&rom, (NoController, NoController)).is_none());

    let mut state = CpuState::from_cpu(&cpu);
    state.ppu.memory.names[3].contents.push(0);
    assert!(state.restore(&rom, (NoController, NoController)).is_none());

    let mut state = CpuState::from_cpu(&cpu);
    state.ppu.memory.names.pop();
    assert!(state.restore(&rom, (NoController, NoController)).is_none());
}

#[test]
fn saved_registers_carry_status_byte() {
    let rom = rom();
    let cpu = busy_cpu(&rom);
    let saved = CpuRegisters::from_registers(&cpu.registers);
    assert_eq!(saved.p, 0x24);
    assert_eq!(saved.pc, 0x8000);
    let live = CpuRegisters { pc: 1, a: 2, x: 3, y: 4, p: 0xC3, sp: 5 }.to_registers();
    assert_eq!((live.pc, live.a, live.x, live.y, live.p.bits(), live.sp), (1, 2, 3, 4, 0xC3, 5));
}

#[test]
fn saved_sprites_round_trip() {
    let rom = rom();
    let cpu = busy_cpu(&rom);
    let saved = PpuStateSprite::from_live(&cpu.memory.ppu.memory.oam[5]);
    assert_eq!(saved, PpuStateSprite { y: 0xFF, number: 0, mask: 0, x: 0x99 });
    let live = saved.to_live();
    assert_eq!((live.y, live.number, live.mask, live.x), (0xFF, 0, 0, 0x99));
}

#[test]
fn incomplete_state_is_refused_on_any_cartridge() {
    let rom = rom();
    let mut state = CpuState::from_cpu(&busy_cpu(&rom));
    state.ram.pop();
    let empty = Rom { flags: rom.flags.clone(), prg_rom: Vec::new(), chr_rom: Vec::new() };
    assert!(state.restore(&empty, (NoController, NoController)).is_none());
}
