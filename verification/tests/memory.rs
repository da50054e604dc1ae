use emulateme::controller::{ControllerFlags, GenericController, NoController};
use emulateme::memory::{Memory, MemoryError};
use emulateme::ppu::PpuMemoryError;
use emulateme::rom::{parse_rom, Rom};

fn rom() -> Rom {
    let mut bytes = vec![0x4E, 0x45, 0x53, 0x1A, 1, 1, 0, 0, 0, 0, 0, 0, 0, 0, 0, 0];
    bytes.extend((0..16384).map(|i| (i % 256) as u8));
    bytes.extend(std::iter::repeat(0).take(8192));
    parse_rom(&bytes).unwrap().1
}

#[test]
fn ram_is_mirrored_every_2k() {
    let rom = rom();
    let mut memory = Memory::new(&rom, (NoController, NoController));
    memory.set(0x0012, 0x34).unwrap();
    assert_eq!(memory.get(0x0812), Ok(0x34));
    assert_eq!(memory.get(0x1812), Ok(0x34));
    memory.set(0x1FFF, 9).unwrap();
    assert_eq!(memory.ram[0x7FF], 9);
    assert_eq!(memory.cycles, 4);
}

#[test]
fn pass_get_and_pass_set_spend_no_cycles() {
    let rom = rom();
    let mut memory = Memory::new(&rom, (NoController, NoController));
    memory.pass_set(0x0001, 5).unwrap();
    assert_eq!(memory.pass_get(0x0001), Ok(5));
    assert_eq!(memory.cycles, 0);
    memory.cycle_many(10);
    memory.cycle();
    assert_eq!(memory.cycles, 11);
}

#[test]
fn cartridge_ram_and_program_banks() {
    let rom = rom();
    let mut memory = Memory::new(&rom, (NoController, NoController));
    memory.set(0x6000, 0xAA).unwrap();
    memory.set(0x7FFF, 0xBB).unwrap();
    assert_eq!(memory.get(0x6000), Ok(0xAA));
    assert_eq!(memory.saved[0x1FFF], 0xBB);
    // One 16 KiB bank is seen at $8000 and again at $C000.
    assert_eq!(memory.get(0x8005), Ok(5));
    assert_eq!(memory.get(0xC005), Ok(5));
    assert_eq!(memory.get(0x81FF), Ok(0xFF));
}

#[test]
fn unmapped_addresses_are_errors() {
    let rom = rom();
    let mut memory = Memory::new(&rom, (NoController, NoController));
    assert_eq!(memory.get(0x5000), Err(MemoryError::UnmappedRead(0x5000)));
    assert_eq!(memory.set(0x8000, 1), Err(MemoryError::UnmappedWrite(0x8000)));
    assert_eq!(memory.set(0x5000, 1), Err(MemoryError::UnmappedWrite(0x5000)));
}

#[test]
fn short_reads_are_little_endian() {
    let rom = rom();
    let mut memory = Memory::new(&rom, (NoController, NoController));
    memory.set(0x0020, 0x34).unwrap();
    memory.set(0x0021, 0x12).unwrap();
    let before = memory.cycles;
    assert_eq!(memory.get_short(0x0020), Ok(0x1234));
    assert_eq!(memory.cycles, before + 2);
    assert_eq!(memory.get_short(0x8010), Ok(0x1110));
}

#[test]
fn ppu_registers_through_memory() {
    let rom = rom();
    let mut memory = Memory::new(&rom, (NoController, NoController));
    memory.set(0x2006, 0x20).unwrap();
    memory.set(0x2006, 0x10).unwrap();
    memory.set(0x2007, 0x66).unwrap();
    assert_eq!(memory.ppu.memory.names[0].contents[0x10], 0x66);
    assert_eq!(memory.get(0x2002), Ok(0x80));
    memory.set(0x2006, 0x00).unwrap();
    memory.set(0x2006, 0x00).unwrap();
    memory.set(0x2006, 0x40).unwrap();
    memory.set(0x2006, 0x00).unwrap();
    assert_eq!(
        memory.set(0x2007, 1),
        Err(MemoryError::PpuError(PpuMemoryError::UnmappedWrite(0x0000)))
    );
}

#[test]
fn oam_dma_copies_a_page() {
    let rom = rom();
    let mut memory = Memory::new(&rom, (NoController, NoController));
    for i in 0..256u16 {
        memory.set(0x0200 + i, (255 - i) as u8).unwrap();
    }
    let before = memory.cycles;
    memory.set(0x4014, 0x02).unwrap();
    assert_eq!(memory.cycles, before + 1 + 513);
    assert_eq!(memory.ppu.memory.oam[0].y, 255);
    assert_eq!(memory.ppu.memory.oam[0].number, 254);
    assert_eq!(memory.ppu.memory.oam[63].x, 0);
}

#[test]
fn controller_port_reads_buttons_in_turn() {
    let rom = rom();
    let mut pad = GenericController::default();
    pad.press(ControllerFlags::from_bits_retain(ControllerFlags::B | ControllerFlags::START));
    let mut memory = Memory::new(&rom, (pad, NoController));
    let reads: Vec<u8> = (0..8).map(|_| memory.get(0x4016).unwrap()).collect();
    assert_eq!(reads, vec![0, 1, 0, 1, 0, 0, 0, 0]);
    assert_eq!(memory.controller_cycles, (8, 0));
    assert_eq!(memory.get(0x4017), Ok(0));
    assert_eq!(memory.controller_cycles, (8, 1));
}

#[test]
fn memory_error_messages() {
    assert_eq!(MemoryError::UnmappedRead(0x5000).message(), "Unmapped read to $5000");
    assert_eq!(MemoryError::UnmappedWrite(0x00AB).message(), "Unmapped write to $00AB");
    assert_eq!(
        MemoryError::PpuError(PpuMemoryError::UnmappedRead(0x4001)).message(),
        "Unmapped PPU read at address $4001"
    );
}

#[test]
fn ram_write_is_local() {
    let rom = rom();
    let mut memory = Memory::new(&rom, (NoController, NoController));
    memory.set(0x0100, 1).unwrap();
    memory.set(0x0101, 2).unwrap();
    memory.set(0x0100, 3).unwrap();
    assert_eq!(memory.get(0x0101), Ok(2));
    assert_eq!(memory.get(0x0100), Ok(3));
    assert_eq!(memory.ram.iter().filter(|b| **b != 0).count(), 2);
}

#[test]
fn oam_dma_from_an_unmapped_page_fails_at_its_first_byte() {
    let rom = rom();
    let mut memory = Memory::new(&rom, (NoController, NoController));
    let before: Vec<(u8, u8, u8, u8)> = memory.ppu.memory.oam.iter().map(|s| (s.y, s.number, s.mask, s.x)).collect();
    assert_eq!(memory.set(0x4014, 0x50), Err(MemoryError::UnmappedRead(0x5000)));
    let after: Vec<(u8, u8, u8, u8)> = memory.ppu.memory.oam.iter().map(|s| (s.y, s.number, s.mask, s.x)).collect();
    assert_eq!(before, after);
}

#[test]
fn controller_port_keeps_the_held_buttons() {
    let rom = rom();
    let mut pad = GenericController::default();
    pad.press(ControllerFlags::from_bits_retain(ControllerFlags::SELECT | ControllerFlags::LEFT));
    let mut memory = Memory::new(&rom, (pad, NoController));
    let reads: Vec<u8> = (0..24).map(|_| memory.get(0x4016).unwrap()).collect();
    let expected = vec![0, 0, 1, 0, 0, 0, 1, 0];
    assert_eq!(reads[0..8], expected[..]);
    assert_eq!(reads[8..16], expected[..]);
    assert_eq!(reads[16..24], expected[..]);
}
