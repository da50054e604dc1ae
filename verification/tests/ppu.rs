use emulateme::ppu::{
    ControlRegister, MaskRegister, PaletteMemory, Ppu, PpuMemory, PpuMemoryError, RenderRegister, Sprite,
    StatusRegister,
};
use emulateme::rom::{parse_rom, Rom};

fn rom() -> Rom {
    let mut bytes = vec![0x4E, 0x45, 0x53, 0x1A, 1, 1, 0, 0, 0, 0, 0, 0, 0, 0, 0, 0];
    bytes.extend(std::iter::repeat(0xEA).take(16384));
    bytes.extend((0..8192).map(|i| (i % 256) as u8));
    parse_rom(&bytes).unwrap().1
}

#[test]
fn sprite_bytes_read_and_write() {
    let mut sprite = Sprite { y: 1, number: 2, mask: 3, x: 4 };
    assert_eq!(sprite.read(0), 1);
    assert_eq!(sprite.read(1), 2);
    assert_eq!(sprite.read(2), 3);
    assert_eq!(sprite.read(3), 4);
    sprite.write(2, 0x80);
    assert_eq!(sprite.read(2), 0x80);
    assert_eq!(sprite.mask, 0x80);
    assert_eq!(sprite.y, 1);
}

#[test]
fn control_register_from_bits() {
    let control = ControlRegister::from_bits(0b1010_0111);
    assert!(control.increment_32);
    assert!(!control.base_sprite_pattern_table);
    assert!(!control.base_background_pattern_table);
    assert!(control.sprite_size);
    assert!(!control.ppu_color_ext);
    assert!(control.gen_nmi);
}

#[test]
fn mask_register_from_bits() {
    let mask = MaskRegister::from_bits(0b0001_1001);
    assert!(mask.greyscale);
    assert!(!mask.show_background_leftmost);
    assert!(!mask.show_sprites_leftmost);
    assert!(mask.show_background);
    assert!(mask.show_sprites);
    assert!(!mask.emphasize_red);
}

#[test]
fn status_register_bits() {
    assert_eq!(StatusRegister { sprite_hit: true, v_blank_hit: false }.bits(), 0x40);
    assert_eq!(StatusRegister { sprite_hit: false, v_blank_hit: true }.bits(), 0x80);
    assert_eq!(StatusRegister { sprite_hit: true, v_blank_hit: true }.bits(), 0xC0);
    assert_eq!(StatusRegister { sprite_hit: false, v_blank_hit: false }.bits(), 0x00);
}

#[test]
fn scroll_writes_give_scroll_offsets() {
    let mut render = RenderRegister { t: 0, v: 0, x: 0, w: false };
    render.write_scroll(0x7D);
    assert!(render.w);
    render.write_scroll(0x5E);
    assert!(!render.w);
    assert_eq!(render.x_scroll(), 0x7D);
    assert_eq!(render.y_scroll(), 0x5E);
}

#[test]
fn control_write_selects_name_table() {
    let mut render = RenderRegister { t: 0, v: 0, x: 0, w: false };
    render.write_control(0b01);
    assert!(render.name_table_x());
    assert!(!render.name_table_y());
    render.write_control(0b10);
    assert!(!render.name_table_x());
    assert!(render.name_table_y());
}

#[test]
fn address_writes_set_v() {
    let mut render = RenderRegister { t: 0, v: 0, x: 0, w: false };
    render.write_address(0x23);
    assert_eq!(render.v, 0);
    render.write_address(0x45);
    assert_eq!(render.v, 0x2345);
    assert_eq!(render.t, 0x2345);
    // The high write keeps six bits only.
    render.write_address(0xFF);
    render.write_address(0x00);
    assert_eq!(render.v, 0x3F00);
}

#[test]
fn status_read_resets_latch() {
    let mut render = RenderRegister { t: 0, v: 0, x: 0, w: true };
    render.read_status();
    assert!(!render.w);
}

#[test]
fn palette_memory_get_and_set() {
    let mut palette = PaletteMemory::default();
    palette.set(0x00, 0x0F).unwrap();
    assert_eq!(palette.get(0x00), Ok(0x0F));
    assert_eq!(palette.get(0x10), Ok(0x0F));
    assert_eq!(palette.get(0x20), Ok(0x0F));
    palette.set(0x05, 0x21).unwrap();
    assert_eq!(palette.background[1][0], 0x21);
    palette.set(0x1B, 0x30).unwrap();
    assert_eq!(palette.sprite[2][2], 0x30);
    palette.set(0x14, 0x11).unwrap();
    assert_eq!(palette.sprite, [[0, 0, 0], [0, 0, 0], [0, 0, 0x30], [0, 0, 0]]);
    assert_eq!(palette.get(0x05), Ok(0x21));
    assert_eq!(palette.get(0x1B), Ok(0x30));
    assert_eq!(palette.get(0x14), Err(PpuMemoryError::PaletteAccess(0x14)));
    assert_eq!(palette.get(0x04), Err(PpuMemoryError::PaletteAccess(0x04)));
}

#[test]
fn palette_reads_back_every_colour_slot() {
    let mut palette = PaletteMemory::default();
    for address in 0..0x20u16 {
        palette.set(address, address as u8 + 1).unwrap();
    }
    for address in 0..0x40u16 {
        let slot = address % 0x20;
        let expected = if slot % 4 != 0 {
            Ok(slot as u8 + 1)
        } else if slot == 0 || slot == 0x10 {
            Ok(0x11)
        } else {
            Err(PpuMemoryError::PaletteAccess(slot))
        };
        assert_eq!(palette.get(address), expected);
    }
    assert_eq!(palette.background, [[2, 3, 4], [6, 7, 8], [10, 11, 12], [14, 15, 16]]);
}

#[test]
fn name_tables_read_back_and_mirror() {
    let rom = rom();
    let mut memory = PpuMemory::new(&rom);
    memory.write(0x2005, 0xAB).unwrap();
    assert_eq!(memory.read(0x2005), Ok(0xAB));
    assert_eq!(memory.read(0x3005), Ok(0xAB));
    memory.write(0x2C00, 7).unwrap();
    assert_eq!(memory.names[3].contents[0], 7);
    assert_eq!(memory.read(0x0102), Ok(0x02));
    assert_eq!(memory.write(0x1000, 1), Err(PpuMemoryError::UnmappedWrite(0x1000)));
    assert_eq!(memory.read(0x4000), Err(PpuMemoryError::UnmappedRead(0x4000)));
    memory.write(0x3F00, 0x0D).unwrap();
    assert_eq!(memory.read(0x3F10), Ok(0x0D));
    memory.write(0x3F0E, 0x27).unwrap();
    assert_eq!(memory.read(0x3F0E), Ok(0x27));
    assert_eq!(memory.read(0x3F2E), Ok(0x27));
}

#[test]
fn pattern_reads_past_the_cartridge_are_errors() {
    let mut bytes = vec![0x4E, 0x45, 0x53, 0x1A, 1, 0, 0, 0, 0, 0, 0, 0, 0, 0, 0, 0];
    bytes.extend(std::iter::repeat(0xEA).take(16384));
    let rom = parse_rom(&bytes).unwrap().1;
    let mut memory = PpuMemory::new(&rom);
    assert_eq!(memory.read(0x0000), Err(PpuMemoryError::UnmappedRead(0x0000)));
    assert_eq!(memory.read(0x1FFF), Err(PpuMemoryError::UnmappedRead(0x1FFF)));
    assert_eq!(memory.read(0x2000), Ok(0));
}

#[test]
fn ppu_data_port_buffers_reads() {
    let rom = rom();
    let mut ppu = Ppu::new(&rom);
    ppu.write_address(0x21);
    ppu.write_address(0x00);
    ppu.write_data(0x11).unwrap();
    ppu.write_data(0x22).unwrap();
    assert_eq!(ppu.registers.render.v, 0x2102);
    ppu.write_address(0x21);
    ppu.write_address(0x00);
    // The first read gives the old buffer.
    assert_eq!(ppu.read_data(), Ok(0));
    assert_eq!(ppu.read_data(), Ok(0x11));
    assert_eq!(ppu.read_data(), Ok(0x22));
}

#[test]
fn ppu_data_port_increments_by_32() {
    let rom = rom();
    let mut ppu = Ppu::new(&rom);
    ppu.write_ctrl(0b0000_0100);
    ppu.write_address(0x20);
    ppu.write_address(0x00);
    ppu.write_data(1).unwrap();
    assert_eq!(ppu.registers.render.v, 0x2020);
}

#[test]
fn ppu_oam_port_reads_and_writes() {
    let rom = rom();
    let mut ppu = Ppu::new(&rom);
    ppu.write_oam_address(9);
    ppu.write_oam_data(0x42);
    assert_eq!(ppu.memory.oam[2].number, 0x42);
    assert_eq!(ppu.read_oam_data(), 0x42);
    let mut data = [0u8; 256];
    for (i, byte) in data.iter_mut().enumerate() {
        *byte = i as u8;
    }
    ppu.replace_oam(data);
    assert_eq!(ppu.memory.oam[1].y, 4);
    assert_eq!(ppu.memory.oam[63].x, 255);
}

#[test]
fn ppu_status_read_gives_bits_and_resets_latch() {
    let rom = rom();
    let mut ppu = Ppu::new(&rom);
    ppu.write_scroll(1);
    assert!(ppu.registers.render.w);
    assert_eq!(ppu.read_status(), 0x80);
    assert!(!ppu.registers.render.w);
}

#[test]
fn ppu_errors_leave_registers() {
    let rom = rom();
    let mut ppu = Ppu::new(&rom);
    ppu.write_address(0x00);
    ppu.write_address(0x10);
    assert_eq!(ppu.write_data(5), Err(PpuMemoryError::UnmappedWrite(0x0010)));
    assert_eq!(ppu.registers.render.v, 0x0010);
}

#[test]
fn ppu_error_messages() {
    assert_eq!(PpuMemoryError::UnmappedRead(0x4000).message(), "Unmapped PPU read at address $4000");
    assert_eq!(PpuMemoryError::UnmappedWrite(0x0A1F).message(), "Unmapped PPU write at address $0A1F");
    assert_eq!(PpuMemoryError::PaletteAccess(0x05).message(), "Unexpected palette access at address $0005");
    assert_eq!(PpuMemoryError::OamAccess(0xFE).message(), "Unexpected OAM access at address $00FE");
}
