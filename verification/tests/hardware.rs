use emulateme::hardware::{pattern_table_to_texture, sprite_data, BoxedSize, HardwarePaletteMemory, ScanTiming};
use emulateme::ppu::{Ppu, Sprite};
use emulateme::rom::{parse_rom, Rom};

#[test]
fn palettes_laid_out_four_by_four() {
    let palettes = [[1, 2, 3], [4, 5, 6], [7, 8, 9], [10, 11, 12]];
    let memory = HardwarePaletteMemory::from_palettes(&palettes);
    assert_eq!(memory.indexes, [0, 1, 2, 3, 0, 4, 5, 6, 0, 7, 8, 9, 0, 10, 11, 12]);
}

#[test]
fn pattern_table_texture_layout() {
    let mut data = vec![0u8; 0x1000];
    // Tile 1, row 2: low plane 0b1000_0001, high plane 0b1000_0000.
    data[0x10 + 2] = 0b1000_0001;
    data[0x10 + 2 + 8] = 0b1000_0000;
    // Tile 255, row 7: high plane only, rightmost pixel.
    data[0xFF0 + 7 + 8] = 0b0000_0001;
    let texture = pattern_table_to_texture(&data);
    assert_eq!(texture.len(), 2048 * 8);
    assert_eq!(texture[8 + 2 * 2048], 3);
    assert_eq!(texture[8 + 7 + 2 * 2048], 1);
    assert_eq!(texture[8 + 1 + 2 * 2048], 0);
    assert_eq!(texture[255 * 8 + 7 + 7 * 2048], 2);
    assert_eq!(texture.iter().filter(|v| **v != 0).count(), 3);
}

#[test]
fn sprites_as_four_bytes() {
    let mut oam = [Sprite { y: 0, number: 0, mask: 0, x: 0 }; 64];
    oam[3] = Sprite { y: 10, number: 20, mask: 30, x: 40 };
    let data = sprite_data(&oam);
    assert_eq!(data[3], [10, 20, 30, 40]);
    assert_eq!(data[0], [0, 0, 0, 0]);
}

fn rom() -> Rom {
    let mut bytes = vec![0x4E, 0x45, 0x53, 0x1A, 1, 1, 0, 0, 0, 0, 0, 0, 0, 0, 0, 0];
    bytes.extend(std::iter::repeat(0xEA).take(16384));
    bytes.extend(std::iter::repeat(0).take(8192));
    parse_rom(&bytes).unwrap().1
}

#[test]
fn boxed_size_centres_a_square() {
    let wide = BoxedSize::new(800, 600);
    assert_eq!((wide.x, wide.y, wide.width, wide.height), (100, 0, 600, 600));
    let tall = BoxedSize::new(300, 501);
    assert_eq!((tall.x, tall.y, tall.width, tall.height), (0, 100, 300, 300));
    let square = BoxedSize::new(64, 64);
    assert_eq!((square.x, square.y, square.width, square.height), (0, 0, 64, 64));
}

#[test]
fn beam_reaches_vertical_blank() {
    let rom = rom();
    let mut ppu = Ppu::new(&rom);
    ppu.registers.control.gen_nmi = true;
    let mut timing = ScanTiming::new();
    // 27395 cycles are 82185 dots: line 241, dot 4.
    let step = timing.advance(&mut ppu, 27395);
    assert!(step.nmi);
    assert_eq!((timing.scan_x, timing.scan_y, timing.last_cycle), (4, 241, 27395));
    assert_eq!(step.rows.len(), 241);
    assert_eq!(step.rows[0], 1);
    assert_eq!(step.rows[240], 241);
    // Without NMI enabled no frame is due; a short move crosses nothing.
    ppu.registers.control.gen_nmi = false;
    let step = timing.advance(&mut ppu, 27396);
    assert!(!step.nmi);
    assert!(step.rows.is_empty());
    assert_eq!(timing.scan_x, 7);
}

#[test]
fn beam_sets_and_clears_sprite_zero_hit() {
    let rom = rom();
    let mut ppu = Ppu::new(&rom);
    ppu.memory.oam[0] = Sprite { y: 10, number: 0, mask: 0, x: 20 };
    let mut timing = ScanTiming::new();
    // Line 15 dot 20 is dot 5135 of the frame; 1711 cycles stop short of it.
    timing.advance(&mut ppu, 1711);
    assert!(!ppu.registers.status.sprite_hit);
    timing.advance(&mut ppu, 1712);
    assert!(ppu.registers.status.sprite_hit);
    assert_eq!((timing.scan_x, timing.scan_y), (21, 15));
    // Crossing dot 1 of line 261 clears it.
    timing.advance(&mut ppu, 29668);
    assert!(!ppu.registers.status.sprite_hit);
    assert_eq!((timing.scan_x, timing.scan_y), (3, 261));
}

#[test]
fn beam_wraps_at_the_end_of_the_frame() {
    let rom = rom();
    let mut ppu = Ppu::new(&rom);
    let mut timing = ScanTiming::new();
    timing.sync(100);
    assert_eq!((timing.last_cycle, timing.scan_x, timing.scan_y), (100, 0, 0));
    // 30000 cycles are 90000 dots: 263 lines and 317 dots.
    let step = timing.advance(&mut ppu, 30100);
    assert_eq!(step.rows.len(), 263);
    assert_eq!(step.rows[260], 261);
    assert_eq!(step.rows[261], 0);
    assert_eq!(step.rows[262], 1);
    assert_eq!((timing.scan_x, timing.scan_y), (317, 1));
}
