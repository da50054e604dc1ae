use emulateme::ppu::Ppu;
use emulateme::renderer::{RenderAction, Renderer, NES_FRAME_SIZE};
use emulateme::rom::{parse_rom, Rom};
use emulateme::software::{RenderError, SoftwareRenderer, NES_PALETTE};

/// Cycles that take a fresh renderer past dot 1 of scanline 241.
const TO_V_BLANK: u64 = 27395;

fn rom_with_chr(chr: &[(usize, u8)]) -> Rom {
    let mut bytes = vec![0x4E, 0x45, 0x53, 0x1A, 1, 1, 0, 0, 0, 0, 0, 0, 0, 0, 0, 0];
    bytes.extend(std::iter::repeat(0xEA).take(16384));
    let mut pattern = vec![0u8; 8192];
    for (address, value) in chr {
        pattern[*address] = *value;
    }
    bytes.extend(pattern);
    parse_rom(&bytes).unwrap().1
}

fn pixel(frame: &[u8], x: usize, y: usize) -> [u8; 4] {
    let a = (x + y * 256) * 4;
    [frame[a], frame[a + 1], frame[a + 2], frame[a + 3]]
}

#[test]
fn blank_screen_is_the_background_colour() {
    let rom = rom_with_chr(&[]);
    let mut ppu = Ppu::new(&rom);
    ppu.registers.control.gen_nmi = true;
    ppu.memory.palette.background_solid = 0x21;
    let mut renderer = SoftwareRenderer::new();
    let action = renderer.render(&mut ppu, TO_V_BLANK);
    let frame = match action {
        RenderAction::SendFrame(frame) => frame,
        RenderAction::Idle => panic!("expected a frame"),
    };
    assert_eq!(pixel(&frame.frame, 0, 0), [82, 174, 255, 255]);
    assert_eq!(pixel(&frame.frame, 255, 239), [82, 174, 255, 255]);
    assert_eq!(renderer.scan_x, 4);
    assert_eq!(renderer.scan_y, 241);
    assert_eq!(renderer.last_cycle, TO_V_BLANK);
    // The renderer starts a new white picture.
    assert!(renderer.frame.frame.iter().all(|b| *b == 255));
}

#[test]
fn no_frame_without_nmi_or_before_v_blank() {
    let rom = rom_with_chr(&[]);
    let mut ppu = Ppu::new(&rom);
    let mut renderer = SoftwareRenderer::new();
    assert!(matches!(renderer.render(&mut ppu, TO_V_BLANK), RenderAction::Idle));
    let mut ppu = Ppu::new(&rom);
    ppu.registers.control.gen_nmi = true;
    let mut renderer = SoftwareRenderer::new();
    assert!(matches!(renderer.render(&mut ppu, TO_V_BLANK - 1), RenderAction::Idle));
    assert_eq!(renderer.scan_y, 241);
    assert_eq!(renderer.scan_x, 1);
    assert!(matches!(renderer.render(&mut ppu, TO_V_BLANK), RenderAction::SendFrame(_)));
}

#[test]
fn frame_size() {
    assert_eq!(NES_FRAME_SIZE, 256 * 240 * 4);
    assert_eq!(NES_PALETTE[0x21], [82, 174, 255, 255]);
}

#[test]
fn sprites_are_drawn_one_line_down_and_set_sprite_zero_hit() {
    // Tile 1, row 0: every pixel colour 1.
    let rom = rom_with_chr(&[(16, 0xFF)]);
    let mut ppu = Ppu::new(&rom);
    ppu.registers.control.gen_nmi = true;
    ppu.memory.palette.sprite[0][0] = 0x16;
    ppu.memory.oam[0].y = 0;
    ppu.memory.oam[0].number = 1;
    ppu.memory.oam[0].x = 10;
    let mut renderer = SoftwareRenderer::new();
    let frame = match renderer.render(&mut ppu, TO_V_BLANK) {
        RenderAction::SendFrame(frame) => frame,
        RenderAction::Idle => panic!("expected a frame"),
    };
    let sprite = NES_PALETTE[0x16];
    let background = NES_PALETTE[0];
    assert_eq!(pixel(&frame.frame, 10, 1), sprite);
    assert_eq!(pixel(&frame.frame, 17, 1), sprite);
    assert_eq!(pixel(&frame.frame, 18, 1), background);
    assert_eq!(pixel(&frame.frame, 9, 1), background);
    assert_eq!(pixel(&frame.frame, 10, 0), background);
    assert_eq!(pixel(&frame.frame, 10, 2), background);
    assert!(ppu.registers.status.sprite_hit);
}

#[test]
fn flipped_sprite_behind_background() {
    // Tile 1, row 0: only the leftmost pixel, colour 1.
    let rom = rom_with_chr(&[(16, 0x80)]);
    let mut ppu = Ppu::new(&rom);
    ppu.registers.control.gen_nmi = true;
    ppu.memory.palette.sprite[1][0] = 0x2A;
    ppu.memory.oam[1].y = 4;
    ppu.memory.oam[1].number = 1;
    ppu.memory.oam[1].x = 100;
    // Behind the background, mirrored in x and y, palette 1.
    ppu.memory.oam[1].mask = 0b1110_0001;
    let mut renderer = SoftwareRenderer::new();
    let frame = match renderer.render(&mut ppu, TO_V_BLANK) {
        RenderAction::SendFrame(frame) => frame,
        RenderAction::Idle => panic!("expected a frame"),
    };
    // Row 0 of the tile lands on the sprite's last line (y 5 + 7) and the
    // pixel on its last column; the transparent background shows it.
    assert_eq!(pixel(&frame.frame, 107, 12), NES_PALETTE[0x2A]);
    assert_eq!(pixel(&frame.frame, 100, 5), NES_PALETTE[0]);
    // Sprite 1 does not set the hit flag.
    assert!(!ppu.registers.status.sprite_hit);
}

#[test]
fn horizontal_scroll_wraps_into_the_next_name_table() {
    // Background tile 2 (pattern address 0x1000 + 2 * 16), row 0: colour 1.
    let rom = rom_with_chr(&[(0x1020, 0xFF)]);
    let mut ppu = Ppu::new(&rom);
    ppu.registers.control.gen_nmi = true;
    ppu.memory.palette.background[0][0] = 0x11;
    ppu.memory.names[1].contents[0] = 2;
    ppu.write_scroll(16);
    ppu.write_scroll(0);
    let mut renderer = SoftwareRenderer::new();
    let frame = match renderer.render(&mut ppu, TO_V_BLANK) {
        RenderAction::SendFrame(frame) => frame,
        RenderAction::Idle => panic!("expected a frame"),
    };
    assert_eq!(pixel(&frame.frame, 240, 0), NES_PALETTE[0x11]);
    assert_eq!(pixel(&frame.frame, 247, 0), NES_PALETTE[0x11]);
    assert_eq!(pixel(&frame.frame, 239, 0), NES_PALETTE[0]);
    assert_eq!(pixel(&frame.frame, 240, 1), NES_PALETTE[0]);
}

#[test]
fn clock_going_back_is_an_error() {
    let rom = rom_with_chr(&[]);
    let mut ppu = Ppu::new(&rom);
    let mut renderer = SoftwareRenderer::new();
    assert!(renderer.try_render(&mut ppu, 100).is_ok());
    assert_eq!(renderer.try_render(&mut ppu, 99).err(), Some(RenderError::Undrawable));
}

#[test]
fn colour_past_the_system_palette_is_an_error() {
    let rom = rom_with_chr(&[]);
    let mut ppu = Ppu::new(&rom);
    ppu.memory.palette.background_solid = 0x40;
    let mut renderer = SoftwareRenderer::new();
    // Dot 0 draws nothing.
    assert!(renderer.try_render(&mut ppu, 0).is_ok());
    assert_eq!(renderer.try_render(&mut ppu, 1).err(), Some(RenderError::Undrawable));
}

#[test]
fn vertical_scroll_into_rows_240_to_255_is_an_error() {
    let rom = rom_with_chr(&[]);
    let mut ppu = Ppu::new(&rom);
    ppu.write_scroll(0);
    ppu.write_scroll(8);
    let mut renderer = SoftwareRenderer::new();
    // Rows 0 to 231 scroll to rows 8 to 239.
    assert!(renderer.try_render(&mut ppu, 232 * 341 / 3).is_ok());
    assert_eq!(renderer.try_render(&mut ppu, TO_V_BLANK).err(), Some(RenderError::Undrawable));
}

#[test]
fn sprite_hit_clears_at_the_end_of_the_frame() {
    let rom = rom_with_chr(&[(16, 0xFF)]);
    let mut ppu = Ppu::new(&rom);
    ppu.memory.oam[0].y = 0;
    ppu.memory.oam[0].number = 1;
    let mut renderer = SoftwareRenderer::new();
    renderer.try_render(&mut ppu, TO_V_BLANK).unwrap();
    assert!(ppu.registers.status.sprite_hit);
    renderer.try_render(&mut ppu, 29668).unwrap();
    assert!(!ppu.registers.status.sprite_hit);
}

#[test]
fn rendering_does_not_depend_on_how_the_clock_is_split() {
    let rom = rom_with_chr(&[(16, 0xFF), (0x1020, 0x3C)]);
    let setup = |ppu: &mut Ppu| {
        ppu.memory.palette.background_solid = 0x0F;
        ppu.memory.palette.background[0][0] = 0x16;
        ppu.memory.palette.sprite[0][0] = 0x2A;
        ppu.memory.names[0].contents[3] = 2;
        ppu.memory.oam[0].y = 20;
        ppu.memory.oam[0].number = 1;
        ppu.memory.oam[0].x = 30;
    };
    let rom_ref = &rom;
    let mut whole_ppu = Ppu::new(rom_ref);
    setup(&mut whole_ppu);
    let mut whole = SoftwareRenderer::new();
    whole.try_render(&mut whole_ppu, 20000).unwrap();

    let mut split_ppu = Ppu::new(rom_ref);
    setup(&mut split_ppu);
    let mut split = SoftwareRenderer::new();
    for cycle in [1, 2, 500, 7777, 12345, 20000] {
        split.try_render(&mut split_ppu, cycle).unwrap();
    }
    assert_eq!(whole.scan_x, split.scan_x);
    assert_eq!(whole.scan_y, split.scan_y);
    assert_eq!(whole.frame.frame.to_vec(), split.frame.frame.to_vec());
    assert_eq!(whole_ppu.registers.status.sprite_hit, split_ppu.registers.status.sprite_hit);
    assert_eq!(pixel(&whole.frame.frame, 26, 0), NES_PALETTE[0x16]);
    assert_eq!(pixel(&whole.frame.frame, 24, 0), NES_PALETTE[0x0F]);
    assert_eq!(pixel(&whole.frame.frame, 30, 21), NES_PALETTE[0x2A]);
}
