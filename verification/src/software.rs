//! A renderer that draws the picture on the CPU, one dot at a time: 341 dots
//! per scanline, 262 scanlines per frame, three dots per CPU cycle.

use vstd::prelude::*;
use crate::ppu::{Palette, Ppu, PpuMemory, RenderRegister, Sprite};
pub use crate::renderer::{NES_FRAME_SIZE, NES_HEIGHT, NES_WIDTH, RenderedFrame};
use crate::renderer::{RenderAction, Renderer};

verus! {

pub const NES_SCANLINE_WIDTH: usize = 341;

pub const NES_SCANLINE_COUNT: usize = 262;

/// RGBA.
pub type Color = [u8; 4];

/// The 64 colours of the system palette.
pub const NES_PALETTE: [Color; 0x40] = [
    [98, 98, 98, 255],
    [0, 31, 177, 255],
    [35, 3, 199, 255],
    [81, 0, 177, 255],
    [115, 0, 117, 255],
    [127, 0, 35, 255],
    [115, 10, 0, 255],
    [81, 39, 0, 255],
    [35, 67, 0, 255],
    [0, 86, 0, 255],
    [0, 92, 0, 255],
    [0, 82, 35, 255],
    [0, 60, 117, 255],
    [0, 0, 0, 255],
    [0, 0, 0, 255],
    [0, 0, 0, 255],
    [170, 170, 170, 255],
    [13, 86, 255, 255],
    [74, 47, 255, 255],
    [138, 18, 255, 255],
    [188, 8, 213, 255],
    [210, 17, 104, 255],
    [199, 45, 0, 255],
    [157, 84, 0, 255],
    [96, 123, 0, 255],
    [32, 151, 0, 255],
    [0, 162, 0, 255],
    [0, 152, 66, 255],
    [0, 124, 180, 255],
    [0, 0, 0, 255],
    [0, 0, 0, 255],
    [0, 0, 0, 255],
    [255, 255, 255, 255],
    [82, 174, 255, 255],
    [143, 133, 255, 255],
    [210, 101, 255, 255],
    [255, 86, 255, 255],
    [255, 93, 206, 255],
    [255, 119, 86, 255],
    [249, 158, 0, 255],
    [188, 199, 0, 255],
    [121, 231, 0, 255],
    [66, 246, 17, 255],
    [38, 239, 125, 255],
    [44, 213, 245, 255],
    [77, 77, 77, 255],
    [0, 0, 0, 255],
    [0, 0, 0, 255],
    [255, 255, 255, 255],
    [182, 225, 255, 255],
    [205, 208, 255, 255],
    [232, 195, 255, 255],
    [255, 187, 255, 255],
    [255, 188, 243, 255],
    [255, 198, 195, 255],
    [255, 213, 153, 255],
    [232, 230, 129, 255],
    [205, 243, 129, 255],
    [182, 250, 153, 255],
    [168, 249, 195, 255],
    [168, 240, 243, 255],
    [183, 183, 183, 255],
    [0, 0, 0, 255],
    [0, 0, 0, 255],
];

/// Where the software renderer cannot draw what the PPU holds: pattern data
/// past the end of the cartridge's, a colour number past the end of the
/// system palette, a scrolled row below the name table, a scan position that
/// cannot advance, or a clock earlier than the last one seen.
#[derive(Clone, Copy, Debug, PartialEq, Eq, Structural)]
pub enum RenderError {
    Undrawable,
}

pub open spec fn palette_color(index: u8) -> Color {
    NES_PALETTE[index as int]
}

fn nes_color(index: u8) -> (c: Color)
    requires
        index < 64,
    ensures
        c == palette_color(index),
{
    NES_PALETTE[index as usize]
}

/// The colour number (0 to 3) of pixel (`x`, `y`) of tile `tile` of the
/// pattern data: bit 0 from the first plane, bit 1 from the second.
pub open spec fn tile_index(chr: Seq<u8>, tile: int, x: int, y: int) -> int {
    let address = tile * 16 + y;
    let mask = 1u8 << ((7 - x) as u8);
    (if chr[address] & mask != 0 { 1int } else { 0int }) + (if chr[address + 8] & mask != 0 { 2int } else { 0int })
}

/// Bit `k` (0 to 7) of `b`, as a mask test and as arithmetic.
proof fn lemma_bit_of(b: u8, k: u8)
    requires
        k < 8,
    ensures
        (b & (1u8 << k) != 0) == ((b as nat / vstd::arithmetic::power2::pow2(k as nat)) % 2 == 1),
{
    assert((b & (1u8 << k) != 0) == ((b >> k) % 2 == 1)) by (bit_vector)
        requires
            k < 8,
    ;
    vstd::bits::lemma_u8_shr_is_div(b, k);
}

/// Pixel column `x` of a tile row takes bit `7 - x` (the leftmost pixel the
/// highest bit) of the row's byte in each plane: the first plane gives 1,
/// the second 2.
pub proof fn lemma_tile_pixel(chr: Seq<u8>, tile: int, x: int, y: int)
    requires
        0 <= x < 8,
    ensures
        ({
            let a = tile * 16 + y;
            let w = vstd::arithmetic::power2::pow2((7 - x) as nat);
            tile_index(chr, tile, x, y) == (chr[a] as nat / w) % 2 + 2 * ((chr[a + 8] as nat / w) % 2)
        }),
{
    let a = tile * 16 + y;
    lemma_bit_of(chr[a], (7 - x) as u8);
    lemma_bit_of(chr[a + 8], (7 - x) as u8);
}

/// The pixel can be drawn: its pattern bytes exist and a colour number
/// other than 0 selects an entry of the system palette.
pub open spec fn tile_defined(chr: Seq<u8>, tile: int, x: int, y: int, palette: Palette) -> bool {
    &&& tile * 16 + y + 8 < chr.len()
    &&& tile_index(chr, tile, x, y) != 0 ==> palette[tile_index(chr, tile, x, y) - 1] < 64
}

/// The colour of the pixel, `None` for colour number 0 (transparent).
pub open spec fn tile_color(chr: Seq<u8>, tile: int, x: int, y: int, palette: Palette) -> Option<Color> {
    let index = tile_index(chr, tile, x, y);
    if index == 0 {
        None
    } else {
        Some(palette_color(palette[index - 1]))
    }
}

fn render_sprite(chr: &Vec<u8>, sprite: usize, x: usize, y: usize, palette: &Palette) -> (r: Result<
    Option<Color>,
    RenderError,
>)
    requires
        sprite < 512,
        x < 8,
        y < 8,
    ensures
        r is Ok <==> tile_defined(chr@, sprite as int, x as int, y as int, *palette),
        r matches Ok(c) ==> c == tile_color(chr@, sprite as int, x as int, y as int, *palette),
{
    let address = sprite * 16 + y;
    if address + 8 >= chr.len() {
        return Err(RenderError::Undrawable);
    }
    let plane_0 = chr[address];
    let plane_1 = chr[address + 8];
    let mask: u8 = 1u8 << ((7 - x) as u8);
    let index: usize = (if plane_0 & mask != 0 { 1 } else { 0 }) + (if plane_1 & mask != 0 { 2 } else { 0 });
    if index == 0 {
        Ok(None)
    } else {
        let color_index = palette[index - 1];
        if color_index >= 64 {
            Err(RenderError::Undrawable)
        } else {
            Ok(Some(nes_color(color_index)))
        }
    }
}

/// The tile of name table `table` under background pixel (`x`, `y`).
pub open spec fn background_tile(memory: PpuMemory, table: int, x: int, y: int) -> int {
    memory.names[table].contents[x / 8 + (y / 8) * 32] as int
}

/// The palette that the attribute table of name table `table` gives the
/// background pixel (`x`, `y`): two bits per 32 by 32 pixel block.
pub open spec fn background_palette(memory: PpuMemory, table: int, x: int, y: int) -> Palette {
    let col = x / 8;
    let row = y / 8;
    let attribute = memory.names[table].contents[0x3C0 + col / 4 + (row / 4) * 8];
    let shift = ((col / 2) % 2) * 2 + ((row / 2) % 2) * 4;
    memory.palette.background[((attribute >> (shift as u8)) & 3) as int]
}

/// The background palettes by quadrant: name table `table`'s attribute byte
/// for the 32 by 32 pixel block holding (`x`, `y`) (the `x / 32`-th of its
/// row of eight, in row `y / 32`) gives each 16 by 16 quadrant of the block
/// two bits, from the low ones up: top left, top right, bottom left, bottom
/// right.
pub proof fn lemma_attribute_quadrants(memory: PpuMemory, table: int, x: int, y: int)
    requires
        0 <= x,
        0 <= y,
    ensures
        ({
            let attribute = memory.names[table].contents[0x3C0 + x / 32 + (y / 32) * 8];
            let right = x % 32 >= 16;
            let bottom = y % 32 >= 16;
            let index = if !right && !bottom {
                attribute % 4
            } else if right && !bottom {
                (attribute / 4) % 4
            } else if !right && bottom {
                (attribute / 16) % 4
            } else {
                attribute / 64
            };
            background_palette(memory, table, x, y) == memory.palette.background[index as int]
        }),
{
    let col = x / 8;
    let row = y / 8;
    assert(col / 4 == x / 32 && ((col / 2) % 2 == 1) == (x % 32 >= 16)) by (nonlinear_arith)
        requires
            col == x / 8,
            x >= 0,
    ;
    assert(row / 4 == y / 32 && ((row / 2) % 2 == 1) == (y % 32 >= 16)) by (nonlinear_arith)
        requires
            row == y / 8,
            y >= 0,
    ;
    let attribute = memory.names[table].contents[0x3C0 + col / 4 + (row / 4) * 8];
    assert({
        &&& (attribute >> 0u8) & 3 == attribute % 4
        &&& (attribute >> 2u8) & 3 == (attribute / 4) % 4
        &&& (attribute >> 4u8) & 3 == (attribute / 16) % 4
        &&& (attribute >> 6u8) & 3 == attribute / 64
    }) by (bit_vector);
}

/// Background tiles are the second half of the pattern data.
pub open spec fn background_defined(memory: PpuMemory, table: int, x: int, y: int) -> bool {
    tile_defined(
        memory.rom.chr_rom@,
        background_tile(memory, table, x, y) + 256,
        x % 8,
        y % 8,
        background_palette(memory, table, x, y),
    )
}

pub open spec fn background_color(memory: PpuMemory, table: int, x: int, y: int) -> Option<Color> {
    tile_color(
        memory.rom.chr_rom@,
        background_tile(memory, table, x, y) + 256,
        x % 8,
        y % 8,
        background_palette(memory, table, x, y),
    )
}

fn render_background(memory: &PpuMemory, table: usize, x: usize, y: usize) -> (r: Result<Option<Color>, RenderError>)
    requires
        table < 4,
        x < 256,
        y < 240,
    ensures
        r is Ok <==> background_defined(*memory, table as int, x as int, y as int),
        r matches Ok(c) ==> c == background_color(*memory, table as int, x as int, y as int),
{
    let col = x / 8;
    let row = y / 8;
    let col_sub = x % 8;
    let row_sub = y % 8;
    let sprite = memory.names[table].contents[col + row * 32];
    let attribute_column = col / 4;
    let attribute_row = row / 4;
    let attribute_address = 0x3C0 + attribute_column + attribute_row * 8;
    let attribute_byte = memory.names[table].contents[attribute_address];
    let attribute_right = (col / 2) % 2;
    let attribute_bottom = (row / 2) % 2;
    let attribute_shift = attribute_right * 2 + attribute_bottom * 4;
    let palette_index = (attribute_byte >> (attribute_shift as u8)) & 0b11;
    assert(palette_index < 4) by (bit_vector)
        requires
            palette_index == (attribute_byte >> (attribute_shift as u8)) & 0b11;
    let palette = memory.palette.background[palette_index as usize];
    render_sprite(&memory.rom.chr_rom, sprite as usize + 256, col_sub, row_sub, &palette)
}

/// Sprites drawn on one scanline, those behind the background apart from
/// those in front of it.
pub struct PreRenderedScanline {
    pub background: [Option<Color>; 256],
    pub foreground: [Option<Color>; 256],
}

/// A scanline of sprite pixels as values.
pub struct Scanline {
    pub background: Seq<Option<Color>>,
    pub foreground: Seq<Option<Color>>,
}

impl PreRenderedScanline {
    pub open spec fn spec_scanline(self) -> Scanline {
        Scanline { background: self.background@, foreground: self.foreground@ }
    }
}

pub open spec fn empty_scanline() -> Scanline {
    Scanline { background: Seq::new(256, |x: int| None), foreground: Seq::new(256, |x: int| None) }
}

/// The row of sprite `sprite` that lies on scanline `y`: sprites are drawn
/// one scanline below their y coordinate.
pub open spec fn sprite_row(sprite: Sprite, y: int) -> int {
    y - (sprite.y as int + 1)
}

pub open spec fn on_line(sprite: Sprite, y: int) -> bool {
    0 <= sprite_row(sprite, y) < 8
}

/// Column `offset` of the sprite within its tile, mirrored by attribute bit 6.
pub open spec fn sprite_tile_x(sprite: Sprite, offset: int) -> int {
    if sprite.mask & 0b0100_0000 != 0 {
        7 - offset
    } else {
        offset
    }
}

/// The tile row on scanline `y`, mirrored by attribute bit 7.
pub open spec fn sprite_tile_y(sprite: Sprite, y: int) -> int {
    if sprite.mask & 0b1000_0000 != 0 {
        7 - sprite_row(sprite, y)
    } else {
        sprite_row(sprite, y)
    }
}

pub open spec fn sprite_palette(memory: PpuMemory, sprite: Sprite) -> Palette {
    memory.palette.sprite[(sprite.mask & 0b11) as int]
}

pub open spec fn sprite_pixel_defined(memory: PpuMemory, sprite: Sprite, y: int, offset: int) -> bool {
    tile_defined(
        memory.rom.chr_rom@,
        sprite.number as int,
        sprite_tile_x(sprite, offset),
        sprite_tile_y(sprite, y),
        sprite_palette(memory, sprite),
    )
}

/// Every pixel that the sprite has on scanline `y`, left of the screen's
/// right edge, can be drawn.
pub open spec fn sprite_defined(memory: PpuMemory, sprite: Sprite, y: int) -> bool {
    on_line(sprite, y) ==> forall|offset: int|
        0 <= offset < 8 && sprite.x + offset < 256 ==> #[trigger] sprite_pixel_defined(memory, sprite, y, offset)
}

/// What the sprite draws at column `x` of scanline `y`.
pub open spec fn drawn_at(memory: PpuMemory, sprite: Sprite, y: int, x: int) -> Option<Color> {
    if on_line(sprite, y) && sprite.x <= x < sprite.x + 8 {
        tile_color(
            memory.rom.chr_rom@,
            sprite.number as int,
            sprite_tile_x(sprite, x - sprite.x),
            sprite_tile_y(sprite, y),
            sprite_palette(memory, sprite),
        )
    } else {
        None
    }
}

/// A sprite's attribute byte: bits 0 and 1 pick its palette, bit 5 puts it
/// behind the background, bit 6 mirrors it left to right and bit 7 top to
/// bottom; it is drawn on the eight scanlines after its y coordinate.
pub proof fn lemma_sprite_attributes(memory: PpuMemory, sprite: Sprite, y: int, offset: int)
    ensures
        sprite_palette(memory, sprite) == memory.palette.sprite[(sprite.mask % 4) as int],
        (sprite.mask & 0b0010_0000 != 0) == ((sprite.mask / 32) % 2 == 1),
        sprite_tile_x(sprite, offset) == if (sprite.mask / 64) % 2 == 1 { 7 - offset } else { offset },
        sprite_tile_y(sprite, y) == if sprite.mask >= 128 { sprite.y + 8 - y } else { y - sprite.y - 1 },
        on_line(sprite, y) == (sprite.y + 1 <= y <= sprite.y + 8),
{
    let m = sprite.mask;
    assert({
        &&& m & 0b11 == m % 4
        &&& (m & 0b0010_0000 != 0) == ((m / 32) % 2 == 1)
        &&& (m & 0b0100_0000 != 0) == ((m / 64) % 2 == 1)
        &&& (m & 0b1000_0000 != 0) == (m >= 128)
    }) by (bit_vector);
}

/// The sprite draws at least one pixel on scanline `y`.
pub open spec fn sprite_draws(memory: PpuMemory, sprite: Sprite, y: int) -> bool {
    exists|x: int| 0 <= x < 256 && #[trigger] drawn_at(memory, sprite, y, x) is Some
}

/// The scanline after sprite `i` is drawn over `line`; `hit` records whether
/// sprite 0 drew a pixel.
pub open spec fn draw_sprite(memory: PpuMemory, y: int, i: int, line: Scanline, hit: bool) -> (Scanline, bool) {
    let sprite = memory.oam[i];
    let behind = sprite.mask & 0b0010_0000 != 0;
    (
        Scanline {
            background: Seq::new(
                256,
                |x: int|
                    if behind && drawn_at(memory, sprite, y, x) is Some {
                        drawn_at(memory, sprite, y, x)
                    } else {
                        line.background[x]
                    },
            ),
            foreground: Seq::new(
                256,
                |x: int|
                    if !behind && drawn_at(memory, sprite, y, x) is Some {
                        drawn_at(memory, sprite, y, x)
                    } else {
                        line.foreground[x]
                    },
            ),
        },
        hit || (i == 0 && sprite_draws(memory, sprite, y)),
    )
}

/// Scanline `y` after sprites 63 down to `k` are drawn (lower numbers drawn
/// last, so on top), or `None` where one of them cannot be drawn.
pub open spec fn sprites_from(memory: PpuMemory, y: int, k: int) -> Option<(Scanline, bool)>
    decreases 64 - k,
{
    if k >= 64 {
        Some((empty_scanline(), false))
    } else {
        match sprites_from(memory, y, k + 1) {
            None => None,
            Some((line, hit)) => if sprite_defined(memory, memory.oam[k], y) {
                Some(draw_sprite(memory, y, k, line, hit))
            } else {
                None
            },
        }
    }
}

proof fn lemma_sprites_undrawable(memory: PpuMemory, y: int, j: int, k: int)
    requires
        0 <= j <= k,
        sprites_from(memory, y, k) is None,
    ensures
        sprites_from(memory, y, j) is None,
    decreases k - j,
{
    if j < k {
        lemma_sprites_undrawable(memory, y, j + 1, k);
    }
}

/// Draws sprite `i` over `result` on scanline `y`; `hit` is set where
/// sprite 0 draws a pixel.
fn pre_render_sprite(memory: &PpuMemory, y: usize, i: usize, result: &mut PreRenderedScanline, hit: &mut bool) -> (r: Result<(), RenderError>)
    requires
        y < 240,
        i < 64,
    ensures
        r is Ok <==> sprite_defined(*memory, memory.oam[i as int], y as int),
        r is Ok ==> (final(result).spec_scanline(), *final(hit)) == draw_sprite(
            *memory,
            y as int,
            i as int,
            old(result).spec_scanline(),
            *old(hit),
        ),
{
    let ghost line = old(result).spec_scanline();
    let sprite = memory.oam[i];
    let sprite_y = sprite.y as usize + 1;
    let ghost drawn = draw_sprite(*memory, y as int, i as int, line, *old(hit));
    if !(sprite_y <= y && y < sprite_y + 8) {
        assert(result.background@ =~= drawn.0.background);
        assert(result.foreground@ =~= drawn.0.foreground);
        assert(!sprite_draws(*memory, sprite, y as int));
        return Ok(());
    }
    let behind = sprite.mask & 0b0010_0000 != 0;
    let flip_x = sprite.mask & 0b0100_0000 != 0;
    let flip_y = sprite.mask & 0b1000_0000 != 0;
    let offset_y = y - sprite_y;
    let mask = sprite.mask;
    let palette_index = mask & 0b11;
    assert(palette_index < 4) by (bit_vector)
        requires
            palette_index == mask & 0b11;
    let palette = memory.palette.sprite[palette_index as usize];
    let mut offset_x: usize = 0;
    while offset_x < 8 && (sprite.x as usize) + offset_x < NES_WIDTH
        invariant
            y < 240,
            i < 64,
            sprite == memory.oam[i as int],
            on_line(sprite, y as int),
            offset_y == sprite_row(sprite, y as int),
            palette == sprite_palette(*memory, sprite),
            behind == (sprite.mask & 0b0010_0000 != 0),
            flip_x == (sprite.mask & 0b0100_0000 != 0),
            flip_y == (sprite.mask & 0b1000_0000 != 0),
            offset_x <= 8,
            sprite.x + offset_x <= 256,
            forall|o: int| 0 <= o < offset_x ==> #[trigger] sprite_pixel_defined(*memory, sprite, y as int, o),
            forall|x: int|
                0 <= x < 256 ==> #[trigger] result.background@[x] == if behind && sprite.x <= x < sprite.x + offset_x
                    && drawn_at(*memory, sprite, y as int, x) is Some {
                    drawn_at(*memory, sprite, y as int, x)
                } else {
                    line.background[x]
                },
            forall|x: int|
                0 <= x < 256 ==> #[trigger] result.foreground@[x] == if !behind && sprite.x <= x < sprite.x + offset_x
                    && drawn_at(*memory, sprite, y as int, x) is Some {
                    drawn_at(*memory, sprite, y as int, x)
                } else {
                    line.foreground[x]
                },
            *hit == (*old(hit) || (i == 0 && exists|x: int|
                sprite.x <= x < sprite.x + offset_x && #[trigger] drawn_at(*memory, sprite, y as int, x) is Some)),
        decreases 8 - offset_x,
    {
        let write_x = sprite.x as usize + offset_x;
        let sprite_offset_x = if flip_x { 7 - offset_x } else { offset_x };
        let sprite_offset_y = if flip_y { 7 - offset_y } else { offset_y };
        let color = render_sprite(&memory.rom.chr_rom, sprite.number as usize, sprite_offset_x, sprite_offset_y, &palette);
        assert(sprite_tile_x(sprite, offset_x as int) == sprite_offset_x);
        assert(sprite_tile_y(sprite, y as int) == sprite_offset_y);
        assert(drawn_at(*memory, sprite, y as int, write_x as int) == tile_color(
            memory.rom.chr_rom@,
            sprite.number as int,
            sprite_offset_x as int,
            sprite_offset_y as int,
            palette,
        ));
        match color {
            Err(e) => {
                assert(!sprite_pixel_defined(*memory, sprite, y as int, offset_x as int));
                return Err(e);
            },
            Ok(None) => {},
            Ok(Some(color)) => {
                if i == 0 {
                    *hit = true;
                }
                if behind {
                    result.background[write_x] = Some(color);
                } else {
                    result.foreground[write_x] = Some(color);
                }
            },
        }
        offset_x += 1;
    }
    assert(result.background@ =~= drawn.0.background);
    assert(result.foreground@ =~= drawn.0.foreground);
    assert(*hit == drawn.1) by {
        if i == 0 {
            if sprite_draws(*memory, sprite, y as int) {
                let x = choose|x: int| 0 <= x < 256 && #[trigger] drawn_at(*memory, sprite, y as int, x) is Some;
                assert(sprite.x <= x < sprite.x + offset_x);
            }
            if exists|x: int| sprite.x <= x < sprite.x + offset_x && #[trigger] drawn_at(*memory, sprite, y as int, x) is Some {
                let x = choose|x: int| sprite.x <= x < sprite.x + offset_x && #[trigger] drawn_at(*memory, sprite, y as int, x) is Some;
                assert(0 <= x < 256);
                assert(sprite_draws(*memory, sprite, y as int));
            }
        }
    }
    Ok(())
}

/// Draws the sprites of scanline `y`; the flag says whether sprite 0 drew.
fn pre_render_sprites(memory: &PpuMemory, y: usize) -> (r: Result<(PreRenderedScanline, bool), RenderError>)
    requires
        y < 240,
    ensures
        r is Ok <==> sprites_from(*memory, y as int, 0) is Some,
        r matches Ok((line, hit)) ==> sprites_from(*memory, y as int, 0) == Some((line.spec_scanline(), hit)),
{
    let mut result = PreRenderedScanline { background: [None; 256], foreground: [None; 256] };
    let mut hit = false;
    assert(result.background@ =~= empty_scanline().background);
    assert(result.foreground@ =~= empty_scanline().foreground);
    let mut k: usize = 64;
    while k > 0
        invariant
            y < 240,
            k <= 64,
            sprites_from(*memory, y as int, k as int) == Some((result.spec_scanline(), hit)),
        decreases k,
    {
        let i = k - 1;
        match pre_render_sprite(memory, y, i, &mut result, &mut hit) {
            Err(e) => {
                proof {
                    lemma_sprites_undrawable(*memory, y as int, 0, i as int);
                }
                return Err(e);
            },
            Ok(()) => {},
        }
        k = i;
    }
    Ok((result, hit))
}

pub open spec fn spec_pre(pre: Option<PreRenderedScanline>) -> Option<Scanline> {
    match pre {
        Some(line) => Some(line.spec_scanline()),
        None => None,
    }
}

/// The colour of screen pixel (`x`, `y`), or `None` where it cannot be drawn:
/// a sprite in front of the background, else the scrolled background, else a
/// sprite behind it, else the universal background colour. The name table
/// flips where the scrolled position passes the right or bottom edge; a
/// scrolled row from 240 to 255 has no name table row.
pub open spec fn pixel(memory: PpuMemory, render: RenderRegister, pre: Option<Scanline>, x: int, y: int) -> Option<Color> {
    let foreground = match pre {
        Some(line) => line.foreground[x],
        None => None,
    };
    let behind = match pre {
        Some(line) => line.background[x],
        None => None,
    };
    if foreground is Some {
        foreground
    } else {
        let offset_x = x + render.spec_x_scroll();
        let offset_y = y + render.spec_y_scroll();
        let table = render.spec_name_table_x() != render.spec_name_table_y();
        let table = if offset_x >= 256 { !table } else { table };
        let offset_x = if offset_x >= 256 { offset_x - 256 } else { offset_x };
        if 240 <= offset_y < 256 {
            None
        } else {
            let table = if offset_y >= 256 { !table } else { table };
            let offset_y = if offset_y >= 256 { offset_y - 256 } else { offset_y };
            let table = if table { 1int } else { 0int };
            if !background_defined(memory, table, offset_x, offset_y) {
                None
            } else if background_color(memory, table, offset_x, offset_y) is Some {
                background_color(memory, table, offset_x, offset_y)
            } else if behind is Some {
                behind
            } else if memory.palette.background_solid < 64 {
                Some(palette_color(memory.palette.background_solid))
            } else {
                None
            }
        }
    }
}

fn render_pixel(ppu: &Ppu, pre: &Option<PreRenderedScanline>, x: usize, y: usize) -> (r: Result<Color, RenderError>)
    requires
        x < 256,
        y < 240,
    ensures
        r is Ok <==> pixel(ppu.memory, ppu.registers.render, spec_pre(*pre), x as int, y as int) is Some,
        r matches Ok(c) ==> pixel(ppu.memory, ppu.registers.render, spec_pre(*pre), x as int, y as int) == Some(c),
{
    let foreground_pixel = match pre {
        Some(pixels) => pixels.foreground[x],
        None => None,
    };
    if let Some(color) = foreground_pixel {
        return Ok(color);
    }
    let mut offset_x = x + (ppu.registers.render.x_scroll() as usize);
    let mut offset_y = y + (ppu.registers.render.y_scroll() as usize);
    let mut name_table = ppu.registers.render.name_table_x() != ppu.registers.render.name_table_y();
    if offset_x >= 256 {
        offset_x -= 256;
        name_table = !name_table;
    }
    if offset_y >= 240 {
        if offset_y < 256 {
            return Err(RenderError::Undrawable);
        }
        offset_y -= 256;
        name_table = !name_table;
    }
    let name_table: usize = if name_table { 1 } else { 0 };
    match render_background(&ppu.memory, name_table, offset_x, offset_y) {
        Err(e) => Err(e),
        Ok(Some(color)) => Ok(color),
        Ok(None) => {
            let behind = match pre {
                Some(pixels) => pixels.background[x],
                None => None,
            };
            match behind {
                Some(color) => Ok(color),
                None => {
                    let solid = ppu.memory.palette.background_solid;
                    if solid >= 64 {
                        Err(RenderError::Undrawable)
                    } else {
                        Ok(nes_color(solid))
                    }
                },
            }
        },
    }
}

/// The renderer's position and picture, with the PPU's sprite 0 hit flag
/// and whether vertical blank began, as values.
pub struct DotState {
    pub scan_x: usize,
    pub scan_y: usize,
    pub pre: Option<Scanline>,
    pub frame: Seq<u8>,
    pub hit: bool,
    pub v_blank: bool,
}

/// `frame` with pixel (`x`, `y`) set to `color`.
pub open spec fn put_pixel(frame: Seq<u8>, x: int, y: int, color: Color) -> Seq<u8> {
    let a = (x + y * 256) * 4;
    frame.update(a, color[0]).update(a + 1, color[1]).update(a + 2, color[2]).update(a + 3, color[3])
}

/// The work of one dot: on a visible scanline the sprites are drawn at dot 0
/// and dots 1 to 256 draw a pixel; vertical blank begins at dot 1 of
/// scanline 241 and the sprite 0 hit flag clears at dot 1 of scanline 261.
pub open spec fn draw_dot(memory: PpuMemory, render: RenderRegister, s: DotState) -> Option<DotState> {
    if s.scan_y <= 239 {
        let a = if s.scan_x == 0 {
            match sprites_from(memory, s.scan_y as int, 0) {
                None => None,
                Some((line, hit)) => Some(DotState { pre: Some(line), hit: s.hit || hit, ..s }),
            }
        } else {
            Some(s)
        };
        match a {
            None => None,
            Some(a) => if 1 <= a.scan_x <= 256 {
                match pixel(memory, render, a.pre, a.scan_x - 1, a.scan_y as int) {
                    None => None,
                    Some(c) => Some(DotState { frame: put_pixel(a.frame, a.scan_x - 1, a.scan_y as int, c), ..a }),
                }
            } else {
                Some(a)
            },
        }
    } else if s.scan_y == 241 {
        Some(if s.scan_x == 1 { DotState { v_blank: true, ..s } } else { s })
    } else if s.scan_y == 261 {
        Some(if s.scan_x == 1 { DotState { hit: false, ..s } } else { s })
    } else {
        Some(s)
    }
}

/// The next dot: 341 dots per scanline, 262 scanlines.
pub open spec fn advance(s: DotState) -> Option<DotState> {
    if s.scan_x == usize::MAX {
        None
    } else if s.scan_x + 1 >= 341 {
        if s.scan_y == usize::MAX {
            None
        } else {
            Some(DotState { scan_x: 0, scan_y: if s.scan_y + 1 >= 262 { 0 } else { (s.scan_y + 1) as usize }, ..s })
        }
    } else {
        Some(DotState { scan_x: (s.scan_x + 1) as usize, ..s })
    }
}

pub open spec fn step(memory: PpuMemory, render: RenderRegister, s: DotState) -> Option<DotState> {
    match draw_dot(memory, render, s) {
        None => None,
        Some(t) => advance(t),
    }
}

/// The state after `n` dots, or `None` where one of them cannot be done.
pub open spec fn run(memory: PpuMemory, render: RenderRegister, s: DotState, n: nat) -> Option<DotState>
    decreases n,
{
    if n == 0 {
        Some(s)
    } else {
        match step(memory, render, s) {
            None => None,
            Some(t) => run(memory, render, t, (n - 1) as nat),
        }
    }
}

/// The PPU's registers with only the sprite 0 hit flag possibly changed.
pub open spec fn only_hit_changed(before: Ppu, after: Ppu) -> bool {
    &&& after.memory == before.memory
    &&& after.registers.control == before.registers.control
    &&& after.registers.mask == before.registers.mask
    &&& after.registers.render == before.registers.render
    &&& after.registers.oam_address == before.registers.oam_address
    &&& after.registers.read_buffer == before.registers.read_buffer
    &&& after.registers.status.v_blank_hit == before.registers.status.v_blank_hit
}

pub struct SoftwareRenderer {
    pub scan_x: usize,
    pub scan_y: usize,
    pub last_cycle: u64,
    pub pre_rendered_sprites: Option<PreRenderedScanline>,
    pub frame: RenderedFrame,
}

impl SoftwareRenderer {
    pub open spec fn dot_state(self, hit: bool, v_blank: bool) -> DotState {
        DotState {
            scan_x: self.scan_x,
            scan_y: self.scan_y,
            pre: spec_pre(self.pre_rendered_sprites),
            frame: self.frame.frame@,
            hit,
            v_blank,
        }
    }

    /// The state after the dots from the last clock seen to `cycle`, three
    /// per cycle, or `None` where they cannot be done (the clock went back,
    /// or a dot cannot be done).
    pub open spec fn outcome(self, ppu: Ppu, cycle: u64) -> Option<DotState> {
        if cycle >= self.last_cycle && (cycle - self.last_cycle) * 3 <= u64::MAX {
            run(
                ppu.memory,
                ppu.registers.render,
                self.dot_state(ppu.registers.status.sprite_hit, false),
                ((cycle - self.last_cycle) * 3) as nat,
            )
        } else {
            None
        }
    }

    /// `after` and `action` are what rendering up to `cycle` leaves, where
    /// the dots end in state `s`: a frame is handed out where vertical blank
    /// began and the PPU asks for an NMI, and the picture starts white again.
    pub open spec fn renders_to(self, ppu: Ppu, cycle: u64, after: SoftwareRenderer, ppu_after: Ppu, action: RenderAction) -> bool {
        let s = self.outcome(ppu, cycle).unwrap();
        &&& after.last_cycle == cycle
        &&& after.scan_x == s.scan_x
        &&& after.scan_y == s.scan_y
        &&& spec_pre(after.pre_rendered_sprites) == s.pre
        &&& ppu_after.registers.status.sprite_hit == s.hit
        &&& if s.v_blank && ppu.registers.control.gen_nmi {
            &&& action matches RenderAction::SendFrame(frame) && frame.frame@ == s.frame
            &&& forall|i: int| 0 <= i < NES_FRAME_SIZE ==> #[trigger] after.frame.frame[i] == 255
        } else {
            &&& action is Idle
            &&& after.frame.frame@ == s.frame
        }
    }

    pub fn new() -> (r: SoftwareRenderer)
        ensures
            r.scan_x == 0,
            r.scan_y == 0,
            r.last_cycle == 0,
            r.pre_rendered_sprites is None,
            forall|i: int| 0 <= i < NES_FRAME_SIZE ==> #[trigger] r.frame.frame[i] == 255,
    {
        SoftwareRenderer { scan_x: 0, scan_y: 0, last_cycle: 0, pre_rendered_sprites: None, frame: RenderedFrame::new() }
    }

    /// One dot.
    fn dot(&mut self, ppu: &mut Ppu, v_blank: &mut bool) -> (r: Result<(), RenderError>)
        ensures
            only_hit_changed(*old(ppu), *final(ppu)),
            final(self).last_cycle == old(self).last_cycle,
            r is Ok <==> step(
                old(ppu).memory,
                old(ppu).registers.render,
                old(self).dot_state(old(ppu).registers.status.sprite_hit, *old(v_blank)),
            ) is Some,
            r is Ok ==> step(
                old(ppu).memory,
                old(ppu).registers.render,
                old(self).dot_state(old(ppu).registers.status.sprite_hit, *old(v_blank)),
            ) == Some(final(self).dot_state(final(ppu).registers.status.sprite_hit, *final(v_blank))),
    {
        if self.scan_y <= 239 {
            if self.scan_x == 0 {
                match pre_render_sprites(&ppu.memory, self.scan_y) {
                    Err(e) => {
                        return Err(e);
                    },
                    Ok((line, hit)) => {
                        self.pre_rendered_sprites = Some(line);
                        if hit {
                            ppu.registers.status.sprite_hit = true;
                        }
                    },
                }
            }
            if 1 <= self.scan_x && self.scan_x <= 256 {
                let x = self.scan_x - 1;
                let pixel = match render_pixel(ppu, &self.pre_rendered_sprites, x, self.scan_y) {
                    Err(e) => {
                        return Err(e);
                    },
                    Ok(color) => color,
                };
                let address = (x + self.scan_y * NES_WIDTH) * 4;
                self.frame.frame[address] = pixel[0];
                self.frame.frame[address + 1] = pixel[1];
                self.frame.frame[address + 2] = pixel[2];
                self.frame.frame[address + 3] = pixel[3];
                assert(self.frame.frame@ =~= put_pixel(old(self).frame.frame@, x as int, self.scan_y as int, pixel));
            }
        } else if self.scan_y == 241 {
            if self.scan_x == 1 {
                *v_blank = true;
            }
        } else if self.scan_y == 261 {
            if self.scan_x == 1 {
                ppu.registers.status.sprite_hit = false;
            }
        }
        if self.scan_x == usize::MAX {
            return Err(RenderError::Undrawable);
        }
        self.scan_x += 1;
        if self.scan_x >= NES_SCANLINE_WIDTH {
            if self.scan_y == usize::MAX {
                return Err(RenderError::Undrawable);
            }
            self.scan_x = 0;
            self.scan_y += 1;
            if self.scan_y >= NES_SCANLINE_COUNT {
                self.scan_y = 0;
            }
        }
        Ok(())
    }

    /// Follows the PPU from the last clock seen up to `cycle`, or fails
    /// exactly where that cannot be done.
    pub fn try_render(&mut self, ppu: &mut Ppu, cycle: u64) -> (r: Result<RenderAction, RenderError>)
        ensures
            only_hit_changed(*old(ppu), *final(ppu)),
            r is Ok <==> old(self).outcome(*old(ppu), cycle) is Some,
            r matches Ok(action) ==> old(self).renders_to(*old(ppu), cycle, *final(self), *final(ppu), action),
    {
        if cycle < self.last_cycle || (cycle - self.last_cycle) > u64::MAX / 3 {
            return Err(RenderError::Undrawable);
        }
        let diff = (cycle - self.last_cycle) * 3;
        let ghost start = self.dot_state(ppu.registers.status.sprite_hit, false);
        let ghost memory = ppu.memory;
        let ghost render = ppu.registers.render;
        let ghost ppu0 = *ppu;
        self.last_cycle = cycle;
        let mut has_v_blank = false;
        let mut k: u64 = 0;
        while k < diff
            invariant
                k <= diff,
                self.last_cycle == cycle,
                ppu0 == *old(ppu),
                cycle >= old(self).last_cycle,
                diff == (cycle - old(self).last_cycle) * 3,
                start == old(self).dot_state(old(ppu).registers.status.sprite_hit, false),
                only_hit_changed(ppu0, *ppu),
                memory == ppu0.memory,
                render == ppu0.registers.render,
                run(memory, render, start, diff as nat) == run(
                    memory,
                    render,
                    self.dot_state(ppu.registers.status.sprite_hit, has_v_blank),
                    (diff - k) as nat,
                ),
            decreases diff - k,
        {
            match self.dot(ppu, &mut has_v_blank) {
                Err(e) => {
                    return Err(e);
                },
                Ok(()) => {},
            }
            k += 1;
        }
        if has_v_blank && ppu.registers.control.gen_nmi {
            let mut frame = RenderedFrame::new();
            core::mem::swap(&mut frame, &mut self.frame);
            Ok(RenderAction::SendFrame(frame))
        } else {
            Ok(RenderAction::Idle)
        }
    }
}

/// The dots do not depend on how the clock is split: `n` dots and then `m`
/// more are `n + m` dots.
pub proof fn lemma_run_split(memory: PpuMemory, render: RenderRegister, s: DotState, n: nat, m: nat)
    ensures
        run(memory, render, s, n + m) == match run(memory, render, s, n) {
            None => None,
            Some(t) => run(memory, render, t, m),
        },
    decreases n,
{
    if n > 0 {
        match step(memory, render, s) {
            None => {},
            Some(t) => {
                lemma_run_split(memory, render, t, (n - 1) as nat, m);
                assert((n + m - 1) as nat == ((n - 1) as nat + m) as nat);
            },
        }
    }
}

impl Renderer for SoftwareRenderer {
    open spec fn can_render(&self, ppu: Ppu<'_>, cycle: u64) -> bool {
        self.outcome(ppu, cycle) is Some
    }

    fn render(&mut self, ppu: &mut Ppu, cycle: u64) -> (action: RenderAction)
        ensures
            only_hit_changed(*old(ppu), *final(ppu)),
            old(self).renders_to(*old(ppu), cycle, *final(self), *final(ppu), action),
    {
        match self.try_render(ppu, cycle) {
            Ok(action) => action,
            Err(_) => RenderAction::Idle,
        }
    }
}

} // verus!
