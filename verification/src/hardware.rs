//! What a GPU renderer uploads: palettes as colour numbers, pattern tables
//! as one byte per pixel, and sprites as four bytes each.

use vstd::prelude::*;
use crate::ppu::{Palette, Ppu, Sprite};
use crate::software::{NES_SCANLINE_COUNT, NES_SCANLINE_WIDTH, only_hit_changed};

verus! {

/// Four palettes of four entries; entry 0 of each (transparent) is 0.
pub struct HardwarePaletteMemory {
    pub indexes: [u32; 16],
}

/// Entry `i` of the palettes `palettes` laid out four by four.
pub open spec fn palette_entry(palettes: [Palette; 4], i: int) -> u32 {
    if i % 4 == 0 {
        0
    } else {
        palettes[i / 4][i % 4 - 1] as u32
    }
}

impl HardwarePaletteMemory {
    pub fn from_palettes(palettes: &[Palette; 4]) -> (r: HardwarePaletteMemory)
        ensures
            forall|i: int| 0 <= i < 16 ==> #[trigger] r.indexes[i] == palette_entry(*palettes, i),
    {
        let mut indexes = [0u32; 16];
        let mut i: usize = 0;
        while i < 16
            invariant
                i <= 16,
                forall|j: int| 0 <= j < i ==> #[trigger] indexes[j] == palette_entry(*palettes, j),
            decreases 16 - i,
        {
            let index = i % 4;
            if index != 0 {
                indexes[i] = palettes[i / 4][index - 1] as u32;
            } else {
                indexes[i] = 0;
            }
            i += 1;
        }
        HardwarePaletteMemory { indexes }
    }
}

/// The colour number (0 to 3) of pixel (`x`, `y`) of tile `tile` of `data`.
pub open spec fn pattern_value(data: Seq<u8>, tile: int, x: int, y: int) -> u8 {
    let top = data[tile * 16 + y];
    let bottom = data[tile * 16 + y + 8];
    let top_bit = (top >> ((7 - x) as u8)) & 1;
    let bottom_bit = (bottom >> ((7 - x) as u8)) & 1;
    (bottom_bit << 1u8) | top_bit
}

/// Byte `k` of the texture of a pattern table: the 256 tiles side by side,
/// 2048 pixels wide and 8 high, row by row.
pub open spec fn texture_byte(data: Seq<u8>, k: int) -> u8 {
    pattern_value(data, (k % 2048) / 8, k % 8, k / 2048)
}

/// The 256 tiles of a pattern table (0x1000 bytes) as a 2048 by 8 texture
/// of colour numbers.
pub fn pattern_table_to_texture(data: &[u8]) -> (r: Vec<u8>)
    requires
        data@.len() >= 0x1000,
    ensures
        r@.len() == 2048 * 8,
        forall|k: int| 0 <= k < 2048 * 8 ==> #[trigger] r@[k] == texture_byte(data@, k),
{
    let sprite_width: usize = 256 * 8;
    let mut result: Vec<u8> = Vec::new();
    let mut k: usize = 0;
    while k < sprite_width * 8
        invariant
            sprite_width == 2048,
            data@.len() >= 0x1000,
            k <= 2048 * 8,
            result@.len() == k,
            forall|j: int| 0 <= j < k ==> #[trigger] result@[j] == texture_byte(data@, j),
        decreases 2048 * 8 - k,
    {
        let i = (k % sprite_width) / 8;
        let x = k % 8;
        let y = k / sprite_width;
        let top = data[i * 0x10 + y];
        let bottom = data[i * 0x10 + y + 8];
        let top_bit = (top >> ((7 - x) as u8)) & 0b1;
        let bottom_bit = (bottom >> ((7 - x) as u8)) & 0b1;
        result.push((bottom_bit << 1u8) | top_bit);
        k += 1;
    }
    result
}

/// Pixel (`x`, `y`) of tile `tile` lands at column `tile * 8 + x` of row `y`.
pub proof fn lemma_texture_layout(data: Seq<u8>, tile: int, x: int, y: int)
    requires
        0 <= tile < 256,
        0 <= x < 8,
        0 <= y < 8,
    ensures
        texture_byte(data, tile * 8 + x + y * 2048) == pattern_value(data, tile, x, y),
{
    let k = tile * 8 + x + y * 2048;
    assert(k % 2048 == tile * 8 + x && k / 2048 == y) by (nonlinear_arith)
        requires
            k == tile * 8 + x + y * 2048,
            0 <= tile * 8 + x < 2048,
            0 <= y;
    assert((tile * 8 + x) / 8 == tile && (tile * 8 + x) % 8 == x) by (nonlinear_arith)
        requires
            0 <= x < 8;
    assert(k % 8 == x) by (nonlinear_arith)
        requires
            k == tile * 8 + x + y * 2048,
            0 <= x < 8;
}

/// The sprites as uploaded: y, tile number, attributes, x.
pub fn sprite_data(oam: &[Sprite; 64]) -> (r: [[u8; 4]; 64])
    ensures
        forall|i: int| 0 <= i < 64 ==> #[trigger] r[i] == [oam[i].y, oam[i].number, oam[i].mask, oam[i].x],
{
    let mut data: [[u8; 4]; 64] = [[0, 0, 0, 0]; 64];
    let mut i: usize = 0;
    while i < 64
        invariant
            i <= 64,
            forall|j: int| 0 <= j < i ==> #[trigger] data[j] == [oam[j].y, oam[j].number, oam[j].mask, oam[j].x],
        decreases 64 - i,
    {
        let sprite = oam[i];
        data[i] = [sprite.y, sprite.number, sprite.mask, sprite.x];
        i += 1;
    }
    data
}

/// The largest square that fits a `width` by `height` window, centred in it.
pub struct BoxedSize {
    pub x: u64,
    pub y: u64,
    pub width: u64,
    pub height: u64,
}

impl BoxedSize {
    pub fn new(width: u64, height: u64) -> (r: BoxedSize)
        ensures
            r.width == (if width <= height { width } else { height }),
            r.height == r.width,
            r.x == (width - r.width) / 2,
            r.y == (height - r.height) / 2,
    {
        let minimum = if width <= height { width } else { height };
        BoxedSize { x: (width - minimum) / 2, y: (height - minimum) / 2, width: minimum, height: minimum }
    }
}

/// The beam went from dot `start_x` of line `start_y` to dot `x` of line `y`
/// across dot `col` of line `line`.
pub open spec fn passed(start_x: int, start_y: int, x: int, y: int, line: int, col: int) -> bool {
    &&& (y > line || (y == line && x >= col))
    &&& (start_y < line || (start_y == line && start_x < col))
}

fn beam_passed(start_x: usize, start_y: usize, x: usize, y: usize, line: usize, col: usize) -> (r: bool)
    ensures
        r == passed(start_x as int, start_y as int, x as int, y as int, line as int, col as int),
{
    (y > line || (y == line && x >= col)) && (start_y < line || (start_y == line && start_x < col))
}

/// One line after line `n % 262` is line `(n + 1) % 262`.
proof fn lemma_next_line(n: int)
    requires
        n >= 0,
    ensures
        (n + 1) % 262 == if n % 262 == 261 { 0 } else { n % 262 + 1 },
{
    assert((n + 1) % 262 == if n % 262 == 261 { 0 } else { n % 262 + 1 }) by (nonlinear_arith)
        requires
            n >= 0,
    ;
}

/// Where a GPU renderer's beam stands: the CPU clock it last saw, and the dot
/// (`scan_x`) and scanline (`scan_y`) it has reached.
pub struct ScanTiming {
    pub last_cycle: u64,
    pub scan_x: usize,
    pub scan_y: usize,
}

/// What one move of the beam asks of a GPU renderer: the scanlines entered,
/// in order (each takes the horizontal scroll of the moment), and whether a
/// frame is due (vertical blank was crossed with NMI enabled), in which case
/// the renderer draws it and the NMI is raised.
pub struct ScanStep {
    pub rows: Vec<usize>,
    pub nmi: bool,
}

impl ScanTiming {
    /// The beam at the first dot of the first scanline, at clock 0.
    pub fn new() -> (r: ScanTiming)
        ensures
            r.wf(),
            r.last_cycle == 0 && r.scan_x == 0 && r.scan_y == 0,
    {
        ScanTiming { last_cycle: 0, scan_x: 0, scan_y: 0 }
    }

    pub open spec fn wf(self) -> bool {
        self.scan_x < NES_SCANLINE_WIDTH && self.scan_y < NES_SCANLINE_COUNT
    }

    /// Moving the beam from here to where `after` has it crosses dot `col`
    /// of line `line`.
    pub open spec fn crosses(self, after: ScanTiming, line: int, col: int) -> bool {
        passed(self.scan_x as int, self.scan_y as int, after.scan_x as int, after.scan_y as int, line, col)
    }

    /// Takes `cycles` as the clock last seen, the beam staying where it is.
    pub fn sync(&mut self, cycles: u64)
        ensures
            *final(self) == (ScanTiming { last_cycle: cycles, ..*old(self) }),
    {
        self.last_cycle = cycles;
    }

    /// Moves the beam `dots` dots on, and gives the scanlines entered, in order.
    fn move_dots(&mut self, dots: usize) -> (rows: Vec<usize>)
        requires
            old(self).wf(),
            old(self).scan_x + dots <= usize::MAX,
        ensures
            final(self).wf(),
            final(self).last_cycle == old(self).last_cycle,
            final(self).scan_x + NES_SCANLINE_WIDTH * rows@.len() == old(self).scan_x + dots,
            final(self).scan_y == (old(self).scan_y + rows@.len()) % (NES_SCANLINE_COUNT as int),
            forall|k: int|
                0 <= k < rows@.len() ==> #[trigger] rows@[k] == (old(self).scan_y + k + 1) % (
                NES_SCANLINE_COUNT as int),
    {
        let start_x = self.scan_x;
        let start_y = self.scan_y;
        self.scan_x = self.scan_x + dots;
        let mut rows: Vec<usize> = Vec::new();
        while self.scan_x >= NES_SCANLINE_WIDTH
            invariant
                self.scan_y < NES_SCANLINE_COUNT,
                self.last_cycle == old(self).last_cycle,
                start_y < NES_SCANLINE_COUNT,
                self.scan_x + NES_SCANLINE_WIDTH * rows@.len() == start_x + dots,
                self.scan_y == (start_y + rows@.len()) % (NES_SCANLINE_COUNT as int),
                forall|k: int|
                    0 <= k < rows@.len() ==> #[trigger] rows@[k] == (start_y + k + 1) % (NES_SCANLINE_COUNT as int),
            decreases self.scan_x,
        {
            let ghost before = rows@.len();
            self.scan_x = self.scan_x - NES_SCANLINE_WIDTH;
            self.scan_y = self.scan_y + 1;
            if self.scan_y >= NES_SCANLINE_COUNT {
                self.scan_y = self.scan_y - NES_SCANLINE_COUNT;
            }
            proof {
                lemma_next_line(start_y as int + before);
            }
            rows.push(self.scan_y);
        }
        rows
    }

    /// Moves the beam three dots per CPU cycle from the clock last seen to
    /// `cycle`. Crossing dot 1 of line 241 is vertical blank; crossing dot
    /// `x` of line `y + 5`, where sprite 0 stands at (`x`, `y`), sets the
    /// sprite 0 hit flag, and crossing dot 1 of line 261 clears it (the
    /// later wins). The crossing test compares the line reached, after
    /// wrapping at the end of the frame, with the line the move started on.
    pub fn advance(&mut self, ppu: &mut Ppu, cycle: u64) -> (r: ScanStep)
        requires
            old(self).wf(),
            old(self).last_cycle <= cycle,
            old(self).scan_x + 3 * (cycle - old(self).last_cycle) <= usize::MAX,
        ensures
            final(self).wf(),
            final(self).last_cycle == cycle,
            final(self).scan_x + NES_SCANLINE_WIDTH * r.rows@.len() == old(self).scan_x + 3 * (cycle
                - old(self).last_cycle),
            final(self).scan_y == (old(self).scan_y + r.rows@.len()) % (NES_SCANLINE_COUNT as int),
            forall|k: int|
                0 <= k < r.rows@.len() ==> #[trigger] r.rows@[k] == (old(self).scan_y + k + 1) % (
                NES_SCANLINE_COUNT as int),
            only_hit_changed(*old(ppu), *final(ppu)),
            final(ppu).registers.status.sprite_hit == if old(self).crosses(*final(self), 261, 1) {
                false
            } else if old(self).crosses(*final(self), old(ppu).memory.oam[0].y + 5, old(ppu).memory.oam[0].x as int) {
                true
            } else {
                old(ppu).registers.status.sprite_hit
            },
            r.nmi == (old(self).crosses(*final(self), 241, 1) && old(ppu).registers.control.gen_nmi),
    {
        let elapsed: u64 = cycle - self.last_cycle;
        assert(elapsed <= usize::MAX);
        let dots: usize = (elapsed as usize) * 3;
        let start_x = self.scan_x;
        let start_y = self.scan_y;
        let rows = self.move_dots(dots);
        self.last_cycle = cycle;
        let zero = ppu.memory.oam[0];
        let zero_x = zero.x as usize;
        let zero_y = zero.y as usize;
        let v_blank = beam_passed(start_x, start_y, self.scan_x, self.scan_y, 241, 1);
        let hit_zero = beam_passed(start_x, start_y, self.scan_x, self.scan_y, zero_y + 5, zero_x);
        let hit_cleared = beam_passed(start_x, start_y, self.scan_x, self.scan_y, 261, 1);
        let hit = ppu.registers.status.sprite_hit;
        ppu.registers.status.sprite_hit = if hit_cleared {
            false
        } else if hit_zero {
            true
        } else {
            hit
        };
        ScanStep { rows, nmi: v_blank && ppu.registers.control.gen_nmi }
    }
}

} // verus!
