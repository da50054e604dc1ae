//! The picture processing unit: its registers as the CPU sees them at
//! $2000-$2007, its object attribute memory (OAM), name tables and palettes.

use vstd::prelude::*;
use crate::hex::{append_hex4, hex4};
use crate::rom::Rom;

verus! {

/// The number of sprites in object attribute memory.
pub const SPRITE_COUNT: usize = 64;

#[derive(Clone, Copy, Debug, PartialEq, Eq, Structural)]
pub enum PpuMemoryError {
    UnmappedRead(u16),
    UnmappedWrite(u16),
    OamAccess(u8),
    PaletteAccess(u16),
}

impl PpuMemoryError {
    /// The error in words.
    pub open spec fn spec_message(self) -> Seq<char> {
        match self {
            PpuMemoryError::UnmappedRead(address) => "Unmapped PPU read at address $"@ + hex4(address as int),
            PpuMemoryError::UnmappedWrite(address) => "Unmapped PPU write at address $"@ + hex4(address as int),
            PpuMemoryError::PaletteAccess(address) => "Unexpected palette access at address $"@ + hex4(address as int),
            PpuMemoryError::OamAccess(address) => "Unexpected OAM access at address $"@ + hex4(address as int),
        }
    }

    pub fn message(&self) -> (r: String)
        ensures
            r@ == self.spec_message(),
    {
        match *self {
            PpuMemoryError::UnmappedRead(address) => {
                let mut s = String::from_str("Unmapped PPU read at address $");
                append_hex4(&mut s, address);
                s
            },
            PpuMemoryError::UnmappedWrite(address) => {
                let mut s = String::from_str("Unmapped PPU write at address $");
                append_hex4(&mut s, address);
                s
            },
            PpuMemoryError::PaletteAccess(address) => {
                let mut s = String::from_str("Unexpected palette access at address $");
                append_hex4(&mut s, address);
                s
            },
            PpuMemoryError::OamAccess(address) => {
                let mut s = String::from_str("Unexpected OAM access at address $");
                append_hex4(&mut s, address as u16);
                s
            },
        }
    }
}

pub struct NameTable {
    pub contents: [u8; 0x400],
}

pub type Palette = [u8; 3];

pub struct PaletteMemory {
    pub background_solid: u8,
    pub background: [Palette; 4],
    pub sprite: [Palette; 4],
}

/// The PPUCTRL register ($2000).
pub struct ControlRegister {
    pub increment_32: bool,
    pub base_sprite_pattern_table: bool,
    pub base_background_pattern_table: bool,
    /// true = 8x16 pixels
    pub sprite_size: bool,
    pub ppu_color_ext: bool,
    pub gen_nmi: bool,
}

/// The PPUMASK register ($2001).
pub struct MaskRegister {
    pub greyscale: bool,
    pub show_background_leftmost: bool,
    pub show_sprites_leftmost: bool,
    pub show_background: bool,
    pub show_sprites: bool,
    pub emphasize_red: bool,
    pub emphasize_green: bool,
    pub emphasize_blue: bool,
}

/// The PPUSTATUS register ($2002).
pub struct StatusRegister {
    pub sprite_hit: bool,
    pub v_blank_hit: bool,
}

/// The internal scroll and address registers: `t` (temporary address),
/// `v` (current address), `x` (fine x scroll) and the write latch `w`.
pub struct RenderRegister {
    pub t: u16,
    pub v: u16,
    pub x: u8,
    pub w: bool,
}

/// One entry of object attribute memory.
#[derive(Copy, Clone)]
pub struct Sprite {
    pub y: u8,
    pub number: u8,
    pub mask: u8,
    pub x: u8,
}

pub struct PpuRegisters {
    pub control: ControlRegister,
    pub mask: MaskRegister,
    pub status: StatusRegister,
    pub render: RenderRegister,
    pub oam_address: u8,
    pub read_buffer: u8,
}

pub struct PpuMemory<'a> {
    pub rom: &'a Rom,
    pub oam: [Sprite; 64],
    pub names: [NameTable; 4],
    pub palette: PaletteMemory,
}

pub struct Ppu<'a> {
    pub registers: PpuRegisters,
    pub memory: PpuMemory<'a>,
}

impl Default for Sprite {
    fn default() -> (r: Sprite)
        ensures
            r == (Sprite { y: 0xFF, number: 0, mask: 0, x: 0 }),
    {
        Sprite { y: 0xFF, number: 0, mask: 0, x: 0 }
    }
}

impl Sprite {
    /// Byte `address` (0 to 3) of this entry: y, tile number, attributes, x.
    pub open spec fn byte(self, address: int) -> u8 {
        if address == 0 {
            self.y
        } else if address == 1 {
            self.number
        } else if address == 2 {
            self.mask
        } else {
            self.x
        }
    }

    /// This entry with byte `address` replaced by `value`.
    pub open spec fn with_byte(self, address: int, value: u8) -> Sprite {
        if address == 0 {
            Sprite { y: value, ..self }
        } else if address == 1 {
            Sprite { number: value, ..self }
        } else if address == 2 {
            Sprite { mask: value, ..self }
        } else {
            Sprite { x: value, ..self }
        }
    }

    pub fn read(&self, address: u8) -> (r: u8)
        requires
            address < 4,
        ensures
            r == self.byte(address as int),
    {
        match address {
            0 => self.y,
            1 => self.number,
            2 => self.mask,
            _ => self.x,
        }
    }

    pub fn write(&mut self, address: u8, value: u8)
        requires
            address < 4,
        ensures
            *final(self) == old(self).with_byte(address as int, value),
    {
        match address {
            0 => self.y = value,
            1 => self.number = value,
            2 => self.mask = value,
            _ => self.x = value,
        }
    }
}

impl Default for StatusRegister {
    fn default() -> (r: StatusRegister)
        ensures
            !r.sprite_hit,
            r.v_blank_hit,
    {
        StatusRegister { sprite_hit: false, v_blank_hit: true }
    }
}

impl Default for ControlRegister {
    fn default() -> (r: ControlRegister)
        ensures
            r == ControlRegister::spec_from_bits(0),
    {
        ControlRegister::from_bits(0)
    }
}

impl ControlRegister {
    /// The register after `value` is written to $2000 (bits 2 to 7; bits 0
    /// and 1 go to the name table bits of `t`).
    pub open spec fn spec_from_bits(value: u8) -> ControlRegister {
        ControlRegister {
            increment_32: value & 0b0000_0100 != 0,
            base_sprite_pattern_table: value & 0b0000_1000 != 0,
            base_background_pattern_table: value & 0b0001_0000 != 0,
            sprite_size: value & 0b0010_0000 != 0,
            ppu_color_ext: value & 0b0100_0000 != 0,
            gen_nmi: value & 0b1000_0000 != 0,
        }
    }

    pub fn from_bits(value: u8) -> (r: ControlRegister)
        ensures
            r == ControlRegister::spec_from_bits(value),
    {
        ControlRegister {
            increment_32: value & 0b0000_0100 != 0,
            base_sprite_pattern_table: value & 0b0000_1000 != 0,
            base_background_pattern_table: value & 0b0001_0000 != 0,
            sprite_size: value & 0b0010_0000 != 0,
            ppu_color_ext: value & 0b0100_0000 != 0,
            gen_nmi: value & 0b1000_0000 != 0,
        }
    }
}

impl Default for MaskRegister {
    fn default() -> (r: MaskRegister)
        ensures
            r == MaskRegister::spec_from_bits(0),
    {
        MaskRegister::from_bits(0)
    }
}

impl MaskRegister {
    /// The register after `value` is written to $2001.
    pub open spec fn spec_from_bits(value: u8) -> MaskRegister {
        MaskRegister {
            greyscale: value & 0b0000_0001 != 0,
            show_background_leftmost: value & 0b0000_0010 != 0,
            show_sprites_leftmost: value & 0b0000_0100 != 0,
            show_background: value & 0b0000_1000 != 0,
            show_sprites: value & 0b0001_0000 != 0,
            emphasize_red: value & 0b0010_0000 != 0,
            emphasize_green: value & 0b0100_0000 != 0,
            emphasize_blue: value & 0b1000_0000 != 0,
        }
    }

    pub fn from_bits(value: u8) -> (r: MaskRegister)
        ensures
            r == MaskRegister::spec_from_bits(value),
    {
        MaskRegister {
            greyscale: value & 0b0000_0001 != 0,
            show_background_leftmost: value & 0b0000_0010 != 0,
            show_sprites_leftmost: value & 0b0000_0100 != 0,
            show_background: value & 0b0000_1000 != 0,
            show_sprites: value & 0b0001_0000 != 0,
            emphasize_red: value & 0b0010_0000 != 0,
            emphasize_green: value & 0b0100_0000 != 0,
            emphasize_blue: value & 0b1000_0000 != 0,
        }
    }
}

impl StatusRegister {
    /// The byte read from $2002: sprite 0 hit in bit 6, vertical blank in bit 7.
    pub open spec fn spec_bits(self) -> u8 {
        (if self.sprite_hit { 0b0100_0000u8 } else { 0u8 }) | (if self.v_blank_hit { 0b1000_0000u8 } else { 0u8 })
    }

    pub fn bits(&self) -> (r: u8)
        ensures
            r == self.spec_bits(),
    {
        let sprite_hit: u8 = if self.sprite_hit { 0b0100_0000 } else { 0 };
        let v_blank_hit: u8 = if self.v_blank_hit { 0b1000_0000 } else { 0 };
        sprite_hit | v_blank_hit
    }
}

impl Default for RenderRegister {
    fn default() -> (r: RenderRegister)
        ensures
            r == (RenderRegister { t: 0, v: 0, x: 0, w: false }),
    {
        RenderRegister { t: 0, v: 0, x: 0, w: false }
    }
}

impl RenderRegister {
    /// Coarse x (bits 0-4 of `t`) and fine x, as one pixel offset.
    pub open spec fn spec_x_scroll(self) -> u8 {
        (((self.t & 0b0000_0000_0001_1111) as u8) << 3u8) | self.x
    }

    /// Coarse y (bits 5-9 of `t`) and fine y (bits 12-14), as one pixel offset.
    pub open spec fn spec_y_scroll(self) -> u8 {
        (((self.t & 0b0000_0011_1110_0000) >> 2u16) as u8) | (((self.t & 0b0111_0000_0000_0000) >> 12u16) as u8)
    }

    pub open spec fn spec_name_table_x(self) -> bool {
        self.t & 0b0000_0100_0000_0000 != 0
    }

    pub open spec fn spec_name_table_y(self) -> bool {
        self.t & 0b0000_1000_0000_0000 != 0
    }

    /// The register after a write to $2000: bits 0-1 of `value` become the
    /// name table bits (10-11) of `t`.
    pub open spec fn spec_write_control(self, value: u8) -> RenderRegister {
        RenderRegister { t: (self.t & 0b1111_0011_1111_1111) | (((value & 0b11) as u16) << 10u16), ..self }
    }

    /// The register after a write to $2005: the first write sets coarse and
    /// fine x, the second coarse and fine y; each write flips the latch.
    pub open spec fn spec_write_scroll(self, value: u8) -> RenderRegister {
        if self.w {
            let low = ((value & 0b111) as u16) << 12u16;
            let high = ((value & 0b1111_1000) as u16) << 2u16;
            RenderRegister { t: (self.t & 0b0000_1100_0001_1111) | low | high, w: false, ..self }
        } else {
            RenderRegister {
                t: (self.t & 0b1111_1111_1110_0000) | (((value as u16) & 0b1111_1000) >> 3u16),
                x: value & 0b111,
                w: true,
                ..self
            }
        }
    }

    /// The register after a write to $2006: the first write sets the high six
    /// bits of `t`, the second its low byte and copies `t` into `v`.
    pub open spec fn spec_write_address(self, value: u8) -> RenderRegister {
        if self.w {
            let t = (self.t & 0b1111_1111_0000_0000) | (value as u16);
            RenderRegister { t, v: t, w: false, ..self }
        } else {
            RenderRegister {
                t: (self.t & 0b0000_0000_1111_1111) | (((value & 0b0011_1111) as u16) << 8u16),
                w: true,
                ..self
            }
        }
    }

    pub fn x_scroll(&self) -> (r: u8)
        ensures
            r == self.spec_x_scroll(),
    {
        (((self.t & 0b0000_0000_0001_1111) as u8) << 3) | self.x
    }

    pub fn y_scroll(&self) -> (r: u8)
        ensures
            r == self.spec_y_scroll(),
    {
        (((self.t & 0b0000_0011_1110_0000) >> 2) as u8) | (((self.t & 0b0111_0000_0000_0000) >> 12) as u8)
    }

    pub fn name_table_x(&self) -> (r: bool)
        ensures
            r == self.spec_name_table_x(),
    {
        self.t & 0b0000_0100_0000_0000 != 0
    }

    pub fn name_table_y(&self) -> (r: bool)
        ensures
            r == self.spec_name_table_y(),
    {
        self.t & 0b0000_1000_0000_0000 != 0
    }

    pub fn write_control(&mut self, value: u8)
        ensures
            *final(self) == old(self).spec_write_control(value),
    {
        self.t = (self.t & 0b1111_0011_1111_1111) | (((value & 0b11) as u16) << 10)
    }

    /// A read of $2002 resets the write latch.
    pub fn read_status(&mut self)
        ensures
            *final(self) == (RenderRegister { w: false, ..*old(self) }),
    {
        self.w = false;
    }

    pub fn write_scroll(&mut self, value: u8)
        ensures
            *final(self) == old(self).spec_write_scroll(value),
    {
        if self.w {
            let low = ((value & 0b111) as u16) << 12;
            let high = ((value & 0b1111_1000) as u16) << 2;
            self.t = (self.t & 0b0000_1100_0001_1111) | low | high;
        } else {
            self.t = (self.t & 0b1111_1111_1110_0000) | (((value as u16) & 0b1111_1000) >> 3);
            self.x = value & 0b111;
        }
        self.w = !self.w;
    }

    pub fn write_address(&mut self, value: u8)
        ensures
            *final(self) == old(self).spec_write_address(value),
    {
        if self.w {
            self.t = (self.t & 0b1111_1111_0000_0000) | (value as u16);
            self.v = self.t
        } else {
            self.t = (self.t & 0b0000_0000_1111_1111) | (((value & 0b0011_1111) as u16) << 8);
        }
        self.w = !self.w;
    }
}

/// Two writes to $2005, starting with the latch clear, set the horizontal
/// scroll to the first value and the vertical scroll to the second, and leave
/// the latch clear.
pub proof fn lemma_scroll_write_pair(r: RenderRegister, first: u8, second: u8)
    requires
        !r.w,
    ensures
        r.spec_write_scroll(first).spec_write_scroll(second).spec_x_scroll() == first,
        r.spec_write_scroll(first).spec_write_scroll(second).spec_y_scroll() == second,
        !r.spec_write_scroll(first).spec_write_scroll(second).w,
        r.spec_write_scroll(first).spec_write_scroll(second).v == r.v,
{
    let t0 = r.t;
    let t1: u16 = (t0 & 0b1111_1111_1110_0000) | (((first as u16) & 0b1111_1000) >> 3u16);
    let t2: u16 = (t1 & 0b0000_1100_0001_1111) | (((second & 0b111) as u16) << 12u16)
        | (((second & 0b1111_1000) as u16) << 2u16);
    assert((((t2 & 0b0000_0000_0001_1111) as u8) << 3u8) | (first & 0b111) == first) by (bit_vector)
        requires
            t1 == (t0 & 0b1111_1111_1110_0000) | (((first as u16) & 0b1111_1000) >> 3u16),
            t2 == (t1 & 0b0000_1100_0001_1111) | (((second & 0b111) as u16) << 12u16)
                | (((second & 0b1111_1000) as u16) << 2u16);
    assert((((t2 & 0b0000_0011_1110_0000) >> 2u16) as u8) | (((t2 & 0b0111_0000_0000_0000) >> 12u16) as u8) == second)
        by (bit_vector)
        requires
            t2 == (t1 & 0b0000_1100_0001_1111) | (((second & 0b111) as u16) << 12u16)
                | (((second & 0b1111_1000) as u16) << 2u16);
}

/// Two writes to $2006, starting with the latch clear, point `v` at the
/// address whose high byte is the first value (bits 0-5) and whose low byte is
/// the second, and leave the latch clear.
pub proof fn lemma_address_write_pair(r: RenderRegister, high: u8, low: u8)
    requires
        !r.w,
    ensures
        r.spec_write_address(high).spec_write_address(low).v == ((((high & 0x3F) as u16) << 8u16) | (low as u16)),
        !r.spec_write_address(high).spec_write_address(low).w,
{
    let t0 = r.t;
    let t1: u16 = (t0 & 0b0000_0000_1111_1111) | (((high & 0b0011_1111) as u16) << 8u16);
    let t2: u16 = (t1 & 0b1111_1111_0000_0000) | (low as u16);
    assert(t2 == ((((high & 0x3F) as u16) << 8u16) | (low as u16))) by (bit_vector)
        requires
            t1 == (t0 & 0b0000_0000_1111_1111) | (((high & 0b0011_1111) as u16) << 8u16),
            t2 == (t1 & 0b1111_1111_0000_0000) | (low as u16);
}

/// A write to $2000 selects the base name table from its two low bits.
pub proof fn lemma_control_selects_name_table(r: RenderRegister, value: u8)
    ensures
        r.spec_write_control(value).spec_name_table_x() == (value & 0b01 != 0),
        r.spec_write_control(value).spec_name_table_y() == (value & 0b10 != 0),
{
    let t = r.t;
    assert((((t & 0b1111_0011_1111_1111) | (((value & 0b11) as u16) << 10u16)) & 0b0000_0100_0000_0000 != 0)
        == (value & 0b01 != 0)) by (bit_vector);
    assert((((t & 0b1111_0011_1111_1111) | (((value & 0b11) as u16) << 10u16)) & 0b0000_1000_0000_0000 != 0)
        == (value & 0b10 != 0)) by (bit_vector);
}

impl PaletteMemory {
    /// The palette byte at `address` (taken modulo 0x20): the universal
    /// background colour at 0x00 and its mirror 0x10, the background palette
    /// entries at 0x01-0x0F and the sprite palette entries at 0x11-0x1F, where
    /// `set` keeps them. The other first bytes of a group of four (0x04, 0x08,
    /// 0x0C, 0x14, 0x18, 0x1C) hold nothing and cannot be read.
    pub open spec fn spec_get(self, address: u16) -> Result<u8, PpuMemoryError> {
        let a = address % 0x20;
        if a == 0x00 || a == 0x10 {
            Ok(self.background_solid)
        } else if a % 4 == 0 {
            Err(PpuMemoryError::PaletteAccess(a))
        } else if a < 0x10 {
            Ok(self.background[((a - 1) / 4) as int][((a - 1) % 4) as int])
        } else {
            Ok(self.sprite[((a - 0x11) / 4) as int][((a - 0x11) % 4) as int])
        }
    }

    /// The background palette entry `(page, index)` lives at 0x01 + 4 * page + index.
    pub open spec fn background_address(page: int, index: int) -> int {
        1 + 4 * page + index
    }

    /// The sprite palette entry `(page, index)` lives at 0x11 + 4 * page + index.
    pub open spec fn sprite_address(page: int, index: int) -> int {
        0x11 + 4 * page + index
    }

    /// `new` is this palette memory after `value` is written at `address`
    /// (modulo 0x20): 0x00 and 0x10 set the background colour, the other
    /// addresses the palette entry that lives there, if any (the first byte of
    /// each group of four other than 0x00 and 0x10 is not kept).
    pub open spec fn spec_set(self, new: PaletteMemory, address: u16, value: u8) -> bool {
        let a = (address % 0x20) as int;
        &&& new.background_solid == if a == 0x00 || a == 0x10 { value } else { self.background_solid }
        &&& forall|page: int, index: int|
            0 <= page < 4 && 0 <= index < 3 ==> #[trigger] new.background[page][index] == if a
                == PaletteMemory::background_address(page, index) {
                value
            } else {
                self.background[page][index]
            }
        &&& forall|page: int, index: int|
            0 <= page < 4 && 0 <= index < 3 ==> #[trigger] new.sprite[page][index] == if a
                == PaletteMemory::sprite_address(page, index) {
                value
            } else {
                self.sprite[page][index]
            }
    }

    pub fn get(&self, address: u16) -> (r: Result<u8, PpuMemoryError>)
        ensures
            r == self.spec_get(address),
    {
        let address = address % 0x20;
        if address == 0x00 || address == 0x10 {
            Ok(self.background_solid)
        } else if address % 4 == 0 {
            Err(PpuMemoryError::PaletteAccess(address))
        } else if address < 0x10 {
            let base = (address - 0x01) as usize;
            Ok(self.background[base / 4][base % 4])
        } else {
            let base = (address - 0x11) as usize;
            Ok(self.sprite[base / 4][base % 4])
        }
    }

    pub fn set(&mut self, address: u16, value: u8) -> (r: Result<(), PpuMemoryError>)
        ensures
            r is Ok,
            old(self).spec_set(*final(self), address, value),
    {
        let address = address % 0x20;
        if address == 0x00 || address == 0x10 {
            self.background_solid = value;
        } else if address < 0x10 {
            let base = (address - 0x01) as usize;
            let page = base / 4;
            let index = base % 4;
            if index < 3 {
                self.background[page][index] = value;
            }
        } else {
            let base = (address - 0x11) as usize;
            let page = base / 4;
            let index = base % 4;
            if index < 3 {
                self.sprite[page][index] = value;
            }
        }
        Ok(())
    }
}

impl Default for PaletteMemory {
    fn default() -> (r: PaletteMemory)
        ensures
            r.background_solid == 0,
            forall|page: int, index: int|
                0 <= page < 4 && 0 <= index < 3 ==> r.background[page][index] == 0 && r.sprite[page][index] == 0,
    {
        PaletteMemory { background_solid: 0, background: [[0; 3]; 4], sprite: [[0; 3]; 4] }
    }
}

/// The name table page (0 to 3) and offset within it that the PPU address
/// `address` (0x2000-0x3EFF) selects: 0x3000-0x3EFF mirror 0x2000-0x2EFF.
pub open spec fn name_table_page(address: u16) -> int {
    (((address - 0x2000) as int) / 0x400) % 4
}

pub open spec fn name_table_index(address: u16) -> int {
    ((address - 0x2000) as int) % 0x400
}

impl<'a> PpuMemory<'a> {
    /// The byte at PPU address `address`: pattern data below 0x2000 (where
    /// the cartridge has that much), name tables up to 0x3EFF, palettes up to
    /// 0x3FFF.
    pub open spec fn spec_read(self, address: u16) -> Result<u8, PpuMemoryError> {
        if address <= 0x1FFF {
            if (address as int) < self.rom.chr_rom@.len() {
                Ok(self.rom.chr_rom@[address as int])
            } else {
                Err(PpuMemoryError::UnmappedRead(address))
            }
        } else if address <= 0x3EFF {
            Ok(self.names[name_table_page(address)].contents[name_table_index(address)])
        } else if address <= 0x3FFF {
            self.palette.spec_get((address - 0x3F00) as u16)
        } else {
            Err(PpuMemoryError::UnmappedRead(address))
        }
    }

    /// `new` is this memory after a write of `value` at `address`, which
    /// returned `r`: the name tables and palettes are writable, nothing else is.
    pub open spec fn spec_write(self, new: PpuMemory<'a>, address: u16, value: u8, r: Result<(), PpuMemoryError>) -> bool {
        &&& new.rom == self.rom
        &&& new.oam == self.oam
        &&& if 0x2000 <= address <= 0x3EFF {
            &&& r is Ok
            &&& new.palette == self.palette
            &&& forall|page: int, index: int|
                0 <= page < 4 && 0 <= index < 0x400 ==> #[trigger] new.names[page].contents[index] == if page
                    == name_table_page(address) && index == name_table_index(address) {
                    value
                } else {
                    self.names[page].contents[index]
                }
        } else if 0x3F00 <= address <= 0x3FFF {
            &&& r is Ok
            &&& new.names == self.names
            &&& self.palette.spec_set(new.palette, (address - 0x3F00) as u16, value)
        } else {
            &&& r == Err::<(), PpuMemoryError>(PpuMemoryError::UnmappedWrite(address))
            &&& new.names == self.names
            &&& new.palette == self.palette
        }
    }

    pub fn read(&mut self, address: u16) -> (r: Result<u8, PpuMemoryError>)
        ensures
            r == old(self).spec_read(address),
            *final(self) == *old(self),
    {
        if address <= 0x1FFF {
            if (address as usize) < self.rom.chr_rom.len() {
                Ok(self.rom.chr_rom[address as usize])
            } else {
                Err(PpuMemoryError::UnmappedRead(address))
            }
        } else if address <= 0x3EFF {
            let base = (address - 0x2000) as usize;
            let page = (base / 0x400) % 4;
            let index = base % 0x400;
            Ok(self.names[page].contents[index])
        } else if address <= 0x3FFF {
            self.palette.get(address - 0x3F00)
        } else {
            Err(PpuMemoryError::UnmappedRead(address))
        }
    }

    pub fn write(&mut self, address: u16, value: u8) -> (r: Result<(), PpuMemoryError>)
        ensures
            old(self).spec_write(*final(self), address, value, r),
    {
        if 0x2000 <= address && address <= 0x3EFF {
            let base = (address - 0x2000) as usize;
            let page = (base / 0x400) % 4;
            let index = base % 0x400;
            self.names[page].contents[index] = value;
            Ok(())
        } else if 0x3F00 <= address && address <= 0x3FFF {
            self.palette.set(address - 0x3F00, value)
        } else {
            Err(PpuMemoryError::UnmappedWrite(address))
        }
    }

    pub fn new(rom: &'a Rom) -> (r: PpuMemory<'a>)
        ensures
            r.rom == rom,
            forall|i: int| 0 <= i < SPRITE_COUNT ==> #[trigger] r.oam[i] == (Sprite { y: 0xFF, number: 0, mask: 0, x: 0 }),
            forall|page: int, index: int| 0 <= page < 4 && 0 <= index < 0x400 ==> #[trigger] r.names[page].contents[index] == 0,
            r.palette.background_solid == 0,
            forall|page: int, index: int|
                0 <= page < 4 && 0 <= index < 3 ==> r.palette.background[page][index] == 0 && r.palette.sprite[page][index] == 0,
    {
        let blank = Sprite { y: 0xFF, number: 0, mask: 0, x: 0 };
        PpuMemory {
            rom,
            oam: [blank; 64],
            names: [
                NameTable { contents: [0; 0x400] },
                NameTable { contents: [0; 0x400] },
                NameTable { contents: [0; 0x400] },
                NameTable { contents: [0; 0x400] },
            ],
            palette: PaletteMemory::default(),
        }
    }
}

/// What a write to a name table stores, a read at the same address gives back.
pub proof fn lemma_name_table_read_after_write<'a>(
    before: PpuMemory<'a>,
    after: PpuMemory<'a>,
    address: u16,
    value: u8,
    r: Result<(), PpuMemoryError>,
)
    requires
        0x2000 <= address <= 0x3EFF,
        before.spec_write(after, address, value, r),
    ensures
        after.spec_read(address) == Ok::<u8, PpuMemoryError>(value),
{
    let page = name_table_page(address);
    let index = name_table_index(address);
    assert(0 <= page < 4 && 0 <= index < 0x400);
    assert(after.names[page].contents[index] == value);
}

/// A write to a name table leaves every other name table cell as it was.
pub proof fn lemma_name_table_write_is_local<'a>(
    before: PpuMemory<'a>,
    after: PpuMemory<'a>,
    address: u16,
    other: u16,
    value: u8,
    r: Result<(), PpuMemoryError>,
)
    requires
        0x2000 <= address <= 0x3EFF,
        0x2000 <= other <= 0x3EFF,
        name_table_page(address) != name_table_page(other) || name_table_index(address) != name_table_index(other),
        before.spec_write(after, address, value, r),
    ensures
        after.spec_read(other) == before.spec_read(other),
{
    let page = name_table_page(other);
    let index = name_table_index(other);
    assert(0 <= page < 4 && 0 <= index < 0x400);
    assert(after.names[page].contents[index] == before.names[page].contents[index]);
}

/// The name tables at 0x3000-0x3EFF mirror those at 0x2000-0x2EFF.
pub proof fn lemma_name_table_mirror<'a>(memory: PpuMemory<'a>, address: u16)
    requires
        0x2000 <= address <= 0x2EFF,
    ensures
        memory.spec_read((address + 0x1000) as u16) == memory.spec_read(address),
{
    assert(name_table_page((address + 0x1000) as u16) == name_table_page(address));
    assert(name_table_index((address + 0x1000) as u16) == name_table_index(address));
}

/// What a write to a palette colour slot stores, a read of the same slot, or
/// of any address that mirrors it every 0x20 bytes, gives back.
pub proof fn lemma_palette_read_after_write(
    before: PaletteMemory,
    after: PaletteMemory,
    address: u16,
    other: u16,
    value: u8,
)
    requires
        (address % 0x20) % 4 != 0,
        other % 0x20 == address % 0x20,
        before.spec_set(after, address, value),
    ensures
        after.spec_get(other) == Ok::<u8, PpuMemoryError>(value),
{
    let a = (address % 0x20) as int;
    if a < 0x10 {
        let page = (a - 1) / 4;
        let index = (a - 1) % 4;
        assert(PaletteMemory::background_address(page, index) == a);
        assert(after.background[page][index] == value);
    } else {
        let page = (a - 0x11) / 4;
        let index = (a - 0x11) % 4;
        assert(PaletteMemory::sprite_address(page, index) == a);
        assert(after.sprite[page][index] == value);
    }
}

/// What a write to 0x3F00 or 0x3F10 stores, a read of either gives back.
pub proof fn lemma_background_colour_read_after_write<'a>(
    before: PpuMemory<'a>,
    after: PpuMemory<'a>,
    address: u16,
    other: u16,
    value: u8,
    r: Result<(), PpuMemoryError>,
)
    requires
        address == 0x3F00 || address == 0x3F10,
        other == 0x3F00 || other == 0x3F10,
        before.spec_write(after, address, value, r),
    ensures
        after.spec_read(other) == Ok::<u8, PpuMemoryError>(value),
{
}

impl Default for PpuRegisters {
    fn default() -> (r: PpuRegisters)
        ensures
            r.control == ControlRegister::spec_from_bits(0),
            r.mask == MaskRegister::spec_from_bits(0),
            !r.status.sprite_hit,
            r.status.v_blank_hit,
            r.render == (RenderRegister { t: 0, v: 0, x: 0, w: false }),
            r.oam_address == 0,
            r.read_buffer == 0,
    {
        PpuRegisters {
            control: ControlRegister::default(),
            mask: MaskRegister::default(),
            status: StatusRegister::default(),
            render: RenderRegister::default(),
            oam_address: 0,
            read_buffer: 0,
        }
    }
}

/// The PPU registers bit by bit. PPUCTRL ($2000): bit 2 makes $2007 step
/// by 32 rather than 1, bit 3 picks the sprite pattern table, bit 4 the
/// background one, bit 5 tall sprites, bit 6 the colour output, bit 7 the NMI
/// at vertical blank. PPUMASK ($2001): bit 0 greyscale, bits 1 and 2 the
/// leftmost background and sprites, bits 3 and 4 the background and sprites,
/// bits 5 to 7 the red, green and blue emphasis. PPUSTATUS ($2002) reads
/// sprite 0 hit as 64 and vertical blank as 128.
pub proof fn lemma_register_bits(value: u8, status: StatusRegister)
    ensures
        ({
            let c = ControlRegister::spec_from_bits(value);
            &&& c.increment_32 == ((value / 4) % 2 == 1)
            &&& address_increment(c) == if (value / 4) % 2 == 1 { 32u16 } else { 1u16 }
            &&& c.base_sprite_pattern_table == ((value / 8) % 2 == 1)
            &&& c.base_background_pattern_table == ((value / 16) % 2 == 1)
            &&& c.sprite_size == ((value / 32) % 2 == 1)
            &&& c.ppu_color_ext == ((value / 64) % 2 == 1)
            &&& c.gen_nmi == (value >= 128)
        }),
        ({
            let m = MaskRegister::spec_from_bits(value);
            &&& m.greyscale == (value % 2 == 1)
            &&& m.show_background_leftmost == ((value / 2) % 2 == 1)
            &&& m.show_sprites_leftmost == ((value / 4) % 2 == 1)
            &&& m.show_background == ((value / 8) % 2 == 1)
            &&& m.show_sprites == ((value / 16) % 2 == 1)
            &&& m.emphasize_red == ((value / 32) % 2 == 1)
            &&& m.emphasize_green == ((value / 64) % 2 == 1)
            &&& m.emphasize_blue == (value >= 128)
        }),
        status.spec_bits() as int == (if status.sprite_hit { 64int } else { 0 }) + (if status.v_blank_hit { 128int } else { 0 }),
{
    assert({
        &&& (value & 0b0000_0001 != 0) == (value % 2 == 1)
        &&& (value & 0b0000_0010 != 0) == ((value / 2) % 2 == 1)
        &&& (value & 0b0000_0100 != 0) == ((value / 4) % 2 == 1)
        &&& (value & 0b0000_1000 != 0) == ((value / 8) % 2 == 1)
        &&& (value & 0b0001_0000 != 0) == ((value / 16) % 2 == 1)
        &&& (value & 0b0010_0000 != 0) == ((value / 32) % 2 == 1)
        &&& (value & 0b0100_0000 != 0) == ((value / 64) % 2 == 1)
        &&& (value & 0b1000_0000 != 0) == (value >= 128)
        &&& (0b0100_0000u8 | 0b1000_0000u8) == 192u8
        &&& (0b0100_0000u8 | 0u8) == 64u8
        &&& (0u8 | 0b1000_0000u8) == 128u8
        &&& (0u8 | 0u8) == 0u8
    }) by (bit_vector);
}

/// The step by which `v` moves after an access through $2007.
pub open spec fn address_increment(control: ControlRegister) -> u16 {
    if control.increment_32 { 32 } else { 1 }
}

impl<'a> Ppu<'a> {
    /// The OAM byte that `oam_address` selects.
    pub open spec fn spec_oam_byte(self) -> u8 {
        self.memory.oam[(self.registers.oam_address / 4) as int].byte((self.registers.oam_address % 4) as int)
    }

    /// The registers after `value` is written to the register at `address`
    /// (one of $2000, $2001, $2003, $2005, $2006).
    pub open spec fn spec_register_write(self, address: u16, value: u8) -> PpuRegisters {
        if address == 0x2000 {
            PpuRegisters {
                control: ControlRegister::spec_from_bits(value),
                render: self.registers.render.spec_write_control(value),
                ..self.registers
            }
        } else if address == 0x2001 {
            PpuRegisters { mask: MaskRegister::spec_from_bits(value), ..self.registers }
        } else if address == 0x2003 {
            PpuRegisters { oam_address: value, ..self.registers }
        } else if address == 0x2005 {
            PpuRegisters { render: self.registers.render.spec_write_scroll(value), ..self.registers }
        } else {
            PpuRegisters { render: self.registers.render.spec_write_address(value), ..self.registers }
        }
    }

    /// OAM after `value` is written through $2004.
    pub open spec fn spec_oam_after_write(self, value: u8) -> Seq<Sprite> {
        self.memory.oam@.update(
            (self.registers.oam_address / 4) as int,
            self.memory.oam[(self.registers.oam_address / 4) as int].with_byte((self.registers.oam_address % 4) as int, value),
        )
    }

    pub fn write_ctrl(&mut self, value: u8)
        ensures
            final(self).registers == old(self).spec_register_write(0x2000, value),
            final(self).memory == old(self).memory,
    {
        self.registers.control = ControlRegister::from_bits(value);
        self.registers.render.write_control(value)
    }

    pub fn write_mask(&mut self, value: u8)
        ensures
            final(self).registers == old(self).spec_register_write(0x2001, value),
            final(self).memory == old(self).memory,
    {
        self.registers.mask = MaskRegister::from_bits(value);
    }

    /// Reads $2002: the status bits; clears the write latch.
    pub fn read_status(&mut self) -> (r: u8)
        ensures
            r == old(self).registers.status.spec_bits(),
            final(self).registers == (PpuRegisters {
                render: RenderRegister { w: false, ..old(self).registers.render },
                ..old(self).registers
            }),
            final(self).memory == old(self).memory,
    {
        self.registers.render.read_status();
        self.registers.status.bits()
    }

    pub fn write_oam_address(&mut self, value: u8)
        ensures
            final(self).registers == old(self).spec_register_write(0x2003, value),
            final(self).memory == old(self).memory,
    {
        self.registers.oam_address = value;
    }

    /// Reads $2004: the OAM byte at `oam_address`.
    pub fn read_oam_data(&mut self) -> (r: u8)
        ensures
            r == old(self).spec_oam_byte(),
            *final(self) == *old(self),
    {
        let sprite = self.registers.oam_address / 4;
        let index = self.registers.oam_address % 4;
        self.memory.oam[sprite as usize].read(index)
    }

    /// Writes $2004: replaces the OAM byte at `oam_address`.
    pub fn write_oam_data(&mut self, value: u8)
        ensures
            final(self).registers == old(self).registers,
            final(self).memory.rom == old(self).memory.rom,
            final(self).memory.names == old(self).memory.names,
            final(self).memory.palette == old(self).memory.palette,
            final(self).memory.oam@ == old(self).spec_oam_after_write(value),
    {
        let sprite = (self.registers.oam_address / 4) as usize;
        let index = self.registers.oam_address % 4;
        let mut entry = self.memory.oam[sprite];
        entry.write(index, value);
        self.memory.oam[sprite] = entry;
    }

    pub fn write_scroll(&mut self, value: u8)
        ensures
            final(self).registers == old(self).spec_register_write(0x2005, value),
            final(self).memory == old(self).memory,
    {
        self.registers.render.write_scroll(value)
    }

    pub fn write_address(&mut self, value: u8)
        ensures
            final(self).registers == old(self).spec_register_write(0x2006, value),
            final(self).memory == old(self).memory,
    {
        self.registers.render.write_address(value)
    }

    /// Writes $2007: stores `value` at `v`, then moves `v` on by 1 or 32
    /// (wrapping). A failed store changes nothing.
    pub fn write_data(&mut self, value: u8) -> (r: Result<(), PpuMemoryError>)
        ensures
            old(self).memory.spec_write(final(self).memory, old(self).registers.render.v, value, r),
            r is Ok ==> final(self).registers == (PpuRegisters {
                render: RenderRegister {
                    v: old(self).registers.render.v.wrapping_add(address_increment(old(self).registers.control)),
                    ..old(self).registers.render
                },
                ..old(self).registers
            }),
            r is Err ==> final(self).registers == old(self).registers,
    {
        let address = self.registers.render.v;
        match self.memory.write(address, value) {
            Ok(()) => {},
            Err(e) => {
                return Err(e);
            },
        }
        let step: u16 = if self.registers.control.increment_32 { 32 } else { 1 };
        self.registers.render.v = self.registers.render.v.wrapping_add(step);
        Ok(())
    }

    /// Reads $2007: returns the buffered byte and refills the buffer from
    /// `v`, then moves `v` on by 1 or 32 (wrapping). A failed read changes nothing.
    pub fn read_data(&mut self) -> (r: Result<u8, PpuMemoryError>)
        ensures
            final(self).memory == old(self).memory,
            match old(self).memory.spec_read(old(self).registers.render.v) {
                Ok(byte) => {
                    &&& r == Ok::<u8, PpuMemoryError>(old(self).registers.read_buffer)
                    &&& final(self).registers == (PpuRegisters {
                        read_buffer: byte,
                        render: RenderRegister {
                            v: old(self).registers.render.v.wrapping_add(address_increment(old(self).registers.control)),
                            ..old(self).registers.render
                        },
                        ..old(self).registers
                    })
                },
                Err(e) => {
                    &&& r == Err::<u8, PpuMemoryError>(e)
                    &&& final(self).registers == old(self).registers
                },
            },
    {
        let result = self.registers.read_buffer;
        let address = self.registers.render.v;
        let byte = match self.memory.read(address) {
            Ok(byte) => byte,
            Err(e) => {
                return Err(e);
            },
        };
        self.registers.read_buffer = byte;
        let step: u16 = if self.registers.control.increment_32 { 32 } else { 1 };
        self.registers.render.v = self.registers.render.v.wrapping_add(step);
        Ok(result)
    }

    /// Replaces all of OAM: sprite `i` takes bytes `4i` to `4i + 3` of `data`.
    pub fn replace_oam(&mut self, data: [u8; 256])
        ensures
            final(self).registers == old(self).registers,
            final(self).memory.rom == old(self).memory.rom,
            final(self).memory.names == old(self).memory.names,
            final(self).memory.palette == old(self).memory.palette,
            forall|i: int|
                0 <= i < SPRITE_COUNT ==> #[trigger] final(self).memory.oam[i] == (Sprite {
                    y: data[4 * i],
                    number: data[4 * i + 1],
                    mask: data[4 * i + 2],
                    x: data[4 * i + 3],
                }),
    {
        let mut i: usize = 0;
        while i < SPRITE_COUNT
            invariant
                i <= SPRITE_COUNT,
                self.registers == old(self).registers,
                self.memory.rom == old(self).memory.rom,
                self.memory.names == old(self).memory.names,
                self.memory.palette == old(self).memory.palette,
                forall|k: int|
                    0 <= k < i ==> #[trigger] self.memory.oam[k] == (Sprite {
                        y: data[4 * k],
                        number: data[4 * k + 1],
                        mask: data[4 * k + 2],
                        x: data[4 * k + 3],
                    }),
            decreases SPRITE_COUNT - i,
        {
            self.memory.oam[i] = Sprite {
                y: data[i * 4],
                number: data[i * 4 + 1],
                mask: data[i * 4 + 2],
                x: data[i * 4 + 3],
            };
            i = i + 1;
        }
    }

    pub fn new(rom: &'a Rom) -> (r: Ppu<'a>)
        ensures
            r.memory.rom == rom,
            r.registers.render == (RenderRegister { t: 0, v: 0, x: 0, w: false }),
            r.registers.oam_address == 0,
            r.registers.read_buffer == 0,
            !r.registers.status.sprite_hit,
            r.registers.status.v_blank_hit,
            r.registers.control == ControlRegister::spec_from_bits(0),
            r.registers.mask == MaskRegister::spec_from_bits(0),
            forall|i: int| 0 <= i < SPRITE_COUNT ==> #[trigger] r.memory.oam[i] == (Sprite { y: 0xFF, number: 0, mask: 0, x: 0 }),
            forall|page: int, index: int| 0 <= page < 4 && 0 <= index < 0x400 ==> #[trigger] r.memory.names[page].contents[index] == 0,
    {
        Ppu { registers: PpuRegisters::default(), memory: PpuMemory::new(rom) }
    }
}

/// What a write to $2004 stores, a read of $2004 gives back (the OAM address
/// does not move).
pub proof fn lemma_oam_read_after_write<'a>(before: Ppu<'a>, after: Ppu<'a>, value: u8)
    requires
        after.registers == before.registers,
        after.memory.oam@ == before.spec_oam_after_write(value),
    ensures
        after.spec_oam_byte() == value,
{
}

} // verus!
