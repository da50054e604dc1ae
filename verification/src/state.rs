//! Save states: plain copies of everything a running machine holds besides
//! its cartridge and controllers, and the way back to a running machine.

use vstd::prelude::*;
use crate::controller::Controller;
use crate::cpu::{Cpu, Registers, StatusRegister, Vectors};
use crate::memory::Memory;
use crate::ppu::{
    ControlRegister, MaskRegister, NameTable, Palette, PaletteMemory, Ppu, PpuMemory, PpuRegisters,
    RenderRegister, Sprite, StatusRegister as PpuStatusRegister,
};
use crate::rom::Rom;

verus! {

/// The saved form of the CPU registers, with the status flags as a byte.
#[derive(Clone, Copy, Debug, PartialEq, Eq, Structural)]
pub struct CpuRegisters {
    pub pc: u16,
    pub a: u8,
    pub x: u8,
    pub y: u8,
    pub p: u8,
    pub sp: u8,
}

impl CpuRegisters {
    pub open spec fn saved(value: Registers) -> CpuRegisters {
        CpuRegisters { pc: value.pc, a: value.a, x: value.x, y: value.y, p: value.p@, sp: value.sp }
    }

    pub fn from_registers(value: &Registers) -> (r: CpuRegisters)
        ensures
            r == CpuRegisters::saved(*value),
    {
        CpuRegisters { pc: value.pc, a: value.a, x: value.x, y: value.y, p: value.p.bits(), sp: value.sp }
    }

    pub fn to_registers(&self) -> (r: Registers)
        ensures
            r@ == (crate::cpu::RegisterFile { pc: self.pc, a: self.a, x: self.x, y: self.y, p: self.p, sp: self.sp }),
    {
        Registers {
            pc: self.pc,
            a: self.a,
            x: self.x,
            y: self.y,
            p: StatusRegister::from_bits_retain(self.p),
            sp: self.sp,
        }
    }
}

/// The saved form of one sprite of object attribute memory.
#[derive(Clone, Copy, Debug, PartialEq, Eq, Structural)]
pub struct PpuStateSprite {
    pub y: u8,
    pub number: u8,
    pub mask: u8,
    pub x: u8,
}

/// The saved form of the PPU control register.
#[derive(Clone, Copy, Debug, PartialEq, Eq, Structural)]
pub struct PpuStateControlRegister {
    pub increment_32: bool,
    pub base_sprite_pattern_table: bool,
    pub base_background_pattern_table: bool,
    pub sprite_size: bool,
    pub ppu_color_ext: bool,
    pub gen_nmi: bool,
}

/// The saved form of the PPU mask register.
#[derive(Clone, Copy, Debug, PartialEq, Eq, Structural)]
pub struct PpuStateMaskRegister {
    pub greyscale: bool,
    pub show_background_leftmost: bool,
    pub show_sprites_leftmost: bool,
    pub show_background: bool,
    pub show_sprites: bool,
    pub emphasize_red: bool,
    pub emphasize_green: bool,
    pub emphasize_blue: bool,
}

/// The saved form of the PPU status register.
#[derive(Clone, Copy, Debug, PartialEq, Eq, Structural)]
pub struct PpuStateStatusRegister {
    pub sprite_hit: bool,
    pub v_blank_hit: bool,
}

/// The saved form of the PPU scroll and address registers.
#[derive(Clone, Copy, Debug, PartialEq, Eq, Structural)]
pub struct PpuStateRenderRegister {
    pub t: u16,
    pub v: u16,
    pub x: u8,
    pub w: bool,
}

impl PpuStateSprite {
    pub open spec fn saved(value: Sprite) -> PpuStateSprite {
        PpuStateSprite { y: value.y, number: value.number, mask: value.mask, x: value.x }
    }

    pub open spec fn live(self) -> Sprite {
        Sprite { y: self.y, number: self.number, mask: self.mask, x: self.x }
    }

    pub fn from_live(value: &Sprite) -> (r: PpuStateSprite)
        ensures
            r == PpuStateSprite::saved(*value),
    {
        PpuStateSprite { y: value.y, number: value.number, mask: value.mask, x: value.x }
    }

    pub fn to_live(&self) -> (r: Sprite)
        ensures
            r == self.live(),
    {
        Sprite { y: self.y, number: self.number, mask: self.mask, x: self.x }
    }
}

impl PpuStateControlRegister {
    pub open spec fn saved(value: ControlRegister) -> PpuStateControlRegister {
        PpuStateControlRegister { increment_32: value.increment_32, base_sprite_pattern_table: value.base_sprite_pattern_table, base_background_pattern_table: value.base_background_pattern_table, sprite_size: value.sprite_size, ppu_color_ext: value.ppu_color_ext, gen_nmi: value.gen_nmi }
    }

    pub open spec fn live(self) -> ControlRegister {
        ControlRegister { increment_32: self.increment_32, base_sprite_pattern_table: self.base_sprite_pattern_table, base_background_pattern_table: self.base_background_pattern_table, sprite_size: self.sprite_size, ppu_color_ext: self.ppu_color_ext, gen_nmi: self.gen_nmi }
    }

    pub fn from_live(value: &ControlRegister) -> (r: PpuStateControlRegister)
        ensures
            r == PpuStateControlRegister::saved(*value),
    {
        PpuStateControlRegister { increment_32: value.increment_32, base_sprite_pattern_table: value.base_sprite_pattern_table, base_background_pattern_table: value.base_background_pattern_table, sprite_size: value.sprite_size, ppu_color_ext: value.ppu_color_ext, gen_nmi: value.gen_nmi }
    }

    pub fn to_live(&self) -> (r: ControlRegister)
        ensures
            r == self.live(),
    {
        ControlRegister { increment_32: self.increment_32, base_sprite_pattern_table: self.base_sprite_pattern_table, base_background_pattern_table: self.base_background_pattern_table, sprite_size: self.sprite_size, ppu_color_ext: self.ppu_color_ext, gen_nmi: self.gen_nmi }
    }
}

impl PpuStateMaskRegister {
    pub open spec fn saved(value: MaskRegister) -> PpuStateMaskRegister {
        PpuStateMaskRegister { greyscale: value.greyscale, show_background_leftmost: value.show_background_leftmost, show_sprites_leftmost: value.show_sprites_leftmost, show_background: value.show_background, show_sprites: value.show_sprites, emphasize_red: value.emphasize_red, emphasize_green: value.emphasize_green, emphasize_blue: value.emphasize_blue }
    }

    pub open spec fn live(self) -> MaskRegister {
        MaskRegister { greyscale: self.greyscale, show_background_leftmost: self.show_background_leftmost, show_sprites_leftmost: self.show_sprites_leftmost, show_background: self.show_background, show_sprites: self.show_sprites, emphasize_red: self.emphasize_red, emphasize_green: self.emphasize_green, emphasize_blue: self.emphasize_blue }
    }

    pub fn from_live(value: &MaskRegister) -> (r: PpuStateMaskRegister)
        ensures
            r == PpuStateMaskRegister::saved(*value),
    {
        PpuStateMaskRegister { greyscale: value.greyscale, show_background_leftmost: value.show_background_leftmost, show_sprites_leftmost: value.show_sprites_leftmost, show_background: value.show_background, show_sprites: value.show_sprites, emphasize_red: value.emphasize_red, emphasize_green: value.emphasize_green, emphasize_blue: value.emphasize_blue }
    }

    pub fn to_live(&self) -> (r: MaskRegister)
        ensures
            r == self.live(),
    {
        MaskRegister { greyscale: self.greyscale, show_background_leftmost: self.show_background_leftmost, show_sprites_leftmost: self.show_sprites_leftmost, show_background: self.show_background, show_sprites: self.show_sprites, emphasize_red: self.emphasize_red, emphasize_green: self.emphasize_green, emphasize_blue: self.emphasize_blue }
    }
}

impl PpuStateStatusRegister {
    pub open spec fn saved(value: PpuStatusRegister) -> PpuStateStatusRegister {
        PpuStateStatusRegister { sprite_hit: value.sprite_hit, v_blank_hit: value.v_blank_hit }
    }

    pub open spec fn live(self) -> PpuStatusRegister {
        PpuStatusRegister { sprite_hit: self.sprite_hit, v_blank_hit: self.v_blank_hit }
    }

    pub fn from_live(value: &PpuStatusRegister) -> (r: PpuStateStatusRegister)
        ensures
            r == PpuStateStatusRegister::saved(*value),
    {
        PpuStateStatusRegister { sprite_hit: value.sprite_hit, v_blank_hit: value.v_blank_hit }
    }

    pub fn to_live(&self) -> (r: PpuStatusRegister)
        ensures
            r == self.live(),
    {
        PpuStatusRegister { sprite_hit: self.sprite_hit, v_blank_hit: self.v_blank_hit }
    }
}

impl PpuStateRenderRegister {
    pub open spec fn saved(value: RenderRegister) -> PpuStateRenderRegister {
        PpuStateRenderRegister { t: value.t, v: value.v, x: value.x, w: value.w }
    }

    pub open spec fn live(self) -> RenderRegister {
        RenderRegister { t: self.t, v: self.v, x: self.x, w: self.w }
    }

    pub fn from_live(value: &RenderRegister) -> (r: PpuStateRenderRegister)
        ensures
            r == PpuStateRenderRegister::saved(*value),
    {
        PpuStateRenderRegister { t: value.t, v: value.v, x: value.x, w: value.w }
    }

    pub fn to_live(&self) -> (r: RenderRegister)
        ensures
            r == self.live(),
    {
        RenderRegister { t: self.t, v: self.v, x: self.x, w: self.w }
    }
}

/// The saved form of the PPU registers.
#[derive(Clone, Copy, Debug, PartialEq, Eq, Structural)]
pub struct PpuStateRegisters {
    pub control: PpuStateControlRegister,
    pub mask: PpuStateMaskRegister,
    pub status: PpuStateStatusRegister,
    pub render: PpuStateRenderRegister,
    pub oam_address: u8,
    pub read_buffer: u8,
}

impl PpuStateRegisters {
    pub open spec fn saved(value: PpuRegisters) -> PpuStateRegisters {
        PpuStateRegisters {
            control: PpuStateControlRegister::saved(value.control),
            mask: PpuStateMaskRegister::saved(value.mask),
            status: PpuStateStatusRegister::saved(value.status),
            render: PpuStateRenderRegister::saved(value.render),
            oam_address: value.oam_address,
            read_buffer: value.read_buffer,
        }
    }

    pub open spec fn live(self) -> PpuRegisters {
        PpuRegisters {
            control: self.control.live(),
            mask: self.mask.live(),
            status: self.status.live(),
            render: self.render.live(),
            oam_address: self.oam_address,
            read_buffer: self.read_buffer,
        }
    }

    pub fn from_live(value: &PpuRegisters) -> (r: PpuStateRegisters)
        ensures
            r == PpuStateRegisters::saved(*value),
    {
        PpuStateRegisters {
            control: PpuStateControlRegister::from_live(&value.control),
            mask: PpuStateMaskRegister::from_live(&value.mask),
            status: PpuStateStatusRegister::from_live(&value.status),
            render: PpuStateRenderRegister::from_live(&value.render),
            oam_address: value.oam_address,
            read_buffer: value.read_buffer,
        }
    }

    pub fn to_live(&self) -> (r: PpuRegisters)
        ensures
            r == self.live(),
    {
        PpuRegisters {
            control: self.control.to_live(),
            mask: self.mask.to_live(),
            status: self.status.to_live(),
            render: self.render.to_live(),
            oam_address: self.oam_address,
            read_buffer: self.read_buffer,
        }
    }
}

/// The saved form of one name table: its 0x400 bytes.
pub struct PpuStateNameTable {
    pub contents: Vec<u8>,
}

/// The saved form of the palettes.
#[derive(Clone, Copy, Debug)]
pub struct PpuStatePaletteMemory {
    pub background_solid: u8,
    pub background: [Palette; 4],
    pub sprite: [Palette; 4],
}

impl PpuStatePaletteMemory {
    pub open spec fn saved(value: PaletteMemory) -> PpuStatePaletteMemory {
        PpuStatePaletteMemory {
            background_solid: value.background_solid,
            background: value.background,
            sprite: value.sprite,
        }
    }

    pub open spec fn live(self) -> PaletteMemory {
        PaletteMemory { background_solid: self.background_solid, background: self.background, sprite: self.sprite }
    }

    pub fn from_live(value: &PaletteMemory) -> (r: PpuStatePaletteMemory)
        ensures
            r == PpuStatePaletteMemory::saved(*value),
    {
        PpuStatePaletteMemory {
            background_solid: value.background_solid,
            background: value.background,
            sprite: value.sprite,
        }
    }

    pub fn to_live(&self) -> (r: PaletteMemory)
        ensures
            r == self.live(),
    {
        PaletteMemory { background_solid: self.background_solid, background: self.background, sprite: self.sprite }
    }
}

/// The saved form of the PPU's own memory: 64 sprites, four name tables
/// and the palettes. Pattern data stays with the cartridge.
pub struct PpuStateMemory {
    pub oam: Vec<PpuStateSprite>,
    pub names: Vec<PpuStateNameTable>,
    pub palette: PpuStatePaletteMemory,
}

/// `v` holds the bytes of `a`.
pub fn bytes_of<const N: usize>(a: &[u8; N]) -> (v: Vec<u8>)
    ensures
        v@ == a@,
{
    let mut v: Vec<u8> = Vec::new();
    let mut i: usize = 0;
    while i < N
        invariant
            i <= N,
            a@.len() == N,
            v@ == a@.subrange(0, i as int),
        decreases N - i,
    {
        v.push(a[i]);
        i += 1;
    }
    v
}

/// The bytes of `v` as an array, where there are exactly `N` of them.
fn array_of<const N: usize>(v: &Vec<u8>) -> (a: Option<[u8; N]>)
    ensures
        a is Some <==> v@.len() == N,
        a matches Some(a) ==> a@ == v@,
{
    if v.len() != N {
        return None;
    }
    let mut a = [0u8; N];
    let mut i: usize = 0;
    while i < N
        invariant
            i <= N,
            v@.len() == N,
            a@.len() == N,
            forall|j: int| 0 <= j < i ==> a@[j] == v@[j],
        decreases N - i,
    {
        a[i] = v[i];
        i += 1;
    }
    assert(a@ =~= v@);
    Some(a)
}

impl PpuStateMemory {
    /// Every part has the size of the part it stands for.
    pub open spec fn is_complete(self) -> bool {
        &&& self.oam@.len() == 64
        &&& self.names@.len() == 4
        &&& forall|page: int| 0 <= page < 4 ==> #[trigger] self.names@[page].contents@.len() == 0x400
    }

    /// `self` is the saved form of `value`.
    pub open spec fn saves(self, value: PpuMemory) -> bool {
        &&& self.oam@.len() == 64
        &&& forall|i: int| 0 <= i < 64 ==> #[trigger] self.oam@[i] == PpuStateSprite::saved(value.oam[i])
        &&& self.names@.len() == 4
        &&& forall|page: int| 0 <= page < 4 ==> #[trigger] self.names@[page].contents@ == value.names[page].contents@
        &&& self.palette == PpuStatePaletteMemory::saved(value.palette)
    }

    /// `value` is the live form of `self`, on the cartridge `rom`.
    pub open spec fn restores_to<'a>(self, rom: &'a Rom, value: PpuMemory<'a>) -> bool {
        &&& value.rom == rom
        &&& forall|i: int| 0 <= i < 64 ==> #[trigger] value.oam[i] == self.oam@[i].live()
        &&& forall|page: int| 0 <= page < 4 ==> #[trigger] value.names[page].contents@ == self.names@[page].contents@
        &&& value.palette == self.palette.live()
    }

    pub fn from_live(value: &PpuMemory) -> (r: PpuStateMemory)
        ensures
            r.saves(*value),
    {
        let mut oam: Vec<PpuStateSprite> = Vec::new();
        let mut i: usize = 0;
        while i < 64
            invariant
                i <= 64,
                oam@.len() == i,
                forall|j: int| 0 <= j < i ==> #[trigger] oam@[j] == PpuStateSprite::saved(value.oam[j]),
            decreases 64 - i,
        {
            oam.push(PpuStateSprite::from_live(&value.oam[i]));
            i += 1;
        }
        let mut names: Vec<PpuStateNameTable> = Vec::new();
        let mut page: usize = 0;
        while page < 4
            invariant
                page <= 4,
                names@.len() == page,
                forall|j: int| 0 <= j < page ==> #[trigger] names@[j].contents@ == value.names[j].contents@,
            decreases 4 - page,
        {
            names.push(PpuStateNameTable { contents: bytes_of(&value.names[page].contents) });
            page += 1;
        }
        PpuStateMemory { oam, names, palette: PpuStatePaletteMemory::from_live(&value.palette) }
    }

    /// The live memory on the cartridge `rom`, or `None` where a part does
    /// not have the size of the part it stands for.
    pub fn restore<'a>(self, rom: &'a Rom) -> (r: Option<PpuMemory<'a>>)
        ensures
            r is Some <==> self.is_complete(),
            r matches Some(memory) ==> self.restores_to(rom, memory),
    {
        if self.oam.len() != 64 || self.names.len() != 4 {
            return None;
        }
        let blank = Sprite { y: 0xFF, number: 0, mask: 0, x: 0 };
        let mut oam = [blank; 64];
        let mut i: usize = 0;
        while i < 64
            invariant
                i <= 64,
                self.oam@.len() == 64,
                forall|j: int| 0 <= j < i ==> #[trigger] oam[j] == self.oam@[j].live(),
            decreases 64 - i,
        {
            oam[i] = self.oam[i].to_live();
            i += 1;
        }
        let mut names = [
            NameTable { contents: [0; 0x400] },
            NameTable { contents: [0; 0x400] },
            NameTable { contents: [0; 0x400] },
            NameTable { contents: [0; 0x400] },
        ];
        let mut page: usize = 0;
        while page < 4
            invariant
                page <= 4,
                self.names@.len() == 4,
                forall|j: int| 0 <= j < page ==> #[trigger] self.names@[j].contents@.len() == 0x400,
                forall|j: int| 0 <= j < page ==> #[trigger] names[j].contents@ == self.names@[j].contents@,
            decreases 4 - page,
        {
            match array_of::<0x400>(&self.names[page].contents) {
                Some(contents) => {
                    names[page] = NameTable { contents };
                },
                None => {
                    return None;
                },
            }
            page += 1;
        }
        Some(PpuMemory { rom, oam, names, palette: self.palette.to_live() })
    }
}

/// The saved form of the PPU.
pub struct PpuState {
    pub registers: PpuStateRegisters,
    pub memory: PpuStateMemory,
}

/// A save state: the CPU's RAM, registers and controller timing, and the PPU.
pub struct CpuState {
    pub ram: Vec<u8>,
    pub controller_cycles: (u64, u64),
    pub registers: CpuRegisters,
    pub ppu: PpuState,
}

impl CpuState {
    /// Every part has the size of the part it stands for.
    pub open spec fn is_complete(self) -> bool {
        &&& self.ram@.len() == 0x800
        &&& self.ppu.memory.is_complete()
    }

    /// `self` is the save state of `cpu`.
    pub open spec fn saves<C1: Controller, C2: Controller>(self, cpu: Cpu<'_, C1, C2>) -> bool {
        &&& self.ram@ == cpu.memory.ram@
        &&& self.controller_cycles == cpu.memory.controller_cycles
        &&& self.registers == CpuRegisters::saved(cpu.registers)
        &&& self.ppu.registers == PpuStateRegisters::saved(cpu.memory.ppu.registers)
        &&& self.ppu.memory.saves(cpu.memory.ppu.memory)
    }

    /// `cpu` is the machine that `self` restores on the cartridge `rom`,
    /// with `controllers` plugged in: nothing written to cartridge RAM yet,
    /// and six cycles spent reading the vectors.
    pub open spec fn restores_to<'a, C1: Controller, C2: Controller>(
        self,
        rom: &'a Rom,
        controllers: (C1, C2),
        cpu: Cpu<'a, C1, C2>,
    ) -> bool {
        &&& cpu.wf()
        &&& cpu.memory.rom == rom
        &&& cpu.memory.controllers == controllers
        &&& cpu.memory.cycles == 6
        &&& cpu.memory.ram@ == self.ram@
        &&& forall|i: int| 0 <= i < 0x2000 ==> cpu.memory.saved[i] == 0
        &&& cpu.memory.controller_cycles == self.controller_cycles
        &&& cpu.registers@ == (crate::cpu::RegisterFile {
            pc: self.registers.pc,
            a: self.registers.a,
            x: self.registers.x,
            y: self.registers.y,
            p: self.registers.p,
            sp: self.registers.sp,
        })
        &&& cpu.memory.ppu.registers == self.ppu.registers.live()
        &&& self.ppu.memory.restores_to(rom, cpu.memory.ppu.memory)
        &&& cpu.vectors.nmi == crate::cpu::prg_word(cpu.memory, 0xFFFA)
        &&& cpu.vectors.reset == crate::cpu::prg_word(cpu.memory, 0xFFFC)
        &&& cpu.vectors.interrupt == crate::cpu::prg_word(cpu.memory, 0xFFFE)
    }

    pub fn from_cpu<C1: Controller, C2: Controller>(value: &Cpu<'_, C1, C2>) -> (r: CpuState)
        ensures
            r.saves(*value),
    {
        CpuState {
            ram: bytes_of(&value.memory.ram),
            controller_cycles: value.memory.controller_cycles,
            registers: CpuRegisters::from_registers(&value.registers),
            ppu: PpuState {
                registers: PpuStateRegisters::from_live(&value.memory.ppu.registers),
                memory: PpuStateMemory::from_live(&value.memory.ppu.memory),
            },
        }
    }

    /// The machine this state describes, on the cartridge `rom` with
    /// `controllers` plugged in; `None` where a part of the state does not
    /// have the size of the part it stands for.
    pub fn restore<'a, C1: Controller, C2: Controller>(self, rom: &'a Rom, controllers: (C1, C2)) -> (r: Option<Cpu<'a, C1, C2>>)
        requires
            self.is_complete() ==> rom.prg_rom@.len() > 0,
        ensures
            r is Some <==> self.is_complete(),
            r matches Some(cpu) ==> self.restores_to(rom, controllers, cpu),
    {
        let ram = match array_of::<0x800>(&self.ram) {
            Some(ram) => ram,
            None => {
                return None;
            },
        };
        let ppu_memory = match self.ppu.memory.restore(rom) {
            Some(memory) => memory,
            None => {
                return None;
            },
        };
        let mut memory = Memory {
            cycles: 0,
            ram,
            rom,
            ppu: Ppu { registers: self.ppu.registers.to_live(), memory: ppu_memory },
            saved: [0; 0x2000],
            controllers,
            controller_cycles: self.controller_cycles,
        };
        let vectors = Vectors::new(&mut memory);
        Some(Cpu { vectors, registers: self.registers.to_registers(), memory })
    }
}

/// Restoring a save state gives back the machine it was taken of: the same
/// registers, RAM, controller timing, PPU registers, sprites, name tables
/// and palettes.
pub proof fn lemma_restore_after_save<'a, C1: Controller, C2: Controller>(
    state: CpuState,
    before: Cpu<'a, C1, C2>,
    rom: &'a Rom,
    controllers: (C1, C2),
    after: Cpu<'a, C1, C2>,
)
    requires
        state.saves(before),
        state.restores_to(rom, controllers, after),
    ensures
        state.is_complete(),
        after.registers@ == before.registers@,
        after.memory.ram == before.memory.ram,
        after.memory.controller_cycles == before.memory.controller_cycles,
        after.memory.ppu.registers == before.memory.ppu.registers,
        after.memory.ppu.memory.oam == before.memory.ppu.memory.oam,
        forall|page: int| 0 <= page < 4 ==> #[trigger] after.memory.ppu.memory.names[page].contents
            == before.memory.ppu.memory.names[page].contents,
        after.memory.ppu.memory.palette == before.memory.ppu.memory.palette,
{
    assert(after.memory.ram@ =~= before.memory.ram@);
    assert(after.memory.ppu.memory.oam@ =~= before.memory.ppu.memory.oam@);
    assert forall|page: int| 0 <= page < 4 implies #[trigger] after.memory.ppu.memory.names[page].contents
        == before.memory.ppu.memory.names[page].contents by {
        assert(after.memory.ppu.memory.names[page].contents@ =~= before.memory.ppu.memory.names[page].contents@);
    }
}

} // verus!
