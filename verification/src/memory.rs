//! The CPU's view of the address space: 2 KiB of RAM mirrored up to $1FFF,
//! the PPU registers at $2000-$2007, the APU and controller ports at
//! $4000-$4017, 8 KiB of cartridge RAM at $6000-$7FFF and the PRG banks from
//! $8000, mirrored to fill the space.

use vstd::prelude::*;
pub use crate::controller::{Controller, NoController};
use crate::ppu::{Ppu, PpuMemoryError, PpuRegisters, RenderRegister, Sprite, SPRITE_COUNT, address_increment};
use crate::hex::{append_hex4, hex4};
use crate::rom::Rom;

verus! {

#[derive(Clone, Copy, Debug, PartialEq, Eq, Structural)]
pub enum MemoryError {
    UnmappedRead(u16),
    UnmappedWrite(u16),
    PpuError(PpuMemoryError),
}

impl MemoryError {
    pub fn from_ppu(value: PpuMemoryError) -> (r: MemoryError)
        ensures
            r == MemoryError::PpuError(value),
    {
        MemoryError::PpuError(value)
    }

    /// The error in words.
    pub open spec fn spec_message(self) -> Seq<char> {
        match self {
            MemoryError::UnmappedRead(address) => "Unmapped read to $"@ + hex4(address as int),
            MemoryError::UnmappedWrite(address) => "Unmapped write to $"@ + hex4(address as int),
            MemoryError::PpuError(error) => error.spec_message(),
        }
    }

    pub fn message(&self) -> (r: String)
        ensures
            r@ == self.spec_message(),
    {
        match *self {
            MemoryError::UnmappedRead(address) => {
                let mut s = String::from_str("Unmapped read to $");
                append_hex4(&mut s, address);
                s
            },
            MemoryError::UnmappedWrite(address) => {
                let mut s = String::from_str("Unmapped write to $");
                append_hex4(&mut s, address);
                s
            },
            MemoryError::PpuError(error) => error.message(),
        }
    }
}

pub struct Memory<'a, C1: Controller, C2: Controller> {
    pub cycles: u64,
    pub ram: [u8; 0x800],
    pub rom: &'a Rom,
    pub ppu: Ppu<'a>,
    /// Cartridge RAM at $6000-$7FFF.
    pub saved: [u8; 0x2000],
    pub controllers: (C1, C2),
    /// How many times each controller port has been read.
    pub controller_cycles: (u64, u64),
}

/// `address` reads RAM, cartridge RAM, PRG or the APU status port: a read
/// there changes nothing but the cycle count.
pub open spec fn is_plain_read(address: u16) -> bool {
    address <= 0x1FFF || address == 0x4015 || 0x6000 <= address
}

/// `address` is one of the registers whose reads have effects.
pub open spec fn is_port_read(address: u16) -> bool {
    address == 0x2002 || address == 0x2004 || address == 0x2007 || address == 0x4016 || address == 0x4017
}

impl<'a, C1: Controller, C2: Controller> Memory<'a, C1, C2> {
    /// The cartridge has program data, and the PPU looks at the same
    /// cartridge as the CPU.
    pub open spec fn wf(self) -> bool {
        &&& self.rom.prg_rom@.len() > 0
        &&& self.ppu.memory.rom == self.rom
    }

    /// A read at `address` stays within the cartridge's data.
    pub open spec fn can_get(self, address: u16) -> bool {
        &&& 0x8000 <= address ==> self.rom.prg_rom@.len() > 0
    }

    /// The byte at `address`, where `is_plain_read(address)`.
    pub open spec fn plain_byte(self, address: u16) -> u8 {
        if address <= 0x1FFF {
            self.ram[(address % 0x800) as int]
        } else if address == 0x4015 {
            0
        } else if address <= 0x7FFF {
            self.saved[(address - 0x6000) as int]
        } else {
            self.rom.prg_rom@[((address - 0x8000) as int) % (self.rom.prg_rom@.len() as int)]
        }
    }

    /// Controllers whose reads leave them as they are, are as they were.
    pub open spec fn controllers_kept(self, other: Self) -> bool {
        &&& C1::reads_keep_state() ==> other.controllers.0 == self.controllers.0
        &&& C2::reads_keep_state() ==> other.controllers.1 == self.controllers.1
    }

    /// `other` differs from this memory at most in its cycle count.
    pub open spec fn same_but_cycles(self, other: Self) -> bool {
        &&& other.ram == self.ram
        &&& other.rom == self.rom
        &&& other.ppu == self.ppu
        &&& other.saved == self.saved
        &&& other.controllers == self.controllers
        &&& other.controller_cycles == self.controller_cycles
    }

    /// `other` differs from this memory at most in its cycle count and RAM.
    pub open spec fn same_but_ram(self, other: Self) -> bool {
        &&& other.rom == self.rom
        &&& other.ppu == self.ppu
        &&& other.saved == self.saved
        &&& other.controllers == self.controllers
        &&& other.controller_cycles == self.controller_cycles
    }

    /// `other` differs from this memory at most in its cycle count and PPU.
    pub open spec fn same_but_ppu(self, other: Self) -> bool {
        &&& other.ram == self.ram
        &&& other.rom == self.rom
        &&& other.ppu.memory.rom == self.ppu.memory.rom
        &&& other.saved == self.saved
        &&& other.controllers == self.controllers
        &&& other.controller_cycles == self.controller_cycles
    }

    /// What a read of `address` returned (`r`) and left behind (`new`),
    /// the cycle count aside.
    pub open spec fn spec_pass_get(self, new: Self, address: u16, r: Result<u8, MemoryError>) -> bool {
        if is_plain_read(address) {
            &&& r == Ok::<u8, MemoryError>(self.plain_byte(address))
            &&& self.same_but_cycles(new)
        } else if address == 0x2002 {
            &&& r == Ok::<u8, MemoryError>(self.ppu.registers.status.spec_bits())
            &&& self.same_but_ppu(new)
            &&& new.ppu.memory == self.ppu.memory
            &&& new.ppu.registers == (PpuRegisters {
                render: RenderRegister { w: false, ..self.ppu.registers.render },
                ..self.ppu.registers
            })
        } else if address == 0x2004 {
            &&& r == Ok::<u8, MemoryError>(self.ppu.spec_oam_byte())
            &&& self.same_but_cycles(new)
        } else if address == 0x2007 {
            &&& self.same_but_ppu(new)
            &&& new.ppu.memory == self.ppu.memory
            &&& match self.ppu.memory.spec_read(self.ppu.registers.render.v) {
                Ok(byte) => {
                    &&& r == Ok::<u8, MemoryError>(self.ppu.registers.read_buffer)
                    &&& new.ppu.registers == (PpuRegisters {
                        read_buffer: byte,
                        render: RenderRegister {
                            v: self.ppu.registers.render.v.wrapping_add(address_increment(self.ppu.registers.control)),
                            ..self.ppu.registers.render
                        },
                        ..self.ppu.registers
                    })
                },
                Err(e) => {
                    &&& r == Err::<u8, MemoryError>(MemoryError::PpuError(e))
                    &&& new.ppu.registers == self.ppu.registers
                },
            }
        } else if address == 0x4016 {
            &&& r matches Ok(bit) && self.controllers.0.reports(self.controller_cycles.0, bit)
            &&& new.ram == self.ram
            &&& new.rom == self.rom
            &&& new.ppu == self.ppu
            &&& new.saved == self.saved
            &&& C1::reads_keep_state() ==> new.controllers.0 == self.controllers.0
            &&& new.controllers.1 == self.controllers.1
            &&& new.controller_cycles == (self.controller_cycles.0.wrapping_add(1), self.controller_cycles.1)
        } else if address == 0x4017 {
            &&& r matches Ok(bit) && self.controllers.1.reports(self.controller_cycles.1, bit)
            &&& new.ram == self.ram
            &&& new.rom == self.rom
            &&& new.ppu == self.ppu
            &&& new.saved == self.saved
            &&& new.controllers.0 == self.controllers.0
            &&& C2::reads_keep_state() ==> new.controllers.1 == self.controllers.1
            &&& new.controller_cycles == (self.controller_cycles.0, self.controller_cycles.1.wrapping_add(1))
        } else {
            &&& r == Err::<u8, MemoryError>(MemoryError::UnmappedRead(address))
            &&& self.same_but_cycles(new)
        }
    }

    /// `memories` are the states between, and `bytes` the results of, the
    /// first `bytes.len()` reads of OAM DMA from `page`.
    pub open spec fn dma_chain(memories: Seq<Self>, page: u8, bytes: Seq<u8>) -> bool {
        &&& memories.len() == bytes.len() + 1
        &&& forall|k: int|
            #![trigger bytes[k]]
            0 <= k < bytes.len() ==> memories[k].spec_pass_get(
                memories[k + 1],
                (page as int * 256 + k) as u16,
                Ok(bytes[k]),
            )
    }

    /// What OAM DMA from `page` returns (`r`) and leaves (`new`), the cycle
    /// count aside: the 256 bytes of the page are read in turn; where all the
    /// reads succeed, sprite `i` takes bytes `4i` to `4i + 3`, and where one
    /// fails, the copy stops there with its error and OAM as it was.
    pub open spec fn spec_dma(self, new: Self, page: u8, r: Result<(), MemoryError>) -> bool {
        exists|memories: Seq<Self>, bytes: Seq<u8>|
            #[trigger] Self::dma_chain(memories, page, bytes) && self.same_but_cycles(memories[0]) && match r {
                Ok(()) => {
                    let last = memories.last();
                    &&& bytes.len() == 256
                    &&& new.ram == last.ram
                    &&& new.rom == last.rom
                    &&& new.saved == last.saved
                    &&& new.controllers == last.controllers
                    &&& new.controller_cycles == last.controller_cycles
                    &&& new.ppu.registers == last.ppu.registers
                    &&& new.ppu.memory.rom == last.ppu.memory.rom
                    &&& new.ppu.memory.names == last.ppu.memory.names
                    &&& new.ppu.memory.palette == last.ppu.memory.palette
                    &&& forall|i: int|
                        0 <= i < SPRITE_COUNT ==> #[trigger] new.ppu.memory.oam[i] == (Sprite {
                            y: bytes[4 * i],
                            number: bytes[4 * i + 1],
                            mask: bytes[4 * i + 2],
                            x: bytes[4 * i + 3],
                        })
                },
                Err(e) => {
                    &&& bytes.len() < 256
                    &&& memories.last().spec_pass_get(new, (page as int * 256 + bytes.len()) as u16, Err(e))
                },
            }
    }

    /// The sprite that OAM DMA from `page` copies into OAM slot `i`, where
    /// the page reads plainly.
    pub open spec fn dma_sprite(self, page: u8, i: int) -> Sprite {
        let base = (page as int) * 256 + 4 * i;
        Sprite {
            y: self.plain_byte(base as u16),
            number: self.plain_byte((base + 1) as u16),
            mask: self.plain_byte((base + 2) as u16),
            x: self.plain_byte((base + 3) as u16),
        }
    }

    /// Every address of `page` reads plainly.
    pub open spec fn is_plain_page(page: u8) -> bool {
        page < 0x20 || 0x60 <= page
    }

    /// What a write of `value` at `address` returned (`r`) and left behind
    /// (`new`), the cycle count aside. Where OAM DMA copies from a page with
    /// ports in it, only the cartridge is known to stay.
    pub open spec fn spec_pass_set(self, new: Self, address: u16, value: u8, r: Result<(), MemoryError>) -> bool {
        &&& new.rom == self.rom
        &&& self.controllers_kept(new)
        &&& if address <= 0x1FFF {
            &&& r is Ok
            &&& new.ram@ == self.ram@.update((address % 0x800) as int, value)
            &&& new.ppu == self.ppu
            &&& new.saved == self.saved
            &&& new.controllers == self.controllers
            &&& new.controller_cycles == self.controller_cycles
        } else if address == 0x2000 || address == 0x2001 || address == 0x2003 || address == 0x2005 || address == 0x2006 {
            &&& r is Ok
            &&& self.same_but_ppu(new)
            &&& new.ppu.memory == self.ppu.memory
            &&& new.ppu.registers == self.ppu.spec_register_write(address, value)
        } else if address == 0x2004 {
            &&& r is Ok
            &&& self.same_but_ppu(new)
            &&& new.ppu.registers == self.ppu.registers
            &&& new.ppu.memory.names == self.ppu.memory.names
            &&& new.ppu.memory.palette == self.ppu.memory.palette
            &&& new.ppu.memory.oam@ == self.ppu.spec_oam_after_write(value)
        } else if address == 0x2007 {
            &&& self.same_but_ppu(new)
            &&& exists|e: Result<(), crate::ppu::PpuMemoryError>| {
                &&& self.ppu.memory.spec_write(new.ppu.memory, self.ppu.registers.render.v, value, e)
                &&& match e {
                    Ok(()) => {
                        &&& r is Ok
                        &&& new.ppu.registers == (PpuRegisters {
                            render: RenderRegister {
                                v: self.ppu.registers.render.v.wrapping_add(address_increment(self.ppu.registers.control)),
                                ..self.ppu.registers.render
                            },
                            ..self.ppu.registers
                        })
                    },
                    Err(err) => {
                        &&& r == Err::<(), MemoryError>(MemoryError::PpuError(err))
                        &&& new.ppu.registers == self.ppu.registers
                    },
                }
            }
        } else if address == 0x4014 {
            &&& self.spec_dma(new, value, r)
            &&& Self::is_plain_page(value) ==> {
                &&& r is Ok
                &&& self.same_but_ppu(new)
                &&& new.ppu.registers == self.ppu.registers
                &&& new.ppu.memory.names == self.ppu.memory.names
                &&& new.ppu.memory.palette == self.ppu.memory.palette
                &&& forall|i: int| 0 <= i < SPRITE_COUNT ==> #[trigger] new.ppu.memory.oam[i] == self.dma_sprite(value, i)
            }
        } else if 0x4000 <= address <= 0x4017 {
            &&& r is Ok
            &&& self.same_but_cycles(new)
        } else if 0x6000 <= address <= 0x7FFF {
            &&& r is Ok
            &&& new.saved@ == self.saved@.update((address - 0x6000) as int, value)
            &&& new.ppu == self.ppu
            &&& new.ram == self.ram
            &&& new.controllers == self.controllers
            &&& new.controller_cycles == self.controller_cycles
        } else {
            &&& r == Err::<(), MemoryError>(MemoryError::UnmappedWrite(address))
            &&& self.same_but_cycles(new)
        }
    }

    pub fn cycle(&mut self)
        ensures
            final(self).cycles == old(self).cycles.wrapping_add(1),
            old(self).same_but_cycles(*final(self)),
    {
        self.cycles = self.cycles.wrapping_add(1);
    }

    pub fn cycle_many(&mut self, times: u64)
        ensures
            final(self).cycles == old(self).cycles.wrapping_add(times),
            old(self).same_but_cycles(*final(self)),
    {
        self.cycles = self.cycles.wrapping_add(times);
    }

    /// Reads `address` without spending a cycle.
    pub fn pass_get(&mut self, address: u16) -> (r: Result<u8, MemoryError>)
        requires
            old(self).can_get(address),
        ensures
            final(self).cycles == old(self).cycles,
            old(self).spec_pass_get(*final(self), address, r),
    {
        if address <= 0x1FFF {
            let target = (address % 0x800) as usize;
            Ok(self.ram[target])
        } else if address == 0x2002 {
            Ok(self.ppu.read_status())
        } else if address == 0x2004 {
            Ok(self.ppu.read_oam_data())
        } else if address == 0x2007 {
            match self.ppu.read_data() {
                Ok(value) => Ok(value),
                Err(e) => Err(MemoryError::from_ppu(e)),
            }
        } else if address == 0x4015 {
            Ok(0)
        } else if address == 0x4016 {
            let clock = self.controller_cycles.0;
            self.controller_cycles.0 = clock.wrapping_add(1);
            Ok(self.controllers.0.read(clock))
        } else if address == 0x4017 {
            let clock = self.controller_cycles.1;
            self.controller_cycles.1 = clock.wrapping_add(1);
            Ok(self.controllers.1.read(clock))
        } else if 0x6000 <= address && address <= 0x7FFF {
            let target = (address - 0x6000) as usize;
            Ok(self.saved[target])
        } else if 0x8000 <= address {
            let target = ((address - 0x8000) as usize) % self.rom.prg_rom.len();
            Ok(self.rom.prg_rom[target])
        } else {
            Err(MemoryError::UnmappedRead(address))
        }
    }

    /// Reads `address`, spending one cycle.
    pub fn get(&mut self, address: u16) -> (r: Result<u8, MemoryError>)
        requires
            old(self).can_get(address),
        ensures
            final(self).cycles == old(self).cycles.wrapping_add(1),
            old(self).spec_pass_get(*final(self), address, r),
    {
        self.cycle();
        self.pass_get(address)
    }

    /// Copies page `page` ($XX00-$XXFF) into OAM, reading each byte with a
    /// cycle and spending one more cycle after each byte and at the end.
    fn oam_dma(&mut self, page: u8) -> (r: Result<(), MemoryError>)
        requires
            old(self).wf(),
        ensures
            final(self).wf(),
            final(self).rom == old(self).rom,
            old(self).controllers_kept(*final(self)),
            old(self).spec_dma(*final(self), page, r),
            r is Ok ==> final(self).cycles == old(self).cycles.wrapping_add(513),
            Self::is_plain_page(page) ==> {
                &&& r is Ok
                &&& final(self).cycles == old(self).cycles.wrapping_add(513)
                &&& old(self).same_but_ppu(*final(self))
                &&& final(self).ppu.registers == old(self).ppu.registers
                &&& final(self).ppu.memory.names == old(self).ppu.memory.names
                &&& final(self).ppu.memory.palette == old(self).ppu.memory.palette
                &&& forall|i: int| 0 <= i < SPRITE_COUNT ==> #[trigger] final(self).ppu.memory.oam[i] == old(self).dma_sprite(page, i)
            },
    {
        let base_address: u16 = (page as u16) << 8;
        assert(base_address == page as int * 256) by (bit_vector)
            requires base_address == (page as u16) << 8u16;
        let mut oam = [0u8; 256];
        let mut i: usize = 0;
        let ghost mut memories: Seq<Self> = seq![*self];
        let ghost mut bytes: Seq<u8> = Seq::empty();
        while i < 256
            invariant
                0 <= i <= 256,
                base_address == page as int * 256,
                self.wf(),
                self.rom == old(self).rom,
                old(self).controllers_kept(*self),
                self.cycles == old(self).cycles.wrapping_add((2 * i) as u64),
                Self::dma_chain(memories, page, bytes),
                memories[0] == *old(self),
                memories.last() == *self,
                bytes.len() == i,
                forall|k: int| 0 <= k < i ==> #[trigger] oam[k] == bytes[k],
                Self::is_plain_page(page) ==> {
                    &&& old(self).same_but_cycles(*self)
                    &&& forall|k: int| 0 <= k < i ==> #[trigger] oam[k] == old(self).plain_byte((page as int * 256 + k) as u16)
                },
            decreases 256 - i,
        {
            let address = base_address + (i as u16);
            let ghost start = *self;
            let value = match self.get(address) {
                Ok(value) => value,
                Err(e) => {
                    assert(Self::dma_chain(memories, page, bytes));
                    return Err(e);
                },
            };
            let ghost after_get = *self;
            self.cycle();
            oam[i] = value;
            proof {
                lemma_pass_get_cycles(start, start, after_get, *self, address, Ok(value));
                let old_memories = memories;
                let old_bytes = bytes;
                memories = memories.push(*self);
                bytes = bytes.push(value);
                assert forall|k: int|
                    #![trigger bytes[k]]
                    0 <= k < bytes.len() implies memories[k].spec_pass_get(
                    memories[k + 1],
                    (page as int * 256 + k) as u16,
                    Ok(bytes[k]),
                ) by {
                    if k < old_bytes.len() {
                        assert(bytes[k] == old_bytes[k]);
                        assert(memories[k] == old_memories[k]);
                        assert(memories[k + 1] == old_memories[k + 1]);
                    }
                }
            }
            i = i + 1;
        }
        let ghost last = *self;
        self.ppu.replace_oam(oam);
        self.cycle();
        assert(Self::dma_chain(memories, page, bytes));
        Ok(())
    }

    /// Writes `value` at `address` without spending a cycle (OAM DMA spends its own).
    pub fn pass_set(&mut self, address: u16, value: u8) -> (r: Result<(), MemoryError>)
        requires
            old(self).wf(),
        ensures
            final(self).wf(),
            old(self).spec_pass_set(*final(self), address, value, r),
            address != 0x4014 ==> final(self).cycles == old(self).cycles,
            address == 0x4014 && r is Ok ==> final(self).cycles == old(self).cycles.wrapping_add(513),
            address == 0x4014 && Self::is_plain_page(value) ==> final(self).cycles == old(self).cycles.wrapping_add(513),
    {
        if address <= 0x1FFF {
            let target = (address % 0x800) as usize;
            self.ram[target] = value;
        } else if address == 0x2000 {
            self.ppu.write_ctrl(value);
        } else if address == 0x2001 {
            self.ppu.write_mask(value);
        } else if address == 0x2003 {
            self.ppu.write_oam_address(value);
        } else if address == 0x2004 {
            self.ppu.write_oam_data(value);
        } else if address == 0x2005 {
            self.ppu.write_scroll(value);
        } else if address == 0x2006 {
            self.ppu.write_address(value);
        } else if address == 0x2007 {
            match self.ppu.write_data(value) {
                Ok(()) => {},
                Err(e) => {
                    return Err(MemoryError::from_ppu(e));
                },
            }
        } else if address == 0x4014 {
            return self.oam_dma(value);
        } else if 0x4000 <= address && address <= 0x4017 {
            // APU registers and the controller strobe: no effect.
        } else if 0x6000 <= address && address <= 0x7FFF {
            let target = (address - 0x6000) as usize;
            self.saved[target] = value;
        } else {
            return Err(MemoryError::UnmappedWrite(address));
        }
        Ok(())
    }

    /// Writes `value` at `address`, spending one cycle first.
    pub fn set(&mut self, address: u16, value: u8) -> (r: Result<(), MemoryError>)
        requires
            old(self).wf(),
        ensures
            final(self).wf(),
            old(self).spec_pass_set(*final(self), address, value, r),
            address != 0x4014 ==> final(self).cycles == old(self).cycles.wrapping_add(1),
            address == 0x4014 && r is Ok ==> final(self).cycles == old(self).cycles.wrapping_add(1).wrapping_add(513),
            address == 0x4014 && Self::is_plain_page(value) ==> final(self).cycles == old(self).cycles.wrapping_add(1).wrapping_add(513),
    {
        self.cycle();
        self.pass_set(address, value)
    }

    /// Reads the little-endian word at `address` and `address + 1` (wrapping),
    /// spending two cycles.
    pub fn get_short(&mut self, address: u16) -> (r: Result<u16, MemoryError>)
        requires
            old(self).wf(),
        ensures
            final(self).wf(),
            final(self).rom == old(self).rom,
            is_plain_read(address) && is_plain_read(address.wrapping_add(1)) ==> {
                &&& r matches Ok(word) && word == old(self).plain_byte(address.wrapping_add(1)) * 256 + old(self).plain_byte(address)
                &&& old(self).same_but_cycles(*final(self))
                &&& final(self).cycles == old(self).cycles.wrapping_add(1).wrapping_add(1)
            },
            match r {
                Ok(word) => exists|middle: Self, low: u8, high: u8|
                    #![trigger old(self).spec_pass_get(middle, address, Ok(low)), middle.spec_pass_get(*final(self), address.wrapping_add(1), Ok(high))]
                    {
                        &&& old(self).spec_pass_get(middle, address, Ok(low))
                        &&& middle.spec_pass_get(*final(self), address.wrapping_add(1), Ok(high))
                        &&& word == high * 256 + low
                        &&& final(self).cycles == old(self).cycles.wrapping_add(1).wrapping_add(1)
                    },
                Err(e) => {
                    ||| old(self).spec_pass_get(*final(self), address, Err(e))
                    ||| exists|middle: Self, low: u8|
                        #![trigger old(self).spec_pass_get(middle, address, Ok(low))]
                        {
                            &&& old(self).spec_pass_get(middle, address, Ok(low))
                            &&& middle.spec_pass_get(*final(self), address.wrapping_add(1), Err(e))
                        }
                },
            },
    {
        let low_byte = match self.get(address) {
            Ok(value) => value,
            Err(e) => {
                return Err(e);
            },
        };
        let ghost middle = *self;
        let high_byte = match self.get(address.wrapping_add(1)) {
            Ok(value) => value,
            Err(e) => {
                assert(old(self).spec_pass_get(middle, address, Ok(low_byte)));
                return Err(e);
            },
        };
        assert(old(self).spec_pass_get(middle, address, Ok(low_byte)));
        assert(middle.spec_pass_get(*self, address.wrapping_add(1), Ok(high_byte)));
        let low = low_byte as u16;
        let high = high_byte as u16;
        assert((high << 8u16) | low == high * 256 + low) by (bit_vector)
            requires
                high < 256,
                low < 256;
        Ok((high << 8) | low)
    }

    pub fn new(rom: &'a Rom, controllers: (C1, C2)) -> (r: Self)
        ensures
            r.cycles == 0,
            r.rom == rom,
            r.controllers == controllers,
            r.controller_cycles == (0u64, 0u64),
            forall|i: int| 0 <= i < 0x800 ==> r.ram[i] == 0,
            forall|i: int| 0 <= i < 0x2000 ==> r.saved[i] == 0,
            r.ppu.memory.rom == rom,
            r.ppu.registers.render == (RenderRegister { t: 0, v: 0, x: 0, w: false }),
            rom.prg_rom@.len() > 0 ==> r.wf(),
    {
        Memory {
            cycles: 0,
            ram: [0; 0x800],
            ppu: Ppu::new(rom),
            rom,
            saved: [0; 0x2000],
            controllers,
            controller_cycles: (0, 0),
        }
    }
}

/// Reads are described up to the cycle count: a description still holds
/// when either end spends more cycles.
pub proof fn lemma_pass_get_cycles<'a, C1: Controller, C2: Controller>(
    a: Memory<'a, C1, C2>,
    a2: Memory<'a, C1, C2>,
    b: Memory<'a, C1, C2>,
    b2: Memory<'a, C1, C2>,
    address: u16,
    r: Result<u8, MemoryError>,
)
    requires
        a.same_but_cycles(a2),
        b.same_but_cycles(b2),
        a.spec_pass_get(b, address, r),
    ensures
        a2.spec_pass_get(b2, address, r),
{
}

/// Writes are described up to the cycle count: a description still holds
/// when either end spends more cycles.
pub proof fn lemma_pass_set_cycles<'a, C1: Controller, C2: Controller>(
    a: Memory<'a, C1, C2>,
    a2: Memory<'a, C1, C2>,
    b: Memory<'a, C1, C2>,
    b2: Memory<'a, C1, C2>,
    address: u16,
    value: u8,
    r: Result<(), MemoryError>,
)
    requires
        a.same_but_cycles(a2),
        b.same_but_cycles(b2),
        a.spec_pass_set(b, address, value, r),
    ensures
        a2.spec_pass_set(b2, address, value, r),
{
    assert forall|i: int| 0 <= i < crate::ppu::SPRITE_COUNT implies a.dma_sprite(value, i) == a2.dma_sprite(value, i) by {}
    if address == 0x4014 {
        let (memories, bytes) = choose|memories: Seq<Memory<'a, C1, C2>>, bytes: Seq<u8>|
            #[trigger] Memory::<'a, C1, C2>::dma_chain(memories, value, bytes) && a.same_but_cycles(memories[0])
                && match r {
                Ok(()) => {
                    let last = memories.last();
                    &&& bytes.len() == 256
                    &&& b.ram == last.ram
                    &&& b.rom == last.rom
                    &&& b.saved == last.saved
                    &&& b.controllers == last.controllers
                    &&& b.controller_cycles == last.controller_cycles
                    &&& b.ppu.registers == last.ppu.registers
                    &&& b.ppu.memory.rom == last.ppu.memory.rom
                    &&& b.ppu.memory.names == last.ppu.memory.names
                    &&& b.ppu.memory.palette == last.ppu.memory.palette
                    &&& forall|i: int|
                        0 <= i < SPRITE_COUNT ==> #[trigger] b.ppu.memory.oam[i] == (Sprite {
                            y: bytes[4 * i],
                            number: bytes[4 * i + 1],
                            mask: bytes[4 * i + 2],
                            x: bytes[4 * i + 3],
                        })
                },
                Err(e) => {
                    &&& bytes.len() < 256
                    &&& memories.last().spec_pass_get(b, (value as int * 256 + bytes.len()) as u16, Err(e))
                },
            };
        if let Err(e) = r {
            lemma_pass_get_cycles(
                memories.last(),
                memories.last(),
                b,
                b2,
                (value as int * 256 + bytes.len()) as u16,
                Err(e),
            );
        }
        assert(Memory::<'a, C1, C2>::dma_chain(memories, value, bytes));
    }
}

/// What a write to RAM ($0000-$1FFF) stores, a read of the same address or
/// any of its mirrors (every $800 bytes) gives back.
pub proof fn lemma_ram_read_after_write<'a, C1: Controller, C2: Controller>(
    before: Memory<'a, C1, C2>,
    after: Memory<'a, C1, C2>,
    address: u16,
    mirror: u16,
    value: u8,
    r: Result<(), MemoryError>,
)
    requires
        address <= 0x1FFF,
        mirror <= 0x1FFF,
        address % 0x800 == mirror % 0x800,
        before.spec_pass_set(after, address, value, r),
    ensures
        r is Ok,
        after.plain_byte(mirror) == value,
{
}

/// What a write to cartridge RAM ($6000-$7FFF) stores, a read gives back.
pub proof fn lemma_saved_read_after_write<'a, C1: Controller, C2: Controller>(
    before: Memory<'a, C1, C2>,
    after: Memory<'a, C1, C2>,
    address: u16,
    value: u8,
    r: Result<(), MemoryError>,
)
    requires
        0x6000 <= address <= 0x7FFF,
        before.spec_pass_set(after, address, value, r),
    ensures
        r is Ok,
        after.plain_byte(address) == value,
{
}

/// A write to RAM leaves every other RAM cell, and every non-RAM read, as it was.
pub proof fn lemma_ram_write_is_local<'a, C1: Controller, C2: Controller>(
    before: Memory<'a, C1, C2>,
    after: Memory<'a, C1, C2>,
    address: u16,
    other: u16,
    value: u8,
    r: Result<(), MemoryError>,
)
    requires
        address <= 0x1FFF,
        is_plain_read(other),
        !(other <= 0x1FFF && other % 0x800 == address % 0x800),
        before.spec_pass_set(after, address, value, r),
    ensures
        after.plain_byte(other) == before.plain_byte(other),
{
}

/// The PRG banks fill $8000-$FFFF: with one 16 KiB bank, $C000-$FFFF mirror $8000-$BFFF.
pub proof fn lemma_prg_mirror<'a, C1: Controller, C2: Controller>(memory: Memory<'a, C1, C2>, address: u16)
    requires
        memory.rom.prg_rom@.len() == 0x4000,
        0x8000 <= address <= 0xBFFF,
    ensures
        memory.plain_byte((address + 0x4000) as u16) == memory.plain_byte(address),
{
}

} // verus!
