//! The 6502 core's registers, its interrupt vectors and the CPU itself.

use vstd::prelude::*;
use crate::controller::Controller;
use crate::memory::{Memory, is_plain_read};
use crate::rom::Rom;

verus! {

/// The processor status register P.
pub struct StatusRegister(u8);

impl View for StatusRegister {
    type V = u8;

    closed spec fn view(&self) -> u8 {
        self.0
    }
}

impl Clone for StatusRegister {
    fn clone(&self) -> (r: StatusRegister)
        ensures
            r@ == self@,
    {
        StatusRegister(self.0)
    }
}

impl StatusRegister {
    pub const CARRY: u8 = 0b0000_0001;
    pub const ZERO: u8 = 0b0000_0010;
    pub const INTERUPT: u8 = 0b0000_0100;
    pub const DECIMAL: u8 = 0b0000_1000;
    pub const BREAK: u8 = 0b0001_0000;
    pub const ENABLED: u8 = 0b0010_0000;
    pub const OVERFLOW: u8 = 0b0100_0000;
    pub const NEGATIVE: u8 = 0b1000_0000;

    pub fn empty() -> (r: StatusRegister)
        ensures
            r@ == 0,
    {
        StatusRegister(0)
    }

    pub fn from_bits_retain(bits: u8) -> (r: StatusRegister)
        ensures
            r@ == bits,
    {
        StatusRegister(bits)
    }

    pub fn bits(&self) -> (r: u8)
        ensures
            r == self@,
    {
        self.0
    }

    /// Every bit of `flag` is set.
    pub fn contains(&self, flag: u8) -> (r: bool)
        ensures
            r == (self@ & flag == flag),
    {
        self.0 & flag == flag
    }

    pub fn insert(&mut self, flag: u8)
        ensures
            final(self)@ == old(self)@ | flag,
    {
        self.0 = self.0 | flag;
    }

    pub fn remove(&mut self, flag: u8)
        ensures
            final(self)@ == old(self)@ & !flag,
    {
        self.0 = self.0 & !flag;
    }

    /// Sets or clears the bits of `flag`, as `value` says.
    pub fn set(&mut self, flag: u8, value: bool)
        ensures
            final(self)@ == spec_set_flag(old(self)@, flag, value),
    {
        if value {
            self.0 = self.0 | flag;
        } else {
            self.0 = self.0 & !flag;
        }
    }

    pub fn union(&self, flag: u8) -> (r: StatusRegister)
        ensures
            r@ == self@ | flag,
    {
        StatusRegister(self.0 | flag)
    }

    pub fn difference(&self, flag: u8) -> (r: StatusRegister)
        ensures
            r@ == self@ & !flag,
    {
        StatusRegister(self.0 & !flag)
    }
}

/// `p` with the bits of `flag` set when `value` holds, cleared otherwise.
pub open spec fn spec_set_flag(p: u8, flag: u8, value: bool) -> u8 {
    if value { p | flag } else { p & !flag }
}

pub struct Registers {
    pub pc: u16,
    pub a: u8,
    pub x: u8,
    pub y: u8,
    pub p: StatusRegister,
    pub sp: u8,
}

/// The registers as plain values.
pub struct RegisterFile {
    pub pc: u16,
    pub a: u8,
    pub x: u8,
    pub y: u8,
    pub p: u8,
    pub sp: u8,
}

impl View for Registers {
    type V = RegisterFile;

    open spec fn view(&self) -> RegisterFile {
        RegisterFile { pc: self.pc, a: self.a, x: self.x, y: self.y, p: self.p@, sp: self.sp }
    }
}

impl Clone for Registers {
    fn clone(&self) -> (r: Registers)
        ensures
            r@ == self@,
    {
        Registers { pc: self.pc, a: self.a, x: self.x, y: self.y, p: self.p.clone(), sp: self.sp }
    }
}

pub struct Vectors {
    pub nmi: u16,
    pub reset: u16,
    pub interrupt: u16,
}

pub struct Cpu<'a, C1: Controller, C2: Controller> {
    pub vectors: Vectors,
    pub registers: Registers,
    pub memory: Memory<'a, C1, C2>,
}

impl Registers {
    /// The registers at power-on: A, X, Y cleared, interrupts disabled,
    /// the stack pointer at $FD.
    pub fn new(pc: u16) -> (r: Registers)
        ensures
            r.pc == pc,
            r.a == 0,
            r.x == 0,
            r.y == 0,
            r.p@ == StatusRegister::ENABLED | StatusRegister::INTERUPT,
            r.sp == 0xFD,
    {
        Registers {
            pc,
            a: 0,
            x: 0,
            y: 0,
            p: StatusRegister::from_bits_retain(StatusRegister::ENABLED | StatusRegister::INTERUPT),
            sp: 0xFD,
        }
    }
}

/// The vector used where it cannot be read.
pub const DEFAULT_VECTOR: u16 = 0x8000;

/// The little-endian word at `address` of the PRG banks (where the vectors
/// at $FFFA-$FFFF always read plainly).
pub open spec fn prg_word<C1: Controller, C2: Controller>(memory: Memory<'_, C1, C2>, address: u16) -> u16 {
    (memory.plain_byte((address + 1) as u16) * 256 + memory.plain_byte(address)) as u16
}

impl Vectors {
    /// Reads the NMI, reset and IRQ vectors from $FFFA, $FFFC and $FFFE.
    pub fn new<C1: Controller, C2: Controller>(memory: &mut Memory<'_, C1, C2>) -> (r: Vectors)
        requires
            old(memory).wf(),
        ensures
            final(memory).wf(),
            old(memory).same_but_cycles(*final(memory)),
            final(memory).cycles == old(memory).cycles.wrapping_add(6),
            r.nmi == prg_word(*old(memory), 0xFFFA),
            r.reset == prg_word(*old(memory), 0xFFFC),
            r.interrupt == prg_word(*old(memory), 0xFFFE),
    {
        let nmi = match memory.get_short(0xFFFA) {
            Ok(value) => value,
            Err(_) => DEFAULT_VECTOR,
        };
        let reset = match memory.get_short(0xFFFC) {
            Ok(value) => value,
            Err(_) => DEFAULT_VECTOR,
        };
        let interrupt = match memory.get_short(0xFFFE) {
            Ok(value) => value,
            Err(_) => DEFAULT_VECTOR,
        };
        Vectors { nmi, reset, interrupt }
    }
}

impl<'a, C1: Controller, C2: Controller> Cpu<'a, C1, C2> {
    pub open spec fn wf(self) -> bool {
        self.memory.wf()
    }

    /// Powers on: reads the vectors, spends one more cycle, and starts at
    /// `pc` or, without one, at the reset vector.
    pub fn new(rom: &'a Rom, pc: Option<u16>, controllers: (C1, C2)) -> (r: Cpu<'a, C1, C2>)
        requires
            rom.prg_rom@.len() > 0,
        ensures
            r.wf(),
            r.memory.rom == rom,
            r.memory.controllers == controllers,
            r.memory.controller_cycles == (0u64, 0u64),
            forall|i: int| 0 <= i < 0x800 ==> r.memory.ram[i] == 0,
            forall|i: int| 0 <= i < 0x2000 ==> r.memory.saved[i] == 0,
            r.memory.cycles == 7,
            r.vectors.reset == prg_word(r.memory, 0xFFFC),
            r.vectors.nmi == prg_word(r.memory, 0xFFFA),
            r.vectors.interrupt == prg_word(r.memory, 0xFFFE),
            r.registers.pc == match pc {
                Some(pc) => pc,
                None => r.vectors.reset,
            },
            r.registers.a == 0,
            r.registers.x == 0,
            r.registers.y == 0,
            r.registers.sp == 0xFD,
            r.registers.p@ == StatusRegister::ENABLED | StatusRegister::INTERUPT,
    {
        let mut memory = Memory::new(rom, controllers);
        let vectors = Vectors::new(&mut memory);
        memory.cycle();
        let start = match pc {
            Some(pc) => pc,
            None => vectors.reset,
        };
        Cpu { registers: Registers::new(start), vectors, memory }
    }
}

} // verus!
