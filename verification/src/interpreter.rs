//! Executes 6502 instructions against the CPU's registers and memory.

use vstd::prelude::*;
use crate::controller::Controller;
use crate::cpu::{Cpu, RegisterFile, Registers, StatusRegister, spec_set_flag};
use crate::decoder::{Decoder, Instruction, Mnemonic, Mode, decode_opcode, lemma_opcode_matrix, operand_length, spec_opcode, spec_operand_length};
use crate::hex::{append_hex2, hex2};
use crate::memory::{Memory, MemoryError, is_plain_read, lemma_pass_get_cycles, lemma_pass_set_cycles};

verus! {

#[derive(Clone, Copy, Debug, PartialEq, Eq, Structural)]
pub enum CpuError {
    InvalidOp(u8),
    Memory(MemoryError),
    Break,
    Stop,
}

impl CpuError {
    /// The error in words.
    pub open spec fn spec_message(self) -> Seq<char> {
        match self {
            CpuError::InvalidOp(op) => "Invalid OP code $"@ + hex2(op as int),
            CpuError::Memory(error) => error.spec_message(),
            CpuError::Break => "Hit break instruction"@,
            CpuError::Stop => "Hit stop instruction"@,
        }
    }

    pub fn message(&self) -> (r: String)
        ensures
            r@ == self.spec_message(),
    {
        match *self {
            CpuError::InvalidOp(op) => {
                let mut s = String::from_str("Invalid OP code $");
                append_hex2(&mut s, op);
                s
            },
            CpuError::Memory(error) => error.message(),
            CpuError::Break => String::from_str("Hit break instruction"),
            CpuError::Stop => String::from_str("Hit stop instruction"),
        }
    }
}

/// The stack lives in page 1.
pub const STACK_START: u16 = 0x100;

/// The cycle counter `k` cycles after `start` (wrapping).
pub open spec fn cycles_after(start: u64, k: nat) -> u64 {
    if start + k > u64::MAX {
        (start + k - 0x1_0000_0000_0000_0000) as u64
    } else {
        (start + k) as u64
    }
}

/// The program counter `k` bytes after `pc` (wrapping).
pub open spec fn pc_after(pc: u16, k: nat) -> u16 {
    if pc + k > u16::MAX {
        (pc + k - 0x1_0000) as u16
    } else {
        (pc + k) as u16
    }
}

/// Every opcode the decoder accepts names an instruction that can be carried out.
pub proof fn lemma_opcode_can_execute(op: u8, operand: u16)
    ensures
        spec_opcode(op) matches Some((mnemonic, mode)) ==> can_execute(Instruction { mnemonic, mode, operand }),
{
}

/// The little-endian pointer at `offset` and `offset + 1` (wrapping within
/// the zero page).
pub open spec fn zero_page_word(ram: [u8; 0x800], offset: u8) -> u16 {
    (ram[offset.wrapping_add(1) as int] * 256 + ram[offset as int]) as u16
}

/// Adding `offset` to the low byte of `address` carries into the high byte.
pub open spec fn crosses_page(address: u16, offset: u8) -> bool {
    (address as u8) + offset > 255
}

pub open spec fn bit_nat(b: bool) -> nat {
    if b { 1 } else { 0 }
}

/// The modes that address memory.
pub open spec fn is_memory_mode(mode: Mode) -> bool {
    match mode {
        Mode::ZeroPage | Mode::ZeroPageX | Mode::ZeroPageY | Mode::Absolute | Mode::AbsoluteX | Mode::AbsoluteY
        | Mode::IndirectX | Mode::IndirectY => true,
        _ => false,
    }
}

/// The address that `mode` and `operand` select.
pub open spec fn spec_address(r: RegisterFile, ram: [u8; 0x800], mode: Mode, operand: u16) -> u16 {
    match mode {
        Mode::ZeroPage => (operand as u8) as u16,
        Mode::ZeroPageX => (operand as u8).wrapping_add(r.x) as u16,
        Mode::ZeroPageY => (operand as u8).wrapping_add(r.y) as u16,
        Mode::AbsoluteX => operand.wrapping_add(r.x as u16),
        Mode::AbsoluteY => operand.wrapping_add(r.y as u16),
        Mode::IndirectX => zero_page_word(ram, (operand as u8).wrapping_add(r.x)),
        Mode::IndirectY => zero_page_word(ram, operand as u8).wrapping_add(r.y as u16),
        _ => operand,
    }
}

/// The cycles that reading the operand of `mode` takes.
pub open spec fn read_cycles(r: RegisterFile, ram: [u8; 0x800], mode: Mode, operand: u16) -> nat {
    match mode {
        Mode::ZeroPage | Mode::Absolute => 1,
        Mode::ZeroPageX | Mode::ZeroPageY => 2,
        Mode::AbsoluteX => 1 + bit_nat(crosses_page(operand, r.x)),
        Mode::AbsoluteY => 1 + bit_nat(crosses_page(operand, r.y)),
        Mode::IndirectX => 4,
        Mode::IndirectY => 3 + bit_nat(crosses_page(zero_page_word(ram, operand as u8), r.y)),
        _ => 0,
    }
}

/// The cycles that writing through `mode` takes.
pub open spec fn write_cycles(r: RegisterFile, ram: [u8; 0x800], mode: Mode, operand: u16) -> nat {
    match mode {
        Mode::IndirectX => 4,
        Mode::IndirectY => 3 + bit_nat(crosses_page(zero_page_word(ram, operand as u8), r.y)),
        _ => 1,
    }
}

/// The cycles that OAM DMA adds to a write of `value` at `address`.
pub open spec fn dma_cycles(address: u16) -> nat {
    if address == 0x4014 { 513 } else { 0 }
}

/// `p` with Z and N set from `value`.
pub open spec fn spec_nz(p: u8, value: u8) -> u8 {
    spec_set_flag(
        spec_set_flag(p, StatusRegister::ZERO, value == 0),
        StatusRegister::NEGATIVE,
        value & 0b1000_0000 != 0,
    )
}

/// ADC: `a + b + C`; the result and the new status. C is set when the
/// unsigned sum passes 255; V when both operands have the same sign and the
/// result's sign differs from it (the signed sum leaves -128..127).
pub open spec fn spec_adc(a: u8, b: u8, p: u8) -> (u8, u8) {
    let carry_in = p & StatusRegister::CARRY == StatusRegister::CARRY;
    let sum = a.wrapping_add(b);
    let carry = a + b > 255 || (carry_in && sum + 1 > 255);
    let result = if carry_in { sum.wrapping_add(1) } else { sum };
    let overflow = (a ^ result) & (b ^ result) & 0x80 != 0;
    (
        result,
        spec_set_flag(
            spec_set_flag(spec_nz(p, result), StatusRegister::CARRY, carry),
            StatusRegister::OVERFLOW,
            overflow,
        ),
    )
}

/// CMP/CPX/CPY: Z and N from `a - b`, C when `a >= b`.
pub open spec fn spec_compare(p: u8, a: u8, b: u8) -> u8 {
    spec_set_flag(spec_nz(p, a.wrapping_sub(b)), StatusRegister::CARRY, a >= b)
}

/// BIT: Z from `a & value`, N and V from bits 7 and 6 of `value`.
pub open spec fn spec_bit(p: u8, a: u8, value: u8) -> u8 {
    spec_set_flag(
        spec_set_flag(
            spec_set_flag(p, StatusRegister::ZERO, a & value == 0),
            StatusRegister::NEGATIVE,
            value & 0b1000_0000 != 0,
        ),
        StatusRegister::OVERFLOW,
        value & 0b0100_0000 != 0,
    )
}

/// The registers after an instruction that reads `value` and combines it
/// with the registers (loads, logic, arithmetic, comparisons, BIT).
pub open spec fn spec_read_op(m: Mnemonic, r: RegisterFile, value: u8) -> RegisterFile {
    match m {
        Mnemonic::Lda => RegisterFile { a: value, p: spec_nz(r.p, value), ..r },
        Mnemonic::Ldx => RegisterFile { x: value, p: spec_nz(r.p, value), ..r },
        Mnemonic::Ldy => RegisterFile { y: value, p: spec_nz(r.p, value), ..r },
        Mnemonic::Ora => RegisterFile { a: r.a | value, p: spec_nz(r.p, r.a | value), ..r },
        Mnemonic::And => RegisterFile { a: r.a & value, p: spec_nz(r.p, r.a & value), ..r },
        Mnemonic::Eor => RegisterFile { a: r.a ^ value, p: spec_nz(r.p, r.a ^ value), ..r },
        Mnemonic::Adc => RegisterFile { a: spec_adc(r.a, value, r.p).0, p: spec_adc(r.a, value, r.p).1, ..r },
        Mnemonic::Sbc => RegisterFile { a: spec_adc(r.a, !value, r.p).0, p: spec_adc(r.a, !value, r.p).1, ..r },
        Mnemonic::Cmp => RegisterFile { p: spec_compare(r.p, r.a, value), ..r },
        Mnemonic::Cpx => RegisterFile { p: spec_compare(r.p, r.x, value), ..r },
        Mnemonic::Cpy => RegisterFile { p: spec_compare(r.p, r.y, value), ..r },
        Mnemonic::Bit => RegisterFile { p: spec_bit(r.p, r.a, value), ..r },
        _ => r,
    }
}

/// The instructions whose effect is `spec_read_op`.
pub open spec fn is_read_op(m: Mnemonic) -> bool {
    match m {
        Mnemonic::Lda | Mnemonic::Ldx | Mnemonic::Ldy | Mnemonic::Ora | Mnemonic::And | Mnemonic::Eor
        | Mnemonic::Adc | Mnemonic::Sbc | Mnemonic::Cmp | Mnemonic::Cpx | Mnemonic::Cpy | Mnemonic::Bit => true,
        _ => false,
    }
}

/// The byte a shift, rotate, increment or decrement makes of `value`, and
/// the new status.
pub open spec fn spec_modify(m: Mnemonic, p: u8, value: u8) -> (u8, u8) {
    let carry_in = p & StatusRegister::CARRY == StatusRegister::CARRY;
    match m {
        Mnemonic::Asl => {
            let result = value << 1u8;
            (result, spec_set_flag(spec_nz(p, result), StatusRegister::CARRY, value & 0b1000_0000 != 0))
        },
        Mnemonic::Lsr => {
            let result = value >> 1u8;
            (result, spec_set_flag(spec_nz(p, result), StatusRegister::CARRY, value & 0b0000_0001 != 0))
        },
        Mnemonic::Rol => {
            let result = (value << 1u8) | (if carry_in { 1u8 } else { 0u8 });
            (result, spec_set_flag(spec_nz(p, result), StatusRegister::CARRY, value & 0b1000_0000 != 0))
        },
        Mnemonic::Ror => {
            let result = (value >> 1u8) | (if carry_in { 0b1000_0000u8 } else { 0u8 });
            (result, spec_set_flag(spec_nz(p, result), StatusRegister::CARRY, value & 0b0000_0001 != 0))
        },
        Mnemonic::Inc => (value.wrapping_add(1), spec_nz(p, value.wrapping_add(1))),
        _ => (value.wrapping_sub(1), spec_nz(p, value.wrapping_sub(1))),
    }
}

/// The stack address that the stack pointer `sp` selects.
pub open spec fn stack_address(sp: u8) -> u16 {
    (STACK_START + sp) as u16
}

/// The program counter after a taken branch by the signed displacement `rel`.
pub open spec fn spec_branch_target(pc: u16, rel: u8) -> u16 {
    ((pc as i16).wrapping_add((rel as i8) as i16)) as u16
}

/// The address popped from the stack whose pointer is `sp`: low byte above
/// the pointer, high byte above that.
pub open spec fn spec_stack_word(ram: [u8; 0x800], sp: u8) -> u16 {
    (ram[stack_address(sp.wrapping_add(1).wrapping_add(1)) as int] * 256 + ram[stack_address(sp.wrapping_add(1)) as int]) as u16
}

/// The register that STA, STX or STY stores.
pub open spec fn store_value(m: Mnemonic, r: RegisterFile) -> u8 {
    if m == Mnemonic::Sta { r.a } else if m == Mnemonic::Stx { r.x } else { r.y }
}

/// A memory result as an instruction's result.
pub open spec fn cpu_result(r: Result<(), MemoryError>) -> Result<(), CpuError> {
    match r {
        Ok(()) => Ok(()),
        Err(e) => Err(CpuError::Memory(e)),
    }
}

/// The instructions that only change registers.
pub open spec fn is_register_op(m: Mnemonic) -> bool {
    match m {
        Mnemonic::Dex | Mnemonic::Dey | Mnemonic::Inx | Mnemonic::Iny | Mnemonic::Tax | Mnemonic::Tay
        | Mnemonic::Txa | Mnemonic::Tya | Mnemonic::Tsx | Mnemonic::Txs | Mnemonic::Clc | Mnemonic::Sec
        | Mnemonic::Cli | Mnemonic::Sei | Mnemonic::Clv | Mnemonic::Cld | Mnemonic::Sed => true,
        _ => false,
    }
}

/// The registers after a register-only instruction.
pub open spec fn spec_register_op(m: Mnemonic, r: RegisterFile) -> RegisterFile {
    match m {
        Mnemonic::Dex => RegisterFile { x: r.x.wrapping_sub(1), p: spec_nz(r.p, r.x.wrapping_sub(1)), ..r },
        Mnemonic::Dey => RegisterFile { y: r.y.wrapping_sub(1), p: spec_nz(r.p, r.y.wrapping_sub(1)), ..r },
        Mnemonic::Inx => RegisterFile { x: r.x.wrapping_add(1), p: spec_nz(r.p, r.x.wrapping_add(1)), ..r },
        Mnemonic::Iny => RegisterFile { y: r.y.wrapping_add(1), p: spec_nz(r.p, r.y.wrapping_add(1)), ..r },
        Mnemonic::Tax => RegisterFile { x: r.a, p: spec_nz(r.p, r.a), ..r },
        Mnemonic::Tay => RegisterFile { y: r.a, p: spec_nz(r.p, r.a), ..r },
        Mnemonic::Txa => RegisterFile { a: r.x, p: spec_nz(r.p, r.x), ..r },
        Mnemonic::Tya => RegisterFile { a: r.y, p: spec_nz(r.p, r.y), ..r },
        Mnemonic::Tsx => RegisterFile { x: r.sp, p: spec_nz(r.p, r.sp), ..r },
        Mnemonic::Txs => RegisterFile { sp: r.x, ..r },
        Mnemonic::Clc => RegisterFile { p: r.p & !StatusRegister::CARRY, ..r },
        Mnemonic::Sec => RegisterFile { p: r.p | StatusRegister::CARRY, ..r },
        Mnemonic::Cli => RegisterFile { p: r.p & !StatusRegister::INTERUPT, ..r },
        Mnemonic::Sei => RegisterFile { p: r.p | StatusRegister::INTERUPT, ..r },
        Mnemonic::Clv => RegisterFile { p: r.p & !StatusRegister::OVERFLOW, ..r },
        Mnemonic::Cld => RegisterFile { p: r.p & !StatusRegister::DECIMAL, ..r },
        Mnemonic::Sed => RegisterFile { p: r.p | StatusRegister::DECIMAL, ..r },
        _ => r,
    }
}

/// The status byte that PHP, BRK-style interrupts push: P with bits 4 and 5 set.
pub open spec fn pushed_status(p: u8) -> u8 {
    p | StatusRegister::ENABLED | StatusRegister::BREAK
}

/// The status that PLP and RTI restore from a pulled byte: bit 5 set, bit 4 clear.
pub open spec fn pulled_status(value: u8) -> u8 {
    (value | StatusRegister::ENABLED) & !StatusRegister::BREAK
}

/// The branch instructions and whether each is taken under status `p`.
pub open spec fn is_branch(m: Mnemonic) -> bool {
    match m {
        Mnemonic::Bpl | Mnemonic::Bmi | Mnemonic::Bvc | Mnemonic::Bvs | Mnemonic::Bcc | Mnemonic::Bcs | Mnemonic::Bne
        | Mnemonic::Beq => true,
        _ => false,
    }
}

pub open spec fn branch_taken(m: Mnemonic, p: u8) -> bool {
    match m {
        Mnemonic::Bpl => p & StatusRegister::NEGATIVE != StatusRegister::NEGATIVE,
        Mnemonic::Bmi => p & StatusRegister::NEGATIVE == StatusRegister::NEGATIVE,
        Mnemonic::Bvc => p & StatusRegister::OVERFLOW != StatusRegister::OVERFLOW,
        Mnemonic::Bvs => p & StatusRegister::OVERFLOW == StatusRegister::OVERFLOW,
        Mnemonic::Bcc => p & StatusRegister::CARRY != StatusRegister::CARRY,
        Mnemonic::Bcs => p & StatusRegister::CARRY == StatusRegister::CARRY,
        Mnemonic::Bne => p & StatusRegister::ZERO != StatusRegister::ZERO,
        _ => p & StatusRegister::ZERO == StatusRegister::ZERO,
    }
}

/// The address whose low and high bytes JMP (indirect) reads: the high byte
/// comes from the same page as the low one.
pub open spec fn indirect_high_address(address: u16) -> u16 {
    (address & 0xFF00) | ((address as u8).wrapping_add(1) as u16)
}

/// The modes each instruction is carried out with.
pub open spec fn can_execute(instruction: Instruction) -> bool {
    let m = instruction.mnemonic;
    let mode = instruction.mode;
    if is_read_op(m) {
        mode == Mode::Immediate || is_memory_mode(mode)
    } else if m == Mnemonic::Sta || m == Mnemonic::Stx || m == Mnemonic::Sty {
        is_memory_mode(mode)
    } else if m == Mnemonic::Asl || m == Mnemonic::Lsr || m == Mnemonic::Rol || m == Mnemonic::Ror {
        mode == Mode::Accumulator || mode == Mode::ZeroPage || mode == Mode::ZeroPageX || mode == Mode::Absolute
            || mode == Mode::AbsoluteX
    } else if m == Mnemonic::Inc || m == Mnemonic::Dec {
        mode == Mode::ZeroPage || mode == Mode::ZeroPageX || mode == Mode::Absolute || mode == Mode::AbsoluteX
    } else if m == Mnemonic::Jmp {
        mode == Mode::Absolute || mode == Mode::Indirect
    } else if m == Mnemonic::Jsr {
        mode == Mode::Absolute
    } else if is_branch(m) {
        mode == Mode::Relative
    } else if m == Mnemonic::Nop {
        mode == Mode::Implied || mode == Mode::Immediate || mode == Mode::ZeroPage || mode == Mode::ZeroPageX
            || mode == Mode::Absolute || mode == Mode::AbsoluteX
    } else {
        mode == Mode::Implied
    }
}

impl<'a, C1: Controller, C2: Controller> Cpu<'a, C1, C2> {
    /// `new` differs from this CPU at most in its memory's cycle count.
    pub open spec fn same_but_cycles(self, new: Self) -> bool {
        &&& new.registers@ == self.registers@
        &&& new.vectors == self.vectors
        &&& self.memory.same_but_cycles(new.memory)
    }

    /// `new` keeps this CPU's vectors and cartridge, and the controllers whose
    /// reads leave them as they are, and is well formed.
    pub open spec fn keeps_frame(self, new: Self) -> bool {
        &&& new.wf()
        &&& new.vectors == self.vectors
        &&& new.memory.rom == self.memory.rom
        &&& self.memory.controllers_kept(new.memory)
    }

    /// Reads the zero-page pointer at `offset`, spending two cycles.
    fn get_ptr(&mut self, offset: u8) -> (r: u16)
        requires
            old(self).wf(),
        ensures
            r == zero_page_word(old(self).memory.ram, offset),
            old(self).same_but_cycles(*final(self)),
            final(self).memory.cycles == cycles_after(old(self).memory.cycles, 2),
    {
        let low = match self.memory.get(offset as u16) {
            Ok(value) => value as u16,
            Err(_) => 0,
        };
        let high = match self.memory.get(offset.wrapping_add(1) as u16) {
            Ok(value) => value as u16,
            Err(_) => 0,
        };
        assert((high << 8u16) | low == high * 256 + low) by (bit_vector)
            requires
                high < 256,
                low < 256;
        (high << 8) | low
    }

    /// Reads the operand byte that `mode` addresses, spending the cycles of
    /// the addressing mode.
    fn load(&mut self, mode: Mode, operand: u16) -> (r: Result<u8, MemoryError>)
        requires
            old(self).wf(),
            is_memory_mode(mode),
        ensures
            old(self).keeps_frame(*final(self)),
            final(self).registers@ == old(self).registers@,
            old(self).memory.spec_pass_get(
                final(self).memory,
                spec_address(old(self).registers@, old(self).memory.ram, mode, operand),
                r,
            ),
            r is Ok ==> final(self).memory.cycles == cycles_after(
                old(self).memory.cycles,
                read_cycles(old(self).registers@, old(self).memory.ram, mode, operand),
            ),
    {
        let offset = operand as u8;
        match mode {
            Mode::ZeroPage => self.memory.get(offset as u16),
            Mode::ZeroPageX => {
                self.memory.cycle();
                self.memory.get(offset.wrapping_add(self.registers.x) as u16)
            },
            Mode::ZeroPageY => {
                self.memory.cycle();
                self.memory.get(offset.wrapping_add(self.registers.y) as u16)
            },
            Mode::AbsoluteX => {
                if offset.checked_add(self.registers.x).is_none() {
                    self.memory.cycle();
                }
                self.memory.get(operand.wrapping_add(self.registers.x as u16))
            },
            Mode::AbsoluteY => {
                if offset.checked_add(self.registers.y).is_none() {
                    self.memory.cycle();
                }
                self.memory.get(operand.wrapping_add(self.registers.y as u16))
            },
            Mode::IndirectX => {
                let pointer = self.get_ptr(offset.wrapping_add(self.registers.x));
                self.memory.cycle();
                self.memory.get(pointer)
            },
            Mode::IndirectY => {
                let pointer = self.get_ptr(offset);
                if (pointer as u8).checked_add(self.registers.y).is_none() {
                    self.memory.cycle();
                }
                self.memory.get(pointer.wrapping_add(self.registers.y as u16))
            },
            _ => self.memory.get(operand),
        }
    }

    /// Writes `value` where `mode` addresses, spending the cycles of the
    /// addressing mode.
    fn store(&mut self, mode: Mode, operand: u16, value: u8) -> (r: Result<(), MemoryError>)
        requires
            old(self).wf(),
            is_memory_mode(mode),
        ensures
            old(self).keeps_frame(*final(self)),
            final(self).registers@ == old(self).registers@,
            old(self).memory.spec_pass_set(
                final(self).memory,
                spec_address(old(self).registers@, old(self).memory.ram, mode, operand),
                value,
                r,
            ),
            r is Ok ==> final(self).memory.cycles == cycles_after(
                old(self).memory.cycles,
                write_cycles(old(self).registers@, old(self).memory.ram, mode, operand)
                    + dma_cycles(spec_address(old(self).registers@, old(self).memory.ram, mode, operand)),
            ),
    {
        let offset = operand as u8;
        match mode {
            Mode::ZeroPage => self.memory.set(offset as u16, value),
            Mode::ZeroPageX => self.memory.set(offset.wrapping_add(self.registers.x) as u16, value),
            Mode::ZeroPageY => self.memory.set(offset.wrapping_add(self.registers.y) as u16, value),
            Mode::AbsoluteX => self.memory.set(operand.wrapping_add(self.registers.x as u16), value),
            Mode::AbsoluteY => self.memory.set(operand.wrapping_add(self.registers.y as u16), value),
            Mode::IndirectX => {
                let pointer = self.get_ptr(offset.wrapping_add(self.registers.x));
                self.memory.cycle();
                self.memory.set(pointer, value)
            },
            Mode::IndirectY => {
                let pointer = self.get_ptr(offset);
                if (pointer as u8).checked_add(self.registers.y).is_none() {
                    self.memory.cycle();
                }
                self.memory.set(pointer.wrapping_add(self.registers.y as u16), value)
            },
            _ => self.memory.set(operand, value),
        }
    }

    fn set_flags(&mut self, value: u8)
        ensures
            final(self).registers@ == (RegisterFile { p: spec_nz(old(self).registers.p@, value), ..old(self).registers@ }),
            final(self).vectors == old(self).vectors,
            final(self).memory == old(self).memory,
    {
        self.registers.p.set(StatusRegister::ZERO, value == 0);
        self.registers.p.set(StatusRegister::NEGATIVE, value & 0b1000_0000 != 0);
    }

    fn add(&mut self, a: u8, b: u8) -> (r: u8)
        ensures
            r == spec_adc(a, b, old(self).registers.p@).0,
            final(self).registers@ == (RegisterFile { p: spec_adc(a, b, old(self).registers.p@).1, ..old(self).registers@ }),
            final(self).vectors == old(self).vectors,
            final(self).memory == old(self).memory,
    {
        let mut result = a.wrapping_add(b);
        let mut has_carry = a.checked_add(b).is_none();
        if self.registers.p.contains(StatusRegister::CARRY) {
            has_carry = has_carry || result.checked_add(1).is_none();
            result = result.wrapping_add(1);
        }
        let has_overflow = (a ^ result) & (b ^ result) & 0x80 != 0;
        self.set_flags(result);
        self.registers.p.set(StatusRegister::CARRY, has_carry);
        self.registers.p.set(StatusRegister::OVERFLOW, has_overflow);
        result
    }

    fn sub(&mut self, a: u8, b: u8) -> (r: u8)
        ensures
            r == spec_adc(a, !b, old(self).registers.p@).0,
            final(self).registers@ == (RegisterFile { p: spec_adc(a, !b, old(self).registers.p@).1, ..old(self).registers@ }),
            final(self).vectors == old(self).vectors,
            final(self).memory == old(self).memory,
    {
        self.add(a, !b)
    }

    fn compare(&mut self, a: u8, b: u8)
        ensures
            final(self).registers@ == (RegisterFile { p: spec_compare(old(self).registers.p@, a, b), ..old(self).registers@ }),
            final(self).vectors == old(self).vectors,
            final(self).memory == old(self).memory,
    {
        let result = a.wrapping_sub(b);
        self.set_flags(result);
        self.registers.p.set(StatusRegister::CARRY, a >= b);
    }

    /// Shifts or rotates `value` (ASL, LSR, ROL, ROR), setting the flags and
    /// spending one cycle.
    fn shift(&mut self, m: Mnemonic, value: u8) -> (r: u8)
        requires
            m == Mnemonic::Asl || m == Mnemonic::Lsr || m == Mnemonic::Rol || m == Mnemonic::Ror,
        ensures
            r == spec_modify(m, old(self).registers.p@, value).0,
            final(self).registers@ == (RegisterFile { p: spec_modify(m, old(self).registers.p@, value).1, ..old(self).registers@ }),
            final(self).vectors == old(self).vectors,
            old(self).memory.same_but_cycles(final(self).memory),
            final(self).memory.cycles == cycles_after(old(self).memory.cycles, 1),
    {
        let carry = self.registers.p.contains(StatusRegister::CARRY);
        let (result, carry_out) = match m {
            Mnemonic::Asl => (value << 1, value & 0b1000_0000 != 0),
            Mnemonic::Lsr => (value >> 1, value & 0b0000_0001 != 0),
            Mnemonic::Rol => ((value << 1) | if carry { 0b0000_0001u8 } else { 0b0000_0000u8 }, value & 0b1000_0000 != 0),
            _ => ((value >> 1) | if carry { 0b1000_0000u8 } else { 0b0000_0000u8 }, value & 0b0000_0001 != 0),
        };
        self.set_flags(result);
        self.registers.p.set(StatusRegister::CARRY, carry_out);
        self.memory.cycle();
        result
    }

    /// Moves the program counter by the signed displacement `rel`, spending
    /// one cycle, and one more when the move changes page.
    fn branch(&mut self, rel: u8)
        ensures
            final(self).registers@ == (RegisterFile { pc: spec_branch_target(old(self).registers.pc, rel), ..old(self).registers@ }),
            final(self).vectors == old(self).vectors,
            old(self).memory.same_but_cycles(final(self).memory),
            final(self).memory.cycles == cycles_after(
                old(self).memory.cycles,
                1 + bit_nat(old(self).registers.pc & 0xFF00 != spec_branch_target(old(self).registers.pc, rel) & 0xFF00),
            ),
    {
        self.memory.cycle();
        let start = self.registers.pc;
        self.registers.pc = (self.registers.pc as i16).wrapping_add((rel as i8) as i16) as u16;
        if start & 0xFF00 != self.registers.pc & 0xFF00 {
            self.memory.cycle();
        }
    }

    /// Pushes `value` at the stack pointer and moves it down.
    fn push(&mut self, value: u8)
        requires
            old(self).wf(),
        ensures
            old(self).keeps_frame(*final(self)),
            final(self).registers@ == (RegisterFile { sp: old(self).registers.sp.wrapping_sub(1), ..old(self).registers@ }),
            final(self).memory.ram@ == old(self).memory.ram@.update(stack_address(old(self).registers.sp) as int, value),
            old(self).memory.same_but_ram(final(self).memory),
            final(self).memory.cycles == cycles_after(old(self).memory.cycles, 1),
    {
        let address = STACK_START + self.registers.sp as u16;
        let _ = self.memory.set(address, value);
        self.registers.sp = self.registers.sp.wrapping_sub(1);
    }

    /// Pushes the high, then the low byte of `address`.
    fn push_address(&mut self, address: u16)
        requires
            old(self).wf(),
        ensures
            old(self).keeps_frame(*final(self)),
            final(self).registers@ == (RegisterFile {
                sp: old(self).registers.sp.wrapping_sub(1).wrapping_sub(1),
                ..old(self).registers@
            }),
            final(self).memory.ram@ == old(self).memory.ram@.update(
                stack_address(old(self).registers.sp) as int,
                (address >> 8u16) as u8,
            ).update(stack_address(old(self).registers.sp.wrapping_sub(1)) as int, (address & 0xFF) as u8),
            old(self).memory.same_but_ram(final(self).memory),
            final(self).memory.cycles == cycles_after(old(self).memory.cycles, 2),
    {
        self.push((address >> 8) as u8);
        self.push((address & 0xFF) as u8);
    }

    /// Moves the stack pointer up and reads the byte there.
    fn pop(&mut self) -> (r: u8)
        requires
            old(self).wf(),
        ensures
            r == old(self).memory.ram[stack_address(old(self).registers.sp.wrapping_add(1)) as int],
            final(self).registers@ == (RegisterFile { sp: old(self).registers.sp.wrapping_add(1), ..old(self).registers@ }),
            final(self).vectors == old(self).vectors,
            old(self).memory.same_but_cycles(final(self).memory),
            final(self).memory.cycles == cycles_after(old(self).memory.cycles, 1),
    {
        self.registers.sp = self.registers.sp.wrapping_add(1);
        let address = STACK_START + self.registers.sp as u16;
        match self.memory.get(address) {
            Ok(value) => value,
            Err(_) => 0,
        }
    }

    /// Pops the low, then the high byte of an address.
    fn pop_address(&mut self) -> (r: u16)
        requires
            old(self).wf(),
        ensures
            r == spec_stack_word(old(self).memory.ram, old(self).registers.sp),
            final(self).registers@ == (RegisterFile {
                sp: old(self).registers.sp.wrapping_add(1).wrapping_add(1),
                ..old(self).registers@
            }),
            final(self).vectors == old(self).vectors,
            old(self).memory.same_but_cycles(final(self).memory),
            final(self).memory.cycles == cycles_after(old(self).memory.cycles, 2),
    {
        let low = self.pop() as u16;
        let high = self.pop() as u16;
        assert((high << 8u16) | low == high * 256 + low) by (bit_vector)
            requires
                high < 256,
                low < 256;
        (high << 8) | low
    }

    fn exec_read(&mut self, m: Mnemonic, mode: Mode, operand: u16) -> (r: Result<(), CpuError>)
        requires
            old(self).wf(),
            is_read_op(m),
            mode == Mode::Immediate || is_memory_mode(mode),
        ensures
            old(self).keeps_frame(*final(self)),
            old(self).spec_read_instruction(*final(self), m, mode, operand, r),
            r is Ok ==> final(self).memory.cycles == cycles_after(
                old(self).memory.cycles,
                read_cycles(old(self).registers@, old(self).memory.ram, mode, operand),
            ),
    {
        let ghost before = *self;
        let ghost address = spec_address(before.registers@, before.memory.ram, mode, operand);
        let ghost mut read_result: Result<u8, MemoryError> = Ok(0u8);
        let value = if mode == Mode::Immediate {
            operand as u8
        } else {
            let read = self.load(mode, operand);
            proof {
                read_result = read;
            }
            match read {
                Ok(value) => value,
                Err(e) => {
                    assert(before.memory.spec_pass_get(self.memory, address, read_result));
                    return Err(CpuError::Memory(e));
                },
            }
        };
        match m {
            Mnemonic::Lda => {
                self.registers.a = value;
                self.set_flags(value);
            },
            Mnemonic::Ldx => {
                self.registers.x = value;
                self.set_flags(value);
            },
            Mnemonic::Ldy => {
                self.registers.y = value;
                self.set_flags(value);
            },
            Mnemonic::Ora => {
                let a = self.registers.a | value;
                self.registers.a = a;
                self.set_flags(a);
            },
            Mnemonic::And => {
                let a = self.registers.a & value;
                self.registers.a = a;
                self.set_flags(a);
            },
            Mnemonic::Eor => {
                let a = self.registers.a ^ value;
                self.registers.a = a;
                self.set_flags(a);
            },
            Mnemonic::Adc => {
                let a = self.registers.a;
                let result = self.add(a, value);
                self.registers.a = result;
            },
            Mnemonic::Sbc => {
                let a = self.registers.a;
                let result = self.sub(a, value);
                self.registers.a = result;
            },
            Mnemonic::Cmp => {
                let a = self.registers.a;
                self.compare(a, value);
            },
            Mnemonic::Cpx => {
                let x = self.registers.x;
                self.compare(x, value);
            },
            Mnemonic::Cpy => {
                let y = self.registers.y;
                self.compare(y, value);
            },
            _ => {
                let result = self.registers.a & value;
                self.registers.p.set(StatusRegister::ZERO, result == 0);
                self.registers.p.set(StatusRegister::NEGATIVE, value & 0b1000_0000 != 0);
                self.registers.p.set(StatusRegister::OVERFLOW, value & 0b0100_0000 != 0);
            },
        }
        proof {
            if mode != Mode::Immediate {
                assert(before.memory.spec_pass_get(self.memory, address, read_result));
            }
        }
        Ok(())
    }

    fn exec_store(&mut self, m: Mnemonic, mode: Mode, operand: u16) -> (r: Result<(), CpuError>)
        requires
            old(self).wf(),
            m == Mnemonic::Sta || m == Mnemonic::Stx || m == Mnemonic::Sty,
            is_memory_mode(mode),
        ensures
            old(self).keeps_frame(*final(self)),
            old(self).spec_store_instruction(*final(self), m, mode, operand, r),
            r is Ok && is_timed(old(self).registers@, old(self).memory.ram, Instruction { mnemonic: m, mode, operand })
                ==> final(self).memory.cycles == cycles_after(
                old(self).memory.cycles,
                spec_cycles(old(self).registers@, old(self).memory.ram, Instruction { mnemonic: m, mode, operand }),
            ),
    {
        let ghost before = *self;
        let value = if m == Mnemonic::Sta {
            self.registers.a
        } else if m == Mnemonic::Stx {
            self.registers.x
        } else {
            self.registers.y
        };
        let ghost address = spec_address(before.registers@, before.memory.ram, mode, operand);
        let write = self.store(mode, operand, value);
        let ghost stored = self.memory;
        assert(before.memory.spec_pass_set(stored, address, value, write));
        match write {
            Ok(()) => {},
            Err(e) => {
                assert(cpu_result(write) == Err::<(), CpuError>(CpuError::Memory(e)));
                assert(before.memory.spec_pass_set(self.memory, spec_address(before.registers@, before.memory.ram, mode, operand), store_value(m, before.registers@), write));
                return Err(CpuError::Memory(e));
            },
        }
        match mode {
            Mode::ZeroPageX | Mode::ZeroPageY | Mode::AbsoluteX | Mode::AbsoluteY | Mode::IndirectY => {
                self.memory.cycle();
            },
            _ => {},
        }
        proof {
            lemma_pass_set_cycles(before.memory, before.memory, stored, self.memory, address, value, write);
        }
        assert(cpu_result(write) == Ok::<(), CpuError>(()));
        assert(before.memory.spec_pass_set(self.memory, spec_address(before.registers@, before.memory.ram, mode, operand), store_value(m, before.registers@), write));
        Ok(())
    }

    fn exec_modify(&mut self, m: Mnemonic, mode: Mode, operand: u16) -> (r: Result<(), CpuError>)
        requires
            old(self).wf(),
            can_execute(Instruction { mnemonic: m, mode, operand }),
            m == Mnemonic::Asl || m == Mnemonic::Lsr || m == Mnemonic::Rol || m == Mnemonic::Ror || m == Mnemonic::Inc
                || m == Mnemonic::Dec,
        ensures
            old(self).keeps_frame(*final(self)),
            old(self).spec_modify_instruction(*final(self), m, mode, operand, r),
            r is Ok && is_timed(old(self).registers@, old(self).memory.ram, Instruction { mnemonic: m, mode, operand })
                ==> final(self).memory.cycles == cycles_after(
                old(self).memory.cycles,
                spec_cycles(old(self).registers@, old(self).memory.ram, Instruction { mnemonic: m, mode, operand }),
            ),
    {
        if m == Mnemonic::Inc || m == Mnemonic::Dec {
            self.exec_step(m, mode, operand)
        } else {
            self.exec_shift(m, mode, operand)
        }
    }

    /// INC and DEC on memory.
    #[verifier::rlimit(30)]
    fn exec_step(&mut self, m: Mnemonic, mode: Mode, operand: u16) -> (r: Result<(), CpuError>)
        requires
            old(self).wf(),
            m == Mnemonic::Inc || m == Mnemonic::Dec,
            mode == Mode::ZeroPage || mode == Mode::ZeroPageX || mode == Mode::Absolute || mode == Mode::AbsoluteX,
        ensures
            old(self).keeps_frame(*final(self)),
            old(self).spec_modify_instruction(*final(self), m, mode, operand, r),
            r is Ok && spec_address(old(self).registers@, old(self).memory.ram, mode, operand) != 0x4014
                ==> final(self).memory.cycles == cycles_after(
                old(self).memory.cycles,
                if mode == Mode::ZeroPage || mode == Mode::Absolute { 3 } else { 4 },
            ),
    {
        let ghost before = *self;
        let ghost address = spec_address(before.registers@, before.memory.ram, mode, operand);
        let address_exec: u16 = match mode {
            Mode::ZeroPage => (operand as u8) as u16,
            Mode::ZeroPageX => (operand as u8).wrapping_add(self.registers.x) as u16,
            Mode::Absolute => operand,
            _ => operand.wrapping_add(self.registers.x as u16),
        };
        assert(address_exec == address);
        let read = self.memory.get(address_exec);
        let ghost mid = self.memory;
        assert(before.memory.spec_pass_get(mid, address, read));
        let value = match read {
            Ok(value) => value,
            Err(e) => {
                return Err(CpuError::Memory(e));
            },
        };
        let result = if m == Mnemonic::Inc { value.wrapping_add(1) } else { value.wrapping_sub(1) };
        self.set_flags(result);
        if mode == Mode::ZeroPage || mode == Mode::Absolute {
            self.memory.cycle();
        } else {
            self.memory.cycle_many(2);
        }
        let ghost before_write = self.memory;
        let write = self.memory.set(address_exec, result);
        proof {
            lemma_pass_set_cycles(before_write, mid, self.memory, self.memory, address, result, write);
        }
        assert(result == spec_modify(m, before.registers.p@, value).0);
        match write {
            Ok(()) => {
                assert(cpu_result(write) == Ok::<(), CpuError>(()));
                Ok(())
            },
            Err(e) => {
                assert(cpu_result(write) == Err::<(), CpuError>(CpuError::Memory(e)));
                Err(CpuError::Memory(e))
            },
        }
    }

    /// ASL, LSR, ROL and ROR.
    #[verifier::rlimit(30)]
    fn exec_shift(&mut self, m: Mnemonic, mode: Mode, operand: u16) -> (r: Result<(), CpuError>)
        requires
            old(self).wf(),
            m == Mnemonic::Asl || m == Mnemonic::Lsr || m == Mnemonic::Rol || m == Mnemonic::Ror,
            mode == Mode::Accumulator || mode == Mode::ZeroPage || mode == Mode::ZeroPageX || mode == Mode::Absolute
                || mode == Mode::AbsoluteX,
        ensures
            old(self).keeps_frame(*final(self)),
            old(self).spec_modify_instruction(*final(self), m, mode, operand, r),
            r is Ok && (mode == Mode::Accumulator || spec_address(old(self).registers@, old(self).memory.ram, mode, operand) != 0x4014)
                ==> final(self).memory.cycles == cycles_after(
                old(self).memory.cycles,
                match mode {
                    Mode::Accumulator => 1,
                    Mode::ZeroPage | Mode::Absolute => 3,
                    Mode::ZeroPageX => 4,
                    _ => 4 + bit_nat(crosses_page(operand, old(self).registers.x)),
                },
            ),
    {
        let ghost before = *self;
        let ghost address = spec_address(before.registers@, before.memory.ram, mode, operand);
        if mode == Mode::Accumulator {
            let a = self.registers.a;
            let result = self.shift(m, a);
            self.registers.a = result;
            return Ok(());
        }
        let read = self.load(mode, operand);
        let ghost mid = self.memory;
        assert(before.memory.spec_pass_get(mid, address, read));
        let value = match read {
            Ok(value) => value,
            Err(e) => {
                return Err(CpuError::Memory(e));
            },
        };
        let result = self.shift(m, value);
        let ghost before_write = self.memory;
        let write = self.store(mode, operand, result);
        let ghost written = self.memory;
        match write {
            Ok(()) => {},
            Err(e) => {
                proof {
                    lemma_pass_set_cycles(before_write, mid, written, self.memory, address, result, write);
                }
                assert(cpu_result(write) == Err::<(), CpuError>(CpuError::Memory(e)));
                return Err(CpuError::Memory(e));
            },
        }
        if mode == Mode::AbsoluteX {
            self.memory.cycle();
        }
        proof {
            lemma_pass_set_cycles(before_write, mid, written, self.memory, address, result, write);
        }
        assert(cpu_result(write) == Ok::<(), CpuError>(()));
        Ok(())
    }

    fn exec_register(&mut self, m: Mnemonic) -> (r: Result<(), CpuError>)
        requires
            is_register_op(m),
        ensures
            r is Ok,
            final(self).registers@ == spec_register_op(m, old(self).registers@),
            final(self).vectors == old(self).vectors,
            old(self).memory.same_but_cycles(final(self).memory),
            final(self).memory.cycles == cycles_after(old(self).memory.cycles, 1),
    {
        match m {
            Mnemonic::Dex => {
                self.registers.x = self.registers.x.wrapping_sub(1);
                let x = self.registers.x;
                self.set_flags(x);
            },
            Mnemonic::Dey => {
                self.registers.y = self.registers.y.wrapping_sub(1);
                let y = self.registers.y;
                self.set_flags(y);
            },
            Mnemonic::Inx => {
                self.registers.x = self.registers.x.wrapping_add(1);
                let x = self.registers.x;
                self.set_flags(x);
            },
            Mnemonic::Iny => {
                self.registers.y = self.registers.y.wrapping_add(1);
                let y = self.registers.y;
                self.set_flags(y);
            },
            Mnemonic::Tax => {
                self.registers.x = self.registers.a;
                let x = self.registers.x;
                self.set_flags(x);
            },
            Mnemonic::Tay => {
                self.registers.y = self.registers.a;
                let y = self.registers.y;
                self.set_flags(y);
            },
            Mnemonic::Txa => {
                self.registers.a = self.registers.x;
                let a = self.registers.a;
                self.set_flags(a);
            },
            Mnemonic::Tya => {
                self.registers.a = self.registers.y;
                let a = self.registers.a;
                self.set_flags(a);
            },
            Mnemonic::Tsx => {
                self.registers.x = self.registers.sp;
                let x = self.registers.x;
                self.set_flags(x);
            },
            Mnemonic::Txs => {
                self.registers.sp = self.registers.x;
            },
            Mnemonic::Clc => self.registers.p.remove(StatusRegister::CARRY),
            Mnemonic::Sec => self.registers.p.insert(StatusRegister::CARRY),
            Mnemonic::Cli => self.registers.p.remove(StatusRegister::INTERUPT),
            Mnemonic::Sei => self.registers.p.insert(StatusRegister::INTERUPT),
            Mnemonic::Clv => self.registers.p.remove(StatusRegister::OVERFLOW),
            Mnemonic::Cld => self.registers.p.remove(StatusRegister::DECIMAL),
            _ => self.registers.p.insert(StatusRegister::DECIMAL),
        }
        self.memory.cycle();
        Ok(())
    }

    fn exec_stack(&mut self, m: Mnemonic) -> (r: Result<(), CpuError>)
        requires
            old(self).wf(),
            m == Mnemonic::Pha || m == Mnemonic::Php || m == Mnemonic::Pla || m == Mnemonic::Plp,
        ensures
            old(self).keeps_frame(*final(self)),
            old(self).spec_stack_instruction(*final(self), m, r),
            final(self).memory.cycles == cycles_after(
                old(self).memory.cycles,
                if m == Mnemonic::Pha || m == Mnemonic::Php { 2 } else { 3 },
            ),
    {
        match m {
            Mnemonic::Pha => {
                let a = self.registers.a;
                self.push(a);
                self.memory.cycle();
            },
            Mnemonic::Php => {
                let status = self.registers.p.clone().union(StatusRegister::ENABLED).union(StatusRegister::BREAK);
                self.push(status.bits());
                self.memory.cycle();
            },
            Mnemonic::Pla => {
                let value = self.pop();
                self.registers.a = value;
                self.set_flags(value);
                self.memory.cycle_many(2);
            },
            _ => {
                let value = self.pop();
                self.registers.p = StatusRegister::from_bits_retain(value).union(StatusRegister::ENABLED).difference(
                    StatusRegister::BREAK,
                );
                self.memory.cycle_many(2);
            },
        }
        Ok(())
    }

    fn exec_jump(&mut self, m: Mnemonic, mode: Mode, operand: u16) -> (r: Result<(), CpuError>)
        requires
            old(self).wf(),
            m == Mnemonic::Jmp || m == Mnemonic::Jsr || m == Mnemonic::Rts || m == Mnemonic::Rti,
        ensures
            old(self).keeps_frame(*final(self)),
            old(self).spec_jump_instruction(*final(self), m, mode, operand, r),
            r is Ok ==> final(self).memory.cycles == cycles_after(
                old(self).memory.cycles,
                if m == Mnemonic::Jmp {
                    if mode == Mode::Absolute { 0 } else { 2 }
                } else if m == Mnemonic::Jsr {
                    3
                } else {
                    5
                },
            ),
    {
        let ghost before = *self;
        if m == Mnemonic::Jmp && mode == Mode::Absolute {
            self.registers.pc = operand;
            Ok(())
        } else if m == Mnemonic::Jmp {
            let second = (operand & 0xFF00) | ((operand as u8).wrapping_add(1) as u16);
            let low = self.memory.get(operand);
            let ghost mid = self.memory;
            assert(before.memory.spec_pass_get(mid, operand, low));
            let low = match low {
                Ok(value) => value as u16,
                Err(e) => {
                    return Err(CpuError::Memory(e));
                },
            };
            let high = self.memory.get(second);
            assert(mid.spec_pass_get(self.memory, indirect_high_address(operand), high));
            let high = match high {
                Ok(value) => value as u16,
                Err(e) => {
                    return Err(CpuError::Memory(e));
                },
            };
            assert((high << 8u16) | low == high * 256 + low) by (bit_vector)
                requires
                    high < 256,
                    low < 256;
            self.registers.pc = (high << 8) | low;
            Ok(())
        } else if m == Mnemonic::Jsr {
            let back = self.registers.pc.wrapping_sub(1);
            self.push_address(back);
            self.registers.pc = operand;
            self.memory.cycle();
            Ok(())
        } else if m == Mnemonic::Rts {
            let address = self.pop_address();
            self.registers.pc = address.wrapping_add(1);
            self.memory.cycle_many(3);
            Ok(())
        } else {
            let value = self.pop();
            self.registers.p = StatusRegister::from_bits_retain(value).union(StatusRegister::ENABLED).difference(
                StatusRegister::BREAK,
            );
            self.registers.pc = self.pop_address();
            self.memory.cycle_many(2);
            Ok(())
        }
    }

    fn exec_nop(&mut self, mode: Mode, operand: u16) -> (r: Result<(), CpuError>)
        ensures
            r is Ok,
            final(self).registers@ == old(self).registers@,
            final(self).vectors == old(self).vectors,
            old(self).memory.same_but_cycles(final(self).memory),
            final(self).memory.cycles == cycles_after(
                old(self).memory.cycles,
                match mode {
                    Mode::Immediate => 0,
                    Mode::ZeroPageX => 2,
                    Mode::AbsoluteX => 1 + bit_nat(crosses_page(operand, old(self).registers.x)),
                    _ => 1,
                },
            ),
    {
        match mode {
            Mode::Immediate => {},
            Mode::ZeroPageX => self.memory.cycle_many(2),
            Mode::AbsoluteX => {
                self.memory.cycle();
                if (operand as u8).checked_add(self.registers.x).is_none() {
                    self.memory.cycle();
                }
            },
            _ => self.memory.cycle(),
        }
        Ok(())
    }

    /// Carries out one decoded instruction (its bytes already fetched).
    pub fn execute(&mut self, instruction: Instruction) -> (r: Result<(), CpuError>)
        requires
            old(self).wf(),
            can_execute(instruction),
        ensures
            old(self).spec_execute(*final(self), instruction, r),
            r is Ok && is_timed(old(self).registers@, old(self).memory.ram, instruction)
                ==> final(self).memory.cycles == cycles_after(
                old(self).memory.cycles,
                spec_cycles(old(self).registers@, old(self).memory.ram, instruction),
            ),
    {
        let m = instruction.mnemonic;
        let mode = instruction.mode;
        let operand = instruction.operand;
        match m {
            Mnemonic::Lda | Mnemonic::Ldx | Mnemonic::Ldy | Mnemonic::Ora | Mnemonic::And | Mnemonic::Eor | Mnemonic::Adc
            | Mnemonic::Sbc | Mnemonic::Cmp | Mnemonic::Cpx | Mnemonic::Cpy | Mnemonic::Bit => self.exec_read(m, mode, operand),
            Mnemonic::Sta | Mnemonic::Stx | Mnemonic::Sty => self.exec_store(m, mode, operand),
            Mnemonic::Asl | Mnemonic::Lsr | Mnemonic::Rol | Mnemonic::Ror | Mnemonic::Inc | Mnemonic::Dec => self.exec_modify(
                m,
                mode,
                operand,
            ),
            Mnemonic::Dex | Mnemonic::Dey | Mnemonic::Inx | Mnemonic::Iny | Mnemonic::Tax | Mnemonic::Tay | Mnemonic::Txa
            | Mnemonic::Tya | Mnemonic::Tsx | Mnemonic::Txs | Mnemonic::Clc | Mnemonic::Sec | Mnemonic::Cli | Mnemonic::Sei
            | Mnemonic::Clv | Mnemonic::Cld | Mnemonic::Sed => self.exec_register(m),
            Mnemonic::Pha | Mnemonic::Php | Mnemonic::Pla | Mnemonic::Plp => self.exec_stack(m),
            Mnemonic::Jmp | Mnemonic::Jsr | Mnemonic::Rts | Mnemonic::Rti => self.exec_jump(m, mode, operand),
            Mnemonic::Bpl | Mnemonic::Bmi | Mnemonic::Bvc | Mnemonic::Bvs | Mnemonic::Bcc | Mnemonic::Bcs | Mnemonic::Bne
            | Mnemonic::Beq => {
                let flag = match m {
                    Mnemonic::Bpl | Mnemonic::Bmi => StatusRegister::NEGATIVE,
                    Mnemonic::Bvc | Mnemonic::Bvs => StatusRegister::OVERFLOW,
                    Mnemonic::Bcc | Mnemonic::Bcs => StatusRegister::CARRY,
                    _ => StatusRegister::ZERO,
                };
                let set = self.registers.p.contains(flag);
                let when_set = match m {
                    Mnemonic::Bmi | Mnemonic::Bvs | Mnemonic::Bcs | Mnemonic::Beq => true,
                    _ => false,
                };
                if set == when_set {
                    self.branch(operand as u8);
                }
                Ok(())
            },
            Mnemonic::Nop => self.exec_nop(mode, operand),
            Mnemonic::Brk => Err(CpuError::Break),
            Mnemonic::Stp => Err(CpuError::Stop),
        }
    }

    /// Reads the byte at the program counter and moves the counter on.
    fn next_byte(&mut self) -> (r: Result<u8, MemoryError>)
        requires
            old(self).wf(),
        ensures
            old(self).keeps_frame(*final(self)),
            old(self).reads_next(*final(self), r),
            is_plain_read(old(self).registers.pc) ==> {
                &&& r == Ok::<u8, MemoryError>(old(self).memory.plain_byte(old(self).registers.pc))
                &&& old(self).memory.same_but_cycles(final(self).memory)
                &&& final(self).memory.cycles == cycles_after(old(self).memory.cycles, 1)
            },
    {
        let pc = self.registers.pc;
        let value = self.memory.get(pc);
        self.registers.pc = pc.wrapping_add(1);
        value
    }

    /// Reads the opcode and operand bytes at the program counter, moving it
    /// past each byte read; stops at the first byte that cannot be read and
    /// after an opcode that is not supported.
    fn fetch(&mut self) -> (r: Option<Instruction>)
        requires
            old(self).wf(),
        ensures
            old(self).keeps_frame(*final(self)),
            r matches Some(instruction) ==> can_execute(instruction),
            old(self).fetches(*final(self), r),
            old(self).fetch_is_plain() ==> {
                &&& r == old(self).fetched_instruction()
                &&& final(self).same_state(
                    old(self).after_fetch(
                        match r {
                            Some(instruction) => 1 + spec_operand_length(instruction.mode),
                            None => 1,
                        },
                    ),
                )
            },
    {
        let ghost before = *self;
        let first = self.next_byte();
        let ghost s1 = *self;
        assert(before.reads_next(s1, first));
        let op = match first {
            Ok(op) => op,
            Err(_) => {
                return None;
            },
        };
        let (mnemonic, mode) = match decode_opcode(op) {
            Some(opcode) => opcode,
            None => {
                return None;
            },
        };
        proof {
            lemma_opcode_can_execute(op, 0);
        }
        let length = operand_length(mode);
        let operand: u16 = if length == 0 {
            0
        } else if length == 1 {
            let second = self.next_byte();
            assert(s1.reads_next(*self, second));
            match second {
                Ok(value) => value as u16,
                Err(_) => {
                    return None;
                },
            }
        } else {
            let second = self.next_byte();
            let ghost s2 = *self;
            assert(s1.reads_next(s2, second));
            let low = match second {
                Ok(value) => value as u16,
                Err(_) => {
                    return None;
                },
            };
            let third = self.next_byte();
            assert(s2.reads_next(*self, third));
            let high = match third {
                Ok(value) => value as u16,
                Err(_) => {
                    return None;
                },
            };
            assert((high << 8u16) | low == high * 256 + low) by (bit_vector)
                requires
                    high < 256,
                    low < 256;
            (high << 8) | low
        };
        let instruction = Instruction { mnemonic, mode, operand };
        proof {
            lemma_opcode_can_execute(op, operand);
        }
        Some(instruction)
    }

    /// One read of the byte at the program counter, which moves on: what the
    /// read gave (`byte`) and the state it left (`next`), a cycle later.
    pub open spec fn reads_next(self, next: Self, byte: Result<u8, MemoryError>) -> bool {
        &&& self.memory.spec_pass_get(next.memory, self.registers.pc, byte)
        &&& next.memory.cycles == self.memory.cycles.wrapping_add(1)
        &&& next.registers@ == (RegisterFile { pc: self.registers.pc.wrapping_add(1), ..self.registers@ })
        &&& next.vectors == self.vectors
    }

    /// What the fetch of an instruction from this state reads and leaves: the
    /// opcode is read, then as many operand bytes (low byte first) as its mode
    /// takes; the fetch stops with nothing at the first read that fails or
    /// after an opcode that is not supported. `after` is the state left and
    /// `r` the instruction read.
    pub open spec fn fetches(self, after: Self, r: Option<Instruction>) -> bool {
        exists|s1: Self, b0: Result<u8, MemoryError>|
            #[trigger] self.reads_next(s1, b0) && match b0 {
                Err(_) => r is None && after == s1,
                Ok(op) => match spec_opcode(op) {
                    None => r is None && after == s1,
                    Some((mnemonic, mode)) => s1.fetches_operand(after, r, mnemonic, mode),
                },
            }
    }

    /// The operand part of a fetch from this state, of an instruction with
    /// mnemonic `mnemonic` and mode `mode`.
    pub open spec fn fetches_operand(self, after: Self, r: Option<Instruction>, mnemonic: Mnemonic, mode: Mode) -> bool {
        if spec_operand_length(mode) == 0 {
            r == Some(Instruction { mnemonic, mode, operand: 0 }) && after == self
        } else {
            exists|s2: Self, b1: Result<u8, MemoryError>|
                #[trigger] self.reads_next(s2, b1) && match b1 {
                    Err(_) => r is None && after == s2,
                    Ok(low) => if spec_operand_length(mode) == 1 {
                        r == Some(Instruction { mnemonic, mode, operand: low as u16 }) && after == s2
                    } else {
                        exists|s3: Self, b2: Result<u8, MemoryError>|
                            #[trigger] s2.reads_next(s3, b2) && match b2 {
                                Err(_) => r is None && after == s3,
                                Ok(high) => r == Some(
                                    Instruction { mnemonic, mode, operand: (high * 256 + low) as u16 },
                                ) && after == s3,
                            }
                    },
                }
        }
    }

    /// After a fetch that read no instruction, the read of the opcode again
    /// (at `pc`) from this state: its byte is reported as not supported, or
    /// its error is reported; a cycle is spent and nothing else changes but
    /// what the read changes.
    pub open spec fn refetches(self, new: Self, pc: u16, r: Result<(), CpuError>) -> bool {
        exists|byte: Result<u8, MemoryError>|
            #[trigger] self.memory.spec_pass_get(new.memory, pc, byte) && {
                &&& new.memory.cycles == self.memory.cycles.wrapping_add(1)
                &&& new.registers@ == self.registers@
                &&& new.vectors == self.vectors
                &&& r == match byte {
                    Ok(op) => Err::<(), CpuError>(CpuError::InvalidOp(op)),
                    Err(e) => Err::<(), CpuError>(CpuError::Memory(e)),
                }
            }
    }

    /// What one step from this state can leave (`new`) and return (`r`):
    /// the cartridge, vectors and well-formedness are kept; the instruction
    /// is fetched and executed, or, where no instruction was read, the opcode
    /// is read again and reported (or the error of that read). Where the
    /// opcode and operand read plainly, this comes to: an unsupported opcode
    /// is reported after two cycles and a supported one is executed after
    /// being fetched.
    pub open spec fn steps_to(self, new: Self, r: Result<(), CpuError>) -> bool {
        &&& self.keeps_frame(new)
        &&& exists|fetched: Self, instruction: Option<Instruction>|
            #[trigger] self.fetches(fetched, instruction) && match instruction {
                Some(instruction) => fetched.spec_execute(new, instruction, r),
                None => fetched.refetches(new, self.registers.pc, r),
            }
        &&& self.fetch_is_plain() ==> match self.fetched_instruction() {
            None => {
                &&& r == Err::<(), CpuError>(CpuError::InvalidOp(self.memory.plain_byte(self.registers.pc)))
                &&& new.registers@ == (RegisterFile { pc: self.registers.pc.wrapping_add(1), ..self.registers@ })
                &&& self.memory.same_but_cycles(new.memory)
                &&& new.memory.cycles == cycles_after(self.memory.cycles, 2)
            },
            Some(instruction) => {
                let fetched = self.after_fetch(1 + spec_operand_length(instruction.mode));
                &&& fetched.spec_execute(new, instruction, r)
                &&& r is Ok && is_timed(fetched.registers@, fetched.memory.ram, instruction)
                    ==> new.memory.cycles == cycles_after(
                    fetched.memory.cycles,
                    spec_cycles(fetched.registers@, fetched.memory.ram, instruction),
                )
            },
        }
    }

    /// Carries out the instruction at the program counter. Where its opcode
    /// is not supported, or its bytes cannot be read, reads the opcode again
    /// and fails with it (or with the memory error).
    pub fn step(&mut self) -> (r: Result<(), CpuError>)
        requires
            old(self).wf(),
        ensures
            old(self).steps_to(*final(self), r),
    {
        let pc = self.registers.pc;
        let fetched = self.fetch();
        let ghost after_fetch = *self;
        match fetched {
            Some(instruction) => self.execute(instruction),
            None => {
                let read = self.memory.get(pc);
                assert(after_fetch.memory.spec_pass_get(self.memory, pc, read));
                match read {
                    Ok(op) => Err(CpuError::InvalidOp(op)),
                    Err(e) => Err(CpuError::Memory(e)),
                }
            },
        }
    }

    /// The state after an interrupt to `pc` from this one: the return
    /// address (high byte first) and the status with the break bit are pushed,
    /// and three cycles are spent.
    pub open spec fn interrupts_to(self, new: Self, pc: u16) -> bool {
        &&& self.keeps_frame(new)
        &&& new.registers@ == (RegisterFile {
            pc,
            sp: self.registers.sp.wrapping_sub(1).wrapping_sub(1).wrapping_sub(1),
            ..self.registers@
        })
        &&& new.memory.ram@ == self.memory.ram@.update(
            stack_address(self.registers.sp) as int,
            (self.registers.pc >> 8u16) as u8,
        ).update(
            stack_address(self.registers.sp.wrapping_sub(1)) as int,
            (self.registers.pc & 0xFF) as u8,
        ).update(
            stack_address(self.registers.sp.wrapping_sub(1).wrapping_sub(1)) as int,
            pushed_status(self.registers.p@),
        )
        &&& self.memory.same_but_ram(new.memory)
        &&& new.memory.cycles == cycles_after(self.memory.cycles, 3)
    }

    /// Enters an interrupt handler at `pc`: pushes the program counter and
    /// the status (with bits 4 and 5 set), then jumps.
    pub fn interrupt(&mut self, pc: u16) -> (r: Result<(), MemoryError>)
        requires
            old(self).wf(),
        ensures
            r is Ok,
            old(self).interrupts_to(*final(self), pc),
    {
        let back = self.registers.pc;
        self.push_address(back);
        let status = self.registers.p.clone().union(StatusRegister::ENABLED).union(StatusRegister::BREAK);
        self.push(status.bits());
        self.registers.pc = pc;
        Ok(())
    }
}

impl<'a, C1: Controller, C2: Controller> Cpu<'a, C1, C2> {
    /// The instruction bytes at the program counter read plainly.
    pub open spec fn fetch_is_plain(self) -> bool {
        let pc = self.registers.pc;
        &&& is_plain_read(pc)
        &&& match spec_opcode(self.memory.plain_byte(pc)) {
            None => true,
            Some((m, mode)) => {
                &&& spec_operand_length(mode) >= 1 ==> is_plain_read(pc.wrapping_add(1))
                &&& spec_operand_length(mode) == 2 ==> is_plain_read(pc.wrapping_add(1).wrapping_add(1))
            },
        }
    }

    /// The instruction at the program counter, where its bytes read plainly.
    pub open spec fn fetched_instruction(self) -> Option<Instruction> {
        let pc = self.registers.pc;
        match spec_opcode(self.memory.plain_byte(pc)) {
            None => None,
            Some((mnemonic, mode)) => {
                let length = spec_operand_length(mode);
                let low = self.memory.plain_byte(pc.wrapping_add(1));
                let high = self.memory.plain_byte(pc.wrapping_add(1).wrapping_add(1));
                let operand: u16 = if length == 0 {
                    0
                } else if length == 1 {
                    low as u16
                } else {
                    (high * 256 + low) as u16
                };
                Some(Instruction { mnemonic, mode, operand })
            },
        }
    }

    /// `other` holds the same registers, vectors and memory.
    pub open spec fn same_state(self, other: Self) -> bool {
        &&& self.registers@ == other.registers@
        &&& self.vectors == other.vectors
        &&& self.memory == other.memory
    }

    /// This CPU after `length` instruction bytes are read plainly: the
    /// program counter past them, one cycle spent on each.
    pub open spec fn after_fetch(self, length: nat) -> Self {
        Cpu {
            registers: Registers { pc: pc_after(self.registers.pc, length), ..self.registers },
            memory: Memory { cycles: cycles_after(self.memory.cycles, length), ..self.memory },
            ..self
        }
    }

    /// The effect of a read instruction (`is_read_op`).
    pub open spec fn spec_read_instruction(self, new: Self, m: Mnemonic, mode: Mode, operand: u16, r: Result<(), CpuError>) -> bool {
        let regs = self.registers@;
        if mode == Mode::Immediate {
            &&& r is Ok
            &&& new.registers@ == spec_read_op(m, regs, operand as u8)
            &&& new.memory == self.memory
        } else {
            exists|read: Result<u8, MemoryError>| {
                &&& #[trigger] self.memory.spec_pass_get(new.memory, spec_address(regs, self.memory.ram, mode, operand), read)
                &&& match read {
                    Ok(value) => r is Ok && new.registers@ == spec_read_op(m, regs, value),
                    Err(e) => r == Err::<(), CpuError>(CpuError::Memory(e)) && new.registers@ == regs,
                }
            }
        }
    }

    /// The effect of STA, STX and STY.
    pub open spec fn spec_store_instruction(self, new: Self, m: Mnemonic, mode: Mode, operand: u16, r: Result<(), CpuError>) -> bool {
        let regs = self.registers@;
        &&& new.registers@ == regs
        &&& exists|write: Result<(), MemoryError>| {
            &&& #[trigger] self.memory.spec_pass_set(
                new.memory,
                spec_address(regs, self.memory.ram, mode, operand),
                store_value(m, regs),
                write,
            )
            &&& r == cpu_result(write)
        }
    }

    /// The effect of ASL, LSR, ROL, ROR, INC and DEC.
    pub open spec fn spec_modify_instruction(self, new: Self, m: Mnemonic, mode: Mode, operand: u16, r: Result<(), CpuError>) -> bool {
        let regs = self.registers@;
        if mode == Mode::Accumulator {
            &&& r is Ok
            &&& new.registers@ == (RegisterFile { a: spec_modify(m, regs.p, regs.a).0, p: spec_modify(m, regs.p, regs.a).1, ..regs })
            &&& self.memory.same_but_cycles(new.memory)
        } else {
            let address = spec_address(regs, self.memory.ram, mode, operand);
            exists|mid: Memory<'a, C1, C2>, read: Result<u8, MemoryError>| {
                &&& #[trigger] self.memory.spec_pass_get(mid, address, read)
                &&& match read {
                    Err(e) => {
                        &&& r == Err::<(), CpuError>(CpuError::Memory(e))
                        &&& new.registers@ == regs
                        &&& mid.same_but_cycles(new.memory)
                    },
                    Ok(value) => {
                        &&& new.registers@ == (RegisterFile { p: spec_modify(m, regs.p, value).1, ..regs })
                        &&& exists|write: Result<(), MemoryError>| {
                            &&& #[trigger] mid.spec_pass_set(new.memory, address, spec_modify(m, regs.p, value).0, write)
                            &&& r == cpu_result(write)
                        }
                    },
                }
            }
        }
    }

    /// The effect of PHA, PHP, PLA and PLP.
    pub open spec fn spec_stack_instruction(self, new: Self, m: Mnemonic, r: Result<(), CpuError>) -> bool {
        let regs = self.registers@;
        let pulled = self.memory.ram[stack_address(regs.sp.wrapping_add(1)) as int];
        &&& r is Ok
        &&& if m == Mnemonic::Pha || m == Mnemonic::Php {
            let value = if m == Mnemonic::Pha { regs.a } else { pushed_status(regs.p) };
            &&& new.registers@ == (RegisterFile { sp: regs.sp.wrapping_sub(1), ..regs })
            &&& new.memory.ram@ == self.memory.ram@.update(stack_address(regs.sp) as int, value)
            &&& self.memory.same_but_ram(new.memory)
        } else {
            &&& new.registers@ == if m == Mnemonic::Pla {
                RegisterFile { a: pulled, p: spec_nz(regs.p, pulled), sp: regs.sp.wrapping_add(1), ..regs }
            } else {
                RegisterFile { p: pulled_status(pulled), sp: regs.sp.wrapping_add(1), ..regs }
            }
            &&& self.memory.same_but_cycles(new.memory)
        }
    }

    /// The effect of JMP, JSR, RTS and RTI.
    pub open spec fn spec_jump_instruction(self, new: Self, m: Mnemonic, mode: Mode, operand: u16, r: Result<(), CpuError>) -> bool {
        let regs = self.registers@;
        let ram = self.memory.ram;
        if m == Mnemonic::Jmp && mode == Mode::Absolute {
            &&& r is Ok
            &&& new.registers@ == (RegisterFile { pc: operand, ..regs })
            &&& new.memory == self.memory
        } else if m == Mnemonic::Jmp {
            exists|mid: Memory<'a, C1, C2>, low: Result<u8, MemoryError>| {
                &&& #[trigger] self.memory.spec_pass_get(mid, operand, low)
                &&& match low {
                    Err(e) => {
                        &&& r == Err::<(), CpuError>(CpuError::Memory(e))
                        &&& new.registers@ == regs
                        &&& mid.same_but_cycles(new.memory)
                    },
                    Ok(low) => exists|high: Result<u8, MemoryError>| {
                        &&& #[trigger] mid.spec_pass_get(new.memory, indirect_high_address(operand), high)
                        &&& match high {
                            Err(e) => r == Err::<(), CpuError>(CpuError::Memory(e)) && new.registers@ == regs,
                            Ok(high) => r is Ok && new.registers@ == (RegisterFile { pc: (high * 256 + low) as u16, ..regs }),
                        }
                    },
                }
            }
        } else if m == Mnemonic::Jsr {
            let back = regs.pc.wrapping_sub(1);
            &&& r is Ok
            &&& new.registers@ == (RegisterFile { pc: operand, sp: regs.sp.wrapping_sub(1).wrapping_sub(1), ..regs })
            &&& new.memory.ram@ == ram@.update(stack_address(regs.sp) as int, (back >> 8u16) as u8).update(
                stack_address(regs.sp.wrapping_sub(1)) as int,
                (back & 0xFF) as u8,
            )
            &&& self.memory.same_but_ram(new.memory)
        } else if m == Mnemonic::Rts {
            &&& r is Ok
            &&& new.registers@ == (RegisterFile {
                pc: spec_stack_word(ram, regs.sp).wrapping_add(1),
                sp: regs.sp.wrapping_add(1).wrapping_add(1),
                ..regs
            })
            &&& self.memory.same_but_cycles(new.memory)
        } else {
            &&& r is Ok
            &&& new.registers@ == (RegisterFile {
                p: pulled_status(ram[stack_address(regs.sp.wrapping_add(1)) as int]),
                pc: spec_stack_word(ram, regs.sp.wrapping_add(1)),
                sp: regs.sp.wrapping_add(1).wrapping_add(1).wrapping_add(1),
                ..regs
            })
            &&& self.memory.same_but_cycles(new.memory)
        }
    }

    /// What carrying out `instruction` returned (`r`) and left behind (`new`).
    pub open spec fn spec_execute(self, new: Self, instruction: Instruction, r: Result<(), CpuError>) -> bool {
        let m = instruction.mnemonic;
        let mode = instruction.mode;
        let operand = instruction.operand;
        let regs = self.registers@;
        &&& self.keeps_frame(new)
        &&& if is_read_op(m) {
            self.spec_read_instruction(new, m, mode, operand, r)
        } else if m == Mnemonic::Sta || m == Mnemonic::Stx || m == Mnemonic::Sty {
            self.spec_store_instruction(new, m, mode, operand, r)
        } else if m == Mnemonic::Asl || m == Mnemonic::Lsr || m == Mnemonic::Rol || m == Mnemonic::Ror
            || m == Mnemonic::Inc || m == Mnemonic::Dec {
            self.spec_modify_instruction(new, m, mode, operand, r)
        } else if is_register_op(m) {
            &&& r is Ok
            &&& new.registers@ == spec_register_op(m, regs)
            &&& self.memory.same_but_cycles(new.memory)
        } else if m == Mnemonic::Pha || m == Mnemonic::Php || m == Mnemonic::Pla || m == Mnemonic::Plp {
            self.spec_stack_instruction(new, m, r)
        } else if m == Mnemonic::Jmp || m == Mnemonic::Jsr || m == Mnemonic::Rts || m == Mnemonic::Rti {
            self.spec_jump_instruction(new, m, mode, operand, r)
        } else if is_branch(m) {
            &&& r is Ok
            &&& new.registers@ == if branch_taken(m, regs.p) {
                RegisterFile { pc: spec_branch_target(regs.pc, operand as u8), ..regs }
            } else {
                regs
            }
            &&& self.memory.same_but_cycles(new.memory)
        } else if m == Mnemonic::Nop {
            &&& r is Ok
            &&& new.registers@ == regs
            &&& self.memory.same_but_cycles(new.memory)
        } else {
            &&& r == if m == Mnemonic::Brk { Err::<(), CpuError>(CpuError::Break) } else { Err::<(), CpuError>(CpuError::Stop) }
            &&& new.registers@ == regs
            &&& new.memory == self.memory
        }
    }
}

/// The cycles that `instruction` takes after its bytes are fetched, when it
/// succeeds (the value an OAM DMA write stores aside).
pub open spec fn spec_cycles(r: RegisterFile, ram: [u8; 0x800], instruction: Instruction) -> nat {
    let m = instruction.mnemonic;
    let mode = instruction.mode;
    let operand = instruction.operand;
    let address = spec_address(r, ram, mode, operand);
    if is_read_op(m) {
        read_cycles(r, ram, mode, operand)
    } else if m == Mnemonic::Sta || m == Mnemonic::Stx || m == Mnemonic::Sty {
        write_cycles(r, ram, mode, operand) + dma_cycles(address) + match mode {
            Mode::ZeroPageX | Mode::ZeroPageY | Mode::AbsoluteX | Mode::AbsoluteY | Mode::IndirectY => 1nat,
            _ => 0nat,
        }
    } else if m == Mnemonic::Asl || m == Mnemonic::Lsr || m == Mnemonic::Rol || m == Mnemonic::Ror {
        match mode {
            Mode::Accumulator => 1,
            Mode::ZeroPage | Mode::Absolute => 3,
            Mode::ZeroPageX => 4,
            _ => 4 + bit_nat(crosses_page(operand, r.x)),
        }
    } else if m == Mnemonic::Inc || m == Mnemonic::Dec {
        if mode == Mode::ZeroPage || mode == Mode::Absolute { 3 } else { 4 }
    } else if is_register_op(m) {
        1
    } else if m == Mnemonic::Pha || m == Mnemonic::Php {
        2
    } else if m == Mnemonic::Pla || m == Mnemonic::Plp {
        3
    } else if m == Mnemonic::Jmp {
        if mode == Mode::Absolute { 0 } else { 2 }
    } else if m == Mnemonic::Jsr {
        3
    } else if m == Mnemonic::Rts || m == Mnemonic::Rti {
        5
    } else if is_branch(m) {
        if branch_taken(m, r.p) {
            1 + bit_nat(r.pc & 0xFF00 != spec_branch_target(r.pc, operand as u8) & 0xFF00)
        } else {
            0
        }
    } else if m == Mnemonic::Nop {
        match mode {
            Mode::Immediate => 0,
            Mode::ZeroPageX => 2,
            Mode::AbsoluteX => 1 + bit_nat(crosses_page(operand, r.x)),
            _ => 1,
        }
    } else {
        0
    }
}

/// The instruction's cycle count, where it succeeds, is the one `spec_cycles`
/// gives: it is no read-modify-write of $4014.
pub open spec fn is_timed(r: RegisterFile, ram: [u8; 0x800], instruction: Instruction) -> bool {
    let m = instruction.mnemonic;
    let address = spec_address(r, ram, instruction.mode, instruction.operand);
    if m == Mnemonic::Asl || m == Mnemonic::Lsr || m == Mnemonic::Rol || m == Mnemonic::Ror || m == Mnemonic::Inc
        || m == Mnemonic::Dec {
        instruction.mode == Mode::Accumulator || address != 0x4014
    } else {
        true
    }
}

/// The flags a shift, rotate, increment or decrement leaves: Z when the
/// result is 0, N when it is 128 or more, C (where `carry` is `Some`) as
/// given, and every other flag of `p` kept.
pub open spec fn modify_flags_are(p: u8, flags: u8, result: u8, carry: Option<bool>) -> bool {
    &&& (flags & StatusRegister::ZERO == StatusRegister::ZERO) == (result == 0)
    &&& (flags & StatusRegister::NEGATIVE == StatusRegister::NEGATIVE) == (result >= 128)
    &&& match carry {
        Some(c) => {
            &&& (flags & StatusRegister::CARRY == StatusRegister::CARRY) == c
            &&& flags & 0b0111_1100 == p & 0b0111_1100
        },
        None => flags & 0b0111_1101 == p & 0b0111_1101,
    }
}

/// The shifts and rotates as arithmetic, with `c` the carry before (0 or 1):
/// ASL doubles (modulo 256) and carries out the old bit 7; LSR halves and
/// carries out the old bit 0; ROL doubles and brings the old carry into bit
/// 0; ROR halves and brings the old carry into bit 7. INC and DEC add and
/// take one modulo 256 and leave the carry.
pub proof fn lemma_modify(p: u8, value: u8)
    ensures
        ({
            let c: int = if p & StatusRegister::CARRY == StatusRegister::CARRY { 1 } else { 0 };
            let (asl, asl_p) = spec_modify(Mnemonic::Asl, p, value);
            let (lsr, lsr_p) = spec_modify(Mnemonic::Lsr, p, value);
            let (rol, rol_p) = spec_modify(Mnemonic::Rol, p, value);
            let (ror, ror_p) = spec_modify(Mnemonic::Ror, p, value);
            let (inc, inc_p) = spec_modify(Mnemonic::Inc, p, value);
            let (dec, dec_p) = spec_modify(Mnemonic::Dec, p, value);
            &&& asl as int == (2 * value) % 256 && modify_flags_are(p, asl_p, asl, Some(value >= 128))
            &&& lsr as int == value / 2 && modify_flags_are(p, lsr_p, lsr, Some(value % 2 == 1))
            &&& rol as int == (2 * value) % 256 + c && modify_flags_are(p, rol_p, rol, Some(value >= 128))
            &&& ror as int == value / 2 + 128 * c && modify_flags_are(p, ror_p, ror, Some(value % 2 == 1))
            &&& inc as int == (value + 1) % 256 && modify_flags_are(p, inc_p, inc, None)
            &&& dec as int == (value + 255) % 256 && modify_flags_are(p, dec_p, dec, None)
        }),
{
    let ci: u8 = if p & 1u8 == 1u8 { 1 } else { 0 };
    let carry_in = p & 1u8 == 1u8;
    assert({
        let r = value << 1u8;
        let f = spec_set_flag(spec_set_flag(spec_set_flag(p, 2u8, r == 0), 0x80u8, r & 0x80 != 0), 1u8, value & 0x80 != 0);
        &&& r as int == (2 * value) % 256
        &&& (f & 2u8 == 2u8) == (r == 0) && (f & 0x80u8 == 0x80u8) == (r >= 128)
        &&& (f & 1u8 == 1u8) == (value >= 128) && f & 0x7Cu8 == p & 0x7Cu8
        &&& {
            let h = value >> 1u8;
            let g = spec_set_flag(spec_set_flag(spec_set_flag(p, 2u8, h == 0), 0x80u8, h & 0x80 != 0), 1u8, value & 1 != 0);
            &&& h as int == value / 2
            &&& (g & 2u8 == 2u8) == (h == 0) && (g & 0x80u8 == 0x80u8) == (h >= 128)
            &&& (g & 1u8 == 1u8) == (value % 2 == 1) && g & 0x7Cu8 == p & 0x7Cu8
        }
    }) by (bit_vector);
    assert({
        let r = (value << 1u8) | (if carry_in { 1u8 } else { 0u8 });
        let f = spec_set_flag(spec_set_flag(spec_set_flag(p, 2u8, r == 0), 0x80u8, r & 0x80 != 0), 1u8, value & 0x80 != 0);
        &&& r as int == (2 * value) % 256 + ci
        &&& (f & 2u8 == 2u8) == (r == 0) && (f & 0x80u8 == 0x80u8) == (r >= 128)
        &&& (f & 1u8 == 1u8) == (value >= 128) && f & 0x7Cu8 == p & 0x7Cu8
    }) by (bit_vector)
        requires
            carry_in == (p & 1u8 == 1u8),
            ci == (if p & 1u8 == 1u8 { 1u8 } else { 0u8 }),
    ;
    assert({
        let r = (value >> 1u8) | (if carry_in { 0x80u8 } else { 0u8 });
        let f = spec_set_flag(spec_set_flag(spec_set_flag(p, 2u8, r == 0), 0x80u8, r & 0x80 != 0), 1u8, value & 1 != 0);
        &&& r as int == value / 2 + 128 * ci
        &&& (f & 2u8 == 2u8) == (r == 0) && (f & 0x80u8 == 0x80u8) == (r >= 128)
        &&& (f & 1u8 == 1u8) == (value % 2 == 1) && f & 0x7Cu8 == p & 0x7Cu8
    }) by (bit_vector)
        requires
            carry_in == (p & 1u8 == 1u8),
            ci == (if p & 1u8 == 1u8 { 1u8 } else { 0u8 }),
    ;
    assert({
        let r = value.wrapping_add(1);
        let f = spec_set_flag(spec_set_flag(p, 2u8, r == 0), 0x80u8, r & 0x80 != 0);
        let d = value.wrapping_sub(1);
        let g = spec_set_flag(spec_set_flag(p, 2u8, d == 0), 0x80u8, d & 0x80 != 0);
        &&& r as int == (value + 1) % 256
        &&& (f & 2u8 == 2u8) == (r == 0) && (f & 0x80u8 == 0x80u8) == (r >= 128) && f & 0x7Du8 == p & 0x7Du8
        &&& d as int == (value + 255) % 256
        &&& (g & 2u8 == 2u8) == (d == 0) && (g & 0x80u8 == 0x80u8) == (d >= 128) && g & 0x7Du8 == p & 0x7Du8
    }) by (bit_vector);
}

/// The addressing modes as arithmetic on the operand `n` and its low byte
/// `b`: zero page indexing wraps within the zero page, absolute indexing
/// wraps at 0x10000; (zp,X) reads its pointer, low byte first, at `b + X`
/// in the zero page, and (zp),Y adds Y to the pointer at `b`; an index
/// crosses a page when it carries out of the low byte.
pub proof fn lemma_addressing(r: RegisterFile, ram: [u8; 0x800], n: u16)
    ensures
        ({
            let b = n as int % 256;
            let word = |at: int| ram[(at + 1) % 256] * 256 + ram[at % 256];
            &&& spec_address(r, ram, Mode::ZeroPage, n) as int == b
            &&& spec_address(r, ram, Mode::ZeroPageX, n) as int == (b + r.x) % 256
            &&& spec_address(r, ram, Mode::ZeroPageY, n) as int == (b + r.y) % 256
            &&& spec_address(r, ram, Mode::Absolute, n) == n
            &&& spec_address(r, ram, Mode::AbsoluteX, n) as int == (n + r.x) % 0x10000
            &&& spec_address(r, ram, Mode::AbsoluteY, n) as int == (n + r.y) % 0x10000
            &&& spec_address(r, ram, Mode::IndirectX, n) as int == word(b + r.x)
            &&& spec_address(r, ram, Mode::IndirectY, n) as int == (word(b) + r.y) % 0x10000
            &&& crosses_page(n, r.x) == (b + r.x >= 256)
        }),
{
    lemma_low_byte(n);
    let b = n as u8;
    let bx = b.wrapping_add(r.x);
    assert(0 <= ram[bx.wrapping_add(1) as int] * 256 + ram[bx as int] < 0x10000);
    assert(0 <= ram[b.wrapping_add(1) as int] * 256 + ram[b as int] < 0x10000);
    assert(bx as int == (b + r.x) % 256);
    assert(bx.wrapping_add(1) as int == (b + r.x + 1) % 256);
    assert(b.wrapping_add(1) as int == (b + 1) % 256);
}

/// The time of an instruction that reads memory (loads, logic, arithmetic,
/// comparisons, BIT), its fetch included, as the 6502 takes it: 2 cycles
/// immediate, 3 zero page, 4 zero page indexed or absolute, 4 absolute
/// indexed and one more where the index crosses a page, 6 for (zp,X), and 5
/// for (zp),Y and one more where Y crosses a page.
pub proof fn lemma_read_timing(r: RegisterFile, ram: [u8; 0x800], instruction: Instruction)
    requires
        is_read_op(instruction.mnemonic),
        instruction.mode != Mode::Implied && instruction.mode != Mode::Accumulator && instruction.mode
            != Mode::Indirect && instruction.mode != Mode::Relative,
    ensures
        ({
            let n = instruction.operand;
            let total = 1 + spec_operand_length(instruction.mode) + spec_cycles(r, ram, instruction);
            total == match instruction.mode {
                Mode::Immediate => 2,
                Mode::ZeroPage => 3,
                Mode::ZeroPageX | Mode::ZeroPageY | Mode::Absolute => 4,
                Mode::AbsoluteX => 4 + bit_nat(n as int % 256 + r.x >= 256),
                Mode::AbsoluteY => 4 + bit_nat(n as int % 256 + r.y >= 256),
                Mode::IndirectX => 6,
                _ => 5 + bit_nat(zero_page_word(ram, n as u8) as int % 256 + r.y >= 256),
            }
        }),
{
    let n = instruction.operand;
    assert((n as u8) as int == n as int % 256 && (zero_page_word(ram, n as u8) as u8) as int == zero_page_word(
        ram,
        n as u8,
    ) as int % 256) by {
        lemma_low_byte(n);
        lemma_low_byte(zero_page_word(ram, n as u8));
    }
}

/// The low byte of `n` is `n` modulo 256.
proof fn lemma_low_byte(n: u16)
    ensures
        (n as u8) as int == n as int % 256,
{
    assert((n as u8) as int == n as int % 256) by (bit_vector);
}

/// CMP, CPX and CPY compare as an unsigned subtraction `a - b`: C when
/// `a >= b`, Z when they are equal, N from the difference modulo 256 being
/// 128 or more; the other flags are kept.
pub proof fn lemma_compare(p: u8, a: u8, b: u8)
    ensures
        ({
            let f = spec_compare(p, a, b);
            &&& (f & StatusRegister::CARRY == StatusRegister::CARRY) == (a >= b)
            &&& (f & StatusRegister::ZERO == StatusRegister::ZERO) == (a == b)
            &&& (f & StatusRegister::NEGATIVE == StatusRegister::NEGATIVE) == ((a - b + 256) % 256 >= 128)
            &&& f & 0b0111_1100 == p & 0b0111_1100
        }),
{
    let d = a.wrapping_sub(b);
    assert({
        let f = spec_set_flag(spec_set_flag(spec_set_flag(p, 2u8, d == 0), 0x80u8, d & 0x80 != 0), 1u8, a >= b);
        &&& (f & 1u8 == 1u8) == (a >= b)
        &&& (f & 2u8 == 2u8) == (a == b)
        &&& (f & 0x80u8 == 0x80u8) == ((a - b + 256) % 256 >= 128)
        &&& f & 0x7Cu8 == p & 0x7Cu8
    }) by (bit_vector)
        requires
            d == a.wrapping_sub(b),
    ;
}

/// The branch opcodes are `xxy10000`: each branches when flag `xx` (N, V,
/// C, Z in that order) equals `y`, to the displaced address.
pub proof fn lemma_branch_opcodes(op: u8, p: u8)
    requires
        op % 32 == 0x10,
    ensures
        ({
            let flag: bool = if op / 64 == 0 {
                p >= 128
            } else if op / 64 == 1 {
                (p / 64) % 2 == 1
            } else if op / 64 == 2 {
                p % 2 == 1
            } else {
                (p / 2) % 2 == 1
            };
            spec_opcode(op) matches Some((m, mode)) && mode == Mode::Relative && is_branch(m)
                && branch_taken(m, p) == (flag == ((op / 32) % 2 == 1))
        }),
{
    lemma_opcode_matrix(op);
    assert({
        &&& (p & 0x80u8 == 0x80u8) == (p >= 128)
        &&& (p & 0x40u8 == 0x40u8) == ((p / 64) % 2 == 1)
        &&& (p & 1u8 == 1u8) == (p % 2 == 1)
        &&& (p & 2u8 == 2u8) == ((p / 2) % 2 == 1)
    }) by (bit_vector);
}

/// The carry bit is set or clear.
proof fn lemma_carry_bit(x: u8)
    ensures
        x & 1u8 == 1u8 || x & 1u8 == 0u8,
{
    assert(x & 1u8 == 1u8 || x & 1u8 == 0u8) by (bit_vector);
}

/// ROL undoes ROR, and ROR undoes ROL: the value and the carry come back.
pub proof fn lemma_rotates_undo(p: u8, value: u8)
    ensures
        ({
            let (ror, ror_p) = spec_modify(Mnemonic::Ror, p, value);
            let (back, back_p) = spec_modify(Mnemonic::Rol, ror_p, ror);
            back == value && back_p & StatusRegister::CARRY == p & StatusRegister::CARRY
        }),
        ({
            let (rol, rol_p) = spec_modify(Mnemonic::Rol, p, value);
            let (back, back_p) = spec_modify(Mnemonic::Ror, rol_p, rol);
            back == value && back_p & StatusRegister::CARRY == p & StatusRegister::CARRY
        }),
{
    lemma_modify(p, value);
    let (ror, ror_p) = spec_modify(Mnemonic::Ror, p, value);
    lemma_modify(ror_p, ror);
    let (rol, rol_p) = spec_modify(Mnemonic::Rol, p, value);
    lemma_modify(rol_p, rol);
    lemma_carry_bit(p);
    lemma_carry_bit(ror_p);
    lemma_carry_bit(rol_p);
    let c: int = if p & 1u8 == 1u8 { 1 } else { 0 };
    let (b1, b1_p) = spec_modify(Mnemonic::Rol, ror_p, ror);
    let (b2, b2_p) = spec_modify(Mnemonic::Ror, rol_p, rol);
    assert((2 * (value / 2 + 128 * c)) % 256 + value % 2 == value) by (nonlinear_arith)
        requires
            0 <= value < 256,
            0 <= c <= 1,
    ;
    assert(((2 * value) % 256 + c) / 2 + 128 * (if value >= 128 { 1int } else { 0 }) == value) by (nonlinear_arith)
        requires
            0 <= value < 256,
            0 <= c <= 1,
    ;
    assert((value / 2 + 128 * c >= 128) == (c == 1)) by (nonlinear_arith)
        requires
            0 <= value < 256,
            0 <= c <= 1,
    ;
    assert((((2 * value) % 256 + c) % 2 == 1) == (c == 1)) by (nonlinear_arith)
        requires
            0 <= value < 256,
            0 <= c <= 1,
    ;
    assert(b1 as int == value);
    assert(b2 as int == value);
    lemma_carry_bit(b1_p);
    lemma_carry_bit(b2_p);
}

/// ADC (and SBC, which adds the complement) as the 6502 does it: the result
/// is `a + b + C` modulo 256; C is set when that sum passes 255, Z when the
/// result is 0, N from bit 7 of the result, V when both operands' sign
/// differs from the result's; the other flags are kept.
pub proof fn lemma_adc(a: u8, b: u8, p: u8)
    ensures
        ({
            let (result, flags) = spec_adc(a, b, p);
            let c: int = if p & StatusRegister::CARRY == StatusRegister::CARRY { 1 } else { 0 };
            &&& result as int == (a + b + c) % 256
            &&& (flags & StatusRegister::CARRY == StatusRegister::CARRY) == (a + b + c > 255)
            &&& (flags & StatusRegister::ZERO == StatusRegister::ZERO) == (result == 0)
            &&& (flags & StatusRegister::NEGATIVE == StatusRegister::NEGATIVE) == (result & 0x80 != 0)
            &&& (flags & StatusRegister::OVERFLOW == StatusRegister::OVERFLOW) == ((a ^ result) & (b ^ result) & 0x80 != 0)
            &&& flags & 0b0011_1100 == p & 0b0011_1100
        }),
{
    let (result, flags) = spec_adc(a, b, p);
    let ci: u8 = if p & 1u8 == 1u8 { 1 } else { 0 };
    lemma_adc_adds(a, b, p);
    let carry = a + b > 255 || (p & 1u8 == 1u8 && a.wrapping_add(b) + 1 > 255);
    let overflow = (a ^ result) & (b ^ result) & 0x80 != 0;
    assert(result == a.wrapping_add(b).wrapping_add(ci));
    assert(result as int == (a + b + ci) % 256) by (bit_vector)
        requires
            result == a.wrapping_add(b).wrapping_add(ci),
            ci <= 1,
    ;
    assert({
        let q = spec_set_flag(spec_set_flag(p, 2u8, result == 0), 0x80u8, result & 0x80 != 0);
        let f = spec_set_flag(spec_set_flag(q, 1u8, carry), 0x40u8, overflow);
        &&& (f & 2u8 == 2u8) == (result == 0)
        &&& (f & 0x80u8 == 0x80u8) == (result & 0x80 != 0)
        &&& (f & 0x40u8 == 0x40u8) == overflow
        &&& f & 0b0011_1100u8 == p & 0b0011_1100u8
    }) by (bit_vector);
}

/// ADC adds: the result and the carry out together are `a + b + C`.
pub proof fn lemma_adc_adds(a: u8, b: u8, p: u8)
    ensures
        ({
            let (result, flags) = spec_adc(a, b, p);
            let carry_in: int = if p & StatusRegister::CARRY == StatusRegister::CARRY { 1 } else { 0 };
            let carry_out: int = if flags & StatusRegister::CARRY == StatusRegister::CARRY { 1 } else { 0 };
            result + 256 * carry_out == a + b + carry_in
        }),
{
    let carry_in = p & StatusRegister::CARRY == StatusRegister::CARRY;
    let sum = a.wrapping_add(b);
    let carry = a + b > 255 || (carry_in && sum + 1 > 255);
    let result = if carry_in { sum.wrapping_add(1) } else { sum };
    let overflow = (a ^ result) & (b ^ result) & 0x80 != 0;
    let q = spec_nz(p, result);
    let f = spec_set_flag(spec_set_flag(q, StatusRegister::CARRY, carry), StatusRegister::OVERFLOW, overflow);
    assert(spec_set_flag(spec_set_flag(q, 1u8, carry), 0x40u8, overflow) & 1u8 == 1u8 <==> carry) by (bit_vector);
    assert(f & StatusRegister::CARRY == StatusRegister::CARRY <==> carry);
}

/// ADC overflows exactly when the signed sum `a + b + C`, reading `a` and
/// `b` as signed bytes, leaves -128..127.
pub proof fn lemma_adc_overflow(a: u8, b: u8, p: u8)
    ensures
        ({
            let (result, flags) = spec_adc(a, b, p);
            let carry_in: int = if p & StatusRegister::CARRY == StatusRegister::CARRY { 1 } else { 0 };
            let signed_a: int = if a < 128 { a as int } else { a - 256 };
            let signed_b: int = if b < 128 { b as int } else { b - 256 };
            (flags & StatusRegister::OVERFLOW != 0) == !(-128 <= signed_a + signed_b + carry_in <= 127)
        }),
{
    let c: u8 = if p & StatusRegister::CARRY == StatusRegister::CARRY { 1 } else { 0 };
    let result = a.wrapping_add(b).wrapping_add(c);
    assert(result == if p & StatusRegister::CARRY == StatusRegister::CARRY { a.wrapping_add(b).wrapping_add(1) } else { a.wrapping_add(b) });
    let overflow = (a ^ result) & (b ^ result) & 0x80 != 0;
    assert(c <= 1 ==> (((a ^ a.wrapping_add(b).wrapping_add(c)) & (b ^ a.wrapping_add(b).wrapping_add(c)) & 0x80
        != 0) == !(-128 <= (if a < 128 { a as int } else { a - 256 }) + (if b < 128 { b as int } else { b - 256 })
        + c <= 127))) by (bit_vector);
    let q = spec_nz(p, result);
    let carry = a + b > 255 || (p & StatusRegister::CARRY == StatusRegister::CARRY && a.wrapping_add(b) + 1 > 255);
    assert(spec_set_flag(spec_set_flag(q, 1u8, carry), 0x40u8, overflow) & 0x40u8 != 0 <==> overflow) by (bit_vector);
}

/// Setting a flag makes `contains` report it; clearing it makes `contains` deny it.
pub proof fn lemma_set_flag_reports(p: u8, flag: u8, value: bool)
    requires
        flag != 0,
    ensures
        (spec_set_flag(p, flag, value) & flag == flag) == value,
{
    if value {
        assert((p | flag) & flag == flag) by (bit_vector);
    } else {
        assert(flag != 0 ==> (p & !flag) & flag != flag) by (bit_vector);
    }
}

/// What a push stores, the next pull gives back, and the stack pointer
/// returns to where it was.
pub proof fn lemma_push_then_pull(ram: [u8; 0x800], new_ram: [u8; 0x800], sp: u8, value: u8)
    requires
        new_ram@ == ram@.update(stack_address(sp) as int, value),
    ensures
        new_ram[stack_address(sp.wrapping_sub(1).wrapping_add(1)) as int] == value,
        sp.wrapping_sub(1).wrapping_add(1) == sp,
{
}

/// RTS returns to the instruction after the JSR that called: JSR at `pc`
/// (the address after its operand) pushes `pc - 1`, and RTS pulls it and adds one.
pub proof fn lemma_jsr_then_rts(ram: [u8; 0x800], new_ram: [u8; 0x800], sp: u8, pc: u16)
    requires
        new_ram@ == ram@.update(stack_address(sp) as int, (pc.wrapping_sub(1) >> 8u16) as u8).update(
            stack_address(sp.wrapping_sub(1)) as int,
            (pc.wrapping_sub(1) & 0xFF) as u8,
        ),
    ensures
        spec_stack_word(new_ram, sp.wrapping_sub(1).wrapping_sub(1)).wrapping_add(1) == pc,
        sp.wrapping_sub(1).wrapping_sub(1).wrapping_add(1).wrapping_add(1) == sp,
{
    let back = pc.wrapping_sub(1);
    assert(stack_address(sp.wrapping_sub(1)) != stack_address(sp));
    assert(sp.wrapping_sub(1).wrapping_sub(1).wrapping_add(1) == sp.wrapping_sub(1));
    let hi = (back >> 8u16) as u8;
    let lo = (back & 0xFF) as u8;
    assert((hi as u16) * 256 + (lo as u16) == back) by (bit_vector)
        requires
            hi == (back >> 8u16) as u8,
            lo == (back & 0xFF) as u8;
}

/// RTI returns from an interrupt: the pulled program counter is the one the
/// interrupt pushed, and the pulled status is the old one with bit 5 set and
/// bit 4 clear.
pub proof fn lemma_interrupt_then_rti(ram: [u8; 0x800], new_ram: [u8; 0x800], sp: u8, pc: u16, p: u8)
    requires
        new_ram@ == ram@.update(stack_address(sp) as int, (pc >> 8u16) as u8).update(
            stack_address(sp.wrapping_sub(1)) as int,
            (pc & 0xFF) as u8,
        ).update(stack_address(sp.wrapping_sub(1).wrapping_sub(1)) as int, pushed_status(p)),
    ensures
        ({
            let base = sp.wrapping_sub(1).wrapping_sub(1).wrapping_sub(1);
            &&& pulled_status(new_ram[stack_address(base.wrapping_add(1)) as int]) == (p | StatusRegister::ENABLED)
                & !StatusRegister::BREAK
            &&& spec_stack_word(new_ram, base.wrapping_add(1)) == pc
            &&& base.wrapping_add(1).wrapping_add(1).wrapping_add(1) == sp
        }),
{
    let s1 = sp.wrapping_sub(1);
    let s2 = s1.wrapping_sub(1);
    assert(stack_address(s1) != stack_address(sp));
    assert(stack_address(s2) != stack_address(sp));
    assert(stack_address(s2) != stack_address(s1));
    assert(((p | 0x20u8 | 0x10u8) | 0x20u8) & !0x10u8 == (p | 0x20u8) & !0x10u8) by (bit_vector);
    let hi = (pc >> 8u16) as u8;
    let lo = (pc & 0xFF) as u8;
    assert((hi as u16) * 256 + (lo as u16) == pc) by (bit_vector)
        requires
            hi == (pc >> 8u16) as u8,
            lo == (pc & 0xFF) as u8;
}

} // verus!
