//! Instruction decoding: opcode bytes to mnemonics and addressing modes.

use vstd::prelude::*;

verus! {

#[derive(Clone, Copy, Debug, PartialEq, Eq, Structural)]
pub enum Mnemonic {
    Adc,
    And,
    Asl,
    Bcc,
    Bcs,
    Beq,
    Bit,
    Bmi,
    Bne,
    Bpl,
    Brk,
    Bvc,
    Bvs,
    Clc,
    Cld,
    Cli,
    Clv,
    Cmp,
    Cpx,
    Cpy,
    Dec,
    Dex,
    Dey,
    Eor,
    Inc,
    Inx,
    Iny,
    Jmp,
    Jsr,
    Lda,
    Ldx,
    Ldy,
    Lsr,
    Nop,
    Ora,
    Pha,
    Php,
    Pla,
    Plp,
    Rol,
    Ror,
    Rti,
    Rts,
    Sbc,
    Sec,
    Sed,
    Sei,
    Sta,
    Stp,
    Stx,
    Sty,
    Tax,
    Tay,
    Tsx,
    Txa,
    Txs,
    Tya,
}

#[derive(Clone, Copy, Debug, PartialEq, Eq, Structural)]
pub enum Mode {
    Implied,
    Accumulator,
    Immediate,
    ZeroPage,
    ZeroPageX,
    ZeroPageY,
    Absolute,
    AbsoluteX,
    AbsoluteY,
    Indirect,
    IndirectX,
    IndirectY,
    Relative,
}

/// A decoded instruction. `operand` is the immediate value, zero-page
/// offset, branch displacement or address that follows the opcode (0 where
/// the mode takes none).
#[derive(Clone, Copy, Debug, PartialEq, Eq, Structural)]
pub struct Instruction {
    pub mnemonic: Mnemonic,
    pub mode: Mode,
    pub operand: u16,
}

/// Something that carries out decoded instructions, producing a `T` for each.
pub trait Decoder<T>: Sized {
    /// `result` and `after` are what carrying out `instruction` from this
    /// state gives and leaves.
    spec fn carries_out(&self, instruction: Instruction, result: T, after: Self) -> bool;

    fn instruction(&mut self, instruction: Instruction) -> (r: T)
        ensures
            old(self).carries_out(instruction, r, *final(self)),
    ;

    /// Decodes the instruction at the start of `bytes` and carries it out;
    /// returns the result with the instruction's length, or `None`, leaving
    /// everything as it was, where nothing can be decoded there.
    fn decode(&mut self, bytes: &[u8]) -> (r: Option<(T, usize)>)
        ensures
            r is Some <==> spec_decode(bytes@) is Some,
            match r {
                Some((result, length)) => {
                    &&& length == spec_decode(bytes@).unwrap().1
                    &&& old(self).carries_out(spec_decode(bytes@).unwrap().0, result, *final(self))
                },
                None => *final(self) == *old(self),
            },
    {
        match decode(bytes) {
            None => None,
            Some((instruction, length)) => Some((self.instruction(instruction), length)),
        }
    }
}

/// The mnemonic and mode of opcode `op`, or `None` for the opcodes that are
/// not supported.
pub open spec fn spec_opcode(op: u8) -> Option<(Mnemonic, Mode)> {
    match op {
        0x00 => Some((Mnemonic::Brk, Mode::Implied)),
        0x01 => Some((Mnemonic::Ora, Mode::IndirectX)),
        0x02 => Some((Mnemonic::Stp, Mode::Implied)),
        0x03 => None,
        0x04 => Some((Mnemonic::Nop, Mode::ZeroPage)),
        0x05 => Some((Mnemonic::Ora, Mode::ZeroPage)),
        0x06 => Some((Mnemonic::Asl, Mode::ZeroPage)),
        0x07 => None,
        0x08 => Some((Mnemonic::Php, Mode::Implied)),
        0x09 => Some((Mnemonic::Ora, Mode::Immediate)),
        0x0A => Some((Mnemonic::Asl, Mode::Accumulator)),
        0x0B => None,
        0x0C => Some((Mnemonic::Nop, Mode::Absolute)),
        0x0D => Some((Mnemonic::Ora, Mode::Absolute)),
        0x0E => Some((Mnemonic::Asl, Mode::Absolute)),
        0x0F => None,
        0x10 => Some((Mnemonic::Bpl, Mode::Relative)),
        0x11 => Some((Mnemonic::Ora, Mode::IndirectY)),
        0x12 => Some((Mnemonic::Stp, Mode::Implied)),
        0x13 => None,
        0x14 => Some((Mnemonic::Nop, Mode::ZeroPageX)),
        0x15 => Some((Mnemonic::Ora, Mode::ZeroPageX)),
        0x16 => Some((Mnemonic::Asl, Mode::ZeroPageX)),
        0x17 => None,
        0x18 => Some((Mnemonic::Clc, Mode::Implied)),
        0x19 => Some((Mnemonic::Ora, Mode::AbsoluteY)),
        0x1A => Some((Mnemonic::Nop, Mode::Implied)),
        0x1B => None,
        0x1C => Some((Mnemonic::Nop, Mode::AbsoluteX)),
        0x1D => Some((Mnemonic::Ora, Mode::AbsoluteX)),
        0x1E => Some((Mnemonic::Asl, Mode::AbsoluteX)),
        0x1F => None,
        0x20 => Some((Mnemonic::Jsr, Mode::Absolute)),
        0x21 => Some((Mnemonic::And, Mode::IndirectX)),
        0x22 => Some((Mnemonic::Stp, Mode::Implied)),
        0x23 => None,
        0x24 => Some((Mnemonic::Bit, Mode::ZeroPage)),
        0x25 => Some((Mnemonic::And, Mode::ZeroPage)),
        0x26 => Some((Mnemonic::Rol, Mode::ZeroPage)),
        0x27 => None,
        0x28 => Some((Mnemonic::Plp, Mode::Implied)),
        0x29 => Some((Mnemonic::And, Mode::Immediate)),
        0x2A => Some((Mnemonic::Rol, Mode::Accumulator)),
        0x2B => None,
        0x2C => Some((Mnemonic::Bit, Mode::Absolute)),
        0x2D => Some((Mnemonic::And, Mode::Absolute)),
        0x2E => Some((Mnemonic::Rol, Mode::Absolute)),
        0x2F => None,
        0x30 => Some((Mnemonic::Bmi, Mode::Relative)),
        0x31 => Some((Mnemonic::And, Mode::IndirectY)),
        0x32 => Some((Mnemonic::Stp, Mode::Implied)),
        0x33 => None,
        0x34 => Some((Mnemonic::Nop, Mode::ZeroPageX)),
        0x35 => Some((Mnemonic::And, Mode::ZeroPageX)),
        0x36 => Some((Mnemonic::Rol, Mode::ZeroPageX)),
        0x37 => None,
        0x38 => Some((Mnemonic::Sec, Mode::Implied)),
        0x39 => Some((Mnemonic::And, Mode::AbsoluteY)),
        0x3A => Some((Mnemonic::Nop, Mode::Implied)),
        0x3B => None,
        0x3C => Some((Mnemonic::Nop, Mode::AbsoluteX)),
        0x3D => Some((Mnemonic::And, Mode::AbsoluteX)),
        0x3E => Some((Mnemonic::Rol, Mode::AbsoluteX)),
        0x3F => None,
        0x40 => Some((Mnemonic::Rti, Mode::Implied)),
        0x41 => Some((Mnemonic::Eor, Mode::IndirectX)),
        0x42 => Some((Mnemonic::Stp, Mode::Implied)),
        0x43 => None,
        0x44 => Some((Mnemonic::Nop, Mode::ZeroPage)),
        0x45 => Some((Mnemonic::Eor, Mode::ZeroPage)),
        0x46 => Some((Mnemonic::Lsr, Mode::ZeroPage)),
        0x47 => None,
        0x48 => Some((Mnemonic::Pha, Mode::Implied)),
        0x49 => Some((Mnemonic::Eor, Mode::Immediate)),
        0x4A => Some((Mnemonic::Lsr, Mode::Accumulator)),
        0x4B => None,
        0x4C => Some((Mnemonic::Jmp, Mode::Absolute)),
        0x4D => Some((Mnemonic::Eor, Mode::Absolute)),
        0x4E => Some((Mnemonic::Lsr, Mode::Absolute)),
        0x4F => None,
        0x50 => Some((Mnemonic::Bvc, Mode::Relative)),
        0x51 => Some((Mnemonic::Eor, Mode::IndirectY)),
        0x52 => Some((Mnemonic::Stp, Mode::Implied)),
        0x53 => None,
        0x54 => Some((Mnemonic::Nop, Mode::ZeroPageX)),
        0x55 => Some((Mnemonic::Eor, Mode::ZeroPageX)),
        0x56 => Some((Mnemonic::Lsr, Mode::ZeroPageX)),
        0x57 => None,
        0x58 => Some((Mnemonic::Cli, Mode::Implied)),
        0x59 => Some((Mnemonic::Eor, Mode::AbsoluteY)),
        0x5A => Some((Mnemonic::Nop, Mode::Implied)),
        0x5B => None,
        0x5C => Some((Mnemonic::Nop, Mode::AbsoluteX)),
        0x5D => Some((Mnemonic::Eor, Mode::AbsoluteX)),
        0x5E => Some((Mnemonic::Lsr, Mode::AbsoluteX)),
        0x5F => None,
        0x60 => Some((Mnemonic::Rts, Mode::Implied)),
        0x61 => Some((Mnemonic::Adc, Mode::IndirectX)),
        0x62 => Some((Mnemonic::Stp, Mode::Implied)),
        0x63 => None,
        0x64 => Some((Mnemonic::Nop, Mode::ZeroPage)),
        0x65 => Some((Mnemonic::Adc, Mode::ZeroPage)),
        0x66 => Some((Mnemonic::Ror, Mode::ZeroPage)),
        0x67 => None,
        0x68 => Some((Mnemonic::Pla, Mode::Implied)),
        0x69 => Some((Mnemonic::Adc, Mode::Immediate)),
        0x6A => Some((Mnemonic::Ror, Mode::Accumulator)),
        0x6B => None,
        0x6C => Some((Mnemonic::Jmp, Mode::Indirect)),
        0x6D => Some((Mnemonic::Adc, Mode::Absolute)),
        0x6E => Some((Mnemonic::Ror, Mode::Absolute)),
        0x6F => None,
        0x70 => Some((Mnemonic::Bvs, Mode::Relative)),
        0x71 => Some((Mnemonic::Adc, Mode::IndirectY)),
        0x72 => Some((Mnemonic::Stp, Mode::Implied)),
        0x73 => None,
        0x74 => Some((Mnemonic::Nop, Mode::ZeroPageX)),
        0x75 => Some((Mnemonic::Adc, Mode::ZeroPageX)),
        0x76 => Some((Mnemonic::Ror, Mode::ZeroPageX)),
        0x77 => None,
        0x78 => Some((Mnemonic::Sei, Mode::Implied)),
        0x79 => Some((Mnemonic::Adc, Mode::AbsoluteY)),
        0x7A => Some((Mnemonic::Nop, Mode::Implied)),
        0x7B => None,
        0x7C => Some((Mnemonic::Nop, Mode::AbsoluteX)),
        0x7D => Some((Mnemonic::Adc, Mode::AbsoluteX)),
        0x7E => Some((Mnemonic::Ror, Mode::AbsoluteX)),
        0x7F => None,
        0x80 => Some((Mnemonic::Nop, Mode::Immediate)),
        0x81 => Some((Mnemonic::Sta, Mode::IndirectX)),
        0x82 => Some((Mnemonic::Nop, Mode::Immediate)),
        0x83 => None,
        0x84 => Some((Mnemonic::Sty, Mode::ZeroPage)),
        0x85 => Some((Mnemonic::Sta, Mode::ZeroPage)),
        0x86 => Some((Mnemonic::Stx, Mode::ZeroPage)),
        0x87 => None,
        0x88 => Some((Mnemonic::Dey, Mode::Implied)),
        0x89 => Some((Mnemonic::Nop, Mode::Immediate)),
        0x8A => Some((Mnemonic::Txa, Mode::Implied)),
        0x8B => None,
        0x8C => Some((Mnemonic::Sty, Mode::Absolute)),
        0x8D => Some((Mnemonic::Sta, Mode::Absolute)),
        0x8E => Some((Mnemonic::Stx, Mode::Absolute)),
        0x8F => None,
        0x90 => Some((Mnemonic::Bcc, Mode::Relative)),
        0x91 => Some((Mnemonic::Sta, Mode::IndirectY)),
        0x92 => Some((Mnemonic::Stp, Mode::Implied)),
        0x93 => None,
        0x94 => Some((Mnemonic::Sty, Mode::ZeroPageX)),
        0x95 => Some((Mnemonic::Sta, Mode::ZeroPageX)),
        0x96 => Some((Mnemonic::Stx, Mode::ZeroPageY)),
        0x97 => None,
        0x98 => Some((Mnemonic::Tya, Mode::Implied)),
        0x99 => Some((Mnemonic::Sta, Mode::AbsoluteY)),
        0x9A => Some((Mnemonic::Txs, Mode::Implied)),
        0x9B => None,
        0x9C => None,
        0x9D => Some((Mnemonic::Sta, Mode::AbsoluteX)),
        0x9E => None,
        0x9F => None,
        0xA0 => Some((Mnemonic::Ldy, Mode::Immediate)),
        0xA1 => Some((Mnemonic::Lda, Mode::IndirectX)),
        0xA2 => Some((Mnemonic::Ldx, Mode::Immediate)),
        0xA3 => None,
        0xA4 => Some((Mnemonic::Ldy, Mode::ZeroPage)),
        0xA5 => Some((Mnemonic::Lda, Mode::ZeroPage)),
        0xA6 => Some((Mnemonic::Ldx, Mode::ZeroPage)),
        0xA7 => None,
        0xA8 => Some((Mnemonic::Tay, Mode::Implied)),
        0xA9 => Some((Mnemonic::Lda, Mode::Immediate)),
        0xAA => Some((Mnemonic::Tax, Mode::Implied)),
        0xAB => None,
        0xAC => Some((Mnemonic::Ldy, Mode::Absolute)),
        0xAD => Some((Mnemonic::Lda, Mode::Absolute)),
        0xAE => Some((Mnemonic::Ldx, Mode::Absolute)),
        0xAF => None,
        0xB0 => Some((Mnemonic::Bcs, Mode::Relative)),
        0xB1 => Some((Mnemonic::Lda, Mode::IndirectY)),
        0xB2 => Some((Mnemonic::Stp, Mode::Implied)),
        0xB3 => None,
        0xB4 => Some((Mnemonic::Ldy, Mode::ZeroPageX)),
        0xB5 => Some((Mnemonic::Lda, Mode::ZeroPageX)),
        0xB6 => Some((Mnemonic::Ldx, Mode::ZeroPageY)),
        0xB7 => None,
        0xB8 => Some((Mnemonic::Clv, Mode::Implied)),
        0xB9 => Some((Mnemonic::Lda, Mode::AbsoluteY)),
        0xBA => Some((Mnemonic::Tsx, Mode::Implied)),
        0xBB => None,
        0xBC => Some((Mnemonic::Ldy, Mode::AbsoluteX)),
        0xBD => Some((Mnemonic::Lda, Mode::AbsoluteX)),
        0xBE => Some((Mnemonic::Ldx, Mode::AbsoluteY)),
        0xBF => None,
        0xC0 => Some((Mnemonic::Cpy, Mode::Immediate)),
        0xC1 => Some((Mnemonic::Cmp, Mode::IndirectX)),
        0xC2 => Some((Mnemonic::Nop, Mode::Immediate)),
        0xC3 => None,
        0xC4 => Some((Mnemonic::Cpy, Mode::ZeroPage)),
        0xC5 => Some((Mnemonic::Cmp, Mode::ZeroPage)),
        0xC6 => Some((Mnemonic::Dec, Mode::ZeroPage)),
        0xC7 => None,
        0xC8 => Some((Mnemonic::Iny, Mode::Implied)),
        0xC9 => Some((Mnemonic::Cmp, Mode::Immediate)),
        0xCA => Some((Mnemonic::Dex, Mode::Implied)),
        0xCB => None,
        0xCC => Some((Mnemonic::Cpy, Mode::Absolute)),
        0xCD => Some((Mnemonic::Cmp, Mode::Absolute)),
        0xCE => Some((Mnemonic::Dec, Mode::Absolute)),
        0xCF => None,
        0xD0 => Some((Mnemonic::Bne, Mode::Relative)),
        0xD1 => Some((Mnemonic::Cmp, Mode::IndirectY)),
        0xD2 => Some((Mnemonic::Stp, Mode::Implied)),
        0xD3 => None,
        0xD4 => Some((Mnemonic::Nop, Mode::ZeroPageX)),
        0xD5 => Some((Mnemonic::Cmp, Mode::ZeroPageX)),
        0xD6 => Some((Mnemonic::Dec, Mode::ZeroPageX)),
        0xD7 => None,
        0xD8 => Some((Mnemonic::Cld, Mode::Implied)),
        0xD9 => Some((Mnemonic::Cmp, Mode::AbsoluteY)),
        0xDA => Some((Mnemonic::Nop, Mode::Implied)),
        0xDB => None,
        0xDC => Some((Mnemonic::Nop, Mode::AbsoluteX)),
        0xDD => Some((Mnemonic::Cmp, Mode::AbsoluteX)),
        0xDE => Some((Mnemonic::Dec, Mode::AbsoluteX)),
        0xDF => None,
        0xE0 => Some((Mnemonic::Cpx, Mode::Immediate)),
        0xE1 => Some((Mnemonic::Sbc, Mode::IndirectX)),
        0xE2 => Some((Mnemonic::Nop, Mode::Immediate)),
        0xE3 => None,
        0xE4 => Some((Mnemonic::Cpx, Mode::ZeroPage)),
        0xE5 => Some((Mnemonic::Sbc, Mode::ZeroPage)),
        0xE6 => Some((Mnemonic::Inc, Mode::ZeroPage)),
        0xE7 => None,
        0xE8 => Some((Mnemonic::Inx, Mode::Implied)),
        0xE9 => Some((Mnemonic::Sbc, Mode::Immediate)),
        0xEA => Some((Mnemonic::Nop, Mode::Implied)),
        0xEB => Some((Mnemonic::Sbc, Mode::Immediate)),
        0xEC => Some((Mnemonic::Cpx, Mode::Absolute)),
        0xED => Some((Mnemonic::Sbc, Mode::Absolute)),
        0xEE => Some((Mnemonic::Inc, Mode::Absolute)),
        0xEF => None,
        0xF0 => Some((Mnemonic::Beq, Mode::Relative)),
        0xF1 => Some((Mnemonic::Sbc, Mode::IndirectY)),
        0xF2 => Some((Mnemonic::Stp, Mode::Implied)),
        0xF3 => None,
        0xF4 => Some((Mnemonic::Nop, Mode::ZeroPageX)),
        0xF5 => Some((Mnemonic::Sbc, Mode::ZeroPageX)),
        0xF6 => Some((Mnemonic::Inc, Mode::ZeroPageX)),
        0xF7 => None,
        0xF8 => Some((Mnemonic::Sed, Mode::Implied)),
        0xF9 => Some((Mnemonic::Sbc, Mode::AbsoluteY)),
        0xFA => Some((Mnemonic::Nop, Mode::Implied)),
        0xFB => None,
        0xFC => Some((Mnemonic::Nop, Mode::AbsoluteX)),
        0xFD => Some((Mnemonic::Sbc, Mode::AbsoluteX)),
        0xFE => Some((Mnemonic::Inc, Mode::AbsoluteX)),
        0xFF => None,
    }
}

/// The accumulator operations of the `aaa bbb 01` column, by `aaa`.
pub open spec fn alu_mnemonic(a: int) -> Mnemonic {
    if a == 0 {
        Mnemonic::Ora
    } else if a == 1 {
        Mnemonic::And
    } else if a == 2 {
        Mnemonic::Eor
    } else if a == 3 {
        Mnemonic::Adc
    } else if a == 4 {
        Mnemonic::Sta
    } else if a == 5 {
        Mnemonic::Lda
    } else if a == 6 {
        Mnemonic::Cmp
    } else {
        Mnemonic::Sbc
    }
}

/// The addressing modes of the `aaa bbb 01` column, by `bbb`.
pub open spec fn alu_mode(b: int) -> Mode {
    if b == 0 {
        Mode::IndirectX
    } else if b == 1 {
        Mode::ZeroPage
    } else if b == 2 {
        Mode::Immediate
    } else if b == 3 {
        Mode::Absolute
    } else if b == 4 {
        Mode::IndirectY
    } else if b == 5 {
        Mode::ZeroPageX
    } else if b == 6 {
        Mode::AbsoluteY
    } else {
        Mode::AbsoluteX
    }
}

/// The read-modify-write and X-register operations of the `aaa bbb 10`
/// column, by `aaa`.
pub open spec fn rmw_mnemonic(a: int) -> Mnemonic {
    if a == 0 {
        Mnemonic::Asl
    } else if a == 1 {
        Mnemonic::Rol
    } else if a == 2 {
        Mnemonic::Lsr
    } else if a == 3 {
        Mnemonic::Ror
    } else if a == 4 {
        Mnemonic::Stx
    } else if a == 5 {
        Mnemonic::Ldx
    } else if a == 6 {
        Mnemonic::Dec
    } else {
        Mnemonic::Inc
    }
}

/// The addressing mode of column `bbb` (1, 3, 5 or 7) of the memory
/// operations: zero page, absolute, and their indexed forms, indexed by Y
/// where the operation is STX or LDX (and for the absolute form, LDX only).
pub open spec fn memory_mode(b: int, by_y: bool, abs_by_y: bool) -> Mode {
    if b == 1 {
        Mode::ZeroPage
    } else if b == 3 {
        Mode::Absolute
    } else if b == 5 {
        if by_y { Mode::ZeroPageY } else { Mode::ZeroPageX }
    } else {
        if abs_by_y { Mode::AbsoluteY } else { Mode::AbsoluteX }
    }
}

/// The branches (`aaa 100 00`): on N, V, C, Z clear or set, by `aaa`.
pub open spec fn branch_mnemonic(a: int) -> Mnemonic {
    if a == 0 {
        Mnemonic::Bpl
    } else if a == 1 {
        Mnemonic::Bmi
    } else if a == 2 {
        Mnemonic::Bvc
    } else if a == 3 {
        Mnemonic::Bvs
    } else if a == 4 {
        Mnemonic::Bcc
    } else if a == 5 {
        Mnemonic::Bcs
    } else if a == 6 {
        Mnemonic::Bne
    } else {
        Mnemonic::Beq
    }
}

/// The one-byte operations of row `aaa 110 00`, by `aaa`.
pub open spec fn flag_mnemonic(a: int) -> Mnemonic {
    if a == 0 {
        Mnemonic::Clc
    } else if a == 1 {
        Mnemonic::Sec
    } else if a == 2 {
        Mnemonic::Cli
    } else if a == 3 {
        Mnemonic::Sei
    } else if a == 4 {
        Mnemonic::Tya
    } else if a == 5 {
        Mnemonic::Clv
    } else if a == 6 {
        Mnemonic::Cld
    } else {
        Mnemonic::Sed
    }
}

/// The one-byte operations of row `aaa 010 00`, by `aaa`.
pub open spec fn stack_mnemonic(a: int) -> Mnemonic {
    if a == 0 {
        Mnemonic::Php
    } else if a == 1 {
        Mnemonic::Plp
    } else if a == 2 {
        Mnemonic::Pha
    } else if a == 3 {
        Mnemonic::Pla
    } else if a == 4 {
        Mnemonic::Dey
    } else if a == 5 {
        Mnemonic::Tay
    } else if a == 6 {
        Mnemonic::Iny
    } else {
        Mnemonic::Inx
    }
}

/// The 6502 opcode matrix: opcode `aaa bbb cc` is read as an operation
/// chosen by `aaa` within column `cc`, with the addressing mode chosen by
/// `bbb`; the gaps are the unofficial opcodes, which are NOPs of each mode,
/// STP (the jams), or not supported (`None`), and 0xEB, which is SBC #.
pub open spec fn matrix_opcode(op: u8) -> Option<(Mnemonic, Mode)> {
    let a = op / 32;
    let b = (op / 4) % 8;
    let c = op % 4;
    if c == 1 {
        if a == 4 && b == 2 {
            Some((Mnemonic::Nop, Mode::Immediate))
        } else {
            Some((alu_mnemonic(a as int), alu_mode(b as int)))
        }
    } else if c == 3 {
        if a == 7 && b == 2 {
            Some((Mnemonic::Sbc, Mode::Immediate))
        } else {
            None
        }
    } else if c == 2 {
        if b == 0 {
            if a < 4 {
                Some((Mnemonic::Stp, Mode::Implied))
            } else if a == 5 {
                Some((Mnemonic::Ldx, Mode::Immediate))
            } else {
                Some((Mnemonic::Nop, Mode::Immediate))
            }
        } else if b == 4 {
            Some((Mnemonic::Stp, Mode::Implied))
        } else if b == 2 {
            if a < 4 {
                Some((rmw_mnemonic(a as int), Mode::Accumulator))
            } else if a == 4 {
                Some((Mnemonic::Txa, Mode::Implied))
            } else if a == 5 {
                Some((Mnemonic::Tax, Mode::Implied))
            } else if a == 6 {
                Some((Mnemonic::Dex, Mode::Implied))
            } else {
                Some((Mnemonic::Nop, Mode::Implied))
            }
        } else if b == 6 {
            if a == 4 {
                Some((Mnemonic::Txs, Mode::Implied))
            } else if a == 5 {
                Some((Mnemonic::Tsx, Mode::Implied))
            } else {
                Some((Mnemonic::Nop, Mode::Implied))
            }
        } else if a == 4 && b == 7 {
            None
        } else {
            Some((rmw_mnemonic(a as int), memory_mode(b as int, a == 4 || a == 5, a == 5)))
        }
    } else {
        if b == 4 {
            Some((branch_mnemonic(a as int), Mode::Relative))
        } else if b == 6 {
            Some((flag_mnemonic(a as int), Mode::Implied))
        } else if b == 2 {
            Some((stack_mnemonic(a as int), Mode::Implied))
        } else if b == 0 {
            if a == 0 {
                Some((Mnemonic::Brk, Mode::Implied))
            } else if a == 1 {
                Some((Mnemonic::Jsr, Mode::Absolute))
            } else if a == 2 {
                Some((Mnemonic::Rti, Mode::Implied))
            } else if a == 3 {
                Some((Mnemonic::Rts, Mode::Implied))
            } else if a == 4 {
                Some((Mnemonic::Nop, Mode::Immediate))
            } else if a == 5 {
                Some((Mnemonic::Ldy, Mode::Immediate))
            } else if a == 6 {
                Some((Mnemonic::Cpy, Mode::Immediate))
            } else {
                Some((Mnemonic::Cpx, Mode::Immediate))
            }
        } else if a == 4 && b == 7 {
            None
        } else if a == 4 {
            Some((Mnemonic::Sty, memory_mode(b as int, false, false)))
        } else if a == 5 {
            Some((Mnemonic::Ldy, memory_mode(b as int, false, false)))
        } else if (a == 6 || a == 7) && (b == 1 || b == 3) {
            Some((if a == 6 { Mnemonic::Cpy } else { Mnemonic::Cpx }, memory_mode(b as int, false, false)))
        } else if a == 1 && (b == 1 || b == 3) {
            Some((Mnemonic::Bit, memory_mode(b as int, false, false)))
        } else if a == 2 && b == 3 {
            Some((Mnemonic::Jmp, Mode::Absolute))
        } else if a == 3 && b == 3 {
            Some((Mnemonic::Jmp, Mode::Indirect))
        } else {
            Some((Mnemonic::Nop, memory_mode(b as int, false, false)))
        }
    }
}

/// Every opcode decodes as the 6502 opcode matrix has it.
pub proof fn lemma_opcode_matrix(op: u8)
    ensures
        spec_opcode(op) == matrix_opcode(op),
{
}

pub fn decode_opcode(op: u8) -> (r: Option<(Mnemonic, Mode)>)
    ensures
        r == spec_opcode(op),
{
    match op {
        0x00 => Some((Mnemonic::Brk, Mode::Implied)),
        0x01 => Some((Mnemonic::Ora, Mode::IndirectX)),
        0x02 => Some((Mnemonic::Stp, Mode::Implied)),
        0x03 => None,
        0x04 => Some((Mnemonic::Nop, Mode::ZeroPage)),
        0x05 => Some((Mnemonic::Ora, Mode::ZeroPage)),
        0x06 => Some((Mnemonic::Asl, Mode::ZeroPage)),
        0x07 => None,
        0x08 => Some((Mnemonic::Php, Mode::Implied)),
        0x09 => Some((Mnemonic::Ora, Mode::Immediate)),
        0x0A => Some((Mnemonic::Asl, Mode::Accumulator)),
        0x0B => None,
        0x0C => Some((Mnemonic::Nop, Mode::Absolute)),
        0x0D => Some((Mnemonic::Ora, Mode::Absolute)),
        0x0E => Some((Mnemonic::Asl, Mode::Absolute)),
        0x0F => None,
        0x10 => Some((Mnemonic::Bpl, Mode::Relative)),
        0x11 => Some((Mnemonic::Ora, Mode::IndirectY)),
        0x12 => Some((Mnemonic::Stp, Mode::Implied)),
        0x13 => None,
        0x14 => Some((Mnemonic::Nop, Mode::ZeroPageX)),
        0x15 => Some((Mnemonic::Ora, Mode::ZeroPageX)),
        0x16 => Some((Mnemonic::Asl, Mode::ZeroPageX)),
        0x17 => None,
        0x18 => Some((Mnemonic::Clc, Mode::Implied)),
        0x19 => Some((Mnemonic::Ora, Mode::AbsoluteY)),
        0x1A => Some((Mnemonic::Nop, Mode::Implied)),
        0x1B => None,
        0x1C => Some((Mnemonic::Nop, Mode::AbsoluteX)),
        0x1D => Some((Mnemonic::Ora, Mode::AbsoluteX)),
        0x1E => Some((Mnemonic::Asl, Mode::AbsoluteX)),
        0x1F => None,
        0x20 => Some((Mnemonic::Jsr, Mode::Absolute)),
        0x21 => Some((Mnemonic::And, Mode::IndirectX)),
        0x22 => Some((Mnemonic::Stp, Mode::Implied)),
        0x23 => None,
        0x24 => Some((Mnemonic::Bit, Mode::ZeroPage)),
        0x25 => Some((Mnemonic::And, Mode::ZeroPage)),
        0x26 => Some((Mnemonic::Rol, Mode::ZeroPage)),
        0x27 => None,
        0x28 => Some((Mnemonic::Plp, Mode::Implied)),
        0x29 => Some((Mnemonic::And, Mode::Immediate)),
        0x2A => Some((Mnemonic::Rol, Mode::Accumulator)),
        0x2B => None,
        0x2C => Some((Mnemonic::Bit, Mode::Absolute)),
        0x2D => Some((Mnemonic::And, Mode::Absolute)),
        0x2E => Some((Mnemonic::Rol, Mode::Absolute)),
        0x2F => None,
        0x30 => Some((Mnemonic::Bmi, Mode::Relative)),
        0x31 => Some((Mnemonic::And, Mode::IndirectY)),
        0x32 => Some((Mnemonic::Stp, Mode::Implied)),
        0x33 => None,
        0x34 => Some((Mnemonic::Nop, Mode::ZeroPageX)),
        0x35 => Some((Mnemonic::And, Mode::ZeroPageX)),
        0x36 => Some((Mnemonic::Rol, Mode::ZeroPageX)),
        0x37 => None,
        0x38 => Some((Mnemonic::Sec, Mode::Implied)),
        0x39 => Some((Mnemonic::And, Mode::AbsoluteY)),
        0x3A => Some((Mnemonic::Nop, Mode::Implied)),
        0x3B => None,
        0x3C => Some((Mnemonic::Nop, Mode::AbsoluteX)),
        0x3D => Some((Mnemonic::And, Mode::AbsoluteX)),
        0x3E => Some((Mnemonic::Rol, Mode::AbsoluteX)),
        0x3F => None,
        0x40 => Some((Mnemonic::Rti, Mode::Implied)),
        0x41 => Some((Mnemonic::Eor, Mode::IndirectX)),
        0x42 => Some((Mnemonic::Stp, Mode::Implied)),
        0x43 => None,
        0x44 => Some((Mnemonic::Nop, Mode::ZeroPage)),
        0x45 => Some((Mnemonic::Eor, Mode::ZeroPage)),
        0x46 => Some((Mnemonic::Lsr, Mode::ZeroPage)),
        0x47 => None,
        0x48 => Some((Mnemonic::Pha, Mode::Implied)),
        0x49 => Some((Mnemonic::Eor, Mode::Immediate)),
        0x4A => Some((Mnemonic::Lsr, Mode::Accumulator)),
        0x4B => None,
        0x4C => Some((Mnemonic::Jmp, Mode::Absolute)),
        0x4D => Some((Mnemonic::Eor, Mode::Absolute)),
        0x4E => Some((Mnemonic::Lsr, Mode::Absolute)),
        0x4F => None,
        0x50 => Some((Mnemonic::Bvc, Mode::Relative)),
        0x51 => Some((Mnemonic::Eor, Mode::IndirectY)),
        0x52 => Some((Mnemonic::Stp, Mode::Implied)),
        0x53 => None,
        0x54 => Some((Mnemonic::Nop, Mode::ZeroPageX)),
        0x55 => Some((Mnemonic::Eor, Mode::ZeroPageX)),
        0x56 => Some((Mnemonic::Lsr, Mode::ZeroPageX)),
        0x57 => None,
        0x58 => Some((Mnemonic::Cli, Mode::Implied)),
        0x59 => Some((Mnemonic::Eor, Mode::AbsoluteY)),
        0x5A => Some((Mnemonic::Nop, Mode::Implied)),
        0x5B => None,
        0x5C => Some((Mnemonic::Nop, Mode::AbsoluteX)),
        0x5D => Some((Mnemonic::Eor, Mode::AbsoluteX)),
        0x5E => Some((Mnemonic::Lsr, Mode::AbsoluteX)),
        0x5F => None,
        0x60 => Some((Mnemonic::Rts, Mode::Implied)),
        0x61 => Some((Mnemonic::Adc, Mode::IndirectX)),
        0x62 => Some((Mnemonic::Stp, Mode::Implied)),
        0x63 => None,
        0x64 => Some((Mnemonic::Nop, Mode::ZeroPage)),
        0x65 => Some((Mnemonic::Adc, Mode::ZeroPage)),
        0x66 => Some((Mnemonic::Ror, Mode::ZeroPage)),
        0x67 => None,
        0x68 => Some((Mnemonic::Pla, Mode::Implied)),
        0x69 => Some((Mnemonic::Adc, Mode::Immediate)),
        0x6A => Some((Mnemonic::Ror, Mode::Accumulator)),
        0x6B => None,
        0x6C => Some((Mnemonic::Jmp, Mode::Indirect)),
        0x6D => Some((Mnemonic::Adc, Mode::Absolute)),
        0x6E => Some((Mnemonic::Ror, Mode::Absolute)),
        0x6F => None,
        0x70 => Some((Mnemonic::Bvs, Mode::Relative)),
        0x71 => Some((Mnemonic::Adc, Mode::IndirectY)),
        0x72 => Some((Mnemonic::Stp, Mode::Implied)),
        0x73 => None,
        0x74 => Some((Mnemonic::Nop, Mode::ZeroPageX)),
        0x75 => Some((Mnemonic::Adc, Mode::ZeroPageX)),
        0x76 => Some((Mnemonic::Ror, Mode::ZeroPageX)),
        0x77 => None,
        0x78 => Some((Mnemonic::Sei, Mode::Implied)),
        0x79 => Some((Mnemonic::Adc, Mode::AbsoluteY)),
        0x7A => Some((Mnemonic::Nop, Mode::Implied)),
        0x7B => None,
        0x7C => Some((Mnemonic::Nop, Mode::AbsoluteX)),
        0x7D => Some((Mnemonic::Adc, Mode::AbsoluteX)),
        0x7E => Some((Mnemonic::Ror, Mode::AbsoluteX)),
        0x7F => None,
        0x80 => Some((Mnemonic::Nop, Mode::Immediate)),
        0x81 => Some((Mnemonic::Sta, Mode::IndirectX)),
        0x82 => Some((Mnemonic::Nop, Mode::Immediate)),
        0x83 => None,
        0x84 => Some((Mnemonic::Sty, Mode::ZeroPage)),
        0x85 => Some((Mnemonic::Sta, Mode::ZeroPage)),
        0x86 => Some((Mnemonic::Stx, Mode::ZeroPage)),
        0x87 => None,
        0x88 => Some((Mnemonic::Dey, Mode::Implied)),
        0x89 => Some((Mnemonic::Nop, Mode::Immediate)),
        0x8A => Some((Mnemonic::Txa, Mode::Implied)),
        0x8B => None,
        0x8C => Some((Mnemonic::Sty, Mode::Absolute)),
        0x8D => Some((Mnemonic::Sta, Mode::Absolute)),
        0x8E => Some((Mnemonic::Stx, Mode::Absolute)),
        0x8F => None,
        0x90 => Some((Mnemonic::Bcc, Mode::Relative)),
        0x91 => Some((Mnemonic::Sta, Mode::IndirectY)),
        0x92 => Some((Mnemonic::Stp, Mode::Implied)),
        0x93 => None,
        0x94 => Some((Mnemonic::Sty, Mode::ZeroPageX)),
        0x95 => Some((Mnemonic::Sta, Mode::ZeroPageX)),
        0x96 => Some((Mnemonic::Stx, Mode::ZeroPageY)),
        0x97 => None,
        0x98 => Some((Mnemonic::Tya, Mode::Implied)),
        0x99 => Some((Mnemonic::Sta, Mode::AbsoluteY)),
        0x9A => Some((Mnemonic::Txs, Mode::Implied)),
        0x9B => None,
        0x9C => None,
        0x9D => Some((Mnemonic::Sta, Mode::AbsoluteX)),
        0x9E => None,
        0x9F => None,
        0xA0 => Some((Mnemonic::Ldy, Mode::Immediate)),
        0xA1 => Some((Mnemonic::Lda, Mode::IndirectX)),
        0xA2 => Some((Mnemonic::Ldx, Mode::Immediate)),
        0xA3 => None,
        0xA4 => Some((Mnemonic::Ldy, Mode::ZeroPage)),
        0xA5 => Some((Mnemonic::Lda, Mode::ZeroPage)),
        0xA6 => Some((Mnemonic::Ldx, Mode::ZeroPage)),
        0xA7 => None,
        0xA8 => Some((Mnemonic::Tay, Mode::Implied)),
        0xA9 => Some((Mnemonic::Lda, Mode::Immediate)),
        0xAA => Some((Mnemonic::Tax, Mode::Implied)),
        0xAB => None,
        0xAC => Some((Mnemonic::Ldy, Mode::Absolute)),
        0xAD => Some((Mnemonic::Lda, Mode::Absolute)),
        0xAE => Some((Mnemonic::Ldx, Mode::Absolute)),
        0xAF => None,
        0xB0 => Some((Mnemonic::Bcs, Mode::Relative)),
        0xB1 => Some((Mnemonic::Lda, Mode::IndirectY)),
        0xB2 => Some((Mnemonic::Stp, Mode::Implied)),
        0xB3 => None,
        0xB4 => Some((Mnemonic::Ldy, Mode::ZeroPageX)),
        0xB5 => Some((Mnemonic::Lda, Mode::ZeroPageX)),
        0xB6 => Some((Mnemonic::Ldx, Mode::ZeroPageY)),
        0xB7 => None,
        0xB8 => Some((Mnemonic::Clv, Mode::Implied)),
        0xB9 => Some((Mnemonic::Lda, Mode::AbsoluteY)),
        0xBA => Some((Mnemonic::Tsx, Mode::Implied)),
        0xBB => None,
        0xBC => Some((Mnemonic::Ldy, Mode::AbsoluteX)),
        0xBD => Some((Mnemonic::Lda, Mode::AbsoluteX)),
        0xBE => Some((Mnemonic::Ldx, Mode::AbsoluteY)),
        0xBF => None,
        0xC0 => Some((Mnemonic::Cpy, Mode::Immediate)),
        0xC1 => Some((Mnemonic::Cmp, Mode::IndirectX)),
        0xC2 => Some((Mnemonic::Nop, Mode::Immediate)),
        0xC3 => None,
        0xC4 => Some((Mnemonic::Cpy, Mode::ZeroPage)),
        0xC5 => Some((Mnemonic::Cmp, Mode::ZeroPage)),
        0xC6 => Some((Mnemonic::Dec, Mode::ZeroPage)),
        0xC7 => None,
        0xC8 => Some((Mnemonic::Iny, Mode::Implied)),
        0xC9 => Some((Mnemonic::Cmp, Mode::Immediate)),
        0xCA => Some((Mnemonic::Dex, Mode::Implied)),
        0xCB => None,
        0xCC => Some((Mnemonic::Cpy, Mode::Absolute)),
        0xCD => Some((Mnemonic::Cmp, Mode::Absolute)),
        0xCE => Some((Mnemonic::Dec, Mode::Absolute)),
        0xCF => None,
        0xD0 => Some((Mnemonic::Bne, Mode::Relative)),
        0xD1 => Some((Mnemonic::Cmp, Mode::IndirectY)),
        0xD2 => Some((Mnemonic::Stp, Mode::Implied)),
        0xD3 => None,
        0xD4 => Some((Mnemonic::Nop, Mode::ZeroPageX)),
        0xD5 => Some((Mnemonic::Cmp, Mode::ZeroPageX)),
        0xD6 => Some((Mnemonic::Dec, Mode::ZeroPageX)),
        0xD7 => None,
        0xD8 => Some((Mnemonic::Cld, Mode::Implied)),
        0xD9 => Some((Mnemonic::Cmp, Mode::AbsoluteY)),
        0xDA => Some((Mnemonic::Nop, Mode::Implied)),
        0xDB => None,
        0xDC => Some((Mnemonic::Nop, Mode::AbsoluteX)),
        0xDD => Some((Mnemonic::Cmp, Mode::AbsoluteX)),
        0xDE => Some((Mnemonic::Dec, Mode::AbsoluteX)),
        0xDF => None,
        0xE0 => Some((Mnemonic::Cpx, Mode::Immediate)),
        0xE1 => Some((Mnemonic::Sbc, Mode::IndirectX)),
        0xE2 => Some((Mnemonic::Nop, Mode::Immediate)),
        0xE3 => None,
        0xE4 => Some((Mnemonic::Cpx, Mode::ZeroPage)),
        0xE5 => Some((Mnemonic::Sbc, Mode::ZeroPage)),
        0xE6 => Some((Mnemonic::Inc, Mode::ZeroPage)),
        0xE7 => None,
        0xE8 => Some((Mnemonic::Inx, Mode::Implied)),
        0xE9 => Some((Mnemonic::Sbc, Mode::Immediate)),
        0xEA => Some((Mnemonic::Nop, Mode::Implied)),
        0xEB => Some((Mnemonic::Sbc, Mode::Immediate)),
        0xEC => Some((Mnemonic::Cpx, Mode::Absolute)),
        0xED => Some((Mnemonic::Sbc, Mode::Absolute)),
        0xEE => Some((Mnemonic::Inc, Mode::Absolute)),
        0xEF => None,
        0xF0 => Some((Mnemonic::Beq, Mode::Relative)),
        0xF1 => Some((Mnemonic::Sbc, Mode::IndirectY)),
        0xF2 => Some((Mnemonic::Stp, Mode::Implied)),
        0xF3 => None,
        0xF4 => Some((Mnemonic::Nop, Mode::ZeroPageX)),
        0xF5 => Some((Mnemonic::Sbc, Mode::ZeroPageX)),
        0xF6 => Some((Mnemonic::Inc, Mode::ZeroPageX)),
        0xF7 => None,
        0xF8 => Some((Mnemonic::Sed, Mode::Implied)),
        0xF9 => Some((Mnemonic::Sbc, Mode::AbsoluteY)),
        0xFA => Some((Mnemonic::Nop, Mode::Implied)),
        0xFB => None,
        0xFC => Some((Mnemonic::Nop, Mode::AbsoluteX)),
        0xFD => Some((Mnemonic::Sbc, Mode::AbsoluteX)),
        0xFE => Some((Mnemonic::Inc, Mode::AbsoluteX)),
        0xFF => None,
    }
}

/// How many operand bytes follow an opcode of mode `mode`.
pub open spec fn spec_operand_length(mode: Mode) -> nat {
    match mode {
        Mode::Implied | Mode::Accumulator => 0,
        Mode::Absolute | Mode::AbsoluteX | Mode::AbsoluteY | Mode::Indirect => 2,
        _ => 1,
    }
}

pub fn operand_length(mode: Mode) -> (r: usize)
    ensures
        r == spec_operand_length(mode),
{
    match mode {
        Mode::Implied | Mode::Accumulator => 0,
        Mode::Absolute | Mode::AbsoluteX | Mode::AbsoluteY | Mode::Indirect => 2,
        _ => 1,
    }
}

/// The operand of `length` bytes at the start of `bytes` (little endian).
pub open spec fn spec_operand(bytes: Seq<u8>, length: nat) -> u16 {
    if length == 0 {
        0
    } else if length == 1 {
        bytes[0] as u16
    } else {
        (bytes[1] * 256 + bytes[0]) as u16
    }
}

/// The instruction at the start of `bytes` and its length, or `None` where
/// the opcode is not supported or the bytes end before its operand does.
pub open spec fn spec_decode(bytes: Seq<u8>) -> Option<(Instruction, nat)> {
    if bytes.len() == 0 {
        None
    } else {
        match spec_opcode(bytes[0]) {
            None => None,
            Some((mnemonic, mode)) => {
                let length = spec_operand_length(mode);
                if bytes.len() < 1 + length {
                    None
                } else {
                    Some((
                        Instruction { mnemonic, mode, operand: spec_operand(bytes.subrange(1, bytes.len() as int), length) },
                        1 + length,
                    ))
                }
            },
        }
    }
}

/// Decodes the instruction at the start of `bytes`; returns it with its
/// length in bytes.
pub fn decode(bytes: &[u8]) -> (r: Option<(Instruction, usize)>)
    ensures
        match (r, spec_decode(bytes@)) {
            (None, None) => true,
            (Some((instruction, length)), Some((spec_instruction, spec_length))) =>
                instruction == spec_instruction && length == spec_length,
            _ => false,
        },
{
    if bytes.len() == 0 {
        return None;
    }
    let (mnemonic, mode) = match decode_opcode(bytes[0]) {
        None => {
            return None;
        },
        Some(opcode) => opcode,
    };
    let length = operand_length(mode);
    if bytes.len() < 1 + length {
        return None;
    }
    let operand: u16 = if length == 0 {
        0
    } else if length == 1 {
        bytes[1] as u16
    } else {
        let low = bytes[1] as u16;
        let high = bytes[2] as u16;
        assert((high << 8u16) | low == high * 256 + low) by (bit_vector)
            requires
                high < 256,
                low < 256;
        (high << 8) | low
    };
    assert(length >= 1 ==> bytes@.subrange(1, bytes@.len() as int)[0] == bytes@[1]);
    assert(length == 2 ==> bytes@.subrange(1, bytes@.len() as int)[1] == bytes@[2]);
    Some((Instruction { mnemonic, mode, operand }, 1 + length))
}

} // verus!
