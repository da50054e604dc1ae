//! Text for decoded instructions, in the usual assembler syntax.

use vstd::prelude::*;
use crate::decoder::{Decoder, Instruction, Mnemonic, Mode};
use crate::hex::{append_hex2, append_hex4, hex2, hex4, lemma_hex_digit};

verus! {

/// Disassembles instructions found at address `pc` (branch targets are
/// relative to it).
pub struct Disassembler {
    pub pc: u16,
}

/// The name of `mnemonic` in capitals.
pub open spec fn mnemonic_name(mnemonic: Mnemonic) -> Seq<char> {
    match mnemonic {
        Mnemonic::Adc => seq!['A', 'D', 'C'],
        Mnemonic::And => seq!['A', 'N', 'D'],
        Mnemonic::Asl => seq!['A', 'S', 'L'],
        Mnemonic::Bcc => seq!['B', 'C', 'C'],
        Mnemonic::Bcs => seq!['B', 'C', 'S'],
        Mnemonic::Beq => seq!['B', 'E', 'Q'],
        Mnemonic::Bit => seq!['B', 'I', 'T'],
        Mnemonic::Bmi => seq!['B', 'M', 'I'],
        Mnemonic::Bne => seq!['B', 'N', 'E'],
        Mnemonic::Bpl => seq!['B', 'P', 'L'],
        Mnemonic::Brk => seq!['B', 'R', 'K'],
        Mnemonic::Bvc => seq!['B', 'V', 'C'],
        Mnemonic::Bvs => seq!['B', 'V', 'S'],
        Mnemonic::Clc => seq!['C', 'L', 'C'],
        Mnemonic::Cld => seq!['C', 'L', 'D'],
        Mnemonic::Cli => seq!['C', 'L', 'I'],
        Mnemonic::Clv => seq!['C', 'L', 'V'],
        Mnemonic::Cmp => seq!['C', 'M', 'P'],
        Mnemonic::Cpx => seq!['C', 'P', 'X'],
        Mnemonic::Cpy => seq!['C', 'P', 'Y'],
        Mnemonic::Dec => seq!['D', 'E', 'C'],
        Mnemonic::Dex => seq!['D', 'E', 'X'],
        Mnemonic::Dey => seq!['D', 'E', 'Y'],
        Mnemonic::Eor => seq!['E', 'O', 'R'],
        Mnemonic::Inc => seq!['I', 'N', 'C'],
        Mnemonic::Inx => seq!['I', 'N', 'X'],
        Mnemonic::Iny => seq!['I', 'N', 'Y'],
        Mnemonic::Jmp => seq!['J', 'M', 'P'],
        Mnemonic::Jsr => seq!['J', 'S', 'R'],
        Mnemonic::Lda => seq!['L', 'D', 'A'],
        Mnemonic::Ldx => seq!['L', 'D', 'X'],
        Mnemonic::Ldy => seq!['L', 'D', 'Y'],
        Mnemonic::Lsr => seq!['L', 'S', 'R'],
        Mnemonic::Nop => seq!['N', 'O', 'P'],
        Mnemonic::Ora => seq!['O', 'R', 'A'],
        Mnemonic::Pha => seq!['P', 'H', 'A'],
        Mnemonic::Php => seq!['P', 'H', 'P'],
        Mnemonic::Pla => seq!['P', 'L', 'A'],
        Mnemonic::Plp => seq!['P', 'L', 'P'],
        Mnemonic::Rol => seq!['R', 'O', 'L'],
        Mnemonic::Ror => seq!['R', 'O', 'R'],
        Mnemonic::Rti => seq!['R', 'T', 'I'],
        Mnemonic::Rts => seq!['R', 'T', 'S'],
        Mnemonic::Sbc => seq!['S', 'B', 'C'],
        Mnemonic::Sec => seq!['S', 'E', 'C'],
        Mnemonic::Sed => seq!['S', 'E', 'D'],
        Mnemonic::Sei => seq!['S', 'E', 'I'],
        Mnemonic::Sta => seq!['S', 'T', 'A'],
        Mnemonic::Stp => seq!['S', 'T', 'P'],
        Mnemonic::Stx => seq!['S', 'T', 'X'],
        Mnemonic::Sty => seq!['S', 'T', 'Y'],
        Mnemonic::Tax => seq!['T', 'A', 'X'],
        Mnemonic::Tay => seq!['T', 'A', 'Y'],
        Mnemonic::Tsx => seq!['T', 'S', 'X'],
        Mnemonic::Txa => seq!['T', 'X', 'A'],
        Mnemonic::Txs => seq!['T', 'X', 'S'],
        Mnemonic::Tya => seq!['T', 'Y', 'A'],
    }
}

/// The letters of `name` as one number, three digits in base 0x110000.
spec fn name_key(name: Seq<char>) -> int {
    (name[0] as int * 0x110000 + name[1] as int) * 0x110000 + name[2] as int
}

/// Every mnemonic is spelled with three capital letters, and no two
/// mnemonics are spelled alike.
pub proof fn lemma_names_distinct(m1: Mnemonic, m2: Mnemonic)
    ensures
        mnemonic_name(m1).len() == 3,
        forall|i: int| 0 <= i < 3 ==> 'A' <= #[trigger] mnemonic_name(m1)[i] <= 'Z',
        mnemonic_name(m1) == mnemonic_name(m2) ==> m1 == m2,
{
    if mnemonic_name(m1) == mnemonic_name(m2) {
        assert(name_key(mnemonic_name(m1)) == name_key(mnemonic_name(m2)));
    }
}

pub fn name(mnemonic: Mnemonic) -> (r: &'static str)
    ensures
        r@ == mnemonic_name(mnemonic),
{
    match mnemonic {
        Mnemonic::Adc => {
            proof {
                reveal_strlit("ADC");
            }
            "ADC"
        },
        Mnemonic::And => {
            proof {
                reveal_strlit("AND");
            }
            "AND"
        },
        Mnemonic::Asl => {
            proof {
                reveal_strlit("ASL");
            }
            "ASL"
        },
        Mnemonic::Bcc => {
            proof {
                reveal_strlit("BCC");
            }
            "BCC"
        },
        Mnemonic::Bcs => {
            proof {
                reveal_strlit("BCS");
            }
            "BCS"
        },
        Mnemonic::Beq => {
            proof {
                reveal_strlit("BEQ");
            }
            "BEQ"
        },
        Mnemonic::Bit => {
            proof {
                reveal_strlit("BIT");
            }
            "BIT"
        },
        Mnemonic::Bmi => {
            proof {
                reveal_strlit("BMI");
            }
            "BMI"
        },
        Mnemonic::Bne => {
            proof {
                reveal_strlit("BNE");
            }
            "BNE"
        },
        Mnemonic::Bpl => {
            proof {
                reveal_strlit("BPL");
            }
            "BPL"
        },
        Mnemonic::Brk => {
            proof {
                reveal_strlit("BRK");
            }
            "BRK"
        },
        Mnemonic::Bvc => {
            proof {
                reveal_strlit("BVC");
            }
            "BVC"
        },
        Mnemonic::Bvs => {
            proof {
                reveal_strlit("BVS");
            }
            "BVS"
        },
        Mnemonic::Clc => {
            proof {
                reveal_strlit("CLC");
            }
            "CLC"
        },
        Mnemonic::Cld => {
            proof {
                reveal_strlit("CLD");
            }
            "CLD"
        },
        Mnemonic::Cli => {
            proof {
                reveal_strlit("CLI");
            }
            "CLI"
        },
        Mnemonic::Clv => {
            proof {
                reveal_strlit("CLV");
            }
            "CLV"
        },
        Mnemonic::Cmp => {
            proof {
                reveal_strlit("CMP");
            }
            "CMP"
        },
        Mnemonic::Cpx => {
            proof {
                reveal_strlit("CPX");
            }
            "CPX"
        },
        Mnemonic::Cpy => {
            proof {
                reveal_strlit("CPY");
            }
            "CPY"
        },
        Mnemonic::Dec => {
            proof {
                reveal_strlit("DEC");
            }
            "DEC"
        },
        Mnemonic::Dex => {
            proof {
                reveal_strlit("DEX");
            }
            "DEX"
        },
        Mnemonic::Dey => {
            proof {
                reveal_strlit("DEY");
            }
            "DEY"
        },
        Mnemonic::Eor => {
            proof {
                reveal_strlit("EOR");
            }
            "EOR"
        },
        Mnemonic::Inc => {
            proof {
                reveal_strlit("INC");
            }
            "INC"
        },
        Mnemonic::Inx => {
            proof {
                reveal_strlit("INX");
            }
            "INX"
        },
        Mnemonic::Iny => {
            proof {
                reveal_strlit("INY");
            }
            "INY"
        },
        Mnemonic::Jmp => {
            proof {
                reveal_strlit("JMP");
            }
            "JMP"
        },
        Mnemonic::Jsr => {
            proof {
                reveal_strlit("JSR");
            }
            "JSR"
        },
        Mnemonic::Lda => {
            proof {
                reveal_strlit("LDA");
            }
            "LDA"
        },
        Mnemonic::Ldx => {
            proof {
                reveal_strlit("LDX");
            }
            "LDX"
        },
        Mnemonic::Ldy => {
            proof {
                reveal_strlit("LDY");
            }
            "LDY"
        },
        Mnemonic::Lsr => {
            proof {
                reveal_strlit("LSR");
            }
            "LSR"
        },
        Mnemonic::Nop => {
            proof {
                reveal_strlit("NOP");
            }
            "NOP"
        },
        Mnemonic::Ora => {
            proof {
                reveal_strlit("ORA");
            }
            "ORA"
        },
        Mnemonic::Pha => {
            proof {
                reveal_strlit("PHA");
            }
            "PHA"
        },
        Mnemonic::Php => {
            proof {
                reveal_strlit("PHP");
            }
            "PHP"
        },
        Mnemonic::Pla => {
            proof {
                reveal_strlit("PLA");
            }
            "PLA"
        },
        Mnemonic::Plp => {
            proof {
                reveal_strlit("PLP");
            }
            "PLP"
        },
        Mnemonic::Rol => {
            proof {
                reveal_strlit("ROL");
            }
            "ROL"
        },
        Mnemonic::Ror => {
            proof {
                reveal_strlit("ROR");
            }
            "ROR"
        },
        Mnemonic::Rti => {
            proof {
                reveal_strlit("RTI");
            }
            "RTI"
        },
        Mnemonic::Rts => {
            proof {
                reveal_strlit("RTS");
            }
            "RTS"
        },
        Mnemonic::Sbc => {
            proof {
                reveal_strlit("SBC");
            }
            "SBC"
        },
        Mnemonic::Sec => {
            proof {
                reveal_strlit("SEC");
            }
            "SEC"
        },
        Mnemonic::Sed => {
            proof {
                reveal_strlit("SED");
            }
            "SED"
        },
        Mnemonic::Sei => {
            proof {
                reveal_strlit("SEI");
            }
            "SEI"
        },
        Mnemonic::Sta => {
            proof {
                reveal_strlit("STA");
            }
            "STA"
        },
        Mnemonic::Stp => {
            proof {
                reveal_strlit("STP");
            }
            "STP"
        },
        Mnemonic::Stx => {
            proof {
                reveal_strlit("STX");
            }
            "STX"
        },
        Mnemonic::Sty => {
            proof {
                reveal_strlit("STY");
            }
            "STY"
        },
        Mnemonic::Tax => {
            proof {
                reveal_strlit("TAX");
            }
            "TAX"
        },
        Mnemonic::Tay => {
            proof {
                reveal_strlit("TAY");
            }
            "TAY"
        },
        Mnemonic::Tsx => {
            proof {
                reveal_strlit("TSX");
            }
            "TSX"
        },
        Mnemonic::Txa => {
            proof {
                reveal_strlit("TXA");
            }
            "TXA"
        },
        Mnemonic::Txs => {
            proof {
                reveal_strlit("TXS");
            }
            "TXS"
        },
        Mnemonic::Tya => {
            proof {
                reveal_strlit("TYA");
            }
            "TYA"
        },
    }
}

/// The target of a branch at `pc` with displacement `rel`: the address after
/// the two-byte instruction, moved by `rel` read as a signed byte.
pub open spec fn spec_compute_target(rel: u8, pc: u16) -> u16 {
    ((pc as i16).wrapping_add((rel as i8) as i16).wrapping_add(2)) as u16
}

/// A branch at `pc` with displacement `rel` goes to `pc + 2 + rel`, `rel`
/// read as a signed byte (-128 to 127), modulo 0x10000.
pub proof fn lemma_branch_target(rel: u8, pc: u16)
    ensures
        spec_compute_target(rel, pc) as int == (pc as int + 2 + (if rel < 128 { rel as int } else { rel as int - 256 })
            + 0x10000) % 0x10000,
{
    let a: i16 = pc as i16;
    let b: i16 = (rel as i8) as i16;
    let c: i16 = a.wrapping_add(b);
    let d: i16 = c.wrapping_add(2);
    assert(d as u16 == ((pc as int + 2 + (if rel < 128 { rel as int } else { rel as int - 256 }) + 0x10000) % 0x10000) as u16) by (bit_vector)
        requires
            a == pc as i16,
            b == (rel as i8) as i16,
            c == (if a + b > 32767 { (a + b - 65536) as i16 } else if a + b < -32768 { (a + b + 65536) as i16 } else { (a + b) as i16 }),
            d == (if c + 2 > 32767 { (c + 2 - 65536) as i16 } else { (c + 2) as i16 }),
    ;
}

fn compute_target(rel: u8, pc: u16) -> (r: u16)
    ensures
        r == spec_compute_target(rel, pc),
{
    let rel = (rel as i8) as i16;
    let pc = pc as i16;
    pc.wrapping_add(rel).wrapping_add(2) as u16
}

/// The text of the operand of an instruction at `pc`, after the mnemonic
/// (one-byte operands are the low byte of `operand`).
pub open spec fn operand_text(mode: Mode, operand: u16, pc: u16) -> Seq<char> {
    match mode {
        Mode::Implied => Seq::empty(),
        Mode::Accumulator => seq![' ', 'A'],
        Mode::Immediate => seq![' ', '#', '$'] + hex2((operand as u8) as int),
        Mode::ZeroPage => seq![' ', '$'] + hex2((operand as u8) as int),
        Mode::ZeroPageX => seq![' ', '$'] + hex2((operand as u8) as int) + seq![',', 'X'],
        Mode::ZeroPageY => seq![' ', '$'] + hex2((operand as u8) as int) + seq![',', 'Y'],
        Mode::Absolute => seq![' ', '$'] + hex4(operand as int),
        Mode::AbsoluteX => seq![' ', '$'] + hex4(operand as int) + seq![',', 'X'],
        Mode::AbsoluteY => seq![' ', '$'] + hex4(operand as int) + seq![',', 'Y'],
        Mode::Indirect => seq![' ', '(', '$'] + hex4(operand as int) + seq![')'],
        Mode::IndirectX => seq![' ', '(', '$'] + hex2((operand as u8) as int) + seq![',', 'X', ')'],
        Mode::IndirectY => seq![' ', '(', '$'] + hex2((operand as u8) as int) + seq![')', ',', 'Y'],
        Mode::Relative => seq![' ', '$'] + hex4(spec_compute_target(operand as u8, pc) as int),
    }
}

/// The marks an operand's text can carry: an index register, parentheses,
/// the immediate sign.
pub open spec fn shows(text: Seq<char>, c: char) -> bool {
    text.contains(c)
}

proof fn lemma_shows_concat(a: Seq<char>, b: Seq<char>, c: char)
    ensures
        shows(a + b, c) == (shows(a, c) || shows(b, c)),
{
    if shows(a, c) {
        let i = choose|i: int| 0 <= i < a.len() && a[i] == c;
        assert((a + b)[i] == c);
    }
    if shows(b, c) {
        let i = choose|i: int| 0 <= i < b.len() && b[i] == c;
        assert((a + b)[a.len() + i] == c);
    }
    if shows(a + b, c) {
        let i = choose|i: int| 0 <= i < (a + b).len() && (a + b)[i] == c;
        if i < a.len() {
            assert(a[i] == c);
        } else {
            assert(b[i - a.len()] == c);
        }
    }
}

proof fn lemma_hex_shows_no_mark(value: int, c: char)
    requires
        0 <= value < 0x10000,
        c == 'X' || c == 'Y' || c == '(' || c == ')' || c == '#' || c == ',',
    ensures
        !shows(hex4(value), c),
        value < 0x100 ==> !shows(hex2(value), c),
{
    assert(0 <= value / 4096 < 16 && 0 <= value / 16 < 4096) by (nonlinear_arith)
        requires
            0 <= value < 0x10000,
    ;
    lemma_hex_digit(value / 4096);
    lemma_hex_digit(value / 256 % 16);
    lemma_hex_digit(value / 16 % 16);
    lemma_hex_digit(value % 16);
    let h = hex4(value);
    assert forall|i: int| 0 <= i < h.len() implies h[i] != c by {
        assert(i == 0 || i == 1 || i == 2 || i == 3);
    }
    if value < 0x100 {
        assert(value / 16 < 16) by (nonlinear_arith)
            requires
                0 <= value < 0x100,
        ;
        lemma_hex_digit(value / 16);
        let g = hex2(value);
        assert forall|i: int| 0 <= i < g.len() implies g[i] != c by {
            assert(i == 0 || i == 1);
        }
    }
}

proof fn lemma_literal_shows(s: Seq<char>, c: char)
    requires
        s.len() <= 3,
    ensures
        shows(s, c) == (exists|i: int| 0 <= i < s.len() && s[i] == c),
{
}

/// An operand's text shows `X` exactly in the modes indexed by X, `Y`
/// exactly in those indexed by Y, a parenthesis exactly in the indirect
/// modes, and `#` exactly for an immediate value.
pub proof fn lemma_operand_marks(mode: Mode, operand: u16, pc: u16)
    ensures
        shows(operand_text(mode, operand, pc), 'X') == (mode == Mode::ZeroPageX || mode == Mode::AbsoluteX || mode
            == Mode::IndirectX),
        shows(operand_text(mode, operand, pc), 'Y') == (mode == Mode::ZeroPageY || mode == Mode::AbsoluteY || mode
            == Mode::IndirectY),
        shows(operand_text(mode, operand, pc), '(') == (mode == Mode::Indirect || mode == Mode::IndirectX || mode
            == Mode::IndirectY),
        shows(operand_text(mode, operand, pc), '#') == (mode == Mode::Immediate),
{
    lemma_marks_one(mode, operand, pc, 'X');
    lemma_marks_one(mode, operand, pc, 'Y');
    lemma_marks_one(mode, operand, pc, '(');
    lemma_marks_one(mode, operand, pc, '#');
}

proof fn lemma_marks_one(mode: Mode, operand: u16, pc: u16, c: char)
    requires
        c == 'X' || c == 'Y' || c == '(' || c == '#',
    ensures
        shows(operand_text(mode, operand, pc), c) == (match mode {
            Mode::ZeroPageX | Mode::AbsoluteX => c == 'X',
            Mode::IndirectX => c == 'X' || c == '(',
            Mode::ZeroPageY | Mode::AbsoluteY => c == 'Y',
            Mode::IndirectY => c == 'Y' || c == '(',
            Mode::Indirect => c == '(',
            Mode::Immediate => c == '#',
            _ => false,
        }),
{
    let byte = (operand as u8) as int;
    let word = operand as int;
    let target = spec_compute_target(operand as u8, pc) as int;
    lemma_hex_shows_no_mark(byte, c);
    lemma_hex_shows_no_mark(word, c);
    lemma_hex_shows_no_mark(target, c);
    let sp = seq![' ', '$'];
    let spi = seq![' ', '(', '$'];
    let spm = seq![' ', '#', '$'];
    let cx = seq![',', 'X'];
    let cy = seq![',', 'Y'];
    let cxp = seq![',', 'X', ')'];
    let pcy = seq![')', ',', 'Y'];
    let p = seq![')'];
    lemma_literal_shows(sp, c);
    lemma_literal_shows(spi, c);
    lemma_literal_shows(spm, c);
    lemma_literal_shows(cx, c);
    lemma_literal_shows(cy, c);
    lemma_literal_shows(cxp, c);
    lemma_literal_shows(pcy, c);
    lemma_literal_shows(p, c);
    lemma_literal_shows(seq![' ', 'A'], c);
    lemma_literal_shows(Seq::empty(), c);
    if c == 'X' {
        assert(cx[1] == c && cxp[1] == c);
    }
    if c == 'Y' {
        assert(cy[1] == c && pcy[2] == c);
    }
    if c == '(' {
        assert(spi[1] == c);
    }
    if c == '#' {
        assert(spm[1] == c);
    }
    match mode {
        Mode::Immediate => lemma_shows_concat(spm, hex2(byte), c),
        Mode::ZeroPage => lemma_shows_concat(sp, hex2(byte), c),
        Mode::ZeroPageX => {
            lemma_shows_concat(sp, hex2(byte), c);
            lemma_shows_concat(sp + hex2(byte), cx, c);
        },
        Mode::ZeroPageY => {
            lemma_shows_concat(sp, hex2(byte), c);
            lemma_shows_concat(sp + hex2(byte), cy, c);
        },
        Mode::Absolute => lemma_shows_concat(sp, hex4(word), c),
        Mode::AbsoluteX => {
            lemma_shows_concat(sp, hex4(word), c);
            lemma_shows_concat(sp + hex4(word), cx, c);
        },
        Mode::AbsoluteY => {
            lemma_shows_concat(sp, hex4(word), c);
            lemma_shows_concat(sp + hex4(word), cy, c);
        },
        Mode::Indirect => {
            lemma_shows_concat(spi, hex4(word), c);
            lemma_shows_concat(spi + hex4(word), p, c);
        },
        Mode::IndirectX => {
            lemma_shows_concat(spi, hex2(byte), c);
            lemma_shows_concat(spi + hex2(byte), cxp, c);
        },
        Mode::IndirectY => {
            lemma_shows_concat(spi, hex2(byte), c);
            lemma_shows_concat(spi + hex2(byte), pcy, c);
        },
        Mode::Relative => lemma_shows_concat(sp, hex4(target), c),
        _ => {},
    }
}

/// The text of `instruction` at `pc`, such as `LDA #$10` or `STA ($20),Y`.
pub open spec fn text(instruction: Instruction, pc: u16) -> Seq<char> {
    mnemonic_name(instruction.mnemonic) + operand_text(instruction.mode, instruction.operand, pc)
}

fn format_i(instruction: &str, value: u8) -> (r: String)
    ensures
        r@ == instruction@ + seq![' ', '#', '$'] + hex2(value as int),
{
    let mut s = String::from_str(instruction);
    proof {
        reveal_strlit(" #$");
    }
    s.append(" #$");
    append_hex2(&mut s, value);
    s
}

fn format_z(instruction: &str, offset: u8) -> (r: String)
    ensures
        r@ == instruction@ + seq![' ', '$'] + hex2(offset as int),
{
    let mut s = String::from_str(instruction);
    proof {
        reveal_strlit(" $");
    }
    s.append(" $");
    append_hex2(&mut s, offset);
    s
}

fn format_zx(instruction: &str, offset: u8) -> (r: String)
    ensures
        r@ == instruction@ + seq![' ', '$'] + hex2(offset as int) + seq![',', 'X'],
{
    let mut s = format_z(instruction, offset);
    proof {
        reveal_strlit(",X");
    }
    s.append(",X");
    s
}

fn format_zy(instruction: &str, offset: u8) -> (r: String)
    ensures
        r@ == instruction@ + seq![' ', '$'] + hex2(offset as int) + seq![',', 'Y'],
{
    let mut s = format_z(instruction, offset);
    proof {
        reveal_strlit(",Y");
    }
    s.append(",Y");
    s
}

fn format_a(instruction: &str, address: u16) -> (r: String)
    ensures
        r@ == instruction@ + seq![' ', '$'] + hex4(address as int),
{
    let mut s = String::from_str(instruction);
    proof {
        reveal_strlit(" $");
    }
    s.append(" $");
    append_hex4(&mut s, address);
    s
}

fn format_ax(instruction: &str, address: u16) -> (r: String)
    ensures
        r@ == instruction@ + seq![' ', '$'] + hex4(address as int) + seq![',', 'X'],
{
    let mut s = format_a(instruction, address);
    proof {
        reveal_strlit(",X");
    }
    s.append(",X");
    s
}

fn format_ay(instruction: &str, address: u16) -> (r: String)
    ensures
        r@ == instruction@ + seq![' ', '$'] + hex4(address as int) + seq![',', 'Y'],
{
    let mut s = format_a(instruction, address);
    proof {
        reveal_strlit(",Y");
    }
    s.append(",Y");
    s
}

fn format_dx(instruction: &str, offset: u8) -> (r: String)
    ensures
        r@ == instruction@ + seq![' ', '(', '$'] + hex2(offset as int) + seq![',', 'X', ')'],
{
    let mut s = String::from_str(instruction);
    proof {
        reveal_strlit(" ($");
        reveal_strlit(",X)");
    }
    s.append(" ($");
    append_hex2(&mut s, offset);
    s.append(",X)");
    s
}

fn format_dy(instruction: &str, offset: u8) -> (r: String)
    ensures
        r@ == instruction@ + seq![' ', '(', '$'] + hex2(offset as int) + seq![')', ',', 'Y'],
{
    let mut s = String::from_str(instruction);
    proof {
        reveal_strlit(" ($");
        reveal_strlit("),Y");
    }
    s.append(" ($");
    append_hex2(&mut s, offset);
    s.append("),Y");
    s
}

fn format_rel(instruction: &str, rel: u8, pc: u16) -> (r: String)
    ensures
        r@ == instruction@ + seq![' ', '$'] + hex4(spec_compute_target(rel, pc) as int),
{
    format_a(instruction, compute_target(rel, pc))
}

fn format_dest(instruction: &str, address: u16) -> (r: String)
    ensures
        r@ == instruction@ + seq![' ', '$'] + hex4(address as int),
{
    format_a(instruction, address)
}

fn format_dest_id(instruction: &str, address: u16) -> (r: String)
    ensures
        r@ == instruction@ + seq![' ', '(', '$'] + hex4(address as int) + seq![')'],
{
    let mut s = String::from_str(instruction);
    proof {
        reveal_strlit(" ($");
        reveal_strlit(")");
    }
    s.append(" ($");
    append_hex4(&mut s, address);
    s.append(")");
    s
}

impl Disassembler {
    /// The text of `instruction`, found at this disassembler's address.
    pub fn disassemble(&self, instruction: Instruction) -> (r: String)
        ensures
            r@ == text(instruction, self.pc),
    {
        let mnemonic = name(instruction.mnemonic);
        let operand = instruction.operand;
        let r = match instruction.mode {
            Mode::Implied => String::from_str(mnemonic),
            Mode::Accumulator => {
                let mut s = String::from_str(mnemonic);
                proof {
                    reveal_strlit(" A");
                }
                s.append(" A");
                s
            },
            Mode::Immediate => format_i(mnemonic, operand as u8),
            Mode::ZeroPage => format_z(mnemonic, operand as u8),
            Mode::ZeroPageX => format_zx(mnemonic, operand as u8),
            Mode::ZeroPageY => format_zy(mnemonic, operand as u8),
            Mode::Absolute => format_dest(mnemonic, operand),
            Mode::AbsoluteX => format_ax(mnemonic, operand),
            Mode::AbsoluteY => format_ay(mnemonic, operand),
            Mode::Indirect => format_dest_id(mnemonic, operand),
            Mode::IndirectX => format_dx(mnemonic, operand as u8),
            Mode::IndirectY => format_dy(mnemonic, operand as u8),
            Mode::Relative => format_rel(mnemonic, operand as u8, self.pc),
        };
        r
    }
}

impl Decoder<String> for Disassembler {
    /// The text of the instruction at this disassembler's address; the
    /// disassembler itself does not change.
    open spec fn carries_out(&self, instruction: Instruction, result: String, after: Self) -> bool {
        &&& result@ == text(instruction, self.pc)
        &&& after == *self
    }

    fn instruction(&mut self, instruction: Instruction) -> (r: String) {
        self.disassemble(instruction)
    }
}

} // verus!
