use emulateme::decoder::{Decoder, Instruction, Mnemonic, Mode};
use emulateme::disassembler::{name, Disassembler};

fn text(bytes: &[u8], pc: u16) -> String {
    let mut disassembler = Disassembler { pc };
    let (text, length) = disassembler.decode(bytes).unwrap();
    assert_eq!(length, bytes.len());
    text
}

#[test]
fn disassembles_every_mode() {
    assert_eq!(text(&[0x00], 0), "BRK");
    assert_eq!(text(&[0x0A], 0), "ASL A");
    assert_eq!(text(&[0xA9, 0x10], 0), "LDA #$10");
    assert_eq!(text(&[0xA5, 0x3F], 0), "LDA $3F");
    assert_eq!(text(&[0x95, 0x10], 0), "STA $10,X");
    assert_eq!(text(&[0xB6, 0xC0], 0), "LDX $C0,Y");
    assert_eq!(text(&[0xAD, 0x34, 0x12], 0), "LDA $1234");
    assert_eq!(text(&[0xBD, 0x00, 0x02], 0), "LDA $0200,X");
    assert_eq!(text(&[0xB9, 0xFF, 0xFF], 0), "LDA $FFFF,Y");
    assert_eq!(text(&[0x6C, 0x34, 0x12], 0), "JMP ($1234)");
    assert_eq!(text(&[0xA1, 0x20], 0), "LDA ($20,X)");
    assert_eq!(text(&[0xB1, 0x20], 0), "LDA ($20),Y");
    assert_eq!(text(&[0x20, 0x05, 0x80], 0), "JSR $8005");
    assert_eq!(text(&[0x4C, 0xAB, 0xCD], 0), "JMP $CDAB");
}

#[test]
fn branch_targets_are_relative_to_pc() {
    assert_eq!(text(&[0xD0, 0xFD], 0x8003), "BNE $8002");
    assert_eq!(text(&[0xF0, 0x10], 0x8000), "BEQ $8012");
    assert_eq!(text(&[0x10, 0x80], 0x0010), "BPL $FF92");
    assert_eq!(text(&[0x90, 0x7F], 0xFFF0), "BCC $0071");
}

#[test]
fn undecodable_bytes_give_nothing() {
    let mut disassembler = Disassembler { pc: 0 };
    assert_eq!(disassembler.decode(&[0x03]), None);
    assert_eq!(disassembler.decode(&[0xAD]), None);
}

#[test]
fn instruction_text_directly() {
    let mut disassembler = Disassembler { pc: 0x1000 };
    let text = disassembler.instruction(Instruction { mnemonic: Mnemonic::Cpy, mode: Mode::ZeroPage, operand: 0x7 });
    assert_eq!(text, "CPY $07");
    assert_eq!(disassembler.disassemble(Instruction { mnemonic: Mnemonic::Rts, mode: Mode::Implied, operand: 0 }), "RTS");
    assert_eq!(name(Mnemonic::Txs), "TXS");
}

#[test]
fn decode_leaves_the_disassembler_and_fixes_the_text() {
    assert_eq!(text(&[0x96, 0x10], 0), "STX $10,Y");
    assert_eq!(text(&[0xEB, 0x05], 0), "SBC #$05");
    assert_eq!(text(&[0x4C, 0x34, 0x12], 0), "JMP $1234");
    let mut disassembler = Disassembler { pc: 0x8000 };
    assert_eq!(disassembler.decode(&[0xD0, 0xFE]), Some(("BNE $8000".to_string(), 2)));
    assert_eq!(disassembler.pc, 0x8000);
    assert_eq!(disassembler.decode(&[0x9E, 0x00, 0x00]), None);
    assert_eq!(disassembler.pc, 0x8000);
}

#[test]
fn branch_targets_wrap_around_the_address_space() {
    assert_eq!(text(&[0xD0, 0xFE], 0x8000), "BNE $8000");
    assert_eq!(text(&[0xF0, 0x10], 0x80F0), "BEQ $8102");
    assert_eq!(text(&[0x90, 0x80], 0x0000), "BCC $FF82");
    assert_eq!(text(&[0xB0, 0x7F], 0xFFF0), "BCS $0071");
}
