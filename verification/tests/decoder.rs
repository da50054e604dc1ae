use emulateme::decoder::{decode, decode_opcode, operand_length, Instruction, Mnemonic, Mode};

#[test]
fn decodes_immediate_and_absolute() {
    assert_eq!(
        decode(&[0xA9, 0x10, 0xFF]),
        Some((Instruction { mnemonic: Mnemonic::Lda, mode: Mode::Immediate, operand: 0x10 }, 2))
    );
    assert_eq!(
        decode(&[0xAD, 0x34, 0x12]),
        Some((Instruction { mnemonic: Mnemonic::Lda, mode: Mode::Absolute, operand: 0x1234 }, 3))
    );
    assert_eq!(
        decode(&[0xE8]),
        Some((Instruction { mnemonic: Mnemonic::Inx, mode: Mode::Implied, operand: 0 }, 1))
    );
}

#[test]
fn unsupported_or_truncated_bytes_decode_to_nothing() {
    assert_eq!(decode(&[]), None);
    assert_eq!(decode(&[0x03]), None);
    assert_eq!(decode(&[0x9C, 0x00, 0x00]), None);
    assert_eq!(decode(&[0xAD, 0x34]), None);
    assert_eq!(decode(&[0xA9]), None);
}

#[test]
fn opcode_table_entries() {
    assert_eq!(decode_opcode(0x00), Some((Mnemonic::Brk, Mode::Implied)));
    assert_eq!(decode_opcode(0x0A), Some((Mnemonic::Asl, Mode::Accumulator)));
    assert_eq!(decode_opcode(0x6C), Some((Mnemonic::Jmp, Mode::Indirect)));
    assert_eq!(decode_opcode(0xB1), Some((Mnemonic::Lda, Mode::IndirectY)));
    assert_eq!(decode_opcode(0x96), Some((Mnemonic::Stx, Mode::ZeroPageY)));
    assert_eq!(decode_opcode(0xD0), Some((Mnemonic::Bne, Mode::Relative)));
    assert_eq!(decode_opcode(0xEB), Some((Mnemonic::Sbc, Mode::Immediate)));
    assert_eq!(decode_opcode(0x1C), Some((Mnemonic::Nop, Mode::AbsoluteX)));
    assert_eq!(decode_opcode(0xFF), None);
    let supported = (0..=255u8).filter(|op| decode_opcode(*op).is_some()).count();
    assert_eq!(supported, 191);
}

#[test]
fn operand_lengths() {
    assert_eq!(operand_length(Mode::Implied), 0);
    assert_eq!(operand_length(Mode::Accumulator), 0);
    assert_eq!(operand_length(Mode::Immediate), 1);
    assert_eq!(operand_length(Mode::Relative), 1);
    assert_eq!(operand_length(Mode::IndirectY), 1);
    assert_eq!(operand_length(Mode::Indirect), 2);
    assert_eq!(operand_length(Mode::AbsoluteY), 2);
}
