use emulateme::rom::{parse_rom, Mirroring, RomError, CHR_BANK_SIZE, PRG_BANK_SIZE};

fn image(prg_banks: u8, chr_banks: u8, b6: u8, b7: u8, extra: usize) -> Vec<u8> {
    let mut bytes = vec![0x4E, 0x45, 0x53, 0x1A, prg_banks, chr_banks, b6, b7, 0, 0, 0, 0, 0, 0, 0, 0];
    for i in 0..(prg_banks as usize * PRG_BANK_SIZE) {
        bytes.push((i % 251) as u8);
    }
    for i in 0..(chr_banks as usize * CHR_BANK_SIZE) {
        bytes.push((i % 13) as u8);
    }
    for _ in 0..extra {
        bytes.push(0xEE);
    }
    bytes
}

#[test]
fn parse_rom_reads_banks_and_flags() {
    let bytes = image(1, 1, 0x11, 0x20, 3);
    let (rest, rom) = parse_rom(&bytes).unwrap();
    assert_eq!(rest, &[0xEE, 0xEE, 0xEE]);
    assert_eq!(rom.prg_rom.len(), PRG_BANK_SIZE);
    assert_eq!(rom.chr_rom.len(), CHR_BANK_SIZE);
    assert_eq!(rom.prg_rom[300], (300 % 251) as u8);
    assert_eq!(rom.chr_rom[20], (20 % 13) as u8);
    assert_eq!(rom.flags.mirroring, Mirroring::Vertical);
    assert_eq!(rom.flags.mapper, 0x21);
    assert!(!rom.flags.battery_ram);
}

#[test]
fn parse_rom_horizontal_mirroring_and_flags_of_byte_seven() {
    let bytes = image(2, 0, 0x06, 0x0B, 0);
    let (rest, rom) = parse_rom(&bytes).unwrap();
    assert!(rest.is_empty());
    assert_eq!(rom.prg_rom.len(), 2 * PRG_BANK_SIZE);
    assert!(rom.chr_rom.is_empty());
    assert_eq!(rom.flags.mirroring, Mirroring::Horizontal);
    assert!(rom.flags.battery_ram);
    assert!(rom.flags.has_trainer);
    assert!(!rom.flags.four_screen);
    assert!(rom.flags.uni_system);
    assert!(rom.flags.play_choice);
    assert_eq!(rom.flags.nes2_test, 2);
    assert_eq!(rom.flags.mapper, 0);
}

#[test]
fn parse_rom_rejects_bad_magic() {
    let mut bytes = image(1, 1, 0, 0, 0);
    bytes[3] = 0x1B;
    assert_eq!(parse_rom(&bytes).err(), Some(RomError::BadMagic));
    assert_eq!(parse_rom(&[0x4E, 0x45]).err(), Some(RomError::BadMagic));
}

#[test]
fn parse_rom_rejects_truncated_images() {
    let bytes = image(1, 1, 0, 0, 0);
    assert_eq!(parse_rom(&bytes[..bytes.len() - 1]).err(), Some(RomError::Truncated));
    assert_eq!(parse_rom(&bytes[..10]).err(), Some(RomError::Truncated));
}
