//! The iNES file format: a 16-byte header followed by the PRG (program) and
//! CHR (pattern) banks of a cartridge.

use vstd::prelude::*;
use vstd::slice::slice_to_vec;

verus! {

/// The length of the iNES header.
pub const HEADER_SIZE: usize = 16;

/// The size of one PRG bank.
pub const PRG_BANK_SIZE: usize = 16384;

/// The size of one CHR bank.
pub const CHR_BANK_SIZE: usize = 8192;

#[derive(Clone, Copy, Debug, PartialEq, Eq, Structural)]
pub enum Mirroring {
    Horizontal,
    Vertical,
}

/// Header flags (bytes 6 and 7 of the iNES header).
#[derive(Clone, Copy, Debug, PartialEq, Eq, Structural)]
pub struct Flags {
    pub mirroring: Mirroring,
    pub battery_ram: bool,
    pub has_trainer: bool,
    pub four_screen: bool,
    pub uni_system: bool,
    pub play_choice: bool,
    pub nes2_test: u8,
    pub mapper: u8,
}

#[derive(Clone, Debug)]
pub struct Rom {
    pub flags: Flags,
    pub prg_rom: Vec<u8>,
    pub chr_rom: Vec<u8>,
}

/// Why a byte string is not an iNES image.
#[derive(Clone, Copy, Debug, PartialEq, Eq, Structural)]
pub enum RomError {
    /// The image does not start with `NES` followed by 0x1A.
    BadMagic,
    /// The image ends before the header, or the banks it announces, are complete.
    Truncated,
}

/// The flags that the two header bytes `b6` and `b7` encode.
pub open spec fn spec_flags(b6: u8, b7: u8) -> Flags {
    Flags {
        mirroring: if b6 & 0x01 != 0 { Mirroring::Vertical } else { Mirroring::Horizontal },
        battery_ram: b6 & 0x02 != 0,
        has_trainer: b6 & 0x04 != 0,
        four_screen: b6 & 0x08 != 0,
        uni_system: b7 & 0x01 != 0,
        play_choice: b7 & 0x02 != 0,
        nes2_test: (b7 >> 2) & 0x03,
        mapper: (b7 & 0xF0) | (b6 >> 4),
    }
}

/// The iNES header flags, bit by bit: byte 6 holds mirroring (bit 0, set for
/// vertical), battery-backed RAM (bit 1), a trainer (bit 2), four-screen
/// mirroring (bit 3) and the low half of the mapper number (bits 4 to 7);
/// byte 7 holds VS Unisystem (bit 0), PlayChoice-10 (bit 1), the NES 2.0
/// marker (bits 2 and 3) and the high half of the mapper number (bits 4 to 7).
pub proof fn lemma_flag_bits(b6: u8, b7: u8)
    ensures
        ({
            let f = spec_flags(b6, b7);
            &&& (f.mirroring == Mirroring::Vertical) == (b6 % 2 == 1)
            &&& f.battery_ram == ((b6 / 2) % 2 == 1)
            &&& f.has_trainer == ((b6 / 4) % 2 == 1)
            &&& f.four_screen == ((b6 / 8) % 2 == 1)
            &&& f.uni_system == (b7 % 2 == 1)
            &&& f.play_choice == ((b7 / 2) % 2 == 1)
            &&& f.nes2_test as int == (b7 / 4) % 4
            &&& f.mapper as int == (b7 / 16) * 16 + b6 / 16
        }),
{
    assert({
        &&& (b6 & 0x01 != 0) == (b6 % 2 == 1)
        &&& (b6 & 0x02 != 0) == ((b6 / 2) % 2 == 1)
        &&& (b6 & 0x04 != 0) == ((b6 / 4) % 2 == 1)
        &&& (b6 & 0x08 != 0) == ((b6 / 8) % 2 == 1)
        &&& (b7 & 0x01 != 0) == (b7 % 2 == 1)
        &&& (b7 & 0x02 != 0) == ((b7 / 2) % 2 == 1)
        &&& ((b7 >> 2u8) & 0x03) == (b7 / 4) % 4
        &&& ((b7 & 0xF0) | (b6 >> 4u8)) == (b7 / 16) * 16 + b6 / 16
    }) by (bit_vector);
}

/// `b` starts with the iNES magic number `NES\x1A`.
pub open spec fn has_magic(b: Seq<u8>) -> bool {
    &&& b.len() >= 4
    &&& b[0] == 0x4E
    &&& b[1] == 0x45
    &&& b[2] == 0x53
    &&& b[3] == 0x1A
}

/// The number of PRG bytes the header `b` announces.
pub open spec fn prg_len(b: Seq<u8>) -> int {
    PRG_BANK_SIZE * b[4]
}

/// The number of CHR bytes the header `b` announces.
pub open spec fn chr_len(b: Seq<u8>) -> int {
    CHR_BANK_SIZE * b[5]
}

/// `b` holds a whole header and every bank that it announces.
pub open spec fn is_complete_image(b: Seq<u8>) -> bool {
    &&& b.len() >= HEADER_SIZE
    &&& b.len() >= HEADER_SIZE + prg_len(b) + chr_len(b)
}

/// Decodes header bytes 6 and 7. Fails when fewer than two bytes are given;
/// otherwise returns the bytes after them and the flags they encode.
pub fn parse_flags(bytes: &[u8]) -> (r: Result<(&[u8], Flags), RomError>)
    ensures
        bytes@.len() < 2 <==> r == Err::<(&[u8], Flags), RomError>(RomError::Truncated),
        bytes@.len() >= 2 <==> r is Ok,
        r matches Ok((rest, flags)) ==> {
            &&& rest@ == bytes@.subrange(2, bytes@.len() as int)
            &&& flags == spec_flags(bytes@[0], bytes@[1])
        },
{
    if bytes.len() < 2 {
        return Err(RomError::Truncated);
    }
    let b6 = bytes[0];
    let b7 = bytes[1];
    let lower_mapper: u8 = b6 >> 4;
    let upper_mapper: u8 = b7 >> 4;
    assert(((b7 >> 4u8) << 4u8) as u8 == b7 & 0xF0) by (bit_vector);
    let flags = Flags {
        mirroring: if b6 & 0x01 != 0 { Mirroring::Vertical } else { Mirroring::Horizontal },
        battery_ram: b6 & 0x02 != 0,
        has_trainer: b6 & 0x04 != 0,
        four_screen: b6 & 0x08 != 0,
        uni_system: b7 & 0x01 != 0,
        play_choice: b7 & 0x02 != 0,
        nes2_test: (b7 >> 2) & 0x03,
        mapper: (upper_mapper << 4) | lower_mapper,
    };
    Ok((&bytes[2..bytes.len()], flags))
}

/// Parses an iNES image: the magic number, the bank counts, the flags, eight
/// unused header bytes, then the PRG and CHR banks. Returns the bytes after
/// the CHR banks together with the cartridge.
pub fn parse_rom(bytes: &[u8]) -> (r: Result<(&[u8], Rom), RomError>)
    ensures
        !has_magic(bytes@) <==> r == Err::<(&[u8], Rom), RomError>(RomError::BadMagic),
        has_magic(bytes@) && !is_complete_image(bytes@)
            <==> r == Err::<(&[u8], Rom), RomError>(RomError::Truncated),
        has_magic(bytes@) && is_complete_image(bytes@) <==> r is Ok,
        r matches Ok((rest, rom)) ==> {
            let b = bytes@;
            let prg_end = HEADER_SIZE + prg_len(b);
            let chr_end = prg_end + chr_len(b);
            &&& rom.flags == spec_flags(b[6], b[7])
            &&& rom.prg_rom@ == b.subrange(HEADER_SIZE as int, prg_end)
            &&& rom.chr_rom@ == b.subrange(prg_end, chr_end)
            &&& rest@ == b.subrange(chr_end, b.len() as int)
        },
{
    if bytes.len() < 4 || bytes[0] != 0x4E || bytes[1] != 0x45 || bytes[2] != 0x53 || bytes[3] != 0x1A {
        return Err(RomError::BadMagic);
    }
    if bytes.len() < HEADER_SIZE {
        return Err(RomError::Truncated);
    }
    let prg_size: usize = PRG_BANK_SIZE * (bytes[4] as usize);
    let chr_size: usize = CHR_BANK_SIZE * (bytes[5] as usize);
    let header_rest = &bytes[6..bytes.len()];
    assert(header_rest@.len() >= 2);
    let (after_flags, flags) = match parse_flags(header_rest) {
        Ok(parsed) => parsed,
        Err(e) => { return Err(e); },
    };
    assert(after_flags@ =~= bytes@.subrange(8, bytes@.len() as int));
    if bytes.len() - HEADER_SIZE < prg_size || bytes.len() - HEADER_SIZE - prg_size < chr_size {
        return Err(RomError::Truncated);
    }
    let prg_end = HEADER_SIZE + prg_size;
    let chr_end = prg_end + chr_size;
    let prg_rom = slice_to_vec(&bytes[HEADER_SIZE..prg_end]);
    let chr_rom = slice_to_vec(&bytes[prg_end..chr_end]);
    Ok((&bytes[chr_end..bytes.len()], Rom { flags, prg_rom, chr_rom }))
}

} // verus!
