//! The iNES cartridge file format: a 16-byte header, then program ROM in
//! banks of 16 KiB, then character ROM in banks of 8 KiB.
//!
//! Header bytes that pack several fields are read from the most significant
//! bit down, so the first field named for a byte sits in its top bits.

use vstd::arithmetic::power2::lemma2_to64;
use vstd::arithmetic::power2::lemma_pow2_strictly_increases;
use vstd::arithmetic::power2::lemma_pow2_unfold;
use vstd::arithmetic::power2::pow2;
use vstd::prelude::*;
use vstd::slice::slice_to_vec;

verus! {

/// Length of the header.
pub const HEADER_SIZE: usize = 16;

/// Size of one bank of program ROM.
pub const PRG_ROM_BANK: usize = 16384;

/// Size of one bank of character ROM.
pub const CHR_ROM_BANK: usize = 8192;

/// Why a cartridge file was refused.
#[derive(PartialEq, Eq, Structural, Debug, Clone, Copy)]
#[allow(non_camel_case_types)]
pub enum iNESError {
    /// The file is shorter than a header.
    TruncatedHeader,
    /// The file does not start with `NES` and the byte 0x1A.
    BadMagic,
    /// The header asks for a trainer or for a ROM size in exponent notation.
    UnsupportedHeader,
    /// The file ends before the ROM banks that the header announces.
    TruncatedRom,
    /// Bytes follow the ROM banks.
    UnsupportedTrailer,
}

/// A parsed cartridge file.
#[allow(non_camel_case_types)]
#[derive(Debug)]
pub struct iNESData {
    pub header: iNESHeader,
    pub prg_rom: Vec<u8>,
    pub chr_rom: Vec<u8>,
}

/// The fields of a cartridge header.
#[allow(non_camel_case_types)]
#[derive(Debug, Clone, Copy)]
pub struct iNESHeader {
    pub version: iNESVersion,
    pub prg_rom_size: usize,
    pub chr_rom_size: usize,
    pub mapper_number: u16,
    pub trainer_enabled: bool,
    pub battery_enabled: bool,
    pub alternative_nametables: bool,
    pub nametable_layout: NametableLayout,
    pub console_type: ConsoleType,
    pub prg_ram_size: usize,
    // iNES 2.0 specific
    pub submapper_number: Option<u8>,
    pub prg_nvram_size: Option<usize>,
    pub chr_ram_size: Option<usize>,
    pub chr_nvram_size: Option<usize>,
    pub console_timing: Option<ConsoleTiming>,
}

/// The version of the file format.
#[allow(non_camel_case_types)]
#[derive(PartialEq, Eq, Structural, Debug, Clone, Copy)]
pub enum iNESVersion {
    iNES_1,
    iNES_2,
}

/// How the nametables are laid out.
#[allow(non_camel_case_types)]
#[derive(PartialEq, Eq, Structural, Debug, Clone, Copy)]
pub enum NametableLayout {
    vertical_or_mapper,
    horizontal,
}

/// The console that the cartridge was made for.
#[allow(non_camel_case_types)]
#[derive(PartialEq, Eq, Structural, Debug, Clone, Copy)]
pub enum ConsoleType {
    NES_FamilyComputer,
    VS_System,
    Playchoice_10,
    ExtendedConsoleType,
}

/// The television timing that the cartridge was made for.
#[derive(PartialEq, Eq, Structural, Debug, Clone, Copy)]
pub enum ConsoleTiming {
    NTSC,
    PAL,
    MultiRegion,
    Dendy,
}

/// The mathematical content of a parsed cartridge file.
#[allow(non_camel_case_types)]
pub struct iNESImage {
    pub header: iNESHeader,
    pub prg_rom: Seq<u8>,
    pub chr_rom: Seq<u8>,
}

impl View for iNESData {
    type V = iNESImage;

    open spec fn view(&self) -> iNESImage {
        iNESImage { header: self.header, prg_rom: self.prg_rom@, chr_rom: self.chr_rom@ }
    }
}

/// The top four bits of a byte.
pub open spec fn high_nibble(byte: u8) -> int {
    byte as int / 16
}

/// The bottom four bits of a byte.
pub open spec fn low_nibble(byte: u8) -> int {
    byte as int % 16
}

/// Bit `n` of a byte, bit 0 being the least significant.
pub open spec fn bit_set(byte: u8, n: nat) -> bool {
    (byte as int / pow2(n) as int) % 2 == 1
}

/// Whether the bytes start with `NES` and the byte 0x1A.
pub open spec fn magic_ok(header: Seq<u8>) -> bool {
    &&& header.len() >= 4
    &&& header[0] == 0x4E
    &&& header[1] == 0x45
    &&& header[2] == 0x53
    &&& header[3] == 0x1A
}

/// The format version that byte 7 announces: bits 3 and 2 hold 0b10 for
/// version 2; every other value means version 1.
pub open spec fn version_of(byte7: u8) -> iNESVersion {
    if (byte7 as int / 4) % 4 == 2 {
        iNESVersion::iNES_2
    } else {
        iNESVersion::iNES_1
    }
}

/// The console that the two lowest bits of byte 7 announce.
pub open spec fn console_type_of(byte7: u8) -> ConsoleType {
    let code = byte7 as int % 4;
    if code == 0 {
        ConsoleType::NES_FamilyComputer
    } else if code == 1 {
        ConsoleType::VS_System
    } else if code == 2 {
        ConsoleType::Playchoice_10
    } else {
        ConsoleType::ExtendedConsoleType
    }
}

/// The timing that the two lowest bits of byte 12 announce.
pub open spec fn console_timing_of(byte12: u8) -> ConsoleTiming {
    let code = byte12 as int % 4;
    if code == 0 {
        ConsoleTiming::NTSC
    } else if code == 1 {
        ConsoleTiming::PAL
    } else if code == 2 {
        ConsoleTiming::MultiRegion
    } else {
        ConsoleTiming::Dendy
    }
}

/// The layout that the lowest bit of byte 6 announces.
pub open spec fn nametable_layout_of(byte6: u8) -> NametableLayout {
    if byte6 as int % 2 == 1 {
        NametableLayout::horizontal
    } else {
        NametableLayout::vertical_or_mapper
    }
}

/// The size in bytes of a RAM whose header field holds `shift`: 64 shifted
/// left by `shift`.
pub open spec fn ram_size_of(shift: int) -> int {
    64 * (pow2(shift as nat) as int)
}

/// Whether a version 2 header gives a ROM size in exponent notation: the
/// most significant nibble of a ROM size is 0b1111.
pub open spec fn exponent_rom_size(header: Seq<u8>) -> bool {
    version_of(header[7]) == iNESVersion::iNES_2 && (high_nibble(header[9]) == 15 || low_nibble(
        header[9],
    ) == 15)
}

/// The fields that a header of at least 16 bytes holds.
pub open spec fn header_of(header: Seq<u8>) -> iNESHeader {
    let low_mapper = high_nibble(header[6]);
    let mid_mapper = high_nibble(header[7]);
    if version_of(header[7]) == iNESVersion::iNES_2 {
        iNESHeader {
            version: iNESVersion::iNES_2,
            prg_rom_size: (high_nibble(header[9]) * 256 + header[4]) as usize,
            chr_rom_size: (low_nibble(header[9]) * 256 + header[5]) as usize,
            mapper_number: (low_nibble(header[8]) * 256 + mid_mapper * 16 + low_mapper) as u16,
            trainer_enabled: bit_set(header[6], 2),
            battery_enabled: bit_set(header[6], 1),
            alternative_nametables: bit_set(header[6], 3),
            nametable_layout: nametable_layout_of(header[6]),
            console_type: console_type_of(header[7]),
            prg_ram_size: ram_size_of(low_nibble(header[10])) as usize,
            submapper_number: Some(high_nibble(header[8]) as u8),
            prg_nvram_size: Some(ram_size_of(high_nibble(header[10])) as usize),
            chr_ram_size: Some(ram_size_of(low_nibble(header[11])) as usize),
            chr_nvram_size: Some(ram_size_of(high_nibble(header[11])) as usize),
            console_timing: Some(console_timing_of(header[12])),
        }
    } else {
        iNESHeader {
            version: iNESVersion::iNES_1,
            prg_rom_size: header[4] as usize,
            chr_rom_size: header[5] as usize,
            mapper_number: (mid_mapper * 16 + low_mapper) as u16,
            trainer_enabled: bit_set(header[6], 2),
            battery_enabled: bit_set(header[6], 1),
            alternative_nametables: bit_set(header[6], 3),
            nametable_layout: nametable_layout_of(header[6]),
            console_type: console_type_of(header[7]),
            prg_ram_size: header[8] as usize,
            submapper_number: None,
            prg_nvram_size: None,
            chr_ram_size: None,
            chr_nvram_size: None,
            console_timing: None,
        }
    }
}

/// What parsing a header yields: its fields, or the first thing wrong with it.
pub open spec fn parse_header_spec(header: Seq<u8>) -> Result<iNESHeader, iNESError> {
    if header.len() < HEADER_SIZE {
        Err(iNESError::TruncatedHeader)
    } else if !magic_ok(header) {
        Err(iNESError::BadMagic)
    } else if exponent_rom_size(header) {
        Err(iNESError::UnsupportedHeader)
    } else {
        Ok(header_of(header))
    }
}

/// What parsing a whole file yields: header and ROM banks, or the first
/// thing wrong with the file.
pub open spec fn parse_file_spec(input: Seq<u8>) -> Result<iNESImage, iNESError> {
    if input.len() < HEADER_SIZE {
        Err(iNESError::TruncatedHeader)
    } else {
        match parse_header_spec(input.subrange(0, HEADER_SIZE as int)) {
            Err(e) => Err(e),
            Ok(header) => {
                let prg_end = HEADER_SIZE + header.prg_rom_size * PRG_ROM_BANK;
                let chr_end = prg_end + header.chr_rom_size * CHR_ROM_BANK;
                if header.trainer_enabled {
                    Err(iNESError::UnsupportedHeader)
                } else if input.len() < chr_end {
                    Err(iNESError::TruncatedRom)
                } else if input.len() > chr_end {
                    Err(iNESError::UnsupportedTrailer)
                } else {
                    Ok(
                        iNESImage {
                            header,
                            prg_rom: input.subrange(HEADER_SIZE as int, prg_end),
                            chr_rom: input.subrange(prg_end, chr_end),
                        },
                    )
                }
            },
        }
    }
}

/// Splits `count` bytes off the front of `input`: the rest first, then the
/// bytes taken. `None` when `input` is shorter than `count`.
fn take_bytes(input: &[u8], count: usize) -> (r: Option<(&[u8], &[u8])>)
    ensures
        r.is_some() <==> count <= input@.len(),
        r.is_some() ==> r.unwrap().1@ == input@.subrange(0, count as int) && r.unwrap().0@
            == input@.subrange(count as int, input@.len() as int),
{
    if count <= input.len() {
        let (taken, rest) = input.split_at(count);
        Some((rest, taken))
    } else {
        None
    }
}

/// Splits `chunked_length` banks of program ROM off the front of `input`:
/// the rest first, then the banks. `None` when `input` holds fewer bytes.
pub fn get_prg_rom_data(input: &[u8], chunked_length: usize) -> (r: Option<(&[u8], &[u8])>)
    ensures
        r.is_some() <==> chunked_length * PRG_ROM_BANK <= input@.len(),
        r.is_some() ==> r.unwrap().1@ == input@.subrange(0, chunked_length * PRG_ROM_BANK)
            && r.unwrap().0@ == input@.subrange(
            chunked_length * PRG_ROM_BANK,
            input@.len() as int,
        ),
{
    let len = input.len();
    match chunked_length.checked_mul(PRG_ROM_BANK) {
        Some(count) => take_bytes(input, count),
        None => None,
    }
}

/// Splits `chunked_length` banks of character ROM off the front of `input`:
/// the rest first, then the banks. `None` when `input` holds fewer bytes.
pub fn get_chr_rom_data(input: &[u8], chunked_length: usize) -> (r: Option<(&[u8], &[u8])>)
    ensures
        r.is_some() <==> chunked_length * CHR_ROM_BANK <= input@.len(),
        r.is_some() ==> r.unwrap().1@ == input@.subrange(0, chunked_length * CHR_ROM_BANK)
            && r.unwrap().0@ == input@.subrange(
            chunked_length * CHR_ROM_BANK,
            input@.len() as int,
        ),
{
    let len = input.len();
    match chunked_length.checked_mul(CHR_ROM_BANK) {
        Some(count) => take_bytes(input, count),
        None => None,
    }
}

/// The size in bytes of a RAM whose header field holds `shift`.
fn ram_size(shift: u8) -> (r: usize)
    requires
        shift <= 15,
    ensures
        r == ram_size_of(shift as int),
{
    let mut r: usize = 64;
    let mut i: u8 = 0;
    proof {
        lemma2_to64();
    }
    while i < shift
        invariant
            i <= shift <= 15,
            r == 64 * pow2(i as nat),
            r <= 64 * 32768,
        decreases shift - i,
    {
        proof {
            lemma_pow2_unfold((i + 1) as nat);
            lemma2_to64();
            if i + 1 < 15 {
                lemma_pow2_strictly_increases((i + 1) as nat, 15);
            }
        }
        r = r * 2;
        i += 1;
    }
    proof {
        lemma2_to64();
    }
    r
}

/// Parses the 16-byte header of a cartridge file.
pub fn parse_header(header: &[u8]) -> (r: Result<iNESHeader, iNESError>)
    ensures
        r == parse_header_spec(header@),
{
    if header.len() < HEADER_SIZE {
        return Err(iNESError::TruncatedHeader);
    }
    if header[0] != 0x4E || header[1] != 0x45 || header[2] != 0x53 || header[3] != 0x1A {
        return Err(iNESError::BadMagic);
    }
    let prg_rom_size_lsb = header[4];
    let chr_rom_size_lsb = header[5];
    let flags6 = header[6];
    let mapper_b0_b3 = flags6 / 16;
    let alternative_nametables = (flags6 / 8) % 2 == 1;
    let trainer_enabled = (flags6 / 4) % 2 == 1;
    let battery_enabled = (flags6 / 2) % 2 == 1;
    let nametable_layout = if flags6 % 2 == 1 {
        NametableLayout::horizontal
    } else {
        NametableLayout::vertical_or_mapper
    };
    let flags7 = header[7];
    let mapper_b4_b7 = flags7 / 16;
    let version = if (flags7 / 4) % 4 == 2 {
        iNESVersion::iNES_2
    } else {
        iNESVersion::iNES_1
    };
    let console_code = flags7 % 4;
    let console_type = if console_code == 0 {
        ConsoleType::NES_FamilyComputer
    } else if console_code == 1 {
        ConsoleType::VS_System
    } else if console_code == 2 {
        ConsoleType::Playchoice_10
    } else {
        ConsoleType::ExtendedConsoleType
    };
    proof {
        lemma2_to64();
    }
    match version {
        iNESVersion::iNES_1 => {
            let prg_ram_size = header[8];
            Ok(
                iNESHeader {
                    version,
                    prg_rom_size: prg_rom_size_lsb as usize,
                    chr_rom_size: chr_rom_size_lsb as usize,
                    mapper_number: (mapper_b4_b7 as u16) * 16 + mapper_b0_b3 as u16,
                    trainer_enabled,
                    battery_enabled,
                    alternative_nametables,
                    nametable_layout,
                    console_type,
                    prg_ram_size: prg_ram_size as usize,
                    submapper_number: None,
                    prg_nvram_size: None,
                    chr_ram_size: None,
                    chr_nvram_size: None,
                    console_timing: None,
                },
            )
        },
        iNESVersion::iNES_2 => {
            let submapper_number = header[8] / 16;
            let mapper_b8_b11 = header[8] % 16;
            let prg_rom_size_msb = header[9] / 16;
            let chr_rom_size_msb = header[9] % 16;
            if prg_rom_size_msb == 15 || chr_rom_size_msb == 15 {
                return Err(iNESError::UnsupportedHeader);
            }
            let prg_nvram = header[10] / 16;
            let prg_ram = header[10] % 16;
            let chr_nvram = header[11] / 16;
            let chr_ram = header[11] % 16;
            let timing_code = header[12] % 4;
            let console_timing = if timing_code == 0 {
                ConsoleTiming::NTSC
            } else if timing_code == 1 {
                ConsoleTiming::PAL
            } else if timing_code == 2 {
                ConsoleTiming::MultiRegion
            } else {
                ConsoleTiming::Dendy
            };
            Ok(
                iNESHeader {
                    version,
                    prg_rom_size: (prg_rom_size_msb as usize) * 256 + prg_rom_size_lsb as usize,
                    chr_rom_size: (chr_rom_size_msb as usize) * 256 + chr_rom_size_lsb as usize,
                    mapper_number: (mapper_b8_b11 as u16) * 256 + (mapper_b4_b7 as u16) * 16
                        + mapper_b0_b3 as u16,
                    trainer_enabled,
                    battery_enabled,
                    alternative_nametables,
                    nametable_layout,
                    console_type,
                    submapper_number: Some(submapper_number),
                    prg_nvram_size: Some(ram_size(prg_nvram)),
                    prg_ram_size: ram_size(prg_ram),
                    chr_nvram_size: Some(ram_size(chr_nvram)),
                    chr_ram_size: Some(ram_size(chr_ram)),
                    console_timing: Some(console_timing),
                },
            )
        },
    }
}

/// Parses a cartridge file: the header, then the program ROM and the
/// character ROM that it announces, and nothing after them.
pub fn parse_file(input: &[u8]) -> (r: Result<iNESData, iNESError>)
    ensures
        match r {
            Ok(data) => parse_file_spec(input@) == Ok::<iNESImage, iNESError>(data@),
            Err(e) => parse_file_spec(input@) == Err::<iNESImage, iNESError>(e),
        },
{
    let (remaining, header_data) = match take_bytes(input, HEADER_SIZE) {
        None => { return Err(iNESError::TruncatedHeader); },
        Some(parts) => parts,
    };
    let header = match parse_header(header_data) {
        Err(e) => { return Err(e); },
        Ok(header) => header,
    };
    if header.trainer_enabled {
        return Err(iNESError::UnsupportedHeader);
    }
    proof {
        lemma_rom_sizes_bounded(header_data@);
    }
    let (remaining, prg_rom_data) = match get_prg_rom_data(remaining, header.prg_rom_size) {
        None => { return Err(iNESError::TruncatedRom); },
        Some(parts) => parts,
    };
    let (remaining, chr_rom_data) = match get_chr_rom_data(remaining, header.chr_rom_size) {
        None => { return Err(iNESError::TruncatedRom); },
        Some(parts) => parts,
    };
    if remaining.len() != 0 {
        return Err(iNESError::UnsupportedTrailer);
    }
    let prg_rom = slice_to_vec(prg_rom_data);
    let chr_rom = slice_to_vec(chr_rom_data);
    proof {
        let prg_end = HEADER_SIZE + header.prg_rom_size * PRG_ROM_BANK;
        let chr_end = prg_end + header.chr_rom_size * CHR_ROM_BANK;
        assert(prg_rom@ =~= input@.subrange(HEADER_SIZE as int, prg_end));
        assert(chr_rom@ =~= input@.subrange(prg_end, chr_end));
    }
    Ok(iNESData { header, prg_rom, chr_rom })
}

/// A header that parses announces fewer than 3840 banks of each ROM.
pub proof fn lemma_rom_sizes_bounded(header: Seq<u8>)
    requires
        parse_header_spec(header).is_ok(),
    ensures
        parse_header_spec(header).unwrap().prg_rom_size < 3840,
        parse_header_spec(header).unwrap().chr_rom_size < 3840,
{
}

} // verus!
