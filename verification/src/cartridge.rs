//! The iNES / NES 2.0 cartridge image parser.
//!
//! Both formats share a 16-byte header whose first four bytes are the magic
//! `"NES\x1A"`; bits 2..3 of byte 7 equal to `0b10` mark a NES 2.0 image,
//! anything else is iNES v1. After the header come an optional 512-byte
//! trainer, the PRG ROM banks (16 KiB units) and the CHR ROM banks (8 KiB
//! units); NES 2.0 extends the bank counts with the nibbles of byte 9 and an
//! exponential size encoding when a high nibble is `$F`.

use crate::devices::{ChrRom, PrgRom};
use vstd::prelude::*;

verus! {

/// PRG ROM bank granularity, in KiB.
pub const PRG_UNIT_SIZE: u16 = 16;

/// CHR ROM bank granularity, in KiB.
pub const CHR_UNIT_SIZE: u16 = 8;

/// Why a cartridge image was rejected.
#[derive(Clone, Copy, PartialEq, Eq, Structural, Debug)]
pub enum NesRomReadError {
    /// The image is the other header variant than this parser reads.
    FileFormatNotSupported,
    /// The image does not start with `"NES\x1A"`.
    MissingMagicBytes,
    /// The image ends before the PRG ROM banks the header promises.
    MissingPrgRom,
    /// The image ends inside the header, the trainer, or the CHR banks.
    UnexpectedEndOfData,
}

/// The two header variants.
#[derive(Clone, Copy, PartialEq, Eq, Structural, Debug)]
pub enum Nes {
    Ines,
    Nes2,
}

/// How the cartridge asks the PPU nametables to be aliased.
#[derive(Clone, Copy, PartialEq, Eq, Structural, Debug)]
pub enum Mirroring {
    Horizontal,
    Vertical,
    SingleScreen,
    FourScreen,
}

/// Do the first four bytes spell `"NES\x1A"`?
pub open spec fn spec_has_magic(data: Seq<u8>) -> bool {
    &&& data.len() >= 4
    &&& data[0] == 0x4E
    &&& data[1] == 0x45
    &&& data[2] == 0x53
    &&& data[3] == 0x1A
}

/// Does byte 7 carry the NES 2.0 marker?
pub open spec fn spec_nes2_marker(data: Seq<u8>) -> bool {
    data[7] & 0x0C == 0x08
}

/// Byte 6 bit 2: is a 512-byte trainer present?
pub open spec fn spec_trainer_present(data: Seq<u8>) -> bool {
    data[6] & 0x04 != 0
}

/// Where the PRG banks start: after the header and the trainer, if any.
pub open spec fn spec_prg_offset(data: Seq<u8>) -> int {
    16 + if spec_trainer_present(data) {
        512int
    } else {
        0int
    }
}

/// The nametable arrangement the header flags request: byte 6 bit 3
/// (four-screen VRAM) overrides bit 0 (0 horizontal, 1 vertical).
pub open spec fn spec_header_mirroring(data: Seq<u8>) -> Mirroring {
    if data[6] & 0x08 != 0 {
        Mirroring::FourScreen
    } else if data[6] & 0x01 != 0 {
        Mirroring::Vertical
    } else {
        Mirroring::Horizontal
    }
}

/// The mapper number assembled from the header nibbles: the high nibble of
/// byte 6 is its low nibble, the high nibble of byte 7 its high nibble.
pub open spec fn spec_header_mapper(data: Seq<u8>) -> u8 {
    (data[6] >> 4) | (data[7] & 0xF0)
}

/// Copy `len` bytes starting at `offset`; `None` when the data runs out.
fn take_bytes(data: &[u8], offset: usize, len: usize) -> (r: Option<Vec<u8>>)
    ensures
        r is Some <==> offset + len <= data@.len(),
        r matches Some(v) ==> v@ == data@.subrange(offset as int, offset as int + len as int),
{
    let data_len = data.len();
    if offset > data_len || len > data_len - offset {
        return None;
    }
    let mut v: Vec<u8> = Vec::new();
    let mut i: usize = 0;
    while i < len
        invariant
            data@.len() <= usize::MAX,
            offset + len <= data@.len(),
            i <= len,
            v@ =~= data@.subrange(offset as int, offset as int + i as int),
        decreases len - i,
    {
        v.push(data[offset + i]);
        i = i + 1;
    }
    proof {
        assert(v@ =~= data@.subrange(offset as int, offset as int + len as int));
    }
    Some(v)
}

/// Read `bank_count` banks of `unit_size` bytes each from the start of
/// `data`, concatenated; fails when the data is shorter than that.
pub fn read_banks(data: &[u8], bank_count: u8, unit_size: u16) -> (r: Result<
    Vec<u8>,
    NesRomReadError,
>)
    ensures
        r is Ok <==> bank_count * unit_size <= data@.len(),
        r matches Ok(v) ==> v@ == data@.subrange(0, bank_count as int * unit_size as int),
        r matches Err(e) ==> e == NesRomReadError::UnexpectedEndOfData,
{
    proof {
        assert(bank_count as int * unit_size as int <= 255 * 65535) by (nonlinear_arith)
            requires
                bank_count <= 255,
                unit_size <= 65535,
        ;
    }
    let total = bank_count as usize * unit_size as usize;
    match take_bytes(data, 0, total) {
        Some(v) => Ok(v),
        None => Err(NesRomReadError::UnexpectedEndOfData),
    }
}

/// Does `data` begin with the magic bytes?
fn check_magic(data: &[u8]) -> (r: bool)
    ensures
        r == spec_has_magic(data@),
{
    data.len() >= 4 && data[0] == 0x4E && data[1] == 0x45 && data[2] == 0x53 && data[3] == 0x1A
}

/// The raw iNES v1 header fields, in header order.
#[derive(Debug)]
pub struct InesHeader {
    pub prg_rom_size: u8,
    pub chr_rom_size: u8,
    pub flags_6: u8,
    pub flags_7: u8,
    pub prg_ram_size: u8,
    pub flags_9: u8,
    pub flags_10: u8,
    pub zero: Vec<u8>,
}

/// Which error an iNES v1 parse of `data` reports (meaningful only when
/// `spec_ines_ok` is false): a short header, a bad magic, the NES 2.0
/// marker, a truncated trainer, missing PRG banks, or missing CHR banks,
/// checked in that order.
pub open spec fn spec_ines_error(data: Seq<u8>) -> NesRomReadError {
    if data.len() < 16 {
        NesRomReadError::UnexpectedEndOfData
    } else if !spec_has_magic(data) {
        NesRomReadError::MissingMagicBytes
    } else if spec_nes2_marker(data) {
        NesRomReadError::FileFormatNotSupported
    } else if spec_trainer_present(data) && data.len() < 16 + 512 {
        NesRomReadError::UnexpectedEndOfData
    } else if spec_prg_offset(data) + data[4] * 0x4000 > data.len() {
        NesRomReadError::MissingPrgRom
    } else {
        NesRomReadError::UnexpectedEndOfData
    }
}

/// Does `data` parse as an iNES v1 image? The header must be complete,
/// carry the magic and not the NES 2.0 marker, and the trainer, the PRG
/// banks (byte 4, 16 KiB units) and the CHR banks (byte 5, 8 KiB units)
/// must all fit.
pub open spec fn spec_ines_ok(data: Seq<u8>) -> bool {
    &&& data.len() >= 16
    &&& spec_has_magic(data)
    &&& !spec_nes2_marker(data)
    &&& spec_trainer_present(data) ==> 16 + 512 <= data.len()
    &&& spec_prg_offset(data) + data[4] * 0x4000 <= data.len()
    &&& data[5] != 0 ==> spec_prg_offset(data) + data[4] * 0x4000 + data[5] * 0x2000
        <= data.len()
}

/// A parsed iNES v1 image.
#[derive(Debug)]
pub struct Ines {
    pub header: InesHeader,
    pub trainer: Option<Vec<u8>>,
    pub mirroring: Mirroring,
    pub battery: bool,
    pub four_screen_vram: bool,
    pub prg_rom: PrgRom,
    pub chr_rom: Option<ChrRom>,
    pub mapper: u8,
}

impl Ines {
    /// Parse the 16-byte iNES v1 header from the start of a cartridge
    /// image. An image carrying the NES 2.0 marker is the other format and
    /// is rejected with `FileFormatNotSupported`.
    pub fn header_from_file(data: &[u8]) -> (r: Result<InesHeader, NesRomReadError>)
        ensures
            r is Ok <==> (data@.len() >= 16 && spec_has_magic(data@) && !spec_nes2_marker(data@)),
            r matches Err(e) ==> e == spec_ines_error(data@)
                && e != NesRomReadError::MissingPrgRom,
            r matches Ok(h) ==> {
                &&& h.prg_rom_size == data@[4]
                &&& h.chr_rom_size == data@[5]
                &&& h.flags_6 == data@[6]
                &&& h.flags_7 == data@[7]
                &&& h.prg_ram_size == data@[8]
                &&& h.flags_9 == data@[9]
                &&& h.flags_10 == data@[10]
                &&& h.zero@ == data@.subrange(11, 16)
            },
    {
        if data.len() < 16 {
            return Err(NesRomReadError::UnexpectedEndOfData);
        }
        if !check_magic(data) {
            return Err(NesRomReadError::MissingMagicBytes);
        }
        if data[7] & 0x0C == 0x08 {
            return Err(NesRomReadError::FileFormatNotSupported);
        }
        let zero = match take_bytes(data, 11, 5) {
            Some(v) => v,
            None => return Err(NesRomReadError::UnexpectedEndOfData),
        };
        Ok(InesHeader {
            prg_rom_size: data[4],
            chr_rom_size: data[5],
            flags_6: data[6],
            flags_7: data[7],
            prg_ram_size: data[8],
            flags_9: data[9],
            flags_10: data[10],
            zero,
        })
    }

    /// Parse a whole iNES v1 image: header, optional 512-byte trainer,
    /// `prg_rom_size` banks of 16 KiB PRG, and `chr_rom_size` banks of
    /// 8 KiB CHR (0 banks means the board uses CHR RAM). Anything after
    /// that is miscellaneous data and is ignored.
    pub fn from_bytes(data: &[u8]) -> (r: Result<Ines, NesRomReadError>)
        ensures
            r is Ok <==> spec_ines_ok(data@),
            r matches Err(e) ==> e == spec_ines_error(data@),
            r matches Ok(c) ==> {
                &&& c.prg_rom@ == data@.subrange(
                    spec_prg_offset(data@),
                    spec_prg_offset(data@) + data@[4] * 0x4000,
                )
                &&& c.prg_rom@.len() == data@[4] * 0x4000
                &&& match c.chr_rom {
                    Some(chr) => data@[5] != 0 && chr@ == data@.subrange(
                        spec_prg_offset(data@) + data@[4] * 0x4000,
                        spec_prg_offset(data@) + data@[4] * 0x4000 + data@[5] * 0x2000,
                    ),
                    None => data@[5] == 0,
                }
                &&& match c.trainer {
                    Some(t) => spec_trainer_present(data@) && t@ == data@.subrange(16, 16 + 512int),
                    None => !spec_trainer_present(data@),
                }
                &&& c.mirroring == spec_header_mirroring(data@)
                &&& c.battery == (data@[6] & 0x02 != 0)
                &&& c.four_screen_vram == (data@[6] & 0x08 != 0)
                &&& c.mapper == spec_header_mapper(data@)
                &&& c.header.prg_rom_size == data@[4]
                &&& c.header.chr_rom_size == data@[5]
            },
    {
        let header = match Ines::header_from_file(data) {
            Ok(h) => h,
            Err(e) => return Err(e),
        };

        let is_trainer_present = header.flags_6 & 0b0000_0100 != 0;

        let mirroring = if header.flags_6 & 0b0000_1000 != 0 {
            Mirroring::FourScreen
        } else if header.flags_6 & 0b0000_0001 != 0 {
            Mirroring::Vertical
        } else {
            Mirroring::Horizontal
        };

        let battery = header.flags_6 & 0b0000_0010 != 0;
        let four_screen_vram = header.flags_6 & 0b0000_1000 != 0;

        let mut offset: usize = 16;
        let trainer = if is_trainer_present {
            match take_bytes(data, offset, 512) {
                Some(t) => {
                    offset = offset + 512;
                    Some(t)
                },
                None => return Err(NesRomReadError::UnexpectedEndOfData),
            }
        } else {
            None
        };

        let prg_len = header.prg_rom_size as usize * 0x4000;
        let prg_rom = match take_bytes(data, offset, prg_len) {
            Some(bytes) => PrgRom::new_with_data(bytes),
            None => return Err(NesRomReadError::MissingPrgRom),
        };
        offset = offset + prg_len;

        let chr_rom = if header.chr_rom_size != 0 {
            let chr_len = header.chr_rom_size as usize * 0x2000;
            match take_bytes(data, offset, chr_len) {
                Some(bytes) => Some(ChrRom::new_with_data(bytes)),
                None => return Err(NesRomReadError::UnexpectedEndOfData),
            }
        } else {
            None
        };

        let mapper = (header.flags_6 >> 4) | (header.flags_7 & 0xF0);

        Ok(Ines {
            header,
            trainer,
            mirroring,
            battery,
            four_screen_vram,
            prg_rom,
            chr_rom,
            mapper,
        })
    }
}


/// The raw NES 2.0 header fields. Byte 8 extends the mapper plane and names
/// the submapper; byte 9 holds the PRG/CHR bank-count high nibbles; bytes
/// 10-15 are stored verbatim (the RAM fields are shift amounts).
#[derive(Debug)]
pub struct Nes2Header {
    pub prg_rom_size: u8,
    pub chr_rom_size: u8,
    pub flags_6: u8,
    pub flags_7: u8,
    pub mapper: u8,
    pub mapper_plane: u8,
    pub submapper: u8,
    pub prg_rom_size_msb: u8,
    pub chr_rom_size_msb: u8,
    pub prg_ram_shift: u8,
    pub chr_ram_shift: u8,
    pub cpu_ppu_timing: u8,
    pub vs_system_type: u8,
    pub misc_rom_count: u8,
    pub default_expansion_device: u8,
}

/// The exponential NES 2.0 bank size: `2^E * (2M + 1)` with `E` in the top
/// six bits of the count byte and `M` in its bottom two.
pub open spec fn spec_nes2_ext_len(lsb: u8) -> int {
    (1u64 << ((lsb >> 2) as u64)) * (2 * (lsb & 0x03) + 1)
}

/// How many bytes a NES 2.0 bank area holds: `unit_kib` KiB times the
/// 12-bit count `msb:lsb`, or the exponential form when the high nibble is
/// `$F`.
pub open spec fn spec_nes2_bank_len(lsb: u8, msb: u8, unit_kib: u16) -> int {
    if msb != 0xF {
        (msb * 0x100 + lsb) * unit_kib * 1024
    } else {
        spec_nes2_ext_len(lsb)
    }
}

pub open spec fn spec_nes2_prg_len(data: Seq<u8>) -> int {
    spec_nes2_bank_len(data[4], data[9] & 0x0F, 16)
}

pub open spec fn spec_nes2_chr_len(data: Seq<u8>) -> int {
    spec_nes2_bank_len(data[5], data[9] >> 4, 8)
}

/// Which error a NES 2.0 parse of `data` reports (meaningful only when
/// `spec_nes2_ok` is false); an image without the NES 2.0 marker is the
/// other format.
pub open spec fn spec_nes2_error(data: Seq<u8>) -> NesRomReadError {
    if data.len() < 16 {
        NesRomReadError::UnexpectedEndOfData
    } else if !spec_has_magic(data) {
        NesRomReadError::MissingMagicBytes
    } else if !spec_nes2_marker(data) {
        NesRomReadError::FileFormatNotSupported
    } else if spec_trainer_present(data) && data.len() < 16 + 512 {
        NesRomReadError::UnexpectedEndOfData
    } else if spec_prg_offset(data) + spec_nes2_prg_len(data) > data.len() {
        NesRomReadError::MissingPrgRom
    } else {
        NesRomReadError::UnexpectedEndOfData
    }
}

/// Does `data` parse as a NES 2.0 image?
pub open spec fn spec_nes2_ok(data: Seq<u8>) -> bool {
    &&& data.len() >= 16
    &&& spec_has_magic(data)
    &&& spec_nes2_marker(data)
    &&& spec_trainer_present(data) ==> 16 + 512 <= data.len()
    &&& spec_prg_offset(data) + spec_nes2_prg_len(data) <= data.len()
    &&& spec_nes2_chr_len(data) != 0 ==> spec_prg_offset(data) + spec_nes2_prg_len(data)
        + spec_nes2_chr_len(data) <= data.len()
}

/// Compute a NES 2.0 bank area length and check it against the bytes that
/// are actually available; `None` when the area would run past the end.
fn nes2_bank_len(lsb: u8, msb: u8, unit_kib: u16, available: usize) -> (r: Option<usize>)
    requires
        msb < 0x10,
        unit_kib <= 16,
    ensures
        r is Some <==> spec_nes2_bank_len(lsb, msb, unit_kib) <= available,
        r matches Some(n) ==> n == spec_nes2_bank_len(lsb, msb, unit_kib),
{
    if msb != 0xF {
        let units: u64 = msb as u64 * 0x100 + lsb as u64;
        proof {
            assert(units * unit_kib as u64 * 1024 <= 0xEFF * 16 * 1024) by (nonlinear_arith)
                requires
                    units <= 0xEFF,
                    unit_kib <= 16,
            ;
        }
        let total: u64 = units * unit_kib as u64 * 1024;
        if total <= available as u64 {
            Some(total as usize)
        } else {
            None
        }
    } else {
        let exponent = lsb >> 2;
        let multiplier: u64 = (lsb & 0x03) as u64 * 2 + 1;
        proof {
            assert(lsb >> 2 < 64 && (lsb & 0x03) <= 3) by (bit_vector);
        }
        let power: u64 = 1u64 << (exponent as u64);
        proof {
            assert(power * multiplier <= 0xFFFF_FFFF_FFFF_FFFFu64 * 7) by (nonlinear_arith)
                requires
                    power <= 0xFFFF_FFFF_FFFF_FFFFu64,
                    multiplier <= 7,
            ;
        }
        let total: u128 = power as u128 * multiplier as u128;
        if total <= available as u128 {
            Some(total as usize)
        } else {
            None
        }
    }
}

/// A parsed NES 2.0 image. The extended RAM sizes are kept in the header as
/// the shift amounts the format stores; RAM devices themselves are created
/// when they are registered on a bus.
#[derive(Debug)]
pub struct Nes2 {
    pub header: Nes2Header,
    pub trainer: Option<Vec<u8>>,
    pub mirroring: Mirroring,
    pub prg_rom: PrgRom,
    pub chr_rom: Option<ChrRom>,
}

impl Nes2 {
    /// Parse the 16-byte NES 2.0 header from the start of a cartridge
    /// image. An image without the NES 2.0 marker is the other format and
    /// is rejected with `FileFormatNotSupported`.
    pub fn header_from_file(data: &[u8]) -> (r: Result<Nes2Header, NesRomReadError>)
        ensures
            r is Ok <==> (data@.len() >= 16 && spec_has_magic(data@) && spec_nes2_marker(data@)),
            r matches Err(e) ==> e == spec_nes2_error(data@)
                && e != NesRomReadError::MissingPrgRom,
            r matches Ok(h) ==> {
                &&& h.prg_rom_size == data@[4]
                &&& h.chr_rom_size == data@[5]
                &&& h.flags_6 == data@[6]
                &&& h.flags_7 == data@[7]
                &&& h.mapper == spec_header_mapper(data@)
                &&& h.mapper_plane == data@[8] & 0x0F
                &&& h.submapper == data@[8] >> 4
                &&& h.prg_rom_size_msb == data@[9] & 0x0F
                &&& h.chr_rom_size_msb == data@[9] >> 4
                &&& h.prg_ram_shift == data@[10]
                &&& h.chr_ram_shift == data@[11]
                &&& h.cpu_ppu_timing == data@[12]
                &&& h.vs_system_type == data@[13]
                &&& h.misc_rom_count == data@[14]
                &&& h.default_expansion_device == data@[15]
            },
    {
        if data.len() < 16 {
            return Err(NesRomReadError::UnexpectedEndOfData);
        }
        if !check_magic(data) {
            return Err(NesRomReadError::MissingMagicBytes);
        }
        if data[7] & 0x0C != 0x08 {
            return Err(NesRomReadError::FileFormatNotSupported);
        }
        Ok(Nes2Header {
            prg_rom_size: data[4],
            chr_rom_size: data[5],
            flags_6: data[6],
            flags_7: data[7],
            mapper: (data[6] >> 4) | (data[7] & 0xF0),
            mapper_plane: data[8] & 0x0F,
            submapper: data[8] >> 4,
            prg_rom_size_msb: data[9] & 0x0F,
            chr_rom_size_msb: data[9] >> 4,
            prg_ram_shift: data[10],
            chr_ram_shift: data[11],
            cpu_ppu_timing: data[12],
            vs_system_type: data[13],
            misc_rom_count: data[14],
            default_expansion_device: data[15],
        })
    }

    /// Parse a whole NES 2.0 image: header, optional 512-byte trainer, PRG
    /// banks sized by byte 4 and the low nibble of byte 9, and CHR banks
    /// sized by byte 5 and the high nibble of byte 9 (size 0 means the
    /// board uses CHR RAM).
    pub fn from_bytes(data: &[u8]) -> (r: Result<Nes2, NesRomReadError>)
        ensures
            r is Ok <==> spec_nes2_ok(data@),
            r matches Err(e) ==> e == spec_nes2_error(data@),
            r matches Ok(c) ==> {
                &&& c.prg_rom@ == data@.subrange(
                    spec_prg_offset(data@),
                    spec_prg_offset(data@) + spec_nes2_prg_len(data@),
                )
                &&& c.prg_rom@.len() == spec_nes2_prg_len(data@)
                &&& match c.chr_rom {
                    Some(chr) => spec_nes2_chr_len(data@) != 0 && chr@ == data@.subrange(
                        spec_prg_offset(data@) + spec_nes2_prg_len(data@),
                        spec_prg_offset(data@) + spec_nes2_prg_len(data@)
                            + spec_nes2_chr_len(data@),
                    ),
                    None => spec_nes2_chr_len(data@) == 0,
                }
                &&& match c.trainer {
                    Some(t) => spec_trainer_present(data@) && t@ == data@.subrange(16, 16 + 512int),
                    None => !spec_trainer_present(data@),
                }
                &&& c.mirroring == spec_header_mirroring(data@)
                &&& c.header.prg_rom_size == data@[4]
                &&& c.header.chr_rom_size == data@[5]
                &&& c.header.mapper == spec_header_mapper(data@)
            },
    {
        let header = match Nes2::header_from_file(data) {
            Ok(h) => h,
            Err(e) => return Err(e),
        };

        let is_trainer_present = header.flags_6 & 0b0000_0100 != 0;

        let mirroring = if header.flags_6 & 0b0000_1000 != 0 {
            Mirroring::FourScreen
        } else if header.flags_6 & 0b0000_0001 != 0 {
            Mirroring::Vertical
        } else {
            Mirroring::Horizontal
        };

        let mut offset: usize = 16;
        let trainer = if is_trainer_present {
            match take_bytes(data, offset, 512) {
                Some(t) => {
                    offset = offset + 512;
                    Some(t)
                },
                None => return Err(NesRomReadError::UnexpectedEndOfData),
            }
        } else {
            None
        };

        proof {
            let b = data@[9];
            assert(b & 0x0F < 0x10 && b >> 4 < 0x10) by (bit_vector);
        }
        let available = if offset <= data.len() {
            data.len() - offset
        } else {
            0
        };
        let prg_len = match nes2_bank_len(header.prg_rom_size, header.prg_rom_size_msb, 16,
            available) {
            Some(n) => n,
            None => return Err(NesRomReadError::MissingPrgRom),
        };
        let prg_rom = match take_bytes(data, offset, prg_len) {
            Some(bytes) => PrgRom::new_with_data(bytes),
            None => return Err(NesRomReadError::MissingPrgRom),
        };
        offset = offset + prg_len;

        let available = data.len() - offset;
        let chr_rom = match nes2_bank_len(header.chr_rom_size, header.chr_rom_size_msb, 8,
            available) {
            Some(0) => None,
            Some(chr_len) => match take_bytes(data, offset, chr_len) {
                Some(bytes) => Some(ChrRom::new_with_data(bytes)),
                None => return Err(NesRomReadError::UnexpectedEndOfData),
            },
            None => return Err(NesRomReadError::UnexpectedEndOfData),
        };

        Ok(Nes2 { header, trainer, mirroring, prg_rom, chr_rom })
    }
}

/// The image a cartridge was parsed from: one of the two header variants.
#[derive(Debug)]
pub enum CartridgeImage {
    Ines(Ines),
    Nes2(Nes2),
}

/// A loaded cartridge: the parsed image, whichever variant it was.
#[derive(Debug)]
pub struct Cartridge {
    pub data: CartridgeImage,
}

/// Does `data` parse as a cartridge image of whichever variant its header
/// byte 7 declares?
pub open spec fn spec_cartridge_ok(data: Seq<u8>) -> bool {
    &&& data.len() >= 16
    &&& spec_has_magic(data)
    &&& if spec_nes2_marker(data) {
        spec_nes2_ok(data)
    } else {
        spec_ines_ok(data)
    }
}

/// Which error a cartridge parse of `data` reports (meaningful only when
/// `spec_cartridge_ok` is false).
pub open spec fn spec_cartridge_error(data: Seq<u8>) -> NesRomReadError {
    if data.len() < 16 {
        NesRomReadError::UnexpectedEndOfData
    } else if !spec_has_magic(data) {
        NesRomReadError::MissingMagicBytes
    } else if spec_nes2_marker(data) {
        spec_nes2_error(data)
    } else {
        spec_ines_error(data)
    }
}

impl Cartridge {
    /// Which header variant `data` declares: the NES 2.0 marker in byte 7
    /// decides, once the magic is present.
    pub fn nes_type_from_bytes(data: &[u8]) -> (r: Result<Nes, NesRomReadError>)
        ensures
            r is Ok <==> (data@.len() >= 16 && spec_has_magic(data@)),
            r matches Ok(t) ==> t == (if spec_nes2_marker(data@) {
                Nes::Nes2
            } else {
                Nes::Ines
            }),
            r matches Err(e) ==> e == (if data@.len() < 16 {
                NesRomReadError::UnexpectedEndOfData
            } else {
                NesRomReadError::MissingMagicBytes
            }),
    {
        if data.len() < 16 {
            return Err(NesRomReadError::UnexpectedEndOfData);
        }
        if !check_magic(data) {
            return Err(NesRomReadError::MissingMagicBytes);
        }
        if data[7] & 0x0C == 0x08 {
            Ok(Nes::Nes2)
        } else {
            Ok(Nes::Ines)
        }
    }

    /// Parse a cartridge image, dispatching on the header variant.
    pub fn from_bytes(data: &[u8]) -> (r: Result<Cartridge, NesRomReadError>)
        ensures
            r is Ok <==> spec_cartridge_ok(data@),
            r matches Err(e) ==> e == spec_cartridge_error(data@),
            r matches Ok(c) ==> match c.data {
                CartridgeImage::Ines(i) => !spec_nes2_marker(data@) && i.prg_rom@
                    == data@.subrange(
                    spec_prg_offset(data@),
                    spec_prg_offset(data@) + data@[4] * 0x4000,
                ) && i.mirroring == spec_header_mirroring(data@),
                CartridgeImage::Nes2(n) => spec_nes2_marker(data@) && n.prg_rom@
                    == data@.subrange(
                    spec_prg_offset(data@),
                    spec_prg_offset(data@) + spec_nes2_prg_len(data@),
                ) && n.mirroring == spec_header_mirroring(data@),
            },
    {
        let nes_type = match Cartridge::nes_type_from_bytes(data) {
            Ok(t) => t,
            Err(e) => return Err(e),
        };
        match nes_type {
            Nes::Ines => match Ines::from_bytes(data) {
                Ok(ines) => Ok(Cartridge { data: CartridgeImage::Ines(ines) }),
                Err(e) => Err(e),
            },
            Nes::Nes2 => match Nes2::from_bytes(data) {
                Ok(nes2) => Ok(Cartridge { data: CartridgeImage::Nes2(nes2) }),
                Err(e) => Err(e),
            },
        }
    }
}

/// What a loaded cartridge exposes to the machine: its PRG ROM and, when
/// the board has one, its CHR ROM.
pub trait CartridgeData {
    spec fn spec_prg_rom(&self) -> Seq<u8>;

    spec fn spec_has_chr_rom(&self) -> bool;

    spec fn spec_chr_rom(&self) -> Seq<u8>;

    fn prg_rom(&self) -> (r: &PrgRom)
        ensures
            r@ == self.spec_prg_rom(),
    ;

    fn has_chr_rom(&self) -> (r: bool)
        ensures
            r == self.spec_has_chr_rom(),
    ;

    /// The CHR ROM; a board without one uses CHR RAM instead, so asking for
    /// it is a caller error.
    fn chr_rom(&self) -> (r: &ChrRom)
        requires
            self.spec_has_chr_rom(),
        ensures
            r@ == self.spec_chr_rom(),
    ;
}

impl CartridgeData for Ines {
    open spec fn spec_prg_rom(&self) -> Seq<u8> {
        self.prg_rom@
    }

    open spec fn spec_has_chr_rom(&self) -> bool {
        self.chr_rom is Some
    }

    open spec fn spec_chr_rom(&self) -> Seq<u8> {
        match self.chr_rom {
            Some(ref c) => c@,
            None => Seq::empty(),
        }
    }

    fn prg_rom(&self) -> (r: &PrgRom) {
        &self.prg_rom
    }

    fn has_chr_rom(&self) -> (r: bool) {
        match &self.chr_rom {
            Some(_) => true,
            None => false,
        }
    }

    fn chr_rom(&self) -> (r: &ChrRom) {
        match &self.chr_rom {
            Some(c) => c,
            None => vstd::pervasive::unreached(),
        }
    }
}

impl CartridgeData for Nes2 {
    open spec fn spec_prg_rom(&self) -> Seq<u8> {
        self.prg_rom@
    }

    open spec fn spec_has_chr_rom(&self) -> bool {
        self.chr_rom is Some
    }

    open spec fn spec_chr_rom(&self) -> Seq<u8> {
        match self.chr_rom {
            Some(ref c) => c@,
            None => Seq::empty(),
        }
    }

    fn prg_rom(&self) -> (r: &PrgRom) {
        &self.prg_rom
    }

    fn has_chr_rom(&self) -> (r: bool) {
        match &self.chr_rom {
            Some(_) => true,
            None => false,
        }
    }

    fn chr_rom(&self) -> (r: &ChrRom) {
        match &self.chr_rom {
            Some(c) => c,
            None => vstd::pervasive::unreached(),
        }
    }
}

impl CartridgeData for Cartridge {
    open spec fn spec_prg_rom(&self) -> Seq<u8> {
        match self.data {
            CartridgeImage::Ines(ref i) => i.spec_prg_rom(),
            CartridgeImage::Nes2(ref n) => n.spec_prg_rom(),
        }
    }

    open spec fn spec_has_chr_rom(&self) -> bool {
        match self.data {
            CartridgeImage::Ines(ref i) => i.spec_has_chr_rom(),
            CartridgeImage::Nes2(ref n) => n.spec_has_chr_rom(),
        }
    }

    open spec fn spec_chr_rom(&self) -> Seq<u8> {
        match self.data {
            CartridgeImage::Ines(ref i) => i.spec_chr_rom(),
            CartridgeImage::Nes2(ref n) => n.spec_chr_rom(),
        }
    }

    fn prg_rom(&self) -> (r: &PrgRom) {
        match &self.data {
            CartridgeImage::Ines(i) => i.prg_rom(),
            CartridgeImage::Nes2(n) => n.prg_rom(),
        }
    }

    fn has_chr_rom(&self) -> (r: bool) {
        match &self.data {
            CartridgeImage::Ines(i) => i.has_chr_rom(),
            CartridgeImage::Nes2(n) => n.has_chr_rom(),
        }
    }

    fn chr_rom(&self) -> (r: &ChrRom) {
        match &self.data {
            CartridgeImage::Ines(i) => i.chr_rom(),
            CartridgeImage::Nes2(n) => n.chr_rom(),
        }
    }
}

} // verus!
