use vstd::prelude::*;

use crate::nesfile::{magic_ok, ParseError, HEADER_LEN};

verus! {

/// Flag bit: a 512-byte trainer precedes the program ROM.
pub const TRAINER: u16 = 0b100;

/// Flag bit: PlayChoice-10 data follows the character ROM.
pub const PLAY_CHOICE_10: u16 = 0b10 << 8;

/// Flag bits that header flags keep; the others are dropped.
pub const KNOWN_FLAGS: u16 = 0b1111 | (0b1 << 8) | (0b10 << 8) | (0b1100 << 8);

pub const TRAINER_LEN: u32 = 512;

/// A cartridge image read in place: mapper number and the two ROMs.
pub struct Rom<'a> {
    pub mapper: u16,
    pub prg: &'a [u8],
    pub chr: &'a [u8],
}

pub open spec fn flag_set(flags: u16, flag: u16) -> bool {
    flags & flag == flag
}

/// The header flags: the two flag bytes read big-endian.
pub open spec fn known_flags_of(b: Seq<u8>) -> u16 {
    ((b[6] as int * 0x100 + b[7] as int) as u16) & KNOWN_FLAGS
}

/// The iNES mapper number: the upper nibble of the first flag byte is its
/// low nibble, the upper nibble of the second flag byte its high nibble.
/// (`parse_rom` instead keeps only the second byte's upper nibble, in place.)
pub open spec fn mapper_of(b: Seq<u8>) -> u16 {
    ((b[6] / 0x10) as int + (b[7] / 0x10) as int * 0x10) as u16
}

/// Where the program ROM starts, past the header and any trainer.
pub open spec fn prg_start_of(b: Seq<u8>) -> int {
    HEADER_LEN + if flag_set(known_flags_of(b), TRAINER) {
        TRAINER_LEN as int
    } else {
        0
    }
}

pub open spec fn prg_end_of(b: Seq<u8>) -> int {
    prg_start_of(b) + b[4] as int * 16 * 1024
}

pub open spec fn chr_end_of(b: Seq<u8>) -> int {
    prg_end_of(b) + b[5] as int * 8 * 1024
}

/// Where the image ends, past any PlayChoice-10 data.
pub open spec fn rom_end_of(b: Seq<u8>) -> int {
    chr_end_of(b) + if flag_set(known_flags_of(b), PLAY_CHOICE_10) {
        (8 + 32) * 1024
    } else {
        0
    }
}

/// `size` KiB in bytes.
fn kbytes(size: u32) -> (r: u32)
    requires
        size <= 0x3F_FFFF,
    ensures
        r == size * 1024,
{
    size * 1024
}

/// `size` when `flag` is set in `flags`, else nothing.
fn if_set(flags: u16, flag: u16, size: u32) -> (r: u32)
    ensures
        r == if flag_set(flags, flag) {
            size
        } else {
            0
        },
{
    if flags & flag == flag {
        size
    } else {
        0
    }
}

impl<'a> Rom<'a> {
    /// Reads an iNES image in place; also skips a trainer and PlayChoice-10
    /// data where the flags announce them. Returns the bytes after the image
    /// with the cartridge.
    pub fn parse(input: &'a [u8]) -> (r: Result<(&'a [u8], Rom<'a>), ParseError>)
        ensures
            !magic_ok(input@) ==> r == Err::<(&'a [u8], Rom<'a>), ParseError>(ParseError::BadMagic),
            magic_ok(input@) && (input@.len() < HEADER_LEN || input@.len() < rom_end_of(input@))
                ==> r == Err::<(&'a [u8], Rom<'a>), ParseError>(ParseError::Truncated),
            magic_ok(input@) && input@.len() >= HEADER_LEN && input@.len() >= rom_end_of(input@)
                ==> (r matches Ok((rest, rom)) && {
                &&& rom.mapper == mapper_of(input@)
                &&& rom.prg@ == input@.subrange(prg_start_of(input@), prg_end_of(input@))
                &&& rom.chr@ == input@.subrange(prg_end_of(input@), chr_end_of(input@))
                &&& rest@ == input@.subrange(rom_end_of(input@), input@.len() as int)
            }),
    {
        if !(input.len() >= 4 && input[0] == 0x4E && input[1] == 0x45 && input[2] == 0x53
            && input[3] == 0x1A) {
            return Err(ParseError::BadMagic);
        }
        if input.len() < HEADER_LEN {
            return Err(ParseError::Truncated);
        }
        let prg_size = input[4];
        let chr_size = input[5];
        let raw_flags = (input[6] as u16) * 0x100 + input[7] as u16;
        let flags = raw_flags & KNOWN_FLAGS;
        let mapper = (input[6] / 0x10) as u16 + (input[7] / 0x10) as u16 * 0x10;
        let prg_start = HEADER_LEN as u32 + if_set(flags, TRAINER, TRAINER_LEN);
        let prg_end = prg_start + kbytes(16) * prg_size as u32;
        let chr_end = prg_end + kbytes(8) * chr_size as u32;
        let end = chr_end + if_set(flags, PLAY_CHOICE_10, kbytes(8)) + if_set(
            flags,
            PLAY_CHOICE_10,
            kbytes(32),
        );
        if (input.len() as u64) < end as u64 {
            return Err(ParseError::Truncated);
        }
        let prg = &input[prg_start as usize..prg_end as usize];
        let chr = &input[prg_end as usize..chr_end as usize];
        let rest = &input[end as usize..input.len()];
        Ok((rest, Rom { mapper, prg, chr }))
    }
}

} // verus!
