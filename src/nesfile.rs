use vstd::prelude::*;

verus! {

/// A parsed cartridge: program ROM, character ROM, the two header flag bytes
/// and the mapper identifier.
#[derive(Debug)]
pub struct NesFile {
    pub flags: u16,
    pub prg_rom: Vec<u8>,
    pub chr_rom: Vec<u8>,
    pub mapper: u8,
}

/// Why a cartridge image could not be read.
#[derive(Debug, Clone, Copy, PartialEq, Eq, Structural)]
pub enum ParseError {
    /// The image does not start with `NES` and 0x1A.
    BadMagic,
    /// The image ends before the header or a ROM it announces.
    Truncated,
}

/// Length of the header: magic, two ROM sizes, two flag bytes, eight padding bytes.
pub const HEADER_LEN: usize = 16;

/// Unit of the program-ROM size.
pub const PRG_UNIT: usize = 0x4000;

/// Unit of the character-ROM size.
pub const CHR_UNIT: usize = 0x2000;

/// Header flag bits that carry the mapper identifier, in place.
pub const MAPPER_BITS: u16 = 0xF0;

pub open spec fn magic_ok(b: Seq<u8>) -> bool {
    b.len() >= 4 && b[0] == 0x4E && b[1] == 0x45 && b[2] == 0x53 && b[3] == 0x1A
}

/// The two flag bytes, read big-endian.
pub open spec fn flags_of(b: Seq<u8>) -> u16 {
    (b[6] as int * 0x100 + b[7] as int) as u16
}

pub open spec fn prg_len_of(b: Seq<u8>) -> int {
    b[4] as int * PRG_UNIT
}

pub open spec fn chr_len_of(b: Seq<u8>) -> int {
    b[5] as int * CHR_UNIT
}

/// Bytes the image must hold: the header and both ROMs.
pub open spec fn image_len_of(b: Seq<u8>) -> int {
    HEADER_LEN + prg_len_of(b) + chr_len_of(b)
}

/// The error `parse_rom` gives on `b`, if any.
pub open spec fn parse_error_of(b: Seq<u8>) -> Option<ParseError> {
    if b.len() < 4 {
        Some(ParseError::Truncated)
    } else if !magic_ok(b) {
        Some(ParseError::BadMagic)
    } else if b.len() < HEADER_LEN || b.len() < image_len_of(b) {
        Some(ParseError::Truncated)
    } else {
        None
    }
}

fn copy_range(input: &Vec<u8>, start: usize, end: usize) -> (r: Vec<u8>)
    requires
        start <= end <= input@.len(),
    ensures
        r@ == input@.subrange(start as int, end as int),
{
    let mut r: Vec<u8> = Vec::new();
    let mut i: usize = start;
    while i < end
        invariant
            start <= i <= end <= input@.len(),
            r@ == input@.subrange(start as int, i as int),
        decreases end - i,
    {
        r.push(input[i]);
        i = i + 1;
    }
    r
}

/// Reads an iNES cartridge image: the magic, the ROM sizes in 16KiB and 8KiB
/// units, the flag bytes (big-endian), eight bytes of padding, then program
/// ROM and character ROM. Bytes after the character ROM are ignored.
pub fn parse_rom(input: Vec<u8>) -> (r: Result<NesFile, ParseError>)
    ensures
        match parse_error_of(input@) {
            Some(e) => r == Err::<NesFile, ParseError>(e),
            None => r matches Ok(f) && {
                let prg_end = HEADER_LEN + prg_len_of(input@);
                &&& f.flags == flags_of(input@)
                &&& f.mapper == (flags_of(input@) & MAPPER_BITS) as u8
                &&& f.prg_rom@ == input@.subrange(HEADER_LEN as int, prg_end)
                &&& f.chr_rom@ == input@.subrange(prg_end, image_len_of(input@))
            },
        },
{
    if input.len() < 4 {
        return Err(ParseError::Truncated);
    }
    if !(input[0] == 0x4E && input[1] == 0x45 && input[2] == 0x53 && input[3] == 0x1A) {
        return Err(ParseError::BadMagic);
    }
    if input.len() < HEADER_LEN {
        return Err(ParseError::Truncated);
    }
    let prg_len = input[4] as usize * PRG_UNIT;
    let chr_len = input[5] as usize * CHR_UNIT;
    let prg_end = HEADER_LEN + prg_len;
    let end = prg_end + chr_len;
    if input.len() < end {
        return Err(ParseError::Truncated);
    }
    let flags = (input[6] as u16) * 0x100 + input[7] as u16;
    let prg_rom = copy_range(&input, HEADER_LEN, prg_end);
    let chr_rom = copy_range(&input, prg_end, end);
    Ok(NesFile { flags, prg_rom, chr_rom, mapper: (flags & MAPPER_BITS) as u8 })
}

} // verus!
