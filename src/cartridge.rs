use vstd::prelude::*;
use vstd::slice::{slice_subrange, slice_to_vec};

verus! {

/// Bytes in the iNES header.
pub const HEADER_SIZE: usize = 16;

/// Bytes in one PRG ROM chunk.
pub const PRG_CHUNK: usize = 16384;

/// Bytes in one CHR ROM chunk.
pub const CHR_CHUNK: usize = 8192;

/// Why an image could not be loaded.
#[derive(Debug, Clone, Copy, PartialEq, Eq, Structural)]
pub enum CartridgeLoadError {
    /// The image does not start with the iNES magic `NES\x1A`.
    FormatError,
    /// The image ends before the header or the ROM data it declares.
    Truncated,
}

/// Whether `b` starts with the iNES magic `4E 45 53 1A`.
pub open spec fn has_magic(b: Seq<u8>) -> bool {
    b.len() >= 4 && b[0] == 0x4E && b[1] == 0x45 && b[2] == 0x53 && b[3] == 0x1A
}

/// Splits the iNES magic off the front of `input`: the rest, then the magic.
pub fn parse_magic_number(input: &[u8]) -> (r: Result<(&[u8], &[u8]), CartridgeLoadError>)
    ensures
        r is Ok <==> has_magic(input@),
        r is Ok ==> r->Ok_0.0@ == input@.subrange(4, input@.len() as int) && r->Ok_0.1@
            == input@.subrange(0, 4),
        r is Err ==> r->Err_0 == CartridgeLoadError::FormatError,
{
    if input.len() < 4 || input[0] != 0x4E || input[1] != 0x45 || input[2] != 0x53 || input[3]
        != 0x1A {
        return Err(CartridgeLoadError::FormatError);
    }
    Ok((slice_subrange(input, 4, input.len()), slice_subrange(input, 0, 4)))
}

/// The fields of the 16-byte iNES header.
#[derive(Debug, Clone, Copy, PartialEq, Eq, Structural)]
pub struct CartridgeHeader {
    pub prg_rom_chunks: u8,
    pub chr_rom_chunks: u8,
    pub flags_6: u8,
    pub flags_7: u8,
    pub prg_ram_size: u8,
    pub flags_9: u8,
    pub flags_10: u8,
}

/// A cartridge image: its header, PRG ROM and CHR ROM.
#[derive(Debug)]
pub struct Cartridge {
    pub header: CartridgeHeader,
    pub prg_rom: Vec<u8>,
    pub chr_rom: Vec<u8>,
}

/// The header that bytes 4 through 10 of an image describe.
pub open spec fn header_of(b: Seq<u8>) -> CartridgeHeader {
    CartridgeHeader {
        prg_rom_chunks: b[4],
        chr_rom_chunks: b[5],
        flags_6: b[6],
        flags_7: b[7],
        prg_ram_size: b[8],
        flags_9: b[9],
        flags_10: b[10],
    }
}

/// Where the PRG ROM of an image ends.
pub open spec fn prg_end(b: Seq<u8>) -> int {
    HEADER_SIZE + PRG_CHUNK * b[4]
}

/// Where the CHR ROM of an image ends.
pub open spec fn chr_end(b: Seq<u8>) -> int {
    prg_end(b) + CHR_CHUNK * b[5]
}

impl Cartridge {
    /// Reads an iNES image: the magic, the header, then the PRG ROM and CHR
    /// ROM that the header's chunk counts declare. Bytes after them are ignored.
    pub fn load(bytes: &[u8]) -> (r: Result<Cartridge, CartridgeLoadError>)
        ensures
            !has_magic(bytes@) ==> r == Err::<Cartridge, _>(CartridgeLoadError::FormatError),
            has_magic(bytes@) && (bytes@.len() < HEADER_SIZE || bytes@.len() < chr_end(bytes@))
                ==> r == Err::<Cartridge, _>(CartridgeLoadError::Truncated),
            has_magic(bytes@) && bytes@.len() >= HEADER_SIZE && bytes@.len() >= chr_end(bytes@)
                ==> r is Ok,
            r is Ok ==> {
                let c = r->Ok_0;
                &&& c.header == header_of(bytes@)
                &&& c.prg_rom@ == bytes@.subrange(HEADER_SIZE as int, prg_end(bytes@))
                &&& c.chr_rom@ == bytes@.subrange(prg_end(bytes@), chr_end(bytes@))
            },
    {
        let rest = match parse_magic_number(bytes) {
            Ok((rest, _)) => rest,
            Err(e) => return Err(e),
        };
        if bytes.len() < HEADER_SIZE {
            return Err(CartridgeLoadError::Truncated);
        }
        let header = CartridgeHeader {
            prg_rom_chunks: bytes[4],
            chr_rom_chunks: bytes[5],
            flags_6: bytes[6],
            flags_7: bytes[7],
            prg_ram_size: bytes[8],
            flags_9: bytes[9],
            flags_10: bytes[10],
        };
        let prg_end = HEADER_SIZE + PRG_CHUNK * header.prg_rom_chunks as usize;
        let chr_end = prg_end + CHR_CHUNK * header.chr_rom_chunks as usize;
        if bytes.len() < chr_end {
            return Err(CartridgeLoadError::Truncated);
        }
        let prg_rom = slice_to_vec(slice_subrange(bytes, HEADER_SIZE, prg_end));
        let chr_rom = slice_to_vec(slice_subrange(bytes, prg_end, chr_end));
        Ok(Cartridge { header, prg_rom, chr_rom })
    }
}

} // verus!
