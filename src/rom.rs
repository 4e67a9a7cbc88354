use vstd::prelude::*;
use vstd::slice::{slice_subrange, slice_to_vec};
use crate::cartridge::{HEADER_SIZE, chr_end, prg_end};
use crate::semantics::word;

verus! {

/// The PRG and CHR ROM of an iNES image whose size has already been checked.
#[derive(Debug)]
pub struct Rom {
    pub prg_rom: Vec<u8>,
    pub chr_rom: Vec<u8>,
}

impl Rom {
    /// Splits an iNES image into its PRG ROM and CHR ROM, as sized by header
    /// bytes 4 and 5.
    pub fn load(buf: &[u8]) -> (r: Self)
        requires
            buf@.len() >= HEADER_SIZE,
            buf@.len() >= chr_end(buf@),
        ensures
            r.prg_rom@ == buf@.subrange(HEADER_SIZE as int, prg_end(buf@)),
            r.chr_rom@ == buf@.subrange(prg_end(buf@), chr_end(buf@)),
    {
        let chr_rom_start = 0x10 + buf[4] as usize * 0x4000;
        let chr_rom_end = chr_rom_start + buf[5] as usize * 0x2000;
        Rom {
            prg_rom: slice_to_vec(slice_subrange(buf, 0x10, chr_rom_start)),
            chr_rom: slice_to_vec(slice_subrange(buf, chr_rom_start, chr_rom_end)),
        }
    }

    pub fn prg_readb(&self, addr: usize) -> (r: u8)
        requires
            addr < self.prg_rom@.len(),
        ensures
            r == self.prg_rom@[addr as int],
    {
        self.prg_rom[addr]
    }

    pub fn chr_readb(&self, addr: usize) -> (r: u8)
        requires
            addr < self.chr_rom@.len(),
        ensures
            r == self.chr_rom@[addr as int],
    {
        self.chr_rom[addr]
    }

    /// The little-endian word at `addr` of PRG ROM.
    pub fn prg_readw(&self, addr: usize) -> (r: u16)
        requires
            addr + 1 < self.prg_rom@.len(),
        ensures
            r == word(self.prg_rom@[addr as int], self.prg_rom@[addr + 1]),
    {
        let n = self.prg_rom.len();
        assert(addr + 1 < n);
        let lower = self.prg_rom[addr] as u16;
        let upper = self.prg_rom[addr + 1] as u16;
        upper * 256 + lower
    }

    /// The little-endian word at `addr` of CHR ROM.
    pub fn chr_readw(&self, addr: usize) -> (r: u16)
        requires
            addr + 1 < self.chr_rom@.len(),
        ensures
            r == word(self.chr_rom@[addr as int], self.chr_rom@[addr + 1]),
    {
        let n = self.chr_rom.len();
        assert(addr + 1 < n);
        let lower = self.chr_rom[addr] as u16;
        let upper = self.chr_rom[addr + 1] as u16;
        upper * 256 + lower
    }
}

} // verus!
