use vstd::prelude::*;
use crate::error::NesError;
use crate::memory::{byte_at, load_byte};
use crate::rom::{Rom, RomView};

verus! {

/// Mapper 66: a switchable 32 KiB program bank and 8 KiB character bank.
#[derive(Clone, Copy, Debug, PartialEq, Eq, Structural)]
pub struct Gxrom {
    /// 32 KiB program bank; two bits.
    pub prg_banksel: u8,
    /// 8 KiB character bank; two bits.
    pub chr_banksel: u8,
}

impl Gxrom {
    /// Reads below 0x8000 are answered with 0.
    pub open spec fn spec_read_prg(self, rom: RomView, addr: u16) -> Result<u8, NesError> {
        if addr >= 0x8000 {
            byte_at(rom.prg, self.prg_banksel as int * 0x8000 + (addr & 0x7fff) as int)
        } else {
            Ok(0)
        }
    }

    /// The selectors after a write to 0x8000 or above: program bank from
    /// bits 4-5 of the data, character bank from bits 0-1.
    pub open spec fn spec_write_prg(self, addr: u16, data: u8) -> (Gxrom, Result<(), NesError>) {
        if addr >= 0x8000 {
            (Gxrom { prg_banksel: (data & 0x30) >> 4, chr_banksel: data & 0x03 }, Ok(()))
        } else {
            (self, Err(NesError::BusError))
        }
    }

    pub open spec fn spec_read_chr(self, rom: RomView, addr: u16) -> Result<u8, NesError> {
        byte_at(rom.chr, self.chr_banksel as int * 0x2000 + (addr & 0x1fff) as int)
    }

    /// The mapper as it is when the console is switched on.
    pub fn new() -> (m: Gxrom)
        ensures
            m == (Gxrom { prg_banksel: 0, chr_banksel: 0 }),
    {
        Gxrom { prg_banksel: 0, chr_banksel: 0 }
    }

    /// Reads the selected program bank.
    pub fn read_prg(&self, rom: &Rom, addr: u16) -> (res: Result<u8, NesError>)
        ensures
            res == self.spec_read_prg(rom@, addr),
    {
        if addr >= 0x8000 {
            load_byte(
                &rom.prgmem,
                (self.prg_banksel as usize) * 0x8000 + ((addr & 0x7fff) as usize),
            )
        } else {
            Ok(0)
        }
    }

    /// Sets both bank selectors; nothing answers below 0x8000.
    pub fn write_prg(&mut self, rom: &mut Rom, addr: u16, data: u8) -> (res: Result<(), NesError>)
        ensures
            (*final(self), res) == old(self).spec_write_prg(addr, data),
            *final(rom) == *old(rom),
    {
        if addr >= 0x8000 {
            self.prg_banksel = (data & 0x30) >> 4;
            self.chr_banksel = data & 0x03;
            Ok(())
        } else {
            Err(NesError::BusError)
        }
    }

    /// Reads the selected character bank.
    pub fn read_chr(&self, rom: &Rom, addr: u16) -> (res: Result<u8, NesError>)
        ensures
            res == self.spec_read_chr(rom@, addr),
    {
        load_byte(&rom.chrmem, (self.chr_banksel as usize) * 0x2000 + ((addr & 0x1fff) as usize))
    }

    /// Character memory is read-only: every write fails.
    pub fn write_chr(&mut self, rom: &mut Rom, addr: u16, data: u8) -> (res: Result<(), NesError>)
        ensures
            res == Err::<(), NesError>(NesError::BusError),
            *final(self) == *old(self),
            *final(rom) == *old(rom),
    {
        Err(NesError::BusError)
    }

    /// A reset leaves the selectors as they are.
    pub fn reset(&mut self, rom: &Rom) -> (res: Result<(), NesError>)
        ensures
            res is Ok,
            *final(self) == *old(self),
    {
        Ok(())
    }

    pub fn name(&self) -> (name: &'static str)
        ensures
            name@ == "GxROM"@,
    {
        "GxROM"
    }
}

impl Default for Gxrom {
    fn default() -> (m: Gxrom)
        ensures
            m == (Gxrom { prg_banksel: 0, chr_banksel: 0 }),
    {
        Gxrom::new()
    }
}

} // verus!
