use vstd::prelude::*;
use crate::error::NesError;
use crate::mappers::nrom::{fixed_prg_addr, fixed_prg_index};
use crate::memory::{byte_at, load_byte};
use crate::rom::{Rom, RomView};

verus! {

/// Mapper 3: fixed program memory, a switchable 8 KiB character bank.
#[derive(Clone, Copy, Debug, PartialEq, Eq, Structural)]
pub struct Cnrom {
    /// Character bank seen by the picture unit; two bits.
    pub banksel: u8,
}

impl Cnrom {
    pub open spec fn spec_read_prg(rom: RomView, addr: u16) -> Result<u8, NesError> {
        byte_at(rom.prg, fixed_prg_index(rom.prg_banks, addr))
    }

    /// The selector after a write to 0x8000 or above: the low two bits of
    /// the data.
    pub open spec fn spec_write_prg(self, addr: u16, data: u8) -> (Cnrom, Result<(), NesError>) {
        if addr >= 0x8000 {
            (Cnrom { banksel: data & 0x03 }, Ok(()))
        } else {
            (self, Err(NesError::BusError))
        }
    }

    pub open spec fn spec_read_chr(self, rom: RomView, addr: u16) -> Result<u8, NesError> {
        if addr <= 0x1fff {
            byte_at(rom.chr, self.banksel as int * 0x2000 + addr as int)
        } else {
            Err(NesError::BusError)
        }
    }

    /// The mapper as it is when the console is switched on.
    pub fn new() -> (m: Cnrom)
        ensures
            m == (Cnrom { banksel: 0 }),
    {
        Cnrom { banksel: 0 }
    }

    /// Reads program memory; the bank layout is fixed.
    pub fn read_prg(&self, rom: &Rom, addr: u16) -> (res: Result<u8, NesError>)
        ensures
            res == Self::spec_read_prg(rom@, addr),
    {
        load_byte(&rom.prgmem, fixed_prg_addr(rom.prg_banks, addr))
    }

    /// Sets the character bank selector; nothing answers below 0x8000.
    pub fn write_prg(&mut self, rom: &mut Rom, addr: u16, data: u8) -> (res: Result<(), NesError>)
        ensures
            (*final(self), res) == old(self).spec_write_prg(addr, data),
            *final(rom) == *old(rom),
    {
        if addr >= 0x8000 {
            self.banksel = data & 0x03;
            Ok(())
        } else {
            Err(NesError::BusError)
        }
    }

    /// Reads the selected character bank.
    pub fn read_chr(&self, rom: &Rom, addr: u16) -> (res: Result<u8, NesError>)
        ensures
            res == self.spec_read_chr(rom@, addr),
    {
        if addr <= 0x1fff {
            load_byte(&rom.chrmem, (self.banksel as usize) * 0x2000 + (addr as usize))
        } else {
            Err(NesError::BusError)
        }
    }

    /// Character memory is read-only: every write fails.
    pub fn write_chr(&mut self, rom: &mut Rom, addr: u16, data: u8) -> (res: Result<(), NesError>)
        ensures
            res == Err::<(), NesError>(NesError::BusError),
            *final(self) == *old(self),
            *final(rom) == *old(rom),
    {
        Err(NesError::BusError)
    }

    /// A reset leaves the selector as it is.
    pub fn reset(&mut self, rom: &Rom) -> (res: Result<(), NesError>)
        ensures
            res is Ok,
            *final(self) == *old(self),
    {
        Ok(())
    }

    pub fn name(&self) -> (name: &'static str)
        ensures
            name@ == "CNROM"@,
    {
        "CNROM"
    }
}

impl Default for Cnrom {
    fn default() -> (m: Cnrom)
        ensures
            m == (Cnrom { banksel: 0 }),
    {
        Cnrom::new()
    }
}

} // verus!
