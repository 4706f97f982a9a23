use vstd::prelude::*;
use crate::error::NesError;
use crate::memory::{byte_at, load_byte, store_at, store_byte, store_result};
use crate::rom::{Rom, RomView};

verus! {

/// Mapper 2: a switchable 16 KiB program bank below a fixed last bank.
#[derive(Clone, Copy, Debug, PartialEq, Eq, Structural)]
pub struct Uxrom {
    /// Bank seen at 0x8000-0xBFFF; four bits.
    pub banksel: u8,
}

impl Uxrom {
    /// Where a program address lands: the selected bank below 0xC000, the
    /// last bank from there on. Nothing answers below 0x8000.
    pub open spec fn prg_index(self, rom: RomView, addr: u16) -> Option<int> {
        if addr >= 0xc000 {
            Some(rom.last_prg_bank() as int * 0x4000 + (addr & 0x3fff) as int)
        } else if addr >= 0x8000 {
            Some(self.banksel as int * 0x4000 + (addr & 0x3fff) as int)
        } else {
            None
        }
    }

    pub open spec fn spec_read_prg(self, rom: RomView, addr: u16) -> Result<u8, NesError> {
        match self.prg_index(rom, addr) {
            Some(idx) => byte_at(rom.prg, idx),
            None => Err(NesError::BusError),
        }
    }

    /// The selector after a write: the low four bits of the data for
    /// addresses from 0x8000 on, unchanged below.
    pub open spec fn spec_write_prg(self, addr: u16, data: u8) -> Uxrom {
        if addr >= 0x8000 {
            Uxrom { banksel: data & 0x0f }
        } else {
            self
        }
    }

    pub open spec fn spec_read_chr(rom: RomView, addr: u16) -> Result<u8, NesError> {
        byte_at(rom.chr, addr as int)
    }

    pub open spec fn spec_write_chr(rom: RomView, addr: u16, data: u8) -> (RomView, Result<
        (),
        NesError,
    >) {
        (
            RomView { chr: store_at(rom.chr, addr as int, data), ..rom },
            store_result(rom.chr, addr as int),
        )
    }

    /// The mapper as it is when the console is switched on.
    pub fn new() -> (m: Uxrom)
        ensures
            m == (Uxrom { banksel: 0 }),
    {
        Uxrom { banksel: 0 }
    }

    /// Reads program memory through the bank selector.
    pub fn read_prg(&self, rom: &Rom, addr: u16) -> (res: Result<u8, NesError>)
        ensures
            res == self.spec_read_prg(rom@, addr),
    {
        let offset: usize = (addr & 0x3fff) as usize;
        if addr >= 0xc000 {
            load_byte(&rom.prgmem, (rom.last_prg_bank() as usize) * 0x4000 + offset)
        } else if addr >= 0x8000 {
            load_byte(&rom.prgmem, (self.banksel as usize) * 0x4000 + offset)
        } else {
            Err(NesError::BusError)
        }
    }

    /// Sets the bank selector; writes below 0x8000 are ignored.
    pub fn write_prg(&mut self, rom: &mut Rom, addr: u16, data: u8) -> (res: Result<(), NesError>)
        ensures
            res == Ok::<(), NesError>(()),
            *final(self) == old(self).spec_write_prg(addr, data),
            *final(rom) == *old(rom),
    {
        if addr >= 0x8000 {
            self.banksel = data & 0x0f;
        }
        Ok(())
    }

    /// Reads character RAM directly.
    pub fn read_chr(&self, rom: &Rom, addr: u16) -> (res: Result<u8, NesError>)
        ensures
            res == Self::spec_read_chr(rom@, addr),
    {
        load_byte(&rom.chrmem, addr as usize)
    }

    /// Writes character RAM directly.
    pub fn write_chr(&mut self, rom: &mut Rom, addr: u16, data: u8) -> (res: Result<(), NesError>)
        ensures
            (final(rom)@, res) == Self::spec_write_chr(old(rom)@, addr, data),
            *final(self) == *old(self),
    {
        store_byte(&mut rom.chrmem, addr as usize, data)
    }

    /// A reset leaves the selector as it is.
    pub fn reset(&mut self, rom: &Rom) -> (res: Result<(), NesError>)
        ensures
            res is Ok,
            *final(self) == *old(self),
    {
        Ok(())
    }

    pub fn name(&self) -> (name: &'static str)
        ensures
            name@ == "UxROM"@,
    {
        "UxROM"
    }
}

impl Default for Uxrom {
    fn default() -> (m: Uxrom)
        ensures
            m == (Uxrom { banksel: 0 }),
    {
        Uxrom::new()
    }
}

} // verus!
