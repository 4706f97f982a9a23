use vstd::prelude::*;
use crate::error::NesError;
use crate::memory::{byte_at, load_byte, store_at, store_byte, store_result};
use crate::rom::{Rom, RomView};

verus! {

/// Mapper 0: no bank switching.
#[derive(Clone, Copy, Debug, PartialEq, Eq, Structural)]
pub struct Nrom;

/// Where a program address lands in program memory without bank switching:
/// one 16 KiB bank is mirrored over the whole window, anything else is taken
/// as 32 KiB. Addresses below the window land on the first byte.
pub open spec fn fixed_prg_index(prg_banks: u8, addr: u16) -> int {
    if addr >= 0x8000 {
        if prg_banks == 1 {
            (addr & 0x3fff) as int
        } else {
            (addr & 0x7fff) as int
        }
    } else {
        0
    }
}

/// Computes `fixed_prg_index`.
pub fn fixed_prg_addr(prg_banks: u8, addr: u16) -> (idx: usize)
    ensures
        idx == fixed_prg_index(prg_banks, addr),
{
    if addr >= 0x8000 {
        if prg_banks == 1 {
            (addr & 0x3fff) as usize
        } else {
            (addr & 0x7fff) as usize
        }
    } else {
        0
    }
}

impl Nrom {
    pub open spec fn spec_read_prg(rom: RomView, addr: u16) -> Result<u8, NesError> {
        byte_at(rom.prg, fixed_prg_index(rom.prg_banks, addr))
    }

    pub open spec fn spec_write_prg(rom: RomView, addr: u16, data: u8) -> (RomView, Result<
        (),
        NesError,
    >) {
        let idx = fixed_prg_index(rom.prg_banks, addr);
        (RomView { prg: store_at(rom.prg, idx, data), ..rom }, store_result(rom.prg, idx))
    }

    pub open spec fn spec_read_chr(rom: RomView, addr: u16) -> Result<u8, NesError> {
        byte_at(rom.chr, addr as int)
    }

    pub open spec fn spec_write_chr(rom: RomView, addr: u16, data: u8) -> (RomView, Result<
        (),
        NesError,
    >) {
        (
            RomView { chr: store_at(rom.chr, addr as int, data), ..rom },
            store_result(rom.chr, addr as int),
        )
    }

    /// Reads program memory; the bank layout is fixed.
    pub fn read_prg(&self, rom: &Rom, addr: u16) -> (res: Result<u8, NesError>)
        ensures
            res == Self::spec_read_prg(rom@, addr),
    {
        load_byte(&rom.prgmem, fixed_prg_addr(rom.prg_banks, addr))
    }

    /// Stores into program memory at the mapped address.
    pub fn write_prg(&mut self, rom: &mut Rom, addr: u16, data: u8) -> (res: Result<(), NesError>)
        ensures
            (final(rom)@, res) == Self::spec_write_prg(old(rom)@, addr, data),
            *final(self) == *old(self),
    {
        let idx: usize = fixed_prg_addr(rom.prg_banks, addr);
        store_byte(&mut rom.prgmem, idx, data)
    }

    /// Reads character memory directly.
    pub fn read_chr(&self, rom: &Rom, addr: u16) -> (res: Result<u8, NesError>)
        ensures
            res == Self::spec_read_chr(rom@, addr),
    {
        load_byte(&rom.chrmem, addr as usize)
    }

    /// Writes character memory directly.
    pub fn write_chr(&mut self, rom: &mut Rom, addr: u16, data: u8) -> (res: Result<(), NesError>)
        ensures
            (final(rom)@, res) == Self::spec_write_chr(old(rom)@, addr, data),
            *final(self) == *old(self),
    {
        store_byte(&mut rom.chrmem, addr as usize, data)
    }

    /// There is no state to reset.
    pub fn reset(&mut self, rom: &Rom) -> (res: Result<(), NesError>)
        ensures
            res is Ok,
            *final(self) == *old(self),
    {
        Ok(())
    }

    pub fn name(&self) -> (name: &'static str)
        ensures
            name@ == "NROM"@,
    {
        "NROM"
    }
}

} // verus!
