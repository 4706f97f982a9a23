use vstd::prelude::*;
use crate::error::NesError;
use crate::mappers::cnrom::Cnrom;
use crate::mappers::gxrom::Gxrom;
use crate::mappers::mmc1::{Mmc1, Mmc1View};
use crate::mappers::nrom::Nrom;
use crate::mappers::uxrom::Uxrom;
use crate::rom::{Rom, RomView};

pub mod cnrom;
pub mod gxrom;
pub mod mmc1;
pub mod nrom;
pub mod uxrom;

verus! {

/// The bank-switching logic of a cartridge, one variant per supported
/// mapper number.
pub enum Mapper {
    Nrom(Nrom),
    Mmc1(Mmc1),
    Uxrom(Uxrom),
    Cnrom(Cnrom),
    Gxrom(Gxrom),
}

/// A mapper with its memories as sequences of bytes.
pub enum MapperView {
    Nrom,
    Mmc1(Mmc1View),
    Uxrom(Uxrom),
    Cnrom(Cnrom),
    Gxrom(Gxrom),
}

impl View for Mapper {
    type V = MapperView;

    open spec fn view(&self) -> MapperView {
        match self {
            Mapper::Nrom(_) => MapperView::Nrom,
            Mapper::Mmc1(m) => MapperView::Mmc1(m@),
            Mapper::Uxrom(m) => MapperView::Uxrom(*m),
            Mapper::Cnrom(m) => MapperView::Cnrom(*m),
            Mapper::Gxrom(m) => MapperView::Gxrom(*m),
        }
    }
}

/// Whether a mapper number is one of 0, 1, 2, 3 and 66.
pub open spec fn supported_mapper(id: u8) -> bool {
    id == 0 || id == 1 || id == 2 || id == 3 || id == 66
}

impl MapperView {
    /// The mapper with number `id` as it is when the console is switched on.
    pub open spec fn initial(id: u8) -> MapperView
        recommends
            supported_mapper(id),
    {
        if id == 1 {
            MapperView::Mmc1(Mmc1View::initial())
        } else if id == 2 {
            MapperView::Uxrom(Uxrom { banksel: 0 })
        } else if id == 3 {
            MapperView::Cnrom(Cnrom { banksel: 0 })
        } else if id == 66 {
            MapperView::Gxrom(Gxrom { prg_banksel: 0, chr_banksel: 0 })
        } else {
            MapperView::Nrom
        }
    }

    /// What a read of program address `addr` gives.
    pub open spec fn spec_read_prg(self, rom: RomView, addr: u16) -> Result<u8, NesError> {
        match self {
            MapperView::Nrom => Nrom::spec_read_prg(rom, addr),
            MapperView::Mmc1(m) => m.spec_read_prg(rom, addr),
            MapperView::Uxrom(m) => m.spec_read_prg(rom, addr),
            MapperView::Cnrom(_) => Cnrom::spec_read_prg(rom, addr),
            MapperView::Gxrom(m) => m.spec_read_prg(rom, addr),
        }
    }

    /// The mapper and the memories after a write to program address `addr`,
    /// and whether the write was answered.
    pub open spec fn spec_write_prg(self, rom: RomView, addr: u16, data: u8) -> (
        MapperView,
        RomView,
        Result<(), NesError>,
    ) {
        match self {
            MapperView::Nrom => {
                let (rom2, res) = Nrom::spec_write_prg(rom, addr, data);
                (self, rom2, res)
            },
            MapperView::Mmc1(m) => {
                let (m2, rom2, res) = m.spec_write_prg(rom, addr, data);
                (MapperView::Mmc1(m2), rom2, res)
            },
            MapperView::Uxrom(m) => (
                MapperView::Uxrom(m.spec_write_prg(addr, data)),
                rom,
                Ok(()),
            ),
            MapperView::Cnrom(m) => {
                let (m2, res) = m.spec_write_prg(addr, data);
                (MapperView::Cnrom(m2), rom, res)
            },
            MapperView::Gxrom(m) => {
                let (m2, res) = m.spec_write_prg(addr, data);
                (MapperView::Gxrom(m2), rom, res)
            },
        }
    }

    /// What a read of character address `addr` gives.
    pub open spec fn spec_read_chr(self, rom: RomView, addr: u16) -> Result<u8, NesError> {
        match self {
            MapperView::Nrom => Nrom::spec_read_chr(rom, addr),
            MapperView::Mmc1(m) => m.spec_read_chr(rom, addr),
            MapperView::Uxrom(_) => Uxrom::spec_read_chr(rom, addr),
            MapperView::Cnrom(m) => m.spec_read_chr(rom, addr),
            MapperView::Gxrom(m) => m.spec_read_chr(rom, addr),
        }
    }

    /// The memories after a write to character address `addr`, and whether
    /// the write was answered. No mapper changes its own state on it.
    pub open spec fn spec_write_chr(self, rom: RomView, addr: u16, data: u8) -> (RomView, Result<
        (),
        NesError,
    >) {
        match self {
            MapperView::Nrom => Nrom::spec_write_chr(rom, addr, data),
            MapperView::Mmc1(_) => Mmc1View::spec_write_chr(rom, addr, data),
            MapperView::Uxrom(_) => Uxrom::spec_write_chr(rom, addr, data),
            MapperView::Cnrom(_) => (rom, Err(NesError::BusError)),
            MapperView::Gxrom(_) => (rom, Err(NesError::BusError)),
        }
    }

    /// The mapper after a reset. Only the MMC1 has registers that a reset
    /// touches.
    pub open spec fn spec_reset(self, rom: RomView) -> MapperView {
        match self {
            MapperView::Mmc1(m) => MapperView::Mmc1(m.spec_reset(rom)),
            _ => self,
        }
    }
}

impl Mapper {
    /// The mapper that an image with mapper number `id` asks for.
    pub fn from_id(id: u8) -> (res: Result<Mapper, NesError>)
        ensures
            supported_mapper(id) ==> res is Ok && res->Ok_0@ == MapperView::initial(id),
            !supported_mapper(id) ==> res is Err && res->Err_0 == NesError::UnsupportedMapper,
    {
        if id == 0 {
            Ok(Mapper::Nrom(Nrom))
        } else if id == 1 {
            Ok(Mapper::Mmc1(Mmc1::new()))
        } else if id == 2 {
            Ok(Mapper::Uxrom(Uxrom::new()))
        } else if id == 3 {
            Ok(Mapper::Cnrom(Cnrom::new()))
        } else if id == 66 {
            Ok(Mapper::Gxrom(Gxrom::new()))
        } else {
            Err(NesError::UnsupportedMapper)
        }
    }

    /// Reads program address `addr`.
    pub fn read_prg(&self, rom: &Rom, addr: u16) -> (res: Result<u8, NesError>)
        ensures
            res == self@.spec_read_prg(rom@, addr),
    {
        match self {
            Mapper::Nrom(m) => m.read_prg(rom, addr),
            Mapper::Mmc1(m) => m.read_prg(rom, addr),
            Mapper::Uxrom(m) => m.read_prg(rom, addr),
            Mapper::Cnrom(m) => m.read_prg(rom, addr),
            Mapper::Gxrom(m) => m.read_prg(rom, addr),
        }
    }

    /// Writes program address `addr`.
    pub fn write_prg(&mut self, rom: &mut Rom, addr: u16, data: u8) -> (res: Result<(), NesError>)
        ensures
            (final(self)@, final(rom)@, res) == old(self)@.spec_write_prg(old(rom)@, addr, data),
    {
        match self {
            Mapper::Nrom(m) => m.write_prg(rom, addr, data),
            Mapper::Mmc1(m) => m.write_prg(rom, addr, data),
            Mapper::Uxrom(m) => m.write_prg(rom, addr, data),
            Mapper::Cnrom(m) => m.write_prg(rom, addr, data),
            Mapper::Gxrom(m) => m.write_prg(rom, addr, data),
        }
    }

    /// Reads character address `addr`.
    pub fn read_chr(&self, rom: &Rom, addr: u16) -> (res: Result<u8, NesError>)
        ensures
            res == self@.spec_read_chr(rom@, addr),
    {
        match self {
            Mapper::Nrom(m) => m.read_chr(rom, addr),
            Mapper::Mmc1(m) => m.read_chr(rom, addr),
            Mapper::Uxrom(m) => m.read_chr(rom, addr),
            Mapper::Cnrom(m) => m.read_chr(rom, addr),
            Mapper::Gxrom(m) => m.read_chr(rom, addr),
        }
    }

    /// Writes character address `addr`.
    pub fn write_chr(&mut self, rom: &mut Rom, addr: u16, data: u8) -> (res: Result<(), NesError>)
        ensures
            (final(rom)@, res) == old(self)@.spec_write_chr(old(rom)@, addr, data),
            final(self)@ == old(self)@,
    {
        match self {
            Mapper::Nrom(m) => m.write_chr(rom, addr, data),
            Mapper::Mmc1(m) => m.write_chr(rom, addr, data),
            Mapper::Uxrom(m) => m.write_chr(rom, addr, data),
            Mapper::Cnrom(m) => m.write_chr(rom, addr, data),
            Mapper::Gxrom(m) => m.write_chr(rom, addr, data),
        }
    }

    /// Puts the mapper's registers back to their power-on values.
    pub fn reset(&mut self, rom: &Rom) -> (res: Result<(), NesError>)
        ensures
            res is Ok,
            final(self)@ == old(self)@.spec_reset(rom@),
    {
        match self {
            Mapper::Nrom(m) => m.reset(rom),
            Mapper::Mmc1(m) => m.reset(rom),
            Mapper::Uxrom(m) => m.reset(rom),
            Mapper::Cnrom(m) => m.reset(rom),
            Mapper::Gxrom(m) => m.reset(rom),
        }
    }

    /// The mapper's usual name.
    pub fn name(&self) -> (name: &'static str)
        ensures
            name@ == (match self@ {
                MapperView::Nrom => "NROM"@,
                MapperView::Mmc1(_) => "MMC1"@,
                MapperView::Uxrom(_) => "UxROM"@,
                MapperView::Cnrom(_) => "CNROM"@,
                MapperView::Gxrom(_) => "GxROM"@,
            }),
    {
        match self {
            Mapper::Nrom(m) => m.name(),
            Mapper::Mmc1(m) => m.name(),
            Mapper::Uxrom(m) => m.name(),
            Mapper::Cnrom(m) => m.name(),
            Mapper::Gxrom(m) => m.name(),
        }
    }
}

} // verus!
