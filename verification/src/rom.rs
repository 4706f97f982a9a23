use vstd::prelude::*;

verus! {

/// How the two physical nametables are laid out over the four logical ones.
#[derive(Clone, Copy, Debug, PartialEq, Eq, Structural)]
pub enum Mirroring {
    Horizontal,
    Vertical,
}

/// The memories of a cartridge and what its header says of them.
pub struct Rom {
    /// Program memory, 16 KiB per bank.
    pub prgmem: Vec<u8>,
    /// Character memory, 8 KiB per bank; 8 KiB of RAM where the image has none.
    pub chrmem: Vec<u8>,
    pub prg_banks: u8,
    pub chr_banks: u8,
    pub mirroring: Mirroring,
}

/// A cartridge's memories as sequences of bytes.
pub struct RomView {
    pub prg: Seq<u8>,
    pub chr: Seq<u8>,
    pub prg_banks: u8,
    pub chr_banks: u8,
    pub mirroring: Mirroring,
}

impl View for Rom {
    type V = RomView;

    open spec fn view(&self) -> RomView {
        RomView {
            prg: self.prgmem@,
            chr: self.chrmem@,
            prg_banks: self.prg_banks,
            chr_banks: self.chr_banks,
            mirroring: self.mirroring,
        }
    }
}

impl RomView {
    /// Number of the last 16 KiB program bank; 0 where there is none.
    pub open spec fn last_prg_bank(self) -> u8 {
        if self.prg_banks == 0 {
            0
        } else {
            (self.prg_banks - 1) as u8
        }
    }
}

impl Rom {
    /// A cartridge slot with nothing in it.
    pub fn new() -> (rom: Rom)
        ensures
            rom@ == (RomView {
                prg: Seq::empty(),
                chr: Seq::empty(),
                prg_banks: 0,
                chr_banks: 0,
                mirroring: Mirroring::Horizontal,
            }),
    {
        Rom {
            prgmem: Vec::new(),
            chrmem: Vec::new(),
            prg_banks: 0,
            chr_banks: 0,
            mirroring: Mirroring::Horizontal,
        }
    }

    /// Number of the last 16 KiB program bank; 0 where there is none.
    pub fn last_prg_bank(&self) -> (bank: u8)
        ensures
            bank == self@.last_prg_bank(),
    {
        if self.prg_banks == 0 {
            0
        } else {
            self.prg_banks - 1
        }
    }
}

} // verus!
