use vstd::prelude::*;
use crate::error::NesError;
use crate::memory::{byte_at, load_byte, store_at, store_byte, store_result, zeroed};
use crate::rom::{Mirroring, Rom, RomView};

verus! {

/// The control register of the MMC1: bits 0-1 select the mirroring, bits 2-3
/// the program bank mode, bit 4 the character bank mode.
#[derive(Clone, Copy, Debug, PartialEq, Eq, Structural)]
pub struct RegControl {
    pub bits: u8,
}

impl RegControl {
    /// Whether bits 0-1 select a layout with two nametables. The two
    /// one-screen layouts are not emulated.
    pub open spec fn has_mirroring(self) -> bool {
        self.bits & 0b00011 == 2 || self.bits & 0b00011 == 3
    }

    pub open spec fn spec_mirroring(self) -> Mirroring {
        if self.bits & 0b00011 == 2 {
            Mirroring::Vertical
        } else {
            Mirroring::Horizontal
        }
    }

    pub open spec fn spec_prg_bank_mode(&self) -> u8 {
        (self.bits & 0b01100) >> 2
    }

    pub open spec fn spec_chr_bank_mode(&self) -> bool {
        self.bits & 0b10000 != 0
    }

    /// Replaces the register's value.
    pub fn update(&mut self, data: u8)
        ensures
            final(self).bits == data,
    {
        self.bits = data;
    }

    /// Whether `mirroring` may be called.
    pub fn supports_mirroring(&self) -> (b: bool)
        ensures
            b == self.has_mirroring(),
    {
        let m: u8 = self.bits & 0b00011;
        m == 2 || m == 3
    }

    /// The nametable layout that bits 0-1 select: 2 is vertical, 3 horizontal.
    pub fn mirroring(&self) -> (m: Mirroring)
        requires
            self.has_mirroring(),
        ensures
            m == self.spec_mirroring(),
    {
        if self.bits & 0b00011 == 2 {
            Mirroring::Vertical
        } else {
            Mirroring::Horizontal
        }
    }

    /// Program bank mode, 0 to 3.
    #[verifier::when_used_as_spec(spec_prg_bank_mode)]
    pub fn prg_bank_mode(&self) -> (mode: u8)
        ensures
            mode == self.spec_prg_bank_mode(),
            mode <= 3,
    {
        let bits: u8 = self.bits;
        assert((bits & 0b01100) >> 2 <= 3) by (bit_vector);
        (self.bits & 0b01100) >> 2
    }

    /// Character bank mode: set for two 4 KiB banks, clear for one of 8 KiB.
    #[verifier::when_used_as_spec(spec_chr_bank_mode)]
    pub fn chr_bank_mode(&self) -> (mode: bool)
        ensures
            mode == self.spec_chr_bank_mode(),
    {
        self.bits & 0b10000 != 0
    }
}

/// Mapper 1: registers loaded one bit at a time through a five-bit shift
/// register, switchable program and character banks, 8 KiB of work RAM.
pub struct Mmc1 {
    /// The shift register; a bit enters at bit 4 and moves down.
    pub reg_load: u8,
    /// Bits shifted in since the register was last cleared: 0 to 4.
    pub load_count: u8,
    pub reg_control: RegControl,
    /// Work RAM at 0x6000-0x7FFF.
    pub wram: [u8; 0x2000],
    /// 16 KiB banks seen at 0x8000 and at 0xC000.
    pub prg_bank_sel_16: (u8, u8),
    /// 32 KiB bank seen at 0x8000.
    pub prg_bank_sel_32: u8,
    /// 4 KiB banks seen at 0x0000 and at 0x1000.
    pub chr_bank_sel_4: (u8, u8),
    /// Bank seen at 0x0000 in 8 KiB mode, counted in units of 4 KiB.
    pub chr_bank_sel_8: u8,
}

/// The MMC1 with its work RAM as a sequence of bytes.
pub struct Mmc1View {
    pub reg_load: u8,
    pub load_count: u8,
    pub reg_control: RegControl,
    pub wram: Seq<u8>,
    pub prg_bank_sel_16: (u8, u8),
    pub prg_bank_sel_32: u8,
    pub chr_bank_sel_4: (u8, u8),
    pub chr_bank_sel_8: u8,
}

impl View for Mmc1 {
    type V = Mmc1View;

    open spec fn view(&self) -> Mmc1View {
        Mmc1View {
            reg_load: self.reg_load,
            load_count: self.load_count,
            reg_control: self.reg_control,
            wram: self.wram@,
            prg_bank_sel_16: self.prg_bank_sel_16,
            prg_bank_sel_32: self.prg_bank_sel_32,
            chr_bank_sel_4: self.chr_bank_sel_4,
            chr_bank_sel_8: self.chr_bank_sel_8,
        }
    }
}

/// The shift register after bit 0 of `data` has been shifted in.
pub open spec fn shift_in(reg_load: u8, data: u8) -> u8 {
    (reg_load >> 1) | ((data & 0x01) << 4)
}

/// The five-bit value that five serial writes assemble, first write lowest.
pub open spec fn serial_value(d0: u8, d1: u8, d2: u8, d3: u8, d4: u8) -> u8 {
    (d0 & 1) | ((d1 & 1) << 1) | ((d2 & 1) << 2) | ((d3 & 1) << 3) | ((d4 & 1) << 4)
}

impl Mmc1View {
    /// The mapper as it is when the console is switched on.
    pub open spec fn initial() -> Mmc1View {
        Mmc1View {
            reg_load: 0,
            load_count: 0,
            reg_control: RegControl { bits: 0x1c },
            wram: zeroed(0x2000),
            prg_bank_sel_16: (0, 0),
            prg_bank_sel_32: 0,
            chr_bank_sel_4: (0, 0),
            chr_bank_sel_8: 0,
        }
    }

    /// The mapper with its shift register cleared.
    pub open spec fn cleared(self) -> Mmc1View {
        Mmc1View { reg_load: 0, load_count: 0, ..self }
    }

    /// Where a program address lands in program memory. In bank modes 2 and
    /// 3 each half of the window has its 16 KiB bank; in modes 0 and 1 the
    /// window is one 32 KiB bank.
    pub open spec fn prg_index(self, addr: u16) -> int
        recommends
            addr >= 0x8000,
    {
        if self.reg_control.bits & 0b01000 != 0 {
            if addr <= 0xbfff {
                self.prg_bank_sel_16.0 as int * 0x4000 + (addr & 0x3fff) as int
            } else {
                self.prg_bank_sel_16.1 as int * 0x4000 + (addr & 0x3fff) as int
            }
        } else {
            self.prg_bank_sel_32 as int * 0x8000 + (addr & 0x7fff) as int
        }
    }

    /// Work RAM answers at 0x6000-0x7FFF, program memory from 0x8000 on;
    /// reads below are answered with 0.
    pub open spec fn spec_read_prg(self, rom: RomView, addr: u16) -> Result<u8, NesError> {
        if addr >= 0x8000 {
            byte_at(rom.prg, self.prg_index(addr))
        } else if addr >= 0x6000 {
            byte_at(self.wram, addr - 0x6000)
        } else {
            Ok(0)
        }
    }

    /// Where a character address lands in character memory: directly where
    /// the cartridge has character RAM, else through the 4 KiB selectors in
    /// character mode 1 and through the 8 KiB selector in mode 0.
    pub open spec fn chr_index(self, rom: RomView, addr: u16) -> Option<int> {
        if rom.chr_banks == 0 {
            Some(addr as int)
        } else if self.reg_control.spec_chr_bank_mode() {
            if addr <= 0x0fff {
                Some(self.chr_bank_sel_4.0 as int * 0x1000 + (addr & 0x0fff) as int)
            } else if addr <= 0x1fff {
                Some(self.chr_bank_sel_4.1 as int * 0x1000 + (addr & 0x0fff) as int)
            } else {
                None
            }
        } else {
            Some(self.chr_bank_sel_8 as int * 0x1000 + (addr & 0x1fff) as int)
        }
    }

    pub open spec fn spec_read_chr(self, rom: RomView, addr: u16) -> Result<u8, NesError> {
        match self.chr_index(rom, addr) {
            Some(idx) => byte_at(rom.chr, idx),
            None => Err(NesError::BusError),
        }
    }

    /// Hands the assembled `value` to the register that `addr` selects and
    /// clears the shift register. 0x8000-0x9FFF is the control register,
    /// which also sets the cartridge's mirroring; 0xA000-0xBFFF and
    /// 0xC000-0xDFFF are the character banks; 0xE000-0xFFFF is the program
    /// bank, whose meaning depends on the program bank mode. A control value
    /// that selects a one-screen layout is stored and reported as unsupported.
    pub open spec fn dispatch(self, rom: RomView, addr: u16, value: u8) -> (
        Mmc1View,
        RomView,
        Result<(), NesError>,
    )
        recommends
            addr >= 0x8000,
    {
        if addr <= 0x9fff {
            let control = RegControl { bits: value & 0x1f };
            let next = Mmc1View { reg_control: control, ..self.cleared() };
            if control.has_mirroring() {
                (next, RomView { mirroring: control.spec_mirroring(), ..rom }, Ok(()))
            } else {
                (next, rom, Err(NesError::UnsupportedMapper))
            }
        } else if addr <= 0xbfff {
            if self.reg_control.spec_chr_bank_mode() {
                (
                    Mmc1View {
                        chr_bank_sel_4: (value & 0x1f, self.chr_bank_sel_4.1),
                        ..self.cleared()
                    },
                    rom,
                    Ok(()),
                )
            } else {
                (Mmc1View { chr_bank_sel_8: value & 0x1e, ..self.cleared() }, rom, Ok(()))
            }
        } else if addr <= 0xdfff {
            if self.reg_control.spec_chr_bank_mode() {
                (
                    Mmc1View {
                        chr_bank_sel_4: (self.chr_bank_sel_4.0, value & 0x1f),
                        ..self.cleared()
                    },
                    rom,
                    Ok(()),
                )
            } else {
                (self.cleared(), rom, Ok(()))
            }
        } else {
            let mode = self.reg_control.spec_prg_bank_mode();
            if mode == 2 {
                (Mmc1View { prg_bank_sel_16: (0, value & 0x0f), ..self.cleared() }, rom, Ok(()))
            } else if mode == 3 {
                (
                    Mmc1View {
                        prg_bank_sel_16: (value & 0x0f, rom.last_prg_bank()),
                        ..self.cleared()
                    },
                    rom,
                    Ok(()),
                )
            } else {
                (Mmc1View { prg_bank_sel_32: (value & 0x0e) >> 1, ..self.cleared() }, rom, Ok(()))
            }
        }
    }

    /// A write to the cartridge. At 0x6000-0x7FFF it stores into work RAM.
    /// From 0x8000 on it feeds the shift register: data with bit 7 set
    /// clears the shift register and sets bits 2-3 of the control register;
    /// other data shifts bit 0 in, and the fifth such write dispatches the
    /// assembled value. Writes below 0x6000 are ignored.
    pub open spec fn spec_write_prg(self, rom: RomView, addr: u16, data: u8) -> (
        Mmc1View,
        RomView,
        Result<(), NesError>,
    ) {
        if addr >= 0x8000 {
            if data & 0x80 != 0 {
                (
                    Mmc1View {
                        reg_control: RegControl { bits: self.reg_control.bits | 0x0c },
                        ..self.cleared()
                    },
                    rom,
                    Ok(()),
                )
            } else if self.load_count >= 4 {
                self.dispatch(rom, addr, shift_in(self.reg_load, data))
            } else {
                (
                    Mmc1View {
                        reg_load: shift_in(self.reg_load, data),
                        load_count: (self.load_count + 1) as u8,
                        ..self
                    },
                    rom,
                    Ok(()),
                )
            }
        } else if addr >= 0x6000 {
            (
                Mmc1View { wram: store_at(self.wram, addr - 0x6000, data), ..self },
                rom,
                store_result(self.wram, addr - 0x6000),
            )
        } else {
            (self, rom, Ok(()))
        }
    }

    pub open spec fn spec_write_chr(rom: RomView, addr: u16, data: u8) -> (RomView, Result<
        (),
        NesError,
    >) {
        (
            RomView { chr: store_at(rom.chr, addr as int, data), ..rom },
            store_result(rom.chr, addr as int),
        )
    }

    /// The mapper after a reset: shift register cleared, control register
    /// 0x1C, the last program bank fixed at 0xC000, every other selector 0.
    /// Work RAM keeps its contents.
    pub open spec fn spec_reset(self, rom: RomView) -> Mmc1View {
        Mmc1View {
            reg_load: 0,
            load_count: 0,
            reg_control: RegControl { bits: 0x1c },
            wram: self.wram,
            prg_bank_sel_16: (0, rom.last_prg_bank()),
            prg_bank_sel_32: 0,
            chr_bank_sel_4: (0, 0),
            chr_bank_sel_8: 0,
        }
    }
}

impl Mmc1 {
    /// The mapper as it is when the console is switched on.
    pub fn new() -> (m: Mmc1)
        ensures
            m@ == Mmc1View::initial(),
    {
        let m = Mmc1 {
            reg_load: 0x00,
            load_count: 0,
            reg_control: RegControl { bits: 0x1c },
            wram: [0u8; 0x2000],
            prg_bank_sel_16: (0x00, 0x00),
            prg_bank_sel_32: 0x00,
            chr_bank_sel_4: (0x00, 0x00),
            chr_bank_sel_8: 0x00,
        };
        assert(m@.wram =~= zeroed(0x2000));
        m
    }

    /// Reads work RAM or banked program memory.
    pub fn read_prg(&self, rom: &Rom, addr: u16) -> (res: Result<u8, NesError>)
        ensures
            res == self@.spec_read_prg(rom@, addr),
    {
        if addr >= 0x8000 {
            let idx: usize = if self.reg_control.bits & 0b01000 != 0 {
                if addr <= 0xbfff {
                    (self.prg_bank_sel_16.0 as usize) * 0x4000 + ((addr & 0x3fff) as usize)
                } else {
                    (self.prg_bank_sel_16.1 as usize) * 0x4000 + ((addr & 0x3fff) as usize)
                }
            } else {
                (self.prg_bank_sel_32 as usize) * 0x8000 + ((addr & 0x7fff) as usize)
            };
            load_byte(&rom.prgmem, idx)
        } else if addr >= 0x6000 {
            Ok(self.wram[(addr - 0x6000) as usize])
        } else {
            Ok(0)
        }
    }

    /// Writes work RAM or feeds the shift register.
    pub fn write_prg(&mut self, rom: &mut Rom, addr: u16, data: u8) -> (res: Result<(), NesError>)
        ensures
            (final(self)@, final(rom)@, res) == old(self)@.spec_write_prg(old(rom)@, addr, data),
            final(rom).prgmem == old(rom).prgmem,
            final(rom).chrmem == old(rom).chrmem,
    {
        if addr >= 0x8000 {
            if data & 0x80 != 0 {
                self.reg_load = 0x00;
                self.load_count = 0;
                self.reg_control.update(self.reg_control.bits | 0x0c);
                Ok(())
            } else if self.load_count >= 4 {
                let value: u8 = (self.reg_load >> 1) | ((data & 0x01) << 4);
                self.reg_load = 0x00;
                self.load_count = 0;
                self.store_register(rom, addr, value)
            } else {
                self.reg_load = (self.reg_load >> 1) | ((data & 0x01) << 4);
                self.load_count = self.load_count + 1;
                Ok(())
            }
        } else if addr >= 0x6000 {
            self.wram[(addr - 0x6000) as usize] = data;
            Ok(())
        } else {
            Ok(())
        }
    }

    /// Hands an assembled value to the register that `addr` selects.
    fn store_register(&mut self, rom: &mut Rom, addr: u16, value: u8) -> (res: Result<
        (),
        NesError,
    >)
        requires
            addr >= 0x8000,
            old(self).reg_load == 0,
            old(self).load_count == 0,
        ensures
            (final(self)@, final(rom)@, res) == old(self)@.dispatch(old(rom)@, addr, value),
            final(rom).prgmem == old(rom).prgmem,
            final(rom).chrmem == old(rom).chrmem,
    {
        if addr <= 0x9fff {
            self.reg_control.update(value & 0x1f);
            if self.reg_control.supports_mirroring() {
                rom.mirroring = self.reg_control.mirroring();
                Ok(())
            } else {
                Err(NesError::UnsupportedMapper)
            }
        } else if addr <= 0xbfff {
            if self.reg_control.chr_bank_mode() {
                self.chr_bank_sel_4.0 = value & 0x1f;
            } else {
                self.chr_bank_sel_8 = value & 0x1e;
            }
            Ok(())
        } else if addr <= 0xdfff {
            if self.reg_control.chr_bank_mode() {
                self.chr_bank_sel_4.1 = value & 0x1f;
            }
            Ok(())
        } else {
            let mode: u8 = self.reg_control.prg_bank_mode();
            if mode == 2 {
                self.prg_bank_sel_16.0 = 0;
                self.prg_bank_sel_16.1 = value & 0x0f;
            } else if mode == 3 {
                self.prg_bank_sel_16.0 = value & 0x0f;
                self.prg_bank_sel_16.1 = rom.last_prg_bank();
            } else {
                self.prg_bank_sel_32 = (value & 0x0e) >> 1;
            }
            Ok(())
        }
    }

    /// Reads character memory through the bank selectors.
    pub fn read_chr(&self, rom: &Rom, addr: u16) -> (res: Result<u8, NesError>)
        ensures
            res == self@.spec_read_chr(rom@, addr),
    {
        if rom.chr_banks == 0 {
            load_byte(&rom.chrmem, addr as usize)
        } else if self.reg_control.chr_bank_mode() {
            if addr <= 0x0fff {
                load_byte(
                    &rom.chrmem,
                    (self.chr_bank_sel_4.0 as usize) * 0x1000 + ((addr & 0x0fff) as usize),
                )
            } else if addr <= 0x1fff {
                load_byte(
                    &rom.chrmem,
                    (self.chr_bank_sel_4.1 as usize) * 0x1000 + ((addr & 0x0fff) as usize),
                )
            } else {
                Err(NesError::BusError)
            }
        } else {
            load_byte(
                &rom.chrmem,
                (self.chr_bank_sel_8 as usize) * 0x1000 + ((addr & 0x1fff) as usize),
            )
        }
    }

    /// Writes character memory directly.
    pub fn write_chr(&mut self, rom: &mut Rom, addr: u16, data: u8) -> (res: Result<(), NesError>)
        ensures
            (final(rom)@, res) == Mmc1View::spec_write_chr(old(rom)@, addr, data),
            *final(self) == *old(self),
    {
        store_byte(&mut rom.chrmem, addr as usize, data)
    }

    /// Puts the registers back to their power-on values, with the last
    /// program bank fixed at 0xC000.
    pub fn reset(&mut self, rom: &Rom) -> (res: Result<(), NesError>)
        ensures
            res is Ok,
            final(self)@ == old(self)@.spec_reset(rom@),
    {
        self.reg_load = 0x00;
        self.load_count = 0;
        self.reg_control.update(0x1c);
        self.chr_bank_sel_4 = (0x00, 0x00);
        self.chr_bank_sel_8 = 0x00;
        self.prg_bank_sel_16.0 = 0x00;
        self.prg_bank_sel_16.1 = rom.last_prg_bank();
        self.prg_bank_sel_32 = 0;
        Ok(())
    }

    pub fn name(&self) -> (name: &'static str)
        ensures
            name@ == "MMC1"@,
    {
        "MMC1"
    }
}

impl Default for Mmc1 {
    fn default() -> (m: Mmc1)
        ensures
            m@ == Mmc1View::initial(),
    {
        Mmc1::new()
    }
}

/// A write from 0x8000 on whose data has bit 7 set clears the shift
/// register, whatever it held.
pub proof fn lemma_bit7_clears_shift_register(m: Mmc1View, rom: RomView, addr: u16, data: u8)
    requires
        addr >= 0x8000,
        data & 0x80 != 0,
    ensures
        m.spec_write_prg(rom, addr, data).0.reg_load == 0,
        m.spec_write_prg(rom, addr, data).0.load_count == 0,
        m.spec_write_prg(rom, addr, data).1 == rom,
        m.spec_write_prg(rom, addr, data).2 is Ok,
{
}

/// Short of the fifth write nothing but the shift register changes: a
/// serial write that finds fewer than four bits in the shift register
/// leaves every bank register, the control register, work RAM and the
/// cartridge as they were, and counts one bit more.
pub proof fn lemma_early_writes_only_shift(m: Mmc1View, rom: RomView, addr: u16, data: u8)
    requires
        addr >= 0x8000,
        data & 0x80 == 0,
        m.load_count < 4,
    ensures
        m.spec_write_prg(rom, addr, data) == (
            Mmc1View {
                reg_load: shift_in(m.reg_load, data),
                load_count: (m.load_count + 1) as u8,
                ..m
            },
            rom,
            Ok::<(), NesError>(()),
        ),
{
}

/// Five serial writes make one register write: from a cleared shift
/// register, four writes change nothing but the shift register, and the
/// fifth hands the value assembled from bit 0 of the five data bytes, first
/// write lowest, to the register that the fifth address selects, and
/// leaves the shift register cleared.
pub proof fn lemma_five_writes_dispatch(
    m: Mmc1View,
    rom: RomView,
    a0: u16,
    a1: u16,
    a2: u16,
    a3: u16,
    a4: u16,
    d0: u8,
    d1: u8,
    d2: u8,
    d3: u8,
    d4: u8,
)
    requires
        m.reg_load == 0,
        m.load_count == 0,
        a0 >= 0x8000 && a1 >= 0x8000 && a2 >= 0x8000 && a3 >= 0x8000 && a4 >= 0x8000,
        d0 & 0x80 == 0 && d1 & 0x80 == 0 && d2 & 0x80 == 0 && d3 & 0x80 == 0 && d4 & 0x80 == 0,
    ensures
        ({
            let s1 = m.spec_write_prg(rom, a0, d0);
            let s2 = s1.0.spec_write_prg(s1.1, a1, d1);
            let s3 = s2.0.spec_write_prg(s2.1, a2, d2);
            let s4 = s3.0.spec_write_prg(s3.1, a3, d3);
            let s5 = s4.0.spec_write_prg(s4.1, a4, d4);
            &&& s4.0.cleared() == m
            &&& s4.0.load_count == 4
            &&& s4.1 == rom
            &&& s1.2 is Ok && s2.2 is Ok && s3.2 is Ok && s4.2 is Ok
            &&& s5 == m.dispatch(rom, a4, serial_value(d0, d1, d2, d3, d4))
            &&& s5.0.reg_load == 0 && s5.0.load_count == 0
        }),
{
    let r1 = shift_in(0, d0);
    let r2 = shift_in(r1, d1);
    let r3 = shift_in(r2, d2);
    let r4 = shift_in(r3, d3);
    let r5 = shift_in(r4, d4);
    assert(r5 == serial_value(d0, d1, d2, d3, d4)) by (bit_vector)
        requires
            r1 == (0u8 >> 1) | ((d0 & 0x01) << 4),
            r2 == (r1 >> 1) | ((d1 & 0x01) << 4),
            r3 == (r2 >> 1) | ((d2 & 0x01) << 4),
            r4 == (r3 >> 1) | ((d3 & 0x01) << 4),
            r5 == (r4 >> 1) | ((d4 & 0x01) << 4),
    ;
    let s1 = m.spec_write_prg(rom, a0, d0);
    let s2 = s1.0.spec_write_prg(s1.1, a1, d1);
    let s3 = s2.0.spec_write_prg(s2.1, a2, d2);
    let s4 = s3.0.spec_write_prg(s3.1, a3, d3);
    assert(s4.0.cleared() == m);
    assert(s4.0.dispatch(rom, a4, r5) == m.dispatch(rom, a4, r5));
}

} // verus!
