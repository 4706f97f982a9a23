use vstd::prelude::*;
use crate::apu;
use crate::cartridge;
use crate::console::{Console, ConsoleView};
use crate::cpu::Cpu;
use crate::error::NesError;
use crate::memory::zeroed;
use crate::ppu;

verus! {

/// Size of the work RAM; it is seen four times over 0x0000-0x1FFF.
pub const RAM_LEN: usize = 0x0800;

/// What hangs on the processor's bus beside the other units: 2 KiB of RAM.
pub struct BusCpu {
    pub ram: [u8; 0x0800],
}

/// The processor's RAM as a sequence of bytes.
pub struct BusCpuView {
    pub ram: Seq<u8>,
}

impl View for BusCpu {
    type V = BusCpuView;

    open spec fn view(&self) -> BusCpuView {
        BusCpuView { ram: self.ram@ }
    }
}

impl BusCpu {
    /// RAM filled with zeros.
    pub fn new() -> (bus: BusCpu)
        ensures
            bus@.ram == zeroed(RAM_LEN as nat),
    {
        let bus = BusCpu { ram: [0u8; 0x0800] };
        assert(bus@.ram =~= zeroed(RAM_LEN as nat));
        bus
    }
}

impl Default for BusCpu {
    fn default() -> (bus: BusCpu)
        ensures
            bus@.ram == zeroed(RAM_LEN as nat),
    {
        BusCpu::new()
    }
}

/// The RAM cell behind an address up to 0x1FFF: RAM repeats every 2 KiB.
pub open spec fn ram_index(addr: u16) -> int {
    (addr % 0x0800) as int
}

/// The console after a read of `addr` on the processor's bus, and what
/// the read gives. RAM answers up to 0x1FFF, the picture unit's eight
/// registers up to 0x3FFF, the controllers at 0x4016 and 0x4017, the
/// cartridge from 0x4020 on. The sound unit's registers cannot be read.
/// The addresses that are left read as 0.
///
/// The table is opaque to the verifier; a proof that needs it reveals it.
#[verifier::opaque]
pub open spec fn spec_read(v: ConsoleView, addr: u16) -> (ConsoleView, Result<u8, NesError>) {
    if addr <= 0x1fff {
        (v, Ok(v.bus_cpu.ram[ram_index(addr)]))
    } else if addr <= 0x3fff {
        ppu::spec_read_ppu_reg(v, addr & 0x2007)
    } else if addr == 0x4016 {
        (
            ConsoleView { joypad: (v.joypad.0.spec_read_state(), v.joypad.1), ..v },
            Ok(v.joypad.0.spec_read_value()),
        )
    } else if addr == 0x4017 {
        (
            ConsoleView { joypad: (v.joypad.0, v.joypad.1.spec_read_state()), ..v },
            Ok(v.joypad.1.spec_read_value()),
        )
    } else if addr <= 0x4013 || addr == 0x4015 {
        (v, Err(NesError::BusError))
    } else if addr >= 0x4020 {
        (v, v.cartridge.spec_prg_read(addr))
    } else {
        (v, Ok(0))
    }
}

/// The console after a write of `data` to `addr` on the processor's bus,
/// and whether the write was answered. 0x4014 starts a sprite memory
/// transfer; the sound unit answers at 0x4000-0x4013 and 0x4015. Nothing
/// answers at the addresses that are left.
///
/// The table is opaque to the verifier; a proof that needs it reveals it.
#[verifier::opaque]
pub open spec fn spec_write(v: ConsoleView, addr: u16, data: u8) -> (ConsoleView, Result<
    (),
    NesError,
>) {
    if addr <= 0x1fff {
        (
            ConsoleView { bus_cpu: BusCpuView { ram: v.bus_cpu.ram.update(ram_index(addr), data) }, ..v },
            Ok(()),
        )
    } else if addr <= 0x3fff {
        ppu::spec_write_ppu_reg(v, addr & 0x2007, data)
    } else if addr == 0x4014 {
        ppu::spec_write_ppu_reg(v, 0x4014, data)
    } else if addr == 0x4016 {
        (ConsoleView { joypad: (v.joypad.0.spec_write(data), v.joypad.1), ..v }, Ok(()))
    } else if addr == 0x4017 {
        (ConsoleView { joypad: (v.joypad.0, v.joypad.1.spec_write(data)), ..v }, Ok(()))
    } else if addr <= 0x4013 || addr == 0x4015 {
        let (apu, res) = v.apu.spec_write(addr, data);
        (ConsoleView { apu, ..v }, res)
    } else if addr >= 0x4020 {
        let (cartridge, res) = v.cartridge.spec_prg_write(addr, data);
        (ConsoleView { cartridge, ..v }, res)
    } else {
        (v, Err(NesError::BusError))
    }
}

/// Reads `addr` on the processor's bus. The processor's own registers are
/// never touched by a read.
pub fn read(c: &mut Console, addr: u16) -> (res: Result<u8, NesError>)
    ensures
        (final(c)@, res) == spec_read(old(c)@, addr),
        final(c).cpu == old(c).cpu,
        final(c)@.apu == old(c)@.apu,
        addr <= 0x1fff ==> res == Ok::<u8, NesError>(old(c)@.bus_cpu.ram[ram_index(addr)])
            && final(c)@ == old(c)@,
{
    proof {
        reveal(spec_read);
    }
    if addr <= 0x1fff {
        Ok(c.bus_cpu.ram[(addr % 0x0800) as usize])
    } else if addr <= 0x3fff {
        ppu::read_ppu_reg(c, addr & 0x2007)
    } else if addr == 0x4016 {
        Ok(c.joypad.0.read())
    } else if addr == 0x4017 {
        Ok(c.joypad.1.read())
    } else if addr <= 0x4013 || addr == 0x4015 {
        apu::read(&c.apu, addr)
    } else if addr >= 0x4020 {
        cartridge::prg_read(&c.cartridge, addr)
    } else {
        Ok(0)
    }
}

/// Writes `data` to `addr` on the processor's bus. Of the processor's own
/// registers only the cycle count may change, where the write starts a
/// sprite memory transfer.
pub fn write(c: &mut Console, addr: u16, data: u8) -> (res: Result<(), NesError>)
    ensures
        (final(c)@, res) == spec_write(old(c)@, addr, data),
        final(c).cpu == (Cpu { cycles: final(c).cpu.cycles, ..old(c).cpu }),
        addr <= 0x1fff ==> res == Ok::<(), NesError>(()) && final(c)@ == (ConsoleView {
            bus_cpu: BusCpuView { ram: old(c)@.bus_cpu.ram.update(ram_index(addr), data) },
            ..old(c)@
        }),
{
    proof {
        reveal(spec_write);
    }
    if addr <= 0x1fff {
        c.bus_cpu.ram[(addr % 0x0800) as usize] = data;
        Ok(())
    } else if addr <= 0x3fff {
        ppu::write_ppu_reg(c, addr & 0x2007, data)
    } else if addr == 0x4014 {
        ppu::write_ppu_reg(c, 0x4014, data)
    } else if addr == 0x4016 {
        c.joypad.0.write(data);
        Ok(())
    } else if addr == 0x4017 {
        c.joypad.1.write(data);
        Ok(())
    } else if addr <= 0x4013 || addr == 0x4015 {
        apu::write(&mut c.apu, addr, data)
    } else if addr >= 0x4020 {
        cartridge::prg_write(&mut c.cartridge, addr, data)
    } else {
        Err(NesError::BusError)
    }
}

/// A byte written to RAM is read back from the address it was written to,
/// and from every other address up to 0x1FFF that is the same modulo
/// 0x0800.
pub proof fn lemma_ram_write_read(v: ConsoleView, addr: u16, other: u16, data: u8)
    requires
        v.wf(),
        addr <= 0x1fff,
        other <= 0x1fff,
        other % 0x0800 == addr % 0x0800,
    ensures
        spec_write(v, addr, data).1 == Ok::<(), NesError>(()),
        spec_write(v, addr, data).0.wf(),
        spec_read(spec_write(v, addr, data).0, other).1 == Ok::<u8, NesError>(data),
        spec_read(spec_write(v, addr, data).0, addr).1 == Ok::<u8, NesError>(data),
{
    reveal(spec_read);
    reveal(spec_write);
}

/// A byte written to the work RAM of an MMC1 cartridge, at 0x6000-0x7FFF,
/// is read back from it.
pub proof fn lemma_wram_write_read(v: ConsoleView, addr: u16, data: u8)
    requires
        0x6000 <= addr <= 0x7fff,
        v.cartridge.mapper matches crate::mappers::MapperView::Mmc1(m) && m.wram.len() == 0x2000,
    ensures
        spec_write(v, addr, data).1 == Ok::<(), NesError>(()),
        spec_read(spec_write(v, addr, data).0, addr).1 == Ok::<u8, NesError>(data),
{
    reveal(spec_read);
    reveal(spec_write);
}

} // verus!
