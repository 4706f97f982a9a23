use vstd::prelude::*;
use crate::cartridge;
use crate::console::{Console, ConsoleView};
use crate::error::NesError;
use crate::memory::zeroed;
use crate::rom::Mirroring;

verus! {

/// Size of the nametable RAM. The four logical nametables at 0x2000-0x2FFF
/// are folded onto it by the cartridge's mirroring.
pub const VRAM_LEN: usize = 0x1000;

/// Size of the palette RAM.
pub const PALETTE_LEN: usize = 0x20;

/// What hangs on the picture unit's bus beside the cartridge: nametable RAM
/// and palette RAM.
pub struct BusPpu {
    pub vram: [u8; 0x1000],
    pub palette: [u8; 0x20],
}

/// The picture unit's memories as sequences of bytes.
pub struct BusPpuView {
    pub vram: Seq<u8>,
    pub palette: Seq<u8>,
}

impl View for BusPpu {
    type V = BusPpuView;

    open spec fn view(&self) -> BusPpuView {
        BusPpuView { vram: self.vram@, palette: self.palette@ }
    }
}

impl BusPpu {
    /// Memories filled with zeros.
    pub fn new() -> (bus: BusPpu)
        ensures
            bus@.vram == zeroed(VRAM_LEN as nat),
            bus@.palette == zeroed(PALETTE_LEN as nat),
    {
        let bus = BusPpu { vram: [0u8; 0x1000], palette: [0u8; 0x20] };
        assert(bus@.vram =~= zeroed(VRAM_LEN as nat));
        assert(bus@.palette =~= zeroed(PALETTE_LEN as nat));
        bus
    }
}

impl Default for BusPpu {
    fn default() -> (bus: BusPpu)
        ensures
            bus@.vram == zeroed(VRAM_LEN as nat),
            bus@.palette == zeroed(PALETTE_LEN as nat),
    {
        BusPpu::new()
    }
}

/// Where a nametable address lands in nametable RAM. The address is taken
/// modulo 0x1000. With horizontal mirroring the second and the fourth
/// nametable land 0x400 lower, on the first and the third; with vertical
/// mirroring the third and the fourth land 0x800 lower, on the first and
/// the second.
pub open spec fn vram_index(mirroring: Mirroring, addr: u16) -> int {
    let a = addr % 0x1000;
    match mirroring {
        Mirroring::Horizontal => if (0x0400 <= a && a < 0x0800) || a >= 0x0c00 {
            a - 0x0400
        } else {
            a as int
        },
        Mirroring::Vertical => if a >= 0x0800 {
            a - 0x0800
        } else {
            a as int
        },
    }
}

/// The palette cell that a write to `addr` in 0x3F00-0x3FFF stores into.
/// The palette repeats every 32 bytes, and 0x3F10, 0x3F14, 0x3F18 and
/// 0x3F1C are other names of 0x3F00, 0x3F04, 0x3F08 and 0x3F0C.
pub open spec fn palette_slot(addr: u16) -> int
    recommends
        0x3f00 <= addr <= 0x3fff,
{
    if addr == 0x3f10 || addr == 0x3f14 || addr == 0x3f18 || addr == 0x3f1c {
        addr - 0x3f10
    } else {
        (addr - 0x3f00) % 0x20
    }
}

/// The palette cell that a read of `addr` in 0x3F00-0x3FFF looks at: the
/// cell that a write stores into, with only bits 4-5 of its number kept
/// where greyscale is on.
pub open spec fn palette_read_slot(addr: u16, grayscale: bool) -> int
    recommends
        0x3f00 <= addr <= 0x3fff,
{
    if grayscale {
        ((palette_slot(addr) as u8) & 0x30) as int
    } else {
        palette_slot(addr)
    }
}

/// What a read of `addr` on the picture unit's bus gives. Pattern tables
/// at 0x0000-0x1FFF come from the cartridge, nametables at 0x2000-0x2FFF
/// from nametable RAM, 0x3F00-0x3FFF from the palette. Nothing answers
/// elsewhere.
pub open spec fn spec_read(v: ConsoleView, addr: u16) -> Result<u8, NesError> {
    if addr <= 0x1fff {
        v.cartridge.spec_chr_read(addr)
    } else if addr <= 0x2fff {
        Ok(v.bus_ppu.vram[vram_index(v.cartridge.rom.mirroring, addr)])
    } else if 0x3f00 <= addr <= 0x3fff {
        Ok(v.bus_ppu.palette[palette_read_slot(addr, v.ppu.reg_mask.spec_grayscale())])
    } else {
        Err(NesError::BusError)
    }
}

/// The console after a write of `data` to `addr` on the picture unit's
/// bus, and whether the write was answered.
pub open spec fn spec_write(v: ConsoleView, addr: u16, data: u8) -> (ConsoleView, Result<
    (),
    NesError,
>) {
    if addr <= 0x1fff {
        let (cartridge, res) = v.cartridge.spec_chr_write(addr, data);
        (ConsoleView { cartridge, ..v }, res)
    } else if addr <= 0x2fff {
        let idx = vram_index(v.cartridge.rom.mirroring, addr);
        (
            ConsoleView {
                bus_ppu: BusPpuView { vram: v.bus_ppu.vram.update(idx, data), ..v.bus_ppu },
                ..v
            },
            Ok(()),
        )
    } else if 0x3f00 <= addr <= 0x3fff {
        (
            ConsoleView {
                bus_ppu: BusPpuView {
                    palette: v.bus_ppu.palette.update(palette_slot(addr), data),
                    ..v.bus_ppu
                },
                ..v
            },
            Ok(()),
        )
    } else {
        (v, Err(NesError::BusError))
    }
}

/// Folds a nametable address onto nametable RAM.
pub fn mirror_vram_addr(c: &Console, addr: u16) -> (mapped: u16)
    ensures
        mapped == vram_index(c@.cartridge.rom.mirroring, addr),
        mapped < VRAM_LEN,
{
    let a: u16 = addr % 0x1000;
    match c.cartridge.rom.mirroring {
        Mirroring::Horizontal => {
            if (0x0400 <= a && a < 0x0800) || a >= 0x0c00 {
                a - 0x0400
            } else {
                a
            }
        },
        Mirroring::Vertical => {
            if a >= 0x0800 {
                a - 0x0800
            } else {
                a
            }
        },
    }
}

/// Computes `palette_slot`.
fn palette_addr(addr: u16) -> (slot: u8)
    requires
        0x3f00 <= addr <= 0x3fff,
    ensures
        slot == palette_slot(addr),
        slot < PALETTE_LEN,
{
    if addr == 0x3f10 || addr == 0x3f14 || addr == 0x3f18 || addr == 0x3f1c {
        (addr - 0x3f10) as u8
    } else {
        ((addr - 0x3f00) % 0x20) as u8
    }
}

/// Reads `addr` on the picture unit's bus.
pub fn read(c: &Console, addr: u16) -> (res: Result<u8, NesError>)
    ensures
        res == spec_read(c@, addr),
{
    if addr <= 0x1fff {
        cartridge::chr_read(&c.cartridge, addr)
    } else if addr <= 0x2fff {
        let mapped: u16 = mirror_vram_addr(c, addr);
        Ok(c.bus_ppu.vram[mapped as usize])
    } else if 0x3f00 <= addr && addr <= 0x3fff {
        let mut slot: u8 = palette_addr(addr);
        if c.ppu.reg_mask.grayscale() {
            assert(slot < 0x20 ==> slot & 0x30 < 0x20) by (bit_vector);
            slot = slot & 0x30;
        }
        Ok(c.bus_ppu.palette[slot as usize])
    } else {
        Err(NesError::BusError)
    }
}

/// Writes `data` to `addr` on the picture unit's bus.
pub fn write(c: &mut Console, addr: u16, data: u8) -> (res: Result<(), NesError>)
    ensures
        (final(c)@, res) == spec_write(old(c)@, addr, data),
        final(c).cpu == old(c).cpu,
        final(c)@.ppu == old(c)@.ppu,
{
    if addr <= 0x1fff {
        cartridge::chr_write(&mut c.cartridge, addr, data)
    } else if addr <= 0x2fff {
        let mapped: u16 = mirror_vram_addr(c, addr);
        c.bus_ppu.vram[mapped as usize] = data;
        Ok(())
    } else if 0x3f00 <= addr && addr <= 0x3fff {
        let slot: u8 = palette_addr(addr);
        c.bus_ppu.palette[slot as usize] = data;
        Ok(())
    } else {
        Err(NesError::BusError)
    }
}

/// A byte written to a nametable address is read back from it.
pub proof fn lemma_vram_write_read(v: ConsoleView, addr: u16, data: u8)
    requires
        v.wf(),
        0x2000 <= addr <= 0x2fff,
    ensures
        spec_write(v, addr, data).1 == Ok::<(), NesError>(()),
        spec_write(v, addr, data).0.wf(),
        spec_read(spec_write(v, addr, data).0, addr) == Ok::<u8, NesError>(data),
{
}

/// A byte written to a palette address is read back from it while
/// greyscale is off.
pub proof fn lemma_palette_write_read(v: ConsoleView, addr: u16, data: u8)
    requires
        v.wf(),
        0x3f00 <= addr <= 0x3fff,
        !v.ppu.reg_mask.spec_grayscale(),
    ensures
        spec_write(v, addr, data).1 == Ok::<(), NesError>(()),
        spec_write(v, addr, data).0.wf(),
        spec_read(spec_write(v, addr, data).0, addr) == Ok::<u8, NesError>(data),
{
}

/// With horizontal mirroring a nametable address and the address 0x400
/// from it are the same cell; with vertical mirroring, the address 0x800
/// from it.
pub proof fn lemma_mirrored_cells(mirroring: Mirroring, addr: u16)
    requires
        0x2000 <= addr <= 0x2fff,
    ensures
        0x2000 <= addr ^ 0x0400 <= 0x2fff,
        0x2000 <= addr ^ 0x0800 <= 0x2fff,
        mirroring == Mirroring::Horizontal ==> vram_index(mirroring, addr) == vram_index(
            mirroring,
            addr ^ 0x0400,
        ),
        mirroring == Mirroring::Vertical ==> vram_index(mirroring, addr) == vram_index(
            mirroring,
            addr ^ 0x0800,
        ),
{
    assert(0x2000 <= addr <= 0x2fff ==> 0x2000 <= addr ^ 0x0400 <= 0x2fff && 0x2000 <= addr
        ^ 0x0800 <= 0x2fff && (if (addr % 0x1000) % 0x0800 >= 0x0400 {
        (addr ^ 0x0400) % 0x1000 == addr % 0x1000 - 0x0400
    } else {
        (addr ^ 0x0400) % 0x1000 == addr % 0x1000 + 0x0400
    }) && (if addr % 0x1000 >= 0x0800 {
        (addr ^ 0x0800) % 0x1000 == addr % 0x1000 - 0x0800
    } else {
        (addr ^ 0x0800) % 0x1000 == addr % 0x1000 + 0x0800
    })) by (bit_vector);
}

/// Mirrored nametable addresses read the same byte: with horizontal
/// mirroring `addr` and `addr ^ 0x0400`, with vertical mirroring `addr` and
/// `addr ^ 0x0800`.
pub proof fn lemma_mirrored_reads_agree(v: ConsoleView, addr: u16)
    requires
        0x2000 <= addr <= 0x2fff,
    ensures
        v.cartridge.rom.mirroring == Mirroring::Horizontal ==> spec_read(v, addr) == spec_read(
            v,
            addr ^ 0x0400,
        ),
        v.cartridge.rom.mirroring == Mirroring::Vertical ==> spec_read(v, addr) == spec_read(
            v,
            addr ^ 0x0800,
        ),
{
    lemma_mirrored_cells(v.cartridge.rom.mirroring, addr);
}

/// A write to 0x3F10, 0x3F14, 0x3F18 or 0x3F1C is a write to the palette
/// address 0x10 below it.
pub proof fn lemma_palette_mirror(v: ConsoleView, addr: u16, data: u8)
    requires
        addr == 0x3f10 || addr == 0x3f14 || addr == 0x3f18 || addr == 0x3f1c,
    ensures
        spec_write(v, addr, data) == spec_write(v, (addr - 0x10) as u16, data),
        spec_read(v, addr) == spec_read(v, (addr - 0x10) as u16),
{
}

} // verus!
