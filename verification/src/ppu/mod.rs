use vstd::prelude::*;
use crate::buscpu;
use crate::busppu;
use crate::console::{Console, ConsoleView};
use crate::cpu;
use crate::cpu::Cpu;
use crate::error::NesError;
use crate::memory::zeroed;
use crate::ppu::regs::{RegControl, RegMask, RegScroll, RegStatus};

pub use crate::ppu::debug::{draw_chr, draw_palette, draw_vram};
pub use crate::ppu::render::{render_background, render_nametable, render_sprites, ViewPort};

pub mod debug;
pub mod regs;
pub mod render;

verus! {

/// Size of the sprite memory: 64 sprites of 4 bytes.
pub const OAM_LEN: usize = 256;

pub const PPUCTRL: u16 = 0x2000;

pub const PPUMASK: u16 = 0x2001;

pub const PPUSTATUS: u16 = 0x2002;

pub const OAMADDR: u16 = 0x2003;

pub const OAMDATA: u16 = 0x2004;

pub const PPUSCROLL: u16 = 0x2005;

pub const PPUADDR: u16 = 0x2006;

pub const PPUDATA: u16 = 0x2007;

pub const OAMDMA: u16 = 0x4014;

/// Cycles for which a sprite memory transfer holds the processor.
pub const OAM_DMA_CYCLES: u8 = 0xff;

/// The colours of the 64 palette entries, as 0xRRGGBB.
pub const PALETTE_TO_RGB: [u32; 64] = [
    0x808080, 0x003da6, 0x0012b0, 0x440096, 0xa1005e, 0xc70028, 0xba0600, 0x8c1700,
    0x5c2f00, 0x104500, 0x054a00, 0x00472e, 0x004166, 0x000000, 0x050505, 0x050505,
    0xc7c7c7, 0x0077ff, 0x2155ff, 0x8237fa, 0xeb2fb5, 0xff2950, 0xff2200, 0xd63200,
    0xc46200, 0x358000, 0x058f00, 0x008a55, 0x0099cc, 0x212121, 0x090909, 0x090909,
    0xffffff, 0x0fd7ff, 0x69a2ff, 0xd480ff, 0xff45f3, 0xff618b, 0xff8833, 0xff9c12,
    0xfabc20, 0x9fe30e, 0x2bf035, 0x0cf0a4, 0x05fbff, 0x5e5e5e, 0x0d0d0d, 0x0d0d0d,
    0xffffff, 0xa6fcff, 0xb3ecff, 0xdaabeb, 0xffa8f9, 0xffabb3, 0xffd2b0, 0xffefa6,
    0xfff79c, 0xd7e895, 0xa6edaf, 0xa2f2da, 0x99fffc, 0xdddddd, 0x111111, 0x111111,
];

/// The picture unit: sprite memory, the position of the beam, and the
/// registers through which the processor talks to it.
pub struct Ppu {
    pub oam: [u8; 256],
    /// Scanline of the beam, -1 (the pre-render line) to 260.
    pub scan_line: i16,
    /// Dot of the beam on its scanline, 0 to 340.
    pub scan_cycle: u16,
    pub reg_control: RegControl,
    pub reg_mask: RegMask,
    pub reg_status: RegStatus,
    pub reg_scroll: RegScroll,
    /// Address for the data register, fourteen bits as written.
    pub reg_addr: u16,
    /// Read buffer of the data register.
    pub reg_data: u8,
    /// Set when the next write to the address register is the high byte.
    pub addr_latch: bool,
    /// Cell of sprite memory that the sprite data register touches.
    pub reg_oam_addr: u8,
}

/// The picture unit with its sprite memory as a sequence of bytes.
pub struct PpuView {
    pub oam: Seq<u8>,
    pub scan_line: i16,
    pub scan_cycle: u16,
    pub reg_control: RegControl,
    pub reg_mask: RegMask,
    pub reg_status: RegStatus,
    pub reg_scroll: RegScroll,
    pub reg_addr: u16,
    pub reg_data: u8,
    pub addr_latch: bool,
    pub reg_oam_addr: u8,
}

impl View for Ppu {
    type V = PpuView;

    open spec fn view(&self) -> PpuView {
        PpuView {
            oam: self.oam@,
            scan_line: self.scan_line,
            scan_cycle: self.scan_cycle,
            reg_control: self.reg_control,
            reg_mask: self.reg_mask,
            reg_status: self.reg_status,
            reg_scroll: self.reg_scroll,
            reg_addr: self.reg_addr,
            reg_data: self.reg_data,
            addr_latch: self.addr_latch,
            reg_oam_addr: self.reg_oam_addr,
        }
    }
}

impl PpuView {
    /// The picture unit of a console that was just switched on: the beam at
    /// the start of the pre-render line, every register zero, the address
    /// register waiting for a high byte.
    pub open spec fn initial() -> PpuView {
        PpuView {
            oam: zeroed(OAM_LEN as nat),
            scan_line: -1i16,
            scan_cycle: 0,
            reg_control: RegControl { bits: 0 },
            reg_mask: RegMask { bits: 0 },
            reg_status: RegStatus { bits: 0 },
            reg_scroll: RegScroll { scroll_x: 0, scroll_y: 0, latch: false },
            reg_addr: 0,
            reg_data: 0,
            addr_latch: true,
            reg_oam_addr: 0,
        }
    }
}

impl Ppu {
    /// The picture unit of a console that was just switched on.
    pub fn new() -> (ppu: Ppu)
        ensures
            ppu@ == PpuView::initial(),
    {
        let ppu = Ppu {
            oam: [0u8; 256],
            scan_line: -1,
            scan_cycle: 0,
            reg_control: RegControl { bits: 0 },
            reg_mask: RegMask { bits: 0 },
            reg_status: RegStatus { bits: 0 },
            reg_scroll: RegScroll { scroll_x: 0, scroll_y: 0, latch: false },
            reg_addr: 0x0000,
            reg_data: 0x00,
            addr_latch: true,
            reg_oam_addr: 0x00,
        };
        assert(ppu@.oam =~= zeroed(OAM_LEN as nat));
        ppu
    }
}

impl Default for Ppu {
    fn default() -> (ppu: Ppu)
        ensures
            ppu@ == PpuView::initial(),
    {
        Ppu::new()
    }
}

/// The colour of palette entry `idx`; entries repeat every 64.
pub open spec fn spec_palette_rgb(idx: u8) -> (u8, u8, u8) {
    let packed = PALETTE_TO_RGB[idx as int % 64];
    ((packed / 0x10000) as u8, (packed / 0x100 % 0x100) as u8, (packed % 0x100) as u8)
}

/// The colour of palette entry `idx` as red, green and blue.
pub fn palette_rgb(idx: u8) -> (rgb: (u8, u8, u8))
    ensures
        rgb == spec_palette_rgb(idx),
{
    let packed: u32 = PALETTE_TO_RGB[(idx % 64) as usize];
    assert(packed < 0x1000000);
    ((packed / 0x10000) as u8, (packed / 0x100 % 0x100) as u8, (packed % 0x100) as u8)
}

/// The address of the data register after an access: 1 or 32 further, as the
/// control register says, wrapping at 0x10000.
pub open spec fn addr_after_access(ppu: PpuView) -> u16 {
    ((ppu.reg_addr + ppu.reg_control.spec_vram_increment()) % 0x10000) as u16
}

/// The address register after a write to the address register: the high byte
/// replaced where the latch is set, else the low byte; fourteen bits kept.
pub open spec fn addr_after_write(reg_addr: u16, addr_latch: bool, data: u8) -> u16 {
    if addr_latch {
        ((reg_addr & 0x00ff) | (data as u16) << 8) & 0x3fff
    } else {
        ((reg_addr & 0xff00) | data as u16) & 0x3fff
    }
}

/// The console after a read of the picture unit's register `addr`, and
/// what the read gives. The status register hands out its bits, clears the
/// vertical blank bit and rewinds both write latches. The sprite data register
/// hands out the cell that the sprite address points at. The data register
/// moves the address on; up to 0x2FFF it hands out the read buffer and
/// refills it from the bus, in the palette it hands out the byte on the
/// bus. Write-only registers read as 0.
pub open spec fn spec_read_ppu_reg(v: ConsoleView, addr: u16) -> (ConsoleView, Result<
    u8,
    NesError,
>) {
    if addr == PPUSTATUS {
        (
            ConsoleView {
                ppu: PpuView {
                    reg_status: v.ppu.reg_status.spec_set_vblank(false),
                    addr_latch: true,
                    reg_scroll: RegScroll { latch: false, ..v.ppu.reg_scroll },
                    ..v.ppu
                },
                ..v
            },
            Ok(v.ppu.reg_status.bits),
        )
    } else if addr == OAMDATA {
        (v, Ok(v.ppu.oam[v.ppu.reg_oam_addr as int]))
    } else if addr == PPUDATA {
        let maddr = v.ppu.reg_addr;
        let moved = ConsoleView { ppu: PpuView { reg_addr: addr_after_access(v.ppu), ..v.ppu }, ..v };
        if maddr <= 0x2fff {
            match busppu::spec_read(moved, maddr) {
                Ok(fresh) => (
                    ConsoleView { ppu: PpuView { reg_data: fresh, ..moved.ppu }, ..moved },
                    Ok(v.ppu.reg_data),
                ),
                Err(e) => (moved, Err(e)),
            }
        } else if 0x3f00 <= maddr <= 0x3fff {
            (moved, busppu::spec_read(moved, maddr))
        } else {
            (moved, Err(NesError::BusError))
        }
    } else if addr == PPUCTRL || addr == PPUMASK || addr == PPUSCROLL || addr == PPUADDR || addr
        == OAMADDR || addr == OAMDMA {
        (v, Ok(0))
    } else {
        (v, Err(NesError::BusError))
    }
}

/// The console after one byte of a sprite memory transfer: the byte at
/// `addr` is read on the processor's bus and stored at the sprite address,
/// which moves on by one and wraps.
pub open spec fn spec_oam_dma_step(v: ConsoleView, addr: u16) -> (ConsoleView, Result<
    (),
    NesError,
>) {
    let (read, res) = buscpu::spec_read(v, addr);
    match res {
        Ok(byte) => (
            ConsoleView {
                ppu: PpuView {
                    oam: read.ppu.oam.update(read.ppu.reg_oam_addr as int, byte),
                    reg_oam_addr: ((read.ppu.reg_oam_addr + 1) % 256) as u8,
                    ..read.ppu
                },
                ..read
            },
            Ok(()),
        ),
        Err(e) => (read, Err(e)),
    }
}

/// The console after the first `n` bytes of a sprite memory transfer from
/// the processor's page at `page`. A read that fails ends the transfer.
pub open spec fn spec_oam_dma(v: ConsoleView, page: u16, n: nat) -> (ConsoleView, Result<
    (),
    NesError,
>)
    decreases n,
{
    if n == 0 {
        (v, Ok(()))
    } else {
        let (before, earlier) = spec_oam_dma(v, page, (n - 1) as nat);
        if earlier is Err {
            (before, earlier)
        } else {
            spec_oam_dma_step(before, (page + n - 1) as u16)
        }
    }
}

/// The console after a write of `data` to the picture unit's register
/// `addr`, and whether the write was answered. A write to the status
/// register is ignored. A write to 0x4014 holds the processor for 255
/// cycles and copies the processor's page `data` into sprite memory.
pub open spec fn spec_write_ppu_reg(v: ConsoleView, addr: u16, data: u8) -> (ConsoleView, Result<
    (),
    NesError,
>) {
    if addr == PPUSTATUS {
        (v, Ok(()))
    } else if addr == PPUCTRL {
        (ConsoleView { ppu: PpuView { reg_control: RegControl { bits: data }, ..v.ppu }, ..v }, Ok(()))
    } else if addr == PPUMASK {
        (ConsoleView { ppu: PpuView { reg_mask: RegMask { bits: data }, ..v.ppu }, ..v }, Ok(()))
    } else if addr == PPUSCROLL {
        (
            ConsoleView {
                ppu: PpuView { reg_scroll: v.ppu.reg_scroll.spec_write(data), ..v.ppu },
                ..v
            },
            Ok(()),
        )
    } else if addr == OAMADDR {
        (ConsoleView { ppu: PpuView { reg_oam_addr: data, ..v.ppu }, ..v }, Ok(()))
    } else if addr == OAMDATA {
        (
            ConsoleView {
                ppu: PpuView {
                    oam: v.ppu.oam.update(v.ppu.reg_oam_addr as int, data),
                    reg_oam_addr: ((v.ppu.reg_oam_addr + 1) % 256) as u8,
                    ..v.ppu
                },
                ..v
            },
            Ok(()),
        )
    } else if addr == PPUADDR {
        (
            ConsoleView {
                ppu: PpuView {
                    reg_addr: addr_after_write(v.ppu.reg_addr, v.ppu.addr_latch, data),
                    addr_latch: !v.ppu.addr_latch,
                    ..v.ppu
                },
                ..v
            },
            Ok(()),
        )
    } else if addr == PPUDATA {
        let (written, res) = busppu::spec_write(v, v.ppu.reg_addr, data);
        if res is Err {
            (written, res)
        } else {
            (
                ConsoleView {
                    ppu: PpuView { reg_addr: addr_after_access(written.ppu), ..written.ppu },
                    ..written
                },
                Ok(()),
            )
        }
    } else if addr == OAMDMA {
        spec_oam_dma(
            ConsoleView { cpu: Cpu { cycles: OAM_DMA_CYCLES, ..v.cpu }, ..v },
            (data * 256) as u16,
            256,
        )
    } else {
        (v, Err(NesError::BusError))
    }
}

/// A transfer that has failed stays failed: the bytes after the failure
/// are not copied.
pub proof fn lemma_oam_dma_stops(v: ConsoleView, page: u16, k: nat, n: nat)
    requires
        k <= n,
        spec_oam_dma(v, page, k).1 is Err,
    ensures
        spec_oam_dma(v, page, n) == spec_oam_dma(v, page, k),
    decreases n,
{
    if k < n {
        lemma_oam_dma_stops(v, page, k, (n - 1) as nat);
    }
}

/// Reads the picture unit's register at `addr`.
pub fn read_ppu_reg(c: &mut Console, addr: u16) -> (res: Result<u8, NesError>)
    ensures
        (final(c)@, res) == spec_read_ppu_reg(old(c)@, addr),
        final(c).cpu == old(c).cpu,
        final(c)@.apu == old(c)@.apu,
{
    if addr == PPUSTATUS {
        let data: u8 = c.ppu.reg_status.get_bits();
        c.ppu.reg_status.set_vblank(false);
        c.ppu.addr_latch = true;
        c.ppu.reg_scroll.latch = false;
        Ok(data)
    } else if addr == OAMDATA {
        Ok(c.ppu.oam[c.ppu.reg_oam_addr as usize])
    } else if addr == PPUDATA {
        let maddr: u16 = c.ppu.reg_addr;
        c.ppu.reg_addr = c.ppu.reg_addr.wrapping_add(c.ppu.reg_control.vram_increment());
        if maddr <= 0x2fff {
            let output: u8 = c.ppu.reg_data;
            let fresh: u8 = busppu::read(c, maddr)?;
            c.ppu.reg_data = fresh;
            Ok(output)
        } else if 0x3f00 <= maddr && maddr <= 0x3fff {
            busppu::read(c, maddr)
        } else {
            Err(NesError::BusError)
        }
    } else if addr == PPUCTRL || addr == PPUMASK || addr == PPUSCROLL || addr == PPUADDR || addr
        == OAMADDR || addr == OAMDMA {
        Ok(0)
    } else {
        Err(NesError::BusError)
    }
}

/// Copies one byte of the processor's memory into sprite memory.
fn oam_dma_step(c: &mut Console, addr: u16) -> (res: Result<(), NesError>)
    ensures
        (final(c)@, res) == spec_oam_dma_step(old(c)@, addr),
        final(c).cpu == old(c).cpu,
{
    let byte: u8 = buscpu::read(c, addr)?;
    c.ppu.oam[c.ppu.reg_oam_addr as usize] = byte;
    c.ppu.reg_oam_addr = c.ppu.reg_oam_addr.wrapping_add(1);
    Ok(())
}

/// Copies the processor's page `data` into sprite memory.
fn oam_dma(c: &mut Console, data: u8) -> (res: Result<(), NesError>)
    ensures
        (final(c)@, res) == spec_oam_dma(
            ConsoleView { cpu: Cpu { cycles: OAM_DMA_CYCLES, ..old(c).cpu }, ..old(c)@ },
            (data * 256) as u16,
            256,
        ),
        final(c).cpu == (Cpu { cycles: OAM_DMA_CYCLES, ..old(c).cpu }),
{
    let page: u16 = (data as u16) * 256;
    c.cpu.cycles = OAM_DMA_CYCLES;
    let ghost start = c@;
    let mut i: u16 = 0;
    while i < 256
        invariant
            i <= 256,
            page == data * 256,
            start == (ConsoleView {
                cpu: Cpu { cycles: OAM_DMA_CYCLES, ..old(c).cpu },
                ..old(c)@
            }),
            (c@, Ok::<(), NesError>(())) == spec_oam_dma(start, page, i as nat),
            c.cpu == start.cpu,
        decreases 256 - i,
    {
        let ghost before = c@;
        let step = oam_dma_step(c, page + i);
        assert(spec_oam_dma(start, page, (i + 1) as nat) == spec_oam_dma_step(
            before,
            (page + i) as u16,
        ));
        if let Err(e) = step {
            proof {
                lemma_oam_dma_stops(start, page, (i + 1) as nat, 256);
            }
            return Err(e);
        }
        i = i + 1;
    }
    Ok(())
}

/// Writes `data` to the picture unit's register at `addr`.
pub fn write_ppu_reg(c: &mut Console, addr: u16, data: u8) -> (res: Result<(), NesError>)
    ensures
        (final(c)@, res) == spec_write_ppu_reg(old(c)@, addr, data),
        final(c).cpu == (Cpu { cycles: final(c).cpu.cycles, ..old(c).cpu }),
{
    if addr == PPUSTATUS {
        Ok(())
    } else if addr == PPUCTRL {
        c.ppu.reg_control.update(data);
        Ok(())
    } else if addr == PPUMASK {
        c.ppu.reg_mask.update(data);
        Ok(())
    } else if addr == PPUSCROLL {
        c.ppu.reg_scroll.write(data);
        Ok(())
    } else if addr == OAMADDR {
        c.ppu.reg_oam_addr = data;
        Ok(())
    } else if addr == OAMDATA {
        c.ppu.oam[c.ppu.reg_oam_addr as usize] = data;
        c.ppu.reg_oam_addr = c.ppu.reg_oam_addr.wrapping_add(1);
        Ok(())
    } else if addr == PPUADDR {
        if c.ppu.addr_latch {
            c.ppu.reg_addr = ((c.ppu.reg_addr & 0x00ff) | (data as u16) << 8) & 0x3fff;
        } else {
            c.ppu.reg_addr = ((c.ppu.reg_addr & 0xff00) | data as u16) & 0x3fff;
        }
        c.ppu.addr_latch = !c.ppu.addr_latch;
        Ok(())
    } else if addr == PPUDATA {
        let target: u16 = c.ppu.reg_addr;
        busppu::write(c, target, data)?;
        c.ppu.reg_addr = c.ppu.reg_addr.wrapping_add(c.ppu.reg_control.vram_increment());
        Ok(())
    } else if addr == OAMDMA {
        oam_dma(c, data)
    } else {
        Err(NesError::BusError)
    }
}

/// Number of dots on a scanline.
pub const DOTS_PER_LINE: u16 = 341;

/// Last scanline of a frame; the first is -1.
pub const LAST_LINE: i16 = 260;

/// Scanline on whose second dot the vertical blank starts.
pub const VBLANK_LINE: i16 = 241;

/// Whether the beam is on the dot at which the vertical blank starts.
pub open spec fn frame_starts(ppu: PpuView) -> bool {
    ppu.scan_line == VBLANK_LINE && ppu.scan_cycle == 1
}

/// Whether sprite 0 counts as hit at dot `cycle` of the current scanline:
/// the scanline is the sprite's first, the dot is not left of the sprite,
/// and sprites are shown.
pub open spec fn spec_is_sprite_0_hit(ppu: PpuView, cycle: u16) -> bool {
    ppu.oam[0] as int == ppu.scan_line as int && ppu.oam[3] <= cycle
        && ppu.reg_mask.spec_render_spr_enabled()
}

/// The picture unit as the vertical blank starts: the vertical blank bit
/// is set and the sprite 0 hit bit cleared.
pub open spec fn spec_enter_vblank(ppu: PpuView) -> PpuView {
    PpuView {
        reg_status: ppu.reg_status.spec_set_vblank(true).spec_set_sprite_0_hit(false),
        ..ppu
    }
}

/// The picture unit after the beam moved on by one dot. At the end of a
/// scanline the sprite 0 hit is taken down and the next scanline starts; at
/// the end of the last scanline the beam returns to the pre-render line and
/// the sprite 0 hit and vertical blank bits are cleared.
pub open spec fn spec_advance(ppu: PpuView) -> PpuView {
    if ppu.scan_cycle >= DOTS_PER_LINE - 1 {
        let past = if ppu.scan_cycle == 0xffff {
            0xffffu16
        } else {
            (ppu.scan_cycle + 1) as u16
        };
        let status = if spec_is_sprite_0_hit(ppu, past) {
            ppu.reg_status.spec_set_sprite_0_hit(true)
        } else {
            ppu.reg_status
        };
        if ppu.scan_line >= LAST_LINE {
            PpuView {
                scan_cycle: 0,
                scan_line: -1i16,
                reg_status: status.spec_set_sprite_0_hit(false).spec_set_vblank(false),
                ..ppu
            }
        } else {
            PpuView {
                scan_cycle: 0,
                scan_line: (ppu.scan_line + 1) as i16,
                reg_status: status,
                ..ppu
            }
        }
    } else {
        PpuView { scan_cycle: (ppu.scan_cycle + 1) as u16, ..ppu }
    }
}

/// The picture unit after one dot, the interrupt aside.
pub open spec fn spec_dot(ppu: PpuView) -> PpuView {
    if frame_starts(ppu) {
        spec_advance(spec_enter_vblank(ppu))
    } else {
        spec_advance(ppu)
    }
}

/// The console as a dot begins: on the dot at which the vertical blank
/// starts the status bits are set. This is the state that the frame is
/// drawn from.
pub open spec fn spec_begin_dot(v: ConsoleView) -> ConsoleView {
    if frame_starts(v.ppu) {
        ConsoleView { ppu: spec_enter_vblank(v.ppu), ..v }
    } else {
        v
    }
}

/// The console after the rest of a dot: where the vertical blank started
/// on it and the control register asks for it, the processor is
/// interrupted; then the beam moves on. An interrupt that fails leaves the
/// beam where it is.
pub open spec fn spec_end_dot(v: ConsoleView, frame: bool) -> (ConsoleView, Result<
    (),
    NesError,
>) {
    let (interrupted, res) = if frame && v.ppu.reg_control.spec_is_nmi_enabled() {
        cpu::spec_nmi(v)
    } else {
        (v, Ok(()))
    };
    match res {
        Ok(_) => (ConsoleView { ppu: spec_advance(interrupted.ppu), ..interrupted }, Ok(())),
        Err(e) => (interrupted, Err(e)),
    }
}

/// The console after one dot of the picture unit without a screen, and
/// whether a frame is due: on the dot at which the vertical blank starts
/// the status bits are set and the frame is due; then the processor is
/// interrupted where the control register asks for it, and the beam moves
/// on.
pub open spec fn spec_clock(v: ConsoleView) -> (ConsoleView, Result<bool, NesError>) {
    let (after, res) = spec_end_dot(spec_begin_dot(v), frame_starts(v.ppu));
    match res {
        Ok(_) => (after, Ok(frame_starts(v.ppu))),
        Err(e) => (after, Err(e)),
    }
}

/// Dots in a frame: 262 scanlines of 341.
pub const DOTS_PER_FRAME: u32 = 89342;

impl PpuView {
    /// Whether the beam is on the screen: a scanline from -1 to 260 and a
    /// dot from 0 to 340.
    pub open spec fn beam_valid(self) -> bool {
        -1 <= self.scan_line <= LAST_LINE && self.scan_cycle < DOTS_PER_LINE
    }

    /// The number of the beam's dot within its frame, the pre-render line
    /// first.
    pub open spec fn dot_number(self) -> int {
        (self.scan_line + 1) * DOTS_PER_LINE + self.scan_cycle
    }
}

/// The picture unit after `n` dots.
pub open spec fn spec_dots(ppu: PpuView, n: nat) -> PpuView
    decreases n,
{
    if n == 0 {
        ppu
    } else {
        spec_dot(spec_dots(ppu, (n - 1) as nat))
    }
}

/// The number of the dot at which the vertical blank starts.
pub open spec fn frame_dot() -> int {
    (VBLANK_LINE + 1) * DOTS_PER_LINE + 1
}

/// A dot moves the beam to the next dot of the frame, and from the last
/// dot to the first. The vertical blank starts on one dot of the frame.
pub proof fn lemma_dot_advances(ppu: PpuView)
    requires
        ppu.beam_valid(),
    ensures
        spec_dot(ppu).beam_valid(),
        spec_dot(ppu).dot_number() == (ppu.dot_number() + 1) % (DOTS_PER_FRAME as int),
        0 <= ppu.dot_number() < DOTS_PER_FRAME,
        frame_starts(ppu) <==> ppu.dot_number() == frame_dot(),
{
}

/// After `n` dots the beam is `n` dots further in the frame, counted
/// modulo the frame's length.
pub proof fn lemma_dots_advance(ppu: PpuView, n: nat)
    requires
        ppu.beam_valid(),
    ensures
        spec_dots(ppu, n).beam_valid(),
        spec_dots(ppu, n).dot_number() == (ppu.dot_number() + n) % (DOTS_PER_FRAME as int),
    decreases n,
{
    lemma_dot_advances(ppu);
    if n > 0 {
        lemma_dots_advance(ppu, (n - 1) as nat);
        lemma_dot_advances(spec_dots(ppu, (n - 1) as nat));
    }
}

/// How many dots the beam is away from the dot at which the vertical blank
/// starts.
pub open spec fn dots_to_frame(ppu: PpuView) -> nat {
    if ppu.dot_number() <= frame_dot() {
        (frame_dot() - ppu.dot_number()) as nat
    } else {
        (frame_dot() + DOTS_PER_FRAME - ppu.dot_number()) as nat
    }
}

/// Frame cadence: of the next 89342 dots, which is 262 scanlines of 341
/// dots, the one that starts the vertical blank is the one that is
/// `dots_to_frame` away, and no other.
pub proof fn lemma_frame_dot(ppu: PpuView, j: nat)
    requires
        ppu.beam_valid(),
        j < DOTS_PER_FRAME,
    ensures
        dots_to_frame(ppu) < DOTS_PER_FRAME,
        frame_starts(spec_dots(ppu, j)) <==> j == dots_to_frame(ppu),
{
    lemma_dot_advances(ppu);
    lemma_dots_advance(ppu, j);
    lemma_dot_advances(spec_dots(ppu, j));
}

/// Frame cadence: among any 89342 dots in a row exactly one starts the
/// vertical blank, and so exactly one frame is drawn.
pub proof fn lemma_one_frame_per_cycle(ppu: PpuView)
    requires
        ppu.beam_valid(),
    ensures
        exists|k: nat|
            k < DOTS_PER_FRAME && #[trigger] frame_starts(spec_dots(ppu, k)) && forall|j: nat|
                j < DOTS_PER_FRAME && #[trigger] frame_starts(spec_dots(ppu, j)) ==> j == k,
{
    let k = dots_to_frame(ppu);
    lemma_frame_dot(ppu, 0);
    lemma_frame_dot(ppu, k);
    assert forall|j: nat| j < DOTS_PER_FRAME && #[trigger] frame_starts(spec_dots(ppu, j)) implies j
        == k by {
        lemma_frame_dot(ppu, j);
    }
}

/// The vertical blank bit is set by the dot at which the vertical blank
/// starts, cleared by the dot that takes the beam back to the pre-render
/// line, and left alone by every other dot.
pub proof fn lemma_vblank_bit(ppu: PpuView)
    requires
        ppu.beam_valid(),
    ensures
        frame_starts(ppu) ==> spec_dot(ppu).reg_status.spec_is_vblank(),
        ppu.scan_line == LAST_LINE && ppu.scan_cycle == DOTS_PER_LINE - 1 ==> spec_dot(
            ppu,
        ).scan_line == -1 && !spec_dot(ppu).reg_status.spec_is_vblank(),
        !frame_starts(ppu) && !(ppu.scan_line == LAST_LINE && ppu.scan_cycle == DOTS_PER_LINE - 1)
            ==> spec_dot(ppu).reg_status.spec_is_vblank() == ppu.reg_status.spec_is_vblank(),
{
    regs::lemma_status_bits_independent(ppu.reg_status, true);
    regs::lemma_status_bits_independent(ppu.reg_status, false);
    regs::lemma_status_bits_independent(ppu.reg_status.spec_set_vblank(true), false);
    regs::lemma_status_bits_independent(ppu.reg_status.spec_set_sprite_0_hit(true), false);
    regs::lemma_status_bits_independent(
        ppu.reg_status.spec_set_sprite_0_hit(true).spec_set_sprite_0_hit(false),
        false,
    );
    regs::lemma_status_bits_independent(ppu.reg_status.spec_set_sprite_0_hit(false), false);
}

/// Whether the beam is at the same place in two states of the picture
/// unit.
pub open spec fn same_beam(before: PpuView, after: PpuView) -> bool {
    before.scan_line == after.scan_line && before.scan_cycle == after.scan_cycle
}

/// Whether the beam, on its way through the frames, is `dots` dots further
/// in `after` than in `before`.
pub open spec fn beam_moved_by(before: PpuView, after: PpuView, dots: nat) -> bool {
    after.beam_valid() && after.dot_number() == (before.dot_number() + dots) % (
    DOTS_PER_FRAME as int)
}

/// A beam that moved and moved again has moved by the sum.
pub proof fn lemma_beam_moves_on(
    before: PpuView,
    between: PpuView,
    after: PpuView,
    first: nat,
    second: nat,
)
    requires
        before.beam_valid(),
        beam_moved_by(before, between, first),
        beam_moved_by(between, after, second),
    ensures
        beam_moved_by(before, after, first + second),
{
}

/// A beam that is where it was has moved by nothing.
pub proof fn lemma_beam_at_rest(before: PpuView, after: PpuView)
    requires
        before.beam_valid(),
        same_beam(before, after),
    ensures
        beam_moved_by(before, after, 0),
{
}

/// A dot that is begun and ended moves the picture unit as `spec_dot`
/// says: the interrupt leaves the picture unit alone. The processor is
/// touched by the interrupt alone.
pub proof fn lemma_end_is_dot(v: ConsoleView)
    ensures
        spec_end_dot(spec_begin_dot(v), frame_starts(v.ppu)).1 is Ok ==> spec_end_dot(
            spec_begin_dot(v),
            frame_starts(v.ppu),
        ).0.ppu == spec_dot(v.ppu),
        !(frame_starts(v.ppu) && v.ppu.reg_control.spec_is_nmi_enabled()) ==> spec_end_dot(
            spec_begin_dot(v),
            frame_starts(v.ppu),
        ).0.cpu == v.cpu,
{
    reveal(buscpu::spec_read);
}

/// A dot of the whole console moves the picture unit as `spec_dot` says
/// and reports a frame on the dot at which the vertical blank starts: the
/// interrupt leaves the picture unit alone.
pub proof fn lemma_clock_is_dot(v: ConsoleView)
    ensures
        spec_clock(v).1 matches Ok(frame) ==> frame == frame_starts(v.ppu) && spec_clock(v).0.ppu
            == spec_dot(v.ppu),
{
    lemma_end_is_dot(v);
}

/// A dot of the picture unit leaves the B flag of the processor clear where
/// it found it clear: the interrupt that it may raise clears the flag.
pub proof fn lemma_clock_keeps_break_clear(v: ConsoleView)
    ensures
        cpu::alu::keeps_break_clear(v.cpu, spec_clock(v).0.cpu),
        cpu::alu::keeps_break_clear(
            v.cpu,
            spec_end_dot(spec_begin_dot(v), frame_starts(v.ppu)).0.cpu,
        ),
{
    cpu::laws::lemma_interrupts_keep_break_clear(
        ConsoleView { ppu: spec_enter_vblank(v.ppu), ..v },
        cpu::NMI_VECTOR,
    );
}

/// Whether sprite 0 counts as hit at dot `cycle` of the current scanline.
pub fn is_sprite_0_hit(ppu: &Ppu, cycle: u16) -> (hit: bool)
    ensures
        hit == spec_is_sprite_0_hit(ppu@, cycle),
{
    let y: u8 = ppu.oam[0];
    let x: u8 = ppu.oam[3];
    ppu.scan_line >= 0 && y as i16 == ppu.scan_line && x as u16 <= cycle
        && ppu.reg_mask.render_spr_enabled()
}

impl Ppu {
    /// Moves the beam on by one dot.
    pub fn advance(&mut self)
        ensures
            final(self)@ == spec_advance(old(self)@),
    {
        if self.scan_cycle >= DOTS_PER_LINE - 1 {
            let past: u16 = if self.scan_cycle == 0xffff {
                0xffff
            } else {
                self.scan_cycle + 1
            };
            if is_sprite_0_hit(self, past) {
                self.reg_status.set_sprite_0_hit(true);
            }
            self.scan_cycle = 0;
            if self.scan_line >= LAST_LINE {
                self.scan_line = -1;
                self.reg_status.set_sprite_0_hit(false);
                self.reg_status.set_vblank(false);
            } else {
                self.scan_line = self.scan_line + 1;
            }
        } else {
            self.scan_cycle = self.scan_cycle + 1;
        }
    }
}

/// Begins a dot: sets the status bits where the vertical blank starts on
/// it. Returns whether it does, which is when the frame is to be drawn,
/// from the console as this leaves it.
pub fn begin_dot(c: &mut Console) -> (frame: bool)
    ensures
        final(c)@ == spec_begin_dot(old(c)@),
        frame == frame_starts(old(c)@.ppu),
        final(c).cpu == old(c).cpu,
{
    let frame = c.ppu.scan_line == VBLANK_LINE && c.ppu.scan_cycle == 1;
    if frame {
        c.ppu.reg_status.set_vblank(true);
        c.ppu.reg_status.set_sprite_0_hit(false);
    }
    frame
}

/// Ends a dot: interrupts the processor where the vertical blank started
/// on the dot and the control register asks for it, then moves the beam
/// on.
pub fn end_dot(c: &mut Console, frame: bool) -> (res: Result<(), NesError>)
    ensures
        (final(c)@, res) == spec_end_dot(old(c)@, frame),
        cpu::alu::keeps_break_clear(old(c).cpu, final(c).cpu),
        final(c)@.apu == old(c)@.apu,
{
    if frame && c.ppu.reg_control.is_nmi_enabled() {
        cpu::nmi(c)?;
    }
    c.ppu.advance();
    Ok(())
}

/// Advances the picture unit by one dot where there is no screen to draw
/// on. Returns whether the vertical blank started on this dot.
pub fn clock(c: &mut Console) -> (res: Result<bool, NesError>)
    ensures
        (final(c)@, res) == spec_clock(old(c)@),
        cpu::alu::keeps_break_clear(old(c).cpu, final(c).cpu),
        final(c)@.apu == old(c)@.apu,
{
    let frame = begin_dot(c);
    end_dot(c, frame)?;
    Ok(frame)
}

/// A colour channel with emphasis: a tenth more, rounded down, and at most
/// 255.
pub open spec fn brighter(value: u8) -> u8 {
    if value * 11 / 10 > 255 {
        255
    } else {
        (value * 11 / 10) as u8
    }
}

/// A colour channel next to an emphasised one: a tenth less, rounded down.
pub open spec fn dimmer(value: u8) -> u8 {
    (value * 9 / 10) as u8
}

/// A colour with one channel emphasised: red for `channel` 0, green for 1,
/// blue for 2.
pub open spec fn emphasised(rgb: (u8, u8, u8), channel: int) -> (u8, u8, u8) {
    (
        if channel == 0 {
            brighter(rgb.0)
        } else {
            dimmer(rgb.0)
        },
        if channel == 1 {
            brighter(rgb.1)
        } else {
            dimmer(rgb.1)
        },
        if channel == 2 {
            brighter(rgb.2)
        } else {
            dimmer(rgb.2)
        },
    )
}

/// A colour as the mask register's emphasis bits tint it. The bits are
/// applied one after the other: bit 5 emphasises the blue channel, bit 6
/// the green, bit 7 the red.
pub open spec fn spec_emphasis(mask: RegMask, rgb: (u8, u8, u8)) -> (u8, u8, u8) {
    let first = if mask.spec_emphasis_r() {
        emphasised(rgb, 2)
    } else {
        rgb
    };
    let second = if mask.spec_emphasis_g() {
        emphasised(first, 1)
    } else {
        first
    };
    if mask.spec_emphasis_b() {
        emphasised(second, 0)
    } else {
        second
    }
}

/// Computes `brighter`.
fn brighten(value: u8) -> (out: u8)
    ensures
        out == brighter(value),
{
    let scaled: u16 = value as u16 * 11 / 10;
    if scaled > 255 {
        255
    } else {
        scaled as u8
    }
}

/// Computes `dimmer`.
fn dim(value: u8) -> (out: u8)
    ensures
        out == dimmer(value),
{
    (value as u16 * 9 / 10) as u8
}

/// Tints a colour as the mask register's emphasis bits say.
pub fn emphasis(rmask: &RegMask, rgb: &mut (u8, u8, u8))
    ensures
        *final(rgb) == spec_emphasis(*rmask, *old(rgb)),
{
    if rmask.emphasis_r() {
        rgb.2 = brighten(rgb.2);
        rgb.1 = dim(rgb.1);
        rgb.0 = dim(rgb.0);
    }
    if rmask.emphasis_g() {
        rgb.2 = dim(rgb.2);
        rgb.1 = brighten(rgb.1);
        rgb.0 = dim(rgb.0);
    }
    if rmask.emphasis_b() {
        rgb.2 = dim(rgb.2);
        rgb.1 = dim(rgb.1);
        rgb.0 = brighten(rgb.0);
    }
}

} // verus!
