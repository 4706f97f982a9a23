use vstd::prelude::*;
use crate::apu::{Apu, ApuView};
use crate::buscpu::{BusCpu, BusCpuView, RAM_LEN};
use crate::busppu::{BusPpu, BusPpuView, PALETTE_LEN, VRAM_LEN};
use crate::cartridge::{Cartridge, CartridgeView};
use crate::cpu::Cpu;
use crate::joypad::Joypad;
use crate::memory::zeroed;
use crate::ppu::{Ppu, PpuView};

verus! {

/// The console without its screen and loudspeaker: processor, picture
/// unit, sound unit, the memories on the two buses, the cartridge and the
/// two controllers.
pub struct Console {
    pub cpu: Cpu,
    pub ppu: Ppu,
    pub apu: Apu,
    pub bus_cpu: BusCpu,
    pub bus_ppu: BusPpu,
    pub cartridge: Cartridge,
    pub joypad: (Joypad, Joypad),
}

/// The console with every memory as a sequence of bytes.
pub struct ConsoleView {
    pub cpu: Cpu,
    pub ppu: PpuView,
    pub apu: ApuView,
    pub bus_cpu: BusCpuView,
    pub bus_ppu: BusPpuView,
    pub cartridge: CartridgeView,
    pub joypad: (Joypad, Joypad),
}

impl View for Console {
    type V = ConsoleView;

    open spec fn view(&self) -> ConsoleView {
        ConsoleView {
            cpu: self.cpu,
            ppu: self.ppu@,
            apu: self.apu@,
            bus_cpu: self.bus_cpu@,
            bus_ppu: self.bus_ppu@,
            cartridge: self.cartridge@,
            joypad: self.joypad,
        }
    }
}

impl ConsoleView {
    /// A console that was just switched on, with nothing in its cartridge
    /// slot.
    pub open spec fn initial() -> ConsoleView {
        ConsoleView {
            cpu: Cpu::initial(),
            ppu: PpuView::initial(),
            apu: ApuView::initial(),
            bus_cpu: BusCpuView { ram: zeroed(RAM_LEN as nat) },
            bus_ppu: BusPpuView {
                vram: zeroed(VRAM_LEN as nat),
                palette: zeroed(PALETTE_LEN as nat),
            },
            cartridge: CartridgeView::empty(),
            joypad: (
                Joypad { status: 0, strobe: false, index: 0 },
                Joypad { status: 0, strobe: false, index: 0 },
            ),
        }
    }

    /// The sizes of the console's own memories.
    pub open spec fn wf(self) -> bool {
        &&& self.bus_cpu.ram.len() == RAM_LEN
        &&& self.bus_ppu.vram.len() == VRAM_LEN
        &&& self.bus_ppu.palette.len() == PALETTE_LEN
        &&& self.ppu.oam.len() == 256
    }
}

impl Console {
    /// A console that was just switched on, with nothing in its cartridge
    /// slot.
    pub fn new() -> (c: Console)
        ensures
            c@ == ConsoleView::initial(),
    {
        Console {
            cpu: Cpu::new(),
            ppu: Ppu::new(),
            apu: Apu::new(),
            bus_cpu: BusCpu::new(),
            bus_ppu: BusPpu::new(),
            cartridge: Cartridge::new(),
            joypad: (Joypad::new(), Joypad::new()),
        }
    }

    /// The view of a console always has memories of the right sizes.
    pub proof fn lemma_view_wf(&self)
        ensures
            self@.wf(),
    {
    }
}

} // verus!
