use vstd::prelude::*;

verus! {

/// PPUCTRL, written at 0x2000. Bits 0-1 select the base nametable, bit 2
/// the address increment, bit 3 the sprite pattern table, bit 4 the
/// background pattern table, bit 5 the sprite height, bit 7 the interrupt
/// at the start of the vertical blank.
#[derive(Clone, Copy, Debug, PartialEq, Eq, Structural)]
pub struct RegControl {
    pub bits: u8,
}

impl RegControl {
    pub open spec fn spec_is_nmi_enabled(&self) -> bool {
        self.bits & 0x80 != 0
    }

    pub open spec fn spec_is_inc_mode(&self) -> bool {
        self.bits & 0x04 != 0
    }

    pub open spec fn spec_get_bg(&self) -> bool {
        self.bits & 0x10 != 0
    }

    pub open spec fn spec_get_spr(&self) -> bool {
        self.bits & 0x08 != 0
    }

    pub open spec fn spec_spr_height_16(&self) -> bool {
        self.bits & 0x20 != 0
    }

    pub open spec fn spec_nametable_offset(&self) -> u16 {
        ((self.bits % 4) * 0x400) as u16
    }

    pub open spec fn spec_vram_increment(&self) -> u16 {
        if self.spec_is_inc_mode() {
            32
        } else {
            1
        }
    }

    /// Replaces the register's value.
    pub fn update(&mut self, data: u8)
        ensures
            final(self).bits == data,
    {
        self.bits = data;
    }

    /// Whether the start of the vertical blank raises an interrupt.
    #[verifier::when_used_as_spec(spec_is_nmi_enabled)]
    pub fn is_nmi_enabled(&self) -> (b: bool)
        ensures
            b == self.spec_is_nmi_enabled(),
    {
        self.bits & 0x80 != 0
    }

    /// Whether an access to the data register moves the address by 32.
    #[verifier::when_used_as_spec(spec_is_inc_mode)]
    pub fn is_inc_mode(&self) -> (b: bool)
        ensures
            b == self.spec_is_inc_mode(),
    {
        self.bits & 0x04 != 0
    }

    /// Whether the background uses the pattern table at 0x1000.
    #[verifier::when_used_as_spec(spec_get_bg)]
    pub fn get_bg(&self) -> (b: bool)
        ensures
            b == self.spec_get_bg(),
    {
        self.bits & 0x10 != 0
    }

    /// Whether 8x8 sprites use the pattern table at 0x1000.
    #[verifier::when_used_as_spec(spec_get_spr)]
    pub fn get_spr(&self) -> (b: bool)
        ensures
            b == self.spec_get_spr(),
    {
        self.bits & 0x08 != 0
    }

    /// Whether sprites are 16 pixels high.
    #[verifier::when_used_as_spec(spec_spr_height_16)]
    pub fn spr_height_16(&self) -> (b: bool)
        ensures
            b == self.spec_spr_height_16(),
    {
        self.bits & 0x20 != 0
    }

    /// Offset of the base nametable from 0x2000: 0x000, 0x400, 0x800 or
    /// 0xC00.
    #[verifier::when_used_as_spec(spec_nametable_offset)]
    pub fn nametable_offset(&self) -> (offset: u16)
        ensures
            offset == self.spec_nametable_offset(),
            offset == 0x000 || offset == 0x400 || offset == 0x800 || offset == 0xc00,
    {
        ((self.bits % 4) as u16) * 0x400
    }

    /// By how much an access to the data register moves the address: 1 or 32.
    #[verifier::when_used_as_spec(spec_vram_increment)]
    pub fn vram_increment(&self) -> (step: u16)
        ensures
            step == self.spec_vram_increment(),
    {
        if self.is_inc_mode() {
            32
        } else {
            1
        }
    }
}

impl Default for RegControl {
    fn default() -> (r: RegControl)
        ensures
            r.bits == 0,
    {
        RegControl { bits: 0 }
    }
}

/// PPUMASK, written at 0x2001. Bit 0 is greyscale, bits 1-2 enable the
/// left column, bit 3 the background, bit 4 the sprites, bits 5-7 emphasise
/// red, green and blue.
#[derive(Clone, Copy, Debug, PartialEq, Eq, Structural)]
pub struct RegMask {
    pub bits: u8,
}

impl RegMask {
    pub open spec fn spec_grayscale(&self) -> bool {
        self.bits & 0x01 != 0
    }

    pub open spec fn spec_render_spr_enabled(&self) -> bool {
        self.bits & 0x10 != 0
    }

    pub open spec fn spec_emphasis_r(&self) -> bool {
        self.bits & 0x20 != 0
    }

    pub open spec fn spec_emphasis_g(&self) -> bool {
        self.bits & 0x40 != 0
    }

    pub open spec fn spec_emphasis_b(&self) -> bool {
        self.bits & 0x80 != 0
    }

    /// Replaces the register's value.
    pub fn update(&mut self, data: u8)
        ensures
            final(self).bits == data,
    {
        self.bits = data;
    }

    #[verifier::when_used_as_spec(spec_grayscale)]
    pub fn grayscale(&self) -> (b: bool)
        ensures
            b == self.spec_grayscale(),
    {
        self.bits & 0x01 != 0
    }

    #[verifier::when_used_as_spec(spec_render_spr_enabled)]
    pub fn render_spr_enabled(&self) -> (b: bool)
        ensures
            b == self.spec_render_spr_enabled(),
    {
        self.bits & 0x10 != 0
    }

    #[verifier::when_used_as_spec(spec_emphasis_r)]
    pub fn emphasis_r(&self) -> (b: bool)
        ensures
            b == self.spec_emphasis_r(),
    {
        self.bits & 0x20 != 0
    }

    #[verifier::when_used_as_spec(spec_emphasis_g)]
    pub fn emphasis_g(&self) -> (b: bool)
        ensures
            b == self.spec_emphasis_g(),
    {
        self.bits & 0x40 != 0
    }

    #[verifier::when_used_as_spec(spec_emphasis_b)]
    pub fn emphasis_b(&self) -> (b: bool)
        ensures
            b == self.spec_emphasis_b(),
    {
        self.bits & 0x80 != 0
    }
}

impl Default for RegMask {
    fn default() -> (r: RegMask)
        ensures
            r.bits == 0,
    {
        RegMask { bits: 0 }
    }
}

/// Bit of the status register that reports a sprite overflow.
pub const STATUS_OVERFLOW: u8 = 0x20;

/// Bit of the status register that reports a sprite 0 hit.
pub const STATUS_SPRITE_0_HIT: u8 = 0x40;

/// Bit of the status register that reports the vertical blank.
pub const STATUS_VBLANK: u8 = 0x80;

/// `bits` with the bits of `mask` set or cleared.
pub open spec fn with_bits(bits: u8, mask: u8, val: bool) -> u8 {
    if val {
        bits | mask
    } else {
        bits & !mask
    }
}

/// PPUSTATUS, read at 0x2002.
#[derive(Clone, Copy, Debug, PartialEq, Eq, Structural)]
pub struct RegStatus {
    pub bits: u8,
}

impl RegStatus {
    pub open spec fn spec_get_bits(&self) -> u8 {
        self.bits
    }

    pub open spec fn spec_is_vblank(&self) -> bool {
        self.bits & STATUS_VBLANK != 0
    }

    pub open spec fn spec_set_vblank(self, val: bool) -> RegStatus {
        RegStatus { bits: with_bits(self.bits, STATUS_VBLANK, val) }
    }

    pub open spec fn spec_set_sprite_0_hit(self, val: bool) -> RegStatus {
        RegStatus { bits: with_bits(self.bits, STATUS_SPRITE_0_HIT, val) }
    }

    /// A status register with no bit set.
    pub fn new() -> (r: RegStatus)
        ensures
            r.bits == 0,
    {
        RegStatus { bits: 0 }
    }

    #[verifier::when_used_as_spec(spec_get_bits)]
    pub fn get_bits(&self) -> (bits: u8)
        ensures
            bits == self.bits,
    {
        self.bits
    }

    /// Sets or clears the vertical blank bit.
    pub fn set_vblank(&mut self, val: bool)
        ensures
            *final(self) == old(self).spec_set_vblank(val),
    {
        if val {
            self.bits = self.bits | STATUS_VBLANK;
        } else {
            self.bits = self.bits & !STATUS_VBLANK;
        }
    }

    /// Sets or clears the sprite 0 hit bit.
    pub fn set_sprite_0_hit(&mut self, val: bool)
        ensures
            *final(self) == old(self).spec_set_sprite_0_hit(val),
    {
        if val {
            self.bits = self.bits | STATUS_SPRITE_0_HIT;
        } else {
            self.bits = self.bits & !STATUS_SPRITE_0_HIT;
        }
    }
}

impl Default for RegStatus {
    fn default() -> (r: RegStatus)
        ensures
            r.bits == 0,
    {
        RegStatus { bits: 0 }
    }
}

/// PPUSCROLL, written twice at 0x2005: first the horizontal scroll, then
/// the vertical.
#[derive(Clone, Copy, Debug, PartialEq, Eq, Structural)]
pub struct RegScroll {
    pub scroll_x: u8,
    pub scroll_y: u8,
    /// Set when the next write is the vertical scroll.
    pub latch: bool,
}

impl RegScroll {
    pub open spec fn spec_write(self, data: u8) -> RegScroll {
        if !self.latch {
            RegScroll { scroll_x: data, latch: true, ..self }
        } else {
            RegScroll { scroll_y: data, latch: false, ..self }
        }
    }

    /// Stores the horizontal or the vertical scroll, in turn.
    pub fn write(&mut self, data: u8)
        ensures
            *final(self) == old(self).spec_write(data),
    {
        if !self.latch {
            self.scroll_x = data;
        } else {
            self.scroll_y = data;
        }
        self.latch = !self.latch;
    }
}

impl Default for RegScroll {
    fn default() -> (r: RegScroll)
        ensures
            r == (RegScroll { scroll_x: 0, scroll_y: 0, latch: false }),
    {
        RegScroll { scroll_x: 0, scroll_y: 0, latch: false }
    }
}

/// The vertical blank bit reads back as it was set, and setting it leaves
/// the sprite 0 hit bit alone; likewise with the two exchanged.
pub proof fn lemma_status_bits_independent(status: RegStatus, val: bool)
    ensures
        status.spec_set_vblank(val).spec_is_vblank() == val,
        status.spec_set_vblank(val).bits & STATUS_SPRITE_0_HIT == status.bits
            & STATUS_SPRITE_0_HIT,
        status.spec_set_sprite_0_hit(val).spec_is_vblank() == status.spec_is_vblank(),
        (status.spec_set_sprite_0_hit(val).bits & STATUS_SPRITE_0_HIT != 0) == val,
{
    let b = status.bits;
    assert((b | 0x80u8) & 0x80u8 != 0 && (b & !0x80u8) & 0x80u8 == 0 && (b | 0x80u8) & 0x40u8 == b
        & 0x40u8 && (b & !0x80u8) & 0x40u8 == b & 0x40u8 && (b | 0x40u8) & 0x80u8 == b & 0x80u8
        && (b & !0x40u8) & 0x80u8 == b & 0x80u8 && (b | 0x40u8) & 0x40u8 != 0 && (b & !0x40u8)
        & 0x40u8 == 0) by (bit_vector);
}

} // verus!
