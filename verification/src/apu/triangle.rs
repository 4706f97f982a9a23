use vstd::prelude::*;
use crate::apu::pulse::{frequency_of, get_frequency, with_period_bits};

verus! {

/// The triangle channel.
#[derive(Clone, Copy, Debug, PartialEq, Eq, Structural)]
pub struct TriangleChannel {
    /// Timer period, eleven bits.
    pub period: u16,
    pub muted: bool,
    pub enabled: bool,
}

impl TriangleChannel {
    pub open spec fn spec_set_period(self, bits: u8, high: bool) -> TriangleChannel {
        TriangleChannel { period: with_period_bits(self.period, bits, high), ..self }
    }

    /// A disabled channel.
    pub fn new() -> (t: TriangleChannel)
        ensures
            t == (TriangleChannel { period: 0, muted: false, enabled: false }),
    {
        TriangleChannel { period: 0, muted: false, enabled: false }
    }

    /// Sets the low byte of the timer period, or its three high bits.
    pub fn set_period(&mut self, bits: u8, high: bool)
        ensures
            *final(self) == old(self).spec_set_period(bits, high),
    {
        if !high {
            self.period = (self.period & 0xff00) | bits as u16;
        } else {
            self.period = (self.period & 0x00ff) | (((bits & 0b111) as u16) << 8);
        }
    }

    /// The frequency in hertz that the timer period stands for.
    pub fn get_frequency(&self) -> (freq: u16)
        ensures
            freq == frequency_of(self.period),
            100 <= freq <= 2000,
    {
        get_frequency(self.period)
    }
}

impl Default for TriangleChannel {
    fn default() -> (t: TriangleChannel)
        ensures
            t == (TriangleChannel { period: 0, muted: false, enabled: false }),
    {
        TriangleChannel::new()
    }
}

} // verus!
