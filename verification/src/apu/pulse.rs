use vstd::prelude::*;
use crate::error::NesError;

verus! {

/// The share of a period for which a pulse wave is high.
#[derive(Clone, Copy, Debug, PartialEq, Eq, Structural)]
pub enum DutyCycle {
    /// 12.5 %
    Eighth,
    /// 25 %
    Quarter,
    /// 50 %
    Half,
    /// 75 %
    ThreeQuarters,
}

impl DutyCycle {
    /// The duty cycle that a two-bit selector names.
    pub open spec fn from_bits(bits: u8) -> DutyCycle {
        if bits == 0 {
            DutyCycle::Eighth
        } else if bits == 1 {
            DutyCycle::Quarter
        } else if bits == 2 {
            DutyCycle::Half
        } else {
            DutyCycle::ThreeQuarters
        }
    }

    pub open spec fn spec_eighths(self) -> u8 {
        match self {
            DutyCycle::Eighth => 1,
            DutyCycle::Quarter => 2,
            DutyCycle::Half => 4,
            DutyCycle::ThreeQuarters => 6,
        }
    }

    /// The duty cycle in eighths of a period: 1, 2, 4 or 6.
    #[verifier::when_used_as_spec(spec_eighths)]
    pub fn eighths(self) -> (n: u8)
        ensures
            n == self.spec_eighths(),
    {
        match self {
            DutyCycle::Eighth => 1,
            DutyCycle::Quarter => 2,
            DutyCycle::Half => 4,
            DutyCycle::ThreeQuarters => 6,
        }
    }
}

/// Highest volume level of a pulse channel; a level stands for that many
/// fifteenths of full volume.
pub const MAX_VOLUME: u8 = 15;

/// One of the two pulse channels.
#[derive(Clone, Copy, Debug, PartialEq, Eq, Structural)]
pub struct PulseChannel {
    /// Volume level, 0 to 15.
    pub volume: u8,
    pub duty_cycle: DutyCycle,
    /// Timer period, eleven bits.
    pub period: u16,
    pub enabled: bool,
}

/// The period after its low byte was set, or its three high bits.
pub open spec fn with_period_bits(period: u16, bits: u8, high: bool) -> u16 {
    if !high {
        (period & 0xff00) | bits as u16
    } else {
        (period & 0x00ff) | (((bits & 0b111) as u16) << 8)
    }
}

/// The frequency in hertz of a channel with timer period `period`:
/// 111860.8 / (period + 1), rounded down and kept within 100 and 2000.
pub open spec fn frequency_of(period: u16) -> int {
    let raw: int = 1118608int / (10 * (period + 1));
    if raw < 100 {
        100
    } else if raw > 2000 {
        2000
    } else {
        raw
    }
}

/// The frequency of a timer period is the one number within the limits
/// that fits between the bounds: a number that fits is the frequency.
pub proof fn lemma_frequency_is(period: u16, freq: int)
    requires
        100 <= freq <= 2000,
        freq > 100 ==> freq * (10 * (period + 1)) <= 1118608,
        freq < 2000 ==> 1118608 < (freq + 1) * (10 * (period + 1)),
    ensures
        frequency_of(period) == freq,
{
    let divisor = 10 * (period + 1);
    let raw = 1118608int / divisor;
    vstd::arithmetic::div_mod::lemma_fundamental_div_mod(1118608, divisor);
    vstd::arithmetic::div_mod::lemma_mod_pos_bound(1118608, divisor);
    assert(raw * divisor <= 1118608 < (raw + 1) * divisor) by (nonlinear_arith)
        requires
            1118608 == divisor * raw + (1118608int % divisor),
            0 <= 1118608int % divisor < divisor,
    ;
    assert(frequency_of(period) == freq) by (nonlinear_arith)
        requires
            divisor > 0,
            raw * divisor <= 1118608 < (raw + 1) * divisor,
            100 <= freq <= 2000,
            freq > 100 ==> freq * divisor <= 1118608,
            freq < 2000 ==> 1118608 < (freq + 1) * divisor,
            frequency_of(period) == (if raw < 100 {
                100
            } else if raw > 2000 {
                2000
            } else {
                raw
            }),
    ;
}

impl PulseChannel {
    pub open spec fn spec_set_volume(self, bits: u8) -> (PulseChannel, Result<(), NesError>) {
        if bits <= MAX_VOLUME {
            (PulseChannel { volume: bits, ..self }, Ok(()))
        } else {
            (self, Err(NesError::InvalidArgument))
        }
    }

    pub open spec fn spec_set_dutycycle(self, bits: u8) -> (PulseChannel, Result<(), NesError>) {
        if bits <= 3 {
            (PulseChannel { duty_cycle: DutyCycle::from_bits(bits), ..self }, Ok(()))
        } else {
            (self, Err(NesError::InvalidArgument))
        }
    }

    pub open spec fn spec_set_period(self, bits: u8, high: bool) -> PulseChannel {
        PulseChannel { period: with_period_bits(self.period, bits, high), ..self }
    }

    /// A silent, disabled channel.
    pub fn new() -> (p: PulseChannel)
        ensures
            p == (PulseChannel {
                volume: 0,
                duty_cycle: DutyCycle::Eighth,
                period: 0,
                enabled: false,
            }),
    {
        PulseChannel { volume: 0, duty_cycle: DutyCycle::Eighth, period: 0, enabled: false }
    }

    /// Sets the volume level; levels above 15 are refused.
    pub fn set_volume(&mut self, bits: u8) -> (res: Result<(), NesError>)
        ensures
            (*final(self), res) == old(self).spec_set_volume(bits),
    {
        if bits <= MAX_VOLUME {
            self.volume = bits;
            Ok(())
        } else {
            Err(NesError::InvalidArgument)
        }
    }

    /// Sets the duty cycle from its two-bit selector; selectors above 3 are
    /// refused.
    pub fn set_dutycycle(&mut self, bits: u8) -> (res: Result<(), NesError>)
        ensures
            (*final(self), res) == old(self).spec_set_dutycycle(bits),
    {
        if bits == 0 {
            self.duty_cycle = DutyCycle::Eighth;
        } else if bits == 1 {
            self.duty_cycle = DutyCycle::Quarter;
        } else if bits == 2 {
            self.duty_cycle = DutyCycle::Half;
        } else if bits == 3 {
            self.duty_cycle = DutyCycle::ThreeQuarters;
        } else {
            return Err(NesError::InvalidArgument);
        }
        Ok(())
    }

    /// Sets the low byte of the timer period, or its three high bits.
    pub fn set_period(&mut self, bits: u8, high: bool)
        ensures
            *final(self) == old(self).spec_set_period(bits, high),
    {
        if !high {
            self.period = (self.period & 0xff00) | bits as u16;
        } else {
            self.period = (self.period & 0x00ff) | (((bits & 0b111) as u16) << 8);
        }
    }
}

impl Default for PulseChannel {
    fn default() -> (p: PulseChannel)
        ensures
            p == (PulseChannel {
                volume: 0,
                duty_cycle: DutyCycle::Eighth,
                period: 0,
                enabled: false,
            }),
    {
        PulseChannel::new()
    }
}

/// The frequency in hertz that a timer period stands for, kept within the
/// range that the audio sink can play. Between the two limits the
/// frequency is the largest whole number of hertz whose product with
/// `period + 1` does not exceed 111860.8; `lemma_frequency_is` names the
/// frequency of a given period from these bounds.
pub fn get_frequency(period: u16) -> (freq: u16)
    ensures
        freq == frequency_of(period),
        100 <= freq <= 2000,
        freq > 100 ==> freq * (10 * (period + 1)) <= 1118608,
        freq < 2000 ==> 1118608 < (freq + 1) * (10 * (period + 1)),
{
    let divisor: u32 = 10u32 * (period as u32 + 1);
    let raw: u32 = 1118608u32 / divisor;
    proof {
        vstd::arithmetic::div_mod::lemma_fundamental_div_mod(1118608, divisor as int);
        vstd::arithmetic::div_mod::lemma_mod_pos_bound(1118608, divisor as int);
        assert(raw * divisor <= 1118608 < (raw + 1) * divisor) by (nonlinear_arith)
            requires
                1118608 == divisor * raw + (1118608int % (divisor as int)),
                0 <= 1118608int % (divisor as int) < divisor,
        ;
        assert(raw < 100 ==> 1118608 < 101 * divisor) by (nonlinear_arith)
            requires
                1118608 < (raw + 1) * divisor,
                divisor > 0,
        ;
        assert(raw > 2000 ==> 2000 * divisor <= 1118608) by (nonlinear_arith)
            requires
                raw * divisor <= 1118608,
                divisor > 0,
        ;
    }
    if raw < 100 {
        100
    } else if raw > 2000 {
        2000
    } else {
        raw as u16
    }
}

} // verus!
