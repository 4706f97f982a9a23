use vstd::prelude::*;
use crate::apu::pulse::{frequency_of, get_frequency, DutyCycle, PulseChannel};
use crate::apu::triangle::TriangleChannel;
use crate::error::NesError;

pub mod pulse;
pub mod triangle;

verus! {

/// The sound channels that the audio sink knows.
#[derive(Clone, Copy, Debug, PartialEq, Eq, Structural)]
pub enum AudioChannel {
    Pulse1,
    Pulse2,
    Triangle,
}

/// What a register write asks of the audio sink. The sound unit makes no
/// samples: it queues these, and the console hands them to the sink.
#[derive(Clone, Copy, Debug, PartialEq, Eq, Structural)]
pub enum AudioEvent {
    /// A channel was switched on or off.
    EnableChannel { channel: AudioChannel, enabled: bool },
    /// A pulse channel changed its duty cycle and volume level, or its
    /// frequency in hertz.
    UpdatePulse {
        channel: AudioChannel,
        duty_cycle: Option<DutyCycle>,
        volume: Option<u8>,
        freq: Option<u16>,
    },
    /// The triangle channel changed its frequency in hertz, or was muted
    /// or unmuted.
    UpdateTriangle { freq: Option<u16>, mute: Option<bool> },
}

/// The sound unit: the state of its channels and the events that the
/// audio sink has not been given yet.
pub struct Apu {
    pub pulse1: PulseChannel,
    pub pulse2: PulseChannel,
    pub triangle: TriangleChannel,
    /// Events in the order in which the writes asked for them.
    pub events: Vec<AudioEvent>,
}

/// The sound unit with its queue as a sequence.
pub struct ApuView {
    pub pulse1: PulseChannel,
    pub pulse2: PulseChannel,
    pub triangle: TriangleChannel,
    pub events: Seq<AudioEvent>,
}

impl View for Apu {
    type V = ApuView;

    open spec fn view(&self) -> ApuView {
        ApuView {
            pulse1: self.pulse1,
            pulse2: self.pulse2,
            triangle: self.triangle,
            events: self.events@,
        }
    }
}

/// A pulse channel after a write to its first register: duty cycle from
/// bits 6-7, volume level from bits 0-3.
pub open spec fn pulse_after_control(pulse: PulseChannel, data: u8) -> PulseChannel {
    PulseChannel {
        duty_cycle: DutyCycle::from_bits((data & 0b11000000) >> 6),
        volume: data & 0x0f,
        ..pulse
    }
}

/// The event that reports a pulse channel's duty cycle and volume.
pub open spec fn pulse_control_event(channel: AudioChannel, pulse: PulseChannel) -> AudioEvent {
    AudioEvent::UpdatePulse {
        channel,
        duty_cycle: Some(pulse.duty_cycle),
        volume: Some(pulse.volume),
        freq: None,
    }
}

/// The event that reports a pulse channel's frequency.
pub open spec fn pulse_freq_event(channel: AudioChannel, pulse: PulseChannel) -> AudioEvent {
    AudioEvent::UpdatePulse {
        channel,
        duty_cycle: None,
        volume: None,
        freq: Some(frequency_of(pulse.period) as u16),
    }
}

/// The event that reports the triangle channel's frequency.
pub open spec fn triangle_freq_event(triangle: TriangleChannel) -> AudioEvent {
    AudioEvent::UpdateTriangle { freq: Some(frequency_of(triangle.period) as u16), mute: None }
}

/// The events of a write to the channel switches: one for each channel
/// whose switch changed, in the order pulse 1, pulse 2, triangle.
pub open spec fn enable_events(was: (bool, bool, bool), now: (bool, bool, bool)) -> Seq<
    AudioEvent,
> {
    let first = if was.0 != now.0 {
        seq![AudioEvent::EnableChannel { channel: AudioChannel::Pulse1, enabled: now.0 }]
    } else {
        Seq::empty()
    };
    let second = if was.1 != now.1 {
        seq![AudioEvent::EnableChannel { channel: AudioChannel::Pulse2, enabled: now.1 }]
    } else {
        Seq::empty()
    };
    let third = if was.2 != now.2 {
        seq![AudioEvent::EnableChannel { channel: AudioChannel::Triangle, enabled: now.2 }]
    } else {
        Seq::empty()
    };
    first + second + third
}

impl ApuView {
    /// The sound unit of a console that was just switched on.
    pub open spec fn initial() -> ApuView {
        ApuView {
            pulse1: PulseChannel {
                volume: 0,
                duty_cycle: DutyCycle::Eighth,
                period: 0,
                enabled: false,
            },
            pulse2: PulseChannel {
                volume: 0,
                duty_cycle: DutyCycle::Eighth,
                period: 0,
                enabled: false,
            },
            triangle: TriangleChannel { period: 0, muted: false, enabled: false },
            events: Seq::empty(),
        }
    }

    /// The sound unit with one more event queued.
    pub open spec fn with_event(self, event: AudioEvent) -> ApuView {
        ApuView { events: self.events.push(event), ..self }
    }

    /// The sound unit after a write of `data` to register `addr`, and
    /// whether the write was answered. 0x4000-0x4003 belong to pulse 1,
    /// 0x4004-0x4007 to pulse 2, 0x4008-0x400B to the triangle, 0x4015
    /// holds the channel switches. The other registers up to 0x401F are
    /// ignored; nothing answers elsewhere.
    pub open spec fn spec_write(self, addr: u16, data: u8) -> (ApuView, Result<(), NesError>) {
        if addr == 0x4000 {
            let pulse = pulse_after_control(self.pulse1, data);
            (
                ApuView { pulse1: pulse, ..self }.with_event(
                    pulse_control_event(AudioChannel::Pulse1, pulse),
                ),
                Ok(()),
            )
        } else if addr == 0x4002 || addr == 0x4003 {
            let pulse = self.pulse1.spec_set_period(data, addr == 0x4003);
            (
                ApuView { pulse1: pulse, ..self }.with_event(
                    pulse_freq_event(AudioChannel::Pulse1, pulse),
                ),
                Ok(()),
            )
        } else if addr == 0x4004 {
            let pulse = pulse_after_control(self.pulse2, data);
            (
                ApuView { pulse2: pulse, ..self }.with_event(
                    pulse_control_event(AudioChannel::Pulse2, pulse),
                ),
                Ok(()),
            )
        } else if addr == 0x4006 || addr == 0x4007 {
            let pulse = self.pulse2.spec_set_period(data, addr == 0x4007);
            (
                ApuView { pulse2: pulse, ..self }.with_event(
                    pulse_freq_event(AudioChannel::Pulse2, pulse),
                ),
                Ok(()),
            )
        } else if addr == 0x4008 {
            let muted = data & 0b11000000 != 0;
            (
                ApuView { triangle: TriangleChannel { muted, ..self.triangle }, ..self }.with_event(
                    AudioEvent::UpdateTriangle { freq: None, mute: Some(muted) },
                ),
                Ok(()),
            )
        } else if addr == 0x400a || addr == 0x400b {
            let triangle = self.triangle.spec_set_period(data, addr == 0x400b);
            (ApuView { triangle, ..self }.with_event(triangle_freq_event(triangle)), Ok(()))
        } else if addr == 0x4015 {
            let was = (self.pulse1.enabled, self.pulse2.enabled, self.triangle.enabled);
            let now = (data & 0x01 != 0, data & 0x02 != 0, data & 0x04 != 0);
            (
                ApuView {
                    pulse1: PulseChannel { enabled: now.0, ..self.pulse1 },
                    pulse2: PulseChannel { enabled: now.1, ..self.pulse2 },
                    triangle: TriangleChannel { enabled: now.2, ..self.triangle },
                    events: self.events + enable_events(was, now),
                },
                Ok(()),
            )
        } else if 0x4000 <= addr <= 0x401f {
            (self, Ok(()))
        } else {
            (self, Err(NesError::BusError))
        }
    }
}

impl Apu {
    /// The sound unit of a console that was just switched on.
    pub fn new() -> (apu: Apu)
        ensures
            apu@ == ApuView::initial(),
    {
        Apu {
            pulse1: PulseChannel::new(),
            pulse2: PulseChannel::new(),
            triangle: TriangleChannel::new(),
            events: Vec::new(),
        }
    }
}

impl Default for Apu {
    fn default() -> (apu: Apu)
        ensures
            apu@ == ApuView::initial(),
    {
        Apu::new()
    }
}

/// No register of the sound unit can be read.
pub fn read(apu: &Apu, addr: u16) -> (res: Result<u8, NesError>)
    ensures
        res == Err::<u8, NesError>(NesError::BusError),
{
    Err(NesError::BusError)
}

/// Sets the first register of a pulse channel. The bits that it takes from
/// `data` are always in range.
fn write_pulse_control(pulse: &mut PulseChannel, data: u8) -> (res: Result<(), NesError>)
    ensures
        res == Ok::<(), NesError>(()),
        *final(pulse) == pulse_after_control(*old(pulse), data),
{
    let duty_bits: u8 = (data & 0b11000000) >> 6;
    let volume_bits: u8 = data & 0x0f;
    assert((data & 0b11000000) >> 6 <= 3 && data & 0x0f <= 15) by (bit_vector);
    pulse.set_dutycycle(duty_bits)?;
    pulse.set_volume(volume_bits)?;
    Ok(())
}

/// Queues one event for each channel whose switch changed.
fn push_enable_events(events: &mut Vec<AudioEvent>, was: (bool, bool, bool), now: (
    bool,
    bool,
    bool,
))
    ensures
        final(events)@ == old(events)@ + enable_events(was, now),
{
    if was.0 != now.0 {
        events.push(AudioEvent::EnableChannel { channel: AudioChannel::Pulse1, enabled: now.0 });
    }
    if was.1 != now.1 {
        events.push(AudioEvent::EnableChannel { channel: AudioChannel::Pulse2, enabled: now.1 });
    }
    if was.2 != now.2 {
        events.push(AudioEvent::EnableChannel { channel: AudioChannel::Triangle, enabled: now.2 });
    }
    assert(events@ =~= old(events)@ + enable_events(was, now));
}

/// Writes `data` to the sound register at `addr` and queues what the
/// audio sink has to hear of it.
pub fn write(apu: &mut Apu, addr: u16, data: u8) -> (res: Result<(), NesError>)
    ensures
        (final(apu)@, res) == old(apu)@.spec_write(addr, data),
{
    if addr == 0x4000 {
        write_pulse_control(&mut apu.pulse1, data)?;
        apu.events.push(
            AudioEvent::UpdatePulse {
                channel: AudioChannel::Pulse1,
                duty_cycle: Some(apu.pulse1.duty_cycle),
                volume: Some(apu.pulse1.volume),
                freq: None,
            },
        );
        Ok(())
    } else if addr == 0x4002 || addr == 0x4003 {
        apu.pulse1.set_period(data, addr == 0x4003);
        let freq: u16 = get_frequency(apu.pulse1.period);
        apu.events.push(
            AudioEvent::UpdatePulse {
                channel: AudioChannel::Pulse1,
                duty_cycle: None,
                volume: None,
                freq: Some(freq),
            },
        );
        Ok(())
    } else if addr == 0x4004 {
        write_pulse_control(&mut apu.pulse2, data)?;
        apu.events.push(
            AudioEvent::UpdatePulse {
                channel: AudioChannel::Pulse2,
                duty_cycle: Some(apu.pulse2.duty_cycle),
                volume: Some(apu.pulse2.volume),
                freq: None,
            },
        );
        Ok(())
    } else if addr == 0x4006 || addr == 0x4007 {
        apu.pulse2.set_period(data, addr == 0x4007);
        let freq: u16 = get_frequency(apu.pulse2.period);
        apu.events.push(
            AudioEvent::UpdatePulse {
                channel: AudioChannel::Pulse2,
                duty_cycle: None,
                volume: None,
                freq: Some(freq),
            },
        );
        Ok(())
    } else if addr == 0x4008 {
        let muted = data & 0b11000000 != 0;
        apu.triangle.muted = muted;
        apu.events.push(AudioEvent::UpdateTriangle { freq: None, mute: Some(muted) });
        Ok(())
    } else if addr == 0x400a || addr == 0x400b {
        apu.triangle.set_period(data, addr == 0x400b);
        let freq: u16 = apu.triangle.get_frequency();
        apu.events.push(AudioEvent::UpdateTriangle { freq: Some(freq), mute: None });
        Ok(())
    } else if addr == 0x4015 {
        let was = (apu.pulse1.enabled, apu.pulse2.enabled, apu.triangle.enabled);
        let now = (data & 0x01 != 0, data & 0x02 != 0, data & 0x04 != 0);
        apu.pulse1.enabled = now.0;
        apu.pulse2.enabled = now.1;
        apu.triangle.enabled = now.2;
        push_enable_events(&mut apu.events, was, now);
        Ok(())
    } else if 0x4000 <= addr && addr <= 0x401f {
        Ok(())
    } else {
        Err(NesError::BusError)
    }
}

} // verus!
