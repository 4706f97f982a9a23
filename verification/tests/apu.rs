use nes::apu::pulse::{get_frequency, DutyCycle, PulseChannel};
use nes::apu::triangle::TriangleChannel;
use nes::apu;
use nes::apu::{Apu, AudioChannel, AudioEvent};
use nes::error::NesError;

fn frequency_by_division(period: u16) -> u16 {
    let raw = (111860.8 / (1 + period) as f32) as u16;
    raw.min(2000).max(100)
}

#[test]
fn frequency_matches_the_formula_for_every_period() {
    for period in 0..=2047u16 {
        assert_eq!(get_frequency(period), frequency_by_division(period), "period {}", period);
    }
}

#[test]
fn frequency_is_clamped() {
    for period in 0..=u16::MAX {
        let f = get_frequency(period);
        assert!((100..=2000).contains(&f));
    }
    assert_eq!(get_frequency(0), 2000);
    assert_eq!(get_frequency(54), 2000);
    assert_eq!(get_frequency(55), 1997);
    assert_eq!(get_frequency(253), 440);
    assert_eq!(get_frequency(1117), 100);
    assert_eq!(get_frequency(1118), 100);
    assert_eq!(get_frequency(2047), 100);
    assert_eq!(get_frequency(u16::MAX), 100);
}

#[test]
fn pulse_channel_setters() {
    let mut p = PulseChannel::new();
    assert_eq!(p, PulseChannel::default());
    assert_eq!(p.duty_cycle, DutyCycle::Eighth);
    assert_eq!(p.set_volume(15), Ok(()));
    assert_eq!(p.volume, 15);
    assert_eq!(p.set_volume(16), Err(NesError::InvalidArgument));
    assert_eq!(p.volume, 15);
    let duties = [DutyCycle::Eighth, DutyCycle::Quarter, DutyCycle::Half, DutyCycle::ThreeQuarters];
    for (bits, duty) in duties.iter().enumerate() {
        assert_eq!(p.set_dutycycle(bits as u8), Ok(()));
        assert_eq!(p.duty_cycle, *duty);
    }
    assert_eq!(p.set_dutycycle(4), Err(NesError::InvalidArgument));
    assert_eq!(p.duty_cycle, DutyCycle::ThreeQuarters);
    let eighths: Vec<u8> = duties.iter().map(|d| d.eighths()).collect();
    assert_eq!(eighths, vec![1, 2, 4, 6]);
}

#[test]
fn period_is_set_in_two_parts() {
    let mut p = PulseChannel::new();
    p.set_period(0xab, false);
    assert_eq!(p.period, 0x00ab);
    p.set_period(0xfd, true);
    assert_eq!(p.period, 0x05ab);
    p.set_period(0x12, false);
    assert_eq!(p.period, 0x0512);

    let mut t = TriangleChannel::new();
    t.set_period(0xff, true);
    t.set_period(0xff, false);
    assert_eq!(t.period, 0x07ff);
    assert_eq!(t.get_frequency(), 100);
}

#[test]
fn nothing_can_be_read() {
    let apu = Apu::new();
    for addr in [0x4000u16, 0x4015, 0x0000] {
        assert_eq!(apu::read(&apu, addr), Err(NesError::BusError));
    }
}

#[test]
fn pulse_writes_queue_events_for_their_own_channel() {
    let mut apu = Apu::new();
    assert_eq!(apu::write(&mut apu, 0x4000, 0b1000_0111), Ok(()));
    assert_eq!(apu::write(&mut apu, 0x4004, 0b0100_1111), Ok(()));
    assert_eq!(apu.pulse1.duty_cycle, DutyCycle::Half);
    assert_eq!(apu.pulse1.volume, 7);
    assert_eq!(apu.pulse2.duty_cycle, DutyCycle::Quarter);
    assert_eq!(apu.pulse2.volume, 15);
    assert_eq!(
        apu.events,
        vec![
            AudioEvent::UpdatePulse {
                channel: AudioChannel::Pulse1,
                duty_cycle: Some(DutyCycle::Half),
                volume: Some(7),
                freq: None,
            },
            AudioEvent::UpdatePulse {
                channel: AudioChannel::Pulse2,
                duty_cycle: Some(DutyCycle::Quarter),
                volume: Some(15),
                freq: None,
            },
        ]
    );
}

#[test]
fn period_writes_queue_the_frequency() {
    let mut apu = Apu::new();
    apu::write(&mut apu, 0x4002, 0xfd).unwrap();
    apu::write(&mut apu, 0x4003, 0xf8).unwrap();
    apu::write(&mut apu, 0x4007, 0x01).unwrap();
    apu::write(&mut apu, 0x4006, 0x00).unwrap();
    assert_eq!(apu.pulse1.period, 0x00fd);
    assert_eq!(apu.pulse2.period, 0x0100);
    let freqs: Vec<(AudioChannel, u16)> = apu
        .events
        .iter()
        .map(|e| match e {
            AudioEvent::UpdatePulse { channel, duty_cycle: None, volume: None, freq: Some(f) } => {
                (*channel, *f)
            }
            other => panic!("unexpected event {:?}", other),
        })
        .collect();
    assert_eq!(
        freqs,
        vec![
            (AudioChannel::Pulse1, 440),
            (AudioChannel::Pulse1, 440),
            (AudioChannel::Pulse2, 435),
            (AudioChannel::Pulse2, 435),
        ]
    );
}

#[test]
fn triangle_writes() {
    let mut apu = Apu::new();
    apu::write(&mut apu, 0x4008, 0x40).unwrap();
    assert!(apu.triangle.muted);
    apu::write(&mut apu, 0x4008, 0x3f).unwrap();
    assert!(!apu.triangle.muted);
    apu::write(&mut apu, 0x400a, 0x6f).unwrap();
    apu::write(&mut apu, 0x400b, 0x00).unwrap();
    assert_eq!(apu.triangle.period, 0x006f);
    assert_eq!(
        apu.events,
        vec![
            AudioEvent::UpdateTriangle { freq: None, mute: Some(true) },
            AudioEvent::UpdateTriangle { freq: None, mute: Some(false) },
            AudioEvent::UpdateTriangle { freq: Some(998), mute: None },
            AudioEvent::UpdateTriangle { freq: Some(998), mute: None },
        ]
    );
}

#[test]
fn channel_switches_report_changes_only() {
    let mut apu = Apu::new();
    apu::write(&mut apu, 0x4015, 0b0000_0101).unwrap();
    assert!(apu.pulse1.enabled && !apu.pulse2.enabled && apu.triangle.enabled);
    apu::write(&mut apu, 0x4015, 0b0000_0110).unwrap();
    apu::write(&mut apu, 0x4015, 0b0000_0110).unwrap();
    assert!(!apu.pulse1.enabled && apu.pulse2.enabled && apu.triangle.enabled);
    assert_eq!(
        apu.events,
        vec![
            AudioEvent::EnableChannel { channel: AudioChannel::Pulse1, enabled: true },
            AudioEvent::EnableChannel { channel: AudioChannel::Triangle, enabled: true },
            AudioEvent::EnableChannel { channel: AudioChannel::Pulse1, enabled: false },
            AudioEvent::EnableChannel { channel: AudioChannel::Pulse2, enabled: true },
        ]
    );
}

#[test]
fn other_registers_are_ignored_or_unmapped() {
    let mut apu = Apu::new();
    for addr in [0x4001u16, 0x4005, 0x4009, 0x400c, 0x4010, 0x4013, 0x401f] {
        assert_eq!(apu::write(&mut apu, addr, 0xff), Ok(()));
    }
    assert!(apu.events.is_empty());
    assert_eq!(apu.pulse1, PulseChannel::new());
    for addr in [0x3fffu16, 0x4020, 0x0000] {
        assert_eq!(apu::write(&mut apu, addr, 0xff), Err(NesError::BusError));
    }
}
