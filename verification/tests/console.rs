use nes::apu::AudioChannel;
use nes::error::NesError;
use nes::joypad::Button;
use nes::nesaudio::{NesAudio, NoAudio};
use nes::nesscreen::{NesScreen, NoScreen};
use nes::ppu::render::render_frame;
use nes::rom::Mirroring;
use nes::Nes;

/// A screen that counts what it is told, and refuses the frame with number
/// `fail_at`.
struct Counter {
    pixels: usize,
    frames: Vec<usize>,
    first: Option<(u8, u8, (u8, u8, u8))>,
    fail_at: Option<usize>,
}

impl Counter {
    fn new() -> Counter {
        Counter { pixels: 0, frames: Vec::new(), first: None, fail_at: None }
    }
}

impl NesScreen for Counter {
    fn draw_pixel(&mut self, x: u8, y: u8, rgb: (u8, u8, u8)) -> Result<(), NesError> {
        if self.pixels == 0 {
            self.first = Some((x, y, rgb));
        }
        self.pixels += 1;
        if self.fail_at == Some(self.frames.len()) && self.pixels == 5 {
            return Err(NesError::SinkError);
        }
        Ok(())
    }

    fn vblank(&mut self) -> Result<(), NesError> {
        self.frames.push(self.pixels);
        self.pixels = 0;
        Ok(())
    }
}

/// A loudspeaker that writes down what it is told.
struct Log {
    calls: Vec<String>,
    refuse_triangle: bool,
}

impl NesAudio for Log {
    fn enable_channel(&mut self, channel: AudioChannel, enabled: bool) -> Result<(), NesError> {
        self.calls.push(format!("enable {:?} {}", channel, enabled));
        Ok(())
    }

    fn update_pulse(
        &mut self,
        pulse: AudioChannel,
        duty_cycle: Option<u8>,
        volume: Option<u8>,
        freq: Option<u16>,
    ) -> Result<(), NesError> {
        if pulse == AudioChannel::Triangle {
            return Err(NesError::InvalidArgument);
        }
        self.calls.push(format!("pulse {:?} {:?} {:?} {:?}", pulse, duty_cycle, volume, freq));
        Ok(())
    }

    fn update_triangle(&mut self, freq: Option<u16>, mute: Option<bool>) -> Result<(), NesError> {
        if self.refuse_triangle {
            return Err(NesError::SinkError);
        }
        self.calls.push(format!("triangle {:?} {:?}", freq, mute));
        Ok(())
    }
}

fn image(program: &[u8]) -> Vec<u8> {
    let mut rom = vec![0x4e, 0x45, 0x53, 0x1a, 2, 0, 0x01, 0];
    rom.resize(16, 0);
    let mut prg = vec![0xeau8; 0x8000];
    prg[..program.len()].copy_from_slice(program);
    prg[0x7ffa] = 0x00;
    prg[0x7ffb] = 0x90;
    prg[0x7ffc] = 0x00;
    prg[0x7ffd] = 0x80;
    rom.extend(prg);
    rom
}

const LOOP: [u8; 3] = [0x4c, 0x00, 0x80];

#[test]
fn new_console_is_switched_on_and_empty() {
    let nes = Nes::new(NoScreen, NoAudio);
    assert_eq!(nes.console.cpu.pc, 0);
    assert_eq!(nes.console.ppu.scan_line, -1);
    assert!(nes.console.cartridge.rom.prgmem.is_empty());
    assert!(nes.console.apu.events.is_empty());
    assert_eq!(nes.console.bus_cpu.ram, [0u8; 0x800]);
}

#[test]
fn load_resets_the_console() {
    let mut nes = Nes::new(NoScreen, NoAudio);
    nes.console.cpu.ac = 0x55;
    assert_eq!(nes.load(&image(&LOOP)), Ok(()));
    assert_eq!(nes.console.cartridge.rom.prg_banks, 2);
    assert_eq!(nes.console.cartridge.rom.mirroring, Mirroring::Vertical);
    assert_eq!(nes.console.cpu.pc, 0x8000);
    assert_eq!(nes.console.cpu.ac, 0);
    assert_eq!(nes.console.cpu.sp, 0xfd);
    assert_eq!(nes.console.cpu.status, 0x24);
    assert_eq!(nes.console.cpu.cycles, 8);
}

#[test]
fn load_resets_the_mapper() {
    let mut rom = vec![0x4e, 0x45, 0x53, 0x1a, 4, 1, 0x10, 0];
    rom.resize(16, 0);
    for bank in 0..4u8 {
        let mut prg = vec![bank; 0x4000];
        prg[0x3ffc] = 0x34;
        prg[0x3ffd] = 0x80 + bank;
        rom.extend(prg);
    }
    rom.extend(vec![0u8; 0x2000]);
    let mut nes = Nes::new(NoScreen, NoAudio);
    assert_eq!(nes.load(&rom), Ok(()));
    // the MMC1 shows its last bank at 0xC000 after the reset
    assert_eq!(nes.console.cpu.pc, 0x8334);
}

#[test]
fn failed_load_leaves_the_console_as_it_was() {
    let mut nes = Nes::new(NoScreen, NoAudio);
    nes.load(&image(&LOOP)).unwrap();
    nes.clock().unwrap();
    nes.console.cpu.ac = 0x77;
    let cycles = nes.console.cpu.cycles;

    let mut bad = image(&LOOP);
    bad[0] = b'Z';
    assert_eq!(nes.load(&bad), Err(NesError::UnsupportedFormat));
    let mut bad = image(&LOOP);
    bad[7] = 0x08;
    assert_eq!(nes.load(&bad), Err(NesError::UnsupportedFormat));
    let mut bad = image(&LOOP);
    bad[6] = 0x50;
    assert_eq!(nes.load(&bad), Err(NesError::UnsupportedMapper));
    // an image without program memory cannot be reset
    let mut bad = vec![0x4e, 0x45, 0x53, 0x1a, 0, 0, 0, 0];
    bad.resize(16, 0);
    assert_eq!(nes.load(&bad), Err(NesError::BusError));

    assert_eq!(nes.console.cpu.ac, 0x77);
    assert_eq!(nes.console.cpu.cycles, cycles);
    assert_eq!(nes.console.cpu.pc, 0x8000);
    assert_eq!(nes.console.cartridge.rom.prg_banks, 2);
    assert_eq!(nes.console.cartridge.rom.prgmem.len(), 0x8000);
}

#[test]
fn reset_reads_the_vector_again() {
    let mut nes = Nes::new(NoScreen, NoAudio);
    assert_eq!(nes.reset(), Err(NesError::BusError));
    nes.load(&image(&LOOP)).unwrap();
    for _ in 0..100 {
        nes.clock().unwrap();
    }
    nes.console.cpu.x = 3;
    assert_eq!(nes.reset(), Ok(()));
    assert_eq!(nes.console.cpu.pc, 0x8000);
    assert_eq!(nes.console.cpu.x, 0);
    assert_eq!(nes.console.cpu.cycles, 8);
}

#[test]
fn a_tick_is_one_cycle_and_three_dots() {
    let mut nes = Nes::new(NoScreen, NoAudio);
    nes.load(&image(&LOOP)).unwrap();
    assert_eq!(nes.clock(), Ok(()));
    assert_eq!(nes.console.cpu.cycles, 7);
    assert_eq!((nes.console.ppu.scan_line, nes.console.ppu.scan_cycle), (-1, 3));
    for _ in 0..113 {
        nes.clock().unwrap();
    }
    assert_eq!((nes.console.ppu.scan_line, nes.console.ppu.scan_cycle), (0, 1));
}

#[test]
fn one_frame_is_drawn_every_89342_dots() {
    let mut nes = Nes::new(Counter::new(), NoAudio);
    nes.load(&image(&LOOP)).unwrap();
    // the vertical blank starts on dot 82523 of each frame
    for _ in 0..27507 {
        nes.clock().unwrap();
    }
    assert_eq!(nes.screen.frames.len(), 0);
    nes.clock().unwrap();
    assert_eq!(nes.screen.frames, vec![255 * 240]);
    assert_eq!(nes.screen.first, Some((7, 0, (0x80, 0x80, 0x80))));
    for _ in 0..29780 {
        nes.clock().unwrap();
    }
    assert_eq!(nes.screen.frames.len(), 1);
    nes.clock().unwrap();
    assert_eq!(nes.screen.frames.len(), 2);
    for _ in 0..(3 * 89342) {
        nes.clock().unwrap();
    }
    assert_eq!(nes.screen.frames.len(), 11);
    let expected = render_frame(&nes.console).unwrap().len();
    assert!(nes.screen.frames.iter().all(|n| *n == expected));
}

#[test]
fn a_refusing_screen_stops_the_tick() {
    let mut screen = Counter::new();
    screen.fail_at = Some(1);
    let mut nes = Nes::new(screen, NoAudio);
    nes.load(&image(&LOOP)).unwrap();
    let mut ticks = 0u32;
    let error = loop {
        match nes.clock() {
            Ok(()) => ticks += 1,
            Err(e) => break e,
        }
        assert!(ticks < 100000);
    };
    assert_eq!(error, NesError::SinkError);
    assert_eq!(nes.screen.frames.len(), 1);
    assert_eq!(nes.screen.pixels, 5);
    assert_eq!(ticks, 27508 + 29780);
}

#[test]
fn sound_events_reach_the_loudspeaker() {
    // LDA #$8f; STA $4000; LDA #$fd; STA $4002; LDA #$03; STA $4015; STA $4008; JMP here
    let program = [
        0xa9, 0x8f, 0x8d, 0x00, 0x40, 0xa9, 0xfd, 0x8d, 0x02, 0x40, 0xa9, 0x03, 0x8d, 0x15, 0x40,
        0x8d, 0x08, 0x40, 0x4c, 0x12, 0x80,
    ];
    let mut nes = Nes::new(NoScreen, Log { calls: Vec::new(), refuse_triangle: false });
    nes.load(&image(&program)).unwrap();
    for _ in 0..60 {
        nes.clock().unwrap();
        assert!(nes.console.apu.events.is_empty());
    }
    assert_eq!(
        nes.audio.calls,
        vec![
            "pulse Pulse1 Some(4) Some(15) None",
            "pulse Pulse1 None None Some(440)",
            "enable Pulse1 true",
            "enable Pulse2 true",
            "triangle None Some(false)",
        ]
    );
}

#[test]
fn a_refusing_loudspeaker_stops_the_tick() {
    // LDA #$c0; STA $4008; NOP...
    let program = [0xa9, 0xc0, 0x8d, 0x08, 0x40];
    let mut nes = Nes::new(NoScreen, Log { calls: Vec::new(), refuse_triangle: true });
    nes.load(&image(&program)).unwrap();
    let mut results = Vec::new();
    for _ in 0..14 {
        results.push(nes.clock());
    }
    assert_eq!(results.iter().filter(|r| r.is_err()).count(), 1);
    assert_eq!(results[11], Err(NesError::SinkError));
    // the console has gone on and the event is not sent again
    assert!(nes.console.apu.triangle.muted);
    assert!(nes.console.apu.events.is_empty());
    assert_eq!(nes.console.cpu.pc, 0x8005);
}

#[test]
fn machine_failures_reach_the_caller() {
    // LDA $4000 reads a sound register
    let mut nes = Nes::new(NoScreen, NoAudio);
    nes.load(&image(&[0xad, 0x00, 0x40])).unwrap();
    for _ in 0..8 {
        assert_eq!(nes.clock(), Ok(()));
    }
    assert_eq!(nes.clock(), Err(NesError::BusError));
}

#[test]
fn step_runs_one_instruction_and_the_dots_of_its_cycles() {
    // LDA #$42; STA $0200; JMP $8000
    let mut nes = Nes::new(NoScreen, NoAudio);
    nes.load(&image(&[0xa9, 0x42, 0x8d, 0x00, 0x02, 0x4c, 0x00, 0x80])).unwrap();
    // the first step waits out the reset: one cycle without dots, then
    // seven ticks
    assert_eq!(nes.step().unwrap(), "8000   A9 42   \tLDA \tA:00 X:00 Y:00 P:24 SP:FD");
    assert_eq!(nes.console.cpu.pc, 0x8000);
    assert_eq!(nes.console.cpu.cycles, 0);
    assert_eq!((nes.console.ppu.scan_line, nes.console.ppu.scan_cycle), (-1, 21));
    // LDA # takes two cycles: six dots
    assert_eq!(nes.step().unwrap(), "8000   A9 42   \tLDA \tA:00 X:00 Y:00 P:24 SP:FD");
    assert_eq!(nes.console.cpu.ac, 0x42);
    assert_eq!(nes.console.cpu.cycles, 0);
    assert_eq!((nes.console.ppu.scan_line, nes.console.ppu.scan_cycle), (-1, 27));
    // STA absolute takes four: twelve dots
    assert_eq!(nes.step().unwrap(), "8002   8D 00 02 \tSTA \tA:42 X:00 Y:00 P:24 SP:FD");
    assert_eq!(nes.console.bus_cpu.ram[0x200], 0x42);
    assert_eq!((nes.console.ppu.scan_line, nes.console.ppu.scan_cycle), (-1, 39));
    // JMP absolute takes three: nine dots
    assert_eq!(nes.step().unwrap(), "8005   4C 00 80 \tJMP \tA:42 X:00 Y:00 P:24 SP:FD");
    assert_eq!(nes.console.cpu.pc, 0x8000);
    assert_eq!((nes.console.ppu.scan_line, nes.console.ppu.scan_cycle), (-1, 48));
}

#[test]
fn step_moves_the_beam_by_three_dots_for_each_cycle() {
    // opcode, operand, cycles: NOP 2, LDA # 2, BNE taken 3, BEQ not taken 2,
    // ADC # 2 + 1, LDA zero page 3, INC absolute 6, PHA 3, PLA 4
    let cases: [(&[u8], u16); 9] = [
        (&[0xea], 2),
        (&[0xa9, 0x01], 2),
        (&[0xd0, 0x02], 3),
        (&[0xf0, 0x02], 2),
        (&[0x69, 0x01], 3),
        (&[0xa5, 0x10], 3),
        (&[0xee, 0x00, 0x02], 6),
        (&[0x48], 3),
        (&[0x68], 4),
    ];
    for (program, cycles) in cases {
        let mut nes = Nes::new(NoScreen, NoAudio);
        nes.load(&image(program)).unwrap();
        nes.console.cpu.cycles = 0;
        nes.console.ppu.scan_line = 7;
        nes.console.ppu.scan_cycle = 100;
        nes.step().unwrap();
        assert_eq!(nes.console.cpu.cycles, 0);
        assert_eq!(
            (nes.console.ppu.scan_line, nes.console.ppu.scan_cycle),
            (7, 100 + 3 * cycles),
            "{:02x?}",
            program
        );
    }
}

#[test]
fn step_moves_the_beam_across_lines_and_frames() {
    let mut nes = Nes::new(NoScreen, NoAudio);
    nes.load(&image(&[0xea])).unwrap();
    nes.console.cpu.cycles = 0;
    nes.console.ppu.scan_line = 260;
    nes.console.ppu.scan_cycle = 338;
    nes.step().unwrap();
    assert_eq!((nes.console.ppu.scan_line, nes.console.ppu.scan_cycle), (-1, 3));
}

#[test]
fn the_frame_is_drawn_before_the_interrupt() {
    // LDA #$80; STA $2000; JMP $8005
    let program = [0xa9, 0x80, 0x8d, 0x00, 0x20, 0x4c, 0x05, 0x80];
    // a screen that takes the frame: the interrupt follows on the same dot
    let mut nes = Nes::new(Counter::new(), NoAudio);
    nes.load(&image(&program)).unwrap();
    for _ in 0..27507 {
        nes.clock().unwrap();
    }
    assert_eq!(nes.screen.frames.len(), 0);
    assert_eq!(nes.console.cpu.sp, 0xfd);
    nes.clock().unwrap();
    assert_eq!(nes.screen.frames.len(), 1);
    assert_eq!(nes.console.cpu.sp, 0xfa);
    assert_eq!(nes.console.ppu.reg_status.get_bits() & 0x80, 0x80);

    // a screen that refuses the frame: the dot stops before the interrupt
    let mut screen = Counter::new();
    screen.fail_at = Some(0);
    let mut nes = Nes::new(screen, NoAudio);
    nes.load(&image(&program)).unwrap();
    for _ in 0..27507 {
        nes.clock().unwrap();
    }
    let pc = nes.console.cpu.pc;
    assert_eq!(nes.clock(), Err(NesError::SinkError));
    assert_eq!(nes.screen.pixels, 5);
    assert_eq!(nes.screen.frames.len(), 0);
    assert_eq!((nes.console.ppu.scan_line, nes.console.ppu.scan_cycle), (241, 1));
    assert_eq!(nes.console.ppu.reg_status.get_bits() & 0x80, 0x80);
    assert_eq!(nes.console.cpu.sp, 0xfd);
    assert!(nes.console.cpu.pc == pc || nes.console.cpu.pc == 0x8005);
    assert!((0x8000..0x8008).contains(&nes.console.cpu.pc));
}

#[test]
fn an_interrupt_that_fails_comes_after_the_frame() {
    // the interrupt is asked for, and its vector cannot be read
    let mut nes = Nes::new(Counter::new(), NoAudio);
    nes.load(&image(&LOOP)).unwrap();
    nes.console.cartridge.rom.prgmem.clear();
    nes.console.ppu.reg_control.update(0x80);
    nes.console.ppu.scan_line = 241;
    nes.console.ppu.scan_cycle = 0;
    nes.console.cpu.cycles = 10;
    assert_eq!(nes.clock(), Err(NesError::BusError));
    // the frame was drawn and the screen told so
    assert_eq!(nes.screen.frames.len(), 1);
    // the beam did not move on
    assert_eq!((nes.console.ppu.scan_line, nes.console.ppu.scan_cycle), (241, 1));
    assert_eq!(nes.console.ppu.reg_status.get_bits() & 0x80, 0x80);
}

#[test]
fn step_over_plp_and_rti_pulls_the_status() {
    for pulled in [0x00u8, 0xff, 0x10, 0x20, 0x30, 0xcf, 0x5a, 0xa5] {
        for sp in [0xf0u8, 0xfe, 0xff] {
            // PLP
            let mut nes = Nes::new(NoScreen, NoAudio);
            nes.load(&image(&[0x28])).unwrap();
            nes.console.cpu.cycles = 0;
            nes.console.cpu.sp = sp;
            nes.console.bus_cpu.ram[0x100 + sp.wrapping_add(1) as usize] = pulled;
            assert!(nes.step().is_ok());
            assert_eq!(nes.console.cpu.status, (pulled & 0xef) | 0x20);
            assert_eq!(nes.console.cpu.sp, sp.wrapping_add(1));
            assert_eq!(nes.console.ppu.scan_cycle, 12);
            // RTI
            let mut nes = Nes::new(NoScreen, NoAudio);
            nes.load(&image(&[0x40])).unwrap();
            nes.console.cpu.cycles = 0;
            nes.console.cpu.sp = sp;
            nes.console.bus_cpu.ram[0x100 + sp.wrapping_add(1) as usize] = pulled;
            nes.console.bus_cpu.ram[0x100 + sp.wrapping_add(2) as usize] = 0x34;
            nes.console.bus_cpu.ram[0x100 + sp.wrapping_add(3) as usize] = 0x12;
            assert!(nes.step().is_ok());
            assert_eq!(nes.console.cpu.status, (pulled & 0xef) | 0x20);
            assert_eq!(nes.console.cpu.sp, sp.wrapping_add(3));
            assert_eq!(nes.console.cpu.pc, 0x1234);
            assert_eq!(nes.console.ppu.scan_cycle, 18);
        }
    }
}

#[test]
fn buttons_go_to_their_controller() {
    let mut nes = Nes::new(NoScreen, NoAudio);
    assert_eq!(nes.press_btn(Button::A, true), Ok(()));
    assert_eq!(nes.press_btn(Button::Right, true), Ok(()));
    assert_eq!(nes.press_btn(Button::Start, false), Ok(()));
    assert_eq!(nes.console.joypad.0.status, 0x81);
    assert_eq!(nes.console.joypad.1.status, 0x08);
    assert_eq!(nes.release_btn(Button::A, true), Ok(()));
    assert_eq!(nes.release_btn(Button::A, false), Ok(()));
    assert_eq!(nes.console.joypad.0.status, 0x80);
    assert_eq!(nes.console.joypad.1.status, 0x08);
    assert_eq!(nes.release_btn(Button::Start, false), Ok(()));
    assert_eq!(nes.console.joypad.1.status, 0x00);
}

#[test]
fn silent_sinks_accept_everything() {
    let mut screen = NoScreen;
    assert_eq!(screen.draw_pixel(255, 239, (1, 2, 3)), Ok(()));
    assert_eq!(screen.vblank(), Ok(()));
    let mut audio = NoAudio;
    assert_eq!(audio.enable_channel(AudioChannel::Triangle, true), Ok(()));
    assert_eq!(audio.update_pulse(AudioChannel::Pulse2, Some(6), Some(15), Some(2000)), Ok(()));
    assert_eq!(audio.update_triangle(Some(100), Some(true)), Ok(()));
}
