use nes::busppu;
use nes::cartridge::Cartridge;
use nes::console::Console;
use nes::cpu;
use nes::error::NesError;
use nes::nesscreen::Pixel;
use nes::ppu;
use nes::ppu::regs::{RegControl, RegMask, RegScroll, RegStatus};
use nes::ppu::render::{
    render_background, render_frame, render_nametable, render_sprites, ViewPort,
};
use nes::ppu::Ppu;

/// A console with 8 KiB of character RAM and an interrupt handler at
/// 0x9000.
fn console(flags6: u8) -> Console {
    let mut rom = vec![0x4e, 0x45, 0x53, 0x1a, 2, 0, flags6, 0];
    rom.resize(16, 0);
    let mut prg = vec![0xeau8; 0x8000];
    prg[0x7ffa] = 0x00;
    prg[0x7ffb] = 0x90;
    prg[0x7ffc] = 0x00;
    prg[0x7ffd] = 0x80;
    rom.extend(prg);
    let mut c = Console::new();
    c.cartridge = Cartridge::from_ines(&rom).unwrap();
    cpu::reset(&mut c).unwrap();
    c
}

fn emphasis_by_scaling(bits: u8, rgb: (u8, u8, u8)) -> (u8, u8, u8) {
    let mut rgb = rgb;
    if bits & 0x20 != 0 {
        rgb.2 = (1.1 * (rgb.2 as f32)) as u8;
        rgb.1 = (0.9 * (rgb.1 as f32)) as u8;
        rgb.0 = (0.9 * (rgb.0 as f32)) as u8;
    }
    if bits & 0x40 != 0 {
        rgb.2 = (0.9 * (rgb.2 as f32)) as u8;
        rgb.1 = (1.1 * (rgb.1 as f32)) as u8;
        rgb.0 = (0.9 * (rgb.0 as f32)) as u8;
    }
    if bits & 0x80 != 0 {
        rgb.2 = (0.9 * (rgb.2 as f32)) as u8;
        rgb.1 = (0.9 * (rgb.1 as f32)) as u8;
        rgb.0 = (1.1 * (rgb.0 as f32)) as u8;
    }
    rgb
}

#[test]
fn power_on_state() {
    let p = Ppu::new();
    assert_eq!(p.scan_line, -1);
    assert_eq!(p.scan_cycle, 0);
    assert!(p.addr_latch);
    assert_eq!(p.reg_status.get_bits(), 0);
    assert_eq!(p.oam, [0u8; 256]);
    assert_eq!(RegStatus::new().get_bits(), 0);
    assert_eq!(RegControl::default().bits, 0);
    assert_eq!(RegMask::default().bits, 0);
    assert_eq!(RegScroll::default(), RegScroll { scroll_x: 0, scroll_y: 0, latch: false });
}

#[test]
fn control_register_fields() {
    let mut r = RegControl::default();
    r.update(0x80);
    assert!(r.is_nmi_enabled() && !r.is_inc_mode() && !r.get_bg() && !r.get_spr());
    assert_eq!(r.vram_increment(), 1);
    r.update(0x04);
    assert!(r.is_inc_mode() && !r.is_nmi_enabled());
    assert_eq!(r.vram_increment(), 32);
    r.update(0x10);
    assert!(r.get_bg());
    r.update(0x08);
    assert!(r.get_spr());
    r.update(0x20);
    assert!(r.spr_height_16());
    for (bits, offset) in [(0u8, 0x000u16), (1, 0x400), (2, 0x800), (3, 0xc00), (0xff, 0xc00)] {
        r.update(bits);
        assert_eq!(r.nametable_offset(), offset);
    }
}

#[test]
fn mask_and_status_fields() {
    let mut m = RegMask::default();
    m.update(0x01);
    assert!(m.grayscale() && !m.render_spr_enabled());
    m.update(0x10);
    assert!(m.render_spr_enabled());
    m.update(0xe0);
    assert!(m.emphasis_r() && m.emphasis_g() && m.emphasis_b());
    m.update(0x40);
    assert!(!m.emphasis_r() && m.emphasis_g() && !m.emphasis_b());

    let mut s = RegStatus::new();
    s.set_vblank(true);
    assert_eq!(s.get_bits(), 0x80);
    s.set_sprite_0_hit(true);
    assert_eq!(s.get_bits(), 0xc0);
    s.set_vblank(false);
    assert_eq!(s.get_bits(), 0x40);
    s.set_sprite_0_hit(false);
    assert_eq!(s.get_bits(), 0x00);
}

#[test]
fn scroll_register_alternates() {
    let mut r = RegScroll::default();
    r.write(1);
    assert_eq!(r, RegScroll { scroll_x: 1, scroll_y: 0, latch: true });
    r.write(2);
    assert_eq!(r, RegScroll { scroll_x: 1, scroll_y: 2, latch: false });
}

#[test]
fn frame_cadence() {
    let mut c = console(0);
    let mut frames = Vec::new();
    for dot in 0..(3 * 341 * 262u32) {
        let at = (c.ppu.scan_line, c.ppu.scan_cycle);
        let frame = ppu::clock(&mut c).unwrap();
        assert_eq!(frame, at == (241, 1));
        if frame {
            frames.push(dot);
            assert_eq!(c.ppu.reg_status.get_bits() & 0x80, 0x80);
        }
        if c.ppu.scan_line == -1 {
            assert_eq!(c.ppu.reg_status.get_bits() & 0x80, 0);
        }
        assert!((-1..=260).contains(&c.ppu.scan_line));
        assert!(c.ppu.scan_cycle <= 340);
    }
    assert_eq!(frames, vec![242 * 341 + 1, 242 * 341 + 1 + 89342, 242 * 341 + 1 + 2 * 89342]);
    assert_eq!((c.ppu.scan_line, c.ppu.scan_cycle), (-1, 0));
}

#[test]
fn one_frame_in_any_window() {
    for start in [0u32, 1, 82522, 82523, 82524, 89341, 40000] {
        let mut c = console(0);
        for _ in 0..start {
            ppu::clock(&mut c).unwrap();
        }
        let mut frames = 0;
        for _ in 0..89342 {
            if ppu::clock(&mut c).unwrap() {
                frames += 1;
            }
        }
        assert_eq!(frames, 1, "window from dot {}", start);
    }
}

#[test]
fn vblank_bit_lasts_until_the_frame_ends() {
    let mut c = console(0);
    c.ppu.scan_line = 241;
    c.ppu.scan_cycle = 0;
    assert_eq!(ppu::clock(&mut c), Ok(false));
    assert_eq!(c.ppu.reg_status.get_bits(), 0);
    assert_eq!(ppu::clock(&mut c), Ok(true));
    assert_eq!(c.ppu.reg_status.get_bits(), 0x80);
    while (c.ppu.scan_line, c.ppu.scan_cycle) != (260, 340) {
        assert_eq!(ppu::clock(&mut c), Ok(false));
        assert_eq!(c.ppu.reg_status.get_bits(), 0x80);
    }
    assert_eq!(ppu::clock(&mut c), Ok(false));
    assert_eq!((c.ppu.scan_line, c.ppu.scan_cycle), (-1, 0));
    assert_eq!(c.ppu.reg_status.get_bits(), 0);
}

#[test]
fn vblank_interrupts_the_processor_when_enabled() {
    let mut c = console(0);
    c.ppu.scan_line = 241;
    c.ppu.scan_cycle = 1;
    c.cpu.pc = 0x8123;
    assert_eq!(ppu::clock(&mut c), Ok(true));
    assert_eq!(c.cpu.pc, 0x8123);
    assert_eq!(c.cpu.sp, 0xfd);

    c.ppu.scan_line = 241;
    c.ppu.scan_cycle = 1;
    c.ppu.reg_control.update(0x80);
    assert_eq!(ppu::clock(&mut c), Ok(true));
    assert_eq!(c.cpu.pc, 0x9000);
    assert_eq!(c.cpu.sp, 0xfa);
    // eight cycles on top of the eight of the reset
    assert_eq!(c.cpu.cycles, 16);
    assert_eq!(c.bus_cpu.ram[0x1fd], 0x81);
    assert_eq!(c.bus_cpu.ram[0x1fc], 0x23);
    assert_eq!((c.ppu.scan_line, c.ppu.scan_cycle), (241, 2));
}

#[test]
fn a_dot_begins_before_it_ends() {
    let mut c = console(0);
    c.ppu.reg_control.update(0x80);
    c.ppu.reg_status.set_sprite_0_hit(true);
    // an ordinary dot: nothing to begin
    c.ppu.scan_line = 100;
    c.ppu.scan_cycle = 7;
    assert!(!ppu::begin_dot(&mut c));
    assert_eq!((c.ppu.scan_line, c.ppu.scan_cycle), (100, 7));
    assert_eq!(c.ppu.reg_status.get_bits(), 0x40);
    assert_eq!(ppu::end_dot(&mut c, false), Ok(()));
    assert_eq!((c.ppu.scan_line, c.ppu.scan_cycle), (100, 8));
    assert_eq!(c.cpu.sp, 0xfd);
    // the dot of the vertical blank: the status is set first, the
    // interrupt and the beam wait for the end of the dot
    c.ppu.scan_line = 241;
    c.ppu.scan_cycle = 1;
    assert!(ppu::begin_dot(&mut c));
    assert_eq!((c.ppu.scan_line, c.ppu.scan_cycle), (241, 1));
    assert_eq!(c.ppu.reg_status.get_bits(), 0x80);
    assert_eq!(c.cpu.sp, 0xfd);
    assert_eq!(c.cpu.pc, 0x8000);
    assert_eq!(ppu::end_dot(&mut c, true), Ok(()));
    assert_eq!((c.ppu.scan_line, c.ppu.scan_cycle), (241, 2));
    assert_eq!(c.cpu.sp, 0xfa);
    assert_eq!(c.cpu.pc, 0x9000);
    // without the flag the end of a dot interrupts nothing
    let mut c = console(0);
    c.ppu.reg_control.update(0x80);
    assert_eq!(ppu::end_dot(&mut c, false), Ok(()));
    assert_eq!(c.cpu.pc, 0x8000);
}

#[test]
fn a_failed_interrupt_stops_the_dot() {
    let mut c = Console::new();
    c.ppu.scan_line = 241;
    c.ppu.scan_cycle = 1;
    c.ppu.reg_control.update(0x80);
    assert_eq!(ppu::clock(&mut c), Err(NesError::BusError));
    assert_eq!((c.ppu.scan_line, c.ppu.scan_cycle), (241, 1));
    assert_eq!(c.ppu.reg_status.get_bits(), 0x80);
}

#[test]
fn sprite_0_hit() {
    let mut c = console(0);
    c.ppu.oam[0] = 10;
    c.ppu.oam[3] = 200;
    c.ppu.reg_mask.update(0x10);
    c.ppu.scan_line = 10;
    assert!(ppu::is_sprite_0_hit(&c.ppu, 200));
    assert!(!ppu::is_sprite_0_hit(&c.ppu, 199));
    c.ppu.scan_line = 11;
    assert!(!ppu::is_sprite_0_hit(&c.ppu, 341));
    c.ppu.scan_line = 10;
    c.ppu.reg_mask.update(0x00);
    assert!(!ppu::is_sprite_0_hit(&c.ppu, 341));
    c.ppu.oam[0] = 255;
    c.ppu.scan_line = -1;
    c.ppu.reg_mask.update(0x10);
    assert!(!ppu::is_sprite_0_hit(&c.ppu, 341));

    // the hit is taken down at the end of the sprite's first scanline
    c.ppu.oam[0] = 10;
    c.ppu.scan_line = 10;
    c.ppu.scan_cycle = 339;
    ppu::clock(&mut c).unwrap();
    assert_eq!(c.ppu.reg_status.get_bits() & 0x40, 0);
    ppu::clock(&mut c).unwrap();
    assert_eq!((c.ppu.scan_line, c.ppu.scan_cycle), (11, 0));
    assert_eq!(c.ppu.reg_status.get_bits() & 0x40, 0x40);
    // and cleared when the vertical blank starts
    c.ppu.scan_line = 241;
    c.ppu.scan_cycle = 1;
    ppu::clock(&mut c).unwrap();
    assert_eq!(c.ppu.reg_status.get_bits(), 0x80);
}

#[test]
fn beam_recovers_from_any_position() {
    let mut p = Ppu::new();
    p.scan_cycle = 0xffff;
    p.scan_line = 300;
    p.advance();
    assert_eq!((p.scan_line, p.scan_cycle), (-1, 0));
    p.scan_cycle = 5000;
    p.scan_line = 17;
    p.advance();
    assert_eq!((p.scan_line, p.scan_cycle), (18, 0));
}

#[test]
fn emphasis_scales_the_channels() {
    let mut rgb = (100, 100, 100);
    ppu::emphasis(&RegMask { bits: 0x00 }, &mut rgb);
    assert_eq!(rgb, (100, 100, 100));
    ppu::emphasis(&RegMask { bits: 0x20 }, &mut rgb);
    assert_eq!(rgb, (90, 90, 110));
    let mut rgb = (100, 100, 100);
    ppu::emphasis(&RegMask { bits: 0x40 }, &mut rgb);
    assert_eq!(rgb, (90, 110, 90));
    let mut rgb = (100, 100, 100);
    ppu::emphasis(&RegMask { bits: 0x80 }, &mut rgb);
    assert_eq!(rgb, (110, 90, 90));
    let mut rgb = (255, 7, 0);
    ppu::emphasis(&RegMask { bits: 0x80 }, &mut rgb);
    assert_eq!(rgb, (255, 6, 0));
    let mut rgb = (200, 200, 200);
    ppu::emphasis(&RegMask { bits: 0xe0 }, &mut rgb);
    assert_eq!(rgb, (178, 178, 178));
}

#[test]
fn emphasis_matches_scaling_by_a_tenth() {
    for bits in [0x00u8, 0x20, 0x40, 0x60, 0x80, 0xa0, 0xc0, 0xe0, 0xff, 0x1f] {
        for v in 0..=255u8 {
            for rgb in [(v, v, v), (v, 255 - v, 17), (3, v, 255 - v), (v / 2, 200, v)] {
                let mut tinted = rgb;
                ppu::emphasis(&RegMask { bits }, &mut tinted);
                assert_eq!(tinted, emphasis_by_scaling(bits, rgb));
            }
        }
    }
}

#[test]
fn palette_colours() {
    assert_eq!(ppu::palette_rgb(0x00), (0x80, 0x80, 0x80));
    assert_eq!(ppu::palette_rgb(0x01), (0x00, 0x3d, 0xa6));
    assert_eq!(ppu::palette_rgb(0x0d), (0x00, 0x00, 0x00));
    assert_eq!(ppu::palette_rgb(0x16), (0xff, 0x22, 0x00));
    assert_eq!(ppu::palette_rgb(0x20), (0xff, 0xff, 0xff));
    assert_eq!(ppu::palette_rgb(0x21), (0x0f, 0xd7, 0xff));
    assert_eq!(ppu::palette_rgb(0x3f), (0x11, 0x11, 0x11));
    for idx in 0..64u8 {
        for k in 1..4u8 {
            assert_eq!(ppu::palette_rgb(idx + 64 * k), ppu::palette_rgb(idx));
        }
    }
}

#[test]
fn viewport_from_an_array() {
    let vp = ViewPort::from([1, 2, 3, 4]);
    assert_eq!(vp, ViewPort { x1: 1, y1: 2, x2: 3, y2: 4 });
    assert!(vp.contains(1, 2));
    assert!(vp.contains(2, 3));
    assert!(!vp.contains(3, 3));
    assert!(!vp.contains(2, 4));
    assert!(!vp.contains(0, 2));
}

/// Gives tile 1 a pattern whose pixel in column `x` of row `y` has colour
/// number `(x + y) % 4`.
fn fill_pattern(c: &mut Console, table: u16, tile: u16) {
    for y in 0..8u16 {
        let mut lo = 0u8;
        let mut hi = 0u8;
        for x in 0..8u16 {
            let value = ((x + y) % 4) as u8;
            // column x is bit 7 - x
            lo |= (value & 1) << (7 - x);
            hi |= (value >> 1) << (7 - x);
        }
        busppu::write(c, table + tile * 16 + y, lo).unwrap();
        busppu::write(c, table + tile * 16 + y + 8, hi).unwrap();
    }
}

fn at(list: &[Pixel], x: u8, y: u8) -> Vec<(u8, u8, u8)> {
    list.iter().filter(|p| p.x == x && p.y == y).map(|p| p.rgb).collect()
}

#[test]
fn nametable_is_drawn_tile_by_tile() {
    let mut c = console(0);
    fill_pattern(&mut c, 0x0000, 1);
    // tile 1 at column 2, row 1; its attribute quarter selects palette 2
    busppu::write(&mut c, 0x2000 + 32 + 2, 1).unwrap();
    busppu::write(&mut c, 0x23c0, 0b0000_1000).unwrap();
    busppu::write(&mut c, 0x3f00, 0x0d).unwrap();
    for value in 1..4u16 {
        busppu::write(&mut c, 0x3f00 + 8 + value, 0x10 + value as u8).unwrap();
    }
    let full = ViewPort { x1: 0, y1: 0, x2: 255, y2: 240 };
    let list = render_nametable(&c, 0x2000, full, 0, 0).unwrap();
    // every pixel but the last column is drawn once
    assert_eq!(list.len(), 255 * 240);
    // a tile is drawn row by row, each row from right to left
    let head: Vec<(u8, u8)> = list[..10].iter().map(|p| (p.x, p.y)).collect();
    assert_eq!(
        head,
        vec![(7, 0), (6, 0), (5, 0), (4, 0), (3, 0), (2, 0), (1, 0), (0, 0), (7, 1), (6, 1)]
    );
    assert_eq!(list[64].x, 15);
    assert_eq!(list[64].y, 0);
    for y in 0..8u8 {
        for x in 0..8u8 {
            let value = (x + y) % 4;
            let entry = if value == 0 { 0x0d } else { 0x10 + value };
            assert_eq!(at(&list, 16 + x, 8 + y), vec![ppu::palette_rgb(entry)]);
        }
    }
    // elsewhere tile 0 shows the shared background colour
    assert_eq!(at(&list, 0, 0), vec![ppu::palette_rgb(0x0d)]);
    assert_eq!(at(&list, 254, 239), vec![ppu::palette_rgb(0x0d)]);
    assert_eq!(at(&list, 255, 0), vec![]);
}

#[test]
fn nametable_viewport_and_scroll() {
    let mut c = console(0);
    busppu::write(&mut c, 0x3f00, 0x21).unwrap();
    let list =
        render_nametable(&c, 0x2000, ViewPort { x1: 10, y1: 20, x2: 12, y2: 23 }, -10, -20)
            .unwrap();
    let mut places: Vec<(u8, u8)> = list.iter().map(|p| (p.x, p.y)).collect();
    places.sort();
    assert_eq!(places, vec![(0, 0), (0, 1), (0, 2), (1, 0), (1, 1), (1, 2)]);
    // positions wrap at 256
    let list =
        render_nametable(&c, 0x2000, ViewPort { x1: 0, y1: 0, x2: 2, y2: 1 }, 255, -1).unwrap();
    let mut places: Vec<(u8, u8)> = list.iter().map(|p| (p.x, p.y)).collect();
    places.sort();
    assert_eq!(places, vec![(0, 255), (255, 255)]);
    // the background pattern table is chosen by the control register
    fill_pattern(&mut c, 0x1000, 0);
    busppu::write(&mut c, 0x3f01, 0x16).unwrap();
    let one = ViewPort { x1: 1, y1: 0, x2: 2, y2: 1 };
    assert_eq!(render_nametable(&c, 0x2000, one, 0, 0).unwrap()[0].rgb, ppu::palette_rgb(0x21));
    c.ppu.reg_control.update(0x10);
    assert_eq!(render_nametable(&c, 0x2000, one, 0, 0).unwrap()[0].rgb, ppu::palette_rgb(0x16));
}

#[test]
fn attribute_quarters() {
    let mut c = console(0);
    fill_pattern(&mut c, 0x0000, 0);
    busppu::write(&mut c, 0x23c0 + 8 + 1, 0b11_10_01_00).unwrap();
    for palette in 0..4u16 {
        busppu::write(&mut c, 0x3f00 + 4 * palette + 1, 0x30 + palette as u8).unwrap();
    }
    // the attribute byte serves tile columns 4-7 and rows 4-7
    for (col, row, palette) in [(4u8, 4u8, 0u8), (6, 4, 1), (5, 7, 2), (7, 6, 3)] {
        let x = col * 8 + 1;
        let y = row * 8;
        let vp = ViewPort { x1: x, y1: y, x2: x + 1, y2: y + 1 };
        let list = render_nametable(&c, 0x2000, vp, 0, 0).unwrap();
        assert_eq!(list.len(), 1);
        assert_eq!(list[0], Pixel { x, y, rgb: ppu::palette_rgb(0x30 + palette) });
    }
}

#[test]
fn background_without_scroll_draws_one_nametable() {
    let mut c = console(0);
    busppu::write(&mut c, 0x3f00, 0x01).unwrap();
    let list = render_background(&c).unwrap();
    assert_eq!(list.len(), 255 * 240);
    let full = ViewPort { x1: 0, y1: 0, x2: 255, y2: 240 };
    assert_eq!(list, render_nametable(&c, 0x2000, full, 0, 0).unwrap());
}

#[test]
fn background_scrolled_sideways_draws_two_nametables() {
    // vertical mirroring: 0x2000 and 0x2400 are two nametables
    let mut c = console(1);
    fill_pattern(&mut c, 0x0000, 1);
    busppu::write(&mut c, 0x3f00, 0x0d).unwrap();
    busppu::write(&mut c, 0x3f01, 0x16).unwrap();
    // the second nametable is filled with tile 1
    for i in 0..960u16 {
        busppu::write(&mut c, 0x2400 + i, 1).unwrap();
    }
    c.ppu.reg_scroll.scroll_x = 16;
    let list = render_background(&c).unwrap();
    let first = render_nametable(&c, 0x2000, ViewPort { x1: 16, y1: 0, x2: 255, y2: 240 }, -16, 0)
        .unwrap();
    let second =
        render_nametable(&c, 0x2400, ViewPort { x1: 0, y1: 0, x2: 16, y2: 240 }, 240, 0).unwrap();
    assert_eq!(first.len(), 239 * 240);
    assert_eq!(second.len(), 16 * 240);
    assert_eq!(list.len(), first.len() + second.len());
    assert_eq!(&list[..first.len()], &first[..]);
    assert_eq!(&list[first.len()..], &second[..]);
    // column 1 of tile 1 has colour number 1 in row 0
    assert_eq!(at(&list, 241, 0), vec![ppu::palette_rgb(0x16)]);
    assert_eq!(at(&list, 0, 0), vec![ppu::palette_rgb(0x0d)]);
    assert_eq!(at(&list, 239, 0), vec![]);

    // with the other base nametable the two change places
    c.ppu.reg_control.update(0x01);
    let list = render_background(&c).unwrap();
    assert_eq!(at(&list, 1, 0), vec![ppu::palette_rgb(0x16)]);
    assert_eq!(at(&list, 241, 0), vec![ppu::palette_rgb(0x0d)]);
}

#[test]
fn background_scrolled_down() {
    let mut c = console(1);
    busppu::write(&mut c, 0x3f00, 0x0d).unwrap();
    c.ppu.reg_scroll.scroll_y = 8;
    let list = render_background(&c).unwrap();
    assert_eq!(list.len(), 255 * 232 + 255 * 8);
    assert_eq!(at(&list, 0, 0).len(), 1);
    assert_eq!(at(&list, 0, 231).len(), 1);
    assert_eq!(at(&list, 0, 232).len(), 1);
    assert_eq!(at(&list, 0, 239).len(), 1);
}

#[test]
fn sprites_are_drawn_in_memory_order() {
    let mut c = console(0);
    fill_pattern(&mut c, 0x0000, 1);
    for value in 1..4u16 {
        busppu::write(&mut c, 0x3f10 + 4 + value, 0x20 + value as u8).unwrap();
    }
    // hide all sprites below the screen, then place sprite 3
    for s in 0..64 {
        c.ppu.oam[4 * s] = 0xf8;
    }
    c.ppu.oam[12] = 50;
    c.ppu.oam[13] = 1;
    c.ppu.oam[14] = 0x01;
    c.ppu.oam[15] = 100;
    c.ppu.oam[0] = 250;
    c.ppu.oam[4] = 240;
    // tile 0 is blank: the hidden sprites add nothing even where on screen
    c.ppu.oam[8] = 10;
    let list = render_sprites(&c).unwrap();
    // 48 of the 64 pixels are not transparent
    assert_eq!(list.len(), 48);
    for y in 0..8u8 {
        for x in 0..8u8 {
            let value = (x + y) % 4;
            let expected =
                if value == 0 { vec![] } else { vec![ppu::palette_rgb(0x20 + value)] };
            assert_eq!(at(&list, 100 + x, 50 + y), expected);
        }
    }
    // rows are drawn from the top, each from right to left
    assert_eq!((list[0].x, list[0].y), (107, 50));
    assert_eq!((list[1].x, list[1].y), (106, 50));
    assert_eq!((list[47].x, list[47].y), (100, 57));
}

#[test]
fn sprites_flip() {
    let mut c = console(0);
    // one pixel in the top left corner of tile 2
    busppu::write(&mut c, 0x0020, 0x80).unwrap();
    busppu::write(&mut c, 0x3f11, 0x2c).unwrap();
    for s in 0..64 {
        c.ppu.oam[4 * s] = 0xf8;
    }
    c.ppu.oam[1] = 2;
    c.ppu.oam[3] = 30;
    let rgb = ppu::palette_rgb(0x2c);
    for (attr, x, y) in [(0x00u8, 30u8, 20u8), (0x40, 37, 20), (0x80, 30, 27), (0xc0, 37, 27)] {
        c.ppu.oam[0] = 20;
        c.ppu.oam[2] = attr;
        assert_eq!(render_sprites(&c).unwrap(), vec![Pixel { x, y, rgb }]);
    }
    // positions wrap, and rows from 240 on are not drawn
    c.ppu.oam[2] = 0x40;
    c.ppu.oam[3] = 250;
    assert_eq!(render_sprites(&c).unwrap(), vec![Pixel { x: 1, y: 20, rgb }]);
    c.ppu.oam[0] = 239;
    assert_eq!(render_sprites(&c).unwrap().len(), 1);
    c.ppu.oam[0] = 240;
    assert_eq!(render_sprites(&c).unwrap().len(), 0);
    c.ppu.oam[2] = 0x80;
    c.ppu.oam[0] = 250;
    assert_eq!(render_sprites(&c).unwrap(), vec![Pixel { x: 250, y: 1, rgb }]);
}

#[test]
fn sprite_pattern_tables() {
    let mut c = console(0);
    busppu::write(&mut c, 0x0030, 0x80).unwrap(); // tile 3, table 0
    busppu::write(&mut c, 0x1030, 0x01).unwrap(); // tile 3, table 1
    busppu::write(&mut c, 0x3f11, 0x2c).unwrap();
    for s in 0..64 {
        c.ppu.oam[4 * s] = 0xf8;
    }
    c.ppu.oam[0] = 0;
    c.ppu.oam[1] = 3;
    c.ppu.oam[3] = 0;
    let list = render_sprites(&c).unwrap();
    assert_eq!(list.iter().map(|p| (p.x, p.y)).collect::<Vec<_>>(), vec![(0, 0)]);
    c.ppu.reg_control.update(0x08);
    let list = render_sprites(&c).unwrap();
    assert_eq!(list.iter().map(|p| (p.x, p.y)).collect::<Vec<_>>(), vec![(7, 0)]);
}

#[test]
fn tall_sprites_take_two_patterns() {
    let mut c = console(0);
    busppu::write(&mut c, 0x0040, 0x80).unwrap(); // pattern 4, row 0
    busppu::write(&mut c, 0x0050, 0x40).unwrap(); // pattern 5, row 0
    busppu::write(&mut c, 0x1040, 0x20).unwrap(); // pattern 260, row 0
    busppu::write(&mut c, 0x3f11, 0x2c).unwrap();
    for s in 0..64 {
        c.ppu.oam[4 * s] = 0xf8;
    }
    c.ppu.reg_control.update(0x20);
    c.ppu.oam[0] = 100;
    c.ppu.oam[1] = 4;
    c.ppu.oam[3] = 8;
    let list = render_sprites(&c).unwrap();
    assert_eq!(list.iter().map(|p| (p.x, p.y)).collect::<Vec<_>>(), vec![(8, 100), (9, 101)]);
    // an odd number takes the lower half 256 patterns further
    c.ppu.oam[1] = 5;
    let list = render_sprites(&c).unwrap();
    assert_eq!(list.iter().map(|p| (p.x, p.y)).collect::<Vec<_>>(), vec![(8, 100), (10, 101)]);
}

#[test]
fn frame_is_background_then_sprites() {
    let mut c = console(0);
    busppu::write(&mut c, 0x0010, 0xff).unwrap();
    busppu::write(&mut c, 0x3f00, 0x0d).unwrap();
    busppu::write(&mut c, 0x3f11, 0x2c).unwrap();
    for s in 0..64 {
        c.ppu.oam[4 * s] = 0xf8;
    }
    c.ppu.oam[0] = 5;
    c.ppu.oam[1] = 1;
    c.ppu.oam[3] = 5;
    let background = render_background(&c).unwrap();
    let sprites = render_sprites(&c).unwrap();
    assert_eq!(sprites.len(), 8);
    let frame = render_frame(&c).unwrap();
    assert_eq!(frame.len(), background.len() + 8);
    assert_eq!(&frame[..background.len()], &background[..]);
    assert_eq!(&frame[background.len()..], &sprites[..]);
    // the sprite is drawn over the background
    assert_eq!(at(&frame, 5, 5), vec![ppu::palette_rgb(0x0d), ppu::palette_rgb(0x2c)]);
}

#[test]
fn emphasis_tints_what_is_drawn() {
    let mut c = console(0);
    busppu::write(&mut c, 0x3f00, 0x16).unwrap();
    c.ppu.reg_mask.update(0x80);
    let one = ViewPort { x1: 0, y1: 0, x2: 1, y2: 1 };
    let list = render_nametable(&c, 0x2000, one, 0, 0).unwrap();
    let mut rgb = ppu::palette_rgb(0x16);
    ppu::emphasis(&c.ppu.reg_mask, &mut rgb);
    assert_eq!(rgb, (255, 30, 0));
    assert_eq!(list, vec![Pixel { x: 0, y: 0, rgb }]);
}

#[test]
fn rendering_fails_where_a_pattern_cannot_be_read() {
    // mapper 66 with one character bank, switched to a bank that is not there
    let mut rom = vec![0x4e, 0x45, 0x53, 0x1a, 2, 1, 0x20, 0x40];
    rom.resize(16, 0);
    rom.extend(vec![0u8; 0x8000 + 0x2000]);
    let mut c = Console::new();
    c.cartridge = Cartridge::from_ines(&rom).unwrap();
    assert!(render_frame(&c).is_ok());
    nes::cartridge::prg_write(&mut c.cartridge, 0x8000, 0x01).unwrap();
    assert_eq!(render_background(&c), Err(NesError::BusError));
    assert_eq!(render_sprites(&c), Err(NesError::BusError));
    assert_eq!(render_frame(&c), Err(NesError::BusError));
}
