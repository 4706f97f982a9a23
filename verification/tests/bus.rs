use nes::buscpu;
use nes::busppu;
use nes::cartridge::Cartridge;
use nes::console::Console;
use nes::error::NesError;
use nes::joypad::Button;
use nes::ppu::{read_ppu_reg, write_ppu_reg};
use nes::rom::Mirroring;

fn image(mapper: u8, prg_banks: u8, chr_banks: u8, flags6: u8) -> Vec<u8> {
    let mut rom = vec![
        0x4e,
        0x45,
        0x53,
        0x1a,
        prg_banks,
        chr_banks,
        ((mapper & 0x0f) << 4) | flags6,
        mapper & 0xf0,
    ];
    rom.resize(16, 0);
    rom.extend(std::iter::repeat(0xea).take(prg_banks as usize * 0x4000));
    for i in 0..(chr_banks as usize * 0x2000) {
        rom.push((i % 253) as u8);
    }
    rom
}

fn console(mapper: u8, flags6: u8) -> Console {
    let mut c = Console::new();
    c.cartridge = Cartridge::from_ines(&image(mapper, 2, 1, flags6)).unwrap();
    nes::cartridge::reset(&mut c.cartridge).unwrap();
    c
}

#[test]
fn ram_is_mirrored_four_times() {
    let mut c = console(0, 0);
    for (addr, value) in [(0x0000u16, 1u8), (0x07ff, 2), (0x0800, 3), (0x1234, 4), (0x1fff, 5)] {
        assert_eq!(buscpu::write(&mut c, addr, value), Ok(()));
        assert_eq!(buscpu::read(&mut c, addr), Ok(value));
        for mirror in 0..4u16 {
            assert_eq!(buscpu::read(&mut c, (addr & 0x07ff) + mirror * 0x0800), Ok(value));
        }
        assert_eq!(c.bus_cpu.ram[(addr & 0x07ff) as usize], value);
    }
}

#[test]
fn cartridge_answers_from_0x4020() {
    let mut c = console(0, 0);
    c.cartridge.rom.prgmem[0] = 0x11;
    c.cartridge.rom.prgmem[0x7fff] = 0x22;
    assert_eq!(buscpu::read(&mut c, 0x4020), Ok(0x11));
    assert_eq!(buscpu::read(&mut c, 0x8000), Ok(0x11));
    assert_eq!(buscpu::read(&mut c, 0xffff), Ok(0x22));
    assert_eq!(buscpu::write(&mut c, 0x8005, 0x33), Ok(()));
    assert_eq!(buscpu::read(&mut c, 0x8005), Ok(0x33));
}

#[test]
fn work_ram_of_the_cartridge() {
    let mut c = console(1, 0);
    for (addr, value) in [(0x6000u16, 0x12u8), (0x6fff, 0x34), (0x7fff, 0x56)] {
        assert_eq!(buscpu::write(&mut c, addr, value), Ok(()));
        assert_eq!(buscpu::read(&mut c, addr), Ok(value));
    }
    assert_eq!(buscpu::read(&mut c, 0x6000), Ok(0x12));
}

#[test]
fn unmapped_addresses() {
    let mut c = console(0, 0);
    // reads: the sound registers fail, the rest is 0
    for addr in [0x4000u16, 0x4008, 0x4013, 0x4015] {
        assert_eq!(buscpu::read(&mut c, addr), Err(NesError::BusError));
    }
    for addr in [0x4014u16, 0x4018, 0x401f] {
        assert_eq!(buscpu::read(&mut c, addr), Ok(0));
    }
    // writes: nothing answers at 0x4018-0x401F
    for addr in [0x4018u16, 0x401a, 0x401f] {
        assert_eq!(buscpu::write(&mut c, addr, 1), Err(NesError::BusError));
    }
}

#[test]
fn joypads_on_the_bus() {
    let mut c = console(0, 0);
    c.joypad.0.press(Button::A);
    c.joypad.0.press(Button::Start);
    c.joypad.1.press(Button::B);
    buscpu::write(&mut c, 0x4016, 1).unwrap();
    buscpu::write(&mut c, 0x4016, 0).unwrap();
    buscpu::write(&mut c, 0x4017, 1).unwrap();
    buscpu::write(&mut c, 0x4017, 0).unwrap();
    let first: Vec<u8> = (0..9).map(|_| buscpu::read(&mut c, 0x4016).unwrap()).collect();
    let second: Vec<u8> = (0..9).map(|_| buscpu::read(&mut c, 0x4017).unwrap()).collect();
    assert_eq!(first, vec![1, 0, 0, 1, 0, 0, 0, 0, 1]);
    assert_eq!(second, vec![0, 1, 0, 0, 0, 0, 0, 0, 1]);
}

#[test]
fn ppu_registers_repeat_every_eight_bytes() {
    let mut c = console(0, 0);
    buscpu::write(&mut c, 0x2000, 0x84).unwrap();
    assert_eq!(c.ppu.reg_control.bits, 0x84);
    buscpu::write(&mut c, 0x3ff9, 0x1e).unwrap();
    assert_eq!(c.ppu.reg_mask.bits, 0x1e);
    buscpu::write(&mut c, 0x2008, 0x01).unwrap();
    assert_eq!(c.ppu.reg_control.bits, 0x01);
    // write-only registers read as 0
    for addr in [0x2000u16, 0x2001, 0x2003, 0x2005, 0x2006] {
        assert_eq!(buscpu::read(&mut c, addr), Ok(0));
    }
}

#[test]
fn status_read_clears_vblank_and_latches() {
    let mut c = console(0, 0);
    c.ppu.reg_status.bits = 0xe0;
    c.ppu.addr_latch = false;
    c.ppu.reg_scroll.latch = true;
    assert_eq!(buscpu::read(&mut c, 0x2002), Ok(0xe0));
    assert_eq!(c.ppu.reg_status.bits, 0x60);
    assert!(c.ppu.addr_latch);
    assert!(!c.ppu.reg_scroll.latch);
    assert_eq!(buscpu::read(&mut c, 0x2002), Ok(0x60));
    // a write to the status register is ignored
    assert_eq!(buscpu::write(&mut c, 0x2002, 0xff), Ok(()));
    assert_eq!(c.ppu.reg_status.bits, 0x60);
}

#[test]
fn scroll_takes_two_writes() {
    let mut c = console(0, 0);
    buscpu::write(&mut c, 0x2005, 0x12).unwrap();
    assert_eq!((c.ppu.reg_scroll.scroll_x, c.ppu.reg_scroll.scroll_y), (0x12, 0));
    buscpu::write(&mut c, 0x2005, 0x34).unwrap();
    assert_eq!((c.ppu.reg_scroll.scroll_x, c.ppu.reg_scroll.scroll_y), (0x12, 0x34));
    buscpu::write(&mut c, 0x2005, 0x56).unwrap();
    assert_eq!((c.ppu.reg_scroll.scroll_x, c.ppu.reg_scroll.scroll_y), (0x56, 0x34));
}

#[test]
fn oam_address_and_data() {
    let mut c = console(0, 0);
    buscpu::write(&mut c, 0x2003, 0xfe).unwrap();
    buscpu::write(&mut c, 0x2004, 0x0a).unwrap();
    buscpu::write(&mut c, 0x2004, 0x0b).unwrap();
    buscpu::write(&mut c, 0x2004, 0x0c).unwrap();
    assert_eq!(c.ppu.oam[0xfe], 0x0a);
    assert_eq!(c.ppu.oam[0xff], 0x0b);
    assert_eq!(c.ppu.oam[0x00], 0x0c);
    assert_eq!(c.ppu.reg_oam_addr, 1);
    // a read does not move the address
    buscpu::write(&mut c, 0x2003, 0xff).unwrap();
    assert_eq!(buscpu::read(&mut c, 0x2004), Ok(0x0b));
    assert_eq!(buscpu::read(&mut c, 0x2004), Ok(0x0b));
}

#[test]
fn address_port_takes_high_byte_first() {
    let mut c = console(0, 0);
    buscpu::write(&mut c, 0x2006, 0x23).unwrap();
    assert_eq!(c.ppu.reg_addr, 0x2300);
    buscpu::write(&mut c, 0x2006, 0x45).unwrap();
    assert_eq!(c.ppu.reg_addr, 0x2345);
    // only fourteen bits are kept
    buscpu::write(&mut c, 0x2006, 0xff).unwrap();
    assert_eq!(c.ppu.reg_addr, 0x3f45);
}

#[test]
fn data_port_writes_and_buffered_reads() {
    let mut c = console(0, 0);
    buscpu::write(&mut c, 0x2006, 0x20).unwrap();
    buscpu::write(&mut c, 0x2006, 0x10).unwrap();
    for value in [0x11u8, 0x22, 0x33] {
        buscpu::write(&mut c, 0x2007, value).unwrap();
    }
    assert_eq!(c.ppu.reg_addr, 0x2013);
    assert_eq!(&c.bus_ppu.vram[0x10..0x13], &[0x11, 0x22, 0x33]);

    buscpu::read(&mut c, 0x2002).unwrap();
    buscpu::write(&mut c, 0x2006, 0x20).unwrap();
    buscpu::write(&mut c, 0x2006, 0x10).unwrap();
    c.ppu.reg_data = 0x99;
    // the first read gives what the buffer held
    assert_eq!(buscpu::read(&mut c, 0x2007), Ok(0x99));
    assert_eq!(buscpu::read(&mut c, 0x2007), Ok(0x11));
    assert_eq!(buscpu::read(&mut c, 0x2007), Ok(0x22));
    assert_eq!(c.ppu.reg_addr, 0x2013);
    assert_eq!(c.ppu.reg_data, 0x33);
}

#[test]
fn data_port_steps_by_32_in_increment_mode() {
    let mut c = console(0, 0);
    buscpu::write(&mut c, 0x2000, 0x04).unwrap();
    buscpu::write(&mut c, 0x2006, 0x20).unwrap();
    buscpu::write(&mut c, 0x2006, 0x00).unwrap();
    buscpu::write(&mut c, 0x2007, 0xaa).unwrap();
    buscpu::write(&mut c, 0x2007, 0xbb).unwrap();
    assert_eq!(c.ppu.reg_addr, 0x2040);
    assert_eq!(c.bus_ppu.vram[0x00], 0xaa);
    assert_eq!(c.bus_ppu.vram[0x20], 0xbb);
}

#[test]
fn data_port_reads_the_palette_directly() {
    let mut c = console(0, 0);
    c.bus_ppu.palette[0x05] = 0x2a;
    c.ppu.reg_addr = 0x3f05;
    c.ppu.reg_data = 0x77;
    assert_eq!(read_ppu_reg(&mut c, 0x2007), Ok(0x2a));
    assert_eq!(c.ppu.reg_data, 0x77);
    assert_eq!(c.ppu.reg_addr, 0x3f06);
    // between the nametables and the palette nothing answers
    c.ppu.reg_addr = 0x3000;
    assert_eq!(read_ppu_reg(&mut c, 0x2007), Err(NesError::BusError));
    assert_eq!(c.ppu.reg_addr, 0x3001);
    assert_eq!(write_ppu_reg(&mut c, 0x2007, 1), Err(NesError::BusError));
    assert_eq!(c.ppu.reg_addr, 0x3001);
}

#[test]
fn registers_outside_the_picture_unit() {
    let mut c = console(0, 0);
    assert_eq!(read_ppu_reg(&mut c, 0x2008), Err(NesError::BusError));
    assert_eq!(write_ppu_reg(&mut c, 0x2008, 0), Err(NesError::BusError));
    assert_eq!(read_ppu_reg(&mut c, 0x4014), Ok(0));
}

#[test]
fn oam_dma() {
    let mut c = console(0, 0);
    for i in 0..256usize {
        c.bus_cpu.ram[0x0600 + i] = i as u8;
    }
    c.cpu.cycles = 3;
    assert_eq!(buscpu::write(&mut c, 0x4014, 0x06), Ok(()));
    let expected: Vec<u8> = (0..=255u8).collect();
    assert_eq!(&c.ppu.oam[..], &expected[..]);
    assert_eq!(c.cpu.cycles, 255);
    assert_eq!(c.ppu.reg_oam_addr, 0);
}

#[test]
fn oam_dma_starts_at_the_sprite_address() {
    let mut c = console(0, 0);
    for i in 0..256usize {
        c.bus_cpu.ram[0x0200 + i] = i as u8;
    }
    c.ppu.reg_oam_addr = 0x10;
    assert_eq!(buscpu::write(&mut c, 0x4014, 0x02), Ok(()));
    assert_eq!(c.ppu.oam[0x10], 0);
    assert_eq!(c.ppu.oam[0xff], 0xef);
    assert_eq!(c.ppu.oam[0x00], 0xf0);
    assert_eq!(c.ppu.oam[0x0f], 0xff);
    assert_eq!(c.ppu.reg_oam_addr, 0x10);
}

#[test]
fn oam_dma_stops_at_a_failed_read() {
    let mut c = console(0, 0);
    c.ppu.oam = [0x55; 256];
    // page 0x40 holds the sound registers, which cannot be read
    assert_eq!(buscpu::write(&mut c, 0x4014, 0x40), Err(NesError::BusError));
    assert_eq!(c.ppu.oam, [0x55; 256]);
    assert_eq!(c.cpu.cycles, 255);
}

#[test]
fn vram_mirroring_horizontal() {
    let mut c = console(0, 0);
    assert_eq!(c.cartridge.rom.mirroring, Mirroring::Horizontal);
    let mut value = 0u8;
    for addr in (0x2000u16..0x3000).step_by(0x55) {
        value = value.wrapping_add(7);
        busppu::write(&mut c, addr, value).unwrap();
        assert_eq!(busppu::read(&c, addr), Ok(value));
        assert_eq!(busppu::read(&c, addr ^ 0x0400), Ok(value));
    }
    assert_eq!(busppu::mirror_vram_addr(&c, 0x2000), 0x000);
    assert_eq!(busppu::mirror_vram_addr(&c, 0x2400), 0x000);
    assert_eq!(busppu::mirror_vram_addr(&c, 0x27ff), 0x3ff);
    assert_eq!(busppu::mirror_vram_addr(&c, 0x2800), 0x800);
    assert_eq!(busppu::mirror_vram_addr(&c, 0x2c00), 0x800);
    assert_eq!(busppu::mirror_vram_addr(&c, 0x2fff), 0xbff);
}

#[test]
fn vram_mirroring_vertical() {
    let mut c = console(0, 0x01);
    assert_eq!(c.cartridge.rom.mirroring, Mirroring::Vertical);
    let mut value = 0u8;
    for addr in (0x2000u16..0x3000).step_by(0x55) {
        value = value.wrapping_add(11);
        busppu::write(&mut c, addr, value).unwrap();
        assert_eq!(busppu::read(&c, addr), Ok(value));
        assert_eq!(busppu::read(&c, addr ^ 0x0800), Ok(value));
    }
    assert_eq!(busppu::mirror_vram_addr(&c, 0x2000), 0x000);
    assert_eq!(busppu::mirror_vram_addr(&c, 0x2400), 0x400);
    assert_eq!(busppu::mirror_vram_addr(&c, 0x2800), 0x000);
    assert_eq!(busppu::mirror_vram_addr(&c, 0x2c00), 0x400);
    assert_eq!(busppu::mirror_vram_addr(&c, 0x2fff), 0x7ff);
}

#[test]
fn mmc1_mirroring_switch_is_seen_by_the_picture_unit() {
    let mut c = console(1, 0x01);
    assert_eq!(c.cartridge.rom.mirroring, Mirroring::Vertical);
    for bit in [1u8, 1, 0, 0, 0] {
        buscpu::write(&mut c, 0x8000, bit).unwrap();
    }
    assert_eq!(c.cartridge.rom.mirroring, Mirroring::Horizontal);
    busppu::write(&mut c, 0x2123, 0x5a).unwrap();
    assert_eq!(busppu::read(&c, 0x2523), Ok(0x5a));
    busppu::write(&mut c, 0x2fff, 0xa5).unwrap();
    assert_eq!(busppu::read(&c, 0x2bff), Ok(0xa5));
    assert_eq!(busppu::read(&c, 0x27ff), Ok(0));
}

#[test]
fn palette_mirror() {
    let mut c = console(0, 0);
    for (i, addr) in [0x3f10u16, 0x3f14, 0x3f18, 0x3f1c].iter().enumerate() {
        let value = 0x20 + i as u8;
        busppu::write(&mut c, *addr, value).unwrap();
        assert_eq!(busppu::read(&c, *addr - 0x10), Ok(value));
        assert_eq!(busppu::read(&c, *addr), Ok(value));
        assert_eq!(c.bus_ppu.palette[(*addr - 0x3f10) as usize], value);
        assert_eq!(c.bus_ppu.palette[(*addr - 0x3f00) as usize], 0);
        busppu::write(&mut c, *addr - 0x10, value + 0x10).unwrap();
        assert_eq!(busppu::read(&c, *addr), Ok(value + 0x10));
    }
}

#[test]
fn palette_repeats_every_32_bytes() {
    let mut c = console(0, 0);
    busppu::write(&mut c, 0x3f01, 0x15).unwrap();
    busppu::write(&mut c, 0x3fe7, 0x16).unwrap();
    assert_eq!(busppu::read(&c, 0x3f21), Ok(0x15));
    assert_eq!(busppu::read(&c, 0x3fe1), Ok(0x15));
    assert_eq!(busppu::read(&c, 0x3f07), Ok(0x16));
    assert_eq!(c.bus_ppu.palette[0x07], 0x16);
}

#[test]
fn greyscale_masks_the_palette_index() {
    let mut c = console(0, 0);
    busppu::write(&mut c, 0x3f00, 0x01).unwrap();
    busppu::write(&mut c, 0x3f03, 0x02).unwrap();
    busppu::write(&mut c, 0x3f11, 0x03).unwrap();
    busppu::write(&mut c, 0x3f13, 0x04).unwrap();
    c.ppu.reg_mask.update(0x01);
    // only bits 4-5 of the cell's number are kept
    assert_eq!(busppu::read(&c, 0x3f03), Ok(0x01));
    assert_eq!(busppu::read(&c, 0x3f0f), Ok(0x01));
    assert_eq!(busppu::read(&c, 0x3f10), Ok(0x01));
    assert_eq!(busppu::read(&c, 0x3f13), Ok(0x00));
    c.bus_ppu.palette[0x10] = 0x09;
    assert_eq!(busppu::read(&c, 0x3f13), Ok(0x09));
    assert_eq!(busppu::read(&c, 0x3f11), Ok(0x09));
    c.ppu.reg_mask.update(0x00);
    assert_eq!(busppu::read(&c, 0x3f03), Ok(0x02));
    assert_eq!(busppu::read(&c, 0x3f13), Ok(0x04));
}

#[test]
fn picture_bus_edges() {
    let mut c = console(0, 0);
    assert_eq!(busppu::read(&c, 0x0000), Ok(0));
    assert_eq!(busppu::read(&c, 0x1fff), Ok((0x1fff % 253) as u8));
    assert_eq!(busppu::write(&mut c, 0x0010, 0x42), Ok(()));
    assert_eq!(busppu::read(&c, 0x0010), Ok(0x42));
    for addr in [0x3000u16, 0x3eff, 0x4000, 0xffff] {
        assert_eq!(busppu::read(&c, addr), Err(NesError::BusError));
        assert_eq!(busppu::write(&mut c, addr, 0), Err(NesError::BusError));
    }
}
