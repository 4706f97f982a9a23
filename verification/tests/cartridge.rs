use nes::cartridge::{chr_read, chr_write, load_cartridge, prg_read, prg_write, reset, Cartridge};
use nes::error::NesError;
use nes::mappers::Mapper;
use nes::rom::Mirroring;

fn image(prg_banks: u8, chr_banks: u8, flags6: u8, flags7: u8) -> Vec<u8> {
    let mut rom = vec![0x4e, 0x45, 0x53, 0x1a, prg_banks, chr_banks, flags6, flags7];
    rom.resize(16, 0);
    if flags6 & 0x04 != 0 {
        rom.extend(std::iter::repeat(0xee).take(512));
    }
    for i in 0..(prg_banks as usize * 0x4000) {
        rom.push((i % 251) as u8);
    }
    for i in 0..(chr_banks as usize * 0x2000) {
        rom.push((i % 241) as u8 ^ 0xff);
    }
    rom
}

fn error_of(rom: &[u8]) -> NesError {
    match Cartridge::from_ines(rom) {
        Ok(_) => panic!("the image was accepted"),
        Err(e) => e,
    }
}

#[test]
fn ines_header_rejection() {
    let mut bad_tag = vec![0u8; 32];
    bad_tag[0] = b'Z';
    bad_tag[1] = b'Z';
    bad_tag[2] = b'Z';
    bad_tag[3] = 0x1a;
    assert_eq!(error_of(&bad_tag), NesError::UnsupportedFormat);

    let mut bad_version = vec![0u8; 32];
    bad_version[..4].copy_from_slice(b"NES\x1a");
    bad_version[7] = 0x04;
    assert_eq!((bad_version[7] >> 2) & 3, 1);
    assert_eq!(error_of(&bad_version), NesError::UnsupportedFormat);
}

#[test]
fn short_images_are_rejected() {
    assert_eq!(error_of(&[]), NesError::UnsupportedFormat);
    assert_eq!(error_of(b"NES"), NesError::UnsupportedFormat);
    assert_eq!(error_of(b"NES\x1a\x01\x01\x00"), NesError::UnsupportedFormat);
    let mut rom = image(1, 1, 0, 0);
    rom.pop();
    assert_eq!(error_of(&rom), NesError::UnsupportedFormat);
    let mut rom = image(2, 0, 0, 0);
    rom.truncate(16 + 0x7fff);
    assert_eq!(error_of(&rom), NesError::UnsupportedFormat);
}

#[test]
fn unsupported_mappers_are_rejected() {
    for id in [4u8, 5, 7, 65, 67, 255] {
        let rom = image(1, 1, (id & 0x0f) << 4, id & 0xf0);
        assert_eq!(error_of(&rom), NesError::UnsupportedMapper);
    }
    // the tag is looked at before the mapper
    let mut rom = image(1, 1, 0x40, 0);
    rom[0] = 0;
    assert_eq!(error_of(&rom), NesError::UnsupportedFormat);
    // and the mapper before the length
    let mut rom = image(1, 1, 0x40, 0);
    rom.truncate(20);
    assert_eq!(error_of(&rom), NesError::UnsupportedMapper);
}

#[test]
fn supported_mappers_are_chosen_by_number() {
    let names = [(0u8, "NROM"), (1, "MMC1"), (2, "UxROM"), (3, "CNROM"), (66, "GxROM")];
    for (id, name) in names {
        let rom = image(2, 1, (id & 0x0f) << 4, id & 0xf0);
        let cart = Cartridge::from_ines(&rom).unwrap();
        assert_eq!(cart.mapper.name(), name);
    }
}

#[test]
fn load_fills_the_memories() {
    let rom = image(2, 1, 0x01, 0);
    let cart = Cartridge::from_ines(&rom).unwrap();
    assert_eq!(cart.rom.prg_banks, 2);
    assert_eq!(cart.rom.chr_banks, 1);
    assert_eq!(cart.rom.mirroring, Mirroring::Vertical);
    assert_eq!(cart.rom.prgmem.len(), 0x8000);
    assert_eq!(cart.rom.chrmem.len(), 0x2000);
    assert_eq!(&cart.rom.prgmem[..], &rom[16..16 + 0x8000]);
    assert_eq!(&cart.rom.chrmem[..], &rom[16 + 0x8000..]);
    assert!(matches!(cart.mapper, Mapper::Nrom(_)));

    let rom = image(1, 2, 0x00, 0);
    let cart = Cartridge::from_ines(&rom).unwrap();
    assert_eq!(cart.rom.mirroring, Mirroring::Horizontal);
    assert_eq!(cart.rom.chrmem.len(), 0x4000);
}

#[test]
fn load_skips_the_trainer() {
    let rom = image(1, 1, 0x04, 0);
    let cart = Cartridge::from_ines(&rom).unwrap();
    assert_eq!(cart.rom.prgmem[0], 0);
    assert_eq!(cart.rom.prgmem[1], 1);
    assert_eq!(&cart.rom.prgmem[..], &rom[16 + 512..16 + 512 + 0x4000]);
    assert_eq!(&cart.rom.chrmem[..], &rom[16 + 512 + 0x4000..]);
}

#[test]
fn load_without_chr_banks_makes_chr_ram() {
    let rom = image(1, 0, 0, 0);
    let cart = Cartridge::from_ines(&rom).unwrap();
    assert_eq!(cart.rom.chr_banks, 0);
    assert_eq!(cart.rom.chrmem, vec![0u8; 0x2000]);

    // what follows program memory is taken as far as it reaches
    let mut rom = image(1, 0, 0, 0);
    rom.extend([9u8, 8, 7]);
    let cart = Cartridge::from_ines(&rom).unwrap();
    assert_eq!(cart.rom.chrmem.len(), 0x2000);
    assert_eq!(&cart.rom.chrmem[..4], &[9, 8, 7, 0]);

    // and no further than 8 KiB
    let mut rom = image(1, 0, 0, 0);
    rom.extend(std::iter::repeat(5u8).take(0x2001));
    let cart = Cartridge::from_ines(&rom).unwrap();
    assert_eq!(cart.rom.chrmem, vec![5u8; 0x2000]);
}

#[test]
fn load_cartridge_replaces_the_slot_only_on_success() {
    let mut cart = Cartridge::from_ines(&image(1, 1, 0x01, 0)).unwrap();
    let before_prg = cart.rom.prgmem.clone();
    let mut bad = image(2, 1, 0x20, 0);
    bad[3] = 0;
    assert_eq!(load_cartridge(&mut cart, &bad), Err(NesError::UnsupportedFormat));
    assert_eq!(cart.rom.prgmem, before_prg);
    assert_eq!(cart.rom.prg_banks, 1);
    assert_eq!(cart.rom.mirroring, Mirroring::Vertical);
    assert!(matches!(cart.mapper, Mapper::Nrom(_)));

    assert_eq!(load_cartridge(&mut cart, &image(2, 1, 0xf0, 0)), Err(NesError::UnsupportedMapper));
    assert_eq!(cart.rom.prg_banks, 1);

    assert_eq!(load_cartridge(&mut cart, &image(2, 1, 0x20, 0)), Ok(()));
    assert_eq!(cart.rom.prg_banks, 2);
    assert_eq!(cart.rom.mirroring, Mirroring::Horizontal);
    assert!(matches!(cart.mapper, Mapper::Uxrom(_)));
}

#[test]
fn empty_slot_answers_nowhere() {
    let mut cart = Cartridge::new();
    assert_eq!(prg_read(&cart, 0x8000), Err(NesError::BusError));
    assert_eq!(prg_read(&cart, 0xfffc), Err(NesError::BusError));
    assert_eq!(chr_read(&cart, 0x0000), Err(NesError::BusError));
    assert_eq!(prg_write(&mut cart, 0x8000, 1), Err(NesError::BusError));
    assert_eq!(chr_write(&mut cart, 0x0000, 1), Err(NesError::BusError));
    assert_eq!(reset(&mut cart), Ok(()));
}
