use nes::busppu;
use nes::cartridge::Cartridge;
use nes::console::Console;
use nes::error::NesError;
use nes::nesscreen::Pixel;
use nes::ppu;
use nes::ppu::debug::{draw_chr, draw_palette, draw_vram};

fn console(flags6: u8) -> Console {
    let mut rom = vec![0x4e, 0x45, 0x53, 0x1a, 1, 0, flags6, 0];
    rom.resize(16, 0);
    rom.extend(vec![0xeau8; 0x4000]);
    let mut c = Console::new();
    c.cartridge = Cartridge::from_ines(&rom).unwrap();
    c
}

#[test]
fn pictures_are_reached_from_the_picture_unit() {
    let c = console(0);
    assert_eq!(nes::ppu::draw_palette(&c), draw_palette(&c));
    assert_eq!(nes::ppu::draw_chr(&c, 0), draw_chr(&c, 0));
    assert_eq!(nes::ppu::draw_vram(&c, 0), draw_vram(&c, 0));
    assert_eq!(nes::ppu::render_background(&c), nes::ppu::render::render_background(&c));
    assert_eq!(nes::ppu::render_sprites(&c), nes::ppu::render::render_sprites(&c));
    let all = nes::ppu::ViewPort { x1: 0, y1: 0, x2: 255, y2: 240 };
    assert_eq!(nes::ppu::render_nametable(&c, 0x2000, all, 0, 0), nes::ppu::render_background(&c));
    assert_eq!(c.cartridge.rom.mirroring, nes::cartridge::Mirroring::Horizontal);
}

#[test]
fn palette_picture() {
    let mut c = console(0);
    for i in 0..32u16 {
        busppu::write(&mut c, 0x3f00 + i, (i as u8) * 2 + 1).unwrap();
    }
    let list = draw_palette(&c).unwrap();
    assert_eq!(list.len(), 32);
    for (i, pixel) in list.iter().enumerate() {
        assert_eq!((pixel.x, pixel.y), ((i % 16) as u8, (i / 16) as u8));
        assert_eq!(pixel.rgb, ppu::palette_rgb(busppu::read(&c, 0x3f00 + i as u16).unwrap()));
    }
    // 0x3F10 is another name of 0x3F00
    assert_eq!(list[16].rgb, list[0].rgb);
    assert_eq!(list[0].rgb, ppu::palette_rgb(0x21));
    assert_eq!(list[1].rgb, ppu::palette_rgb(0x03));
    assert_eq!(list[31].rgb, ppu::palette_rgb(0x3f));
}

#[test]
fn pattern_table_picture() {
    let mut c = console(0);
    busppu::write(&mut c, 0x3f00, 0x0d).unwrap();
    busppu::write(&mut c, 0x3f01, 0x16).unwrap();
    busppu::write(&mut c, 0x3f02, 0x2a).unwrap();
    // pattern 0x12 of table 1: one pixel in one plane, one in both
    busppu::write(&mut c, 0x1000 + 0x12 * 16 + 3, 0b1000_0001).unwrap();
    busppu::write(&mut c, 0x1000 + 0x12 * 16 + 3 + 8, 0b0000_0001).unwrap();
    let list = draw_chr(&c, 1).unwrap();
    assert_eq!(list.len(), 128 * 128);
    // pattern by pattern, row by row, from right to left
    let head: Vec<(u8, u8)> = list[..9].iter().map(|p| (p.x, p.y)).collect();
    assert_eq!(
        head,
        vec![(7, 0), (6, 0), (5, 0), (4, 0), (3, 0), (2, 0), (1, 0), (0, 0), (7, 1)]
    );
    assert_eq!((list[64].x, list[64].y), (15, 0));
    assert_eq!((list[16 * 64].x, list[16 * 64].y), (7, 8));
    // pattern 0x12 lies in column 2 of row 1
    let at = |x: u8, y: u8| -> Vec<(u8, u8, u8)> {
        list.iter().filter(|p| p.x == x && p.y == y).map(|p| p.rgb).collect()
    };
    assert_eq!(at(16, 11), vec![ppu::palette_rgb(0x16)]);
    assert_eq!(at(23, 11), vec![ppu::palette_rgb(0x2a)]);
    assert_eq!(at(17, 11), vec![ppu::palette_rgb(0x0d)]);
    assert_eq!(at(127, 127), vec![ppu::palette_rgb(0x0d)]);
    // the other table is blank
    let other = draw_chr(&c, 0).unwrap();
    assert!(other.iter().all(|p| p.rgb == ppu::palette_rgb(0x0d)));
    // beyond the pattern tables lie the nametables, then nothing
    assert!(draw_chr(&c, 2).is_ok());
    assert_eq!(draw_chr(&c, 3), Err(NesError::BusError));
}

#[test]
fn nametable_picture() {
    let mut c = console(0x01);
    busppu::write(&mut c, 0x3f00, 0x0d).unwrap();
    busppu::write(&mut c, 0x3f01, 0x16).unwrap();
    busppu::write(&mut c, 0x0010, 0x01).unwrap();
    // tile 1 in the last column of the second nametable
    busppu::write(&mut c, 0x2400 + 31, 1).unwrap();
    let list = draw_vram(&c, 1).unwrap();
    assert_eq!(list.len(), 256 * 240);
    let lit: Vec<&Pixel> = list.iter().filter(|p| p.rgb == ppu::palette_rgb(0x16)).collect();
    assert_eq!(lit.len(), 1);
    assert_eq!((lit[0].x, lit[0].y), (255, 0));
    // with vertical mirroring the fourth nametable is the second
    assert_eq!(draw_vram(&c, 3).unwrap(), list);
    let first = draw_vram(&c, 0).unwrap();
    assert!(first.iter().all(|p| p.rgb == ppu::palette_rgb(0x0d)));
    assert_eq!(draw_vram(&c, 2).unwrap(), first);
    assert_eq!(draw_vram(&c, 4), Err(NesError::InvalidArgument));
    assert_eq!(draw_vram(&c, usize::MAX), Err(NesError::InvalidArgument));
}
