use vstd::prelude::*;
use vstd::slice::{slice_subrange, slice_to_vec};
use crate::error::NesError;
use crate::mappers::{supported_mapper, Mapper, MapperView};
use crate::rom::{Rom, RomView};

pub use crate::rom::Mirroring;

verus! {

/// Length of the iNES header.
pub const HEADER_LEN: usize = 16;

/// Length of the trainer that may follow the header.
pub const TRAINER_LEN: usize = 512;

/// Size of a program bank.
pub const PRG_BANK_LEN: usize = 0x4000;

/// Size of a character bank, and of the character RAM of a cartridge
/// without character ROM.
pub const CHR_BANK_LEN: usize = 0x2000;

/// A cartridge: its memories and the mapper that decodes accesses to them.
pub struct Cartridge {
    pub rom: Rom,
    pub mapper: Mapper,
}

/// A cartridge with its memories as sequences of bytes.
pub struct CartridgeView {
    pub rom: RomView,
    pub mapper: MapperView,
}

impl View for Cartridge {
    type V = CartridgeView;

    open spec fn view(&self) -> CartridgeView {
        CartridgeView { rom: self.rom@, mapper: self.mapper@ }
    }
}

/// Whether `image` starts with the four bytes "NES", 0x1A and declares
/// header version 0 in bits 2-3 of byte 7.
pub open spec fn ines_header_ok(image: Seq<u8>) -> bool {
    &&& image.len() >= HEADER_LEN
    &&& image[0] == 0x4e
    &&& image[1] == 0x45
    &&& image[2] == 0x53
    &&& image[3] == 0x1a
    &&& (image[7] >> 2) & 0b11 == 0
}

/// The mapper number: high nibble from byte 7, low nibble from the high
/// nibble of byte 6.
pub open spec fn ines_mapper_id(image: Seq<u8>) -> u8
    recommends
        image.len() >= HEADER_LEN,
{
    (image[7] & 0xf0) | (image[6] >> 4)
}

/// Bit 0 of byte 6: clear for horizontal mirroring, set for vertical.
pub open spec fn ines_mirroring(image: Seq<u8>) -> Mirroring
    recommends
        image.len() >= HEADER_LEN,
{
    if image[6] & 0x01 != 0 {
        Mirroring::Vertical
    } else {
        Mirroring::Horizontal
    }
}

/// Where program memory starts: after the header, and after the trainer
/// where bit 2 of byte 6 announces one.
pub open spec fn ines_prg_start(image: Seq<u8>) -> int
    recommends
        image.len() >= HEADER_LEN,
{
    if image[6] & 0x04 != 0 {
        HEADER_LEN + TRAINER_LEN
    } else {
        HEADER_LEN as int
    }
}

/// Where character memory starts: after program memory.
pub open spec fn ines_chr_start(image: Seq<u8>) -> int
    recommends
        image.len() >= HEADER_LEN,
{
    ines_prg_start(image) + image[4] * PRG_BANK_LEN
}

/// Where the memories that the header announces end.
pub open spec fn ines_end(image: Seq<u8>) -> int
    recommends
        image.len() >= HEADER_LEN,
{
    ines_chr_start(image) + image[5] * CHR_BANK_LEN
}

/// The 8 KiB of character RAM of a cartridge without character ROM: what
/// the image holds after program memory, cut or filled with zeros to size.
pub open spec fn chr_ram_image(rest: Seq<u8>) -> Seq<u8> {
    Seq::new(
        CHR_BANK_LEN as nat,
        |i: int|
            if i < rest.len() {
                rest[i]
            } else {
                0u8
            },
    )
}

/// The cartridge that an iNES 1.0 image describes. An image without the
/// tag, with another header version, or shorter than its header announces
/// is of an unsupported format; one that asks for a mapper other than 0, 1,
/// 2, 3 and 66 needs an unsupported mapper.
pub open spec fn parse_ines(image: Seq<u8>) -> Result<CartridgeView, NesError> {
    if !ines_header_ok(image) {
        Err(NesError::UnsupportedFormat)
    } else if !supported_mapper(ines_mapper_id(image)) {
        Err(NesError::UnsupportedMapper)
    } else if image.len() < ines_end(image) {
        Err(NesError::UnsupportedFormat)
    } else {
        Ok(
            CartridgeView {
                rom: RomView {
                    prg: image.subrange(ines_prg_start(image), ines_chr_start(image)),
                    chr: if image[5] == 0 {
                        chr_ram_image(image.subrange(ines_chr_start(image), image.len() as int))
                    } else {
                        image.subrange(ines_chr_start(image), ines_end(image))
                    },
                    prg_banks: image[4],
                    chr_banks: image[5],
                    mirroring: ines_mirroring(image),
                },
                mapper: MapperView::initial(ines_mapper_id(image)),
            },
        )
    }
}

impl CartridgeView {
    /// The empty cartridge slot of a console that has loaded nothing.
    pub open spec fn empty() -> CartridgeView {
        CartridgeView {
            rom: RomView {
                prg: Seq::empty(),
                chr: Seq::empty(),
                prg_banks: 0,
                chr_banks: 0,
                mirroring: Mirroring::Horizontal,
            },
            mapper: MapperView::Nrom,
        }
    }

    pub open spec fn spec_prg_read(self, addr: u16) -> Result<u8, NesError> {
        self.mapper.spec_read_prg(self.rom, addr)
    }

    pub open spec fn spec_prg_write(self, addr: u16, data: u8) -> (CartridgeView, Result<
        (),
        NesError,
    >) {
        let (mapper, rom, res) = self.mapper.spec_write_prg(self.rom, addr, data);
        (CartridgeView { rom, mapper }, res)
    }

    pub open spec fn spec_chr_read(self, addr: u16) -> Result<u8, NesError> {
        self.mapper.spec_read_chr(self.rom, addr)
    }

    pub open spec fn spec_chr_write(self, addr: u16, data: u8) -> (CartridgeView, Result<
        (),
        NesError,
    >) {
        let (rom, res) = self.mapper.spec_write_chr(self.rom, addr, data);
        (CartridgeView { rom, mapper: self.mapper }, res)
    }

    pub open spec fn spec_reset(self) -> CartridgeView {
        CartridgeView { rom: self.rom, mapper: self.mapper.spec_reset(self.rom) }
    }
}

impl Cartridge {
    /// An empty cartridge slot.
    pub fn new() -> (cart: Cartridge)
        ensures
            cart@ == CartridgeView::empty(),
    {
        Cartridge { rom: Rom::new(), mapper: Mapper::Nrom(crate::mappers::nrom::Nrom) }
    }

    /// Reads an iNES 1.0 image.
    pub fn from_ines(rom_bytes: &[u8]) -> (res: Result<Cartridge, NesError>)
        ensures
            match res {
                Ok(cart) => parse_ines(rom_bytes@) == Ok::<CartridgeView, NesError>(cart@),
                Err(e) => parse_ines(rom_bytes@) == Err::<CartridgeView, NesError>(e),
            },
    {
        if rom_bytes.len() < HEADER_LEN {
            return Err(NesError::UnsupportedFormat);
        }
        if rom_bytes[0] != 0x4e || rom_bytes[1] != 0x45 || rom_bytes[2] != 0x53 || rom_bytes[3]
            != 0x1a {
            return Err(NesError::UnsupportedFormat);
        }
        if (rom_bytes[7] >> 2) & 0b11 != 0 {
            return Err(NesError::UnsupportedFormat);
        }
        let prg_banks: u8 = rom_bytes[4];
        let chr_banks: u8 = rom_bytes[5];
        let mirroring = if rom_bytes[6] & 0x01 != 0 {
            Mirroring::Vertical
        } else {
            Mirroring::Horizontal
        };
        let mapper_id: u8 = (rom_bytes[7] & 0xf0) | (rom_bytes[6] >> 4);
        let mapper = Mapper::from_id(mapper_id)?;

        let prg_start: usize = if rom_bytes[6] & 0x04 != 0 {
            HEADER_LEN + TRAINER_LEN
        } else {
            HEADER_LEN
        };
        let chr_start: usize = prg_start + (prg_banks as usize) * PRG_BANK_LEN;
        let end: usize = chr_start + (chr_banks as usize) * CHR_BANK_LEN;
        if rom_bytes.len() < end {
            return Err(NesError::UnsupportedFormat);
        }
        let prgmem = slice_to_vec(slice_subrange(rom_bytes, prg_start, chr_start));
        let chrmem = if chr_banks == 0 {
            chr_ram_from(rom_bytes, chr_start)
        } else {
            slice_to_vec(slice_subrange(rom_bytes, chr_start, end))
        };
        Ok(Cartridge { rom: Rom { prgmem, chrmem, prg_banks, chr_banks, mirroring }, mapper })
    }
}

impl Default for Cartridge {
    fn default() -> (cart: Cartridge)
        ensures
            cart@ == CartridgeView::empty(),
    {
        Cartridge::new()
    }
}

/// Builds the character RAM of a cartridge without character ROM from what
/// the image holds from `start` on.
fn chr_ram_from(rom_bytes: &[u8], start: usize) -> (chr: Vec<u8>)
    requires
        start <= rom_bytes@.len(),
    ensures
        chr@ == chr_ram_image(rom_bytes@.subrange(start as int, rom_bytes@.len() as int)),
{
    let rest_len: usize = rom_bytes.len() - start;
    let take: usize = if rest_len < CHR_BANK_LEN {
        rest_len
    } else {
        CHR_BANK_LEN
    };
    let mut chr = slice_to_vec(slice_subrange(rom_bytes, start, start + take));
    while chr.len() < CHR_BANK_LEN
        invariant
            take <= chr@.len() <= CHR_BANK_LEN,
            take <= rom_bytes@.len() - start,
            take == rom_bytes@.len() - start || take == CHR_BANK_LEN,
            forall|i: int| 0 <= i < take ==> chr@[i] == rom_bytes@[start + i],
            forall|i: int| take <= i < chr@.len() ==> chr@[i] == 0,
        decreases CHR_BANK_LEN - chr@.len(),
    {
        chr.push(0);
    }
    assert(chr@ =~= chr_ram_image(rom_bytes@.subrange(start as int, rom_bytes@.len() as int)));
    chr
}

/// Puts the cartridge that the image `rom_bytes` describes into the slot.
/// A failure leaves the slot as it was.
pub fn load_cartridge(cart: &mut Cartridge, rom_bytes: &[u8]) -> (res: Result<(), NesError>)
    ensures
        match res {
            Ok(()) => parse_ines(rom_bytes@) == Ok::<CartridgeView, NesError>(final(cart)@),
            Err(e) => parse_ines(rom_bytes@) == Err::<CartridgeView, NesError>(e) && *final(cart)
                == *old(cart),
        },
{
    let loaded = Cartridge::from_ines(rom_bytes)?;
    *cart = loaded;
    Ok(())
}

/// Resets the cartridge's mapper.
pub fn reset(cart: &mut Cartridge) -> (res: Result<(), NesError>)
    ensures
        res is Ok,
        final(cart)@ == old(cart)@.spec_reset(),
{
    cart.mapper.reset(&cart.rom)
}

/// Reads program address `addr` through the mapper.
pub fn prg_read(cart: &Cartridge, addr: u16) -> (res: Result<u8, NesError>)
    ensures
        res == cart@.spec_prg_read(addr),
{
    cart.mapper.read_prg(&cart.rom, addr)
}

/// Writes program address `addr` through the mapper.
pub fn prg_write(cart: &mut Cartridge, addr: u16, data: u8) -> (res: Result<(), NesError>)
    ensures
        (final(cart)@, res) == old(cart)@.spec_prg_write(addr, data),
{
    cart.mapper.write_prg(&mut cart.rom, addr, data)
}

/// Reads character address `addr` through the mapper.
pub fn chr_read(cart: &Cartridge, addr: u16) -> (res: Result<u8, NesError>)
    ensures
        res == cart@.spec_chr_read(addr),
{
    cart.mapper.read_chr(&cart.rom, addr)
}

/// Writes character address `addr` through the mapper.
pub fn chr_write(cart: &mut Cartridge, addr: u16, data: u8) -> (res: Result<(), NesError>)
    ensures
        (final(cart)@, res) == old(cart)@.spec_chr_write(addr, data),
{
    cart.mapper.write_chr(&mut cart.rom, addr, data)
}

} // verus!
