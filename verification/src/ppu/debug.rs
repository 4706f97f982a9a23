use vstd::prelude::*;
use crate::busppu;
use crate::console::{Console, ConsoleView};
use crate::error::NesError;
use crate::nesscreen::Pixel;
use crate::ppu::render::{
    lemma_pixel_number, nametable_pixels, pattern_row, place, placed, read_pattern_row,
    render_window, NAMETABLE_PIXELS,
};

verus! {

/// Patterns in a pattern table: 16 rows of 16.
pub const PATTERNS: u16 = 256;

/// Pixels in a pattern table: 64 for each pattern.
pub const PATTERN_PIXELS: u32 = 16384;

/// Entries of the palette.
pub const PALETTE_ENTRIES: u8 = 32;

/// What one pixel of a pattern table adds to its picture: the pixel in row
/// `row` and at bit `bit` of pattern number `pattern`. The patterns are laid
/// out in 16 columns, one after the other from top to bottom. The colour is
/// the palette entry whose number is the count of the pixel's bits in the
/// two planes.
pub open spec fn chr_pixel_at(v: ConsoleView, bank: u16, pattern: int, row: int, bit: int) -> Result<
    Pixel,
    NesError,
> {
    match pattern_row(v, (bank * 0x1000 + pattern * 16 + row) as u16) {
        Ok((lo, hi)) => match busppu::spec_read(
            v,
            (0x3f00 + ((hi >> (bit as u8)) & 1) + ((lo >> (bit as u8)) & 1)) as u16,
        ) {
            Ok(colour) => Ok(
                placed(v, pattern % 16 * 8 + (7 - bit), pattern / 16 * 8 + row, colour),
            ),
            Err(e) => Err(e),
        },
        Err(e) => Err(e),
    }
}

/// What pixel number `k` of a pattern table adds to its picture. Pixels
/// are numbered pattern by pattern, row by row within a pattern, and from
/// right to left within a row.
pub open spec fn chr_pixel(v: ConsoleView, bank: u16, k: int) -> Result<Pixel, NesError> {
    chr_pixel_at(v, bank, k / 64, k % 64 / 8, k % 8)
}

/// The calls that draw the first `n` pixels of a pattern table, in order.
/// A read that fails ends the drawing.
pub open spec fn chr_pixels(v: ConsoleView, bank: u16, n: nat) -> Result<Seq<Pixel>, NesError>
    decreases n,
{
    if n == 0 {
        Ok(Seq::empty())
    } else {
        match chr_pixels(v, bank, (n - 1) as nat) {
            Ok(drawn) => match chr_pixel(v, bank, n - 1) {
                Ok(pixel) => Ok(drawn.push(pixel)),
                Err(e) => Err(e),
            },
            Err(e) => Err(e),
        }
    }
}

/// Once a read has failed no more of a pattern table is drawn.
pub proof fn lemma_chr_pixels_stop(v: ConsoleView, bank: u16, k: nat, n: nat)
    requires
        k <= n,
        chr_pixels(v, bank, k) is Err,
    ensures
        chr_pixels(v, bank, n) == chr_pixels(v, bank, k),
    decreases n,
{
    if k < n {
        lemma_chr_pixels_stop(v, bank, k, (n - 1) as nat);
    }
}

/// A pixel of a pattern table that cannot be read ends the drawing with
/// its error.
pub proof fn lemma_chr_pixel_fails(v: ConsoleView, bank: u16, k: nat, e: NesError)
    requires
        k < PATTERN_PIXELS,
        chr_pixels(v, bank, k) is Ok,
        chr_pixel(v, bank, k as int) == Err::<Pixel, NesError>(e),
    ensures
        chr_pixels(v, bank, PATTERN_PIXELS as nat) == Err::<Seq<Pixel>, NesError>(e),
{
    assert(chr_pixels(v, bank, k + 1) == Err::<Seq<Pixel>, NesError>(e));
    lemma_chr_pixels_stop(v, bank, k + 1, PATTERN_PIXELS as nat);
}

/// Reads what one pixel of a pattern table adds to its picture.
fn read_chr_pixel(c: &Console, bank: u16, pattern: u16, row: u16, bit: u8, planes: (u8, u8)) -> (res:
    Result<Pixel, NesError>)
    requires
        bank <= 15,
        pattern < PATTERNS,
        row < 8,
        bit < 8,
        pattern_row(c@, (bank * 0x1000 + pattern * 16 + row) as u16) == Ok::<(u8, u8), NesError>(
            planes,
        ),
    ensures
        res == chr_pixel_at(c@, bank, pattern as int, row as int, bit as int),
{
    let value: u16 = ((planes.1 >> bit) & 1) as u16 + ((planes.0 >> bit) & 1) as u16;
    let colour: u8 = busppu::read(c, 0x3f00 + value)?;
    Ok(
        place(
            c,
            (pattern % 16 * 8 + (7 - bit as u16)) as i32,
            (pattern / 16 * 8 + row) as i32,
            colour,
        ),
    )
}

/// Draws one pattern of a pattern table.
fn draw_pattern(c: &Console, bank: u16, pattern: u16, out: &mut Vec<Pixel>) -> (res: Result<
    (),
    NesError,
>)
    requires
        bank <= 15,
        pattern < PATTERNS,
        chr_pixels(c@, bank, (pattern * 64) as nat) == Ok::<Seq<Pixel>, NesError>(old(out)@),
    ensures
        match res {
            Ok(_) => chr_pixels(c@, bank, (pattern * 64 + 64) as nat) == Ok::<Seq<Pixel>, NesError>(
                final(out)@,
            ),
            Err(e) => chr_pixels(c@, bank, PATTERN_PIXELS as nat) == Err::<Seq<Pixel>, NesError>(e),
        },
{
    let mut row: u16 = 0;
    while row < 8
        invariant
            row <= 8,
            bank <= 15,
            pattern < PATTERNS,
            chr_pixels(c@, bank, (pattern * 64 + row * 8) as nat) == Ok::<Seq<Pixel>, NesError>(
                out@,
            ),
        decreases 8 - row,
    {
        let planes = match read_pattern_row(c, bank * 0x1000 + pattern * 16 + row) {
            Ok(pair) => pair,
            Err(e) => {
                proof {
                    lemma_pixel_number(pattern as int, row as int, 0);
                    lemma_chr_pixel_fails(c@, bank, (pattern * 64 + row * 8) as nat, e);
                }
                return Err(e);
            },
        };
        let mut bit: u8 = 0;
        while bit < 8
            invariant
                bit <= 8,
                row < 8,
                bank <= 15,
                pattern < PATTERNS,
                pattern_row(c@, (bank * 0x1000 + pattern * 16 + row) as u16) == Ok::<
                    (u8, u8),
                    NesError,
                >(planes),
                chr_pixels(c@, bank, (pattern * 64 + row * 8 + bit) as nat) == Ok::<
                    Seq<Pixel>,
                    NesError,
                >(out@),
            decreases 8 - bit,
        {
            proof {
                lemma_pixel_number(pattern as int, row as int, bit as int);
            }
            match read_chr_pixel(c, bank, pattern, row, bit, planes) {
                Ok(pixel) => {
                    out.push(pixel);
                },
                Err(e) => {
                    proof {
                        lemma_chr_pixel_fails(
                            c@,
                            bank,
                            (pattern * 64 + row * 8 + bit) as nat,
                            e,
                        );
                    }
                    return Err(e);
                },
            }
            bit = bit + 1;
        }
        row = row + 1;
    }
    Ok(())
}

/// Lists the calls that draw pattern table `bank` as a picture of 128 by
/// 128 pixels.
pub fn draw_chr(c: &Console, bank: u16) -> (res: Result<Vec<Pixel>, NesError>)
    requires
        bank <= 15,
    ensures
        match res {
            Ok(list) => chr_pixels(c@, bank, PATTERN_PIXELS as nat) == Ok::<Seq<Pixel>, NesError>(
                list@,
            ),
            Err(e) => chr_pixels(c@, bank, PATTERN_PIXELS as nat) == Err::<Seq<Pixel>, NesError>(e),
        },
{
    let mut out: Vec<Pixel> = Vec::new();
    let mut pattern: u16 = 0;
    while pattern < PATTERNS
        invariant
            pattern <= PATTERNS,
            bank <= 15,
            chr_pixels(c@, bank, (pattern * 64) as nat) == Ok::<Seq<Pixel>, NesError>(out@),
        decreases PATTERNS - pattern,
    {
        draw_pattern(c, bank, pattern, &mut out)?;
        pattern = pattern + 1;
    }
    Ok(out)
}

/// The calls that draw the whole of logical nametable `screen_no`, 0 to 3,
/// without scroll. There is no nametable with another number.
pub open spec fn vram_pixels(v: ConsoleView, screen_no: usize) -> Result<Seq<Pixel>, NesError> {
    if screen_no <= 3 {
        nametable_pixels(
            v,
            (0x2000 + 0x400 * screen_no) as u16,
            None,
            0,
            0,
            NAMETABLE_PIXELS as nat,
        )
    } else {
        Err(NesError::InvalidArgument)
    }
}

/// Lists the calls that draw the whole of logical nametable `screen_no`.
pub fn draw_vram(c: &Console, screen_no: usize) -> (res: Result<Vec<Pixel>, NesError>)
    ensures
        match res {
            Ok(list) => vram_pixels(c@, screen_no) == Ok::<Seq<Pixel>, NesError>(list@),
            Err(e) => vram_pixels(c@, screen_no) == Err::<Seq<Pixel>, NesError>(e),
        },
{
    if screen_no > 3 {
        return Err(NesError::InvalidArgument);
    }
    let nt_start: u16 = 0x2000 + 0x400 * (screen_no as u16);
    render_window(c, nt_start, None, 0, 0)
}

/// The first `n` entries of the palette as a picture of 16 by 2 pixels.
pub open spec fn palette_pixels(v: ConsoleView, n: nat) -> Result<Seq<Pixel>, NesError>
    decreases n,
{
    if n == 0 {
        Ok(Seq::empty())
    } else {
        match palette_pixels(v, (n - 1) as nat) {
            Ok(drawn) => match busppu::spec_read(v, (0x3f00 + n - 1) as u16) {
                Ok(colour) => Ok(drawn.push(placed(v, (n - 1) % 16, (n - 1) / 16, colour))),
                Err(e) => Err(e),
            },
            Err(e) => Err(e),
        }
    }
}

/// Once a read has failed no more of the palette is drawn.
pub proof fn lemma_palette_pixels_stop(v: ConsoleView, k: nat, n: nat)
    requires
        k <= n,
        palette_pixels(v, k) is Err,
    ensures
        palette_pixels(v, n) == palette_pixels(v, k),
    decreases n,
{
    if k < n {
        lemma_palette_pixels_stop(v, k, (n - 1) as nat);
    }
}

/// Lists the calls that draw the palette as a picture of 16 by 2 pixels.
pub fn draw_palette(c: &Console) -> (res: Result<Vec<Pixel>, NesError>)
    ensures
        match res {
            Ok(list) => palette_pixels(c@, PALETTE_ENTRIES as nat) == Ok::<Seq<Pixel>, NesError>(
                list@,
            ),
            Err(e) => palette_pixels(c@, PALETTE_ENTRIES as nat) == Err::<Seq<Pixel>, NesError>(e),
        },
{
    let mut out: Vec<Pixel> = Vec::new();
    let mut i: u8 = 0;
    while i < PALETTE_ENTRIES
        invariant
            i <= PALETTE_ENTRIES,
            palette_pixels(c@, i as nat) == Ok::<Seq<Pixel>, NesError>(out@),
        decreases PALETTE_ENTRIES - i,
    {
        match busppu::read(c, 0x3f00 + i as u16) {
            Ok(colour) => {
                out.push(place(c, (i % 16) as i32, (i / 16) as i32, colour));
            },
            Err(e) => {
                proof {
                    assert(palette_pixels(c@, (i + 1) as nat) == Err::<Seq<Pixel>, NesError>(e));
                    lemma_palette_pixels_stop(c@, (i + 1) as nat, PALETTE_ENTRIES as nat);
                }
                return Err(e);
            },
        }
        i = i + 1;
    }
    Ok(out)
}

} // verus!
