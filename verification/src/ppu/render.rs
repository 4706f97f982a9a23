use vstd::prelude::*;
use vstd::std_specs::convert::FromSpecImpl;
use crate::busppu;
use crate::console::{Console, ConsoleView};
use crate::error::NesError;
use crate::nesscreen::Pixel;
use crate::ppu::{emphasis, palette_rgb, spec_emphasis, spec_palette_rgb};
use crate::rom::Mirroring;

verus! {

/// Tiles in a nametable: 30 rows of 32.
pub const TILES: u16 = 960;

/// Pixels in a nametable: 64 for each tile.
pub const NAMETABLE_PIXELS: u32 = 61440;

/// Sprites in sprite memory.
pub const SPRITES: u16 = 64;

/// Pixels that the sprites can cover: two tiles of 64 for each sprite.
pub const SPRITE_PIXELS: u32 = 8192;

/// Rows of the screen.
pub const SCREEN_HEIGHT: u8 = 240;

/// The part of a nametable that is shown: columns `x1` up to but not
/// including `x2`, rows `y1` up to but not including `y2`.
#[derive(Clone, Copy, Debug, PartialEq, Eq, Structural)]
pub struct ViewPort {
    pub x1: u8,
    pub y1: u8,
    pub x2: u8,
    pub y2: u8,
}

impl FromSpecImpl<[u8; 4]> for ViewPort {
    open spec fn obeys_from_spec() -> bool {
        true
    }

    open spec fn from_spec(other: [u8; 4]) -> ViewPort {
        ViewPort { x1: other[0], y1: other[1], x2: other[2], y2: other[3] }
    }
}

impl From<[u8; 4]> for ViewPort {
    fn from(other: [u8; 4]) -> (vp: ViewPort) {
        ViewPort { x1: other[0], y1: other[1], x2: other[2], y2: other[3] }
    }
}

impl ViewPort {
    /// Whether the nametable pixel in column `px` and row `py` is shown.
    pub open spec fn spec_contains(&self, px: int, py: int) -> bool {
        self.x1 <= px < self.x2 && self.y1 <= py < self.y2
    }

    /// Whether the nametable pixel in column `px` and row `py` is shown.
    pub fn contains(&self, px: u8, py: u8) -> (shown: bool)
        ensures
            shown == self.spec_contains(px as int, py as int),
    {
        px >= self.x1 && px < self.x2 && py >= self.y1 && py < self.y2
    }
}

/// The two bits of an attribute byte that belong to a tile: an attribute
/// byte serves four by four tiles, two bits for each quarter.
pub open spec fn tile_palette(attr: u8, tile_col: int, tile_row: int) -> u8 {
    if tile_row % 4 / 2 == 0 {
        if tile_col % 4 / 2 == 0 {
            attr & 0b11
        } else {
            (attr >> 2) & 0b11
        }
    } else {
        if tile_col % 4 / 2 == 0 {
            (attr >> 4) & 0b11
        } else {
            (attr >> 6) & 0b11
        }
    }
}

/// The colour number, 0 to 3, of one pixel of a tile row: bit `bit` of the
/// low plane, and above it bit `bit` of the high plane.
pub open spec fn pattern_value(lo: u8, hi: u8, bit: u8) -> u8 {
    (((hi >> bit) & 1) << 1) | ((lo >> bit) & 1)
}

/// The two planes of a tile row: the byte at `addr` and the byte eight
/// further.
pub open spec fn pattern_row(v: ConsoleView, addr: u16) -> Result<(u8, u8), NesError> {
    match busppu::spec_read(v, addr) {
        Ok(lo) => match busppu::spec_read(v, (addr + 8) as u16) {
            Ok(hi) => Ok((lo, hi)),
            Err(e) => Err(e),
        },
        Err(e) => Err(e),
    }
}

/// What a nametable says of tile number `tile`: the tile's pattern number
/// and the attribute byte that serves it.
pub open spec fn tile_header(v: ConsoleView, nt_base: u16, tile: int) -> Result<
    (u8, u8),
    NesError,
> {
    match busppu::spec_read(v, (nt_base + tile) as u16) {
        Ok(id) => match busppu::spec_read(
            v,
            (nt_base + 0x3c0 + tile / 32 / 4 * 8 + tile % 32 / 4) as u16,
        ) {
            Ok(attr) => Ok((id, attr)),
            Err(e) => Err(e),
        },
        Err(e) => Err(e),
    }
}

/// Where row `row` of background pattern `id` is stored: in the pattern
/// table that the control register selects, 16 bytes for each pattern.
pub open spec fn background_pattern_addr(v: ConsoleView, id: u8, row: int) -> u16 {
    ((if v.ppu.reg_control.spec_get_bg() {
        0x1000int
    } else {
        0int
    }) + id * 16 + row) as u16
}

/// The palette entry of a background pixel with colour number `value`:
/// the shared background colour for 0, else the entry of the tile's
/// palette.
pub open spec fn background_colour(v: ConsoleView, palette: u8, value: u8) -> Result<
    u8,
    NesError,
> {
    if value == 0 {
        busppu::spec_read(v, 0x3f00)
    } else {
        busppu::spec_read(v, (0x3f00 + 4 * palette + value) as u16)
    }
}

/// The call that draws a pixel with palette entry `colour` at column `x`
/// and row `y`, both taken modulo 256.
pub open spec fn placed(v: ConsoleView, x: int, y: int, colour: u8) -> Pixel {
    Pixel {
        x: (x % 256) as u8,
        y: (y % 256) as u8,
        rgb: spec_emphasis(v.ppu.reg_mask, spec_palette_rgb(colour)),
    }
}

/// Whether a window shows the nametable pixel in column `px` and row `py`.
/// Without a viewport the whole nametable is shown.
pub open spec fn window_shows(window: Option<ViewPort>, px: int, py: int) -> bool {
    match window {
        Some(view_port) => view_port.spec_contains(px, py),
        None => true,
    }
}

/// What pixel number `k` of a nametable adds to the picture. Pixels are
/// numbered tile by tile, row by row within a tile, and from right to left
/// within a row. A pixel outside the window adds nothing; one inside is
/// drawn `scroll_x` to the right and `scroll_y` down.
pub open spec fn nametable_pixel(
    v: ConsoleView,
    nt_base: u16,
    view_port: Option<ViewPort>,
    scroll_x: i16,
    scroll_y: i16,
    k: int,
) -> Result<Option<Pixel>, NesError> {
    let tile = k / 64;
    let row = k % 64 / 8;
    let col = k % 8;
    match tile_header(v, nt_base, tile) {
        Ok((id, attr)) => match pattern_row(v, background_pattern_addr(v, id, row)) {
            Ok((lo, hi)) => match background_colour(
                v,
                tile_palette(attr, tile % 32, tile / 32),
                pattern_value(lo, hi, col as u8),
            ) {
                Ok(colour) => {
                    let px = tile % 32 * 8 + (7 - col);
                    let py = tile / 32 * 8 + row;
                    if window_shows(view_port, px, py) {
                        Ok(Some(placed(v, scroll_x + px, scroll_y + py, colour)))
                    } else {
                        Ok(None)
                    }
                },
                Err(e) => Err(e),
            },
            Err(e) => Err(e),
        },
        Err(e) => Err(e),
    }
}

/// The calls that draw the first `n` pixels of a nametable, in order. A
/// read that fails ends the drawing.
pub open spec fn nametable_pixels(
    v: ConsoleView,
    nt_base: u16,
    view_port: Option<ViewPort>,
    scroll_x: i16,
    scroll_y: i16,
    n: nat,
) -> Result<Seq<Pixel>, NesError>
    decreases n,
{
    if n == 0 {
        Ok(Seq::empty())
    } else {
        match nametable_pixels(v, nt_base, view_port, scroll_x, scroll_y, (n - 1) as nat) {
            Ok(drawn) => match nametable_pixel(v, nt_base, view_port, scroll_x, scroll_y, n - 1) {
                Ok(Some(pixel)) => Ok(drawn.push(pixel)),
                Ok(None) => Ok(drawn),
                Err(e) => Err(e),
            },
            Err(e) => Err(e),
        }
    }
}

/// Once a read has failed nothing more is drawn.
pub proof fn lemma_nametable_pixels_stop(
    v: ConsoleView,
    nt_base: u16,
    view_port: Option<ViewPort>,
    scroll_x: i16,
    scroll_y: i16,
    k: nat,
    n: nat,
)
    requires
        k <= n,
        nametable_pixels(v, nt_base, view_port, scroll_x, scroll_y, k) is Err,
    ensures
        nametable_pixels(v, nt_base, view_port, scroll_x, scroll_y, n) == nametable_pixels(
            v,
            nt_base,
            view_port,
            scroll_x,
            scroll_y,
            k,
        ),
    decreases n,
{
    if k < n {
        lemma_nametable_pixels_stop(v, nt_base, view_port, scroll_x, scroll_y, k, (n - 1) as nat);
    }
}

/// Computes `pattern_value`.
fn pattern_value_at(lo: u8, hi: u8, bit: u8) -> (value: u8)
    requires
        bit < 8,
    ensures
        value == pattern_value(lo, hi, bit),
{
    (((hi >> bit) & 1) << 1) | ((lo >> bit) & 1)
}

/// Computes `tile_palette`.
fn tile_palette_of(attr: u8, tile_col: u16, tile_row: u16) -> (palette: u8)
    ensures
        palette == tile_palette(attr, tile_col as int, tile_row as int),
{
    if tile_row % 4 / 2 == 0 {
        if tile_col % 4 / 2 == 0 {
            attr & 0b11
        } else {
            (attr >> 2) & 0b11
        }
    } else {
        if tile_col % 4 / 2 == 0 {
            (attr >> 4) & 0b11
        } else {
            (attr >> 6) & 0b11
        }
    }
}

/// Reads the two planes of a tile row.
pub(crate) fn read_pattern_row(c: &Console, addr: u16) -> (res: Result<(u8, u8), NesError>)
    requires
        addr <= 0xffff - 8,
    ensures
        res == pattern_row(c@, addr),
{
    let lo: u8 = busppu::read(c, addr)?;
    let hi: u8 = busppu::read(c, addr + 8)?;
    Ok((lo, hi))
}

/// Reads a tile's pattern number and attribute byte.
fn read_tile_header(c: &Console, nt_base: u16, tile: u16) -> (res: Result<(u8, u8), NesError>)
    requires
        tile < TILES,
        nt_base <= 0xffff - 0x3ff,
    ensures
        res == tile_header(c@, nt_base, tile as int),
{
    let id: u8 = busppu::read(c, nt_base + tile)?;
    let attr: u8 = busppu::read(c, nt_base + 0x3c0 + tile / 32 / 4 * 8 + tile % 32 / 4)?;
    Ok((id, attr))
}

/// Reads the palette entry of a background pixel.
fn read_background_colour(c: &Console, palette: u8, value: u8) -> (res: Result<u8, NesError>)
    ensures
        res == background_colour(c@, palette, value),
{
    if value == 0 {
        busppu::read(c, 0x3f00)
    } else {
        busppu::read(c, 0x3f00 + 4 * (palette as u16) + value as u16)
    }
}

/// Makes the call that draws a pixel.
pub(crate) fn place(c: &Console, x: i32, y: i32, colour: u8) -> (pixel: Pixel)
    requires
        -0x8000 <= x <= 0x8fff,
        -0x8000 <= y <= 0x8fff,
    ensures
        pixel == placed(c@, x as int, y as int, colour),
{
    let mut rgb = palette_rgb(colour);
    emphasis(&c.ppu.reg_mask, &mut rgb);
    let wrapped_x: u32 = ((x + 0x8000) as u32) % 256;
    let wrapped_y: u32 = ((y + 0x8000) as u32) % 256;
    Pixel { x: wrapped_x as u8, y: wrapped_y as u8, rgb }
}

/// The tile, row and column of pixel number `tile * 64 + row * 8 + col`.
pub proof fn lemma_pixel_number(tile: int, row: int, col: int)
    requires
        0 <= tile,
        0 <= row < 8,
        0 <= col < 8,
    ensures
        (tile * 64 + row * 8 + col) / 64 == tile,
        (tile * 64 + row * 8 + col) % 64 / 8 == row,
        (tile * 64 + row * 8 + col) % 8 == col,
{
}

/// A pixel that cannot be read ends the drawing with its error.
pub proof fn lemma_nametable_pixel_fails(
    v: ConsoleView,
    nt_base: u16,
    view_port: Option<ViewPort>,
    scroll_x: i16,
    scroll_y: i16,
    k: nat,
    e: NesError,
)
    requires
        k < NAMETABLE_PIXELS,
        nametable_pixels(v, nt_base, view_port, scroll_x, scroll_y, k) is Ok,
        nametable_pixel(v, nt_base, view_port, scroll_x, scroll_y, k as int) == Err::<
            Option<Pixel>,
            NesError,
        >(e),
    ensures
        nametable_pixels(v, nt_base, view_port, scroll_x, scroll_y, NAMETABLE_PIXELS as nat)
            == Err::<Seq<Pixel>, NesError>(e),
{
    assert(nametable_pixels(v, nt_base, view_port, scroll_x, scroll_y, k + 1) == Err::<
        Seq<Pixel>,
        NesError,
    >(e));
    lemma_nametable_pixels_stop(
        v,
        nt_base,
        view_port,
        scroll_x,
        scroll_y,
        k + 1,
        NAMETABLE_PIXELS as nat,
    );
}

/// Draws one pixel of a nametable.
fn render_pixel(
    c: &Console,
    view_port: Option<ViewPort>,
    scroll_x: i16,
    scroll_y: i16,
    tile: u16,
    row: u16,
    col: u8,
    palette: u8,
    planes: (u8, u8),
    out: &mut Vec<Pixel>,
    Ghost(nt_base): Ghost<u16>,
    Ghost(header): Ghost<(u8, u8)>,
) -> (res: Result<(), NesError>)
    requires
        tile < TILES,
        row < 8,
        col < 8,
        tile_header(c@, nt_base, tile as int) == Ok::<(u8, u8), NesError>(header),
        palette == tile_palette(header.1, (tile % 32) as int, (tile / 32) as int),
        pattern_row(c@, background_pattern_addr(c@, header.0, row as int)) == Ok::<
            (u8, u8),
            NesError,
        >(planes),
        nametable_pixels(
            c@,
            nt_base,
            view_port,
            scroll_x,
            scroll_y,
            (tile * 64 + row * 8 + col) as nat,
        ) == Ok::<Seq<Pixel>, NesError>(old(out)@),
    ensures
        match res {
            Ok(_) => nametable_pixels(
                c@,
                nt_base,
                view_port,
                scroll_x,
                scroll_y,
                (tile * 64 + row * 8 + col + 1) as nat,
            ) == Ok::<Seq<Pixel>, NesError>(final(out)@),
            Err(e) => nametable_pixels(
                c@,
                nt_base,
                view_port,
                scroll_x,
                scroll_y,
                NAMETABLE_PIXELS as nat,
            ) == Err::<Seq<Pixel>, NesError>(e),
        },
{
    let ghost k = (tile * 64 + row * 8 + col) as nat;
    proof {
        lemma_pixel_number(tile as int, row as int, col as int);
    }
    let value: u8 = pattern_value_at(planes.0, planes.1, col);
    match read_background_colour(c, palette, value) {
        Ok(colour) => {
            let px: u8 = ((tile % 32) * 8 + (7 - col as u16)) as u8;
            let py: u8 = ((tile / 32) * 8 + row) as u8;
            let shown = match view_port {
                Some(window) => window.contains(px, py),
                None => true,
            };
            if shown {
                out.push(place(c, scroll_x as i32 + px as i32, scroll_y as i32 + py as i32, colour));
            }
            Ok(())
        },
        Err(e) => {
            proof {
                lemma_nametable_pixel_fails(c@, nt_base, view_port, scroll_x, scroll_y, k, e);
            }
            Err(e)
        },
    }
}

/// Draws one tile of a nametable.
fn render_tile(
    c: &Console,
    nt_base: u16,
    view_port: Option<ViewPort>,
    scroll_x: i16,
    scroll_y: i16,
    tile: u16,
    out: &mut Vec<Pixel>,
) -> (res: Result<(), NesError>)
    requires
        tile < TILES,
        nt_base <= 0xffff - 0x3ff,
        nametable_pixels(c@, nt_base, view_port, scroll_x, scroll_y, (tile * 64) as nat) == Ok::<
            Seq<Pixel>,
            NesError,
        >(old(out)@),
    ensures
        match res {
            Ok(_) => nametable_pixels(
                c@,
                nt_base,
                view_port,
                scroll_x,
                scroll_y,
                (tile * 64 + 64) as nat,
            ) == Ok::<Seq<Pixel>, NesError>(final(out)@),
            Err(e) => nametable_pixels(
                c@,
                nt_base,
                view_port,
                scroll_x,
                scroll_y,
                NAMETABLE_PIXELS as nat,
            ) == Err::<Seq<Pixel>, NesError>(e),
        },
{
    let header = match read_tile_header(c, nt_base, tile) {
        Ok(pair) => pair,
        Err(e) => {
            proof {
                lemma_pixel_number(tile as int, 0, 0);
                lemma_nametable_pixel_fails(
                    c@,
                    nt_base,
                    view_port,
                    scroll_x,
                    scroll_y,
                    (tile * 64) as nat,
                    e,
                );
            }
            return Err(e);
        },
    };
    let palette: u8 = tile_palette_of(header.1, tile % 32, tile / 32);
    let chr_bank: u16 = if c.ppu.reg_control.get_bg() {
        0x1000
    } else {
        0
    };
    let mut row: u16 = 0;
    while row < 8
        invariant
            row <= 8,
            tile < TILES,
            tile_header(c@, nt_base, tile as int) == Ok::<(u8, u8), NesError>(header),
            palette == tile_palette(header.1, (tile % 32) as int, (tile / 32) as int),
            chr_bank == background_pattern_addr(c@, 0, 0),
            nametable_pixels(
                c@,
                nt_base,
                view_port,
                scroll_x,
                scroll_y,
                (tile * 64 + row * 8) as nat,
            ) == Ok::<Seq<Pixel>, NesError>(out@),
        decreases 8 - row,
    {
        let planes = match read_pattern_row(c, chr_bank + (header.0 as u16) * 16 + row) {
            Ok(pair) => pair,
            Err(e) => {
                proof {
                    lemma_pixel_number(tile as int, row as int, 0);
                    lemma_nametable_pixel_fails(
                        c@,
                        nt_base,
                        view_port,
                        scroll_x,
                        scroll_y,
                        (tile * 64 + row * 8) as nat,
                        e,
                    );
                }
                return Err(e);
            },
        };
        let mut col: u8 = 0;
        while col < 8
            invariant
                col <= 8,
                row < 8,
                tile < TILES,
                tile_header(c@, nt_base, tile as int) == Ok::<(u8, u8), NesError>(header),
                palette == tile_palette(header.1, (tile % 32) as int, (tile / 32) as int),
                pattern_row(c@, background_pattern_addr(c@, header.0, row as int)) == Ok::<
                    (u8, u8),
                    NesError,
                >(planes),
                nametable_pixels(
                    c@,
                    nt_base,
                    view_port,
                    scroll_x,
                    scroll_y,
                    (tile * 64 + row * 8 + col) as nat,
                ) == Ok::<Seq<Pixel>, NesError>(out@),
            decreases 8 - col,
        {
            render_pixel(
                c,
                view_port,
                scroll_x,
                scroll_y,
                tile,
                row,
                col,
                palette,
                planes,
                out,
                Ghost(nt_base),
                Ghost(header),
            )?;
            col = col + 1;
        }
        row = row + 1;
    }
    Ok(())
}

/// Lists the calls that draw a nametable through a window.
pub(crate) fn render_window(
    c: &Console,
    nt_base: u16,
    view_port: Option<ViewPort>,
    scroll_x: i16,
    scroll_y: i16,
) -> (res: Result<Vec<Pixel>, NesError>)
    requires
        nt_base <= 0xffff - 0x3ff,
    ensures
        match res {
            Ok(list) => nametable_pixels(
                c@,
                nt_base,
                view_port,
                scroll_x,
                scroll_y,
                NAMETABLE_PIXELS as nat,
            ) == Ok::<Seq<Pixel>, NesError>(list@),
            Err(e) => nametable_pixels(
                c@,
                nt_base,
                view_port,
                scroll_x,
                scroll_y,
                NAMETABLE_PIXELS as nat,
            ) == Err::<Seq<Pixel>, NesError>(e),
        },
{
    let mut out: Vec<Pixel> = Vec::new();
    let mut tile: u16 = 0;
    while tile < TILES
        invariant
            tile <= TILES,
            nt_base <= 0xffff - 0x3ff,
            nametable_pixels(c@, nt_base, view_port, scroll_x, scroll_y, (tile * 64) as nat) == Ok::<
                Seq<Pixel>,
                NesError,
            >(out@),
        decreases TILES - tile,
    {
        render_tile(c, nt_base, view_port, scroll_x, scroll_y, tile, &mut out)?;
        tile = tile + 1;
    }
    Ok(out)
}

/// Lists the calls that draw the part of the nametable at `nt_base` that
/// lies in `view_port`, moved by the scroll. The list is in the order in
/// which the pixels are drawn.
pub fn render_nametable(
    c: &Console,
    nt_base: u16,
    view_port: ViewPort,
    scroll_x: i16,
    scroll_y: i16,
) -> (res: Result<Vec<Pixel>, NesError>)
    requires
        nt_base <= 0xffff - 0x3ff,
    ensures
        match res {
            Ok(list) => nametable_pixels(
                c@,
                nt_base,
                Some(view_port),
                scroll_x,
                scroll_y,
                NAMETABLE_PIXELS as nat,
            ) == Ok::<Seq<Pixel>, NesError>(list@),
            Err(e) => nametable_pixels(
                c@,
                nt_base,
                Some(view_port),
                scroll_x,
                scroll_y,
                NAMETABLE_PIXELS as nat,
            ) == Err::<Seq<Pixel>, NesError>(e),
        },
{
    render_window(c, nt_base, Some(view_port), scroll_x, scroll_y)
}

/// The two nametables that the background is drawn from: the one that the
/// control register and the mirroring select, and the one beside it.
pub open spec fn background_nametables(v: ConsoleView) -> (u16, u16) {
    let offset = v.ppu.reg_control.spec_nametable_offset();
    let first = match v.cartridge.rom.mirroring {
        Mirroring::Vertical => offset == 0x000 || offset == 0x800,
        Mirroring::Horizontal => offset == 0x000 || offset == 0x400,
    };
    if first {
        (0x2000, 0x2400)
    } else {
        (0x2400, 0x2000)
    }
}

/// The calls that draw the background. The first nametable is drawn from
/// the scroll position on, moved to the top left of the screen. Where the
/// picture is scrolled to the right, the columns that are left free on the
/// right are drawn from the second nametable; else, where it is scrolled
/// down, the rows that are left free at the bottom.
pub open spec fn background_pixels(v: ConsoleView) -> Result<Seq<Pixel>, NesError> {
    let (nt1, nt2) = background_nametables(v);
    let sx = v.ppu.reg_scroll.scroll_x;
    let sy = v.ppu.reg_scroll.scroll_y;
    match nametable_pixels(
        v,
        nt1,
        Some(ViewPort { x1: sx, y1: sy, x2: 255, y2: 240 }),
        (-sx) as i16,
        (-sy) as i16,
        NAMETABLE_PIXELS as nat,
    ) {
        Ok(first) => if sx > 0 {
            match nametable_pixels(
                v,
                nt2,
                Some(ViewPort { x1: 0, y1: 0, x2: sx, y2: 240 }),
                (256 - sx) as i16,
                0,
                NAMETABLE_PIXELS as nat,
            ) {
                Ok(second) => Ok(first + second),
                Err(e) => Err(e),
            }
        } else if sy > 0 {
            match nametable_pixels(
                v,
                nt2,
                Some(ViewPort { x1: 0, y1: 0, x2: 255, y2: sy }),
                0,
                (240 - sy) as i16,
                NAMETABLE_PIXELS as nat,
            ) {
                Ok(second) => Ok(first + second),
                Err(e) => Err(e),
            }
        } else {
            Ok(first)
        },
        Err(e) => Err(e),
    }
}

/// Lists the calls that draw the background.
pub fn render_background(c: &Console) -> (res: Result<Vec<Pixel>, NesError>)
    ensures
        match res {
            Ok(list) => background_pixels(c@) == Ok::<Seq<Pixel>, NesError>(list@),
            Err(e) => background_pixels(c@) == Err::<Seq<Pixel>, NesError>(e),
        },
{
    let offset: u16 = c.ppu.reg_control.nametable_offset();
    let first = match c.cartridge.rom.mirroring {
        Mirroring::Vertical => offset == 0x000 || offset == 0x800,
        Mirroring::Horizontal => offset == 0x000 || offset == 0x400,
    };
    let (nt1, nt2): (u16, u16) = if first {
        (0x2000, 0x2400)
    } else {
        (0x2400, 0x2000)
    };
    let scroll_x: u8 = c.ppu.reg_scroll.scroll_x;
    let scroll_y: u8 = c.ppu.reg_scroll.scroll_y;

    let mut list = render_nametable(
        c,
        nt1,
        ViewPort { x1: scroll_x, y1: scroll_y, x2: 255, y2: 240 },
        -(scroll_x as i16),
        -(scroll_y as i16),
    )?;
    if scroll_x > 0 {
        let mut second = render_nametable(
            c,
            nt2,
            ViewPort { x1: 0, y1: 0, x2: scroll_x, y2: 240 },
            256 - scroll_x as i16,
            0,
        )?;
        list.append(&mut second);
    } else if scroll_y > 0 {
        let mut second = render_nametable(
            c,
            nt2,
            ViewPort { x1: 0, y1: 0, x2: 255, y2: scroll_y },
            0,
            240 - scroll_y as i16,
        )?;
        list.append(&mut second);
    }
    Ok(list)
}

/// Where the pattern of one half of a sprite is stored. A sprite of
/// height 8 has one half, in the pattern table that the control register
/// selects. A sprite of height 16 takes its upper half from the even
/// pattern number below its own, and its lower half from the pattern after
/// it, or 256 patterns further where its number is odd.
pub open spec fn sprite_tile_addr(v: ConsoleView, sprite: int, half: int) -> int {
    let id = v.ppu.oam[4 * sprite + 1];
    if !v.ppu.reg_control.spec_spr_height_16() {
        (if v.ppu.reg_control.spec_get_spr() {
            0x1000int
        } else {
            0int
        }) + id * 16
    } else if half == 0 {
        (id & 0xfe) * 16
    } else {
        ((id & 0xfe) + (if id & 1 != 0 {
            256int
        } else {
            1int
        })) * 16
    }
}

/// The screen row of the top of one half of a sprite: the sprite's own
/// row for the upper half, one row further for the lower.
pub open spec fn sprite_top(v: ConsoleView, sprite: int, half: int) -> u8 {
    if half == 0 {
        v.ppu.oam[4 * sprite]
    } else {
        ((v.ppu.oam[4 * sprite] + 1) % 256) as u8
    }
}

/// The palette address of a sprite pixel with colour number `value`, 1 to
/// 3: the sprite palettes start at 0x3F11 and take four entries each.
pub open spec fn sprite_colour_addr(attr: u8, value: u8) -> u16 {
    (0x3f00 + 0x11 + (attr & 0b11) * 4 + value - 1) as u16
}

/// Where a sprite pixel with palette entry `colour` is drawn, if at all.
/// Bit 6 of the sprite's attributes flips the sprite from left to right,
/// bit 7 from top to bottom. A pixel below the last row of the screen is
/// not drawn.
pub open spec fn sprite_pixel_placed(
    v: ConsoleView,
    sprite: int,
    half: int,
    row: int,
    bit: int,
    colour: u8,
) -> Option<Pixel> {
    let attr = v.ppu.oam[4 * sprite + 2];
    let dx = if attr & 0x40 != 0 {
        bit
    } else {
        7 - bit
    };
    let dy = if attr & 0x80 != 0 {
        7 - row
    } else {
        row
    };
    let py = (sprite_top(v, sprite, half) + dy) % 256;
    if py < SCREEN_HEIGHT {
        Some(placed(v, v.ppu.oam[4 * sprite + 3] + dx, py, colour))
    } else {
        None
    }
}

/// What one pixel of a sprite adds to the picture: the pixel in row `row`
/// and at bit `bit` of the pattern of one half of the sprite. A pixel with
/// colour number 0 is transparent. A sprite of height 8 has no lower half.
pub open spec fn sprite_pixel_at(v: ConsoleView, sprite: int, half: int, row: int, bit: int) -> Result<
    Option<Pixel>,
    NesError,
> {
    if half == 1 && !v.ppu.reg_control.spec_spr_height_16() {
        Ok(None)
    } else {
        match pattern_row(v, (sprite_tile_addr(v, sprite, half) + row) as u16) {
            Ok((upper, lower)) => {
                let value = pattern_value(upper, lower, bit as u8);
                if value == 0 {
                    Ok(None)
                } else {
                    match busppu::spec_read(
                        v,
                        sprite_colour_addr(v.ppu.oam[4 * sprite + 2], value),
                    ) {
                        Ok(colour) => Ok(sprite_pixel_placed(v, sprite, half, row, bit, colour)),
                        Err(e) => Err(e),
                    }
                }
            },
            Err(e) => Err(e),
        }
    }
}

/// What pixel number `k` of the sprites adds to the picture. Sprites are
/// numbered as they lie in sprite memory; each has two halves of 64
/// pixels, numbered row by row.
pub open spec fn sprite_pixel(v: ConsoleView, k: int) -> Result<Option<Pixel>, NesError> {
    sprite_pixel_at(v, k / 128, k % 128 / 64, k % 64 / 8, k % 8)
}

/// The calls that draw the first `n` pixels of the sprites, in order. A
/// read that fails ends the drawing.
pub open spec fn sprite_pixels(v: ConsoleView, n: nat) -> Result<Seq<Pixel>, NesError>
    decreases n,
{
    if n == 0 {
        Ok(Seq::empty())
    } else {
        match sprite_pixels(v, (n - 1) as nat) {
            Ok(drawn) => match sprite_pixel(v, n - 1) {
                Ok(Some(pixel)) => Ok(drawn.push(pixel)),
                Ok(None) => Ok(drawn),
                Err(e) => Err(e),
            },
            Err(e) => Err(e),
        }
    }
}

/// Once a read has failed no more sprite pixels are drawn.
pub proof fn lemma_sprite_pixels_stop(v: ConsoleView, k: nat, n: nat)
    requires
        k <= n,
        sprite_pixels(v, k) is Err,
    ensures
        sprite_pixels(v, n) == sprite_pixels(v, k),
    decreases n,
{
    if k < n {
        lemma_sprite_pixels_stop(v, k, (n - 1) as nat);
    }
}

/// A sprite pixel that cannot be read ends the drawing with its error.
pub proof fn lemma_sprite_pixel_fails(v: ConsoleView, k: nat, e: NesError)
    requires
        k < SPRITE_PIXELS,
        sprite_pixels(v, k) is Ok,
        sprite_pixel(v, k as int) == Err::<Option<Pixel>, NesError>(e),
    ensures
        sprite_pixels(v, SPRITE_PIXELS as nat) == Err::<Seq<Pixel>, NesError>(e),
{
    assert(sprite_pixels(v, k + 1) == Err::<Seq<Pixel>, NesError>(e));
    lemma_sprite_pixels_stop(v, k + 1, SPRITE_PIXELS as nat);
}

/// The sprite, half, row and bit of a sprite pixel number.
pub proof fn lemma_sprite_pixel_number(sprite: int, half: int, row: int, bit: int)
    requires
        0 <= sprite,
        0 <= half < 2,
        0 <= row < 8,
        0 <= bit < 8,
    ensures
        (sprite * 128 + half * 64 + row * 8 + bit) / 128 == sprite,
        (sprite * 128 + half * 64 + row * 8 + bit) % 128 / 64 == half,
        (sprite * 128 + half * 64 + row * 8 + bit) % 64 / 8 == row,
        (sprite * 128 + half * 64 + row * 8 + bit) % 8 == bit,
{
}

/// The lower half of a sprite of height 8 adds nothing.
pub proof fn lemma_sprite_half_skipped(v: ConsoleView, sprite: int, n: nat)
    requires
        0 <= sprite,
        n <= 64,
        !v.ppu.reg_control.spec_spr_height_16(),
        sprite_pixels(v, (sprite * 128 + 64) as nat) is Ok,
    ensures
        sprite_pixels(v, (sprite * 128 + 64 + n) as nat) == sprite_pixels(
            v,
            (sprite * 128 + 64) as nat,
        ),
    decreases n,
{
    if n > 0 {
        lemma_sprite_half_skipped(v, sprite, (n - 1) as nat);
        let k = sprite * 128 + 64 + n - 1;
        lemma_sprite_pixel_number(sprite, 1, (n - 1) / 8, (n - 1) % 8);
        assert(sprite_pixel(v, k) == sprite_pixel_at(v, sprite, 1, (n - 1) / 8, (n - 1) % 8));
    }
}

/// Places a sprite pixel on the screen.
fn place_sprite_pixel(c: &Console, sprite: u16, half: u16, row: u8, bit: u8, colour: u8) -> (res:
    Option<Pixel>)
    requires
        sprite < SPRITES,
        half < 2,
        row < 8,
        bit < 8,
    ensures
        res == sprite_pixel_placed(c@, sprite as int, half as int, row as int, bit as int, colour),
{
    let base: usize = 4 * sprite as usize;
    let attr: u8 = c.ppu.oam[base + 2];
    let tile_x: u8 = c.ppu.oam[base + 3];
    let top: u8 = if half == 0 {
        c.ppu.oam[base]
    } else {
        ((c.ppu.oam[base] as u16 + 1) % 256) as u8
    };
    let dx: u8 = if attr & 0x40 != 0 {
        bit
    } else {
        7 - bit
    };
    let dy: u8 = if attr & 0x80 != 0 {
        7 - row
    } else {
        row
    };
    let py: u8 = ((top as u16 + dy as u16) % 256) as u8;
    if py < SCREEN_HEIGHT {
        Some(place(c, tile_x as i32 + dx as i32, py as i32, colour))
    } else {
        None
    }
}

/// Reads what one pixel of a sprite adds to the picture.
fn read_sprite_pixel(c: &Console, sprite: u16, half: u16, row: u8, bit: u8, planes: (u8, u8)) -> (res:
    Result<Option<Pixel>, NesError>)
    requires
        sprite < SPRITES,
        half < 2,
        row < 8,
        bit < 8,
        half == 0 || c@.ppu.reg_control.spec_spr_height_16(),
        pattern_row(c@, (sprite_tile_addr(c@, sprite as int, half as int) + row) as u16) == Ok::<
            (u8, u8),
            NesError,
        >(planes),
    ensures
        res == sprite_pixel_at(c@, sprite as int, half as int, row as int, bit as int),
{
    let value: u8 = pattern_value_at(planes.0, planes.1, bit);
    if value == 0 {
        return Ok(None);
    }
    let attr: u8 = c.ppu.oam[4 * sprite as usize + 2];
    let addr: u16 = 0x3f00 + 0x11 + ((attr & 0b11) as u16) * 4 + value as u16 - 1;
    let colour: u8 = busppu::read(c, addr)?;
    Ok(place_sprite_pixel(c, sprite, half, row, bit, colour))
}

/// Draws one pixel of a sprite.
fn render_sprite_pixel(
    c: &Console,
    sprite: u16,
    half: u16,
    row: u8,
    bit: u8,
    planes: (u8, u8),
    out: &mut Vec<Pixel>,
) -> (res: Result<(), NesError>)
    requires
        sprite < SPRITES,
        half < 2,
        row < 8,
        bit < 8,
        half == 0 || c@.ppu.reg_control.spec_spr_height_16(),
        pattern_row(c@, (sprite_tile_addr(c@, sprite as int, half as int) + row) as u16) == Ok::<
            (u8, u8),
            NesError,
        >(planes),
        sprite_pixels(c@, (sprite * 128 + half * 64 + row * 8 + bit) as nat) == Ok::<
            Seq<Pixel>,
            NesError,
        >(old(out)@),
    ensures
        match res {
            Ok(_) => sprite_pixels(c@, (sprite * 128 + half * 64 + row * 8 + bit + 1) as nat)
                == Ok::<Seq<Pixel>, NesError>(final(out)@),
            Err(e) => sprite_pixels(c@, SPRITE_PIXELS as nat) == Err::<Seq<Pixel>, NesError>(e),
        },
{
    let ghost k = (sprite * 128 + half * 64 + row * 8 + bit) as nat;
    proof {
        lemma_sprite_pixel_number(sprite as int, half as int, row as int, bit as int);
    }
    match read_sprite_pixel(c, sprite, half, row, bit, planes) {
        Ok(Some(pixel)) => {
            out.push(pixel);
            Ok(())
        },
        Ok(None) => Ok(()),
        Err(e) => {
            proof {
                lemma_sprite_pixel_fails(c@, k, e);
            }
            Err(e)
        },
    }
}

/// Computes `sprite_tile_addr`.
fn sprite_tile_address(c: &Console, sprite: u16, half: u16) -> (addr: u16)
    requires
        sprite < SPRITES,
        half < 2,
    ensures
        addr == sprite_tile_addr(c@, sprite as int, half as int),
        addr <= 0x2000,
{
    let id: u8 = c.ppu.oam[4 * sprite as usize + 1];
    if !c.ppu.reg_control.spr_height_16() {
        let table: u16 = if c.ppu.reg_control.get_spr() {
            0x1000
        } else {
            0
        };
        table + (id as u16) * 16
    } else if half == 0 {
        ((id & 0xfe) as u16) * 16
    } else {
        let next: u16 = if id & 1 != 0 {
            256
        } else {
            1
        };
        (((id & 0xfe) as u16) + next) * 16
    }
}

/// Draws one half of a sprite.
fn render_sprite_tile(c: &Console, sprite: u16, half: u16, out: &mut Vec<Pixel>) -> (res: Result<
    (),
    NesError,
>)
    requires
        sprite < SPRITES,
        half < 2,
        half == 0 || c@.ppu.reg_control.spec_spr_height_16(),
        sprite_pixels(c@, (sprite * 128 + half * 64) as nat) == Ok::<Seq<Pixel>, NesError>(
            old(out)@,
        ),
    ensures
        match res {
            Ok(_) => sprite_pixels(c@, (sprite * 128 + half * 64 + 64) as nat) == Ok::<
                Seq<Pixel>,
                NesError,
            >(final(out)@),
            Err(e) => sprite_pixels(c@, SPRITE_PIXELS as nat) == Err::<Seq<Pixel>, NesError>(e),
        },
{
    let tile: u16 = sprite_tile_address(c, sprite, half);
    let mut row: u8 = 0;
    while row < 8
        invariant
            row <= 8,
            sprite < SPRITES,
            half < 2,
            half == 0 || c@.ppu.reg_control.spec_spr_height_16(),
            tile == sprite_tile_addr(c@, sprite as int, half as int),
            tile <= 0x2000,
            sprite_pixels(c@, (sprite * 128 + half * 64 + row * 8) as nat) == Ok::<
                Seq<Pixel>,
                NesError,
            >(out@),
        decreases 8 - row,
    {
        let planes = match read_pattern_row(c, tile + row as u16) {
            Ok(pair) => pair,
            Err(e) => {
                proof {
                    lemma_sprite_pixel_number(sprite as int, half as int, row as int, 0);
                    lemma_sprite_pixel_fails(
                        c@,
                        (sprite * 128 + half * 64 + row * 8) as nat,
                        e,
                    );
                }
                return Err(e);
            },
        };
        let mut bit: u8 = 0;
        while bit < 8
            invariant
                bit <= 8,
                row < 8,
                sprite < SPRITES,
                half < 2,
                half == 0 || c@.ppu.reg_control.spec_spr_height_16(),
                pattern_row(
                    c@,
                    (sprite_tile_addr(c@, sprite as int, half as int) + row) as u16,
                ) == Ok::<(u8, u8), NesError>(planes),
                sprite_pixels(c@, (sprite * 128 + half * 64 + row * 8 + bit) as nat) == Ok::<
                    Seq<Pixel>,
                    NesError,
                >(out@),
            decreases 8 - bit,
        {
            render_sprite_pixel(c, sprite, half, row, bit, planes, out)?;
            bit = bit + 1;
        }
        row = row + 1;
    }
    Ok(())
}

/// Lists the calls that draw the sprites, in the order of sprite memory.
pub fn render_sprites(c: &Console) -> (res: Result<Vec<Pixel>, NesError>)
    ensures
        match res {
            Ok(list) => sprite_pixels(c@, SPRITE_PIXELS as nat) == Ok::<Seq<Pixel>, NesError>(
                list@,
            ),
            Err(e) => sprite_pixels(c@, SPRITE_PIXELS as nat) == Err::<Seq<Pixel>, NesError>(e),
        },
{
    let mut out: Vec<Pixel> = Vec::new();
    let tall = c.ppu.reg_control.spr_height_16();
    let mut sprite: u16 = 0;
    while sprite < SPRITES
        invariant
            sprite <= SPRITES,
            tall == c@.ppu.reg_control.spec_spr_height_16(),
            sprite_pixels(c@, (sprite * 128) as nat) == Ok::<Seq<Pixel>, NesError>(out@),
        decreases SPRITES - sprite,
    {
        render_sprite_tile(c, sprite, 0, &mut out)?;
        if tall {
            render_sprite_tile(c, sprite, 1, &mut out)?;
        } else {
            proof {
                lemma_sprite_half_skipped(c@, sprite as int, 64);
            }
        }
        sprite = sprite + 1;
    }
    Ok(out)
}

/// The calls that draw a frame: the background, then the sprites over it.
pub open spec fn frame_pixels(v: ConsoleView) -> Result<Seq<Pixel>, NesError> {
    match background_pixels(v) {
        Ok(background) => match sprite_pixels(v, SPRITE_PIXELS as nat) {
            Ok(sprites) => Ok(background + sprites),
            Err(e) => Err(e),
        },
        Err(e) => Err(e),
    }
}

/// Lists the calls that draw a frame.
pub fn render_frame(c: &Console) -> (res: Result<Vec<Pixel>, NesError>)
    ensures
        match res {
            Ok(list) => frame_pixels(c@) == Ok::<Seq<Pixel>, NesError>(list@),
            Err(e) => frame_pixels(c@) == Err::<Seq<Pixel>, NesError>(e),
        },
{
    let mut list = render_background(c)?;
    let mut sprites = render_sprites(c)?;
    list.append(&mut sprites);
    Ok(list)
}

} // verus!
