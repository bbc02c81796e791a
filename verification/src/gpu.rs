//! The picture processing unit: the LY/mode state machine driven by CPU
//! clocks, and the scanline rasterizer that composites the background and
//! the sprites into the RGBA framebuffer.

use vstd::prelude::*;
use crate::interrupt;
use crate::memory::{mem_read, mem_write, MemView, Memory};

verus! {

pub const GB_HSIZE: usize = 160;

pub const GB_VSIZE: usize = 144;

/// Bytes in the 160x144 RGBA framebuffer.
pub const SCREEN_BYTES: usize = 92160;

#[derive(PartialEq, Eq, Structural, Debug, Clone, Copy)]
pub enum GpuMode {
    OAMRead,
    VRAMRead,
    HBlank,
    VBlank,
}

/// Per-frame rasterizer counters, snapshotted at each frame wrap.
#[derive(Debug, Clone, Copy)]
pub struct GpuDebugTrace {
    pub sprites: u16,
    pub yflipped_sprite_lines: u16,
    pub xflipped_sprite_lines: u16,
}

impl GpuDebugTrace {
    pub open spec fn new_spec() -> GpuDebugTrace {
        GpuDebugTrace { sprites: 0u16, yflipped_sprite_lines: 0u16, xflipped_sprite_lines: 0u16 }
    }

    fn new() -> (r: GpuDebugTrace)
        ensures
            r == GpuDebugTrace::new_spec(),
    {
        GpuDebugTrace { sprites: 0, yflipped_sprite_lines: 0, xflipped_sprite_lines: 0 }
    }
}

pub struct Gpu {
    pub mode: GpuMode,
    pub mode_elapsed: u32,
    pub line: u8,
    pub screen_rgba: Vec<u8>,
    pub debug_current_frame: GpuDebugTrace,
    pub debug_last_frame: GpuDebugTrace,
    pub debug_lcd_pwr: bool,
}

/// Clocks a mode lasts before the machine moves on.
pub open spec fn mode_duration(m: GpuMode) -> u32 {
    match m {
        GpuMode::OAMRead => 80,
        GpuMode::VRAMRead => 172,
        GpuMode::HBlank => 204,
        GpuMode::VBlank => 456,
    }
}

/// The STAT low-bit encoding of a mode.
pub open spec fn mode_code(m: GpuMode) -> u8 {
    match m {
        GpuMode::HBlank => 0,
        GpuMode::VBlank => 1,
        GpuMode::OAMRead => 2,
        GpuMode::VRAMRead => 3,
    }
}

/// One advance of the LY/mode machine by an accumulated clock count `e`:
/// the next mode, the leftover clocks, the next line, whether the machine
/// entered VBlank (exactly once per frame, at line 143), and whether a new
/// visible line began.
pub open spec fn gpu_step(mode: GpuMode, e: u32, line: u8) -> (GpuMode, u32, u8, bool, bool) {
    match mode {
        GpuMode::OAMRead => if e >= 80 {
            (GpuMode::VRAMRead, (e - 80) as u32, line, false, false)
        } else {
            (GpuMode::OAMRead, e, line, false, false)
        },
        GpuMode::VRAMRead => if e >= 172 {
            (GpuMode::HBlank, (e - 172) as u32, line, false, false)
        } else {
            (GpuMode::VRAMRead, e, line, false, false)
        },
        GpuMode::HBlank => if e >= 204 {
            if line + 1 == 143 {
                (GpuMode::VBlank, (e - 204) as u32, (line + 1) as u8, true, true)
            } else {
                (GpuMode::OAMRead, (e - 204) as u32, (line + 1) as u8, false, true)
            }
        } else {
            (GpuMode::HBlank, e, line, false, false)
        },
        GpuMode::VBlank => if e >= 456 {
            if line + 1 > 153 {
                (GpuMode::OAMRead, (e - 456) as u32, 0u8, false, false)
            } else {
                (GpuMode::VBlank, (e - 456) as u32, (line + 1) as u8, false, false)
            }
        } else {
            (GpuMode::VBlank, e, line, false, false)
        },
    }
}

/// The LYC coincidence rule for the STAT interrupt: on a new line with the
/// LYC=LY interrupt enable (STAT bit 6) set, the interrupt fires when the
/// coincidence-select bit agrees with the LY = LYC comparison.
pub open spec fn stat_interrupt_spec(lcdstat: u8, newline: bool, line: u8, lyc: u8) -> bool {
    if newline && lcdstat & 0x40 != 0 {
        if lcdstat & 0x04 != 0 {
            line == lyc
        } else {
            line != lyc
        }
    } else {
        false
    }
}

/// The 2-bit colour of pixel column `tx` in a tile row given by its two
/// bit-planes.
pub open spec fn tile_colour_spec(b1: u8, b2: u8, tx: u8) -> u8 {
    ((b1 & (1u8 << (7 - tx))) >> (7 - tx)) | (((b2 & (1u8 << (7 - tx))) >> (7 - tx)) << 1)
}

/// The 4-level grayscale of a palette field value.
pub open spec fn grey_spec(c: u8) -> u8 {
    if c == 0 {
        0xFF
    } else if c == 1 {
        0xC0
    } else if c == 2 {
        0x60
    } else {
        0x00
    }
}

/// A 2-bit colour sent through a palette byte of four 2-bit fields.
pub open spec fn palette_spec(colour: u8, pal: u8) -> u8 {
    if colour == 3 {
        grey_spec((pal >> 6) & 0x03)
    } else if colour == 2 {
        grey_spec((pal >> 4) & 0x03)
    } else if colour == 1 {
        grey_spec((pal >> 2) & 0x03)
    } else {
        grey_spec(pal & 0x03)
    }
}

/// The background grayscale at column `i` of scanline `line`: scroll,
/// tile-map lookup (the tile index signed when the 0x9000 tile-data base is
/// selected), bit-plane extraction and the background palette.
pub open spec fn bg_pixel_spec(
    v: MemView,
    line: u8,
    i: int,
    bgp: u8,
    tiledata: u16,
    signed: bool,
    tilemap: u16,
) -> u8 {
    let scy = mem_read(v, 0xFF42);
    let scx = mem_read(v, 0xFF43);
    let bgy = (line + scy) % 256;
    let vtile = bgy / 8;
    let ty = bgy % 8;
    let bgx = (i + scx) % 256;
    let htile = bgx / 8;
    let tx = (bgx % 8) as u8;
    let tilenumtemp = mem_read(v, (tilemap + vtile * 32 + htile) as u16);
    let tilenum: int = if signed {
        (tilenumtemp as i8) as int
    } else {
        tilenumtemp as int
    };
    let tilerow = (tiledata + tilenum * 16 + ty * 2) as u16;
    let b1 = mem_read(v, tilerow);
    let b2 = mem_read(v, tilerow.wrapping_add(1));
    palette_spec(tile_colour_spec(b1, b2, tx), bgp)
}

/// The framebuffer byte range of one scanline.
pub open spec fn row_start(line: u8) -> int {
    line * (4 * GB_HSIZE as int)
}

/// Bytes outside scanline `line` are the same in both framebuffers.
pub open spec fn same_outside_row(s0: Seq<u8>, s1: Seq<u8>, line: u8) -> bool {
    &&& s1.len() == s0.len()
    &&& forall|k: int|
        0 <= k < s0.len() && !(row_start(line) <= k < row_start(line) + 640) ==> s1[k] == s0[k]
}

/// The first `n` pixels of scanline `line` in `s` carry exactly the
/// background colours of `bg_pixel_spec`, as opaque grayscale.
pub open spec fn bg_row_matches_upto(
    v: MemView,
    line: u8,
    bgp: u8,
    tiledata: u16,
    signed: bool,
    tilemap: u16,
    s: Seq<u8>,
    n: int,
) -> bool {
    forall|i: int|
        #![trigger bg_pixel_spec(v, line, i, bgp, tiledata, signed, tilemap)]
        0 <= i < n ==> {
            let px = bg_pixel_spec(v, line, i, bgp, tiledata, signed, tilemap);
            &&& s[row_start(line) + 4 * i] == px
            &&& s[row_start(line) + 4 * i + 1] == px
            &&& s[row_start(line) + 4 * i + 2] == px
            &&& s[row_start(line) + 4 * i + 3] == 255u8
        }
}

/// The whole scanline carries the background colours.
pub open spec fn bg_row_matches(
    v: MemView,
    line: u8,
    bgp: u8,
    tiledata: u16,
    signed: bool,
    tilemap: u16,
    s: Seq<u8>,
) -> bool {
    bg_row_matches_upto(v, line, bgp, tiledata, signed, tilemap, s, 160)
}

/// The scanline after the background pass: the row's pixels replaced by the
/// background colours as opaque grayscale, everything else untouched.
pub open spec fn bg_row_written(
    v: MemView,
    line: u8,
    bgp: u8,
    tiledata: u16,
    signed: bool,
    tilemap: u16,
    s: Seq<u8>,
) -> Seq<u8> {
    Seq::new(
        s.len(),
        |k: int|
            if row_start(line) <= k < row_start(line) + 640 {
                if (k - row_start(line)) % 4 == 3 {
                    255u8
                } else {
                    bg_pixel_spec(v, line, (k - row_start(line)) / 4, bgp, tiledata, signed, tilemap)
                }
            } else {
                s[k]
            },
    )
}

/// The attribute byte of OAM entry `n`.
pub open spec fn oam_attr(v: MemView, n: int) -> u8 {
    mem_read(v, (0xFE00 + n * 4 + 3) as u16)
}

/// The screen line of OAM entry `n`'s top edge (the stored byte is biased
/// by sixteen).
pub open spec fn oam_y(v: MemView, n: int) -> int {
    mem_read(v, (0xFE00 + n * 4) as u16) - 16
}

/// The screen column of OAM entry `n`'s left edge (biased by eight).
pub open spec fn oam_x(v: MemView, n: int) -> int {
    mem_read(v, (0xFE00 + n * 4 + 1) as u16) - 8
}

pub open spec fn oam_tile(v: MemView, n: int) -> u8 {
    mem_read(v, (0xFE00 + n * 4 + 2) as u16)
}

/// OAM entry `n` is selected for the scanline: the line lies strictly
/// inside its vertical extent and its left edge lies in (-8, 160].
pub open spec fn sprite_covers(v: MemView, n: int, line: u8, height: u8) -> bool {
    &&& oam_y(v, n) < line
    &&& oam_y(v, n) + height > line
    &&& -8 < oam_x(v, n)
    &&& oam_x(v, n) <= 160
}

/// The sprite palette OAM attribute bit 4 selects: 0xFF49 when set, 0xFF48
/// when clear.
pub open spec fn sprite_palette_of(v: MemView, n: int) -> u8 {
    if oam_attr(v, n) & 0x10 != 0 {
        mem_read(v, 0xFF49)
    } else {
        mem_read(v, 0xFF48)
    }
}

/// The 2-bit colour of sprite `n` at its column `px` on the scanline: the
/// tile row the line crosses (mirrored under y-flip, attribute bit 6), the
/// column mirrored under x-flip (bit 5), fetched from the 0x8000 tile base.
pub open spec fn sprite_colour(v: MemView, n: int, line: u8, height: u8, px: int) -> u8 {
    let ty0 = (line - oam_y(v, n)) % 8;
    let ty = if oam_attr(v, n) & 0x40 != 0 {
        height - 1 - ty0
    } else {
        ty0
    };
    let rowaddr = (0x8000 + oam_tile(v, n) * 16 + ty * 2) as u16;
    let b1 = mem_read(v, rowaddr);
    let b2 = mem_read(v, rowaddr.wrapping_add(1));
    let tx = if oam_attr(v, n) & 0x20 != 0 {
        (7 - px) as u8
    } else {
        px as u8
    };
    tile_colour_spec(b1, b2, tx)
}

/// The framebuffer after sprite `n` contributes its column `px`: colour 0
/// is transparent, and a behind-background sprite (attribute bit 7 set)
/// writes only over background palette colour 0.
pub open spec fn sprite_draw_px(
    v: MemView,
    n: int,
    line: u8,
    height: u8,
    bg0: u8,
    s: Seq<u8>,
    px: int,
) -> Seq<u8> {
    let x = oam_x(v, n) + px;
    if 0 <= x < 160 {
        let start = row_start(line) + 4 * x;
        let colour = sprite_colour(v, n, line, height, px);
        if colour == 0 {
            s
        } else if oam_attr(v, n) & 0x80 != 0 && s[start] != bg0 {
            s
        } else {
            let pix = palette_spec(colour, sprite_palette_of(v, n));
            s.update(start, pix).update(start + 1, pix).update(start + 2, pix).update(
                start + 3,
                255u8,
            )
        }
    } else {
        s
    }
}

/// The framebuffer after sprite `n` contributes its columns from `px` up.
pub open spec fn sprite_draw_row(
    v: MemView,
    n: int,
    line: u8,
    height: u8,
    bg0: u8,
    s: Seq<u8>,
    px: int,
) -> Seq<u8>
    decreases 8 - px,
{
    if px < 0 || px >= 8 {
        s
    } else {
        sprite_draw_row(v, n, line, height, bg0, sprite_draw_px(v, n, line, height, bg0, s, px), px + 1)
    }
}

/// The framebuffer after the OAM scan from entry `n` on, `count` covering
/// sprites already composited: at most ten sprites land on a scanline, and
/// a selected sprite counts against the limit when any of its columns lies
/// on the display.
pub open spec fn sprites_fold(
    v: MemView,
    line: u8,
    height: u8,
    bg0: u8,
    s: Seq<u8>,
    n: int,
    count: int,
) -> Seq<u8>
    decreases 40 - n,
{
    if n < 0 || n >= 40 || count >= 10 {
        s
    } else if sprite_covers(v, n, line, height) {
        let s2 = sprite_draw_row(v, n, line, height, bg0, s, 0);
        let c2 = if oam_x(v, n) < 160 {
            count + 1
        } else {
            count
        };
        sprites_fold(v, line, height, bg0, s2, n + 1, c2)
    } else {
        sprites_fold(v, line, height, bg0, s, n + 1, count)
    }
}

/// The scanline after the whole sprite pass.
pub open spec fn sprites_rendered(v: MemView, line: u8, height: u8, bgp: u8, s: Seq<u8>) -> Seq<
    u8,
> {
    sprites_fold(v, line, height, palette_spec(0, bgp), s, 0, 0)
}

/// One scanline rasterized per the LCDC control: the background pass when
/// bit 0 is set, then the sprite pass when bit 1 is set; the window layer
/// (bit 5) is a deliberate no-op.
pub open spec fn scanline_render(v: MemView, line: u8, s: Seq<u8>) -> Seq<u8> {
    let lcdc = mem_read(v, 0xFF40);
    let bgp = mem_read(v, 0xFF47);
    let s1 = if lcdc & 0x01 != 0 {
        bg_row_written(
            v,
            line,
            bgp,
            if lcdc & 0x10 != 0 {
                0x8000u16
            } else {
                0x9000u16
            },
            lcdc & 0x10 == 0,
            if lcdc & 0x08 != 0 {
                0x9C00u16
            } else {
                0x9800u16
            },
            s,
        )
    } else {
        s
    };
    if lcdc & 0x02 != 0 {
        sprites_rendered(
            v,
            line,
            if lcdc & 0x04 != 0 {
                16u8
            } else {
                8u8
            },
            bgp,
            s1,
        )
    } else {
        s1
    }
}

/// The 2-bit colour of pixel column `tx` of a tile row.
fn get_tile_colour(tilerow: (u8, u8), tx: u8) -> (r: u8)
    requires
        tx < 8,
    ensures
        r == tile_colour_spec(tilerow.0, tilerow.1, tx),
        r < 4,
{
    let (byte1, byte2) = tilerow;

    let bit = 1u8 << (7 - tx);

    let r = ((byte1 & bit) >> (7 - tx)) | (((byte2 & bit) >> (7 - tx)) << 1);
    proof {
        let b1 = byte1;
        let b2 = byte2;
        let s = (7 - tx) as u8;
        assert(((b1 & (1u8 << s)) >> s) | (((b2 & (1u8 << s)) >> s) << 1) < 4) by (bit_vector)
            requires
                s < 8,
        ;
    }
    r
}

fn get_colour(colour: u8) -> (r: u8)
    requires
        colour < 4,
    ensures
        r == grey_spec(colour),
{
    match colour {
        0 => 0xFF,
        1 => 0xC0,
        2 => 0x60,
        _ => 0x00,
    }
}

fn apply_palette(colour: u8, pal: u8) -> (r: u8)
    requires
        colour < 4,
    ensures
        r == palette_spec(colour, pal),
{
    proof {
        let p = pal;
        assert(((p >> 6) & 0x03) < 4 && ((p >> 4) & 0x03) < 4 && ((p >> 2) & 0x03) < 4 && (p
            & 0x03) < 4) by (bit_vector);
    }
    if colour == 3 {
        get_colour((pal >> 6) & 0x03)
    } else if colour == 2 {
        get_colour((pal >> 4) & 0x03)
    } else if colour == 1 {
        get_colour((pal >> 2) & 0x03)
    } else {
        get_colour(pal & 0x03)
    }
}

/// Write one opaque grayscale pixel.
fn set_pixel(rgba: &mut Vec<u8>, start: usize, colour: u8)
    requires
        old(rgba)@.len() == SCREEN_BYTES,
        start + 4 <= SCREEN_BYTES,
    ensures
        final(rgba)@ == old(rgba)@.update(start as int, colour).update(
            start + 1,
            colour,
        ).update(start + 2, colour).update(start + 3, 255u8),
{
    rgba[start] = colour;
    rgba[start + 1] = colour;
    rgba[start + 2] = colour;
    rgba[start + 3] = 255;
}

fn select_tilemap(bit: bool) -> (r: u16)
    ensures
        r == if bit { 0x9C00u16 } else { 0x9800u16 },
{
    if bit {
        0x9C00
    } else {
        0x9800
    }
}

fn tiles_start(bit: bool) -> (r: u16)
    ensures
        r == if bit { 0x8000u16 } else { 0x9000u16 },
{
    if bit {
        0x8000
    } else {
        0x9000
    }
}

fn get_sprite_size(lcdc: u8) -> (r: u8)
    ensures
        r == if lcdc & 0x04 != 0 { 16u8 } else { 8u8 },
{
    if (lcdc & 0x04) != 0 {
        16
    } else {
        8
    }
}

/// Fetch the two bit-planes of row `ty` of a tile.
fn get_tile_row_data(mem: &Memory, tiledata: u16, tilenum: i32, ty: u16) -> (r: (u8, u8))
    requires
        mem.wf(),
        0x8000 <= tiledata <= 0x9000,
        -256 <= tilenum < 256,
        ty < 16,
    ensures
        r.0 == mem_read(mem@, (tiledata + tilenum * 16 + ty * 2) as u16),
        r.1 == mem_read(mem@, ((tiledata + tilenum * 16 + ty * 2) as u16).wrapping_add(1)),
{
    let tilestart: u16 = ((tiledata as i32) + tilenum * 16 + (ty as i32) * 2) as u16;

    let rowbyte1 = mem.get(tilestart);
    let rowbyte2 = mem.get(tilestart.wrapping_add(1));

    (rowbyte1, rowbyte2)
}

/// Rasterize the background of one scanline: each of the 160 columns takes
/// the palette-mapped tile colour that `bg_pixel_spec` gives it.
#[verifier::rlimit(100)]
fn draw_background(
    line: u8,
    mem: &Memory,
    bgp: u8,
    tiledata: u16,
    tiledataselect: bool,
    tilemap: u16,
    rgba: &mut Vec<u8>,
)
    requires
        mem.wf(),
        line <= 142,
        old(rgba)@.len() == SCREEN_BYTES,
        tiledata == (if tiledataselect { 0x8000u16 } else { 0x9000u16 }),
        tilemap == 0x9800 || tilemap == 0x9C00,
    ensures
        same_outside_row(old(rgba)@, final(rgba)@, line),
        bg_row_matches(mem@, line, bgp, tiledata, !tiledataselect, tilemap, final(rgba)@),
        final(rgba)@ == bg_row_written(
            mem@,
            line,
            bgp,
            tiledata,
            !tiledataselect,
            tilemap,
            old(rgba)@,
        ),
{
    let scy: u8 = mem.get(0xFF42);
    let bgy: u16 = line.wrapping_add(scy) as u16;
    let vtile: u16 = bgy / 8;
    let ty: u16 = bgy % 8;

    let scx: u8 = mem.get(0xFF43);

    let mut i: usize = 0;
    while i < GB_HSIZE
        invariant
            mem.wf(),
            line <= 142,
            i <= 160,
            rgba@.len() == SCREEN_BYTES,
            bgy == (line + scy) % 256,
            vtile == bgy / 8,
            ty == bgy % 8,
            scy == mem_read(mem@, 0xFF42),
            scx == mem_read(mem@, 0xFF43),
            tiledata == (if tiledataselect { 0x8000u16 } else { 0x9000u16 }),
            tilemap == 0x9800 || tilemap == 0x9C00,
            same_outside_row(old(rgba)@, rgba@, line),
            bg_row_matches_upto(
                mem@,
                line,
                bgp,
                tiledata,
                !tiledataselect,
                tilemap,
                rgba@,
                i as int,
            ),
        decreases GB_HSIZE - i,
    {
        let signed = !tiledataselect;
        let bgx: u16 = ((i as u16) + (scx as u16)) % 256;
        let htile: u16 = bgx / 8;
        let tx: u8 = (bgx % 8) as u8;

        let tilenumtemp: u8 = mem.get(tilemap + vtile * 32 + htile);

        let tilenum: i32 = if !tiledataselect {
            (tilenumtemp as i8) as i32
        } else {
            tilenumtemp as i32
        };

        let tilerow = get_tile_row_data(mem, tiledata, tilenum, ty);
        let colour = get_tile_colour(tilerow, tx);
        let pixel = apply_palette(colour, bgp);

        proof {
            assert(pixel == bg_pixel_spec(mem@, line, i as int, bgp, tiledata, signed, tilemap));
        }

        let rgba_start: usize = (line as usize) * GB_HSIZE * 4 + i * 4;
        let ghost prev = rgba@;
        set_pixel(rgba, rgba_start, pixel);

        proof {
            assert forall|j: int|
                #![trigger bg_pixel_spec(mem@, line, j, bgp, tiledata, signed, tilemap)]
                0 <= j < i + 1 implies {
                let px = bg_pixel_spec(mem@, line, j, bgp, tiledata, signed, tilemap);
                &&& rgba@[row_start(line) + 4 * j] == px
                &&& rgba@[row_start(line) + 4 * j + 1] == px
                &&& rgba@[row_start(line) + 4 * j + 2] == px
                &&& rgba@[row_start(line) + 4 * j + 3] == 255u8
            } by {
                if j == i {
                    assert(rgba@[row_start(line) + 4 * j] == pixel);
                    assert(rgba@[row_start(line) + 4 * j + 1] == pixel);
                    assert(rgba@[row_start(line) + 4 * j + 2] == pixel);
                    assert(rgba@[row_start(line) + 4 * j + 3] == 255u8);
                } else {
                    assert(prev[row_start(line) + 4 * j] == bg_pixel_spec(
                        mem@,
                        line,
                        j,
                        bgp,
                        tiledata,
                        !tiledataselect,
                        tilemap,
                    ));
                    assert(rgba@[row_start(line) + 4 * j] == prev[row_start(line) + 4 * j]);
                    assert(rgba@[row_start(line) + 4 * j + 1] == prev[row_start(line) + 4 * j + 1]);
                    assert(rgba@[row_start(line) + 4 * j + 2] == prev[row_start(line) + 4 * j + 2]);
                    assert(rgba@[row_start(line) + 4 * j + 3] == prev[row_start(line) + 4 * j + 3]);
                }
            }
        }

        i = i + 1;
    }

    proof {
        let out = bg_row_written(mem@, line, bgp, tiledata, !tiledataselect, tilemap, old(rgba)@);
        let row = row_start(line);
        assert forall|k: int| 0 <= k < SCREEN_BYTES implies rgba@[k] == out[k] by {
            if row <= k < row + 640 {
                let q = (k - row) / 4;
                let off = (k - row) % 4;
                vstd::arithmetic::div_mod::lemma_fundamental_div_mod(k - row, 4);
                assert(k == row + 4 * q + off);
                assert(0 <= off < 4);
                assert(0 <= q < 160);
                let px = bg_pixel_spec(mem@, line, q, bgp, tiledata, !tiledataselect, tilemap);
                assert(rgba@[row + 4 * q] == px);
                assert(rgba@[row + 4 * q + 1] == px);
                assert(rgba@[row + 4 * q + 2] == px);
                assert(rgba@[row + 4 * q + 3] == 255u8);
            }
        }
        assert(rgba@ =~= out);
    }
}

/// One OAM entry, debiased.
struct Sprite {
    y: i16,
    x: i16,
    tile: u8,
    priority: bool,
    yflip: bool,
    xflip: bool,
    palette: u8,
}

/// A sprite covers the scanline when the line lies strictly inside its
/// vertical extent.
pub fn sprite_in_row(line: u8, sy: i16, height: u8) -> (r: bool)
    ensures
        r == (sy < line && sy + height > line),
{
    let line = line as i32;
    let sy = sy as i32;

    sy < line && (sy + (height as i32)) > line
}

/// A sprite is on the display when its left edge lies in (-8, 160].
fn sprite_on_disp(sx: i16) -> (r: bool)
    ensures
        r == (-8 < sx && sx <= 160),
{
    sx > -8 && sx <= GB_HSIZE as i16
}

/// Load OAM entry `num`: y biased by 16, x by 8, and the attribute bits.
fn load_sprite(mem: &Memory, num: u16, palettes: (u8, u8)) -> (s: Sprite)
    requires
        mem.wf(),
        num < 40,
    ensures
        s.y == mem_read(mem@, (0xFE00 + num * 4) as u16) - 16,
        s.x == mem_read(mem@, (0xFE00 + num * 4 + 1) as u16) - 8,
        s.tile == mem_read(mem@, (0xFE00 + num * 4 + 2) as u16),
        s.priority == (mem_read(mem@, (0xFE00 + num * 4 + 3) as u16) & 0x80 == 0),
        s.yflip == (mem_read(mem@, (0xFE00 + num * 4 + 3) as u16) & 0x40 != 0),
        s.xflip == (mem_read(mem@, (0xFE00 + num * 4 + 3) as u16) & 0x20 != 0),
        s.palette == if mem_read(mem@, (0xFE00 + num * 4 + 3) as u16) & 0x10 != 0 {
            palettes.1
        } else {
            palettes.0
        },
{
    let addr: u16 = 0xFE00 + 4 * num;

    let options = mem.get(addr + 3);

    Sprite {
        y: (mem.get(addr) as i16) - 16,
        x: (mem.get(addr + 1) as i16) - 8,
        tile: mem.get(addr + 2),
        priority: options & 0x80 == 0,
        yflip: options & 0x40 != 0,
        xflip: options & 0x20 != 0,
        palette: if options & 0x10 != 0 {
            palettes.1
        } else {
            palettes.0
        },
    }
}

/// Composite at most ten sprites onto one scanline, in OAM scan order:
/// colour 0 transparent, a behind-background sprite drawn only over
/// background palette colour 0, exactly as `sprites_rendered` says. Only
/// the scanline's own pixels are touched.
#[verifier::rlimit(100)]
fn draw_sprites(
    line: u8,
    mem: &Memory,
    sprite_height: u8,
    tiledata: u16,
    bgp: u8,
    rgba: &mut Vec<u8>,
    debug: &mut GpuDebugTrace,
)
    requires
        mem.wf(),
        line <= 142,
        old(rgba)@.len() == SCREEN_BYTES,
        tiledata == 0x8000,
        sprite_height == 8 || sprite_height == 16,
    ensures
        same_outside_row(old(rgba)@, final(rgba)@, line),
        final(rgba)@ == sprites_rendered(mem@, line, sprite_height, bgp, old(rgba)@),
{
    let ghost v = mem@;
    let palettes = (mem.get(0xFF48), mem.get(0xFF49));
    let bgcolouroverdraw = apply_palette(0, bgp);

    let mut sprites_drawn: u8 = 0;
    let mut i: u16 = 0;
    while i < 40
        invariant
            mem.wf(),
            v == mem@,
            line <= 142,
            i <= 40,
            tiledata == 0x8000,
            sprite_height == 8 || sprite_height == 16,
            sprites_drawn <= 10,
            palettes == (mem_read(v, 0xFF48), mem_read(v, 0xFF49)),
            bgcolouroverdraw == palette_spec(0, bgp),
            old(rgba)@.len() == SCREEN_BYTES,
            same_outside_row(old(rgba)@, rgba@, line),
            sprites_fold(v, line, sprite_height, palette_spec(0, bgp), rgba@, i as int, sprites_drawn as int)
                == sprites_rendered(v, line, sprite_height, bgp, old(rgba)@),
        decreases 40 - i,
    {
        if sprites_drawn >= 10 {
            return ;
        }

        let s = load_sprite(mem, i, palettes);

        if !sprite_in_row(line, s.y, sprite_height) || !sprite_on_disp(s.x) {
            proof {
                assert(!sprite_covers(v, i as int, line, sprite_height));
            }
            i = i + 1;
            continue ;
        }
        proof {
            assert(sprite_covers(v, i as int, line, sprite_height));
        }

        // The row of the tile this scanline crosses, mirrored under y-flip.
        let dy: i16 = (line as i16) - s.y;
        let mut ty: u8 = (dy % 8) as u8;

        if s.yflip {
            debug.yflipped_sprite_lines = debug.yflipped_sprite_lines.wrapping_add(1);
            ty = sprite_height - 1 - ty;
        }
        proof {
            assert(ty as int == {
                let ty0 = (line - oam_y(v, i as int)) % 8;
                if oam_attr(v, i as int) & 0x40 != 0 {
                    sprite_height - 1 - ty0
                } else {
                    ty0
                }
            });
        }

        // A selected sprite counts against the per-line limit exactly when
        // one of its columns lies on the display.
        let drawn = s.x < GB_HSIZE as i16;

        let ghost s0 = rgba@;
        let ghost bg0 = palette_spec(0, bgp);

        let mut px: u16 = 0;
        while px < 8
            invariant
                mem.wf(),
                v == mem@,
                line <= 142,
                px <= 8,
                ty < 16,
                tiledata == 0x8000,
                sprite_height == 8 || sprite_height == 16,
                bg0 == palette_spec(0, bgp),
                bgcolouroverdraw == bg0,
                i < 40,
                s.x == oam_x(v, i as int),
                s.tile == oam_tile(v, i as int),
                s.priority == (oam_attr(v, i as int) & 0x80 == 0),
                s.xflip == (oam_attr(v, i as int) & 0x20 != 0),
                s.palette == sprite_palette_of(v, i as int),
                -8 <= s.x <= 160,
                ty as int == ({
                    let ty0 = (line - oam_y(v, i as int)) % 8;
                    if oam_attr(v, i as int) & 0x40 != 0 {
                        sprite_height - 1 - ty0
                    } else {
                        ty0
                    }
                }),
                old(rgba)@.len() == SCREEN_BYTES,
                same_outside_row(old(rgba)@, rgba@, line),
                sprite_draw_row(v, i as int, line, sprite_height, bg0, rgba@, px as int)
                    == sprite_draw_row(v, i as int, line, sprite_height, bg0, s0, 0),
            decreases 8 - px,
        {
            let ghost prevs = rgba@;
            let x: i16 = s.x + (px as i16);
            if x < 0 || x >= GB_HSIZE as i16 {
                proof {
                    assert(sprite_draw_px(v, i as int, line, sprite_height, bg0, prevs, px as int)
                        == prevs);
                }
                px = px + 1;
                continue ;
            }
            let rgba_start: usize = (line as usize) * GB_HSIZE * 4 + (x as usize) * 4;

            // A behind-background sprite shows only over palette colour 0.
            if !s.priority && rgba[rgba_start] != bgcolouroverdraw {
                proof {
                    assert(sprite_draw_px(v, i as int, line, sprite_height, bg0, prevs, px as int)
                        == prevs);
                }
                px = px + 1;
                continue ;
            }

            let tilerow = get_tile_row_data(mem, tiledata, s.tile as i32, ty as u16);

            let tx: u16 = if s.xflip {
                debug.xflipped_sprite_lines = debug.xflipped_sprite_lines.wrapping_add(1);
                7 - px
            } else {
                px
            };

            let colour = get_tile_colour(tilerow, tx as u8);
            let pixel = apply_palette(colour, s.palette);

            proof {
                assert(colour == sprite_colour(v, i as int, line, sprite_height, px as int));
            }

            // Colour 0 is transparent.
            if colour != 0 {
                set_pixel(rgba, rgba_start, pixel);
            }
            proof {
                assert(sprite_draw_px(v, i as int, line, sprite_height, bg0, prevs, px as int)
                    == rgba@);
            }
            px = px + 1;
        }

        if drawn {
            sprites_drawn = sprites_drawn + 1;
        }
        i = i + 1;
    }

    debug.sprites = debug.sprites.wrapping_add(sprites_drawn as u16);
}


/// The whole effect of one PPU advance by `elapsed` clocks. With the LCD
/// off (LCDC bit 7 clear) the STAT mode bits are cleared and nothing else
/// moves. Otherwise the LY/mode machine steps per `gpu_step`, the scanline
/// is rasterized per `scanline_render` on the VRAMRead exit, the frame
/// wraps to a white screen past line 153, LY and STAT are written back, and
/// the VBlank and LCDStat interrupts are requested exactly when their
/// conditions hold.
pub open spec fn gpu_cycle_post(g0: Gpu, v0: MemView, g1: Gpu, v1: MemView, elapsed: u8) -> bool {
    if mem_read(v0, 0xFF40) & 0x80 == 0 {
        &&& g1 == (Gpu { debug_lcd_pwr: false, ..g0 })
        &&& v1 == mem_write(v0, 0xFF41, mem_read(v0, 0xFF41) & 0xFC)
    } else {
        let (m2, e2, l2, vblank, newline) = gpu_step(
            g0.mode,
            (g0.mode_elapsed + elapsed) as u32,
            g0.line,
        );
        let w1 = mem_write(v0, 0xFF44, l2);
        let stat2 = (mem_read(w1, 0xFF41) & 0xFC) | mode_code(m2);
        let w2 = mem_write(w1, 0xFF41, stat2);
        let w3 = if vblank {
            interrupt::request_spec(w2, interrupt::Interrupt::VBlank)
        } else {
            w2
        };
        let si = stat_interrupt_spec(stat2, newline, l2, mem_read(v0, 0xFF45));
        let w4 = if si {
            interrupt::request_spec(w3, interrupt::Interrupt::LcdStat)
        } else {
            w3
        };
        &&& v1 == w4
        &&& g1.mode == m2
        &&& g1.mode_elapsed == e2
        &&& g1.line == l2
        &&& g1.debug_lcd_pwr == true
        &&& g1.screen_rgba@.len() == SCREEN_BYTES
        &&& vblank == (!(g0.mode is VBlank) && m2 is VBlank)
        &&& (g0.mode is VBlank && m2 is OAMRead) ==> {
            &&& (forall|k: int| 0 <= k < SCREEN_BYTES ==> g1.screen_rgba@[k] == 255u8)
            &&& g1.debug_last_frame == g0.debug_current_frame
            &&& g1.debug_current_frame == GpuDebugTrace::new_spec()
        }
        &&& !(g0.mode is VBlank && m2 is OAMRead) ==> g1.debug_last_frame
            == g0.debug_last_frame
        &&& (g0.mode is VRAMRead && m2 is HBlank) ==> g1.screen_rgba@ == scanline_render(
            v0,
            g0.line,
            g0.screen_rgba@,
        )
        &&& !(g0.mode is VRAMRead && m2 is HBlank) && !(g0.mode is VBlank && m2 is OAMRead)
            ==> g1.screen_rgba@ == g0.screen_rgba@
    }
}

impl Gpu {
    /// The mode's duration and the line bounds hold of every reachable
    /// state; a visible line only exists outside VBlank.
    pub open spec fn wf(self) -> bool {
        &&& self.screen_rgba@.len() == SCREEN_BYTES
        &&& self.line <= 153
        &&& !(self.mode is VBlank) ==> self.line <= 142
        &&& self.mode_elapsed < mode_duration(self.mode)
    }

    pub fn new() -> (r: Gpu)
        ensures
            r.wf(),
            r.mode == GpuMode::HBlank,
            r.mode_elapsed == 0,
            r.line == 0,
            r.screen_rgba@.len() == SCREEN_BYTES,
            forall|k: int| 0 <= k < SCREEN_BYTES ==> r.screen_rgba@[k] == 255u8,
            r.debug_current_frame == GpuDebugTrace::new_spec(),
            r.debug_last_frame == GpuDebugTrace::new_spec(),
            r.debug_lcd_pwr == false,
    {
        let mut screen: Vec<u8> = Vec::new();
        let mut k: usize = 0;
        while k < SCREEN_BYTES
            invariant
                k <= SCREEN_BYTES,
                screen@.len() == k,
                forall|j: int| 0 <= j < k ==> screen@[j] == 255u8,
            decreases SCREEN_BYTES - k,
        {
            screen.push(255);
            k = k + 1;
        }
        Gpu {
            mode: GpuMode::HBlank,
            mode_elapsed: 0,
            line: 0,
            screen_rgba: screen,
            debug_current_frame: GpuDebugTrace::new(),
            debug_last_frame: GpuDebugTrace::new(),
            debug_lcd_pwr: false,
        }
    }

    /// Rasterize the current scanline: the background when LCDC bit 0 is
    /// set, the window left as a structural no-op, and the sprites when
    /// LCDC bit 1 is set.
    fn draw_line(&mut self, mem: &Memory)
        requires
            mem.wf(),
            old(self).wf(),
            old(self).line <= 142,
        ensures
            final(self).wf(),
            final(self).mode == old(self).mode,
            final(self).mode_elapsed == old(self).mode_elapsed,
            final(self).line == old(self).line,
            final(self).debug_lcd_pwr == old(self).debug_lcd_pwr,
            final(self).debug_last_frame == old(self).debug_last_frame,
            same_outside_row(old(self).screen_rgba@, final(self).screen_rgba@, old(self).line),
            final(self).screen_rgba@ == scanline_render(
                mem@,
                old(self).line,
                old(self).screen_rgba@,
            ),
    {
        let lcdc: u8 = mem.get(0xFF40);
        let tiledataselect = (lcdc & 0x10) != 0;
        let tiles = tiles_start(tiledataselect);

        let bg_win_colours: u8 = mem.get(0xFF47);

        if lcdc & 0x01 != 0 {
            let tilemap = select_tilemap((lcdc & 0x08) != 0);
            draw_background(
                self.line,
                mem,
                bg_win_colours,
                tiles,
                tiledataselect,
                tilemap,
                &mut self.screen_rgba,
            );
        }
        // The window layer (LCDC bit 5) is structurally detected but not
        // rendered; this no-op is deliberate.

        if lcdc & 0x02 != 0 {
            let sprite_height: u8 = get_sprite_size(lcdc);
            draw_sprites(
                self.line,
                mem,
                sprite_height,
                0x8000,
                bg_win_colours,
                &mut self.screen_rgba,
                &mut self.debug_current_frame,
            );
        }
    }

    /// Advance the LY/mode machine by the clocks of one instruction. With
    /// the LCD off the status mode bits are cleared and nothing else moves.
    /// Otherwise the machine steps as `gpu_step` says, the scanline is
    /// rasterized on the VRAMRead exit, the frame wraps to a white screen at
    /// line 153, LY and STAT are written back, and the VBlank and LCDStat
    /// interrupts are requested exactly when their conditions hold.
    pub fn cycle(&mut self, mem: &mut Memory, elapsed: u8)
        requires
            old(self).wf(),
            old(mem).wf(),
            elapsed <= 24,
        ensures
            final(self).wf(),
            final(mem).wf(),
            gpu_cycle_post(*old(self), old(mem)@, *final(self), final(mem)@, elapsed),
    {
        let lcdc: u8 = mem.get(0xFF40);

        if (lcdc & 0x80) == 0 {
            self.debug_lcd_pwr = false;
            let lcdstat: u8 = mem.get(0xFF41);

            let newlcdstat: u8 = lcdstat & 0xFC;

            mem.set(0xFF41, newlcdstat);

            return ;
        }

        self.debug_lcd_pwr = true;

        let mut vblank = false;
        let mut newline = false;

        self.mode_elapsed = self.mode_elapsed + (elapsed as u32);
        match self.mode {
            GpuMode::OAMRead => {
                if self.mode_elapsed >= 80 {
                    self.mode = GpuMode::VRAMRead;
                    self.mode_elapsed = self.mode_elapsed - 80;
                }
            }
            GpuMode::VRAMRead => {
                if self.mode_elapsed >= 172 {
                    self.mode = GpuMode::HBlank;
                    self.mode_elapsed = self.mode_elapsed - 172;
                    self.draw_line(mem);
                }
            }
            GpuMode::HBlank => {
                if self.mode_elapsed >= 204 {
                    self.mode_elapsed = self.mode_elapsed - 204;
                    self.line = self.line + 1;

                    newline = true;
                    if self.line == 143 {
                        self.mode = GpuMode::VBlank;
                        vblank = true;
                    } else {
                        self.mode = GpuMode::OAMRead;
                    }
                }
            }
            GpuMode::VBlank => {
                if self.mode_elapsed >= 456 {
                    self.line = self.line + 1;
                    self.mode_elapsed = self.mode_elapsed - 456;

                    if self.line > 153 {
                        self.debug_last_frame = self.debug_current_frame;
                        self.debug_current_frame = GpuDebugTrace::new();
                        // Blank the screen for the coming frame.
                        self.blank_screen();
                        self.mode = GpuMode::OAMRead;
                        self.line = 0;
                    }
                }
            }
        }

        mem.set(0xFF44, self.line);

        let lcdstat: u8 = mem.get(0xFF41);

        let mode: u8 = match self.mode {
            GpuMode::HBlank => 0,
            GpuMode::VBlank => 1,
            GpuMode::OAMRead => 2,
            GpuMode::VRAMRead => 3,
        };

        let newlcdstat: u8 = (lcdstat & 0xFC) | mode;

        mem.set(0xFF41, newlcdstat);

        if vblank {
            interrupt::set_interrupt(interrupt::Interrupt::VBlank, mem);
        }

        if self.lcd_status_interrupt(mem, newlcdstat, newline) {
            interrupt::set_interrupt(interrupt::Interrupt::LcdStat, mem);
        }
    }

    /// The LYC coincidence test; see `stat_interrupt_spec`.
    fn lcd_status_interrupt(&self, mem: &Memory, lcdstat: u8, newline: bool) -> (r: bool)
        requires
            mem.wf(),
        ensures
            r == stat_interrupt_spec(lcdstat, newline, self.line, mem_read(mem@, 0xFF45)),
    {
        if newline && lcdstat & 0x40 != 0 {
            if lcdstat & 0x04 != 0 {
                if self.line == mem.get(0xFF45) {
                    return true;
                }
            } else if self.line != mem.get(0xFF45) {
                return true;
            }
        }

        false
    }

    /// Reset the framebuffer to opaque white.
    fn blank_screen(&mut self)
        requires
            old(self).screen_rgba@.len() == SCREEN_BYTES,
        ensures
            *final(self) == (Gpu { screen_rgba: final(self).screen_rgba, ..*old(self) }),
            final(self).screen_rgba@.len() == SCREEN_BYTES,
            forall|k: int| 0 <= k < SCREEN_BYTES ==> final(self).screen_rgba@[k] == 255u8,
    {
        let mut k: usize = 0;
        while k < SCREEN_BYTES
            invariant
                k <= SCREEN_BYTES,
                self.screen_rgba@.len() == SCREEN_BYTES,
                *self == (Gpu { screen_rgba: self.screen_rgba, ..*old(self) }),
                forall|j: int| 0 <= j < k ==> self.screen_rgba@[j] == 255u8,
            decreases SCREEN_BYTES - k,
        {
            self.screen_rgba[k] = 255;
            k = k + 1;
        }
    }
}

/// Law (frame boundary): across one advance the line counter stays within
/// 0..=153, wrapping to zero past 153, and the VBlank signal is raised on
/// exactly the step that moves the machine into VBlank, at line 143 - once
/// per frame.
pub proof fn lemma_frame_boundary(mode: GpuMode, e: u32, line: u8)
    requires
        line <= 153,
        !(mode is VBlank) ==> line <= 142,
        e < mode_duration(mode) + 24,
    ensures
        ({
            let (m2, e2, l2, vblank, newline) = gpu_step(mode, e, line);
            &&& l2 <= 153
            &&& (!(m2 is VBlank) ==> l2 <= 142)
            &&& vblank == (!(mode is VBlank) && m2 is VBlank)
            &&& vblank ==> l2 == 143
        }),
{
}

} // verus!
