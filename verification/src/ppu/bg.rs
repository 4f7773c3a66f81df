//! Backgrounds: tiled text layers and rotated or scaled affine layers.
//!
//! A text layer is a map of 32x32-tile screen blocks; an entry names a tile, its
//! flips and its palette. Tiles have 4 or 8 bits per pixel. An affine layer is
//! a square map of one-byte tile numbers with 8-bit tiles; screen pixels are
//! mapped to it by a 2x2 matrix in 8.8 fixed point.

use vstd::prelude::*;

use crate::bits::{self, le16};
use crate::bus::io_regs::IoRegisters;

use super::PixelInfo;

verus! {

broadcast use bits::group_and_bounds;

/// The byte of video memory at `i`; memory ends in zeros.
pub open spec fn byte_at(vram: Seq<u8>, i: int) -> u8 {
    if 0 <= i < vram.len() {
        vram[i]
    } else {
        0
    }
}

fn vram_byte(vram: &[u8], i: usize) -> (b: u8)
    ensures
        b == byte_at(vram@, i as int),
{
    if i < vram.len() {
        vram[i]
    } else {
        0
    }
}

/// The nibble of a byte for a pixel column: even columns in the low half.
pub open spec fn nibble(byte: u8, px: int) -> u8 {
    if px % 2 == 0 {
        byte & 0x0F
    } else {
        byte >> 4
    }
}

/// A palette colour, if the palette reaches that far.
pub open spec fn palette_color(palette: Seq<u8>, offset: int) -> Option<u16> {
    if offset + 1 < palette.len() {
        Some(le16(palette[offset], palette[offset + 1]) & 0x7FFF)
    } else {
        None
    }
}

/// The pixel of a layer for a palette entry; entry 0 of a tile is transparent.
pub open spec fn layer_pixel(
    palette: Seq<u8>,
    index: u8,
    offset: int,
    priority: u8,
    layer: u8,
) -> Option<PixelInfo> {
    if index == 0 {
        None
    } else {
        match palette_color(palette, offset) {
            Some(color) => Some(PixelInfo { color, priority, layer, semi_transparent: false }),
            None => None,
        }
    }
}

fn make_pixel(palette: &[u8], index: u8, offset: usize, priority: u8, layer: u8) -> (px: Option<
    PixelInfo,
>)
    requires
        offset < 0x10000,
    ensures
        px == layer_pixel(palette@, index, offset as int, priority, layer),
{
    if index == 0 {
        return None;
    }
    if offset + 1 < palette.len() {
        let color: u16 = le16(palette[offset], palette[offset + 1]) & 0x7FFF;
        Some(PixelInfo { color, priority, layer, semi_transparent: false })
    } else {
        None
    }
}

/// Where a text layer's tiles start in video memory.
#[verifier::allow_in_spec]
pub fn char_base(bgcnt: u16) -> usize
    returns
        (((bgcnt >> 2) & 3) * 0x4000) as usize,
{
    (((bgcnt >> 2) & 3) as usize) * 0x4000
}

/// Where a layer's map starts in video memory.
#[verifier::allow_in_spec]
pub fn screen_base(bgcnt: u16) -> usize
    returns
        (((bgcnt >> 8) & 0x1F) * 0x800) as usize,
{
    (((bgcnt >> 8) & 0x1F) as usize) * 0x800
}

/// The width of a text map in tiles.
#[verifier::allow_in_spec]
pub fn text_width(bgcnt: u16) -> u32
    returns
        (if (bgcnt >> 14) & 3 == 1 || (bgcnt >> 14) & 3 == 3 { 64u32 } else { 32u32 }),
{
    match (bgcnt >> 14) & 3 {
        1 | 3 => 64,
        _ => 32,
    }
}

/// The height of a text map in tiles.
#[verifier::allow_in_spec]
pub fn text_height(bgcnt: u16) -> u32
    returns
        (if (bgcnt >> 14) & 3 == 2 || (bgcnt >> 14) & 3 == 3 { 64u32 } else { 32u32 }),
{
    match (bgcnt >> 14) & 3 {
        2 | 3 => 64,
        _ => 32,
    }
}

/// The tiles per side of an affine map.
#[verifier::allow_in_spec]
pub fn affine_size(bgcnt: u16) -> u32
    returns
        (if (bgcnt >> 14) & 3 == 0 {
            16u32
        } else if (bgcnt >> 14) & 3 == 1 {
            32u32
        } else if (bgcnt >> 14) & 3 == 2 {
            64u32
        } else {
            128u32
        }),
{
    match (bgcnt >> 14) & 3 {
        0 => 16,
        1 => 32,
        2 => 64,
        _ => 128,
    }
}

/// A coordinate under mosaic: the first of its run of `step`.
pub open spec fn mosaic_floor(v: int, on: bool, step: int) -> int {
    if on {
        (v / step) * step
    } else {
        v
    }
}

fn apply_mosaic(v: u32, on: bool, step: u32) -> (r: u32)
    requires
        1 <= step <= 16,
    ensures
        r == mosaic_floor(v as int, on, step as int),
        r <= v,
{
    if on {
        assert(0 <= (v / step) * step <= v) by (nonlinear_arith)
            requires
                step >= 1,
        ;
        (v / step) * step
    } else {
        v
    }
}

/// Which 2 KB screen block holds a tile: blocks run left to right, then down.
pub open spec fn screen_block(tile_x: int, tile_y: int, screen_w: u32) -> int {
    if screen_w == 64 {
        (tile_x / 32 + (tile_y / 32) * 2) * 0x800
    } else if screen_w == 32 {
        (tile_y / 32) * 0x800
    } else {
        0
    }
}

fn get_text_screen_block_offset(tile_x: u32, tile_y: u32, screen_w: u32) -> (o: usize)
    requires
        tile_x < 64,
        tile_y < 64,
    ensures
        o == screen_block(tile_x as int, tile_y as int, screen_w),
        o <= 0x1800,
{
    let block_x: u32 = tile_x / 32;
    let block_y: u32 = tile_y / 32;
    let block_index: u32 = match screen_w {
        64 => block_x + block_y * 2,
        32 => block_y,
        _ => 0,
    };
    (block_index as usize) * 0x800
}

/// Where the map entry for map pixel (`x`, `y`) is in video memory.
pub open spec fn text_entry_addr(bgcnt: u16, x: int, y: int) -> int {
    let tile_x = x / 8;
    let tile_y = (y / 8) % (text_height(bgcnt) as int);
    screen_base(bgcnt) + screen_block(tile_x, tile_y, text_width(bgcnt)) + ((tile_y % 32) * 32 + (
    tile_x % 32)) * 2
}

/// The palette index that a text map entry shows at pixel (`px`, `py`) of its
/// tile, before flipping.
pub open spec fn text_index(vram: Seq<u8>, bgcnt: u16, entry: u16, px: int, py: int) -> u8 {
    let tile = (entry & 0x3FF) as int;
    let x = if entry & (1u16 << 10) != 0 {
        7 - px
    } else {
        px
    };
    let y = if entry & (1u16 << 11) != 0 {
        7 - py
    } else {
        py
    };
    if bgcnt & (1u16 << 7) != 0 {
        byte_at(vram, char_base(bgcnt) + tile * 64 + y * 8 + x)
    } else {
        let addr = char_base(bgcnt) + tile * 32 + y * 4 + x / 2;
        if addr < vram.len() {
            nibble(vram[addr], x)
        } else {
            0
        }
    }
}

/// The pixel of text layer `bg` at column `screen_x` of `line`.
pub open spec fn text_pixel(
    bg: int,
    line: u16,
    io: IoRegisters,
    palette: Seq<u8>,
    vram: Seq<u8>,
    screen_x: int,
) -> Option<PixelInfo> {
    let bgcnt = io.bgcnt[bg];
    let mosaic = bgcnt & (1u16 << 6) != 0;
    let y = mosaic_floor(line + io.bg_ofs[bg][1], mosaic, ((io.mosaic >> 4) & 0xF) + 1);
    let x = mosaic_floor(screen_x + io.bg_ofs[bg][0], mosaic, (io.mosaic & 0xF) + 1) % (
    text_width(bgcnt) * 8);
    let addr = text_entry_addr(bgcnt, x, y);
    if addr + 1 >= vram.len() {
        None
    } else {
        let entry = le16(vram[addr], vram[addr + 1]);
        let index = text_index(vram, bgcnt, entry, x % 8, y % 8);
        let offset = if bgcnt & (1u16 << 7) != 0 {
            index * 2
        } else {
            (((entry >> 12) & 0xF) * 16 + index) * 2
        };
        layer_pixel(palette, index, offset, (bgcnt & 3) as u8, bg as u8)
    }
}

fn fetch_text_index(vram: &[u8], bgcnt: u16, entry: u16, px: u32, py: u32) -> (index: u8)
    requires
        px < 8,
        py < 8,
    ensures
        index == text_index(vram@, bgcnt, entry, px as int, py as int),
{
    let tile: usize = (entry & 0x3FF) as usize;
    let x: usize = if entry & (1u16 << 10) != 0 {
        (7 - px) as usize
    } else {
        px as usize
    };
    let y: usize = if entry & (1u16 << 11) != 0 {
        (7 - py) as usize
    } else {
        py as usize
    };
    if bgcnt & (1u16 << 7) != 0 {
        vram_byte(vram, char_base(bgcnt) + tile * 64 + y * 8 + x)
    } else {
        let addr: usize = char_base(bgcnt) + tile * 32 + y * 4 + x / 2;
        if addr < vram.len() {
            let byte: u8 = vram[addr];
            if x % 2 == 0 {
                byte & 0x0F
            } else {
                byte >> 4
            }
        } else {
            0
        }
    }
}

fn fetch_text_pixel(
    bg: usize,
    line: u16,
    io: &IoRegisters,
    palette: &[u8],
    vram: &[u8],
    screen_x: usize,
) -> (px: Option<PixelInfo>)
    requires
        bg < 4,
        screen_x < 240,
    ensures
        px == text_pixel(bg as int, line, *io, palette@, vram@, screen_x as int),
{
    let bgcnt: u16 = io.bgcnt[bg];
    let bpp8 = bgcnt & (1u16 << 7) != 0;
    let mosaic = bgcnt & (1u16 << 6) != 0;
    let screen_w: u32 = text_width(bgcnt);
    let screen_h: u32 = text_height(bgcnt);
    let scroll_x: u32 = io.bg_ofs[bg][0] as u32;
    let scroll_y: u32 = io.bg_ofs[bg][1] as u32;
    let y: u32 = apply_mosaic(line as u32 + scroll_y, mosaic, ((io.mosaic >> 4) & 0xF) as u32 + 1);
    let x: u32 = apply_mosaic(screen_x as u32 + scroll_x, mosaic, (io.mosaic & 0xF) as u32 + 1) % (
    screen_w * 8);
    let tile_x: u32 = x / 8;
    let tile_y: u32 = (y / 8) % screen_h;
    let map_addr: usize = screen_base(bgcnt) + get_text_screen_block_offset(
        tile_x,
        tile_y,
        screen_w,
    ) + ((tile_y % 32) * 32 + (tile_x % 32)) as usize * 2;
    if map_addr + 1 >= vram.len() {
        return None;
    }
    let entry: u16 = le16(vram[map_addr], vram[map_addr + 1]);
    let index: u8 = fetch_text_index(vram, bgcnt, entry, x % 8, y % 8);
    let pal_num: usize = ((entry >> 12) & 0xF) as usize;
    let offset: usize = if bpp8 {
        index as usize * 2
    } else {
        (pal_num * 16 + index as usize) * 2
    };
    make_pixel(palette, index, offset, (bgcnt & 3) as u8, bg as u8)
}

/// Renders one line of a text layer.
pub fn render_text_bg_line(
    bg: usize,
    line: u16,
    io: &IoRegisters,
    palette: &[u8],
    vram: &[u8],
    output: &mut [Option<PixelInfo>; 240],
)
    requires
        bg < 4,
    ensures
        forall|x: int|
            0 <= x < 240 ==> #[trigger] final(output)[x] == text_pixel(
                bg as int,
                line,
                *io,
                palette@,
                vram@,
                x,
            ),
{
    let mut screen_x: usize = 0;
    while screen_x < 240
        invariant
            bg < 4,
            screen_x <= 240,
            forall|x: int|
                0 <= x < screen_x ==> #[trigger] output[x] == text_pixel(
                    bg as int,
                    line,
                    *io,
                    palette@,
                    vram@,
                    x,
                ),
        decreases 240 - screen_x,
    {
        let px = fetch_text_pixel(bg, line, io, palette, vram, screen_x);
        output[screen_x] = px;
        screen_x = screen_x + 1;
    }
}

/// The matrix of affine layer 2, or else 3: PA, PB, PC, PD.
#[verifier::allow_in_spec]
pub fn get_affine_params(bg: usize, io: &IoRegisters) -> (i16, i16, i16, i16)
    returns
        (if bg == 2 {
            (
                io.bg2_affine[0] as i16,
                io.bg2_affine[1] as i16,
                io.bg2_affine[2] as i16,
                io.bg2_affine[3] as i16,
            )
        } else {
            (
                io.bg3_affine[0] as i16,
                io.bg3_affine[1] as i16,
                io.bg3_affine[2] as i16,
                io.bg3_affine[3] as i16,
            )
        }),
{
    if bg == 2 {
        (
            io.bg2_affine[0] as i16,
            io.bg2_affine[1] as i16,
            io.bg2_affine[2] as i16,
            io.bg2_affine[3] as i16,
        )
    } else {
        (
            io.bg3_affine[0] as i16,
            io.bg3_affine[1] as i16,
            io.bg3_affine[2] as i16,
            io.bg3_affine[3] as i16,
        )
    }
}

/// A texture coordinate after `n` steps, modulo 2^32.
pub open spec fn stepped(start: i32, step: i32, n: nat) -> i32
    decreases n,
{
    if n == 0 {
        start
    } else {
        stepped(start, step, (n - 1) as nat).wrapping_add(step)
    }
}

/// The map pixel at coordinates (`sx`, `sy`): wrapped around, or nothing
/// outside the map.
pub open spec fn map_point(sx: i32, sy: i32, size: int, wrap: bool) -> Option<(int, int)> {
    if wrap {
        Some((sx as int % size, sy as int % size))
    } else if 0 <= sx < size && 0 <= sy < size {
        Some((sx as int, sy as int))
    } else {
        None
    }
}

fn wrap_coord(s: i32, size: u32) -> (r: u32)
    requires
        0 < size <= 1024,
    ensures
        r == (s as int) % (size as int),
{
    if s >= 0 {
        let r: u32 = s as u32 % size;
        assert(r == s as int % (size as int)) by (nonlinear_arith)
            requires
                r == s as u32 % size,
                s >= 0,
                size > 0,
        ;
        r
    } else {
        let m: i64 = (-(s as i64)) % (size as i64);
        let ghost neg = -(s as int);
        proof {
            let d = size as int;
            let q = neg / d;
            vstd::arithmetic::div_mod::lemma_fundamental_div_mod(neg, d);
            assert((-q) * d == -(d * q) && (-q - 1) * d == -(d * q) - d) by (nonlinear_arith);
            if m == 0 {
                vstd::arithmetic::div_mod::lemma_fundamental_div_mod_converse(s as int, d, -q, 0);
            } else {
                vstd::arithmetic::div_mod::lemma_fundamental_div_mod_converse(
                    s as int,
                    d,
                    -q - 1,
                    d - m,
                );
            }
        }
        if m == 0 {
            0
        } else {
            size - m as u32
        }
    }
}

/// The pixel of affine layer `bg` whose texture coordinates are `tex_x` and
/// `tex_y`, in 8.8 fixed point.
pub open spec fn affine_pixel(
    bg: int,
    io: IoRegisters,
    palette: Seq<u8>,
    vram: Seq<u8>,
    tex_x: i32,
    tex_y: i32,
) -> Option<PixelInfo> {
    let bgcnt = io.bgcnt[bg];
    let tiles = affine_size(bgcnt) as int;
    match map_point(tex_x >> 8, tex_y >> 8, tiles * 8, bgcnt & (1u16 << 13) != 0) {
        None => None,
        Some((fx, fy)) => {
            let tile = byte_at(vram, screen_base(bgcnt) + (fy / 8) * tiles + fx / 8);
            let index = byte_at(
                vram,
                char_base(bgcnt) + tile * 64 + (fy % 8) * 8 + fx % 8,
            );
            layer_pixel(palette, index, index * 2, (bgcnt & 3) as u8, bg as u8)
        },
    }
}

fn fetch_affine_pixel(
    bg: usize,
    io: &IoRegisters,
    palette: &[u8],
    vram: &[u8],
    tex_x: i32,
    tex_y: i32,
) -> (px: Option<PixelInfo>)
    requires
        bg < 4,
    ensures
        px == affine_pixel(bg as int, *io, palette@, vram@, tex_x, tex_y),
{
    let bgcnt: u16 = io.bgcnt[bg];
    let wrap = bgcnt & (1u16 << 13) != 0;
    let map_size: u32 = affine_size(bgcnt);
    let pixel_size: u32 = map_size * 8;
    let sx: i32 = tex_x >> 8;
    let sy: i32 = tex_y >> 8;
    let (fx, fy): (u32, u32) = if wrap {
        (wrap_coord(sx, pixel_size), wrap_coord(sy, pixel_size))
    } else {
        if sx < 0 || sy < 0 || sx >= pixel_size as i32 || sy >= pixel_size as i32 {
            return None;
        }
        (sx as u32, sy as u32)
    };
    let tile_x: u32 = fx / 8;
    let tile_y: u32 = fy / 8;
    assert(0 <= tile_y * map_size <= 127 * 128) by (nonlinear_arith)
        requires
            0 <= tile_y <= 127,
            0 <= map_size <= 128,
    ;
    let tile: usize = vram_byte(
        vram,
        screen_base(bgcnt) + (tile_y * map_size + tile_x) as usize,
    ) as usize;
    let index: u8 = vram_byte(
        vram,
        char_base(bgcnt) + tile * 64 + (fy % 8) as usize * 8 + (fx % 8) as usize,
    );
    make_pixel(palette, index, index as usize * 2, (bgcnt & 3) as u8, bg as u8)
}

/// Renders one line of an affine layer from its reference point.
pub fn render_affine_bg_line(
    bg: usize,
    _line: u16,
    io: &IoRegisters,
    palette: &[u8],
    vram: &[u8],
    ref_x: i32,
    ref_y: i32,
    output: &mut [Option<PixelInfo>; 240],
)
    requires
        bg < 4,
    ensures
        forall|x: int|
            0 <= x < 240 ==> #[trigger] final(output)[x] == affine_pixel(
                bg as int,
                *io,
                palette@,
                vram@,
                stepped(ref_x, get_affine_params(bg, io).0 as i32, x as nat),
                stepped(ref_y, get_affine_params(bg, io).2 as i32, x as nat),
            ),
{
    let (pa, _pb, pc, _pd) = get_affine_params(bg, io);
    let mut tex_x: i32 = ref_x;
    let mut tex_y: i32 = ref_y;
    let mut screen_x: usize = 0;
    while screen_x < 240
        invariant
            bg < 4,
            screen_x <= 240,
            pa == get_affine_params(bg, io).0,
            pc == get_affine_params(bg, io).2,
            tex_x == stepped(ref_x, pa as i32, screen_x as nat),
            tex_y == stepped(ref_y, pc as i32, screen_x as nat),
            forall|x: int|
                0 <= x < screen_x ==> #[trigger] output[x] == affine_pixel(
                    bg as int,
                    *io,
                    palette@,
                    vram@,
                    stepped(ref_x, pa as i32, x as nat),
                    stepped(ref_y, pc as i32, x as nat),
                ),
        decreases 240 - screen_x,
    {
        let px = fetch_affine_pixel(bg, io, palette, vram, tex_x, tex_y);
        output[screen_x] = px;
        tex_x = tex_x.wrapping_add(pa as i32);
        tex_y = tex_y.wrapping_add(pc as i32);
        screen_x = screen_x + 1;
    }
}

} // verus!
