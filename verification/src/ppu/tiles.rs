//! How tiles, maps and sprites lie on the screen.

use vstd::prelude::*;

use crate::bits;
use crate::bus::io_regs::IoRegisters;

use super::bg::{self, byte_at};
use super::obj::{self, ObjAttr};
use super::PixelInfo;

verus! {

broadcast use bits::group_and_bounds;

pub(crate) proof fn entry_fields(e: u16)
    ensures
        e & 0x3FF == e % 1024,
        e & (1u16 << 10) != 0 <==> e / 0x400 % 2 == 1,
        e & (1u16 << 11) != 0 <==> e / 0x800 % 2 == 1,
        (e >> 12) & 0xF == e / 4096,
{
    bits::half_fields(e, 0, 0, 0);
}

pub(crate) proof fn control_fields(c: u16)
    ensures
        c & (1u16 << 6) != 0 <==> c / 64 % 2 == 1,
        c & (1u16 << 7) != 0 <==> c / 128 % 2 == 1,
        (c >> 2) & 3 == c / 4 % 4,
        (c >> 8) & 0x1F == c / 256 % 32,
        (c >> 14) & 3 == c / 0x4000,
        c & 3 == c % 4,
{
    bits::half_fields(c, 0, 0, 0);
}

pub(crate) proof fn halfword(y: u8, z: u8)
    ensures
        bits::le16(y, z) == y + 256 * z,
        (bits::le16(y, z) >> 12) & 0xF == bits::le16(y, z) / 4096,
{
    bits::half_fields(bits::le16(y, z), 0, y, z);
}

proof fn half_bytes(y: u8)
    ensures
        y & 0x0F == y % 16,
        y >> 4 == y / 16,
{
    bits::byte_fields(y, 0);
}

proof fn flipped_entry(e: u16)
    ensures
        e / 0x800 % 2 == 0 ==> {
            let f = (e + 0x800) as u16;
            f % 1024 == e % 1024 && f / 0x400 % 2 == e / 0x400 % 2 && f / 0x800 % 2 == 1
        },
        e / 0x400 % 2 == 0 ==> {
            let f = (e + 0x400) as u16;
            f % 1024 == e % 1024 && f / 0x800 % 2 == e / 0x800 % 2 && f / 0x400 % 2 == 1
        },
{
}

/// Two map entries that differ only in bit 11 show each other's tile upside
/// down, and two that differ only in bit 10 show it mirrored.
#[verifier::rlimit(50)]
pub proof fn flipped_tiles(vram: Seq<u8>, bgcnt: u16, entry: u16, px: int, py: int)
    requires
        0 <= px < 8,
        0 <= py < 8,
    ensures
        entry / 0x800 % 2 == 0 ==> bg::text_index(vram, bgcnt, (entry + 0x800) as u16, px, py)
            == bg::text_index(vram, bgcnt, entry, px, 7 - py),
        entry / 0x400 % 2 == 0 ==> bg::text_index(vram, bgcnt, (entry + 0x400) as u16, px, py)
            == bg::text_index(vram, bgcnt, entry, 7 - px, py),
{
    entry_fields(entry);
    flipped_entry(entry);
    entry_fields((entry + 0x800) as u16);
    entry_fields((entry + 0x400) as u16);
}

/// A tile that is not flipped lies in memory row by row from the top left on:
/// a byte for each pixel, or two pixels to a byte with the left one in the low
/// half. Bits 0 to 9 of the map entry number it and bits 2 and 3 of the control
/// register choose the 16 KB where the tiles start.
#[verifier::rlimit(50)]
pub proof fn upright_tiles(vram: Seq<u8>, bgcnt: u16, entry: u16, px: int, py: int)
    requires
        0 <= px < 8,
        0 <= py < 8,
        entry / 0x400 % 4 == 0,
    ensures
        ({
            let start = bgcnt / 4 % 4 * 0x4000;
            let tile = entry % 1024;
            let index = bg::text_index(vram, bgcnt, entry, px, py);
            &&& bgcnt / 128 % 2 == 1 ==> index == byte_at(vram, start + 64 * tile + 8 * py + px)
            &&& bgcnt / 128 % 2 == 0 ==> {
                let byte = byte_at(vram, start + 32 * tile + 4 * py + px / 2);
                index == (if px % 2 == 0 {
                    byte % 16
                } else {
                    byte / 16
                })
            }
        }),
{
    entry_fields(entry);
    control_fields(bgcnt);
    assert(entry / 0x400 % 2 == 0 && entry / 0x800 % 2 == 0);
    let addr = bgcnt / 4 % 4 * 0x4000 + 32 * (entry % 1024) + 4 * py + px / 2;
    half_bytes(byte_at(vram, addr));
}

/// Where the entry of a map pixel lies from the start of a map, by the size of
/// the map.
spec fn entry_offset(size: int, x: int, y: int) -> int {
    let inside = 2 * (x / 8 % 32) + 64 * (y / 8 % 32);
    if size == 0 {
        inside
    } else if size == 1 {
        inside + 2048 * (x / 256)
    } else if size == 2 {
        inside + 2048 * (y / 256 % 2)
    } else {
        inside + 2048 * (x / 256) + 4096 * (y / 256 % 2)
    }
}

proof fn entry_lies_at(bgcnt: u16, x: int, y: int)
    requires
        0 <= x < 512,
        0 <= y,
    ensures
        bg::text_entry_addr(bgcnt, x, y) == bgcnt / 256 % 32 * 2048 + entry_offset(
            (bgcnt / 0x4000) as int,
            x,
            y,
        ),
{
    control_fields(bgcnt);
    assert(y / 8 % 64 / 32 == y / 256 % 2);
    assert(y / 8 % 64 % 32 == y / 8 % 32);
    assert(x / 8 / 32 == x / 256);
}

/// The map of a text layer starts where bits 8 to 12 of the control register
/// say, in steps of 2 KB. Its entries take two bytes each, 32 to a row and 32
/// rows to a block; the block to the right follows, then the blocks below. The
/// map repeats downward.
#[verifier::rlimit(50)]
pub proof fn text_maps(bgcnt: u16, x: int, y: int)
    requires
        0 <= x < 512,
        0 <= y,
    ensures
        bg::text_entry_addr(bgcnt, 0, 0) == bgcnt / 256 % 32 * 2048,
        bg::text_entry_addr(bgcnt, x, y) == bg::text_entry_addr(bgcnt, x - x % 8, y - y % 8),
        x % 256 < 248 ==> bg::text_entry_addr(bgcnt, x + 8, y) == bg::text_entry_addr(bgcnt, x, y)
            + 2,
        y % 256 < 248 ==> bg::text_entry_addr(bgcnt, x, y + 8) == bg::text_entry_addr(bgcnt, x, y)
            + 64,
        x < 256 && bgcnt / 0x4000 % 2 == 1 ==> bg::text_entry_addr(bgcnt, x + 256, y)
            == bg::text_entry_addr(bgcnt, x, y) + 2048,
        y < 256 && bgcnt / 0x4000 == 2 ==> bg::text_entry_addr(bgcnt, x, y + 256)
            == bg::text_entry_addr(bgcnt, x, y) + 2048,
        y < 256 && bgcnt / 0x4000 == 3 ==> bg::text_entry_addr(bgcnt, x, y + 256)
            == bg::text_entry_addr(bgcnt, x, y) + 4096,
        bgcnt / 0x8000 == 0 ==> bg::text_entry_addr(bgcnt, x, y + 256) == bg::text_entry_addr(
            bgcnt,
            x,
            y,
        ),
        bg::text_entry_addr(bgcnt, x, y + 512) == bg::text_entry_addr(bgcnt, x, y),
{
    let size = (bgcnt / 0x4000) as int;
    map_size(bgcnt);
    entry_moves(size, x, y);
    entry_lies_at(bgcnt, 0, 0);
    entry_lies_at(bgcnt, x, y);
    entry_lies_at(bgcnt, x - x % 8, y - y % 8);
    entry_lies_at(bgcnt, x, y + 8);
    entry_lies_at(bgcnt, x, y + 256);
    entry_lies_at(bgcnt, x, y + 512);
    if x % 256 < 248 {
        entry_lies_at(bgcnt, x + 8, y);
    }
    if x < 256 {
        entry_lies_at(bgcnt, x + 256, y);
    }
}

proof fn entry_moves(size: int, x: int, y: int)
    requires
        0 <= size < 4,
        0 <= x < 512,
        0 <= y,
    ensures
        entry_offset(size, 0, 0) == 0,
        entry_offset(size, x, y) == entry_offset(size, x - x % 8, y - y % 8),
        x % 256 < 248 ==> entry_offset(size, x + 8, y) == entry_offset(size, x, y) + 2,
        y % 256 < 248 ==> entry_offset(size, x, y + 8) == entry_offset(size, x, y) + 64,
        x < 256 && size % 2 == 1 ==> entry_offset(size, x + 256, y) == entry_offset(size, x, y)
            + 2048,
        y < 256 && size == 2 ==> entry_offset(size, x, y + 256) == entry_offset(size, x, y) + 2048,
        y < 256 && size == 3 ==> entry_offset(size, x, y + 256) == entry_offset(size, x, y) + 4096,
        size < 2 ==> entry_offset(size, x, y + 256) == entry_offset(size, x, y),
        entry_offset(size, x, y + 512) == entry_offset(size, x, y),
{
    row_moves(x);
    row_moves(y);
}

proof fn row_moves(v: int)
    requires
        0 <= v,
    ensures
        (v - v % 8) / 8 == v / 8,
        (v - v % 8) / 256 == v / 256,
        (v + 8) / 8 == v / 8 + 1,
        v % 256 < 248 ==> (v + 8) / 8 % 32 == v / 8 % 32 + 1 && (v + 8) / 256 == v / 256,
        (v + 256) / 8 % 32 == v / 8 % 32,
        (v + 256) / 256 == v / 256 + 1,
        (v + 512) / 8 % 32 == v / 8 % 32,
        (v + 512) / 256 == v / 256 + 2,
        (v + 512) / 256 % 2 == v / 256 % 2,
        v < 256 ==> v / 256 == 0,
{
    let q = v / 256;
    let r = v % 256;
    assert(v == 256 * q + r);
    assert((256 * q + r) / 8 == 32 * q + r / 8);
    assert((32 * q + r / 8) % 32 == r / 8);
    assert((256 * (q + 1) + r) / 8 == 32 * (q + 1) + r / 8);
    assert((32 * (q + 1) + r / 8) % 32 == r / 8);
    assert((256 * (q + 2) + r) / 8 == 32 * (q + 2) + r / 8);
    assert((32 * (q + 2) + r / 8) % 32 == r / 8);
    if r < 248 {
        assert((r + 8) / 8 == r / 8 + 1);
        assert((256 * q + (r + 8)) / 8 == 32 * q + (r + 8) / 8);
        assert((32 * q + (r + 8) / 8) % 32 == (r + 8) / 8);
    }
    assert((v - v % 8) / 256 == v / 256) by {
        assert(v % 8 == r % 8);
        assert(0 <= r - r % 8 < 256);
    }
}

/// The column of a text layer's map that shows at a screen column, without
/// mosaic: the sum with the scroll offset, around the width of the map.
pub open spec fn scrolled_x(io: IoRegisters, layer: int, x: int) -> int {
    (x + io.bg_ofs[layer][0]) % (if io.bgcnt[layer] / 0x4000 % 2 == 1 {
        512int
    } else {
        256int
    })
}

/// The row of a text layer's map that shows on a line, without mosaic.
pub open spec fn scrolled_y(io: IoRegisters, layer: int, line: u16) -> int {
    (line + io.bg_ofs[layer][1]) % (if io.bgcnt[layer] / 0x8000 == 1 {
        512int
    } else {
        256int
    })
}

/// A text layer shows the same pixel wherever scrolling brings the same point
/// of its map, and the map repeats in both directions.
#[verifier::rlimit(50)]
pub proof fn text_layers_scroll(
    layer: int,
    io: IoRegisters,
    other: IoRegisters,
    palette: Seq<u8>,
    vram: Seq<u8>,
    line: u16,
    line_2: u16,
    x: int,
    x_2: int,
)
    requires
        0 <= layer < 4,
        0 <= x,
        0 <= x_2,
        io.bgcnt[layer] == other.bgcnt[layer],
        io.bgcnt[layer] / 64 % 2 == 0,
        scrolled_x(io, layer, x) == scrolled_x(other, layer, x_2),
        scrolled_y(io, layer, line) == scrolled_y(other, layer, line_2),
    ensures
        bg::text_pixel(layer, line, io, palette, vram, x) == bg::text_pixel(
            layer,
            line_2,
            other,
            palette,
            vram,
            x_2,
        ),
{
    shown_point(layer, line, io, palette, vram, x);
    shown_point(layer, line_2, other, palette, vram, x_2);
}

/// A text layer shows the point of its map that scrolling brings.
proof fn shown_point(
    layer: int,
    line: u16,
    io: IoRegisters,
    palette: Seq<u8>,
    vram: Seq<u8>,
    x: int,
)
    requires
        0 <= layer < 4,
        0 <= x,
        io.bgcnt[layer] / 64 % 2 == 0,
    ensures
        bg::text_pixel(layer, line, io, palette, vram, x) == pixel_at(
            layer,
            io.bgcnt[layer],
            palette,
            vram,
            scrolled_x(io, layer, x),
            scrolled_y(io, layer, line),
        ),
{
    let cnt = io.bgcnt[layer];
    control_fields(cnt);
    map_size(cnt);
    let y = line + io.bg_ofs[layer][1];
    let u = scrolled_x(io, layer, x);
    let v = scrolled_y(io, layer, line);
    wrapped_row(y);
    same_entry(cnt, u, y, v);
    let at = bg::text_entry_addr(cnt, u, v);
    halfword(vram[at], vram[at + 1]);
}

proof fn map_size(cnt: u16)
    ensures
        cnt / 0x8000 == 1 <==> cnt / 0x4000 == 2 || cnt / 0x4000 == 3,
        cnt / 0x4000 % 2 == 1 <==> cnt / 0x4000 == 1 || cnt / 0x4000 == 3,
        cnt / 0x4000 <= 3,
{
}

proof fn wrapped_row(y: int)
    requires
        0 <= y,
    ensures
        y % 256 % 8 == y % 8,
        y % 512 % 8 == y % 8,
        y % 256 / 8 % 32 == y / 8 % 32,
        y % 512 / 8 % 32 == y / 8 % 32,
        y % 512 / 256 % 2 == y / 256 % 2,
{
    let q = y / 512;
    let r = y % 512;
    assert(y == 512 * q + r);
    split_row(q, r);
    let p = y / 256;
    let t = y % 256;
    assert(y == 256 * p + t);
    assert((256 * p + t) / 8 == 32 * p + t / 8);
    assert((256 * p + t) % 8 == t % 8);
    assert((32 * p + t / 8) % 32 == t / 8);
}

proof fn split_row(q: int, r: int)
    requires
        0 <= q,
        0 <= r < 512,
    ensures
        (512 * q + r) % 8 == r % 8,
        (512 * q + r) / 8 == 64 * q + r / 8,
        (64 * q + r / 8) % 32 == r / 8 % 32,
        (512 * q + r) / 256 == 2 * q + r / 256,
        (2 * q + r / 256) % 2 == r / 256 % 2,
{
}

proof fn same_entry(cnt: u16, u: int, y: int, v: int)
    requires
        0 <= u < 512,
        0 <= y,
        0 <= v,
        v / 8 % 32 == y / 8 % 32,
        cnt / 0x4000 >= 2 ==> v / 256 % 2 == y / 256 % 2,
    ensures
        bg::text_entry_addr(cnt, u, y) == bg::text_entry_addr(cnt, u, v),
{
    entry_lies_at(cnt, u, y);
    entry_lies_at(cnt, u, v);
}

/// The pixel at a point of a text layer's map.
spec fn pixel_at(
    layer: int,
    cnt: u16,
    palette: Seq<u8>,
    vram: Seq<u8>,
    u: int,
    v: int,
) -> Option<PixelInfo> {
    let at = bg::text_entry_addr(cnt, u, v);
    if at + 1 >= vram.len() {
        None
    } else {
        let entry = (vram[at] + 256 * vram[at + 1]) as u16;
        let index = bg::text_index(vram, cnt, entry, u % 8, v % 8);
        let first = if cnt / 128 % 2 == 1 {
            0
        } else {
            entry / 4096 * 16
        };
        bg::layer_pixel(palette, index, 2 * (first + index), (cnt % 4) as u8, layer as u8)
    }
}

/// Under mosaic a text layer shows, in a run of columns and a run of lines, the
/// pixel of the run's first column and line. The lengths less one are bits 0 to
/// 3 and 4 to 7 of the mosaic register, and runs are counted in the map.
#[verifier::rlimit(50)]
pub proof fn text_mosaic(
    layer: int,
    io: IoRegisters,
    plain: IoRegisters,
    palette: Seq<u8>,
    vram: Seq<u8>,
    line: u16,
    first_line: u16,
    x: int,
    first_x: int,
)
    requires
        0 <= layer < 4,
        0 <= x,
        0 <= first_x,
        io.bgcnt[layer] / 64 % 2 == 1,
        plain.bgcnt[layer] == io.bgcnt[layer] - 64,
        ({
            let w = io.mosaic % 16 + 1;
            let h = io.mosaic / 16 % 16 + 1;
            &&& first_x + plain.bg_ofs[layer][0] == (x + io.bg_ofs[layer][0]) - (x
                + io.bg_ofs[layer][0]) % w
            &&& first_line + plain.bg_ofs[layer][1] == (line + io.bg_ofs[layer][1]) - (line
                + io.bg_ofs[layer][1]) % h
        }),
    ensures
        bg::text_pixel(layer, line, io, palette, vram, x) == bg::text_pixel(
            layer,
            first_line,
            plain,
            palette,
            vram,
            first_x,
        ),
{
    let cnt = io.bgcnt[layer];
    let off = plain.bgcnt[layer];
    control_fields(cnt);
    control_fields(off);
    mosaic_bit(cnt);
    mosaic_steps(io.mosaic);
    run_starts(x + io.bg_ofs[layer][0], io.mosaic % 16 + 1);
    run_starts(line + io.bg_ofs[layer][1], io.mosaic / 16 % 16 + 1);
}

proof fn mosaic_bit(cnt: u16)
    requires
        cnt / 64 % 2 == 1,
    ensures
        ({
            let off = (cnt - 64) as u16;
            &&& off / 64 % 2 == 0
            &&& off / 128 == cnt / 128
            &&& off / 256 == cnt / 256
            &&& off / 0x4000 == cnt / 0x4000
            &&& off % 64 == cnt % 64
            &&& off / 4 % 4 == cnt / 4 % 4
            &&& off % 4 == cnt % 4
        }),
{
}

proof fn mosaic_steps(m: u16)
    ensures
        m & 0xF == m % 16,
        (m >> 4) & 0xF == m / 16 % 16,
{
    bits::half_fields(m, 0, 0, 0);
}

proof fn run_starts(v: int, step: int)
    requires
        step >= 1,
    ensures
        (v / step) * step == v - v % step,
{
    vstd::arithmetic::div_mod::lemma_fundamental_div_mod(v, step);
    vstd::arithmetic::mul::lemma_mul_is_commutative(step, v / step);
}

/// A colour of a layer: 15 bits, low byte first; index 0 shows nothing. The
/// pixel carries the layer's number and priority.
#[verifier::rlimit(50)]
pub proof fn layer_colours(palette: Seq<u8>, index: u8, offset: int, priority: u8, layer: u8)
    requires
        0 <= offset,
        offset + 1 < palette.len(),
    ensures
        ({
            let px = bg::layer_pixel(palette, index, offset, priority, layer);
            &&& px is None <==> index == 0
            &&& index != 0 ==> px == Some(
                PixelInfo {
                    color: ((palette[offset] + 256 * palette[offset + 1]) % 0x8000) as u16,
                    priority,
                    layer,
                    semi_transparent: false,
                },
            )
        }),
{
    let c = bits::le16(palette[offset], palette[offset + 1]);
    halfword(palette[offset], palette[offset + 1]);
    bits::half_fields(c, 0, palette[offset], palette[offset + 1]);
}

/// What a text layer shows at a point of its map: the entry there names the
/// tile; a 16-colour tile takes its colours from the sixteen that the entry's
/// top four bits choose, a 256-colour tile from all.
#[verifier::rlimit(50)]
pub proof fn text_colours(
    layer: int,
    line: u16,
    io: IoRegisters,
    palette: Seq<u8>,
    vram: Seq<u8>,
    x: int,
)
    requires
        0 <= layer < 4,
        0 <= x,
        palette.len() == 0x400,
        io.bgcnt[layer] / 64 % 2 == 0,
        bg::text_entry_addr(
            io.bgcnt[layer],
            scrolled_x(io, layer, x),
            scrolled_y(io, layer, line),
        ) + 1 < vram.len(),
    ensures
        ({
            let cnt = io.bgcnt[layer];
            let u = scrolled_x(io, layer, x);
            let v = scrolled_y(io, layer, line);
            let at = bg::text_entry_addr(cnt, u, v);
            let entry = (vram[at] + 256 * vram[at + 1]) as u16;
            let index = bg::text_index(vram, cnt, entry, u % 8, v % 8);
            let first = if cnt / 128 % 2 == 1 {
                0
            } else {
                entry / 4096 * 16
            };
            bg::text_pixel(layer, line, io, palette, vram, x) == bg::layer_pixel(
                palette,
                index,
                2 * (first + index),
                (cnt % 4) as u8,
                layer as u8,
            )
        }),
{
    shown_point(layer, line, io, palette, vram, x);
}

proof fn first_attribute(a: u16)
    ensures
        a & 0xFF == a % 256,
        (a >> 8) & 3 == a / 0x100 % 4,
        (a >> 10) & 3 == a / 0x400 % 4,
        a & (1u16 << 12) != 0 <==> a / 0x1000 % 2 == 1,
        a & (1u16 << 13) != 0 <==> a / 0x2000 % 2 == 1,
        (a >> 14) & 3 == a / 0x4000,
{
    bits::half_fields(a, 0, 0, 0);
}

proof fn affine_modes(a: u16)
    ensures
        a / 0x100 % 4 == 1 || a / 0x100 % 4 == 3 <==> a / 0x100 % 2 == 1,
{
}

proof fn second_attribute(a: u16)
    ensures
        a & 0x1FF == a % 512,
        (a >> 9) & 0x1F == a / 0x200 % 32,
        a & (1u16 << 12) != 0 <==> a / 0x1000 % 2 == 1,
        a & (1u16 << 13) != 0 <==> a / 0x2000 % 2 == 1,
        (a >> 14) & 3 == a / 0x4000,
{
    bits::half_fields(a, 0, 0, 0);
}

proof fn third_attribute(a: u16)
    ensures
        a & 0x3FF == a % 1024,
        (a >> 10) & 3 == a / 0x400 % 4,
        (a >> 12) & 0xF == a / 0x1000,
{
    bits::half_fields(a, 0, 0, 0);
}

/// The fields of a sprite's three halfwords, by division.
#[verifier::rlimit(50)]
pub proof fn sprite_fields(oam: Seq<u8>, i: int)
    ensures
        ({
            let a0 = obj::oam16(oam, i * 8);
            let a1 = obj::oam16(oam, i * 8 + 2);
            let a2 = obj::oam16(oam, i * 8 + 4);
            let o = obj::obj_attr(oam, i);
            let affine = a0 / 0x100 % 2 == 1;
            &&& o.y == a0 % 256
            &&& o.x == (if a1 % 512 >= 256 {
                a1 % 512 - 512
            } else {
                (a1 % 512) as int
            })
            &&& o.mode == a0 / 0x100 % 4
            &&& o.gfx_mode == a0 / 0x400 % 4
            &&& o.mosaic == (a0 / 0x1000 % 2 == 1)
            &&& o.bpp8 == (a0 / 0x2000 % 2 == 1)
            &&& o.h_flip == (!affine && a1 / 0x1000 % 2 == 1)
            &&& o.v_flip == (!affine && a1 / 0x2000 % 2 == 1)
            &&& affine ==> o.affine_param == a1 / 0x200 % 32
            &&& o.tile_num == a2 % 1024
            &&& o.priority == a2 / 0x400 % 4
            &&& o.palette == a2 / 0x1000
            &&& o.shape == a0 / 0x4000
            &&& o.size == a1 / 0x4000
        }),
{
    let a0 = obj::oam16(oam, i * 8);
    let a1 = obj::oam16(oam, i * 8 + 2);
    let a2 = obj::oam16(oam, i * 8 + 4);
    first_attribute(a0);
    affine_modes(a0);
    second_attribute(a1);
    third_attribute(a2);
}

/// Sprite sizes. A square doubles its side from one size to the next, from 8 to
/// 64. A wide sprite is 16, 32, 32 or 64 pixels wide and half as high, but for
/// the second size, a quarter; a tall one is a wide one turned.
#[verifier::rlimit(50)]
pub proof fn sprite_sizes(size: u8)
    requires
        size < 4,
    ensures
        obj::obj_size(0, 0) == (8u32, 8u32),
        size < 3 ==> obj::obj_size(0, (size + 1) as u8).0 == 2 * obj::obj_size(0, size).0,
        obj::obj_size(0, size).0 == obj::obj_size(0, size).1,
        obj::obj_size(2, size).0 == obj::obj_size(1, size).1,
        obj::obj_size(2, size).1 == obj::obj_size(1, size).0,
        obj::obj_size(3, size) == obj::obj_size(2, size),
        obj::obj_size(1, size).0 == (if size == 0 {
            16int
        } else if size == 3 {
            64
        } else {
            32
        }),
        obj::obj_size(1, size).0 == (if size == 1 {
            4 * obj::obj_size(1, size).1
        } else {
            2 * obj::obj_size(1, size).1
        }),
{
}

/// Two plain sprites that differ only in the horizontal flip draw each other's
/// columns in the opposite order, on every line.
#[verifier::rlimit(50)]
pub proof fn mirrored_sprites(
    o: ObjAttr,
    oam: Seq<u8>,
    vram: Seq<u8>,
    palette: Seq<u8>,
    mapping_1d: bool,
    line: u16,
    k: int,
)
    requires
        o.valid(),
        o.mode == 0,
        0 <= k < o.width,
    ensures
        ({
            let m = ObjAttr { h_flip: !o.h_flip, ..o };
            let back = o.x + (o.width - 1 - k);
            &&& m.pixel(oam, vram, palette, mapping_1d, line, o.x + k) == o.pixel(
                oam,
                vram,
                palette,
                mapping_1d,
                line,
                back,
            )
            &&& m.opens_window(oam, vram, mapping_1d, line, o.x + k) == o.opens_window(
                oam,
                vram,
                mapping_1d,
                line,
                back,
            )
        }),
{
    let m = ObjAttr { h_flip: !o.h_flip, ..o };
    let ly = o.row(line);
    let back = o.width - 1 - k;
    assert(m.texel(oam, k, ly) == o.texel(oam, back, ly));
    assert forall|tx: int, ty: int|
        #[trigger] m.index(vram, mapping_1d, tx, ty) == o.index(vram, mapping_1d, tx, ty) by {}
}

/// Two plain sprites that differ only in the vertical flip draw each other's
/// rows in the opposite order.
#[verifier::rlimit(50)]
pub proof fn upended_sprites(
    o: ObjAttr,
    oam: Seq<u8>,
    vram: Seq<u8>,
    palette: Seq<u8>,
    mapping_1d: bool,
    line: u16,
    opposite: u16,
    sx: int,
)
    requires
        o.valid(),
        o.mode == 0,
        0 <= o.row(line) < o.height,
        o.row(line) + o.row(opposite) == o.height - 1,
    ensures
        ({
            let m = ObjAttr { v_flip: !o.v_flip, ..o };
            &&& m.pixel(oam, vram, palette, mapping_1d, line, sx) == o.pixel(
                oam,
                vram,
                palette,
                mapping_1d,
                opposite,
                sx,
            )
            &&& m.opens_window(oam, vram, mapping_1d, line, sx) == o.opens_window(
                oam,
                vram,
                mapping_1d,
                opposite,
                sx,
            )
        }),
{
    let m = ObjAttr { v_flip: !o.v_flip, ..o };
    assert(m.texel(oam, sx - o.x, m.row(line)) == o.texel(oam, sx - o.x, o.row(opposite)));
    assert forall|tx: int, ty: int|
        #[trigger] m.index(vram, mapping_1d, tx, ty) == o.index(vram, mapping_1d, tx, ty) by {}
}

/// A plain sprite covers `width` columns from its position on and `height`
/// lines; positions from 160 down on are above the screen. A pixel that it shows
/// without flips is the texture pixel of that column and row.
#[verifier::rlimit(50)]
pub proof fn sprite_areas(
    o: ObjAttr,
    oam: Seq<u8>,
    vram: Seq<u8>,
    palette: Seq<u8>,
    mapping_1d: bool,
    line: u16,
    sx: int,
)
    requires
        o.valid(),
        o.mode == 0,
        o.gfx_mode != 2,
    ensures
        ({
            let top = if o.y >= 160 {
                o.y - 256
            } else {
                o.y as int
            };
            let px = o.pixel(oam, vram, palette, mapping_1d, line, sx);
            let inside = o.x <= sx < o.x + o.width && top <= line < top + o.height;
            &&& px is Some ==> inside
            &&& inside && !o.h_flip && !o.v_flip && palette.len() == 0x400 ==> {
                let index = o.index(vram, mapping_1d, sx - o.x, line - top);
                let first = if o.bpp8 {
                    0
                } else {
                    16 * o.palette
                };
                let at = 0x200 + 2 * (first + index);
                &&& px is None <==> index == 0
                &&& index != 0 ==> px == Some(
                    PixelInfo {
                        color: ((palette[at] + 256 * palette[at + 1]) % 0x8000) as u16,
                        priority: o.priority,
                        layer: 4,
                        semi_transparent: o.gfx_mode == 1,
                    },
                )
            }
        }),
{
    let top = if o.y >= 160 {
        o.y - 256
    } else {
        o.y as int
    };
    let index = o.index(vram, mapping_1d, sx - o.x, line - top);
    let first = if o.bpp8 {
        0
    } else {
        16 * o.palette
    };
    let at = 0x200 + 2 * (first + index);
    if !o.bpp8 {
        sixteen_colours(o, vram, mapping_1d, sx - o.x, line - top);
    }
    if at + 1 < palette.len() && index != 0 {
        layer_colours(palette, index, at, o.priority, 4);
    }
}

proof fn sixteen_colours(o: ObjAttr, vram: Seq<u8>, mapping_1d: bool, tx: int, ty: int)
    requires
        !o.bpp8,
    ensures
        o.index(vram, mapping_1d, tx, ty) < 16,
{
    let addr = 0x10000 + o.tile_slot(mapping_1d, tx, ty) * 32 + ty % 8 * 4 + tx % 8 / 2;
    half_bytes(vram[addr]);
}

/// Where the texture of a sprite lies. Within a tile it goes row by row, as in
/// every tile. The tile to the right follows at once; the tile below follows
/// the row of tiles under one-dimensional mapping, and is 32 slots of 32 bytes
/// further under two-dimensional mapping. Sprites have their tiles from 64 KB
/// on, and a tile number counts slots.
#[verifier::rlimit(50)]
pub proof fn sprite_textures(o: ObjAttr, vram: Seq<u8>, mapping_1d: bool, tx: int, ty: int)
    requires
        o.valid(),
        0 <= tx < 8,
        0 <= ty < 8,
        vram.len() == 0x18000,
    ensures
        ({
            let start = 0x10000 + 32 * o.tile_num;
            let index = o.index(vram, mapping_1d, tx, ty);
            &&& o.bpp8 ==> index == byte_at(vram, start + 8 * ty + tx)
            &&& !o.bpp8 ==> {
                let byte = byte_at(vram, start + 4 * ty + tx / 2);
                index == (if tx % 2 == 0 {
                    byte % 16
                } else {
                    byte / 16
                })
            }
        }),
{
    let start = 0x10000 + 32 * o.tile_num;
    assert(tx / 8 == 0 && ty / 8 == 0);
    assert(o.tile_slot(mapping_1d, tx, ty) == o.tile_num);
    half_bytes(byte_at(vram, start + 4 * ty + tx / 2));
}

/// The texture pixels a tile further right or down are those of the same
/// sprite with a larger tile number.
#[verifier::rlimit(50)]
pub proof fn sprite_tiles(o: ObjAttr, vram: Seq<u8>, mapping_1d: bool, tx: int, ty: int)
    requires
        o.valid(),
        0 <= tx,
        0 <= ty,
    ensures
        ({
            let slots = if o.bpp8 {
                2int
            } else {
                1int
            };
            let down = if mapping_1d {
                slots * (o.width as int / 8)
            } else {
                32
            };
            let right = ObjAttr { tile_num: (o.tile_num + slots) as u16, ..o };
            let below = ObjAttr { tile_num: (o.tile_num + down) as u16, ..o };
            &&& o.index(vram, mapping_1d, tx + 8, ty) == right.index(vram, mapping_1d, tx, ty)
            &&& o.index(vram, mapping_1d, tx, ty + 8) == below.index(vram, mapping_1d, tx, ty)
        }),
{
    let across = (o.width / 8) as int;
    assert((ty / 8 + 1) * across == (ty / 8) * across + across) by (nonlinear_arith);
    assert((tx + 8) / 8 == tx / 8 + 1 && (tx + 8) % 8 == tx % 8);
    assert((ty + 8) / 8 == ty / 8 + 1 && (ty + 8) % 8 == ty % 8);
    assert((ty / 8 + 1) * across * 2 == (ty / 8) * across * 2 + across * 2) by (nonlinear_arith);
}

/// The texture pixel of an affine sprite: the distance from the middle of the
/// area goes through the matrix, in 256ths, rounded down, and counts from the
/// middle of the texture. Mode 3 shows it in an area of twice the size.
#[verifier::rlimit(50)]
pub proof fn affine_sprites(o: ObjAttr, oam: Seq<u8>, lx: int, ly: int)
    requires
        o.valid(),
        o.mode == 1 || o.mode == 3,
        0 <= lx < o.bound_w(),
        0 <= ly < o.bound_h(),
    ensures
        ({
            let (pa, pb, pc, pd) = obj::affine_group(oam, o.affine_param as int);
            let w = o.width as int;
            let h = o.height as int;
            let cx = if o.mode == 3 {
                lx - w
            } else {
                lx - w / 2
            };
            let cy = if o.mode == 3 {
                ly - h
            } else {
                ly - h / 2
            };
            let tx = (pa * cx + pb * cy) / 256 + w / 2;
            let ty = (pc * cx + pd * cy) / 256 + h / 2;
            o.texel(oam, lx, ly) == (if 0 <= tx < w && 0 <= ty < h {
                Some((tx, ty))
            } else {
                None
            })
        }),
{
    let (pa, pb, pc, pd) = obj::affine_group(oam, o.affine_param as int);
    let cx = lx - o.bound_w() / 2;
    let cy = ly - o.bound_h() / 2;
    obj::product_range(pa as int, cx);
    obj::product_range(pb as int, cy);
    obj::product_range(pc as int, cx);
    obj::product_range(pd as int, cy);
    obj::shifted_range((pa * cx + pb * cy) as i32);
    obj::shifted_range((pc * cx + pd * cy) as i32);
}

/// An affine sprite whose matrix is the identity is a plain sprite.
#[verifier::rlimit(50)]
pub proof fn identity_sprites(o: ObjAttr, oam: Seq<u8>, lx: int, ly: int)
    requires
        o.valid(),
        o.mode == 1,
        obj::affine_group(oam, o.affine_param as int) == (256i16, 0i16, 0i16, 256i16),
        0 <= lx < o.width,
        0 <= ly < o.height,
    ensures
        o.texel(oam, lx, ly) == Some((lx, ly)),
{
    affine_sprites(o, oam, lx, ly);
}

} // verus!
