//! What of the layers reaches the screen.

use vstd::prelude::*;

use crate::bits;
use crate::bus::io_regs::IoRegisters;

use super::bg::{self, byte_at};
use super::effects::{self, BlendMode};
use super::obj;
use super::tiles;
use super::window::{self, WindowFlags};
use super::{PixelInfo, Ppu, Scene};

verus! {

broadcast use bits::group_and_bounds;

/// Component 0, 1 or 2 of a colour: red, green, blue.
pub open spec fn component(c: u16, k: int) -> int {
    (if k == 0 {
        c % 32
    } else if k == 1 {
        c / 32 % 32
    } else {
        c / 1024 % 32
    }) as int
}

proof fn components(c: u16)
    ensures
        effects::red(c) == component(c, 0),
        effects::green(c) == component(c, 1),
        effects::blue(c) == component(c, 2),
{
    bits::half_fields(c, 0, 0, 0);
}

pub open spec fn capped(w: u16) -> int {
    if w > 16 {
        16
    } else {
        w as int
    }
}

/// In a blend each component is the sum of the two weighted in sixteenths,
/// rounded down, and no more than 31. Blending is the same the other way round.
#[verifier::rlimit(50)]
pub proof fn blends_weigh(c: u16, d: u16, eva: u16, evb: u16, k: int)
    requires
        c <= 0x7FFF,
        d <= 0x7FFF,
        0 <= k < 3,
    ensures
        ({
            let r = component(super::blend_colors(c, d, eva, evb), k);
            let sum = component(c, k) * capped(eva) + component(d, k) * capped(evb);
            &&& sum < 512 ==> 16 * r <= sum < 16 * r + 16
            &&& sum >= 512 ==> r == 31
        }),
        super::blend_colors(c, d, eva, evb) == super::blend_colors(d, c, evb, eva),
{
    components(c);
    components(d);
    blend_range(effects::red(c), effects::red(d), eva, evb);
    blend_range(effects::green(c), effects::green(d), eva, evb);
    blend_range(effects::blue(c), effects::blue(d), eva, evb);
    let r = super::blend_colors(c, d, eva, evb);
    components(r);
    effects::colour_components(
        effects::blended(effects::red(c), effects::red(d), eva, evb),
        effects::blended(effects::green(c), effects::green(d), eva, evb),
        effects::blended(effects::blue(c), effects::blue(d), eva, evb),
        c,
    );
}

proof fn blend_range(a: int, b: int, eva: u16, evb: u16)
    requires
        0 <= a <= 31,
        0 <= b <= 31,
    ensures
        0 <= effects::blended(a, b, eva, evb) <= 31,
        effects::blended(a, b, eva, evb) == effects::blended(b, a, evb, eva),
        ({
            let sum = a * capped(eva) + b * capped(evb);
            let r = effects::blended(a, b, eva, evb);
            &&& sum < 512 ==> 16 * r <= sum < 16 * r + 16
            &&& sum >= 512 ==> r == 31
        }),
{
    assert(0 <= a * capped(eva) && 0 <= b * capped(evb)) by (nonlinear_arith)
        requires
            0 <= a,
            0 <= b,
            0 <= capped(eva),
            0 <= capped(evb),
    ;
}

/// Brightening moves each component toward 31 by its distance in sixteenths,
/// rounded down, and darkening is brightening of the opposite colour.
#[verifier::rlimit(50)]
pub proof fn brightness_moves(c: u16, evy: u16, k: int)
    requires
        c <= 0x7FFF,
        0 <= k < 3,
    ensures
        ({
            let r = component(super::brighten_color(c, evy), k);
            let a = component(c, k);
            let part = (31 - a) * capped(evy);
            a <= r <= 31 && 16 * (r - a) <= part < 16 * (r - a) + 16
        }),
        super::darken_color(c, evy) + super::brighten_color((0x7FFF - c) as u16, evy) == 0x7FFF,
{
    let o = (0x7FFF - c) as u16;
    components(c);
    components(o);
    opposite(c);
    brighten_range(effects::red(c), evy);
    brighten_range(effects::green(c), evy);
    brighten_range(effects::blue(c), evy);
    brighten_range(effects::red(o), evy);
    brighten_range(effects::green(o), evy);
    brighten_range(effects::blue(o), evy);
    let r = super::brighten_color(c, evy);
    components(r);
    effects::colour_components(
        effects::brightened(effects::red(c), evy),
        effects::brightened(effects::green(c), evy),
        effects::brightened(effects::blue(c), evy),
        c,
    );
    let u = super::brighten_color(o, evy);
    components(u);
    effects::colour_components(
        effects::brightened(effects::red(o), evy),
        effects::brightened(effects::green(o), evy),
        effects::brightened(effects::blue(o), evy),
        c,
    );
    let d = super::darken_color(c, evy);
    components(d);
    effects::colour_components(
        effects::darkened(effects::red(c), evy),
        effects::darkened(effects::green(c), evy),
        effects::darkened(effects::blue(c), evy),
        c,
    );
    total(d);
    total(u);
}

proof fn total(c: u16)
    requires
        c <= 0x7FFF,
    ensures
        c == component(c, 0) + 32 * component(c, 1) + 1024 * component(c, 2),
{
}

proof fn opposite(c: u16)
    requires
        c <= 0x7FFF,
    ensures
        component((0x7FFF - c) as u16, 0) == 31 - component(c, 0),
        component((0x7FFF - c) as u16, 1) == 31 - component(c, 1),
        component((0x7FFF - c) as u16, 2) == 31 - component(c, 2),
{
    total(c);
    let r = component(c, 0);
    let g = component(c, 1);
    let b = component(c, 2);
    let o = 0x7FFF - c;
    assert(o == (31 - r) + 32 * (31 - g) + 1024 * (31 - b));
    assert(o % 32 == 31 - r);
    assert(o / 32 == (31 - g) + 32 * (31 - b));
    assert(o / 1024 == 31 - b);
}

proof fn brighten_range(a: int, evy: u16)
    requires
        0 <= a <= 31,
    ensures
        ({
            let r = effects::brightened(a, evy);
            let part = (31 - a) * capped(evy);
            a <= r <= 31 && 16 * (r - a) <= part < 16 * (r - a) + 16
        }),
        effects::darkened(31 - a, evy) == 31 - effects::brightened(a, evy),
        0 <= effects::darkened(a, evy) <= 31,
{
    assert(0 <= (31 - a) * capped(evy) <= (31 - a) * 16) by (nonlinear_arith)
        requires
            0 <= a <= 31,
            0 <= capped(evy) <= 16,
    ;
    assert(0 <= a * capped(evy) <= a * 16) by (nonlinear_arith)
        requires
            0 <= a <= 31,
            0 <= capped(evy) <= 16,
    ;
}

/// The two sets of target layers: bits 0 to 5 and bits 8 to 13, in the order of
/// the backgrounds, sprites and backdrop. Bits 6 and 7 choose the effect.
#[verifier::rlimit(50)]
pub proof fn blend_control(c: u16)
    ensures
        effects::is_first_target(c, 0) == (c % 2 == 1),
        effects::is_first_target(c, 1) == (c / 2 % 2 == 1),
        effects::is_first_target(c, 2) == (c / 4 % 2 == 1),
        effects::is_first_target(c, 3) == (c / 8 % 2 == 1),
        effects::is_first_target(c, 4) == (c / 16 % 2 == 1),
        effects::is_first_target(c, 5) == (c / 32 % 2 == 1),
        effects::is_second_target(c, 0) == (c / 0x100 % 2 == 1),
        effects::is_second_target(c, 1) == (c / 0x200 % 2 == 1),
        effects::is_second_target(c, 2) == (c / 0x400 % 2 == 1),
        effects::is_second_target(c, 3) == (c / 0x800 % 2 == 1),
        effects::is_second_target(c, 4) == (c / 0x1000 % 2 == 1),
        effects::is_second_target(c, 5) == (c / 0x2000 % 2 == 1),
        c / 64 % 4 == 0 <==> BlendMode::from_bldcnt(c) is Off,
        c / 64 % 4 == 1 <==> BlendMode::from_bldcnt(c) is Alpha,
        c / 64 % 4 == 2 <==> BlendMode::from_bldcnt(c) is BrightnessIncrease,
        c / 64 % 4 == 3 <==> BlendMode::from_bldcnt(c) is BrightnessDecrease,
{
    bits::half_fields(c, 0, 0, 0);
}

/// An effect applies where the window allows it. The front layer shows as it is
/// unless it is a first target, and a blend also needs a second target behind
/// it; a semi-transparent sprite counts as a first target of a blend.
#[verifier::rlimit(50)]
pub proof fn effects_apply(
    stack: super::Stack,
    backdrop: u16,
    on: bool,
    c: u16,
    mode: BlendMode,
    eva: u16,
    evb: u16,
    evy: u16,
)
    ensures
        ({
            let front = stack.top_color(backdrop);
            let behind = stack.second_color(backdrop);
            let first = effects::is_first_target(c, stack.top_layer());
            let second = effects::is_second_target(c, stack.second_layer());
            let clear = stack.top matches Some(p) && p.semi_transparent;
            let r = super::composed(stack, backdrop, on, c, mode, eva, evb, evy);
            &&& !on ==> r == front
            &&& on && clear && second ==> r == super::blend_colors(front, behind, eva, evb)
            &&& on && mode is Alpha && first && second ==> r == super::blend_colors(
                front,
                behind,
                eva,
                evb,
            )
            &&& !second && mode is Alpha ==> r == front
            &&& !first && !clear ==> r == front
            &&& mode is Off && !clear ==> r == front
            &&& on && !clear && first && mode is BrightnessIncrease ==> r == super::brighten_color(
                front,
                evy,
            )
            &&& on && !clear && first && mode is BrightnessDecrease ==> r == super::darken_color(
                front,
                evy,
            )
        }),
{
}

/// The weights of the effects: bits 0 to 4 and 8 to 12, at most 16.
#[verifier::rlimit(50)]
pub proof fn effect_weights(s: Scene)
    ensures
        s.eva() == capped((s.io.bldalpha % 32) as u16),
        s.evb() == capped((s.io.bldalpha / 256 % 32) as u16),
        s.evy() == capped((s.io.bldy % 32) as u16),
{
    bits::half_fields(s.io.bldalpha, 0, 0, 0);
    bits::half_fields(s.io.bldy, 0, 0, 0);
}

/// A coordinate is in a window from `start` on and before `end`, around the
/// edge of the screen where `start` is the larger: the two ranges from one to
/// the other and back are each other's opposite.
#[verifier::rlimit(50)]
pub proof fn window_ranges(x: u16, start: u16, end: u16, max: u16)
    ensures
        start < end ==> (window::is_in_window_range(x, start, end, max) <==> start <= x < end),
        start != end ==> window::is_in_window_range(x, start, end, max)
            == !window::is_in_window_range(x, end, start, max),
        !window::is_in_window_range(x, start, start, max),
{
}

/// A window covers the columns and lines whose first is in the high byte and
/// whose end is in the low byte of its registers.
#[verifier::rlimit(50)]
pub proof fn windows_cover(io: IoRegisters, w: int, line: u16, x: int)
    requires
        0 <= w < 2,
        0 <= x < 240,
        io.winh[w] / 256 < io.winh[w] % 256,
        io.winv[w] / 256 < io.winv[w] % 256,
    ensures
        window::in_window(io, w, line, x) <==> io.winh[w] / 256 <= x < io.winh[w] % 256
            && io.winv[w] / 256 <= line < io.winv[w] % 256,
{
    bits::half_fields(io.winh[w], 0, 0, 0);
    bits::half_fields(io.winv[w], 0, 0, 0);
}

/// The six switches of a window, from the lowest bit: four backgrounds,
/// sprites, effects.
#[verifier::rlimit(50)]
pub proof fn window_switches(y: u8)
    ensures
        ({
            let f = WindowFlags::of_bits(y);
            &&& f.bg_enable[0] == (y % 2 == 1)
            &&& f.bg_enable[1] == (y / 2 % 2 == 1)
            &&& f.bg_enable[2] == (y / 4 % 2 == 1)
            &&& f.bg_enable[3] == (y / 8 % 2 == 1)
            &&& f.obj_enable == (y / 16 % 2 == 1)
            &&& f.effects_enable == (y / 32 % 2 == 1)
        }),
{
    bits::byte_fields(y, 0);
}

/// Where windows overlap window 0 decides, then window 1, then the sprite
/// window, and outside of all the outside switches hold. Bits 13 to 15 of the
/// display control turn the windows on.
#[verifier::rlimit(50)]
pub proof fn windows_take_precedence(io: IoRegisters, line: u16, obj_window: bool, x: int)
    ensures
        ({
            let f = window::flags_at(io, line, obj_window, x);
            let w0 = io.dispcnt / 0x2000 % 2 == 1 && window::in_window(io, 0, line, x);
            let w1 = io.dispcnt / 0x4000 % 2 == 1 && window::in_window(io, 1, line, x);
            let wo = io.dispcnt / 0x8000 % 2 == 1 && obj_window;
            &&& w0 ==> f == WindowFlags::of_bits((io.winin % 64) as u8)
            &&& !w0 && w1 ==> f == WindowFlags::of_bits((io.winin / 256 % 64) as u8)
            &&& !w0 && !w1 && wo ==> f == WindowFlags::of_bits((io.winout / 256 % 64) as u8)
            &&& !w0 && !w1 && !wo ==> f == WindowFlags::of_bits((io.winout % 64) as u8)
            &&& window::windows_on(io.dispcnt) <==> io.dispcnt / 0x2000 != 0
        }),
{
    display_fields(io.dispcnt);
    window_fields(io.winin);
    window_fields(io.winout);
}

proof fn window_fields(x: u16)
    ensures
        x & 0x3F == x % 64,
        (x >> 8) & 0x3F == x / 256 % 64,
{
    bits::half_fields(x, 0, 0, 0);
}

proof fn display_fields(x: u16)
    ensures
        x & 7 == x % 8,
        x & (1u16 << 4) != 0 <==> x / 16 % 2 == 1,
        x & (1u16 << 6) != 0 <==> x / 64 % 2 == 1,
        x & (1u16 << 7) != 0 <==> x / 128 % 2 == 1,
        x & (1u16 << 8) != 0 <==> x / 256 % 2 == 1,
        x & (1u16 << 9) != 0 <==> x / 512 % 2 == 1,
        x & (1u16 << 10) != 0 <==> x / 1024 % 2 == 1,
        x & (1u16 << 11) != 0 <==> x / 2048 % 2 == 1,
        x & (1u16 << 12) != 0 <==> x / 4096 % 2 == 1,
        x & (1u16 << 13) != 0 <==> x / 0x2000 % 2 == 1,
        x & (1u16 << 14) != 0 <==> x / 0x4000 % 2 == 1,
        x & (1u16 << 15) != 0 <==> x / 0x8000 % 2 == 1,
        x / 0x2000 != 0 <==> x / 0x2000 % 2 == 1 || x / 0x4000 % 2 == 1 || x / 0x8000 % 2 == 1,
{
    bits::half_fields(x, 0, 0, 0);
}

/// Which backgrounds a mode shows and how, where bits 8 to 11 of the display
/// control turn them on: mode 0 has four text layers, mode 1 two and affine
/// layer 2, mode 2 the two affine layers.
#[verifier::rlimit(50)]
pub proof fn modes_choose_layers(ppu: Ppu, s: Scene, line: u16, x: int)
    requires
        0 <= x,
    ensures
        ({
            let m = s.io.dispcnt % 8;
            let on = s.io.dispcnt / 256;
            let text = |i: int| bg::text_pixel(i, line, s.io, s.palette, s.vram, x);
            &&& on % 2 == 0 ==> ppu.background(s, line, 0, x) is None
            &&& on / 2 % 2 == 0 ==> ppu.background(s, line, 1, x) is None
            &&& on / 4 % 2 == 0 ==> ppu.background(s, line, 2, x) is None
            &&& on / 8 % 2 == 0 ==> ppu.background(s, line, 3, x) is None
            &&& on % 2 == 1 && m <= 1 ==> ppu.background(s, line, 0, x) == text(0)
            &&& on / 2 % 2 == 1 && m <= 1 ==> ppu.background(s, line, 1, x) == text(1)
            &&& on / 4 % 2 == 1 && m == 0 ==> ppu.background(s, line, 2, x) == text(2)
            &&& on / 8 % 2 == 1 && m == 0 ==> ppu.background(s, line, 3, x) == text(3)
            &&& m == 2 ==> ppu.background(s, line, 0, x) is None && ppu.background(
                s,
                line,
                1,
                x,
            ) is None
            &&& m == 1 ==> ppu.background(s, line, 3, x) is None
            &&& on / 4 % 2 == 1 && 1 <= m <= 2 ==> ppu.background(s, line, 2, x)
                == bg::affine_pixel(
                2,
                s.io,
                s.palette,
                s.vram,
                bg::stepped(ppu.bg2_ref_x, (s.io.bg2_affine[0] as i16) as i32, x as nat),
                bg::stepped(ppu.bg2_ref_y, (s.io.bg2_affine[2] as i16) as i32, x as nat),
            )
            &&& on / 8 % 2 == 1 && m == 2 ==> ppu.background(s, line, 3, x) == bg::affine_pixel(
                3,
                s.io,
                s.palette,
                s.vram,
                bg::stepped(ppu.bg3_ref_x, (s.io.bg3_affine[0] as i16) as i32, x as nat),
                bg::stepped(ppu.bg3_ref_y, (s.io.bg3_affine[2] as i16) as i32, x as nat),
            )
        }),
{
    display_fields(s.io.dispcnt);
}

/// A texture coordinate moves by its step with each column, modulo 2^32.
#[verifier::rlimit(50)]
pub proof fn texture_steps(start: i32, step: i32, n: nat)
    ensures
        (bg::stepped(start, step, n) - (start + n * step)) % 0x1_0000_0000 == 0,
    decreases n,
{
    if n > 0 {
        texture_steps(start, step, (n - 1) as nat);
        assert(n * step == (n - 1) * step + step) by (nonlinear_arith);
    } else {
        assert(0 * step == 0);
    }
}

proof fn wraps(c: u16)
    ensures
        c & (1u16 << 13) != 0 <==> c / 0x2000 % 2 == 1,
        c / 0x4000 <= 3,
{
    bits::half_fields(c, 0, 0, 0);
}

proof fn pixel_column(x: i32)
    ensures
        x >> 8 == x as int / 256,
{
    obj::shifted_range(x);
}

/// An affine map is 128, 256, 512 or 1024 pixels wide and high. With bit 13 set
/// it repeats in both directions; else nothing shows outside of it.
#[verifier::rlimit(50)]
pub proof fn affine_maps(
    layer: int,
    io: IoRegisters,
    palette: Seq<u8>,
    vram: Seq<u8>,
    x: i32,
    y: i32,
)
    requires
        0 <= layer < 4,
        palette.len() == 0x400,
    ensures
        ({
            let c = io.bgcnt[layer];
            let side: int = if c / 0x4000 == 0 {
                128
            } else if c / 0x4000 == 1 {
                256
            } else if c / 0x4000 == 2 {
                512
            } else {
                1024
            };
            let px = bg::affine_pixel(layer, io, palette, vram, x, y);
            let u = (x as int / 256) % side;
            let v = (y as int / 256) % side;
            let inside = 0 <= x < 256 * side && 0 <= y < 256 * side;
            let tile = byte_at(vram, c / 256 % 32 * 2048 + v / 8 * (side / 8) + u / 8);
            let index = byte_at(vram, c / 4 % 4 * 0x4000 + 64 * tile + v % 8 * 8 + u % 8);
            &&& c / 0x2000 % 2 == 0 && !inside ==> px is None
            &&& c / 0x2000 % 2 == 1 || inside ==> px == bg::layer_pixel(
                palette,
                index,
                2 * index,
                (c % 4) as u8,
                layer as u8,
            )
        }),
{
    let c = io.bgcnt[layer];
    tiles::control_fields(c);
    wraps(c);
    pixel_column(x);
    pixel_column(y);
}

/// The reference points of the affine layers move by the second column of their
/// matrix after each line of modes 1 and 2.
#[verifier::rlimit(50)]
pub proof fn reference_points_move(ppu: Ppu, io: IoRegisters)
    ensures
        ({
            let a = ppu.after_line(io);
            let m = io.dispcnt % 8;
            let moves = io.dispcnt / 128 % 2 == 0 && (m == 1 || m == 2);
            &&& !moves ==> a == ppu
            &&& moves ==> {
                &&& (a.bg2_ref_x - ppu.bg2_ref_x - (io.bg2_affine[1] as i16)) % 0x1_0000_0000 == 0
                &&& (a.bg2_ref_y - ppu.bg2_ref_y - (io.bg2_affine[3] as i16)) % 0x1_0000_0000 == 0
                &&& (a.bg3_ref_x - ppu.bg3_ref_x - (io.bg3_affine[1] as i16)) % 0x1_0000_0000 == 0
                &&& (a.bg3_ref_y - ppu.bg3_ref_y - (io.bg3_affine[3] as i16)) % 0x1_0000_0000 == 0
            }
        }),
{
    display_fields(io.dispcnt);
}

/// The bitmap modes. Mode 3 shows a colour of two bytes for each pixel, mode 4
/// a palette index of one byte, mode 5 colours in an area of 160 by 128 with
/// black around it. Bit 4 of the display control shows the second page of modes
/// 4 and 5, 40 KB further.
#[verifier::rlimit(50)]
pub proof fn bitmaps(s: Scene, line: u16, x: int, before: u16)
    requires
        line < 160,
        0 <= x < 240,
        s.vram.len() == 0x18000,
        s.palette.len() == 0x400,
    ensures
        ({
            let page = s.io.dispcnt / 16 % 2 * 0xA000;
            let three = 2 * (240 * line + x);
            let four = s.vram[page + 240 * line + x];
            let five = page + 2 * (160 * line + x);
            &&& s.mode3_pixel(line, x, before) == (s.vram[three] + 256 * s.vram[three + 1])
                % 0x8000
            &&& s.mode4_pixel(line, x) == (s.palette[2 * four] + 256 * s.palette[2 * four + 1])
                % 0x8000
            &&& x < 160 && line < 128 ==> s.mode5_pixel(line, x, before) == (s.vram[five] + 256
                * s.vram[five + 1]) % 0x8000
            &&& x >= 160 || line >= 128 ==> s.mode5_pixel(line, x, before) == 0
        }),
{
    let page = s.io.dispcnt / 16 % 2 * 0xA000;
    let three = 2 * (240 * line + x);
    let four = s.vram[page + 240 * line + x];
    let five = page + 2 * (160 * line + x);
    display_fields(s.io.dispcnt);
    colour(s.vram[three], s.vram[three + 1]);
    colour(s.palette[2 * four], s.palette[2 * four + 1]);
    if x < 160 && line < 128 {
        colour(s.vram[five], s.vram[five + 1]);
    }
}

proof fn colour(y: u8, z: u8)
    ensures
        bits::le16(y, z) & 0x7FFF == (y + 256 * z) % 0x8000,
{
    tiles::halfword(y, z);
    bits::half_fields(bits::le16(y, z), 0, 0, 0);
}

/// The backdrop is palette colour 0, and a blanked screen is white.
#[verifier::rlimit(50)]
pub proof fn backdrops(ppu: Ppu, s: Scene, line: u16, x: int, before: u16)
    requires
        s.palette.len() >= 2,
    ensures
        s.backdrop() == (s.palette[0] + 256 * s.palette[1]) % 0x8000,
        s.io.dispcnt / 128 % 2 == 1 ==> ppu.pixel(s, line, x, before) == 0x7FFF,
        s.io.dispcnt / 128 % 2 == 0 && s.io.dispcnt % 8 == 3 ==> ppu.pixel(s, line, x, before)
            == s.mode3_pixel(line, x, before),
        s.io.dispcnt / 128 % 2 == 0 && s.io.dispcnt % 8 == 4 ==> ppu.pixel(s, line, x, before)
            == s.mode4_pixel(line, x),
        s.io.dispcnt / 128 % 2 == 0 && s.io.dispcnt % 8 == 5 ==> ppu.pixel(s, line, x, before)
            == s.mode5_pixel(line, x, before),
        s.io.dispcnt / 128 % 2 == 0 && s.io.dispcnt % 8 <= 2 ==> ppu.pixel(s, line, x, before)
            == ppu.tile_pixel(s, line, x),
        s.io.dispcnt / 4096 % 2 == 0 ==> s.sprite(line, x) is None,
{
    display_fields(s.io.dispcnt);
    colour(s.palette[0], s.palette[1]);
}

/// Whether sprite `i` shows a pixel, of a better rank than sprite `j`: a lower
/// priority number, or the same and a lower index.
pub open spec fn outranks(oam: Seq<u8>, i: int, j: int) -> bool {
    let p = obj::obj_attr(oam, i).priority;
    let q = obj::obj_attr(oam, j).priority;
    p < q || p == q && i < j
}

/// What sprite `i` shows in a place.
#[verifier::opaque]
pub open spec fn shown_by(
    oam: Seq<u8>,
    vram: Seq<u8>,
    palette: Seq<u8>,
    mapping_1d: bool,
    line: u16,
    sx: int,
    i: int,
) -> Option<PixelInfo> {
    obj::obj_attr(oam, i).pixel(oam, vram, palette, mapping_1d, line, sx)
}

/// What is seen of the first `n` sprites.
#[verifier::opaque]
spec fn seen(
    oam: Seq<u8>,
    vram: Seq<u8>,
    palette: Seq<u8>,
    mapping_1d: bool,
    line: u16,
    sx: int,
    n: nat,
) -> Option<PixelInfo> {
    obj::obj_pixel(oam, vram, palette, mapping_1d, line, sx, None, n)
}

proof fn one_more_sprite(
    oam: Seq<u8>,
    vram: Seq<u8>,
    palette: Seq<u8>,
    mapping_1d: bool,
    line: u16,
    sx: int,
    n: nat,
)
    ensures
        seen(oam, vram, palette, mapping_1d, line, sx, 0) is None,
        n > 0 ==> {
            let m = (n - 1) as nat;
            let below = seen(oam, vram, palette, mapping_1d, line, sx, m);
            let px = shown_by(oam, vram, palette, mapping_1d, line, sx, m as int);
            seen(oam, vram, palette, mapping_1d, line, sx, n) == (if px is None || obj::covers(
                below,
                obj::obj_attr(oam, m as int).priority,
            ) {
                below
            } else {
                px
            })
        },
{
    reveal(shown_by);
    reveal(seen);
}

proof fn shown_priority(
    oam: Seq<u8>,
    vram: Seq<u8>,
    palette: Seq<u8>,
    mapping_1d: bool,
    line: u16,
    sx: int,
    i: int,
)
    ensures
        shown_by(oam, vram, palette, mapping_1d, line, sx, i) matches Some(p) ==> p.layer == 4
            && p.priority == obj::obj_attr(oam, i).priority,
{
    reveal(shown_by);
}

/// Of the first `n` sprites that show a pixel in a place, the one with the
/// lowest priority number is seen, and among those the first.
#[verifier::rlimit(50)]
pub proof fn sprites_are_ranked(
    oam: Seq<u8>,
    vram: Seq<u8>,
    palette: Seq<u8>,
    mapping_1d: bool,
    line: u16,
    sx: int,
    n: nat,
) -> (i: int)
    ensures
        ({
            let r = obj::obj_pixel(oam, vram, palette, mapping_1d, line, sx, None, n);
            &&& r is None ==> forall|j: int|
                0 <= j < n ==> #[trigger] shown_by(
                    oam,
                    vram,
                    palette,
                    mapping_1d,
                    line,
                    sx,
                    j,
                ) is None
            &&& r is Some ==> {
                &&& 0 <= i < n
                &&& shown_by(oam, vram, palette, mapping_1d, line, sx, i) == r
                &&& forall|j: int|
                    0 <= j < n && j != i && #[trigger] shown_by(
                        oam,
                        vram,
                        palette,
                        mapping_1d,
                        line,
                        sx,
                        j,
                    ) is Some ==> outranks(oam, i, j)
            }
        }),
{
    reveal(seen);
    ranked(oam, vram, palette, mapping_1d, line, sx, n)
}

proof fn ranked(
    oam: Seq<u8>,
    vram: Seq<u8>,
    palette: Seq<u8>,
    mapping_1d: bool,
    line: u16,
    sx: int,
    n: nat,
) -> (i: int)
    ensures
        ({
            let r = seen(oam, vram, palette, mapping_1d, line, sx, n);
            &&& r is None ==> forall|j: int|
                0 <= j < n ==> #[trigger] shown_by(
                    oam,
                    vram,
                    palette,
                    mapping_1d,
                    line,
                    sx,
                    j,
                ) is None
            &&& r is Some ==> {
                &&& 0 <= i < n
                &&& shown_by(oam, vram, palette, mapping_1d, line, sx, i) == r
                &&& forall|j: int|
                    0 <= j < n && j != i && #[trigger] shown_by(
                        oam,
                        vram,
                        palette,
                        mapping_1d,
                        line,
                        sx,
                        j,
                    ) is Some ==> outranks(oam, i, j)
            }
        }),
    decreases n,
{
    one_more_sprite(oam, vram, palette, mapping_1d, line, sx, n);
    if n == 0 {
        0
    } else {
        let m = n - 1;
        let i = ranked(oam, vram, palette, mapping_1d, line, sx, m as nat);
        let below = seen(oam, vram, palette, mapping_1d, line, sx, m as nat);
        shown_priority(oam, vram, palette, mapping_1d, line, sx, i);
        let px = shown_by(oam, vram, palette, mapping_1d, line, sx, m);
        if px is None || obj::covers(below, obj::obj_attr(oam, m).priority) {
            i
        } else {
            m
        }
    }
}

/// Which of two pixels is behind the other: the one with the larger priority
/// number; of two with the same, a background behind a sprite and, of two
/// backgrounds, the one with the larger number.
#[verifier::rlimit(50)]
pub proof fn layers_rank(p: PixelInfo, q: PixelInfo)
    requires
        p.layer <= 4,
        q.layer <= 4,
    ensures
        p.priority > q.priority ==> super::behind(p, q) && !super::behind(q, p),
        p.priority == q.priority && q.layer == 4 && p.layer < 4 ==> super::behind(p, q)
            && !super::behind(q, p),
        p.priority == q.priority && q.layer < p.layer && p.layer < 4 ==> super::behind(p, q)
            && !super::behind(q, p),
{
}

} // verus!
