//! The picture unit: renders one line of 240 pixels at a time.

use vstd::prelude::*;

use crate::bits::{self, le16};
use crate::bus::io_regs::IoRegisters;

use self::effects::{
    alpha_blend, brightness_decrease, brightness_increase, is_first_target, is_second_target,
    BlendMode,
};
use self::window::WindowFlags;

pub mod bg;
pub mod effects;
pub mod laws;
pub mod obj;
pub mod screen;
pub mod tiles;
pub mod window;

verus! {

broadcast use bits::group_and_bounds;

pub const SCREEN_WIDTH: usize = 240;

pub const SCREEN_HEIGHT: usize = 160;

/// A pixel of a layer.
#[derive(Debug, Clone, Copy, PartialEq, Eq, Structural)]
pub struct PixelInfo {
    /// 15-bit colour.
    pub color: u16,
    /// 0 is in front.
    pub priority: u8,
    /// 0 to 3 a background, 4 a sprite.
    pub layer: u8,
    /// Whether a sprite pixel is semi-transparent.
    pub semi_transparent: bool,
}

/// The current reference points of the two affine backgrounds.
#[derive(Debug, Clone, Copy, PartialEq, Eq, Structural)]
pub struct Ppu {
    pub bg2_ref_x: i32,
    pub bg2_ref_y: i32,
    pub bg3_ref_x: i32,
    pub bg3_ref_y: i32,
}

/// What is found at one pixel: the front layer and the one behind it.
pub struct Stack {
    pub top: Option<PixelInfo>,
    pub second: Option<PixelInfo>,
}

/// Whether a pixel goes behind `t`: by priority, then sprites before
/// backgrounds, then the lower layer first.
#[verifier::allow_in_spec]
pub fn behind(px: PixelInfo, t: PixelInfo) -> bool
    returns
        (if px.priority != t.priority {
            px.priority > t.priority
        } else if (px.layer == 4) != (t.layer == 4) {
            t.layer == 4
        } else {
            px.layer >= t.layer
        }),
{
    if px.priority != t.priority {
        px.priority > t.priority
    } else if (px.layer == 4) != (t.layer == 4) {
        t.layer == 4
    } else {
        px.layer >= t.layer
    }
}

impl Stack {
    /// The stack with one more pixel in it.
    pub open spec fn inserted(self, px: Option<PixelInfo>) -> Stack {
        match px {
            None => self,
            Some(p) => match self.top {
                None => Stack { top: Some(p), second: None },
                Some(t) => if !behind(p, t) {
                    Stack { top: Some(p), second: self.top }
                } else {
                    match self.second {
                        None => Stack { second: Some(p), ..self },
                        Some(s) => if !behind(p, s) {
                            Stack { second: Some(p), ..self }
                        } else {
                            self
                        },
                    }
                },
            },
        }
    }

    pub open spec fn top_color(self, backdrop: u16) -> u16 {
        match self.top {
            Some(p) => p.color,
            None => backdrop,
        }
    }

    /// The layer in front; 5 is the backdrop.
    pub open spec fn top_layer(self) -> u8 {
        match self.top {
            Some(p) => p.layer,
            None => 5,
        }
    }

    pub open spec fn second_color(self, backdrop: u16) -> u16 {
        match self.second {
            Some(p) => p.color,
            None => backdrop,
        }
    }

    pub open spec fn second_layer(self) -> u8 {
        match self.second {
            Some(p) => p.layer,
            None => 5,
        }
    }
}

/// The stack of a pixel: the sprite first, then the backgrounds, each if its
/// window flag shows it.
pub open spec fn pixel_stack(
    bgs: [Option<PixelInfo>; 4],
    obj: Option<PixelInfo>,
    flags: WindowFlags,
) -> Stack {
    Stack { top: None, second: None }.inserted(
        if flags.obj_enable {
            obj
        } else {
            None
        },
    ).inserted(
        if flags.bg_enable[0] {
            bgs[0]
        } else {
            None
        },
    ).inserted(
        if flags.bg_enable[1] {
            bgs[1]
        } else {
            None
        },
    ).inserted(
        if flags.bg_enable[2] {
            bgs[2]
        } else {
            None
        },
    ).inserted(
        if flags.bg_enable[3] {
            bgs[3]
        } else {
            None
        },
    )
}

pub open spec fn blend_colors(c1: u16, c2: u16, eva: u16, evb: u16) -> u16 {
    effects::rgb(
        effects::blended(effects::red(c1), effects::red(c2), eva, evb),
        effects::blended(effects::green(c1), effects::green(c2), eva, evb),
        effects::blended(effects::blue(c1), effects::blue(c2), eva, evb),
    )
}

pub open spec fn brighten_color(c: u16, evy: u16) -> u16 {
    effects::rgb(
        effects::brightened(effects::red(c), evy),
        effects::brightened(effects::green(c), evy),
        effects::brightened(effects::blue(c), evy),
    )
}

pub open spec fn darken_color(c: u16, evy: u16) -> u16 {
    effects::rgb(
        effects::darkened(effects::red(c), evy),
        effects::darkened(effects::green(c), evy),
        effects::darkened(effects::blue(c), evy),
    )
}

/// The colour of a pixel: the front layer, after the colour effect that
/// applies. A semi-transparent sprite over a second target always blends.
pub open spec fn composed(
    stack: Stack,
    backdrop: u16,
    effects_enable: bool,
    bldcnt: u16,
    mode: BlendMode,
    eva: u16,
    evb: u16,
    evy: u16,
) -> u16 {
    let color = stack.top_color(backdrop);
    let over = stack.second_color(backdrop);
    let first = is_first_target(bldcnt, stack.top_layer());
    let second = is_second_target(bldcnt, stack.second_layer());
    let translucent = match stack.top {
        Some(p) => p.semi_transparent,
        None => false,
    };
    if !effects_enable {
        color
    } else if translucent && second {
        blend_colors(color, over, eva, evb)
    } else {
        match mode {
            BlendMode::Off => color,
            BlendMode::Alpha => if first && second {
                blend_colors(color, over, eva, evb)
            } else {
                color
            },
            BlendMode::BrightnessIncrease => if first {
                brighten_color(color, evy)
            } else {
                color
            },
            BlendMode::BrightnessDecrease => if first {
                darken_color(color, evy)
            } else {
                color
            },
        }
    }
}

fn insert(stack: &mut Stack, px: Option<PixelInfo>)
    ensures
        *final(stack) == old(stack).inserted(px),
{
    let p = match px {
        None => {
            return ;
        },
        Some(p) => p,
    };
    let t = match stack.top {
        None => {
            stack.top = Some(p);
            stack.second = None;
            return ;
        },
        Some(t) => t,
    };
    if !behind(p, t) {
        stack.second = stack.top;
        stack.top = Some(p);
    } else {
        let replaces = match stack.second {
            None => true,
            Some(s) => !behind(p, s),
        };
        if replaces {
            stack.second = Some(p);
        }
    }
}

/// The pixel of a background line, if the line was rendered.
pub open spec fn line_pixel(line: Option<[Option<PixelInfo>; 240]>, x: int) -> Option<PixelInfo> {
    match line {
        Some(l) => l[x],
        None => None,
    }
}

fn visible(line: &Option<[Option<PixelInfo>; 240]>, x: usize, show: bool) -> (px: Option<PixelInfo>)
    requires
        x < 240,
    ensures
        px == (if show {
            line_pixel(*line, x as int)
        } else {
            None
        }),
{
    if show {
        match line {
            Some(l) => l[x],
            None => None,
        }
    } else {
        None
    }
}

/// What each background shows on its line, by display mode: 1 a text layer, 2
/// an affine layer, 0 nothing.
#[verifier::allow_in_spec]
pub fn layer_kind(mode: u16, bgi: usize) -> u8
    returns
        (if mode == 0 && bgi <= 3 {
            1u8
        } else if mode == 1 && bgi <= 1 {
            1u8
        } else if mode == 1 && bgi == 2 {
            2u8
        } else if mode == 2 && (bgi == 2 || bgi == 3) {
            2u8
        } else {
            0u8
        }),
{
    match mode {
        0 => if bgi <= 3 {
            1
        } else {
            0
        },
        1 => match bgi {
            0 | 1 => 1,
            2 => 2,
            _ => 0,
        },
        2 => match bgi {
            2 | 3 => 2,
            _ => 0,
        },
        _ => 0,
    }
}

/// Where the memories that a line is rendered from come together.
#[verifier::ext_equal]
pub struct Scene {
    pub io: IoRegisters,
    pub palette: Seq<u8>,
    pub vram: Seq<u8>,
    pub oam: Seq<u8>,
}

impl Scene {
    /// The colour of palette entry 0.
    pub open spec fn backdrop(self) -> u16 {
        if self.palette.len() >= 2 {
            le16(self.palette[0], self.palette[1]) & 0x7FFF
        } else {
            0
        }
    }

    /// The window flags of a pixel.
    pub open spec fn flags(self, line: u16, x: int) -> WindowFlags {
        if window::windows_on(self.io.dispcnt) {
            window::flags_at(self.io, line, self.in_obj_window(line, x), x)
        } else {
            WindowFlags::everything()
        }
    }

    /// Whether column `x` is in the sprite window.
    pub open spec fn in_obj_window(self, line: u16, x: int) -> bool {
        self.io.dispcnt & (1u16 << 12) != 0 && obj::obj_window_at(
            self.oam,
            self.vram,
            self.io.dispcnt & (1u16 << 6) != 0,
            line,
            x,
        )
    }

    /// The sprite pixel at column `x`.
    pub open spec fn sprite(self, line: u16, x: int) -> Option<PixelInfo> {
        if self.io.dispcnt & (1u16 << 12) != 0 {
            obj::obj_pixel(
                self.oam,
                self.vram,
                self.palette,
                self.io.dispcnt & (1u16 << 6) != 0,
                line,
                x,
                None,
                128,
            )
        } else {
            None
        }
    }

    /// Blending coefficients: at most 16.
    pub open spec fn eva(self) -> u16 {
        effects::least((self.io.bldalpha & 0x1F) as int, 16) as u16
    }

    pub open spec fn evb(self) -> u16 {
        effects::least(((self.io.bldalpha >> 8) & 0x1F) as int, 16) as u16
    }

    pub open spec fn evy(self) -> u16 {
        effects::least((self.io.bldy & 0x1F) as int, 16) as u16
    }

    /// A pixel of the 240x160 16-bit bitmap mode; memory that ends early
    /// leaves `before`.
    pub open spec fn mode3_pixel(self, line: u16, x: int, before: u16) -> u16 {
        let offset = line * 480 + x * 2;
        if offset + 1 < self.vram.len() {
            le16(self.vram[offset], self.vram[offset + 1]) & 0x7FFF
        } else {
            before
        }
    }

    /// Where the selected frame of the double-buffered bitmap modes starts.
    pub open spec fn frame_base(self) -> int {
        if self.io.dispcnt & (1u16 << 4) != 0 {
            0xA000
        } else {
            0
        }
    }

    /// A pixel of the 240x160 palette bitmap mode.
    pub open spec fn mode4_pixel(self, line: u16, x: int) -> u16 {
        let index = self.vram[self.frame_base() + line * 240 + x];
        le16(self.palette[index * 2], self.palette[index * 2 + 1]) & 0x7FFF
    }

    /// A pixel of the 160x128 16-bit bitmap mode; the rest of the screen is
    /// black.
    pub open spec fn mode5_pixel(self, line: u16, x: int, before: u16) -> u16 {
        let offset = self.frame_base() + (line * 160 + x) * 2;
        if line >= 128 || x >= 160 {
            0
        } else if offset + 1 < self.vram.len() {
            le16(self.vram[offset], self.vram[offset + 1]) & 0x7FFF
        } else {
            before
        }
    }
}

impl Ppu {
    pub fn new() -> (p: Ppu)
        ensures
            p == (Ppu { bg2_ref_x: 0, bg2_ref_y: 0, bg3_ref_x: 0, bg3_ref_y: 0 }),
    {
        Ppu { bg2_ref_x: 0, bg2_ref_y: 0, bg3_ref_x: 0, bg3_ref_y: 0 }
    }

    /// The pixel of background `bgi` at column `x`.
    pub open spec fn background(self, s: Scene, line: u16, bgi: int, x: int) -> Option<PixelInfo> {
        let kind = layer_kind(s.io.dispcnt & 7, bgi as usize);
        if s.io.dispcnt & (1u16 << ((8 + bgi) as usize)) == 0 {
            None
        } else if kind == 1 {
            bg::text_pixel(bgi, line, s.io, s.palette, s.vram, x)
        } else if kind == 2 {
            let m = bg::get_affine_params(bgi as usize, &s.io);
            let start = if bgi == 2 {
                (self.bg2_ref_x, self.bg2_ref_y)
            } else {
                (self.bg3_ref_x, self.bg3_ref_y)
            };
            bg::affine_pixel(
                bgi,
                s.io,
                s.palette,
                s.vram,
                bg::stepped(start.0, m.0 as i32, x as nat),
                bg::stepped(start.1, m.2 as i32, x as nat),
            )
        } else {
            None
        }
    }

    /// A pixel of a tiled mode.
    pub open spec fn tile_pixel(self, s: Scene, line: u16, x: int) -> u16 {
        let flags = s.flags(line, x);
        composed(
            pixel_stack(
                [
                    self.background(s, line, 0, x),
                    self.background(s, line, 1, x),
                    self.background(s, line, 2, x),
                    self.background(s, line, 3, x),
                ],
                s.sprite(line, x),
                flags,
            ),
            s.backdrop(),
            flags.effects_enable,
            s.io.bldcnt,
            BlendMode::from_bldcnt(s.io.bldcnt),
            s.eva(),
            s.evb(),
            s.evy(),
        )
    }

    /// The colour of pixel `x` of a line, by display mode; `before` is what
    /// the picture held there.
    pub open spec fn pixel(self, s: Scene, line: u16, x: int, before: u16) -> u16 {
        let mode = s.io.dispcnt & 7;
        if s.io.dispcnt & (1u16 << 7) != 0 {
            0x7FFF
        } else if mode <= 2 {
            self.tile_pixel(s, line, x)
        } else if mode == 3 {
            s.mode3_pixel(line, x, before)
        } else if mode == 4 {
            s.mode4_pixel(line, x)
        } else if mode == 5 {
            s.mode5_pixel(line, x, before)
        } else {
            0
        }
    }

    /// The picture after a line was rendered into it.
    pub open spec fn painted(self, s: Scene, line: u16, picture: Seq<u16>) -> Seq<u16> {
        let start = line * 240;
        Seq::new(
            picture.len(),
            |i: int|
                if start <= i < start + 240 {
                    self.pixel(s, line, i - start, picture[i])
                } else {
                    picture[i]
                },
        )
    }

    pub open spec fn refs_advanced(self, io: IoRegisters) -> Ppu {
        let m2 = bg::get_affine_params(2, &io);
        let m3 = bg::get_affine_params(3, &io);
        Ppu {
            bg2_ref_x: self.bg2_ref_x.wrapping_add(m2.1 as i32),
            bg2_ref_y: self.bg2_ref_y.wrapping_add(m2.3 as i32),
            bg3_ref_x: self.bg3_ref_x.wrapping_add(m3.1 as i32),
            bg3_ref_y: self.bg3_ref_y.wrapping_add(m3.3 as i32),
        }
    }

    /// The unit after a line: in the affine modes the reference points move
    /// on to the next line.
    pub open spec fn after_line(self, io: IoRegisters) -> Ppu {
        let mode = io.dispcnt & 7;
        if io.dispcnt & (1u16 << 7) == 0 && (mode == 1 || mode == 2) {
            self.refs_advanced(io)
        } else {
            self
        }
    }

    /// Whether the memories reach as far as the mode reads without looking.
    pub open spec fn can_render(s: Scene, line: u16) -> bool {
        let mode = s.io.dispcnt & 7;
        s.io.dispcnt & (1u16 << 7) == 0 ==> {
            &&& mode <= 2 && s.io.dispcnt & (1u16 << 12) != 0 ==> s.oam.len() >= 1024
            &&& mode == 4 ==> s.vram.len() >= s.frame_base() + line * 240 + 240
                && s.palette.len() >= 512
        }
    }

    /// Renders one line into the picture.
    pub fn render_scanline(
        &mut self,
        line: u16,
        io: &IoRegisters,
        palette: &[u8],
        vram: &[u8],
        oam: &[u8],
        framebuffer: &mut [u16],
    )
        requires
            line * 240 + 240 <= old(framebuffer)@.len(),
            Ppu::can_render(
                (Scene { io: *io, palette: palette@, vram: vram@, oam: oam@ }),
                line,
            ),
        ensures
            final(framebuffer)@ == old(self).painted(
                (Scene { io: *io, palette: palette@, vram: vram@, oam: oam@ }),
                line,
                old(framebuffer)@,
            ),
            *final(self) == old(self).after_line(*io),
    {
        let ghost s = Scene { io: *io, palette: palette@, vram: vram@, oam: oam@ };
        let mode: u16 = io.dispcnt & 0x07;
        let forced_blank = io.dispcnt & (1u16 << 7) != 0;
        if !forced_blank && mode <= 2 {
            self.render_tile_mode(line, io, palette, vram, oam, framebuffer);
        } else {
            let row_start: usize = line as usize * 240;
            let mut x: usize = 0;
            while x < 240
                invariant
                    x <= 240,
                    row_start == line * 240,
                    row_start + 240 <= old(framebuffer)@.len(),
                    s == (Scene { io: *io, palette: palette@, vram: vram@, oam: oam@ }),
                    Ppu::can_render(s, line),
                    mode == io.dispcnt & 7,
                    forced_blank == (io.dispcnt & (1u16 << 7) != 0),
                    forced_blank || mode > 2,
                    *self == *old(self),
                    framebuffer@.len() == old(framebuffer)@.len(),
                    forall|i: int|
                        0 <= i < framebuffer@.len() ==> #[trigger] framebuffer@[i] == (if row_start
                            <= i < row_start + x {
                            self.pixel(s, line, i - row_start, old(framebuffer)@[i])
                        } else {
                            old(framebuffer)@[i]
                        }),
                decreases 240 - x,
            {
                let before: u16 = framebuffer[row_start + x];
                let color: u16 = if forced_blank {
                    0x7FFF
                } else {
                    match mode {
                        3 => mode3_color(line, vram, x, before),
                        4 => mode4_color(line, io, palette, vram, x),
                        5 => mode5_color(line, io, vram, x, before),
                        _ => 0,
                    }
                };
                framebuffer[row_start + x] = color;
                x = x + 1;
            }
            assert(framebuffer@ =~= self.painted(s, line, old(framebuffer)@));
        }
        if !forced_blank && (mode == 1 || mode == 2) {
            self.advance_affine_refs(io);
        }
    }

    /// Renders a line of a tiled mode: backgrounds, sprites, windows, effects.
    fn render_tile_mode(
        &self,
        line: u16,
        io: &IoRegisters,
        palette: &[u8],
        vram: &[u8],
        oam: &[u8],
        framebuffer: &mut [u16],
    )
        requires
            line * 240 + 240 <= old(framebuffer)@.len(),
            io.dispcnt & (1u16 << 7) == 0,
            io.dispcnt & 7 <= 2,
            io.dispcnt & (1u16 << 12) != 0 ==> oam@.len() >= 1024,
        ensures
            final(framebuffer)@ == self.painted(
                (Scene { io: *io, palette: palette@, vram: vram@, oam: oam@ }),
                line,
                old(framebuffer)@,
            ),
    {
        let ghost s = Scene { io: *io, palette: palette@, vram: vram@, oam: oam@ };
        let row_start: usize = line as usize * 240;
        let backdrop: u16 = if palette.len() >= 2 {
            le16(palette[0], palette[1]) & 0x7FFF
        } else {
            0
        };
        let bg_lines = [
            self.background_line(0, line, io, palette, vram),
            self.background_line(1, line, io, palette, vram),
            self.background_line(2, line, io, palette, vram),
            self.background_line(3, line, io, palette, vram),
        ];
        let mut obj_line: [Option<PixelInfo>; 240] = [None;240];
        let mut obj_window_mask: [bool; 240] = [false;240];
        if io.dispcnt & (1u16 << 12) != 0 {
            obj::render_obj_line(line, io, palette, vram, oam, &mut obj_line);
            obj_window_mask = obj::render_obj_window_line(line, io, vram, oam);
        }
        let window_line = window::compute_window_line(line, io, &obj_window_mask);
        let blend_mode = BlendMode::from_bldcnt(io.bldcnt);
        let eva: u16 = at_most_16(io.bldalpha & 0x1F);
        let evb: u16 = at_most_16((io.bldalpha >> 8) & 0x1F);
        let evy: u16 = at_most_16(io.bldy & 0x1F);
        let mut x: usize = 0;
        while x < 240
            invariant
                x <= 240,
                row_start == line * 240,
                row_start + 240 <= old(framebuffer)@.len(),
                s == (Scene { io: *io, palette: palette@, vram: vram@, oam: oam@ }),
                io.dispcnt & (1u16 << 7) == 0,
                io.dispcnt & 7 <= 2,
                backdrop == s.backdrop(),
                blend_mode == BlendMode::from_bldcnt(io.bldcnt),
                eva == s.eva(),
                evb == s.evb(),
                evy == s.evy(),
                forall|k: int|
                    0 <= k < 240 ==> #[trigger] obj_window_mask[k] == s.in_obj_window(line, k),
                window_line is Some <==> window::windows_on(io.dispcnt),
                window_line matches Some(f) ==> forall|k: int|
                    0 <= k < 240 ==> #[trigger] f[k] == window::flags_at(
                        *io,
                        line,
                        obj_window_mask[k],
                        k,
                    ),
                forall|b: int, k: int|
                    0 <= b < 4 && 0 <= k < 240 ==> #[trigger] line_pixel(bg_lines[b], k)
                        == self.background(s, line, b, k),
                forall|k: int| 0 <= k < 240 ==> #[trigger] obj_line[k] == s.sprite(line, k),
                framebuffer@.len() == old(framebuffer)@.len(),
                forall|i: int|
                    0 <= i < framebuffer@.len() ==> #[trigger] framebuffer@[i] == (if row_start <= i
                        < row_start + x {
                        self.tile_pixel(s, line, i - row_start)
                    } else {
                        old(framebuffer)@[i]
                    }),
            decreases 240 - x,
        {
            let win_flags = match &window_line {
                Some(wl) => wl[x],
                None => WindowFlags::all_enabled(),
            };
            assert(win_flags == s.flags(line, x as int));
            let color: u16 = self.composite_pixel_with_effects(
                x,
                &bg_lines,
                &obj_line,
                backdrop,
                &win_flags,
                io.bldcnt,
                blend_mode,
                eva,
                evb,
                evy,
            );
            proof {
                assert(line_pixel(bg_lines[0], x as int) == self.background(s, line, 0, x as int));
                assert(line_pixel(bg_lines[1], x as int) == self.background(s, line, 1, x as int));
                assert(line_pixel(bg_lines[2], x as int) == self.background(s, line, 2, x as int));
                assert(line_pixel(bg_lines[3], x as int) == self.background(s, line, 3, x as int));
                assert(color == self.tile_pixel(s, line, x as int));
            }
            framebuffer[row_start + x] = color;
            x = x + 1;
        }
        assert(framebuffer@ =~= self.painted(s, line, old(framebuffer)@));
    }

    /// One line of a background, if it is on in this mode.
    fn background_line(
        &self,
        bgi: usize,
        line: u16,
        io: &IoRegisters,
        palette: &[u8],
        vram: &[u8],
    ) -> (l: Option<[Option<PixelInfo>; 240]>)
        requires
            bgi < 4,
        ensures
            forall|oam: Seq<u8>, k: int|
                #![trigger self.background(
                    (Scene { io: *io, palette: palette@, vram: vram@, oam }),
                    line,
                    bgi as int,
                    k,
                )]
                0 <= k < 240 ==> line_pixel(l, k) == self.background(
                    (Scene { io: *io, palette: palette@, vram: vram@, oam }),
                    line,
                    bgi as int,
                    k,
                ),
    {
        if io.dispcnt & (1u16 << (8 + bgi)) == 0 {
            return None;
        }
        let kind: u8 = layer_kind(io.dispcnt & 7, bgi);
        let mut line_buf: [Option<PixelInfo>; 240] = [None;240];
        if kind == 1 {
            bg::render_text_bg_line(bgi, line, io, palette, vram, &mut line_buf);
            Some(line_buf)
        } else if kind == 2 {
            let (ref_x, ref_y) = if bgi == 2 {
                (self.bg2_ref_x, self.bg2_ref_y)
            } else {
                (self.bg3_ref_x, self.bg3_ref_y)
            };
            bg::render_affine_bg_line(bgi, line, io, palette, vram, ref_x, ref_y, &mut line_buf);
            Some(line_buf)
        } else {
            None
        }
    }

    /// The colour of one pixel from the rendered layers.
    pub fn composite_pixel_with_effects(
        &self,
        x: usize,
        bg_lines: &[Option<[Option<PixelInfo>; 240]>; 4],
        obj_line: &[Option<PixelInfo>; 240],
        backdrop: u16,
        win_flags: &WindowFlags,
        bldcnt: u16,
        blend_mode: BlendMode,
        eva: u16,
        evb: u16,
        evy: u16,
    ) -> (color: u16)
        requires
            x < 240,
        ensures
            color == composed(
                pixel_stack(
                    [
                        line_pixel(bg_lines[0], x as int),
                        line_pixel(bg_lines[1], x as int),
                        line_pixel(bg_lines[2], x as int),
                        line_pixel(bg_lines[3], x as int),
                    ],
                    obj_line[x as int],
                    *win_flags,
                ),
                backdrop,
                win_flags.effects_enable,
                bldcnt,
                blend_mode,
                eva,
                evb,
                evy,
            ),
    {
        let stack = gather(x, bg_lines, obj_line, win_flags);
        apply_effect(
            &stack,
            backdrop,
            win_flags.effects_enable,
            bldcnt,
            blend_mode,
            eva,
            evb,
            evy,
        )
    }

    fn advance_affine_refs(&mut self, io: &IoRegisters)
        ensures
            *final(self) == old(self).refs_advanced(*io),
    {
        let (_, pb2, _, pd2) = bg::get_affine_params(2, io);
        self.bg2_ref_x = self.bg2_ref_x.wrapping_add(pb2 as i32);
        self.bg2_ref_y = self.bg2_ref_y.wrapping_add(pd2 as i32);
        let (_, pb3, _, pd3) = bg::get_affine_params(3, io);
        self.bg3_ref_x = self.bg3_ref_x.wrapping_add(pb3 as i32);
        self.bg3_ref_y = self.bg3_ref_y.wrapping_add(pd3 as i32);
    }

    /// Takes the reference points over from the registers.
    pub fn on_vblank(&mut self, io: &IoRegisters)
        ensures
            *final(self) == (Ppu {
                bg2_ref_x: io.bg2x_latch,
                bg2_ref_y: io.bg2y_latch,
                bg3_ref_x: io.bg3x_latch,
                bg3_ref_y: io.bg3y_latch,
            }),
    {
        self.bg2_ref_x = io.bg2x_latch;
        self.bg2_ref_y = io.bg2y_latch;
        self.bg3_ref_x = io.bg3x_latch;
        self.bg3_ref_y = io.bg3y_latch;
    }
}

/// The front layer and the one behind it at column `x`.
fn gather(
    x: usize,
    bg_lines: &[Option<[Option<PixelInfo>; 240]>; 4],
    obj_line: &[Option<PixelInfo>; 240],
    win_flags: &WindowFlags,
) -> (stack: Stack)
    requires
        x < 240,
    ensures
        stack == pixel_stack(
            [
                line_pixel(bg_lines[0], x as int),
                line_pixel(bg_lines[1], x as int),
                line_pixel(bg_lines[2], x as int),
                line_pixel(bg_lines[3], x as int),
            ],
            obj_line[x as int],
            *win_flags,
        ),
{
    let mut stack = Stack { top: None, second: None };
    let sprite = if win_flags.obj_enable {
        obj_line[x]
    } else {
        None
    };
    let b0 = visible(&bg_lines[0], x, win_flags.bg_enable[0]);
    let b1 = visible(&bg_lines[1], x, win_flags.bg_enable[1]);
    let b2 = visible(&bg_lines[2], x, win_flags.bg_enable[2]);
    let b3 = visible(&bg_lines[3], x, win_flags.bg_enable[3]);
    insert(&mut stack, sprite);
    insert(&mut stack, b0);
    insert(&mut stack, b1);
    insert(&mut stack, b2);
    insert(&mut stack, b3);
    stack
}

/// The colour that a stack of layers gives.
fn apply_effect(
    stack: &Stack,
    backdrop: u16,
    effects_enable: bool,
    bldcnt: u16,
    blend_mode: BlendMode,
    eva: u16,
    evb: u16,
    evy: u16,
) -> (color: u16)
    ensures
        color == composed(
            *stack,
            backdrop,
            effects_enable,
            bldcnt,
            blend_mode,
            eva,
            evb,
            evy,
        ),
{
    let (top_color, top_layer, translucent): (u16, u8, bool) = match stack.top {
        Some(p) => (p.color, p.layer, p.semi_transparent),
        None => (backdrop, 5, false),
    };
    let (second_color, second_layer): (u16, u8) = match stack.second {
        Some(p) => (p.color, p.layer),
        None => (backdrop, 5),
    };
    if !effects_enable {
        return top_color;
    }
    if translucent && is_second_target(bldcnt, second_layer) {
        return alpha_blend(top_color, second_color, eva, evb);
    }
    match blend_mode {
        BlendMode::Off => top_color,
        BlendMode::Alpha => {
            if is_first_target(bldcnt, top_layer) && is_second_target(bldcnt, second_layer) {
                alpha_blend(top_color, second_color, eva, evb)
            } else {
                top_color
            }
        },
        BlendMode::BrightnessIncrease => {
            if is_first_target(bldcnt, top_layer) {
                brightness_increase(top_color, evy)
            } else {
                top_color
            }
        },
        BlendMode::BrightnessDecrease => {
            if is_first_target(bldcnt, top_layer) {
                brightness_decrease(top_color, evy)
            } else {
                top_color
            }
        },
    }
}

fn at_most_16(v: u16) -> (r: u16)
    ensures
        r == effects::least(v as int, 16),
{
    if v <= 16 {
        v
    } else {
        16
    }
}

fn mode3_color(line: u16, vram: &[u8], x: usize, before: u16) -> (color: u16)
    requires
        x < 240,
    ensures
        forall|s: Scene|
            #![trigger s.mode3_pixel(line, x as int, before)]
            s.vram == vram@ ==> color == s.mode3_pixel(line, x as int, before),
{
    let offset: usize = line as usize * 480 + x * 2;
    if offset + 1 < vram.len() {
        le16(vram[offset], vram[offset + 1]) & 0x7FFF
    } else {
        before
    }
}

fn frame_base(io: &IoRegisters) -> (base: usize)
    ensures
        base == (if io.dispcnt & (1u16 << 4) != 0 {
            0xA000int
        } else {
            0
        }),
{
    if io.dispcnt & (1u16 << 4) != 0 {
        0xA000
    } else {
        0
    }
}

fn mode4_color(line: u16, io: &IoRegisters, palette: &[u8], vram: &[u8], x: usize) -> (color: u16)
    requires
        x < 240,
        palette@.len() >= 512,
        vram@.len() >= (if io.dispcnt & (1u16 << 4) != 0 {
            0xA000int
        } else {
            0
        }) + line * 240 + 240,
    ensures
        forall|s: Scene|
            #![trigger s.mode4_pixel(line, x as int)]
            s.vram == vram@ && s.palette == palette@ && s.io == *io ==> color == s.mode4_pixel(
                line,
                x as int,
            ),
{
    let index: usize = vram[frame_base(io) + line as usize * 240 + x] as usize;
    le16(palette[index * 2], palette[index * 2 + 1]) & 0x7FFF
}

fn mode5_color(line: u16, io: &IoRegisters, vram: &[u8], x: usize, before: u16) -> (color: u16)
    requires
        x < 240,
    ensures
        forall|s: Scene|
            #![trigger s.mode5_pixel(line, x as int, before)]
            s.vram == vram@ && s.io == *io ==> color == s.mode5_pixel(line, x as int, before),
{
    if line >= 128 || x >= 160 {
        return 0;
    }
    let offset: usize = frame_base(io) + (line as usize * 160 + x) * 2;
    if offset + 1 < vram.len() {
        le16(vram[offset], vram[offset + 1]) & 0x7FFF
    } else {
        before
    }
}

/// The front pixel of a stack is in front of everything that was put in, and
/// the one behind it is in front of everything else.
pub proof fn stack_top_is_front(
    bgs: [Option<PixelInfo>; 4],
    obj: Option<PixelInfo>,
    flags: WindowFlags,
    i: int,
)
    requires
        0 <= i < 4,
        flags.bg_enable[i],
        bgs[i] is Some,
        forall|k: int| 0 <= k < 4 ==> (#[trigger] bgs[k] matches Some(p) ==> p.layer == k),
        obj matches Some(p) ==> p.layer == 4,
    ensures
        ({
            let stack = pixel_stack(bgs, obj, flags);
            let t = stack.top;
            let s = stack.second;
            &&& t is Some
            &&& t->0 == bgs[i]->0 || behind(bgs[i]->0, t->0)
            &&& t->0 != bgs[i]->0 ==> s is Some && (s->0 == bgs[i]->0 || behind(
                bgs[i]->0,
                s->0,
            ))
            &&& flags.obj_enable && obj is Some ==> t->0 == obj->0 || behind(obj->0, t->0)
            &&& flags.obj_enable && obj is Some && t->0 != obj->0 ==> s is Some && (s->0 == obj->0
                || behind(obj->0, s->0))
        }),
{
    let o = shown(obj, flags.obj_enable);
    let q0 = shown(bgs[0], flags.bg_enable[0]);
    let q1 = shown(bgs[1], flags.bg_enable[1]);
    let q2 = shown(bgs[2], flags.bg_enable[2]);
    let q3 = shown(bgs[3], flags.bg_enable[3]);
    let s0 = Stack { top: None, second: None }.inserted(o);
    let s1 = s0.inserted(q0);
    let s2 = s1.inserted(q1);
    let s3 = s2.inserted(q2);
    insertion_keeps_order(s0, q0, 0, o);
    insertion_keeps_order(s1, q1, 1, o);
    insertion_keeps_order(s1, q1, 1, q0);
    insertion_keeps_order(s2, q2, 2, o);
    insertion_keeps_order(s2, q2, 2, q0);
    insertion_keeps_order(s2, q2, 2, q1);
    insertion_keeps_order(s3, q3, 3, o);
    insertion_keeps_order(s3, q3, 3, q0);
    insertion_keeps_order(s3, q3, 3, q1);
    insertion_keeps_order(s3, q3, 3, q2);
}

spec fn shown(px: Option<PixelInfo>, show: bool) -> Option<PixelInfo> {
    if show {
        px
    } else {
        None
    }
}

/// Whether the stack has a pixel at its place: in front, second, or behind
/// both.
spec fn places(stack: Stack, px: PixelInfo) -> bool {
    &&& stack.top matches Some(t) && (t == px || behind(px, t))
    &&& stack.top != Some(px) ==> (stack.second matches Some(s) && (s == px || behind(px, s)))
}

/// Whether the stack is in order and holds only the sprite and the backgrounds
/// below `n`.
spec fn orders(stack: Stack, n: int) -> bool {
    &&& stack.top matches Some(t) ==> t.layer == 4 || t.layer < n
    &&& stack.second matches Some(s) ==> (s.layer == 4 || s.layer < n) && (stack.top matches Some(t)
        && t.layer != s.layer && behind(s, t))
}

proof fn insertion_keeps_order(
    stack: Stack,
    px: Option<PixelInfo>,
    n: int,
    earlier: Option<PixelInfo>,
)
    requires
        0 <= n < 4,
        orders(stack, n),
        px matches Some(q) ==> q.layer == n,
        earlier matches Some(p) ==> places(stack, p) && (p.layer == 4 || p.layer < n),
    ensures
        orders(stack.inserted(px), n + 1),
        px matches Some(q) ==> places(stack.inserted(px), q),
        earlier matches Some(p) ==> places(stack.inserted(px), p),
{
}

} // verus!
