//! Sprites: 128 entries of object memory, plain or affine.

use vstd::prelude::*;

use crate::bits::{self, le16};
use crate::bus::io_regs::IoRegisters;

use super::PixelInfo;

verus! {

broadcast use bits::group_and_bounds;

/// Width and height in pixels by shape (square, wide, tall) and size.
pub const OBJ_SIZES: [[(u32, u32); 4]; 3] = [
    [(8, 8), (16, 16), (32, 32), (64, 64)],
    [(16, 8), (32, 8), (32, 16), (64, 32)],
    [(8, 16), (8, 32), (16, 32), (32, 64)],
];

/// A decoded entry of object memory.
#[derive(Debug, Clone, Copy, PartialEq, Eq, Structural)]
pub struct ObjAttr {
    pub y: i32,
    pub x: i32,
    /// 0 normal, 1 affine, 2 off, 3 affine at double size.
    pub mode: u8,
    /// 0 normal, 1 semi-transparent, 2 sprite window.
    pub gfx_mode: u8,
    pub mosaic: bool,
    pub bpp8: bool,
    pub shape: u8,
    pub size: u8,
    pub h_flip: bool,
    pub v_flip: bool,
    pub affine_param: u8,
    pub tile_num: u16,
    pub priority: u8,
    pub palette: u8,
    pub width: u32,
    pub height: u32,
}

/// The sprite dimensions of a shape and a size; the fourth shape counts as
/// tall.
#[verifier::allow_in_spec]
pub fn obj_size(shape: u8, size: u8) -> (u32, u32)
    requires
        size < 4,
    returns
        (if shape == 0 {
            if size == 0 {
                (8u32, 8u32)
            } else if size == 1 {
                (16u32, 16u32)
            } else if size == 2 {
                (32u32, 32u32)
            } else {
                (64u32, 64u32)
            }
        } else if shape == 1 {
            if size == 0 {
                (16u32, 8u32)
            } else if size == 1 {
                (32u32, 8u32)
            } else if size == 2 {
                (32u32, 16u32)
            } else {
                (64u32, 32u32)
            }
        } else {
            if size == 0 {
                (8u32, 16u32)
            } else if size == 1 {
                (8u32, 32u32)
            } else if size == 2 {
                (16u32, 32u32)
            } else {
                (32u32, 64u32)
            }
        }),
{
    let row: usize = if shape < 2 {
        shape as usize
    } else {
        2
    };
    OBJ_SIZES[row][size as usize]
}

/// The halfword at `i`.
pub open spec fn oam16(oam: Seq<u8>, i: int) -> u16 {
    le16(oam[i], oam[i + 1])
}

/// The decoded entry `index`.
pub open spec fn obj_attr(oam: Seq<u8>, index: int) -> ObjAttr {
    let attr0 = oam16(oam, index * 8);
    let attr1 = oam16(oam, index * 8 + 2);
    let attr2 = oam16(oam, index * 8 + 4);
    let mode = ((attr0 >> 8) & 3) as u8;
    let shape = ((attr0 >> 14) & 3) as u8;
    let size = ((attr1 >> 14) & 3) as u8;
    let x_raw = (attr1 & 0x1FF) as int;
    let affine = mode == 1 || mode == 3;
    ObjAttr {
        y: (attr0 & 0xFF) as i32,
        x: (if x_raw >= 256 {
            x_raw - 512
        } else {
            x_raw
        }) as i32,
        mode,
        gfx_mode: ((attr0 >> 10) & 3) as u8,
        mosaic: attr0 & (1u16 << 12) != 0,
        bpp8: attr0 & (1u16 << 13) != 0,
        shape,
        size,
        h_flip: !affine && attr1 & (1u16 << 12) != 0,
        v_flip: !affine && attr1 & (1u16 << 13) != 0,
        affine_param: if affine {
            ((attr1 >> 9) & 0x1F) as u8
        } else {
            0
        },
        tile_num: attr2 & 0x3FF,
        priority: ((attr2 >> 10) & 3) as u8,
        palette: ((attr2 >> 12) & 0xF) as u8,
        width: obj_size(shape, size).0,
        height: obj_size(shape, size).1,
    }
}

/// Decodes an entry of object memory.
pub fn parse_obj(oam: &[u8], index: usize) -> (obj: ObjAttr)
    requires
        index * 8 + 6 <= oam@.len(),
    ensures
        obj == obj_attr(oam@, index as int),
{
    assert(oam.len() == oam@.len());
    let base: usize = index * 8;
    let attr0: u16 = le16(oam[base], oam[base + 1]);
    let attr1: u16 = le16(oam[base + 2], oam[base + 3]);
    let attr2: u16 = le16(oam[base + 4], oam[base + 5]);
    let mode: u8 = ((attr0 >> 8) & 3) as u8;
    let shape: u8 = ((attr0 >> 14) & 3) as u8;
    let size: u8 = ((attr1 >> 14) & 3) as u8;
    let x_raw: i32 = (attr1 & 0x1FF) as i32;
    let x: i32 = if x_raw >= 256 {
        x_raw - 512
    } else {
        x_raw
    };
    let is_affine = mode == 1 || mode == 3;
    let (width, height) = obj_size(shape, size);
    ObjAttr {
        y: (attr0 & 0xFF) as i32,
        x,
        mode,
        gfx_mode: ((attr0 >> 10) & 3) as u8,
        mosaic: attr0 & (1u16 << 12) != 0,
        bpp8: attr0 & (1u16 << 13) != 0,
        shape,
        size,
        h_flip: !is_affine && attr1 & (1u16 << 12) != 0,
        v_flip: !is_affine && attr1 & (1u16 << 13) != 0,
        affine_param: if is_affine {
            ((attr1 >> 9) & 0x1F) as u8
        } else {
            0
        },
        tile_num: attr2 & 0x3FF,
        priority: ((attr2 >> 10) & 3) as u8,
        palette: ((attr2 >> 12) & 0xF) as u8,
        width,
        height,
    }
}

/// The matrix of an affine group: PA, PB, PC, PD.
pub open spec fn affine_group(oam: Seq<u8>, group: int) -> (i16, i16, i16, i16) {
    let base = group * 32;
    (
        oam16(oam, base + 6) as i16,
        oam16(oam, base + 14) as i16,
        oam16(oam, base + 22) as i16,
        oam16(oam, base + 30) as i16,
    )
}

fn read_affine_params(oam: &[u8], group: u8) -> (m: (i16, i16, i16, i16))
    requires
        group * 32 + 32 <= oam@.len(),
    ensures
        m == affine_group(oam@, group as int),
{
    let base: usize = group as usize * 32;
    (
        le16(oam[base + 6], oam[base + 7]) as i16,
        le16(oam[base + 14], oam[base + 15]) as i16,
        le16(oam[base + 22], oam[base + 23]) as i16,
        le16(oam[base + 30], oam[base + 31]) as i16,
    )
}

impl ObjAttr {
    pub open spec fn valid(self) -> bool {
        &&& self.width == 8 || self.width == 16 || self.width == 32 || self.width == 64
        &&& self.height == 8 || self.height == 16 || self.height == 32 || self.height == 64
        &&& 0 <= self.y < 256
        &&& -256 <= self.x < 256
        &&& self.tile_num < 1024
        &&& self.affine_param < 32
        &&& self.palette < 16
        &&& self.priority < 4
    }

    /// The width of the area the sprite covers on screen.
    #[verifier::allow_in_spec]
    pub fn bound_w(&self) -> u32
        requires
            self.width <= 64,
        returns
            (if self.mode == 3 { (self.width * 2) as u32 } else { self.width }),
    {
        if self.mode == 3 {
            self.width * 2
        } else {
            self.width
        }
    }

    /// The height of the area the sprite covers on screen.
    #[verifier::allow_in_spec]
    pub fn bound_h(&self) -> u32
        requires
            self.height <= 64,
        returns
            (if self.mode == 3 { (self.height * 2) as u32 } else { self.height }),
    {
        if self.mode == 3 {
            self.height * 2
        } else {
            self.height
        }
    }

    /// The sprite's row on `line`; positions from 160 on lie above the screen.
    pub open spec fn row(self, line: u16) -> int {
        line - (if self.y >= 160 {
            self.y - 256
        } else {
            self.y as int
        })
    }

    /// Whether the sprite is on and reaches `line`.
    pub open spec fn reaches(self, line: u16) -> bool {
        self.mode != 2 && 0 <= self.row(line) < self.bound_h()
    }

    /// Whether the sprite draws on `line`; those of the sprite window do not.
    pub open spec fn on_line(self, line: u16) -> bool {
        self.reaches(line) && self.gfx_mode != 2
    }

    /// Which texture pixel shows at column `lx` and row `ly` of the sprite.
    pub open spec fn texel(self, oam: Seq<u8>, lx: int, ly: int) -> Option<(int, int)> {
        if self.mode == 1 || self.mode == 3 {
            let (pa, pb, pc, pd) = affine_group(oam, self.affine_param as int);
            let cx = lx - self.bound_w() / 2;
            let cy = ly - self.bound_h() / 2;
            let tx = ((pa * cx + pb * cy) as i32 >> 8) + self.width / 2;
            let ty = ((pc * cx + pd * cy) as i32 >> 8) + self.height / 2;
            if 0 <= tx < self.width && 0 <= ty < self.height {
                Some((tx, ty))
            } else {
                None
            }
        } else {
            Some(
                (
                    if self.h_flip {
                        self.width - 1 - lx
                    } else {
                        lx
                    },
                    if self.v_flip {
                        self.height - 1 - ly
                    } else {
                        ly
                    },
                ),
            )
        }
    }

    /// Which 32-byte tile slot holds a texture pixel: in rows of the sprite's
    /// width (one-dimensional mapping) or in rows of 32 slots.
    pub open spec fn tile_slot(self, mapping_1d: bool, tx: int, ty: int) -> int {
        let column = if self.bpp8 {
            (tx / 8) * 2
        } else {
            tx / 8
        };
        let row = if !mapping_1d {
            (ty / 8) * 32
        } else if self.bpp8 {
            (ty / 8) * (self.width / 8) as int * 2
        } else {
            (ty / 8) * (self.width / 8) as int
        };
        self.tile_num + row + column
    }

    /// The palette index of a texture pixel.
    pub open spec fn index(self, vram: Seq<u8>, mapping_1d: bool, tx: int, ty: int) -> u8 {
        let slot = self.tile_slot(mapping_1d, tx, ty);
        let px = tx % 8;
        let py = ty % 8;
        if self.bpp8 {
            super::bg::byte_at(vram, 0x10000 + slot * 32 + py * 8 + px)
        } else {
            let addr = 0x10000 + slot * 32 + py * 4 + px / 2;
            if addr < vram.len() {
                super::bg::nibble(vram[addr], px)
            } else {
                0
            }
        }
    }

    /// Whether the pixel at screen column `sx` of `line` is in the sprite
    /// window because this sprite, one of the window's, shows there.
    pub open spec fn opens_window(
        self,
        oam: Seq<u8>,
        vram: Seq<u8>,
        mapping_1d: bool,
        line: u16,
        sx: int,
    ) -> bool {
        let lx = sx - self.x;
        &&& self.gfx_mode == 2
        &&& self.reaches(line)
        &&& 0 <= lx < self.bound_w()
        &&& self.texel(oam, lx, self.row(line)) matches Some((tx, ty)) && self.index(
            vram,
            mapping_1d,
            tx,
            ty,
        ) != 0
    }

    /// The sprite's pixel at screen column `sx` of `line`, if it draws one.
    pub open spec fn pixel(
        self,
        oam: Seq<u8>,
        vram: Seq<u8>,
        palette: Seq<u8>,
        mapping_1d: bool,
        line: u16,
        sx: int,
    ) -> Option<PixelInfo> {
        let lx = sx - self.x;
        if !self.on_line(line) || lx < 0 || lx >= self.bound_w() {
            None
        } else {
            match self.texel(oam, lx, self.row(line)) {
                None => None,
                Some((tx, ty)) => {
                    let index = self.index(vram, mapping_1d, tx, ty);
                    let offset = 0x200 + (if self.bpp8 {
                        index as int
                    } else {
                        self.palette * 16 + index
                    }) * 2;
                    if index == 0 {
                        None
                    } else {
                        match super::bg::palette_color(palette, offset) {
                            None => None,
                            Some(color) => Some(
                                PixelInfo {
                                    color,
                                    priority: self.priority,
                                    layer: 4,
                                    semi_transparent: self.gfx_mode == 1,
                                },
                            ),
                        }
                    }
                },
            }
        }
    }
}

/// Whether a pixel that is already there stays in front of a sprite.
pub open spec fn covers(existing: Option<PixelInfo>, priority: u8) -> bool {
    match existing {
        Some(p) => p.layer == 4 && p.priority <= priority,
        None => false,
    }
}

/// The line at column `sx` after the first `n` sprites: a sprite replaces what
/// is there unless a sprite pixel of the same or a better priority is.
pub open spec fn obj_pixel(
    oam: Seq<u8>,
    vram: Seq<u8>,
    palette: Seq<u8>,
    mapping_1d: bool,
    line: u16,
    sx: int,
    before: Option<PixelInfo>,
    n: nat,
) -> Option<PixelInfo>
    decreases n,
{
    if n == 0 {
        before
    } else {
        let below = obj_pixel(oam, vram, palette, mapping_1d, line, sx, before, (n - 1) as nat);
        let obj = obj_attr(oam, n - 1);
        match obj.pixel(oam, vram, palette, mapping_1d, line, sx) {
            Some(p) => if covers(below, obj.priority) {
                below
            } else {
                Some(p)
            },
            None => below,
        }
    }
}

/// Whether the pixel at column `sx` is in the sprite window: a sprite of the
/// window shows there.
pub open spec fn obj_window_at(
    oam: Seq<u8>,
    vram: Seq<u8>,
    mapping_1d: bool,
    line: u16,
    sx: int,
) -> bool {
    exists|i: int|
        0 <= i < 128 && #[trigger] obj_attr(oam, i).opens_window(oam, vram, mapping_1d, line, sx)
}

proof fn parsed_is_valid(oam: Seq<u8>, index: int)
    ensures
        obj_attr(oam, index).valid(),
{
}

fn fetch_texel(obj: &ObjAttr, oam: &[u8], lx: i32, ly: i32) -> (t: Option<(u32, u32)>)
    requires
        obj.valid(),
        oam@.len() >= 1024,
        0 <= lx < obj.bound_w(),
        0 <= ly < obj.bound_h(),
    ensures
        match t {
            Some((tx, ty)) => obj.texel(oam@, lx as int, ly as int) == Some((tx as int, ty as int))
                && tx < obj.width && ty < obj.height,
            None => obj.texel(oam@, lx as int, ly as int) is None,
        },
{
    if obj.mode == 1 || obj.mode == 3 {
        let (pa, pb, pc, pd) = read_affine_params(oam, obj.affine_param);
        let cx: i32 = lx - (obj.bound_w() / 2) as i32;
        let cy: i32 = ly - (obj.bound_h() / 2) as i32;
        proof {
            product_range(pa as int, cx as int);
            product_range(pb as int, cy as int);
            product_range(pc as int, cx as int);
            product_range(pd as int, cy as int);
        }
        let u: i32 = pa as i32 * cx + pb as i32 * cy;
        let v: i32 = pc as i32 * cx + pd as i32 * cy;
        proof {
            shifted_range(u);
            shifted_range(v);
        }
        let tx: i32 = (u >> 8) + (obj.width / 2) as i32;
        let ty: i32 = (v >> 8) + (obj.height / 2) as i32;
        if tx < 0 || ty < 0 || tx >= obj.width as i32 || ty >= obj.height as i32 {
            return None;
        }
        Some((tx as u32, ty as u32))
    } else {
        let tx: u32 = if obj.h_flip {
            obj.width - 1 - lx as u32
        } else {
            lx as u32
        };
        let ty: u32 = if obj.v_flip {
            obj.height - 1 - ly as u32
        } else {
            ly as u32
        };
        Some((tx, ty))
    }
}

pub(crate) proof fn product_range(p: int, c: int)
    by (nonlinear_arith)
    requires
        -32768 <= p <= 32767,
        -64 <= c <= 64,
    ensures
        -0x20_0000 <= p * c <= 0x20_0000,
{
}

pub(crate) proof fn shifted_range(u: i32)
    by (bit_vector)
    ensures
        -0x0080_0000 <= (u >> 8) <= 0x007F_FFFF,
        (u >> 8) * 256 <= u,
        u < (u >> 8) * 256 + 256,
{
}

fn fetch_index(obj: &ObjAttr, vram: &[u8], mapping_1d: bool, tx: u32, ty: u32) -> (index: u8)
    requires
        obj.valid(),
        tx < obj.width,
        ty < obj.height,
    ensures
        index == obj.index(vram@, mapping_1d, tx as int, ty as int),
{
    let tile_x: u32 = tx / 8;
    let tile_y: u32 = ty / 8;
    let px: usize = (tx % 8) as usize;
    let py: usize = (ty % 8) as usize;
    let base: u32 = obj.tile_num as u32;
    let across: u32 = obj.width / 8;
    assert(0 <= tile_y * across <= 56) by (nonlinear_arith)
        requires
            tile_y <= 7,
            across <= 8,
    ;
    let slot: u32 = if mapping_1d {
        if obj.bpp8 {
            base + tile_y * across * 2 + tile_x * 2
        } else {
            base + tile_y * across + tile_x
        }
    } else {
        if obj.bpp8 {
            base + tile_y * 32 + tile_x * 2
        } else {
            base + tile_y * 32 + tile_x
        }
    };
    assert(slot == obj.tile_slot(mapping_1d, tx as int, ty as int));
    if obj.bpp8 {
        let addr: usize = 0x10000 + slot as usize * 32 + py * 8 + px;
        if addr < vram.len() {
            vram[addr]
        } else {
            0
        }
    } else {
        let addr: usize = 0x10000 + slot as usize * 32 + py * 4 + px / 2;
        if addr < vram.len() {
            let byte: u8 = vram[addr];
            if px % 2 == 0 {
                byte & 0x0F
            } else {
                byte >> 4
            }
        } else {
            0
        }
    }
}

fn fetch_obj_pixel(
    obj: &ObjAttr,
    oam: &[u8],
    vram: &[u8],
    palette: &[u8],
    mapping_1d: bool,
    line: u16,
    ly: i32,
    sx: i32,
) -> (px: Option<PixelInfo>)
    requires
        obj.valid(),
        obj.on_line(line),
        ly == obj.row(line),
        oam@.len() >= 1024,
        0 <= sx < 240,
        0 <= sx - obj.x < obj.bound_w(),
    ensures
        px == obj.pixel(oam@, vram@, palette@, mapping_1d, line, sx as int),
{
    let (tx, ty) = match fetch_texel(obj, oam, sx - obj.x, ly) {
        Some(t) => t,
        None => {
            return None;
        },
    };
    let index: u8 = fetch_index(obj, vram, mapping_1d, tx, ty);
    if index == 0 {
        return None;
    }
    let offset: usize = if obj.bpp8 {
        0x200 + index as usize * 2
    } else {
        0x200 + (obj.palette as usize * 16 + index as usize) * 2
    };
    if offset + 1 < palette.len() {
        let color: u16 = le16(palette[offset], palette[offset + 1]) & 0x7FFF;
        Some(
            PixelInfo {
                color,
                priority: obj.priority,
                layer: 4,
                semi_transparent: obj.gfx_mode == 1,
            },
        )
    } else {
        None
    }
}

/// One sprite over a line.
fn draw_obj(
    obj: &ObjAttr,
    oam: &[u8],
    vram: &[u8],
    palette: &[u8],
    mapping_1d: bool,
    line: u16,
    output: &mut [Option<PixelInfo>; 240],
)
    requires
        obj.valid(),
        oam@.len() >= 1024,
    ensures
        forall|x: int|
            0 <= x < 240 ==> #[trigger] final(output)[x] == (match obj.pixel(
                oam@,
                vram@,
                palette@,
                mapping_1d,
                line,
                x,
            ) {
                Some(p) => if covers(old(output)[x], obj.priority) {
                    old(output)[x]
                } else {
                    Some(p)
                },
                None => old(output)[x],
            }),
{
    if obj.mode == 2 || obj.gfx_mode == 2 {
        return ;
    }
    let obj_y: i32 = if obj.y >= 160 {
        obj.y - 256
    } else {
        obj.y
    };
    let ly: i32 = line as i32 - obj_y;
    if ly < 0 || ly >= obj.bound_h() as i32 {
        return ;
    }
    let mut sx: usize = 0;
    while sx < 240
        invariant
            obj.valid(),
            obj.on_line(line),
            ly == obj.row(line),
            oam@.len() >= 1024,
            sx <= 240,
            forall|x: int|
                0 <= x < sx ==> #[trigger] output[x] == (match obj.pixel(
                    oam@,
                    vram@,
                    palette@,
                    mapping_1d,
                    line,
                    x,
                ) {
                    Some(p) => if covers(old(output)[x], obj.priority) {
                        old(output)[x]
                    } else {
                        Some(p)
                    },
                    None => old(output)[x],
                }),
            forall|x: int| sx <= x < 240 ==> #[trigger] output[x] == old(output)[x],
        decreases 240 - sx,
    {
        let lx: i32 = sx as i32 - obj.x;
        if lx >= 0 && lx < obj.bound_w() as i32 {
            let covered = match output[sx] {
                Some(p) => p.layer == 4 && p.priority <= obj.priority,
                None => false,
            };
            if !covered {
                let px = fetch_obj_pixel(obj, oam, vram, palette, mapping_1d, line, ly, sx as i32);
                if px.is_some() {
                    output[sx] = px;
                }
            }
        }
        sx = sx + 1;
    }
}

/// Renders the sprites of one line over `output`.
pub fn render_obj_line(
    line: u16,
    io: &IoRegisters,
    palette: &[u8],
    vram: &[u8],
    oam: &[u8],
    output: &mut [Option<PixelInfo>; 240],
)
    requires
        oam@.len() >= 1024,
    ensures
        forall|x: int|
            0 <= x < 240 ==> #[trigger] final(output)[x] == obj_pixel(
                oam@,
                vram@,
                palette@,
                io.dispcnt & (1u16 << 6) != 0,
                line,
                x,
                old(output)[x],
                128,
            ),
{
    let mapping_1d = io.dispcnt & (1u16 << 6) != 0;
    let mut i: usize = 0;
    while i < 128
        invariant
            i <= 128,
            oam@.len() >= 1024,
            mapping_1d == (io.dispcnt & (1u16 << 6) != 0),
            forall|x: int|
                0 <= x < 240 ==> #[trigger] output[x] == obj_pixel(
                    oam@,
                    vram@,
                    palette@,
                    mapping_1d,
                    line,
                    x,
                    old(output)[x],
                    i as nat,
                ),
        decreases 128 - i,
    {
        let obj = parse_obj(oam, i);
        proof {
            parsed_is_valid(oam@, i as int);
        }
        draw_obj(&obj, oam, vram, palette, mapping_1d, line, output);
        i = i + 1;
    }
}

/// Adds the pixels where a sprite of the window shows to `mask`.
fn mask_obj(
    obj: &ObjAttr,
    oam: &[u8],
    vram: &[u8],
    mapping_1d: bool,
    line: u16,
    mask: &mut [bool; 240],
)
    requires
        obj.valid(),
        oam@.len() >= 1024,
    ensures
        forall|x: int|
            0 <= x < 240 ==> #[trigger] final(mask)[x] == (old(mask)[x] || obj.opens_window(
                oam@,
                vram@,
                mapping_1d,
                line,
                x,
            )),
{
    if obj.mode == 2 || obj.gfx_mode != 2 {
        return ;
    }
    let obj_y: i32 = if obj.y >= 160 {
        obj.y - 256
    } else {
        obj.y
    };
    let ly: i32 = line as i32 - obj_y;
    if ly < 0 || ly >= obj.bound_h() as i32 {
        return ;
    }
    let mut sx: usize = 0;
    while sx < 240
        invariant
            obj.valid(),
            obj.reaches(line),
            obj.gfx_mode == 2,
            ly == obj.row(line),
            oam@.len() >= 1024,
            sx <= 240,
            forall|x: int|
                0 <= x < sx ==> #[trigger] mask[x] == (old(mask)[x] || obj.opens_window(
                    oam@,
                    vram@,
                    mapping_1d,
                    line,
                    x,
                )),
            forall|x: int| sx <= x < 240 ==> #[trigger] mask[x] == old(mask)[x],
        decreases 240 - sx,
    {
        let lx: i32 = sx as i32 - obj.x;
        if lx >= 0 && lx < obj.bound_w() as i32 {
            if let Some((tx, ty)) = fetch_texel(obj, oam, lx, ly) {
                if fetch_index(obj, vram, mapping_1d, tx, ty) != 0 {
                    mask[sx] = true;
                }
            }
        }
        sx = sx + 1;
    }
}

/// Which pixels of a line are in the sprite window.
pub fn render_obj_window_line(line: u16, io: &IoRegisters, vram: &[u8], oam: &[u8]) -> (mask:
    [bool; 240])
    requires
        oam@.len() >= 1024,
    ensures
        forall|x: int|
            0 <= x < 240 ==> #[trigger] mask[x] == obj_window_at(
                oam@,
                vram@,
                io.dispcnt & (1u16 << 6) != 0,
                line,
                x,
            ),
{
    let mapping_1d = io.dispcnt & (1u16 << 6) != 0;
    let mut mask: [bool; 240] = [false;240];
    let mut i: usize = 0;
    while i < 128
        invariant
            i <= 128,
            oam@.len() >= 1024,
            forall|x: int|
                0 <= x < 240 ==> #[trigger] mask[x] == (exists|k: int|
                    0 <= k < i && #[trigger] obj_attr(oam@, k).opens_window(
                        oam@,
                        vram@,
                        mapping_1d,
                        line,
                        x,
                    )),
        decreases 128 - i,
    {
        let obj = parse_obj(oam, i);
        proof {
            parsed_is_valid(oam@, i as int);
        }
        let ghost before = mask;
        mask_obj(&obj, oam, vram, mapping_1d, line, &mut mask);
        assert forall|x: int| 0 <= x < 240 implies #[trigger] mask[x] == (exists|k: int|
            0 <= k < i + 1 && #[trigger] obj_attr(oam@, k).opens_window(
                oam@,
                vram@,
                mapping_1d,
                line,
                x,
            )) by {
            assert(before[x] == (exists|k: int|
                0 <= k < i && #[trigger] obj_attr(oam@, k).opens_window(
                    oam@,
                    vram@,
                    mapping_1d,
                    line,
                    x,
                )));
            if obj_attr(oam@, i as int).opens_window(oam@, vram@, mapping_1d, line, x) {
                assert(mask[x]);
            }
        }
        i = i + 1;
    }
    mask
}

} // verus!
