//! The display and system-control registers.

use vstd::prelude::*;

use crate::bits;

verus! {

broadcast use bits::group_and_bounds;

/// The registers from 0x0400_0000 that are plain storage.
#[derive(Debug, Clone, Copy)]
#[verifier::ext_equal]
pub struct IoRegisters {
    pub dispcnt: u16,
    pub green_swap: u16,
    pub dispstat: u16,
    pub vcount: u16,
    pub bgcnt: [u16; 4],
    /// Horizontal and vertical scroll of the four backgrounds.
    pub bg_ofs: [[u16; 2]; 4],
    pub bg2_affine: [u16; 4],
    pub bg2x_latch: i32,
    pub bg2y_latch: i32,
    pub bg3_affine: [u16; 4],
    pub bg3x_latch: i32,
    pub bg3y_latch: i32,
    pub winh: [u16; 2],
    pub winv: [u16; 2],
    pub winin: u16,
    pub winout: u16,
    pub mosaic: u16,
    pub bldcnt: u16,
    pub bldalpha: u16,
    pub bldy: u16,
    pub sound_regs: [u8; 80],
    pub waitcnt: u16,
    pub postflg: u8,
    pub haltcnt: u8,
}

/// The signed reading of the low 28 bits of a value.
#[verifier::allow_in_spec]
pub fn sign_extend_28(val: u32) -> i32
    returns
        (if val & (1u32 << 27) != 0 {
            (val | 0xF000_0000) as i32
        } else {
            (val & 0x0FFF_FFFF) as i32
        }),
{
    if val & (1u32 << 27) != 0 {
        (val | 0xF000_0000) as i32
    } else {
        (val & 0x0FFF_FFFF) as i32
    }
}

/// A reference point with its low half replaced.
#[verifier::allow_in_spec]
pub fn ref_low(latch: i32, val: u16) -> i32
    returns
        sign_extend_28(((latch as u32) & 0xFFFF_0000) | (val as u32)),
{
    sign_extend_28(((latch as u32) & 0xFFFF_0000) | (val as u32))
}

/// A reference point with its high half replaced.
#[verifier::allow_in_spec]
pub fn ref_high(latch: i32, val: u16) -> i32
    returns
        sign_extend_28(((latch as u32) & 0xFFFF) | ((val as u32) << 16)),
{
    sign_extend_28(((latch as u32) & 0xFFFF) | ((val as u32) << 16))
}

#[verifier::allow_in_spec]
pub fn low_half(latch: i32) -> u16
    returns
        (latch as u32) as u16,
{
    (latch as u32) as u16
}

#[verifier::allow_in_spec]
pub fn high_half(latch: i32) -> u16
    returns
        ((latch as u32) >> 16) as u16,
{
    ((latch as u32) >> 16) as u16
}

impl IoRegisters {
    pub open spec fn zeroed() -> IoRegisters {
        IoRegisters {
            dispcnt: 0,
            green_swap: 0,
            dispstat: 0,
            vcount: 0,
            bgcnt: bits::filled(0),
            bg_ofs: bits::filled(bits::filled(0)),
            bg2_affine: bits::filled(0),
            bg2x_latch: 0,
            bg2y_latch: 0,
            bg3_affine: bits::filled(0),
            bg3x_latch: 0,
            bg3y_latch: 0,
            winh: bits::filled(0),
            winv: bits::filled(0),
            winin: 0,
            winout: 0,
            mosaic: 0,
            bldcnt: 0,
            bldalpha: 0,
            bldy: 0,
            sound_regs: bits::filled(0),
            waitcnt: 0,
            postflg: 0,
            haltcnt: 0,
        }
    }

    pub fn new() -> (io: IoRegisters)
        ensures
            io == IoRegisters::zeroed(),
    {
        IoRegisters {
            dispcnt: 0,
            green_swap: 0,
            dispstat: 0,
            vcount: 0,
            bgcnt: [0;4],
            bg_ofs: [[0;2];4],
            bg2_affine: [0;4],
            bg2x_latch: 0,
            bg2y_latch: 0,
            bg3_affine: [0;4],
            bg3x_latch: 0,
            bg3y_latch: 0,
            winh: [0;2],
            winv: [0;2],
            winin: 0,
            winout: 0,
            mosaic: 0,
            bldcnt: 0,
            bldalpha: 0,
            bldy: 0,
            sound_regs: [0;80],
            waitcnt: 0,
            postflg: 0,
            haltcnt: 0,
        }
    }

    pub open spec fn with_ref_low(self, bg: int, coord: int, val: u16) -> IoRegisters {
        if bg == 2 && coord == 0 {
            IoRegisters { bg2x_latch: ref_low(self.bg2x_latch, val), ..self }
        } else if bg == 2 && coord == 1 {
            IoRegisters { bg2y_latch: ref_low(self.bg2y_latch, val), ..self }
        } else if bg == 3 && coord == 0 {
            IoRegisters { bg3x_latch: ref_low(self.bg3x_latch, val), ..self }
        } else if bg == 3 && coord == 1 {
            IoRegisters { bg3y_latch: ref_low(self.bg3y_latch, val), ..self }
        } else {
            self
        }
    }

    /// The low half of an affine reference point: background 2 or 3,
    /// coordinate 0 (x) or 1 (y).
    pub fn write_bg_ref_low(&mut self, bg: usize, coord: usize, val: u16)
        ensures
            *final(self) == old(self).with_ref_low(bg as int, coord as int, val),
    {
        match (bg, coord) {
            (2, 0) => {
                self.bg2x_latch = ref_low(self.bg2x_latch, val);
            },
            (2, 1) => {
                self.bg2y_latch = ref_low(self.bg2y_latch, val);
            },
            (3, 0) => {
                self.bg3x_latch = ref_low(self.bg3x_latch, val);
            },
            (3, 1) => {
                self.bg3y_latch = ref_low(self.bg3y_latch, val);
            },
            _ => {},
        }
    }

    pub open spec fn with_ref_high(self, bg: int, coord: int, val: u16) -> IoRegisters {
        if bg == 2 && coord == 0 {
            IoRegisters { bg2x_latch: ref_high(self.bg2x_latch, val), ..self }
        } else if bg == 2 && coord == 1 {
            IoRegisters { bg2y_latch: ref_high(self.bg2y_latch, val), ..self }
        } else if bg == 3 && coord == 0 {
            IoRegisters { bg3x_latch: ref_high(self.bg3x_latch, val), ..self }
        } else if bg == 3 && coord == 1 {
            IoRegisters { bg3y_latch: ref_high(self.bg3y_latch, val), ..self }
        } else {
            self
        }
    }

    /// The high half of an affine reference point; bits above 27 are the sign.
    pub fn write_bg_ref_high(&mut self, bg: usize, coord: usize, val: u16)
        ensures
            *final(self) == old(self).with_ref_high(bg as int, coord as int, val),
    {
        match (bg, coord) {
            (2, 0) => {
                self.bg2x_latch = ref_high(self.bg2x_latch, val);
            },
            (2, 1) => {
                self.bg2y_latch = ref_high(self.bg2y_latch, val);
            },
            (3, 0) => {
                self.bg3x_latch = ref_high(self.bg3x_latch, val);
            },
            (3, 1) => {
                self.bg3y_latch = ref_high(self.bg3y_latch, val);
            },
            _ => {},
        }
    }

    /// What the display register at `offset` reads. Scroll, affine and
    /// brightness registers are write-only.
    pub open spec fn display_reg(self, offset: u32) -> u16 {
        if offset == 0x000 {
            self.dispcnt
        } else if offset == 0x002 {
            self.green_swap
        } else if offset == 0x004 {
            self.dispstat
        } else if offset == 0x006 {
            self.vcount
        } else if offset == 0x008 {
            self.bgcnt[0]
        } else if offset == 0x00A {
            self.bgcnt[1]
        } else if offset == 0x00C {
            self.bgcnt[2]
        } else if offset == 0x00E {
            self.bgcnt[3]
        } else if offset == 0x040 {
            self.winh[0]
        } else if offset == 0x042 {
            self.winh[1]
        } else if offset == 0x044 {
            self.winv[0]
        } else if offset == 0x046 {
            self.winv[1]
        } else if offset == 0x048 {
            self.winin
        } else if offset == 0x04A {
            self.winout
        } else if offset == 0x04C {
            self.mosaic
        } else if offset == 0x050 {
            self.bldcnt
        } else if offset == 0x052 {
            self.bldalpha
        } else {
            0
        }
    }

    /// Reads a display register.
    pub fn read_display(&self, offset: u32) -> (val: u16)
        ensures
            val == self.display_reg(offset),
    {
        match offset {
            0x000 => self.dispcnt,
            0x002 => self.green_swap,
            0x004 => self.dispstat,
            0x006 => self.vcount,
            0x008 => self.bgcnt[0],
            0x00A => self.bgcnt[1],
            0x00C => self.bgcnt[2],
            0x00E => self.bgcnt[3],
            0x040 => self.winh[0],
            0x042 => self.winh[1],
            0x044 => self.winv[0],
            0x046 => self.winv[1],
            0x048 => self.winin,
            0x04A => self.winout,
            0x04C => self.mosaic,
            0x050 => self.bldcnt,
            0x052 => self.bldalpha,
            _ => 0,
        }
    }

    /// What the display register at `offset` holds, whether or not it can be
    /// read.
    pub open spec fn display_held(self, offset: u32) -> u16 {
        if 0x010 <= offset <= 0x01E && offset % 2 == 0 {
            self.bg_ofs[(offset - 0x010) / 4][((offset - 0x010) / 2) % 2]
        } else if 0x020 <= offset <= 0x026 && offset % 2 == 0 {
            self.bg2_affine[(offset - 0x020) / 2]
        } else if 0x030 <= offset <= 0x036 && offset % 2 == 0 {
            self.bg3_affine[(offset - 0x030) / 2]
        } else if offset == 0x028 {
            low_half(self.bg2x_latch)
        } else if offset == 0x02A {
            high_half(self.bg2x_latch)
        } else if offset == 0x02C {
            low_half(self.bg2y_latch)
        } else if offset == 0x02E {
            high_half(self.bg2y_latch)
        } else if offset == 0x038 {
            low_half(self.bg3x_latch)
        } else if offset == 0x03A {
            high_half(self.bg3x_latch)
        } else if offset == 0x03C {
            low_half(self.bg3y_latch)
        } else if offset == 0x03E {
            high_half(self.bg3y_latch)
        } else if offset == 0x054 {
            self.bldy
        } else {
            self.display_reg(offset)
        }
    }

    /// What a display register holds.
    pub fn held_display(&self, offset: u32) -> (val: u16)
        ensures
            val == self.display_held(offset),
    {
        match offset {
            0x010 | 0x012 | 0x014 | 0x016 | 0x018 | 0x01A | 0x01C | 0x01E => {
                self.bg_ofs[((offset - 0x010) / 4) as usize][((offset - 0x010) / 2 % 2) as usize]
            },
            0x020 | 0x022 | 0x024 | 0x026 => self.bg2_affine[((offset - 0x020) / 2) as usize],
            0x030 | 0x032 | 0x034 | 0x036 => self.bg3_affine[((offset - 0x030) / 2) as usize],
            0x028 => low_half(self.bg2x_latch),
            0x02A => high_half(self.bg2x_latch),
            0x02C => low_half(self.bg2y_latch),
            0x02E => high_half(self.bg2y_latch),
            0x038 => low_half(self.bg3x_latch),
            0x03A => high_half(self.bg3x_latch),
            0x03C => low_half(self.bg3y_latch),
            0x03E => high_half(self.bg3y_latch),
            0x054 => self.bldy,
            _ => self.read_display(offset),
        }
    }

    pub open spec fn with_bgcnt(self, i: int, val: u16) -> IoRegisters {
        IoRegisters { bgcnt: bits::upd(self.bgcnt, i, val), ..self }
    }

    pub open spec fn with_scroll(self, bg: int, axis: int, val: u16) -> IoRegisters {
        IoRegisters {
            bg_ofs: bits::upd(
                self.bg_ofs,
                bg,
                bits::upd(self.bg_ofs[bg], axis, val & 0x1FF),
            ),
            ..self
        }
    }

    fn write_scroll(&mut self, bg: usize, axis: usize, val: u16)
        requires
            bg < 4,
            axis < 2,
        ensures
            *final(self) == old(self).with_scroll(bg as int, axis as int, val),
    {
        self.bg_ofs[bg][axis] = val & 0x1FF;
    }

    /// Control, status, scroll and affine registers, below 0x040.
    pub open spec fn background_written(self, offset: u32, val: u16) -> IoRegisters {
        if offset == 0x000 {
            IoRegisters { dispcnt: val, ..self }
        } else if offset == 0x002 {
            IoRegisters { green_swap: val, ..self }
        } else if offset == 0x004 {
            IoRegisters { dispstat: (self.dispstat & 0x07) | (val & !0x07u16), ..self }
        } else if offset == 0x008 {
            self.with_bgcnt(0, val)
        } else if offset == 0x00A {
            self.with_bgcnt(1, val)
        } else if offset == 0x00C {
            self.with_bgcnt(2, val)
        } else if offset == 0x00E {
            self.with_bgcnt(3, val)
        } else if 0x010 <= offset <= 0x01E && offset % 2 == 0 {
            self.with_scroll((offset - 0x010) / 4, ((offset - 0x010) / 2) % 2, val)
        } else if 0x020 <= offset <= 0x026 && offset % 2 == 0 {
            IoRegisters {
                bg2_affine: bits::upd(self.bg2_affine, (offset - 0x020) / 2, val),
                ..self
            }
        } else if offset == 0x028 {
            self.with_ref_low(2, 0, val)
        } else if offset == 0x02A {
            self.with_ref_high(2, 0, val)
        } else if offset == 0x02C {
            self.with_ref_low(2, 1, val)
        } else if offset == 0x02E {
            self.with_ref_high(2, 1, val)
        } else if 0x030 <= offset <= 0x036 && offset % 2 == 0 {
            IoRegisters {
                bg3_affine: bits::upd(self.bg3_affine, (offset - 0x030) / 2, val),
                ..self
            }
        } else if offset == 0x038 {
            self.with_ref_low(3, 0, val)
        } else if offset == 0x03A {
            self.with_ref_high(3, 0, val)
        } else if offset == 0x03C {
            self.with_ref_low(3, 1, val)
        } else if offset == 0x03E {
            self.with_ref_high(3, 1, val)
        } else {
            self
        }
    }

    /// Window and colour-effect registers, from 0x040.
    pub open spec fn effect_written(self, offset: u32, val: u16) -> IoRegisters {
        if offset == 0x040 {
            IoRegisters { winh: bits::upd(self.winh, 0, val), ..self }
        } else if offset == 0x042 {
            IoRegisters { winh: bits::upd(self.winh, 1, val), ..self }
        } else if offset == 0x044 {
            IoRegisters { winv: bits::upd(self.winv, 0, val), ..self }
        } else if offset == 0x046 {
            IoRegisters { winv: bits::upd(self.winv, 1, val), ..self }
        } else if offset == 0x048 {
            IoRegisters { winin: val, ..self }
        } else if offset == 0x04A {
            IoRegisters { winout: val, ..self }
        } else if offset == 0x04C {
            IoRegisters { mosaic: val, ..self }
        } else if offset == 0x050 {
            IoRegisters { bldcnt: val, ..self }
        } else if offset == 0x052 {
            IoRegisters { bldalpha: val, ..self }
        } else if offset == 0x054 {
            IoRegisters { bldy: val, ..self }
        } else {
            self
        }
    }

    /// The registers after `val` was written to the display register at
    /// `offset`. The status flags and the line counter are read-only, and
    /// scroll values have nine bits.
    pub open spec fn display_written(self, offset: u32, val: u16) -> IoRegisters {
        if offset < 0x040 {
            self.background_written(offset, val)
        } else {
            self.effect_written(offset, val)
        }
    }

    fn write_background(&mut self, offset: u32, val: u16)
        ensures
            *final(self) == old(self).background_written(offset, val),
    {
        match offset {
            0x000 => {
                self.dispcnt = val;
            },
            0x002 => {
                self.green_swap = val;
            },
            0x004 => {
                self.dispstat = (self.dispstat & 0x07) | (val & !0x07u16);
            },
            0x008 => {
                self.bgcnt[0] = val;
            },
            0x00A => {
                self.bgcnt[1] = val;
            },
            0x00C => {
                self.bgcnt[2] = val;
            },
            0x00E => {
                self.bgcnt[3] = val;
            },
            0x010 => self.write_scroll(0, 0, val),
            0x012 => self.write_scroll(0, 1, val),
            0x014 => self.write_scroll(1, 0, val),
            0x016 => self.write_scroll(1, 1, val),
            0x018 => self.write_scroll(2, 0, val),
            0x01A => self.write_scroll(2, 1, val),
            0x01C => self.write_scroll(3, 0, val),
            0x01E => self.write_scroll(3, 1, val),
            0x020 => {
                self.bg2_affine[0] = val;
            },
            0x022 => {
                self.bg2_affine[1] = val;
            },
            0x024 => {
                self.bg2_affine[2] = val;
            },
            0x026 => {
                self.bg2_affine[3] = val;
            },
            0x028 => self.write_bg_ref_low(2, 0, val),
            0x02A => self.write_bg_ref_high(2, 0, val),
            0x02C => self.write_bg_ref_low(2, 1, val),
            0x02E => self.write_bg_ref_high(2, 1, val),
            0x030 => {
                self.bg3_affine[0] = val;
            },
            0x032 => {
                self.bg3_affine[1] = val;
            },
            0x034 => {
                self.bg3_affine[2] = val;
            },
            0x036 => {
                self.bg3_affine[3] = val;
            },
            0x038 => self.write_bg_ref_low(3, 0, val),
            0x03A => self.write_bg_ref_high(3, 0, val),
            0x03C => self.write_bg_ref_low(3, 1, val),
            0x03E => self.write_bg_ref_high(3, 1, val),
            _ => {},
        }
    }

    fn write_effect(&mut self, offset: u32, val: u16)
        ensures
            *final(self) == old(self).effect_written(offset, val),
    {
        match offset {
            0x040 => {
                self.winh[0] = val;
            },
            0x042 => {
                self.winh[1] = val;
            },
            0x044 => {
                self.winv[0] = val;
            },
            0x046 => {
                self.winv[1] = val;
            },
            0x048 => {
                self.winin = val;
            },
            0x04A => {
                self.winout = val;
            },
            0x04C => {
                self.mosaic = val;
            },
            0x050 => {
                self.bldcnt = val;
            },
            0x052 => {
                self.bldalpha = val;
            },
            0x054 => {
                self.bldy = val;
            },
            _ => {},
        }
    }

    /// Writes a display register.
    pub fn write_display(&mut self, offset: u32, val: u16)
        ensures
            *final(self) == old(self).display_written(offset, val),
    {
        if offset < 0x040 {
            self.write_background(offset, val);
        } else {
            self.write_effect(offset, val);
        }
    }
}

/// The halves of a reference point combine to the signed reading of the 28 bits
/// that were written, in either order of writing.
pub proof fn reference_point_halves(latch: i32, low: u16, high: u16)
    ensures
        ref_high(ref_low(latch, low), high) == sign_extend_28(
            (low as u32) | ((high as u32) << 16),
        ),
        ref_low(ref_high(latch, high), low) == sign_extend_28(
            (low as u32) | ((high as u32) << 16),
        ),
        -0x800_0000 <= sign_extend_28((low as u32) | ((high as u32) << 16)) <= 0x7FF_FFFF,
{
    let l = low as u32;
    let h = high as u32;
    let x = latch as u32;
    let a = (x & 0xFFFF_0000) | l;
    let b = (x & 0xFFFF) | (h << 16);
    let w = l | (h << 16);
    extension_keeps(a);
    extension_keeps(b);
    extension_keeps(w);
    let c = sign_extend_28(a) as u32;
    let d = sign_extend_28(b) as u32;
    assert((c & 0xFFFF) | (h << 16) == w && ((d & 0xFFFF_0000) | l) & 0x0FFF_FFFF == w & 0x0FFF_FFFF)
        by (bit_vector)
        requires
            l <= 0xFFFF,
            a == (x & 0xFFFF_0000) | l,
            b == (x & 0xFFFF) | (h << 16),
            w == l | (h << 16),
            c & 0x0FFF_FFFF == a & 0x0FFF_FFFF,
            d & 0x0FFF_FFFF == b & 0x0FFF_FFFF,
    ;
    only_low_28_count((d & 0xFFFF_0000) | l, w);
}

/// Extending changes none of the low 28 bits and stays in range.
proof fn extension_keeps(x: u32)
    ensures
        (sign_extend_28(x) as u32) & 0x0FFF_FFFF == x & 0x0FFF_FFFF,
        -0x800_0000 <= sign_extend_28(x) <= 0x7FF_FFFF,
{
    assert((((x | 0xF000_0000) as i32) as u32) & 0x0FFF_FFFF == x & 0x0FFF_FFFF && (((x
        & 0x0FFF_FFFF) as i32) as u32) & 0x0FFF_FFFF == x & 0x0FFF_FFFF && (x & (1u32 << 27) != 0
        ==> -0x800_0000 <= ((x | 0xF000_0000) as i32) <= 0x7FF_FFFF) && (x & (1u32 << 27) == 0
        ==> -0x800_0000 <= ((x & 0x0FFF_FFFF) as i32) <= 0x7FF_FFFF)) by (bit_vector);
}

proof fn only_low_28_count(x: u32, y: u32)
    requires
        x & 0x0FFF_FFFF == y & 0x0FFF_FFFF,
    ensures
        sign_extend_28(x) == sign_extend_28(y),
{
    assert(x & (1u32 << 27) == y & (1u32 << 27) && x | 0xF000_0000 == y | 0xF000_0000)
        by (bit_vector)
        requires
            x & 0x0FFF_FFFF == y & 0x0FFF_FFFF,
    ;
}

} // verus!
