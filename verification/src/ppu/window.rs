//! Windows: which layers show at which pixel.

use vstd::prelude::*;

use crate::bits;
use crate::bus::io_regs::IoRegisters;

verus! {

broadcast use bits::group_and_bounds;

/// Which layers a pixel shows, and whether colour effects apply to it.
#[derive(Debug, Clone, Copy)]
#[verifier::ext_equal]
pub struct WindowFlags {
    pub bg_enable: [bool; 4],
    pub obj_enable: bool,
    pub effects_enable: bool,
}

impl WindowFlags {
    pub open spec fn of_bits(bits: u8) -> WindowFlags {
        WindowFlags {
            bg_enable: [
                bits & (1u8 << 0) != 0,
                bits & (1u8 << 1) != 0,
                bits & (1u8 << 2) != 0,
                bits & (1u8 << 3) != 0,
            ],
            obj_enable: bits & (1u8 << 4) != 0,
            effects_enable: bits & (1u8 << 5) != 0,
        }
    }

    /// The flags of a six-bit window control value.
    pub fn from_bits(bits: u8) -> (f: WindowFlags)
        ensures
            f == WindowFlags::of_bits(bits),
    {
        WindowFlags {
            bg_enable: [
                bits & (1u8 << 0) != 0,
                bits & (1u8 << 1) != 0,
                bits & (1u8 << 2) != 0,
                bits & (1u8 << 3) != 0,
            ],
            obj_enable: bits & (1u8 << 4) != 0,
            effects_enable: bits & (1u8 << 5) != 0,
        }
    }

    pub open spec fn everything() -> WindowFlags {
        WindowFlags {
            bg_enable: [true, true, true, true],
            obj_enable: true,
            effects_enable: true,
        }
    }

    /// Everything shows: the flags where no window is on.
    pub fn all_enabled() -> (f: WindowFlags)
        ensures
            f == WindowFlags::everything(),
    {
        WindowFlags {
            bg_enable: [true, true, true, true],
            obj_enable: true,
            effects_enable: true,
        }
    }
}

/// Whether a coordinate lies in a window range. A range whose start is above
/// its end wraps around.
#[verifier::allow_in_spec]
pub fn is_in_window_range(coord: u16, start: u16, end: u16, _max: u16) -> bool
    returns
        (if start <= end { start <= coord && coord < end } else { coord >= start || coord < end }),
{
    if start <= end {
        coord >= start && coord < end
    } else {
        coord >= start || coord < end
    }
}

/// Whether pixel `x` of `line` lies in window `w` (0 or 1).
pub open spec fn in_window(io: IoRegisters, w: int, line: u16, x: int) -> bool {
    &&& is_in_window_range(line, io.winv[w] >> 8, io.winv[w] & 0xFF, 160)
    &&& is_in_window_range(x as u16, io.winh[w] >> 8, io.winh[w] & 0xFF, 240)
}

/// Whether any window is on.
pub open spec fn windows_on(dispcnt: u16) -> bool {
    dispcnt & (1u16 << 13) != 0 || dispcnt & (1u16 << 14) != 0 || dispcnt & (1u16 << 15) != 0
}

/// The flags of pixel `x`: window 0 before window 1 before the sprite window,
/// if the pixel is in it, before the outside.
pub open spec fn flags_at(io: IoRegisters, line: u16, obj_window: bool, x: int) -> WindowFlags {
    if io.dispcnt & (1u16 << 13) != 0 && in_window(io, 0, line, x) {
        WindowFlags::of_bits((io.winin & 0x3F) as u8)
    } else if io.dispcnt & (1u16 << 14) != 0 && in_window(io, 1, line, x) {
        WindowFlags::of_bits(((io.winin >> 8) & 0x3F) as u8)
    } else if io.dispcnt & (1u16 << 15) != 0 && obj_window {
        WindowFlags::of_bits(((io.winout >> 8) & 0x3F) as u8)
    } else {
        WindowFlags::of_bits((io.winout & 0x3F) as u8)
    }
}

/// The flags of the 240 pixels of a line, or nothing if no window is on.
pub fn compute_window_line(line: u16, io: &IoRegisters, obj_window_line: &[bool; 240]) -> (flags:
    Option<[WindowFlags; 240]>)
    ensures
        flags is Some <==> windows_on(io.dispcnt),
        flags matches Some(f) ==> forall|x: int|
            0 <= x < 240 ==> #[trigger] f[x] == flags_at(*io, line, obj_window_line[x], x),
{
    let win0_enabled = io.dispcnt & (1u16 << 13) != 0;
    let win1_enabled = io.dispcnt & (1u16 << 14) != 0;
    let objwin_enabled = io.dispcnt & (1u16 << 15) != 0;
    if !win0_enabled && !win1_enabled && !objwin_enabled {
        return None;
    }
    let win0_flags = WindowFlags::from_bits((io.winin & 0x3F) as u8);
    let win1_flags = WindowFlags::from_bits(((io.winin >> 8) & 0x3F) as u8);
    let outside_flags = WindowFlags::from_bits((io.winout & 0x3F) as u8);
    let objwin_flags = WindowFlags::from_bits(((io.winout >> 8) & 0x3F) as u8);
    let win0_in_v = is_in_window_range(line, io.winv[0] >> 8, io.winv[0] & 0xFF, 160);
    let win1_in_v = is_in_window_range(line, io.winv[1] >> 8, io.winv[1] & 0xFF, 160);
    let mut result: [WindowFlags; 240] = [outside_flags;240];
    let mut x: usize = 0;
    while x < 240
        invariant
            x <= 240,
            win0_enabled == (io.dispcnt & (1u16 << 13) != 0),
            win1_enabled == (io.dispcnt & (1u16 << 14) != 0),
            objwin_enabled == (io.dispcnt & (1u16 << 15) != 0),
            win0_flags == WindowFlags::of_bits((io.winin & 0x3F) as u8),
            win1_flags == WindowFlags::of_bits(((io.winin >> 8) & 0x3F) as u8),
            outside_flags == WindowFlags::of_bits((io.winout & 0x3F) as u8),
            objwin_flags == WindowFlags::of_bits(((io.winout >> 8) & 0x3F) as u8),
            win0_in_v == is_in_window_range(line, io.winv[0] >> 8, io.winv[0] & 0xFF, 160),
            win1_in_v == is_in_window_range(line, io.winv[1] >> 8, io.winv[1] & 0xFF, 160),
            forall|k: int|
                0 <= k < x ==> #[trigger] result[k] == flags_at(*io, line, obj_window_line[k], k),
            forall|k: int| x <= k < 240 ==> #[trigger] result[k] == outside_flags,
        decreases 240 - x,
    {
        let xp: u16 = x as u16;
        if win0_enabled && win0_in_v && is_in_window_range(
            xp,
            io.winh[0] >> 8,
            io.winh[0] & 0xFF,
            240,
        ) {
            result[x] = win0_flags;
        } else if win1_enabled && win1_in_v && is_in_window_range(
            xp,
            io.winh[1] >> 8,
            io.winh[1] & 0xFF,
            240,
        ) {
            result[x] = win1_flags;
        } else if objwin_enabled && obj_window_line[x] {
            result[x] = objwin_flags;
        }
        x = x + 1;
    }
    Some(result)
}

} // verus!
