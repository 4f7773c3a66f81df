//! What holds of every picture.

use vstd::prelude::*;

use crate::bits;

use super::{effects, obj, PixelInfo, Ppu, Scene, Stack};

verus! {

broadcast use bits::group_and_bounds;

/// Whether a layer's pixel, if there is one, has 15 bits.
pub open spec fn is_15_bit(px: Option<PixelInfo>) -> bool {
    px matches Some(p) ==> p.color <= 0x7FFF
}

proof fn sprites_are_15_bit(s: Scene, mapping_1d: bool, line: u16, x: int, n: nat)
    ensures
        is_15_bit(obj::obj_pixel(s.oam, s.vram, s.palette, mapping_1d, line, x, None, n)),
    decreases n,
{
    if n > 0 {
        sprites_are_15_bit(s, mapping_1d, line, x, (n - 1) as nat);
    }
}

proof fn backgrounds_are_15_bit(ppu: Ppu, s: Scene, line: u16, bgi: int, x: int)
    ensures
        is_15_bit(ppu.background(s, line, bgi, x)),
{
}

spec fn stack_is_15_bit(stack: Stack) -> bool {
    is_15_bit(stack.top) && is_15_bit(stack.second)
}

proof fn tiles_are_15_bit(ppu: Ppu, s: Scene, line: u16, x: int)
    ensures
        ppu.tile_pixel(s, line, x) <= 0x7FFF,
{
    let flags = s.flags(line, x);
    let bgs = [
        ppu.background(s, line, 0, x),
        ppu.background(s, line, 1, x),
        ppu.background(s, line, 2, x),
        ppu.background(s, line, 3, x),
    ];
    backgrounds_are_15_bit(ppu, s, line, 0, x);
    backgrounds_are_15_bit(ppu, s, line, 1, x);
    backgrounds_are_15_bit(ppu, s, line, 2, x);
    backgrounds_are_15_bit(ppu, s, line, 3, x);
    sprites_are_15_bit(s, s.io.dispcnt & (1u16 << 6) != 0, line, x, 128);
    let stack = super::pixel_stack(bgs, s.sprite(line, x), flags);
    assert(stack_is_15_bit(stack));
    let c = stack.top_color(s.backdrop());
    let over = stack.second_color(s.backdrop());
    effects::effect_extremes(c, over, s.eva(), s.evb());
    effects::effect_extremes(c, over, s.evy(), 0);
}

/// Every pixel that is drawn has 15 bits, whatever the registers and memories
/// hold, as long as the picture had no other before.
pub proof fn pictures_are_15_bit(ppu: Ppu, s: Scene, line: u16, picture: Seq<u16>)
    requires
        forall|i: int| 0 <= i < picture.len() ==> #[trigger] picture[i] <= 0x7FFF,
    ensures
        forall|i: int|
            0 <= i < picture.len() ==> #[trigger] ppu.painted(s, line, picture)[i] <= 0x7FFF,
{
    assert forall|i: int| 0 <= i < picture.len() implies #[trigger] ppu.painted(
        s,
        line,
        picture,
    )[i] <= 0x7FFF by {
        let x = i - line * 240;
        assert(picture[i] <= 0x7FFF);
        tiles_are_15_bit(ppu, s, line, x);
    }
}

/// A line is drawn into its own row only, and a blanked screen is white there.
pub proof fn lines_keep_to_their_row(ppu: Ppu, s: Scene, line: u16, picture: Seq<u16>, i: int)
    requires
        0 <= i < picture.len(),
    ensures
        ppu.painted(s, line, picture).len() == picture.len(),
        i / 240 != line ==> ppu.painted(s, line, picture)[i] == picture[i],
        i / 240 == line && s.io.dispcnt & (1u16 << 7) != 0 ==> ppu.painted(s, line, picture)[i]
            == 0x7FFF,
{
}

} // verus!
