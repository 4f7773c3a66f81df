//! Pictures for the screen.

use vstd::prelude::*;

use crate::bits;

verus! {

broadcast use bits::group_and_bounds;

/// Pixels of a picture.
pub const PIXELS: usize = 38400;

/// Byte `k` of a 15-bit colour as blue, green, red and opacity of eight bits
/// each.
pub open spec fn screen_byte(color: u16, k: int) -> u8 {
    if k == 0 {
        (((color >> 10) & 0x1F) as u8) << 3
    } else if k == 1 {
        (((color >> 5) & 0x1F) as u8) << 3
    } else if k == 2 {
        ((color & 0x1F) as u8) << 3
    } else {
        0xFF
    }
}

/// Converts a picture of 15-bit colours to four bytes per pixel.
pub fn screen_bytes(picture: &[u16]) -> (bytes: Vec<u8>)
    requires
        picture@.len() == PIXELS,
    ensures
        bytes@.len() == 4 * PIXELS,
        forall|i: int|
            0 <= i < 4 * PIXELS ==> #[trigger] bytes@[i] == screen_byte(picture@[i / 4], i % 4),
{
    let mut bytes: Vec<u8> = Vec::new();
    let mut p: usize = 0;
    while p < PIXELS
        invariant
            p <= PIXELS,
            picture@.len() == PIXELS,
            bytes@.len() == 4 * p,
            forall|i: int|
                0 <= i < 4 * p ==> #[trigger] bytes@[i] == screen_byte(picture@[i / 4], i % 4),
        decreases PIXELS - p,
    {
        let color: u16 = picture[p];
        bytes.push((((color >> 10) & 0x1F) as u8) << 3);
        bytes.push((((color >> 5) & 0x1F) as u8) << 3);
        bytes.push(((color & 0x1F) as u8) << 3);
        bytes.push(0xFF);
        p = p + 1;
    }
    bytes
}

/// The colour of column `x` of the test picture: four stripes of red, green,
/// blue and white.
#[verifier::allow_in_spec]
pub fn stripe(x: usize) -> u16
    returns
        (if x / 60 == 0 {
            0x001Fu16
        } else if x / 60 == 1 {
            0x03E0u16
        } else if x / 60 == 2 {
            0x7C00u16
        } else {
            0x7FFFu16
        }),
{
    match x / 60 {
        0 => 0x001F,
        1 => 0x03E0,
        2 => 0x7C00,
        _ => 0x7FFF,
    }
}

/// The test picture.
pub fn test_pattern() -> (picture: Vec<u16>)
    ensures
        picture@.len() == PIXELS,
        forall|i: int| 0 <= i < PIXELS ==> #[trigger] picture@[i] == stripe((i % 240) as usize),
{
    let mut picture: Vec<u16> = Vec::new();
    let mut i: usize = 0;
    while i < PIXELS
        invariant
            i <= PIXELS,
            picture@.len() == i,
            forall|j: int| 0 <= j < i ==> #[trigger] picture@[j] == stripe((j % 240) as usize),
        decreases PIXELS - i,
    {
        picture.push(stripe(i % 240));
        i = i + 1;
    }
    picture
}

/// The four bytes of a pixel: blue, green and red, each eight times its five
/// bits, and full opacity.
pub proof fn pixels_are_bytes(color: u16)
    ensures
        screen_byte(color, 0) == 8 * (color / 1024 % 32),
        screen_byte(color, 1) == 8 * (color / 32 % 32),
        screen_byte(color, 2) == 8 * (color % 32),
        screen_byte(color, 3) == 255,
{
    bits::half_fields(color, 0, 0, 0);
    vstd::arithmetic::power2::lemma2_to64();
    vstd::bits::lemma_u8_shl_is_mul((color / 1024 % 32) as u8, 3);
    vstd::bits::lemma_u8_shl_is_mul((color / 32 % 32) as u8, 3);
    vstd::bits::lemma_u8_shl_is_mul((color % 32) as u8, 3);
}

/// The test pattern has four stripes of equal width: red, green, blue, and the
/// three together.
pub proof fn stripes_are_equal(x: usize)
    requires
        x < 240,
    ensures
        x < 180 ==> stripe((x + 60) as usize) == (if x < 120 {
            32 * stripe(x)
        } else {
            stripe(0) + stripe(60) + stripe(120)
        }),
        x < 60 ==> stripe(x) == 31,
{
}

} // verus!
