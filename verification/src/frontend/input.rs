//! The keyboard as a keypad.

use vstd::prelude::*;

use crate::keypad::{
    KEY_A, KEY_B, KEY_DOWN, KEY_L, KEY_LEFT, KEY_R, KEY_RIGHT, KEY_SELECT, KEY_START, KEY_UP,
};

verus! {

/// Which of the keys that matter are held down.
#[derive(Debug, Clone, Copy, PartialEq, Eq, Structural)]
pub struct Keyboard {
    pub z: bool,
    pub x: bool,
    pub enter: bool,
    pub keypad_enter: bool,
    pub space: bool,
    pub backspace: bool,
    pub tab: bool,
    pub right: bool,
    pub left: bool,
    pub up: bool,
    pub down: bool,
    pub a: bool,
    pub s: bool,
}

/// `mask` if `pressed`.
#[verifier::allow_in_spec]
pub fn key_if(pressed: bool, mask: u16) -> u16
    returns
        (if pressed {
            mask
        } else {
            0u16
        }),
{
    if pressed {
        mask
    } else {
        0
    }
}

impl Keyboard {
    /// The buttons that the held keys stand for; a set bit is a pressed
    /// button. Start and Select have several keys.
    #[verifier::allow_in_spec]
    pub fn buttons(&self) -> u16
        returns
            key_if(self.z, KEY_A) | key_if(self.x, KEY_B) | key_if(
                self.enter || self.keypad_enter || self.space,
                KEY_START,
            ) | key_if(self.backspace || self.tab, KEY_SELECT) | key_if(self.right, KEY_RIGHT)
                | key_if(self.left, KEY_LEFT) | key_if(self.up, KEY_UP) | key_if(
                self.down,
                KEY_DOWN,
            ) | key_if(self.a, KEY_L) | key_if(self.s, KEY_R),
    {
        key_if(self.z, KEY_A) | key_if(self.x, KEY_B) | key_if(
            self.enter || self.keypad_enter || self.space,
            KEY_START,
        ) | key_if(self.backspace || self.tab, KEY_SELECT) | key_if(self.right, KEY_RIGHT)
            | key_if(self.left, KEY_LEFT) | key_if(self.up, KEY_UP) | key_if(self.down, KEY_DOWN)
            | key_if(self.a, KEY_L) | key_if(self.s, KEY_R)
    }
}

proof fn buttons_join(a: u16, b: u16, c: u16, d: u16, e: u16, f: u16, g: u16, h: u16, i: u16, j: u16)
    by (bit_vector)
    requires
        a == 0 || a == 1,
        b == 0 || b == 2,
        c == 0 || c == 8,
        d == 0 || d == 4,
        e == 0 || e == 16,
        f == 0 || f == 32,
        g == 0 || g == 64,
        h == 0 || h == 128,
        i == 0 || i == 512,
        j == 0 || j == 256,
    ensures
        ({
            let r = a | b | c | d | e | f | g | h | i | j;
            &&& r % 2 == 1 <==> a == 1
            &&& r / 2 % 2 == 1 <==> b == 2
            &&& r / 4 % 2 == 1 <==> d == 4
            &&& r / 8 % 2 == 1 <==> c == 8
            &&& r / 16 % 2 == 1 <==> e == 16
            &&& r / 32 % 2 == 1 <==> f == 32
            &&& r / 64 % 2 == 1 <==> g == 64
            &&& r / 128 % 2 == 1 <==> h == 128
            &&& r / 256 % 2 == 1 <==> j == 256
            &&& r / 512 % 2 == 1 <==> i == 512
        }),
{
}

/// Whether the button with weight `n` is among `buttons`.
#[verifier::opaque]
pub open spec fn held(buttons: u16, n: int) -> bool {
    buttons as int / n % 2 == 1
}

proof fn buttons_held(a: u16, b: u16, c: u16, d: u16, e: u16, f: u16, g: u16, h: u16, i: u16, j: u16)
    requires
        a == 0 || a == 1,
        b == 0 || b == 2,
        c == 0 || c == 8,
        d == 0 || d == 4,
        e == 0 || e == 16,
        f == 0 || f == 32,
        g == 0 || g == 64,
        h == 0 || h == 128,
        i == 0 || i == 512,
        j == 0 || j == 256,
    ensures
        ({
            let r = a | b | c | d | e | f | g | h | i | j;
            &&& held(r, 1) <==> a == 1
            &&& held(r, 2) <==> b == 2
            &&& held(r, 4) <==> d == 4
            &&& held(r, 8) <==> c == 8
            &&& held(r, 16) <==> e == 16
            &&& held(r, 32) <==> f == 32
            &&& held(r, 64) <==> g == 64
            &&& held(r, 128) <==> h == 128
            &&& held(r, 256) <==> j == 256
            &&& held(r, 512) <==> i == 512
        }),
{
    reveal(held);
    buttons_join(a, b, c, d, e, f, g, h, i, j);
}

/// The buttons that the keys of the keyboard hold, from the lowest bit: Z is A,
/// X is B, Backspace or Tab is Select, Enter or Space is Start, then the
/// arrows right, left, up and down, S is R and A is L.
pub proof fn keys_are_buttons(k: Keyboard)
    ensures
        held(k.buttons(), 1) <==> k.z,
        held(k.buttons(), 2) <==> k.x,
        held(k.buttons(), 4) <==> k.backspace || k.tab,
        held(k.buttons(), 8) <==> k.enter || k.keypad_enter || k.space,
        held(k.buttons(), 16) <==> k.right,
        held(k.buttons(), 32) <==> k.left,
        held(k.buttons(), 64) <==> k.up,
        held(k.buttons(), 128) <==> k.down,
        held(k.buttons(), 256) <==> k.s,
        held(k.buttons(), 512) <==> k.a,
{
    buttons_held(
        key_if(k.z, KEY_A),
        key_if(k.x, KEY_B),
        key_if(k.enter || k.keypad_enter || k.space, KEY_START),
        key_if(k.backspace || k.tab, KEY_SELECT),
        key_if(k.right, KEY_RIGHT),
        key_if(k.left, KEY_LEFT),
        key_if(k.up, KEY_UP),
        key_if(k.down, KEY_DOWN),
        key_if(k.a, KEY_L),
        key_if(k.s, KEY_R),
    );
}

} // verus!
