//! The keypad: key state and the key interrupt condition.

use vstd::prelude::*;

verus! {

pub const KEY_A: u16 = 1;

pub const KEY_B: u16 = 2;

pub const KEY_SELECT: u16 = 4;

pub const KEY_START: u16 = 8;

pub const KEY_RIGHT: u16 = 16;

pub const KEY_LEFT: u16 = 32;

pub const KEY_UP: u16 = 64;

pub const KEY_DOWN: u16 = 128;

pub const KEY_R: u16 = 256;

pub const KEY_L: u16 = 512;

/// The keypad registers.
#[derive(Debug, Clone, Copy, PartialEq, Eq, Structural)]
pub struct Keypad {
    /// KEYINPUT: a clear bit is a pressed key.
    pub keyinput: u16,
    /// KEYCNT: the key interrupt condition.
    pub keycnt: u16,
}

impl Keypad {
    /// All keys released, no interrupt condition.
    pub fn new() -> (k: Keypad)
        ensures
            k == (Keypad { keyinput: 0x03FF, keycnt: 0 }),
    {
        Keypad { keyinput: 0x03FF, keycnt: 0 }
    }

    /// Sets the pressed keys: a set bit in `pressed` is a pressed key.
    pub fn set_keys(&mut self, pressed: u16)
        ensures
            *final(self) == (Keypad { keyinput: !pressed & 0x03FF, ..*old(self) }),
    {
        self.keyinput = !pressed & 0x03FF;
    }

    #[verifier::allow_in_spec]
    pub fn read_keyinput(&self) -> u16
        returns
            self.keyinput,
    {
        self.keyinput
    }

    /// The keys that are pressed, one set bit each.
    pub open spec fn pressed(self) -> u16 {
        !self.keyinput & 0x03FF
    }

    /// Whether the interrupt condition holds: enabled, and all (AND mode) or
    /// any (OR mode) of the selected keys pressed.
    #[verifier::allow_in_spec]
    pub fn check_irq(&self) -> bool
        returns
            ({
                let mask = self.keycnt & 0x03FF;
                &&& self.keycnt & (1u16 << 14) != 0
                &&& if self.keycnt & (1u16 << 15) != 0 {
                    self.pressed() & mask == mask
                } else {
                    self.pressed() & mask != 0
                }
            }),
    {
        if self.keycnt & (1u16 << 14) == 0 {
            return false;
        }
        let key_mask: u16 = self.keycnt & 0x03FF;
        let pressed: u16 = !self.keyinput & 0x03FF;
        if self.keycnt & (1u16 << 15) != 0 {
            (pressed & key_mask) == key_mask
        } else {
            (pressed & key_mask) != 0
        }
    }
}

/// The keys that were set are the keys that read as pressed; bits that name no
/// key are dropped.
pub proof fn keys_read_back(k: Keypad, pressed: u16)
    ensures
        (Keypad { keyinput: !pressed & 0x03FF, ..k }).pressed() == pressed & 0x03FF,
{
    key_bits(pressed, 0, 0);
}

proof fn key_bits(p: u16, m: u16, q: u16)
    by (bit_vector)
    ensures
        !(!p & 0x03FFu16) & 0x03FF == p & 0x03FF,
        (p & (m | q) == m | q) <==> (p & m == m && p & q == q),
        (p & (m | q) != 0) <==> (p & m != 0 || p & q != 0),
        p & 0 == 0,
        m == 1 || m == 2 || m == 4 || m == 8 || m == 16 || m == 32 || m == 64 || m == 128 || m
            == 256 || m == 512 ==> (p & m == m || p & m == 0) && m != 0,
        m & 0x03FF == m % 1024,
        m & (1u16 << 14) != 0 <==> m / 0x4000 % 2 == 1,
        m & (1u16 << 15) != 0 <==> m / 0x8000 % 2 == 1,
        m == 1 ==> (p & m != 0 <==> p % 2 == 1),
        m == 2 ==> (p & m != 0 <==> p / 2 % 2 == 1),
        m == 4 ==> (p & m != 0 <==> p / 4 % 2 == 1),
        m == 8 ==> (p & m != 0 <==> p / 8 % 2 == 1),
        m == 16 ==> (p & m != 0 <==> p / 16 % 2 == 1),
        m == 32 ==> (p & m != 0 <==> p / 32 % 2 == 1),
        m == 64 ==> (p & m != 0 <==> p / 64 % 2 == 1),
        m == 128 ==> (p & m != 0 <==> p / 128 % 2 == 1),
        m == 256 ==> (p & m != 0 <==> p / 256 % 2 == 1),
        m == 512 ==> (p & m != 0 <==> p / 512 % 2 == 1),
{
}

/// Whether the keys held ask for an interrupt, for a set of keys of interest:
/// all of them have to be held, or any.
pub open spec fn keys_ask(k: Keypad, all: bool, keys: u16) -> bool {
    (Keypad {
        keycnt: (0x4000 + (if all {
            0x8000int
        } else {
            0
        }) + keys) as u16,
        ..k
    }).check_irq()
}

/// The key interrupt. Without bit 14 there is none. For one key it is asked for
/// while the key is held. For two sets of keys together both have to ask if all
/// keys are to be held, and one of them has to ask otherwise; no key at all
/// always asks in the first case and never in the other.
pub proof fn keys_interrupt(k: Keypad, all: bool, m: u16, q: u16)
    requires
        m < 1024,
        q < 1024,
        m | q < 1024,
    ensures
        k.keycnt / 0x4000 % 2 == 0 ==> !k.check_irq(),
        keys_ask(k, true, m | q) == (keys_ask(k, true, m) && keys_ask(k, true, q)),
        keys_ask(k, false, m | q) == (keys_ask(k, false, m) || keys_ask(k, false, q)),
        keys_ask(k, true, 0),
        !keys_ask(k, false, 0),
        m == KEY_A ==> keys_ask(k, all, m) == (k.pressed() % 2 == 1),
        m == KEY_B ==> keys_ask(k, all, m) == (k.pressed() / 2 % 2 == 1),
        m == KEY_SELECT ==> keys_ask(k, all, m) == (k.pressed() / 4 % 2 == 1),
        m == KEY_START ==> keys_ask(k, all, m) == (k.pressed() / 8 % 2 == 1),
        m == KEY_RIGHT ==> keys_ask(k, all, m) == (k.pressed() / 16 % 2 == 1),
        m == KEY_LEFT ==> keys_ask(k, all, m) == (k.pressed() / 32 % 2 == 1),
        m == KEY_UP ==> keys_ask(k, all, m) == (k.pressed() / 64 % 2 == 1),
        m == KEY_DOWN ==> keys_ask(k, all, m) == (k.pressed() / 128 % 2 == 1),
        m == KEY_R ==> keys_ask(k, all, m) == (k.pressed() / 256 % 2 == 1),
        m == KEY_L ==> keys_ask(k, all, m) == (k.pressed() / 512 % 2 == 1),
{
    let p = k.pressed();
    key_bits(p, m, q);
    key_bits(p, k.keycnt, 0);
    asked(k, true, m);
    asked(k, true, q);
    asked(k, true, m | q);
    asked(k, true, 0);
    asked(k, false, m);
    asked(k, false, q);
    asked(k, false, m | q);
    asked(k, false, 0);
}

proof fn asked(k: Keypad, all: bool, keys: u16)
    requires
        keys < 1024,
    ensures
        keys_ask(k, all, keys) == (if all {
            k.pressed() & keys == keys
        } else {
            k.pressed() & keys != 0
        }),
{
    let c = (0x4000 + (if all {
        0x8000int
    } else {
        0
    }) + keys) as u16;
    key_bits(0, c, 0);
    assert(c % 1024 == keys && c / 0x4000 % 2 == 1);
    assert(c / 0x8000 % 2 == 1 <==> all);
}

} // verus!
