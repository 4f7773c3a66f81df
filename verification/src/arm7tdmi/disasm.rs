//! Opcodes as text. Instructions are shown by their encoding.

use vstd::prelude::*;
use vstd::string::*;

verus! {

/// The hexadecimal digit of `n`, upper case, for `n` below 16.
pub open spec fn hex_digit(n: int) -> char {
    if n == 0 {
        '0'
    } else if n == 1 {
        '1'
    } else if n == 2 {
        '2'
    } else if n == 3 {
        '3'
    } else if n == 4 {
        '4'
    } else if n == 5 {
        '5'
    } else if n == 6 {
        '6'
    } else if n == 7 {
        '7'
    } else if n == 8 {
        '8'
    } else if n == 9 {
        '9'
    } else if n == 10 {
        'A'
    } else if n == 11 {
        'B'
    } else if n == 12 {
        'C'
    } else if n == 13 {
        'D'
    } else if n == 14 {
        'E'
    } else {
        'F'
    }
}

/// The last `width` hexadecimal digits of `v`.
pub open spec fn hex(v: int, width: nat) -> Seq<char>
    decreases width,
{
    if width == 0 {
        Seq::empty()
    } else {
        hex(v / 16, (width - 1) as nat).push(hex_digit(v % 16))
    }
}

fn push_hex_digit(s: &mut String, n: u32)
    requires
        n < 16,
    ensures
        final(s)@ == old(s)@.push(hex_digit(n as int)),
{
    let digit: &str = match n {
        0 => "0",
        1 => "1",
        2 => "2",
        3 => "3",
        4 => "4",
        5 => "5",
        6 => "6",
        7 => "7",
        8 => "8",
        9 => "9",
        10 => "A",
        11 => "B",
        12 => "C",
        13 => "D",
        14 => "E",
        _ => "F",
    };
    proof {
        reveal_strlit("0");
        reveal_strlit("1");
        reveal_strlit("2");
        reveal_strlit("3");
        reveal_strlit("4");
        reveal_strlit("5");
        reveal_strlit("6");
        reveal_strlit("7");
        reveal_strlit("8");
        reveal_strlit("9");
        reveal_strlit("A");
        reveal_strlit("B");
        reveal_strlit("C");
        reveal_strlit("D");
        reveal_strlit("E");
        reveal_strlit("F");
    }
    assert(digit@ =~= seq![hex_digit(n as int)]);
    s.append(digit);
    assert(s@ =~= old(s)@.push(hex_digit(n as int)));
}

fn push_hex(s: &mut String, v: u32, width: u32)
    ensures
        final(s)@ == old(s)@ + hex(v as int, width as nat),
    decreases width,
{
    if width > 0 {
        push_hex(s, v / 16, width - 1);
        push_hex_digit(s, v % 16);
    }
    assert(s@ =~= old(s)@ + hex(v as int, width as nat));
}

/// The text for an opcode of `width` digits.
pub open spec fn undecoded(v: int, width: nat) -> Seq<char> {
    "??? (0x"@ + hex(v, width) + ")"@
}

fn undecoded_text(v: u32, width: u32) -> (text: String)
    ensures
        text@ == undecoded(v as int, width as nat),
{
    let mut text = String::from_str("??? (0x");
    push_hex(&mut text, v, width);
    text.append(")");
    text
}

/// The text of an ARM instruction.
pub fn disasm_arm(opcode: u32, _addr: u32) -> (text: String)
    ensures
        text@ == undecoded(opcode as int, 8),
{
    undecoded_text(opcode, 8)
}

/// The text of a THUMB instruction.
pub fn disasm_thumb(opcode: u16, _addr: u32) -> (text: String)
    ensures
        text@ == undecoded(opcode as int, 4),
{
    undecoded_text(opcode as u32, 4)
}

} // verus!
