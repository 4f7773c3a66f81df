use gba_core::arm7tdmi::alu::{add_with_carry, barrel_shift, sub_with_carry, ShiftType};

#[test]
fn test_lsl() {
    assert_eq!(barrel_shift(0x80000000, ShiftType::Lsl, 1, false, false), (0, true));
    assert_eq!(barrel_shift(1, ShiftType::Lsl, 31, false, false), (0x80000000, false));
    assert_eq!(barrel_shift(0xFF, ShiftType::Lsl, 0, true, false), (0xFF, true));
    assert_eq!(barrel_shift(0xFF, ShiftType::Lsl, 0, false, false), (0xFF, false));
}

#[test]
fn test_lsr() {
    assert_eq!(barrel_shift(1, ShiftType::Lsr, 1, false, false), (0, true));
    assert_eq!(barrel_shift(0x80000000, ShiftType::Lsr, 31, false, false), (1, false));
    // LSR #0 as immediate = LSR #32
    assert_eq!(barrel_shift(0x80000000, ShiftType::Lsr, 0, false, true), (0, true));
}

#[test]
fn test_asr() {
    assert_eq!(barrel_shift(0x80000000, ShiftType::Asr, 1, false, false), (0xC0000000, false));
    assert_eq!(barrel_shift(0x80000000, ShiftType::Asr, 31, false, false), (0xFFFFFFFF, false));
    // ASR #0 as immediate = ASR #32
    assert_eq!(barrel_shift(0x80000000, ShiftType::Asr, 0, false, true), (0xFFFFFFFF, true));
    assert_eq!(barrel_shift(0x7FFFFFFF, ShiftType::Asr, 0, false, true), (0, false));
}

#[test]
fn test_ror() {
    assert_eq!(barrel_shift(1, ShiftType::Ror, 1, false, false), (0x80000000, true));
    assert_eq!(barrel_shift(0x80000000, ShiftType::Ror, 1, false, false), (0x40000000, false));
}

#[test]
fn test_rrx() {
    // ROR #0 as immediate = RRX
    assert_eq!(barrel_shift(1, ShiftType::Ror, 0, true, true), (0x80000000, true));
    assert_eq!(barrel_shift(1, ShiftType::Ror, 0, false, true), (0, true));
    assert_eq!(barrel_shift(0, ShiftType::Ror, 0, true, true), (0x80000000, false));
}

#[test]
fn test_add_with_carry() {
    assert_eq!(add_with_carry(0xFFFFFFFF, 1, false), (0, true, false));
    assert_eq!(add_with_carry(0x7FFFFFFF, 1, false), (0x80000000, false, true));
    assert_eq!(add_with_carry(0x80000000, 0x80000000, false), (0, true, true));
}

#[test]
fn test_sub_with_carry() {
    // SUB: a - b = a + !b + 1 (carry_in=true for plain subtraction)
    assert_eq!(sub_with_carry(5, 3, true), (2, true, false));
    assert_eq!(sub_with_carry(3, 5, true), (0xFFFFFFFE, false, false));
    assert_eq!(sub_with_carry(0, 1, true), (0xFFFFFFFF, false, false));
}
