use vstd::prelude::*;

use crate::registers::FlagsRegister;

verus! {

pub open spec fn bit_val(b: bool) -> int {
    if b { 1 } else { 0 }
}

/// ADD/ADC: the sum, Z from the result, H from bit 3, C from bit 7.
pub open spec fn spec_add(a: u8, b: u8, carry_in: bool) -> (u8, FlagsRegister) {
    let sum = a + b + bit_val(carry_in);
    (
        (sum % 256) as u8,
        FlagsRegister {
            zero: sum % 256 == 0,
            subtract: false,
            half_carry: a % 16 + b % 16 + bit_val(carry_in) > 15,
            carry: sum > 255,
        },
    )
}

/// SUB/SBC/CP: the difference modulo 256, N set, H and C from the borrows.
pub open spec fn spec_sub(a: u8, b: u8, carry_in: bool) -> (u8, FlagsRegister) {
    let diff = a - b - bit_val(carry_in);
    (
        ((diff + 256) % 256) as u8,
        FlagsRegister {
            zero: (diff + 256) % 256 == 0,
            subtract: true,
            half_carry: a % 16 < b % 16 + bit_val(carry_in),
            carry: diff < 0,
        },
    )
}

pub open spec fn logic_flags(res: u8, half: bool) -> FlagsRegister {
    FlagsRegister { zero: res == 0, subtract: false, half_carry: half, carry: false }
}

/// Adds with the optional carry in.
pub fn add_bytes(a: u8, b: u8, carry_in: bool) -> (r: (u8, FlagsRegister))
    ensures
        r == spec_add(a, b, carry_in),
{
    let c: u8 = if carry_in { 1 } else { 0 };
    let sum = a as u16 + b as u16 + c as u16;
    let res = (sum % 256) as u8;
    let flags = FlagsRegister {
        zero: res == 0,
        subtract: false,
        half_carry: (a % 16) + (b % 16) + c > 15,
        carry: sum > 255,
    };
    (res, flags)
}

/// Subtracts with the optional borrow in.
pub fn sub_bytes(a: u8, b: u8, carry_in: bool) -> (r: (u8, FlagsRegister))
    ensures
        r == spec_sub(a, b, carry_in),
{
    let c: u8 = if carry_in { 1 } else { 0 };
    let diff = a as i16 - b as i16 - c as i16;
    let res = ((diff + 256) % 256) as u8;
    let flags = FlagsRegister {
        zero: res == 0,
        subtract: true,
        half_carry: (a % 16) < (b % 16) + c,
        carry: diff < 0,
    };
    (res, flags)
}

pub fn add_without_carry(a: u8, b: u8) -> (r: (u8, FlagsRegister))
    ensures
        r == spec_add(a, b, false),
{
    add_bytes(a, b, false)
}

/// ADC: the carry flag is added in.
pub fn add_with_carry(a: u8, b: u8, f: FlagsRegister) -> (r: (u8, FlagsRegister))
    ensures
        r == spec_add(a, b, f.carry),
{
    add_bytes(a, b, f.carry)
}

pub fn sub_without_carry(a: u8, b: u8) -> (r: (u8, FlagsRegister))
    ensures
        r == spec_sub(a, b, false),
{
    sub_bytes(a, b, false)
}

/// SBC: the carry flag is subtracted too.
pub fn sub_with_carry(a: u8, b: u8, f: FlagsRegister) -> (r: (u8, FlagsRegister))
    ensures
        r == spec_sub(a, b, f.carry),
{
    sub_bytes(a, b, f.carry)
}

/// CP: the flags of SUB, without the result.
pub fn compare(a: u8, b: u8) -> (r: FlagsRegister)
    ensures
        r == spec_sub(a, b, false).1,
{
    sub_bytes(a, b, false).1
}

pub fn bitwise_and(a: u8, b: u8) -> (r: (u8, FlagsRegister))
    ensures
        r == (a & b, logic_flags(a & b, true)),
{
    let res = a & b;
    (res, FlagsRegister { zero: res == 0, subtract: false, half_carry: true, carry: false })
}

pub fn bitwise_or(a: u8, b: u8) -> (r: (u8, FlagsRegister))
    ensures
        r == (a | b, logic_flags(a | b, false)),
{
    let res = a | b;
    (res, FlagsRegister { zero: res == 0, subtract: false, half_carry: false, carry: false })
}

pub fn bitwise_xor(a: u8, b: u8) -> (r: (u8, FlagsRegister))
    ensures
        r == (a ^ b, logic_flags(a ^ b, false)),
{
    let res = a ^ b;
    (res, FlagsRegister { zero: res == 0, subtract: false, half_carry: false, carry: false })
}

/// INC r8: C is kept.
pub open spec fn spec_inc(v: u8, f: FlagsRegister) -> (u8, FlagsRegister) {
    let res = ((v + 1) % 256) as u8;
    (res, FlagsRegister { zero: res == 0, subtract: false, half_carry: v % 16 == 15, carry: f.carry })
}

/// DEC r8: C is kept.
pub open spec fn spec_dec(v: u8, f: FlagsRegister) -> (u8, FlagsRegister) {
    let res = ((v + 255) % 256) as u8;
    (res, FlagsRegister { zero: res == 0, subtract: true, half_carry: v % 16 == 0, carry: f.carry })
}

pub fn increment_u8(v: u8, f: FlagsRegister) -> (r: (u8, FlagsRegister))
    ensures
        r == spec_inc(v, f),
{
    let res = v.wrapping_add(1);
    (res, FlagsRegister { zero: res == 0, subtract: false, half_carry: v % 16 == 15, carry: f.carry })
}

pub fn decrement_u8(v: u8, f: FlagsRegister) -> (r: (u8, FlagsRegister))
    ensures
        r == spec_dec(v, f),
{
    let res = v.wrapping_sub(1);
    (res, FlagsRegister { zero: res == 0, subtract: true, half_carry: v % 16 == 0, carry: f.carry })
}

/// ADD HL,rr: Z kept, N clear, H from bit 11, C from bit 15.
pub open spec fn spec_add_hl(hl: u16, rhs: u16, f: FlagsRegister) -> (u16, FlagsRegister) {
    let sum = hl + rhs;
    (
        (sum % 65536) as u16,
        FlagsRegister { zero: f.zero, subtract: false, half_carry: hl % 4096 + rhs % 4096 > 4095, carry: sum > 65535 },
    )
}

pub fn add_hl(hl: u16, rhs: u16, f: FlagsRegister) -> (r: (u16, FlagsRegister))
    ensures
        r == spec_add_hl(hl, rhs, f),
{
    let sum = hl as u32 + rhs as u32;
    (
        (sum % 65536) as u16,
        FlagsRegister { zero: f.zero, subtract: false, half_carry: hl % 4096 + rhs % 4096 > 4095, carry: sum > 65535 },
    )
}

/// The signed value of an offset byte.
pub open spec fn signed_offset(e: u8) -> int {
    if e < 128 { e as int } else { e as int - 256 }
}

/// ADD SP,e8 and LD HL,SP+e8: SP plus the sign-extended offset; Z and N clear, H from bit 3
/// and C from bit 7 of the unsigned low-byte sum.
pub open spec fn spec_add_sp(sp: u16, e: u8) -> (u16, FlagsRegister) {
    (
        ((sp + signed_offset(e) + 65536) % 65536) as u16,
        FlagsRegister { zero: false, subtract: false, half_carry: sp % 16 + e % 16 > 15, carry: sp % 256 + e > 255 },
    )
}

pub fn add_sp(sp: u16, e: u8) -> (r: (u16, FlagsRegister))
    ensures
        r == spec_add_sp(sp, e),
{
    let offset: u16 = if e < 128 { e as u16 } else { 0xFF00 + e as u16 };
    let res = sp.wrapping_add(offset);
    (res, FlagsRegister { zero: false, subtract: false, half_carry: sp % 16 + e as u16 % 16 > 15, carry: sp % 256 + e as u16 > 255 })
}

/// DAA: decimal adjust after an addition or a subtraction.
pub open spec fn spec_daa(a: u8, f: FlagsRegister) -> (u8, FlagsRegister) {
    let (res, carry) = if !f.subtract {
        let hi = f.carry || a > 0x99;
        let lo = f.half_carry || a % 16 > 9;
        (a + (if hi { 0x60int } else { 0 }) + (if lo { 6int } else { 0 }), hi)
    } else {
        (a - (if f.carry { 0x60int } else { 0 }) - (if f.half_carry { 6int } else { 0 }), f.carry)
    };
    let r = ((res + 256) % 256) as u8;
    (r, FlagsRegister { zero: r == 0, subtract: f.subtract, half_carry: false, carry })
}

pub fn decimal_adjust_accum(a: u8, f: FlagsRegister) -> (r: (u8, FlagsRegister))
    ensures
        r == spec_daa(a, f),
{
    let mut val = a;
    let mut carry = f.carry;
    if !f.subtract {
        if f.carry || a > 0x99 {
            val = val.wrapping_add(0x60);
            carry = true;
        }
        if f.half_carry || a % 16 > 9 {
            val = val.wrapping_add(0x06);
        }
    } else {
        if f.carry {
            val = val.wrapping_sub(0x60);
        }
        if f.half_carry {
            val = val.wrapping_sub(0x06);
        }
    }
    (val, FlagsRegister { zero: val == 0, subtract: f.subtract, half_carry: false, carry })
}

/// The rotate and shift family: RLC, RRC, RL, RR, SLA, SRA, SWAP, SRL in that order (as in
/// the prefixed table); Z from the result, N and H clear, C the bit shifted out.
pub open spec fn spec_shift(kind: u8, v: u8, carry_in: bool) -> (u8, FlagsRegister) {
    let res: int = if kind == 0 {
        (v * 2) % 256 + v / 128
    } else if kind == 1 {
        v / 2 + (v % 2) * 128
    } else if kind == 2 {
        (v * 2) % 256 + bit_val(carry_in)
    } else if kind == 3 {
        v / 2 + bit_val(carry_in) * 128
    } else if kind == 4 {
        (v * 2) % 256
    } else if kind == 5 {
        v / 2 + (v / 128) * 128
    } else if kind == 6 {
        (v % 16) * 16 + v / 16
    } else {
        v as int / 2
    };
    let carry = if kind == 0 || kind == 2 || kind == 4 { v >= 128 } else if kind == 6 { false } else { v % 2 == 1 };
    (res as u8, FlagsRegister { zero: res == 0, subtract: false, half_carry: false, carry })
}

pub fn shift(kind: u8, v: u8, carry_in: bool) -> (r: (u8, FlagsRegister))
    requires
        kind < 8,
    ensures
        r == spec_shift(kind, v, carry_in),
{
    let c: u8 = if carry_in { 1 } else { 0 };
    let res: u8 = if kind == 0 {
        (v % 128) * 2 + v / 128
    } else if kind == 1 {
        v / 2 + (v % 2) * 128
    } else if kind == 2 {
        (v % 128) * 2 + c
    } else if kind == 3 {
        v / 2 + c * 128
    } else if kind == 4 {
        (v % 128) * 2
    } else if kind == 5 {
        v / 2 + (v / 128) * 128
    } else if kind == 6 {
        (v % 16) * 16 + v / 16
    } else {
        v / 2
    };
    let carry = if kind == 0 || kind == 2 || kind == 4 {
        v >= 128
    } else if kind == 6 {
        false
    } else {
        v % 2 == 1
    };
    (res, FlagsRegister { zero: res == 0, subtract: false, half_carry: false, carry })
}

/// SWAP: exchanges the nibbles; Z from the result, N, H, C clear.
pub fn swap_bits(v: u8) -> (r: (u8, FlagsRegister))
    ensures
        r == spec_shift(6, v, false),
        r.0 == (v % 16) * 16 + v / 16,
{
    shift(6, v, false)
}

/// BIT n: Z is the complement of the bit, N clear, H set, C kept.
pub open spec fn spec_check_bit(v: u8, pos: u8, f: FlagsRegister) -> FlagsRegister {
    FlagsRegister { zero: (v >> pos) & 1 == 0, subtract: false, half_carry: true, carry: f.carry }
}

pub fn check_bit(v: u8, pos: u8, f: FlagsRegister) -> (r: FlagsRegister)
    requires
        pos < 8,
    ensures
        r == spec_check_bit(v, pos, f),
{
    FlagsRegister { zero: (v >> pos) & 1 == 0, subtract: false, half_carry: true, carry: f.carry }
}

pub fn set_bit(v: u8, pos: u8) -> (r: u8)
    requires
        pos < 8,
    ensures
        r == v | (1u8 << pos),
{
    v | (1u8 << pos)
}

pub fn reset_bit(v: u8, pos: u8) -> (r: u8)
    requires
        pos < 8,
    ensures
        r == v & !(1u8 << pos),
{
    v & !(1u8 << pos)
}

} // verus!
