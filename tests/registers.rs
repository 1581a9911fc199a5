use gbemu::alu::{add_without_carry, decimal_adjust_accum, sub_with_carry, swap_bits};
use gbemu::registers::{CpuRegisters, FlagsRegister};

#[test]
fn set_bc_test() {
    let mut reg = CpuRegisters::new();
    reg.set_bc(0xab13);
    assert_eq!(reg.b, 0xab);
    assert_eq!(reg.c, 0x13);
    assert_eq!(reg.bc(), 0xab13);
}

#[test]
fn flags_register_from_u8_test() {
    assert_eq!(
        FlagsRegister::from(0b10110000),
        FlagsRegister {
            zero: true,
            subtract: false,
            half_carry: true,
            carry: true
        }
    );
}

#[test]
fn flags_register_to_u8() {
    assert_eq!(
        u8::from(FlagsRegister {
            zero: true,
            subtract: false,
            half_carry: false,
            carry: true
        }),
        0b10010000
    );
}

#[test]
fn instruction_swap_bits() {
    let mut flag = FlagsRegister {
        zero: false,
        subtract: false,
        half_carry: false,
        carry: false,
    };

    let (res, f) = swap_bits(0xFD);
    assert_eq!(res, 0xDF);
    assert_eq!(f, flag);

    let (res, f) = swap_bits(0x00);
    assert_eq!(res, 0x00);
    flag.zero = true;
    assert_eq!(f, flag);
}

#[test]
fn different_n8_cast() {
    let a = -10i8;
    let b = a as u8;
    assert_eq!(b.wrapping_add(10), 0);

    let addr = -32i8 as u8;
    assert_eq!(addr as i8, -32);
    assert_eq!(addr as i8 as i16, -32);
    assert_eq!((addr as i8 as i16 as u16).wrapping_add(32), 0);

    assert_eq!(126i8 as u8, 126);
    assert_eq!(-126i8 as u8, 130);
    assert_eq!(130u8 as i8, -126);
}

#[test]
fn flags_low_nibble_reads_zero() {
    for v in 0..=255u8 {
        let f = FlagsRegister::from(v);
        assert_eq!(u8::from(f) & 0x0F, 0);
        assert_eq!(u8::from(f), v & 0xF0);
    }
}

#[test]
fn af_pair_drops_low_flag_bits() {
    let mut reg = CpuRegisters::new();
    reg.set_af(0x12FF);
    assert_eq!(reg.a, 0x12);
    assert_eq!(reg.af(), 0x12F0);
    reg.set_hl(0xBEEF);
    assert_eq!((reg.h, reg.l, reg.hl()), (0xBE, 0xEF, 0xBEEF));
    reg.set_de(0x0102);
    assert_eq!(reg.de(), 0x0102);
}

#[test]
fn post_boot_registers() {
    let reg = CpuRegisters::new();
    assert_eq!(reg.a, 0x01);
    assert_eq!(u8::from(reg.f), 0xB0);
    assert_eq!(reg.hl(), 0x014D);
    assert_eq!(reg.bc(), 0x0013);
    assert_eq!(reg.de(), 0x00D8);
}

#[test]
fn add_sets_half_carry_and_carry() {
    let (r, f) = add_without_carry(0x0F, 0x01);
    assert_eq!(r, 0x10);
    assert!(f.half_carry && !f.carry && !f.zero && !f.subtract);
    let (r, f) = add_without_carry(0xFF, 0x01);
    assert_eq!(r, 0x00);
    assert!(f.zero && f.carry && f.half_carry);
}

#[test]
fn sbc_borrows_through_carry() {
    let carry = FlagsRegister { zero: false, subtract: false, half_carry: false, carry: true };
    let (r, f) = sub_with_carry(0x10, 0x0F, carry);
    assert_eq!(r, 0x00);
    assert!(f.zero && f.subtract && f.half_carry && !f.carry);
    let (r, f) = sub_with_carry(0x00, 0x00, carry);
    assert_eq!(r, 0xFF);
    assert!(f.carry && f.half_carry);
}

#[test]
fn daa_adjusts_bcd_addition() {
    // 0x15 + 0x27 = 0x3C, adjusted to 0x42.
    let (sum, f) = add_without_carry(0x15, 0x27);
    let (r, g) = decimal_adjust_accum(sum, f);
    assert_eq!(r, 0x42);
    assert!(!g.carry && !g.half_carry);
    // 0x99 + 0x01 = 0x9A, adjusted to 0x00 with carry.
    let (sum, f) = add_without_carry(0x99, 0x01);
    let (r, g) = decimal_adjust_accum(sum, f);
    assert_eq!(r, 0x00);
    assert!(g.carry && g.zero);
}
