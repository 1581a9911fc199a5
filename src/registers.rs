use vstd::prelude::*;

verus! {

pub const HALF_CARRY_MASK: u8 = 0xF;

/// The four CPU flags; as a byte they occupy bits 7..4 and the low nibble is zero.
#[derive(Copy, Clone, PartialEq, Eq, Debug, Structural)]
pub struct FlagsRegister {
    pub zero: bool,
    pub subtract: bool,
    /// Set when the lower nibble overflowed (or borrowed).
    pub half_carry: bool,
    pub carry: bool,
}

/// The 8-bit register file.
pub struct CpuRegisters {
    pub a: u8,
    pub b: u8,
    pub c: u8,
    pub d: u8,
    pub e: u8,
    pub f: FlagsRegister,
    pub h: u8,
    pub l: u8,
}

/// The byte with Z, N, H, C in bits 7..4 and zeros below.
pub open spec fn nibble_byte(z: bool, n: bool, h: bool, c: bool) -> u8 {
    (if z { 0x80u8 } else { 0u8 }) | (if n { 0x40u8 } else { 0u8 }) | (if h { 0x20u8 } else { 0u8 })
        | (if c { 0x10u8 } else { 0u8 })
}

/// The byte that a flag register reads as.
pub open spec fn flags_byte(f: FlagsRegister) -> u8 {
    nibble_byte(f.zero, f.subtract, f.half_carry, f.carry)
}

pub proof fn lemma_nibble_byte(z: bool, n: bool, h: bool, c: bool)
    ensures
        nibble_byte(z, n, h, c) & 0xF == 0,
        (nibble_byte(z, n, h, c) & 0x80 != 0) == z,
        (nibble_byte(z, n, h, c) & 0x40 != 0) == n,
        (nibble_byte(z, n, h, c) & 0x20 != 0) == h,
        (nibble_byte(z, n, h, c) & 0x10 != 0) == c,
{
    let b = nibble_byte(z, n, h, c);
    assert(b & 0xF == 0 && (b & 0x80 != 0) == z && (b & 0x40 != 0) == n && (b & 0x20 != 0) == h
        && (b & 0x10 != 0) == c) by (bit_vector)
        requires
            b == (if z { 0x80u8 } else { 0u8 }) | (if n { 0x40u8 } else { 0u8 }) | (if h { 0x20u8 } else { 0u8 })
                | (if c { 0x10u8 } else { 0u8 }),
    ;
}

pub proof fn lemma_byte_nibble(v: u8)
    ensures
        nibble_byte(v & 0x80 != 0, v & 0x40 != 0, v & 0x20 != 0, v & 0x10 != 0) == v & 0xF0,
{
    let z = v & 0x80 != 0;
    let n = v & 0x40 != 0;
    let h = v & 0x20 != 0;
    let c = v & 0x10 != 0;
    assert((if z { 0x80u8 } else { 0u8 }) | (if n { 0x40u8 } else { 0u8 }) | (if h { 0x20u8 } else { 0u8 })
        | (if c { 0x10u8 } else { 0u8 }) == v & 0xF0) by (bit_vector)
        requires
            z == (v & 0x80 != 0),
            n == (v & 0x40 != 0),
            h == (v & 0x20 != 0),
            c == (v & 0x10 != 0),
    ;
}

/// The flags that a byte decodes to.
pub open spec fn flags_of(v: u8) -> FlagsRegister {
    FlagsRegister {
        zero: v & 0x80 != 0,
        subtract: v & 0x40 != 0,
        half_carry: v & 0x20 != 0,
        carry: v & 0x10 != 0,
    }
}

/// The 16-bit value of a register pair.
pub open spec fn pair(hi: u8, lo: u8) -> u16 {
    (hi as int * 256 + lo as int) as u16
}

impl FlagsRegister {
    pub fn new() -> (r: Self)
        ensures
            r == (FlagsRegister { zero: true, subtract: false, half_carry: true, carry: true }),
    {
        FlagsRegister { zero: true, subtract: false, half_carry: true, carry: true }
    }

    /// The register as a byte: Z, N, H, C in bits 7..4.
    pub fn to_byte(&self) -> (r: u8)
        ensures
            r == flags_byte(*self),
            r & 0xF == 0,
            flags_of(r) == *self,
    {
        proof {
            lemma_nibble_byte(self.zero, self.subtract, self.half_carry, self.carry);
        }
        (if self.zero { 0x80u8 } else { 0 }) | (if self.subtract { 0x40u8 } else { 0 }) | (if self.half_carry {
            0x20u8
        } else {
            0
        }) | (if self.carry { 0x10u8 } else { 0 })
    }

    /// The flags held in bits 7..4 of `v`; bits 3..0 are dropped.
    pub fn from_byte(v: u8) -> (r: Self)
        ensures
            r == flags_of(v),
            flags_byte(r) == v & 0xF0,
    {
        proof {
            lemma_byte_nibble(v);
        }
        FlagsRegister {
            zero: v & 0x80 != 0,
            subtract: v & 0x40 != 0,
            half_carry: v & 0x20 != 0,
            carry: v & 0x10 != 0,
        }
    }
}

impl From<FlagsRegister> for u8 {
    fn from(flag: FlagsRegister) -> (r: u8) {
        flag.to_byte()
    }
}

impl vstd::std_specs::convert::FromSpecImpl<FlagsRegister> for u8 {
    open spec fn obeys_from_spec() -> bool {
        true
    }

    open spec fn from_spec(flag: FlagsRegister) -> u8 {
        flags_byte(flag)
    }
}

impl From<u8> for FlagsRegister {
    fn from(value: u8) -> (r: FlagsRegister) {
        FlagsRegister::from_byte(value)
    }
}

impl vstd::std_specs::convert::FromSpecImpl<u8> for FlagsRegister {
    open spec fn obeys_from_spec() -> bool {
        true
    }

    open spec fn from_spec(value: u8) -> FlagsRegister {
        flags_of(value)
    }
}

impl CpuRegisters {
    /// The register values after the boot ROM has run.
    pub fn new() -> (r: Self)
        ensures
            r.a == 0x01 && r.b == 0x00 && r.c == 0x13 && r.d == 0x00 && r.e == 0xD8,
            r.h == 0x01 && r.l == 0x4D,
            r.f == (FlagsRegister { zero: true, subtract: false, half_carry: true, carry: true }),
    {
        Self { a: 0x01, b: 0x00, c: 0x13, d: 0x00, e: 0xD8, f: FlagsRegister::new(), h: 0x01, l: 0x4D }
    }

    pub fn af(&self) -> (r: u16)
        ensures
            r == pair(self.a, flags_byte(self.f)),
    {
        let f = self.f.to_byte();
        (self.a as u16) * 256 + (f as u16)
    }

    /// Sets A from the high byte and the flags from the high nibble of the low byte.
    pub fn set_af(&mut self, val: u16)
        ensures
            final(self).a == (val / 256) as u8,
            final(self).f == flags_of((val % 256) as u8),
            final(self).b == old(self).b && final(self).c == old(self).c,
            final(self).d == old(self).d && final(self).e == old(self).e,
            final(self).h == old(self).h && final(self).l == old(self).l,
    {
        self.a = (val / 256) as u8;
        self.f = FlagsRegister::from_byte((val % 256) as u8);
    }

    pub fn bc(&self) -> (r: u16)
        ensures
            r == pair(self.b, self.c),
    {
        (self.b as u16) * 256 + (self.c as u16)
    }

    pub fn set_bc(&mut self, val: u16)
        ensures
            final(self).b == (val / 256) as u8,
            final(self).c == (val % 256) as u8,
            pair(final(self).b, final(self).c) == val,
            final(self).a == old(self).a && final(self).f == old(self).f,
            final(self).d == old(self).d && final(self).e == old(self).e,
            final(self).h == old(self).h && final(self).l == old(self).l,
    {
        self.b = (val / 256) as u8;
        self.c = (val % 256) as u8;
    }

    pub fn de(&self) -> (r: u16)
        ensures
            r == pair(self.d, self.e),
    {
        (self.d as u16) * 256 + (self.e as u16)
    }

    pub fn set_de(&mut self, val: u16)
        ensures
            final(self).d == (val / 256) as u8,
            final(self).e == (val % 256) as u8,
            pair(final(self).d, final(self).e) == val,
            final(self).a == old(self).a && final(self).f == old(self).f,
            final(self).b == old(self).b && final(self).c == old(self).c,
            final(self).h == old(self).h && final(self).l == old(self).l,
    {
        self.d = (val / 256) as u8;
        self.e = (val % 256) as u8;
    }

    pub fn hl(&self) -> (r: u16)
        ensures
            r == pair(self.h, self.l),
    {
        (self.h as u16) * 256 + (self.l as u16)
    }

    pub fn set_hl(&mut self, val: u16)
        ensures
            final(self).h == (val / 256) as u8,
            final(self).l == (val % 256) as u8,
            pair(final(self).h, final(self).l) == val,
            final(self).a == old(self).a && final(self).f == old(self).f,
            final(self).b == old(self).b && final(self).c == old(self).c,
            final(self).d == old(self).d && final(self).e == old(self).e,
    {
        self.h = (val / 256) as u8;
        self.l = (val % 256) as u8;
    }
}

/// The F register reads with a zero low nibble, whatever the flags hold.
pub proof fn lemma_flags_low_nibble_zero(f: FlagsRegister)
    ensures
        flags_byte(f) & 0xF == 0,
        flags_of(flags_byte(f)) == f,
{
    lemma_nibble_byte(f.zero, f.subtract, f.half_carry, f.carry);
}

} // verus!
