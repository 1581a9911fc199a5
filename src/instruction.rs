use vstd::prelude::*;

verus! {

/// A decoded instruction: the operation family and its operands.
#[derive(Copy, Clone, Debug)]
pub enum Instruction {
    /// Add the `ArithmeticTarget` value to register A.
    ADD(ArithmeticTarget),
    ADC(ArithmeticTarget),
    SUB(ArithmeticTarget),
    SBC(ArithmeticTarget),
    CP(ArithmeticTarget),
    ADDHL(ADDHLTarget),
    INC(IncDecTarget),
    DEC(IncDecTarget),
    BIT(BitPosition, PrefixTarget),
    RES(BitPosition, PrefixTarget),
    SET(BitPosition, PrefixTarget),
    CPL,
    AND(ArithmeticTarget),
    XOR(ArithmeticTarget),
    OR(ArithmeticTarget),
    SCF,
    CCF,
    Load(LoadType),
    RL(PrefixTarget),
    RLA,
    RLC(PrefixTarget),
    RLCA,
    RR(PrefixTarget),
    RRA,
    RRC(PrefixTarget),
    RRCA,
    SLA(PrefixTarget),
    SRA(PrefixTarget),
    SRL(PrefixTarget),
    SWAP(PrefixTarget),
    JR(JumpTest),
    JP(JumpTest),
    JPHLP,
    CALL(JumpTest),
    RET(JumpTest),
    RETI,
    RST(VEC),
    ADDSP,
    POP(StackTarget),
    PUSH(StackTarget),
    DI,
    EI,
    HALT,
    DAA,
    NOP,
    STOP,
}

#[derive(Copy, Clone, Debug)]
pub enum LoadType {
    Byte(LoadByteTarget, LoadByteSource),
    /// Copy the immediate 16-bit value into a register pair.
    Word(LoadWordTarget),
    AFromIndirect(IndirectTarget),
    IndirectFromA(IndirectTarget),
    /// Copy SP & $FF to the immediate address and SP >> 8 to the next one.
    IndirectFromSP,
    SPFromHL,
    /// Add the signed immediate to SP and copy the result into HL.
    HLFromSPN,
}

#[derive(Copy, Clone, Debug)]
pub enum IndirectTarget {
    /// Address $FF00 + C.
    C,
    /// Address $FF00 + immediate byte.
    U8,
    /// Immediate 16-bit address.
    U16,
    BCP,
    DEP,
    HLI,
    HLD,
}

#[derive(Copy, Clone, Debug)]
pub enum LoadByteTarget {
    A,
    B,
    C,
    D,
    E,
    H,
    L,
    HLP,
}

#[derive(Copy, Clone, Debug)]
pub enum LoadByteSource {
    A,
    B,
    C,
    D,
    E,
    H,
    L,
    HLP,
    U8,
}

#[derive(Copy, Clone, Debug)]
pub enum LoadWordTarget {
    BC,
    DE,
    HL,
    SP,
}

#[derive(Copy, Clone, Debug)]
pub enum ADDHLTarget {
    BC,
    DE,
    HL,
    SP,
}

#[derive(Copy, Clone, Debug)]
pub enum IncDecTarget {
    A,
    B,
    C,
    D,
    E,
    H,
    L,
    BC,
    DE,
    HL,
    HLP,
    SP,
}

#[derive(Copy, Clone, Debug)]
pub enum StackTarget {
    AF,
    BC,
    DE,
    HL,
}

#[derive(Copy, Clone, Debug)]
pub enum ArithmeticTarget {
    A,
    B,
    C,
    D,
    E,
    H,
    L,
    HLP,
    U8,
}

#[derive(Copy, Clone, Debug)]
pub enum PrefixTarget {
    A,
    B,
    C,
    D,
    E,
    H,
    L,
    HLP,
}

/// An RST vector.
#[derive(Copy, Clone, Debug)]
pub enum VEC {
    X00,
    X08,
    X10,
    X18,
    X20,
    X28,
    X30,
    X38,
}

/// A condition code.
#[derive(Copy, Clone, Debug)]
pub enum JumpTest {
    Zero,
    NotZero,
    Carry,
    NotCarry,
    Always,
}

/// A bit index, 0 to 7.
#[derive(Copy, Clone, Debug)]
pub enum BitPosition {
    B0,
    B1,
    B2,
    B3,
    B4,
    B5,
    B6,
    B7,
}

/// The documented cost in M-cycles of an unprefixed opcode; `taken` selects the cost of a
/// conditional instruction whose condition holds.
pub open spec fn published_mcycles(op: u8, taken: bool) -> nat {
    match op {
        0x00 | 0x04 | 0x05 | 0x07 | 0x0C | 0x0D | 0x0F | 0x10 | 0x14 | 0x15 | 0x17 | 0x1C |
        0x1D | 0x1F | 0x24 | 0x25 | 0x27 | 0x2C | 0x2D | 0x2F | 0x37 | 0x3C | 0x3D | 0x3F |
        0x40 | 0x41 | 0x42 | 0x43 | 0x44 | 0x45 | 0x47 | 0x48 | 0x49 | 0x4A | 0x4B | 0x4C |
        0x4D | 0x4F | 0x50 | 0x51 | 0x52 | 0x53 | 0x54 | 0x55 | 0x57 | 0x58 | 0x59 | 0x5A |
        0x5B | 0x5C | 0x5D | 0x5F | 0x60 | 0x61 | 0x62 | 0x63 | 0x64 | 0x65 | 0x67 | 0x68 |
        0x69 | 0x6A | 0x6B | 0x6C | 0x6D | 0x6F | 0x76 | 0x78 | 0x79 | 0x7A | 0x7B | 0x7C |
        0x7D | 0x7F | 0x80 | 0x81 | 0x82 | 0x83 | 0x84 | 0x85 | 0x87 | 0x88 | 0x89 | 0x8A |
        0x8B | 0x8C | 0x8D | 0x8F | 0x90 | 0x91 | 0x92 | 0x93 | 0x94 | 0x95 | 0x97 | 0x98 |
        0x99 | 0x9A | 0x9B | 0x9C | 0x9D | 0x9F | 0xA0 | 0xA1 | 0xA2 | 0xA3 | 0xA4 | 0xA5 |
        0xA7 | 0xA8 | 0xA9 | 0xAA | 0xAB | 0xAC | 0xAD | 0xAF | 0xB0 | 0xB1 | 0xB2 | 0xB3 |
        0xB4 | 0xB5 | 0xB7 | 0xB8 | 0xB9 | 0xBA | 0xBB | 0xBC | 0xBD | 0xBF | 0xE9 | 0xF3 |
        0xFB => 1,
        0x02 | 0x03 | 0x06 | 0x09 | 0x0A | 0x0B | 0x0E | 0x12 | 0x13 | 0x16 | 0x19 | 0x1A |
        0x1B | 0x1E | 0x22 | 0x23 | 0x26 | 0x29 | 0x2A | 0x2B | 0x2E | 0x32 | 0x33 | 0x39 |
        0x3A | 0x3B | 0x3E | 0x46 | 0x4E | 0x56 | 0x5E | 0x66 | 0x6E | 0x70 | 0x71 | 0x72 |
        0x73 | 0x74 | 0x75 | 0x77 | 0x7E | 0x86 | 0x8E | 0x96 | 0x9E | 0xA6 | 0xAE | 0xB6 |
        0xBE | 0xC6 | 0xCE | 0xD6 | 0xDE | 0xE2 | 0xE6 | 0xEE | 0xF2 | 0xF6 | 0xF9 | 0xFE => 2,
        0x20 | 0x28 | 0x30 | 0x38 => if taken { 3 } else { 2 },
        0x01 | 0x11 | 0x18 | 0x21 | 0x31 | 0x34 | 0x35 | 0x36 | 0xC1 | 0xD1 | 0xE0 | 0xE1 |
        0xF0 | 0xF1 | 0xF8 => 3,
        0xC2 | 0xCA | 0xD2 | 0xDA => if taken { 4 } else { 3 },
        0xC3 | 0xC5 | 0xC7 | 0xC9 | 0xCF | 0xD5 | 0xD7 | 0xD9 | 0xDF | 0xE5 | 0xE7 | 0xE8 |
        0xEA | 0xEF | 0xF5 | 0xF7 | 0xFA | 0xFF => 4,
        0xC0 | 0xC8 | 0xD0 | 0xD8 => if taken { 5 } else { 2 },
        0x08 => 5,
        0xC4 | 0xCC | 0xD4 | 0xDC => if taken { 6 } else { 3 },
        0xCD => 6,
        _ => 0,
    }
}

/// The documented cost in M-cycles of a `$CB`-prefixed opcode.
pub open spec fn published_cb_mcycles(op: u8) -> nat {
    if op % 8 != 6 {
        2
    } else if 0x40 <= op < 0x80 {
        3
    } else {
        4
    }
}

/// The condition code that a conditional-capable opcode (JR, JP, CALL, RET) carries.
pub open spec fn op_jump_test(op: u8) -> Option<JumpTest> {
    if op == 0x20 || op == 0xC0 || op == 0xC2 || op == 0xC4 {
        Some(JumpTest::NotZero)
    } else if op == 0x28 || op == 0xC8 || op == 0xCA || op == 0xCC {
        Some(JumpTest::Zero)
    } else if op == 0x30 || op == 0xD0 || op == 0xD2 || op == 0xD4 {
        Some(JumpTest::NotCarry)
    } else if op == 0x38 || op == 0xD8 || op == 0xDA || op == 0xDC {
        Some(JumpTest::Carry)
    } else if op == 0x18 || op == 0xC3 || op == 0xC9 || op == 0xCD {
        Some(JumpTest::Always)
    } else {
        None
    }
}

/// The opcodes that the unprefixed table leaves unmapped; `$CB` is the prefix itself.
pub open spec fn is_unmapped(op: u8) -> bool {
    op == 0xD3 || op == 0xDB || op == 0xDD || op == 0xE3 || op == 0xE4 || op == 0xEB || op == 0xEC
        || op == 0xED || op == 0xF4 || op == 0xFC || op == 0xFD || op == 0xCB
}

impl LoadByteTarget {
    /// The operand's number in an opcode (B, C, D, E, H, L, (HL), A).
    pub open spec fn index(self) -> nat {
        match self {
            LoadByteTarget::B => 0,
            LoadByteTarget::C => 1,
            LoadByteTarget::D => 2,
            LoadByteTarget::E => 3,
            LoadByteTarget::H => 4,
            LoadByteTarget::L => 5,
            LoadByteTarget::HLP => 6,
            LoadByteTarget::A => 7,
        }
    }
}

impl LoadByteSource {
    /// The operand's number in an opcode; the immediate byte is 8.
    pub open spec fn index(self) -> nat {
        match self {
            LoadByteSource::B => 0,
            LoadByteSource::C => 1,
            LoadByteSource::D => 2,
            LoadByteSource::E => 3,
            LoadByteSource::H => 4,
            LoadByteSource::L => 5,
            LoadByteSource::HLP => 6,
            LoadByteSource::A => 7,
            LoadByteSource::U8 => 8,
        }
    }
}

impl ArithmeticTarget {
    /// The operand's number in an opcode; the immediate byte is 8.
    pub open spec fn index(self) -> nat {
        match self {
            ArithmeticTarget::B => 0,
            ArithmeticTarget::C => 1,
            ArithmeticTarget::D => 2,
            ArithmeticTarget::E => 3,
            ArithmeticTarget::H => 4,
            ArithmeticTarget::L => 5,
            ArithmeticTarget::HLP => 6,
            ArithmeticTarget::A => 7,
            ArithmeticTarget::U8 => 8,
        }
    }
}

impl PrefixTarget {
    /// The operand's number in the low three bits of a prefixed opcode.
    pub open spec fn index(self) -> nat {
        match self {
            PrefixTarget::B => 0,
            PrefixTarget::C => 1,
            PrefixTarget::D => 2,
            PrefixTarget::E => 3,
            PrefixTarget::H => 4,
            PrefixTarget::L => 5,
            PrefixTarget::HLP => 6,
            PrefixTarget::A => 7,
        }
    }

    pub open spec fn is_hlp(self) -> bool {
        self is HLP
    }
}

impl BitPosition {
    pub open spec fn spec_index(self) -> nat {
        match self {
            BitPosition::B0 => 0,
            BitPosition::B1 => 1,
            BitPosition::B2 => 2,
            BitPosition::B3 => 3,
            BitPosition::B4 => 4,
            BitPosition::B5 => 5,
            BitPosition::B6 => 6,
            BitPosition::B7 => 7,
        }
    }

    pub fn index(&self) -> (r: u8)
        ensures
            r == self.spec_index(),
    {
        match self {
            BitPosition::B0 => 0,
            BitPosition::B1 => 1,
            BitPosition::B2 => 2,
            BitPosition::B3 => 3,
            BitPosition::B4 => 4,
            BitPosition::B5 => 5,
            BitPosition::B6 => 6,
            BitPosition::B7 => 7,
        }
    }
}

impl VEC {
    pub open spec fn spec_addr(self) -> u16 {
        match self {
            VEC::X00 => 0x00,
            VEC::X08 => 0x08,
            VEC::X10 => 0x10,
            VEC::X18 => 0x18,
            VEC::X20 => 0x20,
            VEC::X28 => 0x28,
            VEC::X30 => 0x30,
            VEC::X38 => 0x38,
        }
    }

    /// The address that the vector jumps to.
    pub fn to_addr(&self) -> (r: u16)
        ensures
            r == self.spec_addr(),
            r % 8 == 0 && r <= 0x38,
    {
        match self {
            VEC::X00 => 0x00,
            VEC::X08 => 0x08,
            VEC::X10 => 0x10,
            VEC::X18 => 0x18,
            VEC::X20 => 0x20,
            VEC::X28 => 0x28,
            VEC::X30 => 0x30,
            VEC::X38 => 0x38,
        }
    }
}

impl JumpTest {
    pub open spec fn is_always(self) -> bool {
        self is Always
    }
}

impl Instruction {
    /// The ALU operation number (ADD, ADC, SUB, SBC, AND, XOR, OR, CP) and operand number;
    /// `None` for other instructions.
    pub open spec fn alu_parts(self) -> Option<(nat, nat)> {
        match self {
            Instruction::ADD(t) => Some((0, t.index())),
            Instruction::ADC(t) => Some((1, t.index())),
            Instruction::SUB(t) => Some((2, t.index())),
            Instruction::SBC(t) => Some((3, t.index())),
            Instruction::AND(t) => Some((4, t.index())),
            Instruction::XOR(t) => Some((5, t.index())),
            Instruction::OR(t) => Some((6, t.index())),
            Instruction::CP(t) => Some((7, t.index())),
            _ => None,
        }
    }

    /// The target and source numbers of an 8-bit register load; `None` otherwise.
    pub open spec fn load_parts(self) -> Option<(nat, nat)> {
        match self {
            Instruction::Load(LoadType::Byte(t, s)) => Some((t.index(), s.index())),
            _ => None,
        }
    }

    /// The cost in M-cycles; `taken` says whether a conditional instruction's condition held.
    pub open spec fn mcycles(self, taken: bool) -> nat {
        match self {
            Instruction::ADD(t) | Instruction::ADC(t) | Instruction::SUB(t) | Instruction::SBC(t)
            | Instruction::CP(t) | Instruction::AND(t) | Instruction::XOR(t) | Instruction::OR(t) => {
                if t is HLP || t is U8 { 2 } else { 1 }
            },
            Instruction::ADDHL(_) => 2,
            Instruction::INC(t) | Instruction::DEC(t) => match t {
                IncDecTarget::HLP => 3,
                IncDecTarget::BC | IncDecTarget::DE | IncDecTarget::HL | IncDecTarget::SP => 2,
                _ => 1,
            },
            Instruction::BIT(_, t) => if t is HLP { 3 } else { 2 },
            Instruction::RES(_, t) | Instruction::SET(_, t) | Instruction::RL(t) | Instruction::RLC(t)
            | Instruction::RR(t) | Instruction::RRC(t) | Instruction::SLA(t) | Instruction::SRA(t)
            | Instruction::SRL(t) | Instruction::SWAP(t) => if t is HLP { 4 } else { 2 },
            Instruction::Load(l) => match l {
                LoadType::Byte(t, s) => if t is HLP && s is U8 {
                    3
                } else if t is HLP || s is HLP || s is U8 {
                    2
                } else {
                    1
                },
                LoadType::Word(_) => 3,
                LoadType::AFromIndirect(i) | LoadType::IndirectFromA(i) => match i {
                    IndirectTarget::U8 => 3,
                    IndirectTarget::U16 => 4,
                    _ => 2,
                },
                LoadType::IndirectFromSP => 5,
                LoadType::SPFromHL => 2,
                LoadType::HLFromSPN => 3,
            },
            Instruction::JR(c) => if taken || c is Always { 3 } else { 2 },
            Instruction::JP(c) => if taken || c is Always { 4 } else { 3 },
            Instruction::CALL(c) => if taken || c is Always { 6 } else { 3 },
            Instruction::RET(c) => if c is Always { 4 } else if taken { 5 } else { 2 },
            Instruction::RETI | Instruction::RST(_) | Instruction::ADDSP | Instruction::PUSH(_) => 4,
            Instruction::POP(_) => 3,
            _ => 1,
        }
    }

    /// Decodes one opcode byte; `prefixed` says whether a `$CB` prefix came before it.
    pub fn from_byte(byte: u8, prefixed: bool) -> (r: Option<Self>)
        ensures
            prefixed ==> r.is_some() && forall|t: bool| r.unwrap().mcycles(t) == published_cb_mcycles(byte),
            !prefixed ==> (r.is_none() <==> is_unmapped(byte)),
            !prefixed && r.is_some() ==> r.unwrap().mcycles(true) == published_mcycles(byte, true),
            !prefixed && r.is_some() ==> r.unwrap().mcycles(false) == published_mcycles(byte, false),
    {
        if prefixed {
            Some(Self::from_byte_prefixed(byte))
        } else {
            Self::from_byte_not_prefixed(byte)
        }
    }

    /// The unprefixed table.
    pub fn from_byte_not_prefixed(byte: u8) -> (r: Option<Self>)
        ensures
            r.is_none() <==> is_unmapped(byte),
            0x40 <= byte < 0x80 && byte != 0x76 ==> r.is_some() && r.unwrap().load_parts() == Some(
                (((byte / 8) % 8) as nat, (byte % 8) as nat),
            ),
            byte == 0x76 ==> r == Some(Instruction::HALT),
            r matches Some(ins) ==> ins.jump_test() == op_jump_test(byte),
            byte == 0x00 ==> r == Some(Instruction::NOP),
            byte == 0xF3 ==> r == Some(Instruction::DI),
            byte == 0xFB ==> r == Some(Instruction::EI),
            (r matches Some(ins) && ins is STOP) <==> byte == 0x10,
            0x80 <= byte < 0xC0 ==> r.is_some() && r.unwrap().alu_parts() == Some(
                (((byte / 8) % 8) as nat, (byte % 8) as nat),
            ),
            r.is_some() ==> r.unwrap().mcycles(true) == published_mcycles(byte, true),
            r.is_some() ==> r.unwrap().mcycles(false) == published_mcycles(byte, false),
    {
        match byte {
            0x00 => Some(Instruction::NOP),
            0x01 => Some(Instruction::Load(LoadType::Word(LoadWordTarget::BC))),
            0x02 => Some(Instruction::Load(LoadType::IndirectFromA(IndirectTarget::BCP))),
            0x03 => Some(Instruction::INC(IncDecTarget::BC)),
            0x04 => Some(Instruction::INC(IncDecTarget::B)),
            0x05 => Some(Instruction::DEC(IncDecTarget::B)),
            0x06 => Some(Instruction::Load(LoadType::Byte(LoadByteTarget::B, LoadByteSource::U8))),
            0x07 => Some(Instruction::RLCA),
            0x08 => Some(Instruction::Load(LoadType::IndirectFromSP)),
            0x09 => Some(Instruction::ADDHL(ADDHLTarget::BC)),
            0x0A => Some(Instruction::Load(LoadType::AFromIndirect(IndirectTarget::BCP))),
            0x0B => Some(Instruction::DEC(IncDecTarget::BC)),
            0x0C => Some(Instruction::INC(IncDecTarget::C)),
            0x0D => Some(Instruction::DEC(IncDecTarget::C)),
            0x0E => Some(Instruction::Load(LoadType::Byte(LoadByteTarget::C, LoadByteSource::U8))),
            0x0F => Some(Instruction::RRCA),
            0x10 => Some(Instruction::STOP),
            0x11 => Some(Instruction::Load(LoadType::Word(LoadWordTarget::DE))),
            0x12 => Some(Instruction::Load(LoadType::IndirectFromA(IndirectTarget::DEP))),
            0x13 => Some(Instruction::INC(IncDecTarget::DE)),
            0x14 => Some(Instruction::INC(IncDecTarget::D)),
            0x15 => Some(Instruction::DEC(IncDecTarget::D)),
            0x16 => Some(Instruction::Load(LoadType::Byte(LoadByteTarget::D, LoadByteSource::U8))),
            0x17 => Some(Instruction::RLA),
            0x18 => Some(Instruction::JR(JumpTest::Always)),
            0x19 => Some(Instruction::ADDHL(ADDHLTarget::DE)),
            0x1A => Some(Instruction::Load(LoadType::AFromIndirect(IndirectTarget::DEP))),
            0x1B => Some(Instruction::DEC(IncDecTarget::DE)),
            0x1C => Some(Instruction::INC(IncDecTarget::E)),
            0x1D => Some(Instruction::DEC(IncDecTarget::E)),
            0x1E => Some(Instruction::Load(LoadType::Byte(LoadByteTarget::E, LoadByteSource::U8))),
            0x1F => Some(Instruction::RRA),
            0x20 => Some(Instruction::JR(JumpTest::NotZero)),
            0x21 => Some(Instruction::Load(LoadType::Word(LoadWordTarget::HL))),
            0x22 => Some(Instruction::Load(LoadType::IndirectFromA(IndirectTarget::HLI))),
            0x23 => Some(Instruction::INC(IncDecTarget::HL)),
            0x24 => Some(Instruction::INC(IncDecTarget::H)),
            0x25 => Some(Instruction::DEC(IncDecTarget::H)),
            0x26 => Some(Instruction::Load(LoadType::Byte(LoadByteTarget::H, LoadByteSource::U8))),
            0x27 => Some(Instruction::DAA),
            0x28 => Some(Instruction::JR(JumpTest::Zero)),
            0x29 => Some(Instruction::ADDHL(ADDHLTarget::HL)),
            0x2A => Some(Instruction::Load(LoadType::AFromIndirect(IndirectTarget::HLI))),
            0x2B => Some(Instruction::DEC(IncDecTarget::HL)),
            0x2C => Some(Instruction::INC(IncDecTarget::L)),
            0x2D => Some(Instruction::DEC(IncDecTarget::L)),
            0x2E => Some(Instruction::Load(LoadType::Byte(LoadByteTarget::L, LoadByteSource::U8))),
            0x2F => Some(Instruction::CPL),
            0x30 => Some(Instruction::JR(JumpTest::NotCarry)),
            0x31 => Some(Instruction::Load(LoadType::Word(LoadWordTarget::SP))),
            0x32 => Some(Instruction::Load(LoadType::IndirectFromA(IndirectTarget::HLD))),
            0x33 => Some(Instruction::INC(IncDecTarget::SP)),
            0x34 => Some(Instruction::INC(IncDecTarget::HLP)),
            0x35 => Some(Instruction::DEC(IncDecTarget::HLP)),
            0x36 => Some(Instruction::Load(LoadType::Byte(LoadByteTarget::HLP, LoadByteSource::U8))),
            0x37 => Some(Instruction::SCF),
            0x38 => Some(Instruction::JR(JumpTest::Carry)),
            0x39 => Some(Instruction::ADDHL(ADDHLTarget::SP)),
            0x3A => Some(Instruction::Load(LoadType::AFromIndirect(IndirectTarget::HLD))),
            0x3B => Some(Instruction::DEC(IncDecTarget::SP)),
            0x3C => Some(Instruction::INC(IncDecTarget::A)),
            0x3D => Some(Instruction::DEC(IncDecTarget::A)),
            0x3E => Some(Instruction::Load(LoadType::Byte(LoadByteTarget::A, LoadByteSource::U8))),
            0x3F => Some(Instruction::CCF),
            0x40 => Some(Instruction::Load(LoadType::Byte(LoadByteTarget::B, LoadByteSource::B))),
            0x41 => Some(Instruction::Load(LoadType::Byte(LoadByteTarget::B, LoadByteSource::C))),
            0x42 => Some(Instruction::Load(LoadType::Byte(LoadByteTarget::B, LoadByteSource::D))),
            0x43 => Some(Instruction::Load(LoadType::Byte(LoadByteTarget::B, LoadByteSource::E))),
            0x44 => Some(Instruction::Load(LoadType::Byte(LoadByteTarget::B, LoadByteSource::H))),
            0x45 => Some(Instruction::Load(LoadType::Byte(LoadByteTarget::B, LoadByteSource::L))),
            0x46 => Some(Instruction::Load(LoadType::Byte(LoadByteTarget::B, LoadByteSource::HLP))),
            0x47 => Some(Instruction::Load(LoadType::Byte(LoadByteTarget::B, LoadByteSource::A))),
            0x48 => Some(Instruction::Load(LoadType::Byte(LoadByteTarget::C, LoadByteSource::B))),
            0x49 => Some(Instruction::Load(LoadType::Byte(LoadByteTarget::C, LoadByteSource::C))),
            0x4A => Some(Instruction::Load(LoadType::Byte(LoadByteTarget::C, LoadByteSource::D))),
            0x4B => Some(Instruction::Load(LoadType::Byte(LoadByteTarget::C, LoadByteSource::E))),
            0x4C => Some(Instruction::Load(LoadType::Byte(LoadByteTarget::C, LoadByteSource::H))),
            0x4D => Some(Instruction::Load(LoadType::Byte(LoadByteTarget::C, LoadByteSource::L))),
            0x4E => Some(Instruction::Load(LoadType::Byte(LoadByteTarget::C, LoadByteSource::HLP))),
            0x4F => Some(Instruction::Load(LoadType::Byte(LoadByteTarget::C, LoadByteSource::A))),
            0x50 => Some(Instruction::Load(LoadType::Byte(LoadByteTarget::D, LoadByteSource::B))),
            0x51 => Some(Instruction::Load(LoadType::Byte(LoadByteTarget::D, LoadByteSource::C))),
            0x52 => Some(Instruction::Load(LoadType::Byte(LoadByteTarget::D, LoadByteSource::D))),
            0x53 => Some(Instruction::Load(LoadType::Byte(LoadByteTarget::D, LoadByteSource::E))),
            0x54 => Some(Instruction::Load(LoadType::Byte(LoadByteTarget::D, LoadByteSource::H))),
            0x55 => Some(Instruction::Load(LoadType::Byte(LoadByteTarget::D, LoadByteSource::L))),
            0x56 => Some(Instruction::Load(LoadType::Byte(LoadByteTarget::D, LoadByteSource::HLP))),
            0x57 => Some(Instruction::Load(LoadType::Byte(LoadByteTarget::D, LoadByteSource::A))),
            0x58 => Some(Instruction::Load(LoadType::Byte(LoadByteTarget::E, LoadByteSource::B))),
            0x59 => Some(Instruction::Load(LoadType::Byte(LoadByteTarget::E, LoadByteSource::C))),
            0x5A => Some(Instruction::Load(LoadType::Byte(LoadByteTarget::E, LoadByteSource::D))),
            0x5B => Some(Instruction::Load(LoadType::Byte(LoadByteTarget::E, LoadByteSource::E))),
            0x5C => Some(Instruction::Load(LoadType::Byte(LoadByteTarget::E, LoadByteSource::H))),
            0x5D => Some(Instruction::Load(LoadType::Byte(LoadByteTarget::E, LoadByteSource::L))),
            0x5E => Some(Instruction::Load(LoadType::Byte(LoadByteTarget::E, LoadByteSource::HLP))),
            0x5F => Some(Instruction::Load(LoadType::Byte(LoadByteTarget::E, LoadByteSource::A))),
            0x60 => Some(Instruction::Load(LoadType::Byte(LoadByteTarget::H, LoadByteSource::B))),
            0x61 => Some(Instruction::Load(LoadType::Byte(LoadByteTarget::H, LoadByteSource::C))),
            0x62 => Some(Instruction::Load(LoadType::Byte(LoadByteTarget::H, LoadByteSource::D))),
            0x63 => Some(Instruction::Load(LoadType::Byte(LoadByteTarget::H, LoadByteSource::E))),
            0x64 => Some(Instruction::Load(LoadType::Byte(LoadByteTarget::H, LoadByteSource::H))),
            0x65 => Some(Instruction::Load(LoadType::Byte(LoadByteTarget::H, LoadByteSource::L))),
            0x66 => Some(Instruction::Load(LoadType::Byte(LoadByteTarget::H, LoadByteSource::HLP))),
            0x67 => Some(Instruction::Load(LoadType::Byte(LoadByteTarget::H, LoadByteSource::A))),
            0x68 => Some(Instruction::Load(LoadType::Byte(LoadByteTarget::L, LoadByteSource::B))),
            0x69 => Some(Instruction::Load(LoadType::Byte(LoadByteTarget::L, LoadByteSource::C))),
            0x6A => Some(Instruction::Load(LoadType::Byte(LoadByteTarget::L, LoadByteSource::D))),
            0x6B => Some(Instruction::Load(LoadType::Byte(LoadByteTarget::L, LoadByteSource::E))),
            0x6C => Some(Instruction::Load(LoadType::Byte(LoadByteTarget::L, LoadByteSource::H))),
            0x6D => Some(Instruction::Load(LoadType::Byte(LoadByteTarget::L, LoadByteSource::L))),
            0x6E => Some(Instruction::Load(LoadType::Byte(LoadByteTarget::L, LoadByteSource::HLP))),
            0x6F => Some(Instruction::Load(LoadType::Byte(LoadByteTarget::L, LoadByteSource::A))),
            0x70 => Some(Instruction::Load(LoadType::Byte(LoadByteTarget::HLP, LoadByteSource::B))),
            0x71 => Some(Instruction::Load(LoadType::Byte(LoadByteTarget::HLP, LoadByteSource::C))),
            0x72 => Some(Instruction::Load(LoadType::Byte(LoadByteTarget::HLP, LoadByteSource::D))),
            0x73 => Some(Instruction::Load(LoadType::Byte(LoadByteTarget::HLP, LoadByteSource::E))),
            0x74 => Some(Instruction::Load(LoadType::Byte(LoadByteTarget::HLP, LoadByteSource::H))),
            0x75 => Some(Instruction::Load(LoadType::Byte(LoadByteTarget::HLP, LoadByteSource::L))),
            0x76 => Some(Instruction::HALT),
            0x77 => Some(Instruction::Load(LoadType::Byte(LoadByteTarget::HLP, LoadByteSource::A))),
            0x78 => Some(Instruction::Load(LoadType::Byte(LoadByteTarget::A, LoadByteSource::B))),
            0x79 => Some(Instruction::Load(LoadType::Byte(LoadByteTarget::A, LoadByteSource::C))),
            0x7A => Some(Instruction::Load(LoadType::Byte(LoadByteTarget::A, LoadByteSource::D))),
            0x7B => Some(Instruction::Load(LoadType::Byte(LoadByteTarget::A, LoadByteSource::E))),
            0x7C => Some(Instruction::Load(LoadType::Byte(LoadByteTarget::A, LoadByteSource::H))),
            0x7D => Some(Instruction::Load(LoadType::Byte(LoadByteTarget::A, LoadByteSource::L))),
            0x7E => Some(Instruction::Load(LoadType::Byte(LoadByteTarget::A, LoadByteSource::HLP))),
            0x7F => Some(Instruction::Load(LoadType::Byte(LoadByteTarget::A, LoadByteSource::A))),
            0x80 => Some(Instruction::ADD(ArithmeticTarget::B)),
            0x81 => Some(Instruction::ADD(ArithmeticTarget::C)),
            0x82 => Some(Instruction::ADD(ArithmeticTarget::D)),
            0x83 => Some(Instruction::ADD(ArithmeticTarget::E)),
            0x84 => Some(Instruction::ADD(ArithmeticTarget::H)),
            0x85 => Some(Instruction::ADD(ArithmeticTarget::L)),
            0x86 => Some(Instruction::ADD(ArithmeticTarget::HLP)),
            0x87 => Some(Instruction::ADD(ArithmeticTarget::A)),
            0x88 => Some(Instruction::ADC(ArithmeticTarget::B)),
            0x89 => Some(Instruction::ADC(ArithmeticTarget::C)),
            0x8A => Some(Instruction::ADC(ArithmeticTarget::D)),
            0x8B => Some(Instruction::ADC(ArithmeticTarget::E)),
            0x8C => Some(Instruction::ADC(ArithmeticTarget::H)),
            0x8D => Some(Instruction::ADC(ArithmeticTarget::L)),
            0x8E => Some(Instruction::ADC(ArithmeticTarget::HLP)),
            0x8F => Some(Instruction::ADC(ArithmeticTarget::A)),
            0x90 => Some(Instruction::SUB(ArithmeticTarget::B)),
            0x91 => Some(Instruction::SUB(ArithmeticTarget::C)),
            0x92 => Some(Instruction::SUB(ArithmeticTarget::D)),
            0x93 => Some(Instruction::SUB(ArithmeticTarget::E)),
            0x94 => Some(Instruction::SUB(ArithmeticTarget::H)),
            0x95 => Some(Instruction::SUB(ArithmeticTarget::L)),
            0x96 => Some(Instruction::SUB(ArithmeticTarget::HLP)),
            0x97 => Some(Instruction::SUB(ArithmeticTarget::A)),
            0x98 => Some(Instruction::SBC(ArithmeticTarget::B)),
            0x99 => Some(Instruction::SBC(ArithmeticTarget::C)),
            0x9A => Some(Instruction::SBC(ArithmeticTarget::D)),
            0x9B => Some(Instruction::SBC(ArithmeticTarget::E)),
            0x9C => Some(Instruction::SBC(ArithmeticTarget::H)),
            0x9D => Some(Instruction::SBC(ArithmeticTarget::L)),
            0x9E => Some(Instruction::SBC(ArithmeticTarget::HLP)),
            0x9F => Some(Instruction::SBC(ArithmeticTarget::A)),
            0xA0 => Some(Instruction::AND(ArithmeticTarget::B)),
            0xA1 => Some(Instruction::AND(ArithmeticTarget::C)),
            0xA2 => Some(Instruction::AND(ArithmeticTarget::D)),
            0xA3 => Some(Instruction::AND(ArithmeticTarget::E)),
            0xA4 => Some(Instruction::AND(ArithmeticTarget::H)),
            0xA5 => Some(Instruction::AND(ArithmeticTarget::L)),
            0xA6 => Some(Instruction::AND(ArithmeticTarget::HLP)),
            0xA7 => Some(Instruction::AND(ArithmeticTarget::A)),
            0xA8 => Some(Instruction::XOR(ArithmeticTarget::B)),
            0xA9 => Some(Instruction::XOR(ArithmeticTarget::C)),
            0xAA => Some(Instruction::XOR(ArithmeticTarget::D)),
            0xAB => Some(Instruction::XOR(ArithmeticTarget::E)),
            0xAC => Some(Instruction::XOR(ArithmeticTarget::H)),
            0xAD => Some(Instruction::XOR(ArithmeticTarget::L)),
            0xAE => Some(Instruction::XOR(ArithmeticTarget::HLP)),
            0xAF => Some(Instruction::XOR(ArithmeticTarget::A)),
            0xB0 => Some(Instruction::OR(ArithmeticTarget::B)),
            0xB1 => Some(Instruction::OR(ArithmeticTarget::C)),
            0xB2 => Some(Instruction::OR(ArithmeticTarget::D)),
            0xB3 => Some(Instruction::OR(ArithmeticTarget::E)),
            0xB4 => Some(Instruction::OR(ArithmeticTarget::H)),
            0xB5 => Some(Instruction::OR(ArithmeticTarget::L)),
            0xB6 => Some(Instruction::OR(ArithmeticTarget::HLP)),
            0xB7 => Some(Instruction::OR(ArithmeticTarget::A)),
            0xB8 => Some(Instruction::CP(ArithmeticTarget::B)),
            0xB9 => Some(Instruction::CP(ArithmeticTarget::C)),
            0xBA => Some(Instruction::CP(ArithmeticTarget::D)),
            0xBB => Some(Instruction::CP(ArithmeticTarget::E)),
            0xBC => Some(Instruction::CP(ArithmeticTarget::H)),
            0xBD => Some(Instruction::CP(ArithmeticTarget::L)),
            0xBE => Some(Instruction::CP(ArithmeticTarget::HLP)),
            0xBF => Some(Instruction::CP(ArithmeticTarget::A)),
            0xC0 => Some(Instruction::RET(JumpTest::NotZero)),
            0xC1 => Some(Instruction::POP(StackTarget::BC)),
            0xC2 => Some(Instruction::JP(JumpTest::NotZero)),
            0xC3 => Some(Instruction::JP(JumpTest::Always)),
            0xC4 => Some(Instruction::CALL(JumpTest::NotZero)),
            0xC5 => Some(Instruction::PUSH(StackTarget::BC)),
            0xC6 => Some(Instruction::ADD(ArithmeticTarget::U8)),
            0xC7 => Some(Instruction::RST(VEC::X00)),
            0xC8 => Some(Instruction::RET(JumpTest::Zero)),
            0xC9 => Some(Instruction::RET(JumpTest::Always)),
            0xCA => Some(Instruction::JP(JumpTest::Zero)),
            0xCC => Some(Instruction::CALL(JumpTest::Zero)),
            0xCD => Some(Instruction::CALL(JumpTest::Always)),
            0xCE => Some(Instruction::ADC(ArithmeticTarget::U8)),
            0xCF => Some(Instruction::RST(VEC::X08)),
            0xD0 => Some(Instruction::RET(JumpTest::NotCarry)),
            0xD1 => Some(Instruction::POP(StackTarget::DE)),
            0xD2 => Some(Instruction::JP(JumpTest::NotCarry)),
            0xD4 => Some(Instruction::CALL(JumpTest::NotCarry)),
            0xD5 => Some(Instruction::PUSH(StackTarget::DE)),
            0xD6 => Some(Instruction::SUB(ArithmeticTarget::U8)),
            0xD7 => Some(Instruction::RST(VEC::X10)),
            0xD8 => Some(Instruction::RET(JumpTest::Carry)),
            0xD9 => Some(Instruction::RETI),
            0xDA => Some(Instruction::JP(JumpTest::Carry)),
            0xDC => Some(Instruction::CALL(JumpTest::Carry)),
            0xDE => Some(Instruction::SBC(ArithmeticTarget::U8)),
            0xDF => Some(Instruction::RST(VEC::X18)),
            0xE0 => Some(Instruction::Load(LoadType::IndirectFromA(IndirectTarget::U8))),
            0xE1 => Some(Instruction::POP(StackTarget::HL)),
            0xE2 => Some(Instruction::Load(LoadType::IndirectFromA(IndirectTarget::C))),
            0xE5 => Some(Instruction::PUSH(StackTarget::HL)),
            0xE6 => Some(Instruction::AND(ArithmeticTarget::U8)),
            0xE7 => Some(Instruction::RST(VEC::X20)),
            0xE8 => Some(Instruction::ADDSP),
            0xE9 => Some(Instruction::JPHLP),
            0xEA => Some(Instruction::Load(LoadType::IndirectFromA(IndirectTarget::U16))),
            0xEE => Some(Instruction::XOR(ArithmeticTarget::U8)),
            0xEF => Some(Instruction::RST(VEC::X28)),
            0xF0 => Some(Instruction::Load(LoadType::AFromIndirect(IndirectTarget::U8))),
            0xF1 => Some(Instruction::POP(StackTarget::AF)),
            0xF2 => Some(Instruction::Load(LoadType::AFromIndirect(IndirectTarget::C))),
            0xF3 => Some(Instruction::DI),
            0xF5 => Some(Instruction::PUSH(StackTarget::AF)),
            0xF6 => Some(Instruction::OR(ArithmeticTarget::U8)),
            0xF7 => Some(Instruction::RST(VEC::X30)),
            0xF8 => Some(Instruction::Load(LoadType::HLFromSPN)),
            0xF9 => Some(Instruction::Load(LoadType::SPFromHL)),
            0xFA => Some(Instruction::Load(LoadType::AFromIndirect(IndirectTarget::U16))),
            0xFB => Some(Instruction::EI),
            0xFE => Some(Instruction::CP(ArithmeticTarget::U8)),
            0xFF => Some(Instruction::RST(VEC::X38)),
            _ => None,
        }
    }

    /// The `$CB`-prefixed table: eight rotate/shift/swap families, then BIT, RES and SET over
    /// eight bit positions, each over the eight operands.
    pub fn from_byte_prefixed(byte: u8) -> (r: Self)
        ensures
            forall|t: bool| r.mcycles(t) == published_cb_mcycles(byte),
            r.prefix_operand() == byte % 8,
            byte < 0x40 ==> r.prefix_family() == byte / 8,
            byte >= 0x40 ==> r.prefix_family() == 7 + byte / 64,
            byte >= 0x40 ==> r.bit_operand() == (byte / 8) % 8,
    {
        let target = Self::prefix_target(byte % 8);
        let bit = Self::bit_position((byte / 8) % 8);
        if byte < 0x40 {
            match byte / 8 {
                0 => Instruction::RLC(target),
                1 => Instruction::RRC(target),
                2 => Instruction::RL(target),
                3 => Instruction::RR(target),
                4 => Instruction::SLA(target),
                5 => Instruction::SRA(target),
                6 => Instruction::SWAP(target),
                _ => Instruction::SRL(target),
            }
        } else if byte < 0x80 {
            Instruction::BIT(bit, target)
        } else if byte < 0xC0 {
            Instruction::RES(bit, target)
        } else {
            Instruction::SET(bit, target)
        }
    }

    /// The operand number of a prefixed instruction.
    pub open spec fn prefix_operand(self) -> nat {
        match self {
            Instruction::BIT(_, t) | Instruction::RES(_, t) | Instruction::SET(_, t) | Instruction::RL(t)
            | Instruction::RLC(t) | Instruction::RR(t) | Instruction::RRC(t) | Instruction::SLA(t)
            | Instruction::SRA(t) | Instruction::SRL(t) | Instruction::SWAP(t) => t.index(),
            _ => 8,
        }
    }

    /// The condition code of JR, JP, CALL and RET; `None` for other instructions.
    pub open spec fn jump_test(self) -> Option<JumpTest> {
        match self {
            Instruction::JR(t) | Instruction::JP(t) | Instruction::CALL(t) | Instruction::RET(t) => Some(t),
            _ => None,
        }
    }

    /// The operation of a prefixed instruction: RLC, RRC, RL, RR, SLA, SRA, SWAP, SRL are 0..7,
    /// BIT, RES, SET are 8, 9, 10; 11 for others.
    pub open spec fn prefix_family(self) -> nat {
        match self {
            Instruction::RLC(_) => 0,
            Instruction::RRC(_) => 1,
            Instruction::RL(_) => 2,
            Instruction::RR(_) => 3,
            Instruction::SLA(_) => 4,
            Instruction::SRA(_) => 5,
            Instruction::SWAP(_) => 6,
            Instruction::SRL(_) => 7,
            Instruction::BIT(_, _) => 8,
            Instruction::RES(_, _) => 9,
            Instruction::SET(_, _) => 10,
            _ => 11,
        }
    }

    /// The bit number of BIT, RES and SET.
    pub open spec fn bit_operand(self) -> nat {
        match self {
            Instruction::BIT(b, _) | Instruction::RES(b, _) | Instruction::SET(b, _) => b.spec_index(),
            _ => 8,
        }
    }

    fn prefix_target(z: u8) -> (r: PrefixTarget)
        requires
            z < 8,
        ensures
            r.index() == z,
    {
        match z {
            0 => PrefixTarget::B,
            1 => PrefixTarget::C,
            2 => PrefixTarget::D,
            3 => PrefixTarget::E,
            4 => PrefixTarget::H,
            5 => PrefixTarget::L,
            6 => PrefixTarget::HLP,
            _ => PrefixTarget::A,
        }
    }

    fn bit_position(y: u8) -> (r: BitPosition)
        requires
            y < 8,
        ensures
            r.spec_index() == y,
    {
        match y {
            0 => BitPosition::B0,
            1 => BitPosition::B1,
            2 => BitPosition::B2,
            3 => BitPosition::B3,
            4 => BitPosition::B4,
            5 => BitPosition::B5,
            6 => BitPosition::B6,
            _ => BitPosition::B7,
        }
    }
}

} // verus!
