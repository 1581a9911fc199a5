use vstd::prelude::*;

use crate::alu::{
    signed_offset, spec_daa,
    add_hl, add_sp, add_with_carry, add_without_carry, bitwise_and, compare, sub_with_carry, sub_without_carry, bitwise_or, bitwise_xor, check_bit, decimal_adjust_accum, decrement_u8,
    increment_u8, logic_flags, reset_bit, set_bit, shift, spec_add, spec_add_hl, spec_add_sp, spec_check_bit,
    spec_dec, spec_inc, spec_shift, spec_sub,
};
use crate::gpu::GPU;
use crate::instruction::{
    op_jump_test, published_cb_mcycles, published_mcycles, is_unmapped, ADDHLTarget, ArithmeticTarget, IncDecTarget, IndirectTarget, Instruction, JumpTest, LoadByteSource,
    LoadByteTarget, LoadType, LoadWordTarget, PrefixTarget, StackTarget,
};
use crate::joypad::JoypadKey;
use crate::mbc::{loadable, CartridgeError};
use crate::memory_bus::{is_plain_ram, MemoryBus};
use crate::registers::{pair, CpuRegisters, FlagsRegister};
use crate::sound::AudioBuff;
use crate::timer::InterruptFlags;

verus! {

/// Why the CPU stopped.
#[derive(Copy, Clone, Debug, PartialEq, Eq, Structural)]
pub enum CpuFault {
    /// The opcode at PC is not mapped.
    UndefinedOpcode(u8),
    /// STOP was executed; this core does not model the low-power mode.
    Stop,
}

/// Whether a condition code holds under the flags.
pub open spec fn cond_holds(t: JumpTest, f: FlagsRegister) -> bool {
    match t {
        JumpTest::Zero => f.zero,
        JumpTest::NotZero => !f.zero,
        JumpTest::Carry => f.carry,
        JumpTest::NotCarry => !f.carry,
        JumpTest::Always => true,
    }
}

/// Whether a conditional instruction's condition holds under the flags.
pub open spec fn taken(instr: Instruction, f: FlagsRegister) -> bool {
    match instr.jump_test() {
        Some(t) => cond_holds(t, f),
        None => false,
    }
}

/// Whether the condition of opcode `op` holds under the flags (false for opcodes without
/// one).
pub open spec fn op_taken(op: u8, f: FlagsRegister) -> bool {
    match op_jump_test(op) {
        Some(t) => cond_holds(t, f),
        None => false,
    }
}

/// Instructions that may set PC other than to the next instruction.
pub open spec fn is_control(instr: Instruction) -> bool {
    instr is JR || instr is JP || instr is JPHLP || instr is CALL || instr is RET || instr is RETI || instr is RST
}

/// The instruction's length in bytes, prefix included.
pub open spec fn length(instr: Instruction) -> int {
    match instr {
        Instruction::ADD(t) | Instruction::ADC(t) | Instruction::SUB(t) | Instruction::SBC(t) | Instruction::CP(t)
        | Instruction::AND(t) | Instruction::XOR(t) | Instruction::OR(t) => if t is U8 { 2 } else { 1 },
        Instruction::BIT(_, _) | Instruction::RES(_, _) | Instruction::SET(_, _) | Instruction::RL(_)
        | Instruction::RLC(_) | Instruction::RR(_) | Instruction::RRC(_) | Instruction::SLA(_) | Instruction::SRA(_)
        | Instruction::SRL(_) | Instruction::SWAP(_) => 2,
        Instruction::Load(l) => match l {
            LoadType::Byte(_, s) => if s is U8 { 2 } else { 1 },
            LoadType::Word(_) => 3,
            LoadType::AFromIndirect(i) | LoadType::IndirectFromA(i) => if i is U8 { 2 } else if i is U16 { 3 } else { 1 },
            LoadType::IndirectFromSP => 3,
            LoadType::SPFromHL => 1,
            LoadType::HLFromSPN => 2,
        },
        Instruction::ADDSP | Instruction::JR(_) => 2,
        Instruction::JP(_) | Instruction::CALL(_) => 3,
        _ => 1,
    }
}

pub open spec fn next_pc(pc: u16, n: int) -> u16 {
    ((pc + n) % 65536) as u16
}

/// The value of a register operand (HL-indirect excluded).
pub open spec fn reg_of(r: CpuRegisters, t: PrefixTarget) -> u8 {
    match t {
        PrefixTarget::A => r.a,
        PrefixTarget::B => r.b,
        PrefixTarget::C => r.c,
        PrefixTarget::D => r.d,
        PrefixTarget::E => r.e,
        PrefixTarget::H => r.h,
        PrefixTarget::L => r.l,
        PrefixTarget::HLP => 0,
    }
}

/// The register file with operand `t` replaced (HL-indirect leaves it unchanged).
pub open spec fn with_reg(r: CpuRegisters, t: PrefixTarget, v: u8) -> CpuRegisters {
    match t {
        PrefixTarget::A => CpuRegisters { a: v, ..r },
        PrefixTarget::B => CpuRegisters { b: v, ..r },
        PrefixTarget::C => CpuRegisters { c: v, ..r },
        PrefixTarget::D => CpuRegisters { d: v, ..r },
        PrefixTarget::E => CpuRegisters { e: v, ..r },
        PrefixTarget::H => CpuRegisters { h: v, ..r },
        PrefixTarget::L => CpuRegisters { l: v, ..r },
        PrefixTarget::HLP => r,
    }
}

pub open spec fn arith_target(t: ArithmeticTarget) -> PrefixTarget {
    match t {
        ArithmeticTarget::A => PrefixTarget::A,
        ArithmeticTarget::B => PrefixTarget::B,
        ArithmeticTarget::C => PrefixTarget::C,
        ArithmeticTarget::D => PrefixTarget::D,
        ArithmeticTarget::E => PrefixTarget::E,
        ArithmeticTarget::H => PrefixTarget::H,
        ArithmeticTarget::L => PrefixTarget::L,
        _ => PrefixTarget::HLP,
    }
}

/// The result in A and the flags of an ALU instruction on operand `v`; CP keeps A.
pub open spec fn arith_result(instr: Instruction, a: u8, v: u8, f: FlagsRegister) -> (u8, FlagsRegister) {
    match instr {
        Instruction::ADD(_) => spec_add(a, v, false),
        Instruction::ADC(_) => spec_add(a, v, f.carry),
        Instruction::SUB(_) => spec_sub(a, v, false),
        Instruction::SBC(_) => spec_sub(a, v, f.carry),
        Instruction::AND(_) => (a & v, logic_flags(a & v, true)),
        Instruction::XOR(_) => (a ^ v, logic_flags(a ^ v, false)),
        Instruction::OR(_) => (a | v, logic_flags(a | v, false)),
        _ => (a, spec_sub(a, v, false).1),
    }
}

/// The highest-priority source set in `p`: VBlank 0, LCD 1, Timer 2, Serial 3, Joypad 4;
/// 5 when none is.
pub open spec fn first_source(p: InterruptFlags) -> int {
    if p.vblank {
        0
    } else if p.lcd {
        1
    } else if p.timer {
        2
    } else if p.serial {
        3
    } else if p.joypad {
        4
    } else {
        5
    }
}

/// `f` with source `k` cleared.
pub open spec fn without_source(f: InterruptFlags, k: int) -> InterruptFlags {
    InterruptFlags {
        vblank: f.vblank && k != 0,
        lcd: f.lcd && k != 1,
        timer: f.timer && k != 2,
        serial: f.serial && k != 3,
        joypad: f.joypad && k != 4,
    }
}

/// The CPU: registers, PC, SP, interrupt master enable and HALT, and the bus it drives.
pub struct CPU {
    pub registers: CpuRegisters,
    pub memory: MemoryBus,
    /// Program counter.
    pub pc: u16,
    /// Stack pointer.
    pub sp: u16,
    pub is_halted: bool,
    /// IME.
    pub interrupts_enabled: bool,
    /// Countdowns that apply DI and EI one instruction late.
    pub di_timer: u8,
    pub ei_timer: u8,
}

impl CPU {
    const INSTRUCTION_PREFIX: u8 = 0xCB;

    pub open spec fn wf(&self) -> bool {
        self.memory.wf()
    }

    /// PC, SP and the interrupt state agree.
    pub open spec fn same_control(&self, o: &CPU) -> bool {
        &&& self.pc == o.pc && self.sp == o.sp
        &&& self.is_halted == o.is_halted && self.interrupts_enabled == o.interrupts_enabled
        &&& self.di_timer == o.di_timer && self.ei_timer == o.ei_timer
    }

    /// IME after the pending EI/DI countdowns advance.
    pub open spec fn ime_after_update(&self) -> bool {
        if self.ei_timer == 1 {
            true
        } else if self.di_timer == 1 {
            false
        } else {
            self.interrupts_enabled
        }
    }

    /// Powers on with the post-boot register values: PC=$0100, SP=$FFFE.
    pub fn new(game_rom: Vec<u8>) -> (r: Result<Self, CartridgeError>)
        ensures
            r.is_ok() <==> loadable(game_rom@),
            r.is_ok() ==> r.unwrap().wf() && r.unwrap().pc == 0x100 && r.unwrap().sp == 0xFFFE
                && !r.unwrap().is_halted,
            r.is_ok() ==> r.unwrap().registers.a == 0x01 && r.unwrap().registers.f == (FlagsRegister {
                zero: true,
                subtract: false,
                half_carry: true,
                carry: true,
            }) && pair(r.unwrap().registers.h, r.unwrap().registers.l) == 0x014D,
            r.is_ok() ==> r.unwrap().memory.gpu.lcd_control.lcd_enable,
            r.is_ok() ==> r.unwrap().di_timer == 0 && r.unwrap().ei_timer == 0 && r.unwrap().interrupts_enabled,
            r.is_ok() ==> r.unwrap().memory.post_boot(),
    {
        let memory = match MemoryBus::new(game_rom) {
            Ok(m) => m,
            Err(e) => {
                return Err(e);
            },
        };
        proof {
            assert(0x91u8 & 0x80 != 0) by (bit_vector);
        }
        Ok(Self {
            registers: CpuRegisters::new(),
            memory,
            pc: 0x100,
            sp: 0xFFFE,
            is_halted: false,
            interrupts_enabled: true,
            di_timer: 0,
            ei_timer: 0,
        })
    }

    pub fn pc(&self) -> (r: u16)
        ensures
            r == self.pc,
    {
        self.pc
    }

    pub fn key_up(&mut self, key: JoypadKey)
        requires
            old(self).wf(),
        ensures
            final(self).wf(),
            *final(self) == (CPU { memory: old(self).memory.key_changed(key, false), ..*old(self) }),
    {
        self.memory.key_up(key);
    }

    pub fn key_down(&mut self, key: JoypadKey)
        requires
            old(self).wf(),
        ensures
            final(self).wf(),
            *final(self) == (CPU { memory: old(self).memory.key_changed(key, true), ..*old(self) }),
    {
        self.memory.key_down(key);
    }

    pub fn gpu(&self) -> (r: &GPU)
        ensures
            *r == self.memory.gpu,
    {
        &self.memory.gpu
    }

    /// Hands out the last full audio buffer, if any.
    pub fn take_audio(&mut self) -> (r: Option<AudioBuff>)
        requires
            old(self).wf(),
        ensures
            final(self).wf(),
            r == old(self).memory.sound.pending,
            final(self).memory.sound.pending.is_none(),
            *final(self) == (CPU { memory: final(self).memory, ..*old(self) }),
    {
        self.memory.take_audio()
    }

    /// Advances the EI/DI countdowns; a maturing EI sets IME, a maturing DI clears it.
    fn update_ime(&mut self)
        ensures
            final(self).interrupts_enabled == old(self).ime_after_update(),
            final(self).di_timer == if old(self).di_timer > 0 { old(self).di_timer - 1 } else { 0 },
            final(self).ei_timer == if old(self).ei_timer > 0 { old(self).ei_timer - 1 } else { 0 },
            final(self).pc == old(self).pc && final(self).sp == old(self).sp,
            final(self).is_halted == old(self).is_halted,
            final(self).memory == old(self).memory && final(self).registers == old(self).registers,
    {
        if self.di_timer == 1 {
            self.interrupts_enabled = false;
        }
        self.di_timer = self.di_timer.saturating_sub(1);
        if self.ei_timer == 1 {
            self.interrupts_enabled = true;
        }
        self.ei_timer = self.ei_timer.saturating_sub(1);
    }

    /// With IME set, dispatches the highest-priority pending interrupt (VBlank, LCD, Timer,
    /// Serial, Joypad): clears its request and IME, pushes PC and jumps to its vector.
    /// Returns the cycles used, 0 when nothing was dispatched.
    fn process_interrupts(&mut self) -> (r: u32)
        requires
            old(self).wf(),
        ensures
            final(self).wf(),
            r == 0 || r == 20,
            r == 20 <==> old(self).interrupts_enabled && old(self).memory.spec_pending().any(),
            r == 0 ==> *final(self) == *old(self),
            r == 20 ==> !final(self).interrupts_enabled && !final(self).is_halted && (final(self).pc == 0x40
                || final(self).pc == 0x48 || final(self).pc == 0x50 || final(self).pc == 0x58 || final(self).pc
                == 0x60),
            r == 20 && old(self).memory.spec_pending().vblank ==> final(self).pc == 0x40,
            r == 20 ==> {
                let k = first_source(old(self).memory.spec_pending());
                let sp = old(self).sp;
                &&& final(self).pc == 0x40 + 8 * k
                &&& final(self).sp == sp.wrapping_sub(2)
                &&& final(self).registers == old(self).registers
                &&& is_plain_ram(sp.wrapping_sub(2)) && is_plain_ram(sp.wrapping_sub(1)) ==> {
                    &&& final(self).memory.interrupt_flag == without_source(old(self).memory.interrupt_flag, k)
                    &&& final(self).memory.interrupt_enable == old(self).memory.interrupt_enable
                    &&& final(self).memory.ram_byte(sp.wrapping_sub(2)) == old(self).pc % 256
                    &&& final(self).memory.ram_byte(sp.wrapping_sub(1)) == old(self).pc / 256
                }
            },
    {
        if !self.interrupts_enabled {
            return 0;
        }
        if self.memory.vbank_interrupt() {
            self.memory.reset_vbank_interrupt();
            self.interrupt(0x40);
        } else if self.memory.lcd_interrupt() {
            self.memory.reset_lcd_interrupt();
            self.interrupt(0x48);
        } else if self.memory.timer_interrupt() {
            self.memory.reset_timer_interrupt();
            self.interrupt(0x50);
        } else if self.memory.serial_interrupt() {
            self.memory.reset_serial_interrupt();
            self.interrupt(0x58);
        } else if self.memory.joypad_interrupt() {
            self.memory.reset_joypad_interrupt();
            self.interrupt(0x60);
        } else {
            return 0;
        }
        20
    }

    fn interrupt(&mut self, addr: u16)
        requires
            old(self).wf(),
        ensures
            final(self).wf(),
            final(self).pc == addr,
            !final(self).interrupts_enabled && !final(self).is_halted,
            final(self).sp == old(self).sp.wrapping_sub(2),
            final(self).registers == old(self).registers,
            is_plain_ram(old(self).sp.wrapping_sub(2)) && is_plain_ram(old(self).sp.wrapping_sub(1)) ==> {
                &&& old(self).memory.only_ram_differs(final(self).memory)
                &&& final(self).memory.ram_byte(old(self).sp.wrapping_sub(2)) == old(self).pc % 256
                &&& final(self).memory.ram_byte(old(self).sp.wrapping_sub(1)) == old(self).pc / 256
            },
    {
        self.interrupts_enabled = false;
        self.is_halted = false;
        let pc = self.pc;
        self.push_stack(pc);
        self.pc = addr;
    }

    /// Decodes the instruction at PC, reading the second byte after a `$CB` prefix.
    pub fn get_current_instruction(&self) -> (r: Result<Instruction, CpuFault>)
        requires
            self.wf(),
        ensures
            self.memory.spec_mem(self.pc) matches Some(op) ==> (op != 0xCB ==> (r matches Ok(i) ==> i.jump_test()
                == op_jump_test(op))),
            self.memory.spec_mem(self.pc) matches Some(op) ==> (op != 0xCB ==> ((r matches Ok(i) && i is STOP) <==> op
                == 0x10)),
            self.memory.spec_mem(self.pc) matches Some(op) ==> (op == 0x00 ==> r == Ok::<Instruction, CpuFault>(
                Instruction::NOP,
            )),
            self.memory.spec_mem(self.pc) matches Some(op) ==> (op == 0xF3 ==> r == Ok::<Instruction, CpuFault>(
                Instruction::DI,
            )),
            self.memory.spec_mem(self.pc) matches Some(op) ==> (op == 0xFB ==> r == Ok::<Instruction, CpuFault>(
                Instruction::EI,
            )),
            self.memory.spec_mem(self.pc) == Some(0xCBu8) ==> (r matches Ok(i) && i.prefix_family() < 11),
            self.memory.spec_mem(self.pc) matches Some(op) ==> (op != 0xCB ==> (r is Err <==> is_unmapped(op)) && (
            r matches Ok(i) ==> i.mcycles(true) == published_mcycles(op, true) && i.mcycles(false)
                == published_mcycles(op, false))),
            self.memory.spec_mem(self.pc.wrapping_add(1)) matches Some(op) ==> (self.memory.spec_mem(self.pc) == Some(
                0xCBu8,
            ) ==> (r matches Ok(i) && i.mcycles(true) == published_cb_mcycles(op) && i.mcycles(false)
                == published_cb_mcycles(op))),
    {
        let byte = self.read_current_byte();
        if byte == Self::INSTRUCTION_PREFIX {
            let byte = self.read_next_byte();
            Ok(Instruction::from_byte_prefixed(byte))
        } else {
            match Instruction::from_byte_not_prefixed(byte) {
                Some(i) => Ok(i),
                None => Err(CpuFault::UndefinedOpcode(byte)),
            }
        }
    }

    fn read_current_byte(&self) -> (r: u8)
        requires
            self.wf(),
        ensures
            self.memory.spec_mem(self.pc) matches Some(b) ==> r == b,
    {
        self.memory.read_byte(self.pc)
    }

    fn read_next_byte(&self) -> (r: u8)
        requires
            self.wf(),
        ensures
            self.memory.spec_mem(self.pc.wrapping_add(1)) matches Some(b) ==> r == b,
    {
        self.memory.read_byte(self.pc.wrapping_add(1))
    }

    /// The little-endian word after the opcode.
    fn read_next_word(&self) -> (r: u16)
        requires
            self.wf(),
        ensures
            self.word_at(self.pc.wrapping_add(1)) matches Some(w) ==> r == w,
    {
        let lo = self.memory.read_byte(self.pc.wrapping_add(1));
        let hi = self.memory.read_byte(self.pc.wrapping_add(1).wrapping_add(1));
        (hi as u16) * 256 + lo as u16
    }

    fn read_hl_byte(&self) -> (r: u8)
        requires
            self.wf(),
        ensures
            self.memory.spec_mem(pair(self.registers.h, self.registers.l)) matches Some(b) ==> r == b,
    {
        self.memory.read_byte(self.registers.hl())
    }

    /// Reads an 8-bit operand: a register, or the byte at HL.
    fn read_operand(&self, t: PrefixTarget) -> (r: u8)
        requires
            self.wf(),
        ensures
            !(t is HLP) ==> r == reg_of(self.registers, t),
            t is HLP ==> (self.memory.spec_mem(pair(self.registers.h, self.registers.l)) matches Some(b) ==> r == b),
    {
        match t {
            PrefixTarget::A => self.registers.a,
            PrefixTarget::B => self.registers.b,
            PrefixTarget::C => self.registers.c,
            PrefixTarget::D => self.registers.d,
            PrefixTarget::E => self.registers.e,
            PrefixTarget::H => self.registers.h,
            PrefixTarget::L => self.registers.l,
            PrefixTarget::HLP => self.read_hl_byte(),
        }
    }

    /// Writes an 8-bit operand: a register, or the byte at HL.
    fn write_operand(&mut self, t: PrefixTarget, v: u8)
        requires
            old(self).wf(),
        ensures
            final(self).wf(),
            final(self).same_control(old(self)),
            final(self).registers == with_reg(old(self).registers, t, v),
            !(t is HLP) ==> final(self).memory == old(self).memory,
            t is HLP && is_plain_ram(pair(old(self).registers.h, old(self).registers.l)) ==> old(self).memory.only_ram_differs(
                final(self).memory,
            ) && final(self).memory.ram_byte(pair(old(self).registers.h, old(self).registers.l)) == v,
    {
        match t {
            PrefixTarget::A => self.registers.a = v,
            PrefixTarget::B => self.registers.b = v,
            PrefixTarget::C => self.registers.c = v,
            PrefixTarget::D => self.registers.d = v,
            PrefixTarget::E => self.registers.e = v,
            PrefixTarget::H => self.registers.h = v,
            PrefixTarget::L => self.registers.l = v,
            PrefixTarget::HLP => {
                let hl = self.registers.hl();
                self.memory.write_byte(hl, v);
            },
        }
    }

    fn arith_operand(&self, t: ArithmeticTarget) -> (r: u8)
        requires
            self.wf(),
        ensures
            !(t is HLP || t is U8) ==> r == reg_of(self.registers, arith_target(t)),
    {
        match t {
            ArithmeticTarget::A => self.registers.a,
            ArithmeticTarget::B => self.registers.b,
            ArithmeticTarget::C => self.registers.c,
            ArithmeticTarget::D => self.registers.d,
            ArithmeticTarget::E => self.registers.e,
            ArithmeticTarget::H => self.registers.h,
            ArithmeticTarget::L => self.registers.l,
            ArithmeticTarget::HLP => self.read_hl_byte(),
            ArithmeticTarget::U8 => self.read_next_byte(),
        }
    }

    /// Pushes a word: high byte at SP-1, low byte at SP-2.
    fn push_stack(&mut self, val: u16)
        requires
            old(self).wf(),
        ensures
            final(self).wf(),
            final(self).sp == old(self).sp.wrapping_sub(2),
            final(self).registers == old(self).registers,
            is_plain_ram(old(self).sp.wrapping_sub(2)) && is_plain_ram(old(self).sp.wrapping_sub(1)) ==> {
                &&& old(self).memory.only_ram_differs(final(self).memory)
                &&& final(self).memory.ram_byte(old(self).sp.wrapping_sub(2)) == val % 256
                &&& final(self).memory.ram_byte(old(self).sp.wrapping_sub(1)) == val / 256
            },
            final(self).pc == old(self).pc && final(self).is_halted == old(self).is_halted,
            final(self).interrupts_enabled == old(self).interrupts_enabled,
            final(self).di_timer == old(self).di_timer && final(self).ei_timer == old(self).ei_timer,
    {
        let sp = self.sp;
        self.memory.write_byte(sp.wrapping_sub(2), (val % 256) as u8);
        self.memory.write_byte(sp.wrapping_sub(1), (val / 256) as u8);
        self.sp = sp.wrapping_sub(2);
    }

    /// Pops a word: low byte at SP, high byte at SP+1.
    fn pop_stack(&mut self) -> (r: u16)
        requires
            old(self).wf(),
        ensures
            final(self).wf(),
            final(self).sp == old(self).sp.wrapping_add(2),
            final(self).memory == old(self).memory && final(self).registers == old(self).registers,
            old(self).word_at(old(self).sp) matches Some(w) ==> r == w,
            final(self).pc == old(self).pc && final(self).is_halted == old(self).is_halted,
            final(self).interrupts_enabled == old(self).interrupts_enabled,
            final(self).di_timer == old(self).di_timer && final(self).ei_timer == old(self).ei_timer,
    {
        let lo = self.memory.read_byte(self.sp);
        let hi = self.memory.read_byte(self.sp.wrapping_add(1));
        self.sp = self.sp.wrapping_add(2);
        (hi as u16) * 256 + lo as u16
    }
}

/// The operand of an ALU instruction.
pub open spec fn alu_target(instr: Instruction) -> ArithmeticTarget {
    match instr {
        Instruction::ADD(t) | Instruction::ADC(t) | Instruction::SUB(t) | Instruction::SBC(t) | Instruction::CP(t)
        | Instruction::AND(t) | Instruction::XOR(t) | Instruction::OR(t) => t,
        _ => ArithmeticTarget::A,
    }
}

pub open spec fn is_alu(instr: Instruction) -> bool {
    instr is ADD || instr is ADC || instr is SUB || instr is SBC || instr is CP || instr is AND || instr is XOR
        || instr is OR
}

/// The operand and the family number of a prefixed instruction (see `spec_shift`; BIT, RES,
/// SET are 8, 9, 10).
pub open spec fn prefix_parts(instr: Instruction) -> (PrefixTarget, u8) {
    match instr {
        Instruction::RLC(t) => (t, 0),
        Instruction::RRC(t) => (t, 1),
        Instruction::RL(t) => (t, 2),
        Instruction::RR(t) => (t, 3),
        Instruction::SLA(t) => (t, 4),
        Instruction::SRA(t) => (t, 5),
        Instruction::SWAP(t) => (t, 6),
        Instruction::SRL(t) => (t, 7),
        Instruction::BIT(_, t) => (t, 8),
        Instruction::RES(_, t) => (t, 9),
        Instruction::SET(_, t) => (t, 10),
        _ => (PrefixTarget::A, 11),
    }
}

pub open spec fn is_prefixed(instr: Instruction) -> bool {
    prefix_parts(instr).1 < 11
}

impl CPU {
    /// ADD, ADC, SUB, SBC, CP, AND, XOR, OR on A.
    fn exec_arith(&mut self, instruction: Instruction) -> (r: (u16, u32))
        requires
            old(self).wf(),
            is_alu(instruction),
        ensures
            final(self).wf(),
            final(self).same_control(old(self)),
            final(self).memory == old(self).memory,
            r.1 == instruction.mcycles(false),
            r.0 == next_pc(old(self).pc, length(instruction)),
            !(alu_target(instruction) is HLP || alu_target(instruction) is U8) ==> {
                let res = arith_result(
                    instruction,
                    old(self).registers.a,
                    reg_of(old(self).registers, arith_target(alu_target(instruction))),
                    old(self).registers.f,
                );
                final(self).registers == (CpuRegisters { a: res.0, f: res.1, ..old(self).registers })
            },
    {
        let t = match instruction {
            Instruction::ADD(t) | Instruction::ADC(t) | Instruction::SUB(t) | Instruction::SBC(t) | Instruction::CP(t)
            | Instruction::AND(t) | Instruction::XOR(t) | Instruction::OR(t) => t,
            _ => ArithmeticTarget::A,
        };
        let v = self.arith_operand(t);
        let a = self.registers.a;
        let f = self.registers.f;
        let (res, flags) = match instruction {
            Instruction::ADD(_) => add_without_carry(a, v),
            Instruction::ADC(_) => add_with_carry(a, v, f),
            Instruction::SUB(_) => sub_without_carry(a, v),
            Instruction::SBC(_) => sub_with_carry(a, v, f),
            Instruction::AND(_) => bitwise_and(a, v),
            Instruction::XOR(_) => bitwise_xor(a, v),
            Instruction::OR(_) => bitwise_or(a, v),
            _ => (a, compare(a, v)),
        };
        self.registers.a = res;
        self.registers.f = flags;
        match t {
            ArithmeticTarget::U8 => (self.pc.wrapping_add(2), 2),
            ArithmeticTarget::HLP => (self.pc.wrapping_add(1), 2),
            _ => (self.pc.wrapping_add(1), 1),
        }
    }

    /// INC and DEC on 8-bit operands (C kept) and on register pairs and SP (no flags).
    fn exec_incdec(&mut self, instruction: Instruction) -> (r: (u16, u32))
        requires
            old(self).wf(),
            instruction is INC || instruction is DEC,
        ensures
            final(self).wf(),
            final(self).pc == old(self).pc,
            final(self).is_halted == old(self).is_halted,
            final(self).interrupts_enabled == old(self).interrupts_enabled,
            r.1 == instruction.mcycles(false),
            r.0 == next_pc(old(self).pc, length(instruction)),
            instruction == Instruction::INC(IncDecTarget::A) ==> (final(self).registers.a, final(self).registers.f)
                == spec_inc(old(self).registers.a, old(self).registers.f),
            instruction == Instruction::DEC(IncDecTarget::A) ==> (final(self).registers.a, final(self).registers.f)
                == spec_dec(old(self).registers.a, old(self).registers.f),
            instruction == Instruction::INC(IncDecTarget::SP) ==> final(self).sp == old(self).sp.wrapping_add(1),
            instruction == Instruction::DEC(IncDecTarget::SP) ==> final(self).sp == old(self).sp.wrapping_sub(1),
    {
        let (t, up) = match instruction {
            Instruction::INC(t) => (t, true),
            Instruction::DEC(t) => (t, false),
            _ => (IncDecTarget::A, true),
        };
        let eight = match t {
            IncDecTarget::A => Some(PrefixTarget::A),
            IncDecTarget::B => Some(PrefixTarget::B),
            IncDecTarget::C => Some(PrefixTarget::C),
            IncDecTarget::D => Some(PrefixTarget::D),
            IncDecTarget::E => Some(PrefixTarget::E),
            IncDecTarget::H => Some(PrefixTarget::H),
            IncDecTarget::L => Some(PrefixTarget::L),
            IncDecTarget::HLP => Some(PrefixTarget::HLP),
            _ => None,
        };
        match eight {
            Some(p) => {
                let v = self.read_operand(p);
                let f = self.registers.f;
                let (res, flags) = if up { increment_u8(v, f) } else { decrement_u8(v, f) };
                self.registers.f = flags;
                self.write_operand(p, res);
                if matches!(p, PrefixTarget::HLP) {
                    (self.pc.wrapping_add(1), 3)
                } else {
                    (self.pc.wrapping_add(1), 1)
                }
            },
            None => {
                match t {
                    IncDecTarget::BC => {
                        let v = self.registers.bc();
                        self.registers.set_bc(if up { v.wrapping_add(1) } else { v.wrapping_sub(1) });
                    },
                    IncDecTarget::DE => {
                        let v = self.registers.de();
                        self.registers.set_de(if up { v.wrapping_add(1) } else { v.wrapping_sub(1) });
                    },
                    IncDecTarget::HL => {
                        let v = self.registers.hl();
                        self.registers.set_hl(if up { v.wrapping_add(1) } else { v.wrapping_sub(1) });
                    },
                    _ => {
                        self.sp = if up { self.sp.wrapping_add(1) } else { self.sp.wrapping_sub(1) };
                    },
                }
                (self.pc.wrapping_add(1), 2)
            },
        }
    }

    /// The `$CB` family: rotates, shifts, SWAP, BIT, RES, SET.
    #[verifier::rlimit(80)]
    fn exec_prefix(&mut self, instruction: Instruction) -> (r: (u16, u32))
        requires
            old(self).wf(),
            is_prefixed(instruction),
        ensures
            final(self).wf(),
            final(self).same_control(old(self)),
            r.1 == instruction.mcycles(false),
            r.0 == next_pc(old(self).pc, 2),
            ({
                let (t, kind) = prefix_parts(instruction);
                kind < 8 && !(t is HLP) ==> {
                    let res = spec_shift(kind, reg_of(old(self).registers, t), old(self).registers.f.carry);
                    final(self).registers == with_reg(CpuRegisters { f: res.1, ..old(self).registers }, t, res.0)
                }
            }),
            ({
                let (t, kind) = prefix_parts(instruction);
                let hl = pair(old(self).registers.h, old(self).registers.l);
                kind < 8 && t is HLP && is_plain_ram(hl) ==> {
                    let res = spec_shift(kind, old(self).memory.ram_byte(hl), old(self).registers.f.carry);
                    &&& final(self).registers == (CpuRegisters { f: res.1, ..old(self).registers })
                    &&& final(self).memory.ram_byte(hl) == res.0
                    &&& old(self).memory.only_ram_differs(final(self).memory)
                }
            }),
            ({
                let (t, kind) = prefix_parts(instruction);
                kind == 8 && !(t is HLP) ==> final(self).registers == (CpuRegisters {
                    f: spec_check_bit(reg_of(old(self).registers, t), instruction.bit_operand() as u8, old(self).registers.f),
                    ..old(self).registers
                })
            }),
    {
        let (t, kind) = match instruction {
            Instruction::RLC(t) => (t, 0u8),
            Instruction::RRC(t) => (t, 1),
            Instruction::RL(t) => (t, 2),
            Instruction::RR(t) => (t, 3),
            Instruction::SLA(t) => (t, 4),
            Instruction::SRA(t) => (t, 5),
            Instruction::SWAP(t) => (t, 6),
            Instruction::SRL(t) => (t, 7),
            Instruction::BIT(_, t) => (t, 8),
            Instruction::RES(_, t) => (t, 9),
            Instruction::SET(_, t) => (t, 10),
            _ => (PrefixTarget::A, 11),
        };
        let pos = match instruction {
            Instruction::BIT(b, _) | Instruction::RES(b, _) | Instruction::SET(b, _) => b.index(),
            _ => 0,
        };
        let v = self.read_operand(t);
        if kind < 8 {
            let (res, flags) = shift(kind, v, self.registers.f.carry);
            self.registers.f = flags;
            self.write_operand(t, res);
        } else if kind == 8 {
            self.registers.f = check_bit(v, pos, self.registers.f);
        } else if kind == 9 {
            self.write_operand(t, reset_bit(v, pos));
        } else {
            self.write_operand(t, set_bit(v, pos));
        }
        let cycles: u32 = if !matches!(t, PrefixTarget::HLP) {
            2
        } else if kind == 8 {
            3
        } else {
            4
        };
        (self.pc.wrapping_add(2), cycles)
    }
}

pub open spec fn byte_target(t: LoadByteTarget) -> PrefixTarget {
    match t {
        LoadByteTarget::A => PrefixTarget::A,
        LoadByteTarget::B => PrefixTarget::B,
        LoadByteTarget::C => PrefixTarget::C,
        LoadByteTarget::D => PrefixTarget::D,
        LoadByteTarget::E => PrefixTarget::E,
        LoadByteTarget::H => PrefixTarget::H,
        LoadByteTarget::L => PrefixTarget::L,
        LoadByteTarget::HLP => PrefixTarget::HLP,
    }
}

pub open spec fn byte_source(s: LoadByteSource) -> PrefixTarget {
    match s {
        LoadByteSource::A => PrefixTarget::A,
        LoadByteSource::B => PrefixTarget::B,
        LoadByteSource::C => PrefixTarget::C,
        LoadByteSource::D => PrefixTarget::D,
        LoadByteSource::E => PrefixTarget::E,
        LoadByteSource::H => PrefixTarget::H,
        LoadByteSource::L => PrefixTarget::L,
        _ => PrefixTarget::HLP,
    }
}

fn to_prefix_target(t: LoadByteTarget) -> (r: PrefixTarget)
    ensures
        r == byte_target(t),
{
    match t {
        LoadByteTarget::A => PrefixTarget::A,
        LoadByteTarget::B => PrefixTarget::B,
        LoadByteTarget::C => PrefixTarget::C,
        LoadByteTarget::D => PrefixTarget::D,
        LoadByteTarget::E => PrefixTarget::E,
        LoadByteTarget::H => PrefixTarget::H,
        LoadByteTarget::L => PrefixTarget::L,
        LoadByteTarget::HLP => PrefixTarget::HLP,
    }
}

impl CPU {
    /// LD r,r', LD r,(HL), LD (HL),r, LD r,n.
    fn exec_load_byte(&mut self, target: LoadByteTarget, source: LoadByteSource) -> (r: (u16, u32))
        requires
            old(self).wf(),
        ensures
            final(self).wf(),
            final(self).same_control(old(self)),
            r.1 == Instruction::Load(LoadType::Byte(target, source)).mcycles(false),
            r.0 == next_pc(old(self).pc, length(Instruction::Load(LoadType::Byte(target, source)))),
            !(byte_target(target) is HLP) && !(source is HLP) && !(source is U8) ==> final(self).registers == with_reg(
                old(self).registers,
                byte_target(target),
                reg_of(old(self).registers, byte_source(source)),
            ),
    {
        let (v, cost, len): (u8, u32, u16) = match source {
            LoadByteSource::A => (self.registers.a, 1, 1),
            LoadByteSource::B => (self.registers.b, 1, 1),
            LoadByteSource::C => (self.registers.c, 1, 1),
            LoadByteSource::D => (self.registers.d, 1, 1),
            LoadByteSource::E => (self.registers.e, 1, 1),
            LoadByteSource::H => (self.registers.h, 1, 1),
            LoadByteSource::L => (self.registers.l, 1, 1),
            LoadByteSource::HLP => (self.read_hl_byte(), 2, 1),
            LoadByteSource::U8 => (self.read_next_byte(), 2, 2),
        };
        let t = to_prefix_target(target);
        self.write_operand(t, v);
        let extra: u32 = match target {
            LoadByteTarget::HLP => 1,
            _ => 0,
        };
        let cycles: u32 = if len == 2 && extra == 1 {
            3
        } else if cost == 2 || extra == 1 {
            2
        } else {
            1
        };
        (self.pc.wrapping_add(len), cycles)
    }

    /// LD A,(X) and LD (X),A through an indirect address.
    fn exec_load_indirect(&mut self, to_memory: bool, target: IndirectTarget) -> (r: (u16, u32))
        requires
            old(self).wf(),
        ensures
            final(self).wf(),
            final(self).pc == old(self).pc && final(self).is_halted == old(self).is_halted,
            final(self).interrupts_enabled == old(self).interrupts_enabled && final(self).sp == old(self).sp,
            final(self).di_timer == old(self).di_timer && final(self).ei_timer == old(self).ei_timer,
            r.1 == Instruction::Load(LoadType::AFromIndirect(target)).mcycles(false),
            r.0 == next_pc(old(self).pc, length(Instruction::Load(LoadType::AFromIndirect(target)))),
            hl_step(Instruction::Load(LoadType::AFromIndirect(target))) != 0 ==> pair(
                final(self).registers.h,
                final(self).registers.l,
            ) == (pair(old(self).registers.h, old(self).registers.l) + hl_step(
                Instruction::Load(LoadType::AFromIndirect(target)),
            )) % 65536,
    {
        let (addr, len, cycles) = self.indirect_address(target);
        if to_memory {
            let a = self.registers.a;
            self.memory.write_byte(addr, a);
        } else {
            self.registers.a = self.memory.read_byte(addr);
        }
        self.step_hl(target);
        (self.pc.wrapping_add(len), cycles)
    }

    /// The load family.
    #[verifier::rlimit(40)]
    fn exec_load(&mut self, l: LoadType) -> (r: (u16, u32))
        requires
            old(self).wf(),
        ensures
            final(self).wf(),
            final(self).pc == old(self).pc && final(self).is_halted == old(self).is_halted,
            final(self).interrupts_enabled == old(self).interrupts_enabled,
            final(self).di_timer == old(self).di_timer && final(self).ei_timer == old(self).ei_timer,
            r.1 == Instruction::Load(l).mcycles(false),
            r.0 == next_pc(old(self).pc, length(Instruction::Load(l))),
            l is SPFromHL ==> final(self).sp == pair(old(self).registers.h, old(self).registers.l),
            l matches LoadType::Byte(t, s) ==> (!(byte_target(t) is HLP) && !(s is HLP)
                && !(s is U8) ==> final(self).registers == with_reg(
                old(self).registers,
                byte_target(t),
                reg_of(old(self).registers, byte_source(s)),
            )),
            hl_step(Instruction::Load(l)) != 0 ==> pair(final(self).registers.h, final(self).registers.l) == (pair(
                old(self).registers.h,
                old(self).registers.l,
            ) + hl_step(Instruction::Load(l))) % 65536,
    {
        match l {
            LoadType::Byte(target, source) => self.exec_load_byte(target, source),
            LoadType::Word(target) => {
                let value = self.read_next_word();
                match target {
                    LoadWordTarget::BC => self.registers.set_bc(value),
                    LoadWordTarget::DE => self.registers.set_de(value),
                    LoadWordTarget::HL => self.registers.set_hl(value),
                    LoadWordTarget::SP => self.sp = value,
                }
                (self.pc.wrapping_add(3), 3)
            },
            LoadType::AFromIndirect(target) => self.exec_load_indirect(false, target),
            LoadType::IndirectFromA(target) => self.exec_load_indirect(true, target),
            LoadType::IndirectFromSP => {
                let addr = self.read_next_word();
                let sp = self.sp;
                self.memory.write_byte(addr, (sp % 256) as u8);
                self.memory.write_byte(addr.wrapping_add(1), (sp / 256) as u8);
                (self.pc.wrapping_add(3), 5)
            },
            LoadType::SPFromHL => {
                self.sp = self.registers.hl();
                (self.pc.wrapping_add(1), 2)
            },
            LoadType::HLFromSPN => {
                let e = self.read_next_byte();
                let (res, flags) = add_sp(self.sp, e);
                self.registers.set_hl(res);
                self.registers.f = flags;
                (self.pc.wrapping_add(2), 3)
            },
        }
    }

    /// The address, length and M-cycle cost of an indirect load through `target`.
    fn indirect_address(&self, target: IndirectTarget) -> (r: (u16, u16, u32))
        requires
            self.wf(),
        ensures
            r.1 as int == length(Instruction::Load(LoadType::AFromIndirect(target))),
            r.2 as int == Instruction::Load(LoadType::AFromIndirect(target)).mcycles(false),
            target is BCP ==> r.0 == pair(self.registers.b, self.registers.c),
            target is DEP ==> r.0 == pair(self.registers.d, self.registers.e),
            target is HLI || target is HLD ==> r.0 == pair(self.registers.h, self.registers.l),
            target is C ==> r.0 == 0xFF00 + self.registers.c,
    {
        match target {
            IndirectTarget::C => (0xFF00 + self.registers.c as u16, 1, 2),
            IndirectTarget::U8 => (0xFF00 + self.read_next_byte() as u16, 2, 3),
            IndirectTarget::U16 => (self.read_next_word(), 3, 4),
            IndirectTarget::BCP => (self.registers.bc(), 1, 2),
            IndirectTarget::DEP => (self.registers.de(), 1, 2),
            IndirectTarget::HLI => (self.registers.hl(), 1, 2),
            IndirectTarget::HLD => (self.registers.hl(), 1, 2),
        }
    }

    /// After (HL+) and (HL-) loads, HL moves by one.
    fn step_hl(&mut self, target: IndirectTarget)
        ensures
            target is HLI ==> pair(final(self).registers.h, final(self).registers.l) == pair(old(self).registers.h, old(self).registers.l).wrapping_add(1),
            target is HLD ==> pair(final(self).registers.h, final(self).registers.l) == pair(old(self).registers.h, old(self).registers.l).wrapping_sub(1),
            !(target is HLI || target is HLD) ==> final(self).registers == old(self).registers,
            final(self).registers.a == old(self).registers.a && final(self).registers.f == old(self).registers.f,
            final(self).memory == old(self).memory && final(self).same_control(old(self)),
    {
        match target {
            IndirectTarget::HLI => {
                let hl = self.registers.hl();
                self.registers.set_hl(hl.wrapping_add(1));
            },
            IndirectTarget::HLD => {
                let hl = self.registers.hl();
                self.registers.set_hl(hl.wrapping_sub(1));
            },
            _ => {},
        }
    }

    /// Whether a condition code holds now.
    fn jump_test_res(&self, test: JumpTest) -> (r: bool)
        ensures
            r == cond_holds(test, self.registers.f),
    {
        match test {
            JumpTest::Zero => self.registers.f.zero,
            JumpTest::NotZero => !self.registers.f.zero,
            JumpTest::Carry => self.registers.f.carry,
            JumpTest::NotCarry => !self.registers.f.carry,
            JumpTest::Always => true,
        }
    }

    /// JR, JP, JP (HL), CALL, RET, RETI, RST.
    fn exec_control(&mut self, instruction: Instruction) -> (r: (u16, u32))
        requires
            old(self).wf(),
            is_control(instruction),
        ensures
            final(self).wf(),
            final(self).is_halted == old(self).is_halted,
            final(self).di_timer == old(self).di_timer && final(self).ei_timer == old(self).ei_timer,
            final(self).registers == old(self).registers,
            final(self).pc == old(self).pc,
            r.1 == instruction.mcycles(taken(instruction, old(self).registers.f)),
            !taken(instruction, old(self).registers.f) && !(instruction is JPHLP || instruction is RETI
                || instruction is RST) ==> r.0 == next_pc(old(self).pc, length(instruction)),
            instruction is JPHLP ==> r.0 == pair(old(self).registers.h, old(self).registers.l),
            instruction is RST ==> r.0 == instruction->RST_0.spec_addr(),
            instruction is RETI ==> final(self).interrupts_enabled,
            !(instruction is RETI) ==> final(self).interrupts_enabled == old(self).interrupts_enabled,
            old(self).control_post(instruction, *final(self), r),
    {
        if matches!(instruction, Instruction::JR(_)) || matches!(instruction, Instruction::JP(_)) || matches!(
            instruction,
            Instruction::JPHLP
        ) {
            self.exec_jump(instruction)
        } else {
            self.exec_call_ret(instruction)
        }
    }

    /// JR, JP, JP (HL).
    fn exec_jump(&mut self, instruction: Instruction) -> (r: (u16, u32))
        requires
            old(self).wf(),
            instruction is JR || instruction is JP || instruction is JPHLP,
        ensures
            final(self).wf(),
            final(self).is_halted == old(self).is_halted,
            final(self).di_timer == old(self).di_timer && final(self).ei_timer == old(self).ei_timer,
            final(self).registers == old(self).registers,
            final(self).pc == old(self).pc,
            r.1 == instruction.mcycles(taken(instruction, old(self).registers.f)),
            !taken(instruction, old(self).registers.f) && !(instruction is JPHLP || instruction is RETI
                || instruction is RST) ==> r.0 == next_pc(old(self).pc, length(instruction)),
            instruction is JPHLP ==> r.0 == pair(old(self).registers.h, old(self).registers.l),
            instruction is RST ==> r.0 == instruction->RST_0.spec_addr(),
            instruction is RETI ==> final(self).interrupts_enabled,
            !(instruction is RETI) ==> final(self).interrupts_enabled == old(self).interrupts_enabled,
            old(self).control_post(instruction, *final(self), r),
    {
        match instruction {
            Instruction::JR(test) => {
                let e = self.read_next_byte();
                let offset: u16 = if e < 128 { e as u16 } else { 0xFF00 + e as u16 };
                if self.jump_test_res(test) {
                    (self.pc.wrapping_add(2).wrapping_add(offset), 3)
                } else {
                    (self.pc.wrapping_add(2), 2)
                }
            },
            Instruction::JP(test) => {
                let addr = self.read_next_word();
                if self.jump_test_res(test) {
                    (addr, 4)
                } else {
                    (self.pc.wrapping_add(3), 3)
                }
            },
            Instruction::JPHLP => (self.registers.hl(), 1),
            _ => (self.pc.wrapping_add(1), 1),
        }
    }

    /// CALL, RET, RETI, RST.
    fn exec_call_ret(&mut self, instruction: Instruction) -> (r: (u16, u32))
        requires
            old(self).wf(),
            instruction is CALL || instruction is RET || instruction is RETI || instruction is RST,
        ensures
            final(self).wf(),
            final(self).is_halted == old(self).is_halted,
            final(self).di_timer == old(self).di_timer && final(self).ei_timer == old(self).ei_timer,
            final(self).registers == old(self).registers,
            final(self).pc == old(self).pc,
            r.1 == instruction.mcycles(taken(instruction, old(self).registers.f)),
            !taken(instruction, old(self).registers.f) && !(instruction is JPHLP || instruction is RETI
                || instruction is RST) ==> r.0 == next_pc(old(self).pc, length(instruction)),
            instruction is JPHLP ==> r.0 == pair(old(self).registers.h, old(self).registers.l),
            instruction is RST ==> r.0 == instruction->RST_0.spec_addr(),
            instruction is RETI ==> final(self).interrupts_enabled,
            !(instruction is RETI) ==> final(self).interrupts_enabled == old(self).interrupts_enabled,
            old(self).control_post(instruction, *final(self), r),
    {
        match instruction {
            Instruction::CALL(test) => {
                let addr = self.read_next_word();
                if self.jump_test_res(test) {
                    let ret = self.pc.wrapping_add(3);
                    self.push_stack(ret);
                    (addr, 6)
                } else {
                    (self.pc.wrapping_add(3), 3)
                }
            },
            Instruction::RET(test) => {
                let jump = self.jump_test_res(test);
                let always = matches!(test, JumpTest::Always);
                if jump {
                    let next = self.pop_stack();
                    (next, if always { 4 } else { 5 })
                } else {
                    (self.pc.wrapping_add(1), 2)
                }
            },
            Instruction::RETI => {
                self.interrupts_enabled = true;
                (self.pop_stack(), 4)
            },
            Instruction::RST(v) => {
                let ret = self.pc.wrapping_add(1);
                self.push_stack(ret);
                (v.to_addr(), 4)
            },
            _ => (self.pc.wrapping_add(1), 1),
        }
    }
}

impl CPU {
    /// The little-endian word at `addr` and `addr + 1`, where both are backed by memory.
    pub open spec fn word_at(self, addr: u16) -> Option<u16> {
        match (self.memory.spec_mem(addr), self.memory.spec_mem(addr.wrapping_add(1))) {
            (Some(lo), Some(hi)) => Some(pair(hi, lo)),
            _ => None,
        }
    }

    /// Whether both stack cells below SP are plain memory.
    pub open spec fn stack_in_ram(self) -> bool {
        is_plain_ram(self.sp.wrapping_sub(2)) && is_plain_ram(self.sp.wrapping_sub(1))
    }

    /// `post` holds `w` pushed: SP two lower, the word in the two cells below the old SP,
    /// nothing else of the bus changed (when those cells are plain memory).
    pub open spec fn pushed(self, w: u16, post: CPU) -> bool {
        &&& post.sp == self.sp.wrapping_sub(2)
        &&& self.stack_in_ram() ==> {
            &&& self.memory.only_ram_differs(post.memory)
            &&& post.memory.ram_byte(self.sp.wrapping_sub(2)) == w % 256
            &&& post.memory.ram_byte(self.sp.wrapping_sub(1)) == w / 256
        }
    }

    /// The effect of a control transfer: the next PC and cost returned in `r`, SP and the
    /// stack, and IME for RETI.
    pub open spec fn control_post(self, i: Instruction, post: CPU, r: (u16, u32)) -> bool {
        let t = taken(i, self.registers.f);
        let pc = self.pc;
        let sp = self.sp;
        &&& post.registers == self.registers && post.pc == pc && post.is_halted == self.is_halted
        &&& post.di_timer == self.di_timer && post.ei_timer == self.ei_timer
        &&& post.interrupts_enabled == (i is RETI || self.interrupts_enabled)
        &&& r.1 == i.mcycles(t)
        &&& (i is JR || i is JP || i is JPHLP || (i is CALL && !t) || (i is RET && !t)) ==> post.sp == sp
            && post.memory == self.memory
        &&& (!t && !(i is JPHLP || i is RETI || i is RST)) ==> r.0 == next_pc(pc, length(i))
        &&& i is JPHLP ==> r.0 == pair(self.registers.h, self.registers.l)
        &&& (i is JR && t) ==> (self.memory.spec_mem(pc.wrapping_add(1)) matches Some(e) ==> r.0 == next_pc(
            pc,
            2 + signed_offset(e),
        ))
        &&& ((i is JP || i is CALL) && t) ==> (self.word_at(pc.wrapping_add(1)) matches Some(w) ==> r.0 == w)
        &&& (i is CALL && t) ==> self.pushed(pc.wrapping_add(3), post)
        &&& i is RST ==> self.pushed(pc.wrapping_add(1), post) && r.0 == i->RST_0.spec_addr()
        &&& ((i is RET && t) || i is RETI) ==> post.sp == sp.wrapping_add(2) && post.memory == self.memory && (
        self.word_at(sp) matches Some(w) ==> r.0 == w)
    }
}

/// The rotate of RLCA, RRCA, RLA, RRA as numbered in `spec_shift`; 4 for other instructions.
pub open spec fn acc_rotate_kind(i: Instruction) -> u8 {
    match i {
        Instruction::RLCA => 0,
        Instruction::RRCA => 1,
        Instruction::RLA => 2,
        Instruction::RRA => 3,
        _ => 4,
    }
}

/// HL's step after a (HL+) or (HL-) load: +1, -1 (mod 2^16), or 0 for other instructions.
pub open spec fn hl_step(i: Instruction) -> int {
    match i {
        Instruction::Load(LoadType::AFromIndirect(IndirectTarget::HLI))
        | Instruction::Load(LoadType::IndirectFromA(IndirectTarget::HLI)) => 1,
        Instruction::Load(LoadType::AFromIndirect(IndirectTarget::HLD))
        | Instruction::Load(LoadType::IndirectFromA(IndirectTarget::HLD)) => 65535,
        _ => 0,
    }
}

pub open spec fn is_misc(instr: Instruction) -> bool {
    instr is CPL || instr is SCF || instr is CCF || instr is RLA || instr is RLCA || instr is RRA || instr is RRCA
        || instr is DI || instr is EI || instr is HALT || instr is DAA || instr is NOP
}

pub open spec fn is_wide(instr: Instruction) -> bool {
    instr is ADDHL || instr is ADDSP || instr is POP || instr is PUSH
}

impl CPU {
    /// ADD HL,rr, ADD SP,e8, PUSH and POP.
    fn exec_wide(&mut self, instruction: Instruction) -> (r: (u16, u32))
        requires
            old(self).wf(),
            is_wide(instruction),
        ensures
            final(self).wf(),
            final(self).pc == old(self).pc && final(self).is_halted == old(self).is_halted,
            final(self).interrupts_enabled == old(self).interrupts_enabled,
            final(self).di_timer == old(self).di_timer && final(self).ei_timer == old(self).ei_timer,
            r.1 == instruction.mcycles(false),
            r.0 == next_pc(old(self).pc, length(instruction)),
            instruction is ADDSP ==> !final(self).registers.f.zero,
            instruction is ADDSP ==> (old(self).memory.spec_mem(old(self).pc.wrapping_add(1)) matches Some(e) ==> (
            final(self).sp, final(self).registers.f) == spec_add_sp(old(self).sp, e)),
            instruction matches Instruction::ADDHL(t) ==> {
                let rhs = match t {
                    ADDHLTarget::BC => pair(old(self).registers.b, old(self).registers.c),
                    ADDHLTarget::DE => pair(old(self).registers.d, old(self).registers.e),
                    ADDHLTarget::HL => pair(old(self).registers.h, old(self).registers.l),
                    ADDHLTarget::SP => old(self).sp,
                };
                (pair(final(self).registers.h, final(self).registers.l), final(self).registers.f) == spec_add_hl(
                    pair(old(self).registers.h, old(self).registers.l),
                    rhs,
                    old(self).registers.f,
                )
            },
    {
        match instruction {
            Instruction::ADDHL(t) => {
                let rhs = match t {
                    ADDHLTarget::BC => self.registers.bc(),
                    ADDHLTarget::DE => self.registers.de(),
                    ADDHLTarget::HL => self.registers.hl(),
                    ADDHLTarget::SP => self.sp,
                };
                let (res, flags) = add_hl(self.registers.hl(), rhs, self.registers.f);
                self.registers.set_hl(res);
                self.registers.f = flags;
                (self.pc.wrapping_add(1), 2)
            },
            Instruction::ADDSP => {
                let e = self.read_next_byte();
                let (res, flags) = add_sp(self.sp, e);
                self.sp = res;
                self.registers.f = flags;
                (self.pc.wrapping_add(2), 4)
            },
            Instruction::PUSH(t) => {
                let v = match t {
                    StackTarget::AF => self.registers.af(),
                    StackTarget::BC => self.registers.bc(),
                    StackTarget::DE => self.registers.de(),
                    StackTarget::HL => self.registers.hl(),
                };
                self.push_stack(v);
                (self.pc.wrapping_add(1), 4)
            },
            Instruction::POP(t) => {
                let v = self.pop_stack();
                match t {
                    StackTarget::AF => self.registers.set_af(v),
                    StackTarget::BC => self.registers.set_bc(v),
                    StackTarget::DE => self.registers.set_de(v),
                    StackTarget::HL => self.registers.set_hl(v),
                }
                (self.pc.wrapping_add(1), 3)
            },
            _ => (self.pc.wrapping_add(1), 1),
        }
    }

    /// The remaining instructions: accumulator rotates and flag operations, interrupt
    /// control, HALT, DAA and NOP.
    fn exec_misc(&mut self, instruction: Instruction) -> (r: (u16, u32))
        requires
            old(self).wf(),
            is_misc(instruction),
        ensures
            final(self).wf(),
            final(self).pc == old(self).pc,
            r.1 == instruction.mcycles(false),
            r.0 == next_pc(old(self).pc, length(instruction)),
            instruction is HALT ==> final(self).is_halted,
            !(instruction is HALT) ==> final(self).is_halted == old(self).is_halted,
            instruction is DI ==> final(self).di_timer == 2 && final(self).ei_timer == 0
                && final(self).interrupts_enabled == old(self).interrupts_enabled,
            instruction is EI ==> final(self).ei_timer == 2 && final(self).di_timer == old(self).di_timer
                && final(self).interrupts_enabled == old(self).interrupts_enabled,
            !(instruction is DI || instruction is EI) ==> final(self).di_timer == old(self).di_timer
                && final(self).ei_timer == old(self).ei_timer
                && final(self).interrupts_enabled == old(self).interrupts_enabled,
            instruction is NOP ==> final(self).registers == old(self).registers && final(self).sp == old(self).sp,
            final(self).memory == old(self).memory && final(self).sp == old(self).sp,
            instruction is CPL ==> final(self).registers.a == !old(self).registers.a,
            acc_rotate_kind(instruction) < 4 ==> {
                let res = spec_shift(acc_rotate_kind(instruction), old(self).registers.a, old(self).registers.f.carry);
                final(self).registers == (CpuRegisters {
                    a: res.0,
                    f: FlagsRegister { zero: false, ..res.1 },
                    ..old(self).registers
                })
            },
            instruction is DAA ==> (final(self).registers.a, final(self).registers.f) == spec_daa(
                old(self).registers.a,
                old(self).registers.f,
            ),
    {
        match instruction {
            Instruction::CPL => {
                self.registers.f.subtract = true;
                self.registers.f.half_carry = true;
                self.registers.a = !self.registers.a;
                (self.pc.wrapping_add(1), 1)
            },
            Instruction::SCF => {
                self.set_carry_flag(true);
                (self.pc.wrapping_add(1), 1)
            },
            Instruction::CCF => {
                let c = !self.registers.f.carry;
                self.set_carry_flag(c);
                (self.pc.wrapping_add(1), 1)
            },
            Instruction::RLCA | Instruction::RRCA | Instruction::RLA | Instruction::RRA => {
                let kind: u8 = match instruction {
                    Instruction::RLCA => 0,
                    Instruction::RRCA => 1,
                    Instruction::RLA => 2,
                    _ => 3,
                };
                let (res, flags) = shift(kind, self.registers.a, self.registers.f.carry);
                self.registers.a = res;
                self.registers.f = FlagsRegister { zero: false, ..flags };
                (self.pc.wrapping_add(1), 1)
            },
            Instruction::DI => {
                self.di_timer = 2;
                self.ei_timer = 0;
                (self.pc.wrapping_add(1), 1)
            },
            Instruction::EI => {
                self.ei_timer = 2;
                (self.pc.wrapping_add(1), 1)
            },
            Instruction::HALT => {
                self.is_halted = true;
                (self.pc.wrapping_add(1), 1)
            },
            Instruction::DAA => {
                let (res, flags) = decimal_adjust_accum(self.registers.a, self.registers.f);
                self.registers.a = res;
                self.registers.f = flags;
                (self.pc.wrapping_add(1), 1)
            },
            _ => (self.pc.wrapping_add(1), 1),
        }
    }

    /// SCF and CCF: N and H clear, C as given.
    fn set_carry_flag(&mut self, val: bool)
        ensures
            final(self).registers == (CpuRegisters {
                f: FlagsRegister { subtract: false, half_carry: false, carry: val, ..old(self).registers.f },
                ..old(self).registers
            }),
            final(self).memory == old(self).memory && final(self).same_control(old(self)),
    {
        self.registers.f.subtract = false;
        self.registers.f.carry = val;
        self.registers.f.half_carry = false;
    }

    /// Executes a decoded instruction; returns the next PC and the T-cycles used, four per
    /// M-cycle of the instruction's documented cost.
    pub fn execute(&mut self, instruction: Instruction) -> (r: (u16, u32))
        requires
            old(self).wf(),
            !(instruction is STOP),
        ensures
            final(self).wf(),
            r.1 == 4 * instruction.mcycles(taken(instruction, old(self).registers.f)),
            r.1 % 4 == 0 && 4 <= r.1 <= 24,
            !is_control(instruction) ==> r.0 == next_pc(old(self).pc, length(instruction)),
            final(self).pc == old(self).pc,
            is_control(instruction) ==> old(self).control_post(instruction, *final(self), (r.0, r.1 / 4)),
            ({
                let (t, kind) = prefix_parts(instruction);
                kind < 8 && !(t is HLP) ==> {
                    let res = spec_shift(kind, reg_of(old(self).registers, t), old(self).registers.f.carry);
                    final(self).registers == with_reg(CpuRegisters { f: res.1, ..old(self).registers }, t, res.0)
                }
            }),
            acc_rotate_kind(instruction) < 4 ==> {
                let res = spec_shift(acc_rotate_kind(instruction), old(self).registers.a, old(self).registers.f.carry);
                final(self).registers == (CpuRegisters {
                    a: res.0,
                    f: FlagsRegister { zero: false, ..res.1 },
                    ..old(self).registers
                })
            },
            ({
                let (t, kind) = prefix_parts(instruction);
                let hl = pair(old(self).registers.h, old(self).registers.l);
                kind < 8 && t is HLP && is_plain_ram(hl) ==> {
                    let res = spec_shift(kind, old(self).memory.ram_byte(hl), old(self).registers.f.carry);
                    &&& final(self).registers == (CpuRegisters { f: res.1, ..old(self).registers })
                    &&& final(self).memory.ram_byte(hl) == res.0
                    &&& old(self).memory.only_ram_differs(final(self).memory)
                }
            }),
            hl_step(instruction) != 0 ==> pair(final(self).registers.h, final(self).registers.l) == (pair(
                old(self).registers.h,
                old(self).registers.l,
            ) + hl_step(instruction)) % 65536,
            instruction is DI ==> final(self).di_timer == 2 && final(self).ei_timer == 0
                && final(self).interrupts_enabled == old(self).interrupts_enabled,
            instruction is EI ==> final(self).ei_timer == 2 && final(self).di_timer == old(self).di_timer
                && final(self).interrupts_enabled == old(self).interrupts_enabled,
            instruction is NOP ==> final(self).registers == old(self).registers && final(self).sp == old(self).sp
                && final(self).memory == old(self).memory && final(self).is_halted == old(self).is_halted,
            instruction is HALT ==> final(self).is_halted,
            !(instruction is RETI) ==> final(self).interrupts_enabled == old(self).interrupts_enabled,
            (instruction is DI || instruction is EI) ==> final(self).sp == old(self).sp,
            is_alu(instruction) && !(alu_target(instruction) is HLP || alu_target(instruction) is U8) ==> {
                let res = arith_result(
                    instruction,
                    old(self).registers.a,
                    reg_of(old(self).registers, arith_target(alu_target(instruction))),
                    old(self).registers.f,
                );
                final(self).registers == (CpuRegisters { a: res.0, f: res.1, ..old(self).registers })
                    && final(self).memory == old(self).memory && final(self).sp == old(self).sp
            },
            instruction == Instruction::INC(IncDecTarget::A) ==> (final(self).registers.a, final(self).registers.f)
                == spec_inc(old(self).registers.a, old(self).registers.f),
            instruction == Instruction::DEC(IncDecTarget::A) ==> (final(self).registers.a, final(self).registers.f)
                == spec_dec(old(self).registers.a, old(self).registers.f),
            instruction == Instruction::INC(IncDecTarget::SP) ==> final(self).sp == old(self).sp.wrapping_add(1),
            instruction == Instruction::DEC(IncDecTarget::SP) ==> final(self).sp == old(self).sp.wrapping_sub(1),
            instruction matches Instruction::Load(LoadType::Byte(t, s)) ==> (!(byte_target(t) is HLP) && !(s is HLP)
                && !(s is U8) ==> final(self).registers == with_reg(
                old(self).registers,
                byte_target(t),
                reg_of(old(self).registers, byte_source(s)),
            )),
            instruction == Instruction::Load(LoadType::SPFromHL) ==> final(self).sp == pair(
                old(self).registers.h,
                old(self).registers.l,
            ),
            ({
                let (t, kind) = prefix_parts(instruction);
                kind == 8 && !(t is HLP) ==> final(self).registers == (CpuRegisters {
                    f: spec_check_bit(reg_of(old(self).registers, t), instruction.bit_operand() as u8, old(self).registers.f),
                    ..old(self).registers
                })
            }),
            instruction is ADDSP ==> (old(self).memory.spec_mem(old(self).pc.wrapping_add(1)) matches Some(e) ==> (
            final(self).sp, final(self).registers.f) == spec_add_sp(old(self).sp, e)),
            instruction matches Instruction::ADDHL(t) ==> {
                let rhs = match t {
                    ADDHLTarget::BC => pair(old(self).registers.b, old(self).registers.c),
                    ADDHLTarget::DE => pair(old(self).registers.d, old(self).registers.e),
                    ADDHLTarget::HL => pair(old(self).registers.h, old(self).registers.l),
                    ADDHLTarget::SP => old(self).sp,
                };
                (pair(final(self).registers.h, final(self).registers.l), final(self).registers.f) == spec_add_hl(
                    pair(old(self).registers.h, old(self).registers.l),
                    rhs,
                    old(self).registers.f,
                )
            },
            instruction is CPL ==> final(self).registers.a == !old(self).registers.a,
            instruction is DAA ==> (final(self).registers.a, final(self).registers.f) == spec_daa(
                old(self).registers.a,
                old(self).registers.f,
            ),
    {
        let (pc, m) = if is_alu_exec(&instruction) {
            self.exec_arith(instruction)
        } else if matches!(instruction, Instruction::INC(_)) || matches!(instruction, Instruction::DEC(_)) {
            self.exec_incdec(instruction)
        } else if is_prefixed_exec(&instruction) {
            self.exec_prefix(instruction)
        } else if is_control_exec(&instruction) {
            self.exec_control(instruction)
        } else {
            match instruction {
                Instruction::Load(l) => self.exec_load(l),
                Instruction::ADDHL(_) | Instruction::ADDSP | Instruction::PUSH(_) | Instruction::POP(_) => self.exec_wide(
                    instruction,
                ),
                _ => self.exec_misc(instruction),
            }
        };
        (pc, m * 4)
    }

    /// One step: advances the EI/DI delays, dispatches a pending interrupt (20 T-cycles),
    /// idles while halted (4 T-cycles; a pending interrupt with IME clear ends HALT without
    /// dispatch), else fetches, decodes and executes one instruction. The bus advances by
    /// the cycles returned. Unmapped opcodes and STOP are faults.
    pub fn cycle(&mut self) -> (r: Result<u32, CpuFault>)
        requires
            old(self).wf(),
        ensures
            final(self).wf(),
            r matches Ok(c) ==> c % 4 == 0 && 4 <= c <= 24,
            old(self).ime_after_update() && old(self).memory.spec_pending().any() ==> r == Ok::<u32, CpuFault>(20)
                && !final(self).interrupts_enabled && !final(self).is_halted,
            !(old(self).ime_after_update() && old(self).memory.spec_pending().any()) && old(self).is_halted ==> r
                == Ok::<u32, CpuFault>(4) && final(self).pc == old(self).pc && final(self).sp == old(self).sp
                && final(self).registers == old(self).registers && final(self).memory.interrupt_enable
                == old(self).memory.interrupt_enable && final(self).is_halted == !old(self).memory.spec_pending().any()
                && final(self).interrupts_enabled == old(self).ime_after_update(),
            !(old(self).ime_after_update() && old(self).memory.spec_pending().any()) && old(self).is_halted ==> {
                &&& final(self).memory.wram == old(self).memory.wram && final(self).memory.hram == old(self).memory.hram
                &&& final(self).memory.gpu.vram == old(self).memory.gpu.vram
                &&& final(self).memory.gpu.oam == old(self).memory.gpu.oam
                &&& final(self).memory.cartridge == old(self).memory.cartridge
                &&& final(self).di_timer == (if old(self).di_timer > 0 { old(self).di_timer - 1 } else { 0 })
                &&& final(self).ei_timer == (if old(self).ei_timer > 0 { old(self).ei_timer - 1 } else { 0 })
            },
            !(old(self).ime_after_update() && old(self).memory.spec_pending().any()) && !old(self).is_halted ==> (
            old(self).memory.spec_mem(old(self).pc) matches Some(op) ==> (r is Err <==> ((op != 0xCB && is_unmapped(op))
                || op == 0x10))),
            !(old(self).ime_after_update() && old(self).memory.spec_pending().any()) && !old(self).is_halted ==> (
            old(self).memory.spec_mem(old(self).pc) matches Some(op) ==> (op == 0x00 ==> r == Ok::<u32, CpuFault>(4)
                && final(self).pc == next_pc(old(self).pc, 1) && final(self).registers == old(self).registers
                && final(self).sp == old(self).sp && final(self).interrupts_enabled == old(self).ime_after_update())),
            !(old(self).ime_after_update() && old(self).memory.spec_pending().any()) && !old(self).is_halted ==> (
            old(self).memory.spec_mem(old(self).pc) matches Some(op) ==> (op == 0xF3 ==> r == Ok::<u32, CpuFault>(4)
                && final(self).pc == next_pc(old(self).pc, 1) && final(self).di_timer == 2 && final(self).ei_timer == 0
                && final(self).interrupts_enabled == old(self).ime_after_update() && final(self).sp == old(self).sp)),
            !(old(self).ime_after_update() && old(self).memory.spec_pending().any()) && !old(self).is_halted ==> (
            old(self).memory.spec_mem(old(self).pc) matches Some(op) ==> (op == 0xFB ==> r == Ok::<u32, CpuFault>(4)
                && final(self).pc == next_pc(old(self).pc, 1) && final(self).ei_timer == 2 && final(self).di_timer == (
            if old(self).di_timer > 0 {
                old(self).di_timer - 1
            } else {
                0
            }) && final(self).interrupts_enabled == old(self).ime_after_update() && final(self).sp == old(self).sp)),
            r is Err ==> !old(self).is_halted,
            !(old(self).ime_after_update() && old(self).memory.spec_pending().any()) && !old(self).is_halted ==> (
            old(self).memory.spec_mem(old(self).pc) matches Some(op) ==> (op != 0xCB ==> (r matches Ok(c) ==> c == 4
                * published_mcycles(op, op_taken(op, old(self).registers.f))))),
            !(old(self).ime_after_update() && old(self).memory.spec_pending().any()) && !old(self).is_halted ==> (
            old(self).memory.spec_mem(old(self).pc.wrapping_add(1)) matches Some(op) ==> (old(self).memory.spec_mem(
                old(self).pc,
            ) == Some(0xCBu8) ==> (r matches Ok(c) ==> c == 4 * published_cb_mcycles(op)))),
    {
        self.update_ime();
        let serviced = self.process_interrupts();
        if serviced != 0 {
            return Ok(self.memory.step(serviced));
        }
        if self.is_halted {
            if self.memory.pending_interrupt() {
                self.is_halted = false;
            }
            return Ok(self.memory.step(4));
        }
        let instruction = match self.get_current_instruction() {
            Ok(i) => i,
            Err(e) => {
                return Err(e);
            },
        };
        if matches!(instruction, Instruction::STOP) {
            return Err(CpuFault::Stop);
        }
        let ghost t = taken(instruction, self.registers.f);
        let (new_pc, cycles) = self.execute(instruction);
        proof {
            if let Some(op) = old(self).memory.spec_mem(old(self).pc) {
                if op != 0xCB {
                    assert(t == op_taken(op, old(self).registers.f));
                    assert(cycles == 4 * published_mcycles(op, t));
                }
            }
        }
        self.pc = new_pc;
        Ok(self.memory.step(cycles))
    }
}

fn is_alu_exec(i: &Instruction) -> (r: bool)
    ensures
        r == is_alu(*i),
{
    match i {
        Instruction::ADD(_) | Instruction::ADC(_) | Instruction::SUB(_) | Instruction::SBC(_) | Instruction::CP(_)
        | Instruction::AND(_) | Instruction::XOR(_) | Instruction::OR(_) => true,
        _ => false,
    }
}

fn is_prefixed_exec(i: &Instruction) -> (r: bool)
    ensures
        r == is_prefixed(*i),
{
    match i {
        Instruction::RLC(_) | Instruction::RRC(_) | Instruction::RL(_) | Instruction::RR(_) | Instruction::SLA(_)
        | Instruction::SRA(_) | Instruction::SWAP(_) | Instruction::SRL(_) | Instruction::BIT(_, _) | Instruction::RES(
            _,
            _,
        ) | Instruction::SET(_, _) => true,
        _ => false,
    }
}

fn is_control_exec(i: &Instruction) -> (r: bool)
    ensures
        r == is_control(*i),
{
    match i {
        Instruction::JR(_) | Instruction::JP(_) | Instruction::JPHLP | Instruction::CALL(_) | Instruction::RET(_)
        | Instruction::RETI | Instruction::RST(_) => true,
        _ => false,
    }
}

} // verus!
