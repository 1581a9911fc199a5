use gbemu::cpu::{CpuFault, CPU};
use gbemu::instruction::{Instruction, LoadByteSource, LoadByteTarget, LoadType};

fn cpu_with(program: &[u8]) -> CPU {
    let mut rom = vec![0u8; 0x8000];
    rom[0x147] = 0;
    rom[0x100..0x100 + program.len()].copy_from_slice(program);
    CPU::new(rom).unwrap()
}

#[test]
fn fibonacci_probe() {
    // LD B,3; LD C,5; LD D,8; LD E,13; LD H,21; LD L,34; LD B,B
    let mut cpu = cpu_with(&[0x06, 3, 0x0E, 5, 0x16, 8, 0x1E, 13, 0x26, 21, 0x2E, 34, 0x40]);
    let mut cycles = 0;
    while cycles < 1000 {
        cycles += cpu.cycle().unwrap();
        if let Ok(Instruction::Load(LoadType::Byte(LoadByteTarget::B, LoadByteSource::B))) = cpu.get_current_instruction() {
            break;
        }
    }
    let r = &cpu.registers;
    assert_eq!((r.b, r.c, r.d, r.e, r.h, r.l), (3, 5, 8, 13, 21, 34));
}

#[test]
fn ei_then_di_never_enables_interrupts() {
    // EI; DI; NOP; NOP
    let mut cpu = cpu_with(&[0xFB, 0xF3, 0x00, 0x00, 0x00]);
    cpu.interrupts_enabled = false;
    cpu.memory.write_byte(0xFFFF, 0x1F);
    cpu.memory.write_byte(0xFF0F, 0x04);
    for _ in 0..4 {
        let c = cpu.cycle().unwrap();
        assert_ne!(c, 20);
        assert!(!cpu.interrupts_enabled);
        assert!(cpu.pc() >= 0x100 && cpu.pc() <= 0x104);
    }
}

#[test]
fn ei_enables_after_one_instruction() {
    // EI; NOP; NOP
    let mut cpu = cpu_with(&[0xFB, 0x00, 0x00]);
    cpu.interrupts_enabled = false;
    cpu.memory.write_byte(0xFFFF, 0x04);
    cpu.memory.write_byte(0xFF0F, 0x04);
    assert_eq!(cpu.cycle(), Ok(4)); // EI
    assert_eq!(cpu.cycle(), Ok(4)); // NOP, IME still clear
    assert_eq!(cpu.cycle(), Ok(20)); // timer interrupt dispatched
    assert_eq!(cpu.pc(), 0x50);
    assert!(!cpu.interrupts_enabled);
}

#[test]
fn halt_wakes_without_dispatch_when_ime_clear() {
    // HALT; NOP
    let mut cpu = cpu_with(&[0x76, 0x00]);
    cpu.interrupts_enabled = false;
    cpu.memory.write_byte(0xFF0F, 0x00);
    cpu.memory.write_byte(0xFFFF, 0x00);
    assert_eq!(cpu.cycle(), Ok(4));
    assert!(cpu.is_halted);
    assert_eq!(cpu.cycle(), Ok(4));
    assert!(cpu.is_halted);
    cpu.memory.write_byte(0xFFFF, 0x04);
    cpu.memory.write_byte(0xFF0F, 0x04);
    assert_eq!(cpu.cycle(), Ok(4));
    assert!(!cpu.is_halted);
    assert_eq!(cpu.pc(), 0x101);
}

#[test]
fn branch_timings() {
    // XOR A (Z set); JR Z,+0 (taken); JR NZ,+0 (not taken); JP $0108; ...
    let mut cpu = cpu_with(&[0xAF, 0x28, 0x00, 0x20, 0x00, 0xC3, 0x08, 0x01, 0xCD, 0x0D, 0x01, 0x00, 0x00, 0xC9]);
    cpu.interrupts_enabled = false;
    assert_eq!(cpu.cycle(), Ok(4));
    assert_eq!(cpu.cycle(), Ok(12));
    assert_eq!(cpu.pc(), 0x103);
    assert_eq!(cpu.cycle(), Ok(8));
    assert_eq!(cpu.pc(), 0x105);
    assert_eq!(cpu.cycle(), Ok(16));
    assert_eq!(cpu.pc(), 0x108);
    assert_eq!(cpu.cycle(), Ok(24)); // CALL $010D
    assert_eq!(cpu.pc(), 0x10D);
    assert_eq!(cpu.sp, 0xFFFC);
    assert_eq!(cpu.cycle(), Ok(16)); // RET
    assert_eq!(cpu.pc(), 0x10B);
}

#[test]
fn prefixed_timings() {
    // SWAP B; BIT 7,(HL); SET 0,(HL)
    let mut cpu = cpu_with(&[0xCB, 0x30, 0xCB, 0x7E, 0xCB, 0xC6]);
    cpu.interrupts_enabled = false;
    cpu.registers.set_hl(0xC000);
    assert_eq!(cpu.cycle(), Ok(8));
    assert_eq!(cpu.cycle(), Ok(12));
    assert_eq!(cpu.cycle(), Ok(16));
    assert_eq!(cpu.memory.read_byte(0xC000), 1);
}

#[test]
fn unmapped_opcode_and_stop_are_faults() {
    let mut cpu = cpu_with(&[0xD3]);
    cpu.interrupts_enabled = false;
    assert_eq!(cpu.cycle(), Err(CpuFault::UndefinedOpcode(0xD3)));
    let mut cpu = cpu_with(&[0x10, 0x00]);
    cpu.interrupts_enabled = false;
    assert_eq!(cpu.cycle(), Err(CpuFault::Stop));
}

#[test]
fn push_pop_af_clears_low_flag_bits() {
    // LD BC,$12FF; PUSH BC; POP AF; PUSH AF; POP DE
    let mut cpu = cpu_with(&[0x01, 0xFF, 0x12, 0xC5, 0xF1, 0xF5, 0xD1]);
    cpu.interrupts_enabled = false;
    for _ in 0..5 {
        cpu.cycle().unwrap();
    }
    assert_eq!(cpu.registers.a, 0x12);
    assert_eq!(cpu.registers.de(), 0x12F0);
}

#[test]
fn add_sp_signed_offset_flags() {
    // LD SP,$00FF; ADD SP,-1; LD HL,SP+2
    let mut cpu = cpu_with(&[0x31, 0xFF, 0x00, 0xE8, 0xFF, 0xF8, 0x02]);
    cpu.interrupts_enabled = false;
    cpu.cycle().unwrap();
    assert_eq!(cpu.cycle(), Ok(16));
    assert_eq!(cpu.sp, 0x00FE);
    assert!(cpu.registers.f.half_carry && cpu.registers.f.carry && !cpu.registers.f.zero);
    assert_eq!(cpu.cycle(), Ok(12));
    assert_eq!(cpu.registers.hl(), 0x0100);
}

#[test]
fn rst_pushes_next_pc() {
    let mut cpu = cpu_with(&[0xEF]);
    cpu.interrupts_enabled = false;
    assert_eq!(cpu.cycle(), Ok(16));
    assert_eq!(cpu.pc(), 0x28);
    assert_eq!(cpu.memory.read_byte(0xFFFC), 0x01);
    assert_eq!(cpu.memory.read_byte(0xFFFD), 0x01);
}

#[test]
fn every_defined_opcode_costs_a_multiple_of_four() {
    for op in 0..=255u8 {
        if let Some(i) = Instruction::from_byte(op, false) {
            if matches!(i, Instruction::STOP) {
                continue;
            }
            let mut cpu = cpu_with(&[op, 0x00, 0xC0]);
            cpu.interrupts_enabled = false;
            cpu.registers.set_hl(0xC000);
            let c = cpu.cycle().unwrap();
            assert!(c % 4 == 0 && (4..=24).contains(&c), "opcode {op:#X}: {c}");
        }
    }
}

#[test]
fn decoder_leaves_the_documented_holes() {
    let holes = [0xD3, 0xDB, 0xDD, 0xE3, 0xE4, 0xEB, 0xEC, 0xED, 0xF4, 0xFC, 0xFD, 0xCB];
    for op in 0..=255u8 {
        assert_eq!(Instruction::from_byte(op, false).is_none(), holes.contains(&op));
        assert!(Instruction::from_byte(op, true).is_some());
    }
}
