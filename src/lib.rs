use vstd::prelude::*;

pub mod alu;
pub mod cpu;
pub mod gpu;
pub mod instruction;
pub mod joypad;
pub mod mbc;
pub mod memory_bus;
pub mod lcd_registers;
pub mod registers;
pub mod sound;
pub mod timer;

verus! {

pub const SCREEN_WIDTH: usize = 160;

pub const SCREEN_HEIGHT: usize = 144;

/// Base clock of the CPU in T-cycles per second.
pub const CPU_FREQ: u64 = 4194304;

pub const GPU_FPS: u64 = 60;

pub const MILLIS_PER_FRAME: u64 = 1000 / GPU_FPS;

/// T-cycles in one displayed frame: CPU_FREQ / 1000 * MILLIS_PER_FRAME.
pub const TICKS_PER_FRAME: u64 = 4194 * 16;

} // verus!
