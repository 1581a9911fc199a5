use vstd::prelude::*;

use crate::gpu::{BackgroundColors, GPU};
use crate::lcd_registers::LcdControl;
use crate::joypad::{Joypad, JoypadKey};
use crate::mbc::{init, loadable, Cartridge, CartridgeError};
use crate::sound::{AudioBuff, Sound};
use crate::timer::{InterruptFlags, Timer, TimerRateHz};

verus! {

pub const ROM_BANK_0_START: u16 = 0x0000;

pub const ROM_BANK_0_END: u16 = 0x3FFF;

pub const ROM_BANK_N_START: u16 = 0x4000;

pub const ROM_BANK_N_END: u16 = 0x7FFF;

pub const VIDEO_RAM_START: u16 = 0x8000;

pub const VIDEO_RAM_END: u16 = 0x9FFF;

pub const EXTERNAL_RAM_START: u16 = 0xA000;

pub const EXTERNAL_RAM_END: u16 = 0xBFFF;

pub const WORKING_RAM_START: u16 = 0xC000;

pub const WORKING_RAM_END: u16 = 0xDFFF;

pub const WORKING_RAM_SIZE: usize = 0x2000;

pub const ECHO_RAM_START: u16 = 0xE000;

pub const ECHO_RAM_END: u16 = 0xFDFF;

pub const OAM_START: u16 = 0xFE00;

pub const OAM_END: u16 = 0xFE9F;

pub const UNUSED_START: u16 = 0xFEA0;

pub const UNUSED_END: u16 = 0xFEFF;

pub const IO_REGISTERS_START: u16 = 0xFF00;

pub const IO_REGISTERS_END: u16 = 0xFF7F;

pub const HIGH_RAM_AREA_START: u16 = 0xFF80;

pub const HIGH_RAM_AREA_END: u16 = 0xFFFE;

pub const HIGH_RAM_AREA_SIZE: usize = 127;

pub const INTERRUPT_ENABLED_REGISTER: u16 = 0xFFFF;

/// The divider register; any write resets it.
pub const DIV_ADDR: u16 = 0xFF04;

/// Addresses backed by plain memory on the bus: VRAM, work RAM and its echo, OAM, high RAM.
pub open spec fn is_plain_ram(addr: u16) -> bool {
    (VIDEO_RAM_START <= addr <= VIDEO_RAM_END) || (WORKING_RAM_START <= addr <= ECHO_RAM_END) || (OAM_START
        <= addr <= OAM_END) || (HIGH_RAM_AREA_START <= addr <= HIGH_RAM_AREA_END)
}

/// The cell that a plain-memory address names; the echo area names work RAM cells.
pub open spec fn cell_of(addr: u16) -> int {
    if ECHO_RAM_START <= addr <= ECHO_RAM_END {
        addr - 0x2000
    } else {
        addr as int
    }
}

/// The bus: address decoding, the I/O registers, timers and interrupts, owning the
/// cartridge, the PPU and the APU.
pub struct MemoryBus {
    pub cartridge: Cartridge,
    /// Work RAM.
    pub wram: Vec<u8>,
    pub gpu: GPU,
    pub sound: Sound,
    pub interrupt_enable: InterruptFlags,
    pub interrupt_flag: InterruptFlags,
    pub joypad: Joypad,
    pub divider: Timer,
    pub timer: Timer,
    /// High RAM.
    pub hram: Vec<u8>,
}

impl MemoryBus {
    pub open spec fn wf(&self) -> bool {
        &&& self.cartridge.wf()
        &&& self.wram.len() == WORKING_RAM_SIZE
        &&& self.hram.len() == HIGH_RAM_AREA_SIZE
        &&& self.gpu.wf()
        &&& self.sound.wf()
        &&& self.divider.wf()
        &&& self.divider.enable && self.divider.freq == TimerRateHz::F16384
        &&& self.timer.wf()
    }

    /// The byte held at a plain-memory address.
    pub open spec fn ram_byte(&self, addr: u16) -> u8 {
        let c = cell_of(addr);
        if VIDEO_RAM_START <= c <= VIDEO_RAM_END {
            self.gpu.vram@[c - VIDEO_RAM_START]
        } else if WORKING_RAM_START <= c <= WORKING_RAM_END {
            self.wram@[c - WORKING_RAM_START]
        } else if OAM_START <= c <= OAM_END {
            self.gpu.oam@[c - OAM_START]
        } else {
            self.hram@[c - HIGH_RAM_AREA_START]
        }
    }

    /// The byte that a read of `addr` returns, for addresses backed by memory (ROM,
    /// external RAM and plain memory); `None` for registers.
    pub open spec fn spec_mem(&self, addr: u16) -> Option<u8> {
        if addr <= ROM_BANK_N_END {
            Some(self.cartridge.spec_read_rom(addr))
        } else if EXTERNAL_RAM_START <= addr <= EXTERNAL_RAM_END {
            Some(self.cartridge.spec_read_ram(addr))
        } else if is_plain_ram(addr) {
            Some(self.ram_byte(addr))
        } else {
            None
        }
    }

    /// `post` holds `val` at the cell of `addr` and agrees with `self` on every other cell of
    /// plain memory.
    pub open spec fn ram_written(&self, addr: u16, val: u8, post: MemoryBus) -> bool {
        forall|a: u16|
            is_plain_ram(a) ==> #[trigger] post.ram_byte(a) == if cell_of(a) == cell_of(addr) {
                val
            } else {
                self.ram_byte(a)
            }
    }

    /// `post` is `self` after a CPU write of `val` to I/O register `addr` (LCDC and DMA
    /// aside, which have clauses of their own): JOYP selects lines, DIV resets, TIMA, TMA and
    /// TAC are set, IF is set, the APU takes $FF10-$FF3F, the PPU its registers (LYC may
    /// request the LCD interrupt); writes to LY and unmapped registers change nothing.
    pub open spec fn io_written(self, addr: u16, val: u8, post: MemoryBus) -> bool {
        if addr == 0xFF00 {
            post == MemoryBus {
                joypad: Joypad { is_dpad: val & 0x10 == 0, is_buttons: val & 0x20 == 0, ..self.joypad },
                ..self
            }
        } else if addr == DIV_ADDR {
            post == self.after_div_write(val)
        } else if addr == 0xFF05 {
            post == MemoryBus { timer: Timer { val, ..self.timer }, ..self }
        } else if addr == 0xFF06 {
            post == MemoryBus { timer: Timer { modulo: val, ..self.timer }, ..self }
        } else if addr == 0xFF07 {
            post == MemoryBus {
                timer: Timer { freq: TimerRateHz::spec_from_code(val % 4), enable: val & 4 != 0, ..self.timer },
                ..self
            }
        } else if addr == 0xFF0F {
            post == MemoryBus { interrupt_flag: InterruptFlags::spec_from_byte(val), ..self }
        } else if 0xFF10 <= addr <= 0xFF3F {
            &&& post == MemoryBus { sound: post.sound, ..self }
            &&& self.sound.enabled && addr != 0xFF26 ==> self.sound.register_written(addr, val, post.sound)
            &&& addr == 0xFF26 ==> post.sound.enabled == (val & 0x80 != 0)
        } else if addr == 0xFF45 {
            post == MemoryBus {
                gpu: self.gpu.reg_written(addr, val),
                interrupt_flag: InterruptFlags {
                    lcd: self.interrupt_flag.lcd || (self.gpu.lcd_status.lyc_int_select && self.gpu.lcd_status.ly == val),
                    ..self.interrupt_flag
                },
                ..self
            }
        } else if 0xFF41 <= addr <= 0xFF4B && addr != 0xFF46 {
            post == MemoryBus { gpu: self.gpu.reg_written(addr, val), ..self }
        } else if addr == 0xFF40 || addr == 0xFF46 {
            true
        } else {
            post == self
        }
    }

    /// The I/O registers hold the values left by the boot ROM: timer stopped with TIMA, TMA,
    /// TAC and its cycle count at 0, the divider at 0; the APU on with NR50 = $77, NR51 = $F3 and the channel registers written;
    /// LCDC = $91; SCY, SCX, LYC, WY, WX at 0; BGP = $FC; OBP0 = OBP1 = $FF (stored as $FC).
    pub open spec fn post_boot(self) -> bool {
        &&& self.timer.val == 0 && self.timer.modulo == 0 && !self.timer.enable
        &&& self.timer.freq == TimerRateHz::F4096
        &&& self.timer.cycles == 0
        &&& self.divider == Timer { freq: TimerRateHz::F16384, cycles: 0, val: 0, modulo: 0, enable: true }
        &&& self.sound.enabled
        &&& self.sound.panning == 0xF3 && self.sound.left_volume == 7 && self.sound.right_volume == 7
        &&& self.sound.channel1.duty_idx == 2 && self.sound.channel1.envelope.init_volume == 15
        &&& self.sound.channel2.duty_idx == 0 && !self.sound.channel3.dac && self.sound.channel4.ff22 == 0
        &&& self.gpu.lcd_control == LcdControl::spec_from_byte(0x91)
        &&& self.gpu.viewport.x == 0 && self.gpu.viewport.y == 0
        &&& self.gpu.window.x == 0 && self.gpu.window.y == 0
        &&& self.gpu.lcd_status.lyc == 0
        &&& self.gpu.bg_colors == BackgroundColors::spec_from_byte(0xFC)
        &&& self.gpu.obj0_colors == BackgroundColors::spec_from_byte(0xFC)
        &&& self.gpu.obj1_colors == BackgroundColors::spec_from_byte(0xFC)
    }

    /// The bus after `key` is pressed (`pressed`) or released: the joypad takes the key, and
    /// the joypad interrupt is requested when JOYP's low nibble leaves all ones.
    pub open spec fn key_changed(self, key: JoypadKey, pressed: bool) -> MemoryBus {
        let j = self.joypad.with_key(key, pressed);
        MemoryBus {
            joypad: j,
            interrupt_flag: InterruptFlags {
                joypad: self.interrupt_flag.joypad || (self.joypad.low_nibble() == 15 && j.low_nibble() != 15),
                ..self.interrupt_flag
            },
            ..self
        }
    }

    /// `post` differs from `self` at most in plain memory.
    pub open spec fn only_ram_differs(self, post: MemoryBus) -> bool {
        post == MemoryBus {
            wram: post.wram,
            hram: post.hram,
            gpu: GPU { vram: post.gpu.vram, oam: post.gpu.oam, ..self.gpu },
            ..self
        }
    }

    /// The bus after a write of `val` to DIV: the divider is zero and nothing else changed.
    pub open spec fn after_div_write(self, val: u8) -> MemoryBus {
        MemoryBus { divider: Timer { val: 0, ..self.divider }, ..self }
    }

    /// The interrupts that are both enabled and requested.
    pub open spec fn spec_pending(&self) -> InterruptFlags {
        self.interrupt_enable.spec_and(self.interrupt_flag)
    }

    /// Powers on with `game_rom` in the cartridge slot and the I/O registers at their
    /// post-boot values.
    pub fn new(game_rom: Vec<u8>) -> (r: Result<Self, CartridgeError>)
        ensures
            r.is_ok() ==> r.unwrap().wf(),
            r.is_ok() <==> loadable(game_rom@),
            r.is_ok() ==> r.unwrap().post_boot(),
    {
        let cartridge = match init(game_rom) {
            Ok(c) => c,
            Err(e) => {
                return Err(e);
            },
        };
        let mut bus = Self {
            cartridge,
            wram: vec![0u8; WORKING_RAM_SIZE],
            gpu: GPU::new(),
            sound: Sound::new(),
            joypad: Joypad::new(),
            divider: Timer::new_enabled(TimerRateHz::F16384),
            timer: Timer::new_disabled(TimerRateHz::F4096),
            interrupt_enable: InterruptFlags::new(),
            interrupt_flag: InterruptFlags::new(),
            hram: vec![0u8; HIGH_RAM_AREA_SIZE],
        };
        bus.set_init_values();
        Ok(bus)
    }

    fn set_init_values(&mut self)
        requires
            old(self).wf(),
            old(self).timer.cycles == 0,
            old(self).divider == (Timer { freq: TimerRateHz::F16384, cycles: 0, val: 0, modulo: 0, enable: true }),
        ensures
            final(self).wf(),
            final(self).post_boot(),
    {
        self.init_timer_registers();
        self.init_sound_registers();
        self.init_lcd_registers();
    }

    fn init_timer_registers(&mut self)
        requires
            old(self).wf(),
        ensures
            final(self).wf(),
            *final(self) == (MemoryBus { timer: final(self).timer, ..*old(self) }),
            final(self).timer.val == 0 && final(self).timer.modulo == 0 && !final(self).timer.enable,
            final(self).timer.freq == TimerRateHz::F4096,
            final(self).timer.cycles == old(self).timer.cycles,
    {
        self.write_byte(0xFF05, 0);
        self.write_byte(0xFF06, 0);
        self.write_byte(0xFF07, 0);
        proof {
            assert(0u8 & 4 == 0) by (bit_vector);
        }
    }

    #[verifier::rlimit(60)]
    fn init_sound_registers(&mut self)
        requires
            old(self).wf(),
        ensures
            final(self).wf(),
            *final(self) == (MemoryBus { sound: final(self).sound, ..*old(self) }),
            final(self).sound.enabled,
            final(self).sound.panning == 0xF3 && final(self).sound.left_volume == 7 && final(self).sound.right_volume == 7,
            final(self).sound.channel1.duty_idx == 2 && final(self).sound.channel1.envelope.init_volume == 15,
            final(self).sound.channel2.duty_idx == 0 && !final(self).sound.channel3.dac && final(self).sound.channel4.ff22 == 0,
    {
        self.write_byte(0xFF26, 0xF1);
        proof {
            assert(0xF1u8 & 0x80 != 0) by (bit_vector);
        }
        self.write_byte(0xFF10, 0x80);
        self.write_byte(0xFF11, 0xBF);
        self.write_byte(0xFF12, 0xF3);
        self.write_byte(0xFF14, 0xBF);
        self.write_byte(0xFF16, 0x3F);
        self.write_byte(0xFF17, 0);
        self.write_byte(0xFF19, 0xBF);
        self.write_byte(0xFF1A, 0x7F);
        self.write_byte(0xFF1B, 0xFF);
        self.write_byte(0xFF1C, 0x9F);
        self.write_byte(0xFF1E, 0xBF);
        self.write_byte(0xFF20, 0xFF);
        self.write_byte(0xFF21, 0);
        self.write_byte(0xFF22, 0);
        self.write_byte(0xFF23, 0xBF);
        self.write_byte(0xFF24, 0x77);
        self.write_byte(0xFF25, 0xF3);
        proof {
            assert(0x7Fu8 & 0x80 == 0) by (bit_vector);
        }
    }

    fn init_lcd_registers(&mut self)
        requires
            old(self).wf(),
        ensures
            final(self).wf(),
            final(self).timer == old(self).timer && final(self).sound == old(self).sound,
            final(self).divider == old(self).divider,
            final(self).gpu.lcd_control == LcdControl::spec_from_byte(0x91),
            final(self).gpu.viewport.x == 0 && final(self).gpu.viewport.y == 0,
            final(self).gpu.window.x == 0 && final(self).gpu.window.y == 0,
            final(self).gpu.lcd_status.lyc == 0,
            final(self).gpu.bg_colors == BackgroundColors::spec_from_byte(0xFC),
            final(self).gpu.obj0_colors == BackgroundColors::spec_from_byte(0xFC),
            final(self).gpu.obj1_colors == BackgroundColors::spec_from_byte(0xFC),
    {
        self.write_byte(0xFF40, 0x91);
        self.write_byte(0xFF42, 0);
        self.write_byte(0xFF43, 0);
        self.write_byte(0xFF45, 0);
        self.write_byte(0xFF47, 0xFC);
        self.write_byte(0xFF48, 0xFF);
        self.write_byte(0xFF49, 0xFF);
        self.write_byte(0xFF4A, 0);
        self.write_byte(0xFF4B, 0);
        proof {
            assert(0xFFu8 & !3u8 == 0xFC) by (bit_vector);
        }
    }

    pub fn key_up(&mut self, key: JoypadKey)
        requires
            old(self).wf(),
        ensures
            final(self).wf(),
            final(self).joypad == old(self).joypad.with_key(key, false),
            *final(self) == old(self).key_changed(key, false),
            *final(self) == (MemoryBus { joypad: final(self).joypad, interrupt_flag: final(self).interrupt_flag, ..*old(self) }),
            final(self).interrupt_flag == (InterruptFlags {
                joypad: old(self).interrupt_flag.joypad || (old(self).joypad.low_nibble() == 15
                    && final(self).joypad.low_nibble() != 15),
                ..old(self).interrupt_flag
            }),
    {
        if self.joypad.key_up(key) {
            self.interrupt_flag.joypad = true;
        }
    }

    /// A key press; the joypad interrupt is requested when JOYP's low nibble leaves all ones.
    pub fn key_down(&mut self, key: JoypadKey)
        requires
            old(self).wf(),
        ensures
            final(self).wf(),
            final(self).joypad == old(self).joypad.with_key(key, true),
            *final(self) == old(self).key_changed(key, true),
            old(self).joypad.low_nibble() == 15 && final(self).joypad.low_nibble() != 15
                ==> final(self).interrupt_flag.joypad,
            *final(self) == (MemoryBus { joypad: final(self).joypad, interrupt_flag: final(self).interrupt_flag, ..*old(self) }),
            final(self).interrupt_flag == (InterruptFlags {
                joypad: old(self).interrupt_flag.joypad || (old(self).joypad.low_nibble() == 15
                    && final(self).joypad.low_nibble() != 15),
                ..old(self).interrupt_flag
            }),
    {
        if self.joypad.key_down(key) {
            self.interrupt_flag.joypad = true;
        }
    }

    /// Advances the timers, the PPU and the APU by `cycles` and collects their interrupt
    /// requests; returns `cycles`.
    pub fn step(&mut self, cycles: u32) -> (r: u32)
        requires
            old(self).wf(),
        ensures
            final(self).wf(),
            r == cycles,
            final(self).interrupt_enable == old(self).interrupt_enable,
            old(self).interrupt_flag.timer ==> final(self).interrupt_flag.timer,
            old(self).interrupt_flag.vblank ==> final(self).interrupt_flag.vblank,
            old(self).interrupt_flag.lcd ==> final(self).interrupt_flag.lcd,
            final(self).interrupt_flag.serial == old(self).interrupt_flag.serial,
            final(self).interrupt_flag.joypad == old(self).interrupt_flag.joypad,
            final(self).timer.modulo == old(self).timer.modulo && final(self).timer.enable == old(self).timer.enable,
            final(self).timer.freq == old(self).timer.freq,
            final(self).wram == old(self).wram && final(self).hram == old(self).hram,
            final(self).cartridge == old(self).cartridge && final(self).joypad == old(self).joypad,
            final(self).gpu.vram == old(self).gpu.vram && final(self).gpu.oam == old(self).gpu.oam,
            final(self).gpu.lcd_control == old(self).gpu.lcd_control,
            old(self).gpu.lcd_control.lcd_enable ==> final(self).gpu.position() == (old(self).gpu.position() + cycles)
                % (crate::gpu::FRAME_DOTS as int),
            !old(self).gpu.lcd_control.lcd_enable ==> final(self).gpu == old(self).gpu,
            final(self).divider.val == crate::timer::ticks(
                old(self).divider.val,
                old(self).divider.modulo,
                ((old(self).divider.cycles + cycles) / 256) as nat,
            ).0,
            final(self).sound.enabled == old(self).sound.enabled,
            old(self).sound.enabled ==> final(self).sound.frame_seq == (old(self).sound.frame_seq + (
            old(self).sound.frame_seq_clock + cycles) / 8192) % 8,
            old(self).timer.enable ==> {
                let total = old(self).timer.cycles + cycles;
                let p = old(self).timer.freq.spec_period();
                let (v, o) = crate::timer::ticks(old(self).timer.val, old(self).timer.modulo, (total / (p as int)) as nat);
                &&& final(self).timer.val == v
                &&& final(self).timer.cycles == total % (p as int)
                &&& o ==> final(self).interrupt_flag.timer
            },
    {
        self.divider.step(cycles);
        if self.timer.step(cycles) {
            self.interrupt_flag.timer = true;
        }
        let inter = self.gpu.step(cycles);
        self.interrupt_flag.vblank = self.interrupt_flag.vblank || inter.vblank;
        self.interrupt_flag.lcd = self.interrupt_flag.lcd || inter.lcd;
        self.sound.cycle(cycles);
        cycles
    }

    /// Hands out the APU's last full output buffer, if any.
    pub fn take_audio(&mut self) -> (r: Option<AudioBuff>)
        requires
            old(self).wf(),
        ensures
            final(self).wf(),
            r == old(self).sound.pending,
            final(self).sound.pending.is_none(),
            *final(self) == (MemoryBus { sound: final(self).sound, ..*old(self) }),
            final(self).sound == (Sound { pending: None, ..old(self).sound }),
    {
        self.sound.take_audio()
    }

    pub fn pending_interrupt(&self) -> (r: bool)
        ensures
            r == self.spec_pending().any(),
    {
        self.interrupt_enable.and(&self.interrupt_flag).to_byte() != 0
    }

    pub fn vbank_interrupt(&self) -> (r: bool)
        ensures
            r == (self.interrupt_enable.vblank && self.interrupt_flag.vblank),
    {
        self.interrupt_enable.vblank && self.interrupt_flag.vblank
    }

    pub fn reset_vbank_interrupt(&mut self)
        ensures
            *final(self) == (MemoryBus { interrupt_flag: InterruptFlags { vblank: false, ..old(self).interrupt_flag }, ..*old(self) }),
    {
        self.interrupt_flag.vblank = false;
    }

    pub fn lcd_interrupt(&self) -> (r: bool)
        ensures
            r == (self.interrupt_enable.lcd && self.interrupt_flag.lcd),
    {
        self.interrupt_enable.lcd && self.interrupt_flag.lcd
    }

    pub fn reset_lcd_interrupt(&mut self)
        ensures
            *final(self) == (MemoryBus { interrupt_flag: InterruptFlags { lcd: false, ..old(self).interrupt_flag }, ..*old(self) }),
    {
        self.interrupt_flag.lcd = false;
    }

    pub fn timer_interrupt(&self) -> (r: bool)
        ensures
            r == (self.interrupt_enable.timer && self.interrupt_flag.timer),
    {
        self.interrupt_enable.timer && self.interrupt_flag.timer
    }

    pub fn reset_timer_interrupt(&mut self)
        ensures
            *final(self) == (MemoryBus { interrupt_flag: InterruptFlags { timer: false, ..old(self).interrupt_flag }, ..*old(self) }),
    {
        self.interrupt_flag.timer = false;
    }

    pub fn serial_interrupt(&self) -> (r: bool)
        ensures
            r == (self.interrupt_enable.serial && self.interrupt_flag.serial),
    {
        self.interrupt_enable.serial && self.interrupt_flag.serial
    }

    pub fn reset_serial_interrupt(&mut self)
        ensures
            *final(self) == (MemoryBus { interrupt_flag: InterruptFlags { serial: false, ..old(self).interrupt_flag }, ..*old(self) }),
    {
        self.interrupt_flag.serial = false;
    }

    pub fn joypad_interrupt(&self) -> (r: bool)
        ensures
            r == (self.interrupt_enable.joypad && self.interrupt_flag.joypad),
    {
        self.interrupt_enable.joypad && self.interrupt_flag.joypad
    }

    pub fn reset_joypad_interrupt(&mut self)
        ensures
            *final(self) == (MemoryBus { interrupt_flag: InterruptFlags { joypad: false, ..old(self).interrupt_flag }, ..*old(self) }),
    {
        self.interrupt_flag.joypad = false;
    }
}

impl MemoryBus {
    /// A CPU read, routed by address range.
    pub fn read_byte(&self, addr: u16) -> (r: u8)
        requires
            self.wf(),
        ensures
            is_plain_ram(addr) ==> r == self.ram_byte(addr),
            self.spec_mem(addr) matches Some(b) ==> r == b,
            addr == INTERRUPT_ENABLED_REGISTER ==> r == self.interrupt_enable.view_byte(),
            UNUSED_START <= addr <= UNUSED_END ==> r == 0,
            addr == DIV_ADDR ==> r == self.divider.val,
            addr == 0xFF05 ==> r == self.timer.val,
            addr == 0xFF0F ==> r == self.interrupt_flag.view_byte(),
            addr == 0xFF44 ==> r == self.gpu.lcd_status.ly,
            addr == 0xFF00 ==> r == self.joypad.view_byte(),
            addr == 0xFF06 ==> r == self.timer.modulo,
            addr == 0xFF07 ==> r == self.timer.freq.spec_code() + (if self.timer.enable { 4int } else { 0 }),
            addr == 0xFF40 ==> r == self.gpu.lcd_control.view_byte(),
            addr == 0xFF41 ==> r == self.gpu.lcd_status.view_byte(),
            addr == 0xFF42 ==> r == self.gpu.viewport.y,
            addr == 0xFF43 ==> r == self.gpu.viewport.x,
            addr == 0xFF45 ==> r == self.gpu.lcd_status.lyc,
            addr == 0xFF47 ==> r == self.gpu.bg_colors.view_byte(),
            addr == 0xFF48 ==> r == self.gpu.obj0_colors.view_byte(),
            addr == 0xFF49 ==> r == self.gpu.obj1_colors.view_byte(),
            addr == 0xFF4A ==> r == self.gpu.window.y,
            addr == 0xFF4B ==> r == self.gpu.window.x,
            addr == 0xFF25 ==> r == self.sound.panning,
            addr == 0xFF26 ==> (r >= 0x80 <==> self.sound.enabled),
            0xFF30 <= addr <= 0xFF3F ==> r == if !self.sound.channel3.enabled {
                self.sound.channel3.waves@[addr - 0xFF30]
            } else if self.sound.channel3.period.reloaded {
                self.sound.channel3.waves@[self.sound.channel3.wave_idx as int / 2]
            } else {
                0xFF
            },
    {
        if addr <= ROM_BANK_N_END {
            self.cartridge.read_rom(addr)
        } else if addr <= VIDEO_RAM_END {
            self.gpu.vram[(addr - VIDEO_RAM_START) as usize]
        } else if addr <= EXTERNAL_RAM_END {
            self.cartridge.read_ram(addr)
        } else if addr <= WORKING_RAM_END {
            self.wram[(addr - WORKING_RAM_START) as usize]
        } else if addr <= ECHO_RAM_END {
            self.wram[(addr - ECHO_RAM_START) as usize]
        } else if addr <= OAM_END {
            self.gpu.oam[(addr - OAM_START) as usize]
        } else if addr <= UNUSED_END {
            0
        } else if addr <= IO_REGISTERS_END {
            self.read_io_register(addr)
        } else if addr <= HIGH_RAM_AREA_END {
            self.hram[(addr - HIGH_RAM_AREA_START) as usize]
        } else {
            self.interrupt_enable.to_byte()
        }
    }

    /// A read of $FF00 + `addr`.
    pub fn read_high_byte(&self, addr: u8) -> (r: u8)
        requires
            self.wf(),
        ensures
            0x80 <= addr <= 0xFE ==> r == self.ram_byte((0xFF00 + addr) as u16),
    {
        self.read_byte(IO_REGISTERS_START + addr as u16)
    }

    /// A read of an I/O register; unmapped registers read as $FF.
    fn read_io_register(&self, addr: u16) -> (r: u8)
        requires
            self.wf(),
        ensures
            addr == DIV_ADDR ==> r == self.divider.val,
            addr == 0xFF05 ==> r == self.timer.val,
            addr == 0xFF06 ==> r == self.timer.modulo,
            addr == 0xFF07 ==> r == self.timer.freq.spec_code() + (if self.timer.enable { 4int } else { 0 }),
            addr == 0xFF0F ==> r == self.interrupt_flag.view_byte(),
            addr == 0xFF44 ==> r == self.gpu.lcd_status.ly,
            addr == 0xFF45 ==> r == self.gpu.lcd_status.lyc,
            addr == 0xFF41 ==> r == self.gpu.lcd_status.view_byte(),
            addr == 0xFF00 ==> r == self.joypad.view_byte(),
            addr == 0xFF40 ==> r == self.gpu.lcd_control.view_byte(),
            addr == 0xFF42 ==> r == self.gpu.viewport.y,
            addr == 0xFF43 ==> r == self.gpu.viewport.x,
            addr == 0xFF47 ==> r == self.gpu.bg_colors.view_byte(),
            addr == 0xFF48 ==> r == self.gpu.obj0_colors.view_byte(),
            addr == 0xFF49 ==> r == self.gpu.obj1_colors.view_byte(),
            addr == 0xFF4A ==> r == self.gpu.window.y,
            addr == 0xFF4B ==> r == self.gpu.window.x,
            addr == 0xFF25 ==> r == self.sound.panning,
            addr == 0xFF26 ==> (r >= 0x80 <==> self.sound.enabled),
            0xFF30 <= addr <= 0xFF3F ==> r == if !self.sound.channel3.enabled {
                self.sound.channel3.waves@[addr - 0xFF30]
            } else if self.sound.channel3.period.reloaded {
                self.sound.channel3.waves@[self.sound.channel3.wave_idx as int / 2]
            } else {
                0xFF
            },
    {
        match addr {
            0xFF00 => self.joypad.to_byte(),
            0xFF01..=0xFF02 => 0,
            0xFF04 => self.divider.val,
            0xFF05 => self.timer.val,
            0xFF06 => self.timer.modulo,
            0xFF07 => self.timer.freq.code() + (if self.timer.enable { 4u8 } else { 0 }),
            0xFF0F => self.interrupt_flag.to_byte(),
            0xFF10..=0xFF3F => self.sound.read_byte(addr),
            0xFF40 => self.gpu.lcd_control.to_byte(),
            0xFF41 => self.gpu.lcd_status.get_status_byte(),
            0xFF42 => self.gpu.viewport.y,
            0xFF43 => self.gpu.viewport.x,
            0xFF44 => self.gpu.lcd_status.ly(),
            0xFF45 => self.gpu.lcd_status.lyc(),
            0xFF47 => self.gpu.bg_colors.to_byte(),
            0xFF48 => self.gpu.obj0_colors.to_byte(),
            0xFF49 => self.gpu.obj1_colors.to_byte(),
            0xFF4A => self.gpu.window.y,
            0xFF4B => self.gpu.window.x,
            _ => 0xFF,
        }
    }

    /// A CPU write, routed by address range. Plain memory takes the byte; a write to DIV
    /// zeroes the divider whatever the value.
    pub fn write_byte(&mut self, addr: u16, val: u8)
        requires
            old(self).wf(),
        ensures
            final(self).wf(),
            is_plain_ram(addr) ==> old(self).ram_written(addr, val, *final(self)),
            addr == DIV_ADDR ==> *final(self) == old(self).after_div_write(val),
            addr == INTERRUPT_ENABLED_REGISTER ==> final(self).interrupt_enable == InterruptFlags::spec_from_byte(val),
            addr == 0xFF0F ==> final(self).interrupt_flag == InterruptFlags::spec_from_byte(val),
            addr == 0xFF40 ==> final(self).gpu.lcd_control == LcdControl::spec_from_byte(val),
            addr != 0xFF40 ==> final(self).gpu.lcd_control == old(self).gpu.lcd_control,
            is_plain_ram(addr) ==> old(self).only_ram_differs(*final(self)),
            IO_REGISTERS_START <= addr <= IO_REGISTERS_END ==> old(self).io_written(addr, val, *final(self)),
            addr <= ROM_BANK_N_END || (EXTERNAL_RAM_START <= addr <= EXTERNAL_RAM_END) ==> *final(self) == (MemoryBus {
                cartridge: final(self).cartridge,
                ..*old(self)
            }),
            addr <= ROM_BANK_N_END && old(self).cartridge is Mbc0 ==> *final(self) == *old(self),
            addr == 0xFF40 ==> *final(self) == (MemoryBus {
                gpu: final(self).gpu,
                interrupt_flag: final(self).interrupt_flag,
                ..*old(self)
            }) && final(self).gpu.viewport == old(self).gpu.viewport && final(self).gpu.window == old(self).gpu.window,
            UNUSED_START <= addr <= UNUSED_END ==> *final(self) == *old(self),
            addr == INTERRUPT_ENABLED_REGISTER ==> *final(self) == (MemoryBus {
                interrupt_enable: InterruptFlags::spec_from_byte(val),
                ..*old(self)
            }),
            addr == 0xFF46 && 0xC0 <= val <= 0xDF ==> forall|i: int|
                0 <= i < 160 ==> #[trigger] final(self).gpu.oam@[i] == old(self).wram@[(val - 0xC0) * 256 + i],
            addr == 0xFF46 && val <= 0xDF ==> forall|i: int|
                0 <= i < 160 ==> old(self).spec_mem((val as int * 256 + i) as u16) == Some(#[trigger] final(self).gpu.oam@[i]),
            addr == 0xFF46 ==> *final(self) == (MemoryBus {
                gpu: GPU { oam: final(self).gpu.oam, ..old(self).gpu },
                ..*old(self)
            }),
            addr == 0xFF46 ==> final(self).wram == old(self).wram && final(self).hram == old(self).hram
                && final(self).interrupt_enable == old(self).interrupt_enable,
    {
        if addr <= ROM_BANK_N_END {
            self.cartridge.write_rom(addr, val);
        } else if addr <= VIDEO_RAM_END {
            self.gpu.vram.set((addr - VIDEO_RAM_START) as usize, val);
        } else if addr <= EXTERNAL_RAM_END {
            self.cartridge.write_ram(addr, val);
        } else if addr <= WORKING_RAM_END {
            self.wram.set((addr - WORKING_RAM_START) as usize, val);
        } else if addr <= ECHO_RAM_END {
            self.wram.set((addr - ECHO_RAM_START) as usize, val);
        } else if addr <= OAM_END {
            self.gpu.oam.set((addr - OAM_START) as usize, val);
        } else if addr <= UNUSED_END {
        } else if addr <= IO_REGISTERS_END {
            self.write_io_register(addr, val);
        } else if addr <= HIGH_RAM_AREA_END {
            self.hram.set((addr - HIGH_RAM_AREA_START) as usize, val);
        } else {
            self.interrupt_enable = InterruptFlags::from_byte(val);
        }
    }

    /// A write of $FF00 + `addr`.
    pub fn write_high_byte(&mut self, addr: u8, val: u8)
        requires
            old(self).wf(),
        ensures
            final(self).wf(),
            0x80 <= addr <= 0xFE ==> old(self).ram_written((0xFF00 + addr) as u16, val, *final(self)),
    {
        self.write_byte(IO_REGISTERS_START + addr as u16, val);
    }

    /// A write of an I/O register; writes to LY and to unmapped registers are dropped.
    fn write_io_register(&mut self, addr: u16, val: u8)
        requires
            old(self).wf(),
            IO_REGISTERS_START <= addr <= IO_REGISTERS_END,
        ensures
            final(self).wf(),
            final(self).wram == old(self).wram && final(self).hram == old(self).hram,
            final(self).gpu.vram == old(self).gpu.vram,
            addr != 0xFF46 ==> final(self).gpu.oam == old(self).gpu.oam,
            addr == 0xFF46 && 0xC0 <= val <= 0xDF ==> forall|i: int|
                0 <= i < 160 ==> #[trigger] final(self).gpu.oam@[i] == old(self).wram@[(val - 0xC0) * 256 + i],
            addr == 0xFF46 && val <= 0xDF ==> forall|i: int|
                0 <= i < 160 ==> old(self).spec_mem((val as int * 256 + i) as u16) == Some(#[trigger] final(self).gpu.oam@[i]),
            addr == 0xFF46 ==> *final(self) == (MemoryBus {
                gpu: GPU { oam: final(self).gpu.oam, ..old(self).gpu },
                ..*old(self)
            }),
            addr == DIV_ADDR ==> *final(self) == old(self).after_div_write(val),
            addr == 0xFF0F ==> final(self).interrupt_flag == InterruptFlags::spec_from_byte(val),
            final(self).interrupt_enable == old(self).interrupt_enable,
            addr == 0xFF40 ==> final(self).gpu.lcd_control == LcdControl::spec_from_byte(val),
            addr != 0xFF40 ==> final(self).gpu.lcd_control == old(self).gpu.lcd_control,
            old(self).io_written(addr, val, *final(self)),
            addr == 0xFF40 ==> *final(self) == (MemoryBus {
                gpu: final(self).gpu,
                interrupt_flag: final(self).interrupt_flag,
                ..*old(self)
            }) && final(self).gpu.viewport == old(self).gpu.viewport && final(self).gpu.window == old(self).gpu.window,
    {
        match addr {
            0xFF00 => self.joypad.set_mode(val),
            0xFF04..=0xFF07 => self.write_timer_register(addr, val),
            0xFF0F => self.interrupt_flag = InterruptFlags::from_byte(val),
            0xFF10..=0xFF3F => self.sound.write_byte(addr, val),
            0xFF46 => self.dma_transfer(val),
            0xFF40..=0xFF4B => self.write_lcd_register(addr, val),
            _ => {},
        }
    }

    /// DIV, TIMA, TMA and TAC.
    fn write_timer_register(&mut self, addr: u16, val: u8)
        requires
            old(self).wf(),
        ensures
            final(self).wf(),
            *final(self) == (MemoryBus { divider: final(self).divider, timer: final(self).timer, ..*old(self) }),
            addr == DIV_ADDR ==> *final(self) == old(self).after_div_write(val),
            addr != DIV_ADDR ==> final(self).divider == old(self).divider,
            addr == 0xFF05 ==> final(self).timer == (Timer { val, ..old(self).timer }),
            addr == 0xFF06 ==> final(self).timer == (Timer { modulo: val, ..old(self).timer }),
            addr == 0xFF07 ==> final(self).timer == (Timer {
                freq: TimerRateHz::spec_from_code(val % 4),
                enable: val & 4 != 0,
                ..old(self).timer
            }),
    {
        match addr {
            0xFF04 => self.divider.val = 0,
            0xFF05 => self.timer.val = val,
            0xFF06 => self.timer.modulo = val,
            0xFF07 => {
                self.timer.freq = TimerRateHz::from_code(val % 4);
                self.timer.enable = val & 4 != 0;
            },
            _ => {},
        }
    }

    /// The LCD registers other than DMA.
    fn write_lcd_register(&mut self, addr: u16, val: u8)
        requires
            old(self).wf(),
        ensures
            final(self).wf(),
            final(self).wram == old(self).wram && final(self).hram == old(self).hram,
            final(self).gpu.vram == old(self).gpu.vram && final(self).gpu.oam == old(self).gpu.oam,
            final(self).interrupt_enable == old(self).interrupt_enable,
            addr == 0xFF40 ==> final(self).gpu.lcd_control == LcdControl::spec_from_byte(val),
            addr != 0xFF40 ==> final(self).gpu.lcd_control == old(self).gpu.lcd_control,
            addr == 0xFF40 ==> *final(self) == (MemoryBus {
                gpu: final(self).gpu,
                interrupt_flag: final(self).interrupt_flag,
                ..*old(self)
            }) && final(self).gpu.viewport == old(self).gpu.viewport && final(self).gpu.window == old(self).gpu.window,
            addr != 0xFF40 ==> *final(self) == (MemoryBus {
                gpu: old(self).gpu.reg_written(addr, val),
                interrupt_flag: InterruptFlags {
                    lcd: old(self).interrupt_flag.lcd || (addr == 0xFF45 && old(self).gpu.lcd_status.lyc_int_select
                        && old(self).gpu.lcd_status.ly == val),
                    ..old(self).interrupt_flag
                },
                ..*old(self)
            }),
    {
        let inter = self.gpu.write_register(addr, val);
        self.interrupt_flag.vblank = self.interrupt_flag.vblank || inter.vblank;
        self.interrupt_flag.lcd = self.interrupt_flag.lcd || inter.lcd;
    }

    /// OAM DMA: copies the 160 bytes at `page * $100` into OAM.
    fn dma_transfer(&mut self, page: u8)
        requires
            old(self).wf(),
        ensures
            final(self).wf(),
            final(self).wram == old(self).wram && final(self).hram == old(self).hram,
            final(self).gpu.vram == old(self).gpu.vram,
            final(self).interrupt_enable == old(self).interrupt_enable,
            final(self).gpu.lcd_control == old(self).gpu.lcd_control,
            *final(self) == (MemoryBus { gpu: GPU { oam: final(self).gpu.oam, ..old(self).gpu }, ..*old(self) }),
            0xC0 <= page <= 0xDF ==> forall|i: int| 0 <= i < 160 ==> #[trigger] final(self).gpu.oam@[i] == old(
                self,
            ).wram@[(page - 0xC0) * 256 + i],
            page <= 0xDF ==> forall|i: int|
                0 <= i < 160 ==> old(self).spec_mem((page as int * 256 + i) as u16) == Some(#[trigger] final(self).gpu.oam@[i]),
    {
        let src = page as u16 * 0x100;
        let mut i: u16 = 0;
        while i < 160
            invariant
                self.wf(),
                i <= 160,
                src == page as int * 256,
                *self == (MemoryBus { gpu: GPU { oam: self.gpu.oam, ..old(self).gpu }, ..*old(self) }),
                0xC0 <= page <= 0xDF ==> forall|k: int| 0 <= k < i ==> #[trigger] self.gpu.oam@[k] == old(
                    self,
                ).wram@[(page - 0xC0) * 256 + k],
                page <= 0xDF ==> forall|k: int|
                    0 <= k < i ==> old(self).spec_mem((page as int * 256 + k) as u16) == Some(#[trigger] self.gpu.oam@[k]),
            decreases 160 - i,
        {
            proof {
                if page <= 0xDF {
                    assert(self.spec_mem((src + i) as u16) == old(self).spec_mem((src + i) as u16));
                    assert(self.spec_mem((src + i) as u16) is Some);
                }
            }
            let b = self.read_byte(src + i);
            self.gpu.oam.set(i as usize, b);
            i = i + 1;
        }
    }
}

/// A write to plain memory followed by a read of the same address returns the value
/// written.
pub proof fn lemma_ram_round_trip(before: MemoryBus, after: MemoryBus, addr: u16, val: u8)
    requires
        is_plain_ram(addr),
        before.ram_written(addr, val, after),
    ensures
        after.ram_byte(addr) == val,
{
    assert(after.ram_byte(addr) == val);
}

/// Writing any value to DIV leaves the bus as writing zero does.
pub proof fn lemma_div_write_ignores_value(bus: MemoryBus, val: u8)
    ensures
        bus.after_div_write(val) == bus.after_div_write(0),
        bus.after_div_write(val).divider.val == 0,
{
}

} // verus!
