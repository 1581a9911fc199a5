use vstd::prelude::*;

verus! {

/// The rates that TAC bits 0..1 select for TIMA, and the divider's rate.
#[derive(Copy, Clone, Debug, PartialEq, Eq, Structural)]
pub enum TimerRateHz {
    F4096,
    F262144,
    F65536,
    F16384,
}

/// A counter that ticks once every `freq.per_cpu_cycle()` CPU cycles while enabled.
#[derive(Copy, Clone, Debug)]
pub struct Timer {
    pub freq: TimerRateHz,
    /// Cycles accumulated towards the next tick.
    pub cycles: u32,
    pub val: u8,
    /// When the counter overflows it reloads from here and an interrupt is requested.
    pub modulo: u8,
    pub enable: bool,
}

/// The largest tick period, in CPU cycles.
pub const MAX_TIMER_PERIOD: u32 = 1024;

impl TimerRateHz {
    pub open spec fn spec_period(self) -> u32 {
        match self {
            TimerRateHz::F4096 => 1024,
            TimerRateHz::F262144 => 16,
            TimerRateHz::F65536 => 64,
            TimerRateHz::F16384 => 256,
        }
    }

    /// CPU cycles per tick: CPU_FREQ divided by the rate.
    pub fn per_cpu_cycle(&self) -> (r: u32)
        ensures
            r == self.spec_period(),
            0 < r <= MAX_TIMER_PERIOD,
    {
        match self {
            TimerRateHz::F4096 => 1024,
            TimerRateHz::F262144 => 16,
            TimerRateHz::F65536 => 64,
            TimerRateHz::F16384 => 256,
        }
    }

    /// The rate that TAC bits 0..1 select.
    pub open spec fn spec_from_code(code: u8) -> TimerRateHz {
        if code % 4 == 0 {
            TimerRateHz::F4096
        } else if code % 4 == 1 {
            TimerRateHz::F262144
        } else if code % 4 == 2 {
            TimerRateHz::F65536
        } else {
            TimerRateHz::F16384
        }
    }

    pub open spec fn spec_code(self) -> u8 {
        match self {
            TimerRateHz::F4096 => 0,
            TimerRateHz::F262144 => 1,
            TimerRateHz::F65536 => 2,
            TimerRateHz::F16384 => 3,
        }
    }

    pub fn from_code(code: u8) -> (r: TimerRateHz)
        ensures
            r == Self::spec_from_code(code),
    {
        if code % 4 == 0 {
            TimerRateHz::F4096
        } else if code % 4 == 1 {
            TimerRateHz::F262144
        } else if code % 4 == 2 {
            TimerRateHz::F65536
        } else {
            TimerRateHz::F16384
        }
    }

    pub fn code(&self) -> (r: u8)
        ensures
            r == self.spec_code(),
            r < 4,
    {
        match self {
            TimerRateHz::F4096 => 0,
            TimerRateHz::F262144 => 1,
            TimerRateHz::F65536 => 2,
            TimerRateHz::F16384 => 3,
        }
    }
}

/// The counter and overflow flag after `n` ticks from `val`; each overflow reloads `modulo`.
pub open spec fn ticks(val: u8, modulo: u8, n: nat) -> (u8, bool)
    decreases n,
{
    if n == 0 {
        (val, false)
    } else {
        let (v, o) = ticks(val, modulo, (n - 1) as nat);
        if v == 255 {
            (modulo, true)
        } else {
            ((v + 1) as u8, o)
        }
    }
}

impl Timer {
    pub open spec fn wf(self) -> bool {
        self.cycles < MAX_TIMER_PERIOD
    }

    pub fn new_disabled(freq: TimerRateHz) -> (r: Self)
        ensures
            r.wf(),
            r == (Timer { freq, cycles: 0, val: 0, modulo: 0, enable: false }),
    {
        Self { freq, cycles: 0, val: 0, modulo: 0, enable: false }
    }

    pub fn new_enabled(freq: TimerRateHz) -> (r: Self)
        ensures
            r.wf(),
            r == (Timer { freq, cycles: 0, val: 0, modulo: 0, enable: true }),
    {
        Self { freq, cycles: 0, val: 0, modulo: 0, enable: true }
    }

    /// Advances by `cpu_cycles`; returns whether the counter overflowed.
    pub fn step(&mut self, cpu_cycles: u32) -> (overflow: bool)
        requires
            old(self).wf(),
        ensures
            final(self).wf(),
            final(self).freq == old(self).freq,
            final(self).modulo == old(self).modulo,
            final(self).enable == old(self).enable,
            !old(self).enable ==> *final(self) == *old(self) && !overflow,
            old(self).enable ==> {
                let total = old(self).cycles + cpu_cycles;
                let p = old(self).freq.spec_period();
                &&& final(self).cycles == total % (p as int)
                &&& (final(self).val, overflow) == ticks(old(self).val, old(self).modulo, (total / (p as int)) as nat)
            },
    {
        if !self.enable {
            return false;
        }
        let p = self.freq.per_cpu_cycle() as u64;
        let ghost start_val = self.val;
        let ghost total = self.cycles + cpu_cycles;
        let mut acc: u64 = self.cycles as u64 + cpu_cycles as u64;
        let mut overflow = false;
        let mut n: u64 = 0;
        while acc >= p
            invariant
                p == self.freq.spec_period(),
                0 < p <= MAX_TIMER_PERIOD,
                acc + n * p == total,
                (self.val, overflow) == ticks(start_val, self.modulo, n as nat),
                n <= total,
                total <= u32::MAX + MAX_TIMER_PERIOD,
                self.modulo == old(self).modulo,
                self.enable == old(self).enable,
                self.freq == old(self).freq,
                self.cycles == old(self).cycles,
            decreases acc,
        {
            proof {
                assert(n + 1 <= total) by (nonlinear_arith)
                    requires acc + n * p == total, acc >= p, p > 0;
            }
            let overflow_cur = self.val == 255;
            overflow = overflow || overflow_cur;
            acc = acc - p;
            self.val = if overflow_cur { self.modulo } else { self.val + 1 };
            n = n + 1;
            proof {
                assert(acc + n * p == total) by (nonlinear_arith)
                    requires acc + (n - 1) * p + p == total + 0;
            }
        }
        proof {
            assert(n == total / (p as int) && acc == total % (p as int)) by (nonlinear_arith)
                requires acc + n * p == total, acc < p, p > 0, acc >= 0, n >= 0;
        }
        self.cycles = acc as u32;
        overflow
    }
}

/// The five interrupt sources, as held in IE and IF.
#[derive(Copy, Clone, Debug, PartialEq, Eq, Structural)]
pub struct InterruptFlags {
    pub vblank: bool,
    pub lcd: bool,
    pub timer: bool,
    pub serial: bool,
    pub joypad: bool,
}

impl InterruptFlags {
    /// The flags as bits 0..4: VBlank, LCD, Timer, Serial, Joypad.
    pub open spec fn view_byte(self) -> u8 {
        ((if self.vblank { 1int } else { 0 }) + (if self.lcd { 2int } else { 0 }) + (if self.timer { 4int } else { 0 })
            + (if self.serial { 8int } else { 0 }) + (if self.joypad { 16int } else { 0 })) as u8
    }

    pub open spec fn spec_from_byte(v: u8) -> InterruptFlags {
        InterruptFlags {
            vblank: v & 1 != 0,
            lcd: v & 2 != 0,
            timer: v & 4 != 0,
            serial: v & 8 != 0,
            joypad: v & 16 != 0,
        }
    }

    pub open spec fn any(self) -> bool {
        self.vblank || self.lcd || self.timer || self.serial || self.joypad
    }

    pub open spec fn spec_and(self, o: InterruptFlags) -> InterruptFlags {
        InterruptFlags {
            vblank: self.vblank && o.vblank,
            lcd: self.lcd && o.lcd,
            timer: self.timer && o.timer,
            serial: self.serial && o.serial,
            joypad: self.joypad && o.joypad,
        }
    }

    pub fn new() -> (r: Self)
        ensures
            !r.any(),
    {
        Self { vblank: false, lcd: false, timer: false, serial: false, joypad: false }
    }

    pub fn to_byte(&self) -> (r: u8)
        ensures
            r == self.view_byte(),
            r < 32,
    {
        (if self.vblank { 1u8 } else { 0 }) + (if self.lcd { 2u8 } else { 0 }) + (if self.timer { 4u8 } else { 0 })
            + (if self.serial { 8u8 } else { 0 }) + (if self.joypad { 16u8 } else { 0 })
    }

    pub fn from_byte(v: u8) -> (r: Self)
        ensures
            r == Self::spec_from_byte(v),
    {
        InterruptFlags {
            vblank: v & 1 != 0,
            lcd: v & 2 != 0,
            timer: v & 4 != 0,
            serial: v & 8 != 0,
            joypad: v & 16 != 0,
        }
    }

    /// The sources set in both.
    pub fn and(&self, o: &InterruptFlags) -> (r: InterruptFlags)
        ensures
            r == self.spec_and(*o),
    {
        InterruptFlags {
            vblank: self.vblank && o.vblank,
            lcd: self.lcd && o.lcd,
            timer: self.timer && o.timer,
            serial: self.serial && o.serial,
            joypad: self.joypad && o.joypad,
        }
    }
}

impl From<InterruptFlags> for u8 {
    fn from(v: InterruptFlags) -> (r: u8) {
        v.to_byte()
    }
}

impl vstd::std_specs::convert::FromSpecImpl<InterruptFlags> for u8 {
    open spec fn obeys_from_spec() -> bool {
        true
    }

    open spec fn from_spec(v: InterruptFlags) -> u8 {
        v.view_byte()
    }
}

impl From<u8> for InterruptFlags {
    fn from(v: u8) -> (r: InterruptFlags) {
        InterruptFlags::from_byte(v)
    }
}

impl vstd::std_specs::convert::FromSpecImpl<u8> for InterruptFlags {
    open spec fn obeys_from_spec() -> bool {
        true
    }

    open spec fn from_spec(v: u8) -> InterruptFlags {
        InterruptFlags::spec_from_byte(v)
    }
}

} // verus!
