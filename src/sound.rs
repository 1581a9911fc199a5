use vstd::prelude::*;

verus! {

/// CPU cycles between two steps of the 512 Hz frame sequencer.
pub const CPU_CYCLES_PER_FRAME_SEQ: u64 = 8192;

/// Host sample rate of the mixed output.
pub const SAMPLE_RATE: u64 = 44100;

/// CPU cycles between two output samples: CPU_FREQ / SAMPLE_RATE.
pub const AUDIO_SAMPLE_FREQ: u64 = 95;

/// Samples per side in one buffer handed to the host.
pub const AUDIO_BUF_LEN: usize = 1024;

/// The largest value of a mixed sample: four channels at volume 15, master volume 8.
pub const MAX_MIXED_SAMPLE: u16 = 480;

/// A channel's frequency divider: it reloads to `(2048 - period) * multiplier` and counts down
/// one per CPU cycle.
pub struct Period {
    /// The 11-bit period value from NRx3/NRx4.
    pub period: u16,
    pub timer: u16,
    pub multiplier: u16,
    /// Whether the divider reloaded within the last two cycles of the last step.
    pub reloaded: bool,
}

pub open spec fn reload_value(period: u16, multiplier: u16) -> int {
    (2048 - period) * multiplier
}

/// The divider's timer and reload count after `n` cycles from timer `t`: each cycle counts
/// down (not below zero), and a timer at zero reloads to `reload`.
pub open spec fn period_run(t: u16, reload: int, n: nat) -> (int, nat)
    decreases n,
{
    if n == 0 {
        (t as int, 0)
    } else {
        let (t1, k) = period_run(t, reload, (n - 1) as nat);
        let d = if t1 > 0 { t1 - 1 } else { 0 };
        if d == 0 {
            (reload, k + 1)
        } else {
            (d, k)
        }
    }
}

impl Period {
    /// NRx3 as the period's low byte.
    pub open spec fn with_low(self, val: u8) -> Period {
        Period { period: (self.period - self.period % 256 + val) as u16, ..self }
    }

    /// NRx4 bits 0..2 as the period's bits 8..10.
    pub open spec fn with_high(self, val: u8) -> Period {
        Period { period: (self.period % 256 + (val % 8) * 256) as u16, ..self }
    }

    /// The divider reloaded, as on a trigger.
    pub open spec fn triggered(self) -> Period {
        Period { timer: reload_value(self.period, self.multiplier) as u16, ..self }
    }

    pub open spec fn wf(&self) -> bool {
        &&& self.period <= 2047
        &&& 1 <= self.multiplier <= 4
        &&& self.timer <= 8192 + 16
    }

    pub fn new(multiplier: u16) -> (r: Self)
        requires
            1 <= multiplier <= 4,
        ensures
            r.wf(),
            r.period == 0 && r.timer == 0 && r.multiplier == multiplier && !r.reloaded,
    {
        Self { period: 0, timer: 0, multiplier, reloaded: false }
    }

    /// NRx4 bits 0..2 become the period's bits 8..10.
    pub fn set_high(&mut self, val: u8)
        requires
            old(self).wf(),
        ensures
            final(self).wf(),
            final(self).period == old(self).period % 256 + (val % 8) as int * 256,
            final(self).timer == old(self).timer && final(self).multiplier == old(self).multiplier,
            final(self).reloaded == old(self).reloaded,
    {
        self.period = self.period % 256 + (val % 8) as u16 * 256;
    }

    /// NRx3 becomes the period's low byte.
    pub fn set_low(&mut self, val: u8)
        requires
            old(self).wf(),
        ensures
            final(self).wf(),
            final(self).period == old(self).period - old(self).period % 256 + val,
            final(self).timer == old(self).timer && final(self).multiplier == old(self).multiplier,
            final(self).reloaded == old(self).reloaded,
    {
        self.period = self.period - self.period % 256 + val as u16;
    }

    pub fn set(&mut self, val: u16)
        requires
            old(self).wf(),
        ensures
            final(self).wf(),
            final(self).period == val % 2048,
            final(self).timer == old(self).timer && final(self).multiplier == old(self).multiplier,
    {
        self.period = val % 2048;
    }

    fn calculate_timer(&self) -> (r: u16)
        requires
            self.wf(),
        ensures
            r == reload_value(self.period, self.multiplier),
            1 <= r <= 8192,
    {
        proof {
            let p = self.period as int;
            let m = self.multiplier as int;
            assert(1 <= (2048 - p) * m <= 8192) by (nonlinear_arith)
                requires 0 <= p <= 2047, 1 <= m <= 4;
        }
        (2048 - self.period) * self.multiplier
    }

    /// Runs the divider for `cpu_cycles` cycles; returns how many times it reloaded.
    pub fn step(&mut self, cpu_cycles: u64) -> (reloads: u64)
        requires
            old(self).wf(),
        ensures
            final(self).wf(),
            reloads <= cpu_cycles,
            (final(self).timer as int, reloads as nat) == period_run(
                old(self).timer,
                reload_value(old(self).period, old(self).multiplier),
                cpu_cycles as nat,
            ),
            final(self).period == old(self).period && final(self).multiplier == old(self).multiplier,
            cpu_cycles > 0 ==> 1 <= final(self).timer,
            final(self).timer <= old(self).timer || final(self).timer <= reload_value(old(self).period, old(self).multiplier),
            cpu_cycles > 0 && old(self).timer > cpu_cycles ==> reloads == 0 && final(self).timer == old(self).timer
                - cpu_cycles,
    {
        self.reloaded = false;
        let mut reloads: u64 = 0;
        let mut left = cpu_cycles;
        while left > 0
            invariant
                self.wf(),
                reloads + left <= cpu_cycles,
                self.period == old(self).period && self.multiplier == old(self).multiplier,
                left < cpu_cycles ==> 1 <= self.timer,
                self.timer <= old(self).timer || self.timer <= reload_value(self.period, self.multiplier),
                old(self).timer > cpu_cycles ==> reloads == 0 && self.timer == old(self).timer - (cpu_cycles - left),
                (self.timer as int, reloads as nat) == period_run(
                    old(self).timer,
                    reload_value(self.period, self.multiplier),
                    (cpu_cycles - left) as nat,
                ),
            decreases left,
        {
            left = left - 1;
            self.timer = if self.timer > 0 { self.timer - 1 } else { 0 };
            if self.timer == 0 {
                self.timer = self.calculate_timer();
                self.reloaded = true;
                reloads = reloads + 1;
            }
        }
        if self.timer + 2 < self.calculate_timer() {
            self.reloaded = false;
        }
        reloads
    }

    pub fn trigger(&mut self)
        requires
            old(self).wf(),
        ensures
            final(self).wf(),
            *final(self) == old(self).triggered(),
    {
        self.timer = self.calculate_timer();
    }
}

/// Whether the frame-sequencer step is in the half that does not clock length.
pub open spec fn spec_first_half(frame_seq: u8) -> bool {
    frame_seq % 2 == 1
}

fn first_half(frame_seq: u8) -> (r: bool)
    ensures
        r == spec_first_half(frame_seq),
{
    frame_seq % 2 == 1
}

/// A length counter: when enabled it counts down on length clocks and the channel stops at 0.
#[derive(Debug)]
pub struct LengthTimer {
    pub enabled: bool,
    pub max_len: u16,
    pub timer: u16,
}

impl LengthTimer {
    pub open spec fn wf(&self) -> bool {
        (self.max_len == 64 || self.max_len == 256) && self.timer <= self.max_len
    }

    /// The counter after NRx4 bit 6 is written as `new`.
    pub open spec fn with_enable(self, new: bool, frame_seq: u8) -> LengthTimer {
        let l = LengthTimer { enabled: new, ..self };
        if !self.enabled && spec_first_half(frame_seq) { l.stepped() } else { l }
    }

    /// The counter after a trigger.
    pub open spec fn triggered(self, frame_seq: u8) -> LengthTimer {
        if self.timer != 0 {
            self
        } else {
            let l = LengthTimer { timer: self.max_len, ..self };
            if spec_first_half(frame_seq) { l.stepped() } else { l }
        }
    }

    pub open spec fn stepped(self) -> LengthTimer {
        if self.enabled && self.timer > 0 { LengthTimer { timer: (self.timer - 1) as u16, ..self } } else { self }
    }

    pub fn new(len: u16) -> (r: Self)
        requires
            len == 64 || len == 256,
        ensures
            r.wf(),
            r.max_len == len && r.timer == 0 && !r.enabled,
    {
        Self { enabled: false, max_len: len, timer: 0 }
    }

    pub fn is_expired(&self) -> (r: bool)
        ensures
            r == (self.timer == 0),
    {
        self.timer == 0
    }

    /// Loads the counter from the register's initial length.
    pub fn set_current(&mut self, initial_len: u8)
        requires
            old(self).wf(),
            initial_len < old(self).max_len,
        ensures
            final(self).wf(),
            *final(self) == (LengthTimer { timer: (old(self).max_len - initial_len) as u16, ..*old(self) }),
    {
        self.timer = self.max_len - initial_len as u16;
    }

    /// Enabling the counter in the first half of a sequencer period clocks it once more.
    pub fn set_enabled(&mut self, new_enabled: bool, frame_seq: u8)
        requires
            old(self).wf(),
        ensures
            final(self).wf(),
            *final(self) == old(self).with_enable(new_enabled, frame_seq),
            *final(self) == if !old(self).enabled && spec_first_half(frame_seq) {
                (LengthTimer { enabled: new_enabled, ..*old(self) }).stepped()
            } else {
                LengthTimer { enabled: new_enabled, ..*old(self) }
            },
    {
        let old = self.enabled;
        self.enabled = new_enabled;
        if !old && first_half(frame_seq) {
            self.step();
        }
    }

    /// On trigger an expired counter reloads to its maximum, clocked once more in the first
    /// half of a sequencer period.
    pub fn trigger(&mut self, frame_seq: u8)
        requires
            old(self).wf(),
        ensures
            final(self).wf(),
            *final(self) == old(self).triggered(frame_seq),
            old(self).timer != 0 ==> *final(self) == *old(self),
            old(self).timer == 0 ==> *final(self) == if spec_first_half(frame_seq) {
                (LengthTimer { timer: old(self).max_len, ..*old(self) }).stepped()
            } else {
                LengthTimer { timer: old(self).max_len, ..*old(self) }
            },
    {
        if self.timer == 0 {
            self.timer = self.max_len;
            if first_half(frame_seq) {
                self.step();
            }
        }
    }

    /// One length clock.
    pub fn step(&mut self)
        requires
            old(self).wf(),
        ensures
            final(self).wf(),
            *final(self) == old(self).stepped(),
    {
        if self.enabled && self.timer > 0 {
            self.timer = self.timer - 1;
        }
    }
}

/// A volume envelope.
pub struct Envelope {
    pub timer: u8,
    pub volume: u8,
    pub init_volume: u8,
    pub dir_up: bool,
    pub init_timer: u8,
}

impl Envelope {
    /// The envelope after a write to NRx2.
    pub open spec fn written(self, val: u8) -> Envelope {
        Envelope { init_volume: val / 16, volume: val / 16, dir_up: val & 8 != 0, init_timer: val % 8, ..self }
    }

    /// The envelope after a trigger.
    pub open spec fn triggered(self) -> Envelope {
        Envelope { volume: self.init_volume, timer: self.init_timer, ..self }
    }

    /// The envelope after one envelope clock.
    pub open spec fn stepped(self) -> Envelope {
        if self.init_timer == 0 {
            self
        } else if self.timer > 1 {
            Envelope { timer: (self.timer - 1) as u8, ..self }
        } else {
            Envelope {
                timer: self.init_timer,
                volume: if self.dir_up {
                    if self.volume < 15 { (self.volume + 1) as u8 } else { 15 }
                } else {
                    if self.volume > 0 { (self.volume - 1) as u8 } else { 0 }
                },
                ..self
            }
        }
    }

    pub open spec fn wf(&self) -> bool {
        self.volume <= 15 && self.init_volume <= 15 && self.init_timer <= 7 && self.timer <= 7
    }

    pub fn new() -> (r: Self)
        ensures
            r.wf(),
            r.volume == 0 && r.init_volume == 0 && r.timer == 0 && r.init_timer == 0 && !r.dir_up,
    {
        Self { timer: 0, volume: 0, init_volume: 0, dir_up: false, init_timer: 0 }
    }

    /// NRx2 as read back.
    pub fn read_byte(&self) -> (r: u8)
        requires
            self.wf(),
        ensures
            r == self.init_volume * 16 + (if self.dir_up { 8int } else { 0 }) + self.init_timer,
    {
        self.init_volume * 16 + (if self.dir_up { 8u8 } else { 0 }) + self.init_timer
    }

    /// A write to NRx2: initial volume, direction and period.
    pub fn write_byte(&mut self, val: u8)
        requires
            old(self).wf(),
        ensures
            final(self).wf(),
            final(self).init_volume == val / 16 && final(self).volume == val / 16,
            final(self).dir_up == (val & 8 != 0) && final(self).init_timer == val % 8,
            final(self).timer == old(self).timer,
            *final(self) == old(self).written(val),
    {
        self.init_volume = val / 16;
        self.volume = self.init_volume;
        self.dir_up = val & 8 != 0;
        self.init_timer = val % 8;
    }

    pub fn trigger(&mut self)
        requires
            old(self).wf(),
        ensures
            final(self).wf(),
            *final(self) == old(self).triggered(),
    {
        self.volume = self.init_volume;
        self.timer = self.init_timer;
    }

    /// One envelope clock: with a non-zero period the timer counts down, and at zero it
    /// reloads and the volume steps towards 15 or 0.
    pub fn step(&mut self)
        requires
            old(self).wf(),
        ensures
            final(self).wf(),
            final(self).init_volume == old(self).init_volume && final(self).init_timer == old(self).init_timer,
            final(self).dir_up == old(self).dir_up,
            *final(self) == old(self).stepped(),
            old(self).init_timer == 0 ==> *final(self) == *old(self),
            old(self).init_timer != 0 && old(self).timer > 1 ==> final(self).timer == old(self).timer - 1
                && final(self).volume == old(self).volume,
            old(self).init_timer != 0 && old(self).timer <= 1 ==> final(self).timer == old(self).init_timer
                && final(self).volume == if old(self).dir_up {
                    if old(self).volume < 15 { old(self).volume + 1 } else { 15 }
                } else {
                    if old(self).volume > 0 { old(self).volume - 1 } else { 0 }
                },
    {
        if self.init_timer == 0 {
            return;
        }
        self.timer = if self.timer > 0 { self.timer - 1 } else { 0 };
        if self.timer == 0 {
            self.timer = self.init_timer;
            if self.volume < 0xF && self.dir_up {
                self.volume = self.volume + 1;
            }
            if self.volume > 0x0 && !self.dir_up {
                self.volume = self.volume - 1;
            }
        }
    }
}

/// The frequency sweep of channel 1.
pub struct Sweep {
    pub enabled: bool,
    pub period: u8,
    pub timer: u8,
    pub negate: bool,
    /// A frequency was computed in negate mode since the last trigger.
    pub negate_done: bool,
    pub shift: u8,
    pub shadow_freq: u16,
    /// The sweep overflowed (or negate was cleared after use): the channel must stop.
    pub disable_channel: bool,
}

/// The frequency that one sweep computation yields from `shadow`.
pub open spec fn swept(shadow: u16, shift: u8, negate: bool) -> int {
    if negate { shadow - (shadow >> shift) } else { shadow + (shadow >> shift) }
}

impl Sweep {
    /// The unit after a write to NR10.
    pub open spec fn written(self, val: u8) -> Sweep {
        Sweep {
            period: (val / 16) % 8,
            negate: val & 8 != 0,
            shift: val % 8,
            disable_channel: self.disable_channel || (self.negate && val & 8 == 0 && self.negate_done),
            negate_done: false,
            ..self
        }
    }

    /// The unit after a trigger of a channel whose period value is `p`.
    pub open spec fn triggered(self, p: u16) -> Sweep {
        let s1 = Sweep {
            shadow_freq: p,
            timer: if self.period > 0 { self.period } else { 8 },
            enabled: self.period != 0 || self.shift != 0,
            disable_channel: false,
            ..self
        };
        if self.shift != 0 {
            Sweep {
                disable_channel: swept(p, self.shift, self.negate) > 2047,
                negate_done: self.negate_done || self.negate,
                ..s1
            }
        } else {
            s1
        }
    }

    /// The sweep unit and the channel's period value after one sweep clock from period value
    /// `p`: the timer counts down and, run out, reloads (0 counts as 8); then, when enabled
    /// with a non-zero period, the new frequency `n` is computed, `n > 2047` stops the
    /// channel, and with a non-zero shift `n` becomes the shadow and the channel's period,
    /// followed by a second overflow check.
    pub open spec fn spec_step(self, p: u16) -> (Sweep, u16) {
        let t: int = if self.timer > 0 { self.timer - 1 } else { 0 };
        if t != 0 {
            (Sweep { timer: t as u8, ..self }, p)
        } else {
            let s1 = Sweep { timer: if self.period > 0 { self.period } else { 8 }, ..self };
            if !(self.period > 0 && self.enabled) {
                (s1, p)
            } else {
                let n = swept(self.shadow_freq, self.shift, self.negate);
                let s2 = Sweep {
                    disable_channel: self.disable_channel || n > 2047,
                    negate_done: self.negate_done || self.negate,
                    ..s1
                };
                if n <= 2047 && self.shift != 0 {
                    (
                        Sweep {
                            shadow_freq: n as u16,
                            disable_channel: s2.disable_channel || swept(n as u16, self.shift, self.negate) > 2047,
                            ..s2
                        },
                        n as u16,
                    )
                } else {
                    (s2, p)
                }
            }
        }
    }

    /// A sweep period of 0 counts as 8.
    pub const PERIOD_ZERO: u8 = 8;

    pub open spec fn wf(&self) -> bool {
        self.period <= 7 && self.shift <= 7 && self.shadow_freq <= 2047 && self.timer <= 8
    }

    pub fn new() -> (r: Self)
        ensures
            r.wf(),
            !r.enabled && !r.disable_channel,
    {
        Self {
            enabled: false,
            period: 0,
            negate: false,
            negate_done: false,
            shift: 0,
            timer: 0,
            shadow_freq: 0,
            disable_channel: false,
        }
    }

    /// NR10 as read back.
    pub fn read_byte(&self) -> (r: u8)
        requires
            self.wf(),
        ensures
            r == 128 + self.period * 16 + (if self.negate { 8int } else { 0 }) + self.shift,
    {
        128 + self.period * 16 + (if self.negate { 8u8 } else { 0 }) + self.shift
    }

    /// A write to NR10. Clearing negate after a negate-mode computation since the last
    /// trigger stops the channel.
    pub fn write_byte(&mut self, val: u8)
        requires
            old(self).wf(),
        ensures
            final(self).wf(),
            final(self).period == (val / 16) % 8 && final(self).negate == (val & 8 != 0) && final(self).shift == val % 8,
            final(self).disable_channel == (old(self).disable_channel || (old(self).negate && val & 8 == 0
                && old(self).negate_done)),
            !final(self).negate_done,
            final(self).shadow_freq == old(self).shadow_freq && final(self).enabled == old(self).enabled,
            *final(self) == old(self).written(val),
    {
        let old_negate = self.negate;
        self.period = (val / 16) % 8;
        self.negate = val & 8 != 0;
        self.shift = val % 8;
        if old_negate && !self.negate && self.negate_done {
            self.disable_channel = true;
        }
        self.negate_done = false;
    }

    fn reload_timer(&mut self)
        requires
            old(self).wf(),
        ensures
            final(self).wf(),
            *final(self) == (Sweep { timer: if old(self).period > 0 { old(self).period } else { 8 }, ..*old(self) }),
    {
        if self.period > 0 {
            self.timer = self.period;
        } else {
            self.timer = Self::PERIOD_ZERO;
        }
    }

    /// One frequency computation; a result above 2047 stops the channel.
    fn calculate_freq(&mut self) -> (r: u16)
        requires
            old(self).wf(),
        ensures
            final(self).wf(),
            r == swept(old(self).shadow_freq, old(self).shift, old(self).negate),
            final(self).disable_channel == (old(self).disable_channel || r > 2047),
            final(self).negate_done == (old(self).negate_done || old(self).negate),
            final(self).period == old(self).period && final(self).shift == old(self).shift,
            final(self).negate == old(self).negate && final(self).shadow_freq == old(self).shadow_freq,
            final(self).timer == old(self).timer && final(self).enabled == old(self).enabled,
    {
        proof {
            let s = self.shadow_freq;
            let k = self.shift;
            assert(s >> k <= s) by (bit_vector);
        }
        let delta = self.shadow_freq >> self.shift;
        let new_freq = if self.negate {
            self.negate_done = true;
            self.shadow_freq - delta
        } else {
            self.shadow_freq + delta
        };
        if new_freq > 2047 {
            self.disable_channel = true;
        }
        new_freq
    }

    /// On trigger the shadow register copies the channel's period and, with a non-zero
    /// shift, one overflow check runs at once.
    pub fn trigger(&mut self, period: &Period)
        requires
            old(self).wf(),
            period.wf(),
        ensures
            final(self).wf(),
            final(self).shadow_freq == period.period,
            final(self).enabled == (old(self).period != 0 || old(self).shift != 0),
            final(self).disable_channel == (old(self).shift != 0 && swept(period.period, old(self).shift, old(self).negate)
                > 2047),
            *final(self) == old(self).triggered(period.period),
    {
        self.shadow_freq = period.period;
        self.reload_timer();
        self.enabled = self.period != 0 || self.shift != 0;
        self.disable_channel = false;
        if self.shift != 0 {
            self.calculate_freq();
        }
    }

    /// One sweep clock: when the timer runs out it reloads, and with a non-zero period the
    /// new frequency replaces the channel's (when it fits and the shift is non-zero),
    /// followed by a second overflow check.
    pub fn step(&mut self, period: &mut Period)
        requires
            old(self).wf(),
            old(period).wf(),
        ensures
            final(self).wf(),
            final(period).wf(),
            final(period).multiplier == old(period).multiplier && final(period).timer == old(period).timer,
            old(self).disable_channel ==> final(self).disable_channel,
            (*final(self), final(period).period) == old(self).spec_step(old(period).period),
    {
        if self.timer > 0 {
            self.timer = self.timer - 1;
        }
        if self.timer == 0 {
            self.reload_timer();
            if self.period > 0 && self.enabled {
                let new_freq = self.calculate_freq();
                if new_freq <= 2047 && self.shift != 0 {
                    self.shadow_freq = new_freq;
                    period.set(new_freq);
                    self.calculate_freq();
                }
            }
        }
    }
}

/// The eight-step duty waveforms, most significant bit first.
pub open spec fn duty_waveform(duty: u8) -> u8 {
    if duty % 4 == 0 {
        0b00000001
    } else if duty % 4 == 1 {
        0b10000001
    } else if duty % 4 == 2 {
        0b10000111
    } else {
        0b01111110
    }
}

/// The duty waveform's level at position `pos` of 8.
pub open spec fn duty_level(duty: u8, pos: u8) -> u8 {
    (duty_waveform(duty) >> ((7 - pos) as u8)) & 1
}

fn duty_bit(duty: u8, pos: u8) -> (r: u8)
    requires
        pos < 8,
    ensures
        r == duty_level(duty, pos),
        r <= 1,
{
    let wave: u8 = if duty % 4 == 0 {
        0b00000001
    } else if duty % 4 == 1 {
        0b10000001
    } else if duty % 4 == 2 {
        0b10000111
    } else {
        0b01111110
    };
    let shift = 7 - pos;
    proof {
        assert((wave >> shift) & 1 <= 1) by (bit_vector);
    }
    (wave >> shift) & 1
}

/// Channels 1 and 2: a square wave with a volume envelope; channel 1 also sweeps.
pub struct SquareChannel {
    pub enabled: bool,
    pub sweep: Option<Sweep>,
    pub length: LengthTimer,
    pub envelope: Envelope,
    pub duty_idx: u8,
    pub duty_iter: u8,
    pub period: Period,
    pub dac: bool,
}

impl SquareChannel {
    /// The channel after a trigger: on if its DAC is, divider, length and envelope
    /// restarted, and the sweep restarted (which may stop it again).
    pub open spec fn triggered(self, frame_seq: u8) -> SquareChannel {
        let c1 = SquareChannel {
            enabled: self.enabled || self.dac,
            period: self.period.triggered(),
            length: self.length.triggered(frame_seq),
            envelope: self.envelope.triggered(),
            ..self
        };
        match c1.sweep {
            Some(sw) => {
                let s2 = sw.triggered(c1.period.period);
                SquareChannel { sweep: Some(s2), enabled: c1.enabled && !s2.disable_channel, ..c1 }
            },
            None => c1,
        }
    }

    /// The channel after a CPU write of `val` to register `addr`.
    pub open spec fn written(self, addr: u16, val: u8, frame_seq: u8) -> SquareChannel {
        if addr == 0xFF10 {
            match self.sweep {
                Some(sw) => {
                    let s2 = sw.written(val);
                    SquareChannel { sweep: Some(s2), enabled: self.enabled && !s2.disable_channel, ..self }
                },
                None => self,
            }
        } else if addr == 0xFF11 || addr == 0xFF16 {
            SquareChannel {
                duty_idx: val / 64,
                length: LengthTimer { timer: (64 - val % 64) as u16, ..self.length },
                ..self
            }
        } else if addr == 0xFF12 || addr == 0xFF17 {
            SquareChannel {
                envelope: self.envelope.written(val),
                dac: val & 0xF8 != 0,
                enabled: self.enabled && val & 0xF8 != 0,
                ..self
            }
        } else if addr == 0xFF13 || addr == 0xFF18 {
            SquareChannel { period: self.period.with_low(val), ..self }
        } else if addr == 0xFF14 || addr == 0xFF19 {
            let l1 = self.length.with_enable(val & 0x40 != 0, frame_seq);
            let c1 = SquareChannel {
                period: self.period.with_high(val),
                length: l1,
                enabled: self.enabled && l1.timer != 0,
                ..self
            };
            if val & 0x80 != 0 { c1.triggered(frame_seq) } else { c1 }
        } else {
            self
        }
    }

    pub open spec fn wf(&self) -> bool {
        &&& self.length.wf() && self.length.max_len == 64
        &&& self.envelope.wf()
        &&& self.period.wf() && self.period.multiplier == 4
        &&& self.duty_iter < 8
        &&& self.duty_idx < 4
        &&& (self.sweep matches Some(s) ==> s.wf())
        &&& self.enabled ==> self.dac
    }

    pub fn new(sweep_enabled: bool) -> (r: Self)
        ensures
            r.wf(),
            !r.enabled,
            r.sweep.is_some() == sweep_enabled,
    {
        Self {
            enabled: false,
            sweep: if sweep_enabled { Some(Sweep::new()) } else { None },
            length: LengthTimer::new(64),
            envelope: Envelope::new(),
            duty_idx: 0,
            duty_iter: 0,
            period: Period::new(4),
            dac: false,
        }
    }

    /// A register read; write-only bits read as 1.
    pub fn read_byte(&self, addr: u16) -> (r: u8)
        requires
            self.wf(),
        ensures
            addr == 0xFF11 || addr == 0xFF16 ==> r == self.duty_idx * 64 + 63,
            addr == 0xFF12 || addr == 0xFF17 ==> r == self.envelope.init_volume * 16 + (if self.envelope.dir_up {
                8int
            } else {
                0
            }) + self.envelope.init_timer,
            addr == 0xFF13 || addr == 0xFF18 ==> r == 0xFF,
    {
        match addr {
            0xFF10 => match &self.sweep {
                Some(s) => s.read_byte(),
                None => 0xFF,
            },
            0xFF11 | 0xFF16 => self.duty_idx * 64 + 0b111111,
            0xFF12 | 0xFF17 => self.envelope.read_byte(),
            0xFF14 | 0xFF19 => 0b10111111 | (if self.length.enabled { 0x40u8 } else { 0 }),
            _ => 0xFF,
        }
    }

    /// A register write; turning the DAC off (NRx2 bits 3..7 all zero) or an expired length
    /// stops the channel, and NRx4 bit 7 triggers it.
    pub fn write_byte(&mut self, addr: u16, val: u8, frame_seq: u8)
        requires
            old(self).wf(),
        ensures
            final(self).wf(),
            (addr == 0xFF12 || addr == 0xFF17) ==> final(self).dac == (val & 0xF8 != 0),
            (addr == 0xFF12 || addr == 0xFF17) && val & 0xF8 == 0 ==> !final(self).enabled,
            final(self).sweep.is_some() == old(self).sweep.is_some(),
            *final(self) == old(self).written(addr, val, frame_seq),
    {
        match addr {
            0xFF10 => {
                let mut stop = false;
                match &mut self.sweep {
                    Some(s) => {
                        s.write_byte(val);
                        stop = s.disable_channel;
                    },
                    None => {},
                }
                if stop {
                    self.enabled = false;
                }
            },
            0xFF11 | 0xFF16 => {
                self.duty_idx = val / 64;
                self.length.set_current(val % 64);
            },
            0xFF12 | 0xFF17 => {
                self.envelope.write_byte(val);
                self.dac = val & 0xF8 != 0;
                self.enabled = self.enabled && self.dac;
            },
            0xFF13 | 0xFF18 => self.period.set_low(val),
            0xFF14 | 0xFF19 => {
                self.period.set_high(val % 8);
                self.length.set_enabled(val & 0x40 != 0, frame_seq);
                self.enabled = self.enabled && !self.length.is_expired();
                if val & 0x80 != 0 {
                    self.trigger(frame_seq);
                }
            },
            _ => {},
        }
    }

    pub open spec fn spec_sample(&self) -> u8 {
        if self.enabled && duty_level(self.duty_idx, self.duty_iter) == 1 { self.envelope.volume } else { 0 }
    }

    /// The channel's level: the duty waveform at its position times the envelope volume.
    pub fn sample(&self) -> (r: u8)
        requires
            self.wf(),
        ensures
            r == self.spec_sample(),
            r <= 15,
    {
        if self.enabled {
            if duty_bit(self.duty_idx, self.duty_iter) == 1 {
                self.envelope.volume
            } else {
                0
            }
        } else {
            0
        }
    }

    /// Runs the channel for `cycles` CPU cycles: the waveform position advances once per
    /// `(2048 - freq) * 4` cycles.
    pub fn cycle(&mut self, cycles: u64)
        requires
            old(self).wf(),
        ensures
            final(self).wf(),
            final(self).enabled == old(self).enabled,
            final(self).length == old(self).length,
            final(self).envelope == old(self).envelope,
            final(self).sweep == old(self).sweep,
            old(self).enabled ==> final(self).duty_iter == (old(self).duty_iter + period_run(
                old(self).period.timer,
                reload_value(old(self).period.period, old(self).period.multiplier),
                cycles as nat,
            ).1) % 8,
            !old(self).enabled ==> final(self).duty_iter == old(self).duty_iter,
    {
        if !self.enabled {
            return;
        }
        let n = self.period.step(cycles);
        self.duty_iter = ((self.duty_iter as u64 + n % 8) % 8) as u8;
    }

    /// One envelope clock, while the channel is on.
    pub fn step_envelope(&mut self)
        requires
            old(self).wf(),
        ensures
            final(self).wf(),
            final(self).length == old(self).length && final(self).sweep == old(self).sweep,
            final(self).enabled == old(self).enabled,
            *final(self) == (SquareChannel {
                envelope: if old(self).enabled { old(self).envelope.stepped() } else { old(self).envelope },
                ..*old(self)
            }),
    {
        if self.enabled {
            self.envelope.step();
        }
    }

    /// One length clock; the channel stops when the counter reaches zero.
    pub fn step_length(&mut self)
        requires
            old(self).wf(),
        ensures
            final(self).wf(),
            final(self).length == old(self).length.stepped(),
            final(self).enabled == (old(self).enabled && final(self).length.timer != 0),
            final(self).envelope == old(self).envelope && final(self).sweep == old(self).sweep,
    {
        self.length.step();
        self.enabled = self.enabled && !self.length.is_expired();
    }

    /// One sweep clock (channel 1 only); an overflow stops the channel.
    pub fn step_sweep(&mut self)
        requires
            old(self).wf(),
        ensures
            final(self).wf(),
            final(self).length == old(self).length && final(self).envelope == old(self).envelope,
            final(self).sweep.is_some() == old(self).sweep.is_some(),
            final(self).dac == old(self).dac && final(self).duty_idx == old(self).duty_idx,
            final(self).duty_iter == old(self).duty_iter,
            final(self).period.timer == old(self).period.timer,
            old(self).enabled && old(self).sweep is Some ==> {
                let (sw, p) = old(self).sweep->Some_0.spec_step(old(self).period.period);
                &&& final(self).sweep == Some(sw)
                &&& final(self).period.period == p
                &&& final(self).enabled == !sw.disable_channel
            },
            !(old(self).enabled && old(self).sweep is Some) ==> *final(self) == *old(self),
    {
        if self.enabled {
            let mut stop = false;
            match &mut self.sweep {
                Some(s) => {
                    s.step(&mut self.period);
                    stop = s.disable_channel;
                },
                None => {},
            }
            if stop {
                self.enabled = false;
            }
        }
    }

    fn trigger(&mut self, frame_seq: u8)
        requires
            old(self).wf(),
        ensures
            final(self).wf(),
            final(self).dac == old(self).dac,
            final(self).sweep.is_some() == old(self).sweep.is_some(),
            *final(self) == old(self).triggered(frame_seq),
    {
        if self.dac {
            self.enabled = true;
        }
        self.period.trigger();
        self.length.trigger(frame_seq);
        self.envelope.trigger();
        let mut stop = false;
        match &mut self.sweep {
            Some(s) => {
                s.trigger(&self.period);
                stop = s.disable_channel;
            },
            None => {},
        }
        if stop {
            self.enabled = false;
        }
    }
}

/// The wave channel's 4-bit sample at position `idx` of 32: high nibble first.
pub open spec fn wave_nibble(waves: Seq<u8>, idx: int) -> u8 {
    if idx % 2 == 0 { waves[idx / 2] / 16 } else { waves[idx / 2] % 16 }
}

/// Channel 3: 32 four-bit samples from wave RAM.
pub struct WaveChannel {
    pub enabled: bool,
    pub dac: bool,
    pub period: Period,
    pub length: LengthTimer,
    pub wave_idx: u8,
    pub waves: Vec<u8>,
    /// 0: mute; 1: as is; 2: shifted right once; 3: shifted right twice.
    pub output_lvl: u8,
}

/// Wave RAM after a retrigger while the channel reads it: the first byte (position in the
/// first block) or the first four bytes take the aligned block being read.
pub open spec fn corrupted(waves: Seq<u8>, wave_idx: u8) -> Seq<u8> {
    let idx = ((wave_idx + 1) / 2) % 16;
    if idx < 4 {
        waves.update(0, waves[idx])
    } else {
        Seq::new(16, |k: int| if k < 4 { waves[(idx / 4) * 4 + k] } else { waves[k] })
    }
}

impl WaveChannel {
    /// The registers (all but wave RAM) after a trigger.
    pub open spec fn triggered(self, frame_seq: u8) -> WaveChannel {
        let p = self.period.triggered();
        WaveChannel {
            wave_idx: 0,
            enabled: self.enabled || self.dac,
            period: Period { timer: (p.timer + 5) as u16, ..p },
            length: self.length.triggered(frame_seq),
            ..self
        }
    }

    /// Wave RAM after a trigger.
    pub open spec fn triggered_waves(self) -> Seq<u8> {
        if self.enabled && self.period.timer == 1 { corrupted(self.waves@, self.wave_idx) } else { self.waves@ }
    }

    /// The registers (all but wave RAM) after a CPU write of `val` to `addr`.
    pub open spec fn written(self, addr: u16, val: u8, frame_seq: u8) -> WaveChannel {
        if addr == 0xFF1A {
            WaveChannel { dac: val & 0x80 != 0, enabled: self.enabled && val & 0x80 != 0, ..self }
        } else if addr == 0xFF1B {
            WaveChannel { length: LengthTimer { timer: (256 - val) as u16, ..self.length }, ..self }
        } else if addr == 0xFF1C {
            WaveChannel { output_lvl: (val / 32) % 4, ..self }
        } else if addr == 0xFF1D {
            WaveChannel { period: self.period.with_low(val), ..self }
        } else if addr == 0xFF1E {
            let l1 = self.length.with_enable(val & 0x40 != 0, frame_seq);
            let c1 = WaveChannel {
                period: self.period.with_high(val),
                length: l1,
                enabled: self.enabled && l1.timer != 0,
                ..self
            };
            if val & 0x80 != 0 { c1.triggered(frame_seq) } else { c1 }
        } else {
            self
        }
    }

    /// Wave RAM after a CPU write of `val` to `addr`.
    pub open spec fn written_waves(self, addr: u16, val: u8, frame_seq: u8) -> Seq<u8> {
        if 0xFF30 <= addr <= 0xFF3F {
            if !self.enabled {
                self.waves@.update(addr - 0xFF30, val)
            } else if self.period.reloaded {
                self.waves@.update(self.wave_idx as int / 2, val)
            } else {
                self.waves@
            }
        } else if addr == 0xFF1E && val & 0x80 != 0 {
            let l1 = self.length.with_enable(val & 0x40 != 0, frame_seq);
            if self.enabled && l1.timer != 0 && self.period.timer == 1 {
                corrupted(self.waves@, self.wave_idx)
            } else {
                self.waves@
            }
        } else {
            self.waves@
        }
    }

    /// Extra cycles before the first sample after a trigger.
    pub const WAVE_CHANNEL_TRIGGER_DELAY: u16 = 5;

    pub open spec fn wf(&self) -> bool {
        &&& self.length.wf() && self.length.max_len == 256
        &&& self.period.wf() && self.period.multiplier == 2
        &&& self.period.timer <= 4096 + 5
        &&& self.wave_idx < 32
        &&& self.waves.len() == 16
        &&& self.output_lvl < 4
        &&& self.enabled ==> self.dac
    }

    pub fn new() -> (r: Self)
        ensures
            r.wf(),
            !r.enabled,
    {
        Self {
            enabled: false,
            dac: false,
            period: Period::new(2),
            length: LengthTimer::new(256),
            wave_idx: 1,
            waves: vec![0u8; 16],
            output_lvl: 0,
        }
    }

    /// A register or wave RAM read. While the channel plays, wave RAM reads as the byte being
    /// played right after a position reload, and as $FF otherwise.
    pub fn read_byte(&self, addr: u16) -> (r: u8)
        requires
            self.wf(),
        ensures
            0xFF30 <= addr <= 0xFF3F ==> r == if !self.enabled {
                self.waves@[addr - 0xFF30]
            } else if self.period.reloaded {
                self.waves@[self.wave_idx as int / 2]
            } else {
                0xFF
            },
    {
        match addr {
            0xFF1A => 0x7F | (if self.dac { 0x80u8 } else { 0 }),
            0xFF1C => 0b10011111 | self.output_lvl * 32,
            0xFF1E => 0b10111111 | (if self.length.enabled { 0x40u8 } else { 0 }),
            0xFF30..=0xFF3F => {
                if !self.enabled {
                    self.waves[(addr - 0xFF30) as usize]
                } else if self.period.reloaded {
                    self.waves[self.wave_idx as usize / 2]
                } else {
                    0xFF
                }
            },
            _ => 0xFF,
        }
    }

    /// A register or wave RAM write; wave RAM takes writes under the same rule as reads.
    pub fn write_byte(&mut self, addr: u16, val: u8, frame_seq: u8)
        requires
            old(self).wf(),
        ensures
            final(self).wf(),
            addr == 0xFF1A && val & 0x80 == 0 ==> !final(self).enabled,
            0xFF30 <= addr <= 0xFF3F && !old(self).enabled ==> final(self).waves@ == old(self).waves@.update(
                addr - 0xFF30,
                val,
            ),
            *final(self) == (WaveChannel { waves: final(self).waves, ..old(self).written(addr, val, frame_seq) }),
            final(self).waves@ == old(self).written_waves(addr, val, frame_seq),
    {
        match addr {
            0xFF1A => {
                self.dac = val & 0x80 != 0;
                self.enabled = self.enabled && self.dac;
            },
            0xFF1B => self.length.set_current(val),
            0xFF1C => self.output_lvl = (val / 32) % 4,
            0xFF1D => self.period.set_low(val),
            0xFF1E => {
                self.period.set_high(val % 8);
                self.length.set_enabled(val & 0x40 != 0, frame_seq);
                self.enabled = self.enabled && !self.length.is_expired();
                if val & 0x80 != 0 {
                    self.trigger(frame_seq);
                }
            },
            0xFF30..=0xFF3F => {
                if !self.enabled {
                    self.waves.set((addr - 0xFF30) as usize, val);
                } else if self.period.reloaded {
                    let i = self.wave_idx as usize / 2;
                    self.waves.set(i, val);
                }
            },
            _ => {},
        }
    }

    /// Runs the channel; the sample position advances once per `(2048 - freq) * 2` cycles.
    pub fn cycle(&mut self, cycles: u64)
        requires
            old(self).wf(),
        ensures
            final(self).wf(),
            final(self).enabled == old(self).enabled && final(self).length == old(self).length,
            final(self).waves == old(self).waves,
            old(self).enabled ==> final(self).wave_idx == (old(self).wave_idx + period_run(
                old(self).period.timer,
                reload_value(old(self).period.period, old(self).period.multiplier),
                cycles as nat,
            ).1) % 32,
    {
        if !self.enabled {
            return;
        }
        let n = self.period.step(cycles);
        self.wave_idx = ((self.wave_idx as u64 + n % 32) % 32) as u8;
    }

    pub fn step_length(&mut self)
        requires
            old(self).wf(),
        ensures
            final(self).wf(),
            final(self).length == old(self).length.stepped(),
            final(self).enabled == (old(self).enabled && final(self).length.timer != 0),
            final(self).waves == old(self).waves,
    {
        self.length.step();
        self.enabled = self.enabled && !self.length.is_expired();
    }

    pub open spec fn spec_sample(&self) -> u8 {
        if !self.enabled || self.output_lvl == 0 {
            0
        } else {
            wave_nibble(self.waves@, self.wave_idx as int) >> ((self.output_lvl - 1) as u8)
        }
    }

    /// The current 4-bit sample scaled by the output level.
    pub fn sample(&self) -> (r: u8)
        requires
            self.wf(),
        ensures
            r == self.spec_sample(),
            r <= 15,
    {
        if !self.enabled || self.output_lvl == 0 {
            return 0;
        }
        let byte = self.waves[self.wave_idx as usize / 2];
        let nibble = if self.wave_idx % 2 == 0 { byte / 16 } else { byte % 16 };
        let shift = self.output_lvl - 1;
        proof {
            assert(nibble >> shift <= nibble) by (bit_vector);
        }
        nibble >> shift
    }

    /// Retriggering while the channel reads wave RAM overwrites its first bytes with the
    /// aligned block being read.
    fn corrupt_wave_ram(&mut self)
        requires
            old(self).wf(),
        ensures
            final(self).wf(),
            final(self).enabled == old(self).enabled,
            *final(self) == (WaveChannel { waves: final(self).waves, ..*old(self) }),
            final(self).waves@ == corrupted(old(self).waves@, old(self).wave_idx),
    {
        let idx = (((self.wave_idx as usize + 1) / 2) % 16) as usize;
        if idx < 4 {
            let v = self.waves[idx];
            self.waves.set(0, v);
        } else {
            let base = (idx / 4) * 4;
            let mut k: usize = 0;
            while k < 4
                invariant
                    self.wf(),
                    base + 3 < 16,
                    base == (idx / 4) * 4,
                    idx == ((old(self).wave_idx + 1) / 2) % 16,
                    4 <= idx,
                    k <= 4,
                    *self == (WaveChannel { waves: self.waves, ..*old(self) }),
                    forall|j: int| 0 <= j < 16 ==> #[trigger] self.waves@[j] == if j < k {
                        old(self).waves@[base + j]
                    } else {
                        old(self).waves@[j]
                    },
                decreases 4 - k,
            {
                let v = self.waves[base + k];
                self.waves.set(k, v);
                k = k + 1;
            }
            proof {
                assert(self.waves@ =~= corrupted(old(self).waves@, old(self).wave_idx));
            }
        }
    }

    fn trigger(&mut self, frame_seq: u8)
        requires
            old(self).wf(),
        ensures
            final(self).wf(),
            final(self).wave_idx == 0,
            *final(self) == (WaveChannel { waves: final(self).waves, ..old(self).triggered(frame_seq) }),
            final(self).waves@ == old(self).triggered_waves(),
    {
        if self.enabled && self.period.timer == 1 {
            self.corrupt_wave_ram();
        }
        self.wave_idx = 0;
        if self.dac {
            self.enabled = true;
        }
        self.period.trigger();
        self.period.timer = self.period.timer + Self::WAVE_CHANNEL_TRIGGER_DELAY;
        self.length.trigger(frame_seq);
    }
}

/// The noise period: `divider << shift`, the divider 8 for code 0 and `16 * code` otherwise.
pub open spec fn noise_period(nr43: u8) -> int {
    let code = nr43 % 8;
    let divider: int = if code == 0 { 8 } else { 16 * code };
    divider * pow2_u64((nr43 / 16) as nat)
}

pub open spec fn pow2_u64(n: nat) -> int
    decreases n,
{
    if n == 0 { 1 } else { 2 * pow2_u64((n - 1) as nat) }
}

/// One LFSR shift: every bit moves down by one, and the complement of bit 0 XOR bit 1 enters
/// at bit 14, and also replaces bit 6 in 7-bit mode.
pub open spec fn lfsr_next(lfsr: u16, short: bool) -> u16 {
    let x: int = if lfsr % 2 == (lfsr / 2) % 2 { 1 } else { 0 };
    let wide: int = (lfsr / 2) % 0x4000 + x * 0x4000;
    (if short { wide - ((wide / 64) % 2) * 64 + x * 64 } else { wide }) as u16
}

/// The LFSR after `n` shifts.
pub open spec fn lfsr_steps(lfsr: u16, short: bool, n: nat) -> u16
    decreases n,
{
    if n == 0 {
        lfsr
    } else {
        lfsr_next(lfsr_steps(lfsr, short, (n - 1) as nat), short)
    }
}

/// Channel 4: noise from a 15-bit LFSR.
pub struct NoiseChannel {
    pub enabled: bool,
    pub dac: bool,
    pub length: LengthTimer,
    pub envelope: Envelope,
    /// NR43: clock shift, width, divider code.
    pub ff22: u8,
    pub lfsr: u16,
    pub cycles: u64,
    pub period: u64,
}

impl NoiseChannel {
    /// The channel after a trigger: on if its DAC is, length and envelope restarted, LFSR
    /// cleared.
    pub open spec fn triggered(self, frame_seq: u8) -> NoiseChannel {
        NoiseChannel {
            enabled: self.enabled || self.dac,
            length: self.length.triggered(frame_seq),
            envelope: self.envelope.triggered(),
            lfsr: 0,
            ..self
        }
    }

    /// The channel after a CPU write of `val` to register `addr`.
    pub open spec fn written(self, addr: u16, val: u8, frame_seq: u8) -> NoiseChannel {
        if addr == 0xFF20 {
            NoiseChannel { length: LengthTimer { timer: (64 - val % 64) as u16, ..self.length }, ..self }
        } else if addr == 0xFF21 {
            NoiseChannel {
                envelope: self.envelope.written(val),
                dac: val & 0xF8 != 0,
                enabled: self.enabled && val & 0xF8 != 0,
                ..self
            }
        } else if addr == 0xFF22 {
            NoiseChannel { ff22: val, ..self }
        } else if addr == 0xFF23 {
            let l1 = self.length.with_enable(val & 0x40 != 0, frame_seq);
            let c1 = NoiseChannel { length: l1, enabled: self.enabled && l1.timer != 0, ..self };
            if val & 0x80 != 0 { c1.triggered(frame_seq) } else { c1 }
        } else {
            self
        }
    }

    pub open spec fn wf(&self) -> bool {
        &&& self.length.wf() && self.length.max_len == 64
        &&& self.envelope.wf()
        &&& self.period == 0 || (8 <= self.period && self.cycles < self.period)
        &&& self.period <= 0x400000
        &&& self.period == 0 ==> self.cycles == 0
        &&& self.enabled ==> self.dac
    }

    pub fn new() -> (r: Self)
        ensures
            r.wf(),
            !r.enabled,
    {
        Self {
            enabled: false,
            dac: false,
            length: LengthTimer::new(64),
            envelope: Envelope::new(),
            ff22: 0,
            lfsr: 0,
            period: 0,
            cycles: 0,
        }
    }

    pub fn read_byte(&self, addr: u16) -> (r: u8)
        requires
            self.wf(),
        ensures
            addr == 0xFF22 ==> r == self.ff22,
            addr == 0xFF20 ==> r == 0xFF,
    {
        match addr {
            0xFF21 => self.envelope.read_byte(),
            0xFF22 => self.ff22,
            0xFF23 => 0b10111111 | (if self.length.enabled { 0x40u8 } else { 0 }),
            _ => 0xFF,
        }
    }

    pub fn write_byte(&mut self, addr: u16, val: u8, frame_seq: u8)
        requires
            old(self).wf(),
        ensures
            final(self).wf(),
            addr == 0xFF21 ==> final(self).dac == (val & 0xF8 != 0),
            addr == 0xFF21 && val & 0xF8 == 0 ==> !final(self).enabled,
            addr == 0xFF22 ==> final(self).ff22 == val,
            *final(self) == old(self).written(addr, val, frame_seq),
    {
        match addr {
            0xFF20 => self.length.set_current(val % 64),
            0xFF21 => {
                self.envelope.write_byte(val);
                self.dac = val & 0xF8 != 0;
                self.enabled = self.enabled && self.dac;
            },
            0xFF22 => self.ff22 = val,
            0xFF23 => {
                self.length.set_enabled(val & 0x40 != 0, frame_seq);
                self.enabled = self.enabled && !self.length.is_expired();
                if val & 0x80 != 0 {
                    self.trigger(frame_seq);
                }
            },
            _ => {},
        }
    }

    /// One envelope clock, while the channel is on.
    pub fn step_envelope(&mut self)
        requires
            old(self).wf(),
        ensures
            final(self).wf(),
            final(self).length == old(self).length && final(self).enabled == old(self).enabled,
            *final(self) == (NoiseChannel {
                envelope: if old(self).enabled { old(self).envelope.stepped() } else { old(self).envelope },
                ..*old(self)
            }),
    {
        if self.enabled {
            self.envelope.step();
        }
    }

    pub fn step_length(&mut self)
        requires
            old(self).wf(),
        ensures
            final(self).wf(),
            final(self).length == old(self).length.stepped(),
            final(self).enabled == (old(self).enabled && final(self).length.timer != 0),
            final(self).envelope == old(self).envelope,
    {
        self.length.step();
        self.enabled = self.enabled && !self.length.is_expired();
    }

    /// Runs the noise clock: the LFSR shifts once per period. A period not yet set is taken
    /// from NR43 first.
    pub fn cycle(&mut self, cycles: u32)
        requires
            old(self).wf(),
        ensures
            final(self).wf(),
            final(self).enabled == old(self).enabled && final(self).length == old(self).length,
            final(self).envelope == old(self).envelope && final(self).ff22 == old(self).ff22,
            ({
                let p = noise_period(old(self).ff22);
                let p0 = if old(self).period == 0 { p } else { old(self).period as int };
                let total = old(self).cycles + cycles;
                &&& total < p0 ==> final(self).cycles == total && final(self).lfsr == old(self).lfsr
                    && final(self).period == p0
                &&& total >= p0 ==> final(self).cycles == (total - p0) % p && final(self).period == p
                    && final(self).lfsr == lfsr_steps(old(self).lfsr, old(self).ff22 & 8 != 0, (1 + (total - p0) / p) as nat)
            }),
    {
        if self.period == 0 {
            self.period = self.calculate_period();
        }
        let ghost p0 = self.period as int;
        let ghost p = noise_period(self.ff22);
        let ghost total = self.cycles + cycles;
        let ghost lfsr0 = self.lfsr;
        proof {
            lemma_noise_period_bounds(self.ff22);
        }
        self.cycles = self.cycles + cycles as u64;
        let mut n: u64 = 0;
        while self.cycles >= self.period
            invariant
                8 <= self.period <= 0x400000,
                self.cycles <= 0x400000 + u32::MAX,
                self.length.wf() && self.length.max_len == 64 && self.envelope.wf(),
                self.enabled == old(self).enabled && self.length == old(self).length,
                self.envelope == old(self).envelope && self.ff22 == old(self).ff22,
                self.enabled ==> self.dac,
                8 <= p <= 0x400000,
                8 <= p0,
                total <= 0x400000 + u32::MAX,
                p == noise_period(self.ff22),
                n == 0 ==> self.period == p0 && self.cycles == total && self.lfsr == lfsr0,
                n > 0 ==> self.period == p && self.cycles + (n - 1) * p + p0 == total && total >= p0,
                self.lfsr == lfsr_steps(lfsr0, self.ff22 & 8 != 0, n as nat),
                n <= total,
            decreases self.cycles,
        {
            self.cycles = self.cycles - self.period;
            self.period = self.calculate_period();
            self.lfsr = self.calculate_lfsr();
            proof {
                if n > 0 {
                    assert(self.cycles + n * p + p0 == total) by (nonlinear_arith)
                        requires self.cycles + p + (n - 1) * p + p0 == total + 0;
                } else {
                    assert(self.cycles + 0 * p + p0 == total);
                }
                assert(n + 1 <= total) by (nonlinear_arith)
                    requires self.cycles + n * p + p0 == total, p0 >= 8, p >= 8, n >= 0, self.cycles >= 0;
            }
            n = n + 1;
        }
        proof {
            if n > 0 {
                let m = (n - 1) as int;
                let c = self.cycles as int;
                assert(m == (total - p0) / p && c == (total - p0) % p) by (nonlinear_arith)
                    requires c + m * p == total - p0, 0 <= c < p, p > 0, m >= 0;
            }
        }
    }

    pub open spec fn spec_sample(&self) -> u8 {
        if self.enabled && self.lfsr & 1 == 1 { self.envelope.volume } else { 0 }
    }

    /// The channel's level: LFSR bit 0 times the envelope volume.
    pub fn sample(&self) -> (r: u8)
        requires
            self.wf(),
        ensures
            r == self.spec_sample(),
            r <= 15,
    {
        if self.enabled && self.lfsr & 1 == 1 {
            self.envelope.volume
        } else {
            0
        }
    }

    fn calculate_period(&self) -> (r: u64)
        ensures
            r == noise_period(self.ff22),
            8 <= r <= 0x400000,
    {
        let shift = self.ff22 / 16;
        let code = self.ff22 % 8;
        let divider: u64 = if code == 0 { 8 } else { 16 * code as u64 };
        let mut r = divider;
        let mut i: u8 = 0;
        while i < shift
            invariant
                i <= shift <= 15,
                r == divider * pow2_u64(i as nat),
                8 <= divider <= 112,
                8 <= r <= 112 * pow2_u64(i as nat),
            decreases shift - i,
        {
            proof {
                lemma_pow2_u64_pair(i as nat);
                let p = pow2_u64(i as nat);
                assert(r * 2 == divider * (2 * p) && r * 2 <= 112 * (2 * p)) by (nonlinear_arith)
                    requires r == divider * p, r <= 112 * p;
            }
            r = r * 2;
            i = i + 1;
        }
        proof {
            lemma_pow2_u64_pair(shift as nat);
            let p = pow2_u64(shift as nat);
            assert(112 * p <= 112 * 0x8000) by (nonlinear_arith)
                requires p <= 0x8000;
        }
        r
    }

    fn calculate_lfsr(&self) -> (r: u16)
        ensures
            r == lfsr_next(self.lfsr, self.ff22 & 8 != 0),
    {
        let l = self.lfsr;
        let bit: u16 = if (l & 1) == ((l >> 1) & 1) { 1 } else { 0 };
        let shifted: u16 = (l >> 1) & 0x3FFF;
        let wide: u16 = shifted | (bit << 14);
        let r = if self.ff22 & 8 != 0 {
            (wide & !0x40u16) | (bit << 6)
        } else {
            wide
        };
        proof {
            assert(((l & 1) == ((l >> 1) & 1)) == (l % 2 == (l / 2) % 2)) by (bit_vector);
            assert(bit <= 1 ==> wide == (l / 2) % 0x4000 + bit * 0x4000) by (bit_vector)
                requires wide == ((l >> 1) & 0x3FFF) | (bit << 14);
            assert(bit <= 1 ==> (wide & !0x40u16) | (bit << 6) == wide - ((wide / 64) % 2) * 64 + bit * 64) by (bit_vector);
        }
        r
    }

    fn trigger(&mut self, frame_seq: u8)
        requires
            old(self).wf(),
        ensures
            final(self).wf(),
            final(self).lfsr == 0,
            *final(self) == old(self).triggered(frame_seq),
    {
        if self.dac {
            self.enabled = true;
        }
        self.length.trigger(frame_seq);
        self.envelope.trigger();
        self.lfsr = 0;
    }
}

proof fn lemma_noise_period_bounds(v: u8)
    ensures
        8 <= noise_period(v) <= 0x400000,
{
    lemma_pow2_u64_pair((v / 16) as nat);
    let p2 = pow2_u64((v / 16) as nat);
    let code = v % 8;
    let divider: int = if code == 0 { 8 } else { 16 * code };
    assert(8 <= divider * p2 <= 112 * 0x8000) by (nonlinear_arith)
        requires 8 <= divider <= 112, 1 <= p2 <= 0x8000;
}

proof fn lemma_pow2_u64_pair(n: nat)
    requires
        n <= 15,
    ensures
        1 <= pow2_u64(n) <= 0x8000,
        n < 15 ==> pow2_u64(n + 1) == 2 * pow2_u64(n),
{
    reveal_with_fuel(pow2_u64, 16);
    assert(n == 0 || n == 1 || n == 2 || n == 3 || n == 4 || n == 5 || n == 6 || n == 7 || n == 8 || n == 9
        || n == 10 || n == 11 || n == 12 || n == 13 || n == 14 || n == 15);
}

/// One buffer of mixed output: left and right samples, each `0..=MAX_MIXED_SAMPLE`.
pub type AudioBuff = (Vec<u16>, Vec<u16>);

/// Which modulators one frame-sequencer step clocks: (length, sweep, envelope).
pub open spec fn spec_frame_seq_actions(step: u8) -> (bool, bool, bool) {
    (step % 2 == 0, step % 4 == 2, step == 7)
}

/// Which modulators step `step` of the frame sequencer clocks: length on even steps, the
/// sweep on steps 2 and 6, envelopes on step 7.
pub fn frame_seq_actions(step: u8) -> (r: (bool, bool, bool))
    ensures
        r == spec_frame_seq_actions(step),
{
    (step % 2 == 0, step % 4 == 2, step == 7)
}

/// The frame sequencer's schedule over its eight steps: length at steps 0, 2, 4, 6, sweep at
/// steps 2 and 6, envelope at step 7.
pub proof fn lemma_frame_sequencer_schedule(step: u8)
    requires
        step < 8,
    ensures
        spec_frame_seq_actions(step).0 <==> (step == 0 || step == 2 || step == 4 || step == 6),
        spec_frame_seq_actions(step).1 <==> (step == 2 || step == 6),
        spec_frame_seq_actions(step).2 <==> step == 7,
{
}

/// The audio processing unit: four channels, the frame sequencer and the mixer.
pub struct Sound {
    pub enabled: bool,
    pub channel1: SquareChannel,
    pub channel2: SquareChannel,
    pub channel3: WaveChannel,
    pub channel4: NoiseChannel,
    /// NR51: bits 4..7 route channels 1..4 left, bits 0..3 route them right.
    pub panning: u8,
    pub left_volume: u8,
    pub right_volume: u8,
    pub vin_l_enable: bool,
    pub vin_r_enable: bool,
    pub frame_seq_clock: u64,
    pub frame_seq: u8,
    pub audio_buffer_clock: u64,
    pub left_buf: Vec<u16>,
    pub right_buf: Vec<u16>,
    /// A full buffer that the host has not taken yet.
    pub pending: Option<AudioBuff>,
}

impl Sound {
    /// Everything but the two clocks is well formed.
    pub open spec fn wf_units(&self) -> bool {
        &&& self.channel1.wf() && self.channel1.sweep.is_some()
        &&& self.channel2.wf()
        &&& self.channel3.wf()
        &&& self.channel4.wf()
        &&& self.left_volume <= 7 && self.right_volume <= 7
        &&& self.frame_seq < 8
        &&& self.left_buf.len() == self.right_buf.len()
        &&& self.left_buf.len() < AUDIO_BUF_LEN
    }

    pub open spec fn wf(&self) -> bool {
        &&& self.wf_units()
        &&& self.frame_seq_clock < CPU_CYCLES_PER_FRAME_SEQ
        &&& self.audio_buffer_clock < AUDIO_SAMPLE_FREQ
    }

    pub fn new() -> (r: Self)
        ensures
            r.wf(),
            !r.enabled && r.frame_seq == 0,
    {
        Self {
            enabled: false,
            channel1: SquareChannel::new(true),
            channel2: SquareChannel::new(false),
            channel3: WaveChannel::new(),
            channel4: NoiseChannel::new(),
            panning: 0,
            left_volume: 7,
            right_volume: 7,
            vin_l_enable: false,
            vin_r_enable: false,
            frame_seq: 0,
            frame_seq_clock: 0,
            audio_buffer_clock: 0,
            left_buf: Vec::new(),
            right_buf: Vec::new(),
            pending: None,
        }
    }

    /// A read of $FF10-$FF26 or wave RAM; unused addresses read as $FF.
    pub fn read_byte(&self, addr: u16) -> (r: u8)
        requires
            self.wf(),
        ensures
            addr == 0xFF26 ==> (r >= 0x80 <==> self.enabled),
            addr == 0xFF26 ==> r % 16 == (if self.channel1.enabled { 1int } else { 0 }) + (if self.channel2.enabled {
                2int
            } else {
                0
            }) + (if self.channel3.enabled { 4int } else { 0 }) + (if self.channel4.enabled { 8int } else { 0 }),
            addr == 0xFF25 ==> r == self.panning,
            addr == 0xFF24 ==> r == (if self.vin_l_enable { 0x80int } else { 0 }) + self.left_volume * 16 + (
            if self.vin_r_enable {
                8int
            } else {
                0
            }) + self.right_volume,
            0xFF30 <= addr <= 0xFF3F ==> r == if !self.channel3.enabled {
                self.channel3.waves@[addr - 0xFF30]
            } else if self.channel3.period.reloaded {
                self.channel3.waves@[self.channel3.wave_idx as int / 2]
            } else {
                0xFF
            },
    {
        let r = match addr {
            0xFF10..=0xFF14 => self.channel1.read_byte(addr),
            0xFF16..=0xFF19 => self.channel2.read_byte(addr),
            0xFF1A..=0xFF1E => self.channel3.read_byte(addr),
            0xFF20..=0xFF23 => self.channel4.read_byte(addr),
            0xFF24 => (if self.vin_l_enable { 0x80u8 } else { 0 }) + self.left_volume * 16 + (if self.vin_r_enable {
                8u8
            } else {
                0
            }) + self.right_volume,
            0xFF25 => self.panning,
            0xFF26 => (if self.enabled { 0x80u8 } else { 0 }) + (if self.channel4.enabled { 8u8 } else { 0 }) + (
            if self.channel3.enabled {
                4u8
            } else {
                0
            }) + (if self.channel2.enabled { 2u8 } else { 0 }) + (if self.channel1.enabled { 1u8 } else { 0 })
                + 0b01110000,
            0xFF30..=0xFF3F => self.channel3.read_byte(addr),
            _ => 0xFF,
        };
        r
    }

    /// `post` is `self` after a write of `val` to `addr` while the APU is on: the channel
    /// that owns the register (or wave RAM) takes the write, NR50 sets the volumes and
    /// VIN bits, NR51 the panning; other addresses change nothing.
    pub open spec fn register_written(self, addr: u16, val: u8, post: Sound) -> bool {
        let seq = self.frame_seq;
        if 0xFF10 <= addr <= 0xFF14 {
            post == Sound { channel1: self.channel1.written(addr, val, seq), ..self }
        } else if 0xFF16 <= addr <= 0xFF19 {
            post == Sound { channel2: self.channel2.written(addr, val, seq), ..self }
        } else if (0xFF1A <= addr <= 0xFF1E) || (0xFF30 <= addr <= 0xFF3F) {
            &&& post == Sound { channel3: post.channel3, ..self }
            &&& post.channel3 == WaveChannel { waves: post.channel3.waves, ..self.channel3.written(addr, val, seq) }
            &&& post.channel3.waves@ == self.channel3.written_waves(addr, val, seq)
        } else if 0xFF20 <= addr <= 0xFF23 {
            post == Sound { channel4: self.channel4.written(addr, val, seq), ..self }
        } else if addr == 0xFF24 {
            post == Sound {
                left_volume: (val / 16) % 8,
                right_volume: val % 8,
                vin_l_enable: val & 0x80 != 0,
                vin_r_enable: val & 0x08 != 0,
                ..self
            }
        } else if addr == 0xFF25 {
            post == Sound { panning: val, ..self }
        } else {
            post == self
        }
    }

    /// Zeroes every register in $FF10-$FF25, in address order; wave RAM is kept.
    fn power_off(&mut self)
        requires
            old(self).wf(),
        ensures
            final(self).wf(),
            final(self).enabled == old(self).enabled && final(self).frame_seq == old(self).frame_seq,
            final(self).frame_seq_clock == old(self).frame_seq_clock,
            final(self).panning == 0 && final(self).left_volume == 0 && final(self).right_volume == 0,
            !final(self).vin_l_enable && !final(self).vin_r_enable,
            ({
                let s = old(self).frame_seq;
                &&& final(self).channel1 == old(self).channel1.written(0xFF10, 0, s).written(0xFF11, 0, s).written(
                    0xFF12,
                    0,
                    s,
                ).written(0xFF13, 0, s).written(0xFF14, 0, s)
                &&& final(self).channel2 == old(self).channel2.written(0xFF16, 0, s).written(0xFF17, 0, s).written(
                    0xFF18,
                    0,
                    s,
                ).written(0xFF19, 0, s)
                &&& final(self).channel4 == old(self).channel4.written(0xFF20, 0, s).written(0xFF21, 0, s).written(
                    0xFF22,
                    0,
                    s,
                ).written(0xFF23, 0, s)
                &&& final(self).channel3 == WaveChannel {
                    waves: final(self).channel3.waves,
                    ..old(self).channel3.written(0xFF1A, 0, s).written(0xFF1B, 0, s).written(0xFF1C, 0, s).written(
                        0xFF1D,
                        0,
                        s,
                    ).written(0xFF1E, 0, s)
                }
                &&& final(self).channel3.waves@ == old(self).channel3.waves@
            }),
    {
        proof {
            assert(0u8 & 0x80 == 0 && 0u8 & 0x08 == 0 && 0u8 & 0x40 == 0 && 0u8 & 0xF8 == 0) by (bit_vector);
        }
        self.write_register(0xFF10, 0);
        self.write_register(0xFF11, 0);
        self.write_register(0xFF12, 0);
        self.write_register(0xFF13, 0);
        self.write_register(0xFF14, 0);
        self.write_register(0xFF16, 0);
        self.write_register(0xFF17, 0);
        self.write_register(0xFF18, 0);
        self.write_register(0xFF19, 0);
        self.write_register(0xFF1A, 0);
        self.write_register(0xFF1B, 0);
        self.write_register(0xFF1C, 0);
        self.write_register(0xFF1D, 0);
        self.write_register(0xFF1E, 0);
        self.write_register(0xFF20, 0);
        self.write_register(0xFF21, 0);
        self.write_register(0xFF22, 0);
        self.write_register(0xFF23, 0);
        self.write_register(0xFF24, 0);
        self.write_register(0xFF25, 0);
    }

    /// A register write while the APU is on.
    fn write_register(&mut self, addr: u16, val: u8)
        requires
            old(self).wf(),
        ensures
            final(self).wf(),
            final(self).enabled == old(self).enabled && final(self).frame_seq == old(self).frame_seq,
            final(self).frame_seq_clock == old(self).frame_seq_clock,
            old(self).register_written(addr, val, *final(self)),
    {
        let seq = self.frame_seq;
        match addr {
            0xFF10..=0xFF14 => self.channel1.write_byte(addr, val, seq),
            0xFF16..=0xFF19 => self.channel2.write_byte(addr, val, seq),
            0xFF1A..=0xFF1E => self.channel3.write_byte(addr, val, seq),
            0xFF20..=0xFF23 => self.channel4.write_byte(addr, val, seq),
            0xFF24 => {
                self.left_volume = (val / 16) % 8;
                self.right_volume = val % 8;
                self.vin_l_enable = val & 0x80 != 0;
                self.vin_r_enable = val & 0x08 != 0;
            },
            0xFF25 => self.panning = val,
            0xFF30..=0xFF3F => self.channel3.write_byte(addr, val, seq),
            _ => {},
        }
    }

    /// A CPU write. While the APU is off only the length registers, wave RAM and the master
    /// enable take writes; turning it off zeroes $FF10-$FF25, and turning it on restarts the
    /// frame sequencer.
    pub fn write_byte(&mut self, addr: u16, val: u8)
        requires
            old(self).wf(),
        ensures
            final(self).wf(),
            addr == 0xFF26 ==> final(self).enabled == (val & 0x80 != 0),
            addr != 0xFF26 ==> final(self).enabled == old(self).enabled,
            addr == 0xFF26 && !old(self).enabled && val & 0x80 != 0 ==> final(self).frame_seq == 0,
            !old(self).enabled && addr != 0xFF26 && addr != 0xFF11 && addr != 0xFF16 && addr != 0xFF1B && addr != 0xFF20
                && !(0xFF30 <= addr <= 0xFF3F) ==> *final(self) == *old(self),
            old(self).enabled && addr != 0xFF26 ==> old(self).register_written(addr, val, *final(self)),
            !old(self).enabled && addr == 0xFF11 ==> old(self).register_written(addr, val % 64, *final(self)),
            !old(self).enabled && addr == 0xFF16 ==> old(self).register_written(addr, val % 64, *final(self)),
            !old(self).enabled && addr == 0xFF20 ==> old(self).register_written(addr, val % 64, *final(self)),
            !old(self).enabled && (addr == 0xFF1B || 0xFF30 <= addr <= 0xFF3F) ==> old(self).register_written(
                addr,
                val,
                *final(self),
            ),
            old(self).enabled && addr == 0xFF26 && val & 0x80 == 0 ==> {
                let s = old(self).frame_seq;
                &&& final(self).panning == 0 && final(self).left_volume == 0 && final(self).right_volume == 0
                &&& final(self).channel1 == old(self).channel1.written(0xFF10, 0, s).written(0xFF11, 0, s).written(
                    0xFF12,
                    0,
                    s,
                ).written(0xFF13, 0, s).written(0xFF14, 0, s)
                &&& final(self).channel2 == old(self).channel2.written(0xFF16, 0, s).written(0xFF17, 0, s).written(
                    0xFF18,
                    0,
                    s,
                ).written(0xFF19, 0, s)
                &&& final(self).channel4 == old(self).channel4.written(0xFF20, 0, s).written(0xFF21, 0, s).written(
                    0xFF22,
                    0,
                    s,
                ).written(0xFF23, 0, s)
                &&& final(self).channel3 == WaveChannel {
                    waves: final(self).channel3.waves,
                    ..old(self).channel3.written(0xFF1A, 0, s).written(0xFF1B, 0, s).written(0xFF1C, 0, s).written(
                        0xFF1D,
                        0,
                        s,
                    ).written(0xFF1E, 0, s)
                }
                &&& final(self).channel3.waves@ == old(self).channel3.waves@
                &&& !final(self).enabled
            },
    {
        if !self.enabled {
            let seq = self.frame_seq;
            match addr {
                0xFF11 => self.channel1.write_byte(addr, val % 64, seq),
                0xFF16 => self.channel2.write_byte(addr, val % 64, seq),
                0xFF1B => self.channel3.write_byte(addr, val, seq),
                0xFF20 => self.channel4.write_byte(addr, val % 64, seq),
                0xFF30..=0xFF3F => self.channel3.write_byte(addr, val, seq),
                _ => {},
            }
            if addr != 0xFF26 {
                return;
            }
        }
        if addr == 0xFF26 {
            let new_enabled = val & 0x80 != 0;
            if self.enabled && !new_enabled {
                self.power_off();
            }
            if !self.enabled && new_enabled {
                self.frame_seq = 0;
            }
            self.enabled = new_enabled;
        } else {
            self.write_register(addr, val);
        }
    }

    /// Runs the four channels' frequency timers.
    fn cycle_all_channels(&mut self, cpu_ticks: u32)
        requires
            old(self).wf(),
        ensures
            final(self).wf(),
            final(self).enabled == old(self).enabled && final(self).frame_seq == old(self).frame_seq,
            final(self).frame_seq_clock == old(self).frame_seq_clock,
            final(self).audio_buffer_clock == old(self).audio_buffer_clock,
    {
        self.channel1.cycle(cpu_ticks as u64);
        self.channel2.cycle(cpu_ticks as u64);
        self.channel3.cycle(cpu_ticks as u64);
        self.channel4.cycle(cpu_ticks);
    }

    /// One step of the frame sequencer.
    fn cycle_frame_seq(&mut self)
        requires
            old(self).wf_units(),
        ensures
            final(self).wf_units(),
            final(self).frame_seq == (old(self).frame_seq + 1) % 8,
            final(self).enabled == old(self).enabled,
            final(self).frame_seq_clock == old(self).frame_seq_clock,
            final(self).audio_buffer_clock == old(self).audio_buffer_clock,
            final(self).left_buf == old(self).left_buf && final(self).right_buf == old(self).right_buf,
            final(self).pending == old(self).pending,
            spec_frame_seq_actions(old(self).frame_seq).0 ==> final(self).channel1.length
                == old(self).channel1.length.stepped() && final(self).channel2.length
                == old(self).channel2.length.stepped() && final(self).channel3.length
                == old(self).channel3.length.stepped() && final(self).channel4.length
                == old(self).channel4.length.stepped(),
            !spec_frame_seq_actions(old(self).frame_seq).0 ==> final(self).channel1.length == old(self).channel1.length
                && final(self).channel2.length == old(self).channel2.length && final(self).channel3.length
                == old(self).channel3.length && final(self).channel4.length == old(self).channel4.length,
            !spec_frame_seq_actions(old(self).frame_seq).2 ==> final(self).channel1.envelope
                == old(self).channel1.envelope && final(self).channel2.envelope == old(self).channel2.envelope
                && final(self).channel4.envelope == old(self).channel4.envelope,
            !spec_frame_seq_actions(old(self).frame_seq).1 ==> final(self).channel1.sweep == old(self).channel1.sweep,
            spec_frame_seq_actions(old(self).frame_seq).2 ==> {
                &&& final(self).channel1.envelope == if old(self).channel1.enabled {
                    old(self).channel1.envelope.stepped()
                } else {
                    old(self).channel1.envelope
                }
                &&& final(self).channel2.envelope == if old(self).channel2.enabled {
                    old(self).channel2.envelope.stepped()
                } else {
                    old(self).channel2.envelope
                }
                &&& final(self).channel4.envelope == if old(self).channel4.enabled {
                    old(self).channel4.envelope.stepped()
                } else {
                    old(self).channel4.envelope
                }
            },
            spec_frame_seq_actions(old(self).frame_seq).1 ==> {
                let on = old(self).channel1.enabled && old(self).channel1.length.stepped().timer != 0;
                final(self).channel1.sweep == if on {
                    Some(old(self).channel1.sweep->Some_0.spec_step(old(self).channel1.period.period).0)
                } else {
                    old(self).channel1.sweep
                }
            },
    {
        let (length, sweep, envelope) = frame_seq_actions(self.frame_seq);
        if length {
            self.channel1.step_length();
            self.channel2.step_length();
            self.channel3.step_length();
            self.channel4.step_length();
        }
        if sweep {
            self.channel1.step_sweep();
        }
        if envelope {
            self.channel1.step_envelope();
            self.channel2.step_envelope();
            self.channel4.step_envelope();
        }
        self.frame_seq = (self.frame_seq + 1) % 8;
    }

    /// The sum of the channel levels routed to the left side (NR51 bits 4..7) or to the
    /// right side (bits 0..3).
    pub open spec fn side_sum(&self, left: bool) -> int {
        let p = self.panning;
        let sh: u8 = if left { 4 } else { 0 };
        (if (p >> sh) & 1 != 0 { self.channel1.spec_sample() as int } else { 0 }) + (if (p >> sh) & 2 != 0 {
            self.channel2.spec_sample() as int
        } else {
            0
        }) + (if (p >> sh) & 4 != 0 { self.channel3.spec_sample() as int } else { 0 }) + (if (p >> sh) & 8 != 0 {
            self.channel4.spec_sample() as int
        } else {
            0
        })
    }

    /// Mixes one stereo sample: each side sums the channels routed to it and scales the sum
    /// by its master volume plus one.
    pub fn mix(&self) -> (r: (u16, u16))
        requires
            self.wf_units(),
        ensures
            r.0 <= MAX_MIXED_SAMPLE && r.1 <= MAX_MIXED_SAMPLE,
            r.0 == self.side_sum(true) * (self.left_volume + 1),
            r.1 == self.side_sum(false) * (self.right_volume + 1),
    {
        let s1 = self.channel1.sample() as u16;
        let s2 = self.channel2.sample() as u16;
        let s3 = self.channel3.sample() as u16;
        let s4 = self.channel4.sample() as u16;
        let p = self.panning;
        let left = (if p & 0x10 != 0 { s1 } else { 0 }) + (if p & 0x20 != 0 { s2 } else { 0 }) + (if p & 0x40 != 0 {
            s3
        } else {
            0
        }) + (if p & 0x80 != 0 { s4 } else { 0 });
        let right = (if p & 0x01 != 0 { s1 } else { 0 }) + (if p & 0x02 != 0 { s2 } else { 0 }) + (if p & 0x04 != 0 {
            s3
        } else {
            0
        }) + (if p & 0x08 != 0 { s4 } else { 0 });
        let lv = self.left_volume as u16 + 1;
        let rv = self.right_volume as u16 + 1;
        proof {
            assert((p >> 4u8) & 1 != 0 <==> p & 0x10 != 0) by (bit_vector);
            assert((p >> 4u8) & 2 != 0 <==> p & 0x20 != 0) by (bit_vector);
            assert((p >> 4u8) & 4 != 0 <==> p & 0x40 != 0) by (bit_vector);
            assert((p >> 4u8) & 8 != 0 <==> p & 0x80 != 0) by (bit_vector);
            assert((p >> 0u8) & 1 != 0 <==> p & 0x01 != 0) by (bit_vector);
            assert((p >> 0u8) & 2 != 0 <==> p & 0x02 != 0) by (bit_vector);
            assert((p >> 0u8) & 4 != 0 <==> p & 0x04 != 0) by (bit_vector);
            assert((p >> 0u8) & 8 != 0 <==> p & 0x08 != 0) by (bit_vector);
            assert(left * lv <= 60 * 8) by (nonlinear_arith)
                requires left <= 60, lv <= 8;
            assert(right * rv <= 60 * 8) by (nonlinear_arith)
                requires right <= 60, rv <= 8;
        }
        (left * lv, right * rv)
    }

    /// Appends one mixed sample; a full buffer moves to `pending`, replacing one the host
    /// did not take.
    fn enqueue_sample(&mut self)
        requires
            old(self).wf_units(),
        ensures
            final(self).wf_units(),
            final(self).enabled == old(self).enabled && final(self).frame_seq == old(self).frame_seq,
            final(self).frame_seq_clock == old(self).frame_seq_clock,
            final(self).audio_buffer_clock == old(self).audio_buffer_clock,
    {
        let (l, r) = self.mix();
        self.left_buf.push(l);
        self.right_buf.push(r);
        if self.left_buf.len() == AUDIO_BUF_LEN {
            let mut left: Vec<u16> = Vec::new();
            let mut right: Vec<u16> = Vec::new();
            std::mem::swap(&mut left, &mut self.left_buf);
            std::mem::swap(&mut right, &mut self.right_buf);
            self.pending = Some((left, right));
        }
    }

    /// Hands out the last full buffer, if any.
    pub fn take_audio(&mut self) -> (r: Option<AudioBuff>)
        requires
            old(self).wf(),
        ensures
            final(self).wf(),
            r == old(self).pending,
            final(self).pending.is_none(),
            *final(self) == (Sound { pending: None, ..*old(self) }),
    {
        self.pending.take()
    }

    /// Advances the APU by `cpu_ticks` cycles while it is on. The frame sequencer steps
    /// exactly once every 8192 cycles, and one output sample is mixed every 95 cycles.
    pub fn cycle(&mut self, cpu_ticks: u32)
        requires
            old(self).wf(),
        ensures
            final(self).wf(),
            final(self).enabled == old(self).enabled,
            !old(self).enabled ==> final(self).frame_seq == old(self).frame_seq && final(self).frame_seq_clock
                == old(self).frame_seq_clock,
            old(self).enabled ==> final(self).frame_seq_clock == (old(self).frame_seq_clock + cpu_ticks) % 8192
                && final(self).frame_seq == (old(self).frame_seq + (old(self).frame_seq_clock + cpu_ticks) / 8192)
                % 8,
    {
        if !self.enabled {
            return;
        }
        self.cycle_all_channels(cpu_ticks);
        let ghost total = self.frame_seq_clock + cpu_ticks;
        let ghost seq0 = self.frame_seq;
        self.frame_seq_clock = self.frame_seq_clock + cpu_ticks as u64;
        let mut n: u64 = 0;
        while self.frame_seq_clock >= CPU_CYCLES_PER_FRAME_SEQ
            invariant
                self.wf_units(),
                self.audio_buffer_clock < AUDIO_SAMPLE_FREQ,
                self.enabled,
                self.frame_seq_clock + n * 8192 == total,
                total <= u32::MAX + 8192,
                self.frame_seq == (seq0 + n) % 8,
            decreases self.frame_seq_clock,
        {
            self.frame_seq_clock = self.frame_seq_clock - CPU_CYCLES_PER_FRAME_SEQ;
            self.cycle_frame_seq();
            n = n + 1;
            proof {
                assert(self.frame_seq_clock + n * 8192 == total) by (nonlinear_arith)
                    requires self.frame_seq_clock + (n - 1) * 8192 + 8192 == total;
            }
        }
        proof {
            assert(n == total / 8192 && self.frame_seq_clock == total % 8192) by (nonlinear_arith)
                requires self.frame_seq_clock + n * 8192 == total, self.frame_seq_clock < 8192, self.frame_seq_clock >= 0,
                    n >= 0;
        }
        self.audio_buffer_clock = self.audio_buffer_clock + cpu_ticks as u64;
        while self.audio_buffer_clock >= AUDIO_SAMPLE_FREQ
            invariant
                self.wf_units(),
                self.frame_seq_clock < CPU_CYCLES_PER_FRAME_SEQ,
                self.audio_buffer_clock <= AUDIO_SAMPLE_FREQ + u32::MAX,
                self.enabled,
                self.frame_seq_clock == total % 8192,
                self.frame_seq == (seq0 + total / 8192) % 8,
            decreases self.audio_buffer_clock,
        {
            self.audio_buffer_clock = self.audio_buffer_clock - AUDIO_SAMPLE_FREQ;
            self.enqueue_sample();
        }
    }
}

/// The host's audio output.
pub trait AudioPlayer {
    fn play(&mut self, buff: AudioBuff);
}

/// An output that drops every buffer.
pub struct VoidAudioPlayer {}

impl VoidAudioPlayer {
    pub fn new() -> (r: Self) {
        Self {  }
    }
}

impl AudioPlayer for VoidAudioPlayer {
    fn play(&mut self, buff: AudioBuff) {
    }
}

} // verus!
