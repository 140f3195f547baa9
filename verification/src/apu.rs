use vstd::prelude::*;

use crate::bits::{lemma_byte_bits, lemma_word_bits};

verus! {

/// Length-counter load values, indexed by the top five bits of the fourth register.
pub const LENGTH_TABLE: [u8; 32] = [
    10, 254, 20, 2, 40, 4, 80, 6, 160, 8, 60, 10, 14, 12, 26, 14,
    12, 16, 24, 18, 48, 20, 96, 22, 192, 24, 72, 26, 16, 28, 32, 30,
];

/// Noise timer periods, indexed by the low nibble of $400E.
pub const NOISE_PERIODS: [u16; 16] = [
    4, 8, 16, 32, 64, 96, 128, 160, 202, 254, 380, 508, 762, 1016, 2034, 4068,
];

/// Pulse waveforms: 12.5%, 25%, 50% and 75% duty.
pub const DUTY_TABLE: [[u8; 8]; 4] = [
    [0, 1, 0, 0, 0, 0, 0, 0],
    [0, 1, 1, 0, 0, 0, 0, 0],
    [0, 1, 1, 1, 1, 0, 0, 0],
    [1, 0, 0, 1, 1, 1, 1, 1],
];

/// The 32-step triangle waveform.
pub const TRIANGLE_SEQUENCE: [u8; 32] = [
    15, 14, 13, 12, 11, 10, 9, 8, 7, 6, 5, 4, 3, 2, 1, 0,
    0, 1, 2, 3, 4, 5, 6, 7, 8, 9, 10, 11, 12, 13, 14, 15,
];

/// Frame-counter cycle of the first quarter-frame clock.
pub const STEP1: u32 = 3729;
/// Frame-counter cycle of the first half-frame clock.
pub const STEP2: u32 = 7457;
/// Frame-counter cycle of the third quarter-frame clock.
pub const STEP3: u32 = 11186;
/// Last step of the four-step sequence.
pub const STEP4: u32 = 14915;
/// Last step of the five-step sequence.
pub const STEP5: u32 = 18641;

// ---------------------------------------------------------------------------
// Shared pieces
// ---------------------------------------------------------------------------

/// Length-counter value loaded by a write of `v` to a channel's fourth register.
pub open spec fn length_load(v: u8) -> u8 {
    LENGTH_TABLE[(v >> 3u8) as int]
}

/// One envelope clock: (start flag, volume, divider) after it, given the
/// period/constant volume `volume` and the loop flag.
pub open spec fn envelope_step(start: bool, env_vol: u8, env_div: u8, volume: u8, looping: bool) -> (
    bool,
    u8,
    u8,
) {
    if start {
        (false, 15, volume)
    } else if env_div == 0 {
        if env_vol > 0 {
            (false, (env_vol - 1) as u8, volume)
        } else if looping {
            (false, 15, volume)
        } else {
            (false, env_vol, volume)
        }
    } else {
        (false, env_vol, (env_div - 1) as u8)
    }
}

// ---------------------------------------------------------------------------
// Pulse
// ---------------------------------------------------------------------------

/// A pulse (square wave) channel.
pub struct Pulse {
    pub enabled: bool,
    pub duty: u8,
    /// Also the envelope loop flag.
    pub length_halt: bool,
    pub constant_volume: bool,
    /// Envelope period, or the volume itself when constant.
    pub volume: u8,
    pub env_start: bool,
    pub env_vol: u8,
    pub env_div: u8,
    pub sweep_enabled: bool,
    pub sweep_period: u8,
    pub sweep_negate: bool,
    pub sweep_shift: u8,
    pub sweep_reload: bool,
    pub sweep_div: u8,
    pub timer: u16,
    pub timer_period: u16,
    pub seq_step: u8,
    pub length: u8,
    /// Pulse 1 negates its sweep in one's complement (one more subtracted).
    pub is_pulse1: bool,
}

impl Pulse {
    /// Register fields inside their widths, envelope at most 15, an 11-bit period.
    pub open spec fn wf(self) -> bool {
        &&& self.duty < 4
        &&& self.volume < 16
        &&& self.env_vol <= 15
        &&& self.sweep_period < 8
        &&& self.sweep_shift < 8
        &&& self.timer_period <= 0x7FF
        &&& self.seq_step < 8
    }

    /// The sweep silences the channel: the period is below 8, or an upward
    /// sweep would take it past $7FF.
    pub open spec fn muted_by_sweep(self) -> bool {
        ||| self.timer_period < 8
        ||| (!self.sweep_negate && self.timer_period as int + (self.timer_period >> self.sweep_shift)
            as int > 0x7FF)
    }

    /// Output level 0-15: silent when disabled, out of length, swept out or in the
    /// low part of the duty cycle; otherwise the constant volume or the envelope.
    pub open spec fn output_level(self) -> u8 {
        if !self.enabled || self.length == 0 || self.muted_by_sweep() || DUTY_TABLE[self.duty as int][self.seq_step as int] == 0 {
            0
        } else if self.constant_volume {
            self.volume
        } else {
            self.env_vol
        }
    }

    /// The period after a sweep adjustment: up by `period >> shift`, or down by it
    /// (pulse 1 subtracting one more).
    pub open spec fn swept_period(self) -> u16 {
        let delta = (self.timer_period >> self.sweep_shift) as int;
        if self.sweep_negate {
            if self.is_pulse1 {
                (self.timer_period - delta - 1) as u16
            } else {
                (self.timer_period - delta) as u16
            }
        } else {
            (self.timer_period + delta) as u16
        }
    }

    pub open spec fn after_sweep_clock(self) -> Pulse {
        if self.sweep_reload {
            Pulse { sweep_div: self.sweep_period, sweep_reload: false, ..self }
        } else if self.sweep_div > 0 {
            Pulse { sweep_div: (self.sweep_div - 1) as u8, ..self }
        } else if self.sweep_enabled && self.sweep_shift > 0 && !self.muted_by_sweep() {
            Pulse { sweep_div: self.sweep_period, timer_period: self.swept_period(), ..self }
        } else {
            Pulse { sweep_div: self.sweep_period, ..self }
        }
    }

    pub open spec fn after_envelope_clock(self) -> Pulse {
        let (start, vol, div) = envelope_step(
            self.env_start,
            self.env_vol,
            self.env_div,
            self.volume,
            self.length_halt,
        );
        Pulse { env_start: start, env_vol: vol, env_div: div, ..self }
    }

    pub open spec fn after_length_clock(self) -> Pulse {
        if !self.length_halt && self.length > 0 {
            Pulse { length: (self.length - 1) as u8, ..self }
        } else {
            self
        }
    }

    /// The timer counts down; on reaching zero it reloads and the sequencer advances.
    pub open spec fn after_timer_clock(self) -> Pulse {
        if self.timer == 0 {
            Pulse { timer: self.timer_period, seq_step: ((self.seq_step + 1) % 8) as u8, ..self }
        } else {
            Pulse { timer: (self.timer - 1) as u16, ..self }
        }
    }

    /// The channel at power-on.
    pub open spec fn power_on(is_pulse1: bool) -> Pulse {
        Pulse {
                enabled: false,
                duty: 0,
                length_halt: false,
                constant_volume: false,
                volume: 0,
                env_start: false,
                env_vol: 0,
                env_div: 0,
                sweep_enabled: false,
                sweep_period: 0,
                sweep_negate: false,
                sweep_shift: 0,
                sweep_reload: false,
                sweep_div: 0,
                timer: 0,
                timer_period: 0,
                seq_step: 0,
                length: 0,
                is_pulse1,
            }
    }

    pub fn new(is_pulse1: bool) -> (p: Self)
        ensures
            p.wf(),
            p == Pulse::power_on(is_pulse1),
    {
        Pulse {
            enabled: false,
            duty: 0,
            length_halt: false,
            constant_volume: false,
            volume: 0,
            env_start: false,
            env_vol: 0,
            env_div: 0,
            sweep_enabled: false,
            sweep_period: 0,
            sweep_negate: false,
            sweep_shift: 0,
            sweep_reload: false,
            sweep_div: 0,
            timer: 0,
            timer_period: 0,
            seq_step: 0,
            length: 0,
            is_pulse1,
        }
    }

    pub open spec fn after_write0(self, v: u8) -> Pulse {
        Pulse {
            duty: (v >> 6u8) & 3,
            length_halt: v & 0x20 != 0,
            constant_volume: v & 0x10 != 0,
            volume: v & 0x0F,
            ..self
        }
    }

    /// $4000/$4004: duty, halt/loop, constant volume, volume/period.
    pub fn write0(&mut self, v: u8)
        requires
            old(self).wf(),
        ensures
            final(self).wf(),
            *final(self) == old(self).after_write0(v),
    {
        self.duty = (v >> 6) & 3;
        self.length_halt = v & 0x20 != 0;
        self.constant_volume = v & 0x10 != 0;
        self.volume = v & 0x0F;
        proof {
            assert((v >> 6u8) & 3 < 4) by { lemma_byte_bits(); }
            assert(v & 0x0F < 16) by { lemma_byte_bits(); }
        }
    }

    pub open spec fn after_write1(self, v: u8) -> Pulse {
        Pulse {
            sweep_enabled: v & 0x80 != 0,
            sweep_period: (v >> 4u8) & 7,
            sweep_negate: v & 0x08 != 0,
            sweep_shift: v & 7,
            sweep_reload: true,
            ..self
        }
    }

    /// $4001/$4005: sweep unit.
    pub fn write1(&mut self, v: u8)
        requires
            old(self).wf(),
        ensures
            final(self).wf(),
            *final(self) == old(self).after_write1(v),
    {
        self.sweep_enabled = v & 0x80 != 0;
        self.sweep_period = (v >> 4) & 7;
        self.sweep_negate = v & 0x08 != 0;
        self.sweep_shift = v & 7;
        self.sweep_reload = true;
        proof {
            assert((v >> 4u8) & 7 < 8) by { lemma_byte_bits(); }
            assert(v & 7 < 8) by { lemma_byte_bits(); }
        }
    }

    pub open spec fn after_write2(self, v: u8) -> Pulse {
        Pulse { timer_period: timer_with_low(self.timer_period, v), ..self }
    }

    /// $4002/$4006: low byte of the timer period.
    pub fn write2(&mut self, v: u8)
        requires
            old(self).wf(),
        ensures
            final(self).wf(),
            *final(self) == old(self).after_write2(v),
    {
        self.timer_period = (self.timer_period & 0xFF00) | v as u16;
        proof {
            lemma_timer_low(old(self).timer_period, v);
        }
    }

    pub open spec fn after_write3(self, v: u8) -> Pulse {
        Pulse {
            timer_period: timer_with_high(self.timer_period, v),
            length: if self.enabled { length_load(v) } else { self.length },
            seq_step: 0,
            env_start: true,
            ..self
        }
    }

    /// $4003/$4007: high bits of the timer period; loads the length counter when
    /// enabled, restarts the sequencer and the envelope.
    pub fn write3(&mut self, v: u8)
        requires
            old(self).wf(),
        ensures
            final(self).wf(),
            *final(self) == old(self).after_write3(v),
    {
        self.timer_period = (self.timer_period & 0x00FF) | ((v as u16 & 7) << 8);
        proof {
            lemma_timer_high(old(self).timer_period, v);
            assert(v >> 3u8 < 32) by { lemma_byte_bits(); }
        }
        if self.enabled {
            self.length = LENGTH_TABLE[(v >> 3) as usize];
        }
        self.seq_step = 0;
        self.env_start = true;
    }

    pub fn clock_timer(&mut self)
        requires
            old(self).wf(),
        ensures
            final(self).wf(),
            *final(self) == old(self).after_timer_clock(),
    {
        if self.timer == 0 {
            self.timer = self.timer_period;
            let s = self.seq_step;
            proof {
                assert((s.wrapping_add(1)) & 7 == (s + 1) % 8) by { lemma_byte_bits(); }
            }
            self.seq_step = (self.seq_step.wrapping_add(1)) & 7;
        } else {
            self.timer = self.timer - 1;
        }
    }

    pub fn clock_envelope(&mut self)
        requires
            old(self).wf(),
        ensures
            final(self).wf(),
            *final(self) == old(self).after_envelope_clock(),
    {
        if self.env_start {
            self.env_start = false;
            self.env_vol = 15;
            self.env_div = self.volume;
        } else if self.env_div == 0 {
            self.env_div = self.volume;
            if self.env_vol > 0 {
                self.env_vol = self.env_vol - 1;
            } else if self.length_halt {
                self.env_vol = 15;
            }
        } else {
            self.env_div = self.env_div - 1;
        }
    }

    /// Enables or disables the channel; disabling clears the length counter.
    pub fn set_enabled(&mut self, on: bool)
        requires
            old(self).wf(),
        ensures
            final(self).wf(),
            *final(self) == (Pulse { enabled: on, length: if on { old(self).length } else { 0 }, ..*old(self) }),
    {
        self.enabled = on;
        if !on {
            self.length = 0;
        }
    }

    pub fn clock_length(&mut self)
        requires
            old(self).wf(),
        ensures
            final(self).wf(),
            *final(self) == old(self).after_length_clock(),
    {
        if !self.length_halt && self.length > 0 {
            self.length = self.length - 1;
        }
    }

    pub fn clock_sweep(&mut self)
        requires
            old(self).wf(),
        ensures
            final(self).wf(),
            *final(self) == old(self).after_sweep_clock(),
    {
        if self.sweep_reload {
            self.sweep_div = self.sweep_period;
            self.sweep_reload = false;
            return;
        }
        if self.sweep_div > 0 {
            self.sweep_div = self.sweep_div - 1;
            return;
        }
        self.sweep_div = self.sweep_period;
        if self.sweep_enabled && self.sweep_shift > 0 && !self.sweep_muted() {
            let delta = self.timer_period >> self.sweep_shift;
            let tp = self.timer_period;
            let sh = self.sweep_shift;
            proof {
                assert(tp >> sh <= tp / 2) by (bit_vector)
                    requires
                        1 <= sh < 8,
                ;
            }
            if self.sweep_negate {
                if self.is_pulse1 {
                    self.timer_period = self.timer_period.wrapping_sub(delta).wrapping_sub(1);
                } else {
                    self.timer_period = self.timer_period.wrapping_sub(delta);
                }
            } else {
                self.timer_period = self.timer_period.wrapping_add(delta);
            }
        }
    }

    /// Whether the sweep unit silences the channel.
    pub fn sweep_muted(&self) -> (r: bool)
        requires
            self.wf(),
        ensures
            r == self.muted_by_sweep(),
    {
        if self.timer_period < 8 {
            return true;
        }
        if !self.sweep_negate {
            let tp = self.timer_period;
            let sh = self.sweep_shift;
            proof {
                assert(tp >> sh <= tp) by (bit_vector)
                    requires
                        sh < 8,
                ;
            }
            let target = self.timer_period.wrapping_add(self.timer_period >> self.sweep_shift);
            if target > 0x7FF {
                return true;
            }
        }
        false
    }

    /// Current output level (0-15).
    pub fn output(&self) -> (r: u8)
        requires
            self.wf(),
        ensures
            r == self.output_level(),
            r <= 15,
    {
        if !self.enabled || self.length == 0 || self.sweep_muted() {
            return 0;
        }
        if DUTY_TABLE[self.duty as usize][self.seq_step as usize] == 0 {
            return 0;
        }
        if self.constant_volume {
            self.volume
        } else {
            self.env_vol
        }
    }
}

/// A timer period with its low byte replaced.
pub open spec fn timer_with_low(period: u16, v: u8) -> u16 {
    (period / 256 * 256 + v as int) as u16
}

/// A timer period with its three high bits taken from `v`.
pub open spec fn timer_with_high(period: u16, v: u8) -> u16 {
    (period % 256 + (v % 8) as int * 256) as u16
}

proof fn lemma_timer_low(period: u16, v: u8)
    ensures
        (period & 0xFF00) | v as u16 == timer_with_low(period, v),
        period <= 0x7FF ==> timer_with_low(period, v) <= 0x7FF,
{
    assert((period & 0xFF00) | v as u16 == (period / 256) * 256 + v as u16) by { lemma_word_bits(); }
}

proof fn lemma_timer_high(period: u16, v: u8)
    ensures
        (period & 0x00FF) | ((v as u16 & 7) << 8u16) == timer_with_high(period, v),
        timer_with_high(period, v) <= 0x7FF,
{
    assert((period & 0x00FF) | ((v as u16 & 7) << 8u16) == period % 256 + (v as u16 % 8) * 256)
        by { lemma_word_bits(); }
}

// ---------------------------------------------------------------------------
// Triangle
// ---------------------------------------------------------------------------

/// The triangle channel.
pub struct Triangle {
    pub enabled: bool,
    /// Also the length-counter halt flag.
    pub control: bool,
    pub linear_reload_val: u8,
    pub linear_counter: u8,
    pub linear_reload_flag: bool,
    pub timer: u16,
    pub timer_period: u16,
    pub step: u8,
    pub length: u8,
}

impl Triangle {
    pub open spec fn wf(self) -> bool {
        &&& self.step < 32
        &&& self.timer_period <= 0x7FF
    }

    /// Output level 0-15: silent when disabled, out of length or linear count, or at
    /// an ultrasonic period; otherwise the current step of the waveform.
    pub open spec fn output_level(self) -> u8 {
        if !self.enabled || self.length == 0 || self.linear_counter == 0 || self.timer_period < 2 {
            0
        } else {
            TRIANGLE_SEQUENCE[self.step as int]
        }
    }

    /// The timer counts down every CPU cycle; on reaching zero it reloads and the
    /// waveform advances while both counters are nonzero.
    pub open spec fn after_timer_clock(self) -> Triangle {
        if self.timer == 0 {
            if self.length > 0 && self.linear_counter > 0 {
                Triangle { timer: self.timer_period, step: ((self.step + 1) % 32) as u8, ..self }
            } else {
                Triangle { timer: self.timer_period, ..self }
            }
        } else {
            Triangle { timer: (self.timer - 1) as u16, ..self }
        }
    }

    pub open spec fn after_linear_clock(self) -> Triangle {
        let counter = if self.linear_reload_flag {
            self.linear_reload_val
        } else if self.linear_counter > 0 {
            (self.linear_counter - 1) as u8
        } else {
            self.linear_counter
        };
        Triangle {
            linear_counter: counter,
            linear_reload_flag: self.linear_reload_flag && self.control,
            ..self
        }
    }

    pub open spec fn after_length_clock(self) -> Triangle {
        if !self.control && self.length > 0 {
            Triangle { length: (self.length - 1) as u8, ..self }
        } else {
            self
        }
    }

    /// The channel at power-on.
    pub open spec fn power_on() -> Triangle {
        Triangle {
                enabled: false,
                control: false,
                linear_reload_val: 0,
                linear_counter: 0,
                linear_reload_flag: false,
                timer: 0,
                timer_period: 0,
                step: 0,
                length: 0,
            }
    }

    pub fn new() -> (t: Self)
        ensures
            t.wf(),
            t == Triangle::power_on(),
    {
        Triangle {
            enabled: false,
            control: false,
            linear_reload_val: 0,
            linear_counter: 0,
            linear_reload_flag: false,
            timer: 0,
            timer_period: 0,
            step: 0,
            length: 0,
        }
    }

    pub open spec fn after_write0(self, v: u8) -> Triangle {
        Triangle {
            control: v & 0x80 != 0,
            linear_reload_val: v & 0x7F,
            ..self
        }
    }

    /// $4008: control flag and linear-counter reload value.
    pub fn write0(&mut self, v: u8)
        requires
            old(self).wf(),
        ensures
            final(self).wf(),
            *final(self) == old(self).after_write0(v),
    {
        self.control = v & 0x80 != 0;
        self.linear_reload_val = v & 0x7F;
    }

    pub open spec fn after_write2(self, v: u8) -> Triangle {
        Triangle {
            timer_period: timer_with_low(self.timer_period, v),
            ..self
        }
    }

    /// $400A: low byte of the timer period.
    pub fn write2(&mut self, v: u8)
        requires
            old(self).wf(),
        ensures
            final(self).wf(),
            *final(self) == old(self).after_write2(v),
    {
        self.timer_period = (self.timer_period & 0xFF00) | v as u16;
        proof {
            lemma_timer_low(old(self).timer_period, v);
        }
    }

    pub open spec fn after_write3(self, v: u8) -> Triangle {
        Triangle {
            timer_period: timer_with_high(self.timer_period, v),
            length: if self.enabled { length_load(v) } else { self.length },
            linear_reload_flag: true,
            ..self
        }
    }

    /// $400B: high bits of the timer period; loads the length counter when enabled
    /// and sets the linear-counter reload flag.
    pub fn write3(&mut self, v: u8)
        requires
            old(self).wf(),
        ensures
            final(self).wf(),
            *final(self) == old(self).after_write3(v),
    {
        self.timer_period = (self.timer_period & 0x00FF) | ((v as u16 & 7) << 8);
        proof {
            lemma_timer_high(old(self).timer_period, v);
            assert(v >> 3u8 < 32) by { lemma_byte_bits(); }
        }
        if self.enabled {
            self.length = LENGTH_TABLE[(v >> 3) as usize];
        }
        self.linear_reload_flag = true;
    }

    pub fn clock_timer(&mut self)
        requires
            old(self).wf(),
        ensures
            final(self).wf(),
            *final(self) == old(self).after_timer_clock(),
    {
        if self.timer == 0 {
            self.timer = self.timer_period;
            if self.length > 0 && self.linear_counter > 0 {
                let s = self.step;
                proof {
                    assert((s.wrapping_add(1)) & 31 == (s + 1) % 32) by { lemma_byte_bits(); }
                }
                self.step = (self.step.wrapping_add(1)) & 31;
            }
        } else {
            self.timer = self.timer - 1;
        }
    }

    pub fn clock_linear(&mut self)
        requires
            old(self).wf(),
        ensures
            final(self).wf(),
            *final(self) == old(self).after_linear_clock(),
    {
        if self.linear_reload_flag {
            self.linear_counter = self.linear_reload_val;
        } else if self.linear_counter > 0 {
            self.linear_counter = self.linear_counter - 1;
        }
        if !self.control {
            self.linear_reload_flag = false;
        }
    }

    /// Enables or disables the channel; disabling clears the length counter.
    pub fn set_enabled(&mut self, on: bool)
        requires
            old(self).wf(),
        ensures
            final(self).wf(),
            *final(self) == (Triangle { enabled: on, length: if on { old(self).length } else { 0 }, ..*old(self) }),
    {
        self.enabled = on;
        if !on {
            self.length = 0;
        }
    }

    pub fn clock_length(&mut self)
        requires
            old(self).wf(),
        ensures
            final(self).wf(),
            *final(self) == old(self).after_length_clock(),
    {
        if !self.control && self.length > 0 {
            self.length = self.length - 1;
        }
    }

    /// Current output level (0-15).
    pub fn output(&self) -> (r: u8)
        requires
            self.wf(),
        ensures
            r == self.output_level(),
            r <= 15,
    {
        if !self.enabled || self.length == 0 || self.linear_counter == 0 || self.timer_period < 2 {
            return 0;
        }
        TRIANGLE_SEQUENCE[self.step as usize]
    }
}

// ---------------------------------------------------------------------------
// Noise
// ---------------------------------------------------------------------------

/// The noise channel: a 15-bit linear-feedback shift register.
pub struct Noise {
    pub enabled: bool,
    pub length_halt: bool,
    pub constant_volume: bool,
    pub volume: u8,
    pub env_start: bool,
    pub env_vol: u8,
    pub env_div: u8,
    /// Short mode: feedback from bit 6 instead of bit 1.
    pub mode: bool,
    pub timer: u16,
    pub timer_period: u16,
    pub shift: u16,
    pub length: u8,
}

/// One LFSR step: shift right, feeding bit 0 XOR bit 1 (bit 6 in short mode) into bit 14.
pub open spec fn lfsr_step(shift: u16, short_mode: bool) -> u16 {
    let other = if short_mode { (shift >> 6u16) } else { (shift >> 1u16) };
    let feedback = (shift ^ other) & 1;
    (shift >> 1u16) | (feedback << 14u16)
}

impl Noise {
    /// Volume fields inside their widths, and a nonzero 15-bit shift register.
    pub open spec fn wf(self) -> bool {
        &&& self.volume < 16
        &&& self.env_vol <= 15
        &&& self.shift != 0
        &&& self.shift < 0x8000
    }

    /// Output level 0-15: silent when disabled, out of length or when bit 0 of the
    /// shift register is set; otherwise the constant volume or the envelope.
    pub open spec fn output_level(self) -> u8 {
        if !self.enabled || self.length == 0 || self.shift & 1 != 0 {
            0
        } else if self.constant_volume {
            self.volume
        } else {
            self.env_vol
        }
    }

    pub open spec fn after_timer_clock(self) -> Noise {
        if self.timer == 0 {
            Noise { timer: self.timer_period, shift: lfsr_step(self.shift, self.mode), ..self }
        } else {
            Noise { timer: (self.timer - 1) as u16, ..self }
        }
    }

    pub open spec fn after_envelope_clock(self) -> Noise {
        let (start, vol, div) = envelope_step(
            self.env_start,
            self.env_vol,
            self.env_div,
            self.volume,
            self.length_halt,
        );
        Noise { env_start: start, env_vol: vol, env_div: div, ..self }
    }

    pub open spec fn after_length_clock(self) -> Noise {
        if !self.length_halt && self.length > 0 {
            Noise { length: (self.length - 1) as u8, ..self }
        } else {
            self
        }
    }

    /// The channel at power-on.
    pub open spec fn power_on() -> Noise {
        Noise {
                enabled: false,
                length_halt: false,
                constant_volume: false,
                volume: 0,
                env_start: false,
                env_vol: 0,
                env_div: 0,
                mode: false,
                timer: 0,
                timer_period: 0,
                shift: 1,
                length: 0,
            }
    }

    pub fn new() -> (n: Self)
        ensures
            n.wf(),
            n == Noise::power_on(),
    {
        Noise {
            enabled: false,
            length_halt: false,
            constant_volume: false,
            volume: 0,
            env_start: false,
            env_vol: 0,
            env_div: 0,
            mode: false,
            timer: 0,
            timer_period: 0,
            shift: 1,
            length: 0,
        }
    }

    pub open spec fn after_write0(self, v: u8) -> Noise {
        Noise {
            length_halt: v & 0x20 != 0,
            constant_volume: v & 0x10 != 0,
            volume: v & 0x0F,
            ..self
        }
    }

    /// $400C: halt/loop, constant volume, volume/period.
    pub fn write0(&mut self, v: u8)
        requires
            old(self).wf(),
        ensures
            final(self).wf(),
            *final(self) == old(self).after_write0(v),
    {
        self.length_halt = v & 0x20 != 0;
        self.constant_volume = v & 0x10 != 0;
        self.volume = v & 0x0F;
        proof {
            assert(v & 0x0F < 16) by { lemma_byte_bits(); }
        }
    }

    pub open spec fn after_write2(self, v: u8) -> Noise {
        Noise {
            mode: v & 0x80 != 0,
            timer_period: NOISE_PERIODS[(v & 0x0F) as int],
            ..self
        }
    }

    /// $400E: mode flag and period index.
    pub fn write2(&mut self, v: u8)
        requires
            old(self).wf(),
        ensures
            final(self).wf(),
            *final(self) == old(self).after_write2(v),
    {
        self.mode = v & 0x80 != 0;
        proof {
            assert(v & 0x0F < 16) by { lemma_byte_bits(); }
        }
        self.timer_period = NOISE_PERIODS[(v & 0x0F) as usize];
    }

    pub open spec fn after_write3(self, v: u8) -> Noise {
        Noise {
            length: if self.enabled { length_load(v) } else { self.length },
            env_start: true,
            ..self
        }
    }

    /// $400F: loads the length counter when enabled and restarts the envelope.
    pub fn write3(&mut self, v: u8)
        requires
            old(self).wf(),
        ensures
            final(self).wf(),
            *final(self) == old(self).after_write3(v),
    {
        proof {
            assert(v >> 3u8 < 32) by { lemma_byte_bits(); }
        }
        if self.enabled {
            self.length = LENGTH_TABLE[(v >> 3) as usize];
        }
        self.env_start = true;
    }

    pub fn clock_timer(&mut self)
        requires
            old(self).wf(),
        ensures
            final(self).wf(),
            *final(self) == old(self).after_timer_clock(),
    {
        if self.timer == 0 {
            self.timer = self.timer_period;
            let other_bit: u16 = if self.mode { 6 } else { 1 };
            let s = self.shift;
            let feedback = (self.shift ^ (self.shift >> other_bit)) & 1;
            self.shift = (self.shift >> 1) | (feedback << 14);
            proof {
                lemma_lfsr_nonzero(s, self.mode);
            }
        } else {
            self.timer = self.timer - 1;
        }
    }

    pub fn clock_envelope(&mut self)
        requires
            old(self).wf(),
        ensures
            final(self).wf(),
            *final(self) == old(self).after_envelope_clock(),
    {
        if self.env_start {
            self.env_start = false;
            self.env_vol = 15;
            self.env_div = self.volume;
        } else if self.env_div == 0 {
            self.env_div = self.volume;
            if self.env_vol > 0 {
                self.env_vol = self.env_vol - 1;
            } else if self.length_halt {
                self.env_vol = 15;
            }
        } else {
            self.env_div = self.env_div - 1;
        }
    }

    /// Enables or disables the channel; disabling clears the length counter.
    pub fn set_enabled(&mut self, on: bool)
        requires
            old(self).wf(),
        ensures
            final(self).wf(),
            *final(self) == (Noise { enabled: on, length: if on { old(self).length } else { 0 }, ..*old(self) }),
    {
        self.enabled = on;
        if !on {
            self.length = 0;
        }
    }

    pub fn clock_length(&mut self)
        requires
            old(self).wf(),
        ensures
            final(self).wf(),
            *final(self) == old(self).after_length_clock(),
    {
        if !self.length_halt && self.length > 0 {
            self.length = self.length - 1;
        }
    }

    /// Current output level (0-15).
    pub fn output(&self) -> (r: u8)
        requires
            self.wf(),
        ensures
            r == self.output_level(),
            r <= 15,
    {
        if !self.enabled || self.length == 0 || self.shift & 1 != 0 {
            return 0;
        }
        if self.constant_volume {
            self.volume
        } else {
            self.env_vol
        }
    }
}

/// The shift register never reaches zero: from a nonzero 15-bit state, one step
/// gives a nonzero 15-bit state.
pub proof fn lemma_lfsr_nonzero(shift: u16, short_mode: bool)
    requires
        shift != 0,
        shift < 0x8000,
    ensures
        lfsr_step(shift, short_mode) != 0,
        lfsr_step(shift, short_mode) < 0x8000,
{
    assert({
        &&& ((shift >> 1u16) | (((shift ^ (shift >> 6u16)) & 1) << 14u16)) != 0
        &&& ((shift >> 1u16) | (((shift ^ (shift >> 6u16)) & 1) << 14u16)) < 0x8000
        &&& ((shift >> 1u16) | (((shift ^ (shift >> 1u16)) & 1) << 14u16)) != 0
        &&& ((shift >> 1u16) | (((shift ^ (shift >> 1u16)) & 1) << 14u16)) < 0x8000
    }) by (bit_vector)
        requires
            shift != 0,
            shift < 0x8000,
    ;
}

// ---------------------------------------------------------------------------
// The channels and the frame counter
// ---------------------------------------------------------------------------

/// The four tone channels and the frame counter that clocks their envelopes,
/// length counters and sweeps.
pub struct Apu {
    pub pulse1: Pulse,
    pub pulse2: Pulse,
    pub triangle: Triangle,
    pub noise: Noise,
    pub frame_counter: u32,
    /// Five-step sequence when set, four-step otherwise.
    pub frame_mode: bool,
    pub frame_irq_inhibit: bool,
    /// Toggles every CPU cycle; pulse and noise timers run on every other one.
    pub apu_divider: bool,
}

/// Length of the current frame sequence in CPU cycles.
pub open spec fn sequence_len(five_step: bool) -> u32 {
    if five_step {
        STEP5
    } else {
        STEP4
    }
}

impl Apu {
    pub open spec fn wf(self) -> bool {
        &&& self.pulse1.wf()
        &&& self.pulse2.wf()
        &&& self.triangle.wf()
        &&& self.noise.wf()
        &&& self.frame_counter < sequence_len(self.frame_mode)
    }

    /// Quarter-frame clock: envelopes and the triangle's linear counter.
    pub open spec fn after_quarter(self) -> Apu {
        Apu {
            pulse1: self.pulse1.after_envelope_clock(),
            pulse2: self.pulse2.after_envelope_clock(),
            triangle: self.triangle.after_linear_clock(),
            noise: self.noise.after_envelope_clock(),
            ..self
        }
    }

    /// Half-frame clock: length counters and sweeps.
    pub open spec fn after_half(self) -> Apu {
        Apu {
            pulse1: self.pulse1.after_length_clock().after_sweep_clock(),
            pulse2: self.pulse2.after_length_clock().after_sweep_clock(),
            triangle: self.triangle.after_length_clock(),
            noise: self.noise.after_length_clock(),
            ..self
        }
    }

    /// One CPU cycle: the triangle timer, every other cycle the pulse and noise
    /// timers, then the frame counter, whose steps clock quarter and half frames
    /// and whose last step restarts it.
    pub open spec fn after_cycle(self) -> Apu {
        let divider = !self.apu_divider;
        let s = Apu { triangle: self.triangle.after_timer_clock(), apu_divider: divider, ..self };
        let s = if !divider {
            Apu {
                pulse1: s.pulse1.after_timer_clock(),
                pulse2: s.pulse2.after_timer_clock(),
                noise: s.noise.after_timer_clock(),
                ..s
            }
        } else {
            s
        };
        let fc = (s.frame_counter + 1) as u32;
        let s = Apu { frame_counter: fc, ..s };
        if fc == STEP1 || fc == STEP3 {
            s.after_quarter()
        } else if fc == STEP2 {
            s.after_quarter().after_half()
        } else if fc == sequence_len(s.frame_mode) {
            Apu { frame_counter: 0, ..s.after_quarter().after_half() }
        } else {
            s
        }
    }

    /// Output levels of pulse 1, pulse 2, triangle and noise.
    pub open spec fn output_levels(self) -> (u8, u8, u8, u8) {
        (
            self.pulse1.output_level(),
            self.pulse2.output_level(),
            self.triangle.output_level(),
            self.noise.output_level(),
        )
    }

    /// The APU at power-on: silent channels, four-step sequence at its start.
    pub open spec fn power_on() -> Apu {
        Apu {
            pulse1: Pulse::power_on(true),
            pulse2: Pulse::power_on(false),
            triangle: Triangle::power_on(),
            noise: Noise::power_on(),
            frame_counter: 0,
            frame_mode: false,
            frame_irq_inhibit: false,
            apu_divider: false,
        }
    }

    /// Effect of a write to one of the channel registers $4000-$400F.
    pub open spec fn after_channel_write(self, addr: u16, value: u8) -> Apu {
        if addr == 0x4000 {
            Apu { pulse1: self.pulse1.after_write0(value), ..self }
        } else if addr == 0x4001 {
            Apu { pulse1: self.pulse1.after_write1(value), ..self }
        } else if addr == 0x4002 {
            Apu { pulse1: self.pulse1.after_write2(value), ..self }
        } else if addr == 0x4003 {
            Apu { pulse1: self.pulse1.after_write3(value), ..self }
        } else if addr == 0x4004 {
            Apu { pulse2: self.pulse2.after_write0(value), ..self }
        } else if addr == 0x4005 {
            Apu { pulse2: self.pulse2.after_write1(value), ..self }
        } else if addr == 0x4006 {
            Apu { pulse2: self.pulse2.after_write2(value), ..self }
        } else if addr == 0x4007 {
            Apu { pulse2: self.pulse2.after_write3(value), ..self }
        } else if addr == 0x4008 {
            Apu { triangle: self.triangle.after_write0(value), ..self }
        } else if addr == 0x400A {
            Apu { triangle: self.triangle.after_write2(value), ..self }
        } else if addr == 0x400B {
            Apu { triangle: self.triangle.after_write3(value), ..self }
        } else if addr == 0x400C {
            Apu { noise: self.noise.after_write0(value), ..self }
        } else if addr == 0x400E {
            Apu { noise: self.noise.after_write2(value), ..self }
        } else if addr == 0x400F {
            Apu { noise: self.noise.after_write3(value), ..self }
        } else {
            self
        }
    }

    /// Effect of a write to $4015: channel enables; a disabled channel's
    /// length counter is cleared.
    pub open spec fn after_status_write(self, value: u8) -> Apu {
        let e1 = value & 0x01 != 0;
        let e2 = value & 0x02 != 0;
        let e3 = value & 0x04 != 0;
        let e4 = value & 0x08 != 0;
        Apu {
            pulse1: Pulse { enabled: e1, length: if e1 { self.pulse1.length } else { 0 }, ..self.pulse1 },
            pulse2: Pulse { enabled: e2, length: if e2 { self.pulse2.length } else { 0 }, ..self.pulse2 },
            triangle: Triangle {
                enabled: e3,
                length: if e3 { self.triangle.length } else { 0 },
                ..self.triangle
            },
            noise: Noise { enabled: e4, length: if e4 { self.noise.length } else { 0 }, ..self.noise },
            ..self
        }
    }

    /// Effect of a write to $4017: sequence mode and IRQ inhibit, counter restarted;
    /// the five-step mode clocks a quarter and a half frame at once.
    pub open spec fn after_frame_counter_write(self, value: u8) -> Apu {
        let s = Apu {
            frame_mode: value & 0x80 != 0,
            frame_irq_inhibit: value & 0x40 != 0,
            frame_counter: 0,
            ..self
        };
        if s.frame_mode {
            s.after_quarter().after_half()
        } else {
            s
        }
    }

    /// Effect of a CPU write to an APU register.
    pub open spec fn after_write(self, addr: u16, value: u8) -> Apu {
        if 0x4000 <= addr <= 0x400F {
            self.after_channel_write(addr, value)
        } else if addr == 0x4015 {
            self.after_status_write(value)
        } else if addr == 0x4017 {
            self.after_frame_counter_write(value)
        } else {
            self
        }
    }

    pub fn new() -> (a: Self)
        ensures
            a.wf(),
            a == Apu::power_on(),
    {
        Apu {
            pulse1: Pulse::new(true),
            pulse2: Pulse::new(false),
            triangle: Triangle::new(),
            noise: Noise::new(),
            frame_counter: 0,
            frame_mode: false,
            frame_irq_inhibit: false,
            apu_divider: false,
        }
    }

    /// A CPU write to $4000-$4017.
    pub fn write(&mut self, addr: u16, value: u8)
        requires
            old(self).wf(),
        ensures
            final(self).wf(),
            *final(self) == old(self).after_write(addr, value),
    {
        if 0x4000 <= addr && addr <= 0x400F {
            self.write_channel(addr, value);
        } else if addr == 0x4015 {
            self.write_status(value);
        } else if addr == 0x4017 {
            self.write_frame_counter(value);
        }
    }

    fn write_channel(&mut self, addr: u16, value: u8)
        requires
            old(self).wf(),
        ensures
            final(self).wf(),
            *final(self) == old(self).after_channel_write(addr, value),
    {
        if addr == 0x4000 {
            self.pulse1.write0(value);
        } else if addr == 0x4001 {
            self.pulse1.write1(value);
        } else if addr == 0x4002 {
            self.pulse1.write2(value);
        } else if addr == 0x4003 {
            self.pulse1.write3(value);
        } else if addr == 0x4004 {
            self.pulse2.write0(value);
        } else if addr == 0x4005 {
            self.pulse2.write1(value);
        } else if addr == 0x4006 {
            self.pulse2.write2(value);
        } else if addr == 0x4007 {
            self.pulse2.write3(value);
        } else if addr == 0x4008 {
            self.triangle.write0(value);
        } else if addr == 0x400A {
            self.triangle.write2(value);
        } else if addr == 0x400B {
            self.triangle.write3(value);
        } else if addr == 0x400C {
            self.noise.write0(value);
        } else if addr == 0x400E {
            self.noise.write2(value);
        } else if addr == 0x400F {
            self.noise.write3(value);
        }
    }

    fn write_status(&mut self, value: u8)
        requires
            old(self).wf(),
        ensures
            final(self).wf(),
            *final(self) == old(self).after_status_write(value),
    {
        self.pulse1.set_enabled(value & 0x01 != 0);
        self.pulse2.set_enabled(value & 0x02 != 0);
        self.triangle.set_enabled(value & 0x04 != 0);
        self.noise.set_enabled(value & 0x08 != 0);
    }

    fn write_frame_counter(&mut self, value: u8)
        requires
            old(self).wf(),
        ensures
            final(self).wf(),
            *final(self) == old(self).after_frame_counter_write(value),
    {
        self.frame_mode = value & 0x80 != 0;
        self.frame_irq_inhibit = value & 0x40 != 0;
        self.frame_counter = 0;
        if self.frame_mode {
            self.clock_quarter();
            self.clock_half();
        }
    }

    /// Clocks the APU for one CPU cycle.
    #[verifier::spinoff_prover]
    pub fn tick(&mut self)
        requires
            old(self).wf(),
        ensures
            final(self).wf(),
            *final(self) == old(self).after_cycle(),
    {
        self.triangle.clock_timer();
        self.apu_divider = !self.apu_divider;
        if !self.apu_divider {
            self.pulse1.clock_timer();
            self.pulse2.clock_timer();
            self.noise.clock_timer();
        }
        self.frame_counter = self.frame_counter + 1;
        let fc = self.frame_counter;
        if fc == STEP1 || fc == STEP3 {
            self.clock_quarter();
        } else if fc == STEP2 {
            self.clock_quarter();
            self.clock_half();
        } else if (!self.frame_mode && fc == STEP4) || (self.frame_mode && fc == STEP5) {
            self.clock_quarter();
            self.clock_half();
            self.frame_counter = 0;
        }
    }

    fn clock_quarter(&mut self)
        requires
            old(self).pulse1.wf(),
            old(self).pulse2.wf(),
            old(self).triangle.wf(),
            old(self).noise.wf(),
        ensures
            final(self).pulse1.wf(),
            final(self).pulse2.wf(),
            final(self).triangle.wf(),
            final(self).noise.wf(),
            *final(self) == old(self).after_quarter(),
    {
        self.pulse1.clock_envelope();
        self.pulse2.clock_envelope();
        self.triangle.clock_linear();
        self.noise.clock_envelope();
    }

    fn clock_half(&mut self)
        requires
            old(self).pulse1.wf(),
            old(self).pulse2.wf(),
            old(self).triangle.wf(),
            old(self).noise.wf(),
        ensures
            final(self).pulse1.wf(),
            final(self).pulse2.wf(),
            final(self).triangle.wf(),
            final(self).noise.wf(),
            *final(self) == old(self).after_half(),
    {
        self.pulse1.clock_length();
        self.pulse1.clock_sweep();
        self.pulse2.clock_length();
        self.pulse2.clock_sweep();
        self.triangle.clock_length();
        self.noise.clock_length();
    }

    /// Output levels (0-15) of pulse 1, pulse 2, triangle and noise, for the mixer.
    pub fn levels(&self) -> (r: (u8, u8, u8, u8))
        requires
            self.wf(),
        ensures
            r == self.output_levels(),
            r.0 <= 15 && r.1 <= 15 && r.2 <= 15 && r.3 <= 15,
    {
        (self.pulse1.output(), self.pulse2.output(), self.triangle.output(), self.noise.output())
    }
}


/// The APU after `n` CPU cycles.
pub open spec fn apu_run(a: Apu, n: nat) -> Apu
    decreases n,
{
    if n == 0 {
        a
    } else {
        apu_run(a, (n - 1) as nat).after_cycle()
    }
}

/// The channel output levels after each of `n` CPU cycles, oldest first.
pub open spec fn apu_trace(a: Apu, n: nat) -> Seq<(u8, u8, u8, u8)>
    decreases n,
{
    if n == 0 {
        Seq::empty()
    } else {
        apu_trace(a, (n - 1) as nat).push(apu_run(a, n).output_levels())
    }
}

/// Running `m` cycles and then `n` more is running `m + n` cycles, and the levels
/// of the second run continue those of the first.
pub proof fn lemma_apu_run_split(a: Apu, m: nat, n: nat)
    ensures
        apu_run(apu_run(a, m), n) == apu_run(a, m + n),
        apu_trace(a, m) + apu_trace(apu_run(a, m), n) == apu_trace(a, m + n),
    decreases n,
{
    if n == 0 {
        assert(apu_trace(a, m) + Seq::<(u8, u8, u8, u8)>::empty() =~= apu_trace(a, m));
    } else {
        lemma_apu_run_split(a, m, (n - 1) as nat);
        assert(m + n - 1 == (m + (n - 1)) as nat);
        assert(apu_trace(a, m) + apu_trace(apu_run(a, m), n) =~= apu_trace(a, m + n));
    }
}

/// The frame sequencer is periodic: its mode never changes by itself, and after
/// `n` cycles its counter has advanced by `n` modulo the sequence length
/// (14915 cycles in four-step mode, 18641 in five-step mode).
pub proof fn lemma_frame_counter_period(a: Apu, n: nat)
    requires
        a.frame_counter < sequence_len(a.frame_mode),
    ensures
        apu_run(a, n).frame_mode == a.frame_mode,
        apu_run(a, n).frame_counter == (a.frame_counter + n) % (sequence_len(a.frame_mode) as int),
    decreases n,
{
    let len = sequence_len(a.frame_mode) as int;
    if n == 0 {
        vstd::arithmetic::div_mod::lemma_small_mod(a.frame_counter as nat, len as nat);
    } else {
        lemma_frame_counter_period(a, (n - 1) as nat);
        let prev = apu_run(a, (n - 1) as nat);
        let x = a.frame_counter + n - 1;
        vstd::arithmetic::div_mod::lemma_add_mod_noop(x, 1, len);
        vstd::arithmetic::div_mod::lemma_small_mod(1, len as nat);
        if prev.frame_counter + 1 < len {
            vstd::arithmetic::div_mod::lemma_small_mod((prev.frame_counter + 1) as nat, len as nat);
        } else {
            vstd::arithmetic::div_mod::lemma_mod_self_0(len);
        }
    }
}

/// The frame sequence from its start: the `n`-th cycle (counting from 1) finds
/// the counter at `n - 1` and advances it to `n`, so `after_cycle` clocks a
/// quarter frame exactly on cycles 3729, 7457, 11186 and the sequence length
/// (14915 or 18641), a half frame on 7457 and the length, and the counter is
/// back at 0 after the last one.
pub proof fn lemma_frame_schedule(a: Apu, n: nat)
    requires
        a.frame_counter == 0,
        1 <= n <= sequence_len(a.frame_mode),
    ensures
        apu_run(a, (n - 1) as nat).frame_counter + 1 == n,
        apu_run(a, (n - 1) as nat).frame_mode == a.frame_mode,
        apu_run(a, sequence_len(a.frame_mode) as nat).frame_counter == 0,
{
    let len = sequence_len(a.frame_mode) as int;
    lemma_frame_counter_period(a, (n - 1) as nat);
    lemma_frame_counter_period(a, len as nat);
    vstd::arithmetic::div_mod::lemma_small_mod((n - 1) as nat, len as nat);
    vstd::arithmetic::div_mod::lemma_mod_self_0(len);
}

/// One sweep clock keeps a pulse channel's period within 11 bits: an upward
/// sweep happens only when it stays below $800, and a downward one takes off at
/// most half.
proof fn lemma_sweep_keeps_wf(p: Pulse)
    requires
        p.wf(),
    ensures
        p.after_sweep_clock().wf(),
{
    let tp = p.timer_period;
    let sh = p.sweep_shift;
    if 1 <= sh {
        assert(tp >> sh <= tp / 2) by (bit_vector)
            requires
                1 <= sh < 8,
        ;
    }
}

/// Quarter- and half-frame clocks keep the channels well formed.
proof fn lemma_frame_clocks_keep_wf(a: Apu)
    requires
        a.pulse1.wf(),
        a.pulse2.wf(),
        a.triangle.wf(),
        a.noise.wf(),
    ensures
        a.after_quarter().pulse1.wf() && a.after_quarter().pulse2.wf(),
        a.after_quarter().triangle.wf() && a.after_quarter().noise.wf(),
        a.after_quarter().after_half().pulse1.wf() && a.after_quarter().after_half().pulse2.wf(),
        a.after_quarter().after_half().triangle.wf() && a.after_quarter().after_half().noise.wf(),
{
    let q = a.after_quarter();
    lemma_sweep_keeps_wf(q.pulse1.after_length_clock());
    lemma_sweep_keeps_wf(q.pulse2.after_length_clock());
}

/// Every register write keeps the APU well formed.
pub proof fn lemma_write_keeps_wf(a: Apu, addr: u16, value: u8)
    requires
        a.wf(),
    ensures
        a.after_write(addr, value).wf(),
{
    lemma_byte_bits();
    lemma_timer_low(a.pulse1.timer_period, value);
    lemma_timer_low(a.pulse2.timer_period, value);
    lemma_timer_low(a.triangle.timer_period, value);
    lemma_timer_high(a.pulse1.timer_period, value);
    lemma_timer_high(a.pulse2.timer_period, value);
    lemma_timer_high(a.triangle.timer_period, value);
    if addr == 0x4017 {
        let s = Apu {
            frame_mode: value & 0x80 != 0,
            frame_irq_inhibit: value & 0x40 != 0,
            frame_counter: 0,
            ..a
        };
        lemma_frame_clocks_keep_wf(s);
    }
}

/// A sounding pulse channel (enabled, length left, not silenced by its sweep, on a
/// high step of its duty cycle) plays at its constant volume when that flag is set,
/// and otherwise at its envelope's current volume, whatever the envelope period;
/// a silent one plays 0.
pub proof fn lemma_pulse_output_volume(p: Pulse, period: u8)
    requires
        p.duty < 4,
        p.seq_step < 8,
    ensures
        ({
            let sounding = p.enabled && p.length > 0 && !p.muted_by_sweep()
                && DUTY_TABLE[p.duty as int][p.seq_step as int] == 1;
            &&& sounding && p.constant_volume ==> p.output_level() == p.volume
            &&& sounding && !p.constant_volume ==> p.output_level() == p.env_vol
            &&& !sounding ==> p.output_level() == 0
            &&& !p.constant_volume ==> (Pulse { volume: period, ..p }).output_level()
                == p.output_level()
        }),
{
    assert(DUTY_TABLE[p.duty as int][p.seq_step as int] <= 1);
}

/// The noise channel likewise: when it sounds (enabled, length left, bit 0 of
/// its shift register clear) it plays its constant volume or its envelope volume,
/// whatever the envelope period; otherwise 0.
pub proof fn lemma_noise_output_volume(n: Noise, period: u8)
    ensures
        ({
            let sounding = n.enabled && n.length > 0 && n.shift % 2 == 0;
            &&& sounding && n.constant_volume ==> n.output_level() == n.volume
            &&& sounding && !n.constant_volume ==> n.output_level() == n.env_vol
            &&& !sounding ==> n.output_level() == 0
            &&& !n.constant_volume ==> (Noise { volume: period, ..n }).output_level()
                == n.output_level()
        }),
{
    let sh = n.shift;
    assert(sh & 1 == sh % 2) by (bit_vector);
}

/// Writing the fourth register restarts the envelope: on the next quarter-frame
/// clock its volume is 15 and its divider reloads with the period, so a sounding
/// channel without constant volume then plays at 15.
pub proof fn lemma_envelope_restart(p: Pulse, n: Noise, v: u8)
    ensures
        p.after_write3(v).after_envelope_clock().env_vol == 15,
        p.after_write3(v).after_envelope_clock().env_div == p.volume,
        n.after_write3(v).after_envelope_clock().env_vol == 15,
        n.after_write3(v).after_envelope_clock().env_div == n.volume,
{
}

/// A write to $400E picks the noise period from the sixteen of the table by its
/// low four bits, and a higher index always gives a longer period (lower pitch).
pub proof fn lemma_noise_period_select(n: Noise, v: u8, w: u8)
    ensures
        n.after_write2(v).timer_period == NOISE_PERIODS[v as int % 16],
        n.after_write2(v).mode == (v >= 0x80),
        v % 16 < w % 16 ==> n.after_write2(v).timer_period < n.after_write2(w).timer_period,
{
    lemma_byte_bits();
    assert(NOISE_PERIODS[0] == 4 && NOISE_PERIODS[1] == 8 && NOISE_PERIODS[2] == 16
        && NOISE_PERIODS[3] == 32 && NOISE_PERIODS[4] == 64 && NOISE_PERIODS[5] == 96
        && NOISE_PERIODS[6] == 128 && NOISE_PERIODS[7] == 160 && NOISE_PERIODS[8] == 202
        && NOISE_PERIODS[9] == 254 && NOISE_PERIODS[10] == 380 && NOISE_PERIODS[11] == 508
        && NOISE_PERIODS[12] == 762 && NOISE_PERIODS[13] == 1016 && NOISE_PERIODS[14] == 2034
        && NOISE_PERIODS[15] == 4068);
}

/// The triangle channel plays a 32-step triangle wave: while it sounds (enabled,
/// both counters nonzero, period at least 2) its level falls from 15 to 0 over
/// steps 0-15 and rises from 0 to 15 over steps 16-31; otherwise it is 0. A timer
/// clock at zero with both counters nonzero moves one step on, wrapping after 31.
pub proof fn lemma_triangle_wave(t: Triangle)
    requires
        t.step < 32,
    ensures
        ({
            let sounding = t.enabled && t.length > 0 && t.linear_counter > 0 && t.timer_period >= 2;
            &&& sounding && t.step < 16 ==> t.output_level() == 15 - t.step
            &&& sounding && t.step >= 16 ==> t.output_level() == t.step - 16
            &&& !sounding ==> t.output_level() == 0
        }),
        t.timer == 0 && t.length > 0 && t.linear_counter > 0 ==> t.after_timer_clock().step == (
        t.step + 1) % 32,
{
    assert(TRIANGLE_SEQUENCE@ == seq![
        15u8, 14, 13, 12, 11, 10, 9, 8, 7, 6, 5, 4, 3, 2, 1, 0,
        0, 1, 2, 3, 4, 5, 6, 7, 8, 9, 10, 11, 12, 13, 14, 15,
    ]);
}

/// The channel registers' bit fields: $4000/$4004 hold duty (bits 6-7), length
/// halt (bit 5), constant volume (bit 4) and volume or envelope period (bits 0-3);
/// $4001 holds the sweep's enable (bit 7), period (bits 4-6), negate (bit 3) and
/// shift (bits 0-2) and asks for a divider reload; $4008 holds the triangle's
/// control flag (bit 7) and linear reload value (bits 0-6); $400C the noise
/// channel's halt, constant-volume and volume fields as in $4000. A write to a
/// fourth register ($4003, $4007, $400B, $400F) loads the length counter with
/// entry `v / 8` of the length table when the channel is enabled, and leaves it
/// alone otherwise.
pub proof fn lemma_register_fields(a: Apu, v: u8)
    ensures
        ({
            let p = a.after_write(0x4000, v).pulse1;
            &&& p.duty == v / 64
            &&& p.length_halt == ((v / 32) % 2 == 1)
            &&& p.constant_volume == ((v / 16) % 2 == 1)
            &&& p.volume == v % 16
        }),
        ({
            let p = a.after_write(0x4004, v).pulse2;
            &&& p.duty == v / 64
            &&& p.length_halt == ((v / 32) % 2 == 1)
            &&& p.constant_volume == ((v / 16) % 2 == 1)
            &&& p.volume == v % 16
        }),
        ({
            let p = a.after_write(0x4001, v).pulse1;
            &&& p.sweep_enabled == (v >= 128)
            &&& p.sweep_period == (v / 16) % 8
            &&& p.sweep_negate == ((v / 8) % 2 == 1)
            &&& p.sweep_shift == v % 8
            &&& p.sweep_reload
        }),
        a.after_write(0x4008, v).triangle.control == (v >= 128),
        a.after_write(0x4008, v).triangle.linear_reload_val == v % 128,
        ({
            let n = a.after_write(0x400C, v).noise;
            &&& n.length_halt == ((v / 32) % 2 == 1)
            &&& n.constant_volume == ((v / 16) % 2 == 1)
            &&& n.volume == v % 16
        }),
        a.after_write(0x4003, v).pulse1.length == if a.pulse1.enabled {
            LENGTH_TABLE[v as int / 8]
        } else {
            a.pulse1.length
        },
        a.after_write(0x4007, v).pulse2.length == if a.pulse2.enabled {
            LENGTH_TABLE[v as int / 8]
        } else {
            a.pulse2.length
        },
        a.after_write(0x400B, v).triangle.length == if a.triangle.enabled {
            LENGTH_TABLE[v as int / 8]
        } else {
            a.triangle.length
        },
        a.after_write(0x400F, v).noise.length == if a.noise.enabled {
            LENGTH_TABLE[v as int / 8]
        } else {
            a.noise.length
        },
{
    lemma_byte_bits();
    assert((v >> 6u8) & 3 == v / 64) by (bit_vector);
    assert((v >> 4u8) & 7 == (v / 16) % 8) by (bit_vector);
}

/// The 11-bit timer period of a pulse or triangle channel is assembled from its
/// two registers: after writes of `lo` to the third and `hi` to the fourth, in
/// either order, the period is `(hi mod 8) * 256 + lo`, whatever it was before.
pub proof fn lemma_timer_period_pair(a: Apu, lo: u8, hi: u8)
    ensures
        a.after_write(0x4002, lo).after_write(0x4003, hi).pulse1.timer_period == (hi % 8) as int
            * 256 + lo,
        a.after_write(0x4003, hi).after_write(0x4002, lo).pulse1.timer_period == (hi % 8) as int
            * 256 + lo,
        a.after_write(0x4006, lo).after_write(0x4007, hi).pulse2.timer_period == (hi % 8) as int
            * 256 + lo,
        a.after_write(0x4007, hi).after_write(0x4006, lo).pulse2.timer_period == (hi % 8) as int
            * 256 + lo,
        a.after_write(0x400A, lo).after_write(0x400B, hi).triangle.timer_period == (hi % 8) as int
            * 256 + lo,
        a.after_write(0x400B, hi).after_write(0x400A, lo).triangle.timer_period == (hi % 8) as int
            * 256 + lo,
{
}

/// A write to $4015 with a channel's enable bit clear turns that channel off:
/// its length counter is cleared and it outputs nothing.
pub proof fn lemma_status_disable_silences(a: Apu, value: u8)
    ensures
        value & 0x01 == 0 ==> a.after_status_write(value).pulse1.length == 0
            && a.after_status_write(value).output_levels().0 == 0,
        value & 0x02 == 0 ==> a.after_status_write(value).pulse2.length == 0
            && a.after_status_write(value).output_levels().1 == 0,
        value & 0x04 == 0 ==> a.after_status_write(value).triangle.length == 0
            && a.after_status_write(value).output_levels().2 == 0,
        value & 0x08 == 0 ==> a.after_status_write(value).noise.length == 0
            && a.after_status_write(value).output_levels().3 == 0,
{
}

/// A channel that is off stays off, and silent, through every CPU cycle and every
/// register write other than $4015: only $4015 turns a channel back on.
pub proof fn lemma_disabled_stays_silent(a: Apu, addr: u16, value: u8)
    ensures
        !a.pulse1.enabled ==> !a.after_cycle().pulse1.enabled && a.after_cycle().output_levels().0
            == 0,
        !a.pulse2.enabled ==> !a.after_cycle().pulse2.enabled && a.after_cycle().output_levels().1
            == 0,
        !a.triangle.enabled ==> !a.after_cycle().triangle.enabled
            && a.after_cycle().output_levels().2 == 0,
        !a.noise.enabled ==> !a.after_cycle().noise.enabled && a.after_cycle().output_levels().3
            == 0,
        addr != 0x4015 ==> {
            let b = a.after_write(addr, value);
            &&& b.pulse1.enabled == a.pulse1.enabled
            &&& b.pulse2.enabled == a.pulse2.enabled
            &&& b.triangle.enabled == a.triangle.enabled
            &&& b.noise.enabled == a.noise.enabled
        },
{
}

} // verus!
