//! The APU triangle channel.
use vstd::prelude::*;
use crate::length::LengthCounter;

verus! {

/// One period of the waveform.
pub const TRIANGLE_TABLE: [u8; 32] = [
    15, 14, 13, 12, 11, 10, 9, 8, 7, 6, 5, 4, 3, 2, 1, 0, 0, 1, 2, 3, 4, 5, 6, 7, 8, 9, 10, 11, 12,
    13, 14, 15,
];

#[derive(Clone, Copy, Debug, PartialEq, Eq, Structural)]
pub struct TriangleChannel {
    pub enabled: bool,
    pub timer_period: u16,
    pub timer: u16,
    /// Position in the waveform. Every way to silence the channel merely
    /// stops it here.
    pub seq_step: u8,
    pub length: LengthCounter,
    pub linear_counter: u8,
    pub linear_reload_value: u8,
    pub linear_reload: bool,
    /// Shares its bit with the length counter halt.
    pub control_flag: bool,
}

impl TriangleChannel {
    /// The waveform starts on a step of level zero.
    pub open spec fn power_on() -> Self {
        TriangleChannel {
            enabled: false,
            timer_period: 0,
            timer: 0,
            seq_step: 15,
            length: LengthCounter::power_on(),
            linear_counter: 0,
            linear_reload_value: 0,
            linear_reload: false,
            control_flag: false,
        }
    }

    pub open spec fn wf(self) -> bool {
        self.seq_step <= 31
    }

    pub open spec fn with_linear(self, value: u8) -> Self {
        TriangleChannel {
            control_flag: value & 0x80 != 0,
            length: LengthCounter { halt: value & 0x80 != 0, ..self.length },
            linear_reload_value: value & 0x7F,
            ..self
        }
    }

    pub open spec fn with_period_lo(self, value: u8) -> Self {
        TriangleChannel { timer_period: (self.timer_period & 0xFF00) | value as u16, ..self }
    }

    pub open spec fn with_period_hi(self, value: u8) -> Self {
        TriangleChannel {
            timer_period: (self.timer_period & 0x00FF) | (((value & 0x07) as u16) << 8),
            length: if self.enabled { self.length.loaded(value) } else { self.length },
            linear_reload: true,
            ..self
        }
    }

    pub open spec fn with_enabled(self, on: bool) -> Self {
        TriangleChannel { enabled: on, length: self.length.gated(on), ..self }
    }

    /// Both counters let the waveform move.
    pub open spec fn running(self) -> bool {
        self.length.running() && self.linear_counter > 0
    }

    /// State after one clock of the timer. A period below 2 is ultrasonic and
    /// does not step the waveform.
    pub open spec fn timer_clocked(self) -> Self {
        if self.timer == 0 {
            TriangleChannel {
                timer: self.timer_period,
                seq_step: if self.running() && self.timer_period >= 2 {
                    ((self.seq_step + 1) % 32) as u8
                } else {
                    self.seq_step
                },
                ..self
            }
        } else {
            TriangleChannel { timer: (self.timer - 1) as u16, ..self }
        }
    }

    /// State after `n` clocks of the timer.
    pub open spec fn timer_run(self, n: nat) -> Self
        decreases n,
    {
        if n == 0 {
            self
        } else {
            self.timer_run((n - 1) as nat).timer_clocked()
        }
    }

    /// State after one quarter-frame clock of the linear counter.
    pub open spec fn linear_clocked(self) -> Self {
        TriangleChannel {
            linear_counter: if self.linear_reload {
                self.linear_reload_value
            } else if self.linear_counter > 0 {
                (self.linear_counter - 1) as u8
            } else {
                0
            },
            linear_reload: self.linear_reload && self.control_flag,
            ..self
        }
    }

    /// Level in half steps: that of the current step, or 7.5 while the
    /// waveform cycles too fast to be heard.
    pub open spec fn level_halfsteps(self) -> int {
        if self.timer_period < 2 && self.running() {
            15
        } else {
            2 * TRIANGLE_TABLE[self.seq_step as int]
        }
    }

    pub fn new() -> (r: Self)
        ensures
            r == Self::power_on(),
            r.wf(),
    {
        TriangleChannel {
            enabled: false,
            timer_period: 0,
            timer: 0,
            seq_step: 15,
            length: LengthCounter::new(),
            linear_counter: 0,
            linear_reload_value: 0,
            linear_reload: false,
            control_flag: false,
        }
    }

    pub fn write_linear(&mut self, value: u8)
        ensures
            *final(self) == old(self).with_linear(value),
    {
        self.control_flag = value & 0x80 != 0;
        self.length.halt = self.control_flag;
        self.linear_reload_value = value & 0x7F;
    }

    pub fn write_period_lo(&mut self, value: u8)
        ensures
            *final(self) == old(self).with_period_lo(value),
    {
        self.timer_period = (self.timer_period & 0xFF00) | value as u16;
    }

    pub fn write_period_hi(&mut self, value: u8)
        ensures
            *final(self) == old(self).with_period_hi(value),
    {
        self.timer_period = (self.timer_period & 0x00FF) | (((value & 0x07) as u16) << 8);
        if self.enabled {
            self.length.write(value, true);
        }
        self.linear_reload = true;
    }

    /// Enable or disable the channel.
    pub fn set_enabled(&mut self, on: bool)
        ensures
            *final(self) == old(self).with_enabled(on),
    {
        self.enabled = on;
        self.length.silence_if_disabled(on);
    }

    /// Clock the timer `cycles` times.
    pub fn tick_timer(&mut self, cycles: u32)
        requires
            old(self).wf(),
        ensures
            *final(self) == old(self).timer_run(cycles as nat),
            final(self).wf(),
    {
        for i in 0..cycles
            invariant
                *self == old(self).timer_run(i as nat),
                self.wf(),
        {
            if self.timer == 0 {
                self.timer = self.timer_period;
                if self.length.active() && self.linear_counter > 0 && self.timer_period >= 2 {
                    self.seq_step = (self.seq_step + 1) % 32;
                }
            } else {
                self.timer = self.timer - 1;
            }
        }
    }

    pub fn clock_linear(&mut self)
        ensures
            *final(self) == old(self).linear_clocked(),
    {
        if self.linear_reload {
            self.linear_counter = self.linear_reload_value;
        } else if self.linear_counter > 0 {
            self.linear_counter = self.linear_counter - 1;
        }
        if !self.control_flag {
            self.linear_reload = false;
        }
    }

    pub fn clock_length(&mut self)
        ensures
            *final(self) == (TriangleChannel { length: old(self).length.clocked(), ..*old(self) }),
    {
        self.length.clock();
    }

    /// Whether both counters let the waveform move.
    pub fn sequencer_running(&self) -> (r: bool)
        ensures
            r == self.running(),
    {
        self.length.active() && self.linear_counter > 0
    }

    /// Level in half steps.
    pub fn output_halfsteps(&self) -> (r: u8)
        requires
            self.wf(),
        ensures
            r == self.level_halfsteps(),
            r <= 30,
    {
        if self.timer_period < 2 && self.sequencer_running() {
            return 15;
        }
        let level: u8 = TRIANGLE_TABLE[self.seq_step as usize];
        proof {
            lemma_table_range(self.seq_step as int);
        }
        2 * level
    }

    /// The timer does not depend on how its clocks are cut into batches.
    pub proof fn lemma_timer_split(self, a: nat, b: nat)
        ensures
            self.timer_run(a + b) == self.timer_run(a).timer_run(b),
        decreases b,
    {
        if b > 0 {
            self.lemma_timer_split(a, (b - 1) as nat);
            assert((a + b - 1) as nat == a + (b - 1) as nat);
        }
    }

    /// A stopped channel holds its position: however long the timer runs, the
    /// waveform does not move.
    pub proof fn lemma_stopped_channel_holds_position(self, n: nat)
        requires
            !self.running(),
        ensures
            self.timer_run(n).seq_step == self.seq_step,
            !self.timer_run(n).running(),
        decreases n,
    {
        if n > 0 {
            self.lemma_stopped_channel_holds_position((n - 1) as nat);
        }
    }

    /// Whether the fields are within their ranges.
    pub fn is_well_formed(&self) -> (r: bool)
        ensures
            r == self.wf(),
    {
        self.seq_step <= 31
    }
}

proof fn lemma_table_range(i: int)
    requires
        0 <= i < 32,
    ensures
        TRIANGLE_TABLE[i] <= 15,
{
}

impl Default for TriangleChannel {
    fn default() -> (r: Self)
        ensures
            r == TriangleChannel::power_on(),
    {
        Self::new()
    }
}

} // verus!
