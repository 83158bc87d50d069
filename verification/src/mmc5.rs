//! Nintendo MMC5: two pulse channels without sweep and a raw 8-bit PCM
//! channel with its own interrupt.
use vstd::prelude::*;

verus! {

/// CPU cycles between two clocks of the envelope and length units (240 Hz).
pub const MMC5_FRAME_CPU: u32 = 7457;

/// Duty waveforms, one row per duty setting.
pub const MMC5_DUTY: [[u8; 8]; 4] = [
    [0, 1, 0, 0, 0, 0, 0, 0],
    [0, 1, 1, 0, 0, 0, 0, 0],
    [0, 1, 1, 1, 1, 0, 0, 0],
    [1, 0, 0, 1, 1, 1, 1, 1],
];

/// One MMC5 pulse channel.
#[derive(Clone, Copy, Debug, PartialEq, Eq, Default)]
pub struct Mmc5Pulse {
    pub enabled: bool,
    pub duty: u8,
    pub volume: u8,
    /// Constant volume rather than the envelope.
    pub constant: bool,
    pub timer_period: u16,
    pub timer: u16,
    pub step: u8,
    pub length: u8,
    /// Length counter halt, and envelope loop.
    pub halt: bool,
    pub env_start: bool,
    pub env_decay: u8,
    pub env_divider: u8,
}

/// The whole chip.
#[derive(Debug, PartialEq, Eq, Default)]
pub struct Mmc5 {
    pub enabled: bool,
    pub pulse: [Mmc5Pulse; 2],
    pub pcm: u8,
    pub pcm_read_mode: bool,
    pub status: u8,
    /// `$5010` bit 7.
    pub irq_enable: bool,
    /// Set by a zero byte on the DAC update path.
    pub irq_trip: bool,
    /// CPU cycles since the last 240 Hz clock.
    pub frame_acc: u32,
    /// Odd CPU cycle left over by the divide-by-two prescaler of the pulses.
    pub pulse_prescaler_carry: u32,
}

impl Mmc5Pulse {
    pub open spec fn power_on() -> Self {
        Mmc5Pulse {
            enabled: false,
            duty: 0,
            volume: 0,
            constant: false,
            timer_period: 0,
            timer: 0,
            step: 0,
            length: 0,
            halt: false,
            env_start: false,
            env_decay: 0,
            env_divider: 0,
        }
    }

    pub open spec fn wf(self) -> bool {
        &&& self.duty <= 3
        &&& self.step <= 7
        &&& self.volume <= 15
        &&& self.env_decay <= 15
    }

    /// Effect of the first register of the channel (`DDLC VVVV`).
    pub open spec fn with_control(self, value: u8) -> Self {
        Mmc5Pulse {
            duty: (value >> 6) & 0x03,
            halt: value & 0x20 != 0,
            constant: value & 0x10 != 0,
            volume: value & 0x0F,
            ..self
        }
    }

    /// Effect of the fourth register of the channel: period high bits, length
    /// load of an enabled channel, phase reset and envelope restart.
    pub open spec fn with_length(self, value: u8) -> Self {
        Mmc5Pulse {
            timer_period: (self.timer_period & 0x00FF) | (((value & 0x07) as u16) << 8),
            length: if self.enabled { crate::length::length_of(value) } else { self.length },
            step: 0,
            env_start: true,
            ..self
        }
    }

    /// Effect of the enable bit in `$5015`: a disabled channel loses its
    /// length count.
    pub open spec fn with_enabled(self, on: bool) -> Self {
        Mmc5Pulse { enabled: on, length: if on { self.length } else { 0 }, ..self }
    }

    /// State after one clock of the envelope.
    pub open spec fn envelope_clocked(self) -> Self {
        if self.env_start {
            Mmc5Pulse { env_start: false, env_decay: 15, env_divider: self.volume, ..self }
        } else if self.env_divider > 0 {
            Mmc5Pulse { env_divider: (self.env_divider - 1) as u8, ..self }
        } else {
            Mmc5Pulse {
                env_divider: self.volume,
                env_decay: if self.env_decay > 0 {
                    (self.env_decay - 1) as u8
                } else if self.halt {
                    15u8
                } else {
                    0u8
                },
                ..self
            }
        }
    }

    /// State after one clock of the length counter.
    pub open spec fn length_clocked(self) -> Self {
        if !self.halt && self.length > 0 {
            Mmc5Pulse { length: (self.length - 1) as u8, ..self }
        } else {
            self
        }
    }

    /// State after one clock of the timer.
    pub open spec fn timer_clocked(self) -> Self {
        if self.timer == 0 {
            Mmc5Pulse {
                timer: self.timer_period,
                step: ((self.step + 1) % 8) as u8,
                ..self
            }
        } else {
            Mmc5Pulse { timer: (self.timer - 1) as u16, ..self }
        }
    }

    /// State after `n` clocks of the timer.
    pub open spec fn timer_run(self, n: nat) -> Self
        decreases n,
    {
        if n == 0 {
            self
        } else {
            self.timer_run((n - 1) as nat).timer_clocked()
        }
    }

    pub open spec fn volume_now(self) -> u8 {
        if self.constant { self.volume } else { self.env_decay }
    }

    /// Level that the channel puts out: nothing unless it is enabled, has
    /// length left and is on a high step of its duty.
    pub open spec fn level(self) -> u8 {
        if self.enabled && self.length > 0
            && MMC5_DUTY[self.duty as int][self.step as int] != 0 {
            self.volume_now()
        } else {
            0
        }
    }

    fn new() -> (r: Self)
        ensures
            r == Self::power_on(),
    {
        Mmc5Pulse {
            enabled: false,
            duty: 0,
            volume: 0,
            constant: false,
            timer_period: 0,
            timer: 0,
            step: 0,
            length: 0,
            halt: false,
            env_start: false,
            env_decay: 0,
            env_divider: 0,
        }
    }

    fn write_control(&mut self, value: u8)
        ensures
            *final(self) == old(self).with_control(value),
            old(self).wf() ==> final(self).wf(),
    {
        proof {
            crate::bits::lemma_byte_fields(value);
        }
        self.duty = (value >> 6) & 0x03;
        self.halt = value & 0x20 != 0;
        self.constant = value & 0x10 != 0;
        self.volume = value & 0x0F;
    }

    fn write_length(&mut self, value: u8)
        ensures
            *final(self) == old(self).with_length(value),
            old(self).wf() ==> final(self).wf(),
    {
        self.timer_period = (self.timer_period & 0x00FF) | (((value & 0x07) as u16) << 8);
        if self.enabled {
            self.length = crate::length::length_for(value);
        }
        self.step = 0;
        self.env_start = true;
    }

    fn set_enabled(&mut self, on: bool)
        ensures
            *final(self) == old(self).with_enabled(on),
    {
        self.enabled = on;
        if !on {
            self.length = 0;
        }
    }

    /// Clock the envelope unit once.
    pub fn clock_envelope(&mut self)
        ensures
            *final(self) == old(self).envelope_clocked(),
            old(self).wf() ==> final(self).wf(),
    {
        if self.env_start {
            self.env_start = false;
            self.env_decay = 15;
            self.env_divider = self.volume;
        } else if self.env_divider == 0 {
            self.env_divider = self.volume;
            if self.env_decay > 0 {
                self.env_decay = self.env_decay - 1;
            } else if self.halt {
                self.env_decay = 15;
            }
        } else {
            self.env_divider = self.env_divider - 1;
        }
    }

    /// Clock the length counter once.
    pub fn clock_length(&mut self)
        ensures
            *final(self) == old(self).length_clocked(),
    {
        if !self.halt && self.length > 0 {
            self.length = self.length - 1;
        }
    }

    fn tick_timer(&mut self, cycles: u32)
        requires
            old(self).wf(),
        ensures
            *final(self) == old(self).timer_run(cycles as nat),
            final(self).wf(),
    {
        for i in 0..cycles
            invariant
                *self == old(self).timer_run(i as nat),
                self.wf(),
        {
            if self.timer == 0 {
                self.timer = self.timer_period;
                self.step = (self.step + 1) % 8;
            } else {
                self.timer = self.timer - 1;
            }
        }
    }

    /// 4-bit volume that the channel currently emits.
    pub fn current_volume(&self) -> (v: u8)
        ensures
            v == self.volume_now(),
    {
        if self.constant {
            self.volume
        } else {
            self.env_decay
        }
    }

    /// Contribution of the channel before mixing.
    pub fn pulse_output(&self) -> (v: u32)
        requires
            self.wf(),
        ensures
            v == self.level(),
            v <= 15,
    {
        if !self.enabled || self.length == 0
            || MMC5_DUTY[self.duty as usize][self.step as usize] == 0 {
            return 0;
        }
        self.current_volume() as u32
    }

    /// Whether the fields are within their ranges.
    pub fn is_well_formed(&self) -> (r: bool)
        ensures
            r == self.wf(),
    {
        self.duty <= 3 && self.step <= 7 && self.volume <= 15 && self.env_decay <= 15
    }
}

impl Mmc5 {
    /// State after power-on.
    pub open spec fn power_on(self) -> bool {
        &&& !self.enabled
        &&& self.pulse@ == seq![Mmc5Pulse::power_on(), Mmc5Pulse::power_on()]
        &&& self.pcm == 0
        &&& !self.pcm_read_mode
        &&& self.status == 0
        &&& !self.irq_enable
        &&& !self.irq_trip
        &&& self.frame_acc == 0
        &&& self.pulse_prescaler_carry == 0
    }

    pub open spec fn wf(self) -> bool {
        &&& self.pulse[0].wf()
        &&& self.pulse[1].wf()
        &&& self.frame_acc < MMC5_FRAME_CPU
        &&& self.pulse_prescaler_carry <= 1
    }

    pub open spec fn with_pulses(self, p0: Mmc5Pulse, p1: Mmc5Pulse) -> Self {
        Mmc5 { pulse: crate::bits::put(crate::bits::put(self.pulse, 0, p0), 1, p1), ..self }
    }

    pub open spec fn with_pulse(self, i: int, p: Mmc5Pulse) -> Self {
        Mmc5 { pulse: crate::bits::put(self.pulse, i, p), ..self }
    }

    /// A byte reaching the DAC: zero trips the interrupt and leaves the level,
    /// anything else becomes the level and clears the trip.
    pub open spec fn dac_updated(self, value: u8) -> Self {
        if value == 0 {
            Mmc5 { irq_trip: true, ..self }
        } else {
            Mmc5 { pcm: value, irq_trip: false, ..self }
        }
    }

    /// State after a write of `$5015`, which enables and disables the channels.
    pub open spec fn status_written(self, value: u8) -> Self {
        (Mmc5 { status: value, ..self }).with_pulses(
            self.pulse[0].with_enabled(value & 0x01 != 0),
            self.pulse[1].with_enabled(value & 0x02 != 0),
        )
    }

    /// State after the CPU writes `value` at `addr`.
    pub open spec fn written(self, addr: u16, value: u8) -> Self {
        match addr {
            0x5000 => self.with_pulse(0, self.pulse[0].with_control(value)),
            0x5002 => self.with_pulse(
                0,
                Mmc5Pulse {
                    timer_period: (self.pulse[0].timer_period & 0xFF00) | value as u16,
                    ..self.pulse[0]
                },
            ),
            0x5003 => self.with_pulse(0, self.pulse[0].with_length(value)),
            0x5004 => self.with_pulse(1, self.pulse[1].with_control(value)),
            0x5006 => self.with_pulse(
                1,
                Mmc5Pulse {
                    timer_period: (self.pulse[1].timer_period & 0xFF00) | value as u16,
                    ..self.pulse[1]
                },
            ),
            0x5007 => self.with_pulse(1, self.pulse[1].with_length(value)),
            0x5010 => Mmc5 {
                irq_enable: value & 0x80 != 0,
                pcm_read_mode: value & 0x01 != 0,
                ..self
            },
            0x5011 if !self.pcm_read_mode => self.dac_updated(value),
            0x5015 => self.status_written(value),
            _ => self,
        }
    }

    /// Byte that the CPU reads at `addr`.
    pub open spec fn read_value(self, addr: u16) -> u8 {
        match addr {
            0x5010 => (if self.irq_trip && self.irq_enable { 0x80u8 } else { 0u8 }) | (
            if self.pcm_read_mode { 0x01u8 } else { 0u8 }),
            0x5015 => (if self.pulse[0].length > 0 { 0x01u8 } else { 0u8 }) | (
            if self.pulse[1].length > 0 { 0x02u8 } else { 0u8 }),
            _ => 0xFF,
        }
    }

    /// State after the CPU reads `addr`: reading `$5010` acknowledges the
    /// interrupt.
    pub open spec fn after_read(self, addr: u16) -> Self {
        if addr == 0x5010 { Mmc5 { irq_trip: false, ..self } } else { self }
    }

    /// State after the CPU has read `byte` from `$8000..=$BFFF`.
    pub open spec fn observed(self, byte: u8) -> Self {
        if self.enabled && self.pcm_read_mode { self.dac_updated(byte) } else { self }
    }

    /// Interrupt line of the chip.
    pub open spec fn irq_asserted(self) -> bool {
        self.irq_trip && self.irq_enable
    }

    /// Pulse timers over one CPU cycle: they are clocked on every other one.
    pub open spec fn timer_cycle(self) -> Self {
        if self.pulse_prescaler_carry == 1 {
            (Mmc5 { pulse_prescaler_carry: 0, ..self }).with_pulses(
                self.pulse[0].timer_clocked(),
                self.pulse[1].timer_clocked(),
            )
        } else {
            Mmc5 { pulse_prescaler_carry: 1, ..self }
        }
    }

    /// Pulse timers over `n` CPU cycles.
    pub open spec fn timers_run(self, n: nat) -> Self
        decreases n,
    {
        if n == 0 {
            self
        } else {
            self.timers_run((n - 1) as nat).timer_cycle()
        }
    }

    /// The 240 Hz clock: envelope and length counter of both channels.
    pub open spec fn frame_clocked(self) -> Self {
        self.with_pulses(
            self.pulse[0].envelope_clocked().length_clocked(),
            self.pulse[1].envelope_clocked().length_clocked(),
        )
    }

    /// One CPU cycle: the timers move, and every 7457th cycle the envelope
    /// and length units are clocked after them.
    pub open spec fn cycle(self) -> Self {
        let t = self.timer_cycle();
        if self.frame_acc + 1 >= MMC5_FRAME_CPU {
            (Mmc5 { frame_acc: 0, ..t }).frame_clocked()
        } else {
            Mmc5 { frame_acc: (self.frame_acc + 1) as u32, ..t }
        }
    }

    /// State after `n` CPU cycles.
    pub open spec fn ticked(self, n: nat) -> Self
        decreases n,
    {
        if n == 0 {
            self
        } else {
            self.ticked((n - 1) as nat).cycle()
        }
    }

    pub fn new() -> (r: Self)
        ensures
            r.power_on(),
            r.wf(),
    {
        Mmc5 {
            enabled: false,
            pulse: [Mmc5Pulse::new(), Mmc5Pulse::new()],
            pcm: 0,
            pcm_read_mode: false,
            status: 0,
            irq_enable: false,
            irq_trip: false,
            frame_acc: 0,
            pulse_prescaler_carry: 0,
        }
    }

    fn write_status(&mut self, value: u8)
        ensures
            *final(self) == old(self).status_written(value),
            old(self).wf() ==> final(self).wf(),
    {
        self.status = value;
        self.pulse[0].set_enabled(value & 0x01 != 0);
        self.pulse[1].set_enabled(value & 0x02 != 0);
    }

    pub fn write(&mut self, addr: u16, value: u8)
        ensures
            *final(self) == old(self).written(addr, value),
            old(self).wf() ==> final(self).wf(),
    {
        match addr {
            0x5000 => {
                self.pulse[0].write_control(value);
            },
            0x5002 => {
                self.pulse[0].timer_period = (self.pulse[0].timer_period & 0xFF00) | value as u16;
            },
            0x5003 => {
                self.pulse[0].write_length(value);
            },
            0x5004 => {
                self.pulse[1].write_control(value);
            },
            0x5006 => {
                self.pulse[1].timer_period = (self.pulse[1].timer_period & 0xFF00) | value as u16;
            },
            0x5007 => {
                self.pulse[1].write_length(value);
            },
            0x5010 => {
                self.irq_enable = value & 0x80 != 0;
                self.pcm_read_mode = value & 0x01 != 0;
            },
            0x5011 => {
                if !self.pcm_read_mode {
                    self.dac_update_from_pcm_byte(value);
                }
            },
            0x5015 => {
                self.write_status(value);
            },
            _ => {},
        }
    }

    pub fn read(&mut self, addr: u16) -> (r: u8)
        ensures
            r == old(self).read_value(addr),
            *final(self) == old(self).after_read(addr),
    {
        match addr {
            0x5010 => {
                let hi: u8 = if self.irq_trip && self.irq_enable { 0x80 } else { 0 };
                let lo: u8 = if self.pcm_read_mode { 0x01 } else { 0 };
                self.irq_trip = false;
                hi | lo
            },
            0x5015 => {
                let p0: u8 = if self.pulse[0].length > 0 { 0x01 } else { 0 };
                let p1: u8 = if self.pulse[1].length > 0 { 0x02 } else { 0 };
                p0 | p1
            },
            _ => 0xFF,
        }
    }

    /// Apply a byte of the DAC update path.
    pub fn dac_update_from_pcm_byte(&mut self, value: u8)
        ensures
            *final(self) == old(self).dac_updated(value),
    {
        if value == 0 {
            self.irq_trip = true;
        } else {
            self.pcm = value;
            self.irq_trip = false;
        }
    }

    /// Hook for CPU reads of `$8000..=$BFFF`: in PCM read mode the byte goes
    /// to the DAC.
    pub fn observe_prg_read(&mut self, byte: u8)
        ensures
            *final(self) == old(self).observed(byte),
    {
        if !self.enabled || !self.pcm_read_mode {
            return ;
        }
        self.dac_update_from_pcm_byte(byte);
    }

    /// Contribution of the chip to the CPU interrupt line.
    pub fn irq_line(&self) -> (r: bool)
        ensures
            r == self.irq_asserted(),
    {
        self.irq_trip && self.irq_enable
    }

    /// Advance the chip by `cycles` CPU cycles.
    pub fn tick(&mut self, cycles: u32)
        requires
            old(self).wf(),
        ensures
            *final(self) == old(self).ticked(cycles as nat),
            final(self).wf(),
    {
        let mut remaining: u32 = cycles;
        while remaining > 0
            invariant
                remaining <= cycles,
                self.wf(),
                *self == old(self).ticked((cycles - remaining) as nat),
            decreases remaining,
        {
            let until_frame: u32 = MMC5_FRAME_CPU - self.frame_acc;
            let n: u32 = if remaining < until_frame { remaining } else { until_frame };
            proof {
                self.lemma_batch(n as nat);
                old(self).lemma_ticks_split((cycles - remaining) as nat, n as nat);
            }
            let ghost before = *self;
            self.advance_pulse_timers(n);
            self.frame_acc = self.frame_acc + n;
            if self.frame_acc >= MMC5_FRAME_CPU {
                self.frame_acc = self.frame_acc - MMC5_FRAME_CPU;
                self.pulse[0].clock_envelope();
                self.pulse[0].clock_length();
                self.pulse[1].clock_envelope();
                self.pulse[1].clock_length();
                assert(self.pulse =~= before.ticked(n as nat).pulse);
            }
            remaining = remaining - n;
        }
    }

    /// Advance the two pulse timers by `cycles` CPU cycles.
    pub fn advance_pulse_timers(&mut self, cycles: u32)
        requires
            old(self).wf(),
            cycles < u32::MAX,
        ensures
            *final(self) == old(self).timers_run(cycles as nat),
            final(self).wf(),
            final(self).frame_acc == old(self).frame_acc,
    {
        let total: u32 = cycles + self.pulse_prescaler_carry;
        let apu_cycles: u32 = total / 2;
        self.pulse_prescaler_carry = total % 2;
        self.pulse[0].tick_timer(apu_cycles);
        self.pulse[1].tick_timer(apu_cycles);
        proof {
            old(self).lemma_timers_run(cycles as nat);
        }
    }

    /// The two numbers that feed the analog output stage, both with the
    /// polarity of this chip, which is the reverse of the APU: minus the sum
    /// of the pulse levels, and the PCM level measured down from the middle
    /// of its swing in half steps.
    pub fn output(&self) -> (r: (i32, i32))
        requires
            self.wf(),
        ensures
            r.0 == -(self.pulse[0].level() + self.pulse[1].level()),
            r.1 == 255 - 2 * self.pcm,
            -30 <= r.0 <= 0,
            -255 <= r.1 <= 255,
    {
        let sum: u32 = self.pulse[0].pulse_output() + self.pulse[1].pulse_output();
        (0 - sum as i32, 255 - 2 * self.pcm as i32)
    }

    /// Over `n` CPU cycles the prescaler lets half of them through, and an
    /// odd one is kept for the next batch.
    proof fn lemma_timers_run(self, n: nat)
        requires
            self.pulse_prescaler_carry <= 1,
        ensures
            ({
                let total = n + self.pulse_prescaler_carry as nat;
                &&& self.timers_run(n) == (Mmc5 {
                    pulse_prescaler_carry: (total % 2) as u32,
                    ..self
                }).with_pulses(
                    self.pulse[0].timer_run(total / 2),
                    self.pulse[1].timer_run(total / 2),
                )
            }),
        decreases n,
    {
        if n > 0 {
            self.lemma_timers_run((n - 1) as nat);
        }
        let total = n + self.pulse_prescaler_carry as nat;
        let expected = (Mmc5 { pulse_prescaler_carry: (total % 2) as u32, ..self }).with_pulses(
            self.pulse[0].timer_run(total / 2),
            self.pulse[1].timer_run(total / 2),
        );
        assert(self.timers_run(n).pulse =~= expected.pulse);
    }

    /// A batch that does not pass the next 240 Hz boundary is the timers
    /// alone, followed by one clock of the units if it ends on the boundary.
    proof fn lemma_batch(self, n: nat)
        requires
            self.frame_acc + n <= MMC5_FRAME_CPU,
            self.frame_acc < MMC5_FRAME_CPU,
        ensures
            ({
                let t = self.timers_run(n);
                &&& t.frame_acc == self.frame_acc
                &&& self.frame_acc + n < MMC5_FRAME_CPU ==> self.ticked(n) == (Mmc5 {
                    frame_acc: (self.frame_acc + n) as u32,
                    ..t
                })
                &&& self.frame_acc + n == MMC5_FRAME_CPU ==> self.ticked(n) == (Mmc5 {
                    frame_acc: 0,
                    ..t
                }).frame_clocked()
            }),
        decreases n,
    {
        if n > 0 {
            self.lemma_batch((n - 1) as nat);
        }
    }

    /// The state after a stretch of time does not depend on how the time is
    /// cut into batches.
    pub proof fn lemma_ticks_split(self, a: nat, b: nat)
        ensures
            self.ticked(a + b) == self.ticked(a).ticked(b),
        decreases b,
    {
        if b > 0 {
            self.lemma_ticks_split(a, (b - 1) as nat);
            assert((a + b - 1) as nat == a + (b - 1) as nat);
        }
    }

    /// Whether the fields are within their ranges.
    pub fn is_well_formed(&self) -> (r: bool)
        ensures
            r == self.wf(),
    {
        self.pulse[0].is_well_formed() && self.pulse[1].is_well_formed() && self.frame_acc
            < MMC5_FRAME_CPU && self.pulse_prescaler_carry <= 1
    }
}

} // verus!
