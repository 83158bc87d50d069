//! The register-driven side of the OPLL voices of the VRC7: what each voice
//! has been told to play, the test register and the two slow oscillators.
use vstd::prelude::*;

verus! {

/// Parameters of a two-operator instrument, decoded from its eight bytes.
#[derive(Clone, Copy, Debug, PartialEq, Eq, Default, Structural)]
pub struct Vrc7Patch {
    pub mod_tremolo: bool,
    pub mod_vibrato: bool,
    pub mod_sustain: bool,
    /// Key rate scaling.
    pub mod_ksr: bool,
    pub mod_mult: u8,
    pub car_tremolo: bool,
    pub car_vibrato: bool,
    pub car_sustain: bool,
    /// Key rate scaling.
    pub car_ksr: bool,
    pub car_mult: u8,
    /// Key level scaling.
    pub mod_ksl: u8,
    /// Output level, 0.75 dB per step.
    pub mod_tl: u8,
    /// Key level scaling.
    pub car_ksl: u8,
    /// 0 is a sine, 1 a half-rectified sine.
    pub car_wave: u8,
    /// 0 is a sine, 1 a half-rectified sine.
    pub mod_wave: u8,
    pub feedback: u8,
    pub mod_attack: u8,
    pub mod_decay: u8,
    pub car_attack: u8,
    pub car_decay: u8,
    pub mod_sustain_level: u8,
    pub mod_release: u8,
    pub car_sustain_level: u8,
    pub car_release: u8,
}

impl Vrc7Patch {
    /// The instrument that eight patch bytes describe.
    pub open spec fn decoded(b: Seq<u8>) -> Self {
        Vrc7Patch {
            mod_tremolo: b[0] & 0x80 != 0,
            mod_vibrato: b[0] & 0x40 != 0,
            mod_sustain: b[0] & 0x20 != 0,
            mod_ksr: b[0] & 0x10 != 0,
            mod_mult: b[0] & 0x0F,
            car_tremolo: b[1] & 0x80 != 0,
            car_vibrato: b[1] & 0x40 != 0,
            car_sustain: b[1] & 0x20 != 0,
            car_ksr: b[1] & 0x10 != 0,
            car_mult: b[1] & 0x0F,
            mod_ksl: (b[2] >> 6) & 0x03,
            mod_tl: b[2] & 0x3F,
            car_ksl: (b[3] >> 6) & 0x03,
            car_wave: (b[3] >> 4) & 0x01,
            mod_wave: (b[3] >> 3) & 0x01,
            feedback: b[3] & 0x07,
            mod_attack: (b[4] >> 4) & 0x0F,
            mod_decay: b[4] & 0x0F,
            car_attack: (b[5] >> 4) & 0x0F,
            car_decay: b[5] & 0x0F,
            mod_sustain_level: (b[6] >> 4) & 0x0F,
            mod_release: b[6] & 0x0F,
            car_sustain_level: (b[7] >> 4) & 0x0F,
            car_release: b[7] & 0x0F,
        }
    }

    /// Decode the eight bytes of an instrument.
    pub fn from_bytes(b: &[u8; 8]) -> (p: Self)
        ensures
            p == Self::decoded(b@),
    {
        Vrc7Patch {
            mod_tremolo: b[0] & 0x80 != 0,
            mod_vibrato: b[0] & 0x40 != 0,
            mod_sustain: b[0] & 0x20 != 0,
            mod_ksr: b[0] & 0x10 != 0,
            mod_mult: b[0] & 0x0F,
            car_tremolo: b[1] & 0x80 != 0,
            car_vibrato: b[1] & 0x40 != 0,
            car_sustain: b[1] & 0x20 != 0,
            car_ksr: b[1] & 0x10 != 0,
            car_mult: b[1] & 0x0F,
            mod_ksl: (b[2] >> 6) & 0x03,
            mod_tl: b[2] & 0x3F,
            car_ksl: (b[3] >> 6) & 0x03,
            car_wave: (b[3] >> 4) & 0x01,
            mod_wave: (b[3] >> 3) & 0x01,
            feedback: b[3] & 0x07,
            mod_attack: (b[4] >> 4) & 0x0F,
            mod_decay: b[4] & 0x0F,
            car_attack: (b[5] >> 4) & 0x0F,
            car_decay: b[5] & 0x0F,
            mod_sustain_level: (b[6] >> 4) & 0x0F,
            mod_release: b[6] & 0x0F,
            car_sustain_level: (b[7] >> 4) & 0x0F,
            car_release: b[7] & 0x0F,
        }
    }
}

/// The `$0F` test register.
#[derive(Clone, Copy, Debug, PartialEq, Eq, Default, Structural)]
pub struct TestRegister {
    /// Bit 0: every envelope reads as full volume.
    pub envs_zero: bool,
    /// Bit 1: the slow oscillators are held at zero.
    pub hold_lfo: bool,
    /// Bit 2: the waveform phase is held at zero.
    pub hold_phase: bool,
    /// Bit 3: the slow oscillators step on every sample.
    pub fast_lfo: bool,
}

impl TestRegister {
    pub open spec fn decoded(value: u8) -> Self {
        TestRegister {
            envs_zero: value & 0x01 != 0,
            hold_lfo: value & 0x02 != 0,
            hold_phase: value & 0x04 != 0,
            fast_lfo: value & 0x08 != 0,
        }
    }

    pub fn from_byte(value: u8) -> (r: Self)
        ensures
            r == Self::decoded(value),
    {
        TestRegister {
            envs_zero: value & 0x01 != 0,
            hold_lfo: value & 0x02 != 0,
            hold_phase: value & 0x04 != 0,
            fast_lfo: value & 0x08 != 0,
        }
    }
}

/// State of the rhythm register: the mode bit and the five drum keys.
#[derive(Clone, Copy, Debug, PartialEq, Eq, Default, Structural)]
pub struct RhythmRegister {
    pub rhythm_mode: bool,
    pub bd: bool,
    pub sd: bool,
    pub tom: bool,
    pub t_cy: bool,
    pub hh: bool,
}

/// Steps of the tremolo waveform.
pub const TREMOLO_STEPS: u32 = 210;

/// Steps of the vibrato waveform.
pub const VIBRATO_STEPS: u32 = 8;

/// The tremolo and vibrato oscillators.
#[derive(Clone, Copy, Debug, PartialEq, Eq, Default, Structural)]
pub struct Lfo {
    /// Operator samples since the last vibrato step, modulo 1024.
    pub samples: u32,
    pub tremolo_phase: u32,
    pub vibrato_phase: u32,
}

impl Lfo {
    pub open spec fn power_on() -> Self {
        Lfo { samples: 0, tremolo_phase: 0, vibrato_phase: 0 }
    }

    pub open spec fn wf(self) -> bool {
        &&& self.samples < 1024
        &&& self.tremolo_phase < TREMOLO_STEPS
        &&& self.vibrato_phase < VIBRATO_STEPS
    }

    /// One operator sample: tremolo steps every 64th and vibrato every 1024th,
    /// or both on every one when `fast`; `hold` pins both at zero.
    pub open spec fn sampled(self, hold: bool, fast: bool) -> Self {
        let samples = ((self.samples + 1) % 1024) as u32;
        if hold {
            Lfo { samples: 0, tremolo_phase: 0, vibrato_phase: 0 }
        } else {
            Lfo {
                samples,
                tremolo_phase: if fast || samples % 64 == 0 {
                    ((self.tremolo_phase + 1) % (TREMOLO_STEPS as int)) as u32
                } else {
                    self.tremolo_phase
                },
                vibrato_phase: if fast || samples == 0 {
                    ((self.vibrato_phase + 1) % (VIBRATO_STEPS as int)) as u32
                } else {
                    self.vibrato_phase
                },
            }
        }
    }

    pub fn tick(&mut self, hold: bool, fast: bool)
        requires
            old(self).wf(),
        ensures
            *final(self) == old(self).sampled(hold, fast),
            final(self).wf(),
    {
        if hold {
            self.samples = 0;
            self.tremolo_phase = 0;
            self.vibrato_phase = 0;
            return ;
        }
        self.samples = (self.samples + 1) % 1024;
        if fast || self.samples % 64 == 0 {
            self.tremolo_phase = (self.tremolo_phase + 1) % TREMOLO_STEPS;
        }
        if fast || self.samples == 0 {
            self.vibrato_phase = (self.vibrato_phase + 1) % VIBRATO_STEPS;
        }
    }

    /// The audio reset clears the tremolo and leaves the vibrato alone.
    pub fn audio_reset(&mut self)
        ensures
            *final(self) == (Lfo { tremolo_phase: 0, ..*old(self) }),
    {
        self.tremolo_phase = 0;
    }

    /// Whether the fields are within their ranges.
    pub fn is_well_formed(&self) -> (r: bool)
        ensures
            r == self.wf(),
    {
        self.samples < 1024 && self.tremolo_phase < TREMOLO_STEPS && self.vibrato_phase
            < VIBRATO_STEPS
    }
}

/// What an operator envelope has been programmed with.
#[derive(Clone, Copy, Debug, PartialEq, Eq, Default, Structural)]
pub struct OpllEnvelope {
    pub attack_rate: u8,
    pub decay_rate: u8,
    pub sustain_level: u8,
    pub release_rate: u8,
    /// The modulator sustain bit keeps its envelope from releasing.
    pub release_disabled: bool,
    /// Key rate scaling.
    pub ksr: bool,
    /// Rate offset that the pitch adds.
    pub rks: u8,
}

/// One operator of a voice.
#[derive(Clone, Copy, Debug, PartialEq, Eq, Default, Structural)]
pub struct OpllOperator {
    pub env: OpllEnvelope,
}

/// One voice: pitch, key, instrument, volume and its two operators.
#[derive(Clone, Copy, Debug, PartialEq, Eq, Default, Structural)]
pub struct OpllChannel {
    pub fnum: u16,
    pub block: u8,
    pub key_on: bool,
    pub volume: u8,
    pub patch: Vrc7Patch,
    pub modulator: OpllOperator,
    pub carrier: OpllOperator,
}

/// Rate offset for a pitch: `2 * block + fnum bit 8` with key rate scaling,
/// half the block without.
pub open spec fn rate_offset(ksr: bool, block: u8, fnum: u16) -> u8 {
    if ksr {
        (2 * (block % 8) + (fnum / 256) % 2) as u8
    } else {
        (block % 8) / 2
    }
}

fn rate_offset_for(ksr: bool, block: u8, fnum: u16) -> (r: u8)
    ensures
        r == rate_offset(ksr, block, fnum),
{
    if ksr {
        2 * (block % 8) + ((fnum / 256) % 2) as u8
    } else {
        (block % 8) / 2
    }
}

impl OpllEnvelope {
    pub open spec fn power_on() -> Self {
        OpllEnvelope {
            attack_rate: 0,
            decay_rate: 0,
            sustain_level: 0,
            release_rate: 0,
            release_disabled: false,
            ksr: false,
            rks: 0,
        }
    }
}

impl OpllChannel {
    pub open spec fn power_on() -> Self {
        OpllChannel {
            fnum: 0,
            block: 0,
            key_on: false,
            volume: 0,
            patch: Vrc7Patch::decoded(Seq::new(8, |i: int| 0u8)),
            modulator: OpllOperator { env: OpllEnvelope::power_on() },
            carrier: OpllOperator { env: OpllEnvelope::power_on() },
        }
    }

    /// Both rate offsets recomputed for the current pitch.
    pub open spec fn with_rks(self) -> Self {
        OpllChannel {
            modulator: OpllOperator {
                env: OpllEnvelope {
                    rks: rate_offset(self.modulator.env.ksr, self.block, self.fnum),
                    ..self.modulator.env
                },
            },
            carrier: OpllOperator {
                env: OpllEnvelope {
                    rks: rate_offset(self.carrier.env.ksr, self.block, self.fnum),
                    ..self.carrier.env
                },
            },
            ..self
        }
    }

    /// The voice with an instrument and a volume loaded.
    pub open spec fn with_patch(self, p: Vrc7Patch, volume: u8) -> Self {
        (OpllChannel {
            volume,
            patch: p,
            modulator: OpllOperator {
                env: OpllEnvelope {
                    attack_rate: p.mod_attack,
                    decay_rate: p.mod_decay,
                    sustain_level: p.mod_sustain_level,
                    release_rate: p.mod_release,
                    release_disabled: p.mod_sustain,
                    ksr: p.mod_ksr,
                    rks: 0,
                },
            },
            carrier: OpllOperator {
                env: OpllEnvelope {
                    attack_rate: p.car_attack,
                    decay_rate: p.car_decay,
                    sustain_level: p.car_sustain_level,
                    release_rate: p.car_release,
                    release_disabled: false,
                    ksr: p.car_ksr,
                    rks: 0,
                },
            },
            ..self
        }).with_rks()
    }

    /// The channel sustain bit makes both operators release at rate 5;
    /// without it they release as the instrument says.
    pub open spec fn with_sustain(self, on: bool, p: Vrc7Patch) -> Self {
        OpllChannel {
            modulator: OpllOperator {
                env: OpllEnvelope {
                    release_rate: if on { 5 } else { p.mod_release },
                    ..self.modulator.env
                },
            },
            carrier: OpllOperator {
                env: OpllEnvelope {
                    release_rate: if on { 5 } else { p.car_release },
                    ..self.carrier.env
                },
            },
            ..self
        }
    }

    pub fn new() -> (r: Self)
        ensures
            r == Self::power_on(),
    {
        let env = OpllEnvelope {
            attack_rate: 0,
            decay_rate: 0,
            sustain_level: 0,
            release_rate: 0,
            release_disabled: false,
            ksr: false,
            rks: 0,
        };
        let zero: [u8; 8] = [0u8; 8];
        assert(zero@ =~= Seq::new(8, |i: int| 0u8));
        OpllChannel {
            fnum: 0,
            block: 0,
            key_on: false,
            volume: 0,
            patch: Vrc7Patch::from_bytes(&zero),
            modulator: OpllOperator { env },
            carrier: OpllOperator { env },
        }
    }

    /// Recompute both rate offsets after a change of pitch.
    pub fn refresh_rks(&mut self)
        ensures
            *final(self) == old(self).with_rks(),
    {
        self.modulator.env.rks = rate_offset_for(self.modulator.env.ksr, self.block, self.fnum);
        self.carrier.env.rks = rate_offset_for(self.carrier.env.ksr, self.block, self.fnum);
    }

    /// Load an instrument and a volume.
    pub fn load_patch(&mut self, p: &Vrc7Patch, volume: u8)
        ensures
            *final(self) == old(self).with_patch(*p, volume),
    {
        self.volume = volume;
        self.patch = *p;
        self.modulator.env = OpllEnvelope {
            attack_rate: p.mod_attack,
            decay_rate: p.mod_decay,
            sustain_level: p.mod_sustain_level,
            release_rate: p.mod_release,
            release_disabled: p.mod_sustain,
            ksr: p.mod_ksr,
            rks: 0,
        };
        self.carrier.env = OpllEnvelope {
            attack_rate: p.car_attack,
            decay_rate: p.car_decay,
            sustain_level: p.car_sustain_level,
            release_rate: p.car_release,
            release_disabled: false,
            ksr: p.car_ksr,
            rks: 0,
        };
        self.refresh_rks();
    }

    /// Apply or lift the channel sustain override.
    pub fn set_channel_sustain_override(&mut self, on: bool, p: &Vrc7Patch)
        ensures
            *final(self) == old(self).with_sustain(on, *p),
    {
        self.modulator.env.release_rate = if on { 5 } else { p.mod_release };
        self.carrier.env.release_rate = if on { 5 } else { p.car_release };
    }

    pub fn trigger_key_on(&mut self)
        ensures
            *final(self) == (OpllChannel { key_on: true, ..*old(self) }),
    {
        self.key_on = true;
    }

    pub fn trigger_key_off(&mut self)
        ensures
            *final(self) == (OpllChannel { key_on: false, ..*old(self) }),
    {
        self.key_on = false;
    }
}

} // verus!
