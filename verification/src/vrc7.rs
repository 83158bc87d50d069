//! Konami VRC7: six FM voices behind an address port (`$9010`) and a data
//! port (`$9030`).
use vstd::prelude::*;
use crate::opll::{Lfo, OpllChannel, RhythmRegister, TestRegister, Vrc7Patch};

verus! {

/// Operator sample period in 256ths of a CPU cycle: 1.789773 MHz over
/// 49.7163 kHz.
pub const OP_CYCLES_Q8: u32 = 9215;

/// The instruments of the VRC7; slot 0 is the programmable one.
pub const VRC7_INSTRUMENT_ROM: [[u8; 8]; 16] = [
    [0x00, 0x00, 0x00, 0x00, 0x00, 0x00, 0x00, 0x00],
    [0x03, 0x21, 0x05, 0x06, 0xE8, 0x81, 0x42, 0x27],
    [0x13, 0x41, 0x14, 0x0D, 0xD8, 0xF6, 0x23, 0x12],
    [0x11, 0x11, 0x08, 0x08, 0xFA, 0xB2, 0x20, 0x12],
    [0x31, 0x61, 0x0C, 0x07, 0xA8, 0x64, 0x61, 0x27],
    [0x32, 0x21, 0x1E, 0x06, 0xE1, 0x76, 0x01, 0x28],
    [0x02, 0x01, 0x06, 0x00, 0xA3, 0xE2, 0xF4, 0xF4],
    [0x21, 0x61, 0x1D, 0x07, 0x82, 0x81, 0x11, 0x07],
    [0x23, 0x21, 0x22, 0x17, 0xA2, 0x72, 0x01, 0x17],
    [0x35, 0x11, 0x25, 0x00, 0x40, 0x73, 0x72, 0x01],
    [0xB5, 0x01, 0x0F, 0x0F, 0xA8, 0xA5, 0x51, 0x02],
    [0x17, 0xC1, 0x24, 0x07, 0xF8, 0xF8, 0x22, 0x12],
    [0x71, 0x23, 0x11, 0x06, 0x65, 0x74, 0x18, 0x16],
    [0x01, 0x02, 0xD3, 0x05, 0xC9, 0x95, 0x03, 0x02],
    [0x61, 0x63, 0x0C, 0x00, 0x94, 0xC0, 0x33, 0xF6],
    [0x21, 0x72, 0x0D, 0x00, 0xC1, 0xD5, 0x56, 0x06],
];

/// The three drum instruments in the ROM (bass drum; snare and hi-hat; tom and
/// cymbal), which the chip cannot play.
pub const VRC7_RHYTHM_ROM: [[u8; 8]; 3] = [
    [0x01, 0x01, 0x18, 0x0F, 0xDF, 0xF8, 0x6A, 0x6D],
    [0x01, 0x01, 0x00, 0x00, 0xC8, 0xD8, 0xA7, 0x68],
    [0x05, 0x01, 0x00, 0x00, 0xF8, 0xAA, 0x59, 0x55],
];

/// The instruments of the YM2413; slot 0 is the programmable one.
pub const YM2413_INSTRUMENT_ROM: [[u8; 8]; 16] = [
    [0x00, 0x00, 0x00, 0x00, 0x00, 0x00, 0x00, 0x00],
    [0x71, 0x61, 0x1E, 0x17, 0xD0, 0x78, 0x00, 0x17],
    [0x13, 0x41, 0x1A, 0x0D, 0xD8, 0xF7, 0x23, 0x13],
    [0x13, 0x01, 0x99, 0x00, 0xF2, 0xC4, 0x11, 0x23],
    [0x31, 0x61, 0x0E, 0x07, 0xA8, 0x64, 0x70, 0x27],
    [0x32, 0x21, 0x1E, 0x06, 0xE0, 0x76, 0x00, 0x28],
    [0x31, 0x22, 0x16, 0x05, 0xE0, 0x71, 0x00, 0x18],
    [0x21, 0x61, 0x1D, 0x07, 0x82, 0x81, 0x10, 0x07],
    [0x23, 0x21, 0x2D, 0x14, 0xA2, 0x72, 0x00, 0x07],
    [0x61, 0x61, 0x1B, 0x06, 0x64, 0x65, 0x10, 0x17],
    [0x41, 0x61, 0x0B, 0x18, 0x85, 0xF7, 0x71, 0x07],
    [0x13, 0x01, 0x83, 0x11, 0xFA, 0xE4, 0x10, 0x04],
    [0x17, 0xC1, 0x24, 0x07, 0xF8, 0xF8, 0x22, 0x12],
    [0x61, 0x50, 0x0C, 0x05, 0xC2, 0xF5, 0x20, 0x42],
    [0x01, 0x01, 0x55, 0x03, 0xC9, 0x95, 0x03, 0x02],
    [0x61, 0x41, 0x89, 0x03, 0xF1, 0xE4, 0x40, 0x13],
];

/// Fields of the channel registers.
#[derive(Clone, Copy, Debug, PartialEq, Eq, Default, Structural)]
pub struct Vrc7Chan {
    pub fnum: u16,
    pub block: u8,
    pub key_on: bool,
    /// Attenuation: 0 is loudest.
    pub volume: u8,
    /// `$2X` bit 5.
    pub sustain: bool,
    /// Instrument slot; 0 is the programmable one.
    pub patch_index: u8,
}

/// The whole chip, up to the waveforms of the operators.
#[derive(Debug, PartialEq, Eq)]
pub struct Vrc7 {
    pub enabled: bool,
    pub addr: u8,
    pub regs: [u8; 0x40],
    pub channels: [Vrc7Chan; 6],
    /// What each voice has been told to play.
    pub opll_channels: [OpllChannel; 6],
    /// Time towards the next operator sample, in 256ths of a CPU cycle.
    pub op_cycles_q8: u32,
    /// Operator samples that have come due and were not taken yet.
    pub samples_due: u32,
    /// Last operator sample.
    pub latched_output: i32,
    pub test_register: TestRegister,
    /// `$E000` bit 6.
    pub audio_reset_held: bool,
    /// The default instruments are those of the YM2413.
    pub ym2413_variant: bool,
    /// Instruments that replace the default ones.
    pub patch_override: Option<[[u8; 8]; 16]>,
    pub lfo: Lfo,
}

impl Vrc7Chan {
    pub open spec fn power_on() -> Self {
        Vrc7Chan { fnum: 0, block: 0, key_on: false, volume: 0, sustain: false, patch_index: 0 }
    }

    /// The three registers of a channel, decoded.
    pub open spec fn decoded(r1: u8, r2: u8, r3: u8) -> Self {
        Vrc7Chan {
            fnum: (r1 as u16) | (((r2 & 0x01) as u16) << 8),
            block: (r2 >> 1) & 0x07,
            key_on: r2 & 0x10 != 0,
            sustain: r2 & 0x20 != 0,
            patch_index: (r3 >> 4) & 0x0F,
            volume: r3 & 0x0F,
        }
    }
}

/// What a voice is told when the registers of its channel go from `was` to
/// `now`. `p` is the instrument of the slot that is now selected; `reloaded`
/// says that its bytes were just rewritten.
pub open spec fn voice_told(
    v: OpllChannel,
    was: Vrc7Chan,
    now: Vrc7Chan,
    p: Vrc7Patch,
    reloaded: bool,
) -> OpllChannel {
    let swapped = was.patch_index != now.patch_index || was.volume != now.volume;
    let pitched = OpllChannel { fnum: now.fnum, block: now.block, ..v };
    let loaded = if swapped || reloaded {
        let fresh = pitched.with_patch(p, now.volume);
        if now.sustain { fresh.with_sustain(true, p) } else { fresh }
    } else if was.sustain != now.sustain {
        pitched.with_sustain(now.sustain, p)
    } else {
        pitched
    };
    let scaled = if (v.fnum != now.fnum || v.block != now.block) && !swapped {
        loaded.with_rks()
    } else {
        loaded
    };
    if was.key_on != now.key_on {
        OpllChannel { key_on: now.key_on, ..scaled }
    } else {
        scaled
    }
}

impl Vrc7 {
    /// State after power-on.
    pub open spec fn power_on(self) -> bool {
        &&& !self.enabled
        &&& self.addr == 0
        &&& self.regs@ == Seq::new(0x40, |i: int| 0u8)
        &&& self.channels@ == Seq::new(6, |i: int| Vrc7Chan::power_on())
        &&& self.opll_channels@ == Seq::new(6, |i: int| OpllChannel::power_on())
        &&& self.op_cycles_q8 == 0 && self.samples_due == 0
        &&& self.latched_output == 0
        &&& self.test_register == TestRegister::decoded(0)
        &&& !self.audio_reset_held
        &&& !self.ym2413_variant
        &&& self.patch_override is None
        &&& self.lfo == Lfo::power_on()
    }

    pub open spec fn wf(self) -> bool {
        &&& self.addr <= 0x3F
        &&& self.op_cycles_q8 < OP_CYCLES_Q8
        &&& self.lfo.wf()
        &&& self.audio_reset_held ==> self.latched_output == 0 && self.samples_due == 0
    }

    /// Instrument in slot `index` modulo 16: the programmable one in slot 0,
    /// else the replacement if there is one, else the default.
    pub open spec fn patch_of(self, index: u8) -> Vrc7Patch {
        let i = (index % 16) as int;
        if i == 0 {
            Vrc7Patch::decoded(self.regs@.subrange(0, 8))
        } else {
            match self.patch_override {
                Some(table) => Vrc7Patch::decoded(table[i]@),
                None => if self.ym2413_variant {
                    Vrc7Patch::decoded(YM2413_INSTRUMENT_ROM[i]@)
                } else {
                    Vrc7Patch::decoded(VRC7_INSTRUMENT_ROM[i]@)
                },
            }
        }
    }

    /// Channel `ch` brought in line with the registers.
    pub open spec fn channel_refreshed(self, ch: int, user_patch_write: bool) -> Self {
        let now = Vrc7Chan::decoded(
            self.regs[0x10 + ch],
            self.regs[0x20 + ch],
            self.regs[0x30 + ch],
        );
        let voice = voice_told(
            self.opll_channels[ch],
            self.channels[ch],
            now,
            self.patch_of(now.patch_index),
            user_patch_write && now.patch_index == 0,
        );
        Vrc7 {
            channels: crate::bits::put(self.channels, ch, now),
            opll_channels: crate::bits::put(self.opll_channels, ch, voice),
            ..self
        }
    }

    /// The first `n` channels brought in line with the registers.
    pub open spec fn refreshed(self, n: nat, user_patch_write: bool) -> Self
        decreases n,
    {
        if n == 0 {
            self
        } else {
            self.refreshed((n - 1) as nat, user_patch_write).channel_refreshed(
                n - 1,
                user_patch_write,
            )
        }
    }

    /// State after a write of `$E000`: a rising edge of bit 6 clears
    /// everything but the vibrato phase and the instrument tables. Samples
    /// that were due do not come any more.
    pub open spec fn reset_written(self, value: u8) -> Self {
        let now = value & 0x40 != 0;
        if now && !self.audio_reset_held {
            Vrc7 {
                audio_reset_held: true,
                regs: crate::bits::fill(0u8),
                channels: crate::bits::fill(Vrc7Chan::power_on()),
                opll_channels: crate::bits::fill(OpllChannel::power_on()),
                latched_output: 0,
                op_cycles_q8: 0,
                samples_due: 0,
                test_register: TestRegister::decoded(0),
                lfo: Lfo { tremolo_phase: 0, ..self.lfo },
                ..self
            }
        } else {
            Vrc7 { audio_reset_held: now, ..self }
        }
    }

    /// State after `value` reaches the selected internal register.
    pub open spec fn register_written(self, value: u8) -> Self {
        let s = Vrc7 {
            regs: crate::bits::put(self.regs, self.addr as int, value),
            test_register: if self.addr == 0x0F {
                TestRegister::decoded(value)
            } else {
                self.test_register
            },
            ..self
        };
        s.refreshed(6, self.addr <= 0x07)
    }

    /// State after the CPU writes `value` at `addr`.
    pub open spec fn written(self, addr: u16, value: u8) -> Self {
        if addr == 0xE000 {
            self.reset_written(value)
        } else if addr == 0x9010 && !self.audio_reset_held {
            Vrc7 { addr: value & 0x3F, ..self }
        } else if addr == 0x9030 && !self.audio_reset_held {
            self.register_written(value)
        } else {
            self
        }
    }

    /// Whether the next CPU cycle brings an operator sample.
    pub open spec fn sample_next(self) -> bool {
        !self.audio_reset_held && self.op_cycles_q8 + 256 >= OP_CYCLES_Q8
    }

    /// One CPU cycle: time passes towards the next operator sample, which
    /// steps the slow oscillators when it comes.
    pub open spec fn cycle(self) -> Self {
        if self.audio_reset_held {
            self
        } else if self.op_cycles_q8 + 256 >= OP_CYCLES_Q8 {
            Vrc7 {
                op_cycles_q8: (self.op_cycles_q8 + 256 - OP_CYCLES_Q8) as u32,
                lfo: self.lfo.sampled(self.test_register.hold_lfo, self.test_register.fast_lfo),
                samples_due: self.samples_due.saturating_add(1),
                ..self
            }
        } else {
            Vrc7 { op_cycles_q8: (self.op_cycles_q8 + 256) as u32, ..self }
        }
    }

    /// State after `n` CPU cycles.
    pub open spec fn ticked(self, n: nat) -> Self
        decreases n,
    {
        if n == 0 {
            self
        } else {
            self.ticked((n - 1) as nat).cycle()
        }
    }

    pub fn new() -> (r: Self)
        ensures
            r.power_on(),
            r.wf(),
    {
        let chan = Vrc7Chan {
            fnum: 0,
            block: 0,
            key_on: false,
            volume: 0,
            sustain: false,
            patch_index: 0,
        };
        let voice = OpllChannel::new();
        let r = Vrc7 {
            enabled: false,
            addr: 0,
            regs: [0u8; 0x40],
            channels: [chan; 6],
            opll_channels: [voice; 6],
            op_cycles_q8: 0,
            samples_due: 0,
            latched_output: 0,
            test_register: TestRegister::from_byte(0),
            audio_reset_held: false,
            ym2413_variant: false,
            patch_override: None,
            lfo: Lfo { samples: 0, tremolo_phase: 0, vibrato_phase: 0 },
        };
        assert(r.regs@ =~= Seq::new(0x40, |i: int| 0u8));
        assert(r.channels@ =~= Seq::new(6, |i: int| Vrc7Chan::power_on()));
        assert(r.opll_channels@ =~= Seq::new(6, |i: int| OpllChannel::power_on()));
        r
    }

    pub fn write(&mut self, addr: u16, value: u8)
        requires
            addr == 0x9030 && !old(self).audio_reset_held ==> old(self).addr <= 0x3F,
        ensures
            *final(self) == old(self).written(addr, value),
            old(self).wf() ==> final(self).wf(),
    {
        proof {
            crate::bits::lemma_byte_fields(value);
        }
        if addr == 0xE000 {
            let now = value & 0x40 != 0;
            let was = self.audio_reset_held;
            self.audio_reset_held = now;
            if now && !was {
                let chan = Vrc7Chan {
                    fnum: 0,
                    block: 0,
                    key_on: false,
                    volume: 0,
                    sustain: false,
                    patch_index: 0,
                };
                let voice = OpllChannel::new();
                self.regs = [0u8; 0x40];
                self.channels = [chan; 6];
                self.opll_channels = [voice; 6];
                self.latched_output = 0;
                self.op_cycles_q8 = 0;
                self.samples_due = 0;
                self.test_register = TestRegister::from_byte(0);
                self.lfo.audio_reset();
            }
        } else if addr == 0x9010 {
            if !self.audio_reset_held {
                self.addr = value & 0x3F;
            }
        } else if addr == 0x9030 {
            if !self.audio_reset_held {
                let a: usize = self.addr as usize;
                self.regs[a] = value;
                if a == 0x0F {
                    self.test_register = TestRegister::from_byte(value);
                }
                self.refresh_from_regs(a <= 0x07);
            }
        }
    }

    /// Bring all six channels in line with the registers.
    pub fn refresh_from_regs(&mut self, user_patch_write: bool)
        ensures
            *final(self) == old(self).refreshed(6, user_patch_write),
            old(self).wf() ==> final(self).wf(),
    {
        for ch in 0..6usize
            invariant
                *self == old(self).refreshed(ch as nat, user_patch_write),
                old(self).wf() ==> self.wf(),
        {
            self.refresh_channel(ch, user_patch_write);
        }
    }

    fn refresh_channel(&mut self, ch: usize, user_patch_write: bool)
        requires
            ch < 6,
        ensures
            *final(self) == old(self).channel_refreshed(ch as int, user_patch_write),
    {
        let r1: u8 = self.regs[0x10 + ch];
        let r2: u8 = self.regs[0x20 + ch];
        let r3: u8 = self.regs[0x30 + ch];
        let now = Vrc7Chan {
            fnum: (r1 as u16) | (((r2 & 0x01) as u16) << 8),
            block: (r2 >> 1) & 0x07,
            key_on: r2 & 0x10 != 0,
            sustain: r2 & 0x20 != 0,
            patch_index: (r3 >> 4) & 0x0F,
            volume: r3 & 0x0F,
        };
        let was = self.channels[ch];
        let p = self.patch(now.patch_index);
        self.channels[ch] = now;
        let mut voice = self.opll_channels[ch];
        Self::tell_voice(&mut voice, &was, &now, &p, user_patch_write && now.patch_index == 0);
        self.opll_channels[ch] = voice;
    }

    fn tell_voice(
        voice: &mut OpllChannel,
        was: &Vrc7Chan,
        now: &Vrc7Chan,
        p: &Vrc7Patch,
        user_patch_reload: bool,
    )
        ensures
            *final(voice) == voice_told(*old(voice), *was, *now, *p, user_patch_reload),
    {
        let patch_changed = was.patch_index != now.patch_index;
        let volume_changed = was.volume != now.volume;
        let sustain_changed = was.sustain != now.sustain;
        let pitch_changed = voice.fnum != now.fnum || voice.block != now.block;
        voice.fnum = now.fnum;
        voice.block = now.block;
        if patch_changed || volume_changed || user_patch_reload {
            voice.load_patch(p, now.volume);
            if now.sustain {
                voice.set_channel_sustain_override(true, p);
            }
        } else if sustain_changed {
            voice.set_channel_sustain_override(now.sustain, p);
        }
        if pitch_changed && !(patch_changed || volume_changed) {
            voice.refresh_rks();
        }
        if !was.key_on && now.key_on {
            voice.trigger_key_on();
        } else if was.key_on && !now.key_on {
            voice.trigger_key_off();
        }
    }

    /// Instrument in slot `index` modulo 16.
    pub fn patch(&self, index: u8) -> (p: Vrc7Patch)
        ensures
            p == self.patch_of(index),
    {
        let i: usize = (index % 16) as usize;
        if i == 0 {
            let b: [u8; 8] = [
                self.regs[0],
                self.regs[1],
                self.regs[2],
                self.regs[3],
                self.regs[4],
                self.regs[5],
                self.regs[6],
                self.regs[7],
            ];
            assert(b@ =~= self.regs@.subrange(0, 8));
            return Vrc7Patch::from_bytes(&b);
        }
        match &self.patch_override {
            Some(table) => Vrc7Patch::from_bytes(&table[i]),
            None => if self.ym2413_variant {
                Vrc7Patch::from_bytes(&YM2413_INSTRUMENT_ROM[i])
            } else {
                Vrc7Patch::from_bytes(&VRC7_INSTRUMENT_ROM[i])
            },
        }
    }

    /// Apply an NSFe `VRC7` chunk: the device picks the default instruments,
    /// and 128 or more bytes replace them; what follows byte 128 belongs to
    /// drums that the chip does not have.
    pub fn apply_nsfe_chunk(&mut self, device: u8, patches: Option<&[u8]>)
        ensures
            ({
                let s = Vrc7 { ym2413_variant: device == 1, ..*old(self) };
                match patches {
                    Some(bytes) if bytes@.len() >= 128 => {
                        &&& final(self).patch_override matches Some(table)
                        &&& *final(self) == (Vrc7 { patch_override: Some(table), ..s })
                        &&& forall|i: int, j: int|
                            0 <= i < 16 && 0 <= j < 8 ==> #[trigger] table[i][j] == bytes@[i * 8
                                + j]
                    },
                    _ => *final(self) == s,
                }
            }),
    {
        self.ym2413_variant = device == 1;
        if let Some(bytes) = patches {
            if bytes.len() >= 128 {
                let mut table: [[u8; 8]; 16] = [[0u8; 8]; 16];
                for i in 0..16usize
                    invariant
                        bytes@.len() >= 128,
                        forall|k: int, j: int|
                            0 <= k < i && 0 <= j < 8 ==> #[trigger] table[k][j] == bytes@[k * 8
                                + j],
                {
                    let o: usize = i * 8;
                    table[i] = [
                        bytes[o],
                        bytes[o + 1],
                        bytes[o + 2],
                        bytes[o + 3],
                        bytes[o + 4],
                        bytes[o + 5],
                        bytes[o + 6],
                        bytes[o + 7],
                    ];
                }
                self.patch_override = Some(table);
            }
        }
    }

    /// Instrument that channel `ch` has selected.
    pub fn active_patch(&self, ch: usize) -> (p: Vrc7Patch)
        requires
            ch < 6,
        ensures
            p == self.patch_of(self.channels[ch as int].patch_index),
    {
        self.patch(self.channels[ch].patch_index)
    }

    /// Effective rhythm state, whatever was written to `$0E`: the mode reads
    /// as on, and no drum is ever keyed.
    pub fn rhythm_control(&self) -> (r: RhythmRegister)
        ensures
            r == (RhythmRegister {
                rhythm_mode: true,
                bd: false,
                sd: false,
                tom: false,
                t_cy: false,
                hh: false,
            }),
    {
        RhythmRegister {
            rhythm_mode: true,
            bd: false,
            sd: false,
            tom: false,
            t_cy: false,
            hh: false,
        }
    }

    /// Advance the chip by `cycles` CPU cycles.
    pub fn tick(&mut self, cycles: u32)
        requires
            old(self).wf(),
        ensures
            *final(self) == old(self).ticked(cycles as nat),
            final(self).wf(),
    {
        if self.audio_reset_held {
            proof {
                self.lemma_reset_chip_stands_still(cycles as nat);
            }
            return ;
        }
        for i in 0..cycles
            invariant
                *self == old(self).ticked(i as nat),
                self.wf(),
                !self.audio_reset_held,
        {
            self.tick_one();
        }
    }

    /// One CPU cycle; returns whether it brought an operator sample.
    fn tick_one(&mut self) -> (due: bool)
        requires
            old(self).wf(),
            !old(self).audio_reset_held,
        ensures
            due == old(self).sample_next(),
            *final(self) == old(self).cycle(),
            final(self).wf(),
            !final(self).audio_reset_held,
    {
        self.op_cycles_q8 = self.op_cycles_q8 + 256;
        if self.op_cycles_q8 >= OP_CYCLES_Q8 {
            self.op_cycles_q8 = self.op_cycles_q8 - OP_CYCLES_Q8;
            self.lfo.tick(self.test_register.hold_lfo, self.test_register.fast_lfo);
            self.samples_due = self.samples_due.saturating_add(1);
            return true;
        }
        false
    }

    /// Advance the chip up to the next operator sample, for at most `cycles`
    /// CPU cycles. Returns the cycles that are left behind the sample, or
    /// nothing if none came due. The slow oscillators are then where that
    /// sample needs them; [`Vrc7::latch_sample`] takes the answer to it.
    pub fn tick_to_sample(&mut self, cycles: u32) -> (left: Option<u32>)
        requires
            old(self).wf(),
        ensures
            match left {
                Some(l) => {
                    &&& l < cycles
                    &&& *final(self) == old(self).ticked((cycles - l) as nat)
                    &&& old(self).ticked((cycles - l - 1) as nat).sample_next()
                    &&& forall|k: nat|
                        k < cycles - l - 1 ==> !(#[trigger] old(self).ticked(k)).sample_next()
                },
                None => {
                    &&& *final(self) == old(self).ticked(cycles as nat)
                    &&& forall|k: nat|
                        k < cycles ==> !(#[trigger] old(self).ticked(k)).sample_next()
                },
            },
            final(self).wf(),
    {
        if self.audio_reset_held {
            proof {
                self.lemma_reset_chip_stands_still(cycles as nat);
                assert forall|k: nat| k < cycles implies !(#[trigger] old(self).ticked(
                    k,
                )).sample_next() by {
                    old(self).lemma_reset_chip_stands_still(k);
                }
            }
            return None;
        }
        for i in 0..cycles
            invariant
                *self == old(self).ticked(i as nat),
                self.wf(),
                !self.audio_reset_held,
                forall|k: nat| k < i ==> !(#[trigger] old(self).ticked(k)).sample_next(),
        {
            if self.tick_one() {
                return Some(cycles - i - 1);
            }
        }
        None
    }

    /// Take the count of operator samples that have come due.
    pub fn take_due_samples(&mut self) -> (n: u32)
        ensures
            n == old(self).samples_due,
            *final(self) == (Vrc7 { samples_due: 0, ..*old(self) }),
    {
        let n: u32 = self.samples_due;
        self.samples_due = 0;
        n
    }

    /// Latch one operator sample: the saturating sum of what the sounding
    /// voices put out, and silence while the audio reset is held.
    pub fn latch_sample(&mut self, voices: [Option<i32>; 6])
        ensures
            *final(self) == (Vrc7 {
                latched_output: if old(self).audio_reset_held {
                    0
                } else {
                    voice_sum(voices@, 6)
                },
                ..*old(self)
            }),
            old(self).wf() ==> final(self).wf(),
    {
        if self.audio_reset_held {
            self.latched_output = 0;
            return ;
        }
        let mut sum: i32 = 0;
        for i in 0..6usize
            invariant
                sum == voice_sum(voices@, i as nat),
        {
            if let Some(v) = voices[i] {
                sum = clamped_sum(sum, v);
            }
        }
        self.latched_output = sum;
    }

    /// Last operator sample.
    pub fn output(&self) -> (r: i32)
        ensures
            r == self.latched_output,
    {
        self.latched_output
    }

    /// While the audio reset is held nothing moves.
    pub proof fn lemma_reset_chip_stands_still(self, n: nat)
        requires
            self.audio_reset_held,
        ensures
            self.ticked(n) == self,
        decreases n,
    {
        if n > 0 {
            self.lemma_reset_chip_stands_still((n - 1) as nat);
        }
    }

    /// The state after a stretch of time does not depend on how the time is
    /// cut into batches.
    pub proof fn lemma_ticks_split(self, a: nat, b: nat)
        ensures
            self.ticked(a + b) == self.ticked(a).ticked(b),
        decreases b,
    {
        if b > 0 {
            self.lemma_ticks_split(a, (b - 1) as nat);
            assert((a + b - 1) as nat == a + (b - 1) as nat);
        }
    }

    /// Whether the fields are within their ranges.
    pub fn is_well_formed(&self) -> (r: bool)
        ensures
            r == self.wf(),
    {
        self.addr <= 0x3F && self.op_cycles_q8 < OP_CYCLES_Q8 && self.lfo.is_well_formed() && (
        !self.audio_reset_held || (self.latched_output == 0 && self.samples_due == 0))
    }
}

/// `a + b`, kept within the range of `i32`.
pub open spec fn clamped(a: int, b: int) -> i32 {
    if a + b > i32::MAX {
        i32::MAX
    } else if a + b < i32::MIN {
        i32::MIN
    } else {
        (a + b) as i32
    }
}

/// Saturating sum of the first `n` voices; a voice that does not sound adds
/// nothing.
pub open spec fn voice_sum(voices: Seq<Option<i32>>, n: nat) -> i32
    decreases n,
{
    if n == 0 {
        0
    } else {
        let before = voice_sum(voices, (n - 1) as nat);
        match voices[n - 1] {
            Some(v) => clamped(before as int, v as int),
            None => before,
        }
    }
}

fn clamped_sum(a: i32, b: i32) -> (r: i32)
    ensures
        r == clamped(a as int, b as int),
{
    let wide: i64 = a as i64 + b as i64;
    if wide > i32::MAX as i64 {
        i32::MAX
    } else if wide < i32::MIN as i64 {
        i32::MIN
    } else {
        wide as i32
    }
}

impl Default for Vrc7 {
    fn default() -> (r: Self)
        ensures
            r.power_on(),
    {
        Self::new()
    }
}

} // verus!
