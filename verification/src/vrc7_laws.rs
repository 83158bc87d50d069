//! What the registers of the VRC7 tell its voices, and when samples come.
use vstd::prelude::*;
use crate::opll::{Lfo, OpllChannel, TestRegister, Vrc7Patch};
use crate::vrc7::{Vrc7, Vrc7Chan};

verus! {

/// The eight bytes of an instrument: for modulator and carrier tremolo,
/// vibrato, sustain, rate scaling and multiplier; level scaling and level of
/// the modulator; level scaling of the carrier, the two waveforms and the
/// feedback; then attack and decay, and sustain level and release, of both.
#[verifier::spinoff_prover]
pub proof fn lemma_patch_bytes(b: Seq<u8>)
    requires
        b.len() == 8,
    ensures
        Vrc7Patch::decoded(b) == (Vrc7Patch {
            mod_tremolo: b[0] >= 128,
            mod_vibrato: b[0] / 64 % 2 == 1,
            mod_sustain: b[0] / 32 % 2 == 1,
            mod_ksr: b[0] / 16 % 2 == 1,
            mod_mult: b[0] % 16,
            car_tremolo: b[1] >= 128,
            car_vibrato: b[1] / 64 % 2 == 1,
            car_sustain: b[1] / 32 % 2 == 1,
            car_ksr: b[1] / 16 % 2 == 1,
            car_mult: b[1] % 16,
            mod_ksl: b[2] / 64,
            mod_tl: b[2] % 64,
            car_ksl: b[3] / 64,
            car_wave: b[3] / 16 % 2,
            mod_wave: b[3] / 8 % 2,
            feedback: b[3] % 8,
            mod_attack: b[4] / 16,
            mod_decay: b[4] % 16,
            car_attack: b[5] / 16,
            car_decay: b[5] % 16,
            mod_sustain_level: b[6] / 16,
            mod_release: b[6] % 16,
            car_sustain_level: b[7] / 16,
            car_release: b[7] % 16,
        }),
{
    crate::bits::lemma_byte_bits(b[0]);
    crate::bits::lemma_byte_bits(b[1]);
    crate::bits::lemma_byte_bits(b[2]);
    crate::bits::lemma_byte_bits(b[3]);
    crate::bits::lemma_byte_bits(b[4]);
    crate::bits::lemma_byte_bits(b[5]);
    crate::bits::lemma_byte_bits(b[6]);
    crate::bits::lemma_byte_bits(b[7]);
}

/// The bits of the test register.
pub proof fn lemma_test_register(v: u8)
    ensures
        TestRegister::decoded(v) == (TestRegister {
            envs_zero: v % 2 == 1,
            hold_lfo: v / 2 % 2 == 1,
            hold_phase: v / 4 % 2 == 1,
            fast_lfo: v / 8 % 2 == 1,
        }),
{
    crate::bits::lemma_byte_bits(v);
}

/// The three registers of a channel: the low byte of the pitch; its ninth bit,
/// the octave, the key and the sustain; the instrument and the attenuation.
pub proof fn lemma_channel_bytes(r1: u8, r2: u8, r3: u8)
    ensures
        Vrc7Chan::decoded(r1, r2, r3) == (Vrc7Chan {
            fnum: (r1 + 0x100 * (r2 % 2)) as u16,
            block: r2 / 2 % 8,
            key_on: r2 / 16 % 2 == 1,
            sustain: r2 / 32 % 2 == 1,
            patch_index: r3 / 16,
            volume: r3 % 16,
        }),
{
    crate::bits::lemma_byte_bits(r2);
    crate::bits::lemma_byte_bits(r3);
    crate::bits::lemma_word_bits(0, r1, r2);
}

/// A voice plays what its channel says.
pub open spec fn follows(v: OpllChannel, c: Vrc7Chan) -> bool {
    &&& v.fnum == c.fnum && v.block == c.block
    &&& v.key_on == c.key_on
    &&& v.volume == c.volume
}

proof fn lemma_voice_follows(
    v: OpllChannel,
    was: Vrc7Chan,
    now: Vrc7Chan,
    p: Vrc7Patch,
    reloaded: bool,
)
    requires
        follows(v, was),
    ensures
        follows(crate::vrc7::voice_told(v, was, now, p, reloaded), now),
        was.patch_index != now.patch_index ==> crate::vrc7::voice_told(
            v,
            was,
            now,
            p,
            reloaded,
        ).patch == p,
        was.patch_index == now.patch_index && was.volume == now.volume && !reloaded
            ==> crate::vrc7::voice_told(v, was, now, p, reloaded).patch == v.patch,
{
}

impl Vrc7 {
    #[verifier::spinoff_prover]
    proof fn lemma_refreshed(self, n: nat, user: bool)
        requires
            n <= 6,
            forall|ch: int|
                0 <= ch < 6 ==> follows(#[trigger] self.opll_channels[ch], self.channels[ch]),
        ensures
            ({
                let s = self.refreshed(n, user);
                &&& s == (Vrc7 { channels: s.channels, opll_channels: s.opll_channels, ..self })
                &&& forall|ch: int|
                    0 <= ch < 6 ==> follows(#[trigger] s.opll_channels[ch], s.channels[ch])
                &&& forall|ch: int|
                    0 <= ch < n ==> #[trigger] s.channels[ch] == Vrc7Chan::decoded(
                        self.regs[0x10 + ch],
                        self.regs[0x20 + ch],
                        self.regs[0x30 + ch],
                    )
                &&& forall|ch: int| n <= ch < 6 ==> #[trigger] s.channels[ch] == self.channels[ch]
            }),
        decreases n,
    {
        if n > 0 {
            let k = (n - 1) as nat;
            self.lemma_refreshed(k, user);
            let t = self.refreshed(k, user);
            let now = Vrc7Chan::decoded(
                self.regs[0x10 + k as int],
                self.regs[0x20 + k as int],
                self.regs[0x30 + k as int],
            );
            lemma_voice_follows(
                t.opll_channels[k as int],
                t.channels[k as int],
                now,
                t.patch_of(now.patch_index),
                user && now.patch_index == 0,
            );
        }
    }

    /// A register is written through the two ports: its number to `$9010`, its
    /// value to `$9030`. Every channel then is what its three registers say,
    /// at `$10`, `$20` and `$30` plus its number, and every voice follows its
    /// channel.
    #[verifier::spinoff_prover]
    pub proof fn lemma_ports(self, reg: u8, value: u8)
        requires
            !self.audio_reset_held,
            reg < 0x40,
            forall|ch: int|
                0 <= ch < 6 ==> follows(#[trigger] self.opll_channels[ch], self.channels[ch]),
        ensures
            ({
                let s = self.written(0x9010, reg).written(0x9030, value);
                &&& s.regs@ == self.regs@.update(reg as int, value)
                &&& forall|ch: int|
                    0 <= ch < 6 ==> #[trigger] s.channels[ch] == Vrc7Chan::decoded(
                        s.regs[0x10 + ch],
                        s.regs[0x20 + ch],
                        s.regs[0x30 + ch],
                    )
                &&& forall|ch: int|
                    0 <= ch < 6 ==> follows(#[trigger] s.opll_channels[ch], s.channels[ch])
                &&& s.test_register == (if reg == 0x0F {
                    TestRegister::decoded(value)
                } else {
                    self.test_register
                })
            }),
    {
        crate::bits::lemma_byte_bits(reg);
        let t = self.written(0x9010, reg);
        let u = Vrc7 {
            regs: crate::bits::put(t.regs, reg as int, value),
            test_register: if reg == 0x0F { TestRegister::decoded(value) } else {
                t.test_register
            },
            ..t
        };
        u.lemma_refreshed(6, reg <= 0x07);
        assert(u.regs@ =~= self.regs@.update(reg as int, value));
    }

    /// A write of `$E000` with bit 6 set silences the chip and clears its
    /// registers; while it is held no register can be written.
    #[verifier::spinoff_prover]
    pub proof fn lemma_reset(self, value: u8, other: u8)
        requires
            value / 64 % 2 == 1,
            !self.audio_reset_held,
        ensures
            ({
                let s = self.written(0xE000, value);
                &&& s.audio_reset_held && s.latched_output == 0 && s.samples_due == 0
                &&& forall|i: int| 0 <= i < 0x40 ==> #[trigger] s.regs[i] == 0
                &&& forall|ch: int| 0 <= ch < 6 ==> !(#[trigger] s.channels[ch]).key_on
                &&& s.written(0x9010, other) == s && s.written(0x9030, other) == s
                &&& s.cycle() == s
                &&& other / 64 % 2 == 0 ==> !s.written(0xE000, other).audio_reset_held
            }),
    {
        crate::bits::lemma_byte_bits(value);
        crate::bits::lemma_byte_bits(other);
    }

    /// Operator samples come every 9215 / 256 CPU cycles.
    pub proof fn lemma_sample_rate(self, n: nat)
        requires
            !self.audio_reset_held,
            self.op_cycles_q8 < 9215,
            self.samples_due + (self.op_cycles_q8 + 256 * n) / 9215 <= u32::MAX,
        ensures
            self.ticked(n).op_cycles_q8 == (self.op_cycles_q8 + 256 * n) % 9215,
            self.ticked(n).samples_due == self.samples_due + (self.op_cycles_q8 + 256 * n) / 9215,
            !self.ticked(n).audio_reset_held,
            self.ticked(n).regs == self.regs,
        decreases n,
    {
        if n > 0 {
            self.lemma_sample_rate((n - 1) as nat);
        }
    }

    /// The instrument in slot 0 is the one in the first eight registers.
    pub proof fn lemma_custom_instrument(self)
        ensures
            self.patch_of(0) == Vrc7Patch::decoded(self.regs@.subrange(0, 8)),
            self.patch_override matches Some(table) ==> forall|i: u8|
                1 <= i < 16 ==> #[trigger] self.patch_of(i) == Vrc7Patch::decoded(table[i as int]@),
    {
    }
}

impl Lfo {
    /// The oscillators after `n` samples.
    pub open spec fn after(self, n: nat) -> Self
        decreases n,
    {
        if n == 0 { self } else { self.after((n - 1) as nat).sampled(false, false) }
    }

    /// Tremolo goes through 210 steps of 64 samples, vibrato through eight of
    /// 1024.
    #[verifier::spinoff_prover]
    pub proof fn lemma_oscillators(self, n: nat)
        requires
            self.samples == 0,
            self.tremolo_phase < 210,
            self.vibrato_phase < 8,
        ensures
            self.after(n).samples == n % 1024,
            self.after(n).tremolo_phase == (self.tremolo_phase + n / 64) % 210,
            self.after(n).vibrato_phase == (self.vibrato_phase + n / 1024) % 8,
        decreases n,
    {
        if n > 0 {
            let k = (n - 1) as nat;
            self.lemma_oscillators(k);
            assert(n % 1024 == (k % 1024 + 1) % 1024);
            assert(n % 1024 % 64 == n % 64);
            if n % 64 == 0 {
                assert(n / 64 == k / 64 + 1);
            } else {
                assert(n / 64 == k / 64);
            }
            if n % 1024 == 0 {
                assert(n / 1024 == k / 1024 + 1);
            } else {
                assert(n / 1024 == k / 1024);
            }
        }
    }

    /// The test register can hold both oscillators at zero, or step both at
    /// every sample.
    pub proof fn lemma_test_modes(self)
        ensures
            self.sampled(true, false) == (Lfo { samples: 0, tremolo_phase: 0, vibrato_phase: 0 }),
            self.sampled(false, true).tremolo_phase == (self.tremolo_phase + 1) % 210,
            self.sampled(false, true).vibrato_phase == (self.vibrato_phase + 1) % 8,
    {
    }
}

impl OpllChannel {
    /// An instrument programs both envelopes; with the sustain of the channel
    /// both release at rate 5.
    pub proof fn lemma_instrument_loads(self, p: Vrc7Patch, volume: u8)
        ensures
            ({
                let v = self.with_patch(p, volume);
                let s = v.with_sustain(true, p);
                &&& v.volume == volume && v.patch == p
                &&& v.modulator.env.attack_rate == p.mod_attack
                &&& v.modulator.env.decay_rate == p.mod_decay
                &&& v.modulator.env.sustain_level == p.mod_sustain_level
                &&& v.modulator.env.release_rate == p.mod_release
                &&& v.carrier.env.attack_rate == p.car_attack
                &&& v.carrier.env.decay_rate == p.car_decay
                &&& v.carrier.env.sustain_level == p.car_sustain_level
                &&& v.carrier.env.release_rate == p.car_release
                &&& p.mod_ksr && self.block < 8 ==> v.modulator.env.rks == 2 * self.block
                    + self.fnum as int / 256 % 2
                &&& !p.mod_ksr && self.block < 8 ==> v.modulator.env.rks == self.block as int / 2
                &&& s.modulator.env.release_rate == 5 && s.carrier.env.release_rate == 5
                &&& s.with_sustain(false, p) == v
            }),
    {
    }
}

} // verus!
