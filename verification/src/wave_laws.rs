//! What the wavetable chips play: the N163, and the wave unit and envelopes of
//! the FDS.
use vstd::prelude::*;
use crate::fds::Fds;
use crate::n163::N163;

verus! {

/// First register of channel `ch`, 1 to 8: channel 8 has the last eight bytes
/// of the sound RAM, and each one before it the eight before those.
pub open spec fn first_register(ch: int) -> int {
    0x78 - 8 * (8 - ch)
}

/// Frequency of a channel: 18 bits in three registers.
pub open spec fn frequency(ram: Seq<u8>, ch: int) -> int {
    let r = first_register(ch);
    ram[r] + 0x100 * ram[r + 2] + 0x1_0000 * (ram[r + 4] as int % 4)
}

/// Phase of a channel: 24 bits in the three registers between those.
pub open spec fn phase(ram: Seq<u8>, ch: int) -> int {
    let r = first_register(ch);
    ram[r + 1] + 0x100 * ram[r + 3] + 0x1_0000 * ram[r + 5]
}

/// Samples in the wave of a channel: 256 less four for each count in the top
/// six bits of the fifth register.
pub open spec fn wave_length(ram: Seq<u8>, ch: int) -> int {
    256 - 4 * (ram[first_register(ch) + 4] as int / 4)
}

/// Four-bit sample number `i` of the sound RAM: two to a byte, the low half
/// first.
pub open spec fn sample(ram: Seq<u8>, i: int) -> int {
    if i % 2 == 0 { ram[i / 2] as int % 16 } else { ram[i / 2] as int / 16 }
}

impl N163 {
    /// An update moves the next of the enabled channels, which are the last
    /// ones, by its frequency along its wave, keeps the new phase in the sound
    /// RAM, and puts out the sample there, centred on 8, times the volume.
    #[verifier::spinoff_prover]
    #[verifier::rlimit(60)]
    pub proof fn lemma_update(self)
        requires
            self.wf(),
            self.channels_active >= 1,
        ensures
            ({
                let ch = 9 - self.channels_active + self.next_chan_slot;
                let r = first_register(ch);
                let s = self.updated();
                let p = (phase(self.ram@, ch) + frequency(self.ram@, ch)) % (0x1_0000 * wave_length(
                    self.ram@,
                    ch,
                ));
                let i = (p / 0x1_0000 + self.ram[r + 6]) % 0x100;
                let out = (sample(s.ram@, i) - 8) * (self.ram[r + 7] as int % 16);
                &&& phase(s.ram@, ch) == p
                &&& s.last_output == out && s.chan_hold[ch - 1] == out
                &&& s.next_chan_slot == (self.next_chan_slot + 1) % (self.channels_active as int)
                &&& forall|k: int|
                    0 <= k < 0x80 && k != r + 1 && k != r + 3 && k != r + 5 ==> #[trigger] s.ram[k]
                        == self.ram[k]
                &&& forall|k: int|
                    0 <= k < 8 && k != ch - 1 ==> #[trigger] s.chan_hold[k] == self.chan_hold[k]
            }),
    {
        let ch = 9 - self.channels_active + self.next_chan_slot;
        let r = first_register(ch);
        let modulus = 0x1_0000 * wave_length(self.ram@, ch);
        let p = (phase(self.ram@, ch) + frequency(self.ram@, ch)) % modulus;
        assert(crate::n163::base_of(ch) == r);
        assert(0 <= p < 0x100_0000);
        let i = (p / 0x1_0000 + self.ram[r + 6]) % 0x100;
        let s = self.updated();
        assert(0 <= sample(s.ram@, i) <= 15);
        assert(-120 <= (sample(s.ram@, i) - 8) * (self.ram[r + 7] as int % 16) <= 105)
            by (nonlinear_arith)
            requires
                0 <= sample(s.ram@, i) <= 15,
                0 <= self.ram[r + 7] as int % 16 <= 15,
        ;
    }

    /// While the chip is on, an update comes every 15 CPU cycles.
    #[verifier::spinoff_prover]
    pub proof fn lemma_update_rate(self)
        requires
            self.wf(),
            self.enabled,
            !self.sound_disabled,
        ensures
            self.cycle_accum < 14 ==> self.cycle() == (N163 {
                cycle_accum: (self.cycle_accum + 1) as u32,
                ..self
            }),
            self.cycle_accum == 14 ==> self.cycle() == (N163 { cycle_accum: 0, ..self }).updated(),
    {
    }

    /// The ports: `$F800` and up takes the address and, in the top bit, whether
    /// it moves on with each access; `$4800` writes and reads the sound RAM
    /// there. `$E000` bit 6 switches the sound off.
    #[verifier::spinoff_prover]
    pub proof fn lemma_ports(self, select: u8, value: u8)
        ensures
            ({
                let a = select as int % 128;
                let at = self.written(0xF800, select);
                let s = at.written(0x4800, value);
                let moved = if select >= 128 && a < 127 { a + 1 } else { a };
                &&& at.addr == a && at.ram == self.ram
                &&& s.ram@ == self.ram@.update(a, value)
                &&& s.addr == moved
                &&& at.read_value(0x4800) == self.ram[a]
                &&& at.after_read(0x4800) == (N163 { addr: moved as u8, ..at })
                &&& s.channels_active == (if a == 127 {
                    value as int / 16 % 8 + 1
                } else {
                    self.channels_active as int
                })
                &&& self.written(0xE000, value).sound_disabled == (value / 64 % 2 == 1)
            }),
    {
        crate::bits::lemma_byte_bits(select);
        crate::bits::lemma_byte_bits(value);
        assert(self.written(0xF800, select).written(0x4800, value).ram@ =~= self.ram@.update(
            select as int % 128,
            value,
        ));
    }

    /// The output adds up the held samples of the enabled channels, which are
    /// the last ones.
    #[verifier::spinoff_prover]
    pub proof fn lemma_output(self)
        requires
            self.channels_active <= 8,
        ensures
            self.channels_active == 1 ==> self.held_sum(0) == self.chan_hold[7],
            self.channels_active == 2 ==> self.held_sum(0) == self.chan_hold[6] + self.chan_hold[7],
            self.channels_active == 8 ==> self.held_sum(0) == self.chan_hold[0] + self.chan_hold[1]
                + self.chan_hold[2] + self.chan_hold[3] + self.chan_hold[4] + self.chan_hold[5]
                + self.chan_hold[6] + self.chan_hold[7],
            forall|slot: int|
                0 <= slot < self.channels_active ==> #[trigger] self.held_sum(slot)
                    == self.chan_hold[8 - self.channels_active + slot] + self.held_sum(slot + 1),
    {
        reveal_with_fuel(N163::held_sum, 9);
    }
}

impl Fds {
    /// Without modulation the pitch is 64 times the frequency; the modulated
    /// one is higher by a sixteenth of the product of counter and gain for each
    /// of those, rounded up in the lower half of its range where the product is
    /// no multiple of 16.
    #[verifier::spinoff_prover]
    pub proof fn lemma_pitch(counter: int, gain: int, freq: int)
        requires
            0 <= freq < 4096,
        ensures
            ({
                let m = counter * gain;
                let pitch = crate::fds::pitch_of(counter, gain, freq);
                &&& m == 0 ==> pitch == 64 * freq
                &&& m % 16 == 0 && -1024 <= m < 3072 ==> pitch == freq * (64 + m / 16)
                &&& m % 16 != 0 && 0 <= m < 2048 ==> pitch == freq * (66 + m / 16)
                &&& m % 16 != 0 && -1024 <= m < 0 ==> pitch == freq * (64 + m / 16)
            }),
    {
        reveal(crate::fds::pitch_of);
        let m = counter * gain;
        let f = if m % 16 != 0 && 0 <= m < 2048 { 66 + m / 16 } else { 64 + m / 16 };
        assert(0 <= f < 256 ==> 0 <= freq * f < 0x10_0000) by (nonlinear_arith)
            requires
                0 <= freq < 4096,
        ;
        if m % 16 != 0 && 0 <= m < 2048 {
            assert((m + 0x20 + 0x400) / 16 == 66 + m / 16);
        } else {
            assert((m + 0x400) / 16 == 64 + m / 16);
        }
        assert(freq * 64 == 64 * freq) by (nonlinear_arith);
    }

    /// The wave unit over `n` unit ticks.
    pub open spec fn wave_run(self, n: nat) -> Self
        decreases n,
    {
        if n == 0 { self } else { self.wave_run((n - 1) as nat).wave_ticked() }
    }

    /// Without modulation the wave position is the top six bits of an
    /// accumulator of 24 that grows by 64 times the frequency every unit tick,
    /// so that a wave of 64 samples repeats after `2^18 / freq` unit ticks.
    pub proof fn lemma_wave(self, n: nat)
        requires
            self.mod_counter == 0 || self.mod_gain == 0,
            0 < self.freq < 4096,
            self.wave_acc < 0x100_0000,
            self.wave_pos == self.wave_acc / 0x4_0000,
            !self.env_fast,
        ensures
            ({
                let acc = (self.wave_acc + 64 * (n * self.freq)) % 0x100_0000;
                self.wave_run(n) == (Fds {
                    wave_acc: acc as u32,
                    wave_pos: (acc / 0x4_0000) as u8,
                    ..self
                })
            }),
        decreases n,
    {
        let f = self.freq as int;
        if n > 0 {
            let k = (n - 1) as nat;
            self.lemma_wave(k);
            assert(n * f == k * f + f) by (nonlinear_arith)
                requires
                    n == k + 1,
            ;
            let c = self.mod_counter as int;
            let g = self.mod_gain as int;
            assert(c * g == 0) by (nonlinear_arith)
                requires
                    c == 0 || g == 0,
            ;
            Fds::lemma_pitch(c, g, f);
        } else {
            assert(0 * f == 0);
        }
    }

    /// An envelope takes one step every `8 * (e + 1) * (m + 1)` CPU cycles for
    /// its speed `e` and the master speed `m`, four times as often when fast,
    /// and never for a master speed of zero.
    #[verifier::spinoff_prover]
    pub proof fn lemma_envelope_period(e: u8, m: u8)
        ensures
            crate::fds::envelope_period(e, 0, false) == 0,
            crate::fds::envelope_period(e, 0, true) == 0,
            m > 0 ==> crate::fds::envelope_period(e, m, false) == 8 * (e + 1) * (m + 1),
            4 * crate::fds::envelope_period(e, m, true) == crate::fds::envelope_period(e, m, false),
    {
        reveal(crate::fds::envelope_period);
        let x = e + 1;
        let y = m + 1;
        assert(8 * x * y == 8 * (x * y)) by (nonlinear_arith);
    }

    /// One step of an envelope: up by one, to 32 at the most, or down by one,
    /// to zero at the least.
    pub proof fn lemma_ramp(gain: u8)
        ensures
            gain < 32 ==> crate::fds::ramped(gain, true) == gain + 1,
            gain >= 32 ==> crate::fds::ramped(gain, true) == gain,
            gain > 0 ==> crate::fds::ramped(gain, false) == gain - 1,
            gain == 0 ==> crate::fds::ramped(gain, false) == 0,
    {
    }

    /// The timer of an envelope runs out once in `period` cycles.
    pub proof fn lemma_envelope_timer(timer: u32, period: u32)
        requires
            2 <= period,
            1 <= timer <= period,
        ensures
            (crate::fds::timer_fires(timer, period) <==> timer == 1),
            timer > 1 ==> crate::fds::timer_next(timer, period) == timer - 1,
            timer == 1 ==> crate::fds::timer_next(timer, period) == period,
    {
    }

    /// The frequency registers: `$4082` and `$4083` hold that of the wave,
    /// `$4086` and `$4087` that of the modulator, low byte first, 12 bits each.
    /// The top bit of `$4087` switches the modulator off, that of `$4083` makes
    /// the envelopes fast, and the bit below it halts them.
    #[verifier::spinoff_prover]
    pub proof fn lemma_frequency_registers(self, lo: u8, hi: u8)
        ensures
            ({
                let w = self.written(0x4082, lo).written(0x4083, hi);
                let m = self.written(0x4086, lo).written(0x4087, hi);
                &&& w.freq == lo + 0x100 * (hi % 16)
                &&& w.env_fast == (hi >= 128) && w.env_halt == (hi / 64 % 2 == 1)
                &&& hi < 128 ==> w.wave_acc == self.wave_acc && w.wave_pos == self.wave_pos
                &&& hi >= 128 ==> w.wave_acc == 0 && w.wave_pos == 0
                &&& m.mod_freq == lo + 0x100 * (hi % 16)
                &&& m.mod_disabled == (hi >= 128)
                &&& m.mod_acc == (if hi >= 128 { 0 } else { self.mod_acc })
                &&& m.freq == self.freq && w.mod_freq == self.mod_freq
            }),
    {
        crate::bits::lemma_byte_bits(hi);
        crate::bits::lemma_word_bits(self.freq, lo, hi);
        crate::bits::lemma_word_bits(self.mod_freq, lo, hi);
    }

    /// The other registers: `$4080` and `$4084` set an envelope, or with the
    /// top bit its gain; `$4085` the mod counter, a signed number of seven
    /// bits; `$4089` the master volume and, in the top bit, whether the wave
    /// can be written; `$408A` the master envelope speed; `$4023` bit 1 the
    /// sound.
    #[verifier::spinoff_prover]
    pub proof fn lemma_other_registers(self, v: u8)
        ensures
            ({
                let vol = self.written(0x4080, v);
                let gain = self.written(0x4084, v);
                let counter = self.written(0x4085, v).mod_counter;
                let wave = self.written(0x4089, v);
                &&& vol.vol_env_speed == v % 64 && vol.vol_env_increase == (v / 64 % 2 == 1)
                &&& vol.vol_env_disabled == (v >= 128)
                &&& v < 128 ==> vol.volume == self.volume && vol.vol_pending == self.vol_pending
                &&& v >= 128 && self.wave_pos == 0 ==> vol.volume == v % 64 && vol.vol_pending
                    is None
                &&& v >= 128 && self.wave_pos != 0 && v % 64 != 0 ==> vol.volume == self.volume
                    && vol.vol_pending == Some((v % 64) as u8)
                &&& gain.mod_env_speed == v % 64 && gain.mod_env_increase == (v / 64 % 2 == 1)
                &&& gain.mod_env_disabled == (v >= 128)
                &&& gain.mod_gain == (if v >= 128 { v % 64 } else { self.mod_gain })
                &&& -64 <= counter <= 63 && (counter - v) % 128 == 0
                &&& wave.master_volume_div == v % 4 && wave.wave_write_enable == (v >= 128)
                &&& self.written(0x408A, v).master_env_speed == v
                &&& self.written(0x4023, v).sound_enabled == (v / 2 % 2 == 1)
            }),
    {
        reveal(crate::fds::wrap7);
        crate::bits::lemma_byte_bits(v);
    }

    /// The wave RAM takes six-bit samples at `$4040` and up while it can be
    /// written, and the mod table three-bit entries at `$4088` while the
    /// modulator is off, one after another.
    #[verifier::spinoff_prover]
    pub proof fn lemma_tables(self, i: int, v: u8)
        requires
            0 <= i < 64,
            self.mod_pos < 64,
        ensures
            ({
                let s = self.written((0x4040 + i) as u16, v);
                let t = self.written(0x4088, v);
                &&& self.wave_write_enable ==> s.wave@ == self.wave@.update(i, (v % 64) as u8)
                &&& !self.wave_write_enable ==> s == self
                &&& self.mod_disabled ==> t.mod_table@ == self.mod_table@.update(
                    self.mod_pos as int / 2,
                    (v % 8) as u8,
                ) && t.mod_pos == (self.mod_pos + 2) % 64
                &&& !self.mod_disabled ==> t == self
            }),
    {
        crate::bits::lemma_byte_bits(v);
        let s = self.written((0x4040 + i) as u16, v);
        let t = self.written(0x4088, v);
        assert(self.wave_write_enable ==> s.wave@ =~= self.wave@.update(i, (v % 64) as u8));
        assert(self.mod_disabled ==> t.mod_table@ =~= self.mod_table@.update(
            self.mod_pos as int / 2,
            (v % 8) as u8,
        ));
    }

    /// Over a CPU cycle the envelopes move, and at every sixteenth one the
    /// modulator and then the wave unit.
    #[verifier::spinoff_prover]
    pub proof fn lemma_unit_rate(self)
        requires
            self.sound_enabled,
            self.cycle_acc < 16,
        ensures
            ({
                let s = self.cycle();
                let e = self.env_ticked();
                &&& self.cycle_acc < 15 ==> s == (Fds { cycle_acc: (self.cycle_acc + 1) as u32, ..e })
                &&& self.cycle_acc == 15 ==> s.cycle_acc == 0 && s.wave_acc
                    == e.mod_ticked().wave_ticked().wave_acc && s.mod_counter
                    == e.mod_ticked().mod_counter && s.wave_pos
                    == e.mod_ticked().wave_ticked().wave_pos
            }),
    {
        reveal(Fds::cycle);
    }

    /// What the CPU reads back: the two gains at `$4090` and `$4092` and the
    /// sample under the wave position at `$4096`, each below a fixed bit 6; the
    /// mod counter at `$4097` and what the current table entry adds at `$4095`.
    #[verifier::spinoff_prover]
    pub proof fn lemma_read_back(self)
        requires
            self.volume < 64,
            self.mod_gain < 64,
            self.wave_pos < 64,
            self.wave[self.wave_pos as int] < 64,
            self.mod_pos < 64,
        ensures
            self.read_value(0x4090) == 0x40 + self.volume,
            self.read_value(0x4092) == 0x40 + self.mod_gain,
            self.read_value(0x4096) == 0x40 + self.wave[self.wave_pos as int],
            self.read_value(0x4097) == self.mod_counter as int % 128,
            self.read_value(0x4091) == self.wave_acc as int / 0x1000 % 0x100,
            self.read_value(0x4093) == self.mod_acc as int / 0x20 % 0x80,
            ({
                let k = self.mod_table[self.mod_pos as int / 2] % 8;
                let shown = self.read_value(0x4095) as int;
                &&& k < 3 ==> shown == k
                &&& k == 3 ==> shown == 4
                &&& k == 4 || k == 5 ==> shown == 12
                &&& k == 6 ==> shown == 14
                &&& k == 7 ==> shown == 15
            }),
    {
        crate::bits::lemma_byte_bits(self.volume);
        crate::bits::lemma_byte_bits(self.mod_gain);
        crate::bits::lemma_byte_bits(self.wave[self.wave_pos as int]);
        crate::bits::lemma_byte_bits(self.mod_table[self.mod_pos as int / 2]);
        lemma_bit_six(self.volume);
        lemma_bit_six(self.mod_gain);
        lemma_bit_six(self.wave[self.wave_pos as int]);
    }
}

proof fn lemma_bit_six(v: u8)
    by (bit_vector)
    requires
        v < 64,
    ensures
        0x40u8 | (v & 0x3F) == (0x40u8 + v) as u8,
{
}

} // verus!
