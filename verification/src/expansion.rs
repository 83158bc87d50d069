//! All expansion chips together. Only the chips that a tune names take part.
use vstd::prelude::*;
pub use crate::fds::Fds;
use crate::header::ExpansionChips;
pub use crate::mmc5::Mmc5;
pub use crate::n163::N163;
pub use crate::s5b::Sunsoft5b;
pub use crate::vrc6::Vrc6;
pub use crate::vrc7::Vrc7;

verus! {

/// The six chips.
#[derive(Debug, PartialEq, Eq)]
pub struct Expansion {
    pub flags: ExpansionChips,
    pub vrc6: Vrc6,
    pub vrc7: Vrc7,
    pub mmc5: Mmc5,
    pub n163: N163,
    pub s5b: Sunsoft5b,
    pub fds: Fds,
}

/// What the chips put out, each in its own units; `None` for a chip that is
/// off.
#[derive(Clone, Copy, Debug, PartialEq, Eq)]
pub struct ExpansionLevels {
    pub vrc6: Option<u32>,
    pub vrc7: Option<i32>,
    pub mmc5: Option<(i32, i32)>,
    pub n163: Option<(i32, u8)>,
    pub s5b: Option<u32>,
    pub fds: Option<(i32, u8, u8)>,
}

impl Expansion {
    /// State after power-on: every chip is off.
    pub open spec fn power_on(self) -> bool {
        &&& self.flags == ExpansionChips(0)
        &&& self.vrc6.power_on()
        &&& self.vrc7.power_on()
        &&& self.mmc5.power_on()
        &&& self.n163.power_on()
        &&& self.s5b.power_on()
        &&& self.fds.power_on()
    }

    #[verifier::opaque]
    pub open spec fn wf(self) -> bool {
        &&& self.vrc6.wf()
        &&& self.vrc7.wf()
        &&& self.mmc5.wf()
        &&& self.n163.wf()
        &&& self.s5b.wf()
        &&& self.fds.wf()
    }

    /// The chips that `flags` names are on, the others off.
    pub open spec fn with_flags(self, flags: ExpansionChips) -> Self {
        Expansion {
            flags,
            vrc6: Vrc6 { enabled: flags.0 & 0x01 != 0, ..self.vrc6 },
            vrc7: Vrc7 { enabled: flags.0 & 0x02 != 0, ..self.vrc7 },
            mmc5: Mmc5 { enabled: flags.0 & 0x08 != 0, ..self.mmc5 },
            n163: N163 { enabled: flags.0 & 0x10 != 0, ..self.n163 },
            s5b: Sunsoft5b { enabled: flags.0 & 0x20 != 0, ..self.s5b },
            fds: Fds { enabled: flags.0 & 0x04 != 0, ..self.fds },
        }
    }

    /// State after `n` CPU cycles: each chip that is on moves on its own.
    pub open spec fn ticked(self, n: nat) -> Self {
        Expansion {
            vrc6: if self.vrc6.enabled { self.vrc6.ticked(n) } else { self.vrc6 },
            vrc7: if self.vrc7.enabled { self.vrc7.ticked(n) } else { self.vrc7 },
            mmc5: if self.mmc5.enabled { self.mmc5.ticked(n) } else { self.mmc5 },
            n163: if self.n163.enabled { self.n163.ticked(n) } else { self.n163 },
            s5b: if self.s5b.enabled { self.s5b.ticked(n) } else { self.s5b },
            fds: if self.fds.enabled { self.fds.ticked(n) } else { self.fds },
            ..self
        }
    }

    /// Whether the register that a write at `addr` goes to exists: the selected
    /// address is within the chip.
    pub open spec fn takes_write(self, addr: u16) -> bool {
        &&& self.n163.enabled && 0x4800 <= addr <= 0x4FFF ==> self.n163.addr <= 0x7F
        &&& self.vrc7.enabled && addr == 0x9030 && !self.vrc7.audio_reset_held ==> self.vrc7.addr
            <= 0x3F
    }

    /// Whether the register that a read of `addr` goes to exists.
    pub open spec fn takes_read(self, addr: u16) -> bool {
        &&& self.n163.enabled && 0x4800 <= addr <= 0x4FFF ==> self.n163.addr <= 0x7F
        &&& self.fds.enabled && addr == 0x4096 ==> self.fds.wave_pos < 64
    }

    /// State after the CPU writes `value` at `addr`: every chip that is on
    /// sees the write.
    pub open spec fn written(self, addr: u16, value: u8) -> Self {
        Expansion {
            vrc6: if self.vrc6.enabled { self.vrc6.written(addr, value) } else { self.vrc6 },
            vrc7: if self.vrc7.enabled { self.vrc7.written(addr, value) } else { self.vrc7 },
            mmc5: if self.mmc5.enabled { self.mmc5.written(addr, value) } else { self.mmc5 },
            n163: if self.n163.enabled { self.n163.written(addr, value) } else { self.n163 },
            s5b: if self.s5b.enabled { self.s5b.written(addr, value) } else { self.s5b },
            fds: if self.fds.enabled { self.fds.written(addr, value) } else { self.fds },
            ..self
        }
    }

    /// Whether the MMC5 answers a read of `addr`.
    pub open spec fn mmc5_answers(self, addr: u16) -> bool {
        self.mmc5.enabled && self.mmc5.read_value(addr) != 0xFF
    }

    /// Whether the N163 answers a read of `addr`.
    pub open spec fn n163_answers(self, addr: u16) -> bool {
        self.n163.enabled && self.n163.read_value(addr) != 0xFF
    }

    /// Byte that the CPU reads at `addr`: the first chip, in the order MMC5,
    /// N163, FDS, with anything but open bus.
    pub open spec fn read_value(self, addr: u16) -> u8 {
        if self.mmc5_answers(addr) {
            self.mmc5.read_value(addr)
        } else if self.n163_answers(addr) {
            self.n163.read_value(addr)
        } else if self.fds.enabled {
            self.fds.read_value(addr)
        } else {
            0xFF
        }
    }

    /// State after the CPU reads `addr`: a chip that was asked sees the read.
    pub open spec fn after_read(self, addr: u16) -> Self {
        Expansion {
            mmc5: if self.mmc5.enabled { self.mmc5.after_read(addr) } else { self.mmc5 },
            n163: if self.n163.enabled && !self.mmc5_answers(addr) {
                self.n163.after_read(addr)
            } else {
                self.n163
            },
            ..self
        }
    }

    /// Whether a chip that is on asserts the interrupt line.
    pub open spec fn irq_asserted(self) -> bool {
        self.mmc5.enabled && self.mmc5.irq_asserted()
    }

    /// State after the CPU has read `byte` from program memory at `addr`.
    pub open spec fn observed(self, addr: u16, byte: u8) -> Self {
        if 0x8000 <= addr <= 0xBFFF {
            Expansion { mmc5: self.mmc5.observed(byte), ..self }
        } else {
            self
        }
    }

    /// Chips within their ranges take every access.
    pub proof fn lemma_takes_all(self, addr: u16)
        requires
            self.wf(),
        ensures
            self.takes_write(addr),
            self.takes_read(addr),
    {
        reveal(Expansion::wf);
    }

    pub fn new() -> (r: Self)
        ensures
            r.power_on(),
            r.wf(),
    {
        reveal(Expansion::wf);
        Expansion {
            flags: ExpansionChips(0),
            vrc6: Vrc6::new(),
            vrc7: Vrc7::new(),
            mmc5: Mmc5::new(),
            n163: N163::new(),
            s5b: Sunsoft5b::new(),
            fds: Fds::new(),
        }
    }

    /// Switch on the chips that `flags` names, and off the others.
    #[verifier::spinoff_prover]
    #[verifier::rlimit(60)]
    pub fn set_flags(&mut self, flags: ExpansionChips)
        ensures
            *final(self) == old(self).with_flags(flags),
            old(self).wf() ==> final(self).wf(),
    {
        reveal(Expansion::wf);
        self.flags = flags;
        self.vrc6.enabled = flags.vrc6();
        self.vrc7.enabled = flags.vrc7();
        self.mmc5.enabled = flags.mmc5();
        self.n163.enabled = flags.n163();
        self.s5b.enabled = flags.s5b();
        self.fds.enabled = flags.fds();
    }

    /// Advance the chips by `cycles` CPU cycles.
    pub fn tick(&mut self, cycles: u32)
        requires
            old(self).wf(),
        ensures
            *final(self) == old(self).ticked(cycles as nat),
            final(self).wf(),
    {
        reveal(Expansion::wf);
        if self.vrc6.enabled {
            self.vrc6.tick(cycles);
        }
        if self.vrc7.enabled {
            self.vrc7.tick(cycles);
        }
        if self.mmc5.enabled {
            self.mmc5.tick(cycles);
        }
        if self.s5b.enabled {
            self.s5b.tick(cycles);
        }
        if self.fds.enabled {
            self.fds.tick(cycles);
        }
        if self.n163.enabled {
            self.n163.tick(cycles);
        }
    }

    pub fn write(&mut self, addr: u16, value: u8)
        requires
            old(self).takes_write(addr),
        ensures
            *final(self) == old(self).written(addr, value),
            old(self).wf() ==> final(self).wf(),
    {
        reveal(Expansion::wf);
        if self.vrc6.enabled {
            self.vrc6.write(addr, value);
        }
        if self.vrc7.enabled {
            self.vrc7.write(addr, value);
        }
        if self.mmc5.enabled {
            self.mmc5.write(addr, value);
        }
        if self.n163.enabled {
            self.n163.write(addr, value);
        }
        if self.s5b.enabled {
            self.s5b.write(addr, value);
        }
        if self.fds.enabled {
            self.fds.write(addr, value);
        }
    }

    pub fn read(&mut self, addr: u16) -> (r: u8)
        requires
            old(self).takes_read(addr),
        ensures
            r == old(self).read_value(addr),
            *final(self) == old(self).after_read(addr),
            old(self).wf() ==> final(self).wf(),
    {
        reveal(Expansion::wf);
        if self.mmc5.enabled {
            let v: u8 = self.mmc5.read(addr);
            if v != 0xFF {
                return v;
            }
        }
        if self.n163.enabled {
            let v: u8 = self.n163.read(addr);
            if v != 0xFF {
                return v;
            }
        }
        if self.fds.enabled {
            return self.fds.read(addr);
        }
        0xFF
    }

    /// Whether a chip that is on asserts the interrupt line.
    pub fn irq_line(&self) -> (r: bool)
        ensures
            r == self.irq_asserted(),
    {
        self.mmc5.enabled && self.mmc5.irq_line()
    }

    /// Hook for CPU reads of program memory.
    pub fn observe_prg_read(&mut self, addr: u16, byte: u8)
        ensures
            *final(self) == old(self).observed(addr, byte),
            old(self).wf() ==> final(self).wf(),
    {
        reveal(Expansion::wf);
        if 0x8000 <= addr && addr <= 0xBFFF {
            self.mmc5.observe_prg_read(byte);
        }
    }

    /// What the chips that are on put out.
    pub fn output(&self) -> (r: ExpansionLevels)
        requires
            self.wf(),
        ensures
            r.vrc6 == (if self.vrc6.enabled {
                Some(
                    (self.vrc6.pulse[0].level() + self.vrc6.pulse[1].level()
                        + self.vrc6.saw.level()) as u32,
                )
            } else {
                None
            }),
            r.vrc7 == (if self.vrc7.enabled { Some(self.vrc7.latched_output) } else { None }),
            r.mmc5 == (if self.mmc5.enabled {
                Some(
                    (
                        (-(self.mmc5.pulse[0].level() + self.mmc5.pulse[1].level())) as i32,
                        (255 - 2 * self.mmc5.pcm) as i32,
                    ),
                )
            } else {
                None
            }),
            r.n163 == (if !self.n163.enabled {
                None
            } else if self.n163.channels_active == 0 || self.n163.sound_disabled {
                Some((0i32, 1u8))
            } else {
                Some((self.n163.held_sum(0) as i32, self.n163.channels_active))
            }),
            r.s5b == (if self.s5b.enabled {
                Some(
                    (self.s5b.amplitude(0) + self.s5b.amplitude(1) + self.s5b.amplitude(2))
                        as u32,
                )
            } else {
                None
            }),
            r.fds == (if self.fds.enabled {
                Some(
                    (
                        (self.fds.wave[self.fds.wave_pos as int] - 32) as i32,
                        if self.fds.volume < 32 {
                            self.fds.volume
                        } else {
                            32
                        },
                        if self.fds.master_volume_div < 3 {
                            (self.fds.master_volume_div + 1) as u8
                        } else {
                            4
                        },
                    ),
                )
            } else {
                None
            }),
    {
        reveal(Expansion::wf);
        ExpansionLevels {
            vrc6: if self.vrc6.enabled {
                Some(self.vrc6.output())
            } else {
                None
            },
            vrc7: if self.vrc7.enabled {
                Some(self.vrc7.output())
            } else {
                None
            },
            mmc5: if self.mmc5.enabled {
                Some(self.mmc5.output())
            } else {
                None
            },
            n163: if self.n163.enabled {
                Some(self.n163.output())
            } else {
                None
            },
            s5b: if self.s5b.enabled {
                Some(self.s5b.output())
            } else {
                None
            },
            fds: if self.fds.enabled {
                Some(self.fds.output())
            } else {
                None
            },
        }
    }

    /// A chip that is off stays as it is, whatever is written or however much
    /// time passes.
    pub proof fn lemma_chips_that_are_off(self, addr: u16, value: u8, n: nat)
        ensures
            !self.vrc6.enabled ==> self.written(addr, value).vrc6 == self.vrc6 && self.ticked(
                n,
            ).vrc6 == self.vrc6,
            !self.vrc7.enabled ==> self.written(addr, value).vrc7 == self.vrc7 && self.ticked(
                n,
            ).vrc7 == self.vrc7,
            !self.mmc5.enabled ==> self.written(addr, value).mmc5 == self.mmc5 && self.ticked(
                n,
            ).mmc5 == self.mmc5,
            !self.n163.enabled ==> self.written(addr, value).n163 == self.n163 && self.ticked(
                n,
            ).n163 == self.n163,
            !self.s5b.enabled ==> self.written(addr, value).s5b == self.s5b && self.ticked(n).s5b
                == self.s5b,
            !self.fds.enabled ==> self.written(addr, value).fds == self.fds && self.ticked(n).fds
                == self.fds,
    {
    }

    /// Time does not switch chips on or off.
    proof fn lemma_enables_kept(self, n: nat)
        ensures
            self.vrc6.ticked(n).enabled == self.vrc6.enabled,
            self.vrc7.ticked(n).enabled == self.vrc7.enabled,
            self.mmc5.ticked(n).enabled == self.mmc5.enabled,
            self.n163.ticked(n).enabled == self.n163.enabled,
            self.s5b.ticked(n).enabled == self.s5b.enabled,
            self.fds.ticked(n).enabled == self.fds.enabled,
        decreases n,
    {
        reveal(Fds::cycle);
        if n > 0 {
            self.lemma_enables_kept((n - 1) as nat);
        }
    }

    /// No time, no change.
    pub proof fn lemma_no_time(self)
        ensures
            self.ticked(0) == self,
    {
    }

    /// The state after a stretch of time does not depend on how the time is
    /// cut into batches.
    pub proof fn lemma_ticks_split(self, a: nat, b: nat)
        ensures
            self.ticked(a + b) == self.ticked(a).ticked(b),
    {
        self.lemma_enables_kept(a);
        self.vrc6.lemma_ticks_split(a, b);
        self.vrc7.lemma_ticks_split(a, b);
        self.mmc5.lemma_ticks_split(a, b);
        self.n163.lemma_ticks_split(a, b);
        self.s5b.lemma_ticks_split(a, b);
        self.fds.lemma_ticks_split(a, b);
    }

    /// Whether the fields are within their ranges.
    pub fn is_well_formed(&self) -> (r: bool)
        ensures
            r == self.wf(),
    {
        reveal(Expansion::wf);
        self.vrc6.is_well_formed() && self.vrc7.is_well_formed() && self.mmc5.is_well_formed()
            && self.n163.is_well_formed() && self.s5b.is_well_formed() && self.fds.is_well_formed()
    }
}

impl Default for Expansion {
    fn default() -> (r: Self)
        ensures
            r.power_on(),
    {
        Self::new()
    }
}

} // verus!
