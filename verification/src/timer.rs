//! The NSF2 interrupt timer at `$401B` to `$401D`.
//!
//! While it is active the counter goes down by one every CPU cycle. When it
//! passes zero the interrupt flag is set and the counter starts over from the
//! reload value, so a reload value of N gives an interrupt every N + 1 cycles.
//! While it is inactive the counter is held at the reload value.
use vstd::prelude::*;

verus! {

#[derive(Clone, Copy, Debug, PartialEq, Eq, Structural)]
pub struct Nsf2IrqTimer {
    /// The tune uses the timer.
    pub enabled: bool,
    /// Low byte at `$401B`, high byte at `$401C`.
    pub reload: u16,
    pub counter: i32,
    /// Bit 0 of `$401D`.
    pub active: bool,
    /// Set when the counter passes zero, cleared by a read of `$401D`.
    pub irq_flag: bool,
}

impl Nsf2IrqTimer {
    pub open spec fn power_on() -> Self {
        Nsf2IrqTimer { enabled: false, reload: 0, counter: 0, active: false, irq_flag: false }
    }

    pub open spec fn wf(self) -> bool {
        0 <= self.counter <= 0xFFFF
    }

    /// A new reload value; the counter follows it while it is held.
    pub open spec fn with_reload(self, reload: u16) -> Self {
        Nsf2IrqTimer {
            reload,
            counter: if self.active { self.counter } else { reload as i32 },
            ..self
        }
    }

    /// State after a write. Activation finds the counter at the reload value,
    /// and a switch to inactive puts it back there.
    pub open spec fn written(self, addr: u16, value: u8) -> Self {
        if !self.enabled {
            self
        } else if addr == 0x401B {
            self.with_reload((self.reload & 0xFF00) | value as u16)
        } else if addr == 0x401C {
            self.with_reload((self.reload & 0x00FF) | ((value as u16) << 8))
        } else if addr == 0x401D {
            let active = value & 0x01 != 0;
            Nsf2IrqTimer {
                active,
                counter: if active && self.active { self.counter } else { self.reload as i32 },
                ..self
            }
        } else {
            self
        }
    }

    /// Byte that a read returns, if the timer answers at all.
    pub open spec fn read_value(self, addr: u16) -> Option<u8> {
        if !self.enabled {
            None
        } else if addr == 0x401B {
            Some((self.reload & 0x00FF) as u8)
        } else if addr == 0x401C {
            Some((self.reload >> 8) as u8)
        } else if addr == 0x401D {
            Some(
                (if self.irq_flag { 0x80u8 } else { 0u8 }) | (if self.active { 0x01u8 } else {
                    0u8
                }),
            )
        } else {
            None
        }
    }

    /// State after a read: `$401D` clears the flag that it returns.
    pub open spec fn after_read(self, addr: u16) -> Self {
        if self.enabled && addr == 0x401D {
            Nsf2IrqTimer { irq_flag: false, ..self }
        } else {
            self
        }
    }

    /// One CPU cycle of the active counter.
    pub open spec fn counted(self) -> Self {
        if self.counter - 1 < 0 {
            Nsf2IrqTimer { counter: self.reload as i32, irq_flag: true, ..self }
        } else {
            Nsf2IrqTimer { counter: (self.counter - 1) as i32, ..self }
        }
    }

    /// `n` CPU cycles of the active counter.
    pub open spec fn counted_down(self, n: nat) -> Self
        decreases n,
    {
        if n == 0 {
            self
        } else {
            self.counted_down((n - 1) as nat).counted()
        }
    }

    /// State after `n` CPU cycles.
    pub open spec fn ticked(self, n: nat) -> Self {
        if !self.enabled {
            self
        } else if !self.active {
            Nsf2IrqTimer { counter: self.reload as i32, ..self }
        } else {
            self.counted_down(n)
        }
    }

    pub fn new() -> (r: Self)
        ensures
            r == Self::power_on(),
            r.wf(),
    {
        Nsf2IrqTimer { enabled: false, reload: 0, counter: 0, active: false, irq_flag: false }
    }

    /// Switch the timer on or off.
    pub fn set_enabled(&mut self, on: bool)
        ensures
            *final(self) == (Nsf2IrqTimer { enabled: on, ..*old(self) }),
            old(self).wf() ==> final(self).wf(),
    {
        self.enabled = on;
    }

    pub fn write(&mut self, addr: u16, value: u8)
        ensures
            *final(self) == old(self).written(addr, value),
            old(self).wf() ==> final(self).wf(),
    {
        if !self.enabled {
            return ;
        }
        if addr == 0x401B {
            self.set_reload((self.reload & 0xFF00) | value as u16);
        } else if addr == 0x401C {
            self.set_reload((self.reload & 0x00FF) | ((value as u16) << 8));
        } else if addr == 0x401D {
            let was = self.active;
            self.active = value & 0x01 != 0;
            if !self.active || !was {
                self.counter = self.reload as i32;
            }
        }
    }

    fn set_reload(&mut self, reload: u16)
        ensures
            *final(self) == old(self).with_reload(reload),
    {
        self.reload = reload;
        if !self.active {
            self.counter = reload as i32;
        }
    }

    pub fn read(&mut self, addr: u16) -> (r: Option<u8>)
        ensures
            r == old(self).read_value(addr),
            *final(self) == old(self).after_read(addr),
            old(self).wf() ==> final(self).wf(),
    {
        if !self.enabled {
            return None;
        }
        if addr == 0x401B {
            Some((self.reload & 0x00FF) as u8)
        } else if addr == 0x401C {
            Some((self.reload >> 8) as u8)
        } else if addr == 0x401D {
            let flag: u8 = if self.irq_flag { 0x80 } else { 0 };
            let active: u8 = if self.active { 0x01 } else { 0 };
            self.irq_flag = false;
            Some(flag | active)
        } else {
            None
        }
    }

    /// Advance the timer by `cycles` CPU cycles.
    pub fn tick(&mut self, cycles: u32)
        requires
            old(self).wf(),
        ensures
            *final(self) == old(self).ticked(cycles as nat),
            final(self).wf(),
    {
        if !self.enabled {
            return ;
        }
        if !self.active {
            self.counter = self.reload as i32;
            return ;
        }
        for i in 0..cycles
            invariant
                self.wf(),
                *self == old(self).counted_down(i as nat),
        {
            self.counter = self.counter - 1;
            if self.counter < 0 {
                self.irq_flag = true;
                self.counter = self.reload as i32;
            }
        }
    }

    /// Whether the timer asserts the CPU interrupt line.
    pub fn irq_line(&self) -> (r: bool)
        ensures
            r == (self.enabled && self.irq_flag),
    {
        self.enabled && self.irq_flag
    }

    /// The counter goes down by one a cycle as long as it has not reached
    /// zero, and sets no flag on the way.
    proof fn lemma_counts_down(self, n: nat)
        requires
            n <= self.counter,
        ensures
            self.counted_down(n) == (Nsf2IrqTimer { counter: (self.counter - n) as i32, ..self }),
        decreases n,
    {
        if n > 0 {
            self.lemma_counts_down((n - 1) as nat);
        }
    }

    /// An active timer that starts from its reload value N leaves the flag
    /// alone for N cycles, sets it in the next one, and is then back where it
    /// started: the interrupt comes every N + 1 cycles.
    pub proof fn lemma_period(self, n: nat)
        requires
            self.enabled,
            self.active,
            self.counter == self.reload,
            n <= self.reload,
        ensures
            self.ticked(n).irq_flag == self.irq_flag,
            self.ticked((self.reload + 1) as nat) == (Nsf2IrqTimer { irq_flag: true, ..self }),
    {
        self.lemma_counts_down(n);
        self.lemma_counts_down(self.reload as nat);
    }

    /// The counter of an inactive timer is held at the reload value.
    pub open spec fn held(self) -> bool {
        !self.active ==> self.counter == self.reload
    }

    /// Whatever is written, read or waited for, an inactive timer is held.
    pub proof fn lemma_inactive_timer_is_held(self, addr: u16, value: u8, n: nat)
        requires
            self.held(),
        ensures
            Self::power_on().held(),
            self.written(addr, value).held(),
            self.after_read(addr).held(),
            self.ticked(n).held(),
    {
        self.lemma_keeps_switches(n);
    }

    /// After its activation with a reload value N the timer leaves the flag
    /// alone for N cycles and sets it in the next one.
    pub proof fn lemma_first_interrupt(self, value: u8, n: nat)
        requires
            self.enabled,
            !self.active,
            value & 0x01 != 0,
            n <= self.reload,
        ensures
            self.written(0x401D, value).ticked(n).irq_flag == self.irq_flag,
            self.written(0x401D, value).ticked((self.reload + 1) as nat).irq_flag,
    {
        self.written(0x401D, value).lemma_period(n);
    }

    /// The state does not depend on how the time is cut into batches.
    pub proof fn lemma_ticks_split(self, a: nat, b: nat)
        ensures
            self.ticked(a + b) == self.ticked(a).ticked(b),
    {
        if self.enabled && self.active {
            self.lemma_counted_split(a, b);
            self.lemma_keeps_switches(a);
        }
    }

    proof fn lemma_counted_split(self, a: nat, b: nat)
        ensures
            self.counted_down(a + b) == self.counted_down(a).counted_down(b),
        decreases b,
    {
        if b > 0 {
            self.lemma_counted_split(a, (b - 1) as nat);
            assert((a + b - 1) as nat == a + (b - 1) as nat);
        }
    }

    proof fn lemma_keeps_switches(self, n: nat)
        ensures
            self.counted_down(n).enabled == self.enabled,
            self.counted_down(n).active == self.active,
        decreases n,
    {
        if n > 0 {
            self.lemma_keeps_switches((n - 1) as nat);
        }
    }
}

impl Default for Nsf2IrqTimer {
    fn default() -> (r: Self)
        ensures
            r == Nsf2IrqTimer::power_on(),
    {
        Self::new()
    }
}

} // verus!
