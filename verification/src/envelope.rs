//! The volume envelope of the pulse and noise channels.
use vstd::prelude::*;

verus! {

#[derive(Clone, Copy, Debug, PartialEq, Eq, Default, Structural)]
pub struct Envelope {
    pub start: bool,
    pub loop_flag: bool,
    pub constant: bool,
    /// Constant volume, or period of the divider.
    pub volume: u8,
    /// Current decay level, 15 down to 0.
    pub decay: u8,
    pub divider: u8,
}

impl Envelope {
    pub open spec fn power_on() -> Self {
        Envelope {
            start: false,
            loop_flag: false,
            constant: false,
            volume: 0,
            decay: 0,
            divider: 0,
        }
    }

    pub open spec fn wf(self) -> bool {
        &&& self.volume <= 15
        &&& self.decay <= 15
    }

    /// Effect of a control register (`--LC VVVV`).
    pub open spec fn with_control(self, value: u8) -> Self {
        Envelope {
            loop_flag: value & 0x20 != 0,
            constant: value & 0x10 != 0,
            volume: value & 0x0F,
            ..self
        }
    }

    /// State after one quarter-frame clock: a restart goes to full level;
    /// otherwise the divider counts down, and each time it runs out the level
    /// drops by one, starting over from full only if the envelope loops.
    pub open spec fn clocked(self) -> Self {
        if self.start {
            Envelope { start: false, decay: 15, divider: self.volume, ..self }
        } else if self.divider > 0 {
            Envelope { divider: (self.divider - 1) as u8, ..self }
        } else if self.decay > 0 {
            Envelope { divider: self.volume, decay: (self.decay - 1) as u8, ..self }
        } else {
            Envelope { divider: self.volume, decay: if self.loop_flag { 15 } else { 0 }, ..self }
        }
    }

    pub open spec fn level(self) -> u8 {
        if self.constant { self.volume } else { self.decay }
    }

    pub fn new() -> (r: Self)
        ensures
            r == Self::power_on(),
    {
        Envelope {
            start: false,
            loop_flag: false,
            constant: false,
            volume: 0,
            decay: 0,
            divider: 0,
        }
    }

    pub fn write(&mut self, value: u8)
        ensures
            *final(self) == old(self).with_control(value),
            old(self).wf() ==> final(self).wf(),
    {
        proof {
            crate::bits::lemma_byte_fields(value);
        }
        self.loop_flag = value & 0x20 != 0;
        self.constant = value & 0x10 != 0;
        self.volume = value & 0x0F;
    }

    pub fn clock(&mut self)
        ensures
            *final(self) == old(self).clocked(),
            old(self).wf() ==> final(self).wf(),
    {
        if self.start {
            self.start = false;
            self.decay = 15;
            self.divider = self.volume;
        } else if self.divider == 0 {
            self.divider = self.volume;
            if self.decay > 0 {
                self.decay = self.decay - 1;
            } else if self.loop_flag {
                self.decay = 15;
            }
        } else {
            self.divider = self.divider - 1;
        }
    }

    pub fn output(&self) -> (r: u8)
        ensures
            r == self.level(),
    {
        if self.constant {
            self.volume
        } else {
            self.decay
        }
    }

    /// Whether the fields are within their ranges.
    pub fn is_well_formed(&self) -> (r: bool)
        ensures
            r == self.wf(),
    {
        self.volume <= 15 && self.decay <= 15
    }
}

} // verus!
