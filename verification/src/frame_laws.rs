//! What holds of the frame sequence of the APU.
use vstd::prelude::*;
use crate::apu::Apu2A03;

verus! {

impl Apu2A03 {
    /// The frame interrupt is switched off, or the mode has none.
    pub open spec fn frame_irq_kept_out(self) -> bool {
        self.frame_irq_inhibit || self.five_step
    }

    proof fn lemma_event_kept_out(self)
        requires
            self.frame_irq_kept_out(),
        ensures
            self.event_done().frame_irq_flag == self.frame_irq_flag,
            self.event_done().frame_irq_kept_out(),
    {
        reveal(Apu2A03::event_applied);
    }

    proof fn lemma_events_kept_out(self)
        requires
            self.frame_irq_kept_out(),
        ensures
            self.events_fired().frame_irq_flag == self.frame_irq_flag,
            self.events_fired().frame_irq_kept_out(),
        decreases self.frame_acc, 6 - self.frame_step,
    {
        reveal_with_fuel(Apu2A03::events_fired, 2);
        if self.frame_step < crate::apu::events_len(self.five_step) && self.frame_acc
            >= crate::apu::event_at(self.five_step, self.pal, self.frame_step as int).offset {
            crate::apu::lemma_event_offsets(self.five_step, self.pal, self.frame_step as int);
            self.lemma_event_kept_out();
            self.event_done().lemma_events_kept_out();
        }
    }

    proof fn lemma_cycle_kept_out(self)
        requires
            self.frame_irq_kept_out(),
        ensures
            self.cycle().frame_irq_flag == self.frame_irq_flag,
            self.cycle().frame_irq_kept_out(),
    {
        reveal(Apu2A03::timers_cycle);
        reveal(Apu2A03::at_frame);
        reveal(Apu2A03::sequence_restarted);
        self.timers_cycle().time_passed(1).reset_counted(1).lemma_events_kept_out();
    }

    /// Time never sets the frame interrupt flag while the interrupt is switched
    /// off or in the 5-step mode.
    pub proof fn lemma_no_frame_irq(self, n: nat)
        requires
            self.frame_irq_kept_out(),
        ensures
            self.ticked(n).frame_irq_flag == self.frame_irq_flag,
            self.ticked(n).frame_irq_kept_out(),
        decreases n,
    {
        if n > 0 {
            self.lemma_no_frame_irq((n - 1) as nat);
            self.ticked((n - 1) as nat).lemma_cycle_kept_out();
        }
    }

    /// What an event does to the frame sequence itself.
    proof fn lemma_event_moves_on(self)
        requires
            self.frame_step < crate::apu::events_len(self.five_step),
            self.frame_acc == crate::apu::event_at(
                self.five_step,
                self.pal,
                self.frame_step as int,
            ).offset,
            self.frame_reset_delay is None,
        ensures
            ({
                let last = self.frame_step == crate::apu::events_len(self.five_step) - 1;
                let r = self.events_fired();
                &&& r.five_step == self.five_step && r.pal == self.pal
                &&& r.frame_reset_delay is None
                &&& r.frame_irq_inhibit == self.frame_irq_inhibit
                &&& r.frame_step == (if last { 0 } else { self.frame_step + 1 })
                &&& r.frame_acc == (if last { 0 } else { self.frame_acc as int })
                &&& r.frame_irq_flag == (self.frame_irq_flag || (crate::apu::event_at(
                    self.five_step,
                    self.pal,
                    self.frame_step as int,
                ).irq && !self.frame_irq_inhibit))
            }),
    {
        reveal_with_fuel(Apu2A03::events_fired, 3);
        reveal(Apu2A03::event_applied);
        crate::apu::lemma_event_offsets(self.five_step, self.pal, 0);
    }

    /// The stretch up to the next event.
    #[verifier::spinoff_prover]
    proof fn lemma_to_event(self, n: nat)
        requires
            self.frame_step < crate::apu::events_len(self.five_step),
            self.frame_reset_delay is None,
            n >= 1,
            self.frame_acc + n == crate::apu::event_at(
                self.five_step,
                self.pal,
                self.frame_step as int,
            ).offset,
        ensures
            ({
                let last = self.frame_step == crate::apu::events_len(self.five_step) - 1;
                let r = self.ticked(n);
                &&& r.five_step == self.five_step && r.pal == self.pal
                &&& r.frame_reset_delay is None
                &&& r.frame_irq_inhibit == self.frame_irq_inhibit
                &&& r.frame_step == (if last { 0 } else { self.frame_step + 1 })
                &&& r.frame_acc == (if last { 0 } else { self.frame_acc + n })
                &&& r.frame_irq_flag == (self.frame_irq_flag || (crate::apu::event_at(
                    self.five_step,
                    self.pal,
                    self.frame_step as int,
                ).irq && !self.frame_irq_inhibit))
            }),
    {
        crate::apu::lemma_event_offsets(self.five_step, self.pal, self.frame_step as int);
        self.lemma_batch(n);
        self.lemma_timers_keep_frame(n);
        self.lemma_timers_keep_irq(n);
        reveal(Apu2A03::at_frame);
        self.timers_run(n).time_passed(n).lemma_event_moves_on();
    }

    proof fn lemma_timers_keep_irq(self, n: nat)
        ensures
            self.timers_run(n).frame_irq_flag == self.frame_irq_flag,
            self.timers_run(n).frame_irq_inhibit == self.frame_irq_inhibit,
        decreases n,
    {
        if n > 0 {
            self.lemma_timers_keep_irq((n - 1) as nat);
            reveal(Apu2A03::timers_cycle);
        }
    }

    /// From an event the sequence runs to its end and starts over.
    #[verifier::spinoff_prover]
    proof fn lemma_runs_to_the_end(self)
        requires
            self.frame_step < crate::apu::events_len(self.five_step),
            self.frame_reset_delay is None,
            self.frame_acc == (if self.frame_step == 0 {
                0
            } else {
                crate::apu::event_at(self.five_step, self.pal, self.frame_step - 1).offset as int
            }),
        ensures
            ({
                let end = crate::apu::event_at(
                    self.five_step,
                    self.pal,
                    crate::apu::events_len(self.five_step) - 1,
                ).offset;
                let r = self.ticked((end - self.frame_acc) as nat);
                &&& r.frame_acc == 0 && r.frame_step == 0 && r.frame_reset_delay is None
                &&& r.five_step == self.five_step && r.pal == self.pal
            }),
        decreases 6 - self.frame_step,
    {
        let last = crate::apu::events_len(self.five_step) - 1;
        let end = crate::apu::event_at(self.five_step, self.pal, last).offset;
        let here = crate::apu::event_at(
            self.five_step,
            self.pal,
            self.frame_step as int,
        ).offset;
        let n = (here - self.frame_acc) as nat;
        self.lemma_to_event(n);
        if self.frame_step < last {
            let next = self.ticked(n);
            next.lemma_runs_to_the_end();
            self.lemma_ticks_split(n, (end - here) as nat);
            assert(n + (end - here) as nat == (end - self.frame_acc) as nat);
        }
    }

    /// The frame sequence repeats: every 29830 cycles in the 4-step mode and
    /// every 37282 in the 5-step mode, or 33254 and 41566 on PAL machines.
    pub proof fn lemma_frame_sequence_repeats(self)
        requires
            self.frame_acc == 0,
            self.frame_step == 0,
            self.frame_reset_delay is None,
        ensures
            ({
                let n: nat = match (self.five_step, self.pal) {
                    (false, false) => 29830,
                    (false, true) => 33254,
                    (true, false) => 37282,
                    (true, true) => 41566,
                };
                &&& self.ticked(n).frame_acc == 0 && self.ticked(n).frame_step == 0
                &&& self.ticked(n).frame_reset_delay is None
                &&& self.ticked(n).five_step == self.five_step && self.ticked(n).pal == self.pal
            }),
    {
        self.lemma_runs_to_the_end();
    }

    /// Before the next event nothing touches the frame interrupt flag.
    #[verifier::spinoff_prover]
    proof fn lemma_before_event(self, n: nat)
        requires
            self.frame_step < crate::apu::events_len(self.five_step),
            self.frame_reset_delay is None,
            self.frame_acc + n < crate::apu::event_at(
                self.five_step,
                self.pal,
                self.frame_step as int,
            ).offset,
        ensures
            self.ticked(n).frame_irq_flag == self.frame_irq_flag,
    {
        if n > 0 {
            crate::apu::lemma_event_offsets(self.five_step, self.pal, self.frame_step as int);
            self.lemma_batch(n);
            self.lemma_timers_keep_frame(n);
            self.lemma_timers_keep_irq(n);
            reveal(Apu2A03::at_frame);
            reveal_with_fuel(Apu2A03::events_fired, 2);
        }
    }

    /// In the 4-step mode the frame interrupt flag stays as it is for 29827
    /// cycles after the start of the sequence, or 33251 on PAL machines, and
    /// is set in the next one unless the interrupt is switched off.
    #[verifier::spinoff_prover]
    pub proof fn lemma_frame_irq_comes(self, n: nat)
        requires
            !self.five_step,
            !self.frame_irq_inhibit,
            self.frame_acc == 0,
            self.frame_step == 0,
            self.frame_reset_delay is None,
        ensures
            self.ticked(if self.pal { 33252 } else { 29828 }).frame_irq_flag,
            n < (if self.pal { 33252nat } else { 29828nat }) ==> self.ticked(n).frame_irq_flag
                == self.frame_irq_flag,
    {
        let o1: nat = if self.pal { 8313 } else { 7457 };
        let o2: nat = if self.pal { 16627 } else { 14913 };
        let o3: nat = if self.pal { 24939 } else { 22371 };
        let o4: nat = if self.pal { 33252 } else { 29828 };
        self.lemma_to_event(o1);
        let s1 = self.ticked(o1);
        s1.lemma_to_event((o2 - o1) as nat);
        self.lemma_ticks_split(o1, (o2 - o1) as nat);
        let s2 = self.ticked(o2);
        s2.lemma_to_event((o3 - o2) as nat);
        self.lemma_ticks_split(o2, (o3 - o2) as nat);
        let s3 = self.ticked(o3);
        s3.lemma_to_event((o4 - o3) as nat);
        self.lemma_ticks_split(o3, (o4 - o3) as nat);
        if n < o1 {
            self.lemma_before_event(n);
        } else if n < o2 {
            s1.lemma_before_event((n - o1) as nat);
            self.lemma_ticks_split(o1, (n - o1) as nat);
        } else if n < o3 {
            s2.lemma_before_event((n - o2) as nat);
            self.lemma_ticks_split(o2, (n - o2) as nat);
        } else if n < o4 {
            s3.lemma_before_event((n - o3) as nat);
            self.lemma_ticks_split(o3, (n - o3) as nat);
        }
    }
}

} // verus!
