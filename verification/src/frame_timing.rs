//! How the frame sequence of the APU moves through a stretch of time in which
//! nothing falls due.
use vstd::prelude::*;
use crate::apu::Apu2A03;

verus! {

impl Apu2A03 {
    proof fn lemma_at_frame(self, acc: u32, total: u64, delay: Option<u32>)
        ensures
            self.at_frame(acc, total, delay).frame_acc == acc,
            self.at_frame(acc, total, delay).total_cycles == total,
            self.at_frame(acc, total, delay).frame_reset_delay == delay,
            self.at_frame(acc, total, delay).frame_step == self.frame_step,
            self.at_frame(acc, total, delay).five_step == self.five_step,
            self.at_frame(acc, total, delay).pal == self.pal,
    {
        reveal(Apu2A03::at_frame);
    }

    proof fn lemma_at_frame_twice(
        self,
        acc: u32,
        total: u64,
        delay: Option<u32>,
        acc2: u32,
        total2: u64,
        delay2: Option<u32>,
    )
        ensures
            self.at_frame(acc, total, delay).at_frame(acc2, total2, delay2) == self.at_frame(
                acc2,
                total2,
                delay2,
            ),
    {
        reveal(Apu2A03::at_frame);
    }

    proof fn lemma_at_own_frame(self)
        ensures
            self.at_frame(self.frame_acc, self.total_cycles, self.frame_reset_delay) == self,
    {
        reveal(Apu2A03::at_frame);
    }

    /// The timers do not look at the frame sequence.
    proof fn lemma_timers_ignore_frame(self, acc: u32, total: u64, delay: Option<u32>)
        ensures
            self.at_frame(acc, total, delay).timers_cycle() == self.timers_cycle().at_frame(
                acc,
                total,
                delay,
            ),
    {
        reveal(Apu2A03::at_frame);
        reveal(Apu2A03::timers_cycle);
    }

    /// A restart forgets how long it was due.
    proof fn lemma_restart_drops_delay(
        self,
        acc: u32,
        total: u64,
        delay: Option<u32>,
        delay2: Option<u32>,
    )
        ensures
            self.at_frame(acc, total, delay).sequence_restarted() == self.at_frame(
                acc,
                total,
                delay2,
            ).sequence_restarted(),
    {
        reveal(Apu2A03::at_frame);
        reveal(Apu2A03::sequence_restarted);
        assert(self.at_frame(acc, total, delay).at_frame(0, total, None) == self.at_frame(
            acc,
            total,
            delay2,
        ).at_frame(0, total, None));
    }

    /// Timers leave the frame sequence alone.
    pub proof fn lemma_timers_keep_frame(self, n: nat)
        ensures
            self.timers_run(n).frame_acc == self.frame_acc,
            self.timers_run(n).frame_step == self.frame_step,
            self.timers_run(n).five_step == self.five_step,
            self.timers_run(n).pal == self.pal,
            self.timers_run(n).frame_reset_delay == self.frame_reset_delay,
            self.timers_run(n).total_cycles == self.total_cycles,
        decreases n,
    {
        if n > 0 {
            self.lemma_timers_keep_frame((n - 1) as nat);
            reveal(Apu2A03::timers_cycle);
        }
    }

    /// The state `n` cycles on if nothing falls due.
    spec fn drifted(self, n: nat) -> Self {
        self.timers_run(n).at_frame(
            (self.frame_acc + n) as u32,
            crate::apu::cycles_later(self.total_cycles, n),
            match self.frame_reset_delay {
                None => None,
                Some(d) => Some((d - n) as u32),
            },
        )
    }

    /// While neither an event nor a restart falls due, time only moves the
    /// timers and the counts.
    proof fn lemma_quiet(self, n: nat)
        requires
            n > 0 ==> self.frame_step < crate::apu::events_len(self.five_step),
            n > 0 ==> self.frame_acc + n < crate::apu::event_at(
                self.five_step,
                self.pal,
                self.frame_step as int,
            ).offset,
            self.frame_reset_delay matches Some(d) ==> n == 0 || n < d,
        ensures
            self.ticked(n) == self.drifted(n),
        decreases n,
    {
        if n == 0 {
            self.lemma_at_own_frame();
        } else {
            let k = (n - 1) as nat;
            self.lemma_quiet(k);
            self.lemma_step_after_quiet(k);
            self.lemma_timers_keep_frame(n);
            let t = self.timers_run(n);
            let s = self.drifted(n);
            let acc = (self.frame_acc + n) as u32;
            let total = crate::apu::cycles_later(self.total_cycles, n);
            t.lemma_at_frame(acc, total, t.frame_reset_delay);
            if let Some(d) = self.frame_reset_delay {
                t.lemma_at_frame_twice(acc, total, Some(d), acc, total, Some((d - n) as u32));
                t.lemma_at_frame(acc, total, Some((d - n) as u32));
            }
            assert(k + 1 == n);
            assert(t.time_passed(n).reset_counted(n) == s);
            assert(s.events_fired() == s) by {
                reveal_with_fuel(Apu2A03::events_fired, 2);
            }
        }
    }

    /// One more cycle after a quiet stretch of `k`.
    proof fn lemma_step_after_quiet(self, k: nat)
        requires
            self.ticked(k) == self.drifted(k),
            self.frame_reset_delay matches Some(d) ==> k == 0 || k < d,
            self.frame_acc + k < u32::MAX,
        ensures
            self.ticked(k + 1) == self.timers_run(k + 1).time_passed(k + 1).reset_counted(
                k + 1,
            ).events_fired(),
    {
        self.lemma_timers_keep_frame(k);
        self.lemma_timers_keep_frame(k + 1);
        let t = self.timers_run(k);
        let u = self.timers_run(k + 1);
        let acc = (self.frame_acc + k) as u32;
        let total = crate::apu::cycles_later(self.total_cycles, k);
        let acc1 = (self.frame_acc + k + 1) as u32;
        let total1 = crate::apu::cycles_later(self.total_cycles, k + 1);
        let delay = match self.frame_reset_delay {
            None => None,
            Some(d) => Some((d - k) as u32),
        };
        assert(u == t.timers_cycle());
        t.lemma_timers_ignore_frame(acc, total, delay);
        u.lemma_at_frame(acc, total, delay);
        u.lemma_at_frame_twice(acc, total, delay, acc1, total1, delay);
        assert(crate::apu::cycles_later(total, 1) == total1);
        let one = u.at_frame(acc1, total1, delay);
        assert(self.ticked(k).timers_cycle().time_passed(1) == one);
        assert(u.time_passed(k + 1) == u.at_frame(acc1, total1, self.frame_reset_delay));
        u.lemma_at_frame(acc1, total1, delay);
        u.lemma_at_frame(acc1, total1, self.frame_reset_delay);
        if let Some(d) = self.frame_reset_delay {
            u.lemma_restart_drops_delay(acc1, total1, delay, self.frame_reset_delay);
            let rest = Some((d - (k + 1)) as u32);
            u.lemma_at_frame_twice(acc1, total1, delay, acc1, total1, rest);
            u.lemma_at_frame_twice(acc1, total1, Some(d), acc1, total1, rest);
        }
        assert(one.reset_counted(1) == u.time_passed(k + 1).reset_counted(k + 1));
    }

    /// A batch up to and including the next event or restart.
    pub proof fn lemma_batch(self, n: nat)
        requires
            n >= 1,
            self.frame_acc + n <= crate::apu::MAX_FRAME,
            n > 1 ==> self.frame_step < crate::apu::events_len(self.five_step)
                && self.frame_acc + n <= crate::apu::event_at(
                self.five_step,
                self.pal,
                self.frame_step as int,
            ).offset,
            self.frame_reset_delay matches Some(d) ==> n == 1 || n <= d,
        ensures
            self.ticked(n) == self.timers_run(n).time_passed(n).reset_counted(n).events_fired(),
    {
        let k = (n - 1) as nat;
        self.lemma_quiet(k);
        self.lemma_step_after_quiet(k);
        assert(k + 1 == n);
    }
}

} // verus!
