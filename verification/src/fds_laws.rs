//! What the FDS sound unit plays.
use vstd::prelude::*;
use crate::fds::Fds;

verus! {

/// Whether a number is in the range of the seven-bit mod counter.
pub open spec fn seven_bits(x: int) -> bool {
    -64 <= x <= 63
}

/// How many of the first `n` table entries are `k`.
pub open spec fn count_of(table: [u8; 32], k: int, n: nat) -> int
    decreases n,
{
    if n == 0 {
        0
    } else {
        count_of(table, k, (n - 1) as nat) + (if table[n - 1] % 8 == k { 1int } else { 0 })
    }
}

/// A table that rises as much as it falls: each entry below 4 stands as often
/// as the one that makes up 8 with it, and none resets the counter.
pub open spec fn balanced(table: [u8; 32]) -> bool {
    &&& count_of(table, 1, 32) == count_of(table, 7, 32)
    &&& count_of(table, 2, 32) == count_of(table, 6, 32)
    &&& count_of(table, 3, 32) == count_of(table, 5, 32)
    &&& count_of(table, 4, 32) == 0
}

/// What the table adds up to from position `p` on, over `n` positions of which
/// each entry has two.
spec fn drift(table: [u8; 32], p: nat, n: nat) -> int
    decreases n,
{
    if n == 0 {
        0
    } else {
        drift(table, p, (n - 1) as nat) + change(table[((p + n - 1) % 64) as int / 2])
    }
}

/// Change of the counter by an entry that does not reset it.
spec fn change(entry: u8) -> int {
    match entry % 8 {
        1 => 1int,
        2 => 2,
        3 => 4,
        5 => -4,
        6 => -2,
        7 => -1,
        _ => 0,
    }
}

impl Fds {
    /// The accumulator of the mod unit carries in this unit tick.
    pub open spec fn mod_carries(self) -> bool {
        &&& !self.mod_disabled && !self.env_fast
        &&& self.mod_acc < 4096 && self.mod_freq < 4096
        &&& self.mod_acc + self.mod_freq >= 4096
    }

    /// What each table entry does to the mod counter: 1, 2 and 3 add 1, 2 and
    /// 4; their opposites 7, 6 and 5 take as much away; 0 leaves it alone and 4
    /// clears it. The counter wraps at seven bits.
    #[verifier::spinoff_prover]
    pub proof fn lemma_mod_entries(self)
        requires
            self.mod_carries(),
            seven_bits(self.mod_counter as int),
            self.mod_pos < 64,
        ensures
            ({
                let k = self.mod_table[self.mod_pos as int / 2] % 8;
                let s = self.mod_ticked();
                let d = s.mod_counter - self.mod_counter;
                &&& k == 0 ==> d == 0
                &&& k == 1 ==> d == 1 || d == 1 - 128
                &&& k == 2 ==> d == 2 || d == 2 - 128
                &&& k == 3 ==> d == 4 || d == 4 - 128
                &&& k == 4 ==> s.mod_counter == 0
                &&& k == 5 ==> d == -4 || d == 128 - 4
                &&& k == 6 ==> d == -2 || d == 128 - 2
                &&& k == 7 ==> d == -1 || d == 128 - 1
                &&& seven_bits(s.mod_counter as int)
                &&& s.mod_pos == (self.mod_pos + 1) % 64
                &&& s.mod_acc == self.mod_acc + self.mod_freq - 4096
                &&& s.mod_table == self.mod_table
            }),
    {
        reveal(crate::fds::wrap7);
        crate::bits::lemma_byte_bits(self.mod_table[self.mod_pos as int / 2]);
    }

    /// While the accumulator does not carry, the counter stays.
    #[verifier::spinoff_prover]
    pub proof fn lemma_mod_waits(self)
        requires
            self.mod_acc < 4096,
            self.mod_freq < 4096,
            !self.mod_carries(),
        ensures
            ({
                let s = self.mod_ticked();
                &&& s == (Fds { mod_acc: s.mod_acc, ..self })
                &&& s.mod_acc == (if self.mod_disabled || self.env_fast {
                    self.mod_acc as int
                } else {
                    self.mod_acc + self.mod_freq
                })
            }),
    {
    }

    /// The mod unit over `n` unit ticks.
    pub open spec fn mod_run(self, n: nat) -> Self
        decreases n,
    {
        if n == 0 { self } else { self.mod_run((n - 1) as nat).mod_ticked() }
    }

    /// One more unit tick on a run of the mod unit.
    #[verifier::spinoff_prover]
    #[verifier::rlimit(60)]
    proof fn lemma_mod_runs_on(self, sum: int, start: int)
        requires
            !self.mod_disabled && !self.env_fast,
            0 < self.mod_freq < 4096,
            sum >= 0,
            0 <= start < 64,
            self.mod_acc == sum % 4096,
            self.mod_pos == (start + sum / 4096) % 64,
            seven_bits(self.mod_counter as int),
            self.mod_table[self.mod_pos as int / 2] % 8 != 4,
        ensures
            ({
                let s = self.mod_ticked();
                let next = sum + self.mod_freq;
                let d = if next / 4096 > sum / 4096 {
                    change(self.mod_table[((start + sum / 4096) % 64) / 2])
                } else {
                    0
                };
                &&& s == (Fds {
                    mod_acc: s.mod_acc,
                    mod_pos: s.mod_pos,
                    mod_counter: s.mod_counter,
                    ..self
                })
                &&& s.mod_acc == next % 4096
                &&& s.mod_pos == (start + next / 4096) % 64
                &&& next / 4096 == sum / 4096 || next / 4096 == sum / 4096 + 1
                &&& seven_bits(s.mod_counter as int)
                &&& (s.mod_counter - self.mod_counter - d) % 128 == 0
            }),
    {
        if self.mod_acc + self.mod_freq >= 4096 {
            self.lemma_mod_entries();
        } else {
            self.lemma_mod_waits();
        }
    }

    /// The mod unit carries as often as the sum of its frequency over time
    /// passes 4096, and each carry moves it on by one of 64 positions.
    #[verifier::spinoff_prover]
    proof fn lemma_mod_runs(self, n: nat)
        requires
            !self.mod_disabled && !self.env_fast,
            self.mod_acc < 4096,
            0 < self.mod_freq < 4096,
            self.mod_pos < 64,
            seven_bits(self.mod_counter as int),
            forall|i: int| 0 <= i < 32 ==> #[trigger] self.mod_table[i] % 8 != 4,
        ensures
            ({
                let sum = self.mod_acc + n * self.mod_freq;
                let s = self.mod_run(n);
                &&& s == (Fds {
                    mod_acc: s.mod_acc,
                    mod_pos: s.mod_pos,
                    mod_counter: s.mod_counter,
                    ..self
                })
                &&& sum >= 0
                &&& s.mod_acc == sum % 4096
                &&& s.mod_pos == (self.mod_pos + sum / 4096) % 64
                &&& seven_bits(s.mod_counter as int)
                &&& (s.mod_counter - self.mod_counter - drift(
                    self.mod_table,
                    self.mod_pos as nat,
                    (sum / 4096) as nat,
                )) % 128 == 0
            }),
        decreases n,
    {
        let f = self.mod_freq as int;
        if n == 0 {
            assert(0 * f == 0);
            assert(self.mod_acc as int / 4096 == 0);
        } else {
            let k = (n - 1) as nat;
            self.lemma_mod_runs(k);
            assert(n * f == k * f + f) by (nonlinear_arith)
                requires
                    n == k + 1,
            ;
            let t = self.mod_run(k);
            let before = self.mod_acc + k * f;
            t.lemma_mod_runs_on(before, self.mod_pos as int);
            lemma_sum_of_multiples(
                t.mod_counter - self.mod_counter - drift(
                    self.mod_table,
                    self.mod_pos as nat,
                    (before / 4096) as nat,
                ),
                self.mod_run(n).mod_counter - t.mod_counter - (drift(
                    self.mod_table,
                    self.mod_pos as nat,
                    ((before + f) / 4096) as nat,
                ) - drift(self.mod_table, self.mod_pos as nat, (before / 4096) as nat)),
            );
        }
    }

    /// After one whole pass over a balanced table the mod counter is where it
    /// was, whatever the frequency and wherever the pass began.
    #[verifier::spinoff_prover]
    pub proof fn lemma_balanced_table(self, n: nat)
        requires
            !self.mod_disabled && !self.env_fast,
            self.mod_acc < 4096,
            0 < self.mod_freq < 4096,
            self.mod_pos < 64,
            seven_bits(self.mod_counter as int),
            balanced(self.mod_table),
            (self.mod_acc + n * self.mod_freq) / 4096 == 64,
        ensures
            self.mod_run(n).mod_counter == self.mod_counter,
            self.mod_run(n).mod_pos == self.mod_pos,
    {
        let table = self.mod_table;
        assert forall|i: int| 0 <= i < 32 implies #[trigger] table[i] % 8 != 4 by {
            lemma_none_counted(table, 4, 32, i);
        }
        self.lemma_mod_runs(n);
        lemma_drift_of_pass(table, self.mod_pos as nat);
        lemma_drift_by_counts(table, 32);
    }
}

proof fn lemma_sum_of_multiples(a: int, b: int)
    requires
        a % 128 == 0,
        b % 128 == 0,
    ensures
        (a + b) % 128 == 0,
{
}

proof fn lemma_none_counted(table: [u8; 32], k: int, n: nat, i: int)
    requires
        n <= 32,
        0 <= i < n,
        count_of(table, k, n) == 0,
    ensures
        table[i] % 8 != k,
    decreases n,
{
    lemma_counts_grow(table, k, (n - 1) as nat);
    if i < n - 1 {
        lemma_none_counted(table, k, (n - 1) as nat, i);
    }
}

proof fn lemma_counts_grow(table: [u8; 32], k: int, n: nat)
    ensures
        count_of(table, k, n) >= 0,
    decreases n,
{
    if n > 0 {
        lemma_counts_grow(table, k, (n - 1) as nat);
    }
}

/// A pass adds up to the same from every position.
#[verifier::spinoff_prover]
proof fn lemma_drift_of_pass(table: [u8; 32], p: nat)
    requires
        p < 64,
    ensures
        drift(table, p, 64) == drift(table, 0, 64),
    decreases p,
{
    if p > 0 {
        let q = (p - 1) as nat;
        lemma_drift_of_pass(table, q);
        lemma_drift_shift(table, q, 64);
        assert((q + 64) % 64 == q % 64);
    }
}

proof fn lemma_drift_shift(table: [u8; 32], p: nat, n: nat)
    ensures
        drift(table, p + 1, n) == drift(table, p, n) - change(table[(p % 64) as int / 2]) + change(
            table[((p + n) % 64) as int / 2],
        ),
    decreases n,
{
    if n > 0 {
        lemma_drift_shift(table, p, (n - 1) as nat);
        assert(p + 1 + n - 1 == p + n);
    }
}

/// A pass adds up to what the counts of the entries say.
#[verifier::spinoff_prover]
proof fn lemma_drift_by_counts(table: [u8; 32], n: nat)
    requires
        n <= 32,
    ensures
        drift(table, 0, 2 * n) == 2 * (count_of(table, 1, n) + 2 * count_of(table, 2, n) + 4
            * count_of(table, 3, n) - 4 * count_of(table, 5, n) - 2 * count_of(table, 6, n)
            - count_of(table, 7, n)),
    decreases n,
{
    if n > 0 {
        lemma_drift_by_counts(table, (n - 1) as nat);
        let a = drift(table, 0, (2 * n - 2) as nat);
        assert(((2 * n - 2) % 64) / 2 == n - 1);
        assert(((2 * n - 1) % 64) / 2 == n - 1);
        assert(drift(table, 0, (2 * n - 1) as nat) == a + change(table[n - 1]));
        assert(drift(table, 0, 2 * n) == drift(table, 0, (2 * n - 1) as nat) + change(
            table[n - 1],
        ));
    }
}

} // verus!
