//! The noise of the Sunsoft 5B repeats after 131071 shifts and no sooner.
//!
//! A shift of the register is linear over its bits, so what a number of shifts
//! does to any register follows from what it does to the topmost bit alone:
//! [`times`] works it out. Doubling the number seventeen times over brings the
//! topmost bit back to where one shift takes it. And 131071 is prime, so a
//! shorter period would have to be a period of one.
use vstd::prelude::*;

verus! {

/// The register after `n` shifts.
pub open spec fn shifted(lfsr: u32, n: nat) -> u32
    decreases n,
{
    if n == 0 {
        lfsr
    } else {
        crate::s5b::lfsr_next(shifted(lfsr, (n - 1) as nat))
    }
}

/// `k` shifts at once, for `k` up to 14.
spec fn jumped(v: u32, k: u32) -> u32 {
    (v >> k) | (((v ^ (v >> 3)) & (((1u32 << k) - 1) as u32)) << ((17 - k) as u32))
}

/// `c` if bit `i` of `w` is set.
spec fn picked(w: u32, i: u32, c: u32) -> u32 {
    if (w >> i) & 1 == 1 {
        c
    } else {
        0
    }
}

/// Where `w` goes in as many shifts as take the topmost bit to `v`.
spec fn times(w: u32, v: u32) -> u32 {
    picked(w, 16, v)
        ^ picked(w, 15, jumped(v, 1))
        ^ picked(w, 14, jumped(v, 2))
        ^ picked(w, 13, jumped(v, 3))
        ^ picked(w, 12, jumped(v, 4))
        ^ picked(w, 11, jumped(v, 5))
        ^ picked(w, 10, jumped(v, 6))
        ^ picked(w, 9, jumped(v, 7))
        ^ picked(w, 8, jumped(v, 8))
        ^ picked(w, 7, jumped(v, 9))
        ^ picked(w, 6, jumped(v, 10))
        ^ picked(w, 5, jumped(v, 11))
        ^ picked(w, 4, jumped(v, 12))
        ^ picked(w, 3, jumped(v, 13))
        ^ picked(w, 2, jumped(v, 14) ^ v)
        ^ picked(w, 1, jumped(jumped(v, 14), 1) ^ jumped(v, 1))
        ^ picked(w, 0, jumped(jumped(v, 14), 2) ^ jumped(v, 2))
}

proof fn lemma_shift_is_linear(a: u32, b: u32)
    by (bit_vector)
    requires
        a <= 0x1FFFF,
        b <= 0x1FFFF,
    ensures
        a ^ b <= 0x1FFFF,
        crate::s5b::lfsr_next(a ^ b) == crate::s5b::lfsr_next(a) ^ crate::s5b::lfsr_next(b),
        crate::s5b::lfsr_next(0) == 0,
{
}

proof fn lemma_shift_facts(a: u32, b: u32)
    by (bit_vector)
    requires
        a <= 0x1FFFF,
        b <= 0x1FFFF,
    ensures
        crate::s5b::lfsr_next(a) <= 0x1FFFF,
        crate::s5b::lfsr_next(a) == crate::s5b::lfsr_next(b) ==> a == b,
        a != 0 ==> crate::s5b::lfsr_next(a) != a,
{
}

proof fn lemma_one_more(v: u32, k: u32)
    by (bit_vector)
    requires
        v <= 0x1FFFF,
        k < 14,
    ensures
        jumped(v, 0) == v,
        crate::s5b::lfsr_next(jumped(v, k)) == jumped(v, (k + 1) as u32),
        jumped(v, k) <= 0x1FFFF,
        jumped(v, 14) <= 0x1FFFF,
{
}

proof fn lemma_squares()
    by (bit_vector)
    ensures
        times(0x08000, 0x08000) == 0x04000,
        times(0x04000, 0x04000) == 0x01000,
        times(0x01000, 0x01000) == 0x00100,
        times(0x00100, 0x00100) == 0x04001,
        times(0x04001, 0x04001) == 0x01002,
        times(0x01002, 0x01002) == 0x00109,
        times(0x00109, 0x00109) == 0x04093,
        times(0x04093, 0x04093) == 0x0824B,
        times(0x0824B, 0x0824B) == 0x1649F,
        times(0x1649F, 0x1649F) == 0x186EF,
        times(0x186EF, 0x186EF) == 0x0FDAB,
        times(0x0FDAB, 0x0FDAB) == 0x08CCA,
        times(0x08CCA, 0x08CCA) == 0x0F4C9,
        times(0x0F4C9, 0x0F4C9) == 0x0E182,
        times(0x0E182, 0x0E182) == 0x08408,
        times(0x08408, 0x08408) == 0x04080,
        times(0x04080, 0x04080) == 0x08000,
{
}

proof fn lemma_topmost_bit(w: u32)
    by (bit_vector)
    requires
        w <= 0x1FFFF,
    ensures
        times(w, 0x10000) == w,
        crate::s5b::lfsr_next(0x10000) == 0x08000u32,
{
}

/// 131071 has no small divisor.
proof fn lemma_no_small_divisor(d: u32)
    by (bit_vector)
    requires
        2 <= d <= 362,
    ensures
        131071u32 % d != 0,
{
}

proof fn lemma_stays_in_range(lfsr: u32, n: nat)
    requires
        lfsr <= 0x1FFFF,
    ensures
        shifted(lfsr, n) <= 0x1FFFF,
    decreases n,
{
    if n > 0 {
        lemma_stays_in_range(lfsr, (n - 1) as nat);
        lemma_shift_facts(shifted(lfsr, (n - 1) as nat), 0);
    }
}

/// Shifts add up.
pub proof fn lemma_shifts_add(lfsr: u32, a: nat, b: nat)
    ensures
        shifted(lfsr, a + b) == shifted(shifted(lfsr, a), b),
    decreases b,
{
    if b > 0 {
        lemma_shifts_add(lfsr, a, (b - 1) as nat);
    }
}

proof fn lemma_jump(v: u32, k: u32)
    requires
        v <= 0x1FFFF,
        k <= 14,
    ensures
        jumped(v, k) == shifted(v, k as nat),
    decreases k,
{
    if k == 0 {
        lemma_one_more(v, 0);
    } else {
        lemma_one_more(v, (k - 1) as u32);
        lemma_jump(v, (k - 1) as u32);
    }
}

/// A shift goes through a jump.
proof fn lemma_shift_and_jump(v: u32, k: u32)
    requires
        v <= 0x1FFFF,
        k <= 14,
    ensures
        jumped(crate::s5b::lfsr_next(v), k) == crate::s5b::lfsr_next(jumped(v, k)),
        jumped(v, k) <= 0x1FFFF,
{
    lemma_shift_facts(v, 0);
    lemma_jump(v, k);
    lemma_jump(crate::s5b::lfsr_next(v), k);
    lemma_stays_in_range(v, k as nat);
    assert(shifted(v, 1) == crate::s5b::lfsr_next(v)) by {
        reveal_with_fuel(shifted, 2);
    }
    lemma_shifts_add(v, 1, k as nat);
    lemma_shifts_add(v, k as nat, 1);
    let s = shifted(v, k as nat);
    assert(shifted(s, 1) == crate::s5b::lfsr_next(s)) by {
        reveal_with_fuel(shifted, 2);
    }
}

proof fn lemma_shift_and_pick(w: u32, i: u32, c: u32)
    requires
        c <= 0x1FFFF,
    ensures
        picked(w, i, c) <= 0x1FFFF,
        crate::s5b::lfsr_next(picked(w, i, c)) == picked(w, i, crate::s5b::lfsr_next(c)),
{
    lemma_shift_is_linear(0, 0);
}

/// One more term of a sum.
proof fn lemma_shift_and_term(sum: u32, w: u32, i: u32, c: u32) -> (more: u32)
    requires
        sum <= 0x1FFFF,
        c <= 0x1FFFF,
    ensures
        more == sum ^ picked(w, i, c),
        more <= 0x1FFFF,
        crate::s5b::lfsr_next(more) == crate::s5b::lfsr_next(sum) ^ picked(
            w,
            i,
            crate::s5b::lfsr_next(c),
        ),
{
    lemma_shift_and_pick(w, i, c);
    lemma_shift_is_linear(sum, picked(w, i, c));
    sum ^ picked(w, i, c)
}

/// A shift goes through [`times`].
#[verifier::spinoff_prover]
proof fn lemma_shift_and_times(w: u32, v: u32)
    requires
        v <= 0x1FFFF,
    ensures
        times(w, crate::s5b::lfsr_next(v)) == crate::s5b::lfsr_next(times(w, v)),
{
    lemma_shift_and_jump(v, 1);
    lemma_shift_and_jump(v, 2);
    lemma_shift_and_jump(v, 3);
    lemma_shift_and_jump(v, 4);
    lemma_shift_and_jump(v, 5);
    lemma_shift_and_jump(v, 6);
    lemma_shift_and_jump(v, 7);
    lemma_shift_and_jump(v, 8);
    lemma_shift_and_jump(v, 9);
    lemma_shift_and_jump(v, 10);
    lemma_shift_and_jump(v, 11);
    lemma_shift_and_jump(v, 12);
    lemma_shift_and_jump(v, 13);
    lemma_shift_and_jump(v, 14);
    let far = jumped(v, 14);
    lemma_shift_and_jump(far, 1);
    lemma_shift_and_jump(far, 2);
    lemma_shift_is_linear(far, v);
    lemma_shift_is_linear(jumped(far, 1), jumped(v, 1));
    lemma_shift_is_linear(jumped(far, 2), jumped(v, 2));
    lemma_shift_and_pick(w, 16, v);
    let s0 = picked(w, 16, v);
    let s1 = lemma_shift_and_term(s0, w, 15, jumped(v, 1));
    let s2 = lemma_shift_and_term(s1, w, 14, jumped(v, 2));
    let s3 = lemma_shift_and_term(s2, w, 13, jumped(v, 3));
    let s4 = lemma_shift_and_term(s3, w, 12, jumped(v, 4));
    let s5 = lemma_shift_and_term(s4, w, 11, jumped(v, 5));
    let s6 = lemma_shift_and_term(s5, w, 10, jumped(v, 6));
    let s7 = lemma_shift_and_term(s6, w, 9, jumped(v, 7));
    let s8 = lemma_shift_and_term(s7, w, 8, jumped(v, 8));
    let s9 = lemma_shift_and_term(s8, w, 7, jumped(v, 9));
    let s10 = lemma_shift_and_term(s9, w, 6, jumped(v, 10));
    let s11 = lemma_shift_and_term(s10, w, 5, jumped(v, 11));
    let s12 = lemma_shift_and_term(s11, w, 4, jumped(v, 12));
    let s13 = lemma_shift_and_term(s12, w, 3, jumped(v, 13));
    let s14 = lemma_shift_and_term(s13, w, 2, far ^ v);
    let s15 = lemma_shift_and_term(s14, w, 1, jumped(far, 1) ^ jumped(v, 1));
    let s16 = lemma_shift_and_term(s15, w, 0, jumped(far, 2) ^ jumped(v, 2));
}

/// What shifts do to the topmost bit says what they do to any register.
proof fn lemma_times(w: u32, n: nat)
    requires
        w <= 0x1FFFF,
    ensures
        shifted(w, n) == times(w, shifted(0x10000, n)),
    decreases n,
{
    if n == 0 {
        lemma_topmost_bit(w);
    } else {
        lemma_times(w, (n - 1) as nat);
        lemma_stays_in_range(0x10000, (n - 1) as nat);
        lemma_shift_and_times(w, shifted(0x10000, (n - 1) as nat));
    }
}

/// Twice as many shifts.
proof fn lemma_doubled(n: nat, v: u32)
    requires
        shifted(0x10000, n) == v,
    ensures
        shifted(0x10000, 2 * n) == times(v, v),
{
    lemma_stays_in_range(0x10000, n);
    lemma_shifts_add(0x10000, n, n);
    lemma_times(v, n);
}

/// 131072 shifts do what one does.
proof fn lemma_comes_round(w: u32)
    requires
        w <= 0x1FFFF,
    ensures
        shifted(w, 131072) == crate::s5b::lfsr_next(w),
{
    lemma_topmost_bit(w);
    lemma_squares();
    assert(shifted(0x10000, 1) == 0x08000) by {
        reveal_with_fuel(shifted, 2);
    }
    assert(shifted(w, 1) == crate::s5b::lfsr_next(w)) by {
        reveal_with_fuel(shifted, 2);
    }
    lemma_doubled(1, 0x08000);
    lemma_doubled(2, 0x04000);
    lemma_doubled(4, 0x01000);
    lemma_doubled(8, 0x00100);
    lemma_doubled(16, 0x04001);
    lemma_doubled(32, 0x01002);
    lemma_doubled(64, 0x00109);
    lemma_doubled(128, 0x04093);
    lemma_doubled(256, 0x0824B);
    lemma_doubled(512, 0x1649F);
    lemma_doubled(1024, 0x186EF);
    lemma_doubled(2048, 0x0FDAB);
    lemma_doubled(4096, 0x08CCA);
    lemma_doubled(8192, 0x0F4C9);
    lemma_doubled(16384, 0x0E182);
    lemma_doubled(32768, 0x08408);
    lemma_doubled(65536, 0x04080);
    lemma_times(w, 131072);
    lemma_times(w, 1);
}

/// What is left over of one period by another is a period.
proof fn lemma_rest_is_period(w: u32, a: nat, b: nat)
    requires
        shifted(w, a) == w,
        shifted(w, b) == w,
        b > 0,
    ensures
        shifted(w, a % b) == w,
    decreases a,
{
    if a >= b {
        lemma_shifts_add(w, b, (a - b) as nat);
        lemma_rest_is_period(w, (a - b) as nat, b);
        assert((a - b) % b as int == a % b) by {
            vstd::arithmetic::div_mod::lemma_mod_sub_multiples_vanish(a as int, b as int);
        }
    } else {
        vstd::arithmetic::div_mod::lemma_small_mod(a, b);
    }
}

/// Two periods have a common divisor that is a period.
proof fn lemma_common_period(w: u32, a: nat, b: nat) -> (g: nat)
    requires
        shifted(w, a) == w,
        shifted(w, b) == w,
        a > 0,
    ensures
        shifted(w, g) == w,
        g > 0,
        a % g == 0,
        b % g == 0,
    decreases b,
{
    if b == 0 {
        assert(a % a == 0) by (nonlinear_arith)
            requires
                a > 0,
        ;
        a
    } else {
        lemma_rest_is_period(w, a, b);
        let g = lemma_common_period(w, b, a % b);
        vstd::arithmetic::div_mod::lemma_fundamental_div_mod(a as int, b as int);
        lemma_divides_sum(g, (a / b) as nat, b, a % b, a);
        g
    }
}

proof fn lemma_divides_sum(g: nat, q: nat, b: nat, r: nat, a: nat)
    requires
        g > 0,
        b % g == 0,
        r % g == 0,
        a == b * q + r,
    ensures
        a % g == 0,
{
    let x = b / g;
    let y = r / g;
    vstd::arithmetic::div_mod::lemma_fundamental_div_mod(b as int, g as int);
    vstd::arithmetic::div_mod::lemma_fundamental_div_mod(r as int, g as int);
    assert(a == (x * q + y) * g) by (nonlinear_arith)
        requires
            b == g * x,
            r == g * y,
            a == b * q + r,
    ;
    vstd::arithmetic::div_mod::lemma_mod_multiples_basic((x * q + y) as int, g as int);
}

/// 131071 is prime.
proof fn lemma_prime(g: nat)
    requires
        1 < g < 131071,
    ensures
        131071nat % g != 0,
{
    if 131071nat % g == 0 {
        let q = 131071nat / g;
        vstd::arithmetic::div_mod::lemma_fundamental_div_mod(131071, g as int);
        assert(131071 == g * q);
        assert(q > 1 && (g <= 362 || q <= 362)) by (nonlinear_arith)
            requires
                131071 == g * q,
                1 < g < 131071,
        ;
        if g <= 362 {
            lemma_no_small_divisor(g as u32);
        } else {
            lemma_no_small_divisor(q as u32);
            vstd::arithmetic::div_mod::lemma_mod_multiples_basic(g as int, q as int);
        }
    }
}

/// The noise register comes back after 131071 shifts and no sooner.
pub proof fn lemma_noise_period(lfsr: u32, n: nat)
    requires
        0 < lfsr <= 0x1FFFF,
    ensures
        shifted(lfsr, 131071) == lfsr,
        0 < n < 131071 ==> shifted(lfsr, n) != lfsr,
{
    lemma_comes_round(lfsr);
    lemma_stays_in_range(lfsr, 131071);
    lemma_shift_facts(shifted(lfsr, 131071), lfsr);
    if 0 < n < 131071 && shifted(lfsr, n) == lfsr {
        let g = lemma_common_period(lfsr, n, 131071);
        assert(g <= n) by {
            if g > n {
                vstd::arithmetic::div_mod::lemma_small_mod(n, g);
            }
        }
        if g > 1 {
            lemma_prime(g);
        }
        assert(shifted(lfsr, 1) == crate::s5b::lfsr_next(lfsr)) by {
            reveal_with_fuel(shifted, 2);
        }
        lemma_shift_facts(lfsr, lfsr);
    }
}

} // verus!
