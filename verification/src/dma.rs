//! Scheduling of the DMAs that halt the CPU.
//!
//! Even CPU cycles are those on which a DMA can get, odd ones those on which
//! it can put. A halt succeeds only on a CPU read cycle and is tried again
//! every cycle until it does.
use vstd::prelude::*;

verus! {

/// Cycles that an OAM DMA takes when its halt falls on a put cycle; one more
/// when it falls on a get cycle.
pub const OAM_DMA_BASE_STALL_CYCLES: u32 = 513;

/// Cycles that a DMC fetch adds to an OAM DMA that it interrupts, in the
/// common case.
pub const DMC_DMA_DURING_OAM_STALL_CYCLES: u32 = 2;

/// What a scheduled DMC DMA will do.
#[derive(Clone, Copy, Debug, PartialEq, Eq, Structural)]
pub enum DmcDmaKind {
    /// First fetch of a sample.
    Load,
    /// Later fetch, after the buffer has emptied.
    Reload,
    /// A reload whose playback was stopped just before it: it halts for one
    /// cycle, and only if its first attempt succeeds.
    Aborted,
    /// A reload that runs although the sample has just ended; its byte goes
    /// into the buffer and nothing else changes.
    Unexpected,
}

/// A DMC DMA that tries to halt the CPU from cycle `halt_from` on.
#[derive(Clone, Copy, Debug, PartialEq, Eq, Structural)]
pub struct ScheduledDmcDma {
    pub addr: u16,
    pub kind: DmcDmaKind,
    pub halt_from: u64,
}

/// `a` cycles on; the count wraps.
#[verifier::opaque]
pub open spec fn later(c: u64, a: int) -> u64 {
    ((c + a) % 0x1_0000_0000_0000_0000) as u64
}

/// First get cycle at or after `c`.
pub open spec fn get_from(c: u64) -> u64 {
    if c % 2 == 0 { c } else { later(c, 1) }
}

/// First put cycle at or after `c`.
pub open spec fn put_from(c: u64) -> u64 {
    if c % 2 == 1 { c } else { later(c, 1) }
}

/// The DMA for a fetch that was armed on cycle `e`. A reload tries to halt
/// from the next put cycle on; a load from the get cycle that the enabling
/// write has set, or else from one at least three cycles on.
pub open spec fn fetch_dma(
    addr: u16,
    is_load: bool,
    load_from: Option<u64>,
    e: u64,
) -> ScheduledDmcDma {
    if is_load {
        let set = match load_from {
            Some(h) => h,
            None => get_from(later(e, 3)),
        };
        let now = get_from(e);
        ScheduledDmcDma {
            addr,
            kind: DmcDmaKind::Load,
            halt_from: if set < now { now } else { set },
        }
    } else {
        ScheduledDmcDma { addr, kind: DmcDmaKind::Reload, halt_from: put_from(later(e, 1)) }
    }
}

/// The DMA that a sample leaves which has ended by itself on cycle `e`:
/// unexpected or aborted, depending on the half of the APU cycle.
pub open spec fn stop_dma(last_addr: u16, e: u64) -> ScheduledDmcDma {
    if e % 2 == 0 {
        ScheduledDmcDma {
            addr: last_addr,
            kind: DmcDmaKind::Unexpected,
            halt_from: later(e, 1),
        }
    } else {
        ScheduledDmcDma { addr: 0, kind: DmcDmaKind::Aborted, halt_from: later(e, 2) }
    }
}

/// The DMA for a fetch that was armed on cycle `e`.
pub fn schedule_fetch(addr: u16, is_load: bool, load_from: Option<u64>, e: u64) -> (r:
    ScheduledDmcDma)
    ensures
        r == fetch_dma(addr, is_load, load_from, e),
{
    reveal(later);
    if is_load {
        let set: u64 = match load_from {
            Some(h) => h,
            None => first_get(e.wrapping_add(3)),
        };
        let now: u64 = first_get(e);
        ScheduledDmcDma {
            addr,
            kind: DmcDmaKind::Load,
            halt_from: if set < now {
                now
            } else {
                set
            },
        }
    } else {
        ScheduledDmcDma {
            addr,
            kind: DmcDmaKind::Reload,
            halt_from: first_put(e.wrapping_add(1)),
        }
    }
}

/// The DMA that a sample leaves which has ended by itself on cycle `e`.
pub fn schedule_after_stop(last_addr: u16, e: u64) -> (r: ScheduledDmcDma)
    ensures
        r == stop_dma(last_addr, e),
{
    reveal(later);
    if e % 2 == 0 {
        ScheduledDmcDma {
            addr: last_addr,
            kind: DmcDmaKind::Unexpected,
            halt_from: e.wrapping_add(1),
        }
    } else {
        ScheduledDmcDma { addr: 0, kind: DmcDmaKind::Aborted, halt_from: e.wrapping_add(2) }
    }
}

/// What becomes of a scheduled DMA when a `$4015` write on cycle `now` stops
/// the DMC.
pub open spec fn after_disable(dma: Option<ScheduledDmcDma>, now: u64) -> Option<
    ScheduledDmcDma,
> {
    match dma {
        Some(s) => match s.kind {
            DmcDmaKind::Reload => if now / 2 + 1 >= s.halt_from / 2 {
                Some(ScheduledDmcDma { kind: DmcDmaKind::Aborted, ..s })
            } else {
                None
            },
            DmcDmaKind::Load => None,
            _ => Some(s),
        },
        None => None,
    }
}

/// What becomes of a scheduled DMA when a `$4015` write on cycle `now` stops
/// the DMC.
pub fn disable_dma(dma: Option<ScheduledDmcDma>, now: u64) -> (r: Option<ScheduledDmcDma>)
    ensures
        r == after_disable(dma, now),
{
    match dma {
        Some(s) => match s.kind {
            DmcDmaKind::Reload => {
                if now / 2 + 1 >= s.halt_from / 2 {
                    Some(
                        ScheduledDmcDma {
                            addr: s.addr,
                            kind: DmcDmaKind::Aborted,
                            halt_from: s.halt_from,
                        },
                    )
                } else {
                    None
                }
            },
            DmcDmaKind::Load => None,
            _ => Some(s),
        },
        None => None,
    }
}

/// Whether cycle `offset` of an instruction is a write cycle.
pub open spec fn writes_at(write_mask: u32, offset: int) -> bool {
    0 <= offset < 32 && (write_mask >> (offset as u32)) & 1 == 1
}

/// Offset of write cycle `n`, counted from 0, among the cycles from `from` on.
pub open spec fn write_from(write_mask: u32, n: nat, from: nat) -> Option<nat>
    decreases 32 - from,
{
    if from >= 32 {
        None
    } else if !writes_at(write_mask, from as int) {
        write_from(write_mask, n, from + 1)
    } else if n == 0 {
        Some(from)
    } else {
        write_from(write_mask, (n - 1) as nat, from + 1)
    }
}

/// Offset of write cycle `n` of an instruction of `len` cycles; the last cycle
/// if there is no such write.
pub open spec fn write_offset(write_mask: u32, n: nat, len: u32) -> nat {
    match write_from(write_mask, n, 0) {
        Some(o) => o,
        None => if len > 0 { (len - 1) as nat } else { 0 },
    }
}

/// First get cycle at or after `c`.
pub fn first_get(c: u64) -> (r: u64)
    ensures
        r == get_from(c),
{
    reveal(later);
    if c % 2 == 0 {
        c
    } else {
        c.wrapping_add(1)
    }
}

/// First put cycle at or after `c`.
pub fn first_put(c: u64) -> (r: u64)
    ensures
        r == put_from(c),
{
    reveal(later);
    if c % 2 == 1 {
        c
    } else {
        c.wrapping_add(1)
    }
}

/// `n` cycles on.
pub fn cycles_after(c: u64, n: u32) -> (r: u64)
    ensures
        r == later(c, n as int),
{
    reveal(later);
    c.wrapping_add(n as u64)
}

/// The cycle before.
pub fn cycle_before(c: u64) -> (r: u64)
    ensures
        r == later(c, -1),
{
    reveal(later);
    c.wrapping_sub(1)
}

/// Cycles from `start` to `end`.
pub fn cycles_between(start: u64, end: u64) -> (r: u64)
    ensures
        r == later(end, -start),
{
    reveal(later);
    end.wrapping_sub(start)
}

/// Whether cycle `offset` of an instruction is a read cycle.
pub fn is_read_cycle(write_mask: u32, offset: u32) -> (r: bool)
    ensures
        r == !writes_at(write_mask, offset as int),
{
    if offset >= 32 {
        return true;
    }
    proof {
        let m = write_mask >> offset;
        assert(m & 1 == 0 || m & 1 == 1) by (bit_vector);
    }
    (write_mask >> offset) & 1 == 0
}

/// Offset of write cycle `n` of an instruction of `len` cycles; the last cycle
/// if there is no such write.
pub fn nth_write_offset(write_mask: u32, n: u32, len: u32) -> (r: u32)
    ensures
        r == write_offset(write_mask, n as nat, len),
{
    let mut seen: u32 = 0;
    let mut o: u32 = 0;
    while o < 32
        invariant
            o <= 32,
            seen <= n,
            write_from(write_mask, n as nat, 0) == write_from(
                write_mask,
                (n - seen) as nat,
                o as nat,
            ),
        decreases 32 - o,
    {
        if !is_read_cycle(write_mask, o) {
            if seen == n {
                return o;
            }
            seen = seen + 1;
        }
        o = o + 1;
    }
    len.saturating_sub(1)
}

/// What [`nth_write_offset`] finds is a write cycle with as many write cycles
/// before it as asked for.
pub proof fn lemma_write_found(write_mask: u32, n: nat, from: nat)
    ensures
        write_from(write_mask, n, from) matches Some(o) ==> writes_at(write_mask, o as int)
            && from <= o < 32 && writes_between(write_mask, from, o) == n,
        write_from(write_mask, n, from) is None ==> writes_between(write_mask, from, 32) <= n,
    decreases 32 - from,
{
    if from < 32 {
        if writes_at(write_mask, from as int) {
            if n > 0 {
                lemma_write_found(write_mask, (n - 1) as nat, from + 1);
            }
        } else {
            lemma_write_found(write_mask, n, from + 1);
        }
    }
}

/// Number of write cycles from `a` up to and without `b`.
pub open spec fn writes_between(write_mask: u32, a: nat, b: nat) -> nat
    decreases b - a,
{
    if a >= b {
        0
    } else if writes_at(write_mask, a as int) {
        1 + writes_between(write_mask, a + 1, b)
    } else {
        writes_between(write_mask, a + 1, b)
    }
}

} // verus!
