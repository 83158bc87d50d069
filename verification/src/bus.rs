//! The CPU's view of the machine: 64 KiB of address space.
//!
//! | Range             | What answers                                    |
//! |-------------------|-------------------------------------------------|
//! | `$0000` - `$1FFF` | 2 KiB of RAM, four times                        |
//! | `$2000` - `$3FFF` | nothing                                         |
//! | `$4000` - `$4013` | APU channel registers                           |
//! | `$4014`           | OAM DMA: halts the CPU                          |
//! | `$4015`           | APU status                                      |
//! | `$4017`           | APU frame counter                               |
//! | `$401B` - `$401D` | interrupt timer, if the tune uses it            |
//! | `$4018` - `$5FF7` | expansion chips                                 |
//! | `$5FF6` - `$5FFF` | bank selection                                  |
//! | `$6000` - `$7FFF` | 8 KiB of cartridge RAM                          |
//! | `$8000` - `$FFFF` | program, or RAM with the FDS                    |
//!
//! DMAs halt the CPU on the cycles on which the hardware does: the machine is
//! walked through an instruction cycle by cycle, along the pattern of its read
//! and write cycles.
use vstd::prelude::*;
use crate::apu::Apu2A03;
pub use crate::dma::{DMC_DMA_DURING_OAM_STALL_CYCLES, OAM_DMA_BASE_STALL_CYCLES};
use crate::dma::{cycle_before, cycles_after, schedule_after_stop, schedule_fetch, ScheduledDmcDma};
pub use crate::timer::Nsf2IrqTimer;

verus! {

pub const RAM_SIZE: usize = 0x0800;

pub const CART_RAM_SIZE: usize = 0x2000;

pub const PRG_ROM_SIZE: usize = 0x8000;

/// Size of one bank.
pub const BANK_SIZE: usize = 0x1000;

/// Number of banks that are visible at `$8000` and up.
pub const NUM_BANK_WINDOWS: usize = 8;

pub struct NesBus {
    pub ram: [u8; 0x0800],
    pub cart_ram: [u8; 0x2000],
    /// The program, if it is not bankswitched.
    pub prg: [u8; 0x8000],
    pub apu: Apu2A03,
    /// CPU cycles since power-on.
    pub cycles: u64,
    /// The program cut into banks, if it is bankswitched.
    pub bank_pool: Vec<[u8; 0x1000]>,
    /// Which bank each window shows.
    pub bank_select: [u8; 8],
    pub bankswitched: bool,
    /// With the FDS, `$8000` and up is RAM.
    pub fds_enabled: bool,
    pub fds_ram: Vec<u8>,
    pub nsf2_timer: Nsf2IrqTimer,
    /// `$FFFA` to `$FFFF` come from `vector_overlay`.
    pub vector_overlay_active: bool,
    pub vector_overlay: [u8; 6],
    pub nmi_pending: bool,
    /// CPU cycles that DMAs have stolen and nobody has asked for yet.
    pub pending_dma_stall: u32,
    pub dmc_dma: Option<ScheduledDmcDma>,
    /// Cycle from which an OAM DMA tries to halt the CPU.
    pub oam_halt_from: Option<u64>,
    /// Cycle from which the next load DMA will try to halt the CPU.
    pub dmc_load_halt_from: Option<u64>,
    /// An instruction is being carried out.
    pub in_instruction: bool,
    /// Writes that it has made so far.
    pub instr_write_calls: u32,
    /// Which of them started an OAM DMA.
    pub oam_trigger_call: Option<u32>,
    /// Writes that take effect on their own cycle: which write of the
    /// instruction, address, value.
    pub deferred_writes: Vec<(u32, u16, u8)>,
}

/// What moves with time.
pub struct Machine {
    pub apu: Whole<Apu2A03>,
    pub timer: Nsf2IrqTimer,
    pub cycles: u64,
    pub stall: u32,
    pub dma: Option<ScheduledDmcDma>,
    pub load_from: Option<u64>,
}

/// What holds bytes.
#[verifier::ext_equal]
pub struct Memory {
    pub ram: Seq<u8>,
    pub cart_ram: Seq<u8>,
    pub prg: Seq<u8>,
    pub bank_pool: Seq<Seq<u8>>,
    pub bank_select: Seq<u8>,
    pub bankswitched: bool,
    pub fds_enabled: bool,
    pub fds_ram: Seq<u8>,
    pub overlay_active: bool,
    pub overlay: Seq<u8>,
}

/// A large part of a state, carried as one value.
pub struct Whole<T>(pub T);

/// Contents of [`NesBus`].
#[verifier::ext_equal]
pub struct BusView {
    pub mem: Memory,
    pub machine: Whole<Machine>,
    pub oam_from: Option<u64>,
    pub nmi_pending: bool,
    pub in_instruction: bool,
    pub calls: u32,
    pub oam_call: Option<u32>,
    pub deferred: Seq<(u32, u16, u8)>,
}

impl BusView {
    /// The parts that move with time.
    pub open spec fn mach(self) -> Machine {
        self.machine.0
    }
}

impl Machine {
    /// `n` cycles pass.
    #[verifier::opaque]
    pub open spec fn advanced(self, n: nat) -> Self {
        Machine {
            apu: Whole(self.apu.0.ticked(n)),
            timer: self.timer.ticked(n),
            cycles: crate::dma::later(self.cycles, n as int),
            ..self
        }
    }

    /// A DMC fetch that waits becomes a scheduled DMA. `e` is the cycle that
    /// has just passed.
    #[verifier::opaque]
    pub open spec fn fetch_scheduled(self, e: u64) -> Self {
        if !self.apu.0.dmc.pending_fetch {
            self
        } else {
            let is_load = self.apu.0.dmc.pending_fetch_is_load;
            Machine {
                apu: Whole(self.apu.0.fetch_taken()),
                dma: Some(
                    crate::dma::fetch_dma(
                        self.apu.0.dmc.pending_fetch_addr,
                        is_load,
                        self.load_from,
                        e,
                    ),
                ),
                load_from: if is_load { None } else { self.load_from },
                ..self
            }
        }
    }

    /// A sample that has ended by itself on cycle `e` leaves a DMA; not on PAL
    /// machines, nor where another DMA is scheduled.
    #[verifier::opaque]
    pub open spec fn stop_noticed(self, e: u64) -> Self {
        Machine {
            apu: Whole(self.apu.0.stop_taken()),
            dma: if self.apu.0.dmc.implicit_stop_event && !self.apu.0.pal && self.dma is None {
                Some(crate::dma::stop_dma(self.apu.0.dmc.last_fetch_addr, e))
            } else {
                self.dma
            },
            ..self
        }
    }

    /// What the DMC did on the cycle that has just passed is picked up.
    #[verifier::opaque]
    pub open spec fn observed(self) -> Self {
        let e = crate::dma::later(self.cycles, -1);
        self.fetch_scheduled(e).stop_noticed(e)
    }

    /// `n` cycles pass. While the DMC may fetch it is looked at after every
    /// cycle; otherwise time moves by up to eight cycles at once.
    pub open spec fn ticked(self, n: nat) -> Self
        decreases n,
    {
        if n == 0 {
            self
        } else if self.apu.0.dmc_busy() {
            self.advanced(1).observed().ticked((n - 1) as nat)
        } else {
            let k = if n < 8 { n } else { 8 };
            self.advanced(k).ticked((n - k) as nat)
        }
    }

    /// A `$4015` write switches the DMC. On sets the cycle from which a load
    /// DMA tries to halt: a get cycle, three cycles on or four. Off drops a
    /// load, and a reload too unless it is due in this APU cycle or the next:
    /// that one is aborted.
    pub open spec fn dmc_switched(self, on: bool) -> Self {
        if on {
            Machine {
                apu: Whole(self.apu.0.with_dmc_enabled(true)),
                load_from: Some(crate::dma::get_from(crate::dma::later(self.cycles, 3))),
                ..self
            }
        } else {
            let dropped = crate::dma::after_disable(self.dma, self.cycles);
            Machine {
                apu: Whole((if self.dma is Some && dropped is None {
                    self.apu.0.fetch_cancelled()
                } else {
                    self.apu.0
                }).with_dmc_enabled(false)),
                dma: dropped,
                load_from: None,
                ..self
            }
        }
    }

    /// A write to a device register. `fds` and `overlay` tell whether the FDS
    /// is on and the vectors are laid over.
    pub open spec fn written(self, addr: u16, value: u8, fds: bool, overlay: bool) -> Self {
        if 0x4000 <= addr <= 0x4013 {
            Machine { apu: Whole(self.apu.0.register_written(addr, value)), ..self }
        } else if addr == 0x4015 {
            (Machine {
                apu: Whole(self.apu.0.status_written_except_dmc(value)),
                ..self
            }).dmc_switched(value & 0x10 != 0)
        } else if addr == 0x4017 {
            Machine { apu: Whole(self.apu.0.frame_written(value)), ..self }
        } else if 0x401B <= addr <= 0x401D && self.timer.enabled {
            Machine { timer: self.timer.written(addr, value), ..self }
        } else if reaches_expansion(addr, fds, overlay) {
            Machine { apu: Whole(self.apu.0.expansion_written(addr, value)), ..self }
        } else {
            self
        }
    }

    /// Byte that a device register returns, at `$4015` to `$5FFF`.
    pub open spec fn read_value(self, addr: u16) -> u8 {
        if addr == 0x4015 {
            self.apu.0.status_value()
        } else if addr <= 0x4017 {
            0xFF
        } else if 0x401B <= addr <= 0x401D && self.timer.enabled {
            self.timer.read_value(addr)->0
        } else {
            self.apu.0.expansion.read_value(addr)
        }
    }

    /// State after a read of a device register, at `$4015` to `$5FFF`.
    pub open spec fn after_read(self, addr: u16) -> Self {
        if addr == 0x4015 {
            Machine { apu: Whole(self.apu.0.status_read()), ..self }
        } else if addr <= 0x4017 {
            self
        } else if 0x401B <= addr <= 0x401D && self.timer.enabled {
            Machine { timer: self.timer.after_read(addr), ..self }
        } else {
            Machine { apu: Whole(self.apu.0.expansion_read(addr)), ..self }
        }
    }
}

/// Whether a write goes to the expansion chips, apart from the interrupt
/// timer's registers while it is on.
pub open spec fn reaches_expansion(addr: u16, fds: bool, overlay: bool) -> bool {
    ||| 0x4018 <= addr < 0x5FF6
    ||| (addr == 0x5FF6 || addr == 0x5FF7) && !fds
    ||| addr >= 0x8000 && !(overlay && addr >= 0xFFFE)
}

impl BusView {
    /// `n` cycles pass.
    pub open spec fn ticked(self, n: nat) -> Self {
        BusView { machine: Whole(self.mach().ticked(n)), ..self }
    }

    /// Byte that a read returns.
    #[verifier::opaque]
    pub open spec fn read_value(self, addr: u16) -> u8 {
        if addr < 0x2000 {
            self.mem.ram[(addr % 0x0800) as int]
        } else if addr < 0x4015 {
            0xFF
        } else if addr < 0x6000 {
            self.mach().read_value(addr)
        } else if addr < 0x8000 {
            self.mem.cart_ram[addr - 0x6000]
        } else if addr >= 0xFFFA && self.mem.overlay_active {
            self.mem.overlay[addr - 0xFFFA]
        } else {
            self.mem.program_byte(addr)
        }
    }

    /// State after a read: some device registers change, and the expansion
    /// chips watch reads of the program.
    #[verifier::opaque]
    pub open spec fn after_read(self, addr: u16) -> Self {
        if addr < 0x4015 {
            self
        } else if addr < 0x6000 {
            BusView { machine: Whole(self.mach().after_read(addr)), ..self }
        } else if addr < 0x8000 || (addr >= 0xFFFA && self.mem.overlay_active) {
            self
        } else {
            BusView {
                machine: Whole(Machine {
                    apu: Whole(self.mach().apu.0.prg_observed(addr, self.mem.program_byte(addr))),
                    ..self.mach()
                }),
                ..self
            }
        }
    }

    /// State after a write takes effect.
    #[verifier::opaque]
    pub open spec fn applied(self, addr: u16, value: u8) -> Self {
        BusView {
            mem: self.mem.written(addr, value),
            machine: Whole(self.mach().written(
                addr,
                value,
                self.mem.fds_enabled,
                self.mem.overlay_active,
            )),
            ..self
        }
    }
}

/// `dst` with `src` laid over it from index `at` on; what falls outside is
/// dropped.
pub open spec fn overlaid(dst: Seq<u8>, at: int, src: Seq<u8>) -> Seq<u8> {
    Seq::new(
        dst.len(),
        |i: int|
            if at <= i < at + src.len() {
                src[i - at]
            } else {
                dst[i]
            },
    )
}

impl Memory {
    /// Byte of the program at `$8000` and up. A bank that does not exist
    /// reads as `$FF`.
    pub open spec fn program_byte(self, addr: u16) -> u8 {
        let off = addr - 0x8000;
        if self.fds_enabled {
            self.fds_ram[off]
        } else if self.bankswitched {
            let sel = self.bank_select[off / 0x1000] as int;
            if sel < self.bank_pool.len() { self.bank_pool[sel][off % 0x1000] } else { 0xFF }
        } else {
            self.prg[off]
        }
    }

    /// A program laid into memory from `load_addr` on. What falls below
    /// `$6000` or above `$FFFF` is dropped.
    pub open spec fn loaded(self, load_addr: u16, program: Seq<u8>) -> Self {
        Memory {
            cart_ram: overlaid(self.cart_ram, load_addr - 0x6000, program),
            prg: overlaid(self.prg, load_addr - 0x8000, program),
            ..self
        }
    }

    /// The RAM at `$8000` and up with a bank copied into a window; a bank that
    /// does not exist leaves it alone.
    pub open spec fn fds_bank_shown(self, window: int, sel: u8) -> Self {
        if self.fds_enabled && sel < self.bank_pool.len() {
            Memory {
                fds_ram: overlaid(self.fds_ram, 0x1000 * window, self.bank_pool[sel as int]),
                ..self
            }
        } else {
            self
        }
    }

    /// All windows below `n` shown as `bank_select` says.
    pub open spec fn fds_banks_shown(self, n: nat) -> Self
        decreases n,
    {
        if n == 0 {
            self
        } else {
            self.fds_banks_shown((n - 1) as nat).fds_bank_shown(
                n - 1,
                self.bank_select[n - 1],
            )
        }
    }

    /// The cartridge RAM with a bank copied into one half; a bank that does
    /// not exist leaves it alone.
    pub open spec fn cart_bank_shown(self, half: int, sel: u8) -> Self {
        if sel < self.bank_pool.len() {
            Memory {
                cart_ram: overlaid(self.cart_ram, 0x1000 * half, self.bank_pool[sel as int]),
                ..self
            }
        } else {
            self
        }
    }

    /// A write to memory or to a bank register. Plain program memory keeps
    /// its contents; of the vectors only the last is writable while they are
    /// laid over.
    pub open spec fn written(self, addr: u16, value: u8) -> Self {
        if addr < 0x2000 {
            Memory { ram: self.ram.update((addr % 0x0800) as int, value), ..self }
        } else if addr < 0x5FF6 {
            self
        } else if addr < 0x5FF8 {
            if self.fds_enabled { self.cart_bank_shown(addr - 0x5FF6, value) } else { self }
        } else if addr < 0x6000 {
            (Memory {
                bank_select: self.bank_select.update(addr - 0x5FF8, value),
                ..self
            }).fds_bank_shown(addr - 0x5FF8, value)
        } else if addr < 0x8000 {
            Memory { cart_ram: self.cart_ram.update(addr - 0x6000, value), ..self }
        } else {
            Memory {
                fds_ram: if self.fds_enabled {
                    self.fds_ram.update(addr - 0x8000, value)
                } else {
                    self.fds_ram
                },
                overlay: if self.overlay_active && addr >= 0xFFFE {
                    self.overlay.update(addr - 0xFFFA, value)
                } else {
                    self.overlay
                },
                ..self
            }
        }
    }
}

/// Stolen cycles add up, to the largest number that fits.
pub open spec fn stall_sum(stall: u32, n: nat) -> u32 {
    if stall + n > u32::MAX { u32::MAX } else { (stall + n) as u32 }
}

/// The bytes of each bank.
pub open spec fn banks(pool: Seq<[u8; 0x1000]>) -> Seq<Seq<u8>> {
    Seq::new(pool.len(), |i: int| pool[i]@)
}

impl View for NesBus {
    type V = BusView;

    open spec fn view(&self) -> BusView {
        BusView {
            mem: Memory {
                ram: self.ram@,
                cart_ram: self.cart_ram@,
                prg: self.prg@,
                bank_pool: banks(self.bank_pool@),
                bank_select: self.bank_select@,
                bankswitched: self.bankswitched,
                fds_enabled: self.fds_enabled,
                fds_ram: self.fds_ram@,
                overlay_active: self.vector_overlay_active,
                overlay: self.vector_overlay@,
            },
            machine: Whole(Machine {
                apu: Whole(self.apu),
                timer: self.nsf2_timer,
                cycles: self.cycles,
                stall: self.pending_dma_stall,
                dma: self.dmc_dma,
                load_from: self.dmc_load_halt_from,
            }),
            oam_from: self.oam_halt_from,
            nmi_pending: self.nmi_pending,
            in_instruction: self.in_instruction,
            calls: self.instr_write_calls,
            oam_call: self.oam_trigger_call,
            deferred: self.deferred_writes@,
        }
    }
}

/// Lay `src` over `dst` from index `at` on; what falls outside is dropped.
fn lay_over<const N: usize>(dst: &mut [u8; N], at: i32, src: &[u8])
    requires
        N <= 0x8000,
        -0x10000 <= at <= 0x10000,
    ensures
        final(dst)@ == overlaid(old(dst)@, at as int, src@),
{
    let n: i32 = N as i32;
    let len: usize = src.len();
    let mut i: i32 = 0;
    while i < n
        invariant
            0 <= i <= n,
            n == N,
            N <= 0x8000,
            len == src@.len(),
            -0x10000 <= at <= 0x10000,
            forall|j: int|
                0 <= j < i ==> dst@[j] == overlaid(old(dst)@, at as int, src@)[j],
            forall|j: int| i <= j < n ==> dst@[j] == old(dst)@[j],
        decreases n - i,
    {
        if at <= i && ((i - at) as usize) < len {
            dst[i as usize] = src[(i - at) as usize];
        }
        i = i + 1;
    }
    assert(dst@ =~= overlaid(old(dst)@, at as int, src@));
}

/// Copy a bank over `dst` from index `at` on.
fn lay_bank(dst: &mut Vec<u8>, at: usize, src: &[u8; 0x1000])
    requires
        at <= 0x7000,
        at + 0x1000 <= old(dst)@.len(),
    ensures
        final(dst)@ == overlaid(old(dst)@, at as int, src@),
{
    let mut i: usize = 0;
    while i < 0x1000
        invariant
            i <= 0x1000,
            at <= 0x7000,
            at + 0x1000 <= old(dst)@.len(),
            dst@.len() == old(dst)@.len(),
            forall|j: int| 0 <= j < i ==> dst@[at + j] == src@[j],
            forall|j: int|
                0 <= j < dst@.len() && !(at <= j < at + i) ==> dst@[j] == old(dst)@[j],
        decreases 0x1000 - i,
    {
        dst.set(at + i, src[i]);
        i = i + 1;
    }
    assert forall|j: int| 0 <= j < dst@.len() implies dst@[j] == overlaid(
        old(dst)@,
        at as int,
        src@,
    )[j] by {
        if at <= j < at + 0x1000 {
            assert(dst@[at + (j - at)] == src@[j - at]);
        }
    }
    assert(dst@ =~= overlaid(old(dst)@, at as int, src@));
}

impl NesBus {
    /// The parts that move with time are well formed, and the RAM of the FDS
    /// is there when it is on.
    #[verifier::opaque]
    pub open spec fn wf(self) -> bool {
        &&& self.machine_wf()
        &&& self.fds_enabled ==> self.fds_ram@.len() == 0x8000
        &&& self.fds_ram@.len() == 0 || self.fds_ram@.len() == 0x8000
    }

    /// Lay a program into memory from `load_addr` on. What falls below `$6000`
    /// or above `$FFFF` is dropped.
    #[verifier::spinoff_prover]
    pub fn load_program(&mut self, load_addr: u16, program: &[u8])
        ensures
            final(self)@ == (BusView {
                mem: old(self)@.mem.loaded(load_addr, program@),
                ..old(self)@
            }),
            old(self).wf() ==> final(self).wf(),
    {
        reveal(NesBus::wf);
        lay_over(&mut self.cart_ram, load_addr as i32 - 0x6000, program);
        lay_over(&mut self.prg, load_addr as i32 - 0x8000, program);
    }

    /// Copy the bank that `sel` names into a window of the RAM at `$8000` and
    /// up, if the FDS is on and the bank exists.
    #[verifier::spinoff_prover]
    pub(crate) fn show_fds_bank(&mut self, window: usize, sel: u8)
        requires
            old(self).wf(),
            window < 8,
        ensures
            final(self)@ == (BusView {
                mem: old(self)@.mem.fds_bank_shown(window as int, sel),
                ..old(self)@
            }),
            final(self).wf(),
            final(self).bank_select == old(self).bank_select,
    {
        reveal(NesBus::wf);
        if self.fds_enabled && (sel as usize) < self.bank_pool.len() {
            lay_bank(&mut self.fds_ram, window * 0x1000, &self.bank_pool[sel as usize]);
        }
    }

    /// A write to memory or to a bank register.
    #[verifier::spinoff_prover]
    pub(crate) fn write_memory(&mut self, addr: u16, value: u8)
        requires
            old(self).wf(),
        ensures
            final(self)@ == (BusView {
                mem: old(self)@.mem.written(addr, value),
                ..old(self)@
            }),
            final(self).wf(),
    {
        if addr < 0x2000 {
            self.write_ram(addr, value);
        } else if addr < 0x5FF6 {
        } else if addr < 0x5FF8 {
            self.write_cart_bank(addr, value);
        } else if addr < 0x6000 {
            self.write_bank_select(addr, value);
        } else if addr < 0x8000 {
            self.write_cart_ram(addr, value);
        } else {
            self.write_high(addr, value);
        }
    }

    #[verifier::spinoff_prover]
    fn write_ram(&mut self, addr: u16, value: u8)
        requires
            old(self).wf(),
            addr < 0x2000,
        ensures
            final(self)@ == (BusView {
                mem: old(self)@.mem.written(addr, value),
                ..old(self)@
            }),
            final(self).wf(),
    {
        reveal(NesBus::wf);
        self.ram[(addr % 0x0800) as usize] = value;
    }

    /// `$5FF6` and `$5FF7`: with the FDS, copy a bank into the cartridge RAM.
    #[verifier::spinoff_prover]
    fn write_cart_bank(&mut self, addr: u16, value: u8)
        requires
            old(self).wf(),
            0x5FF6 <= addr < 0x5FF8,
        ensures
            final(self)@ == (BusView {
                mem: old(self)@.mem.written(addr, value),
                ..old(self)@
            }),
            final(self).wf(),
    {
        reveal(NesBus::wf);
        if self.fds_enabled && (value as usize) < self.bank_pool.len() {
            let at: i32 = if addr == 0x5FF6 { 0 } else { 0x1000 };
            lay_over(&mut self.cart_ram, at, &self.bank_pool[value as usize]);
        }
    }

    /// `$5FF8` to `$5FFF`: show a bank.
    #[verifier::spinoff_prover]
    fn write_bank_select(&mut self, addr: u16, value: u8)
        requires
            old(self).wf(),
            0x5FF8 <= addr < 0x6000,
        ensures
            final(self)@ == (BusView {
                mem: old(self)@.mem.written(addr, value),
                ..old(self)@
            }),
            final(self).wf(),
    {
        reveal(NesBus::wf);
        self.bank_select[(addr - 0x5FF8) as usize] = value;
        self.show_fds_bank((addr - 0x5FF8) as usize, value);
    }

    #[verifier::spinoff_prover]
    fn write_cart_ram(&mut self, addr: u16, value: u8)
        requires
            old(self).wf(),
            0x6000 <= addr < 0x8000,
        ensures
            final(self)@ == (BusView {
                mem: old(self)@.mem.written(addr, value),
                ..old(self)@
            }),
            final(self).wf(),
    {
        reveal(NesBus::wf);
        self.cart_ram[(addr - 0x6000) as usize] = value;
    }

    /// `$8000` and up: RAM with the FDS, and the vectors while they are laid
    /// over.
    #[verifier::spinoff_prover]
    fn write_high(&mut self, addr: u16, value: u8)
        requires
            old(self).wf(),
            addr >= 0x8000,
        ensures
            final(self)@ == (BusView {
                mem: old(self)@.mem.written(addr, value),
                ..old(self)@
            }),
            final(self).wf(),
    {
        reveal(NesBus::wf);
        if self.fds_enabled {
            self.fds_ram.set((addr - 0x8000) as usize, value);
        }
        if self.vector_overlay_active && addr >= 0xFFFE {
            self.vector_overlay[(addr - 0xFFFA) as usize] = value;
        }
    }

    /// Byte of the program at `$8000` and up.
    #[verifier::spinoff_prover]
    pub(crate) fn read_program(&self, addr: u16) -> (r: u8)
        requires
            self.wf(),
            addr >= 0x8000,
        ensures
            r == self@.mem.program_byte(addr),
    {
        reveal(NesBus::wf);
        let off: usize = (addr - 0x8000) as usize;
        if self.fds_enabled {
            self.fds_ram[off]
        } else if self.bankswitched {
            let sel: usize = self.bank_select[off / 0x1000] as usize;
            if sel < self.bank_pool.len() {
                self.bank_pool[sel][off % 0x1000]
            } else {
                0xFF
            }
        } else {
            self.prg[off]
        }
    }

    /// The parts that move with time are well formed.
    pub open spec fn machine_wf(self) -> bool {
        self.apu.wf() && self.nsf2_timer.wf()
    }

    /// Advance the machine by `n` cycles without looking at the DMC.
    #[verifier::spinoff_prover]
    fn advance(&mut self, n: u32)
        requires
            old(self).machine_wf(),
        ensures
            final(self)@ == (BusView {
                machine: Whole(old(self)@.mach().advanced(n as nat)),
                ..old(self)@
            }),
            final(self).machine_wf(),
    {
        reveal(Machine::advanced);
        self.apu.tick_cpu_cycles(n);
        self.nsf2_timer.tick(n);
        self.cycles = cycles_after(self.cycles, n);
    }

    /// Advance the machine by `n` cycles.
    #[verifier::spinoff_prover]
    pub fn tick_machine(&mut self, n: u32)
        requires
            old(self).wf(),
        ensures
            final(self)@ == old(self)@.ticked(n as nat),
            final(self).wf(),
    {
        reveal(NesBus::wf);
        self.tick_devices(n);
    }

    #[verifier::spinoff_prover]
    fn tick_devices(&mut self, n: u32)
        requires
            old(self).machine_wf(),
        ensures
            final(self)@ == (BusView {
                machine: Whole(old(self)@.mach().ticked(n as nat)),
                ..old(self)@
            }),
            final(self).machine_wf(),
    {
        let mut rem: u32 = n;
        while rem > 0
            invariant
                self.machine_wf(),
                self@ == (BusView { machine: Whole(self@.mach()), ..old(self)@ }),
                self@.mach().ticked(rem as nat) == old(self)@.mach().ticked(n as nat),
            decreases rem,
        {
            if self.apu.dmc_activity_possible() {
                self.advance(1);
                rem = rem - 1;
                self.observe_dmc_events();
            } else {
                let k: u32 = if rem < 8 { rem } else { 8 };
                self.advance(k);
                rem = rem - k;
            }
        }
    }

    /// Pick up what the DMC did on the cycle that has just passed.
    #[verifier::spinoff_prover]
    fn observe_dmc_events(&mut self)
        requires
            old(self).machine_wf(),
        ensures
            final(self)@ == (BusView {
                machine: Whole(old(self)@.mach().observed()),
                ..old(self)@
            }),
            final(self).machine_wf(),
    {
        reveal(Machine::observed);
        let e: u64 = cycle_before(self.cycles);
        self.schedule_fetch(e);
        self.notice_stop(e);
    }

    #[verifier::spinoff_prover]
    fn schedule_fetch(&mut self, e: u64)
        requires
            old(self).machine_wf(),
        ensures
            final(self)@ == (BusView {
                machine: Whole(old(self)@.mach().fetch_scheduled(e)),
                ..old(self)@
            }),
            final(self).machine_wf(),
    {
        reveal(Machine::fetch_scheduled);
        if let Some((addr, is_load)) = self.apu.dmc_take_fetch() {
            self.dmc_dma = Some(schedule_fetch(addr, is_load, self.dmc_load_halt_from, e));
            if is_load {
                self.dmc_load_halt_from = None;
            }
        }
    }

    #[verifier::spinoff_prover]
    fn notice_stop(&mut self, e: u64)
        requires
            old(self).machine_wf(),
        ensures
            final(self)@ == (BusView {
                machine: Whole(old(self)@.mach().stop_noticed(e)),
                ..old(self)@
            }),
            final(self).machine_wf(),
    {
        reveal(Machine::stop_noticed);
        let pal = self.apu.is_pal();
        let addr: u16 = self.apu.dmc_last_fetch_addr();
        if self.apu.dmc_take_implicit_stop() && !pal && self.dmc_dma.is_none() {
            self.dmc_dma = Some(schedule_after_stop(addr, e));
        }
    }
}

} // verus!
