//! A tune put into the machine.
use vstd::prelude::*;
use crate::apu::Apu2A03;
use crate::bus::{BusView, Machine, Memory, NesBus, Whole};
use crate::header::{ExpansionChips, HeaderView, NsfHeader};
use crate::timer::Nsf2IrqTimer;

verus! {

/// `n` zero bytes.
pub open spec fn zeros(n: nat) -> Seq<u8> {
    Seq::new(n, |i: int| 0u8)
}

/// Whether any of the initial banks is not zero: then the tune is
/// bankswitched.
pub open spec fn is_banked(init: Seq<u8>) -> bool {
    exists|i: int| 0 <= i < init.len() && init[i] != 0
}

/// One bank of a program that starts `pad` bytes into the first one; what it
/// does not fill is zero.
pub open spec fn bank_of(pad: int, program: Seq<u8>, i: int) -> Seq<u8> {
    Seq::new(
        0x1000,
        |j: int|
            {
                let k = 0x1000 * i + j - pad;
                if 0 <= k < program.len() {
                    program[k]
                } else {
                    0u8
                }
            },
    )
}

/// A program cut into banks; its load address says how far into the first one
/// it starts.
pub open spec fn pool_of(load_addr: u16, program: Seq<u8>) -> Seq<Seq<u8>> {
    let pad = (load_addr % 0x1000) as int;
    Seq::new(
        ((pad + program.len() + 0xFFF) / 0x1000) as nat,
        |i: int| bank_of(pad, program, i),
    )
}

impl Memory {
    /// A bankswitched tune put in. With the FDS the first banks are copied
    /// into the RAM.
    pub open spec fn banked(self, h: HeaderView) -> Self {
        let m = Memory {
            bank_pool: pool_of(h.load_addr, h.program),
            bank_select: h.bankswitch_init,
            ..self
        };
        if self.fds_enabled {
            (Memory { fds_ram: zeros(0x8000), ..m }).fds_banks_shown(8)
        } else {
            m
        }
    }

    /// The RAM of the FDS with the program in it.
    pub open spec fn program_copied(self) -> Self {
        Memory { fds_ram: self.prg, ..self }
    }

    /// A tune put in, the FDS on or off. The RAM of the FDS takes its contents
    /// from the program.
    #[verifier::opaque]
    pub open spec fn tune_loaded(self, h: HeaderView) -> Self {
        let m = Memory {
            fds_enabled: h.expansion.0 & 0x04 != 0,
            bankswitched: is_banked(h.bankswitch_init),
            ..self
        };
        if is_banked(h.bankswitch_init) {
            m.banked(h)
        } else if m.fds_enabled {
            m.loaded(h.load_addr, h.program).program_copied()
        } else {
            m.loaded(h.load_addr, h.program)
        }
    }

    /// The vectors laid over: those for NMI and reset as given, that for IRQ
    /// as the memory beneath has it.
    #[verifier::opaque]
    pub open spec fn overlay_armed(self, nmi: u16, reset: u16) -> Self {
        Memory {
            overlay_active: true,
            overlay: seq![
                crate::cpu::low(nmi),
                crate::cpu::high(nmi),
                crate::cpu::low(reset),
                crate::cpu::high(reset),
                self.program_byte(0xFFFE),
                self.program_byte(0xFFFF),
            ],
            ..self
        }
    }

    /// The RAM cleared.
    pub open spec fn cleared(self) -> Self {
        Memory { ram: zeros(0x0800), cart_ram: zeros(0x2000), ..self }
    }
}

impl BusView {
    /// State after power-on.
    pub open spec fn power_on(self) -> bool {
        &&& self.mem == (Memory {
            ram: zeros(0x0800),
            cart_ram: zeros(0x2000),
            prg: zeros(0x8000),
            bank_pool: Seq::empty(),
            bank_select: zeros(8),
            bankswitched: false,
            fds_enabled: false,
            fds_ram: Seq::empty(),
            overlay_active: false,
            overlay: zeros(6),
        })
        &&& self.mach().apu.0.power_on()
        &&& self.mach().timer == Nsf2IrqTimer::power_on()
        &&& self.mach().cycles == 0 && self.mach().stall == 0
        &&& self.mach().dma is None && self.mach().load_from is None
        &&& self.oam_from is None && !self.nmi_pending
        &&& !self.in_instruction && self.calls == 0 && self.oam_call is None
        &&& self.deferred == Seq::<(u32, u16, u8)>::empty()
    }

    /// The same bus with other memory contents.
    pub open spec fn with_mem(self, mem: Memory) -> Self {
        BusView { mem, ..self }
    }

    /// A tune put in: its memory, its expansion chips and its timer.
    #[verifier::opaque]
    pub open spec fn configured(self, h: HeaderView) -> Self {
        BusView {
            mem: self.mem.tune_loaded(h),
            machine: Whole(Machine {
                apu: Whole(self.mach().apu.0.expansion_set(h.expansion)),
                timer: Nsf2IrqTimer { enabled: h.nsf2.0 & 0x10 != 0, ..self.mach().timer },
                ..self.mach()
            }),
            ..self
        }
    }

    /// Zero written to the first `n` sound registers.
    pub open spec fn registers_cleared(self, n: nat) -> Self
        decreases n,
    {
        if n == 0 {
            self
        } else {
            self.registers_cleared((n - 1) as nat).written((0x4000 + n - 1) as u16, 0)
        }
    }

    /// The sound registers as a tune expects them.
    #[verifier::opaque]
    pub open spec fn sound_initialised(self) -> Self {
        self.registers_cleared(0x14).written(0x4015, 0x00).written(0x4015, 0x0F).written(
            0x4017,
            0x40,
        )
    }

    /// The program as a tune expects it.
    #[verifier::opaque]
    pub open spec fn program_restored(self, h: HeaderView) -> Self {
        if self.mem.bankswitched {
            let m = Memory { bank_select: h.bankswitch_init, ..self.mem };
            if m.fds_enabled {
                let f = Memory { fds_ram: zeros(0x8000), ..m };
                self.with_mem(f.fds_banks_shown(8)).written(
                    0x5FF6,
                    h.bankswitch_init[6],
                ).written(0x5FF7, h.bankswitch_init[7])
            } else {
                self.with_mem(m)
            }
        } else {
            let m = self.mem.loaded(h.load_addr, h.program);
            self.with_mem(if m.fds_enabled { m.program_copied() } else { m })
        }
    }

    /// The bus as a tune expects it before its INIT routine: RAM cleared,
    /// sound registers initialised, the program as it was loaded.
    #[verifier::opaque]
    pub open spec fn tune_reset(self, h: HeaderView) -> Self {
        BusView {
            nmi_pending: false,
            ..self.with_mem(self.mem.cleared()).sound_initialised().program_restored(h)
        }
    }
}

/// Cut a program into banks.
fn build_pool(load_addr: u16, program: &Vec<u8>) -> (pool: Vec<[u8; 0x1000]>)
    ensures
        crate::bus::banks(pool@) == pool_of(load_addr, program@),
{
    let pad: usize = (load_addr % 0x1000) as usize;
    let len: usize = program.len();
    let n: usize = len / 0x1000 + (pad + len % 0x1000 + 0xFFF) / 0x1000;
    assert(n == pool_of(load_addr, program@).len());
    let mut pool: Vec<[u8; 0x1000]> = Vec::new();
    let mut pos: usize = 0;
    let mut i: usize = 0;
    while i < n
        invariant
            i <= n,
            pad == load_addr % 0x1000,
            len == program@.len(),
            n == (pad + len + 0xFFF) / 0x1000,
            pool@.len() == i,
            pos == (if 0x1000 * i < pad {
                0int
            } else if 0x1000 * i - pad > len {
                len as int
            } else {
                0x1000 * i - pad
            }),
            forall|j: int| 0 <= j < i ==> (#[trigger] pool@[j])@ == bank_of(
                pad as int,
                program@,
                j,
            ),
        decreases n - i,
    {
        let start: usize = if i == 0 { pad } else { 0 };
        let bank = build_bank(program, start, pos);
        assert(bank@ =~= bank_of(pad as int, program@, i as int));
        pool.push(bank);
        let room: usize = 0x1000 - start;
        pos = if len - pos < room { len } else { pos + room };
        i = i + 1;
    }
    assert(crate::bus::banks(pool@) =~= pool_of(load_addr, program@));
    pool
}

/// A bank that holds the program from `pos` on, from offset `start` on.
fn build_bank(program: &Vec<u8>, start: usize, pos: usize) -> (bank: [u8; 0x1000])
    requires
        start < 0x1000,
        pos <= program@.len(),
    ensures
        forall|j: int|
            0 <= j < 0x1000 ==> #[trigger] bank@[j] == (if start <= j && j - start + pos
                < program@.len() {
                program@[j - start + pos]
            } else {
                0u8
            }),
{
    let mut bank: [u8; 0x1000] = [0u8; 0x1000];
    let len: usize = program.len();
    let mut j: usize = start;
    while j < 0x1000
        invariant
            start <= j <= 0x1000,
            len == program@.len(),
            pos <= len,
            forall|k: int|
                0 <= k < 0x1000 ==> #[trigger] bank@[k] == (if start <= k < j && k - start + pos
                    < len {
                    program@[k - start + pos]
                } else {
                    0u8
                }),
        decreases 0x1000 - j,
    {
        if j - start < len - pos {
            bank[j] = program[j - start + pos];
        }
        j = j + 1;
    }
    bank
}

/// Whether any of the initial banks is not zero.
fn any_bank_set(init: &[u8; 8]) -> (r: bool)
    ensures
        r == is_banked(init@),
{
    let mut i: usize = 0;
    while i < 8
        invariant
            i <= 8,
            forall|j: int| 0 <= j < i ==> init@[j] == 0,
        decreases 8 - i,
    {
        if init[i] != 0 {
            assert(init@[i as int] != 0);
            return true;
        }
        i = i + 1;
    }
    false
}

/// `n` zero bytes.
fn zero_bytes(n: usize) -> (r: Vec<u8>)
    ensures
        r@ == zeros(n as nat),
{
    let mut r: Vec<u8> = Vec::new();
    let mut i: usize = 0;
    while i < n
        invariant
            i <= n,
            r@ == zeros(i as nat),
        decreases n - i,
    {
        r.push(0);
        i = i + 1;
        assert(r@ =~= zeros(i as nat));
    }
    r
}

/// The bytes of the program memory.
fn copy_bytes(prg: &[u8; 0x8000]) -> (r: Vec<u8>)
    ensures
        r@ == prg@,
{
    let mut r: Vec<u8> = Vec::new();
    let mut i: usize = 0;
    while i < 0x8000
        invariant
            i <= 0x8000,
            r@ == prg@.subrange(0, i as int),
        decreases 0x8000 - i,
    {
        r.push(prg[i]);
        i = i + 1;
        assert(r@ =~= prg@.subrange(0, i as int));
    }
    assert(r@ =~= prg@);
    r
}

impl NesBus {
    #[verifier::spinoff_prover]
    pub fn new() -> (r: Self)
        ensures
            r@.power_on(),
            r.wf(),
    {
        reveal(NesBus::wf);
        let r = NesBus {
            ram: [0u8; 0x0800],
            cart_ram: [0u8; 0x2000],
            prg: [0u8; 0x8000],
            apu: Apu2A03::new(),
            cycles: 0,
            bank_pool: Vec::new(),
            bank_select: [0u8; 8],
            bankswitched: false,
            fds_enabled: false,
            fds_ram: Vec::new(),
            nsf2_timer: Nsf2IrqTimer::new(),
            vector_overlay_active: false,
            vector_overlay: [0u8; 6],
            nmi_pending: false,
            pending_dma_stall: 0,
            dmc_dma: None,
            oam_halt_from: None,
            dmc_load_halt_from: None,
            in_instruction: false,
            instr_write_calls: 0,
            oam_trigger_call: None,
            deferred_writes: Vec::new(),
        };
        assert(r@.mem.ram =~= zeros(0x0800));
        assert(r@.mem.cart_ram =~= zeros(0x2000));
        assert(r@.mem.prg =~= zeros(0x8000));
        assert(r@.mem.bank_select =~= zeros(8));
        assert(r@.mem.overlay =~= zeros(6));
        assert(r@.mem.bank_pool =~= Seq::empty());
        r
    }

    /// Lay the vectors over: those for NMI and reset as given, that for IRQ as
    /// the memory beneath has it.
    #[verifier::spinoff_prover]
    pub fn arm_vector_overlay(&mut self, nmi_handler: u16, reset_handler: u16)
        requires
            old(self).wf(),
        ensures
            final(self)@ == old(self)@.with_mem(
                old(self)@.mem.overlay_armed(nmi_handler, reset_handler),
            ),
            final(self).wf(),
    {
        reveal(Memory::overlay_armed);
        let lo: u8 = self.read_raw_vector(0xFFFE);
        let hi: u8 = self.read_raw_vector(0xFFFF);
        let overlay: [u8; 6] = [
            crate::cpu::low_byte(nmi_handler),
            crate::cpu::high_byte(nmi_handler),
            crate::cpu::low_byte(reset_handler),
            crate::cpu::high_byte(reset_handler),
            lo,
            hi,
        ];
        self.set_overlay(overlay);
        assert(overlay@ =~= old(self)@.mem.overlay_armed(nmi_handler, reset_handler).overlay);
    }

    #[verifier::spinoff_prover]
    fn set_overlay(&mut self, overlay: [u8; 6])
        requires
            old(self).wf(),
        ensures
            final(self)@ == old(self)@.with_mem(
                (Memory { overlay_active: true, overlay: overlay@, ..old(self)@.mem }),
            ),
            final(self).wf(),
    {
        reveal(NesBus::wf);
        self.vector_overlay = overlay;
        self.vector_overlay_active = true;
    }

    #[verifier::spinoff_prover]
    fn read_raw_vector(&self, addr: u16) -> (r: u8)
        requires
            self.wf(),
            addr >= 0x8000,
        ensures
            r == self@.mem.program_byte(addr),
    {
        self.read_program(addr)
    }

    /// Put a tune in: its program, its expansion chips and its timer.
    #[verifier::spinoff_prover]
    pub fn configure_from_header(&mut self, header: &NsfHeader)
        requires
            old(self).wf(),
        ensures
            final(self)@ == old(self)@.configured(header@),
            final(self).wf(),
    {
        reveal(BusView::configured);
        self.set_chips(header.expansion);
        self.enable_timer(header.nsf2.irq_support());
        self.load_tune(header);
    }

    #[verifier::spinoff_prover]
    fn set_chips(&mut self, flags: ExpansionChips)
        requires
            old(self).wf(),
        ensures
            final(self)@ == old(self)@.with_mach(
                (Machine {
                    apu: Whole(old(self)@.mach().apu.0.expansion_set(flags)),
                    ..old(self)@.mach()
                }),
            ),
            final(self).wf(),
    {
        reveal(NesBus::wf);
        self.apu.set_expansion(flags);
    }

    #[verifier::spinoff_prover]
    fn enable_timer(&mut self, on: bool)
        requires
            old(self).wf(),
        ensures
            final(self)@ == old(self)@.with_mach(
                (Machine {
                    timer: Nsf2IrqTimer { enabled: on, ..old(self)@.mach().timer },
                    ..old(self)@.mach()
                }),
            ),
            final(self).wf(),
    {
        reveal(NesBus::wf);
        self.nsf2_timer.set_enabled(on);
    }

    #[verifier::spinoff_prover]
    fn load_tune(&mut self, header: &NsfHeader)
        requires
            old(self).wf(),
        ensures
            final(self)@ == old(self)@.with_mem(old(self)@.mem.tune_loaded(header@)),
            final(self).wf(),
    {
        reveal(Memory::tune_loaded);
        let banked = any_bank_set(&header.bankswitch_init);
        if banked {
            self.load_bankswitched(header, header.expansion.fds());
        } else {
            self.load_flat(header, header.expansion.fds());
        }
    }

    /// Load a tune that is not bankswitched.
    #[verifier::spinoff_prover]
    fn load_flat(&mut self, header: &NsfHeader, fds: bool)
        requires
            old(self).wf(),
        ensures
            final(self)@ == old(self)@.with_mem(
                ({
                    let m = (Memory {
                        fds_enabled: fds,
                        bankswitched: false,
                        ..old(self)@.mem
                    }).loaded(header@.load_addr, header@.program);
                    if fds {
                        m.program_copied()
                    } else {
                        m
                    }
                }),
            ),
            final(self).wf(),
    {
        reveal(NesBus::wf);
        self.bankswitched = false;
        self.load_program(header.load_addr, &header.program);
        self.fds_enabled = fds;
        if fds {
            self.fds_ram = copy_bytes(&self.prg);
        }
    }

    /// Load a bankswitched tune.
    #[verifier::spinoff_prover]
    fn load_bankswitched(&mut self, header: &NsfHeader, fds: bool)
        requires
            old(self).wf(),
        ensures
            final(self)@ == old(self)@.with_mem(
                (Memory { fds_enabled: fds, bankswitched: true, ..old(self)@.mem }).banked(
                    header@,
                ),
            ),
            final(self).wf(),
    {
        let pool = build_pool(header.load_addr, &header.program);
        self.install_pool(pool, header.bankswitch_init, fds);
        if fds {
            self.show_fds_banks();
        }
    }

    #[verifier::spinoff_prover]
    fn install_pool(&mut self, pool: Vec<[u8; 0x1000]>, init: [u8; 8], fds: bool)
        requires
            old(self).wf(),
        ensures
            final(self)@ == old(self)@.with_mem(
                (Memory {
                    fds_enabled: fds,
                    bankswitched: true,
                    bank_pool: crate::bus::banks(pool@),
                    bank_select: init@,
                    fds_ram: if fds {
                        zeros(0x8000)
                    } else {
                        old(self)@.mem.fds_ram
                    },
                    ..old(self)@.mem
                }),
            ),
            final(self).wf(),
    {
        reveal(NesBus::wf);
        self.bankswitched = true;
        self.fds_enabled = fds;
        self.bank_pool = pool;
        self.bank_select = init;
        if fds {
            self.fds_ram = zero_bytes(0x8000);
        }
    }

    /// Copy the bank that each window shows into the RAM.
    #[verifier::spinoff_prover]
    fn show_fds_banks(&mut self)
        requires
            old(self).wf(),
        ensures
            final(self)@ == old(self)@.with_mem(old(self)@.mem.fds_banks_shown(8)),
            final(self).wf(),
    {
        let mut i: usize = 0;
        while i < 8
            invariant
                i <= 8,
                self.wf(),
                self@ == old(self)@.with_mem(old(self)@.mem.fds_banks_shown(i as nat)),
                self.bank_select == old(self).bank_select,
            decreases 8 - i,
        {
            self.show_fds_bank(i, self.bank_select[i]);
            i = i + 1;
        }
    }

    /// Put the bus into the state that a tune expects before its INIT routine.
    #[verifier::spinoff_prover]
    pub fn reset_for_tune(&mut self, header: &NsfHeader)
        requires
            old(self).wf(),
        ensures
            final(self)@ == old(self)@.tune_reset(header@),
            final(self).wf(),
    {
        reveal(BusView::tune_reset);
        self.clear_ram();
        self.init_sound();
        self.restore_program(header);
        self.drop_nmi();
    }

    #[verifier::spinoff_prover]
    fn drop_nmi(&mut self)
        requires
            old(self).wf(),
        ensures
            final(self)@ == (BusView { nmi_pending: false, ..old(self)@ }),
            final(self).wf(),
    {
        reveal(NesBus::wf);
        self.nmi_pending = false;
    }

    #[verifier::spinoff_prover]
    fn clear_ram(&mut self)
        requires
            old(self).wf(),
        ensures
            final(self)@ == old(self)@.with_mem(old(self)@.mem.cleared()),
            final(self).wf(),
    {
        reveal(NesBus::wf);
        self.ram = [0u8; 0x0800];
        self.cart_ram = [0u8; 0x2000];
        assert(self.ram@ =~= zeros(0x0800));
        assert(self.cart_ram@ =~= zeros(0x2000));
    }

    /// Initialise the sound registers.
    #[verifier::spinoff_prover]
    fn init_sound(&mut self)
        requires
            old(self).wf(),
        ensures
            final(self)@ == old(self)@.sound_initialised(),
            final(self).wf(),
    {
        reveal(BusView::sound_initialised);
        let mut i: u16 = 0;
        while i < 0x14
            invariant
                i <= 0x14,
                self.wf(),
                self@ == old(self)@.registers_cleared(i as nat),
            decreases 0x14 - i,
        {
            self.write(0x4000 + i, 0x00);
            i = i + 1;
        }
        self.write(0x4015, 0x00);
        self.write(0x4015, 0x0F);
        self.write(0x4017, 0x40);
    }

    #[verifier::spinoff_prover]
    fn set_banks(&mut self, init: [u8; 8])
        requires
            old(self).wf(),
        ensures
            final(self)@ == old(self)@.with_mem(
                (Memory { bank_select: init@, ..old(self)@.mem }),
            ),
            final(self).wf(),
    {
        reveal(NesBus::wf);
        self.bank_select = init;
    }

    #[verifier::spinoff_prover]
    fn clear_fds_ram(&mut self)
        requires
            old(self).wf(),
        ensures
            final(self)@ == old(self)@.with_mem(
                (Memory { fds_ram: zeros(0x8000), ..old(self)@.mem }),
            ),
            final(self).wf(),
    {
        reveal(NesBus::wf);
        self.fds_ram = zero_bytes(0x8000);
    }

    #[verifier::spinoff_prover]
    fn copy_program(&mut self)
        requires
            old(self).wf(),
        ensures
            final(self)@ == old(self)@.with_mem(old(self)@.mem.program_copied()),
            final(self).wf(),
    {
        reveal(NesBus::wf);
        self.fds_ram = copy_bytes(&self.prg);
    }

    /// Put the program back as it was loaded.
    #[verifier::spinoff_prover]
    fn restore_program(&mut self, header: &NsfHeader)
        requires
            old(self).wf(),
        ensures
            final(self)@ == old(self)@.program_restored(header@),
            final(self).wf(),
    {
        reveal(BusView::program_restored);
        if self.bankswitched {
            self.set_banks(header.bankswitch_init);
            if self.fds_enabled {
                self.clear_fds_ram();
                self.show_fds_banks();
                self.write(0x5FF6, header.bankswitch_init[6]);
                self.write(0x5FF7, header.bankswitch_init[7]);
            }
            return ;
        }
        self.load_program(header.load_addr, &header.program);
        if self.fds_enabled {
            self.copy_program();
        }
    }
}

impl Default for NesBus {
    fn default() -> (r: Self)
        ensures
            r@.power_on(),
            r.wf(),
    {
        Self::new()
    }
}

} // verus!
