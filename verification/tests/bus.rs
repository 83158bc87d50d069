use oxideav_nsf::apu::{DMC_DMA_LOAD_STALL_CYCLES, DMC_DMA_RELOAD_STALL_CYCLES};
use oxideav_nsf::bus::{
    NesBus, Nsf2IrqTimer, BANK_SIZE, DMC_DMA_DURING_OAM_STALL_CYCLES, OAM_DMA_BASE_STALL_CYCLES,
    PRG_ROM_SIZE,
};
use oxideav_nsf::cpu::Cpu6502;
use oxideav_nsf::dma::{DmcDmaKind, ScheduledDmcDma};
use oxideav_nsf::header::{ExpansionChips, Nsf2Features, NsfHeader, NsfRegion};
use oxideav_nsf::nsfe::NsfeMetadata;

fn fake_header(load: u16, prog: Vec<u8>, banks: [u8; 8]) -> NsfHeader {
    NsfHeader {
        version: 1,
        total_songs: 1,
        starting_song: 1,
        load_addr: load,
        init_addr: 0x8000,
        play_addr: 0x8003,
        song_name: String::new(),
        artist: String::new(),
        copyright: String::new(),
        ntsc_speed_us: 16666,
        pal_speed_us: 19997,
        bankswitch_init: banks,
        region: NsfRegion::Ntsc,
        expansion: ExpansionChips(0),
        program: prog,
        track_labels: Vec::new(),
        is_nsfe: false,
        nsf2: Nsf2Features(0),
        nsf2_metadata: Vec::new(),
        metadata: NsfeMetadata::default(),
    }
}

#[test]
fn flat_load_places_program_at_load_addr() {
    let mut bus = NesBus::new();
    let h = fake_header(0x8000, vec![0xAA, 0xBB, 0xCC], [0u8; 8]);
    bus.configure_from_header(&h);
    assert!(!bus.bankswitched);
    assert_eq!(bus.read(0x8000), 0xAA);
    assert_eq!(bus.read(0x8001), 0xBB);
    assert_eq!(bus.read(0x8002), 0xCC);
}

#[test]
fn bankswitching_routes_through_bank_select() {
    let mut prog = vec![0x11; BANK_SIZE];
    prog.extend(std::iter::repeat_n(0x22, BANK_SIZE));

    let mut banks = [0u8; 8];
    banks[1] = 1;
    let h = fake_header(0x8000, prog, banks);
    let mut bus = NesBus::new();
    bus.configure_from_header(&h);
    assert!(bus.bankswitched);

    assert_eq!(bus.read(0x8000), 0x11);
    assert_eq!(bus.read(0x8FFF), 0x11);

    assert_eq!(bus.read(0x9000), 0x22);
    assert_eq!(bus.read(0x9FFF), 0x22);

    bus.write(0x5FF8, 1);
    assert_eq!(bus.read(0x8000), 0x22);
}

#[test]
fn writes_to_8000_window_are_dropped_without_fds() {
    let mut bus = NesBus::new();
    let h = fake_header(0x8000, vec![0x55], [0u8; 8]);
    bus.configure_from_header(&h);

    bus.write(0x8000, 0xFF);
    assert_eq!(bus.read(0x8000), 0x55);
}

#[test]
fn reset_for_tune_scrubs_ram_and_reinits_registers() {
    let mut bus = NesBus::new();
    let h = fake_header(0x8000, vec![0x60], [0u8; 8]);
    bus.configure_from_header(&h);

    bus.write(0x0123, 0xAB);
    bus.write(0x6123, 0xCD);
    bus.write(0x4015, 0x00);
    bus.write(0x4017, 0x00);
    bus.reset_for_tune(&h);
    assert_eq!(bus.read(0x0123), 0, "zero page/RAM cleared");
    assert_eq!(bus.read(0x6123), 0, "cart RAM cleared");

    bus.write(0x4003, 0x08);
    assert_eq!(
        bus.read(0x4015) & 0x01,
        0x01,
        "$4015=$0F must have re-enabled pulse 1"
    );

    bus.tick_cycles(35_000);
    assert_eq!(
        bus.read(0x4015) & 0x40,
        0,
        "$4017=$40 must inhibit the frame IRQ"
    );
}

#[test]
fn reset_for_tune_reloads_low_load_program_after_ram_clear() {
    let mut bus = NesBus::new();
    let h = fake_header(0x6000, vec![0xAA, 0xBB], [0u8; 8]);
    bus.configure_from_header(&h);
    assert_eq!(bus.read(0x6000), 0xAA);
    bus.write(0x6000, 0x77);
    bus.reset_for_tune(&h);
    assert_eq!(bus.read(0x6000), 0xAA, "program byte reloaded");
    assert_eq!(bus.read(0x6001), 0xBB);
    assert_eq!(bus.read(0x6002), 0x00, "rest of cart RAM cleared");
}

#[test]
fn reset_for_tune_restores_header_bank_selection() {
    let mut bus = NesBus::new();

    let mut prog = vec![0x11; BANK_SIZE];
    prog.extend(vec![0x22; BANK_SIZE]);
    let mut banks = [0u8; 8];
    banks[0] = 1;
    let h = fake_header(0x8000, prog, banks);
    bus.configure_from_header(&h);
    assert_eq!(bus.read(0x8000), 0x22);
    bus.write(0x5FF8, 0x00);
    assert_eq!(bus.read(0x8000), 0x11);
    bus.reset_for_tune(&h);
    assert_eq!(
        bus.read(0x8000),
        0x22,
        "bank selection must return to the header's init values"
    );
}

#[test]
fn nsf2_irq_timer_fires_after_n_plus_one_cycles() {
    let mut t = Nsf2IrqTimer::new();
    t.enabled = true;

    t.write(0x401B, 0x03);
    t.write(0x401C, 0x00);
    t.write(0x401D, 0x01);
    t.counter = t.reload as i32;
    assert!(!t.irq_line());
    t.tick(4);
    assert!(t.irq_line(), "timer should assert IRQ after N+1 cycles");

    let v = t.read(0x401D).unwrap();
    assert_eq!(v & 0x80, 0x80, "bit7 should reflect the pending IRQ");
    assert_eq!(v & 0x01, 0x01, "bit0 should reflect active status");
    assert!(!t.irq_line(), "read of $401D should clear the IRQ flag");
}

#[test]
fn nsf2_irq_timer_inactive_holds_counter_at_reload() {
    let mut t = Nsf2IrqTimer::new();
    t.enabled = true;
    t.write(0x401B, 0x10);
    t.write(0x401C, 0x00);

    t.write(0x401D, 0x01);
    t.write(0x401D, 0x00);
    t.tick(1000);
    assert_eq!(t.counter, 0x10);
    assert!(!t.irq_line());
}

#[test]
fn nsf2_irq_timer_disabled_when_gate_off() {
    let mut t = Nsf2IrqTimer::new();

    t.write(0x401B, 0xFF);
    t.write(0x401D, 0x01);
    t.tick(10);
    assert!(!t.irq_line());
    assert_eq!(t.read(0x401D), None);
}

#[test]
fn vector_overlay_intercepts_ffff_reads_and_writes() {
    let mut bus = NesBus::new();

    let prog = vec![0xAAu8; PRG_ROM_SIZE];
    let h = fake_header(0x8000, prog, [0u8; 8]);
    bus.configure_from_header(&h);
    bus.arm_vector_overlay(0x4FFE, 0x4FFE);

    assert_eq!(bus.read(0xFFFA), 0xFE);
    assert_eq!(bus.read(0xFFFB), 0x4F);
    assert_eq!(bus.read(0xFFFC), 0xFE);
    assert_eq!(bus.read(0xFFFD), 0x4F);

    assert_eq!(bus.read(0xFFFE), 0xAA);

    bus.write(0xFFFE, 0x34);
    bus.write(0xFFFF, 0x12);
    assert_eq!(bus.read(0xFFFE), 0x34);
    assert_eq!(bus.read(0xFFFF), 0x12);
}

#[test]
fn vector_overlay_dropped_when_inactive() {
    let mut bus = NesBus::new();
    let prog = vec![0xCDu8; PRG_ROM_SIZE];
    let h = fake_header(0x8000, prog, [0u8; 8]);
    bus.configure_from_header(&h);

    assert_eq!(bus.read(0xFFFE), 0xCD);

    bus.write(0xFFFE, 0x77);
    assert_eq!(bus.read(0xFFFE), 0xCD);
}

#[test]
fn nsf2_irq_timer_routed_through_bus_when_enabled() {
    let mut bus = NesBus::new();
    let mut h = fake_header(0x8000, vec![0x60], [0u8; 8]);
    h.nsf2 = Nsf2Features(0x10);
    bus.configure_from_header(&h);
    bus.write(0x401B, 5);
    bus.write(0x401C, 0);
    bus.write(0x401D, 1);
    assert!(!bus.irq_line());
    bus.tick_cycles(6);
    assert!(bus.irq_line(), "bus should expose timer-driven IRQ line");

    let _ = bus.read(0x401D);
    assert!(!bus.irq_line());
}

#[test]
fn ram_mirrors_at_2k_boundary() {
    let mut bus = NesBus::new();
    bus.write(0x0010, 0x42);

    assert_eq!(bus.read(0x0810), 0x42);
    assert_eq!(bus.read(0x1010), 0x42);
    assert_eq!(bus.read(0x1810), 0x42);
}

fn mmc5_header_with_program(prog: Vec<u8>) -> NsfHeader {
    let mut h = fake_header(0x8000, prog, [0u8; 8]);

    h.expansion = ExpansionChips(0x08);
    h
}

#[test]
fn bus_routes_mmc5_pcm_irq_into_cpu_irq_line() {
    let mut bus = NesBus::new();
    let h = mmc5_header_with_program(vec![0x60]);
    bus.configure_from_header(&h);
    assert!(!bus.irq_line());

    bus.write(0x5010, 0x80);
    bus.write(0x5011, 0x00);
    assert!(
        bus.irq_line(),
        "MMC5 PCM trip + enable must surface on the bus IRQ line"
    );

    let v = bus.read(0x5010);
    assert_eq!(v & 0x80, 0x80, "ack read returns the IRQ status bit");
    assert!(!bus.irq_line(), "$5010 read clears the trip");
}

#[test]
fn bus_8000_bfff_read_in_read_mode_writes_dac_via_observe() {
    let mut bus = NesBus::new();

    let h = mmc5_header_with_program(vec![0x42, 0x88, 0x00, 0x55]);
    bus.configure_from_header(&h);
    bus.write(0x5010, 0x81);
    assert_eq!(bus.read(0x8000), 0x42);

    assert_eq!(bus.apu.expansion.mmc5.pcm, 0x42);

    assert_eq!(bus.read(0x8001), 0x88);
    assert_eq!(bus.apu.expansion.mmc5.pcm, 0x88);

    assert!(!bus.apu.expansion.mmc5.irq_trip);
    assert_eq!(bus.read(0x8002), 0x00);
    assert_eq!(
        bus.apu.expansion.mmc5.pcm, 0x88,
        "DAC stays put on $00 byte"
    );
    assert!(bus.apu.expansion.mmc5.irq_trip);
    assert!(bus.irq_line(), "trip propagates to the bus IRQ line");

    assert_eq!(bus.read(0x8003), 0x55);
    assert!(!bus.apu.expansion.mmc5.irq_trip);
}

#[test]
fn bus_c000_to_ffff_read_does_not_touch_dac() {
    let mut bus = NesBus::new();

    let mut prog = vec![0u8; PRG_ROM_SIZE];
    prog[0x4000] = 0xAB;
    let h = mmc5_header_with_program(prog);
    bus.configure_from_header(&h);
    bus.write(0x5010, 0x01);
    assert_eq!(bus.read(0xC000), 0xAB);
    assert_eq!(
        bus.apu.expansion.mmc5.pcm, 0x00,
        "$C000 read must NOT trigger write-by-read"
    );
}

#[test]
fn dmc_dma_fetch_stalls_are_accounted() {
    let mut bus = NesBus::new();
    bus.write(0x4010, 0x4F);
    bus.write(0x4012, 0x00);
    bus.write(0x4013, 0x00);
    bus.write(0x4015, 0x10);
    assert_eq!(bus.take_dma_stall(), 0, "no fetch before ticking");

    bus.tick_cycles(1);
    assert_eq!(bus.take_dma_stall(), 0, "no halt before its schedule");
    bus.tick_cycles(6);
    assert_eq!(
        bus.take_dma_stall(),
        DMC_DMA_LOAD_STALL_CYCLES,
        "the post-$4015 fetch is a 3-cycle load DMA"
    );
    assert_eq!(bus.take_dma_stall(), 0, "stall drains on take");

    bus.tick_cycles(54 * 8 * 4);
    let stall = bus.take_dma_stall();
    assert!(
        stall >= 3 * DMC_DMA_RELOAD_STALL_CYCLES,
        "looping sample must keep accruing reload stalls (got {stall})"
    );
    assert_eq!(
        stall % DMC_DMA_RELOAD_STALL_CYCLES,
        0,
        "every buffer-emptied refetch is a reload DMA"
    );
}

#[test]
fn oam_dma_stall_is_513_or_514_by_write_parity() {
    let mut bus = NesBus::new();

    bus.write(0x4014, 0x02);
    assert_eq!(
        bus.take_dma_stall(),
        OAM_DMA_BASE_STALL_CYCLES,
        "get-half $4014 write needs no alignment cycle"
    );

    bus.tick_cycles(1);
    bus.write(0x4014, 0x02);
    assert_eq!(
        bus.take_dma_stall(),
        OAM_DMA_BASE_STALL_CYCLES + 1,
        "put-half $4014 write spends an alignment cycle"
    );
}

#[test]
fn oam_dma_keeps_the_apu_running_and_overlaps_dmc_fetches() {
    let mut bus = NesBus::new();
    bus.write(0x4010, 0x4F);
    bus.write(0x4012, 0x00);
    bus.write(0x4013, 0x00);
    bus.write(0x4015, 0x10);
    bus.tick_cycles(7);
    assert_eq!(bus.take_dma_stall(), DMC_DMA_LOAD_STALL_CYCLES);

    bus.write(0x4014, 0x02);
    assert_eq!(
        bus.take_dma_stall(),
        OAM_DMA_BASE_STALL_CYCLES + DMC_DMA_DURING_OAM_STALL_CYCLES,
        "one in-window DMC refetch costs the 2-cycle overlap"
    );
    assert!(
        bus.apu.dmc_pending_fetch().is_none(),
        "the in-window refetch must have been serviced"
    );
}

fn inject_reload(bus: &mut NesBus, halt_from: u64) {
    bus.dmc_dma = Some(ScheduledDmcDma {
        addr: 0xC000,
        kind: DmcDmaKind::Reload,
        halt_from,
    });
}

#[test]
fn reload_halt_on_put_costs_four_on_get_costs_three() {
    let mut bus = NesBus::new();
    inject_reload(&mut bus, 1);
    bus.tick_cycles(3);
    assert_eq!(bus.take_dma_stall(), 4, "put-cycle halt: 4-cycle reload");

    let mut bus = NesBus::new();
    inject_reload(&mut bus, 1);
    bus.begin_instruction();

    bus.run_instruction(3, 0b010);
    assert_eq!(
        bus.take_dma_stall(),
        3,
        "halt delayed 1 cycle onto a get: the reload costs 3"
    );
}

#[test]
fn reload_halt_delayed_two_cycles_stays_at_four() {
    let mut bus = NesBus::new();
    inject_reload(&mut bus, 1);
    bus.begin_instruction();
    bus.run_instruction(4, 0b0110);
    assert_eq!(bus.take_dma_stall(), 4, "even delay keeps the put halt");
}

#[test]
fn load_dma_delayed_by_write_cycle_costs_four() {
    let mut bus = NesBus::new();
    bus.write(0x4010, 0x0F);
    bus.write(0x4012, 0x00);
    bus.write(0x4013, 0x00);
    bus.write(0x4015, 0x10);
    bus.tick_cycles(4);
    assert_eq!(bus.take_dma_stall(), 0);
    bus.begin_instruction();
    bus.run_instruction(3, 0b001);
    assert_eq!(
        bus.take_dma_stall(),
        4,
        "get-halt delayed onto a put: load DMA costs 4"
    );
}

#[test]
fn oam_halt_delayed_past_rmw_second_write() {
    let mut bus = NesBus::new();
    bus.begin_instruction();
    bus.write(0x4014, 0x02);
    bus.run_instruction(6, 0b110000);
    assert_eq!(
        bus.take_dma_stall(),
        0,
        "no room for the halt inside the RMW instruction"
    );

    bus.tick_cycles(1);
    assert_eq!(bus.take_dma_stall(), OAM_DMA_BASE_STALL_CYCLES + 1);
}

#[test]
fn dmc_during_oam_end_of_window_costs_one_or_three() {
    let mut bus = NesBus::new();
    inject_reload(&mut bus, 511);
    bus.write(0x4014, 0x02);
    assert_eq!(
        bus.take_dma_stall(),
        OAM_DMA_BASE_STALL_CYCLES + 1,
        "second-to-last-put collision costs 1 extra cycle"
    );

    let mut bus = NesBus::new();
    inject_reload(&mut bus, 513);
    bus.write(0x4014, 0x02);
    assert_eq!(
        bus.take_dma_stall(),
        OAM_DMA_BASE_STALL_CYCLES + 3,
        "last-put collision costs 3 extra cycles"
    );

    let mut bus = NesBus::new();
    inject_reload(&mut bus, 101);
    bus.write(0x4014, 0x02);
    assert_eq!(
        bus.take_dma_stall(),
        OAM_DMA_BASE_STALL_CYCLES + DMC_DMA_DURING_OAM_STALL_CYCLES,
        "mid-window collision costs the common 2 cycles"
    );
}

fn first_frame_irq_cycle(with_prefix: bool) -> u64 {
    let mut bus = NesBus::new();
    let mut cpu = Cpu6502::new();
    let mut prog: Vec<u8> = vec![0xA9, 0x00];
    if with_prefix {
        prog.extend([0xA5, 0x00]);
    }
    prog.extend([0x8D, 0x17, 0x40]);
    bus.ram[0x0200..0x0200 + prog.len()].copy_from_slice(&prog);
    cpu.pc = 0x0200;
    cpu.p = 0x24;
    let steps = if with_prefix { 3 } else { 2 };
    for _ in 0..steps {
        cpu.step(&mut bus);
    }
    for _ in 0..40_000u32 {
        if bus.irq_line() {
            return bus.cycles;
        }
        bus.tick_cycles(1);
    }
    panic!("frame IRQ never asserted");
}

#[test]
fn deferred_4017_write_keys_reset_delay_off_the_write_cycle() {
    let base = first_frame_irq_cycle(false);
    let shifted = first_frame_irq_cycle(true);
    assert_eq!(
        shifted - base,
        4,
        "3-cycle-later write cycle flips the 3/4 delay: schedule moves by 4"
    );
}

#[test]
fn explicit_stop_in_apu_cycle_before_schedule_aborts_after_one_cycle() {
    let mut bus = NesBus::new();
    inject_reload(&mut bus, 3);
    bus.write(0x4015, 0x00);
    bus.tick_cycles(5);
    assert_eq!(bus.take_dma_stall(), 1, "aborted DMA steals its halt cycle");
    assert!(
        !bus.apu.dmc_activity_possible(),
        "the aborted DMA never performs its read"
    );
}

#[test]
fn explicit_stop_earlier_cancels_without_any_dma() {
    let mut bus = NesBus::new();
    inject_reload(&mut bus, 5);
    bus.write(0x4015, 0x00);
    bus.tick_cycles(8);
    assert_eq!(bus.take_dma_stall(), 0, "stop-early: no DMA, no stall");
}

#[test]
fn aborted_dma_skipped_when_halt_attempt_lands_on_write_cycle() {
    let mut bus = NesBus::new();
    inject_reload(&mut bus, 3);
    bus.write(0x4015, 0x00);
    bus.begin_instruction();
    bus.run_instruction(5, 0b01000);
    assert_eq!(bus.take_dma_stall(), 0, "write-delayed abort vanishes");
}

#[test]
fn implicit_stop_triggers_unexpected_reload_from_same_address() {
    let mut bus = NesBus::new();

    bus.write(0x4010, 0x0F);
    bus.write(0x4012, 0x00);
    bus.write(0x4013, 0x00);
    bus.write(0x4015, 0x10);
    bus.tick_cycles(385);
    assert_eq!(
        bus.take_dma_stall(),
        3 + 4,
        "3-cycle load + 4-cycle unexpected reload"
    );
    assert!(
        bus.apu.dmc_activity_possible(),
        "the unexpected byte sits in the sample buffer"
    );
}

#[test]
fn implicit_stop_bugs_gated_off_on_pal() {
    let mut bus = NesBus::new();
    bus.apu.set_cpu_hz(1_662_607);
    bus.write(0x4010, 0x0F);
    bus.write(0x4012, 0x00);
    bus.write(0x4013, 0x00);
    bus.write(0x4015, 0x10);
    bus.tick_cycles(500);
    assert_eq!(
        bus.take_dma_stall(),
        3,
        "PAL: only the load DMA, no unexpected reload"
    );
}

#[test]
fn bus_8000_read_in_write_mode_does_not_touch_dac() {
    let mut bus = NesBus::new();
    let h = mmc5_header_with_program(vec![0x77]);
    bus.configure_from_header(&h);
    bus.write(0x5010, 0x80);
    assert_eq!(bus.read(0x8000), 0x77);
    assert_eq!(
        bus.apu.expansion.mmc5.pcm, 0x00,
        "write-mode reads must not update the DAC"
    );
}
