use oxideav_nsf::apu::{
    Apu2A03, ApuLevels, DMC_DMA_LOAD_STALL_CYCLES, DMC_DMA_RELOAD_STALL_CYCLES,
};
use oxideav_nsf::noise::NoiseChannel;
use oxideav_nsf::pulse::PulseChannel;
use oxideav_nsf::triangle::TriangleChannel;

#[test]
fn pulse_writes_and_outputs_nonzero() {
    let mut apu = Apu2A03::new();
    apu.write_status(0x01);
    apu.write_register(0x4000, 0xBF);
    apu.write_register(0x4002, 0x10);
    apu.write_register(0x4003, 0x00);

    for _ in 0..1000 {
        apu.tick_cpu_cycles(8);
    }

    let mut saw_nonzero = false;
    for _ in 0..16 {
        apu.tick_cpu_cycles(64);
        if apu.output_sample().pulses > 0 {
            saw_nonzero = true;
        }
    }
    assert!(saw_nonzero, "pulse channel never emitted output");
}

#[test]
fn pulse_bottom_octave_mutes_with_sweep_unconfigured() {
    let mut p = PulseChannel::new(false);
    p.enabled = true;
    p.write_main(0xBF);
    p.write_period_lo(0x00);
    p.write_period_hi(0x05);
    p.length.counter = 10;

    assert!(p.sweep_mutes(), "period ≥ $400 must mute with negate false");
    for _ in 0..0x4000 {
        p.tick_timer(1);
        assert_eq!(p.output(), 0, "muted channel must send 0 to the mixer");
    }

    p.write_period_lo(0xFF);
    p.write_period_hi(0x03);
    p.length.counter = 10;
    assert!(!p.sweep_mutes(), "period $3FF must not mute");
    let mut saw = false;
    for _ in 0..0x4000 {
        p.tick_timer(1);
        if p.output() > 0 {
            saw = true;
            break;
        }
    }
    assert!(saw, "period-$3FF pulse produced no output");
}

#[test]
fn pulse_write_08_fully_disables_sweep_muting() {
    let mut p = PulseChannel::new(false);
    p.enabled = true;
    p.write_main(0xBF);
    p.write_period_lo(0x00);
    p.write_period_hi(0x05);
    p.length.counter = 10;
    assert!(p.sweep_mutes(), "sanity: mutes before the $08 write");
    p.write_sweep(0x08);
    assert!(!p.sweep_mutes(), "$08 write must lift the adder mute");
    let mut saw = false;
    for _ in 0..0x8000 {
        p.tick_timer(1);
        if p.output() > 0 {
            saw = true;
            break;
        }
    }
    assert!(saw, "negate-disabled low pulse produced no output");
}

#[test]
fn pulse_negative_target_clamps_to_zero() {
    let mut p = PulseChannel::new(false);
    p.write_period_lo(20);
    p.write_sweep(0x08);
    assert_eq!(p.target_period(), 0);
    assert!(!p.sweep_mutes(), "clamped target must not mute");
}

#[test]
fn pulse_negate_carry_differs_between_channels() {
    let mut p1 = PulseChannel::new(false);
    p1.write_period_lo(40);
    p1.write_sweep(0x09);
    assert_eq!(p1.target_period(), 40 - 21);
    let mut p2 = PulseChannel::new(true);
    p2.write_period_lo(40);
    p2.write_sweep(0x09);
    assert_eq!(p2.target_period(), 40 - 20);
}

#[test]
fn pulse_sweep_overflow_still_mutes() {
    let mut p = PulseChannel::new(false);
    p.enabled = true;
    p.length.counter = 10;
    p.write_period_lo(0x00);
    p.write_period_hi(0x07);
    p.write_sweep(0x01);
    assert!(p.sweep_mutes(), "sweep overflow should mute");
    assert_eq!(p.output(), 0);
}

#[test]
fn sweep_divider_keeps_counting_while_muting() {
    let mut p = PulseChannel::new(false);
    p.enabled = true;
    p.length.counter = 10;
    p.write_period_lo(0x00);
    p.write_period_hi(0x06);
    p.write_sweep(0xA1);
    assert!(p.sweep_mutes());

    p.clock_sweep();
    assert_eq!(p.sweep_divider, 2);
    for expected in [1u8, 0] {
        p.clock_sweep();
        assert_eq!(p.sweep_divider, expected, "divider must keep counting");
    }

    p.clock_sweep();
    assert_eq!(p.timer_period, 0x600, "muting must block the period update");
    assert_eq!(p.sweep_divider, 2, "divider must reload as normal");
}

#[test]
fn status_reflects_length_counter() {
    let mut apu = Apu2A03::new();
    apu.write_status(0x01);
    apu.write_register(0x4002, 0x40);
    apu.write_register(0x4003, 0x08);
    assert_eq!(apu.read_status() & 0x01, 0x01);

    apu.write_status(0x00);
    assert_eq!(apu.read_status() & 0x01, 0x00);
}

#[test]
fn noise_lfsr_advances() {
    let mut apu = Apu2A03::new();
    apu.write_status(0x08);
    apu.write_register(0x400C, 0x30);
    apu.write_register(0x400E, 0x00);
    apu.write_register(0x400F, 0x08);

    for _ in 0..64 {
        apu.tick_cpu_cycles(8);
    }

    assert_ne!(apu.noise.shift, 1);
}

#[test]
fn noise_shift_rate_matches_spec_sample_rate() {
    let mut noise = NoiseChannel::new();
    noise.timer_period = NoiseChannel::period_for(0, false);
    let cpu_cycles = 4_000u32;
    let mut last = noise.shift;
    let mut shifts = 0u32;
    for _ in 0..cpu_cycles {
        noise.tick_timer(1);
        if noise.shift != last {
            shifts += 1;
            last = noise.shift;
        }
    }

    assert!(
        (995..=1000).contains(&shifts),
        "expected ~1000 shifts in 4000 CPU cycles at period 4, got {shifts}"
    );
}

#[test]
fn noise_period_table_follows_region() {
    let mut apu = Apu2A03::new();
    apu.write_register(0x400E, 0x0F);
    assert_eq!(apu.noise.timer_period, 4068);

    apu.write_register(0x400E, 0x05);
    assert_eq!(apu.noise.timer_period, 96);

    apu.set_cpu_hz(1_662_607);
    assert_eq!(apu.noise.timer_period, 88, "index $5 PAL = 88");
    apu.write_register(0x400E, 0x0F);
    assert_eq!(apu.noise.timer_period, 3778, "index $F PAL = 3778");

    apu.set_cpu_hz(1_789_773);
    assert_eq!(apu.noise.timer_period, 4068);
}

#[test]
fn pulse_prescaler_carry_is_chunk_invariant() {
    let setup = |apu: &mut Apu2A03| {
        apu.write_status(0x01);
        apu.write_register(0x4000, 0xBF);
        apu.write_register(0x4002, 0x05);
        apu.write_register(0x4003, 0x00);
    };
    let mut bulk = Apu2A03::new();
    setup(&mut bulk);
    bulk.tick_cpu_cycles(1001);
    let mut drip = Apu2A03::new();
    setup(&mut drip);
    for _ in 0..1001 {
        drip.tick_cpu_cycles(1);
    }
    assert_eq!(
        bulk.pulse1.duty_step, drip.pulse1.duty_step,
        "pulse duty step must be invariant to CPU cycle chunking"
    );
    assert_eq!(bulk.pulse1.timer, drip.pulse1.timer);
}

#[test]
fn frame_clocked_units_are_chunk_invariant() {
    let setup = |apu: &mut Apu2A03| {
        apu.write_frame_counter(0x00);
        apu.write_status(0x05);
        apu.write_register(0x4000, 0x3F);
        apu.write_register(0x4001, 0x82);
        apu.write_register(0x4002, 0x00);
        apu.write_register(0x4003, 0x02);
        apu.write_register(0x4008, 0x05);
        apu.write_register(0x400A, 0x21);
        apu.write_register(0x400B, 0x08);
    };
    let mut bulk = Apu2A03::new();
    setup(&mut bulk);
    bulk.tick_cpu_cycles(100_000);
    let mut drip = Apu2A03::new();
    setup(&mut drip);
    for _ in 0..100_000 {
        drip.tick_cpu_cycles(1);
    }
    assert_eq!(bulk.pulse1.timer_period, drip.pulse1.timer_period);
    assert_eq!(bulk.pulse1.timer, drip.pulse1.timer);
    assert_eq!(bulk.pulse1.duty_step, drip.pulse1.duty_step);
    assert_eq!(bulk.triangle.seq_step, drip.triangle.seq_step);
    assert_eq!(bulk.triangle.linear_counter, drip.triangle.linear_counter);
    assert_eq!(bulk.frame_acc, drip.frame_acc);
    assert_eq!(bulk.frame_step, drip.frame_step);
}

#[test]
fn triangle_holds_position_when_counters_expire() {
    let mut tri = TriangleChannel {
        enabled: true,
        ..TriangleChannel::default()
    };
    tri.write_linear(0x05);
    tri.write_period_lo(0x10);
    tri.write_period_hi(0x00);
    tri.linear_counter = 4;
    tri.length.counter = 4;
    tri.linear_reload = false;

    tri.tick_timer(16 * 5);
    let held = tri.output_halfsteps();

    tri.linear_counter = 0;
    tri.length.counter = 0;

    tri.tick_timer(16 * 10);
    assert_eq!(
        tri.output_halfsteps(),
        held,
        "triangle must hold its last step"
    );
}

#[test]
fn triangle_ultrasonic_reports_midpoint_not_silence() {
    let mut tri = TriangleChannel {
        enabled: true,
        ..TriangleChannel::default()
    };

    tri.write_period_lo(0x01);
    assert_eq!(tri.output_halfsteps(), 0, "halted channel holds");

    tri.length.counter = 4;
    tri.linear_counter = 4;
    assert_eq!(tri.output_halfsteps(), 15, "cycling ultrasonic = 7.5");
}

#[test]
fn triangle_4015_disable_holds_position_not_zero() {
    let mut tri = TriangleChannel {
        enabled: true,
        ..TriangleChannel::default()
    };
    tri.write_period_lo(0x10);
    tri.length.counter = 100;
    tri.linear_counter = 100;
    tri.tick_timer(17 * 5);
    let held = tri.output_halfsteps();
    assert_ne!(held, 0, "mid-wave step should be non-zero");

    tri.enabled = false;
    tri.length.silence_if_disabled(false);
    tri.tick_timer(17 * 50);
    assert_eq!(
        tri.output_halfsteps(),
        held,
        "disabled triangle must hold its last output, not snap to 0"
    );
}

#[test]
fn mixer_rests_at_zero() {
    let apu = Apu2A03::new();
    assert_eq!(
        apu.output_sample(),
        ApuLevels {
            pulses: 0,
            triangle_halfsteps: 0,
            noise: 0,
            dmc: 0,
        }
    );
}

#[test]
fn dmc_address_seeded_by_4012() {
    let mut apu = Apu2A03::new();
    apu.write_register(0x4012, 0x10);
    apu.write_register(0x4013, 0x01);
    apu.write_status(0x10);
    assert_eq!(apu.dmc.sample_addr_seed, 0xC400);
    assert_eq!(apu.dmc.sample_len_seed, (1 << 4) | 1);
    assert_eq!(apu.dmc.current_addr, 0xC400);
    assert_eq!(apu.dmc.bytes_remaining, (1 << 4) | 1);
}

#[test]
fn dmc_pending_fetch_drains_after_byte_supplied() {
    let mut apu = Apu2A03::new();
    apu.write_register(0x4012, 0x00);
    apu.write_register(0x4013, 0x01);
    apu.write_status(0x10);

    for _ in 0..4 {
        apu.tick_cpu_cycles(1);
    }
    let pending = apu.dmc_pending_fetch();
    assert_eq!(pending, Some((0xC000, DMC_DMA_LOAD_STALL_CYCLES)));
    apu.dmc_supply_byte(0xAB);

    assert_eq!(apu.dmc.current_addr, 0xC001);
    assert_eq!(apu.dmc.bytes_remaining, 16);
    assert!(apu.dmc.sample_buffer_filled);
    assert!(apu.dmc_pending_fetch().is_none());
}

#[test]
fn dmc_dma_load_then_reload_stall_cycles() {
    let mut apu = Apu2A03::new();
    apu.write_register(0x4010, 0x4F);
    apu.write_register(0x4012, 0x00);
    apu.write_register(0x4013, 0x00);
    apu.write_status(0x10);
    apu.tick_cpu_cycles(1);
    let (addr, stall) = apu.dmc_pending_fetch().expect("load fetch armed");
    assert_eq!(addr, 0xC000);
    assert_eq!(
        stall, DMC_DMA_LOAD_STALL_CYCLES,
        "post-$4015 fetch is a load"
    );
    apu.dmc_supply_byte(0xAA);

    apu.tick_cpu_cycles(54 * 8 + 16);
    let (_, stall2) = apu.dmc_pending_fetch().expect("reload fetch armed");
    assert_eq!(
        stall2, DMC_DMA_RELOAD_STALL_CYCLES,
        "buffer-emptied refetch is a reload"
    );
}

#[test]
fn dmc_disable_cancels_pending_fetch() {
    let mut apu = Apu2A03::new();
    apu.write_register(0x4010, 0x0F);
    apu.write_register(0x4012, 0x00);
    apu.write_register(0x4013, 0x00);
    apu.write_status(0x10);
    apu.tick_cpu_cycles(1);
    assert!(apu.dmc_pending_fetch().is_some(), "fetch armed");
    apu.write_status(0x00);
    assert!(
        apu.dmc_pending_fetch().is_none(),
        "disable must cancel the armed fetch"
    );
    assert!(
        !apu.dmc.sample_buffer_filled,
        "no byte may reach the buffer from the aborted DMA"
    );

    apu.write_status(0x10);
    apu.tick_cpu_cycles(1);
    let (addr, stall) = apu.dmc_pending_fetch().expect("fresh load armed");
    assert_eq!(addr, 0xC000);
    assert_eq!(stall, DMC_DMA_LOAD_STALL_CYCLES);
}

#[test]
fn dmc_reenable_after_sample_end_is_a_load_dma() {
    let mut apu = Apu2A03::new();
    apu.write_register(0x4010, 0x0F);
    apu.write_register(0x4012, 0x00);
    apu.write_register(0x4013, 0x00);
    apu.write_status(0x10);
    apu.tick_cpu_cycles(1);
    let (_, stall) = apu.dmc_pending_fetch().expect("first load armed");
    assert_eq!(stall, DMC_DMA_LOAD_STALL_CYCLES);
    apu.dmc_supply_byte(0x55);

    apu.tick_cpu_cycles(54 * 16 + 32);
    assert!(
        apu.dmc_pending_fetch().is_none(),
        "sample ended, no refetch"
    );
    apu.write_status(0x10);
    apu.tick_cpu_cycles(1);
    let (_, stall2) = apu.dmc_pending_fetch().expect("restart load armed");
    assert_eq!(stall2, DMC_DMA_LOAD_STALL_CYCLES, "restart fetch is a load");
}

#[test]
fn dmc_status_bit_reflects_bytes_remaining() {
    let mut apu = Apu2A03::new();
    apu.write_register(0x4010, 0x0F);
    apu.write_register(0x4012, 0);
    apu.write_register(0x4013, 0x02);
    apu.write_status(0x10);
    let s0 = apu.read_status();
    assert_eq!(s0 & 0x10, 0x10);

    for _ in 0..30_000 {
        apu.tick_cpu_cycles(1);
        if let Some(_addr) = apu.dmc_pending_fetch() {
            apu.dmc_supply_byte(0);
        }
        if apu.dmc.bytes_remaining == 0 {
            break;
        }
    }
    assert_eq!(apu.dmc.bytes_remaining, 0, "DMC should be drained");
    let s1 = apu.read_status();
    assert_eq!(s1 & 0x10, 0);
}

#[test]
fn dmc_irq_flag_sets_on_end_of_sample_when_armed() {
    let mut apu = Apu2A03::new();

    apu.write_register(0x4010, 0x80 | 0x0F);
    apu.write_register(0x4012, 0);
    apu.write_register(0x4013, 0);
    apu.write_status(0x10);
    for _ in 0..2_000 {
        apu.tick_cpu_cycles(1);
        if let Some(_a) = apu.dmc_pending_fetch() {
            apu.dmc_supply_byte(0);
        }
        if apu.dmc.bytes_remaining == 0 {
            break;
        }
    }
    assert!(apu.dmc.irq_flag, "DMC IRQ flag should be set");
    let s = apu.read_status();
    assert_eq!(s & 0x80, 0x80);

    let s2 = apu.read_status();
    assert_eq!(s2 & 0x80, 0x80, "$4015 read must NOT clear DMC IRQ");

    apu.write_status(0x10);
    assert!(!apu.dmc.irq_flag, "$4015 write must clear DMC IRQ");
    let s3 = apu.read_status();
    assert_eq!(s3 & 0x80, 0);
}

#[test]
fn dmc_output_unit_powers_up_silent() {
    let mut apu = Apu2A03::new();
    apu.write_register(0x4010, 0x0F);
    apu.write_register(0x4011, 0x40);
    for _ in 0..10_000 {
        apu.tick_cpu_cycles(1);
    }
    assert_eq!(
        apu.dmc.dac, 0x40,
        "$4011 level must not drift while the DMC is silent"
    );
}

#[test]
fn dmc_irq_flag_cleared_by_4010_irq_disable() {
    let mut apu = Apu2A03::new();
    apu.dmc.irq_flag = true;
    apu.write_register(0x4010, 0x80);
    assert!(apu.dmc.irq_flag, "IRQ-enable set must preserve the flag");
    apu.write_register(0x4010, 0x00);
    assert!(!apu.dmc.irq_flag, "clearing IRQ enable must clear the flag");
}

#[test]
fn status_write_does_not_touch_frame_irq_flag() {
    let mut apu = Apu2A03::new();
    apu.frame_irq_flag = true;
    apu.write_status(0x1F);
    assert!(apu.frame_irq_flag, "$4015 write must not clear frame IRQ");
    apu.read_status();
    assert!(!apu.frame_irq_flag, "$4015 read clears frame IRQ");
}

#[test]
fn apu_irq_line_or_of_frame_and_dmc_sources() {
    let mut apu = Apu2A03::new();
    assert!(!apu.irq_line());

    apu.write_frame_counter(0x00);
    apu.tick_cpu_cycles(35_000);
    assert!(apu.irq_line(), "frame IRQ should assert the line");

    apu.read_status();
    assert!(!apu.irq_line());

    apu.write_frame_counter(0x40);
    apu.tick_cpu_cycles(35_000);
    assert!(!apu.irq_line(), "inhibit must suppress frame IRQ");
}

#[test]
fn frame_counter_irq_fires_on_documented_schedule() {
    let mut apu = Apu2A03::new();
    apu.write_frame_counter(0x00);
    let mut fired_at = None;
    for c in 1..=30_000u32 {
        apu.tick_cpu_cycles(1);
        if apu.frame_irq_flag {
            fired_at = Some(c);
            break;
        }
    }
    assert_eq!(
        fired_at,
        Some(4 + 29_828),
        "4-step IRQ flag at CPU 29828 after the delayed $4017 reset"
    );

    apu.read_status();
    apu.tick_cpu_cycles(1);
    assert!(apu.frame_irq_flag, "flag re-set at step-4 PUT (29829)");
    apu.read_status();
    apu.tick_cpu_cycles(1);
    assert!(apu.frame_irq_flag, "flag re-set at wrap GET (29830)");

    apu.read_status();
    let mut next_at = None;
    for c in 1..=40_000u32 {
        apu.tick_cpu_cycles(1);
        if apu.frame_irq_flag {
            next_at = Some(c);
            break;
        }
    }
    assert_eq!(next_at, Some(29_828), "next set point 29828 after wrap");
}

#[test]
fn frame_counter_quarter_signal_lands_on_put_cycle() {
    let mut apu = Apu2A03::new();
    apu.write_frame_counter(0x00);
    apu.write_status(0x01);
    apu.write_register(0x4000, 0x00);
    apu.write_register(0x4003, 0x08);
    apu.tick_cpu_cycles(4 + 7_456);
    assert_eq!(apu.pulse1.envelope.decay, 0, "no quarter clock yet");
    apu.tick_cpu_cycles(1);
    assert_eq!(apu.pulse1.envelope.decay, 15, "quarter clock at 7457");
}

#[test]
fn frame_counter_4017_reset_delay_depends_on_write_phase() {
    let mut apu = Apu2A03::new();
    apu.write_status(0x01);
    apu.write_register(0x4000, 0x00);
    apu.write_register(0x4003, 0x08);
    apu.write_frame_counter(0x80);
    apu.tick_cpu_cycles(3);
    assert_eq!(apu.pulse1.envelope.decay, 0, "no clock 3 cycles in");
    apu.tick_cpu_cycles(1);
    assert_eq!(apu.pulse1.envelope.decay, 15, "clock on the 4th cycle");

    let mut apu = Apu2A03::new();
    apu.write_status(0x01);
    apu.write_register(0x4000, 0x00);
    apu.write_register(0x4003, 0x08);
    apu.tick_cpu_cycles(1);
    apu.write_frame_counter(0x80);
    apu.tick_cpu_cycles(2);
    assert_eq!(apu.pulse1.envelope.decay, 0, "no clock 2 cycles in");
    apu.tick_cpu_cycles(1);
    assert_eq!(apu.pulse1.envelope.decay, 15, "clock on the 3rd cycle");
}

#[test]
fn frame_counter_4017_bit7_clear_does_not_clock_units() {
    let mut apu = Apu2A03::new();
    apu.write_status(0x01);
    apu.write_register(0x4000, 0x00);
    apu.write_register(0x4003, 0x08);
    let len = apu.pulse1.length.counter;
    apu.write_frame_counter(0x00);
    apu.tick_cpu_cycles(8);
    assert_eq!(apu.pulse1.envelope.decay, 0, "no quarter clock");
    assert_eq!(apu.pulse1.length.counter, len, "no half clock");
}

#[test]
fn five_step_clocks_nothing_at_fourth_step_and_both_at_fifth() {
    let mut apu = Apu2A03::new();
    apu.write_status(0x01);
    apu.write_register(0x4000, 0x00);
    apu.write_register(0x4003, 0x08);
    apu.write_frame_counter(0x80);
    apu.tick_cpu_cycles(4);
    let len0 = apu.pulse1.length.counter;
    let decay0 = apu.pulse1.envelope.decay;
    assert_eq!(decay0, 15, "write's own quarter clock consumed start");

    apu.tick_cpu_cycles(29_900);
    assert_eq!(
        apu.pulse1.envelope.decay,
        decay0 - 3,
        "exactly 3 quarter clocks through CPU 29900 (step 4 is blank)"
    );
    assert_eq!(
        apu.pulse1.length.counter,
        len0 - 1,
        "one half clock (step 2) through CPU 29900"
    );

    apu.tick_cpu_cycles(37_281 - 29_900);
    assert_eq!(
        apu.pulse1.envelope.decay,
        decay0 - 4,
        "step 5 issues the 4th quarter clock"
    );
    assert_eq!(
        apu.pulse1.length.counter,
        len0 - 2,
        "step 5 issues the 2nd half clock"
    );
}

#[test]
fn frame_counter_pal_period_is_documented() {
    let mut apu = Apu2A03::new();
    apu.set_cpu_hz(1_662_607);
    apu.write_frame_counter(0x00);
    let mut fired_at = None;
    for c in 1..=40_000u32 {
        apu.tick_cpu_cycles(1);
        if apu.frame_irq_flag {
            fired_at = Some(c);
            break;
        }
    }
    assert_eq!(
        fired_at,
        Some(4 + 33_252),
        "PAL 4-step IRQ flag at CPU 33252 after the delayed reset"
    );
}

#[test]
fn frame_counter_irq_flag_in_status_byte_acknowledges_on_read() {
    let mut apu = Apu2A03::new();
    apu.write_frame_counter(0x00);
    apu.tick_cpu_cycles(35_000);
    let s = apu.read_status();
    assert!(s & 0x40 != 0, "$4015 bit 6 = frame IRQ flag");
    let s2 = apu.read_status();
    assert_eq!(s2 & 0x40, 0);
}
