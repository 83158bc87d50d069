use oxideav_nsf::mmc5::{MMC5_FRAME_CPU, Mmc5};

#[test]
fn mmc5_pulse_status_reports_active_lengths() {
    let mut chip = Mmc5::new();
    chip.write(0x5015, 0x03);
    chip.write(0x5003, 0x08);
    let s = chip.read(0x5015);
    assert_eq!(s & 0x03, 0x01);
}

#[test]
fn mmc5_5010_write_decodes_irq_enable_and_mode_bits() {
    let mut chip = Mmc5::new();
    chip.write(0x5010, 0x80);
    assert!(chip.irq_enable);
    assert!(!chip.pcm_read_mode);
    chip.write(0x5010, 0x01);
    assert!(!chip.irq_enable);
    assert!(chip.pcm_read_mode);
    chip.write(0x5010, 0x81);
    assert!(chip.irq_enable);
    assert!(chip.pcm_read_mode);
}

#[test]
fn mmc5_5011_zero_write_sets_irq_trip_without_changing_dac() {
    let mut chip = Mmc5::new();
    chip.write(0x5011, 0xC0);
    assert_eq!(chip.pcm, 0xC0);
    assert!(!chip.irq_trip);
    chip.write(0x5011, 0x00);
    assert_eq!(chip.pcm, 0xC0, "DAC must NOT change on $00 write");
    assert!(chip.irq_trip);
}

#[test]
fn mmc5_5011_nonzero_write_updates_dac_and_clears_irq_trip() {
    let mut chip = Mmc5::new();
    chip.write(0x5011, 0x00);
    assert!(chip.irq_trip);
    chip.write(0x5011, 0x7F);
    assert_eq!(chip.pcm, 0x7F);
    assert!(!chip.irq_trip);
}

#[test]
fn mmc5_5011_write_ignored_in_read_mode() {
    let mut chip = Mmc5::new();
    chip.write(0x5010, 0x01);
    chip.write(0x5011, 0x55);
    assert_eq!(chip.pcm, 0x00, "$5011 write must be ignored in read mode");
    assert!(
        !chip.irq_trip,
        "and must not trip the IRQ either"
    );
}

#[test]
fn mmc5_5010_read_returns_irq_status_and_clears_trip() {
    let mut chip = Mmc5::new();
    chip.write(0x5010, 0x80);
    chip.write(0x5011, 0x00);
    assert!(chip.irq_trip);
    let v = chip.read(0x5010);
    assert_eq!(v & 0x80, 0x80, "bit 7 reads back the asserted IRQ");
    assert!(
        !chip.irq_trip,
        "read of $5010 acknowledges + clears the trip"
    );

    let v2 = chip.read(0x5010);
    assert_eq!(v2 & 0x80, 0x00);
}

#[test]
fn mmc5_5010_read_masks_with_irq_enable() {
    let mut chip = Mmc5::new();
    chip.write(0x5010, 0x00);
    chip.write(0x5011, 0x00);
    let v = chip.read(0x5010);
    assert_eq!(
        v & 0x80,
        0x00,
        "disabled IRQ must not surface in the readback"
    );
    assert!(!chip.irq_trip, "read still acknowledges + clears the trip");
}

#[test]
fn mmc5_5010_read_mirrors_mode_bit() {
    let mut chip = Mmc5::new();
    chip.write(0x5010, 0x01);
    assert_eq!(chip.read(0x5010) & 0x01, 0x01);
    chip.write(0x5010, 0x00);
    assert_eq!(chip.read(0x5010) & 0x01, 0x00);
}

#[test]
fn mmc5_irq_line_tracks_trip_and_enable() {
    let mut chip = Mmc5::new();
    assert!(!chip.irq_line());
    chip.write(0x5011, 0x00);
    assert!(!chip.irq_line());
    chip.write(0x5010, 0x80);
    assert!(chip.irq_line());
    let _ = chip.read(0x5010);
    assert!(!chip.irq_line());

    chip.write(0x5011, 0x00);
    assert!(chip.irq_line());
    chip.write(0x5010, 0x00);
    assert!(!chip.irq_line());
}

#[test]
fn mmc5_observe_prg_read_updates_dac_in_read_mode_only() {
    let mut chip = Mmc5::new();
    chip.enabled = true;

    chip.observe_prg_read(0x42);
    assert_eq!(chip.pcm, 0x00);
    assert!(!chip.irq_trip);

    chip.write(0x5010, 0x01);
    chip.observe_prg_read(0x42);
    assert_eq!(chip.pcm, 0x42);
    assert!(!chip.irq_trip);

    chip.observe_prg_read(0x00);
    assert_eq!(chip.pcm, 0x42, "DAC must NOT change on $00 byte");
    assert!(chip.irq_trip);

    chip.observe_prg_read(0x80);
    assert_eq!(chip.pcm, 0x80);
    assert!(!chip.irq_trip);
}

#[test]
fn mmc5_observe_prg_read_inert_when_chip_disabled() {
    let mut chip = Mmc5::new();
    chip.enabled = false;
    chip.write(0x5010, 0x01);
    chip.observe_prg_read(0x42);
    assert_eq!(chip.pcm, 0x00);
    assert!(!chip.irq_trip);
}

fn mmc5_frame_steps(chip: &mut Mmc5, n: u32) {
    for _ in 0..n {
        chip.tick(MMC5_FRAME_CPU);
    }
}

#[test]
fn mmc5_length_loads_from_apu_table_not_raw_index() {
    let mut chip = Mmc5::new();
    chip.write(0x5015, 0x01);
    chip.write(0x5003, 0x08);
    assert_eq!(chip.pulse[0].length, 254);

    chip.write(0x5003, 0x00);
    assert_eq!(chip.pulse[0].length, 10);
}

#[test]
fn mmc5_length_load_ignored_when_channel_disabled() {
    let mut chip = Mmc5::new();
    chip.write(0x5003, 0x08);
    assert_eq!(chip.pulse[0].length, 0);
}

#[test]
fn mmc5_length_counts_down_at_240hz_until_silent() {
    let mut chip = Mmc5::new();
    chip.write(0x5015, 0x01);
    chip.write(0x5000, 0x1F);
    chip.write(0x5002, 0x40);
    chip.write(0x5003, 0x18);
    assert_eq!(chip.pulse[0].length, 2);
    mmc5_frame_steps(&mut chip, 1);
    assert_eq!(chip.pulse[0].length, 1);
    mmc5_frame_steps(&mut chip, 1);
    assert_eq!(chip.pulse[0].length, 0);

    chip.pulse[0].step = 1;
    assert_eq!(chip.pulse[0].pulse_output(), 0);
}

#[test]
fn mmc5_length_halt_freezes_counter() {
    let mut chip = Mmc5::new();
    chip.write(0x5015, 0x01);
    chip.write(0x5000, 0x3F);
    chip.write(0x5003, 0x18);
    mmc5_frame_steps(&mut chip, 10);
    assert_eq!(chip.pulse[0].length, 2, "halt must freeze the counter");
}

#[test]
fn mmc5_disabling_channel_clears_length() {
    let mut chip = Mmc5::new();
    chip.write(0x5015, 0x01);
    chip.write(0x5003, 0x08);
    assert_eq!(chip.pulse[0].length, 254);
    chip.write(0x5015, 0x00);
    assert_eq!(chip.pulse[0].length, 0);
}

#[test]
fn mmc5_envelope_decays_at_240hz() {
    let mut chip = Mmc5::new();
    chip.write(0x5015, 0x01);
    chip.write(0x5000, 0x00);
    chip.write(0x5003, 0x08);

    mmc5_frame_steps(&mut chip, 1);
    assert_eq!(chip.pulse[0].env_decay, 15);
    mmc5_frame_steps(&mut chip, 1);
    assert_eq!(chip.pulse[0].env_decay, 14);
    mmc5_frame_steps(&mut chip, 5);
    assert_eq!(chip.pulse[0].env_decay, 9);
}

#[test]
fn mmc5_envelope_period_slows_decay() {
    let mut chip = Mmc5::new();
    chip.write(0x5015, 0x01);
    chip.write(0x5000, 0x03);
    chip.write(0x5003, 0x08);
    mmc5_frame_steps(&mut chip, 1);
    assert_eq!(chip.pulse[0].env_decay, 15);
    mmc5_frame_steps(&mut chip, 3);
    assert_eq!(chip.pulse[0].env_decay, 15);
    mmc5_frame_steps(&mut chip, 1);
    assert_eq!(chip.pulse[0].env_decay, 14);
}

#[test]
fn mmc5_envelope_loops_when_halt_set() {
    let mut chip = Mmc5::new();
    chip.write(0x5015, 0x01);
    chip.write(0x5000, 0x20);
    chip.write(0x5003, 0x08);

    mmc5_frame_steps(&mut chip, 1 + 15);
    assert_eq!(chip.pulse[0].env_decay, 0);
    mmc5_frame_steps(&mut chip, 1);
    assert_eq!(chip.pulse[0].env_decay, 15);
}

#[test]
fn mmc5_constant_bit_selects_volume_over_envelope() {
    let mut chip = Mmc5::new();
    chip.write(0x5015, 0x01);
    chip.write(0x5002, 0x40);

    chip.write(0x5000, 0x17);
    chip.write(0x5003, 0x08);
    chip.pulse[0].step = 1;
    assert_eq!(chip.pulse[0].pulse_output(), 7);

    chip.write(0x5000, 0x07);
    chip.write(0x5003, 0x08);
    mmc5_frame_steps(&mut chip, 1);
    chip.pulse[0].step = 1;
    assert_eq!(chip.pulse[0].pulse_output(), 15);
}

#[test]
fn mmc5_sub_eight_period_is_not_silenced() {
    let mut chip = Mmc5::new();
    chip.write(0x5015, 0x01);
    chip.write(0x5000, 0x1F);
    chip.write(0x5002, 0x02);
    chip.write(0x5003, 0x08);
    chip.pulse[0].step = 1;
    assert_eq!(
        chip.pulse[0].pulse_output(),
        15,
        "sub-8 period must NOT silence the MMC5 pulse"
    );
}

#[test]
fn mmc5_output_polarity_is_reversed_relative_to_the_apu() {
    let mut chip = Mmc5::new();
    chip.write(0x5015, 0x01);
    chip.write(0x5000, 0x1F);
    chip.write(0x5002, 0x40);
    chip.write(0x5003, 0x08);
    chip.pulse[0].step = 0;
    let idle = chip.output().0;
    chip.pulse[0].step = 1;
    assert!(
        chip.output().0 < idle,
        "pulse going high must swing the MMC5 output DOWN"
    );

    let mut pcm = Mmc5::new();
    pcm.write(0x5011, 0x01);
    let low = pcm.output().1;
    pcm.write(0x5011, 0xFF);
    assert!(
        pcm.output().1 < low,
        "rising PCM byte must swing the MMC5 output DOWN"
    );
}

#[test]
fn mmc5_length_write_restarts_envelope() {
    let mut chip = Mmc5::new();
    chip.write(0x5015, 0x01);
    chip.write(0x5000, 0x00);
    chip.write(0x5003, 0x08);
    mmc5_frame_steps(&mut chip, 5);
    assert!(chip.pulse[0].env_decay < 15);
    chip.write(0x5003, 0x08);
    mmc5_frame_steps(&mut chip, 1);
    assert_eq!(chip.pulse[0].env_decay, 15);
}

#[test]
fn mmc5_240hz_clock_needs_full_period() {
    let mut chip = Mmc5::new();
    chip.write(0x5015, 0x01);
    chip.write(0x5000, 0x00);
    chip.write(0x5003, 0x18);
    chip.tick(MMC5_FRAME_CPU - 1);
    assert_eq!(chip.pulse[0].length, 2, "sub-period tick must not step");
    chip.tick(1);
    assert_eq!(chip.pulse[0].length, 1);
}

fn mmc5_cpu_cycles_to_next_duty_step(chip: &mut Mmc5) -> u32 {
    let start = chip.pulse[0].step;
    let mut cycles = 0u32;
    while chip.pulse[0].step == start {
        chip.tick(1);
        cycles += 1;
        assert!(cycles < 10_000, "duty sequencer never stepped");
    }
    cycles
}

#[test]
fn mmc5_pulse_duty_steps_every_two_t_plus_one_cpu_cycles() {
    let mut chip = Mmc5::new();
    chip.write(0x5015, 0x01);
    chip.write(0x5002, 0x40);
    chip.write(0x5003, 0x00);
    let _first = mmc5_cpu_cycles_to_next_duty_step(&mut chip);
    for _ in 0..4 {
        assert_eq!(
            mmc5_cpu_cycles_to_next_duty_step(&mut chip),
            2 * (0x40 + 1),
            "APU-identical rate: 2*(t+1) CPU cycles per duty step"
        );
    }
}

#[test]
fn mmc5_pulse_prescaler_carries_odd_cycles_across_batches() {
    let setup = |chip: &mut Mmc5| {
        chip.write(0x5015, 0x03);
        chip.write(0x5000, 0x10);
        chip.write(0x5002, 0x40);
        chip.write(0x5003, 0x08);
        chip.write(0x5006, 0x33);
        chip.write(0x5007, 0x10);
    };
    let mut whole = Mmc5::new();
    let mut ragged = Mmc5::new();
    setup(&mut whole);
    setup(&mut ragged);

    let total: u32 = 30_011;
    whole.tick(total);
    let chunks = [1u32, 3, 5, 7];
    let mut left = total;
    let mut i = 0usize;
    while left > 0 {
        let n = chunks[i % chunks.len()].min(left);
        ragged.tick(n);
        left -= n;
        i += 1;
    }
    for ch in 0..2 {
        assert_eq!(whole.pulse[ch].timer, ragged.pulse[ch].timer);
        assert_eq!(whole.pulse[ch].step, ragged.pulse[ch].step);
        assert_eq!(whole.pulse[ch].length, ragged.pulse[ch].length);
        assert_eq!(whole.pulse[ch].env_decay, ragged.pulse[ch].env_decay);
    }
    assert_eq!(whole.frame_acc, ragged.frame_acc);
    assert_eq!(whole.pulse_prescaler_carry, ragged.pulse_prescaler_carry);
}

#[test]
fn mmc5_timer_runs_while_channel_disabled() {
    let mut chip = Mmc5::new();
    chip.write(0x5002, 0x10);
    let before = chip.pulse[0].step;
    chip.tick(2 * (0x10 + 1) * 3);
    assert_ne!(chip.pulse[0].step, before);
}
