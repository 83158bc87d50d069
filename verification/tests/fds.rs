use oxideav_nsf::fds::Fds;

/// Output as a fraction of full scale.
fn level(chip: &Fds) -> f32 {
    let (sample, gain, divisor) = chip.output();
    sample as f32 / 32.0 * (gain as f32 / 32.0) / divisor as f32 * 0.5
}

#[test]
fn fds_wave_write_disabled_unless_armed() {
    let mut chip = Fds::new();

    chip.write(0x4040, 0x3F);
    assert_eq!(chip.wave[0], 0);

    chip.write(0x4089, 0x80);
    chip.write(0x4040, 0x3F);
    assert_eq!(chip.wave[0], 0x3F);
}

#[test]
fn fds_4084_sets_mod_gain_not_position() {
    let mut chip = Fds::new();
    chip.write(0x4084, 0x9F);
    assert_eq!(chip.mod_gain, 0x1F);

    chip.write(0x4085, 0x7F);
    assert_eq!(chip.mod_counter, -1);
    chip.write(0x4085, 0x40);
    assert_eq!(chip.mod_counter, -64);
    chip.write(0x4085, 0x3F);
    assert_eq!(chip.mod_counter, 63);
}

#[test]
fn fds_mod_table_writes_only_when_disabled_and_advance_by_entry() {
    let mut chip = Fds::new();

    chip.write(0x4088, 0x05);
    chip.write(0x4088, 0x02);
    assert_eq!(chip.mod_table[0], 0x05);
    assert_eq!(chip.mod_table[1], 0x02);
    assert_eq!(chip.mod_pos, 4);

    chip.write(0x4087, 0x00);
    assert!(!chip.mod_disabled);
    let before = chip.mod_table[2];
    chip.write(0x4088, 0x07);
    assert_eq!(chip.mod_table[2], before);
}

#[test]
fn fds_pitch_formula_matches_spec_c_code() {
    let mut chip = Fds::new();
    chip.freq = 100;

    chip.mod_counter = 0;
    chip.mod_gain = 16;
    assert_eq!(chip.wave_pitch(), 6400);

    chip.mod_counter = 32;
    assert_eq!(chip.wave_pitch(), 9600);

    chip.mod_counter = 1;
    chip.mod_gain = 1;
    assert_eq!(chip.wave_pitch(), 6600);

    chip.mod_counter = -8;
    chip.mod_gain = 16;
    assert_eq!(chip.wave_pitch(), 5600);
}

#[test]
fn fds_mod_table_steps_counter_on_bit11_carry() {
    let mut chip = Fds::new();

    for _ in 0..32 {
        chip.write(0x4088, 0x01);
    }

    assert_eq!(chip.mod_pos, 0);

    chip.write(0x4086, 0xFF);
    chip.write(0x4087, 0x0F);
    assert!(!chip.mod_disabled);
    chip.mod_counter = 0;

    chip.mod_acc = 0x001;
    chip.unit_tick();
    assert_eq!(chip.mod_counter, 1);
    chip.mod_acc = 0x001;
    chip.unit_tick();
    assert_eq!(chip.mod_counter, 2);
}

#[test]
fn fds_mod_counter_wraps_signed_7bit() {
    let mut chip = Fds::new();
    for _ in 0..32 {
        chip.write(0x4088, 0x01);
    }
    chip.write(0x4086, 0xFF);
    chip.write(0x4087, 0x0F);
    chip.mod_counter = 63;
    chip.mod_acc = 0x001;
    chip.unit_tick();
    assert_eq!(chip.mod_counter, -64);
}

#[test]
fn fds_mod_table_entry4_resets_counter() {
    let mut chip = Fds::new();
    for _ in 0..32 {
        chip.write(0x4088, 0x04);
    }
    chip.write(0x4086, 0xFF);
    chip.write(0x4087, 0x0F);
    chip.mod_counter = 50;
    chip.mod_acc = 0x001;
    chip.unit_tick();
    assert_eq!(chip.mod_counter, 0);
}

#[test]
fn fds_modulation_changes_wave_advance_rate() {
    let mut plain = Fds::new();
    let mut modu = Fds::new();
    for chip in [&mut plain, &mut modu] {
        chip.freq = 0x200;
        chip.mod_gain = 0x20;
    }

    for v in [0x01u8, 0x07] {
        for _ in 0..16 {
            modu.write(0x4088, v);
        }
    }
    modu.write(0x4086, 0x80);
    modu.write(0x4087, 0x07);
    for _ in 0..4000 {
        plain.tick(16);
        modu.tick(16);
    }

    assert_ne!(plain.wave_acc, modu.wave_acc);
}

#[test]
fn fds_disabling_mod_unit_resets_accumulator() {
    let mut chip = Fds::new();
    chip.write(0x4086, 0x55);
    chip.write(0x4087, 0x02);
    chip.mod_acc = 0x0ABC;
    chip.write(0x4087, 0x82);
    assert!(chip.mod_disabled);
    assert_eq!(chip.mod_acc, 0);
}

#[test]
fn fds_env_period_matches_spec_formula() {
    assert_eq!(Fds::env_period(5, 7, false), 384);
    assert_eq!(Fds::env_period(5, 7, true), 96);

    assert_eq!(Fds::env_period(0, 0xE8, false), 1864);

    assert_eq!(Fds::env_period(10, 0, false), 0);
}

#[test]
fn fds_volume_envelope_decreases_to_zero() {
    let mut chip = Fds::new();

    chip.wave_pos = 0;
    chip.volume = 20;
    chip.master_env_speed = 1;

    chip.write(0x4080, 0x00);
    assert!(!chip.vol_env_disabled);
    assert!(!chip.vol_env_increase);

    chip.tick(16);
    assert_eq!(chip.volume, 19);

    for _ in 0..40 {
        chip.tick(16);
    }
    assert_eq!(chip.volume, 0);
}

#[test]
fn fds_volume_envelope_increases_and_clamps_at_32() {
    let mut chip = Fds::new();
    chip.wave_pos = 0;
    chip.volume = 30;
    chip.master_env_speed = 1;

    chip.write(0x4080, 0x40);
    assert!(chip.vol_env_increase);
    chip.tick(16);
    assert_eq!(chip.volume, 31);
    chip.tick(16);
    assert_eq!(chip.volume, 32);

    for _ in 0..10 {
        chip.tick(16);
    }
    assert_eq!(chip.volume, 32);
}

#[test]
fn fds_mod_envelope_ramps_mod_gain() {
    let mut chip = Fds::new();
    chip.mod_gain = 10;
    chip.master_env_speed = 1;

    chip.write(0x4084, 0x40);
    assert!(!chip.mod_env_disabled);
    chip.tick(16);
    assert_eq!(chip.mod_gain, 11);

    chip.write(0x4084, 0x00);
    chip.tick(16);
    assert_eq!(chip.mod_gain, 10);
}

#[test]
fn fds_master_speed_zero_freezes_envelopes() {
    let mut chip = Fds::new();
    chip.wave_pos = 0;
    chip.volume = 20;
    chip.master_env_speed = 0;
    chip.write(0x4080, 0x00);
    for _ in 0..100 {
        chip.tick(16);
    }
    assert_eq!(chip.volume, 20);
}

#[test]
fn fds_4083_bit6_halts_envelopes() {
    let mut chip = Fds::new();
    chip.wave_pos = 0;
    chip.volume = 20;
    chip.master_env_speed = 1;
    chip.write(0x4080, 0x00);

    chip.write(0x4083, 0x40);
    assert!(chip.env_halt);
    for _ in 0..50 {
        chip.tick(16);
    }
    assert_eq!(chip.volume, 20);

    chip.write(0x4083, 0x00);
    chip.tick(16);
    assert_eq!(chip.volume, 19);
}

#[test]
fn fds_4083_bit7_runs_envelopes_4x_faster() {
    let mut slow = Fds::new();
    let mut fast = Fds::new();
    for chip in [&mut slow, &mut fast] {
        chip.wave_pos = 0;
        chip.volume = 30;
        chip.master_env_speed = 1;
    }

    slow.write(0x4080, 0x01);
    fast.write(0x4083, 0x80);
    fast.write(0x4080, 0x01);

    slow.tick(32);
    fast.tick(32);
    assert_eq!(slow.volume, 29);
    assert_eq!(fast.volume, 26);
}

#[test]
fn fds_4083_bit7_halts_mod_accumulator() {
    let mut chip = Fds::new();

    chip.write(0x4086, 0x55);
    chip.write(0x4087, 0x02);
    let before = chip.mod_acc;

    chip.write(0x4083, 0x80);
    for _ in 0..100 {
        chip.unit_tick();
    }
    assert_eq!(chip.mod_acc, before);

    chip.write(0x4083, 0x00);
    chip.unit_tick();
    assert_ne!(chip.mod_acc, before);
}

#[test]
fn fds_4083_bit7_halts_wave_unit_and_resets_accumulator() {
    let mut chip = Fds::new();
    chip.write(0x4082, 0xFF);
    chip.write(0x4083, 0x0F);
    chip.tick(16 * 40);
    assert_ne!(chip.wave_acc, 0);
    assert_ne!(chip.wave_pos, 0);

    chip.write(0x4083, 0x80 | 0x0F);
    assert_eq!(chip.wave_acc, 0);
    assert_eq!(chip.wave_pos, 0, "halted wave outputs the $4040 value");

    chip.tick(16 * 100);
    assert_eq!(chip.wave_acc, 0);
    assert_eq!(chip.wave_pos, 0);

    chip.write(0x4082, 0x40);
    chip.write(0x4083, 0x00);
    chip.tick(16 * 63);
    assert_eq!(chip.wave_pos, 0, "position stays 0 until the overflow");
    chip.tick(16 * 2);
    assert_ne!(chip.wave_pos, 0);
}

#[test]
fn fds_state_is_invariant_to_batch_chunking() {
    let setup = |chip: &mut Fds| {
        for i in 0..32u16 {
            chip.write(0x4089, 0x80);
            chip.write(0x4040 + i * 2, (i & 0x3F) as u8);
            chip.write(0x4089, 0x00);
        }
        chip.write(0x4085, 0x08);
        chip.write(0x4088, 0x01);
        chip.write(0x4088, 0x06);
        chip.write(0x4086, 0xFF);
        chip.write(0x4087, 0x03);
        chip.write(0x4084, 0x08);
        chip.write(0x4080, 0x25);
        chip.write(0x408A, 0x10);
        chip.write(0x4082, 0x80);
        chip.write(0x4083, 0x02);
    };
    let mut whole = Fds::new();
    let mut ragged = Fds::new();
    setup(&mut whole);
    setup(&mut ragged);

    let total: u32 = 50_021;
    whole.tick(total);
    let chunks = [1u32, 3, 5, 7, 16, 29];
    let mut left = total;
    let mut i = 0usize;
    while left > 0 {
        let n = chunks[i % chunks.len()].min(left);
        ragged.tick(n);
        left -= n;
        i += 1;
    }
    assert_eq!(whole.wave_acc, ragged.wave_acc);
    assert_eq!(whole.wave_pos, ragged.wave_pos);
    assert_eq!(whole.mod_acc, ragged.mod_acc);
    assert_eq!(whole.mod_pos, ragged.mod_pos);
    assert_eq!(whole.mod_counter, ragged.mod_counter);
    assert_eq!(whole.mod_gain, ragged.mod_gain);
    assert_eq!(whole.volume, ragged.volume);
    assert_eq!(whole.vol_env_timer, ragged.vol_env_timer);
    assert_eq!(whole.mod_env_timer, ragged.mod_env_timer);
    assert_eq!(whole.cycle_acc, ragged.cycle_acc);
}

#[test]
fn fds_direct_volume_write_with_mode_bit() {
    let mut chip = Fds::new();
    chip.wave_pos = 0;

    chip.write(0x4080, 0x80 | 0x14);
    assert!(chip.vol_env_disabled);
    assert_eq!(chip.volume, 20);

    chip.wave_pos = 5;
    chip.write(0x4080, 0x80);
    assert_eq!(chip.volume, 0);
    assert!(chip.vol_pending.is_none());
}

#[test]
fn fds_volume_change_latched_until_wave_pos_zero() {
    let mut chip = Fds::new();
    chip.volume = 10;
    chip.master_env_speed = 1;

    chip.wave_pos = 7;
    chip.write(0x4080, 0x00);
    chip.tick(16);
    assert_eq!(chip.volume, 10);
    assert_eq!(chip.vol_pending, Some(9));

    chip.master_env_speed = 0;
    chip.freq = 0x100;
    for _ in 0..10_000 {
        chip.tick(16);
        if chip.wave_pos == 0 {
            break;
        }
    }
    assert_eq!(chip.wave_pos, 0);
    assert_eq!(chip.volume, 9);
    assert!(chip.vol_pending.is_none());
}

#[test]
fn fds_mode_bit_blocks_volume_ramp() {
    let mut chip = Fds::new();
    chip.wave_pos = 0;
    chip.master_env_speed = 1;

    chip.write(0x4080, 0x80 | 0x14);
    for _ in 0..100 {
        chip.tick(16);
    }
    assert_eq!(chip.volume, 20);
}

#[test]
fn fds_4023_disable_defaults_to_enabled() {
    let chip = Fds::new();
    assert!(chip.sound_enabled);
}

#[test]
fn fds_4023_sound_disable_halts_wave_and_freezes_position() {
    let mut chip = Fds::new();
    chip.freq = 0x200;

    for _ in 0..32 {
        chip.tick(16);
    }
    assert_ne!(chip.wave_acc, 0);

    chip.write(0x4023, 0x00);
    assert!(!chip.sound_enabled);
    assert_eq!(chip.wave_pos, 0);
    assert_eq!(chip.wave_acc, 0);

    for _ in 0..1000 {
        chip.tick(16);
    }
    assert_eq!(chip.wave_acc, 0);
    assert_eq!(chip.wave_pos, 0);

    chip.write(0x4023, 0x83);
    assert!(chip.sound_enabled);
    chip.tick(16);
    assert_ne!(chip.wave_acc, 0);
}

#[test]
fn fds_4023_sound_disable_halts_mod_accumulator() {
    let mut chip = Fds::new();
    chip.write(0x4086, 0x55);
    chip.write(0x4087, 0x02);
    chip.tick(16);
    let before = chip.mod_acc;
    chip.write(0x4023, 0x00);
    for _ in 0..200 {
        chip.tick(16);
    }

    assert_eq!(chip.mod_acc, before);
}

#[test]
fn fds_4023_sound_disable_freezes_envelopes() {
    let mut chip = Fds::new();
    chip.wave_pos = 0;
    chip.volume = 20;
    chip.master_env_speed = 1;
    chip.write(0x4080, 0x00);

    chip.write(0x4023, 0x00);
    for _ in 0..50 {
        chip.tick(16);
    }
    assert_eq!(chip.volume, 20);

    chip.write(0x4023, 0x82);
    chip.tick(16);
    assert_eq!(chip.volume, 19);
}

#[test]
fn fds_4023_volume_writes_still_affect_held_output() {
    let mut chip = Fds::new();
    chip.wave[0] = 63;
    chip.wave_pos = 0;
    chip.write(0x4089, 0x00);
    chip.write(0x4023, 0x00);

    chip.write(0x4080, 0x80 | 0x20);
    let loud = level(&chip);
    chip.write(0x4080, 0x80 | 0x08);
    let quiet = level(&chip);
    assert!(loud.abs() > quiet.abs());

    chip.write(0x4080, 0x80 | 0x20);
    let full = level(&chip);
    chip.write(0x4089, 0x03);
    let attenuated = level(&chip);
    assert!(full.abs() > attenuated.abs());
}

#[test]
fn fds_4090_reads_volume_gain_with_open_bus_top_bits() {
    let mut chip = Fds::new();

    chip.write(0x4080, 0x80 | 0x14);

    assert_eq!(chip.read(0x4090), 0x40 | 0x14);

    chip.write(0x4080, 0x80 | 0x3F);
    assert_eq!(chip.read(0x4090), 0x7F);
}

#[test]
fn fds_4091_reads_wave_accumulator_bits_12_to_19() {
    let mut chip = Fds::new();

    chip.wave_acc = 0xABCDEF;

    assert_eq!(chip.read(0x4091), 0xBC);

    let fresh = Fds::new();
    assert_eq!(fresh.read(0x4091), 0x00);
}

#[test]
fn fds_4092_reads_mod_gain_with_open_bus_top_bits() {
    let mut chip = Fds::new();

    chip.write(0x4084, 0x80 | 0x1F);
    assert_eq!(chip.read(0x4092), 0x40 | 0x1F);

    chip.mod_gain = 0x3F;
    assert_eq!(chip.read(0x4092), 0x7F);
}

#[test]
fn fds_4093_reads_mod_acc_bits_5_to_11_top_bit_zero() {
    let mut chip = Fds::new();

    chip.mod_acc = 0xABC;

    assert_eq!(chip.read(0x4093), 0x55);

    chip.mod_acc = 0xFFF;
    assert_eq!(chip.read(0x4093) & 0x80, 0x00);
    assert_eq!(chip.read(0x4093), 0x7F);
}

#[test]
fn fds_4094_reads_counter_times_gain_bits_4_to_11() {
    let mut chip = Fds::new();

    chip.mod_counter = 16;
    chip.mod_gain = 16;
    assert_eq!(chip.read(0x4094), 0x10);

    chip.mod_counter = -8;
    chip.mod_gain = 16;
    assert_eq!(chip.read(0x4094), 0xF8);
}

#[test]
fn fds_4095_reads_next_mod_increment_in_display_form() {
    let mut chip = Fds::new();

    for _ in 0..32 {
        chip.write(0x4088, 0x07);
    }

    assert_eq!(chip.mod_pos, 0);

    assert_eq!(chip.read(0x4095) & 0x0F, 0x0F);

    assert_eq!(chip.read(0x4095) & 0xF0, 0x00);

    chip.mod_table[0] = 3;
    assert_eq!(chip.read(0x4095), 0x04);

    chip.mod_table[0] = 4;
    assert_eq!(chip.read(0x4095), 0x0C);

    chip.mod_table[0] = 6;
    assert_eq!(chip.read(0x4095), 0x0E);
}

#[test]
fn fds_4096_reads_current_wavetable_sample() {
    let mut chip = Fds::new();
    chip.write(0x4089, 0x80);

    chip.write(0x4040, 0x2A);
    chip.write(0x4047, 0x15);
    chip.wave_pos = 0;
    assert_eq!(chip.read(0x4096), 0x40 | 0x2A);
    chip.wave_pos = 7;
    assert_eq!(chip.read(0x4096), 0x40 | 0x15);

    chip.write(0x4040, 0x3F);
    chip.wave_pos = 0;
    assert_eq!(chip.read(0x4096), 0x7F);
}

#[test]
fn fds_4097_reads_mod_counter_signed_7bit_top_bit_zero() {
    let mut chip = Fds::new();

    chip.mod_counter = 63;
    assert_eq!(chip.read(0x4097), 0x3F);

    chip.mod_counter = -1;
    assert_eq!(chip.read(0x4097), 0x7F);

    chip.mod_counter = -64;
    assert_eq!(chip.read(0x4097), 0x40);

    chip.mod_counter = 0;
    assert_eq!(chip.read(0x4097), 0x00);

    for c in -64..=63i8 {
        chip.mod_counter = c;
        assert_eq!(chip.read(0x4097) & 0x80, 0x00, "top bit set for c={c}");
    }
}

#[test]
fn fds_unmapped_read_returns_open_bus() {
    let chip = Fds::new();

    assert_eq!(chip.read(0x4080), 0xFF);
    assert_eq!(chip.read(0x408A), 0xFF);
    assert_eq!(chip.read(0x4040), 0xFF);
    assert_eq!(chip.read(0x4098), 0xFF);
    assert_eq!(chip.read(0x4099), 0xFF);
}
