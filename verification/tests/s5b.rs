use oxideav_nsf::s5b::{LIN_AY_VOL, S5B_ENV_LIN, Sunsoft5b};

#[test]
fn s5b_register_indirection_writes_period() {
    let mut chip = Sunsoft5b::new();
    chip.write(0xC000, 0x00);
    chip.write(0xE000, 0x42);
    chip.write(0xC000, 0x01);
    chip.write(0xE000, 0x03);
    assert_eq!(chip.channels[0].timer_period, 0x0342);
}

#[test]
fn s5b_select_high_nibble_disables_data_port_writes() {
    let mut chip = Sunsoft5b::new();

    chip.write(0xC000, 0x00);
    chip.write(0xE000, 0x42);
    assert_eq!(chip.regs[0], 0x42);
    assert!(!chip.writes_disabled);

    chip.write(0xC000, 0x10);
    assert!(chip.writes_disabled);
    assert_eq!(chip.addr, 0x00, "low nibble still selects R0");
    chip.write(0xE000, 0xFF);
    assert_eq!(chip.regs[0], 0x42, "data-port write ignored while disabled");
    assert_eq!(
        chip.channels[0].timer_period, 0x0042,
        "register-derived state unchanged while disabled"
    );
}

#[test]
fn s5b_select_zero_high_nibble_reenables_data_port_writes() {
    let mut chip = Sunsoft5b::new();
    chip.write(0xC000, 0xF3);
    assert!(chip.writes_disabled);
    chip.write(0xE000, 0xAA);
    assert_eq!(chip.regs[3], 0x00);
    chip.write(0xC000, 0x03);
    assert!(!chip.writes_disabled);
    chip.write(0xE000, 0x07);
    assert_eq!(chip.regs[3], 0x07);

    assert_eq!(chip.channels[1].timer_period, 0x0700);
}

#[test]
fn s5b_every_nonzero_high_nibble_disables_writes() {
    for high in 0u8..=0x0F {
        let mut chip = Sunsoft5b::new();
        chip.write(0xC000, high << 4);
        chip.write(0xE000, 0x55);
        if high == 0 {
            assert_eq!(chip.regs[0], 0x55, "high=0 must allow the write");
        } else {
            assert_eq!(chip.regs[0], 0x00, "high={high} must block the write");
        }
    }
}

fn s5b_write_reg(chip: &mut Sunsoft5b, r: u8, value: u8) {
    chip.write(0xC000, r);
    chip.write(0xE000, value);
}

#[test]
fn s5b_tone_flips_every_two_periods_of_sixteen_clocks() {
    let mut chip = Sunsoft5b::new();
    s5b_write_reg(&mut chip, 0, 0x04);
    s5b_write_reg(&mut chip, 1, 0x00);
    assert_eq!(chip.channels[0].timer_period, 4);
    let start = chip.channels[0].level;
    chip.tick(48);
    assert_eq!(chip.channels[0].level, start);
    chip.tick(16);
    assert_eq!(chip.channels[0].level, start ^ 1);
    chip.tick(64);
    assert_eq!(chip.channels[0].level, start);
}

#[test]
fn s5b_single_cycle_ticks_accumulate_across_batches() {
    let mut chip = Sunsoft5b::new();
    s5b_write_reg(&mut chip, 0, 0x04);
    s5b_write_reg(&mut chip, 1, 0x00);
    let start = chip.channels[0].level;
    for _ in 0..64 {
        chip.tick(1);
    }
    assert_eq!(
        chip.channels[0].level,
        start ^ 1,
        "sixty-four 1-cycle batches = one 64-cycle batch"
    );
}

#[test]
fn s5b_state_is_invariant_to_batch_chunking() {
    let setup = |chip: &mut Sunsoft5b| {
        s5b_write_reg(chip, 0, 0x07);
        s5b_write_reg(chip, 1, 0x00);
        s5b_write_reg(chip, 6, 0x03);
        s5b_write_reg(chip, 0x0B, 0x05);
        s5b_write_reg(chip, 0x0C, 0x00);
        s5b_write_reg(chip, 0x0D, 0x0E);
        s5b_write_reg(chip, 8, 0x10);
    };
    let mut whole = Sunsoft5b::new();
    let mut ragged = Sunsoft5b::new();
    setup(&mut whole);
    setup(&mut ragged);

    let total: u32 = 16_384;
    whole.tick(total);
    let mut left = total;
    let chunks = [1u32, 3, 5, 7];
    let mut i = 0usize;
    while left > 0 {
        let n = chunks[i % chunks.len()].min(left);
        ragged.tick(n);
        left -= n;
        i += 1;
    }

    assert_eq!(whole.channels[0].level, ragged.channels[0].level);
    assert_eq!(whole.channels[0].timer, ragged.channels[0].timer);
    assert_eq!(whole.noise.lfsr, ragged.noise.lfsr);
    assert_eq!(whole.noise.timer, ragged.noise.timer);
    assert_eq!(whole.envelope.step, ragged.envelope.step);
    assert_eq!(whole.envelope.timer, ragged.envelope.timer);
    assert_eq!(whole.clock_rem, ragged.clock_rem);
}

#[test]
fn s5b_tone_period_zero_behaves_as_one() {
    let mut chip = Sunsoft5b::new();
    s5b_write_reg(&mut chip, 0, 0x00);
    s5b_write_reg(&mut chip, 1, 0x00);
    let start = chip.channels[0].level;
    chip.tick(16);
    assert_eq!(chip.channels[0].level, start ^ 1);
    chip.tick(16);
    assert_eq!(chip.channels[0].level, start);
}

#[test]
fn s5b_noise_lfsr_advances_with_period_one() {
    let mut chip = Sunsoft5b::new();
    s5b_write_reg(&mut chip, 6, 0x01);
    let lfsr0 = chip.noise.lfsr;
    chip.tick(32);
    assert_ne!(chip.noise.lfsr, lfsr0);
}

#[test]
fn s5b_noise_lfsr_period_is_full_cycle() {
    let mut chip = Sunsoft5b::new();
    s5b_write_reg(&mut chip, 6, 0x00);
    let seed = chip.noise.lfsr;
    let mut returns = 0u32;

    for _ in 0..131_071 {
        chip.tick(32);
        if chip.noise.lfsr == seed {
            returns += 1;
        }
    }
    assert_eq!(returns, 1);
}

#[test]
fn s5b_envelope_shape_decay_one_shot_holds_silent() {
    let mut chip = Sunsoft5b::new();
    s5b_write_reg(&mut chip, 0x0B, 0x01);
    s5b_write_reg(&mut chip, 0x0C, 0x00);
    s5b_write_reg(&mut chip, 0x0D, 0x00);
    assert_eq!(chip.envelope.step, 31);
    chip.tick(16 * 31);
    assert_eq!(chip.envelope.step, 0);
    assert!(!chip.envelope.holding);
    chip.tick(16);
    assert_eq!(chip.envelope.step, 0);
    assert!(chip.envelope.holding);
    chip.tick(16 * 100);
    assert_eq!(chip.envelope.step, 0);
}

#[test]
fn s5b_envelope_shape_sawtooth_falling_wraps_to_top() {
    let mut chip = Sunsoft5b::new();
    s5b_write_reg(&mut chip, 0x0B, 0x01);
    s5b_write_reg(&mut chip, 0x0C, 0x00);
    s5b_write_reg(&mut chip, 0x0D, 0x08);
    assert_eq!(chip.envelope.step, 31);
    chip.tick(16 * 31);
    assert_eq!(chip.envelope.step, 0);
    assert!(!chip.envelope.holding);
    chip.tick(16);
    assert_eq!(chip.envelope.step, 31);
}

#[test]
fn s5b_envelope_shape_triangle_alternates_direction() {
    let mut chip = Sunsoft5b::new();
    s5b_write_reg(&mut chip, 0x0B, 0x01);
    s5b_write_reg(&mut chip, 0x0C, 0x00);
    s5b_write_reg(&mut chip, 0x0D, 0x0A);
    assert_eq!(chip.envelope.step, 31);
    chip.tick(16 * 31);
    assert_eq!(chip.envelope.step, 0);

    chip.tick(16);
    assert_eq!(chip.envelope.step, 1);
    chip.tick(16 * 30);
    assert_eq!(chip.envelope.step, 31);

    chip.tick(16);
    assert_eq!(chip.envelope.step, 30);
}

#[test]
fn s5b_envelope_shape_attack_hold_stays_at_top() {
    let mut chip = Sunsoft5b::new();
    s5b_write_reg(&mut chip, 0x0B, 0x01);
    s5b_write_reg(&mut chip, 0x0C, 0x00);
    s5b_write_reg(&mut chip, 0x0D, 0x0D);
    assert_eq!(chip.envelope.step, 0);
    chip.tick(16 * 31);
    assert_eq!(chip.envelope.step, 31);
    chip.tick(16);
    assert!(chip.envelope.holding);
    assert_eq!(chip.envelope.step, 31);
    chip.tick(16 * 100);
    assert_eq!(chip.envelope.step, 31);
}

#[test]
fn s5b_envelope_shape_attack_alternate_hold_flips_at_end() {
    let mut chip = Sunsoft5b::new();
    s5b_write_reg(&mut chip, 0x0B, 0x01);
    s5b_write_reg(&mut chip, 0x0C, 0x00);
    s5b_write_reg(&mut chip, 0x0D, 0x0F);
    chip.tick(16 * 31);
    assert_eq!(chip.envelope.step, 31);
    chip.tick(16);
    assert_eq!(chip.envelope.step, 0);
    assert!(chip.envelope.holding);
    chip.tick(16 * 100);
    assert_eq!(chip.envelope.step, 0);
}

#[test]
fn s5b_envelope_shape_write_resets_phase() {
    let mut chip = Sunsoft5b::new();
    s5b_write_reg(&mut chip, 0x0B, 0x01);
    s5b_write_reg(&mut chip, 0x0C, 0x00);
    s5b_write_reg(&mut chip, 0x0D, 0x00);
    chip.tick(16 * 10);
    assert_eq!(chip.envelope.step, 21);
    s5b_write_reg(&mut chip, 0x0D, 0x00);
    assert_eq!(chip.envelope.step, 31);
    assert_eq!(chip.envelope.timer, 0);
    assert!(!chip.envelope.attacked);
    assert!(!chip.envelope.holding);
}

#[test]
fn s5b_envelope_route_overrides_volume_register() {
    let mut chip = Sunsoft5b::new();

    s5b_write_reg(&mut chip, 7, 0b0011_1110);
    s5b_write_reg(&mut chip, 8, 0x10);
    s5b_write_reg(&mut chip, 0x0B, 0x01);
    s5b_write_reg(&mut chip, 0x0C, 0x00);
    s5b_write_reg(&mut chip, 0x0D, 0x0D);
    chip.tick(16 * 32);
    assert_eq!(chip.envelope.step, 31);
    assert!(chip.envelope.holding);
    chip.channels[0].level = 1;
    let want = S5B_ENV_LIN[31] as u32;
    let got = chip.output();
    assert_eq!(got, want);
}

#[test]
fn s5b_mixer_constant_signal_when_both_disabled() {
    let mut chip = Sunsoft5b::new();

    s5b_write_reg(&mut chip, 7, 0b0011_1111);
    s5b_write_reg(&mut chip, 8, 0x0F);

    s5b_write_reg(&mut chip, 9, 0x00);
    s5b_write_reg(&mut chip, 0x0A, 0x00);

    let want = LIN_AY_VOL[15] as u32;
    let got = chip.output();
    assert_eq!(got, want);
    chip.tick(10_000);
    let got2 = chip.output();
    assert_eq!(got2, want);
}

#[test]
fn s5b_mixer_noise_only_uses_lfsr_bit() {
    let mut chip = Sunsoft5b::new();
    s5b_write_reg(&mut chip, 7, 0b0000_0001);
    s5b_write_reg(&mut chip, 8, 0x0F);
    s5b_write_reg(&mut chip, 9, 0x00);
    s5b_write_reg(&mut chip, 0x0A, 0x00);

    chip.noise.lfsr = 0x0000_0001;
    let want = LIN_AY_VOL[15] as u32;
    let got = chip.output();
    assert_eq!(got, want);

    chip.noise.lfsr = 0x0001_0000;
    let got = chip.output();
    assert_eq!(got, 0);
}
