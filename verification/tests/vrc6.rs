use oxideav_nsf::vrc6::Vrc6;

#[test]
fn vrc6_pulse_register_decodes_volume_and_period() {
    let mut chip = Vrc6::new();
    chip.write(0x9000, 0x8F);
    chip.write(0x9001, 0x40);
    chip.write(0x9002, 0x83);
    assert!(chip.pulse[0].mode_digital);
    assert!(chip.pulse[0].enabled);
    assert_eq!(chip.pulse[0].volume, 15);
    assert_eq!(chip.pulse[0].timer_period, 0x340);
}

fn vrc6_saw_walk(chip: &mut Vrc6, n_clocks: usize) -> Vec<u8> {
    let mut out = Vec::with_capacity(n_clocks);
    for _ in 0..n_clocks {
        let period = chip.saw.timer_period;
        chip.tick(period as u32 + 1);
        out.push(chip.saw.accum);
    }
    out
}

#[test]
fn vrc6_saw_walk_a_08_matches_example_table() {
    let mut chip = Vrc6::new();
    chip.write(0xB000, 0x08);
    chip.write(0xB001, 0x10);
    chip.write(0xB002, 0x80);

    let walk = vrc6_saw_walk(&mut chip, 14);

    assert_eq!(
        walk,
        vec![
            0x00, 0x08, 0x08, 0x10, 0x10, 0x18, 0x18, 0x20, 0x20, 0x28, 0x28, 0x30, 0x30, 0x00,
        ]
    );
}

#[test]
fn vrc6_saw_resets_after_seventh_clock_per_spec() {
    let mut chip = Vrc6::new();
    chip.write(0xB000, 0x01);
    chip.write(0xB001, 0x00);
    chip.write(0xB002, 0x80);
    let walk = vrc6_saw_walk(&mut chip, 28);

    assert_eq!(walk[12], 0x06, "1st cycle final add reaches A * 6");
    assert_eq!(walk[13], 0x00, "step 0 of 2nd cycle resets to 0");
    assert_eq!(walk[26], 0x06, "2nd cycle final add reaches A * 6");
    assert_eq!(walk[27], 0x00, "step 0 of 3rd cycle resets to 0");
}

#[test]
fn vrc6_saw_output_is_top_five_accumulator_bits() {
    let mut chip = Vrc6::new();
    chip.write(0xB000, 0x08);
    chip.write(0xB001, 0x10);
    chip.write(0xB002, 0x80);

    let mut samples = Vec::with_capacity(14);
    for _ in 0..14 {
        let period = chip.saw.timer_period;
        chip.tick(period as u32 + 1);
        samples.push((chip.saw.accum >> 3) as u32);
    }
    assert_eq!(samples, vec![0, 1, 1, 2, 2, 3, 3, 4, 4, 5, 5, 6, 6, 0]);
}

#[test]
fn vrc6_saw_e_clear_forces_accumulator_to_zero() {
    let mut chip = Vrc6::new();
    chip.write(0xB000, 0x08);
    chip.write(0xB001, 0x04);
    chip.write(0xB002, 0x80);

    let _ = vrc6_saw_walk(&mut chip, 4);
    assert!(
        chip.saw.accum > 0,
        "accumulator must have ramped above zero"
    );

    chip.write(0xB002, 0x00);
    assert_eq!(chip.saw.accum, 0);
    assert_eq!(chip.saw.step, 0);

    assert_eq!(chip.output(), 0);
}

#[test]
fn vrc6_saw_e_clear_preserves_frequency_divider() {
    let mut chip = Vrc6::new();
    chip.write(0xB000, 0x08);
    chip.write(0xB001, 0xFF);
    chip.write(0xB002, 0x80);

    chip.tick(50);
    let timer_before = chip.saw.timer;
    assert!(timer_before > 0 && timer_before < chip.saw.timer_period);

    chip.write(0xB002, 0x00);
    assert_eq!(chip.saw.timer, timer_before, "frequency divider preserved");
}

#[test]
fn vrc6_saw_disabled_chip_holds_accumulator_at_zero_under_tick() {
    let mut chip = Vrc6::new();
    chip.write(0xB000, 0x20);
    chip.write(0xB001, 0x00);
    chip.write(0xB002, 0x00);
    chip.tick(10_000);
    assert_eq!(chip.saw.accum, 0);
    assert_eq!(chip.saw.step, 0);
}

#[test]
fn vrc6_saw_distorts_when_rate_exceeds_42() {
    let mut chip = Vrc6::new();
    chip.write(0xB000, 43);
    chip.write(0xB001, 0x00);
    chip.write(0xB002, 0x80);

    let walk = vrc6_saw_walk(&mut chip, 14);

    assert_eq!(walk[12], 2, "6th add wraps past 255 → distortion");
    assert_eq!(walk[13], 0, "step-0 reset still fires on the next clock");
}

#[test]
fn vrc6_saw_a_zero_rate_silences_channel() {
    let mut chip = Vrc6::new();
    chip.write(0xB000, 0x00);
    chip.write(0xB001, 0x00);
    chip.write(0xB002, 0x80);
    let walk = vrc6_saw_walk(&mut chip, 28);
    assert!(walk.iter().all(|&v| v == 0));
}

#[test]
fn vrc6_saw_rate_masked_to_six_bits() {
    let mut chip = Vrc6::new();
    chip.write(0xB000, 0xC8);
    assert_eq!(chip.saw.rate, 0x08);
}

#[test]
fn vrc6_saw_re_enable_restarts_phase_at_step_zero() {
    let mut chip = Vrc6::new();
    chip.write(0xB000, 0x08);
    chip.write(0xB001, 0x00);
    chip.write(0xB002, 0x80);

    let _ = vrc6_saw_walk(&mut chip, 5);
    assert!(chip.saw.step > 0);

    chip.write(0xB002, 0x00);
    chip.write(0xB002, 0x80);
    assert_eq!(chip.saw.step, 0);
    assert_eq!(chip.saw.accum, 0);

    let walk = vrc6_saw_walk(&mut chip, 14);
    assert_eq!(walk[0], 0x00);
    assert_eq!(walk[1], 0x08);
}

#[test]
fn vrc6_saw_period_zero_still_ticks_step_each_cycle() {
    let mut chip = Vrc6::new();
    chip.write(0xB000, 0x08);
    chip.write(0xB001, 0x00);
    chip.write(0xB002, 0x80);
    chip.tick(1);
    assert_eq!(chip.saw.step, 1);
    chip.tick(1);
    assert_eq!(chip.saw.step, 2);
    assert_eq!(chip.saw.accum, 0x08);
}

#[test]
fn vrc6_halt_overrides_all_other_freq_control_bits() {
    let mut chip = Vrc6::new();
    chip.write(0xB000, 0x08);
    chip.write(0xB001, 0x00);
    chip.write(0xB002, 0x80);

    chip.write(0x9003, 0b0000_0111);
    chip.tick(10_000);
    assert_eq!(chip.saw.step, 0);
    assert_eq!(chip.saw.accum, 0);
}

fn vrc6_pulse_steps_over(chip: &mut Vrc6, cycles: u32) -> u32 {
    let mut steps = 0u32;
    let mut prev = chip.pulse[0].step;
    for _ in 0..cycles {
        chip.tick(1);
        if chip.pulse[0].step != prev {
            steps += 1;
            prev = chip.pulse[0].step;
        }
    }
    steps
}

#[test]
fn vrc6_9003_16x_flag_shifts_period_right_four_bits() {
    let mut chip = Vrc6::new();
    chip.write(0x9000, 0x0F);
    chip.write(0x9001, 0xFF);
    chip.write(0x9002, 0x80);
    assert_eq!(vrc6_pulse_steps_over(&mut chip, 2560), 10, "1x baseline");

    let mut fast = Vrc6::new();
    fast.write(0x9000, 0x0F);
    fast.write(0x9001, 0xFF);
    fast.write(0x9002, 0x80);
    fast.write(0x9003, 0b0000_0010);
    assert_eq!(
        vrc6_pulse_steps_over(&mut fast, 2560),
        160,
        "16x flag → duty steps once per (t>>4)+1 = 16 cycles"
    );
}

#[test]
fn vrc6_9003_256x_flag_overrides_16x() {
    let mut chip = Vrc6::new();
    chip.write(0x9000, 0x0F);
    chip.write(0x9001, 0xFF);
    chip.write(0x9002, 0x82);
    chip.write(0x9003, 0b0000_0110);
    assert_eq!(
        vrc6_pulse_steps_over(&mut chip, 300),
        100,
        "256x flag → duty steps once per (t>>8)+1 = 3 cycles"
    );
}

#[test]
fn vrc6_9003_scaling_also_drives_the_sawtooth() {
    let mut chip = Vrc6::new();
    chip.write(0xB000, 0x08);
    chip.write(0xB001, 0xFF);
    chip.write(0xB002, 0x80);
    chip.write(0x9003, 0b0000_0010);

    chip.tick(224);
    assert_eq!(chip.saw.step, 0, "14 steps in 224 cycles at 16x");

    assert_eq!(chip.saw.accum, 0);

    chip.tick(112);
    assert_eq!(chip.saw.step, 7);
    assert_eq!(chip.saw.accum, 0x08 * 3);
}

fn vrc6_pulse_step_once(chip: &mut Vrc6, idx: usize) -> u8 {
    let period = chip.pulse[idx].timer_period;
    chip.tick(period as u32 + 1);
    chip.pulse[idx].step
}

#[test]
fn vrc6_pulse_duty_generator_counts_down_from_fifteen() {
    let mut chip = Vrc6::new();
    chip.write(0x9000, 0x0F);
    chip.write(0x9001, 0x02);
    chip.write(0x9002, 0x80);
    assert_eq!(chip.pulse[0].step, 15, "fresh generator starts at 15");
    let walk: Vec<u8> = (0..17)
        .map(|_| vrc6_pulse_step_once(&mut chip, 0))
        .collect();
    assert_eq!(
        walk,
        vec![14, 13, 12, 11, 10, 9, 8, 7, 6, 5, 4, 3, 2, 1, 0, 15, 14],
        "step counts down 15→0 then wraps back to 15"
    );
}

#[test]
fn vrc6_pulse_duty_ratio_is_d_plus_one_steps_high() {
    let mut chip = Vrc6::new();
    chip.write(0x9000, 0x3F);
    chip.write(0x9001, 0x02);
    chip.write(0x9002, 0x80);
    let mut high = 0usize;

    for _ in 0..16 {
        if chip.output() > 0 {
            high += 1;
        }
        let _ = vrc6_pulse_step_once(&mut chip, 0);
    }
    assert_eq!(high, 4, "duty D=3 → 4/16 steps high (25 %)");
}

#[test]
fn vrc6_pulse_mode_bit_outputs_full_volume_ignoring_duty() {
    let mut chip = Vrc6::new();
    chip.write(0x9000, 0x8F);
    chip.write(0x9001, 0x02);
    chip.write(0x9002, 0x80);
    for _ in 0..16 {
        assert!(chip.output() > 0, "M-mode outputs volume at every phase");
        let _ = vrc6_pulse_step_once(&mut chip, 0);
    }
}

#[test]
fn vrc6_pulse_e_clear_resets_duty_generator_to_beginning() {
    let mut chip = Vrc6::new();
    chip.write(0x9000, 0x7F);
    chip.write(0x9001, 0x04);
    chip.write(0x9002, 0x80);

    for _ in 0..5 {
        let _ = vrc6_pulse_step_once(&mut chip, 0);
    }
    assert_ne!(chip.pulse[0].step, 15, "generator has walked off 15");

    chip.write(0x9002, 0x00);
    assert!(!chip.pulse[0].enabled);
    assert_eq!(chip.pulse[0].step, 15, "duty generator reset to beginning");
    assert_eq!(chip.output(), 0, "disabled pulse outputs 0");

    chip.write(0x9002, 0x80);
    assert_eq!(chip.pulse[0].step, 15);
}

#[test]
fn vrc6_pulse_e_clear_phase_reset_matches_2a03_style_technique() {
    let mut chip = Vrc6::new();
    chip.write(0x9000, 0x5F);
    chip.write(0x9001, 0x08);
    chip.write(0x9002, 0x80);
    for _ in 0..9 {
        let _ = vrc6_pulse_step_once(&mut chip, 0);
    }

    chip.write(0x9002, 0x00);
    chip.write(0x9002, 0x80);
    assert_eq!(chip.pulse[0].step, 15);
}
