use oxideav_nsf::opll::{TestRegister, Vrc7Patch};
use oxideav_nsf::vrc7::{VRC7_INSTRUMENT_ROM, VRC7_RHYTHM_ROM, Vrc7, YM2413_INSTRUMENT_ROM};

fn vrc7_write_reg(chip: &mut Vrc7, r: u8, value: u8) {
    chip.write(0x9010, r);
    chip.write(0x9030, value);
}

#[test]
fn vrc7_instrument_rom_table_size_is_sixteen() {
    assert_eq!(VRC7_INSTRUMENT_ROM.len(), 16);
}

#[test]
fn vrc7_buzzy_bell_patch_decodes_from_rom() {
    let p = Vrc7Patch::from_bytes(&VRC7_INSTRUMENT_ROM[1]);

    assert!(!p.mod_tremolo);
    assert!(!p.mod_vibrato);
    assert!(!p.mod_sustain);
    assert!(!p.mod_ksr);
    assert_eq!(p.mod_mult, 3);

    assert!(p.car_sustain);
    assert_eq!(p.car_mult, 1);

    assert_eq!(p.mod_ksl, 0);
    assert_eq!(p.mod_tl, 5);

    assert_eq!(p.car_ksl, 0);
    assert_eq!(p.car_wave, 0);
    assert_eq!(p.mod_wave, 0);
    assert_eq!(p.feedback, 6);

    assert_eq!(p.mod_attack, 0xE);
    assert_eq!(p.mod_decay, 0x8);

    assert_eq!(p.car_attack, 0x8);
    assert_eq!(p.car_decay, 0x1);

    assert_eq!(p.mod_sustain_level, 0x4);
    assert_eq!(p.mod_release, 0x2);

    assert_eq!(p.car_sustain_level, 0x2);
    assert_eq!(p.car_release, 0x7);
}

#[test]
fn vrc7_vibes_patch_has_high_bit_tremolo() {
    let p = Vrc7Patch::from_bytes(&VRC7_INSTRUMENT_ROM[0xA]);
    assert!(p.mod_tremolo);
    assert!(!p.mod_vibrato);
    assert!(p.mod_sustain);
    assert!(p.mod_ksr);
    assert_eq!(p.mod_mult, 5);

    assert_eq!(p.car_ksl, 0);
    assert_eq!(p.car_wave, 0);
    assert_eq!(p.mod_wave, 1);
    assert_eq!(p.feedback, 7);
}

#[test]
fn vrc7_patch_zero_reads_user_programmable_regs() {
    let mut chip = Vrc7::new();

    vrc7_write_reg(&mut chip, 0x00, 0xDA);

    for r in 0x01..=0x07 {
        vrc7_write_reg(&mut chip, r, 0x00);
    }
    let p = chip.patch(0);
    assert!(p.mod_tremolo);
    assert!(p.mod_vibrato);
    assert!(!p.mod_sustain);
    assert!(p.mod_ksr);
    assert_eq!(p.mod_mult, 0xA);

    assert!(!p.car_tremolo);
    assert_eq!(p.car_mult, 0);
}

#[test]
fn vrc7_channel_register_3x_decodes_instrument_and_volume() {
    let mut chip = Vrc7::new();
    vrc7_write_reg(&mut chip, 0x32, 0x73);
    assert_eq!(chip.channels[2].patch_index, 7);
    assert_eq!(chip.channels[2].volume, 3);

    let active = chip.active_patch(2);
    let trumpet = Vrc7Patch::from_bytes(&VRC7_INSTRUMENT_ROM[7]);
    assert_eq!(active, trumpet);
}

#[test]
fn vrc7_channel_register_2x_decodes_sustain_and_key_on() {
    let mut chip = Vrc7::new();
    vrc7_write_reg(&mut chip, 0x20, 0x30);
    assert!(chip.channels[0].sustain);
    assert!(chip.channels[0].key_on);

    vrc7_write_reg(&mut chip, 0x21, 0x10);
    assert!(!chip.channels[1].sustain);
    assert!(chip.channels[1].key_on);

    vrc7_write_reg(&mut chip, 0x22, 0x20);
    assert!(chip.channels[2].sustain);
    assert!(!chip.channels[2].key_on);
}

#[test]
fn vrc7_user_patch_write_reloads_patch_zero_channels() {
    let mut chip = Vrc7::new();

    vrc7_write_reg(&mut chip, 0x30, 0x00);
    assert_eq!(chip.opll_channels[0].carrier.env.attack_rate, 0);

    vrc7_write_reg(&mut chip, 0x05, 0xF7);
    assert_eq!(
        chip.opll_channels[0].carrier.env.attack_rate, 15,
        "user-patch $05 write must reload patch-0 channel's carrier AR"
    );
    vrc7_write_reg(&mut chip, 0x04, 0xA3);
    assert_eq!(
        chip.opll_channels[0].modulator.env.attack_rate, 10,
        "user-patch $04 write must reload patch-0 channel's modulator AR"
    );

    vrc7_write_reg(&mut chip, 0x31, 0x10);
    let rom_ar = chip.opll_channels[1].carrier.env.attack_rate;
    vrc7_write_reg(&mut chip, 0x05, 0x11);
    assert_eq!(
        chip.opll_channels[1].carrier.env.attack_rate, rom_ar,
        "user-patch write must not touch a ROM-patch channel"
    );
}

#[test]
fn vrc7_channel_patch_defaults_to_custom_slot_zero() {
    let chip = Vrc7::new();
    for ch in 0..6 {
        assert_eq!(chip.channels[ch].patch_index, 0);
    }
    let p = chip.active_patch(0);
    assert_eq!(p, Vrc7Patch::default());
}

#[test]
fn vrc7_patch_index_out_of_range_wraps_mod_sixteen() {
    let chip = Vrc7::new();
    let p = chip.patch(20);
    let expected = Vrc7Patch::from_bytes(&VRC7_INSTRUMENT_ROM[4]);
    assert_eq!(p, expected);
}

#[test]
fn vrc7_register_0f_updates_test_register_state() {
    let mut chip = Vrc7::new();
    vrc7_write_reg(&mut chip, 0x0F, 0b1111);
    assert_eq!(chip.regs[0x0F], 0b1111);
    assert!(chip.test_register.envs_zero);
    assert!(chip.test_register.hold_lfo);
    assert!(chip.test_register.hold_phase);
    assert!(chip.test_register.fast_lfo);

    vrc7_write_reg(&mut chip, 0x0F, 0);
    assert_eq!(chip.test_register, TestRegister::default());
}

#[test]
fn vrc7_channel_sustain_bit_overrides_release_rate_to_five() {
    let mut chip = Vrc7::new();
    chip.enabled = true;

    vrc7_write_reg(&mut chip, 0x30, 0x70);
    vrc7_write_reg(&mut chip, 0x20, 0x10);
    let car_rr = chip.opll_channels[0].carrier.env.release_rate;
    assert_eq!(car_rr, 0x07);

    vrc7_write_reg(&mut chip, 0x20, 0x30);
    assert_eq!(chip.opll_channels[0].carrier.env.release_rate, 0x05);
    assert_eq!(chip.opll_channels[0].modulator.env.release_rate, 0x05);

    vrc7_write_reg(&mut chip, 0x20, 0x10);
    assert_eq!(chip.opll_channels[0].carrier.env.release_rate, 0x07);
}

#[test]
fn vrc7_modulator_sustain_bit_disables_modulator_release() {
    let mut chip = Vrc7::new();
    chip.enabled = true;

    vrc7_write_reg(&mut chip, 0x00, 0x20);
    vrc7_write_reg(&mut chip, 0x01, 0x00);

    vrc7_write_reg(&mut chip, 0x30, 0x01);
    assert!(chip.opll_channels[0].modulator.env.release_disabled);
    assert!(!chip.opll_channels[0].carrier.env.release_disabled);
}

#[test]
fn vrc7_audio_reset_clears_registers_and_blocks_writes() {
    let mut chip = Vrc7::new();
    chip.enabled = true;

    vrc7_write_reg(&mut chip, 0x30, 0x70);
    vrc7_write_reg(&mut chip, 0x20, 0x10);
    assert_eq!(chip.regs[0x30], 0x70);

    chip.write(0xE000, 0x40);
    assert!(chip.audio_reset_held);

    assert_eq!(chip.regs[0x30], 0);
    assert_eq!(chip.regs[0x20], 0);

    assert_eq!(chip.channels[0].patch_index, 0);
    assert_eq!(chip.channels[0].volume, 0);
    assert!(!chip.channels[0].key_on);

    chip.write(0x9010, 0x30);
    chip.write(0x9030, 0xFF);
    assert_eq!(
        chip.regs[0x30], 0,
        "$9030 write must be ignored when reset is held"
    );

    chip.write(0xE000, 0x00);
    assert!(!chip.audio_reset_held);
    vrc7_write_reg(&mut chip, 0x30, 0x42);
    assert_eq!(chip.regs[0x30], 0x42);
}

#[test]
fn vrc7_audio_reset_silences_chip_during_tick() {
    let mut chip = Vrc7::new();
    chip.enabled = true;

    vrc7_write_reg(&mut chip, 0x30, 0x70);
    vrc7_write_reg(&mut chip, 0x10, 0x00);
    vrc7_write_reg(&mut chip, 0x20, 0x18);
    chip.tick(50_000);

    chip.write(0xE000, 0x40);
    chip.tick(1_000);
    assert_eq!(chip.latched_output, 0);

    for _ in 0..100 {
        chip.tick(50);
        assert_eq!(chip.latched_output, 0);
    }
}

#[test]
fn vrc7_tick_advances_lfo_phases() {
    let mut chip = Vrc7::new();
    chip.enabled = true;

    chip.tick(40_000);
    assert!(
        chip.lfo.tremolo_phase > 1,
        "tremolo phase advanced: {}",
        chip.lfo.tremolo_phase
    );
    assert!(
        chip.lfo.vibrato_phase >= 1,
        "vibrato phase advanced at least once: {}",
        chip.lfo.vibrato_phase
    );

    assert!(chip.lfo.tremolo_phase > chip.lfo.vibrato_phase);
}

#[test]
fn vrc7_audio_reset_clears_tremolo_lfo_preserves_vibrato_lfo() {
    let mut chip = Vrc7::new();
    chip.enabled = true;
    chip.tick(80_000);
    assert!(chip.lfo.tremolo_phase > 0);
    let vib_before = chip.lfo.vibrato_phase;
    assert!(vib_before > 0);
    chip.write(0xE000, 0x40);
    assert_eq!(chip.lfo.tremolo_phase, 0, "tremolo cleared on audio reset");
    assert_eq!(
        chip.lfo.vibrato_phase, vib_before,
        "vibrato preserved across audio reset"
    );
}

#[test]
fn vrc7_audio_reset_only_reads_bit_six() {
    let mut chip = Vrc7::new();
    chip.enabled = true;

    chip.write(0xE000, 0x03);
    assert!(!chip.audio_reset_held);

    chip.write(0xE000, 0x47);
    assert!(chip.audio_reset_held);
}

#[test]
fn vrc7_pitch_only_write_refreshes_rks_on_both_operators() {
    let mut chip = Vrc7::new();
    chip.enabled = true;

    let flute = Vrc7Patch::from_bytes(&VRC7_INSTRUMENT_ROM[4]);

    let expected_mod_ksr = flute.mod_ksr;
    let expected_car_ksr = flute.car_ksr;

    vrc7_write_reg(&mut chip, 0x30, 0x40);
    vrc7_write_reg(&mut chip, 0x10, 0x00);

    vrc7_write_reg(&mut chip, 0x20, 0x15);
    let pre_mod_rks = chip.opll_channels[0].modulator.env.rks;
    let pre_car_rks = chip.opll_channels[0].carrier.env.rks;

    let expected_pre_mod = if expected_mod_ksr {
        (2 << 1) | 1
    } else {
        2 >> 1
    };
    let expected_pre_car = if expected_car_ksr {
        (2 << 1) | 1
    } else {
        2 >> 1
    };
    assert_eq!(pre_mod_rks, expected_pre_mod);
    assert_eq!(pre_car_rks, expected_pre_car);

    vrc7_write_reg(&mut chip, 0x20, 0x1D);

    let post_mod_rks = chip.opll_channels[0].modulator.env.rks;
    let post_car_rks = chip.opll_channels[0].carrier.env.rks;
    let expected_post_mod = if expected_mod_ksr {
        (6 << 1) | 1
    } else {
        6 >> 1
    };
    let expected_post_car = if expected_car_ksr {
        (6 << 1) | 1
    } else {
        6 >> 1
    };
    assert_eq!(
        post_mod_rks, expected_post_mod,
        "mod Rks should re-derive against new block=6: pre={pre_mod_rks} post={post_mod_rks}"
    );
    assert_eq!(
        post_car_rks, expected_post_car,
        "car Rks should re-derive against new block=6: pre={pre_car_rks} post={post_car_rks}"
    );
}

#[test]
fn vrc7_patch_swap_updates_rks_via_load_patch() {
    let mut chip = Vrc7::new();
    chip.enabled = true;

    vrc7_write_reg(&mut chip, 0x10, 0x00);
    vrc7_write_reg(&mut chip, 0x20, 0x17);

    vrc7_write_reg(&mut chip, 0x30, 0x10);
    assert_eq!(chip.opll_channels[0].modulator.env.rks, 1);
    assert_eq!(chip.opll_channels[0].carrier.env.rks, 1);

    let vibes = Vrc7Patch::from_bytes(&VRC7_INSTRUMENT_ROM[0x0A]);
    assert!(
        vibes.mod_ksr,
        "patch $A modulator KSR must be set for this test"
    );
    assert!(!vibes.car_ksr);
    vrc7_write_reg(&mut chip, 0x30, 0xA0);
    assert_eq!(chip.opll_channels[0].modulator.env.rks, 7);
    assert_eq!(chip.opll_channels[0].carrier.env.rks, 1);
}

#[test]
fn vrc7_rhythm_rom_matches_documented_dump() {
    assert_eq!(
        VRC7_RHYTHM_ROM[0],
        [0x01, 0x01, 0x18, 0x0F, 0xDF, 0xF8, 0x6A, 0x6D],
        "Bass Drum"
    );
    assert_eq!(
        VRC7_RHYTHM_ROM[1],
        [0x01, 0x01, 0x00, 0x00, 0xC8, 0xD8, 0xA7, 0x68],
        "Snare Drum / Hi-Hat"
    );
    assert_eq!(
        VRC7_RHYTHM_ROM[2],
        [0x05, 0x01, 0x00, 0x00, 0xF8, 0xAA, 0x59, 0x55],
        "Tom / Top Cymbal"
    );
    assert_eq!(
        VRC7_RHYTHM_ROM[1][7], 0x68,
        "snare byte 7"
    );

    for row in &VRC7_RHYTHM_ROM {
        let p = Vrc7Patch::from_bytes(row);
        assert!(p.mod_mult <= 0x0F && p.car_mult <= 0x0F);
    }
}

#[test]
fn vrc7_rhythm_register_is_inert() {
    let base = Vrc7::new().rhythm_control();
    assert!(base.rhythm_mode, "rhythm mode reads as always enabled");
    assert!(
        !(base.bd || base.sd || base.tom || base.t_cy || base.hh),
        "no drum key is ever effective (no rhythm DAC)"
    );

    let mut plain = Vrc7::new();
    let mut poked = Vrc7::new();
    for chip in [&mut plain, &mut poked] {
        chip.enabled = true;
        vrc7_write_reg(chip, 0x30, 0x10);
        vrc7_write_reg(chip, 0x10, 0x80);
        vrc7_write_reg(chip, 0x20, 0x17);
    }
    vrc7_write_reg(&mut poked, 0x0E, 0x3F);

    assert_eq!(poked.regs[0x0E], 0x3F);
    assert_eq!(poked.rhythm_control(), base, "decode unaffected by write");
    for _ in 0..256 {
        plain.tick(36);
        poked.tick(36);
        assert_eq!(
            plain.latched_output, poked.latched_output,
            "melody output unaffected by $0E"
        );
    }
}

#[test]
fn vrc7_nsfe_device_1_selects_the_ym2413_default_rom() {
    let mut chip = Vrc7::new();
    chip.apply_nsfe_chunk(1, None);
    assert!(chip.ym2413_variant);

    let got = chip.patch(1);
    assert_eq!(got, Vrc7Patch::from_bytes(&YM2413_INSTRUMENT_ROM[1]));
    assert_ne!(got, Vrc7Patch::from_bytes(&VRC7_INSTRUMENT_ROM[1]));

    chip.apply_nsfe_chunk(0, None);
    assert_eq!(
        chip.patch(1),
        Vrc7Patch::from_bytes(&VRC7_INSTRUMENT_ROM[1])
    );
}

#[test]
fn vrc7_nsfe_replacement_patch_set_overrides_the_rom() {
    let mut chip = Vrc7::new();

    let mut table = vec![0u8; 128];
    table[2 * 8..2 * 8 + 8].copy_from_slice(&VRC7_INSTRUMENT_ROM[4]);
    chip.apply_nsfe_chunk(0, Some(&table));
    assert_eq!(
        chip.patch(2),
        Vrc7Patch::from_bytes(&VRC7_INSTRUMENT_ROM[4]),
        "slot 2 must decode the replacement bytes"
    );

    chip.enabled = true;
    vrc7_write_reg(&mut chip, 0x00, 0x21);
    vrc7_write_reg(&mut chip, 0x01, 0x61);
    let user = chip.patch(0);
    assert_eq!(user.mod_mult, 0x01);
    assert_eq!(user.car_mult, 0x01);

    let mut long = vec![0u8; 152];
    long[..128].copy_from_slice(&table);
    let mut chip2 = Vrc7::new();
    chip2.apply_nsfe_chunk(1, Some(&long));
    assert_eq!(
        chip2.patch(2),
        Vrc7Patch::from_bytes(&VRC7_INSTRUMENT_ROM[4]),
        "152-byte form: melody table applies, rhythm tail ignored"
    );
}

#[test]
fn ym2413_rom_slot_zero_is_blank_user_placeholder() {
    assert_eq!(YM2413_INSTRUMENT_ROM[0], [0u8; 8]);

    for row in &YM2413_INSTRUMENT_ROM[1..] {
        let p = Vrc7Patch::from_bytes(row);
        assert!(p.mod_mult <= 0x0F && p.car_mult <= 0x0F);
    }
}

#[test]
fn vrc7_audio_reset_silences_a_latched_sample() {
    let mut chip = Vrc7::new();
    chip.enabled = true;
    chip.tick(100);
    assert_eq!(chip.samples_due, 2);
    chip.latch_sample([Some(200), None, Some(-50), None, None, Some(7)]);
    assert_eq!(chip.output(), 157);

    chip.write(0xE000, 0x40);
    assert_eq!(chip.output(), 0);
    assert_eq!(chip.take_due_samples(), 0);
    chip.tick(1_000);
    assert_eq!(chip.tick_to_sample(1_000), None);
    chip.latch_sample([Some(200); 6]);
    assert_eq!(chip.output(), 0);

    chip.write(0xE000, 0x00);
    chip.latch_sample([Some(200); 6]);
    assert_eq!(chip.output(), 1200);
    chip.latch_sample([None; 6]);
    assert_eq!(chip.output(), 0);
}

#[test]
fn vrc7_stops_at_every_operator_sample() {
    let mut whole = Vrc7::new();
    let mut steps = Vrc7::new();
    for chip in [&mut whole, &mut steps] {
        chip.enabled = true;
        vrc7_write_reg(chip, 0x0F, 0x08);
    }
    whole.tick(1_000);
    let mut left = 1_000;
    let mut phases = Vec::new();
    while let Some(l) = steps.tick_to_sample(left) {
        left = l;
        phases.push(steps.lfo.tremolo_phase);
    }
    assert_eq!(phases, (1..=27).collect::<Vec<u32>>());
    assert_eq!(whole, steps);
    assert_eq!(whole.take_due_samples(), 27);
}
