use oxideav_nsf::expansion::Expansion;
use oxideav_nsf::header::ExpansionChips;
use oxideav_nsf::n163::N163;
use oxideav_nsf::ratio::Ratio;

/// Mixed output as a fraction of full scale.
fn level(chip: &N163) -> f32 {
    let (sum, count) = chip.output();
    sum as f32 / 128.0 / count as f32
}

/// A rate in hertz.
fn hertz(r: Ratio) -> f64 {
    r.num as f64 / r.den as f64
}

#[test]
fn n163_wave_ram_writes_through_address_pointer() {
    let mut chip = N163::new();
    chip.write(0xF800, 0x80 | 0x10);
    chip.write(0x4800, 0xAB);
    assert_eq!(chip.ram[0x10], 0xAB);
    assert_eq!(chip.addr, 0x11);
}

#[test]
fn n163_address_and_data_ports_decode_their_full_windows() {
    let mut chip = N163::new();
    chip.write(0xFFFF, 0x80 | 0x10);
    assert_eq!(chip.addr, 0x10);
    chip.write(0x4FFF, 0xAB);
    assert_eq!(chip.ram[0x10], 0xAB);
    assert_eq!(chip.addr, 0x11, "auto-increment through the mirror");
    chip.write(0xF923, 0x10);
    assert_eq!(chip.read(0x4A00), 0xAB, "mid-window data read");
}

#[test]
fn n163_e000_bit6_disables_sound() {
    let mut chip = N163::new();
    chip.enabled = true;
    n163_setup_channel(&mut chip, 8, 0, 15);

    let base = N163::chan_base(8);
    chip.ram[base] = 0x40;
    chip.tick(15);
    let phase_before = chip.ram[base + 1];
    assert_ne!(phase_before, 0, "sanity: enabled chip advances phase");

    chip.write(0xE000, 0x40);
    assert!(chip.sound_disabled);
    assert_eq!(level(&chip), 0.0, "disabled chip is silent");
    chip.tick(150);
    assert_eq!(
        chip.ram[base + 1],
        phase_before,
        "update cycle stops while disabled"
    );

    chip.write(0xE7FF, 0x00);
    assert!(!chip.sound_disabled);
    chip.tick(150);
    assert_ne!(chip.ram[base + 1], phase_before, "updates resume");
}

#[test]
fn n163_data_port_read_returns_ram_at_current_address() {
    let mut chip = N163::new();
    chip.ram[0x20] = 0x5A;
    chip.write(0xF800, 0x20);
    assert_eq!(chip.read(0x4800), 0x5A);
    assert_eq!(
        chip.addr, 0x20,
        "read must not move a non-incrementing pointer"
    );
    assert_eq!(chip.read(0x4800), 0x5A);
}

#[test]
fn n163_data_port_read_auto_increments_when_i_bit_set() {
    let mut chip = N163::new();
    chip.ram[0x30] = 0x11;
    chip.ram[0x31] = 0x22;
    chip.ram[0x32] = 0x33;
    chip.write(0xF800, 0x80 | 0x30);
    assert_eq!(chip.read(0x4800), 0x11);
    assert_eq!(chip.addr, 0x31);
    assert_eq!(chip.read(0x4800), 0x22);
    assert_eq!(chip.addr, 0x32);
    assert_eq!(chip.read(0x4800), 0x33);
    assert_eq!(chip.addr, 0x33);
}

fn n163_setup_channel(chip: &mut N163, ch: u8, wave_addr: u8, volume: u8) {
    let base = N163::chan_base(ch);
    chip.ram[base] = 0;
    chip.ram[base + 1] = 0;
    chip.ram[base + 2] = 0;
    chip.ram[base + 3] = 0;
    chip.ram[base + 4] = 0;
    chip.ram[base + 5] = 0;
    chip.ram[base + 6] = wave_addr;
    chip.ram[base + 7] = volume & 0x0F;
}

#[test]
fn n163_output_sums_active_channels_divided_by_count() {
    let mut chip = N163::new();
    chip.enabled = true;

    chip.channels_active = 2;

    chip.ram[0] = 0x0F;

    n163_setup_channel(&mut chip, 7, 0, 15);
    n163_setup_channel(&mut chip, 8, 1, 15);

    chip.tick_one_channel();
    chip.tick_one_channel();

    let ch7 = 7.0f32 * 15.0 / 128.0;
    let ch8 = -8.0f32 * 15.0 / 128.0;
    let expected = (ch7 + ch8) / 2.0;
    assert!(
        (level(&chip) - expected).abs() < 1e-6,
        "output {} should be the 2-channel average {}",
        level(&chip),
        expected
    );

    assert!((chip.last_output as f32 / 128.0 - ch8).abs() < 1e-6);

    assert!((level(&chip) - chip.last_output as f32 / 128.0).abs() > 1e-3);
}

#[test]
fn n163_single_channel_output_equals_its_sample() {
    let mut chip = N163::new();
    chip.enabled = true;
    chip.channels_active = 1;
    chip.ram[0] = 0x0F;
    n163_setup_channel(&mut chip, 8, 0, 15);
    chip.tick_one_channel();
    let expected = 7.0f32 * 15.0 / 128.0;
    assert!((level(&chip) - expected).abs() < 1e-6);
    assert!((level(&chip) - chip.last_output as f32 / 128.0).abs() < 1e-6);
}

#[test]
fn n163_inactive_channel_holds_are_excluded_from_mix() {
    let mut chip = N163::new();
    chip.enabled = true;

    chip.chan_hold[0] = 99 * 128;
    chip.channels_active = 1;
    chip.ram[0] = 0x0F;
    n163_setup_channel(&mut chip, 8, 0, 15);
    chip.tick_one_channel();
    let expected = 7.0f32 * 15.0 / 128.0;
    assert!(
        (level(&chip) - expected).abs() < 1e-6,
        "stale channel-1 hold must not enter the 1-channel mix"
    );
}

#[test]
fn n163_data_port_read_auto_increment_stops_at_7f() {
    let mut chip = N163::new();
    chip.ram[0x7F] = 0xCC;
    chip.write(0xF800, 0x80 | 0x7F);
    assert_eq!(chip.read(0x4800), 0xCC);
    assert_eq!(chip.addr, 0x7F, "pointer must clamp at $7F, not wrap");

    assert_eq!(chip.read(0x4800), 0xCC);
    assert_eq!(chip.addr, 0x7F);
}

#[test]
fn n163_data_port_read_through_expansion_router_increments() {
    let mut ex = Expansion::new();
    ex.set_flags(ExpansionChips(0x10));
    ex.n163.ram[0x40] = 0xDE;
    ex.n163.ram[0x41] = 0xAD;
    ex.n163.write(0xF800, 0x80 | 0x40);
    assert_eq!(ex.read(0x4800), 0xDE);
    assert_eq!(ex.n163.addr, 0x41);
    assert_eq!(ex.read(0x4800), 0xAD);
    assert_eq!(ex.n163.addr, 0x42);
}

fn n163_write_channel8(
    chip: &mut N163,
    freq: u32,
    phase: u32,
    wave_len_l_field: u8,
    wave_addr: u8,
    volume: u8,
    c_field: u8,
) {
    chip.write(0xF800, 0x80 | 0x78);
    chip.write(0x4800, (freq & 0xFF) as u8);
    chip.write(0x4800, (phase & 0xFF) as u8);
    chip.write(0x4800, ((freq >> 8) & 0xFF) as u8);
    chip.write(0x4800, ((phase >> 8) & 0xFF) as u8);
    chip.write(
        0x4800,
        ((wave_len_l_field & 0x3F) << 2) | (((freq >> 16) & 0x03) as u8),
    );
    chip.write(0x4800, ((phase >> 16) & 0xFF) as u8);
    chip.write(0x4800, wave_addr);
    chip.write(0x4800, ((c_field & 0x07) << 4) | (volume & 0x0F));
}

#[test]
fn n163_writing_7f_decodes_channels_active() {
    let mut chip = N163::new();

    chip.write(0xF800, 0x7F);
    chip.write(0x4800, 0x00);
    assert_eq!(chip.channels_active, 1);

    chip.write(0xF800, 0x7F);
    chip.write(0x4800, 0x70 | 0x05);
    assert_eq!(chip.channels_active, 8);

    chip.write(0xF800, 0x7F);
    chip.write(0x4800, 0x20 | 0x0F);
    assert_eq!(chip.channels_active, 3);
}

#[test]
fn n163_active_channel_set_is_top_down() {
    let mut chip = N163::new();
    chip.channels_active = 1;
    assert_eq!(chip.active_channel(0), 8);
    chip.channels_active = 2;
    assert_eq!(chip.active_channel(0), 7);
    assert_eq!(chip.active_channel(1), 8);
    chip.channels_active = 8;
    for i in 0..8 {
        assert_eq!(chip.active_channel(i), i + 1);
    }
}

#[test]
fn n163_address_pointer_stops_at_0x7f_no_wrap() {
    let mut chip = N163::new();
    chip.write(0xF800, 0x80 | 0x7E);
    chip.write(0x4800, 0x11);
    assert_eq!(chip.addr, 0x7F);
    chip.write(0x4800, 0x22);
    assert_eq!(chip.addr, 0x7F, "address must stop at $7F, not wrap to $00");

    assert_eq!(chip.ram[0x7F], 0x22);
}

#[test]
fn n163_tick_advances_phase_by_freq_each_15_cycles() {
    let mut chip = N163::new();
    chip.enabled = true;

    n163_write_channel8(&mut chip, 0x100, 0, 63, 0, 0x0F, 0);

    chip.tick(14);

    let phase_low = chip.ram[0x40 + 7 * 8 + 1];
    assert_eq!(phase_low, 0);
    chip.tick(1);

    let p_lo = chip.ram[0x79];
    let p_mid = chip.ram[0x7B];
    let p_hi = chip.ram[0x7D];
    let phase = p_lo as u32 | ((p_mid as u32) << 8) | ((p_hi as u32) << 16);
    assert_eq!(phase, 0x100);
}

#[test]
fn n163_phase_wraps_modulo_wave_length_shifted() {
    let mut chip = N163::new();
    chip.enabled = true;
    n163_write_channel8(&mut chip, 0x20000, 0x30000, 63, 0, 0x0F, 0);
    chip.tick(15);
    let p_lo = chip.ram[0x79];
    let p_mid = chip.ram[0x7B];
    let p_hi = chip.ram[0x7D];
    let phase = p_lo as u32 | ((p_mid as u32) << 8) | ((p_hi as u32) << 16);
    assert_eq!(phase, 0x10000, "phase should wrap mod 0x40000");
}

#[test]
fn n163_decodes_sample_at_high_phase_plus_wave_addr() {
    let mut chip = N163::new();
    chip.enabled = true;

    n163_write_channel8(&mut chip, 0x10000, 0, 63, 0, 0x01, 0);
    chip.ram[0x00] = 0xA9;
    chip.ram[0x01] = 0xC8;

    chip.tick(15);
    let out_after_first = level(&chip);

    assert!(
        (out_after_first - 2.0 / 128.0).abs() < 1e-6,
        "got {out_after_first}"
    );

    chip.tick(15);
    assert!(level(&chip).abs() < 1e-9);
}

#[test]
fn n163_round_robin_advances_through_active_channels() {
    let mut chip = N163::new();
    chip.enabled = true;

    chip.write(0xF800, 0x80 | 0x70);
    chip.write(0x4800, 0x11);
    chip.write(0x4800, 0x00);
    chip.write(0x4800, 0x01);
    chip.write(0x4800, 0x00);
    chip.write(0x4800, 63 << 2);
    chip.write(0x4800, 0x00);
    chip.write(0x4800, 0x00);
    chip.write(0x4800, 0x00);

    n163_write_channel8(&mut chip, 0x222, 0, 63, 0, 0x0F, 1);
    assert_eq!(chip.channels_active, 2);

    chip.tick(15);
    let ch7_phase_lo = chip.ram[0x71];
    let ch8_phase_lo = chip.ram[0x79];
    assert_eq!(ch7_phase_lo, 0x11, "ch7 should have ticked first");
    assert_eq!(ch8_phase_lo, 0x00, "ch8 should not have ticked yet");

    chip.tick(15);
    let ch7_phase_lo = chip.ram[0x71];
    let ch8_phase_lo = chip.ram[0x79];
    assert_eq!(ch7_phase_lo, 0x11, "ch7 should still hold its phase");
    assert_eq!(ch8_phase_lo, 0x22, "ch8 should have ticked second");

    chip.tick(15);
    assert_eq!(chip.ram[0x71], 0x22, "ch7 should have ticked twice");
}

#[test]
fn n163_output_holds_until_next_tick() {
    let mut chip = N163::new();
    chip.enabled = true;
    n163_write_channel8(&mut chip, 0x10000, 0, 63, 0, 0x01, 0);
    chip.ram[0x00] = 0xA9;
    chip.tick(15);
    let held = level(&chip);
    chip.tick(0);
    assert!((level(&chip) - held).abs() < 1e-9);

    chip.tick(14);
    assert!((level(&chip) - held).abs() < 1e-9);
}

#[test]
fn n163_silent_when_disabled() {
    let mut chip = N163::new();
    chip.enabled = false;
    n163_write_channel8(&mut chip, 0x10000, 0, 63, 0, 0x0F, 0);
    chip.ram[0x00] = 0xFF;
    chip.tick(1500);
    assert!(level(&chip).abs() < 1e-9);

    assert_eq!(chip.ram[0x79], 0x00);
}

#[test]
fn n163_cycle_accumulator_carries_leftover_cycles() {
    let mut chip = N163::new();
    chip.enabled = true;
    n163_write_channel8(&mut chip, 0x100, 0, 63, 0, 0x0F, 0);
    chip.tick(7);
    chip.tick(7);

    assert_eq!(chip.ram[0x79], 0);
    chip.tick(1);
    assert_eq!(chip.ram[0x79], 0x00);

    assert_eq!(chip.ram[0x7B], 0x01);
}

const N163_NTSC_HZ: u32 = 1_789_773;

const N163_PAL_HZ: u32 = 1_662_607;

#[test]
fn n163_update_rate_matches_wiki_ntsc_table() {
    let expected_khz = [
        119.318_f64,
        59.659,
        39.773,
        29.830,
        23.864,
        19.886,
        17.045,
        14.915,
    ];
    let mut chip = N163::new();
    for (i, &khz) in expected_khz.iter().enumerate() {
        chip.channels_active = (i + 1) as u8;
        let got_khz = hertz(chip.update_rate_hz(N163_NTSC_HZ)) / 1000.0;
        assert!(
            (got_khz - khz).abs() < 0.001,
            "ntsc {} channels: got {got_khz} kHz, expected {khz} kHz",
            i + 1
        );
    }
}

#[test]
fn n163_update_rate_matches_wiki_pal_table() {
    let expected_khz = [
        110.840_f64,
        55.420,
        36.947,
        27.710,
        22.168,
        18.473,
        15.834,
        13.855,
    ];
    let mut chip = N163::new();
    for (i, &khz) in expected_khz.iter().enumerate() {
        chip.channels_active = (i + 1) as u8;
        let got_khz = hertz(chip.update_rate_hz(N163_PAL_HZ)) / 1000.0;
        assert!(
            (got_khz - khz).abs() < 0.001,
            "pal {} channels: got {got_khz} kHz, expected {khz} kHz",
            i + 1
        );
    }
}

#[test]
fn n163_update_rate_zero_when_no_channels_active() {
    let mut chip = N163::new();
    chip.channels_active = 0;
    assert_eq!(hertz(chip.update_rate_hz(N163_NTSC_HZ)), 0.0);
}

#[test]
fn n163_update_rate_halves_when_channels_double() {
    let mut chip = N163::new();
    chip.channels_active = 2;
    let r2 = hertz(chip.update_rate_hz(N163_NTSC_HZ));
    chip.channels_active = 4;
    let r4 = hertz(chip.update_rate_hz(N163_NTSC_HZ));
    assert!((r2 - 2.0 * r4).abs() < 1e-6, "r2={r2} r4={r4}");
}

#[test]
fn n163_emitted_frequency_matches_closed_form() {
    let mut chip = N163::new();
    chip.enabled = true;
    n163_write_channel8(&mut chip, 0x100, 0, 63, 0, 0x0F, 0);
    assert_eq!(chip.channels_active, 1);
    let p = 256.0_f64;
    let l = 4.0_f64;
    let c = 1.0_f64;
    let expected = (N163_NTSC_HZ as f64 * p) / (15.0 * 65536.0 * l * c);
    let got = hertz(chip.emitted_frequency_hz(8, N163_NTSC_HZ));
    assert!(
        (got - expected).abs() < 1e-6,
        "got {got}, expected {expected}"
    );
}

#[test]
fn n163_emitted_frequency_scales_inversely_with_channel_count() {
    let mut chip1 = N163::new();
    chip1.enabled = true;
    n163_write_channel8(&mut chip1, 0x4000, 0, 63, 0, 0x0F, 0);
    let f1 = hertz(chip1.emitted_frequency_hz(8, N163_NTSC_HZ));

    let mut chip4 = N163::new();
    chip4.enabled = true;
    n163_write_channel8(&mut chip4, 0x4000, 0, 63, 0, 0x0F, 3);
    assert_eq!(chip4.channels_active, 4);
    let f4 = hertz(chip4.emitted_frequency_hz(8, N163_NTSC_HZ));
    assert!((f1 - 4.0 * f4).abs() < 1e-6, "f1={f1} f4={f4}");
}

#[test]
fn n163_emitted_frequency_scales_inversely_with_wave_length() {
    let mut chip_short = N163::new();
    chip_short.enabled = true;
    n163_write_channel8(&mut chip_short, 0x400, 0, 63, 0, 0x0F, 0);
    let f_short = hertz(chip_short.emitted_frequency_hz(8, N163_NTSC_HZ));

    let mut chip_long = N163::new();
    chip_long.enabled = true;
    n163_write_channel8(&mut chip_long, 0x400, 0, 62, 0, 0x0F, 0);
    let f_long = hertz(chip_long.emitted_frequency_hz(8, N163_NTSC_HZ));
    assert!(
        (f_short - 2.0 * f_long).abs() < 1e-6,
        "short={f_short} long={f_long}"
    );
}

#[test]
fn n163_emitted_frequency_zero_for_silent_or_inactive() {
    let mut chip = N163::new();
    chip.enabled = true;

    n163_write_channel8(&mut chip, 0, 0, 63, 0, 0x0F, 0);
    assert_eq!(hertz(chip.emitted_frequency_hz(8, N163_NTSC_HZ)), 0.0);

    n163_write_channel8(&mut chip, 0x100, 0, 63, 0, 0x0F, 0);
    assert_eq!(hertz(chip.emitted_frequency_hz(0, N163_NTSC_HZ)), 0.0);
    assert_eq!(hertz(chip.emitted_frequency_hz(9, N163_NTSC_HZ)), 0.0);

    chip.channels_active = 0;
    assert_eq!(hertz(chip.emitted_frequency_hz(8, N163_NTSC_HZ)), 0.0);
}

#[test]
fn n163_emitted_frequency_pal_uses_pal_clock() {
    let mut chip = N163::new();
    chip.enabled = true;
    n163_write_channel8(&mut chip, 0x800, 0, 63, 0, 0x0F, 0);
    let f_ntsc = hertz(chip.emitted_frequency_hz(8, N163_NTSC_HZ));
    let f_pal = hertz(chip.emitted_frequency_hz(8, N163_PAL_HZ));
    let ratio = N163_PAL_HZ as f64 / N163_NTSC_HZ as f64;
    assert!(
        (f_pal - f_ntsc * ratio).abs() < 1e-6,
        "f_ntsc={f_ntsc} f_pal={f_pal}"
    );
}
