use oxideav_nsf::expansion::Expansion;
use oxideav_nsf::header::ExpansionChips;

#[test]
fn expansion_irq_line_surfaces_mmc5_pcm_irq() {
    let mut ex = Expansion::new();

    ex.set_flags(ExpansionChips(0x08));
    assert!(ex.mmc5.enabled);
    assert!(!ex.irq_line());

    ex.write(0x5010, 0x80);
    ex.write(0x5011, 0x00);
    assert!(ex.irq_line());

    let _ = ex.read(0x5010);
    assert!(!ex.irq_line());
}

#[test]
fn expansion_observe_prg_read_window_is_8000_to_bfff() {
    let mut ex = Expansion::new();
    ex.set_flags(ExpansionChips(0x08));
    ex.write(0x5010, 0x01);
    ex.observe_prg_read(0xC000, 0x55);
    assert_eq!(ex.mmc5.pcm, 0x00);
    ex.observe_prg_read(0x8000, 0x77);
    assert_eq!(ex.mmc5.pcm, 0x77);
    ex.observe_prg_read(0xBFFF, 0x33);
    assert_eq!(ex.mmc5.pcm, 0x33);
    ex.observe_prg_read(0xC000, 0x11);
    assert_eq!(ex.mmc5.pcm, 0x33);
}

#[test]
fn expansion_disabled_chips_emit_silence() {
    let mut x = Expansion::new();
    x.set_flags(ExpansionChips(0));
    let silent = x.output();
    assert!(silent.vrc6.is_none() && silent.vrc7.is_none() && silent.mmc5.is_none());
    assert!(silent.n163.is_none() && silent.s5b.is_none() && silent.fds.is_none());
}

#[test]
fn expansion_routes_writes_only_to_enabled_chip() {
    let mut x = Expansion::new();
    x.set_flags(ExpansionChips(0x01));
    x.write(0x9000, 0x0F);

    assert_eq!(x.vrc6.pulse[0].volume, 15);
    assert_eq!(x.fds.volume, 0);
}

#[test]
fn expansion_routes_fds_reads_only_when_enabled() {
    let mut x = Expansion::new();
    x.set_flags(ExpansionChips(0));
    assert_eq!(x.read(0x4090), 0xFF);

    x.set_flags(ExpansionChips(0x04));
    x.fds.volume = 0x12;
    assert_eq!(x.read(0x4090), 0x40 | 0x12);

    assert_eq!(x.read(0x4080), 0xFF);
}

#[test]
fn expansion_aggregate_state_is_invariant_to_batch_chunking() {
    let setup = |exp: &mut Expansion| {
        exp.set_flags(ExpansionChips(0x3F));

        exp.write(0x9000, 0x0F);
        exp.write(0x9001, 0x37);
        exp.write(0x9002, 0x80);
        exp.write(0xB000, 0x08);
        exp.write(0xB001, 0x53);
        exp.write(0xB002, 0x80);

        exp.write(0x9010, 0x30);
        exp.write(0x9030, 0x20);
        exp.write(0x9010, 0x10);
        exp.write(0x9030, 0x80);
        exp.write(0x9010, 0x20);
        exp.write(0x9030, 0x17);

        exp.write(0x5015, 0x01);
        exp.write(0x5000, 0x02);
        exp.write(0x5002, 0x40);
        exp.write(0x5003, 0x08);

        exp.write(0xF800, 0x80 | 0x40);
        for _ in 0..0x40 {
            exp.write(0x4800, 0x9A);
        }

        exp.write(0xC000, 0x00);
        exp.write(0xE000, 0x1B);
        exp.write(0xC000, 0x08);
        exp.write(0xE000, 0x10);
        exp.write(0xC000, 0x0B);
        exp.write(0xE000, 0x21);
        exp.write(0xC000, 0x0D);
        exp.write(0xE000, 0x0E);

        exp.write(0x4089, 0x80);
        exp.write(0x4040, 0x20);
        exp.write(0x4041, 0x3F);
        exp.write(0x4089, 0x00);
        exp.write(0x4085, 0x08);
        exp.write(0x4088, 0x02);
        exp.write(0x4086, 0x7F);
        exp.write(0x4087, 0x01);
        exp.write(0x4084, 0x0A);
        exp.write(0x4080, 0x15);
        exp.write(0x408A, 0x20);
        exp.write(0x4082, 0x80);
        exp.write(0x4083, 0x01);
    };
    let mut whole = Expansion::new();
    let mut ragged = Expansion::new();
    setup(&mut whole);
    setup(&mut ragged);

    let total: u32 = 60_017;
    whole.tick(total);
    let chunks = [1u32, 2, 3, 5, 7, 11, 13, 36];
    let mut left = total;
    let mut i = 0usize;
    while left > 0 {
        let n = chunks[i % chunks.len()].min(left);
        ragged.tick(n);
        left -= n;
        i += 1;
    }

    assert_eq!(whole.vrc6.pulse[0].timer, ragged.vrc6.pulse[0].timer);
    assert_eq!(whole.vrc6.pulse[0].step, ragged.vrc6.pulse[0].step);
    assert_eq!(whole.vrc6.saw.step, ragged.vrc6.saw.step);
    assert_eq!(whole.vrc6.saw.accum, ragged.vrc6.saw.accum);

    assert_eq!(whole.vrc7.op_cycles_q8, ragged.vrc7.op_cycles_q8);
    assert_eq!(whole.vrc7.latched_output, ragged.vrc7.latched_output);

    assert_eq!(whole.mmc5.pulse[0].timer, ragged.mmc5.pulse[0].timer);
    assert_eq!(whole.mmc5.pulse[0].step, ragged.mmc5.pulse[0].step);
    assert_eq!(
        whole.mmc5.pulse[0].env_decay,
        ragged.mmc5.pulse[0].env_decay
    );
    assert_eq!(whole.mmc5.frame_acc, ragged.mmc5.frame_acc);

    assert_eq!(whole.n163.ram, ragged.n163.ram);
    assert_eq!(whole.n163.cycle_accum, ragged.n163.cycle_accum);

    assert_eq!(whole.s5b.channels[0].timer, ragged.s5b.channels[0].timer);
    assert_eq!(whole.s5b.channels[0].level, ragged.s5b.channels[0].level);
    assert_eq!(whole.s5b.envelope.step, ragged.s5b.envelope.step);
    assert_eq!(whole.s5b.clock_rem, ragged.s5b.clock_rem);

    assert_eq!(whole.fds.wave_acc, ragged.fds.wave_acc);
    assert_eq!(whole.fds.mod_counter, ragged.fds.mod_counter);
    assert_eq!(whole.fds.mod_gain, ragged.fds.mod_gain);
    assert_eq!(whole.fds.volume, ragged.fds.volume);
    assert_eq!(whole.fds.cycle_acc, ragged.fds.cycle_acc);

    assert_eq!(whole.output(), ragged.output());
}
