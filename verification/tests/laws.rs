use oxideav_nsf::apu::{mixe_device, Apu2A03, MIXE_DEFAULT_MILLIBELS};
use oxideav_nsf::bus::{NesBus, Nsf2IrqTimer, BANK_SIZE};
use oxideav_nsf::cpu::Cpu6502;
use oxideav_nsf::dma::{first_get, first_put, is_read_cycle, nth_write_offset};
use oxideav_nsf::dmc::DmcChannel;
use oxideav_nsf::header::{
    parse_nsf, parse_nsfe, ExpansionChips, Nsf2Features, NsfError, NsfHeader, NsfRegion, NSFE_MAGIC,
    NSF_HEADER_LEN, NSF_MAGIC,
};
use oxideav_nsf::n163::N163;
use oxideav_nsf::noise::NoiseChannel;
use oxideav_nsf::nsfe::{parse_metadata_chunks, NsfeMetaError, NsfeMetadata, NsfeMixerEntry};
use oxideav_nsf::opcodes::{base_cycles, kind, mode, operation, Kind, Mode, Op};
use oxideav_nsf::s5b::Sunsoft5b;
use oxideav_nsf::OUTPUT_SAMPLE_RATE;

fn header(load: u16, program: Vec<u8>, banks: [u8; 8], chips: u8) -> NsfHeader {
    NsfHeader {
        version: 1,
        total_songs: 1,
        starting_song: 1,
        load_addr: load,
        init_addr: 0x8000,
        play_addr: 0x8003,
        song_name: String::new(),
        artist: String::new(),
        copyright: String::new(),
        ntsc_speed_us: 16666,
        pal_speed_us: 19997,
        bankswitch_init: banks,
        region: NsfRegion::Ntsc,
        expansion: ExpansionChips(chips),
        program,
        track_labels: Vec::new(),
        is_nsfe: false,
        nsf2: Nsf2Features(0),
        nsf2_metadata: Vec::new(),
        metadata: NsfeMetadata::default(),
    }
}

fn tune(song_name: &[u8]) -> Vec<u8> {
    let mut buf = vec![0u8; NSF_HEADER_LEN + 1];
    buf[..5].copy_from_slice(&NSF_MAGIC);
    buf[0x05] = 1;
    buf[0x06] = 1;
    buf[0x07] = 1;
    buf[0x08] = 0x00;
    buf[0x09] = 0x80;
    buf[0x0E..0x0E + song_name.len()].copy_from_slice(song_name);
    buf[0x6E] = 0x10;
    buf[0x6F] = 0x27;
    buf
}

fn chunk(out: &mut Vec<u8>, tag: &[u8; 4], body: &[u8]) {
    out.extend_from_slice(&(body.len() as u32).to_le_bytes());
    out.extend_from_slice(tag);
    out.extend_from_slice(body);
}

#[test]
fn machine_time_can_be_cut_anywhere() {
    let mut whole = NesBus::new();
    let mut pieces = NesBus::new();
    for bus in [&mut whole, &mut pieces] {
        bus.write(0x4010, 0x4F);
        bus.write(0x4012, 0x00);
        bus.write(0x4013, 0x01);
        bus.write(0x4015, 0x10);
    }
    whole.tick_cycles(20_000);
    let mut left = 20_000u32;
    let mut size = 1u32;
    while left > 0 {
        let n = size.min(left);
        pieces.tick_cycles(n);
        left -= n;
        size = size % 37 + 3;
    }
    assert_eq!(whole.cycles, pieces.cycles);
    assert!(whole.apu == pieces.apu);
    assert_eq!(whole.take_dma_stall(), pieces.take_dma_stall());
}

#[test]
fn machine_batches_agree_with_single_cycles() {
    let mut whole = NesBus::new();
    let mut single = NesBus::new();
    whole.tick_machine(1003);
    for _ in 0..1003 {
        single.tick_machine(1);
    }
    assert_eq!(whole.cycles, 1003);
    assert_eq!(single.cycles, 1003);
    assert!(whole.apu == single.apu);
}

#[test]
fn ram_gives_back_what_was_written() {
    let mut bus = NesBus::new();
    bus.write(0x1801, 0x5A);
    bus.write(0x6001, 0xA5);
    assert_eq!(bus.read(0x0001), 0x5A);
    assert_eq!(bus.read(0x0002), 0x00);
    assert_eq!(bus.read(0x6001), 0xA5);
    assert_eq!(bus.read(0x6002), 0x00);
}

#[test]
fn fds_memory_is_writable_and_reset_restores_it() {
    let h = header(0x8000, vec![0x11, 0x22], [0; 8], 0x04);
    let mut bus = NesBus::new();
    bus.configure_from_header(&h);
    assert_eq!(bus.read(0x8001), 0x22);
    bus.write(0x8001, 0x99);
    assert_eq!(bus.read(0x8001), 0x99);
    bus.reset_for_tune(&h);
    assert_eq!(bus.read(0x8001), 0x22);
}

#[test]
fn missing_bank_reads_as_ff() {
    let mut banks = [0u8; 8];
    banks[7] = 1;
    let mut program = vec![0x11; BANK_SIZE];
    program.push(0x22);
    let h = header(0x8000, program, banks, 0x00);
    let mut bus = NesBus::new();
    bus.configure_from_header(&h);
    assert_eq!(bus.bank_pool.len(), 2);
    assert_eq!(bus.read(0xF000), 0x22);
    assert_eq!(bus.read(0xF001), 0x00);
    bus.write(0x5FFF, 2);
    assert_eq!(bus.read(0xF000), 0xFF);
}

#[test]
fn load_address_sets_the_offset_in_the_first_bank() {
    let mut banks = [0u8; 8];
    banks[1] = 1;
    let h = header(0x8FFE, vec![0x01, 0x02, 0x03], banks, 0x00);
    let mut bus = NesBus::new();
    bus.configure_from_header(&h);
    assert_eq!(bus.read(0x8FFD), 0x00);
    assert_eq!(bus.read(0x8FFE), 0x01);
    assert_eq!(bus.read(0x8FFF), 0x02);
    assert_eq!(bus.read(0x9000), 0x03);
    assert_eq!(bus.read(0x9001), 0x00);
}

#[test]
fn fds_banks_reach_cartridge_ram() {
    let mut banks = [0u8; 8];
    banks[0] = 1;
    let mut program = vec![0x11; BANK_SIZE];
    program.extend(vec![0x22; BANK_SIZE]);
    let h = header(0x8000, program, banks, 0x04);
    let mut bus = NesBus::new();
    bus.configure_from_header(&h);
    assert_eq!(bus.read(0x8000), 0x22);
    assert_eq!(bus.read(0x9000), 0x11);
    bus.write(0x5FF6, 1);
    bus.write(0x5FF7, 0);
    assert_eq!(bus.read(0x6000), 0x22);
    assert_eq!(bus.read(0x7FFF), 0x11);
}

#[test]
fn program_outside_memory_is_dropped() {
    let mut bus = NesBus::new();
    bus.load_program(0x5FFF, &[0x01, 0x02]);
    assert_eq!(bus.read(0x6000), 0x02);
    bus.load_program(0xFFFF, &[0x03, 0x04]);
    assert_eq!(bus.read(0xFFFF), 0x03);
    bus.load_program(0x7FFF, &[0x05, 0x06]);
    assert_eq!(bus.read(0x7FFF), 0x05);
    assert_eq!(bus.read(0x8000), 0x06);
}

#[test]
fn pushed_byte_comes_back() {
    let mut bus = NesBus::new();
    bus.load_program(0x8000, &[0x48, 0xA9, 0x00, 0x68]);
    let mut cpu = Cpu6502::new();
    cpu.pc = 0x8000;
    cpu.a = 0x7B;
    assert_eq!(cpu.step(&mut bus), 3);
    assert_eq!(cpu.sp, 0xFC);
    cpu.step(&mut bus);
    assert_eq!(cpu.a, 0x00);
    assert_eq!(cpu.step(&mut bus), 4);
    assert_eq!(cpu.a, 0x7B);
    assert_eq!(cpu.sp, 0xFD);
}

#[test]
fn pushed_word_lies_high_byte_first() {
    let mut bus = NesBus::new();
    let mut cpu = Cpu6502::new();
    cpu.push_word_pub(&mut bus, 0x1234);
    assert_eq!(bus.ram[0x01FD], 0x12);
    assert_eq!(bus.ram[0x01FC], 0x34);
    assert_eq!(cpu.sp, 0xFB);
}

#[test]
fn interrupt_returns_to_the_program() {
    let mut bus = NesBus::new();
    bus.load_program(0x8000, &[0xEA]);
    bus.load_program(0x9000, &[0x40]);
    bus.load_program(0xFFFA, &[0x00, 0x90]);
    let mut cpu = Cpu6502::new();
    cpu.pc = 0x8000;
    cpu.p = 0x23;
    bus.request_nmi();
    assert_eq!(cpu.step(&mut bus), 7);
    assert_eq!(cpu.pc, 0x9000);
    assert_eq!(cpu.p, 0x27);
    assert_eq!(cpu.step(&mut bus), 6);
    assert_eq!(cpu.pc, 0x8000);
    assert_eq!(cpu.p, 0x23);
    assert_eq!(cpu.sp, 0xFD);
}

#[test]
fn brk_and_reset_go_through_their_vectors() {
    let mut bus = NesBus::new();
    bus.load_program(0x8000, &[0x00]);
    bus.load_program(0xFFFC, &[0x00, 0x80, 0x00, 0xA0]);
    let mut cpu = Cpu6502::new();
    cpu.sp = 0x10;
    cpu.halted = true;
    cpu.reset(&mut bus);
    assert_eq!(cpu.pc, 0x8000);
    assert_eq!(cpu.sp, 0xFD);
    assert!(!cpu.halted);
    assert_eq!(cpu.step(&mut bus), 7);
    assert_eq!(cpu.pc, 0xA000);
    assert_eq!(bus.ram[0x01FD], 0x80);
    assert_eq!(bus.ram[0x01FC], 0x02);
    assert_eq!(bus.ram[0x01FB], 0x34);
}

#[test]
fn indirect_jump_stays_in_its_page() {
    let mut bus = NesBus::new();
    bus.load_program(0x8000, &[0x6C, 0xFF, 0x02]);
    bus.ram[0x02FF] = 0x34;
    bus.ram[0x0200] = 0x12;
    bus.ram[0x0300] = 0x56;
    let mut cpu = Cpu6502::new();
    cpu.pc = 0x8000;
    assert_eq!(cpu.step(&mut bus), 5);
    assert_eq!(cpu.pc, 0x1234);
}

#[test]
fn zero_page_indexing_wraps() {
    let mut bus = NesBus::new();
    bus.load_program(0x8000, &[0xB5, 0xFF, 0xA1, 0xFE]);
    bus.ram[0x0001] = 0x42;
    bus.ram[0x0000] = 0x10;
    bus.ram[0x0110] = 0x77;
    let mut cpu = Cpu6502::new();
    cpu.pc = 0x8000;
    cpu.x = 2;
    assert_eq!(cpu.step(&mut bus), 4);
    assert_eq!(cpu.a, 0x42);
    bus.ram[0x0001] = 0x01;
    assert_eq!(cpu.step(&mut bus), 6);
    assert_eq!(cpu.a, 0x77);
}

#[test]
fn page_crossing_costs_a_cycle_on_reads_only() {
    let mut bus = NesBus::new();
    bus.load_program(0x8000, &[0xBD, 0xFF, 0x02, 0x9D, 0xFF, 0x02, 0xFE, 0xFF, 0x02]);
    let mut cpu = Cpu6502::new();
    cpu.pc = 0x8000;
    cpu.x = 1;
    assert_eq!(cpu.step(&mut bus), 5);
    assert_eq!(cpu.step(&mut bus), 5);
    assert_eq!(cpu.step(&mut bus), 7);
    assert_eq!(bus.ram[0x0300], 1);
}

#[test]
fn rotations_and_arithmetic_agree_with_the_chip() {
    let mut bus = NesBus::new();
    bus.load_program(0x8000, &[0x67, 0x10, 0x47, 0x11, 0x6B, 0xFF, 0x4B, 0x03]);
    bus.ram[0x10] = 0x03;
    bus.ram[0x11] = 0x81;
    let mut cpu = Cpu6502::new();
    cpu.pc = 0x8000;
    cpu.a = 0x10;
    cpu.p = 0x21;
    assert_eq!(cpu.step(&mut bus), 5);
    assert_eq!(bus.ram[0x10], 0x81);
    assert_eq!(cpu.a, 0x92);
    assert_eq!(cpu.p & 0x01, 0);
    assert_eq!(cpu.step(&mut bus), 5);
    assert_eq!(bus.ram[0x11], 0x40);
    assert_eq!(cpu.a, 0xD2);
    assert_eq!(cpu.p & 0x01, 1);
    cpu.step(&mut bus);
    assert_eq!(cpu.a, 0xE9);
    assert_eq!(cpu.p & 0x41, 0x01);
    cpu.step(&mut bus);
    assert_eq!(cpu.a, 0x00);
    assert_eq!(cpu.p & 0x03, 0x03);
}

#[test]
fn unstable_stores_mask_with_the_next_page() {
    let mut bus = NesBus::new();
    bus.load_program(0x8000, &[0x9F, 0x00, 0x02, 0x9E, 0x01, 0x02, 0x9C, 0x02, 0x02, 0x9B, 0x03, 0x02]);
    let mut cpu = Cpu6502::new();
    cpu.pc = 0x8000;
    cpu.a = 0xFF;
    cpu.x = 0x07;
    cpu.y = 0x00;
    for _ in 0..4 {
        assert_eq!(cpu.step(&mut bus), 5);
    }
    assert_eq!(bus.ram[0x0200], 0x03);
    assert_eq!(bus.ram[0x0201], 0x03);
    assert_eq!(bus.ram[0x0209], 0x00);
    assert_eq!(bus.ram[0x0203], 0x03);
    assert_eq!(cpu.sp, 0x07);
}

#[test]
fn opcode_tables_name_known_instructions() {
    assert_eq!(operation(0xA9), Op::Lda);
    assert_eq!(mode(0xA9), Mode::Immediate);
    assert_eq!(kind(0xEE), Kind::Modify);
    assert_eq!(mode(0xEE), Mode::Absolute);
    assert_eq!(base_cycles(0xEE), 6);
    assert_eq!(operation(0xEB), operation(0xE9));
    assert_eq!(mode(0xEB), mode(0xE9));
}

#[test]
fn write_cycles_are_found_in_order() {
    assert_eq!(nth_write_offset(0b0011100, 0, 7), 2);
    assert_eq!(nth_write_offset(0b0011100, 2, 7), 4);
    assert_eq!(nth_write_offset(0b0011100, 3, 7), 6);
    assert_eq!(nth_write_offset(0, 0, 0), 0);
    assert!(is_read_cycle(0b0011100, 1));
    assert!(!is_read_cycle(0b0011100, 2));
    assert!(is_read_cycle(u32::MAX, 32));
    assert_eq!(first_get(5), 6);
    assert_eq!(first_get(6), 6);
    assert_eq!(first_put(5), 5);
    assert_eq!(first_put(6), 7);
}

#[test]
fn timer_comes_round_every_reload_plus_one_cycles() {
    let mut t = Nsf2IrqTimer::new();
    t.enabled = true;
    t.write(0x401B, 0x02);
    t.write(0x401C, 0x01);
    t.tick(1);
    t.write(0x401D, 0x01);
    t.tick(0x102);
    assert!(!t.irq_line());
    t.tick(1);
    assert!(t.irq_line());
    assert_eq!(t.counter, 0x102);
    assert_eq!(t.read(0x401B), Some(0x02));
    assert_eq!(t.read(0x401C), Some(0x01));
}

#[test]
fn dmc_level_stays_within_seven_bits() {
    let mut dmc = DmcChannel::new();
    dmc.write_control(0x0F, false);
    dmc.write_dac(0xFF);
    assert_eq!(dmc.dac, 0x7F);
    dmc.fill_buffer(0xFF);
    for _ in 0..54 * 20 {
        dmc.tick_one();
        assert!(dmc.dac <= 127);
    }
    assert_eq!(dmc.dac, 127);
}

#[test]
fn idle_dmc_keeps_its_level() {
    let mut dmc = DmcChannel::new();
    dmc.write_dac(0x40);
    for _ in 0..5_000 {
        dmc.tick_one();
    }
    assert_eq!(dmc.dac, 0x40);
}

#[test]
fn dmc_address_wraps_to_8000() {
    let mut dmc = DmcChannel::new();
    dmc.write_addr(0xFF);
    dmc.write_len(0x01);
    dmc.enable(true);
    assert_eq!(dmc.current_addr, 0xFFC0);
    assert_eq!(dmc.bytes_remaining, 17);
    dmc.current_addr = 0xFFFF;
    dmc.supply_byte(0x12);
    assert_eq!(dmc.current_addr, 0x8000);
    assert_eq!(dmc.bytes_remaining, 16);
}

#[test]
fn noise_register_never_empties() {
    let mut noise = NoiseChannel::new();
    noise.timer_period = NoiseChannel::period_for(0, false);
    for _ in 0..40_000 {
        noise.tick_timer(3);
        assert_ne!(noise.shift, 0);
    }
}

#[test]
fn mixing_levels_follow_the_tune() {
    let mut apu = Apu2A03::new();
    assert_eq!(apu.device_gains(), MIXE_DEFAULT_MILLIBELS);
    assert_eq!(Apu2A03::default_device_gains(), MIXE_DEFAULT_MILLIBELS);
    apu.apply_mixe_overrides(&[
        NsfeMixerEntry { device: mixe_device::VRC7, millibel: -500 },
        NsfeMixerEntry { device: 8, millibel: 123 },
        NsfeMixerEntry { device: mixe_device::VRC7, millibel: 250 },
    ]);
    let mut expected = MIXE_DEFAULT_MILLIBELS;
    expected[3] = 250;
    assert_eq!(apu.device_gains(), expected);
}

#[test]
fn status_read_leaves_the_dmc_interrupt() {
    let mut apu = Apu2A03::new();
    apu.frame_irq_flag = true;
    apu.dmc.irq_flag = true;
    assert_eq!(apu.read_status(), 0xC0);
    assert_eq!(apu.read_status(), 0x80);
}

#[test]
fn names_above_ascii_are_decoded() {
    let h = parse_nsf(&tune(&[0x43, 0x61, 0x66, 0xE9])).unwrap();
    assert_eq!(h.song_name, "Caf\u{e9}");
    let rate = h.play_rate_hz();
    assert_eq!(rate.num / rate.den, 100);
}

#[test]
fn short_files_are_refused() {
    assert_eq!(
        parse_nsf(&[0x4E, 0x45]).unwrap_err(),
        NsfError::TooShort { needed: 0x80, got: 2 }
    );
}

#[test]
fn nsfe_errors_are_told_apart() {
    let mut truncated = NSFE_MAGIC.to_vec();
    truncated.extend_from_slice(&[1, 2, 3]);
    assert_eq!(parse_nsf(&truncated).unwrap_err(), NsfError::NsfeTruncatedChunk);

    let mut overflowing = NSFE_MAGIC.to_vec();
    overflowing.extend_from_slice(&100u32.to_le_bytes());
    overflowing.extend_from_slice(b"INFO");
    overflowing.extend_from_slice(&[0; 9]);
    assert_eq!(parse_nsf(&overflowing).unwrap_err(), NsfError::NsfeChunkOverflow);

    let mut empty = NSFE_MAGIC.to_vec();
    chunk(&mut empty, b"NEND", &[]);
    assert!(matches!(
        parse_nsf(&empty).unwrap_err(),
        NsfError::NsfeMissingRequired(_)
    ));

    let mut bad_mixer = NSFE_MAGIC.to_vec();
    chunk(&mut bad_mixer, b"INFO", &[0, 0x80, 0, 0x80, 3, 0x80, 0, 0, 1, 0]);
    chunk(&mut bad_mixer, b"DATA", &[0x60]);
    chunk(&mut bad_mixer, b"mixe", &[1, 2]);
    chunk(&mut bad_mixer, b"NEND", &[]);
    assert!(matches!(
        parse_nsf(&bad_mixer).unwrap_err(),
        NsfError::Metadata(NsfeMetaError::BadChunkPayload { .. })
    ));
}

#[test]
fn rendered_sound_has_cd_rate() {
    assert_eq!(OUTPUT_SAMPLE_RATE, 44_100);
}

#[test]
fn frame_sequence_comes_round() {
    for (pal, irq_at, end) in [(false, 29_828u32, 29_830u32), (true, 33_252, 33_254)] {
        let mut apu = Apu2A03::new();
        if pal {
            apu.set_cpu_hz(1_662_607);
        }
        assert_eq!(apu.is_pal(), pal);
        apu.tick_cpu_cycles(irq_at - 1);
        assert!(!apu.frame_irq_flag);
        apu.tick_cpu_cycles(1);
        assert!(apu.frame_irq_flag);
        apu.tick_cpu_cycles(end - irq_at);
        assert_eq!((apu.frame_acc, apu.frame_step), (0, 0));
    }
}

#[test]
fn frame_interrupt_can_be_kept_out() {
    for value in [0x40u8, 0x80, 0xC0] {
        let mut apu = Apu2A03::new();
        apu.write_frame_counter(value);
        apu.tick_cpu_cycles(200_000);
        assert!(!apu.frame_irq_flag);
    }
}

#[test]
fn dmc_that_is_off_asks_for_nothing() {
    let mut bus = NesBus::new();
    for delay in 0..600u32 {
        bus.write(0x4010, 0x0F);
        bus.write(0x4012, 0x00);
        bus.write(0x4013, (delay % 3) as u8);
        bus.write(0x4015, 0x10);
        bus.tick_cycles(delay);
        bus.write(0x4015, 0x00);
        bus.tick_cycles(delay % 7);
        assert_eq!(bus.apu.dmc.bytes_remaining, 0);
        assert!(!bus.apu.dmc.pending_fetch);
    }
}

/// A file of version `version` whose program is three bytes long, with `tail`
/// behind it.
fn tune_with_tail(version: u8, tail: &[u8]) -> Vec<u8> {
    let mut buf = tune(b"name");
    buf.truncate(NSF_HEADER_LEN);
    buf[0x05] = version;
    buf[0x7D] = 3;
    buf.extend_from_slice(&[0xA9, 0x00, 0x60]);
    buf.extend_from_slice(tail);
    buf
}

#[test]
fn only_nsf2_files_have_appended_metadata() {
    let mut tail = Vec::new();
    chunk(&mut tail, b"auth", b"T\0A\0C\0R\0");
    chunk(&mut tail, b"tlbl", b"one\0");
    let v1 = parse_nsf(&tune_with_tail(1, &tail)).unwrap();
    assert_eq!(v1.program, vec![0xA9, 0x00, 0x60]);
    assert!(v1.nsf2_metadata.is_empty());
    assert_eq!(v1.metadata, NsfeMetadata::default());
    assert!(v1.track_labels.is_empty());
    assert_eq!(v1.artist, "");
    let v2 = parse_nsf(&tune_with_tail(2, &tail)).unwrap();
    assert_eq!(v2.program, vec![0xA9, 0x00, 0x60]);
    assert_eq!(v2.nsf2_metadata, tail);
    assert_eq!(v2.track_labels, vec!["one".to_string()]);
    assert_eq!(v2.artist, "A");
    assert_eq!(v2.song_name, "name");
}

#[test]
fn padding_of_a_version_1_file_is_not_read() {
    assert!(parse_nsf(&tune_with_tail(1, &[1, 2, 3])).is_ok());
    assert!(matches!(
        parse_nsf(&tune_with_tail(2, &[1, 2, 3])),
        Err(NsfError::Metadata(NsfeMetaError::TruncatedChunk))
    ));
}

#[test]
fn nsfe_without_chunks_lacks_its_info() {
    for len in 0..5usize {
        assert!(matches!(
            parse_nsfe(&NSFE_MAGIC[..len.min(4)]),
            Err(NsfError::NsfeMissingRequired("INFO"))
        ));
    }
}

#[test]
fn timer_starts_from_its_reload_value() {
    let mut t = Nsf2IrqTimer::new();
    t.enabled = true;
    t.write(0x401B, 5);
    assert_eq!(t.counter, 5);
    t.write(0x401C, 0);
    t.write(0x401D, 1);
    t.tick(5);
    assert!(!t.irq_line());
    t.tick(1);
    assert!(t.irq_line());
    // While it runs, a new value waits for the next round.
    t.tick(2);
    t.write(0x401B, 9);
    assert_eq!(t.counter, 3);
    t.write(0x401D, 1);
    assert_eq!(t.counter, 3);
    t.tick(4);
    assert_eq!(t.counter, 9);
    t.write(0x401D, 0);
    t.write(0x401B, 7);
    assert_eq!(t.counter, 7);
}

#[test]
fn vector_overlay_keeps_the_interrupt_vector_of_fds_memory() {
    let mut bus = NesBus::new();
    bus.configure_from_header(&header(0x8000, vec![0xAA; 0x8000], [0; 8], 0x04));
    bus.write(0xFFFE, 0x34);
    bus.write(0xFFFF, 0x12);
    bus.arm_vector_overlay(0x4FFE, 0x4FFE);
    assert_eq!(bus.read(0xFFFE), 0x34);
    assert_eq!(bus.read(0xFFFF), 0x12);
    for (addr, byte) in [(0xFFFA, 0xFE), (0xFFFB, 0x4F), (0xFFFC, 0xFE), (0xFFFD, 0x4F)] {
        assert_eq!(bus.read(addr), byte);
    }
}

#[test]
fn fds_reset_forgets_what_a_song_wrote() {
    // One bank; the window at $9000 asks for one that does not exist.
    let h = header(0x8000, vec![0x11; BANK_SIZE], [0, 9, 0, 0, 0, 0, 0, 0], 0x04);
    let mut bus = NesBus::new();
    bus.configure_from_header(&h);
    assert_eq!((bus.read(0x8000), bus.read(0x9000)), (0x11, 0x00));
    bus.write(0x8000, 0x77);
    bus.write(0x9000, 0x77);
    assert_eq!((bus.read(0x8000), bus.read(0x9000)), (0x77, 0x77));
    bus.reset_for_tune(&h);
    assert_eq!((bus.read(0x8000), bus.read(0x9000)), (0x11, 0x00));
}

#[test]
fn n163_channel_that_is_not_enabled_plays_no_frequency() {
    let mut chip = N163::new();
    chip.ram[0x40] = 1;
    assert_eq!(chip.emitted_frequency_hz(1, 1_789_773).num, 0);
    chip.channels_active = 7;
    assert_eq!(chip.emitted_frequency_hz(1, 1_789_773).num, 0);
    chip.channels_active = 8;
    let r = chip.emitted_frequency_hz(1, 1_789_773);
    assert_eq!((r.num, r.den), (1_789_773, 15 * 65536 * 256 * 8));
}

#[test]
fn s5b_noise_comes_round_after_131071_shifts() {
    let mut chip = Sunsoft5b::new();
    chip.enabled = true;
    let start = chip.noise.lfsr;
    for n in 1..=131_071u32 {
        chip.tick(32);
        assert_eq!(chip.noise.lfsr == start, n == 131_071);
    }
}

#[test]
fn s5b_triangle_turns_round_only_after_its_first_pass() {
    let mut chip = Sunsoft5b::new();
    chip.enabled = true;
    chip.write(0xC000, 0x0D);
    chip.write(0xE000, 0x0E);
    for _ in 0..200 {
        chip.tick(16);
        assert!(!chip.envelope.flipped || chip.envelope.attacked);
        assert!(chip.is_well_formed());
    }
    assert!(chip.envelope.attacked);
}

#[test]
fn decimal_flag_changes_no_sum() {
    for opcode in [0x69u8, 0xE9, 0xEB] {
        for (a, m, c) in [(0x09u8, 0x01u8, 0u8), (0x99, 0x99, 1), (0x50, 0x50, 0), (0x00, 0x01, 1)] {
            let mut results = Vec::new();
            for decimal in [0u8, 0x08] {
                let mut bus = NesBus::new();
                bus.write(0x0200, m);
                let mut cpu = Cpu6502::new();
                cpu.pc = 0x0200;
                cpu.a = a;
                cpu.p = 0x20 | c | decimal;
                let cycles = cpu.dispatch(&mut bus, opcode);
                assert_eq!(cpu.p & 0x08, decimal);
                results.push((cycles, cpu.a, cpu.p | 0x08, cpu.pc, cpu.sp));
            }
            assert_eq!(results[0], results[1]);
        }
    }
}

#[test]
fn return_undoes_a_call() {
    let mut bus = NesBus::new();
    bus.write(0x0200, 0x34);
    bus.write(0x0201, 0x03);
    let mut cpu = Cpu6502::new();
    cpu.pc = 0x0200;
    cpu.sp = 0x00;
    cpu.a = 1;
    assert_eq!(cpu.dispatch(&mut bus, 0x20), 6);
    assert_eq!((cpu.pc, cpu.sp), (0x0334, 0xFE));
    assert_eq!((bus.read(0x0100), bus.read(0x01FF)), (0x02, 0x01));
    assert_eq!(cpu.dispatch(&mut bus, 0x60), 6);
    assert_eq!((cpu.pc, cpu.sp, cpu.a), (0x0202, 0x00, 1));
}

#[test]
fn fields_out_of_range_are_found() {
    let mut apu = Apu2A03::new();
    assert!(apu.is_well_formed());
    apu.triangle.seq_step = 32;
    assert!(!apu.is_well_formed());
    apu.triangle.seq_step = 31;
    apu.expansion.n163.chan_hold[7] = 106;
    assert!(!apu.is_well_formed());
}

#[test]
fn fds_memory_takes_the_program_of_a_new_tune() {
    let mut bus = NesBus::new();
    bus.configure_from_header(&header(0x8000, vec![0x11; 0x8000], [0; 8], 0x04));
    bus.write(0x9000, 0x77);
    bus.configure_from_header(&header(0x8000, vec![0x22; 0x8000], [0; 8], 0x04));
    assert_eq!((bus.read(0x8000), bus.read(0x9000)), (0x22, 0x22));
}

#[test]
fn dmc_fetch_inside_an_oam_dma_costs_two_cycles() {
    // A byte is fetched every 848 cycles, so at most one within the OAM DMA.
    let mut seen = [0u32; 4];
    for wait in 0..1700u32 {
        let mut bus = NesBus::new();
        bus.write(0x4010, 0x4C);
        bus.write(0x4012, 0x00);
        bus.write(0x4013, 0x00);
        bus.write(0x4015, 0x10);
        bus.tick_cycles(500 + wait);
        bus.take_dma_stall();
        let plain = if bus.cycles % 2 == 0 { 513 } else { 514 };
        bus.write(0x4014, 0x02);
        seen[(bus.take_dma_stall() - plain) as usize] += 1;
    }
    assert!(seen[0] > 0 && seen[2] > 0);
    assert!(seen[2] > seen[1] + seen[3]);
}

#[test]
fn feature_byte_of_a_version_1_file_counts_for_nothing() {
    let plain = tune(b"Song");
    let plain_result = parse_nsf(&plain).unwrap();
    for byte in [0x01u8, 0x10, 0x80, 0xFF] {
        let mut other = plain.clone();
        other[0x7C] = byte;
        let h = parse_nsf(&other).unwrap();
        assert_eq!(h.nsf2, Nsf2Features(0));
        assert_eq!(format!("{:?}", h), format!("{:?}", plain_result));
    }
    let mut refused = plain.clone();
    refused[0x06] = 0;
    refused[0x7C] = 0xFF;
    assert_eq!(parse_nsf(&refused).unwrap_err(), NsfError::NoSongs);
    let mut second = plain;
    second[0x05] = 2;
    second[0x7C] = 0x10;
    assert_eq!(parse_nsf(&second).unwrap().nsf2, Nsf2Features(0x10));
}

#[test]
fn bytes_behind_the_end_of_an_nsfe_file_count_for_nothing() {
    let mut file = NSFE_MAGIC.to_vec();
    chunk(&mut file, b"INFO", &[0, 0x80, 3, 0x80, 6, 0x80, 0, 0, 2, 0]);
    chunk(&mut file, b"DATA", &[0xEA, 0x60]);
    chunk(&mut file, b"tlbl", b"One\0");
    let no_end = file.clone();
    chunk(&mut file, b"NEND", &[]);
    let ended = parse_nsf(&file).unwrap();
    assert_eq!(ended.track_labels, vec!["One".to_string()]);
    let mut junk = Vec::new();
    chunk(&mut junk, b"DATA", &[1, 2, 3]);
    chunk(&mut junk, b"ZZZZ", &[]);
    junk.extend_from_slice(&[9, 9, 9]);
    for tail in [vec![0xFFu8], vec![0xFFu8; 12], junk.clone()] {
        let mut long = file.clone();
        long.extend_from_slice(&tail);
        assert_eq!(format!("{:?}", parse_nsf(&long).unwrap()), format!("{:?}", ended));
    }
    let mut open = no_end;
    open.extend_from_slice(&junk);
    assert!(parse_nsf(&open).is_err());
    let mut lacking = NSFE_MAGIC.to_vec();
    chunk(&mut lacking, b"DATA", &[0xEA]);
    chunk(&mut lacking, b"NEND", &[]);
    chunk(&mut lacking, b"INFO", &[0, 0x80, 3, 0x80, 6, 0x80, 0, 0, 2, 0]);
    assert!(matches!(parse_nsf(&lacking), Err(NsfError::NsfeMissingRequired(_))));
}

#[test]
fn unknown_optional_chunk_counts_for_nothing() {
    let mut before = Vec::new();
    chunk(&mut before, b"time", &5000i32.to_le_bytes());
    chunk(&mut before, b"plst", &[3, 1, 2]);
    let mut after = Vec::new();
    chunk(&mut after, b"tlbl", b"A\0B\0");
    let mut plain = before.clone();
    plain.extend_from_slice(&after);
    let expected = parse_metadata_chunks(&plain).unwrap();
    assert_eq!(expected.playlist, vec![3, 1, 2]);
    assert_eq!(expected.track_labels, vec!["A".to_string(), "B".to_string()]);
    for body in [vec![], vec![0u8; 5], b"NEND\0\0\0\0ZZZZ".to_vec()] {
        let mut blob = before.clone();
        chunk(&mut blob, b"xyzw", &body);
        blob.extend_from_slice(&after);
        assert_eq!(parse_metadata_chunks(&blob).unwrap(), expected);
    }
    let mut cut = before.clone();
    chunk(&mut cut, b"xyzw", &[7]);
    cut.extend_from_slice(&[1, 2, 3]);
    assert_eq!(parse_metadata_chunks(&cut).unwrap_err(), NsfeMetaError::TruncatedChunk);
}

#[test]
fn times_and_fades_come_back() {
    let times = vec![0i32, -1, 120_000, i32::MIN, i32::MAX];
    let fades = vec![-2i32, 0x0102_0304];
    for surplus in 0..4usize {
        let mut time_body = Vec::new();
        for t in &times {
            time_body.extend_from_slice(&t.to_le_bytes());
        }
        time_body.extend_from_slice(&[0xAA; 3][..surplus]);
        let mut fade_body = Vec::new();
        for f in &fades {
            fade_body.extend_from_slice(&f.to_le_bytes());
        }
        fade_body.extend_from_slice(&[0x55; 3][..3 - surplus]);
        let mut blob = Vec::new();
        chunk(&mut blob, b"time", &time_body);
        chunk(&mut blob, b"fade", &fade_body);
        let m = parse_metadata_chunks(&blob).unwrap();
        let expected = NsfeMetadata {
            track_times_ms: times.clone(),
            track_fades_ms: fades.clone(),
            ..NsfeMetadata::default()
        };
        assert_eq!(m, expected);
    }
}

#[test]
fn second_status_read_lacks_only_the_frame_interrupt() {
    let mut apu = Apu2A03::new();
    apu.write_status(0x05);
    apu.write_register(0x4003, 0x08);
    apu.write_register(0x400B, 0x08);
    apu.frame_irq_flag = true;
    apu.dmc.irq_flag = true;
    let first = apu.read_status();
    assert_eq!(first, 0xC5);
    assert_eq!(apu.read_status(), 0x85);
    assert_eq!(apu.read_status(), 0x85);
    assert!(apu.dmc.irq_flag);
    assert!(!apu.frame_irq_flag);
}
