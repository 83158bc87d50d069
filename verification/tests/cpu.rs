use oxideav_nsf::apu::DMC_DMA_LOAD_STALL_CYCLES;
use oxideav_nsf::bus::{NesBus, PRG_ROM_SIZE};
use oxideav_nsf::cpu::{
    write_cycle_mask, Cpu6502, FLAG_B, FLAG_C, FLAG_I, FLAG_N, FLAG_U, FLAG_V, FLAG_Z,
    INTERRUPT_WRITE_MASK,
};
use oxideav_nsf::header::{ExpansionChips, Nsf2Features, NsfHeader, NsfRegion};
use oxideav_nsf::nsfe::NsfeMetadata;

fn run_one(prog: &[u8], setup: impl FnOnce(&mut Cpu6502, &mut NesBus)) -> (Cpu6502, NesBus) {
    let mut bus = NesBus::new();
    bus.load_program(0x8000, prog);
    let mut cpu = Cpu6502::new();
    cpu.pc = 0x8000;
    setup(&mut cpu, &mut bus);
    cpu.step(&mut bus);
    (cpu, bus)
}

#[test]
fn lda_imm_sets_zn() {
    let (cpu, _) = run_one(&[0xA9, 0x00], |_, _| {});
    assert_eq!(cpu.a, 0);
    assert!(cpu.p & FLAG_Z != 0);
    assert!(cpu.p & FLAG_N == 0);
    let (cpu, _) = run_one(&[0xA9, 0x80], |_, _| {});
    assert_eq!(cpu.a, 0x80);
    assert!(cpu.p & FLAG_N != 0);
}

#[test]
fn sta_zp_writes_ram() {
    let (_cpu, bus) = run_one(&[0x85, 0x10], |c, _| c.a = 0x42);
    assert_eq!(bus.ram[0x10], 0x42);
}

#[test]
fn adc_carry_overflow() {
    let (cpu, _) = run_one(&[0x69, 0x50], |c, _| c.a = 0x50);
    assert_eq!(cpu.a, 0xA0);
    assert!(cpu.p & FLAG_V != 0);
    assert!(cpu.p & FLAG_C == 0);

    let (cpu, _) = run_one(&[0x69, 0x01], |c, _| c.a = 0xFF);
    assert_eq!(cpu.a, 0x00);
    assert!(cpu.p & FLAG_C != 0);
    assert!(cpu.p & FLAG_Z != 0);
}

#[test]
fn sbc_borrow() {
    let (cpu, _) = run_one(&[0xE9, 0x05], |c, _| {
        c.a = 0x10;
        c.p |= FLAG_C;
    });
    assert_eq!(cpu.a, 0x0B);
    assert!(cpu.p & FLAG_C != 0);
}

#[test]
fn jsr_rts_roundtrip() {
    let mut bus = NesBus::new();
    let prog = &[0x20, 0x05, 0x80, 0xEA, 0xEA, 0x60];
    bus.load_program(0x8000, prog);
    let mut cpu = Cpu6502::new();
    cpu.pc = 0x8000;
    cpu.step(&mut bus);
    assert_eq!(cpu.pc, 0x8005);
    cpu.step(&mut bus);
    assert_eq!(cpu.pc, 0x8003);
}

#[test]
fn branch_page_cross() {
    let mut bus = NesBus::new();
    bus.load_program(0x8000, &[0xD0, 0xF6]);
    let mut cpu = Cpu6502::new();
    cpu.pc = 0x8000;
    cpu.p &= !FLAG_Z;
    let cy = cpu.step(&mut bus);
    assert_eq!(cpu.pc, 0x7FF8);
    assert_eq!(cy, 4);
}

#[test]
fn branch_taken_no_page_cross() {
    let mut bus = NesBus::new();
    bus.load_program(0x8000, &[0xD0, 0x01]);
    let mut cpu = Cpu6502::new();
    cpu.pc = 0x8000;
    cpu.p &= !FLAG_Z;
    let cy = cpu.step(&mut bus);
    assert_eq!(cpu.pc, 0x8003);
    assert_eq!(cy, 3);
}

#[test]
fn branch_not_taken_takes_two_cycles() {
    let mut bus = NesBus::new();
    bus.load_program(0x8000, &[0xD0, 0x01]);
    let mut cpu = Cpu6502::new();
    cpu.pc = 0x8000;
    cpu.p |= FLAG_Z;
    let cy = cpu.step(&mut bus);
    assert_eq!(cpu.pc, 0x8002);
    assert_eq!(cy, 2);
}

#[test]
fn lax_loads_a_and_x() {
    let (cpu, _) = run_one(&[0xA7, 0x10], |_, b| b.ram[0x10] = 0x77);
    assert_eq!(cpu.a, 0x77);
    assert_eq!(cpu.x, 0x77);
}

#[test]
fn sax_writes_a_and_x() {
    let (_cpu, bus) = run_one(&[0x87, 0x10], |c, _| {
        c.a = 0xF0;
        c.x = 0x3F;
    });
    assert_eq!(bus.ram[0x10], 0x30);
}

#[test]
fn dcp_decrements_then_compares() {
    let (cpu, bus) = run_one(&[0xC7, 0x20], |c, b| {
        c.a = 0x09;
        b.ram[0x20] = 0x0A;
    });
    assert_eq!(bus.ram[0x20], 0x09);

    assert!(cpu.p & FLAG_Z != 0);
    assert!(cpu.p & FLAG_C != 0);
}

#[test]
fn isb_increments_then_subtracts() {
    let (cpu, bus) = run_one(&[0xE7, 0x20], |c, b| {
        c.a = 0x10;
        c.p |= FLAG_C;
        b.ram[0x20] = 0x04;
    });
    assert_eq!(bus.ram[0x20], 0x05);

    assert_eq!(cpu.a, 0x0B);
}

#[test]
fn slo_shifts_then_ors() {
    let (cpu, bus) = run_one(&[0x07, 0x20], |c, b| {
        c.a = 0x01;
        b.ram[0x20] = 0x40;
    });
    assert_eq!(bus.ram[0x20], 0x80);
    assert_eq!(cpu.a, 0x81);
}

#[test]
fn rla_rotates_then_ands() {
    let (cpu, bus) = run_one(&[0x27, 0x20], |c, b| {
        c.a = 0xFF;
        c.p |= FLAG_C;
        b.ram[0x20] = 0x40;
    });

    assert_eq!(bus.ram[0x20], 0x81);
    assert_eq!(cpu.a, 0x81);
}

#[test]
fn anc_copies_n_to_c() {
    let (cpu, _) = run_one(&[0x0B, 0x80], |c, _| c.a = 0xF0);
    assert_eq!(cpu.a, 0x80);
    assert!(cpu.p & FLAG_C != 0);
    assert!(cpu.p & FLAG_N != 0);
}

#[test]
fn sbx_subtracts_from_a_and_x() {
    let (cpu, _) = run_one(&[0xCB, 0x05], |c, _| {
        c.a = 0xF0;
        c.x = 0x0F;
    });

    assert_eq!(cpu.x, 0xFB);
    assert_eq!(cpu.p & FLAG_C, 0);

    let (cpu, _) = run_one(&[0xCB, 0x05], |c, _| {
        c.a = 0xFF;
        c.x = 0x0F;
    });

    assert_eq!(cpu.x, 0x0A);
    assert!(cpu.p & FLAG_C != 0);
}

#[test]
fn jam_halts_the_cpu() {
    let mut bus = NesBus::new();
    bus.load_program(0x8000, &[0x02]);
    let mut cpu = Cpu6502::new();
    cpu.pc = 0x8000;
    cpu.step(&mut bus);
    assert!(cpu.halted);

    let cy = cpu.step(&mut bus);
    assert_eq!(cy, 1);
}

#[test]
fn duplicate_sbc_eb_matches_e9() {
    let (cpu1, _) = run_one(&[0xE9, 0x05], |c, _| {
        c.a = 0x10;
        c.p |= FLAG_C;
    });
    let (cpu2, _) = run_one(&[0xEB, 0x05], |c, _| {
        c.a = 0x10;
        c.p |= FLAG_C;
    });
    assert_eq!(cpu1.a, cpu2.a);
    assert_eq!(cpu1.p, cpu2.p);
}

#[test]
fn unofficial_nops_advance_pc_correctly() {
    let mut bus = NesBus::new();
    bus.load_program(0x8000, &[0x80, 0xAA, 0xEA]);
    let mut cpu = Cpu6502::new();
    cpu.pc = 0x8000;
    let cy = cpu.step(&mut bus);
    assert_eq!(cpu.pc, 0x8002);
    assert_eq!(cy, 2);
}

fn arm_irq_bus(handler: u16) -> NesBus {
    let mut bus = NesBus::new();
    let mut prog = vec![0xEAu8; PRG_ROM_SIZE];

    prog[0x100] = 0x40;
    let h = NsfHeader {
        version: 2,
        total_songs: 1,
        starting_song: 1,
        load_addr: 0x8000,
        init_addr: 0x8000,
        play_addr: 0x8001,
        song_name: String::new(),
        artist: String::new(),
        copyright: String::new(),
        ntsc_speed_us: 16666,
        pal_speed_us: 19997,
        bankswitch_init: [0u8; 8],
        region: NsfRegion::Ntsc,
        expansion: ExpansionChips(0),
        program: prog,
        track_labels: Vec::new(),
        is_nsfe: false,
        nsf2: Nsf2Features(0x10),
        nsf2_metadata: Vec::new(),
        metadata: NsfeMetadata::default(),
    };
    bus.configure_from_header(&h);
    bus.arm_vector_overlay(0x4FFE, 0x4FFE);
    bus.write(0xFFFE, handler as u8);
    bus.write(0xFFFF, (handler >> 8) as u8);
    bus
}

#[test]
fn cpu_services_irq_when_i_flag_clear_and_line_asserted() {
    let mut bus = arm_irq_bus(0x9100);
    let mut cpu = Cpu6502::new();
    cpu.pc = 0x8000;
    cpu.sp = 0xFD;
    cpu.p = FLAG_U;

    bus.write(0x401B, 1);
    bus.write(0x401C, 0);
    bus.write(0x401D, 1);
    bus.tick_cycles(4);
    assert!(bus.irq_line());
    let cy = cpu.step(&mut bus);
    assert_eq!(cy, 7, "IRQ dispatch should take 7 cycles");
    assert_eq!(cpu.pc, 0x9100, "should have jumped through $FFFE/$FFFF");
    assert!(cpu.p & FLAG_I != 0, "I should be set after IRQ service");

    let pushed = bus.ram[0x0100 + cpu.sp as usize + 1];
    assert_eq!(pushed & FLAG_B, 0);
    assert_eq!(pushed & FLAG_U, FLAG_U);
}

#[test]
fn step_includes_dmc_dma_stall_cycles() {
    let mut bus = NesBus::new();
    bus.write(0x4010, 0x4F);
    bus.write(0x4012, 0x00);
    bus.write(0x4013, 0x00);
    bus.write(0x4015, 0x10);
    let mut cpu = Cpu6502::new();
    bus.ram[0x0200] = 0xEA;
    bus.ram[0x0201] = 0xEA;
    bus.ram[0x0202] = 0xEA;
    cpu.pc = 0x0200;
    cpu.p = FLAG_U | FLAG_I;

    assert_eq!(cpu.step(&mut bus), 2, "cycles 0-1: before the halt");
    assert_eq!(cpu.step(&mut bus), 2, "cycles 2-3: before the halt");
    let cy = cpu.step(&mut bus);
    assert_eq!(
        cy,
        2 + DMC_DMA_LOAD_STALL_CYCLES,
        "NOP (2 cycles) + the cycle-4 3-cycle load-DMA stall"
    );

    bus.ram[0x0203] = 0xEA;
    let cy2 = cpu.step(&mut bus);
    assert_eq!(cy2, 2, "no fetch pending → no stall");
}

#[test]
fn write_cycle_mask_matches_documented_shapes() {
    assert_eq!(write_cycle_mask(0x8D, 4), 0b1000, "STA abs");
    assert_eq!(write_cycle_mask(0x9D, 5), 0b10000, "STA abs,X");
    assert_eq!(write_cycle_mask(0x91, 6), 0b100000, "STA (zp),Y");
    assert_eq!(write_cycle_mask(0x48, 3), 0b100, "PHA");
    assert_eq!(write_cycle_mask(0xEE, 6), 0b110000, "INC abs (RMW)");
    assert_eq!(write_cycle_mask(0x1E, 7), 0b1100000, "ASL abs,X (RMW)");
    assert_eq!(write_cycle_mask(0x03, 8), 0b11000000, "SLO (zp,X) (RMW)");
    assert_eq!(write_cycle_mask(0x00, 7), 0b0011100, "BRK pushes on 2-4");
    assert_eq!(write_cycle_mask(0x20, 6), 0b011000, "JSR pushes on 3-4");
    assert_eq!(write_cycle_mask(0xAD, 4), 0, "LDA abs never writes");
    assert_eq!(write_cycle_mask(0xEA, 2), 0, "NOP never writes");
    assert_eq!(INTERRUPT_WRITE_MASK, 0b0011100, "IRQ/NMI pushes on 2-4");
}

#[test]
fn rmw_4014_write_delays_oam_halt_into_next_instruction() {
    let mut bus = NesBus::new();
    let mut cpu = Cpu6502::new();
    bus.ram[0x0200] = 0xEE;
    bus.ram[0x0201] = 0x14;
    bus.ram[0x0202] = 0x40;
    bus.ram[0x0203] = 0xEA;
    cpu.pc = 0x0200;
    cpu.p = FLAG_U | FLAG_I;
    let cy = cpu.step(&mut bus);
    assert_eq!(cy, 6, "the RMW itself finishes unstalled");

    let cy2 = cpu.step(&mut bus);
    assert_eq!(cy2, 2 + 514, "NOP + the write-delayed 514-cycle OAM DMA");
}

#[test]
fn sta_4014_stall_lands_on_following_instruction() {
    let mut bus = NesBus::new();
    let mut cpu = Cpu6502::new();
    bus.ram[0x0200] = 0x8D;
    bus.ram[0x0201] = 0x14;
    bus.ram[0x0202] = 0x40;
    bus.ram[0x0203] = 0xEA;
    cpu.pc = 0x0200;
    cpu.p = FLAG_U | FLAG_I;
    assert_eq!(cpu.step(&mut bus), 4, "the store itself is unstalled");

    assert_eq!(cpu.step(&mut bus), 2 + 514, "NOP + 514-cycle OAM DMA");
}

#[test]
fn cpu_skips_irq_when_i_flag_set() {
    let mut bus = arm_irq_bus(0x9100);
    let mut cpu = Cpu6502::new();
    cpu.pc = 0x8000;
    cpu.p = FLAG_U | FLAG_I;
    bus.write(0x401B, 1);
    bus.write(0x401D, 1);
    bus.tick_cycles(4);
    assert!(bus.irq_line());
    let _ = cpu.step(&mut bus);

    assert_eq!(cpu.pc, 0x8001);
}

fn arm_nmi_bus(nmi_handler: u16) -> NesBus {
    let mut bus = NesBus::new();
    let prog = vec![0xEAu8; PRG_ROM_SIZE];
    let h = NsfHeader {
        version: 2,
        total_songs: 1,
        starting_song: 1,
        load_addr: 0x8000,
        init_addr: 0x8000,
        play_addr: 0x8001,
        song_name: String::new(),
        artist: String::new(),
        copyright: String::new(),
        ntsc_speed_us: 16666,
        pal_speed_us: 19997,
        bankswitch_init: [0u8; 8],
        region: NsfRegion::Ntsc,
        expansion: ExpansionChips(0),
        program: prog,
        track_labels: Vec::new(),
        is_nsfe: false,
        nsf2: Nsf2Features(0x20),
        nsf2_metadata: Vec::new(),
        metadata: NsfeMetadata::default(),
    };
    bus.configure_from_header(&h);

    bus.arm_vector_overlay(nmi_handler, 0x4FFE);
    bus
}

#[test]
fn cpu_services_nmi_regardless_of_i_flag() {
    let mut bus = arm_nmi_bus(0xA200);
    let mut cpu = Cpu6502::new();
    cpu.pc = 0x8000;
    cpu.p = FLAG_U | FLAG_I;
    cpu.sp = 0xFD;
    bus.request_nmi();
    let cy = cpu.step(&mut bus);
    assert_eq!(cy, 7);
    assert_eq!(cpu.pc, 0xA200);
    assert!(cpu.p & FLAG_I != 0);
}

#[test]
fn nmi_request_drains_once() {
    let mut bus = arm_nmi_bus(0xA200);
    let mut cpu = Cpu6502::new();
    cpu.pc = 0x8000;
    cpu.p = FLAG_U;
    cpu.sp = 0xFD;
    bus.request_nmi();
    let _ = cpu.step(&mut bus);
    assert_eq!(cpu.pc, 0xA200);

    let _ = cpu.step(&mut bus);
    assert_eq!(cpu.pc, 0xA201);
}
