use fc_core::cpu::step::{decode, Addr, Alu, FlatBus, Imp, Instr, Rmw};
use fc_core::cpu::{Cpu, InterruptKind};

fn boot(program: &[u8]) -> (Cpu, FlatBus) {
    let mut bus = FlatBus::new();
    for (i, b) in program.iter().enumerate() {
        bus.mem[0x8000 + i] = *b;
    }
    bus.mem[0xFFFC] = 0x00;
    bus.mem[0xFFFD] = 0x80;
    let mut cpu = Cpu::new();
    cpu.power_on(&bus);
    (cpu, bus)
}

#[test]
fn lda_immediate_takes_two_cycles() {
    let (mut cpu, mut bus) = boot(&[0xA9, 0x42]);
    cpu.step(&mut bus);
    assert_eq!(cpu.a, 0x42);
    assert_eq!(cpu.pc, 0x8002);
    assert_eq!(cpu.cycles, 2);
    assert_eq!(cpu.p & 0x82, 0);
}

#[test]
fn jmp_indirect_wraps_within_the_page() {
    let (mut cpu, mut bus) = boot(&[0x6C, 0xFF, 0x10]);
    bus.mem[0x10FF] = 0x34;
    bus.mem[0x1000] = 0x12;
    bus.mem[0x1100] = 0x56;
    cpu.step(&mut bus);
    assert_eq!(cpu.pc, 0x1234);
    assert_eq!(cpu.cycles, 5);
}

#[test]
fn indexed_read_pays_a_cycle_only_on_page_cross() {
    let (mut cpu, mut bus) = boot(&[0xA2, 0x01, 0xBD, 0xFF, 0x10, 0xBD, 0x00, 0x10]);
    bus.mem[0x1100] = 0x77;
    bus.mem[0x1001] = 0x66;
    cpu.step(&mut bus);
    assert_eq!(cpu.cycles, 2);
    cpu.step(&mut bus);
    assert_eq!(cpu.a, 0x77);
    assert_eq!(cpu.cycles, 7);
    cpu.step(&mut bus);
    assert_eq!(cpu.a, 0x66);
    assert_eq!(cpu.cycles, 11);
}

#[test]
fn indexed_store_always_takes_five_cycles() {
    let (mut cpu, mut bus) = boot(&[0xA9, 0x5A, 0x9D, 0x00, 0x02]);
    cpu.step(&mut bus);
    cpu.step(&mut bus);
    assert_eq!(bus.mem[0x0200], 0x5A);
    assert_eq!(cpu.cycles, 2 + 5);
}

#[test]
fn branch_cycles_depend_on_taken_and_page() {
    // not taken: 2 cycles
    let (mut cpu, mut bus) = boot(&[0xD0, 0x10]);
    cpu.p |= 0x02;
    cpu.step(&mut bus);
    assert_eq!((cpu.pc, cpu.cycles), (0x8002, 2));
    // taken, same page: 3 cycles
    let (mut cpu, mut bus) = boot(&[0xD0, 0x10]);
    cpu.step(&mut bus);
    assert_eq!((cpu.pc, cpu.cycles), (0x8012, 3));
    // taken backwards across a page: 4 cycles
    let (mut cpu, mut bus) = boot(&[0xD0, 0xF0]);
    cpu.step(&mut bus);
    assert_eq!((cpu.pc, cpu.cycles), (0x7FF2, 4));
}

#[test]
fn jsr_then_rts_returns_after_the_call() {
    let (mut cpu, mut bus) = boot(&[0x20, 0x00, 0x90]);
    bus.mem[0x9000] = 0x60;
    let sp = cpu.sp;
    cpu.step(&mut bus);
    assert_eq!(cpu.pc, 0x9000);
    assert_eq!(cpu.cycles, 6);
    assert_eq!(bus.mem[0x01FD], 0x80);
    assert_eq!(bus.mem[0x01FC], 0x02);
    cpu.step(&mut bus);
    assert_eq!(cpu.pc, 0x8003);
    assert_eq!(cpu.sp, sp);
    assert_eq!(cpu.cycles, 12);
}

#[test]
fn adc_sets_overflow_and_negative() {
    let (mut cpu, mut bus) = boot(&[0xA9, 0x50, 0x69, 0x50]);
    cpu.step(&mut bus);
    cpu.step(&mut bus);
    assert_eq!(cpu.a, 0xA0);
    assert_eq!(cpu.p & 0x40, 0x40);
    assert_eq!(cpu.p & 0x80, 0x80);
    assert_eq!(cpu.p & 0x01, 0);
}

#[test]
fn inc_zero_page_is_a_five_cycle_read_modify_write() {
    let (mut cpu, mut bus) = boot(&[0xE6, 0x10]);
    bus.mem[0x10] = 0xFF;
    cpu.step(&mut bus);
    assert_eq!(bus.mem[0x10], 0x00);
    assert_eq!(cpu.p & 0x02, 0x02);
    assert_eq!(cpu.cycles, 5);
}

#[test]
fn brk_pushes_return_and_status_and_vectors() {
    let (mut cpu, mut bus) = boot(&[0x00, 0xEA]);
    bus.mem[0xFFFE] = 0x00;
    bus.mem[0xFFFF] = 0x90;
    cpu.step(&mut bus);
    assert_eq!(cpu.pc, 0x9000);
    assert_eq!(cpu.cycles, 7);
    assert_eq!(bus.mem[0x01FD], 0x80);
    assert_eq!(bus.mem[0x01FC], 0x02);
    assert_eq!(bus.mem[0x01FB] & 0x30, 0x30);
    assert_eq!(cpu.p & 0x04, 0x04);
}

#[test]
fn irq_is_taken_after_the_instruction_when_i_is_clear() {
    let (mut cpu, mut bus) = boot(&[0x58, 0xEA, 0xEA]);
    bus.mem[0xFFFE] = 0x00;
    bus.mem[0xFFFF] = 0xA0;
    bus.irq = true;
    cpu.step(&mut bus); // CLI
    cpu.step(&mut bus); // NOP; the line was seen with I clear
    assert_eq!(cpu.pending_interrupt, Some(InterruptKind::Irq));
    let before = cpu.cycles;
    cpu.step(&mut bus);
    assert_eq!(cpu.pc, 0xA000);
    assert_eq!(cpu.cycles - before, 7);
    assert_eq!(bus.mem[0x01FB] & 0x10, 0, "B clear in the pushed status");
}

#[test]
fn nmi_edge_is_serviced_through_the_nmi_vector() {
    let (mut cpu, mut bus) = boot(&[0xEA, 0xEA]);
    bus.mem[0xFFFA] = 0x00;
    bus.mem[0xFFFB] = 0xB0;
    bus.nmi = true;
    cpu.step(&mut bus);
    assert!(!bus.nmi);
    assert_eq!(cpu.pending_interrupt, Some(InterruptKind::Nmi));
    cpu.step(&mut bus);
    assert_eq!(cpu.pc, 0xB000);
    assert_eq!(cpu.nmi_count, 1);
}

#[test]
fn decode_covers_official_and_unofficial_opcodes() {
    assert_eq!(decode(0xA9), Instr::Imm(Alu::Lda));
    assert_eq!(decode(0xEB), Instr::Imm(Alu::Sbc));
    assert_eq!(decode(0xB1), Instr::Read(Addr::Izy(true), Alu::Lda));
    assert_eq!(decode(0x91), Instr::Store(Addr::Izy(false), fc_core::cpu::step::Src::A));
    assert_eq!(decode(0xC7), Instr::Modify(Addr::Zp, Rmw::Dcp));
    assert_eq!(decode(0x0A), Instr::Acc(Rmw::Asl));
    assert_eq!(decode(0x02), Instr::Implied(Imp::Nop));
}

#[test]
fn lax_and_dcp_unofficial_opcodes() {
    let (mut cpu, mut bus) = boot(&[0xA7, 0x10, 0xC7, 0x11]);
    bus.mem[0x10] = 0x33;
    bus.mem[0x11] = 0x34;
    cpu.step(&mut bus);
    assert_eq!((cpu.a, cpu.x), (0x33, 0x33));
    cpu.step(&mut bus);
    assert_eq!(bus.mem[0x11], 0x33);
    assert_eq!(cpu.p & 0x03, 0x03, "A == M after the decrement: C and Z set");
}

#[test]
fn oam_dma_holds_the_cpu_and_fills_sprite_memory() {
    // LDA #$02; STA $4014; NOP
    let (mut cpu, mut bus) = boot(&[0xA9, 0x02, 0x8D, 0x14, 0x40, 0xEA]);
    for i in 0..256 {
        bus.mem[0x200 + i] = (i as u8) ^ 0x5A;
    }
    cpu.step(&mut bus);
    cpu.step(&mut bus);
    assert_eq!(cpu.cycles, 6);
    assert!(bus.dma.oam_req, "the write only requests the transfer");
    assert_eq!(bus.mem[0x4014], 0, "$4014 is a register, not memory");
    cpu.step(&mut bus);
    assert_eq!(cpu.cycles - 6, 513 + 2, "halt on a put cycle: 513 stolen cycles");
    assert!(!bus.dma.halt_pending());
    for i in 0..256 {
        assert_eq!(bus.oam[i], (i as u8) ^ 0x5A);
    }
    assert_eq!(bus.oam_addr, 0);
}

#[test]
fn oam_dma_starting_on_a_get_cycle_takes_514() {
    // LDA $10; LDA #$03; STA $4014; NOP -> 9 cycles before the stall
    let (mut cpu, mut bus) = boot(&[0xA5, 0x10, 0xA9, 0x03, 0x8D, 0x14, 0x40, 0xEA]);
    bus.mem[0x0300] = 0x11;
    cpu.step(&mut bus);
    cpu.step(&mut bus);
    cpu.step(&mut bus);
    assert_eq!(cpu.cycles, 9);
    assert!(bus.dma.get_cycle);
    cpu.step(&mut bus);
    assert_eq!(cpu.cycles - 9, 514 + 2);
    assert_eq!(bus.oam[0], 0x11);
}
