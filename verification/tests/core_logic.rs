use fc_core::cpu::flags::{C, N, V, Z};
use fc_core::cpu::{page_crossed, stack_addr, Cpu};
use fc_core::debug::{BpKind, Debugger};
use fc_core::disasm::{branch_target, decode, operand_word, Mode};
use fc_core::expr::Ctx;
use fc_core::input::Controllers;
use fc_core::mapper::kind::Mapper;
use fc_core::{Button, Mirroring};

#[test]
fn adc_sets_carry_and_signed_overflow() {
    let mut cpu = Cpu::new();
    cpu.a = 0x50;
    cpu.p = 0;
    cpu.adc(0x50);
    assert_eq!(cpu.a, 0xA0);
    assert!(cpu.p & V != 0, "two positives giving a negative overflow");
    assert!(cpu.p & N != 0);
    assert!(cpu.p & C == 0);

    cpu.a = 0xFF;
    cpu.p = 0;
    cpu.adc(0x01);
    assert_eq!(cpu.a, 0x00);
    assert!(cpu.p & C != 0);
    assert!(cpu.p & Z != 0);
    assert!(cpu.p & V == 0);
}

#[test]
fn sbc_borrows_through_carry() {
    let mut cpu = Cpu::new();
    cpu.a = 0x10;
    cpu.p = C;
    cpu.sbc(0x01);
    assert_eq!(cpu.a, 0x0F);
    assert!(cpu.p & C != 0, "no borrow keeps carry");
    cpu.p = 0;
    cpu.sbc(0x0F);
    assert_eq!(cpu.a, 0xFF);
    assert!(cpu.p & C == 0, "borrow clears carry");
}

#[test]
fn shifts_and_rotates_move_the_carry() {
    let mut cpu = Cpu::new();
    cpu.p = 0;
    assert_eq!(cpu.asl_val(0x81), 0x02);
    assert!(cpu.p & C != 0);
    assert_eq!(cpu.rol_val(0x80), 0x01);
    assert!(cpu.p & C != 0);
    assert_eq!(cpu.ror_val(0x01), 0x80);
    assert!(cpu.p & C != 0);
    assert_eq!(cpu.lsr_val(0x02), 0x01);
    assert!(cpu.p & C == 0);
}

#[test]
fn address_helpers() {
    assert!(page_crossed(0x80FF, 0x8100));
    assert!(!page_crossed(0x8000, 0x80FF));
    assert_eq!(stack_addr(0xFD), 0x01FD);
    assert_eq!(operand_word(0x34, 0x12), 0x1234);
    assert_eq!(branch_target(0x8000, 0xFE), 0x8000);
    assert_eq!(branch_target(0x8000, 0x10), 0x8012);
}

#[test]
fn disassembler_decodes_known_opcodes() {
    assert_eq!(decode(0xA9), ("LDA", Mode::Imm));
    assert_eq!(decode(0x4C), ("JMP", Mode::Abs));
    assert_eq!(decode(0x6C), ("JMP", Mode::Ind));
    assert_eq!(decode(0xEA).1, Mode::Imp);
    assert_eq!(Mode::Abs.len(), 3);
    assert_eq!(Mode::Imm.len(), 2);
}

#[test]
fn controller_serial_readout_and_strobe() {
    let mut pads = Controllers::new();
    pads.set_button(0, Button::A, true);
    pads.set_button(0, Button::Start, true);
    pads.write_strobe(1);
    pads.write_strobe(0);
    let bits: Vec<u8> = (0..8).map(|_| pads.read(0) & 1).collect();
    assert_eq!(bits, vec![1, 0, 0, 1, 0, 0, 0, 0]);
    assert_eq!(pads.read(0) & 1, 1, "after eight reads the port reports 1");
    assert_eq!(Button::from_name("start"), Some(Button::Start));
    assert_eq!(Button::from_name("turbo"), None);
}

#[test]
fn debugger_breakpoints_and_conditions() {
    let mut dbg = Debugger::default();
    let a = dbg.add(BpKind::Exec, 0x8000);
    let b = dbg.add_cond(BpKind::Exec, 0x9000, Some("x == 5".to_string()));
    assert_eq!((a, b), (1, 2));
    let mut ctx = Ctx { a: 0, x: 0, y: 0, p: 0, sp: 0xFD, pc: 0x9000, cycles: 0, scanline: 0, dot: 0, value: -1, addr: -1 };
    assert!(dbg.exec_bp_at(0x9000));
    assert!(!dbg.exec_break(0x9000, &ctx), "false condition must not halt");
    ctx.x = 5;
    assert!(dbg.exec_break(0x9000, &ctx));
    assert!(dbg.exec_break(0x8000, &ctx));
    assert_eq!(dbg.addrs(BpKind::Exec), vec![0x8000, 0x9000]);
    dbg.remove(a);
    assert_eq!(dbg.addrs(BpKind::Exec), vec![0x9000]);
    dbg.toggle_exec(0x9000);
    assert!(!dbg.has_any());
    dbg.toggle_exec(0xA000);
    assert_eq!(dbg.addrs(BpKind::Exec), vec![0xA000]);
    assert!(dbg.addrs(BpKind::Read).is_empty());
}

#[test]
fn mapper_factory_builds_supported_boards() {
    assert!(Mapper::new(0, 2, 1, Mirroring::Vertical, 0).is_ok());
    assert!(Mapper::new(185, 2, 1, Mirroring::Vertical, 0).is_ok());
    assert_eq!(Mapper::new(4000, 2, 1, Mirroring::Vertical, 0).err(), Some(4000));
    let m = Mapper::new(2, 8, 0, Mirroring::Horizontal, 0).unwrap();
    assert_eq!(m.prg_index(0xC000), 7 * 0x4000);
    assert_eq!(m.mirroring(), Mirroring::Horizontal);
}

#[test]
fn toggling_an_exec_breakpoint_twice_restores_the_list() {
    let mut dbg = Debugger::default();
    dbg.add(BpKind::Read, 0x2002);
    dbg.add(BpKind::Exec, 0x8000);
    dbg.toggle_exec(0xC000);
    assert!(dbg.exec_bp_at(0xC000));
    dbg.toggle_exec(0xC000);
    assert!(!dbg.exec_bp_at(0xC000));
    assert_eq!(dbg.addrs(BpKind::Exec), vec![0x8000]);
    assert_eq!(dbg.addrs(BpKind::Read), vec![0x2002]);
}

#[test]
fn strobed_reads_return_open_bus_plus_buttons_then_ones() {
    let mut pads = Controllers::new();
    pads.set_state(1, 0b1010_0110);
    pads.write_strobe(1);
    pads.write_strobe(0);
    let reads: Vec<u8> = (0..10).map(|_| pads.read(1)).collect();
    assert_eq!(reads, vec![0x40, 0x41, 0x41, 0x40, 0x40, 0x41, 0x40, 0x41, 0x41, 0x41]);
    assert_eq!(pads.read(2), 0x40);
}
