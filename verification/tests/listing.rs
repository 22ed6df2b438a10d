use fc_core::disasm::disassemble_bytes;

fn line(addr: u16, op: u8, b1: u8, b2: u8) -> (String, u16) {
    let (bytes, len) = disassemble_bytes(addr, op, b1, b2);
    (String::from_utf8(bytes).unwrap(), len)
}

#[test]
fn formats_each_addressing_mode() {
    assert_eq!(line(0xC000, 0xA9, 0x10, 0), ("$C000: LDA #$10".to_string(), 2));
    assert_eq!(line(0xC000, 0x4C, 0x34, 0x12), ("$C000: JMP $1234".to_string(), 3));
    assert_eq!(line(0x8000, 0xEA, 0, 0), ("$8000: NOP".to_string(), 1));
    assert_eq!(line(0x8000, 0x0A, 0, 0), ("$8000: ASL A".to_string(), 1));
    assert_eq!(line(0x8000, 0xB1, 0x20, 0), ("$8000: LDA ($20),Y".to_string(), 2));
    assert_eq!(line(0x8000, 0xA1, 0x20, 0), ("$8000: LDA ($20,X)".to_string(), 2));
    assert_eq!(line(0x8000, 0x6C, 0xFC, 0xFF), ("$8000: JMP ($FFFC)".to_string(), 3));
    assert_eq!(line(0x8000, 0xBD, 0x00, 0x02), ("$8000: LDA $0200,X".to_string(), 3));
    assert_eq!(line(0x8000, 0xB6, 0x10, 0), ("$8000: LDX $10,Y".to_string(), 2));
}

#[test]
fn branches_show_their_target() {
    assert_eq!(line(0x8010, 0xD0, 0xFE, 0), ("$8010: BNE $8010".to_string(), 2));
    assert_eq!(line(0xFFFE, 0x10, 0x05, 0), ("$FFFE: BPL $0005".to_string(), 2));
}
