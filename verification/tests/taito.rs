use fc_core::mapper::taito::{TaitoTc0190, TaitoX1005, TaitoX1017};
use fc_core::Mirroring;

#[test]
fn mapper207_uses_x1005_banks_with_chr_controlled_nametables() {
    let mut mapper = TaitoX1005::new_207(8);
    let mut ciram = [0u8; 0x1000];
    ciram[0x004] = 0x11;
    ciram[0x404] = 0x22;

    assert_eq!(mapper.mirroring(), Mirroring::FourScreen);
    assert_eq!(mapper.peek_nametable(0x2004, &ciram), Some(0x11));

    assert!(mapper.write_low_register(0x7EF0, 0x85));
    assert_eq!(mapper.chr_index(0x0004), 0x04 * 0x0400 + 4);
    assert_eq!(mapper.chr_index(0x0404), 0x05 * 0x0400 + 4);
    assert_eq!(mapper.peek_nametable(0x2004, &ciram), Some(0x22));
    assert_eq!(mapper.peek_nametable(0x2404, &ciram), Some(0x22));
    assert_eq!(mapper.peek_nametable(0x2804, &ciram), Some(0x11));

    assert!(mapper.write_low_register(0x7EF1, 0x06));
    assert_eq!(mapper.peek_nametable(0x2804, &ciram), Some(0x11));
    assert!(mapper.write_low_register(0x7EF1, 0x86));
    assert_eq!(mapper.peek_nametable(0x2804, &ciram), Some(0x22));
    assert_eq!(mapper.peek_nametable(0x2C04, &ciram), Some(0x22));

    assert!(mapper.write_low_register(0x7EF6, 1));
    assert_eq!(mapper.mirroring(), Mirroring::FourScreen);
}

#[test]
fn mapper80_gates_wram_and_controls_mirroring() {
    let mut mapper = TaitoX1005::new(8);
    let mut ciram = [0u8; 0x1000];
    assert_eq!(mapper.peek_nametable(0x2004, &ciram), None);
    assert!(!mapper.nametable_write(0x2004, 1, &mut ciram));
    assert!(mapper.write_low_register(0x7EF6, 1));
    assert_eq!(mapper.mirroring(), Mirroring::Horizontal);
    assert!(mapper.write_low_register(0x7F10, 0x55));
    assert_eq!(mapper.peek_low_register(0x7F10), Some(0xFF));
    assert!(mapper.write_low_register(0x7EF8, 0xA3));
    assert!(mapper.write_low_register(0x7F10, 0x55));
    assert_eq!(mapper.peek_low_register(0x7F10), Some(0x55));
    assert!(!mapper.write_low_register(0x7EF7, 0));
    assert!(mapper.write_low_register(0x7EFD, 5));
    assert_eq!(mapper.prg_index(0xA004), 5 * 0x2000 + 4);
    assert_eq!(mapper.prg_index(0xE004), 15 * 0x2000 + 4);
}

#[test]
fn mapper33_decodes_prg_chr_and_mirroring() {
    let mut mapper = TaitoTc0190::new(8, Mirroring::Vertical);
    assert_eq!(mapper.prg_index(0xC004), 14 * 0x2000 + 4);
    mapper.write_register(0x8000, 0x45);
    assert_eq!(mapper.prg_index(0x8004), 5 * 0x2000 + 4);
    assert_eq!(mapper.mirroring(), Mirroring::Horizontal);
    mapper.write_register(0x8003, 3);
    assert_eq!(mapper.chr_index(0x0804), 6 * 0x0400 + 4);
    assert_eq!(mapper.chr_index(0x0C04), 7 * 0x0400 + 4);
    mapper.write_register(0xA002, 9);
    assert_eq!(mapper.chr_index(0x1804), 9 * 0x0400 + 4);
}

#[test]
fn mapper82_swaps_chr_halves_on_control_bit1() {
    let mut mapper = TaitoX1017::new(8);
    assert!(mapper.write_low_register(0x7EF0, 0x05));
    assert!(mapper.write_low_register(0x7EF2, 0x09));
    assert_eq!(mapper.chr_index(0x0404), 5 * 0x0400 + 4);
    assert_eq!(mapper.chr_index(0x1004), 9 * 0x0400 + 4);
    assert!(mapper.write_low_register(0x7EF6, 0x03));
    assert_eq!(mapper.chr_index(0x0004), 9 * 0x0400 + 4);
    assert_eq!(mapper.mirroring(), Mirroring::Horizontal);
    assert!(mapper.write_low_register(0x7EFA, 0x0C));
    assert_eq!(mapper.prg_index(0x8004), 3 * 0x2000 + 4);
    assert!(!mapper.write_low_register(0x7EFD, 0));
}
