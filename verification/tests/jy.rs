use fc_core::mapper::jy::Mapper91;
use fc_core::Mirroring;

#[test]
fn mapper91_banks_outer_latch_and_hblank_irq() {
    let mut m = Mapper91::new(16, 128, 1, Mirroring::Vertical);
    assert_eq!(m.prg_index(0xC004), 14 * 0x2000 + 4);
    assert_eq!(m.prg_index(0xE004), 15 * 0x2000 + 4);
    assert!(m.write_low_register(0x7000, 3));
    assert_eq!(m.prg_index(0x8004), 3 * 0x2000 + 4);
    m.write_register(0x8006, 0);
    assert_eq!(m.prg_index(0x8004), 19 * 0x2000 + 4);
    assert_eq!(m.prg_index(0xC004), 30 * 0x2000 + 4);

    assert!(m.write_low_register(0x6001, 5));
    assert_eq!(m.chr_index(0x0810), 5 * 0x800 + 0x10);
    m.write_register(0x8001, 0);
    assert_eq!(m.chr_index(0x0810), 261 * 0x800 + 0x10);

    assert_eq!(m.mirroring(), Mirroring::Vertical);
    assert!(m.write_low_register(0x6004, 1));
    assert_eq!(m.mirroring(), Mirroring::Horizontal);

    assert!(m.write_low_register(0x7003, 0));
    for _ in 0..7 {
        m.hblank_clock(0, 260);
    }
    assert!(!m.irq());
    m.hblank_clock(0, 260);
    assert!(m.irq());
    m.clear_irq();
    assert!(!m.irq());
    assert!(m.write_low_register(0x7002, 0));
    assert_eq!(m.irq_count, 0);
    assert!(!m.write_low_register(0x5000, 0));

    let h = Mapper91::new(16, 128, 0, Mirroring::Horizontal);
    assert_eq!(h.mirroring(), Mirroring::Horizontal);
}

use fc_core::mapper::jy::{JyAsic, JyAsicVariant};

#[test]
fn jy_asic_prg_modes() {
    let mut m = JyAsic::new(16, 32, JyAsicVariant::Mapper90);
    assert_eq!(m.prg_index(0x8004), 28 * 0x2000 + 4);
    assert_eq!(m.prg_index(0xE004), 31 * 0x2000 + 4);
    m.write_register(0xD000, 0x02);
    m.write_register(0x8000, 5);
    assert_eq!(m.prg_index(0x8004), 5 * 0x2000 + 4);
    assert_eq!(m.prg_index(0xE004), 31 * 0x2000 + 4);
    m.write_register(0xD000, 0x03);
    assert_eq!(m.prg_index(0x8004), 16 * 0x2000 + 4);
    m.write_register(0xD000, 0x01);
    m.write_register(0x8001, 3);
    assert_eq!(m.prg_index(0x8004), 6 * 0x2000 + 4);
    assert_eq!(m.prg_index(0xA004), 7 * 0x2000 + 4);
    assert_eq!(m.prg_index(0xC004), 30 * 0x2000 + 4);
    m.write_register(0xD000, 0x06);
    m.write_register(0x8003, 9);
    assert_eq!(m.prg_index(0xE004), 9 * 0x2000 + 4);
    assert_eq!(m.low_prg_index(0x6004), None);
    m.write_register(0xD000, 0x86);
    assert_eq!(m.low_prg_index(0x6004), Some(9 * 0x2000 + 4));

    let mut big = JyAsic::new(64, 32, JyAsicVariant::Mapper90);
    big.write_register(0xD000, 0x02);
    big.write_register(0x8000, 5);
    big.write_register(0xD003, 0x02);
    assert_eq!(big.prg_index(0x8004), 69 * 0x2000 + 4);
}

#[test]
fn jy_asic_chr_modes_and_mirroring() {
    let mut m = JyAsic::new(64, 64, JyAsicVariant::Mapper90);
    m.write_register(0xD000, 0x18);
    m.write_register(0x9002, 0x21);
    m.write_register(0xA002, 0x01);
    assert_eq!(m.chr_index(0x0810), 0x21 * 0x400 + 0x10);
    m.write_register(0xD003, 0x20);
    assert_eq!(m.chr_index(0x0810), 0x121 * 0x400 + 0x10);
    m.write_register(0xD001, 0x01);
    assert_eq!(m.mirroring(), Mirroring::Horizontal);
    let mut ciram = [0u8; 0x1000];
    assert!(!m.nametable_write(0x2005, 1, &mut ciram));
    assert_eq!(m.peek_nametable(0x2005, &ciram), None);
}

#[test]
fn jy_asic_irq_up_and_down() {
    let mut m = JyAsic::new(16, 32, JyAsicVariant::Mapper90);
    m.write_register(0xC001, 0x40);
    m.write_register(0xC006, 0);
    m.write_register(0xC004, 0xFE);
    m.write_register(0xC005, 0xFF);
    m.write_register(0xC003, 0);
    m.cpu_clock();
    assert!(!m.irq());
    m.cpu_clock();
    assert!(m.irq());
    assert_eq!(m.irq_counter, 0);
    m.clear_irq();
    m.write_register(0xC001, 0x84);
    m.write_register(0xC004, 0x10);
    m.write_register(0xC005, 0);
    m.cpu_clock();
    assert!(m.irq());
    assert_eq!(m.irq_prescaler, 0x17);
    assert_eq!(m.irq_counter, 0xFF);
    m.write_register(0xC002, 0);
    assert!(!m.irq());
    assert!(!m.irq_enabled);
}

#[test]
fn jy_asic_alu_and_dip_switches() {
    let mut m = JyAsic::new(16, 32, JyAsicVariant::Mapper90);
    m.write_expansion(0x5000, 7);
    m.write_expansion(0x5001, 9);
    assert_eq!(m.peek_expansion_with_open_bus(0x5800, 0xAA), Some(63));
    assert_eq!(m.peek_expansion_with_open_bus(0x5801, 0xAA), Some(0));
    m.write_expansion(0x5002, 200);
    m.write_expansion(0x5002, 100);
    assert_eq!(m.peek_expansion_with_open_bus(0x5802, 0xAA), Some(44));
    m.write_expansion(0x5003, 5);
    assert_eq!(m.read_expansion_with_open_bus(0x5803, 0xAA), Some(5));
    assert_eq!(m.peek_expansion_with_open_bus(0x5802, 0xAA), Some(0));
    assert_eq!(m.peek_expansion_with_open_bus(0x5000, 0xAA), Some(0x2A));
    m.reset(true);
    assert_eq!(m.peek_expansion_with_open_bus(0x5000, 0xAA), Some(0x6A));
    assert_eq!(m.peek_expansion_with_open_bus(0x5100, 0x33), Some(0x33));
    assert_eq!(m.peek_expansion_with_open_bus(0x4000, 0x33), None);
}

#[test]
fn jy_asic_extended_nametables() {
    let mut m = JyAsic::new(64, 64, JyAsicVariant::Mapper211);
    let mut ciram = [0u8; 0x1000];
    ciram[5] = 0x11;
    assert_eq!(m.nametable_chr_index(0x2000), None);
    assert_eq!(m.peek_nametable(0x2005, &ciram), Some(0x11));
    m.write_register(0xB001, 0x03);
    assert!(m.nametable_write(0x2405, 0x77, &mut ciram));
    assert_eq!(ciram[0x405], 0x77);
    assert_eq!(m.peek_nametable(0x2405, &ciram), Some(0x77));
    m.write_register(0xD002, 0x80);
    assert_eq!(m.nametable_chr_index(0x2010), Some(0x10));
    assert_eq!(m.nametable_chr_index(0x2410), Some(3 * 0x400 + 0x10));
    assert_eq!(m.mirroring(), Mirroring::Vertical);
    assert!(m.has_nametable_chr_mapping());
}

#[test]
fn jy_asic_chr_latches_on_209() {
    let mut m = JyAsic::new(64, 64, JyAsicVariant::Mapper209);
    m.write_register(0xD000, 0x08);
    m.write_register(0x9000, 3);
    m.write_register(0x9002, 5);
    m.write_register(0x9004, 7);
    m.write_register(0x9006, 9);
    assert_eq!(m.chr_index(0x0010), 12 * 0x400 + 0x10);
    m.notify_a12(0x0FE8, 0);
    assert_eq!(m.chr_index(0x0010), 20 * 0x400 + 0x10);
    m.notify_a12(0x1FD8, 0);
    assert_eq!(m.chr_index(0x1010), 28 * 0x400 + 0x10);
    m.notify_a12(0x1FE8, 0);
    assert_eq!(m.chr_index(0x1010), 36 * 0x400 + 0x10);
    assert!(m.watches_ppu_bus());
}
