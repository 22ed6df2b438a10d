use fc_core::mapper::irq_boards::{
    Mapper117, Mapper18, Mapper40, Mapper42, Mapper50, Mapper65, Mapper67, Mapper73,
};
use fc_core::Mirroring;

#[test]
fn mapper18_nibble_registers_and_narrow_counter() {
    let mut m = Mapper18::new(64, 16);
    m.write_register(0x8002, 0x03);
    m.write_register(0x8003, 0x01);
    assert_eq!(m.prg_index(0xA004), 19 * 0x2000 + 4);
    m.write_register(0x9000, 0x07);
    assert_eq!(m.prg_index(0xC004), 7 * 0x2000 + 4);
    assert_eq!(m.prg_index(0xE004), 127 * 0x2000 + 4);
    m.write_register(0xA002, 0x0A);
    m.write_register(0xA003, 0x01);
    assert_eq!(m.chr_index(0x0410), 26 * 0x400 + 0x10);
    m.write_register(0xD003, 0x02);
    assert_eq!(m.chr_index(0x1C10), 32 * 0x400 + 0x10);
    m.write_register(0xF002, 0x02);
    assert_eq!(m.mirroring(), Mirroring::SingleScreenLow);
    m.write_register(0xF002, 0x01);
    assert_eq!(m.mirroring(), Mirroring::Vertical);

    m.write_register(0xE000, 0x03);
    m.write_register(0xE001, 0x00);
    m.write_register(0xF000, 0x00);
    m.write_register(0xF001, 0x05);
    m.cpu_clock();
    m.cpu_clock();
    assert!(!m.irq());
    m.cpu_clock();
    assert!(m.irq());
    m.clear_irq();
    assert!(!m.irq());
    m.cpu_clock();
    assert!(!m.irq());
    assert_eq!(m.irq_counter, 0xFF);
}

#[test]
fn mapper40_counts_4096_cycles() {
    let mut m = Mapper40::new(Mirroring::Vertical);
    assert_eq!(m.prg_index(0x8004), 4 * 0x2000 + 4);
    assert_eq!(m.prg_index(0xA004), 5 * 0x2000 + 4);
    assert_eq!(m.prg_index(0xE004), 7 * 0x2000 + 4);
    assert_eq!(m.low_prg_index(0x6004), Some(6 * 0x2000 + 4));
    m.write_register(0xE000, 3);
    assert_eq!(m.prg_index(0xC004), 3 * 0x2000 + 4);
    m.write_register(0xA000, 0);
    for _ in 0..4095 {
        m.cpu_clock();
    }
    assert!(!m.irq());
    m.cpu_clock();
    assert!(m.irq());
    m.write_register(0x8000, 0);
    assert!(!m.irq());
}

#[test]
fn mapper42_counter_holds_irq_from_6000() {
    let mut m = Mapper42::new(8, Mirroring::Vertical);
    assert_eq!(m.prg_index(0x8004), 12 * 0x2000 + 4);
    assert_eq!(m.prg_index(0xE004), 15 * 0x2000 + 4);
    m.write_register(0x8000, 0x13);
    assert_eq!(m.chr_index(0x0010), 3 * 0x2000 + 0x10);
    m.write_register(0xE000, 0x15);
    assert_eq!(m.low_prg_index(0x6004), Some(5 * 0x2000 + 4));
    m.write_register(0xE001, 0x08);
    assert_eq!(m.mirroring(), Mirroring::Horizontal);
    m.write_register(0xE002, 2);
    for _ in 0..0x5FFF {
        m.cpu_clock();
    }
    assert!(!m.irq());
    m.cpu_clock();
    assert!(m.irq());
    m.write_register(0xE002, 0);
    assert!(!m.irq());
    assert_eq!(m.irq_counter, 0);
}

#[test]
fn mapper50_scrambled_bank_and_one_shot_irq() {
    let mut m = Mapper50::new(Mirroring::Vertical);
    assert_eq!(m.prg_index(0x8004), 8 * 0x2000 + 4);
    assert_eq!(m.prg_index(0xA004), 9 * 0x2000 + 4);
    assert_eq!(m.prg_index(0xE004), 11 * 0x2000 + 4);
    assert_eq!(m.low_prg_index(0x6004), Some(15 * 0x2000 + 4));
    m.write_expansion(0x4020, 0x0F);
    assert_eq!(m.prg_index(0xC004), 15 * 0x2000 + 4);
    m.write_expansion(0x4020, 0x02);
    assert_eq!(m.prg_index(0xC004), 0x2000 + 4);
    m.write_expansion(0x4120, 1);
    for _ in 0..0xFFF {
        m.cpu_clock();
    }
    assert!(!m.irq());
    m.cpu_clock();
    assert!(m.irq());
    assert!(!m.irq_enabled);
    m.write_expansion(0x4120, 0);
    assert!(!m.irq());
}

#[test]
fn mapper65_reload_and_down_count() {
    let mut m = Mapper65::new(8, 16);
    assert_eq!(m.prg_index(0x8004), 4);
    assert_eq!(m.prg_index(0xA004), 0x2000 + 4);
    assert_eq!(m.prg_index(0xC004), 14 * 0x2000 + 4);
    assert_eq!(m.prg_index(0xE004), 15 * 0x2000 + 4);
    m.write_register(0x8000, 5);
    assert_eq!(m.prg_index(0x8004), 5 * 0x2000 + 4);
    m.write_register(0xB003, 0x21);
    assert_eq!(m.chr_index(0x0C10), 0x21 * 0x400 + 0x10);
    m.write_register(0x9001, 0x80);
    assert_eq!(m.mirroring(), Mirroring::Horizontal);
    m.write_register(0x9005, 0);
    m.write_register(0x9006, 2);
    m.write_register(0x9004, 0);
    m.write_register(0x9003, 0x80);
    m.cpu_clock();
    assert!(!m.irq());
    m.cpu_clock();
    assert!(m.irq());
    assert!(!m.irq_enabled);
}

#[test]
fn mapper67_byte_pair_counter_fires_on_wrap() {
    let mut m = Mapper67::new(8, 16, Mirroring::Vertical);
    m.write_register(0xF800, 3);
    assert_eq!(m.prg_index(0x8004), 3 * 0x4000 + 4);
    assert_eq!(m.prg_index(0xC004), 7 * 0x4000 + 4);
    m.write_register(0x8800, 5);
    m.write_register(0xB800, 9);
    assert_eq!(m.chr_index(0x0010), 5 * 0x800 + 0x10);
    assert_eq!(m.chr_index(0x1810), 9 * 0x800 + 0x10);
    m.write_register(0xE800, 1);
    assert_eq!(m.mirroring(), Mirroring::Horizontal);
    m.write_register(0xC000, 0x00);
    m.write_register(0xC800, 0x02);
    assert_eq!(m.irq_counter, 2);
    m.write_register(0xD800, 0x10);
    m.cpu_clock();
    m.cpu_clock();
    assert!(!m.irq());
    m.cpu_clock();
    assert!(m.irq());
    assert!(!m.irq_enabled);
}

#[test]
fn mapper73_vrc3_full_and_small_counters() {
    let mut m = Mapper73::new(8, Mirroring::Vertical);
    m.write_register(0xF000, 0x0B);
    assert_eq!(m.prg_index(0x8004), 3 * 0x4000 + 4);
    assert_eq!(m.prg_index(0xC004), 7 * 0x4000 + 4);
    m.write_register(0x8000, 0x0E);
    m.write_register(0x9000, 0x0F);
    m.write_register(0xA000, 0x0F);
    m.write_register(0xB000, 0x0F);
    assert_eq!(m.irq_reload, 0xFFFE);
    m.write_register(0xC000, 0x02);
    m.cpu_clock();
    assert!(!m.irq());
    m.cpu_clock();
    assert!(m.irq());
    assert_eq!(m.irq_counter, 0xFFFE);
    m.write_register(0xD000, 0);
    assert!(!m.irq());
    m.cpu_clock();
    assert_eq!(m.irq_counter, 0xFFFE);

    m.write_register(0xC000, 0x07);
    m.cpu_clock();
    assert_eq!(m.irq_counter, 0xFFFF);
    m.cpu_clock();
    assert!(m.irq());
    assert_eq!(m.irq_counter, 0xFFFE);
    m.write_register(0xD000, 0);
    assert!(!m.irq());
    assert!(m.irq_enabled);
}

#[test]
fn mapper117_a12_counter_needs_low_time() {
    let mut m = Mapper117::new(8, 16, Mirroring::Vertical);
    assert_eq!(m.prg_index(0x8004), 12 * 0x2000 + 4);
    m.write_register(0x8001, 3);
    assert_eq!(m.prg_index(0xA004), 3 * 0x2000 + 4);
    m.write_register(0xA002, 0x11);
    assert_eq!(m.chr_index(0x0810), 0x11 * 0x400 + 0x10);
    m.write_register(0xD000, 1);
    assert_eq!(m.mirroring(), Mirroring::Horizontal);

    m.write_register(0xC001, 2);
    m.write_register(0xC003, 0);
    m.write_register(0xE000, 1);
    m.notify_a12(0x0000, 0);
    m.notify_a12(0x1000, 20);
    assert_eq!(m.irq_counter, 1);
    m.notify_a12(0x0000, 21);
    m.notify_a12(0x1000, 25);
    assert_eq!(m.irq_counter, 1);
    m.notify_a12(0x0000, 26);
    m.notify_a12(0x1000, 40);
    assert!(m.irq());
    assert!(!m.irq_enabled_alt);
    assert!(m.watches_ppu_bus());
}
