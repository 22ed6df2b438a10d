use fc_core::mapper::multicart2::{
    Action53, Mapper128, Mapper15, Mapper226, Mapper236, Mapper237, Mapper240, Mapper241,
    Mapper244, Mapper246, Mapper51, Mapper53, Mapper57, Mapper63,
};
use fc_core::Mirroring;

#[test]
fn mapper15_modes_pick_8k_pages() {
    let mut m = Mapper15::new();
    assert_eq!(m.prg_index(0x8004), 4);
    assert_eq!(m.prg_index(0xE004), 3 * 0x2000 + 4);
    assert_eq!(m.mirroring(), Mirroring::Vertical);

    m.write_register(0x8001, 0x83);
    assert_eq!(m.prg_index(0x8004), 7 * 0x2000 + 4);
    assert_eq!(m.prg_index(0xA004), 8 * 0x2000 + 4);
    assert_eq!(m.prg_index(0xC004), 15 * 0x2000 + 4);
    assert_eq!(m.prg_index(0xE004), 16 * 0x2000 + 4);

    m.write_register(0x8002, 0x45);
    assert_eq!(m.prg_index(0xE001), 138 * 0x2000 + 1);
    assert_eq!(m.prg_index(0x8001), 138 * 0x2000 + 1);
    assert_eq!(m.mirroring(), Mirroring::Horizontal);
    assert_eq!(m.chr_index(0x1234), 0x1234);
}

#[test]
fn action53_selects_register_then_writes_it() {
    let mut m = Action53::new(32);
    assert_eq!(m.prg_index(0x8000), 30 * 0x4000);
    assert_eq!(m.prg_index(0xC000), 31 * 0x4000);

    m.write_expansion(0x5000, 0x80);
    m.write_register(0x8000, 0x0C);
    assert_eq!(m.prg_index(0x8000), 31 * 0x4000);
    assert_eq!(m.mirroring(), Mirroring::SingleScreenLow);

    m.write_expansion(0x5000, 0x81);
    m.write_register(0x8000, 0x01);
    assert_eq!(m.prg_index(0x8000), 3 * 0x4000);
    assert_eq!(m.prg_index(0xC000), 3 * 0x4000);

    m.write_expansion(0x5000, 0x01);
    m.write_register(0x8000, 0x12);
    assert_eq!(m.prg_index(0x8000), 2 * 0x4000);
    assert_eq!(m.prg_index(0xC000), 3 * 0x4000);
    assert_eq!(m.mirroring(), Mirroring::SingleScreenHigh);

    m.write_expansion(0x5000, 0x00);
    m.write_register(0x8000, 0x03);
    assert_eq!(m.chr_index(0x0010), 3 * 0x2000 + 0x10);
    assert_eq!(m.mirroring(), Mirroring::SingleScreenLow);

    m.reset(true);
    assert_eq!(m.prg_index(0x8000), 31 * 0x4000);
}

#[test]
fn mapper53_outer_register_locks_and_maps_low_window() {
    let mut m = Mapper53::new();
    assert_eq!(m.prg_index(0x8004), 4);
    assert_eq!(m.prg_index(0xC004), 0x4000 + 4);
    assert_eq!(m.low_prg_index(0x6004), Some(19 * 0x2000 + 4));

    assert!(m.write_low_register(0x6000, 0x35));
    m.write_register(0x8000, 0x03);
    assert_eq!(m.prg_index(0x8004), 45 * 0x4000 + 4);
    assert_eq!(m.prg_index(0xC004), 49 * 0x4000 + 4);
    assert_eq!(m.low_prg_index(0x6004), Some(99 * 0x2000 + 4));
    assert_eq!(m.mirroring(), Mirroring::Horizontal);

    assert!(m.write_low_register(0x6000, 0x00));
    assert_eq!(m.low_prg_index(0x6004), Some(99 * 0x2000 + 4));

    m.reset(false);
    assert_eq!(m.prg_index(0xC004), 0x4000 + 4);
    assert_eq!(m.mirroring(), Mirroring::Vertical);
}

#[test]
fn mapper51_switches_between_32k_and_16k_modes() {
    let mut m = Mapper51::new();
    assert_eq!(m.prg_index(0x8004), 4);
    assert_eq!(m.prg_index(0xC004), 0x4000 + 4);

    m.write_register(0x8000, 0x05);
    assert_eq!(m.prg_index(0x8004), 10 * 0x4000 + 4);
    assert_eq!(m.prg_index(0xC004), 11 * 0x4000 + 4);
    assert_eq!(m.low_prg_index(0x6004), Some(55 * 0x2000 + 4));
    assert_eq!(m.mirroring(), Mirroring::Vertical);

    assert!(m.write_low_register(0x6000, 0x12));
    assert_eq!(m.mirroring(), Mirroring::Horizontal);

    assert!(m.write_low_register(0x6000, 0x10));
    assert_eq!(m.prg_index(0x8004), 11 * 0x4000 + 4);
    assert_eq!(m.prg_index(0xC004), 15 * 0x4000 + 4);
    assert_eq!(m.low_prg_index(0x6004), Some(63 * 0x2000 + 4));
    assert_eq!(m.mirroring(), Mirroring::Vertical);

    m.write_register(0xC000, 0x03);
    assert_eq!(m.prg_index(0x8004), 6 * 0x4000 + 4);
}

#[test]
fn mapper57_pairs_two_latches() {
    let mut m = Mapper57::new();
    m.write_register(0x8800, 0x38);
    assert_eq!(m.prg_index(0x8004), 4);
    assert_eq!(m.prg_index(0xC004), 0x4000 + 4);
    assert_eq!(m.mirroring(), Mirroring::Horizontal);

    m.write_register(0x8000, 0x45);
    assert_eq!(m.chr_index(0x0010), 13 * 0x2000 + 0x10);

    m.write_register(0x8800, 0xE0);
    assert_eq!(m.prg_index(0x8004), 7 * 0x4000 + 4);
    assert_eq!(m.prg_index(0xC004), 7 * 0x4000 + 4);
    assert_eq!(m.mirroring(), Mirroring::Vertical);
}

#[test]
fn mapper63_floats_the_bus_past_the_rom() {
    let mut m = Mapper63::new(8, 0);
    m.write_register(0x8013, 0);
    assert_eq!(m.prg_index(0x8004), 4 * 0x4000 + 4);
    assert_eq!(m.prg_index(0xC004), 5 * 0x4000 + 4);
    assert_eq!(m.mirroring(), Mirroring::Horizontal);
    assert_eq!(m.peek_register_with_open_bus(0x8000, 0x11, 0x22), None);

    m.write_register(0x8040, 0);
    assert_eq!(m.prg_index(0xC004), 16 * 0x4000 + 4);
    assert_eq!(m.mirroring(), Mirroring::Vertical);
    assert_eq!(m.peek_register_with_open_bus(0x8000, 0x11, 0x22), Some(0x22));

    let mut sub1 = Mapper63::new(8, 1);
    sub1.write_register(0x8200, 0);
    assert_eq!(sub1.prg_index(0x8004), 4);
    assert_eq!(sub1.peek_register_with_open_bus(0x8000, 0x11, 0x22), None);
}

#[test]
fn mapper128_latches_outer_bank_until_locked() {
    let mut m = Mapper128::new();
    m.write_register(0x800C, 0x05);
    assert_eq!(m.prg_index(0x8004), 0x2007 * 0x4000 + 4);
    assert_eq!(m.mirroring(), Mirroring::Horizontal);

    m.write_register(0xF000, 0x01);
    m.write_register(0x8000, 0x02);
    assert_eq!(m.prg_index(0x8004), 0x3C02 * 0x4000 + 4);
    assert_eq!(m.prg_index(0xC004), 0x3C07 * 0x4000 + 4);

    m.reset(false);
    assert_eq!(m.prg_index(0xC004), 7 * 0x4000 + 4);
}

#[test]
fn mapper226_combines_both_registers_into_the_bank() {
    let mut m = Mapper226::new();
    assert_eq!(m.prg_index(0xC004), 0x4000 + 4);
    m.write_register(0x8000, 0x25);
    assert_eq!(m.prg_index(0x8004), 5 * 0x4000 + 4);
    assert_eq!(m.prg_index(0xC004), 5 * 0x4000 + 4);
    assert_eq!(m.mirroring(), Mirroring::Horizontal);

    m.write_register(0x8001, 0x01);
    assert_eq!(m.prg_index(0x8004), 69 * 0x4000 + 4);

    m.write_register(0x8000, 0xC3);
    assert_eq!(m.prg_index(0x8004), 98 * 0x4000 + 4);
    assert_eq!(m.prg_index(0xC004), 99 * 0x4000 + 4);
    assert_eq!(m.mirroring(), Mirroring::Vertical);
}

#[test]
fn mapper240_241_244_data_latches() {
    let mut a = Mapper240::new(Mirroring::Horizontal);
    a.write_register(0x8000, 0x53);
    assert_eq!(a.prg_index(0x8004), 5 * 0x8000 + 4);
    assert_eq!(a.chr_index(0x0010), 3 * 0x2000 + 0x10);
    a.write_expansion(0x4020, 0x21);
    assert_eq!(a.prg_index(0x8004), 2 * 0x8000 + 4);
    assert_eq!(a.chr_index(0x0010), 0x2000 + 0x10);
    assert_eq!(a.mirroring(), Mirroring::Horizontal);

    let mut b = Mapper241::new(Mirroring::Vertical);
    b.write_register(0x8000, 3);
    assert_eq!(b.prg_index(0xC004), 3 * 0x8000 + 0x4004);
    assert_eq!(b.mirroring(), Mirroring::Vertical);

    let mut c = Mapper244::new(Mirroring::Vertical);
    c.write_register(0x8000, 0x12);
    assert_eq!(c.prg_index(0x8004), 0x8000 + 4);
    c.write_register(0x8000, 0x3D);
    assert_eq!(c.chr_index(0x0010), 6 * 0x2000 + 0x10);
    c.write_register(0x8000, 0x6F);
    assert_eq!(c.chr_index(0x0010), 0x10);
    assert_eq!(c.prg_index(0x8004), 0x8000 + 4);
}

#[test]
fn mapper246_low_registers_pick_prg_and_chr() {
    let mut m = Mapper246::new(8, Mirroring::Vertical);
    assert_eq!(m.prg_index(0xE004), 15 * 0x2000 + 4);
    assert!(m.write_low_register(0x6002, 7));
    assert_eq!(m.prg_index(0xC004), 7 * 0x2000 + 4);
    assert!(m.write_low_register(0x6005, 9));
    assert_eq!(m.chr_index(0x0804), 9 * 0x800 + 4);
    assert!(m.write_low_register(0x600C, 3));
    assert_eq!(m.chr_index(0x0004), 3 * 0x800 + 4);
    assert!(!m.write_low_register(0x6800, 1));
    assert_eq!(m.prg_index(0x8004), 4);
}

#[test]
fn mapper236_chr_ram_and_rom_variants() {
    let mut m = Mapper236::new(0);
    m.write_register(0xC013, 0);
    assert_eq!(m.prg_index(0x8005), 3 * 0x4000);
    assert_eq!(m.prg_index(0xC005), 7 * 0x4000);

    m.write_register(0x8025, 0);
    assert_eq!(m.mirroring(), Mirroring::Vertical);
    assert_eq!(m.chr_index(0x0010), 0x10);

    m.write_register(0xC023, 0);
    assert_eq!(m.prg_index(0x8004), 298 * 0x4000 + 4);
    assert_eq!(m.prg_index(0xC004), 299 * 0x4000 + 4);

    m.write_register(0xC030, 0);
    assert_eq!(m.prg_index(0xC004), 296 * 0x4000 + 4);

    let mut r = Mapper236::new(16);
    r.write_register(0x8005, 0);
    assert_eq!(r.chr_index(0x0010), 5 * 0x2000 + 0x10);
    assert_eq!(r.mirroring(), Mirroring::Horizontal);
    r.write_register(0xC00A, 0);
    assert_eq!(r.prg_index(0x8004), 10 * 0x4000 + 4);
    assert_eq!(r.prg_index(0xC004), 15 * 0x4000 + 4);

    r.reset(true);
    r.write_register(0xC01A, 0);
    assert_eq!(r.prg_index(0x8000), 10 * 0x4000 + 1);
}

#[test]
fn mapper237_locks_outer_bits_and_reads_dip() {
    let mut m = Mapper237::new();
    assert_eq!(m.prg_index(0x8004), 4);
    assert_eq!(m.prg_index(0xC004), 7 * 0x4000 + 4);

    m.write_register(0x8005, 0x2B);
    assert_eq!(m.prg_index(0x8004), 43 * 0x4000 + 4);
    assert_eq!(m.prg_index(0xC004), 47 * 0x4000 + 4);
    assert_eq!(m.mirroring(), Mirroring::Vertical);
    assert_eq!(m.peek_register_with_open_bus(0x8000, 0, 0xFF), Some(0));

    m.write_register(0x8002, 0xC1);
    assert_eq!(m.prg_index(0x8004), 4);
    assert_eq!(m.prg_index(0xC004), 0x4000 + 4);
    assert_eq!(m.mirroring(), Mirroring::Horizontal);
    assert_eq!(m.peek_register_with_open_bus(0x8000, 0, 0xFF), None);

    m.write_register(0x800F, 0xFE);
    assert_eq!(m.prg_index(0x8004), 6 * 0x4000 + 4);
    assert_eq!(m.prg_index(0xC004), 7 * 0x4000 + 4);

    m.reset(true);
    m.write_register(0x8001, 0);
    assert_eq!(m.peek_register_with_open_bus(0x8000, 0, 0xFF), Some(1));
}
