use fc_core::mapper::irem::{IremG101, IremLrog017, IremTamS1};
use fc_core::mapper::konami::Vrc1;
use fc_core::mapper::latch_boards::{
    Caltron41, ColorDreams46, JalecoJf13, JalecoJf16, JalecoJfxx, Mapper151, Mapper31, Mapper96,
    Nina03_06, UnromVariant, UnromVariantMapper,
};
use fc_core::mapper::ChrAccess;
use fc_core::Mirroring;

#[test]
fn mapper31_expansion_registers_pick_4k_pages() {
    let mut m = Mapper31::new();
    assert_eq!(m.prg_index(0xF004), 0xFF * 0x1000 + 4);
    assert_eq!(m.prg_index(0x8004), 4);
    m.write_expansion(0x5003, 0x12);
    assert_eq!(m.prg_index(0xB004), 0x12 * 0x1000 + 4);
    m.write_expansion(0x4003, 0x09);
    assert_eq!(m.prg_index(0xB004), 0x12 * 0x1000 + 4);
    assert_eq!(m.mirroring(), Mirroring::Vertical);
}

#[test]
fn mapper96_latches_chr_from_nametable_fetches() {
    let mut m = Mapper96::new();
    assert_eq!(m.prg_index(0x8004), 4);
    m.write_register(0x8000, 0x07);
    assert_eq!(m.prg_index(0x8004), 3 * 0x8000 + 4);
    assert_eq!(m.chr_index(0x0010), 4 * 0x1000 + 0x10);
    assert_eq!(m.chr_index(0x1010), 7 * 0x1000 + 0x10);
    m.notify_a12(0x2300, 0);
    assert_eq!(m.chr_index(0x0010), 7 * 0x1000 + 0x10);
    m.notify_a12(0x1300, 0);
    assert_eq!(m.chr_index(0x0010), 7 * 0x1000 + 0x10);
    assert!(m.watches_ppu_bus());
    assert_eq!(m.mirroring(), Mirroring::SingleScreenLow);
}

#[test]
fn nina03_06_decodes_4100_mask() {
    let mut m = Nina03_06::new();
    m.write_expansion(0x4100, 0xD5);
    assert_eq!(m.prg_index(0x8004), 2 * 0x8000 + 4);
    assert_eq!(m.chr_index(0x0010), 13 * 0x2000 + 0x10);
    assert_eq!(m.mirroring(), Mirroring::Vertical);
    m.write_expansion(0x4000, 0);
    m.write_register(0x8100, 0);
    assert_eq!(m.prg_index(0x8004), 2 * 0x8000 + 4);
}

#[test]
fn caltron41_inner_chr_needs_outer_bank_four() {
    let mut m = Caltron41::new();
    m.write_register(0x8000, 0x03);
    assert_eq!(m.chr_index(0x0010), 0x10);
    assert!(m.write_low_register(0x6035, 0));
    assert_eq!(m.prg_index(0x8004), 5 * 0x8000 + 4);
    assert_eq!(m.chr_index(0x0010), 8 * 0x2000 + 0x10);
    assert_eq!(m.mirroring(), Mirroring::Horizontal);
    m.write_register(0x8000, 0x03);
    assert_eq!(m.chr_index(0x0010), 11 * 0x2000 + 0x10);
    assert!(!m.write_low_register(0x6800, 0));
}

#[test]
fn color_dreams46_combines_outer_and_inner() {
    let mut m = ColorDreams46::new(Mirroring::Vertical);
    assert!(m.write_low_register(0x6000, 0x35));
    m.write_register(0x8000, 0x61);
    assert_eq!(m.prg_index(0x8004), 11 * 0x8000 + 4);
    assert_eq!(m.chr_index(0x0010), 30 * 0x2000 + 0x10);
    assert!(!m.write_low_register(0x5000, 0));
}

#[test]
fn mapper151_register_file() {
    let mut m = Mapper151::new(4, Mirroring::Horizontal);
    assert_eq!(m.prg_index(0xE004), 7 * 0x2000 + 4);
    m.write_register(0x8000, 3);
    assert_eq!(m.prg_index(0x8004), 3 * 0x2000 + 4);
    m.write_register(0xA000, 9);
    assert_eq!(m.prg_index(0xA004), 0x2000 + 4);
    m.write_register(0xE000, 5);
    m.write_register(0xF000, 6);
    assert_eq!(m.chr_index(0x0010), 5 * 0x1000 + 0x10);
    assert_eq!(m.chr_index(0x1010), 6 * 0x1000 + 0x10);
}

#[test]
fn jaleco_jf16_single_screen_and_hv_submapper() {
    let mut m = JalecoJf16::new(8, 0);
    assert_eq!(m.prg_index(0xC004), 7 * 0x4000 + 4);
    m.write_register(0x8000, 0x3A);
    assert_eq!(m.prg_index(0x8004), 2 * 0x4000 + 4);
    assert_eq!(m.chr_index(0x0010), 3 * 0x2000 + 0x10);
    assert_eq!(m.mirroring(), Mirroring::SingleScreenHigh);
    assert!(m.has_bus_conflicts());

    let mut h = JalecoJf16::new(8, 3);
    h.write_register(0x8000, 0x08);
    assert_eq!(h.mirroring(), Mirroring::Vertical);
    h.write_register(0x8000, 0x00);
    assert_eq!(h.mirroring(), Mirroring::Horizontal);
}

#[test]
fn jaleco_jfxx_swaps_bits_on_87() {
    let mut m = JalecoJfxx::new(false, Mirroring::Vertical);
    m.write_register(0x8000, 0x01);
    assert_eq!(m.chr_index(0x0010), 2 * 0x2000 + 0x10);
    assert!(m.write_low_register(0x6000, 0x02));
    assert_eq!(m.chr_index(0x0010), 0x2000 + 0x10);
    assert!(!m.write_low_register(0x5000, 0x03));
    assert_eq!(m.prg_index(0x8004), 4);

    let mut o = JalecoJfxx::new(true, Mirroring::Vertical);
    o.write_register(0x8000, 0x05);
    assert_eq!(o.chr_index(0x0010), 5 * 0x2000 + 0x10);
}

#[test]
fn jaleco_jf13_decodes_address_bits_12_to_14() {
    let mut m = JalecoJf13::new(Mirroring::Vertical);
    assert!(m.write_low_register(0x6000, 0x72));
    assert_eq!(m.prg_index(0x8004), 3 * 0x8000 + 4);
    assert_eq!(m.chr_index(0x0010), 6 * 0x2000 + 0x10);
    assert!(m.write_low_register(0x7000, 0x00));
    assert_eq!(m.prg_index(0x8004), 3 * 0x8000 + 4);
    m.write_register(0xE000, 0x10);
    assert_eq!(m.prg_index(0x8004), 0x8000 + 4);
    assert_eq!(m.chr_index(0x0010), 0x10);
    m.write_register(0x8000, 0x30);
    assert_eq!(m.prg_index(0x8004), 0x8000 + 4);
}

#[test]
fn unrom_variants_latch_different_bits() {
    let mut a = UnromVariantMapper::new(8, UnromVariant::Sunsoft93, Mirroring::Vertical);
    a.write_register(0x8000, 0x35);
    assert_eq!(a.prg_index(0x8004), 3 * 0x4000 + 4);
    assert_eq!(a.prg_index(0xC004), 7 * 0x4000 + 4);

    let mut b = UnromVariantMapper::new(8, UnromVariant::Mapper94, Mirroring::Vertical);
    b.write_register(0x8000, 0x1C);
    assert_eq!(b.prg_index(0x8004), 7 * 0x4000 + 4);

    let mut c = UnromVariantMapper::new(8, UnromVariant::Mapper180, Mirroring::Vertical);
    c.write_register(0x8000, 0x0B);
    assert_eq!(c.prg_index(0x8004), 4);
    assert_eq!(c.prg_index(0xC004), 3 * 0x4000 + 4);
}

#[test]
fn irem_tam_s1_fixes_low_half() {
    let mut m = IremTamS1::new(8);
    assert_eq!(m.prg_index(0x8004), 7 * 0x4000 + 4);
    m.write_register(0x8000, 0x85);
    assert_eq!(m.prg_index(0xC004), 5 * 0x4000 + 4);
    assert_eq!(m.mirroring(), Mirroring::Vertical);
    m.write_register(0x8000, 0x4F);
    assert_eq!(m.prg_index(0xC004), 15 * 0x4000 + 4);
    assert_eq!(m.mirroring(), Mirroring::Horizontal);
    m.write_register(0x8000, 0xC0);
    assert_eq!(m.mirroring(), Mirroring::SingleScreenHigh);
    m.write_register(0x8000, 0x00);
    assert_eq!(m.mirroring(), Mirroring::SingleScreenLow);
}

#[test]
fn vrc1_banks_and_mode_bits() {
    let mut m = Vrc1::new(8);
    assert_eq!(m.prg_index(0xE004), 15 * 0x2000 + 4);
    m.write_register(0x8000, 3);
    m.write_register(0xA000, 4);
    m.write_register(0xC000, 5);
    assert_eq!(m.prg_index(0x8004), 3 * 0x2000 + 4);
    assert_eq!(m.prg_index(0xA004), 4 * 0x2000 + 4);
    assert_eq!(m.prg_index(0xC004), 5 * 0x2000 + 4);
    m.write_register(0xE000, 0x1A);
    m.write_register(0xF000, 0x03);
    m.write_register(0x9000, 0x07);
    assert_eq!(m.mirroring(), Mirroring::Vertical);
    assert_eq!(m.chr_index(0x0010), 26 * 0x1000 + 0x10);
    assert_eq!(m.chr_index(0x1010), 19 * 0x1000 + 0x10);
    m.write_register(0x9000, 0x00);
    assert_eq!(m.mirroring(), Mirroring::Horizontal);
    assert_eq!(m.chr_index(0x0010), 10 * 0x1000 + 0x10);
}

#[test]
fn irem_g101_swaps_windows_in_mode_one() {
    let mut m = IremG101::new(8, 0, Mirroring::Vertical);
    assert_eq!(m.prg_index(0x8004), 4);
    assert_eq!(m.prg_index(0xC004), 14 * 0x2000 + 4);
    assert_eq!(m.prg_index(0xE004), 15 * 0x2000 + 4);
    m.write_register(0x8000, 0x25);
    assert_eq!(m.prg_index(0x8004), 5 * 0x2000 + 4);
    m.write_register(0xA000, 6);
    assert_eq!(m.prg_index(0xA004), 6 * 0x2000 + 4);
    m.write_register(0x9000, 3);
    assert_eq!(m.mirroring(), Mirroring::Horizontal);
    assert_eq!(m.prg_index(0x8004), 14 * 0x2000 + 4);
    assert_eq!(m.prg_index(0xC004), 5 * 0x2000 + 4);
    m.write_register(0xB003, 0x44);
    assert_eq!(m.chr_index(0x0C10), 0x44 * 0x400 + 0x10);

    let mut s = IremG101::new(8, 1, Mirroring::Vertical);
    assert_eq!(s.mirroring(), Mirroring::SingleScreenLow);
    s.write_register(0x9000, 3);
    assert_eq!(s.mirroring(), Mirroring::Horizontal);
    assert_eq!(s.prg_index(0x8004), 4);
}

#[test]
fn irem_lrog017_chr_ram_above_2k() {
    let mut m = IremLrog017::new(Mirroring::Horizontal);
    m.write_register(0x8000, 0x53);
    assert_eq!(m.prg_index(0x8004), 3 * 0x8000 + 4);
    assert_eq!(m.chr_index(0x0010), 5 * 0x800 + 0x10);
    assert_eq!(m.chr_read(0x0010, ChrAccess::Default), None);
    assert_eq!(m.chr_read(0x0810, ChrAccess::Background), Some(0));
    assert!(m.chr_write(0x0810, 0xAB));
    assert_eq!(m.chr_read(0x0810, ChrAccess::Sprite), Some(0xAB));
    assert!(m.chr_write(0x1005, 7));
    assert_eq!(m.chr_read(0x1005, ChrAccess::Default), Some(7));
    assert!(!m.chr_write(0x0005, 1));
}
