use fc_core::mapper::special::{
    Mapper103, Mapper104, Mapper108, Mapper120, Mapper168, Mapper170, Mapper177, Mapper190, Mapper230,
    Mapper233,
};
use fc_core::mapper::ChrAccess;
use fc_core::Mirroring;

#[test]
fn mapper108_maps_low_prg_rom_and_fixed_high_tail() {
    let mut mapper = Mapper108::new(8, Mirroring::Vertical);

    assert_eq!(mapper.low_prg_index(0x6004), Some(0x0004));
    assert_eq!(mapper.prg_index(0x8004), 12 * 0x2000 + 4);
    assert_eq!(mapper.prg_index(0xE004), 15 * 0x2000 + 4);
    assert_eq!(mapper.chr_index(0x1004), 0x1004);

    mapper.write_register(0x9000, 0x03);
    assert_eq!(mapper.low_prg_index(0x6004), Some(0x0004));
    mapper.write_register(0x8000, 0x03);
    assert_eq!(mapper.low_prg_index(0x6004), Some(3 * 0x2000 + 4));
    mapper.write_register(0xF000, 0x05);
    assert_eq!(mapper.low_prg_index(0x7FFF), Some(5 * 0x2000 + 0x1FFF));
    assert_eq!(mapper.mirroring(), Mirroring::Vertical);
}

#[test]
fn mapper190_switches_prg16_and_four_2k_chr_windows() {
    let mut mapper = Mapper190::new(16);

    assert_eq!(mapper.prg_index(0x8004), 0x0004);
    assert_eq!(mapper.prg_index(0xC004), 0x0004);
    assert_eq!(mapper.chr_index(0x1804), 0x0004);

    mapper.write_register(0x8000, 0x06);
    assert_eq!(mapper.prg_index(0x8004), 6 * 0x4000 + 4);
    assert_eq!(mapper.prg_index(0xC004), 0x0004);

    mapper.write_register(0xC000, 0x03);
    assert_eq!(mapper.prg_index(0x8004), 11 * 0x4000 + 4);
    assert_eq!(mapper.prg_index(0xC004), 0x0004);

    mapper.write_register(0xA000, 0x02);
    mapper.write_register(0xA001, 0x07);
    mapper.write_register(0xA002, 0x0A);
    mapper.write_register(0xA003, 0x3F);
    assert_eq!(mapper.chr_index(0x0004), 2 * 0x0800 + 4);
    assert_eq!(mapper.chr_index(0x0804), 7 * 0x0800 + 4);
    assert_eq!(mapper.chr_index(0x1004), 10 * 0x0800 + 4);
    assert_eq!(mapper.chr_index(0x1804), 63 * 0x0800 + 4);
    assert_eq!(mapper.mirroring(), Mirroring::Vertical);

    mapper.reset(true);
    assert_eq!(mapper.prg_index(0x8004), 0x0004);
    assert_eq!(mapper.chr_index(0x1804), 0x0004);
}

#[test]
fn mapper168_switches_prg16_and_upper_chr_ram_bank() {
    let mut mapper = Mapper168::new(8, Mirroring::Vertical);

    assert_eq!(mapper.mirroring(), Mirroring::Vertical);
    assert!(mapper.has_chr_read());
    assert_eq!(mapper.prg_index(0x8004), 0x0004);
    assert_eq!(mapper.prg_index(0xC004), 7 * 0x4000 + 4);
    assert_eq!(mapper.chr_index(0x0004), 0x0004);
    assert_eq!(mapper.chr_index(0x1004), 0x0004);

    assert!(mapper.chr_write(0x0004, 0x12));
    assert_eq!(mapper.chr_read(0x1004, ChrAccess::Default), Some(0x12));
    assert!(mapper.chr_write(0x1004, 0x34));
    assert_eq!(mapper.chr_read(0x0004, ChrAccess::Default), Some(0x34));
    assert_eq!(mapper.chr_read(0x1004, ChrAccess::Default), Some(0x34));

    mapper.write_register(0xB000, 0xC5);
    assert_eq!(mapper.prg_index(0x8004), 3 * 0x4000 + 4);
    assert_eq!(mapper.prg_index(0xC004), 7 * 0x4000 + 4);
    assert_eq!(mapper.chr_index(0x0004), 0x0004);
    assert_eq!(mapper.chr_index(0x1004), 5 * 0x1000 + 4);
    assert_eq!(mapper.chr_read(0x0004, ChrAccess::Default), Some(0x34));
    assert_eq!(mapper.chr_read(0x1004, ChrAccess::Default), Some(0x00));

    mapper.reset(true);
    assert_eq!(mapper.prg_index(0x8004), 0x0004);
    assert_eq!(mapper.chr_index(0x1004), 0x0004);
}

#[test]
fn mapper168_clocks_cpu_irq_like_racermate() {
    let mut mapper = Mapper168::new(8, Mirroring::Horizontal);

    assert!(mapper.clocks_cpu());
    assert!(!mapper.irq());

    mapper.write_register(0xC000, 0);
    for _ in 0..1023 {
        mapper.cpu_clock();
    }
    assert!(!mapper.irq());

    mapper.cpu_clock();
    assert!(mapper.irq());

    mapper.clear_irq();
    assert!(!mapper.irq());

    mapper.write_register(0xFFFF, 0);
    for _ in 0..1024 {
        mapper.cpu_clock();
    }
    assert!(mapper.irq());
}

#[test]
fn mapper103_swaps_prg_ram_for_rom_window_and_sets_mirroring() {
    let mut mapper = Mapper103::new(8, Mirroring::Vertical);
    assert_eq!(mapper.prg_index(0x8004), 12 * 0x2000 + 4);
    assert_eq!(mapper.low_prg_index(0x6004), None);
    assert!(mapper.write_low_register(0x6000, 1));
    assert!(mapper.low_register_write_falls_through(0x7FFF));
    mapper.write_register(0x8000, 0x13);
    mapper.write_register(0xF000, 0x10);
    assert_eq!(mapper.low_prg_index(0x6004), Some(3 * 0x2000 + 4));
    mapper.write_register(0xE000, 0x08);
    assert_eq!(mapper.mirroring(), Mirroring::Horizontal);
    mapper.write_register(0xF000, 0x00);
    assert_eq!(mapper.low_prg_index(0x6004), None);
}

#[test]
fn mapper120_selects_low_window_through_41ff() {
    let mut mapper = Mapper120::new(Mirroring::Horizontal);
    assert_eq!(mapper.prg_index(0x8004), 0x10004);
    mapper.write_expansion(0x41FE, 5);
    assert_eq!(mapper.low_prg_index(0x6004), Some(4));
    mapper.write_expansion(0x41FF, 0x0D);
    assert_eq!(mapper.low_prg_index(0x6004), Some(5 * 0x2000 + 4));
    assert_eq!(mapper.low_prg_index(0x5FFF), None);
}

#[test]
fn mapper104_keeps_outer_block_for_both_slots() {
    let mut mapper = Mapper104::new(Mirroring::Horizontal);
    assert_eq!(mapper.prg_index(0xC004), 0x0F * 0x4000 + 4);
    mapper.write_register(0x8000, 0x0A);
    assert_eq!(mapper.prg_index(0x8004), 0x20 * 0x4000 + 4);
    assert_eq!(mapper.prg_index(0xC004), 0x2F * 0x4000 + 4);
    mapper.write_register(0xC000, 0x05);
    assert_eq!(mapper.prg_index(0x8004), 0x25 * 0x4000 + 4);
    mapper.write_register(0x8000, 0x03);
    assert_eq!(mapper.prg_index(0x8004), 0x25 * 0x4000 + 4);
    mapper.reset(false);
    assert_eq!(mapper.prg_index(0x8004), 4);
}

#[test]
fn mapper170_latches_bit6_for_protection_reads() {
    let mut mapper = Mapper170::new(Mirroring::Vertical);
    assert_eq!(mapper.peek_low_register(0x7001), Some(0x70));
    assert!(mapper.write_low_register(0x6502, 0x40));
    assert_eq!(mapper.peek_low_register(0x7777), Some(0x80 | 0x77));
    assert!(!mapper.write_low_register(0x6503, 0x00));
    assert_eq!(mapper.peek_low_register(0x7002), None);
    mapper.reset(true);
    assert_eq!(mapper.peek_low_register(0x7001), Some(0x70));
}

#[test]
fn mapper177_banks_32k_and_mirrors_on_bit5() {
    let mut mapper = Mapper177::new();
    mapper.write_register(0x8000, 0x23);
    assert_eq!(mapper.prg_index(0x8004), 3 * 0x8000 + 4);
    assert_eq!(mapper.mirroring(), Mirroring::Horizontal);
    mapper.reset(true);
    assert_eq!(mapper.mirroring(), Mirroring::Vertical);
}

#[test]
fn mapper230_toggles_between_contra_and_menu_on_soft_reset() {
    let mut mapper = Mapper230::new();
    assert_eq!(mapper.prg_index(0xC000), 7 * 0x4000);
    mapper.write_register(0x8000, 0x05);
    assert_eq!(mapper.prg_index(0x8004), 5 * 0x4000 + 4);
    mapper.reset(true);
    assert_eq!(mapper.prg_index(0x8000), 8 * 0x4000);
    assert_eq!(mapper.mirroring(), Mirroring::Horizontal);
    mapper.write_register(0x8000, 0x63);
    assert_eq!(mapper.prg_index(0x8000), 11 * 0x4000);
    assert_eq!(mapper.prg_index(0xC000), 11 * 0x4000);
    assert_eq!(mapper.mirroring(), Mirroring::Vertical);
    mapper.reset(false);
    assert_eq!(mapper.prg_index(0x8000), 11 * 0x4000);
}

#[test]
fn mapper233_flips_outer_bit_on_soft_reset() {
    let mut mapper = Mapper233::new();
    assert_eq!(mapper.prg_index(0xC000), 0x4000);
    mapper.write_register(0x8000, 0x23);
    mapper.write_register(0x8001, 0x01);
    assert_eq!(mapper.prg_index(0x8000), (3 + 64) * 0x4000);
    assert_eq!(mapper.prg_index(0xC000), (3 + 64) * 0x4000);
    mapper.reset(true);
    assert_eq!(mapper.prg_index(0x8000), 32 * 0x4000);
    assert_eq!(mapper.prg_index(0xC000), 33 * 0x4000);
    mapper.reset(false);
    assert_eq!(mapper.prg_index(0x8000), 0);
}
