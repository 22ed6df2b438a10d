use fc_core::mapper::ave::Bnrom;
use fc_core::mapper::board::Bf9096;
use fc_core::mapper::discrete::{Mapper185, Mapper186, Mapper188, Mapper193, Mapper218};
use fc_core::mapper::latch::Mapper122;
use fc_core::mapper::longtail::{Mapper271, Mapper285, Mapper310, Mapper319, Mapper326};
use fc_core::mapper::namco::{Namco108Mapper154, Namco108Mapper206, Namco108Mapper95, Namco118};
use fc_core::mapper::nanjing::{NanjingMapper, NanjingVariant};
use fc_core::mapper::ntdec::Tf1201;
use fc_core::mapper::opencorp::Mapper156;
use fc_core::mapper::sachen::{
    Sachen133, Sachen149, Sachen74Ls374N, Sachen74Ls374NVariant, Sachen8259, Sachen8259Variant,
    SachenSa0161m,
};
use fc_core::mapper::subor::{Subor166, SuborVariant};
use fc_core::mapper::sunsoft::Sunsoft4;
use fc_core::mapper::txc::{reverse_six_bits, TxcChip};
use fc_core::mapper::ChrAccess;
use fc_core::Mirroring;

#[test]
fn mapper232_selects_codemasters_block_and_page() {
    let mut mapper = Bf9096::new(16, 0, Mirroring::Vertical);
    assert_eq!(mapper.prg_index(0x8004), 0x00004);
    assert_eq!(mapper.prg_index(0xC004), 3 * 0x4000 + 4);
    mapper.write_register(0x8000, 0x18);
    mapper.write_register(0xC000, 0x02);
    assert_eq!(mapper.prg_index(0x8004), 14 * 0x4000 + 4);
    assert_eq!(mapper.prg_index(0xC004), 15 * 0x4000 + 4);
    assert_eq!(mapper.chr_index(0x1004), 0x1004);
    assert_eq!(mapper.mirroring(), Mirroring::Vertical);
}

#[test]
fn mapper232_submapper1_swaps_outer_bank_bits() {
    let mut mapper = Bf9096::new(16, 1, Mirroring::Horizontal);
    mapper.write_register(0x8000, 0x10);
    mapper.write_register(0xC000, 0x01);
    assert_eq!(mapper.prg_index(0x8004), 5 * 0x4000 + 4);
    assert_eq!(mapper.prg_index(0xC004), 7 * 0x4000 + 4);
    assert_eq!(mapper.mirroring(), Mirroring::Horizontal);
}

#[test]
fn mapper122_selects_two_independent_4k_chr_banks() {
    let mut mapper = Mapper122::new(Mirroring::Horizontal);
    assert_eq!(mapper.prg_index(0x8004), 0x0004);
    assert_eq!(mapper.prg_index(0xC004), 0x4004);
    assert_eq!(mapper.chr_index(0x0004), 0x0004);
    assert_eq!(mapper.chr_index(0x1004), 0x0004);
    mapper.write_register(0x8000, 0x03);
    mapper.write_register(0x8001, 0x07);
    assert_eq!(mapper.chr_index(0x0004), 3 * 0x1000 + 4);
    assert_eq!(mapper.chr_index(0x1004), 7 * 0x1000 + 4);
    assert_eq!(mapper.mirroring(), Mirroring::Horizontal);
}

#[test]
fn mapper185_gates_chr_to_dummy_ff_page() {
    let mut mapper = Mapper185::new(2, Mirroring::Vertical);
    assert_eq!(mapper.prg_index(0x8004), 0x0004);
    assert_eq!(mapper.prg_index(0xC004), 0x4000 + 4);
    assert_eq!(mapper.chr_read(0x1004, ChrAccess::Default), Some(0xFF));
    assert!(mapper.chr_write(0x1004, 0x55));
    mapper.write_register(0x8000, 0x0F);
    assert_eq!(mapper.chr_read(0x1004, ChrAccess::Default), None);
    assert!(!mapper.chr_write(0x1004, 0x55));
    mapper.write_register(0x8000, 0x13);
    assert_eq!(mapper.chr_read(0x1004, ChrAccess::Default), Some(0xFF));
    assert_eq!(mapper.mirroring(), Mirroring::Vertical);
}

#[test]
fn mapper181_gates_chr_on_bit0_inverse_of_185_family() {
    let mut mapper = Mapper185::new_181(4, Mirroring::Horizontal);
    assert_eq!(mapper.prg_index(0x8004), 0x0004);
    assert_eq!(mapper.prg_index(0xC004), 3 * 0x4000 + 4);
    assert_eq!(mapper.mirroring(), Mirroring::Horizontal);
    assert_eq!(mapper.chr_read(0x1004, ChrAccess::Default), None);
    assert!(!mapper.chr_write(0x1004, 0x55));
    mapper.write_register(0x8000, 0x01);
    assert_eq!(mapper.chr_read(0x1004, ChrAccess::Default), Some(0xFF));
    assert!(mapper.chr_write(0x1004, 0x55));
    mapper.write_register(0xFFFF, 0x20);
    assert_eq!(mapper.chr_read(0x1004, ChrAccess::Default), None);
}

#[test]
fn mapper188_selects_karaoke_prg_and_expansion_read() {
    let mut mapper = Mapper188::new(16);
    assert_eq!(mapper.prg_index(0x8004), 8 * 0x4000 + 4);
    assert_eq!(mapper.prg_index(0xC004), 7 * 0x4000 + 4);
    assert_eq!(mapper.read_low_register(0x6000), Some(3));
    assert_eq!(mapper.chr_index(0x1004), 0x1004);
    mapper.write_register(0x8000, 0x02);
    assert_eq!(mapper.prg_index(0x8004), 10 * 0x4000 + 4);
    mapper.write_register(0x8000, 0x12);
    assert_eq!(mapper.prg_index(0x8004), 2 * 0x4000 + 4);
    assert_eq!(mapper.mirroring(), Mirroring::Horizontal);
}

#[test]
fn mapper193_maps_low_register_chr_and_fixed_tail() {
    let mut mapper = Mapper193::new(Mirroring::Horizontal);
    mapper.write_low_register(0x6000, 0x10);
    mapper.write_low_register(0x6001, 0x06);
    mapper.write_low_register(0x6002, 0x0A);
    mapper.write_low_register(0x6003, 0x04);
    assert_eq!(mapper.prg_index(0x8004), 4 * 0x2000 + 4);
    assert_eq!(mapper.prg_index(0xA004), 0x0D * 0x2000 + 4);
    assert_eq!(mapper.prg_index(0xC004), 0x0E * 0x2000 + 4);
    assert_eq!(mapper.prg_index(0xE004), 0x0F * 0x2000 + 4);
    assert_eq!(mapper.chr_index(0x0004), 16 * 0x0400 + 4);
    assert_eq!(mapper.chr_index(0x0C04), 19 * 0x0400 + 4);
    assert_eq!(mapper.chr_index(0x1004), 6 * 0x0400 + 4);
    assert_eq!(mapper.chr_index(0x1404), 7 * 0x0400 + 4);
    assert_eq!(mapper.chr_index(0x1804), 10 * 0x0400 + 4);
    assert_eq!(mapper.chr_index(0x1C04), 11 * 0x0400 + 4);
    assert_eq!(mapper.mirroring(), Mirroring::Horizontal);
}

#[test]
fn mapper186_maps_family_study_box_status_ram_and_prg() {
    let mut mapper = Mapper186::new(8);
    assert_eq!(mapper.read_expansion(0x4200), Some(0x00));
    assert_eq!(mapper.read_expansion(0x4201), Some(0x00));
    assert_eq!(mapper.read_expansion(0x4202), Some(0x40));
    assert_eq!(mapper.read_expansion(0x4203), Some(0x00));
    assert_eq!(mapper.read_expansion(0x4300), Some(0xFF));
    assert_eq!(mapper.read_expansion(0x5000), None);
    mapper.write_expansion(0x4404, 0x5A);
    assert_eq!(mapper.read_expansion(0x4404), Some(0x5A));
    assert!(!mapper.low_prg_ram_read_enabled(0x6000));
    assert!(!mapper.low_prg_ram_write_enabled(0x6000));
    assert!(mapper.write_low_register(0x6004, 0x11));
    assert_eq!(mapper.read_low_register(0x6004), Some(0x11));
    mapper.write_expansion(0x4200, 0x40);
    assert!(mapper.write_low_register(0x6004, 0x22));
    assert_eq!(mapper.read_low_register(0x6004), Some(0x22));
    mapper.write_expansion(0x4200, 0x00);
    assert_eq!(mapper.read_low_register(0x6004), Some(0x11));
    mapper.write_expansion(0x4201, 0x03);
    assert_eq!(mapper.prg_index(0x8004), 3 * 0x4000 + 4);
    assert_eq!(mapper.prg_index(0xC004), 4);
    assert_eq!(mapper.chr_index(0x1004), 0x1004);
    assert_eq!(mapper.mirroring(), Mirroring::Horizontal);
}

#[test]
fn mapper218_maps_pattern_table_to_2k_nametable_ram() {
    let mut vertical = Mapper218::new(Mirroring::Vertical);
    assert!(vertical.has_chr_read());
    assert_eq!(vertical.prg_index(0xC004), 0x4004);
    assert!(vertical.chr_write(0x0004, 0x11));
    assert!(vertical.chr_write(0x0404, 0x22));
    assert_eq!(vertical.chr_read(0x0804, ChrAccess::Default), Some(0x11));
    assert_eq!(vertical.chr_read(0x0C04, ChrAccess::Default), Some(0x22));
    assert_eq!(vertical.mirroring(), Mirroring::Vertical);

    let mut horizontal = Mapper218::new(Mirroring::Horizontal);
    assert!(horizontal.chr_write(0x0004, 0x33));
    assert!(horizontal.chr_write(0x0804, 0x44));
    assert_eq!(horizontal.chr_read(0x0404, ChrAccess::Default), Some(0x33));
    assert_eq!(horizontal.chr_read(0x0C04, ChrAccess::Default), Some(0x44));

    let mut screen_a = Mapper218::new(Mirroring::SingleScreenLow);
    assert!(screen_a.chr_write(0x0004, 0x55));
    assert!(screen_a.chr_write(0x1004, 0x66));
    assert_eq!(screen_a.chr_read(0x0C04, ChrAccess::Default), Some(0x55));
    assert_eq!(screen_a.chr_read(0x1C04, ChrAccess::Default), Some(0x66));

    let mut screen_b = Mapper218::new(Mirroring::SingleScreenHigh);
    assert!(screen_b.chr_write(0x0004, 0x77));
    assert_eq!(screen_b.chr_read(0x1C04, ChrAccess::Default), Some(0x77));
}

#[test]
fn mapper133_selects_sachen_prg32_and_chr8_from_low_or_high_writes() {
    let mut mapper = Sachen133::new(4, Mirroring::Horizontal);
    mapper.write_expansion(0x4100, 0x07);
    assert_eq!(mapper.prg_index(0x8004), 1 * 0x8000 + 4);
    assert_eq!(mapper.chr_index(0x1004), 3 * 0x2000 + 0x1004);
    mapper.write_expansion(0x4000, 0x00);
    assert_eq!(mapper.prg_index(0x8004), 1 * 0x8000 + 4);
    mapper.write_low_register(0x4100, 0x07);
    assert_eq!(mapper.prg_index(0x8004), 1 * 0x8000 + 4);
    assert_eq!(mapper.prg_index(0xC004), 1 * 0x8000 + 0x4004);
    assert_eq!(mapper.chr_index(0x1004), 3 * 0x2000 + 0x1004);
    assert_eq!(mapper.mirroring(), Mirroring::Horizontal);
    assert!(!mapper.write_low_register(0x4000, 0x00));
    assert_eq!(mapper.prg_index(0x8004), 1 * 0x8000 + 4);
    mapper.write_register(0x8000, 0x02);
    assert_eq!(mapper.prg_index(0x8004), 0x0004);
    assert_eq!(mapper.chr_index(0x1004), 2 * 0x2000 + 0x1004);
}

#[test]
fn mapper146_uses_sa0161m_low_write_window() {
    let mut mapper = SachenSa0161m::new(Mirroring::Horizontal, false);
    mapper.write_expansion(0x4100, 0x0F);
    assert_eq!(mapper.prg_index(0x8004), 1 * 0x8000 + 4);
    assert_eq!(mapper.prg_index(0xC004), 1 * 0x8000 + 0x4004);
    assert_eq!(mapper.chr_index(0x1004), 7 * 0x2000 + 0x1004);
    mapper.write_expansion(0x4000, 0x00);
    assert_eq!(mapper.prg_index(0x8004), 1 * 0x8000 + 4);
    mapper.write_register(0x8000, 0x00);
    assert_eq!(mapper.prg_index(0x8004), 1 * 0x8000 + 4);
    assert_eq!(mapper.mirroring(), Mirroring::Horizontal);
}

#[test]
fn mapper148_uses_sa0037_high_write_window() {
    let mut mapper = SachenSa0161m::new(Mirroring::Vertical, true);
    mapper.write_expansion(0x4100, 0x0F);
    assert_eq!(mapper.prg_index(0x8004), 0x0004);
    mapper.write_register(0x8000, 0x0F);
    assert_eq!(mapper.prg_index(0x8004), 1 * 0x8000 + 4);
    assert_eq!(mapper.chr_index(0x1004), 7 * 0x2000 + 0x1004);
    assert_eq!(mapper.mirroring(), Mirroring::Vertical);
}

#[test]
fn mapper149_switches_only_chr_from_bit7() {
    let mut mapper = Sachen149::new(Mirroring::Vertical);
    assert_eq!(mapper.prg_index(0x8004), 0x0004);
    assert_eq!(mapper.prg_index(0xC004), 0x4004);
    assert_eq!(mapper.chr_index(0x1004), 0x1004);
    mapper.write_register(0x8000, 0x80);
    assert_eq!(mapper.chr_index(0x1004), 1 * 0x2000 + 0x1004);
    assert_eq!(mapper.mirroring(), Mirroring::Vertical);
}

#[test]
fn mapper137_sachen8259d_uses_1k_chr_and_inverted_mirroring() {
    let mut mapper = Sachen8259::new(16, 4, Sachen8259Variant::Mapper137D);
    mapper.write_expansion(0x4100, 0x05);
    mapper.write_expansion(0x4101, 0x03);
    assert_eq!(mapper.prg_index(0xC004), 3 * 0x8000 + 0x4004);
    for (reg, value) in [(0, 6), (1, 1), (2, 2), (3, 3), (4, 7), (6, 1)] {
        mapper.write_expansion(0x4100, reg);
        mapper.write_expansion(0x4101, value);
    }
    assert_eq!(mapper.chr_index(0x0004), 6 * 0x0400 + 4);
    assert_eq!(mapper.chr_index(0x0404), 17 * 0x0400 + 4);
    assert_eq!(mapper.chr_index(0x0804), 18 * 0x0400 + 4);
    assert_eq!(mapper.chr_index(0x0C04), 27 * 0x0400 + 4);
    assert_eq!(mapper.chr_index(0x1004), 28 * 0x0400 + 4);
    assert_eq!(mapper.chr_index(0x1C04), 31 * 0x0400 + 4);
    mapper.write_expansion(0x4100, 0x07);
    mapper.write_expansion(0x4101, 0x00);
    assert_eq!(mapper.mirroring(), Mirroring::Horizontal);
    mapper.write_expansion(0x4101, 0x02);
    assert_eq!(mapper.mirroring(), Mirroring::Vertical);
    mapper.write_expansion(0x4101, 0x01);
    assert_eq!(mapper.mirroring(), Mirroring::Horizontal);
    assert_eq!(mapper.chr_index(0x0404), 22 * 0x0400 + 4);
}

#[test]
fn mapper141_sachen8259a_uses_2k_chr_and_standard_mirroring() {
    let mut mapper = Sachen8259::new(16, 4, Sachen8259Variant::Mapper141A);
    mapper.write_expansion(0x4100, 0x05);
    mapper.write_expansion(0x4101, 0x03);
    assert_eq!(mapper.prg_index(0x8004), 3 * 0x8000 + 4);
    for (reg, value) in [(0, 6), (1, 1), (4, 2)] {
        mapper.write_expansion(0x4100, reg);
        mapper.write_expansion(0x4101, value);
    }
    assert_eq!(mapper.chr_index(0x0004), 44 * 0x0800 + 4);
    assert_eq!(mapper.chr_index(0x0804), 35 * 0x0800 + 4);
    mapper.write_expansion(0x4100, 0x07);
    mapper.write_expansion(0x4101, 0x00);
    assert_eq!(mapper.mirroring(), Mirroring::Vertical);
    mapper.write_expansion(0x4101, 0x02);
    assert_eq!(mapper.mirroring(), Mirroring::Horizontal);
    mapper.write_expansion(0x4101, 0x04);
    assert_eq!(mapper.mirroring(), Mirroring::FourScreen);
    mapper.write_expansion(0x4101, 0x06);
    assert_eq!(mapper.mirroring(), Mirroring::SingleScreenLow);
    mapper.write_expansion(0x4101, 0x01);
    assert_eq!(mapper.mirroring(), Mirroring::Vertical);
    assert_eq!(mapper.chr_index(0x0804), 45 * 0x0800 + 4);
}

#[test]
fn mapper150_74ls374n_selects_registers_and_dip_open_bus_reads() {
    let mut mapper = Sachen74Ls374N::new(16, Sachen74Ls374NVariant::Mapper150);
    mapper.write_expansion(0x4100, 0x05);
    mapper.write_expansion(0x4101, 0x03);
    mapper.write_expansion(0x4100, 0x06);
    mapper.write_expansion(0x4101, 0x02);
    mapper.write_expansion(0x4100, 0x04);
    mapper.write_expansion(0x4101, 0x01);
    assert_eq!(mapper.prg_index(0x8004), 3 * 0x8000 + 4);
    assert_eq!(mapper.chr_index(0x1004), 6 * 0x2000 + 0x1004);
    mapper.write_expansion(0x4100, 0x07);
    mapper.write_expansion(0x4101, 0x06);
    assert_eq!(mapper.mirroring(), Mirroring::SingleScreenLow);
    mapper.write_expansion(0x4100, 0x06);
    assert_eq!(mapper.read_expansion_with_open_bus(0x4101, 0xA0), Some(0xA2));
    mapper.reset(true);
    mapper.write_expansion(0x4100, 0x05);
    assert_eq!(mapper.read_expansion_with_open_bus(0x4101, 0xA4), Some(0xA4));
    mapper.write_expansion(0x4100, 0x03);
    mapper.write_expansion(0x4101, 0x00);
    assert_eq!(mapper.mirroring(), Mirroring::Vertical);
    mapper.write_expansion(0x4100, 0x05);
    mapper.write_expansion(0x4101, 0x00);
    assert_eq!(mapper.prg_index(0x8004), 0x0004);
    assert_eq!(mapper.read_expansion_with_open_bus(0x4101, 0xA4), Some(0xA4));
}

#[test]
fn mapper243_74ls374n_uses_alternate_chr_bits_without_readback() {
    let mut mapper = Sachen74Ls374N::new(8, Sachen74Ls374NVariant::Mapper243);
    mapper.write_expansion(0x4100, 0x02);
    mapper.write_expansion(0x4101, 0x01);
    mapper.write_expansion(0x4100, 0x04);
    mapper.write_expansion(0x4101, 0x01);
    mapper.write_expansion(0x4100, 0x06);
    mapper.write_expansion(0x4101, 0x02);
    assert_eq!(mapper.chr_index(0x1004), 0x0B * 0x2000 + 0x1004);
    mapper.write_expansion(0x4100, 0x05);
    mapper.write_expansion(0x4101, 0x02);
    assert_eq!(mapper.prg_index(0xC004), 2 * 0x8000 + 0x4004);
    assert_eq!(mapper.read_expansion_with_open_bus(0x4101, 0xA0), None);
    mapper.write_expansion(0x4100, 0x07);
    mapper.write_expansion(0x4101, 0x02);
    assert_eq!(mapper.mirroring(), Mirroring::Horizontal);
}

#[test]
fn sunsoft4_maps_prg_chr_and_mirroring() {
    let mut mapper = Sunsoft4::new(8, Mirroring::Horizontal);
    assert_eq!(mapper.prg_index(0x8004), 0x0004);
    assert_eq!(mapper.prg_index(0xC004), 7 * 0x4000 + 4);
    mapper.write_register(0xF000, 0x03);
    mapper.write_register(0x9000, 0x12);
    mapper.write_register(0xE000, 0x01);
    assert_eq!(mapper.prg_index(0x8004), 3 * 0x4000 + 4);
    assert_eq!(mapper.chr_index(0x0804), 0x12 * 0x800 + 4);
    assert_eq!(mapper.mirroring(), Mirroring::Horizontal);
    assert_eq!(mapper.nametable_chr_index(0x2004), None);
}

#[test]
fn sunsoft4_routes_nametables_to_chr_pages() {
    let mut mapper = Sunsoft4::new(8, Mirroring::Vertical);
    mapper.write_register(0xC000, 0x05);
    mapper.write_register(0xD000, 0x06);
    mapper.write_register(0xE000, 0x10);
    assert_eq!(mapper.mirroring(), Mirroring::Vertical);
    assert_eq!(mapper.nametable_chr_index(0x2004), Some(0x85 * 0x400 + 4));
    assert_eq!(mapper.nametable_chr_index(0x2404), Some(0x86 * 0x400 + 4));
    assert_eq!(mapper.nametable_chr_index(0x2804), Some(0x85 * 0x400 + 4));
    assert_eq!(mapper.nametable_chr_index(0x2C04), Some(0x86 * 0x400 + 4));
    mapper.write_register(0xE000, 0x11);
    assert_eq!(mapper.nametable_chr_index(0x2004), Some(0x85 * 0x400 + 4));
    assert_eq!(mapper.nametable_chr_index(0x2404), Some(0x85 * 0x400 + 4));
    assert_eq!(mapper.nametable_chr_index(0x2804), Some(0x86 * 0x400 + 4));
    assert_eq!(mapper.nametable_chr_index(0x2C04), Some(0x86 * 0x400 + 4));
    mapper.write_register(0xE000, 0x12);
    assert_eq!(mapper.nametable_chr_index(0x2C04), Some(0x85 * 0x400 + 4));
    mapper.write_register(0xE000, 0x13);
    assert_eq!(mapper.nametable_chr_index(0x2004), Some(0x86 * 0x400 + 4));
}

#[test]
fn mapper271_latches_prg_chr_and_mirroring() {
    let mut mapper = Mapper271::new();
    mapper.write_register(0x8000, 0x35);
    assert_eq!(mapper.prg_index(0x8004), 3 * 0x8000 + 4);
    assert_eq!(mapper.prg_index(0xC004), 3 * 0x8000 + 0x4004);
    assert_eq!(mapper.chr_index(0x1004), 5 * 0x2000 + 0x1004);
    assert_eq!(mapper.mirroring(), Mirroring::Vertical);
    mapper.reset(true);
    assert_eq!(mapper.prg_index(0x8004), 0x0004);
    assert_eq!(mapper.mirroring(), Mirroring::Horizontal);
}

#[test]
fn mapper285_switches_submapper_banking_and_pad_reads() {
    let mut mapper = Mapper285::new(0);
    mapper.write_register(0x8000, 0x25);
    assert_eq!(mapper.prg_index(0x8004), 0x25 * 0x4000 + 4);
    assert_eq!(mapper.prg_index(0xC004), 0x27 * 0x4000 + 4);
    assert_eq!(mapper.mirroring(), Mirroring::Horizontal);
    mapper.write_register(0x8000, 0xC6);
    assert_eq!(mapper.prg_index(0x8004), 0x63 * 0x8000 + 4);
    assert_eq!(mapper.mirroring(), Mirroring::SingleScreenLow);
    let mut sub1 = Mapper285::new(1);
    sub1.write_register(0x8000, 0x4C);
    assert_eq!(sub1.prg_index(0x8004), 0x12 * 0x8000 + 4);
    assert_eq!(sub1.mirroring(), Mirroring::Horizontal);
    for _ in 0..8 {
        mapper.reset(true);
    }
    assert_eq!(mapper.peek_expansion(0x5000), Some(0));
    assert_eq!(mapper.peek_expansion(0x5010), Some(4));
}

#[test]
fn mapper310_uses_address_register_modes_and_chr_write_gate() {
    let mut mapper = Mapper310::new();
    mapper.write_register(0x8000, 0x45);
    assert_eq!(mapper.mirroring(), Mirroring::Horizontal);
    assert_eq!(mapper.prg_index(0x8004), 2 * 0x8000 + 4);
    assert!(mapper.chr_write(0x0010, 0x12));
    mapper.write_register(0xC001, 0x03);
    assert_eq!(mapper.prg_index(0x8004), 0x05 * 0x4000 + 4);
    assert_eq!(mapper.prg_index(0xC004), 0x07 * 0x4000 + 4);
    assert!(!mapper.chr_write(0x0010, 0x12));
    mapper.write_register(0xC002, 0x06);
    assert_eq!(mapper.prg_index(0x8004), 0x0A * 0x2000 + 4);
    assert_eq!(mapper.prg_index(0xE004), 0x0A * 0x2000 + 4);
    assert_eq!(mapper.chr_index(0x1004), 6 * 0x2000 + 0x1004);
}

#[test]
fn mapper319_splits_low_regs_latch_and_reset_pad() {
    let mut mapper = Mapper319::new();
    assert!(mapper.write_low_register(0x6000, 0x11));
    assert!(mapper.write_low_register(0x6004, 0xA4));
    assert_eq!(mapper.prg_index(0x8004), 1 * 0x4000 + 4);
    assert_eq!(mapper.chr_index(0x1004), 1 * 0x2000 + 0x1004);
    assert_eq!(mapper.mirroring(), Mirroring::Vertical);
    mapper.write_register(0x8000, 0x01);
    assert_eq!(mapper.chr_index(0x1004), 5 * 0x2000 + 0x1004);
    assert_eq!(mapper.peek_expansion(0x5000), Some(0));
    mapper.reset(true);
    assert_eq!(mapper.peek_expansion(0x5000), Some(0x40));
    assert!(!mapper.low_prg_ram_read_enabled(0x6000));
    assert!(!mapper.low_prg_ram_write_enabled(0x6000));
}

#[test]
fn mapper326_maps_8k_prg_1k_chr_and_per_page_nt() {
    let mut mapper = Mapper326::new();
    mapper.write_register(0x8000, 3);
    mapper.write_register(0xA000, 4);
    mapper.write_register(0xC000, 5);
    assert_eq!(mapper.prg_index(0x8004), 3 * 0x2000 + 4);
    assert_eq!(mapper.prg_index(0xA004), 4 * 0x2000 + 4);
    assert_eq!(mapper.prg_index(0xC004), 5 * 0x2000 + 4);
    assert_eq!(mapper.prg_index(0xE004), 0xFF * 0x2000 + 4);
    mapper.write_register(0x8010, 6);
    mapper.write_register(0x8017, 9);
    assert_eq!(mapper.chr_index(0x0004), 6 * 0x0400 + 4);
    assert_eq!(mapper.chr_index(0x1C04), 9 * 0x0400 + 4);
    let mut ciram = [0u8; 0x1000];
    mapper.write_register(0x8018, 1);
    assert!(mapper.nametable_write(0x2004, 0x5A, &mut ciram));
    assert_eq!(ciram[0x400 + 4], 0x5A);
    assert_eq!(mapper.peek_nametable(0x2004, &ciram), Some(0x5A));
    assert_eq!(mapper.mirroring(), Mirroring::FourScreen);
}

#[test]
fn mapper156_maps_prg_chr_and_mirroring_registers() {
    let mut mapper = Mapper156::new(8);
    assert_eq!(mapper.prg_index(0x8004), 0x0004);
    assert_eq!(mapper.prg_index(0xC004), 7 * 0x4000 + 4);
    assert_eq!(mapper.chr_index(0x0004), 0x0004);
    assert_eq!(mapper.mirroring(), Mirroring::SingleScreenLow);
    mapper.write_register(0xC010, 3);
    assert_eq!(mapper.prg_index(0x8004), 3 * 0x4000 + 4);
    mapper.write_register(0xC002, 0x34);
    mapper.write_register(0xC006, 0x02);
    assert_eq!(mapper.chr_index(0x0804), 0x0234 * 0x0400 + 4);
    mapper.write_register(0xC00A, 0x56);
    mapper.write_register(0xC00E, 0x01);
    assert_eq!(mapper.chr_index(0x1804), 0x0156 * 0x0400 + 4);
    mapper.write_register(0xC014, 0);
    assert_eq!(mapper.mirroring(), Mirroring::Vertical);
    mapper.write_register(0xC014, 1);
    assert_eq!(mapper.mirroring(), Mirroring::Horizontal);
    mapper.reset(true);
    assert_eq!(mapper.chr_index(0x1804), 0x0004);
    assert_eq!(mapper.mirroring(), Mirroring::SingleScreenLow);
}

#[test]
fn mapper166_selects_unrom_inverted_and_nrom_modes() {
    let mut mapper = Subor166::new(SuborVariant::Mapper166);
    assert_eq!(mapper.prg_index(0x8004), 0x0004);
    assert_eq!(mapper.prg_index(0xC004), 0x07 * 0x4000 + 4);
    assert_eq!(mapper.mirroring(), Mirroring::Vertical);
    mapper.write_register(0x8000, 0x11);
    mapper.write_register(0xC000, 0x03);
    assert_eq!(mapper.prg_index(0x8004), 0x23 * 0x4000 + 4);
    assert_eq!(mapper.prg_index(0xC004), 0x07 * 0x4000 + 4);
    assert_eq!(mapper.mirroring(), Mirroring::Horizontal);
    mapper.write_register(0xA000, 0x04);
    assert_eq!(mapper.prg_index(0x8004), 0x1F * 0x4000 + 4);
    assert_eq!(mapper.prg_index(0xC004), 0x23 * 0x4000 + 4);
    mapper.write_register(0xA000, 0x08);
    assert_eq!(mapper.prg_index(0x8004), 0x22 * 0x4000 + 4);
    assert_eq!(mapper.prg_index(0xC004), 0x23 * 0x4000 + 4);
    assert_eq!(mapper.chr_index(0x1ABC), 0x1ABC);
}

#[test]
fn mapper167_swaps_nrom_mode_and_uses_different_fixed_bank() {
    let mut mapper = Subor166::new(SuborVariant::Mapper167);
    assert_eq!(mapper.prg_index(0x8004), 0x0004);
    assert_eq!(mapper.prg_index(0xC004), 0x20 * 0x4000 + 4);
    mapper.write_register(0xC000, 0x03);
    mapper.write_register(0xA000, 0x08);
    assert_eq!(mapper.prg_index(0x8004), 0x03 * 0x4000 + 4);
    assert_eq!(mapper.prg_index(0xC004), 0x02 * 0x4000 + 4);
}

#[test]
fn mapper162_decodes_prg_and_hblank_chr_split() {
    let mut mapper = NanjingMapper::new(64, NanjingVariant::Mapper162);
    mapper.write_expansion(0x5000, 0x8D);
    mapper.write_expansion(0x5100, 0x02);
    mapper.write_expansion(0x5200, 0x01);
    mapper.write_expansion(0x5300, 0x05);
    assert_eq!(mapper.prg_index(0x8004), 0x1D * 0x8000 + 4);
    assert_eq!(mapper.read_expansion(0x5000), Some(0));
    mapper.hblank_clock(126, 0);
    assert_eq!(mapper.chr_index(0x1004), 0x0004);
    mapper.hblank_clock(127, 0);
    assert_eq!(mapper.chr_index(0x0004), 0x1000 + 4);
    assert_eq!(mapper.chr_index(0x1004), 0x1000 + 4);
    mapper.hblank_clock(239, 0);
    assert_eq!(mapper.chr_index(0x0004), 0x0004);
}

#[test]
fn mapper163_feedback_and_bit_swap_affect_prg_and_reads() {
    let mut mapper = NanjingMapper::new(64, NanjingVariant::Mapper163);
    mapper.write_expansion(0x5000, 0x8C);
    mapper.write_expansion(0x5200, 0x02);
    mapper.write_expansion(0x5300, 0x05);
    assert_eq!(mapper.prg_index(0x8004), 0x0C * 0x8000 + 4);
    mapper.write_expansion(0x5100, 0x02);
    assert_eq!(mapper.read_expansion(0x5000), Some(0x04));
    mapper.write_expansion(0x5101, 0x00);
    assert_eq!(mapper.read_expansion(0x5000), Some(0x00));
    mapper.hblank_clock(127, 0);
    assert_eq!(mapper.chr_index(0x0004), 0x1000 + 4);
    mapper.reset(true);
    assert_eq!(mapper.prg_index(0x8004), 0x03 * 0x8000 + 4);
    assert_eq!(mapper.chr_index(0x0004), 0x0004);
}

#[test]
fn tf1201_decodes_prg_chr_mirroring_and_swap_mode() {
    let mut mapper = Tf1201::new(16, 32);
    mapper.write_register(0x8000, 3);
    mapper.write_register(0xA000, 4);
    assert_eq!(mapper.prg_index(0x8004), 3 * 0x2000 + 4);
    assert_eq!(mapper.prg_index(0xA004), 4 * 0x2000 + 4);
    assert_eq!(mapper.prg_index(0xC004), 30 * 0x2000 + 4);
    assert_eq!(mapper.prg_index(0xE004), 31 * 0x2000 + 4);
    mapper.write_register(0x9001, 0x01);
    assert_eq!(mapper.prg_index(0x8004), 30 * 0x2000 + 4);
    assert_eq!(mapper.prg_index(0xC004), 3 * 0x2000 + 4);
    mapper.write_register(0x9000, 0x01);
    assert_eq!(mapper.mirroring(), Mirroring::Horizontal);
    mapper.write_register(0xB000, 0x05);
    mapper.write_register(0xB002, 0x06);
    mapper.write_register(0xB004, 0x07);
    mapper.write_register(0xB006, 0x08);
    assert_eq!(mapper.chr_index(0x0004), 0x65 * 0x400 + 4);
    assert_eq!(mapper.chr_index(0x0404), 0x87 * 0x400 + 4);
}

#[test]
fn tf1201_cpu_clock_irq_uses_scanline_prescaler() {
    let mut mapper = Tf1201::new(16, 32);
    mapper.write_register(0xF000, 0xFF);
    mapper.write_register(0xF002, 0x0F);
    mapper.write_register(0xF001, 0x02);
    assert!(mapper.clocks_cpu());
    assert!(!mapper.irq());
    for _ in 0..114 {
        mapper.cpu_clock();
    }
    assert!(mapper.irq());
    mapper.write_register(0xF003, 0x00);
    assert!(!mapper.irq());
}

#[test]
fn txc_chip_stages_accumulator_and_output() {
    let mut chip = TxcChip::new(false);
    chip.write(0x4102, 0x0D);
    chip.write(0x4100, 0);
    chip.write(0x8000, 0);
    assert_eq!(chip.output, 0x15);
    assert_eq!(chip.read() & 0x0F, 0x0D);
    chip.write(0x4103, 1);
    chip.write(0x4100, 0);
    chip.write(0x8000, 0);
    assert_eq!(chip.output, 0x16);
}

#[test]
fn reverse_six_bits_is_symmetric() {
    for value in 0..=0x3F {
        assert_eq!(reverse_six_bits(reverse_six_bits(value)), value);
    }
}

#[test]
fn bnrom_wraps_bank_to_rom_size() {
    let mut m = Bnrom::new(4, Mirroring::Vertical);
    m.write_register(0x8000, 3);
    assert_eq!(m.prg_index(0x8000), 0x8000);
    assert!(m.has_bus_conflicts());
}

#[test]
fn mapper95_routes_nametables_from_chr_register_high_bits() {
    let mut mapper = Namco108Mapper95::new(8);
    let mut ciram = [0u8; 0x1000];
    ciram[0x004] = 0x11;
    ciram[0x404] = 0x22;

    assert_eq!(mapper.peek_nametable(0x2004, &ciram), Some(0x11));
    assert_eq!(mapper.peek_nametable(0x2404, &ciram), Some(0x11));

    mapper.write_register(0x8000, 0);
    mapper.write_register(0x8001, 0x27);
    assert_eq!(mapper.chr_index(0x0004), 6 * 0x0400 + 4);
    assert_eq!(mapper.peek_nametable(0x2004, &ciram), Some(0x22));
    assert_eq!(mapper.peek_nametable(0x2404, &ciram), Some(0x22));
    assert_eq!(mapper.peek_nametable(0x2804, &ciram), Some(0x11));

    mapper.write_register(0x8000, 1);
    mapper.write_register(0x8001, 0x04);
    assert_eq!(mapper.peek_nametable(0x2804, &ciram), Some(0x11));
    mapper.write_register(0x8001, 0x24);
    assert_eq!(mapper.peek_nametable(0x2804, &ciram), Some(0x22));
    assert_eq!(mapper.peek_nametable(0x2C04, &ciram), Some(0x22));

    mapper.write_register(0x8000, 6);
    mapper.write_register(0x8001, 3);
    mapper.write_register(0x8000, 7);
    mapper.write_register(0x8001, 4);
    assert_eq!(mapper.prg_index(0x8000), 3 * 0x2000);
    assert_eq!(mapper.prg_index(0xA000), 4 * 0x2000);
    assert_eq!(mapper.prg_index(0xC000), 14 * 0x2000);
    assert_eq!(mapper.prg_index(0xE000), 15 * 0x2000);
    assert_eq!(mapper.mirroring(), Mirroring::FourScreen);
}

#[test]
fn mapper206_uses_namco108_masks_without_irq() {
    let mut mapper = Namco108Mapper206::new(8, Mirroring::Horizontal);

    assert_eq!(mapper.prg_index(0x8000), 0);
    assert_eq!(mapper.prg_index(0xA000), 0x2000);
    assert_eq!(mapper.prg_index(0xC000), 14 * 0x2000);
    assert_eq!(mapper.prg_index(0xE000), 15 * 0x2000);

    mapper.write_register(0x8000, 0);
    mapper.write_register(0x8001, 0x43);
    mapper.write_register(0x8000, 1);
    mapper.write_register(0x8001, 0x45);
    mapper.write_register(0x8000, 2);
    mapper.write_register(0x8001, 0x7F);
    mapper.write_register(0x8000, 6);
    mapper.write_register(0x8001, 0x2F);
    mapper.write_register(0x8000, 7);
    mapper.write_register(0x8001, 0x31);

    assert_eq!(mapper.chr_index(0x0004), 2 * 0x0400 + 4);
    assert_eq!(mapper.chr_index(0x0804), 4 * 0x0400 + 4);
    assert_eq!(mapper.chr_index(0x1004), 0x3F * 0x0400 + 4);
    assert_eq!(mapper.prg_index(0x8004), 0x0F * 0x2000 + 4);
    assert_eq!(mapper.prg_index(0xA004), 0x01 * 0x2000 + 4);
    assert_eq!(mapper.mirroring(), Mirroring::Horizontal);
}

#[test]
fn mapper154_uses_namco118_banks_with_single_screen_mirroring() {
    let mut mapper = Namco108Mapper154::new(8);

    assert_eq!(mapper.mirroring(), Mirroring::SingleScreenLow);
    mapper.write_register(0x8000, 0x40 | 6);
    assert_eq!(mapper.mirroring(), Mirroring::SingleScreenHigh);
    mapper.write_register(0x8001, 3);
    assert_eq!(mapper.prg_index(0x8004), 3 * 0x2000 + 4);
    mapper.write_register(0x8000, 0x00);
    mapper.write_register(0x8001, 8);
    assert_eq!(mapper.chr_index(0x0004), 8 * 0x0400 + 4);
}

#[test]
fn namco118_sets_bit6_on_1k_banks_and_ignores_low_writes() {
    let mut mapper = Namco118::new(4, Mirroring::Vertical);
    mapper.write_register(0x8000, 2);
    mapper.write_register(0x8001, 0x05);
    assert_eq!(mapper.chr_index(0x1004), (0x05 | 0x40) * 0x0400 + 4);
    mapper.write_register(0x6001, 0x07);
    assert_eq!(mapper.chr_index(0x1004), (0x05 | 0x40) * 0x0400 + 4);
    assert_eq!(mapper.prg_index(0xE000), 7 * 0x2000);
}
