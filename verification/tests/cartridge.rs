use fc_core::cartridge::{
    chr_rom_size, corrected_mapper_number, mapper_corrections, nes20_ram_size, prg_rom_size,
    Cartridge, CartridgeError,
};
use fc_core::mapper::ChrAccess;
use fc_core::{Mirroring, Region};

const INES_MAGIC: [u8; 4] = [0x4E, 0x45, 0x53, 0x1A];

fn header(nes20: bool) -> [u8; 16] {
    let mut h = [0u8; 16];
    h[0..4].copy_from_slice(&INES_MAGIC);
    h[4] = 1;
    h[5] = 1;
    if nes20 {
        h[7] = 0x08;
    }
    h
}

#[test]
fn detects_nes20_region_hint() {
    let mut h = header(true);
    h[12] = 1;
    assert_eq!(Cartridge::region_hint_from_header(&h), Some(Region::Pal));
    h[12] = 3;
    assert_eq!(Cartridge::region_hint_from_header(&h), Some(Region::Dendy));
    h[12] = 2;
    assert_eq!(Cartridge::region_hint_from_header(&h), Some(Region::Ntsc));
}

#[test]
fn detects_ines_pal_and_filename_hints() {
    let mut h = header(false);
    assert_eq!(Cartridge::region_hint_from_header(&h), None);
    h[9] = 1;
    assert_eq!(Cartridge::region_hint_from_header(&h), Some(Region::Pal));
    assert_eq!(Cartridge::region_hint_from_name("Game (Europe).nes"), Some(Region::Pal));
    assert_eq!(Cartridge::region_hint_from_name("Game Dendy.nes"), Some(Region::Dendy));
}

#[test]
fn mapper_correction_keeps_unknown_crc_header_mapper() {
    let data = [0u8; 32];
    assert_eq!(corrected_mapper_number(74, &data), 74);
}

#[test]
fn mapper_correction_can_remap_known_bad_header() {
    assert!(mapper_corrections().iter().any(|c| c.crc32 == 0xD0F6_CBCF && c.mapper == 194));
}

#[test]
fn parses_nes20_extended_rom_and_ram_sizes() {
    assert_eq!(prg_rom_size(0, 0, false), 256 * 0x4000);
    assert_eq!(prg_rom_size(2, 0, true), 2 * 0x4000);
    assert_eq!(prg_rom_size(1, 1, true), 0x101 * 0x4000);
    assert_eq!(chr_rom_size(1, 0x10, true), 0x101 * 0x2000);
    assert_eq!(prg_rom_size(0b0001_0110, 0x0F, true), 5 << 5);
    assert_eq!(nes20_ram_size(0), 0);
    assert_eq!(nes20_ram_size(1), 128);
    assert_eq!(nes20_ram_size(6), 4096);
    assert_eq!(nes20_ram_size(15), 2 * 1024 * 1024);
}

#[test]
fn cartridge_keeps_nes20_submapper_and_memory_metadata() {
    let mut rom = vec![0u8; 16 + 0x4000];
    rom[0..4].copy_from_slice(&INES_MAGIC);
    rom[4] = 1;
    rom[5] = 0;
    rom[7] = 0x08;
    rom[8] = 0x30;
    rom[10] = 0x76;
    rom[11] = 0x54;

    let cart = Cartridge::from_bytes(&rom).expect("nes 2.0 rom");
    assert!(cart.is_nes20);
    assert_eq!(cart.mapper_number, 0);
    assert_eq!(cart.submapper, 3);
    assert_eq!(cart.prg_rom.len(), 0x4000);
    assert_eq!(cart.prg_ram_size, 4096);
    assert_eq!(cart.prg_nvram_size, 8192);
    assert_eq!(cart.prg_ram.len(), 4096 + 8192);
    assert!(cart.uses_chr_ram);
    assert_eq!(cart.chr_ram_size, 1024);
    assert_eq!(cart.chr_nvram_size, 2048);
    assert_eq!(cart.chr_ram.len(), 1024 + 2048);
}

#[test]
fn ines_mapper13_defaults_to_16k_chr_ram() {
    let mut rom = vec![0u8; 16 + 0x8000];
    rom[0..4].copy_from_slice(&INES_MAGIC);
    rom[4] = 2;
    rom[5] = 0;
    rom[6] = 0xD0;

    let cart = Cartridge::from_bytes(&rom).expect("cprom");
    assert_eq!(cart.mapper_number, 13);
    assert!(cart.uses_chr_ram);
    assert_eq!(cart.chr_ram_size, 16 * 1024);
    assert_eq!(cart.chr_ram.len(), 16 * 1024);
}

#[test]
fn bnrom_applies_bus_conflict_before_register_write() {
    let mut rom = vec![0u8; 16 + 4 * 0x4000];
    rom[0..4].copy_from_slice(&INES_MAGIC);
    rom[4] = 4;
    rom[5] = 0;
    rom[6] = 0x20;
    rom[7] = 0x20;
    rom[16] = 0x01;
    rom[16 + 0x8000] = 0xAB;

    let mut cart = Cartridge::from_bytes(&rom).expect("bnrom");
    assert!(cart.cpu_write(0x8000, 0x03));
    assert_eq!(cart.cpu_peek(0x8000), 0xAB);
}

#[test]
fn from_bytes_reports_each_error() {
    assert_eq!(Cartridge::from_bytes(&[0u8; 8]).err(), Some(CartridgeError::InvalidHeader));
    assert_eq!(Cartridge::from_bytes(&[0u8; 16]).err(), Some(CartridgeError::BadMagic));
    let mut short = vec![0u8; 16 + 0x100];
    short[0..4].copy_from_slice(&INES_MAGIC);
    short[4] = 1;
    assert_eq!(
        Cartridge::from_bytes(&short).err(),
        Some(CartridgeError::Truncated { expected: 16 + 0x4000, actual: 16 + 0x100 })
    );
    let mut odd = vec![0u8; 16 + 0x4000];
    odd[0..4].copy_from_slice(&INES_MAGIC);
    odd[4] = 1;
    odd[6] = 0xE0;
    odd[7] = 0xF0;
    assert_eq!(Cartridge::from_bytes(&odd).err(), Some(CartridgeError::UnsupportedMapper(254)));
}

#[test]
fn empty_cartridge_is_nrom_with_nop_program() {
    let mut cart = Cartridge::empty();
    assert_eq!(cart.mapper_number, 0);
    assert!(!cart.mapper_watches_ppu_bus);
    assert!(!cart.mapper_clocks_cpu);
    assert!(!cart.mapper_has_chr_read);
    assert_eq!(cart.cpu_read(0x8000), 0xEA);
    assert_eq!(cart.cpu_read(0xFFFC), 0x00);
    assert_eq!(cart.cpu_read(0xFFFD), 0x80);
    assert_eq!(cart.mirroring(), Mirroring::Horizontal);
    assert_eq!(cart.ppu_read_for(0x0000, ChrAccess::Default), 0);
}

#[test]
fn prg_ram_round_trips_and_patches_apply() {
    let mut cart = Cartridge::empty();
    assert!(!cart.cpu_write(0x6000, 0x42));
    assert_eq!(cart.cpu_read(0x6000), 0x42);
    cart.patches.insert(0x8000, (0x60, Some(0xEA)));
    assert_eq!(cart.cpu_read(0x8000), 0x60);
    cart.patches.insert(0x8001, (0x60, Some(0x00)));
    assert_eq!(cart.cpu_read(0x8001), 0xEA, "compare mismatch leaves the ROM byte");
}

#[test]
fn a12_board_caches_ppu_bus_watch_and_refreshes() {
    let mut rom = vec![0u8; 16 + 2 * 0x4000 + 0x2000];
    rom[0..4].copy_from_slice(&INES_MAGIC);
    rom[4] = 2;
    rom[5] = 1;
    rom[6] = 0x50;
    rom[7] = 0x70;
    let cart = Cartridge::from_bytes(&rom).expect("mapper 117 rom");
    assert_eq!(cart.mapper_number, 117);
    assert!(cart.mapper_watches_ppu_bus);
    assert!(!cart.mapper_clocks_cpu);
    assert!(!cart.mapper_has_chr_read);

    let mut loaded = cart;
    loaded.mapper_watches_ppu_bus = false;
    loaded.mapper_clocks_cpu = true;
    loaded.refresh_mapper_caps();
    assert!(loaded.mapper_watches_ppu_bus);
    assert!(!loaded.mapper_clocks_cpu);
}

#[test]
fn reset_vector_read_commits_mapper175_prg() {
    let mut rom = vec![0u8; 16 + 4 * 0x4000 + 0x2000];
    rom[0..4].copy_from_slice(&INES_MAGIC);
    rom[4] = 4;
    rom[5] = 1;
    rom[6] = 0xF0;
    rom[7] = 0xA0;
    rom[16 + 0x4000] = 0x5A;
    let mut cart = Cartridge::from_bytes(&rom).expect("mapper 175 rom");
    assert_eq!(cart.mapper_number, 175);
    cart.cpu_write(0xA000, 1);
    assert_eq!(cart.cpu_peek(0x8000), 0);
    assert_eq!(cart.cpu_peek(0xFFFC), 0);
    assert_eq!(cart.cpu_peek(0x8000), 0);
    let _ = cart.cpu_read(0xFFFC);
    assert_eq!(cart.cpu_peek(0x8000), 0x5A);
}

#[test]
fn error_messages_spell_out_the_numbers() {
    assert_eq!(CartridgeError::InvalidHeader.message(), "ROM too small / invalid header");
    assert_eq!(CartridgeError::BadMagic.message(), "bad iNES magic");
    assert_eq!(
        CartridgeError::Truncated { expected: 32784, actual: 272 }.message(),
        "ROM truncated: expected 32784 bytes, got 272"
    );
    assert_eq!(CartridgeError::UnsupportedMapper(254).message(), "unsupported mapper 254");
    assert_eq!(CartridgeError::UnsupportedMapper(0).message(), "unsupported mapper 0");
}

#[test]
fn placeholder_cartridge_points_every_vector_at_8000() {
    let c = Cartridge::empty();
    assert_eq!(c.mapper_number, 0);
    assert_eq!(c.prg_rom.len(), 0x4000);
    assert_eq!(c.chr_rom.len(), 0x2000);
    assert!(!c.uses_chr_ram);
    assert_eq!(c.cpu_peek(0x8000), 0xEA);
    assert_eq!((c.cpu_peek(0xFFFA), c.cpu_peek(0xFFFB)), (0x00, 0x80));
    assert_eq!((c.cpu_peek(0xFFFC), c.cpu_peek(0xFFFD)), (0x00, 0x80));
    assert_eq!((c.cpu_peek(0xFFFE), c.cpu_peek(0xFFFF)), (0x00, 0x80));
    assert!(!c.mapper_watches_ppu_bus);
    assert!(!c.mapper_clocks_cpu);
    let img = Cartridge::empty_image();
    let from_image = Cartridge::from_bytes(&img).unwrap();
    assert_eq!(from_image.prg_rom, c.prg_rom);
}
