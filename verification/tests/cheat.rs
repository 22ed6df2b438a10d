use fc_core::cartridge::Cartridge;
use fc_core::cheat::{apply_cheats, decode_game_genie, decode_raw, parse, ram_pokes, sync_patches};
use fc_core::cpu::step::FlatBus;

#[test]
fn raw_poke() {
    assert_eq!(decode_raw("07F8:09"), Some((0x07F8, 0x09, None)));
}

#[test]
fn raw_compare() {
    assert_eq!(decode_raw("0010?00:99"), Some((0x0010, 0x99, Some(0x00))));
}

#[test]
fn gg_all_a() {
    assert_eq!(decode_game_genie("AAAAAA"), Some((0x8000, 0x00, None)));
}

#[test]
fn gg_lengths() {
    assert!(decode_game_genie("SXIOPO").is_some());
    assert!(decode_game_genie("YEUZUGAA").map_or(false, |(_, _, c)| c.is_some()));
    assert!(decode_game_genie("BADCODE").is_none());
}

#[test]
fn gg_addr_in_rom() {
    let (addr, _, _) = decode_game_genie("SXIOPO").unwrap();
    assert!(addr >= 0x8000);
}

#[test]
fn raw_rejects_malformed_codes() {
    assert_eq!(decode_raw("07F8"), None);
    assert_eq!(decode_raw("XYZ:01"), None);
    assert_eq!(decode_raw("07F8:1FF"), None);
    assert_eq!(decode_raw("10000:01"), None);
}

#[test]
fn gg_is_case_insensitive_and_trims() {
    assert_eq!(decode_game_genie("aaaaaa"), Some((0x8000, 0x00, None)));
    assert_eq!(decode_game_genie("  AAAAAA  "), Some((0x8000, 0x00, None)));
}

#[test]
fn parse_prefers_game_genie_and_keeps_trimmed_code() {
    let c = parse("  07F8:09 ", "lives").unwrap();
    assert_eq!(c.addr, 0x07F8);
    assert_eq!(c.value, 0x09);
    assert_eq!(c.compare, None);
    assert!(c.enabled);
    assert_eq!(c.code, "07F8:09");
    assert_eq!(c.desc, "lives");
    assert!(!c.is_rom_patch());
    let g = parse("SXIOPO", "").unwrap();
    assert!(g.is_rom_patch());
    assert!(parse("hello!", "").is_none());
}

#[test]
fn gg_standard_layout_known_codes() {
    assert_eq!(decode_game_genie("SXIOPO"), Some((0x91D9, 0xAD, None)));
    assert_eq!(decode_game_genie("YEUZUGAA"), Some((0xACB3, 0x07, Some(0x00))));
}

#[test]
fn sync_patches_keeps_enabled_rom_cheats_later_wins() {
    let mut a = parse("8000:11", "").unwrap();
    a.enabled = true;
    let b = parse("8000?22:33", "").unwrap();
    let mut off = parse("9000:44", "").unwrap();
    off.enabled = false;
    let ram = parse("0010:55", "").unwrap();
    let plain = parse("8002:77", "").unwrap();
    let cheats = vec![a, b, off, ram, plain];
    let mut cart = Cartridge::empty();
    cart.patches.insert(0xA000, (1, None));
    sync_patches(&mut cart, &cheats);
    assert_eq!(cart.patches.len(), 2);
    assert_eq!(cart.patches.get(&0x8000), Some(&(0x33, Some(0x22))));
    assert_eq!(cart.cpu_read(0x8000), 0xEA);
    assert_eq!(cart.cpu_read(0x8002), 0x77);
    assert_eq!(cart.cpu_read(0xA000), 0xEA);
}

#[test]
fn ram_pokes_lists_enabled_low_cheats_in_order() {
    let a = parse("0010:55", "").unwrap();
    let rom = parse("8000:11", "").unwrap();
    let mut off = parse("0020:66", "").unwrap();
    off.enabled = false;
    let b = parse("07F8?01:09", "").unwrap();
    let pokes = ram_pokes(&vec![a, rom, off, b]);
    assert_eq!(pokes, vec![(0x0010, 0x55, None), (0x07F8, 0x09, Some(0x01))]);
}

#[test]
fn apply_cheats_pokes_ram_with_compare_gate() {
    let mut bus = FlatBus::new();
    bus.mem[0x0020] = 0x05;
    let lives = parse("0010:09", "").unwrap();
    let gated_hit = parse("0020?05:63", "").unwrap();
    let gated_miss = parse("0030?01:44", "").unwrap();
    let rom = parse("8000:11", "").unwrap();
    apply_cheats(&mut bus, &vec![lives, gated_hit, gated_miss, rom]);
    assert_eq!(bus.mem[0x0010], 0x09);
    assert_eq!(bus.mem[0x0020], 0x63);
    assert_eq!(bus.mem[0x0030], 0x00);
    assert_eq!(bus.mem[0x8000], 0x00);
}
