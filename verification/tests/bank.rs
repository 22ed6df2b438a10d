use fc_core::mapper::bank::{
    chr_1k_at, chr_2k_at, chr_4k_at, chr_8k, prg_16k_at, prg_32k, prg_8k_at, ChrBankSource,
    ChrRamWindow,
};

#[test]
fn prg_helpers_map_cpu_windows() {
    assert_eq!(prg_32k(2, 0x8123), 2 * 0x8000 + 0x0123);
    assert_eq!(prg_16k_at(3, 0xC123, 0xC000), 3 * 0x4000 + 0x0123);
    assert_eq!(prg_8k_at(7, 0xE456, 0xE000), 7 * 0x2000 + 0x0456);
}

#[test]
fn chr_helpers_map_ppu_windows() {
    assert_eq!(chr_8k(5, 0x1ABC), 5 * 0x2000 + 0x1ABC);
    assert_eq!(chr_4k_at(6, 0x17FE, 0x1000), 6 * 0x1000 + 0x07FE);
    assert_eq!(chr_2k_at(9, 0x0ABC, 0x0800), 9 * 0x0800 + 0x02BC);
    assert_eq!(chr_1k_at(12, 0x13FF, 0x1000), 12 * 0x0400 + 0x03FF);
}

#[test]
fn chr_ram_window_routes_selected_1k_banks_to_ram() {
    let window = ChrRamWindow::new(8, 11);

    assert_eq!(window.source_for(7, 0x0123, 0x1000), ChrBankSource::Rom(7 * 0x0400 + 0x0123));
    assert_eq!(window.source_for(8, 0x0123, 0x1000), ChrBankSource::Ram(0x0123));
    assert_eq!(window.source_for(11, 0x03FF, 0x1000), ChrBankSource::Ram(0x0FFF));
    assert_eq!(window.ram_index(12, 0x0000, 0x1000), None);

    let wrapped = ChrRamWindow::new(0x40, 0x7F);
    assert_eq!(wrapped.source_for(0x47, 0x0004, 0x2000), ChrBankSource::Ram(0x1C04));
    assert_eq!(wrapped.source_for(0x48, 0x0004, 0x2000), ChrBankSource::Ram(0x0004));
}

#[test]
fn page_offsets_wrap_below_the_base() {
    assert_eq!(prg_16k_at(1, 0x8000, 0xC000), 0x4000);
    assert_eq!(chr_1k_at(0, 0x0000, 0x0400), 0);
}
