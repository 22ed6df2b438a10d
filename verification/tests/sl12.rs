use fc_core::mapper::sl12::Mapper116;
use fc_core::Mirroring;

fn write_mmc1_value(mapper: &mut Mapper116, addr: u16, value: u8) {
    for bit in 0..5 {
        mapper.write_register(addr, (value >> bit) & 1);
    }
}

#[test]
fn mapper116_vrc2_mode_switches_prg_chr_and_mirroring() {
    let mut mapper = Mapper116::new(32, 64);

    mapper.write_register(0x8000, 3);
    mapper.write_register(0xA000, 4);
    mapper.write_register(0x9000, 1);
    assert_eq!(mapper.prg_index(0x8004), 3 * 0x2000 + 4);
    assert_eq!(mapper.prg_index(0xA004), 4 * 0x2000 + 4);
    assert_eq!(mapper.prg_index(0xC004), 62 * 0x2000 + 4);
    assert_eq!(mapper.mirroring(), Mirroring::Horizontal);

    mapper.write_register(0xB000, 0x05);
    mapper.write_register(0xB001, 0x02);
    assert_eq!(mapper.chr_index(0x0004), 0x25 * 0x0400 + 4);
}

#[test]
fn mapper116_mmc3_mode_uses_a12_irq_and_chr_outer_bit() {
    let mut mapper = Mapper116::new(32, 128);

    mapper.write_expansion(0x4100, 0x05);
    mapper.write_register(0x8000, 0x82);
    mapper.write_register(0x8001, 0x2A);
    assert_eq!(mapper.chr_index(0x0004), 0x12A * 0x0400 + 4);

    mapper.write_register(0x8000, 0x46);
    mapper.write_register(0x8001, 0x08);
    assert_eq!(mapper.prg_index(0x8004), 62 * 0x2000 + 4);
    assert_eq!(mapper.prg_index(0xC004), 8 * 0x2000 + 4);

    mapper.write_register(0xC000, 1);
    mapper.write_register(0xC001, 0);
    mapper.write_register(0xE001, 0);
    mapper.notify_a12(0x0000, 0);
    mapper.notify_a12(0x1000, 12);
    mapper.notify_a12(0x0000, 15);
    mapper.notify_a12(0x1000, 27);
    assert!(mapper.irq());
}

#[test]
fn mapper116_mmc1_mode_shifts_serial_registers_and_can_reset_on_4101() {
    let mut mapper = Mapper116::new(32, 64);

    mapper.write_expansion(0x4100, 0x02);
    write_mmc1_value(&mut mapper, 0x8000, 0x1C);
    write_mmc1_value(&mut mapper, 0xE000, 0x03);
    assert_eq!(mapper.prg_index(0x8004), 6 * 0x2000 + 4);
    assert_eq!(mapper.prg_index(0xC004), 30 * 0x2000 + 4);

    mapper.write_expansion(0x4101, 0x02);
    assert_eq!(mapper.prg_index(0x8004), 4);
    assert_eq!(mapper.prg_index(0xC004), 30 * 0x2000 + 4);
}

#[test]
fn mapper116_mode_register_ignores_addresses_without_bit8_and_14() {
    let mut mapper = Mapper116::new(32, 64);
    assert!(!mapper.write_low_register(0x6000, 0x01));
    assert!(mapper.write_low_register(0x6100, 0x01));
    mapper.write_register(0xA000, 1);
    assert_eq!(mapper.mirroring(), Mirroring::Horizontal);
    mapper.write_register(0xE000, 0);
    mapper.clear_irq();
    assert!(!mapper.irq());
}
