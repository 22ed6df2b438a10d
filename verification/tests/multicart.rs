use fc_core::mapper::multicart::{ActionEnterprises, AddrLatch16k, AddrLatchVariant};
use fc_core::Mirroring;

#[test]
fn mapper228_decodes_action_enterprises_address_and_nibble_ram() {
    let mut mapper = ActionEnterprises::new();

    assert_eq!(mapper.prg_index(0x8004), 0x00004);
    assert_eq!(mapper.prg_index(0xC004), 1 * 0x4000 + 4);
    assert_eq!(mapper.mirroring(), Mirroring::Vertical);

    mapper.write_register(0xA0E5, 0x03);
    assert_eq!(mapper.prg_index(0x8004), 3 * 0x4000 + 4);
    assert_eq!(mapper.prg_index(0xC004), 3 * 0x4000 + 4);
    assert_eq!(mapper.chr_index(0x1004), 0x17 * 0x2000 + 0x1004);
    assert_eq!(mapper.mirroring(), Mirroring::Horizontal);

    mapper.write_expansion(0x5002, 0xAB);
    assert_eq!(mapper.peek_expansion(0x5002), Some(0x0B));
    assert_eq!(mapper.read_expansion(0x5006), Some(0x0B));

    mapper.reset(true);
    assert_eq!(mapper.peek_expansion(0x5002), Some(0));
    assert_eq!(mapper.prg_index(0xC004), 1 * 0x4000 + 4);
}

#[test]
fn mapper255_uses_bmc255_address_latch_formula() {
    let mut mapper = AddrLatch16k::new(AddrLatchVariant::Mapper255);

    mapper.write_register(0xA123, 0);
    assert_eq!(mapper.prg_index(0x8004), 4 * 0x4000 + 4);
    assert_eq!(mapper.prg_index(0xC004), 5 * 0x4000 + 4);
    assert_eq!(mapper.chr_index(0x1004), 0x23 * 0x2000 + 0x1004);
    assert_eq!(mapper.mirroring(), Mirroring::Horizontal);

    mapper.write_register(0x9123, 0);
    assert_eq!(mapper.prg_index(0x8004), 4 * 0x4000 + 4);
    assert_eq!(mapper.prg_index(0xC004), 4 * 0x4000 + 4);
    assert_eq!(mapper.mirroring(), Mirroring::Vertical);
}

#[test]
fn mapper221_uses_mode_and_prg_latches() {
    let mut mapper = AddrLatch16k::new_221(128, 0);

    mapper.write_register(0x8002, 0);
    mapper.write_register(0xC005, 0);
    assert_eq!(mapper.prg_index(0x8004), 4 * 0x4000 + 4);
    assert_eq!(mapper.prg_index(0xC004), 5 * 0x4000 + 4);
    assert_eq!(mapper.chr_index(0x1004), 0x1004);
    assert_eq!(mapper.mirroring(), Mirroring::Vertical);

    mapper.write_register(0x8101, 0);
    assert_eq!(mapper.prg_index(0x8004), 5 * 0x4000 + 4);
    assert_eq!(mapper.prg_index(0xC004), (5 | 7) * 0x4000 + 4);
    assert_eq!(mapper.mirroring(), Mirroring::Horizontal);

    let mut sub1 = AddrLatch16k::new_221(32, 1);
    sub1.write_register(0xC007, 0);
    sub1.write_register(0x8100, 0);
    assert_eq!(sub1.peek_register_with_open_bus(0x8000, 0x55, 0xA5), Some(0xA5));
}

#[test]
fn mapper59_reads_zero_after_latching_bit8() {
    let mut mapper = AddrLatch16k::new(AddrLatchVariant::Mapper59);
    assert_eq!(mapper.peek_register_with_open_bus(0x8000, 0x55, 0xA5), None);
    mapper.write_register(0x8135, 0);
    assert_eq!(mapper.peek_register_with_open_bus(0x8000, 0x55, 0xA5), Some(0));
    assert_eq!(mapper.prg_index(0x8000), 6 * 0x4000);
    assert_eq!(mapper.chr_index(0x0000), 5 * 0x2000);
    assert_eq!(mapper.mirroring(), Mirroring::Horizontal);
}

#[test]
fn mapper58_and_227_decode_their_address_bits() {
    let mut m58 = AddrLatch16k::new(AddrLatchVariant::Mapper58);
    m58.write_register(0x80DD, 0);
    assert_eq!(m58.prg_index(0x8000), 5 * 0x4000);
    assert_eq!(m58.prg_index(0xC000), 5 * 0x4000);
    assert_eq!(m58.chr_index(0), 3 * 0x2000);
    assert_eq!(m58.mirroring(), Mirroring::Horizontal);

    let mut m227 = AddrLatch16k::new(AddrLatchVariant::Mapper227);
    m227.write_register(0x8214, 0);
    assert_eq!(m227.prg_index(0x8000), 5 * 0x4000);
    assert_eq!(m227.prg_index(0xC000), 7 * 0x4000);
}

#[test]
fn mapper216_answers_5000_with_zero() {
    let mut mapper = AddrLatch16k::new(AddrLatchVariant::Mapper216);
    assert_eq!(mapper.peek_expansion(0x5000), Some(0));
    assert_eq!(mapper.read_expansion(0x5001), None);
    mapper.write_register(0x8007, 0);
    assert_eq!(mapper.prg_index(0x8000), 2 * 0x4000);
    assert_eq!(mapper.chr_index(0), 3 * 0x2000);
}
