use fc_core::mapper::bandai::BandaiFcg;
use fc_core::Mirroring;

fn lines(m: &mut BandaiFcg, scl: u8, sda: u8) {
    m.write_register(0x800D, (scl << 5) | (sda << 6));
}

fn start(m: &mut BandaiFcg) {
    lines(m, 0, 1);
    lines(m, 1, 1);
    lines(m, 1, 0);
    lines(m, 0, 0);
}

fn stop(m: &mut BandaiFcg) {
    lines(m, 0, 0);
    lines(m, 1, 0);
    lines(m, 1, 1);
}

fn send_byte(m: &mut BandaiFcg, byte: u8) {
    for i in (0..8).rev() {
        let b = (byte >> i) & 1;
        lines(m, 0, b);
        lines(m, 1, b);
        lines(m, 0, b);
    }
}

fn ack(m: &mut BandaiFcg) {
    lines(m, 1, 0);
    lines(m, 0, 0);
}

fn sda_out(m: &BandaiFcg) -> u8 {
    (m.peek_low_register_with_open_bus(0x6000, 0, 0).unwrap() >> 4) & 1
}

#[test]
fn eeprom_stores_and_reads_back_a_byte() {
    let mut m = BandaiFcg::new(16, 16, 0);
    start(&mut m);
    send_byte(&mut m, 0xA0);
    ack(&mut m);
    send_byte(&mut m, 0x05);
    ack(&mut m);
    send_byte(&mut m, 0x5A);
    ack(&mut m);
    stop(&mut m);

    start(&mut m);
    send_byte(&mut m, 0xA0);
    ack(&mut m);
    send_byte(&mut m, 0x05);
    ack(&mut m);
    start(&mut m);
    send_byte(&mut m, 0xA1);
    ack(&mut m);
    let mut byte = 0u8;
    for _ in 0..8 {
        lines(&mut m, 1, 1);
        byte = (byte << 1) | sda_out(&m);
        lines(&mut m, 0, 1);
    }
    assert_eq!(byte, 0x5A);
}

#[test]
fn fcg_registers_bank_and_mirror() {
    let mut m = BandaiFcg::new(16, 32, 0);
    m.write_register(0x8008, 0x13);
    assert_eq!(m.prg_index(0x8004), 3 * 0x4000 + 4);
    assert_eq!(m.prg_index(0xC004), 15 * 0x4000 + 4);
    m.write_register(0x8002, 0x21);
    assert_eq!(m.chr_index(0x0804), 0x21 * 0x0400 + 4);
    m.write_register(0x8009, 0x03);
    assert_eq!(m.mirroring(), Mirroring::SingleScreenHigh);
    assert!(m.write_low_register(0x6009, 0x01));
    assert_eq!(m.mirroring(), Mirroring::Horizontal);
}

#[test]
fn lz93d50_irq_reloads_from_latch_and_fires_at_zero() {
    let mut m = BandaiFcg::new(16, 32, 5);
    assert!(!m.write_low_register(0x600B, 0x02));
    m.write_register(0x800B, 0x02);
    m.write_register(0x800C, 0x00);
    m.write_register(0x800A, 0x01);
    m.cpu_clock();
    m.cpu_clock();
    assert!(!m.irq());
    m.cpu_clock();
    assert!(m.irq());
    m.clear_irq();
    assert!(!m.irq());
    m.reset(true);
    assert_eq!(m.prg_index(0x8000), 0);
}

#[test]
fn fcg_submapper4_loads_counter_directly_and_has_no_eeprom() {
    let mut m = BandaiFcg::new(16, 32, 4);
    assert!(m.write_low_register(0x600B, 0x01));
    m.write_register(0x8008, 0x05);
    assert_eq!(m.prg_index(0x8000), 0);
    assert!(m.write_low_register(0x600A, 0x01));
    m.cpu_clock();
    assert!(!m.irq());
    m.cpu_clock();
    assert!(m.irq());
    assert_eq!(m.peek_low_register_with_open_bus(0x6000, 0, 0xFF), Some(0xEF));
}
