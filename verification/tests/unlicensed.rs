use fc_core::mapper::bootleg::{Mapper272, Mapper330};
use fc_core::mapper::unlicensed::{Mapper183, Mapper212, Mapper222, Mapper235, Mapper60, Mapper83};
use fc_core::Mirroring;

#[test]
fn mapper60_soft_reset_steps_game() {
    let mut m = Mapper60::new(Mirroring::Vertical);
    assert_eq!(m.prg_index(0x8004), 4);
    m.reset(true);
    assert_eq!(m.prg_index(0xC004), 0x4000 + 4);
    assert_eq!(m.chr_index(0x0010), 0x2000 + 0x10);
    m.reset(false);
    assert_eq!(m.prg_index(0xC004), 0x4000 + 4);
    m.reset(true);
    m.reset(true);
    m.reset(true);
    assert_eq!(m.prg_index(0xC004), 4);
}

#[test]
fn mapper83_modes_counter_and_scratch() {
    let mut m = Mapper83::new(16, 32);
    assert_eq!(m.prg_index(0x8004), 4);
    assert_eq!(m.prg_index(0xE004), 31 * 0x2000 + 4);
    m.write_register(0x8300, 5);
    assert_eq!(m.prg_index(0x8004), 5 * 0x2000 + 4);
    m.write_register(0x8310, 0x12);
    assert_eq!(m.chr_index(0x0010), 0x12 * 0x400 + 0x10);
    m.write_register(0x8000, 0x23);
    assert_eq!(m.prg_index(0x8004), 6 * 0x2000 + 4);
    assert_eq!(m.prg_index(0xC004), 30 * 0x2000 + 4);
    assert_eq!(m.chr_index(0x0010), 0x24 * 0x400 + 0x10);
    assert_eq!(m.chr_index(0x0410), 0x25 * 0x400 + 0x10);
    m.write_register(0x8312, 1);
    assert_eq!(m.chr_index(0x0010), 0x12 * 0x400 + 0x10);
    m.write_register(0x8100, 0x01);
    assert_eq!(m.mirroring(), Mirroring::Horizontal);

    m.write_register(0x8100, 0x81);
    m.write_register(0x8200, 3);
    m.write_register(0x8201, 0);
    m.cpu_clock();
    m.cpu_clock();
    assert!(!m.irq());
    m.cpu_clock();
    assert!(m.irq());
    assert_eq!(m.irq_counter, 0xFFFF);

    assert_eq!(m.peek_expansion(0x5000), Some(0));
    m.write_expansion(0x5102, 0x77);
    assert_eq!(m.peek_expansion(0x5102), Some(0x77));
    assert_eq!(m.peek_expansion(0x5200), None);
}

#[test]
fn mapper183_vrc_decode_low_window_and_prescaled_irq() {
    let mut m = Mapper183::new(16, 32);
    m.write_register(0x8800, 5);
    m.write_register(0xA800, 6);
    m.write_register(0xA000, 7);
    assert_eq!(m.prg_index(0x8004), 5 * 0x2000 + 4);
    assert_eq!(m.prg_index(0xA004), 6 * 0x2000 + 4);
    assert_eq!(m.prg_index(0xC004), 7 * 0x2000 + 4);
    assert_eq!(m.prg_index(0xE004), 31 * 0x2000 + 4);
    assert!(m.write_low_register(0x6805, 0));
    assert_eq!(m.low_prg_index(0x6004), Some(5 * 0x2000 + 4));

    m.write_register(0xB000, 0x03);
    m.write_register(0xB004, 0x02);
    assert_eq!(m.chr_index(0x0010), 0x23 * 0x400 + 0x10);
    m.write_register(0xB008, 0x05);
    assert_eq!(m.chr_index(0x0410), 5 * 0x400 + 0x10);
    m.write_register(0x9800, 1);
    assert_eq!(m.mirroring(), Mirroring::Horizontal);

    m.write_register(0xF000, 0x0E);
    m.write_register(0xF004, 0x0F);
    assert_eq!(m.irq_counter, 0xFE);
    m.write_register(0xF008, 1);
    for _ in 0..228 {
        m.cpu_clock();
    }
    assert!(!m.irq());
    assert!(m.need_irq);
    m.cpu_clock();
    assert!(m.irq());
}

#[test]
fn mapper212_address_latch_and_ram_bit7() {
    let mut m = Mapper212::new();
    m.write_register(0x8005, 0);
    assert_eq!(m.prg_index(0x8004), 5 * 0x4000 + 4);
    assert_eq!(m.prg_index(0xC004), 5 * 0x4000 + 4);
    assert_eq!(m.chr_index(0x0010), 5 * 0x2000 + 0x10);
    assert_eq!(m.mirroring(), Mirroring::Vertical);
    m.write_register(0xC00F, 0);
    assert_eq!(m.prg_index(0x8004), 6 * 0x4000 + 4);
    assert_eq!(m.prg_index(0xC004), 7 * 0x4000 + 4);
    assert_eq!(m.mirroring(), Mirroring::Horizontal);
    assert_eq!(m.peek_low_register_with_open_bus(0x6000, 0x12, 0), Some(0x92));
    assert_eq!(m.peek_low_register_with_open_bus(0x6010, 0x12, 0), None);
    assert_eq!(m.peek_low_register_with_open_bus(0x6000, 0x92, 0), Some(0x92));
}

#[test]
fn mapper222_a12_counter_fires_at_240() {
    let mut m = Mapper222::new(16, 32);
    assert_eq!(m.prg_index(0xC004), 30 * 0x2000 + 4);
    assert_eq!(m.prg_index(0xE004), 31 * 0x2000 + 4);
    m.write_register(0x8000, 3);
    m.write_register(0xA000, 4);
    assert_eq!(m.prg_index(0x8004), 3 * 0x2000 + 4);
    assert_eq!(m.prg_index(0xA004), 4 * 0x2000 + 4);
    m.write_register(0xB002, 0x21);
    m.write_register(0xE002, 0x09);
    assert_eq!(m.chr_index(0x0410), 0x21 * 0x400 + 0x10);
    assert_eq!(m.chr_index(0x1C10), 9 * 0x400 + 0x10);
    m.write_register(0x9000, 1);
    assert_eq!(m.mirroring(), Mirroring::Horizontal);

    m.write_register(0xF000, 238);
    m.notify_a12(0x0000, 0);
    m.notify_a12(0x1000, 20);
    assert_eq!(m.irq_counter, 239);
    m.notify_a12(0x0000, 21);
    m.notify_a12(0x1000, 25);
    assert_eq!(m.irq_counter, 239);
    m.notify_a12(0x0000, 26);
    m.notify_a12(0x1000, 40);
    assert!(m.irq());
    assert_eq!(m.irq_counter, 0);
}

#[test]
fn mapper235_command_register_open_bus_and_unrom() {
    let mut m = Mapper235::new(64);
    m.write_register(0x8005, 0);
    assert_eq!(m.prg_index(0x8004), 5 * 0x8000 + 4);
    assert_eq!(m.prg_index(0xC004), 5 * 0x8000 + 0x4004);
    assert_eq!(m.mirroring(), Mirroring::Vertical);
    assert_eq!(m.peek_register_with_open_bus(0x8000, 1, 0x55), None);

    m.write_register(0x8B03, 0);
    assert_eq!(m.prg_index(0x8004), 198 * 0x4000 + 4);
    assert_eq!(m.peek_register_with_open_bus(0x8000, 1, 0x55), Some(0x55));
    assert_eq!(m.read_register_with_open_bus(0x8000, 1, 0x55), Some(0x55));
    assert_eq!(m.peek_register_with_open_bus(0x8000, 1, 0x55), None);

    m.write_register(0xA405, 0);
    assert_eq!(m.mirroring(), Mirroring::SingleScreenLow);

    let mut u = Mapper235::new(8);
    u.reset(true);
    u.write_register(0x8000, 3);
    assert_eq!(u.prg_index(0x8004), 3 * 0x4000 + 4);
    assert_eq!(u.prg_index(0xC004), 7 * 0x4000 + 4);
    u.reset(false);
    u.write_register(0x8001, 0);
    assert_eq!(u.prg_index(0x8004), 0x8000 + 4);
}

#[test]
fn mapper272_pal_nametables_and_pa13_irq() {
    let mut m = Mapper272::new(16, 32);
    assert_eq!(m.prg_index(0xC004), 30 * 0x2000 + 4);
    m.write_register(0x8000, 3);
    assert_eq!(m.prg_index(0x8004), 3 * 0x2000 + 4);
    m.write_register(0xB001, 0x02);
    assert_eq!(m.chr_index(0x0010), 32 * 0x400 + 0x10);
    m.write_register(0xB002, 0x05);
    assert_eq!(m.chr_index(0x0410), 5 * 0x400 + 0x10);

    let mut ciram = [0u8; 0x1000];
    assert!(m.nametable_write(0x2C05, 0xAB, &mut ciram));
    assert_eq!(ciram[0x405], 0xAB);
    assert_eq!(m.peek_nametable(0x2405, &ciram), Some(0xAB));
    m.write_register(0x9000, 1);
    assert_eq!(m.peek_nametable(0x2405, &ciram), Some(0));
    m.write_register(0x8004, 3);
    assert_eq!(m.peek_nametable(0x2005, &ciram), Some(0xAB));
    assert_eq!(m.mirroring(), Mirroring::FourScreen);

    m.write_register(0xC008, 0);
    for _ in 0..83 {
        m.notify_a12(0x2000, 0);
        m.notify_a12(0x0000, 0);
    }
    assert!(!m.irq());
    m.notify_a12(0x2000, 0);
    m.notify_a12(0x0000, 0);
    assert!(m.irq());
    m.write_register(0xC004, 0);
    assert!(!m.irq());
    m.reset(false);
    assert_eq!(m.prg_index(0x8004), 4);
}

#[test]
fn mapper330_register_windows_and_15_bit_counter() {
    let mut m = Mapper330::new(16, 32);
    assert_eq!(m.chr_index(0x0410), 0x400 + 0x10);
    m.write_register(0x8800, 9);
    assert_eq!(m.chr_index(0x0410), 9 * 0x400 + 0x10);
    m.write_register(0xE800, 5);
    assert_eq!(m.prg_index(0xA004), 5 * 0x2000 + 4);
    m.write_register(0xC800, 0xFE);
    let mut ciram = [0u8; 0x1000];
    ciram[0x405] = 1;
    ciram[0x005] = 2;
    assert_eq!(m.peek_nametable(0x2005, &ciram), Some(1));
    assert_eq!(m.peek_nametable(0x2405, &ciram), Some(2));

    m.write_register(0x8400, 0xFE);
    m.write_register(0xA400, 0xFF);
    assert_eq!(m.irq_counter, 0x7FFE);
    m.cpu_clock();
    assert!(!m.irq());
    m.cpu_clock();
    assert!(m.irq());
    assert_eq!(m.irq_counter, 0);
    m.reset(true);
    assert_eq!(m.chr_index(0x0410), 0x400 + 0x10);
}
