use fc_core::mapper::kind::Mapper;
use fc_core::mapper::special::{Mapper175, Mapper234};
use fc_core::Mirroring;

#[test]
fn mapper175_commits_prg_on_reset_vector_read() {
    let mut m = Mapper175::new();
    m.write_register(0xA000, 3);
    assert_eq!(m.prg_index(0x8004), 4);
    assert_eq!(m.prg_index(0xE004), 7 * 0x2000 + 4);
    assert_eq!(m.read_register_with_open_bus(0xFFFA, 0, 0), None);
    assert_eq!(m.prg_index(0x8004), 4);
    assert_eq!(m.read_register_with_open_bus(0xFFFC, 0, 0), None);
    assert_eq!(m.prg_index(0x8004), 3 * 0x4000 + 4);
    assert_eq!(m.prg_index(0xC004), 6 * 0x2000 + 4);
    assert_eq!(m.chr_index(0x0010), 3 * 0x2000 + 0x10);
    assert_eq!(m.mirroring(), Mirroring::Vertical);
    m.write_register(0x8000, 4);
    assert_eq!(m.mirroring(), Mirroring::Horizontal);
}

#[test]
fn mapper234_latches_on_reads_and_locks_outer() {
    let mut m = Mapper234::new();
    m.write_register(0xFF80, 0x45);
    assert_eq!(m.prg_index(0x8004), 4 * 0x8000 + 4);
    assert_eq!(m.chr_index(0x0010), 16 * 0x2000 + 0x10);
    assert_eq!(m.read_register_with_open_bus(0xFFE8, 0x31, 0), Some(0x31));
    assert_eq!(m.prg_index(0x8004), 5 * 0x8000 + 4);
    assert_eq!(m.chr_index(0x0010), 19 * 0x2000 + 0x10);
    m.write_register(0xFF80, 0x00);
    assert_eq!(m.prg_index(0x8004), 5 * 0x8000 + 4);
    assert_eq!(m.peek_register_with_open_bus(0x8000, 7, 0), None);
    assert_eq!(m.peek_register_with_open_bus(0xFFF0, 7, 0), Some(7));
    assert!(m.has_bus_conflicts());
    assert_eq!(m.mirroring(), Mirroring::Vertical);
}

#[test]
fn dispatcher_passes_reads_to_latching_boards() {
    let mut m = Mapper::new(175, 8, 1, Mirroring::Vertical, 0).unwrap();
    m.write_register(0xA000, 2);
    assert_eq!(m.prg_index(0x8000), 0);
    assert_eq!(m.read_register_with_open_bus(0xFFFC, 0, 0), None);
    assert_eq!(m.prg_index(0x8000), 2 * 0x4000);

    let mut plain = Mapper::new(0, 2, 1, Mirroring::Vertical, 0).unwrap();
    assert_eq!(plain.read_register_with_open_bus(0x8000, 5, 0), None);
}
