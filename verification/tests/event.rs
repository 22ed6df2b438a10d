use fc_core::event::{irq_source, EventKind, EventLog, IrqSource, ALL_TYPES};

#[test]
fn double_buffer_swap_and_cap() {
    let mut log = EventLog::default();
    log.recording = true;
    for i in 0..5 {
        log.record(EventKind::PpuRegWrite, 30, i, 0x2005, i as u8, 0);
    }
    assert_eq!(log.events().len(), 0, "front empty until end_frame");
    log.end_frame();
    assert_eq!(log.events().len(), 5, "front holds the completed frame");
    log.record(EventKind::Nmi, 241, 1, 0, 0, 0);
    assert_eq!(log.events().len(), 5, "front unchanged while back records");
    log.end_frame();
    assert_eq!(log.events().len(), 1, "front now the newest complete frame");
}

#[test]
fn filter_and_drop_count() {
    let mut log = EventLog::default();
    log.recording = true;
    log.set_filter(EventKind::PpuRegWrite.bit());
    log.record(EventKind::PpuRegWrite, 0, 0, 0x2000, 0, 0);
    log.record(EventKind::ApuRegWrite, 0, 0, 0x4000, 0, 0);
    log.end_frame();
    assert_eq!(log.events().len(), 1);
    assert_eq!(log.events()[0].kind, EventKind::PpuRegWrite);

    log.set_filter(ALL_TYPES);
    log.cap = 2;
    for _ in 0..5 {
        log.record(EventKind::PpuRegRead, 0, 0, 0x2002, 0, 0);
    }
    log.end_frame();
    assert_eq!(log.events().len(), 2);
    assert_eq!(log.dropped(), 3);
}

#[test]
fn edges_fire_once() {
    let mut log = EventLog::default();
    assert!(log.irq_edge(true));
    assert!(!log.irq_edge(true), "held high is not a new edge");
    assert!(!log.irq_edge(false));
    assert!(log.irq_edge(true), "re-assert is a new edge");
}

#[test]
fn labels_round_trip() {
    for k in [
        EventKind::PpuRegRead,
        EventKind::PpuRegWrite,
        EventKind::ApuRegWrite,
        EventKind::Nmi,
    ] {
        assert_eq!(EventKind::from_label(k.label()), Some(k));
    }
    assert_eq!(EventKind::from_label("no-such-kind"), None);
}

#[test]
fn event_breakpoint_trips_and_is_taken_once() {
    let mut log = EventLog::default();
    let id = log.add_event_bp(EventKind::PpuRegWrite.bit(), Some(0x2006), None);
    assert!(log.has_event_bp());
    log.on_event(EventKind::PpuRegWrite, 10, 20, 0x2006, 0x3F, 0);
    let hit = log.take_hit().expect("should trip on $2006 write");
    assert_eq!(hit.addr, 0x2006);
    assert!(log.take_hit().is_none(), "taken hit is cleared");
    log.remove_event_bp(id);
    assert!(!log.has_event_bp());
}

#[test]
fn is_write_covers_the_register_kinds() {
    for k in [
        EventKind::PpuRegRead,
        EventKind::PpuRegWrite,
        EventKind::ApuRegRead,
        EventKind::ApuRegWrite,
        EventKind::CtrlRead,
        EventKind::MapperRegWrite,
    ] {
        assert!(k.is_write(), "{:?}", k);
    }
    for k in [EventKind::Nmi, EventKind::Irq, EventKind::Sprite0Hit, EventKind::OamDma, EventKind::DmcDma] {
        assert!(!k.is_write(), "{:?}", k);
    }
}

#[test]
fn on_event_records_when_recording_and_latches_first_hit() {
    let mut log = EventLog::default();
    log.set_recording(true);
    let id = log.add_event_bp(EventKind::PpuRegWrite.bit(), Some(0x2001), None);
    assert_eq!(id, 1);
    log.on_event(EventKind::PpuRegWrite, 10, 20, 0x2000, 0x80, 0);
    assert!(log.take_hit().is_none());
    log.on_event(EventKind::PpuRegWrite, 11, 21, 0x2001, 0x1E, 0);
    log.on_event(EventKind::PpuRegWrite, 12, 22, 0x2001, 0x00, 0);
    let hit = log.take_hit().expect("second write matches");
    assert_eq!((hit.scanline, hit.dot, hit.value), (11, 21, 0x1E));
    assert!(log.take_hit().is_none());
    log.end_frame();
    assert_eq!(log.events().len(), 3);
    let id2 = log.add_event_bp(0, None, None);
    assert!(id2 > id);

    log.set_recording(false);
    log.on_event(EventKind::Nmi, 241, 1, 0, 0, 0);
    log.end_frame();
    assert!(log.events().is_empty());
    assert_eq!(log.dropped(), 0);
}

#[test]
fn irq_edges_are_attributed_mapper_then_dmc_then_frame() {
    assert_eq!(irq_source(true, true), IrqSource::Mapper);
    assert_eq!(irq_source(false, true), IrqSource::Dmc);
    assert_eq!(irq_source(false, false), IrqSource::ApuFrame);
    assert_eq!(irq_source(false, false).code(), 1);
}

#[test]
fn opening_the_gate_baselines_the_edge_detectors() {
    let mut log = EventLog::default();
    assert!(!log.update_gate(false, false, true, true));
    assert!(log.sprite0_edge(true), "gate closed: detectors not armed");
    let mut log = EventLog::default();
    log.set_recording(true);
    assert!(log.update_gate(false, false, true, true));
    assert!(!log.sprite0_edge(true), "already high when armed: no edge");
    assert!(!log.irq_edge(true));
    let mut log = EventLog::default();
    assert!(log.update_gate(false, true, false, false));
}
