use fc_core::apu::{DmcDmaKind, DmcDmaRequest};
use fc_core::dma::{DmcConflictRead, Dma, OamAction};

fn run_oam(d: &mut Dma) -> (u32, Vec<u8>) {
    let mut cycles = 0u32;
    let mut written = Vec::new();
    while d.halt_pending() {
        d.tick();
        let c = d.clock(0x8000, false, true);
        cycles += 1;
        assert!(c.conflict.is_none());
        assert!(c.dmc_get.is_none());
        match c.oam {
            OamAction::Get(addr) => d.oam_fetched((addr & 0xFF) as u8 ^ 0x5A),
            OamAction::Put(b) => written.push(b),
            OamAction::Idle => {}
        }
    }
    (cycles, written)
}

#[test]
fn oam_dma_takes_513_cycles_when_the_first_get_follows_the_halt() {
    let mut d = Dma::new();
    d.request_oam(2);
    assert!(d.halt_wanted());
    let (cycles, written) = run_oam(&mut d);
    assert_eq!(cycles, 513);
    assert_eq!(written.len(), 256);
    for (i, b) in written.iter().enumerate() {
        assert_eq!(*b, (i as u8) ^ 0x5A);
    }
    assert!(!d.halted);
}

#[test]
fn oam_dma_takes_514_cycles_with_an_alignment_cycle() {
    let mut d = Dma::new();
    d.tick();
    d.request_oam(3);
    let (cycles, written) = run_oam(&mut d);
    assert_eq!(cycles, 514);
    assert_eq!(written.len(), 256);
}

#[test]
fn oam_get_reads_page_and_index() {
    let mut d = Dma::new();
    d.request_oam(0x02);
    d.tick();
    let first = d.clock(0, false, false);
    assert_eq!(first.oam, OamAction::Idle);
    d.tick();
    let second = d.clock(0, false, false);
    assert_eq!(second.oam, OamAction::Get(0x0200));
}

#[test]
fn dmc_fetch_halts_dummies_aligns_and_gets() {
    let req = DmcDmaRequest { addr: 0xC123, kind: DmcDmaKind::Load, id: 7 };
    let mut d = Dma::new();
    assert!(d.accepts_dmc());
    d.offer_dmc(req);
    assert!(d.halt_wanted());
    assert!(!d.accepts_dmc());

    d.tick();
    let c1 = d.clock(0x4016, true, true);
    assert!(c1.conflict.is_none() && c1.dmc_get.is_none());
    d.tick();
    let c2 = d.clock(0x4016, true, true);
    assert_eq!(c2.conflict, Some((0x4016, DmcConflictRead::Dummy)));
    d.tick();
    let c3 = d.clock(0x4016, true, true);
    assert_eq!(c3.conflict, Some((0x4016, DmcConflictRead::Alignment)));
    d.tick();
    let c4 = d.clock(0x4016, true, true);
    assert_eq!(c4.dmc_get, Some(req));
    assert!(!d.halt_pending());
    assert!(!d.halted);
}

#[test]
fn dmc_without_read_conflict_repeats_nothing() {
    let req = DmcDmaRequest { addr: 0xC000, kind: DmcDmaKind::Load, id: 1 };
    let mut d = Dma::new();
    d.offer_dmc(req);
    let mut conflicts = 0;
    let mut got = None;
    while d.halt_pending() {
        d.tick();
        let c = d.clock(0x2007, true, false);
        if c.conflict.is_some() {
            conflicts += 1;
        }
        if c.dmc_get.is_some() {
            got = c.dmc_get;
        }
    }
    assert_eq!(conflicts, 0);
    assert_eq!(got, Some(req));
}

#[test]
fn dmc_reload_waits_for_a_put_cycle() {
    let req = DmcDmaRequest { addr: 0xC000, kind: DmcDmaKind::Reload, id: 2 };
    let mut d = Dma::new();
    d.offer_dmc(req);
    assert!(!d.halt_wanted());
    d.tick();
    d.offer_dmc(req);
    assert!(d.halt_wanted());
}

#[test]
fn cancelled_dmc_releases_the_cpu() {
    let req = DmcDmaRequest { addr: 0xC000, kind: DmcDmaKind::Load, id: 3 };
    let mut d = Dma::new();
    d.offer_dmc(req);
    d.tick();
    d.clock(0, true, true);
    assert!(d.halted);
    d.cancel_dmc();
    assert!(!d.halt_pending());
    assert!(!d.halted);
}

fn run_dmc(d: &mut Dma) -> (u32, Option<DmcDmaRequest>) {
    let mut cycles = 0u32;
    let mut got = None;
    while d.halt_pending() {
        d.tick();
        let c = d.clock(0x4016, true, false);
        cycles += 1;
        if c.dmc_get.is_some() {
            got = c.dmc_get;
        }
        assert!(cycles <= 4);
    }
    (cycles, got)
}

#[test]
fn dmc_fetch_alone_stalls_three_or_four_cycles() {
    let req = DmcDmaRequest { addr: 0xC040, kind: DmcDmaKind::Load, id: 9 };
    let mut d = Dma::new();
    d.offer_dmc(req);
    assert!(d.halt_pending());
    let (cycles, got) = run_dmc(&mut d);
    assert_eq!(cycles, 4);
    assert_eq!(got.map(|r| r.addr), Some(0xC040));
    assert!(!d.halted);

    let reload = DmcDmaRequest { addr: 0xC041, kind: DmcDmaKind::Reload, id: 10 };
    let mut d = Dma::new();
    d.tick();
    d.offer_dmc(reload);
    assert!(d.halt_pending());
    let (cycles, got) = run_dmc(&mut d);
    assert_eq!(cycles, 3);
    assert_eq!(got.map(|r| r.addr), Some(0xC041));
}
