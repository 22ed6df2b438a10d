use fc_core::heatmap::Heatmap;

#[test]
fn counts_classify_and_decay() {
    let mut hm = Heatmap::new();
    for _ in 0..5 {
        hm.tap_read(0x2002);
    }
    hm.tap_write(0x0300);
    hm.tap_exec(0x8000);
    hm.tap_read(0x8001);
    hm.tap_exec(0x8001);

    let hot = hm.hottest(16);
    let p2002 = hot.iter().find(|h| h.addr == 0x2002).unwrap();
    assert_eq!(p2002.read, 5);
    assert!(p2002.data && !p2002.code);
    let code = hot.iter().find(|h| h.addr == 0x8001).unwrap();
    assert!(code.code && !code.data, "read==exec → pure code, not data");
    assert!(hot.iter().find(|h| h.addr == 0x0300).unwrap().data);

    let before = hm.page_totals().iter().sum::<u64>();
    hm.decay();
    assert!(hm.hottest(16).iter().find(|h| h.addr == 0x2002).unwrap().recency < u16::MAX);
    assert_eq!(hm.page_totals().iter().sum::<u64>(), before, "decay leaves totals");
    hm.reset();
    assert!(hm.hottest(16).is_empty());
}

#[test]
fn hottest_orders_by_total_and_caps() {
    let mut hm = Heatmap::new();
    for _ in 0..3 {
        hm.tap_read(0x10);
    }
    hm.tap_write(0x20);
    for _ in 0..2 {
        hm.tap_exec(0x30);
    }
    let hot = hm.hottest(2);
    assert_eq!(hot.len(), 2);
    assert_eq!(hot[0].addr, 0x10);
    assert_eq!(hot[1].addr, 0x30);
    assert_eq!(hot[1].execs, 2);
    assert_eq!(hm.page_totals()[0], 6);
}
