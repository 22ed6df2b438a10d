use fc_core::clock::ppu_dots_in_cycle;

#[test]
fn pal_pacing_gives_sixteen_dots_per_five_cycles() {
    let mut phase = 0u8;
    let mut dots = 0u32;
    let mut per_cycle = Vec::new();
    for _ in 0..5 {
        let (d, p) = ppu_dots_in_cycle(phase, 16, 5);
        per_cycle.push(d);
        dots += d as u32;
        phase = p;
    }
    assert_eq!(dots, 16);
    assert_eq!(phase, 0);
    assert_eq!(per_cycle, vec![3, 3, 3, 3, 4]);
}

#[test]
fn whole_ratio_pacing_is_three_dots_every_cycle() {
    assert_eq!(ppu_dots_in_cycle(0, 3, 1), (3, 0));
    assert_eq!(ppu_dots_in_cycle(4, 16, 5), (4, 0));
}
