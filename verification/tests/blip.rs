use fc_core::blip::{clamp, Blip, TIME_UNIT};

/// Time units per clock for the given rates, rounded up.
fn factor(clock_rate: f64, sample_rate: f64) -> u64 {
    let f = TIME_UNIT as f64 * sample_rate / clock_rate;
    let mut u = f as u64;
    if (u as f64) < f {
        u += 1;
    }
    u
}

#[test]
fn single_step_produces_band_limited_edge() {
    let mut b = Blip::new(4096);
    b.set_factor(factor(1_789_773.0, 44_100.0));
    b.add_delta(0, 4000);
    b.end_frame(2048);
    let mut out = [0i16; 4096];
    let n = b.read_samples(&mut out, 4096);
    assert!(n > 40, "should produce ~one frame of samples, got {n}");
    let peak = out[..n].iter().copied().max().unwrap();
    assert!(peak > 1000, "rising edge should reach a positive level, got {peak}");
}

#[test]
fn dc_is_high_passed_out() {
    let mut b = Blip::new(8192);
    b.set_factor(factor(1_789_773.0, 44_100.0));
    b.add_delta(0, 4000);
    for _ in 0..20 {
        b.end_frame(8000);
        let mut out = [0i16; 8192];
        let n = b.read_samples(&mut out, 8192);
        let _ = n;
    }
    b.end_frame(8000);
    let mut out = [0i16; 8192];
    let n = b.read_samples(&mut out, 8192);
    let tail = out[..n].iter().map(|&s| (s as i32).abs()).max().unwrap_or(0);
    assert!(tail < 200, "DC should be high-passed away, residual {tail}");
}

#[test]
fn frame_end_makes_whole_samples_available() {
    let mut b = Blip::new(100);
    b.set_factor(TIME_UNIT / 4);
    b.clear();
    assert_eq!(b.offset, TIME_UNIT / 8);
    b.end_frame(10);
    assert_eq!(b.samples_avail(), 2);
    assert_eq!(b.offset, TIME_UNIT / 8 + TIME_UNIT / 2);
    let mut out = [7i16; 1];
    assert_eq!(b.read_samples(&mut out, 5), 2, "takes what is available");
    assert_eq!(b.samples_avail(), 0);
    assert_eq!(b.read_samples(&mut out, 5), 0);
}

#[test]
fn clamp_saturates_just_outside_the_range() {
    assert_eq!(clamp(1234), 1234);
    assert_eq!(clamp(40000), 32767);
    assert_eq!(clamp(-40000), -32768);
}

#[test]
fn splitting_a_frame_keeps_the_sample_count() {
    let f = factor(1_789_773.0, 44_100.0);
    let mut a = Blip::new(4096);
    a.set_factor(f);
    a.clear();
    let mut b = a.clone();
    a.end_frame(1000);
    a.end_frame(2577);
    b.end_frame(3577);
    assert_eq!(a.samples_avail(), b.samples_avail());
    assert_eq!(a.offset, b.offset);
    assert!(a.samples_avail() > 80);
}
