use lamper::bright::BrightNorm;

// A transient spike sets the window's ceiling; after the window resets, the
// next quiet sample is scaled against that ceiling:
// round((1/10) * 0.9 * 100) = 9.
#[test]
fn transient_then_silence_scales_against_ceiling() {
    let mut n = BrightNorm::with_window(3);
    assert_eq!(n.norm(0), 100);
    assert_eq!(n.norm(0), 100);
    assert_eq!(n.norm(10), 100);
    assert_eq!(n.ceiling(), 10);
    assert_eq!(n.norm(1), 9);
}

// The window reset is a cadence, not a lifetime maximum: a window of quiet
// samples pulls the ceiling back down.
#[test]
fn window_reset_recovers_from_transient() {
    let mut n = BrightNorm::with_window(3);
    n.norm(0);
    n.norm(0);
    n.norm(10);
    assert_eq!(n.norm(1), 9);
    assert_eq!(n.norm(1), 9);
    assert_eq!(n.norm(1), 9);
    assert_eq!(n.ceiling(), 1);
    assert_eq!(n.norm(1), 100);
}

// A constant-magnitude stream settles at full brightness, and the ceiling
// stabilizes at that magnitude across window resets.
#[test]
fn constant_stream_settles_at_full_brightness() {
    let mut n = BrightNorm::with_window(3);
    for _ in 0..10 {
        assert_eq!(n.norm(7), 100);
    }
    assert_eq!(n.ceiling(), 7);
}

// While the ceiling is still zero, every sample reads as a fresh maximum.
#[test]
fn startup_reads_full_brightness() {
    let mut n = BrightNorm::new();
    assert_eq!(n.norm(0), 100);
    assert_eq!(n.norm(0), 100);
    assert_eq!(n.ceiling(), 0);
}

// Near-ceiling, non-peak samples never read as full brightness: the 0.9
// scale factor caps them at 90.
#[test]
fn non_peak_samples_stay_below_full() {
    let mut n = BrightNorm::with_window(2);
    n.norm(50);
    n.norm(100);
    assert_eq!(n.ceiling(), 100);
    assert_eq!(n.norm(99), 89);
    assert_eq!(n.norm(100), 100);
}

// Rounding is half-up on the 90-scaled ratio: 5/10 gives exactly 45,
// 1/3 gives round(30) = 30, 2/3 gives round(60) = 60, 1/7 gives
// round(12.857...) = 13.
#[test]
fn brightness_rounding() {
    let mut n = BrightNorm::with_window(2);
    n.norm(0);
    n.norm(10);
    assert_eq!(n.norm(5), 45);
    let mut m = BrightNorm::with_window(2);
    m.norm(0);
    m.norm(7);
    assert_eq!(m.norm(1), 13);
}
