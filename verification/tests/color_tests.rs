use lamper::color::rgb;

// The hue ramp starts at 20 Hz (20_000 mHz) on pure red.
#[test]
fn rgb_at_lower_bound_is_red() {
    assert_eq!(rgb(20_000), [255, 0, 0]);
}

// Approaching 20 kHz the hue wraps back to red.
#[test]
fn rgb_near_upper_bound_is_red() {
    assert_eq!(rgb(19_999_999), [255, 0, 0]);
    assert_eq!(rgb(20_000_000), [255, 0, 0]);
}

// Out-of-range frequencies are clamped to the boundary before mapping.
#[test]
fn rgb_clamps_out_of_range_input() {
    assert_eq!(rgb(0), [255, 0, 0]);
    assert_eq!(rgb(19_999), [255, 0, 0]);
    assert_eq!(rgb(25_000_000), [255, 0, 0]);
}

// 440 Hz sits in the first hue sector: red with a green component of
// trunc(255 * 420_000 / 3_330_000) = 32.
#[test]
fn rgb_of_concert_pitch() {
    assert_eq!(rgb(440_000), [255, 32, 0]);
}

// 8.02 kHz sits in the third sector: full green with a blue component of
// trunc(255 * 1_340_000 / 3_330_000) = 102.
#[test]
fn rgb_of_third_sector_tone() {
    assert_eq!(rgb(8_020_000), [0, 255, 102]);
}

// Sector boundaries meet: the top of the first sector and the bottom of the
// second agree on yellow.
#[test]
fn rgb_sector_boundary_is_continuous() {
    // q = 3_330_000 exactly: hue 60.
    assert_eq!(rgb(3_350_000), [255, 255, 0]);
    assert_eq!(rgb(3_349_999), [255, 254, 0]);
}

// Every channel is a byte for a sweep of inputs, in and out of range.
#[test]
fn rgb_channels_always_bytes() {
    let mut mhz: u64 = 0;
    while mhz < 22_000_000 {
        let c = rgb(mhz);
        assert!(c[0] == 255 || c[1] == 255 || c[2] == 255);
        mhz += 97_531;
    }
}
