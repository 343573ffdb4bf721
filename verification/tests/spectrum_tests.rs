use dft::{Operation, Plan};
use lamper::spectrum::dominant;
use lamper::WINDOW;

// The scan covers bins (0, len/2): the zero bin and the mirrored half are
// never reported.
#[test]
fn dominant_ignores_dc_and_mirror() {
    // Bin 0 and the upper half are loud, but only bins 1..4 count.
    let mags: Vec<u32> = vec![900, 5, 9, 7, 800, 800, 800, 800];
    let s = dominant(&mags);
    assert_eq!(s.mag, 9);
    // Bin 2 of 8 at 44.1 kHz: 2 * 44_100_000 / 8 mHz.
    assert_eq!(s.freq_mhz, 11_025_000);
}

// Among equal magnitudes the last bin examined wins.
#[test]
fn dominant_tie_break_is_last_wins() {
    let mags: Vec<u32> = vec![0, 9, 9, 9, 0, 0, 0, 0];
    let s = dominant(&mags);
    assert_eq!(s.mag, 9);
    assert_eq!(s.freq_mhz, 3 * 44_100_000 / 8);
}

// A silent spectrum reports frequency zero and magnitude zero.
#[test]
fn dominant_of_silence_is_zero() {
    let mags: Vec<u32> = vec![0; WINDOW];
    let s = dominant(&mags);
    assert_eq!(s.mag, 0);
    assert_eq!(s.freq_mhz, 0);
}

// A spectrum too short to have any searchable bin reports zeros.
#[test]
fn dominant_of_tiny_spectrum_is_zero() {
    let mags: Vec<u32> = vec![5, 6, 7];
    let s = dominant(&mags);
    assert_eq!(s.mag, 0);
    assert_eq!(s.freq_mhz, 0);
}

fn sine_frame(freq_hz: f64) -> Vec<f32> {
    let mut frame = Vec::with_capacity(WINDOW);
    for i in 0..WINDOW {
        let t = i as f64 / 44_100.0;
        frame.push((2.0 * std::f64::consts::PI * freq_hz * t).sin() as f32);
    }
    frame
}

fn magnitudes(frame: &[f32]) -> Vec<u32> {
    let plan = Plan::new(Operation::Forward, WINDOW);
    let mut data: Vec<f64> = frame.iter().map(|x| *x as f64).collect();
    dft::transform(&mut data, &plan);
    let spectrum = dft::unpack(&data);
    spectrum.iter().map(|c| (c.norm() * 1000.0) as u32).collect()
}

// A pure sine's dominant frequency lands within one bin width of the tone.
#[test]
fn sine_tone_dominant_within_bin_width() {
    let bin_width_mhz: i64 = 44_100_000 / WINDOW as i64;
    for &tone in &[440.0f64, 1000.0, 5000.0] {
        let mags = magnitudes(&sine_frame(tone));
        let s = dominant(&mags);
        let tone_mhz = (tone * 1000.0) as i64;
        let diff = (s.freq_mhz as i64 - tone_mhz).abs();
        assert!(
            diff <= bin_width_mhz,
            "tone {} Hz reported at {} mHz (off by {})",
            tone,
            s.freq_mhz,
            diff
        );
    }
}
