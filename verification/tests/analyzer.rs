use spectral_led::analyzer::SpectrumAnalyzer;
use spectral_led::config::{BIN_SIZE, HALF_SPECTRUM, SPECTRUM_BINS, WINDOW_SIZE};

#[test]
fn zero_magnitudes_give_zero_bins() {
    let a = SpectrumAnalyzer::new();
    let bins = a.compute(&vec![0u32; HALF_SPECTRUM]);
    assert_eq!(bins.len(), SPECTRUM_BINS);
    assert!(bins.iter().all(|&v| v == 0));
}

#[test]
fn bin_formula_is_sqrt_of_group_mean() {
    let a = SpectrumAnalyzer::new();
    let mut mags = vec![0u32; HALF_SPECTRUM];
    // Bin 0: every magnitude 400, mean 400, square root 20.
    for k in 0..BIN_SIZE {
        mags[k] = 400;
    }
    // Bin 1: every magnitude 99, mean 99, floor of square root 9.
    for k in BIN_SIZE..2 * BIN_SIZE {
        mags[k] = 99;
    }
    // Bin 2: a single 65, mean floor 3, floor of square root 1.
    mags[2 * BIN_SIZE] = 65;
    let bins = a.compute(&mags);
    assert_eq!(bins[0], 20);
    assert_eq!(bins[1], 9);
    assert_eq!(bins[2], 1);
    assert!(bins[3..].iter().all(|&v| v == 0));
}

#[test]
fn mean_truncates_before_root() {
    let a = SpectrumAnalyzer::new();
    let mut mags = vec![0u32; HALF_SPECTRUM];
    // Sum 19 over 20 magnitudes: mean 0, bin 0.
    mags[0] = 19;
    // Sum 20 in the next group: mean 1, bin 1.
    mags[BIN_SIZE] = 20;
    let bins = a.compute(&mags);
    assert_eq!(bins[0], 0);
    assert_eq!(bins[1], 1);
}

#[test]
fn largest_magnitudes_fit() {
    let a = SpectrumAnalyzer::new();
    let bins = a.compute(&vec![u32::MAX; HALF_SPECTRUM]);
    // Mean u32::MAX, whose integer square root is 65535.
    assert!(bins.iter().all(|&v| v == 65535));
}

/// Reference spectral transform: Hann window then a naive real-input
/// discrete Fourier transform in double precision, magnitudes truncated to
/// integers the same way the live pipeline quantizes them.
fn reference_magnitudes(samples: &[i32]) -> Vec<u32> {
    assert_eq!(samples.len(), WINDOW_SIZE);
    let n = WINDOW_SIZE;
    let pi = std::f64::consts::PI;
    let windowed: Vec<f64> = samples
        .iter()
        .enumerate()
        .map(|(i, &s)| {
            let w = 0.5 - 0.5 * (2.0 * pi * i as f64 / n as f64).cos();
            s as f64 * w
        })
        .collect();
    let mut out = Vec::with_capacity(HALF_SPECTRUM);
    for k in 0..HALF_SPECTRUM {
        let mut re = 0.0f64;
        let mut im = 0.0f64;
        for (i, &x) in windowed.iter().enumerate() {
            let ang = 2.0 * pi * ((k * i) % n) as f64 / n as f64;
            re += x * ang.cos();
            im -= x * ang.sin();
        }
        out.push(re.hypot(im) as u32);
    }
    out
}

#[test]
fn silence_transforms_to_zero_bins() {
    let a = SpectrumAnalyzer::new();
    let mags = reference_magnitudes(&vec![0i32; WINDOW_SIZE]);
    let bins = a.compute(&mags);
    assert!(bins.iter().all(|&v| v == 0));
}

#[test]
fn sinusoid_peaks_in_its_bin() {
    // A pure sinusoid exactly on transform index 50, which falls in output
    // bin 2 (indices 40..60).
    let samples: Vec<i32> = (0..WINDOW_SIZE)
        .map(|i| {
            let pi = std::f64::consts::PI;
            (32767.0 * (2.0 * pi * 50.0 * i as f64 / WINDOW_SIZE as f64).sin()).round() as i32
        })
        .collect();
    let a = SpectrumAnalyzer::new();
    let bins = a.compute(&reference_magnitudes(&samples));
    let peak = bins[2] as u64;
    assert!(peak > 100);
    for (i, &v) in bins.iter().enumerate() {
        if i != 2 {
            // A clear peak: everything else is well below it.
            assert!((v as u64) * 4 < peak, "bin {} = {} vs peak {}", i, v, peak);
            if !(1..=3).contains(&i) {
                // And away from the peak's neighborhood, near zero.
                assert!((v as u64) * 8 < peak, "bin {} = {} vs peak {}", i, v, peak);
            }
        }
    }
}
