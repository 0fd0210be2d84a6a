use audio_scope::plot_wave;
use audio_scope::spectrum_block;
use spectrum_analyzer::scaling::divide_by_N_sqrt;
use spectrum_analyzer::windows::hann_window;
use spectrum_analyzer::samples_fft_to_spectrum;
use spectrum_analyzer::FrequencyLimit;

#[test]
fn wave_counts_and_order() {
    // 7 samples alternating two known values.
    let samples: Vec<i16> = vec![100, -100, 100, -100, 100, -100, 100];
    let (a, b) = plot_wave(&samples, 40000);
    assert_eq!(a.len(), 4); // ceil(7 / 2)
    assert_eq!(b.len(), 3); // floor(7 / 2)
    for p in &a {
        assert_eq!(p.amplitude, 100);
    }
    for p in &b {
        assert_eq!(p.amplitude, -100);
    }
    for k in 1..a.len() {
        assert!(a[k - 1].index < a[k].index);
    }
    for k in 1..b.len() {
        assert!(b[k - 1].index < b[k].index);
    }
}

#[test]
fn wave_caps_at_max_samples() {
    let samples: Vec<i16> = (0..100).map(|i| i as i16).collect();
    let (a, b) = plot_wave(&samples, 10);
    assert_eq!(a.len(), 5);
    assert_eq!(b.len(), 5);
    assert_eq!(a[4].index, 8);
    assert_eq!(a[4].amplitude, 8);
    assert_eq!(b[4].index, 9);
    assert_eq!(b[4].amplitude, 9);
}

#[test]
fn wave_empty_snapshot() {
    let samples: Vec<i16> = Vec::new();
    let (a, b) = plot_wave(&samples, 40000);
    assert!(a.is_empty());
    assert!(b.is_empty());
}

#[test]
fn spectrum_below_threshold_is_empty() {
    // 44098 interleaved samples give 22049 channel samples: one short.
    let samples: Vec<i16> = vec![7i16; 44098];
    assert!(spectrum_block(&samples, 22050, 16384).is_none());
}

#[test]
fn spectrum_at_threshold_has_fixed_bin_count() {
    // 44099 interleaved samples give exactly 22050 channel samples.
    let samples: Vec<i16> = (0..44099).map(|i| ((i * 37) % 2000 - 1000) as i16).collect();
    let block = spectrum_block(&samples, 22050, 16384).expect("at the threshold");
    assert_eq!(block.len(), 16384);
    // The block is every second sample, from the front.
    for (j, &s) in block.iter().enumerate() {
        assert_eq!(s, samples[2 * j]);
    }
    // The fixed analysis length yields a fixed bin count: one bin per
    // frequency from DC through Nyquist.
    let floats: Vec<f32> = block.iter().map(|&s| s as f32).collect();
    let windowed = hann_window(&floats);
    let spectrum =
        samples_fft_to_spectrum(&windowed, 44100, FrequencyLimit::All, Some(&divide_by_N_sqrt))
            .expect("spectrum");
    assert_eq!(spectrum.data().len(), 16384 / 2 + 1);
}

#[test]
fn spectrum_is_deterministic() {
    let samples: Vec<i16> = (0..44100).map(|i| ((i * 131) % 4001 - 2000) as i16).collect();
    let mut runs: Vec<Vec<(u32, u32)>> = Vec::new();
    for _ in 0..2 {
        let block = spectrum_block(&samples, 22050, 16384).expect("enough samples");
        let floats: Vec<f32> = block.iter().map(|&s| s as f32).collect();
        let windowed = hann_window(&floats);
        let spectrum = samples_fft_to_spectrum(
            &windowed,
            44100,
            FrequencyLimit::All,
            Some(&divide_by_N_sqrt),
        )
        .expect("spectrum");
        let coords: Vec<(u32, u32)> = spectrum
            .data()
            .iter()
            .map(|(fr, val)| (fr.val().to_bits(), val.val().to_bits()))
            .collect();
        runs.push(coords);
    }
    assert_eq!(runs[0], runs[1]);
}
