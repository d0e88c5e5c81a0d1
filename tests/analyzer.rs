use spectrum_analyzer::scaling::SpectrumDataStats;
use spectrum_analyzer::windows::hann_window;
use spectrum_analyzer::{samples_fft_to_spectrum, FrequencyLimit};
use wasm_audio::analyzer::WasmSpectrumAnalyzer;
use wasm_audio::config::{is_supported_transform_size, power_of_two};
use wasm_audio::error::AnalyzerError;

type Bin = (f64, f64);

fn identity(v: f32, _stats: &SpectrumDataStats) -> f32 {
    v
}

/// Hann window, then the magnitude spectrum of the band.
fn hann_spectrum(block: Vec<f32>, rate: u32, lo: u32, hi: u32) -> Option<Vec<(f32, f32)>> {
    let windowed = hann_window(&block);
    let spectrum = samples_fft_to_spectrum(
        &windowed,
        rate,
        FrequencyLimit::Range(lo as f32, hi as f32),
        Some(&identity),
    )
    .ok()?;
    Some(spectrum.data().iter().map(|(f, v)| (f.val(), v.val())).collect())
}

/// One-pole smoothing with retention 0.9.
fn smooth(old: Bin, new: (f32, f32)) -> Bin {
    (new.0 as f64, old.1 * 0.9 + (new.1 * 0.1) as f64)
}

fn magnitudes(bins: &[Bin]) -> Vec<f64> {
    bins.iter().map(|b| b.1).collect()
}

fn fresh(rate: u32, size: usize) -> WasmSpectrumAnalyzer<Bin> {
    WasmSpectrumAnalyzer::new(rate, size, (0.0, 0.0)).unwrap()
}

fn sine(freq: f64, rate: f64, n: usize) -> Vec<f32> {
    (0..n)
        .map(|i| (2.0 * std::f64::consts::PI * freq * i as f64 / rate).sin() as f32)
        .collect()
}

#[test]
fn power_of_two_values() {
    assert!(!power_of_two(0));
    assert!(power_of_two(1));
    assert!(power_of_two(2));
    assert!(!power_of_two(3));
    assert!(power_of_two(1024));
    assert!(!power_of_two(1000));
    assert!(power_of_two(1usize << 40));
}

#[test]
fn supported_sizes() {
    assert!(!is_supported_transform_size(1));
    assert!(is_supported_transform_size(2));
    assert!(is_supported_transform_size(32768));
    assert!(!is_supported_transform_size(65536));
    assert!(!is_supported_transform_size(48));
}

#[test]
fn new_allocates_half_size_buffer() {
    let a = fresh(44100, 1024);
    assert_eq!(a.sample_rate(), 44100);
    assert_eq!(a.fft_size(), 1024);
    assert_eq!(a.smoothed_spectrum().len(), 512);
    assert!(a.smoothed_spectrum().iter().all(|b| *b == (0.0, 0.0)));
}

#[test]
fn new_rejects_unsupported_size() {
    let r = WasmSpectrumAnalyzer::<Bin>::new(44100, 1000, (0.0, 0.0));
    assert_eq!(
        r.err(),
        Some(AnalyzerError::InvalidConfiguration { sample_rate: 44100, transform_size: 1000 })
    );
    assert!(WasmSpectrumAnalyzer::<Bin>::new(44100, 0, (0.0, 0.0)).is_err());
    assert!(WasmSpectrumAnalyzer::<Bin>::new(44100, 65536, (0.0, 0.0)).is_err());
}

#[test]
fn new_rejects_zero_sample_rate() {
    let r = WasmSpectrumAnalyzer::<Bin>::new(0, 1024, (0.0, 0.0));
    assert_eq!(
        r.err(),
        Some(AnalyzerError::InvalidConfiguration { sample_rate: 0, transform_size: 1024 })
    );
}

#[test]
fn insufficient_samples_leave_buffer_unchanged() {
    let mut a = fresh(44100, 1024);
    a.analyze(&sine(1000.0, 44100.0, 1024), 0, 22050, hann_spectrum, smooth).unwrap();
    let before = a.smoothed_spectrum().clone();
    let r = a.analyze(&vec![0.5f32; 1023], 0, 22050, hann_spectrum, smooth);
    assert_eq!(r, Err(AnalyzerError::InsufficientSamples { expected: 1024, actual: 1023 }));
    assert_eq!(a.smoothed_spectrum(), &before);
    let r = a.analyze(&Vec::new(), 0, 22050, hann_spectrum, smooth);
    assert_eq!(r, Err(AnalyzerError::InsufficientSamples { expected: 1024, actual: 0 }));
    assert_eq!(a.smoothed_spectrum(), &before);
}

#[test]
fn refused_transform_gives_analysis_failed() {
    let mut a = fresh(44100, 1024);
    let before = a.smoothed_spectrum().clone();
    // the upper limit lies above the Nyquist frequency
    let r = a.analyze(&vec![0.0f32; 1024], 0, 30000, hann_spectrum, smooth);
    assert_eq!(r, Err(AnalyzerError::AnalysisFailed));
    assert_eq!(a.smoothed_spectrum(), &before);
}

#[test]
fn end_to_end_zeros_then_sine() {
    let mut a = fresh(44100, 1024);
    assert_eq!(a.smoothed_spectrum().len(), 512);
    let out = a.analyze(&vec![0.0f32; 1024], 0, 22050, hann_spectrum, smooth).unwrap();
    assert_eq!(out.len(), 512);
    assert!(out.iter().all(|b| b.1.abs() < 1e-6));

    let block = sine(1000.0, 44100.0, 1024);
    let resolution = 44100.0 / 1024.0;
    let nearest = (1000.0 / resolution as f64).round() as usize;
    let mut last_peak = 0.0;
    for _ in 0..5 {
        let out = a.analyze(&block, 0, 22050, hann_spectrum, smooth).unwrap();
        assert_eq!(out.len(), 512);
        let mags = magnitudes(&out);
        let peak = (0..mags.len()).max_by(|&i, &j| mags[i].partial_cmp(&mags[j]).unwrap()).unwrap();
        assert_eq!(peak, nearest);
        assert!((out[peak].0 - 1000.0).abs() < resolution);
        assert!(mags[peak] > last_peak);
        last_peak = mags[peak];
    }
}

#[test]
fn excess_samples_are_ignored() {
    let mut a = fresh(44100, 1024);
    let mut b = fresh(44100, 1024);
    let block = sine(440.0, 44100.0, 1024);
    let mut longer = block.clone();
    longer.extend(vec![3.0f32; 100]);
    let ra = a.analyze(&block, 0, 22050, hann_spectrum, smooth).unwrap();
    let rb = b.analyze(&longer, 0, 22050, hann_spectrum, smooth).unwrap();
    assert_eq!(ra, rb);
}

#[test]
fn output_is_finite_and_non_negative() {
    let mut a = fresh(8000, 256);
    for k in 0..4 {
        let block = sine(300.0 * (k + 1) as f64, 8000.0, 256);
        let out = a.analyze(&block, 0, 4000, hann_spectrum, smooth).unwrap();
        assert_eq!(out.len(), 128);
        assert!(out.iter().all(|b| b.1.is_finite() && b.1 >= 0.0));
    }
}

/// A transform that reports magnitude `m` on every one of `bins` bins.
fn constant(m: f32, bins: usize) -> impl Fn(Vec<f32>, u32, u32, u32) -> Option<Vec<(f32, f32)>> {
    move |_block, _rate, _lo, _hi| Some((0..bins).map(|i| (i as f32, m)).collect())
}

#[test]
fn smoothing_converges_within_one_percent() {
    let mut a = fresh(44100, 16);
    let m = 2.0f64;
    let mut prev = 0.0;
    let mut calls = 0;
    loop {
        let out = a.analyze(&vec![0.0f32; 16], 0, 22050, constant(m as f32, 8), smooth).unwrap();
        calls += 1;
        let v = out[3].1;
        assert!(v > prev && v <= m);
        prev = v;
        if (m - v).abs() <= 0.01 * m {
            break;
        }
    }
    assert!(calls <= 44);
}

#[test]
fn smoothing_decays_geometrically() {
    let mut a = fresh(44100, 16);
    for _ in 0..60 {
        a.analyze(&vec![0.0f32; 16], 0, 22050, constant(5.0, 8), smooth).unwrap();
    }
    let v0 = a.smoothed_spectrum()[2].1;
    for n in 1..=30 {
        let out = a.analyze(&vec![0.0f32; 16], 0, 22050, constant(0.0, 8), smooth).unwrap();
        let expected = v0 * 0.9f64.powi(n);
        assert!((out[2].1 - expected).abs() <= 1e-9 * v0);
    }
}

#[test]
fn spike_decays_to_about_a_third_after_ten_calls() {
    let mut a = fresh(44100, 16);
    let out = a.analyze(&vec![0.0f32; 16], 0, 22050, constant(10.0, 8), smooth).unwrap();
    assert!((out[0].1 - 1.0).abs() < 1e-9);
    let mut v = 0.0;
    for _ in 0..10 {
        v = a.analyze(&vec![0.0f32; 16], 0, 22050, constant(0.0, 8), smooth).unwrap()[0].1;
    }
    assert!((v - 0.9f64.powi(10)).abs() < 1e-9);
}

#[test]
fn short_spectrum_updates_only_a_prefix() {
    let mut a = fresh(44100, 16);
    let out = a.analyze(&vec![0.0f32; 16], 0, 22050, constant(10.0, 3), smooth).unwrap();
    assert_eq!(out.len(), 8);
    for (i, b) in out.iter().enumerate() {
        if i < 3 {
            assert_eq!(*b, (i as f64, 1.0));
        } else {
            assert_eq!(*b, (0.0, 0.0));
        }
    }
}

#[test]
fn long_spectrum_is_cut_to_buffer_length() {
    let mut a = fresh(44100, 16);
    let out = a.analyze(&vec![0.0f32; 16], 0, 22050, constant(10.0, 9), smooth).unwrap();
    assert_eq!(out.len(), 8);
    assert!(out.iter().all(|b| b.1 == 1.0));
}

#[test]
fn runs_are_deterministic() {
    let blocks: Vec<Vec<f32>> = (0..6).map(|k| sine(200.0 + 150.0 * k as f64, 44100.0, 512)).collect();
    let run = || {
        let mut a = fresh(44100, 512);
        blocks
            .iter()
            .map(|b| a.analyze(b, 0, 22050, hann_spectrum, smooth).unwrap())
            .collect::<Vec<_>>()
    };
    assert_eq!(run(), run());
}

#[test]
fn transform_gets_first_samples_and_configuration() {
    let mut a = fresh(48000, 4);
    let probe = |block: Vec<f32>, rate: u32, lo: u32, hi: u32| {
        assert_eq!(block, vec![1.0, 2.0, 3.0, 4.0]);
        assert_eq!((rate, lo, hi), (48000, 10, 20));
        Some(vec![(7.0f32, 1.0f32), (8.0, 2.0)])
    };
    let out = a.analyze(&vec![1.0, 2.0, 3.0, 4.0, 5.0], 10, 20, probe, smooth).unwrap();
    assert_eq!(out.len(), 2);
    assert_eq!(out[0].0, 7.0);
    assert!((out[1].1 - 0.2).abs() < 1e-6);
}
