use std::sync::Arc;

use osm_sound_demo::audio::{band_bins, Spectrum, Tap, BINS, WINDOW};
use rustfft::num_complex::Complex;
use rustfft::{Fft, FftPlanner};

const RATE: f32 = 44_100.0;

/// The bands read off a window, as the application reads them.
struct Analyzer {
    fft: Arc<dyn Fft<f32>>,
    levels: [f32; BINS],
}

impl Analyzer {
    fn new() -> Self {
        Self {
            fft: FftPlanner::<f32>::new().plan_fft_forward(WINDOW),
            levels: [0.0; BINS],
        }
    }

    fn poll(&mut self, spectrum: &Spectrum) -> [f32; BINS] {
        let mut scratch: Vec<Complex<f32>> = spectrum
            .snapshot()
            .iter()
            .enumerate()
            .map(|(i, bits)| {
                let phase = std::f32::consts::TAU * i as f32 / (WINDOW as f32 - 1.0);
                Complex::new(f32::from_bits(*bits) * 0.5 * (1.0 - phase.cos()), 0.0)
            })
            .collect();
        self.fft.process(&mut scratch);
        for band in 0..BINS {
            let (start, end) = band_bins(band);
            let magnitude = scratch[start..end].iter().map(|c| c.norm()).sum::<f32>()
                / (end - start) as f32
                / (WINDOW / 2) as f32;
            let db = 20.0 * magnitude.max(1e-10).log10();
            let level = ((db + 90.0) / 80.0).clamp(0.0, 1.0);
            self.levels[band] = 0.35 * self.levels[band] + 0.65 * level;
        }
        self.levels
    }
}

/// The levels a sine wave settles at, interleaved over its channels.
fn levels_of(frequency: f32, channels: u16, frames: usize) -> [f32; BINS] {
    let mut spectrum = Spectrum::new();
    let mut tap = Tap::new();
    let step = std::f32::consts::TAU * frequency / RATE;
    let mut phase = 0.0f32;
    let mut sum = 0.0f32;
    for _ in 0..frames {
        let sample = phase.sin();
        for _ in 0..channels {
            sum += sample;
            if let Some(len) = tap.next(channels) {
                spectrum.push((sum / f32::from(len)).to_bits());
                sum = 0.0;
            }
        }
        phase += step;
    }
    let mut analyzer = Analyzer::new();
    let mut levels = [0.0; BINS];
    for _ in 0..64 {
        levels = analyzer.poll(&spectrum);
    }
    levels
}

#[test]
fn silence_leaves_every_band_at_zero() {
    let levels = Analyzer::new().poll(&Spectrum::new());
    assert!(levels.iter().all(|level| *level == 0.0), "{levels:?}");
}

#[test]
fn a_low_tone_only_excites_the_lowest_band() {
    // Each band spans (44100 / 2) / 16 = 1378 Hz, so 440 Hz is band 0.
    let levels = levels_of(440.0, 1, WINDOW * 4);
    assert!(levels[0] > 0.5, "band 0 was {}", levels[0]);
    assert!(
        levels[1..].iter().all(|level| *level < levels[0] / 2.0),
        "{levels:?}"
    );
}

#[test]
fn a_higher_tone_moves_to_a_higher_band() {
    // 5 kHz falls in band 3 (4134 Hz .. 5512 Hz).
    let levels = levels_of(5_000.0, 1, WINDOW * 4);
    let loudest = levels
        .iter()
        .enumerate()
        .max_by(|a, b| a.1.total_cmp(b.1))
        .map(|(band, _)| band);
    assert_eq!(loudest, Some(3), "{levels:?}");
}

#[test]
fn interleaved_stereo_is_analysed_as_mono() {
    let mono = levels_of(440.0, 1, WINDOW * 4);
    let stereo = levels_of(440.0, 2, WINDOW * 4);
    for (band, (mono, stereo)) in mono.iter().zip(stereo.iter()).enumerate() {
        assert!(
            (mono - stereo).abs() < 0.05,
            "band {band}: mono {mono}, stereo {stereo}"
        );
    }
}

#[test]
fn the_window_is_chronological() {
    let mut spectrum = Spectrum::new();
    assert_eq!(spectrum.snapshot(), vec![0; WINDOW]);
    for sample in 1..=3u32 {
        spectrum.push(sample);
    }
    let window = spectrum.snapshot();
    assert_eq!(window.len(), WINDOW);
    assert_eq!(window[WINDOW - 4..], [0, 1, 2, 3]);
    for sample in 0..(WINDOW as u32 * 2 + 5) {
        spectrum.push(sample);
    }
    let window = spectrum.snapshot();
    let newest = WINDOW as u32 * 2 + 4;
    assert_eq!(window[0], newest - (WINDOW as u32 - 1));
    assert_eq!(window[WINDOW - 1], newest);
    spectrum.clear();
    assert_eq!(spectrum.snapshot(), vec![0; WINDOW]);
}

#[test]
fn a_frame_takes_a_sample_of_each_channel() {
    let mut tap = Tap::new();
    assert_eq!(tap.next(1), Some(1));
    assert_eq!(tap.next(3), None);
    assert_eq!(tap.next(3), None);
    assert_eq!(tap.next(3), Some(3));
    // A source that loses channels closes the frame it was in.
    assert_eq!(tap.next(3), None);
    assert_eq!(tap.next(1), Some(2));
}

#[test]
fn the_bands_share_out_the_lower_half() {
    let mut next = 0;
    for band in 0..BINS {
        let (start, end) = band_bins(band);
        assert_eq!(start, next);
        next = end;
    }
    assert_eq!(next, WINDOW / 2);
}
