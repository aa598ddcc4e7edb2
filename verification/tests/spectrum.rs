use music_visualizer::constants::{BASS_BIN_COUNT, SAMPLE_SIZE, SPECTRUM_BOOST};
use music_visualizer::error::AppError;
use music_visualizer::plugin::EffectKind;
use music_visualizer::spectrum::{spectrum_scale, SpectrumAnalyzer};

#[test]
fn standard_analysis_uses_half_the_snapshot_as_bins() {
    let analyzer = SpectrumAnalyzer::standard();
    assert_eq!(analyzer.fft_size(), 512);
    assert_eq!(analyzer.bins(), 256);
    assert_eq!(analyzer.bass_bins(), 6);
    assert_eq!(SAMPLE_SIZE, 512);
    assert_eq!(BASS_BIN_COUNT, 6);
    assert_eq!(analyzer.payload_len(EffectKind::Spectrum), 256);
    assert_eq!(analyzer.payload_len(EffectKind::Waveform), 512);
    assert!(analyzer.accepts(512));
    assert!(!analyzer.accepts(511));
    assert!(!analyzer.accepts(0));
}

#[test]
fn fft_must_be_as_long_as_the_snapshot() {
    assert_eq!(
        SpectrumAnalyzer::new(512, 256, 6),
        Err(AppError::Config("FFT size must equal the audio snapshot length".to_string()))
    );
    assert_eq!(
        SpectrumAnalyzer::new(512, 1024, 2000),
        Err(AppError::Config("FFT size must equal the audio snapshot length".to_string()))
    );
}

#[test]
fn bass_bins_must_be_among_the_magnitude_bins() {
    assert_eq!(
        SpectrumAnalyzer::new(512, 512, 257),
        Err(AppError::Config(
            "Bass bin count must not exceed the number of magnitude bins".to_string()
        ))
    );
    assert_eq!(
        SpectrumAnalyzer::new(0, 0, 1),
        Err(AppError::Config(
            "Bass bin count must not exceed the number of magnitude bins".to_string()
        ))
    );
    let full = SpectrumAnalyzer::new(512, 512, 256).unwrap();
    assert_eq!(full.bass_bins(), 256);
    let odd = SpectrumAnalyzer::new(7, 7, 3).unwrap();
    assert_eq!(odd.bins(), 3);
    assert_eq!(odd.payload_len(EffectKind::Spectrum), 3);
    assert_eq!(odd.payload_len(EffectKind::Waveform), 7);
    let empty = SpectrumAnalyzer::new(0, 0, 0).unwrap();
    assert_eq!(empty.payload_len(EffectKind::Waveform), 0);
}

#[test]
fn scale_is_intensity_times_gain_times_boost() {
    assert_eq!(SPECTRUM_BOOST, 50);
    assert_eq!(spectrum_scale(1000, 1500), 75_000_000);
    assert_eq!(spectrum_scale(1000, 1500) as f32 / 1e6, 75.0);
    assert_eq!(spectrum_scale(0, 5000), 0);
    assert_eq!(spectrum_scale(10000, 5000), 2_500_000_000);
    assert_eq!(
        spectrum_scale(u32::MAX, u32::MAX),
        u32::MAX as u128 * u32::MAX as u128 * 50
    );
}
