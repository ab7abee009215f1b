use redbookmaster::concat::{source_samples, ConcatError, SourceSamples};
use redbookmaster::convert::{
    channel_conversion, dither_step, sample_decoding, sample_encoding, ChannelConversion, ConversionResult,
    ConvertError, ConvertOptions, SampleDecoding, SampleEncoding, SampleFormat,
};
use redbookmaster::time::Duration;
use redbookmaster::wav::{validate_wav, WavError, WavInfo};

#[test]
fn test_convert_options_default() {
    let opts = ConvertOptions::default();
    assert_eq!(opts.sample_rate, 44100);
    assert_eq!(opts.bits_per_sample, 16);
    assert_eq!(opts.channels, 2);
}

#[test]
fn convert_test_convert_options_default() {
    let opts = ConvertOptions::default();
    assert_eq!(opts.sample_rate, 44100);
    assert_eq!(opts.bits_per_sample, 16);
    assert_eq!(opts.channels, 2);
}

fn summary_case() -> ConversionResult {
    ConversionResult {
        input_sample_rate: 48000,
        output_sample_rate: 44100,
        input_bits: 24,
        output_bits: 16,
        input_channels: 1,
        output_channels: 2,
        resampled: true,
        bit_converted: true,
        channel_converted: true,
    }
}

#[test]
fn test_conversion_result_summary() {
    let result = summary_case();
    let summary = result.summary();
    assert!(summary.contains("48000Hz -> 44100Hz"));
    assert!(summary.contains("24-bit -> 16-bit"));
    assert!(summary.contains("mono -> stereo"));
}

#[test]
fn convert_test_conversion_result_summary() {
    let result = summary_case();
    let summary = result.summary();
    assert!(summary.contains("48000Hz -> 44100Hz"));
    assert!(summary.contains("24-bit -> 16-bit"));
    assert!(summary.contains("mono -> stereo"));
}

fn info(rate: u32, bits: u16, channels: u16) -> WavInfo {
    WavInfo {
        sample_rate: rate,
        bits_per_sample: bits,
        channels,
        duration: Duration::from_secs(60),
        num_samples: rate as u64 * 60,
        path: "test.wav".to_string(),
    }
}

#[test]
fn test_wav_info_compliance() {
    let info = info(44100, 16, 2);
    assert!(info.is_red_book_compliant());
    assert!(info.format_issues().is_empty());
}

#[test]
fn test_wav_info_non_compliant() {
    let info = info(48000, 24, 1);
    assert!(!info.is_red_book_compliant());
    assert_eq!(info.format_issues().len(), 3);
}

#[test]
fn format_issue_texts_and_description() {
    let i = info(48000, 24, 1);
    assert_eq!(
        i.format_issues(),
        vec![
            "Sample rate is 48000Hz (needs 44100Hz)".to_string(),
            "Bit depth is 24 (needs 16)".to_string(),
            "Channels: 1 (needs 2 stereo)".to_string(),
        ]
    );
    assert_eq!(i.format_description(), "48000Hz, 24-bit, 1 channel");
    assert_eq!(info(44100, 16, 2).format_description(), "44100Hz, 16-bit, 2 channels");
}

#[test]
fn validate_wav_returns_issues() {
    assert!(validate_wav(info(44100, 16, 2)).is_ok());
    match validate_wav(info(44100, 16, 1)) {
        Err(WavError::NotCompliant { path, issues }) => {
            assert_eq!(path, "test.wav");
            assert_eq!(issues, vec!["Channels: 1 (needs 2 stereo)".to_string()]);
        }
        other => panic!("unexpected {:?}", other),
    }
}

#[test]
fn conversion_plan_and_summaries() {
    let opts = ConvertOptions::red_book();
    let r = ConversionResult::plan(44100, 16, 2, &opts);
    assert!(!r.resampled && !r.bit_converted && !r.channel_converted);
    assert_eq!(r.summary(), "No conversion needed");
    let r = ConversionResult::plan(48000, 16, 2, &opts);
    assert_eq!(r.summary(), "48000Hz -> 44100Hz");
    let r = ConversionResult::plan(44100, 24, 2, &opts);
    assert_eq!(r.summary(), "24-bit -> 16-bit");
    let r = ConversionResult::plan(44100, 16, 1, &opts);
    assert_eq!(r.summary(), "mono -> stereo");
    assert_eq!(summary_case().summary(), "48000Hz -> 44100Hz, 24-bit -> 16-bit, mono -> stereo");
}

#[test]
fn sample_format_decisions() {
    assert_eq!(sample_decoding(SampleFormat::Int, 24).unwrap(), SampleDecoding::Int24);
    assert_eq!(sample_decoding(SampleFormat::Float, 32).unwrap(), SampleDecoding::Float32);
    match sample_decoding(SampleFormat::Float, 64) {
        Err(ConvertError::UnsupportedFormat(m)) => assert_eq!(m, "64-bit Float"),
        other => panic!("unexpected {:?}", other),
    }
    match sample_decoding(SampleFormat::Int, 12) {
        Err(ConvertError::UnsupportedFormat(m)) => assert_eq!(m, "12-bit Int"),
        other => panic!("unexpected {:?}", other),
    }
    assert_eq!(sample_encoding(16).unwrap(), SampleEncoding::Int16);
    match sample_encoding(8) {
        Err(ConvertError::UnsupportedFormat(m)) => assert_eq!(m, "Cannot write 8-bit audio"),
        other => panic!("unexpected {:?}", other),
    }
    assert_eq!(channel_conversion(1, 2).unwrap(), ChannelConversion::MonoToStereo);
    assert_eq!(channel_conversion(2, 1).unwrap(), ChannelConversion::StereoToMono);
    assert_eq!(channel_conversion(2, 2).unwrap(), ChannelConversion::Unchanged);
    assert!(matches!(
        channel_conversion(6, 2),
        Err(ConvertError::UnsupportedChannelConversion(6, 2))
    ));
}

#[test]
fn dither_generator_steps() {
    assert_eq!(dither_step(0), 12345);
    assert_eq!(dither_step(1), 1103527590);
    assert_eq!(dither_step(12345), (12345u64 * 1103515245 + 12345) as u32);
}

#[test]
fn concat_source_formats() {
    assert_eq!(source_samples(44100, 16).unwrap(), SourceSamples::Copy16);
    assert_eq!(source_samples(44100, 24).unwrap(), SourceSamples::Shift24);
    match source_samples(48000, 16) {
        Err(ConcatError::FormatMismatch(m)) => assert_eq!(m, "Sample rate 48000 doesn't match Red Book 44100"),
        other => panic!("unexpected {:?}", other),
    }
    match source_samples(44100, 8) {
        Err(ConcatError::FormatMismatch(m)) => assert_eq!(m, "Unsupported bit depth: 8"),
        other => panic!("unexpected {:?}", other),
    }
}

#[test]
fn duration_arithmetic() {
    let d = Duration::new(3, 500_000_000);
    assert_eq!(d.as_millis(), 3500);
    assert_eq!(d.as_secs(), 3);
    assert_eq!(d.subsec_nanos(), 500_000_000);
    assert_eq!(d.plus(Duration::from_millis(500)).as_secs(), 4);
    assert_eq!(Duration::from_secs(1).saturating_sub(Duration::from_secs(2)).as_nanos(), 0);
    assert!(Duration::from_nanos(1).lt(&Duration::from_nanos(2)));
    assert!(Duration::from_secs(1).checked_add(Duration::zero()).is_some());
}
