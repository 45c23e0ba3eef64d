use pcm::{FormatError, PcmFormat};

#[test]
fn cd_quality_mono_format() {
    let f = PcmFormat::new(44_100, 16, 1).unwrap();
    assert_eq!(f.get_sample_rate(), 44_100);
    assert_eq!(f.get_bits_per_sample(), 16);
    assert_eq!(f.get_number_of_channels(), 1);
}

#[test]
fn zero_sample_rate_is_refused() {
    assert_eq!(PcmFormat::new(0, 16, 1).unwrap_err(), FormatError::ZeroSampleRate);
    assert_eq!(PcmFormat::new(0, 0, 0).unwrap_err(), FormatError::ZeroSampleRate);
}

#[test]
fn unsupported_bit_depth_is_refused() {
    assert_eq!(PcmFormat::new(8_000, 0, 1).unwrap_err(), FormatError::UnsupportedBitDepth);
    assert_eq!(PcmFormat::new(8_000, 17, 1).unwrap_err(), FormatError::UnsupportedBitDepth);
    assert_eq!(PcmFormat::new(8_000, 24, 0).unwrap_err(), FormatError::UnsupportedBitDepth);
}

#[test]
fn zero_channels_are_refused() {
    assert_eq!(PcmFormat::new(8_000, 8, 0).unwrap_err(), FormatError::ZeroChannels);
}

#[test]
fn max_sample_value_per_bit_depth() {
    assert_eq!(PcmFormat::new(44_100, 16, 1).unwrap().max_sample_value(), 65_535);
    assert_eq!(PcmFormat::new(44_100, 8, 1).unwrap().max_sample_value(), 255);
    assert_eq!(PcmFormat::new(44_100, 1, 1).unwrap().max_sample_value(), 1);
    assert_eq!(PcmFormat::new(44_100, 12, 2).unwrap().max_sample_value(), 4_095);
}
