//! Audio filter tests. Tests the audio filter enum and filter string generation.

use ffmpeg_light::AudioFilter;
use ffmpeg_light::Decimal;

#[test]
fn test_volume_filter() {
    let filter = AudioFilter::Volume(Decimal::from_milli(1500));
    assert_eq!(filter.to_filter_string(), "volume=1.5");
}

#[test]
fn test_volume_half() {
    let filter = AudioFilter::Volume(Decimal::from_milli(500));
    assert_eq!(filter.to_filter_string(), "volume=0.5");
}

#[test]
fn test_equalizer_all_bands() {
    let filter = AudioFilter::Equalizer {
        bass: Some(Decimal::from_int(2)),
        mid: Some(Decimal::from_milli(500)),
        treble: Some(Decimal::from_int(-1)),
    };
    let result = filter.to_filter_string();
    assert!(result.contains("b=2"));
    assert!(result.contains("m=0.5"));
    assert!(result.contains("t=-1"));
}

#[test]
fn test_equalizer_bass_only() {
    let filter = AudioFilter::Equalizer {
        bass: Some(Decimal::from_int(3)),
        mid: None,
        treble: None,
    };
    let result = filter.to_filter_string();
    assert_eq!(result, "superequalizer=b=3");
}

#[test]
fn test_normalization() {
    let filter = AudioFilter::Normalization {
        target_level: Decimal::from_int(-23),
    };
    let result = filter.to_filter_string();
    assert!(result.contains("loudnorm=I=-23"));
}

#[test]
fn test_highpass_filter() {
    let filter = AudioFilter::HighPass {
        frequency: Decimal::from_int(80),
    };
    assert_eq!(filter.to_filter_string(), "highpass=f=80");
}

#[test]
fn test_lowpass_filter() {
    let filter = AudioFilter::LowPass {
        frequency: Decimal::from_int(8000),
    };
    assert_eq!(filter.to_filter_string(), "lowpass=f=8000");
}

#[test]
fn test_custom_audio_filter() {
    let custom = "adelay=10000";
    let filter = AudioFilter::Custom(custom.to_string());
    assert_eq!(filter.to_filter_string(), custom);
}

#[test]
fn test_audio_filter_display() {
    let filter = AudioFilter::Volume(Decimal::from_int(2));
    assert_eq!(filter.to_filter_string(), "volume=2");
}

#[test]
fn test_multiple_audio_filters_compatibility() {
    let filters = vec![
        AudioFilter::Normalization {
            target_level: Decimal::from_int(-23),
        },
        AudioFilter::LowPass {
            frequency: Decimal::from_int(12000),
        },
    ];

    let filter_strings: Vec<String> = filters.iter().map(|f| f.to_filter_string()).collect();
    let chained = filter_strings.join(",");

    assert!(chained.contains("loudnorm=I=-23"));
    assert!(chained.contains("lowpass=f=12000"));
}

#[test]
fn test_equalizer_all_absent() {
    let filter = AudioFilter::Equalizer {
        bass: None,
        mid: None,
        treble: None,
    };
    assert_eq!(filter.to_filter_string(), "superequalizer");
}

#[test]
fn test_equalizer_mid_and_treble() {
    let filter = AudioFilter::Equalizer {
        bass: None,
        mid: Some(Decimal::from_int(1)),
        treble: Some(Decimal::from_milli(-2500)),
    };
    assert_eq!(filter.to_filter_string(), "superequalizer=m=1:t=-2.5");
}
