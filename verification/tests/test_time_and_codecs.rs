//! Timestamp rendering and codec-name mapping tests.

use ffmpeg_light::CodecType;
use ffmpeg_light::VideoFilter;
use ffmpeg_light::Decimal;
use ffmpeg_light::Time;

#[test]
fn timestamp_renders_padded_fields() {
    assert_eq!(Time::zero().to_ffmpeg_timestamp(), "00:00:00.000");
    assert_eq!(Time::from_seconds(3661).to_ffmpeg_timestamp(), "01:01:01.000");
    assert_eq!(Time::from_seconds(59).to_ffmpeg_timestamp(), "00:00:59.000");
    assert_eq!(
        Time::from_seconds(100 * 3600).to_ffmpeg_timestamp(),
        "100:00:00.000"
    );
}

#[test]
fn timestamp_rounds_to_nearest_millisecond() {
    assert_eq!(
        Time::from_parts(0, 1_499_999).to_ffmpeg_timestamp(),
        "00:00:00.001"
    );
    assert_eq!(
        Time::from_parts(0, 1_500_000).to_ffmpeg_timestamp(),
        "00:00:00.002"
    );
    // Rounding up at the second boundary carries into the seconds.
    assert_eq!(
        Time::from_parts(0, 999_500_000).to_ffmpeg_timestamp(),
        "00:00:01.000"
    );
}

#[test]
fn timestamp_from_float_seconds() {
    // The float construction rounds to the nearest nanosecond before
    // splitting into seconds and remainder.
    let samples: Vec<f64> = vec![0.0, 1.5, 90.25, 3599.999, 12.3456789];
    for s in samples {
        let nanos = (s * 1_000_000_000.0).round() as u64;
        let t = Time::from_parts(nanos / 1_000_000_000, (nanos % 1_000_000_000) as u32);
        let total_ms = (nanos + 500_000) / 1_000_000;
        let expected = format!(
            "{:02}:{:02}:{:02}.{:03}",
            total_ms / 3_600_000,
            (total_ms / 60_000) % 60,
            (total_ms / 1_000) % 60,
            total_ms % 1_000
        );
        assert_eq!(t.to_ffmpeg_timestamp(), expected);
    }
}

#[test]
fn duration_round_trip_keeps_parts() {
    let t = Time::from_duration(std::time::Duration::from_millis(1500));
    assert_eq!(t.to_ffmpeg_timestamp(), "00:00:01.500");
    let back = t.as_duration();
    assert_eq!(back, std::time::Duration::from_millis(1500));
}

#[test]
fn time_default_is_zero() {
    let t = Time::default();
    assert_eq!(t, Time::zero());
    assert_eq!(t.to_ffmpeg_timestamp(), "00:00:00.000");
}

#[test]
fn codec_from_name_round_trips_known_names() {
    assert_eq!(CodecType::from_name("h264"), CodecType::H264);
    assert_eq!(CodecType::from_name("H264"), CodecType::H264);
    assert_eq!(CodecType::from_name("libx264"), CodecType::H264);
    assert_eq!(CodecType::from_name("hevc"), CodecType::Hevc);
    assert_eq!(CodecType::from_name("H265"), CodecType::Hevc);
    assert_eq!(CodecType::from_name("LibX265"), CodecType::Hevc);
    assert_eq!(CodecType::from_name("vp9"), CodecType::Vp9);
    assert_eq!(CodecType::from_name("AV1"), CodecType::Av1);
    assert_eq!(CodecType::from_name("aac"), CodecType::Aac);
    assert_eq!(CodecType::from_name("MP3"), CodecType::Mp3);
    assert_eq!(CodecType::from_name("Opus"), CodecType::Opus);
    assert_eq!(CodecType::from_name("PCM_S16LE"), CodecType::PcmS16Le);
    assert_eq!(CodecType::from_name("copy"), CodecType::Copy);
}

#[test]
fn codec_from_name_wraps_unknown_names_lower_cased() {
    assert_eq!(
        CodecType::from_name("WeIrD"),
        CodecType::Other("weird".to_string())
    );
    assert_eq!(
        CodecType::from_name("prores"),
        CodecType::Other("prores".to_string())
    );
}

#[test]
fn codec_encoder_names_differ_from_probe_names() {
    // A stream probed as `hevc` re-renders as `libx265`.
    assert_eq!(CodecType::from_name("hevc").as_str(), "libx265");
    assert_eq!(CodecType::H264.as_str(), "libx264");
    assert_eq!(CodecType::Vp9.as_str(), "libvpx-vp9");
    assert_eq!(CodecType::Av1.as_str(), "libaom-av1");
    assert_eq!(CodecType::Aac.as_str(), "aac");
    assert_eq!(CodecType::Mp3.as_str(), "libmp3lame");
    assert_eq!(CodecType::Opus.as_str(), "libopus");
    assert_eq!(CodecType::PcmS16Le.as_str(), "pcm_s16le");
    assert_eq!(CodecType::Copy.as_str(), "copy");
    assert_eq!(CodecType::Other("prores".to_string()).as_str(), "prores");
}

#[test]
fn decimal_renders_trimmed_fractions() {
    assert_eq!(Decimal::from_int(2).render(), "2");
    assert_eq!(Decimal::from_milli(1500).render(), "1.5");
    assert_eq!(Decimal::from_milli(-250).render(), "-0.25");
    assert_eq!(Decimal::from_milli(0).render(), "0");
    assert_eq!(Decimal::from_milli(1234).render(), "1.234");
    assert_eq!(Decimal::from_int(-23).render(), "-23");
    assert_eq!(Decimal::from_milli(-30).render(), "-0.03");
}

#[test]
fn rotate_renders_radians() {
    let quarter_turn = VideoFilter::Rotate {
        degrees: Decimal::from_int(90),
    };
    assert_eq!(quarter_turn.to_filter_string(), "rotate=1.570796326");
    let negative = VideoFilter::Rotate {
        degrees: Decimal::from_int(-180),
    };
    assert_eq!(negative.to_filter_string(), "rotate=-3.141592653");
    let zero = VideoFilter::Rotate {
        degrees: Decimal::from_int(0),
    };
    assert_eq!(zero.to_filter_string(), "rotate=0");
}
