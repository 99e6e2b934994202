//! Probe report conversion tests: lenient field parsing, rational
//! frame rates, and the stream dispatch.

use ffmpeg_light::parse_duration;
use ffmpeg_light::parse_probe_report;
use ffmpeg_light::parse_ratio;
use ffmpeg_light::parse_u32;
use ffmpeg_light::parse_u64;
use ffmpeg_light::CodecType;
use ffmpeg_light::RawProbeFormat;
use ffmpeg_light::RawProbeReport;
use ffmpeg_light::RawProbeStream;
use ffmpeg_light::StreamInfo;

fn empty_stream() -> RawProbeStream {
    RawProbeStream {
        codec_type: None,
        codec_name: None,
        width: None,
        height: None,
        bit_rate: None,
        avg_frame_rate: None,
        channels: None,
        sample_rate: None,
        language: None,
        title: None,
    }
}

#[test]
fn ratio_parsing() {
    let ntsc = parse_ratio(Some("30000/1001")).unwrap();
    assert_eq!((ntsc.num, ntsc.den), (30000, 1001));
    assert_eq!(ntsc.num as f64 / ntsc.den as f64, 30_000.0 / 1_001.0);
    assert_eq!(parse_ratio(Some("0/0")), None);
    let decimal = parse_ratio(Some("59.94")).unwrap();
    assert_eq!(decimal.num as f64 / decimal.den as f64, 59.94);
    assert_eq!(parse_ratio(None), None);
}

#[test]
fn ratio_parsing_edges() {
    assert_eq!(parse_ratio(Some("0")), None);
    assert_eq!(parse_ratio(Some("30/0")), None);
    let zero = parse_ratio(Some("0/1")).unwrap();
    assert_eq!((zero.num, zero.den), (0, 1));
    let bare = parse_ratio(Some("25")).unwrap();
    assert_eq!((bare.num, bare.den), (25, 1));
    assert_eq!(parse_ratio(Some("abc")), None);
    assert_eq!(parse_ratio(Some("1/2/3")), None);
}

#[test]
fn integer_field_parsing() {
    assert_eq!(parse_u64(Some("123")), Some(123));
    assert_eq!(parse_u64(Some("+5")), Some(5));
    assert_eq!(parse_u64(Some("")), None);
    assert_eq!(parse_u64(Some("12a")), None);
    assert_eq!(parse_u64(Some("99999999999999999999")), None);
    assert_eq!(parse_u64(None), None);
    assert_eq!(parse_u32(Some("70000")), Some(70000));
    assert_eq!(parse_u32(Some("5000000000")), None);
}

#[test]
fn duration_field_parsing() {
    let d = parse_duration(Some("60.095000")).unwrap();
    assert_eq!(d.seconds(), 60);
    assert_eq!(d.subsec_nanos(), 95_000_000);
    let whole = parse_duration(Some("12")).unwrap();
    assert_eq!(whole.seconds(), 12);
    assert_eq!(whole.subsec_nanos(), 0);
    let frac = parse_duration(Some("0.5")).unwrap();
    assert_eq!(frac.seconds(), 0);
    assert_eq!(frac.subsec_nanos(), 500_000_000);
    assert_eq!(parse_duration(Some("abc")), None);
    assert_eq!(parse_duration(Some(".")), None);
    assert_eq!(parse_duration(None), None);
}

#[test]
fn probe_parsing_typed_report() {
    let report = RawProbeReport {
        format: Some(RawProbeFormat {
            format_name: Some("mov,mp4,m4a,3gp,3g2,mj2".to_string()),
            format_long_name: Some("QuickTime / MOV".to_string()),
            duration: Some("60.095000".to_string()),
            bit_rate: Some("1205959".to_string()),
            size: Some("9060109".to_string()),
        }),
        streams: vec![
            RawProbeStream {
                codec_type: Some("video".to_string()),
                codec_name: Some("h264".to_string()),
                width: Some(1920),
                height: Some(1080),
                bit_rate: Some("1000000".to_string()),
                avg_frame_rate: Some("30000/1001".to_string()),
                ..empty_stream()
            },
            RawProbeStream {
                codec_type: Some("audio".to_string()),
                codec_name: Some("aac".to_string()),
                channels: Some(2),
                sample_rate: Some("44100".to_string()),
                ..empty_stream()
            },
            RawProbeStream {
                codec_type: Some("unknown".to_string()),
                codec_name: Some("something".to_string()),
                ..empty_stream()
            },
        ],
    };

    let result = parse_probe_report(report);
    assert_eq!(result.streams().len(), 2);

    let video = result.first_video().expect("video stream expected");
    assert_eq!(video.codec, CodecType::H264);
    assert_eq!(video.width, Some(1920));
    assert_eq!(video.height, Some(1080));
    let rate = video.frame_rate.unwrap();
    assert_eq!((rate.num, rate.den), (30000, 1001));

    let audio = result.first_audio().expect("audio stream expected");
    assert_eq!(audio.codec, CodecType::Aac);
    assert_eq!(audio.channels, Some(2));
    assert_eq!(audio.sample_rate, Some(44100));

    let format = result.format();
    assert_eq!(format.format_name.as_deref(), Some("mov,mp4,m4a,3gp,3g2,mj2"));
    assert_eq!(format.bit_rate, Some(1205959));
    assert_eq!(format.size, Some(9060109));
    let duration = result.duration().unwrap();
    assert_eq!(duration.seconds(), 60);
    assert_eq!(duration.subsec_nanos(), 95_000_000);
}

#[test]
fn probe_parsing_missing_format_and_lenient_fields() {
    let report = RawProbeReport {
        format: None,
        streams: vec![
            RawProbeStream {
                codec_type: Some("subtitle".to_string()),
                codec_name: Some("subrip".to_string()),
                language: Some("eng".to_string()),
                ..empty_stream()
            },
            RawProbeStream {
                codec_type: Some("data".to_string()),
                title: Some("chapters".to_string()),
                ..empty_stream()
            },
            RawProbeStream {
                codec_type: Some("audio".to_string()),
                codec_name: Some("mp3".to_string()),
                sample_rate: Some("not-a-number".to_string()),
                ..empty_stream()
            },
        ],
    };

    let result = parse_probe_report(report);
    assert!(result.format().format_name.is_none());
    assert!(result.duration().is_none());
    assert_eq!(result.streams().len(), 3);
    assert!(result.first_video().is_none());

    match &result.streams()[0] {
        StreamInfo::Subtitle(sub) => {
            assert_eq!(sub.codec, CodecType::Other("subrip".to_string()));
            assert_eq!(sub.language.as_deref(), Some("eng"));
        }
        _ => panic!("first stream should be a subtitle"),
    }
    match &result.streams()[1] {
        StreamInfo::Data(data) => {
            assert_eq!(data.description.as_deref(), Some("chapters"));
            assert_eq!(data.codec, CodecType::Other("unknown".to_string()));
        }
        _ => panic!("second stream should be data"),
    }
    let audio = result.first_audio().expect("audio stream expected");
    assert_eq!(audio.codec, CodecType::Mp3);
    assert_eq!(audio.sample_rate, None);
}

#[test]
fn format_conversion_is_field_lenient() {
    let info = ffmpeg_light::format_info_from_ffprobe(RawProbeFormat {
        format_name: None,
        format_long_name: Some("Matroska".to_string()),
        duration: Some("nonsense".to_string()),
        bit_rate: Some("1000".to_string()),
        size: Some("-3".to_string()),
    });
    assert_eq!(info.format_long_name.as_deref(), Some("Matroska"));
    assert!(info.duration.is_none());
    assert_eq!(info.bit_rate, Some(1000));
    assert!(info.size.is_none());
}
