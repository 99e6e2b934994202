//! Video filter tests. These validate the filter string generation and builder integration.

use ffmpeg_light::filter::DenoiseStrength;
use ffmpeg_light::filter::VideoFilter;
use ffmpeg_light::Decimal;
use ffmpeg_light::Time;

#[test]
fn test_scale_filter() {
    let filter = VideoFilter::Scale {
        width: 1920,
        height: 1080,
    };
    assert_eq!(filter.to_filter_string(), "scale=1920:1080");
}

#[test]
fn test_crop_filter() {
    let filter = VideoFilter::Crop {
        width: 1280,
        height: 720,
        x: 0,
        y: 0,
    };
    assert_eq!(filter.to_filter_string(), "crop=1280:720:0:0");
}

#[test]
fn test_rotate_filter() {
    let filter = VideoFilter::Rotate {
        degrees: Decimal::from_int(90),
    };
    let result = filter.to_filter_string();
    assert!(result.contains("rotate="));
    assert!(!result.contains("degrees"));
}

#[test]
fn test_flip_horizontal() {
    let filter = VideoFilter::Flip { direction: 'h' };
    assert_eq!(filter.to_filter_string(), "hflip");
}

#[test]
fn test_flip_vertical() {
    let filter = VideoFilter::Flip { direction: 'v' };
    assert_eq!(filter.to_filter_string(), "vflip");
}

#[test]
fn test_brightness_contrast() {
    let filter = VideoFilter::BrightnessContrast {
        brightness: Some(Decimal::from_milli(200)),
        contrast: Some(Decimal::from_milli(1500)),
    };
    let result = filter.to_filter_string();
    assert!(result.contains("brightness=0.2"));
    assert!(result.contains("contrast=1.5"));
}

#[test]
fn test_brightness_only() {
    let filter = VideoFilter::BrightnessContrast {
        brightness: Some(Decimal::from_milli(300)),
        contrast: None,
    };
    let result = filter.to_filter_string();
    assert_eq!(result, "eq=brightness=0.3");
}

#[test]
fn test_denoise_light() {
    let filter = VideoFilter::Denoise {
        strength: DenoiseStrength::Light,
    };
    assert_eq!(filter.to_filter_string(), "hqdn3d=1.5:1.5:6:6");
}

#[test]
fn test_denoise_heavy() {
    let filter = VideoFilter::Denoise {
        strength: DenoiseStrength::Heavy,
    };
    assert_eq!(filter.to_filter_string(), "hqdn3d=5:5:6:6");
}

#[test]
fn test_deinterlace() {
    let filter = VideoFilter::Deinterlace;
    assert_eq!(filter.to_filter_string(), "yadif");
}

#[test]
fn test_custom_filter() {
    let custom = "scale=1280:720,fps=30";
    let filter = VideoFilter::Custom(custom.to_string());
    assert_eq!(filter.to_filter_string(), custom);
}

#[test]
fn test_filter_display_trait() {
    let filter = VideoFilter::Scale {
        width: 640,
        height: 480,
    };
    assert_eq!(filter.to_filter_string(), "scale=640:480");
}

#[test]
fn test_flip_unknown_direction_falls_back() {
    let filter = VideoFilter::Flip { direction: 'x' };
    assert_eq!(filter.to_filter_string(), "hflip");
}

#[test]
fn test_denoise_medium() {
    let filter = VideoFilter::Denoise {
        strength: DenoiseStrength::Medium,
    };
    assert_eq!(filter.to_filter_string(), "hqdn3d=3:3:6:6");
}

#[test]
fn test_brightness_contrast_both_absent() {
    let filter = VideoFilter::BrightnessContrast {
        brightness: None,
        contrast: None,
    };
    assert_eq!(filter.to_filter_string(), "eq");
}

#[test]
fn test_contrast_only() {
    let filter = VideoFilter::BrightnessContrast {
        brightness: None,
        contrast: Some(Decimal::from_milli(1500)),
    };
    assert_eq!(filter.to_filter_string(), "eq=contrast=1.5");
}

#[test]
fn test_trim_filter() {
    let filter = VideoFilter::Trim {
        start: Time::from_seconds(5),
        end: Some(Time::from_seconds(65)),
    };
    assert_eq!(
        filter.to_filter_string(),
        "trim=start=00:00:05.000:end=00:01:05.000"
    );
    let open_ended = VideoFilter::Trim {
        start: Time::from_seconds(5),
        end: None,
    };
    assert_eq!(open_ended.to_filter_string(), "trim=start=00:00:05.000");
}
