//! Thumbnail option and argument rendering tests.

use ffmpeg_light::thumbnail_args;
use ffmpeg_light::ThumbnailFormat;
use ffmpeg_light::ThumbnailOptions;
use ffmpeg_light::Time;

fn stringify(args: &Vec<String>) -> Vec<&str> {
    args.iter().map(|arg| arg.as_str()).collect()
}

#[test]
fn options_accumulate_configuration() {
    let options = ThumbnailOptions::new(Time::from_seconds(5));
    assert_eq!(options.time(), Time::from_seconds(5));
    assert!(options.dimensions().is_none());
    assert!(matches!(options.output_format(), ThumbnailFormat::Png));

    let sized = options.size(320, 240).format(ThumbnailFormat::Jpeg);
    assert_eq!(sized.dimensions(), Some((320, 240)));
    assert!(matches!(sized.output_format(), ThumbnailFormat::Jpeg));
}

#[test]
fn format_extension_and_flags() {
    assert_eq!(ThumbnailFormat::Png.extension(), "png");
    assert_eq!(ThumbnailFormat::Jpeg.extension(), "jpg");
    assert_eq!(stringify(&ThumbnailFormat::Png.ffmpeg_args()), vec!["-f", "image2"]);
    assert_eq!(stringify(&ThumbnailFormat::Jpeg.ffmpeg_args()), vec!["-f", "mjpeg"]);
}

#[test]
fn thumbnail_args_follow_the_fixed_order() {
    let options = ThumbnailOptions::new(Time::from_seconds(5))
        .size(320, 240)
        .format(ThumbnailFormat::Jpeg);
    let args = thumbnail_args("in.mp4", "thumb", &options);
    assert_eq!(
        stringify(&args),
        vec![
            "-y",
            "-ss",
            "00:00:05.000",
            "-i",
            "in.mp4",
            "-vframes",
            "1",
            "-vf",
            "scale=320:240",
            "-f",
            "mjpeg",
            "thumb.jpg"
        ]
    );
}

#[test]
fn thumbnail_args_without_scaling() {
    let options = ThumbnailOptions::new(Time::zero());
    let args = thumbnail_args("clip.mkv", "shot.png", &options);
    assert_eq!(
        stringify(&args),
        vec![
            "-y",
            "-ss",
            "00:00:00.000",
            "-i",
            "clip.mkv",
            "-vframes",
            "1",
            "-f",
            "image2",
            "shot.png"
        ]
    );
}

use ffmpeg_light::thumbnail::output_with_extension;

#[test]
fn output_extension_defaulting() {
    assert_eq!(output_with_extension("shot", &ThumbnailFormat::Png), "shot.png");
    assert_eq!(output_with_extension("shot.jpeg", &ThumbnailFormat::Png), "shot.jpeg");
    assert_eq!(
        output_with_extension("captures.d/shot", &ThumbnailFormat::Jpeg),
        "captures.d/shot.jpg"
    );
    assert_eq!(
        output_with_extension(".hidden", &ThumbnailFormat::Png),
        ".hidden.png"
    );
}
