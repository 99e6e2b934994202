//! Argument rendering and validation tests for the transcode builder.

use ffmpeg_light::AudioFilter;
use ffmpeg_light::Decimal;
use ffmpeg_light::Error;
use ffmpeg_light::FfmpegBinaryPaths;
use ffmpeg_light::TranscodeBuilder;
use ffmpeg_light::VideoFilter;

fn fixed_binaries() -> FfmpegBinaryPaths {
    FfmpegBinaryPaths::with_paths("/usr/bin/ffmpeg", "/usr/bin/ffprobe")
}

fn stringify(args: &Vec<String>) -> Vec<&str> {
    args.iter().map(|arg| arg.as_str()).collect()
}

#[test]
fn args_follow_the_fixed_order() {
    let validated = TranscodeBuilder::new()
        .with_binaries(&fixed_binaries())
        .input("in.mp4")
        .output("out.mp4")
        .video_codec("libx264")
        .add_video_filter(VideoFilter::Scale {
            width: 1280,
            height: 720,
        })
        .validate()
        .expect("a fully configured request validates");
    assert_eq!(
        stringify(&validated.args()),
        vec!["-y", "-i", "in.mp4", "-c:v", "libx264", "-vf", "scale=1280:720", "out.mp4"]
    );
}

#[test]
fn args_render_every_section_in_order() {
    let validated = TranscodeBuilder::new()
        .with_binaries(&fixed_binaries())
        .input("input.avi")
        .output("output.mp4")
        .video_codec("libx264")
        .audio_codec("aac")
        .video_bitrate(2500)
        .audio_bitrate(128)
        .frame_rate(Decimal::from_milli(29_970))
        .preset("medium")
        .add_video_filter(VideoFilter::Scale {
            width: 1280,
            height: 720,
        })
        .add_video_filter(VideoFilter::Deinterlace)
        .add_audio_filter(AudioFilter::Volume(Decimal::from_milli(1500)))
        .extra_arg("-movflags")
        .extra_arg("+faststart")
        .overwrite(false)
        .validate()
        .expect("a fully configured request validates");
    assert_eq!(
        stringify(&validated.args()),
        vec![
            "-n",
            "-i",
            "input.avi",
            "-c:v",
            "libx264",
            "-c:a",
            "aac",
            "-b:v",
            "2500k",
            "-b:a",
            "128k",
            "-r",
            "29.97",
            "-preset",
            "medium",
            "-vf",
            "scale=1280:720,yadif",
            "-af",
            "volume=1.5",
            "-movflags",
            "+faststart",
            "output.mp4"
        ]
    );
}

#[test]
fn validation_fails_without_output_path() {
    let result = TranscodeBuilder::new()
        .with_binaries(&fixed_binaries())
        .input("in.mp4")
        .validate();
    match result {
        Err(Error::InvalidInput(message)) => {
            assert_eq!(message, "output path is required");
        }
        _ => panic!("a request without an output path must be invalid"),
    }
}

#[test]
fn validation_fails_without_input_path() {
    let result = TranscodeBuilder::new()
        .with_binaries(&fixed_binaries())
        .output("out.mp4")
        .validate();
    match result {
        Err(Error::InvalidInput(message)) => {
            assert_eq!(message, "input path is required");
        }
        _ => panic!("a request without an input path must be invalid"),
    }
}

#[test]
fn validation_keeps_pinned_binaries() {
    let validated = TranscodeBuilder::new()
        .with_binaries(&fixed_binaries())
        .input("a")
        .output("b")
        .validate()
        .unwrap();
    assert_eq!(validated.binaries().ffmpeg(), "/usr/bin/ffmpeg");
    assert_eq!(validated.binaries().ffprobe(), "/usr/bin/ffprobe");
}

#[test]
fn filters_keep_insertion_order_in_the_chain() {
    let validated = TranscodeBuilder::new()
        .with_binaries(&fixed_binaries())
        .input("a")
        .output("b")
        .add_video_filter(VideoFilter::Crop {
            width: 100,
            height: 100,
            x: 4,
            y: 2,
        })
        .size(50, 50)
        .validate()
        .unwrap();
    let args = validated.args();
    let chain_at = args.iter().position(|a| a.as_str() == "-vf").unwrap();
    assert_eq!(args[chain_at + 1], "crop=100:100:4:2,scale=50:50");
}
