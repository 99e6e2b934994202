//! Command assembly tests: argument accumulation and the prober's
//! fixed flag sequence.

use ffmpeg_light::FfmpegBinaryPaths;
use ffmpeg_light::FfmpegCommand;
use ffmpeg_light::FfmpegLocator;
use ffmpeg_light::FfprobeCommand;

fn stringify(args: &Vec<String>) -> Vec<&str> {
    args.iter().map(|arg| arg.as_str()).collect()
}

#[test]
fn ffmpeg_command_collects_args_in_order() {
    let mut cmd = FfmpegCommand::new("/usr/bin/ffmpeg");
    cmd.arg("-y");
    cmd.arg("-i");
    cmd.arg("input.mp4");
    cmd.args(&vec!["-c:v".to_string(), "libx264".to_string()]);

    assert_eq!(cmd.binary(), "/usr/bin/ffmpeg");
    assert_eq!(
        stringify(cmd.arg_list()),
        vec!["-y", "-i", "input.mp4", "-c:v", "libx264"]
    );
}

#[test]
fn ffprobe_command_includes_json_flags() {
    let cmd = FfprobeCommand::new("/usr/bin/ffprobe", "video.mkv");
    let args = cmd.build_args();

    assert_eq!(
        stringify(&args),
        vec![
            "-v",
            "quiet",
            "-print_format",
            "json",
            "-show_format",
            "-show_streams",
            "video.mkv"
        ]
    );
}

#[test]
fn ffprobe_extra_args_come_before_the_input() {
    let mut cmd = FfprobeCommand::new("/usr/bin/ffprobe", "video.mkv");
    cmd.arg("-count_frames");
    let args = cmd.build_args();
    assert_eq!(args[args.len() - 2], "-count_frames");
    assert_eq!(args[args.len() - 1], "video.mkv");
    assert_eq!(cmd.binary(), "/usr/bin/ffprobe");
}

#[test]
fn binary_paths_keep_explicit_locations() {
    let paths = FfmpegBinaryPaths::with_paths("/opt/bin/ffmpeg", "/opt/bin/ffprobe");
    assert_eq!(paths.ffmpeg(), "/opt/bin/ffmpeg");
    assert_eq!(paths.ffprobe(), "/opt/bin/ffprobe");
}

#[test]
fn locator_accepts_existing_paths() {
    let locator = FfmpegLocator::with_paths("/", "/").unwrap();
    assert_eq!(locator.ffmpeg(), "/");
    assert_eq!(locator.ffprobe(), "/");
}

#[test]
fn locator_rejects_missing_paths() {
    let result = FfmpegLocator::with_paths("/no/such/transcoder/anywhere", "/");
    match result {
        Err(ffmpeg_light::Error::BinaryNotFound { binary }) => {
            assert_eq!(binary, "/no/such/transcoder/anywhere");
        }
        _ => panic!("a missing path must be rejected"),
    }
}

#[test]
fn locator_from_paths_takes_paths_verbatim() {
    let paths = FfmpegBinaryPaths::with_paths("/a/ffmpeg", "/a/ffprobe");
    let locator = FfmpegLocator::from_paths(paths);
    assert_eq!(locator.binaries().ffmpeg(), "/a/ffmpeg");
    assert_eq!(locator.ffprobe(), "/a/ffprobe");
}
