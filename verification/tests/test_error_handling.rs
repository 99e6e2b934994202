//! Error handling tests. Validates granular error types and recovery suggestions.

use ffmpeg_light::Error;
use ffmpeg_light::FfResult;

#[test]
fn test_ffmpeg_not_found_error_has_suggestion() {
    let err = Error::FFmpegNotFound {
        suggestion: Some("install ffmpeg with brew".to_string()),
    };
    assert!(err.suggestion().is_some());
    assert_eq!(
        err.suggestion().unwrap(),
        "install ffmpeg with brew".to_string()
    );
}

#[test]
fn test_invalid_input_error_format() {
    let err = Error::InvalidInput("codec is invalid".to_string());
    let msg = err.message();
    assert!(msg.contains("invalid input"));
}

#[test]
fn test_processing_error_format() {
    let err = Error::ProcessingError {
        binary: "ffmpeg".to_string(),
        exit_code: Some(1),
        message: "file not found".to_string(),
    };
    let msg = err.message();
    assert!(msg.contains("ffmpeg"));
    assert!(msg.contains("file not found"));
}

#[test]
fn test_invalid_input_suggestion_for_input_path() {
    let err = Error::InvalidInput("input path is required".to_string());
    let sugg = err.suggestion();
    assert!(sugg.is_some());
    assert!(sugg.unwrap().contains("input file"));
}

#[test]
fn test_invalid_input_suggestion_for_output_path() {
    let err = Error::InvalidInput("output path is required".to_string());
    let sugg = err.suggestion();
    assert!(sugg.is_some());
    assert!(sugg.unwrap().contains("output"));
}

#[test]
fn test_filter_error_unsupported() {
    let err = Error::FilterError("filter not supported by FFmpeg version".to_string());
    let sugg = err.suggestion();
    assert!(sugg.is_some());
    assert!(sugg.unwrap().contains("FFmpeg version"));
}

#[test]
fn test_timeout_error() {
    let err = Error::TimeoutError("transcode exceeded 5 minutes".to_string());
    let msg = err.message();
    assert!(msg.contains("timeout"));
}

#[test]
fn test_processing_error_suggestion() {
    let err = Error::ProcessingError {
        binary: "ffmpeg".to_string(),
        exit_code: Some(2),
        message: "unknown codec".to_string(),
    };
    let sugg = err.suggestion();
    assert!(sugg.is_some());
    let suggestion = sugg.unwrap();
    assert!(suggestion.contains("installed") || suggestion.contains("valid"));
}

#[test]
fn test_result_type_ok() {
    let result: FfResult<u32> = Ok(42);
    assert!(result.is_ok());
    assert_eq!(result.unwrap(), 42);
}

#[test]
fn test_result_type_err() {
    let result: FfResult<u32> = Err(Error::InvalidInput("test error".to_string()));
    assert!(result.is_err());
    let err = result.unwrap_err();
    assert!(err.message().contains("test error"));
}

#[test]
fn test_processing_error_exact_message() {
    let err = ffmpeg_light::error::command_failed("ffmpeg", Some(1), "boom");
    assert_eq!(err.message(), "ffmpeg failed (code: 1): boom");
    let unknown_code = ffmpeg_light::error::command_failed("ffprobe", None, "bad input");
    assert_eq!(unknown_code.message(), "ffprobe failed: bad input");
}

#[test]
fn test_variant_messages() {
    assert!(Error::Io("broken pipe".to_string())
        .message()
        .contains("broken pipe"));
    assert!(Error::Json("expected value".to_string())
        .message()
        .contains("malformed report"));
    assert!(Error::Parse("bad utf8".to_string())
        .message()
        .contains("parse error"));
    assert!(Error::Unsupported("two-pass".to_string())
        .message()
        .contains("unsupported operation"));
    assert!(Error::BinaryNotFound {
        binary: "/opt/tools/ffmpeg".to_string()
    }
    .message()
    .contains("/opt/tools/ffmpeg"));
    assert!(Error::FFmpegNotFound { suggestion: None }
        .message()
        .contains("not found"));
}

#[test]
fn test_truncate_bounds_long_diagnostics() {
    let long: String = "e".repeat(5000);
    let cut = ffmpeg_light::error::truncate(&long);
    assert_eq!(cut.chars().count(), 4097);
    assert!(cut.ends_with('\u{2026}'));
    let short = ffmpeg_light::error::truncate("all fine");
    assert_eq!(short, "all fine");
}
