//! A thin, typed convenience layer over the `ffmpeg` and `ffprobe`
//! command-line tools: typed filter descriptors, a transcode request builder
//! that renders an exact argument sequence, and a tolerant parser for the
//! prober's JSON report, all with machine-checked contracts.

pub mod command;
pub mod config;
pub mod decimal;
pub mod error;
pub mod filter;
pub mod probe;
pub mod strutil;
pub mod thumbnail;
pub mod transcode;
pub mod types;

pub use command::FfmpegBinaryPaths;
pub use command::FfmpegCommand;
pub use command::FfprobeCommand;
pub use config::system_locator;
pub use config::FfmpegLocator;
pub use decimal::Decimal;
pub use error::Error;
pub use error::FfResult;
pub use probe::format_info_from_ffprobe;
pub use probe::parse_duration;
pub use probe::parse_probe_report;
pub use probe::parse_ratio;
pub use probe::parse_u32;
pub use probe::parse_u64;
pub use probe::stream_info_from_ffprobe;
pub use probe::RawProbeFormat;
pub use probe::RawProbeReport;
pub use probe::RawProbeStream;
pub use filter::AudioFilter;
pub use filter::DenoiseStrength;
pub use filter::VideoFilter;
pub use types::AudioStreamInfo;
pub use types::CodecType;
pub use types::DataStreamInfo;
pub use types::FormatInfo;
pub use types::FrameRate;
pub use types::ProbeResult;
pub use types::StreamInfo;
pub use types::StreamType;
pub use types::SubtitleStreamInfo;
pub use types::Time;
pub use types::VideoStreamInfo;
pub use thumbnail::thumbnail_args;
pub use thumbnail::ThumbnailFormat;
pub use thumbnail::ThumbnailOptions;
pub use transcode::TranscodeBuilder;
pub use transcode::ValidatedTranscode;
