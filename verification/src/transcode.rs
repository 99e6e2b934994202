//! The transcode request builder and its rendering into the exact,
//! order-sensitive argument sequence of the external transcoder.

use vstd::prelude::*;

use crate::command::FfmpegBinaryPaths;
use crate::config::FfmpegLocator;
use crate::decimal::spec_render;
use crate::decimal::Decimal;
use crate::error::Error;
use crate::error::FfResult;
use crate::filter::audio_chain_str;
use crate::filter::join_audio_filters;
use crate::filter::join_video_filters;
use crate::filter::video_chain_str;
use crate::filter::AudioFilter;
use crate::filter::VideoFilter;
use crate::strutil::dec_str;
use crate::strutil::u32_to_string;

verus! {

/// The abstract state of a transcode request: every configured field,
/// with paths and names as character sequences.
pub struct BuilderView {
    /// Explicit binary paths, if pinned (transcoder, prober).
    pub binaries: Option<(Seq<char>, Seq<char>)>,
    /// Input media path.
    pub input: Option<Seq<char>>,
    /// Output media path.
    pub output: Option<Seq<char>>,
    /// Video codec token.
    pub video_codec: Option<Seq<char>>,
    /// Audio codec token.
    pub audio_codec: Option<Seq<char>>,
    /// Video bitrate in kbps.
    pub video_bitrate: Option<u32>,
    /// Audio bitrate in kbps.
    pub audio_bitrate: Option<u32>,
    /// Frame rate, in thousandths of a frame per second.
    pub frame_rate: Option<int>,
    /// Preset label.
    pub preset: Option<Seq<char>>,
    /// Video filters, in insertion order.
    pub video_filters: Seq<VideoFilter>,
    /// Audio filters, in insertion order.
    pub audio_filters: Seq<AudioFilter>,
    /// Raw extra arguments, in insertion order.
    pub extra_args: Seq<Seq<char>>,
    /// Whether the output may be overwritten.
    pub overwrite: bool,
}

/// The view of an optional owned string.
pub open spec fn opt_view(o: Option<String>) -> Option<Seq<char>> {
    match o {
        Some(s) => Some(s@),
        None => None,
    }
}

/// Builder-style API for assembling simple transcode jobs.
#[derive(Debug)]
pub struct TranscodeBuilder {
    binaries: Option<FfmpegBinaryPaths>,
    input: Option<String>,
    output: Option<String>,
    video_codec: Option<String>,
    audio_codec: Option<String>,
    video_bitrate: Option<u32>,
    audio_bitrate: Option<u32>,
    frame_rate: Option<Decimal>,
    preset: Option<String>,
    video_filters: Vec<VideoFilter>,
    audio_filters: Vec<AudioFilter>,
    extra_args: Vec<String>,
    overwrite: bool,
}

impl View for TranscodeBuilder {
    type V = BuilderView;

    closed spec fn view(&self) -> BuilderView {
        BuilderView {
            binaries: match self.binaries {
                Some(b) => Some((b.spec_ffmpeg(), b.spec_ffprobe())),
                None => None,
            },
            input: opt_view(self.input),
            output: opt_view(self.output),
            video_codec: opt_view(self.video_codec),
            audio_codec: opt_view(self.audio_codec),
            video_bitrate: self.video_bitrate,
            audio_bitrate: self.audio_bitrate,
            frame_rate: match self.frame_rate {
                Some(d) => Some(d@),
                None => None,
            },
            preset: opt_view(self.preset),
            video_filters: self.video_filters@,
            audio_filters: self.audio_filters@,
            extra_args: self.extra_args.deep_view(),
            overwrite: self.overwrite,
        }
    }
}

impl TranscodeBuilder {
    /// Create a new builder with sensible defaults (overwrite enabled).
    pub fn new() -> (r: Self)
        ensures
            r@ == (BuilderView {
                binaries: None,
                input: None,
                output: None,
                video_codec: None,
                audio_codec: None,
                video_bitrate: None,
                audio_bitrate: None,
                frame_rate: None,
                preset: None,
                video_filters: Seq::empty(),
                audio_filters: Seq::empty(),
                extra_args: Seq::empty(),
                overwrite: true,
            }),
    {
        let r = TranscodeBuilder {
            binaries: None,
            input: None,
            output: None,
            video_codec: None,
            audio_codec: None,
            video_bitrate: None,
            audio_bitrate: None,
            frame_rate: None,
            preset: None,
            video_filters: Vec::new(),
            audio_filters: Vec::new(),
            extra_args: Vec::new(),
            overwrite: true,
        };
        proof {
            assert(r@.video_filters =~= Seq::<VideoFilter>::empty());
            assert(r@.audio_filters =~= Seq::<AudioFilter>::empty());
            assert(r@.extra_args =~~= Seq::<Seq<char>>::empty());
        }
        r
    }

    /// Use pre-discovered binaries instead of searching the path every
    /// call.
    pub fn with_binaries(self, binaries: &FfmpegBinaryPaths) -> (r: Self)
        ensures
            r@ == (BuilderView {
                binaries: Some((binaries.spec_ffmpeg(), binaries.spec_ffprobe())),
                ..self@
            }),
    {
        TranscodeBuilder {
            binaries: Some(FfmpegBinaryPaths::with_paths(binaries.ffmpeg(), binaries.ffprobe())),
            ..self
        }
    }

    /// Pin the builder to a specific locator.
    pub fn with_locator(self, locator: &FfmpegLocator) -> (r: Self)
        ensures
            r@ == (BuilderView {
                binaries: Some(
                    (
                        locator.spec_binaries().spec_ffmpeg(),
                        locator.spec_binaries().spec_ffprobe(),
                    ),
                ),
                ..self@
            }),
    {
        let b = locator.binaries();
        TranscodeBuilder {
            binaries: Some(FfmpegBinaryPaths::with_paths(b.ffmpeg(), b.ffprobe())),
            ..self
        }
    }

    /// Input media path.
    pub fn input(self, path: &str) -> (r: Self)
        ensures
            r@ == (BuilderView { input: Some(path@), ..self@ }),
    {
        TranscodeBuilder { input: Some(path.to_owned()), ..self }
    }

    /// Output media path.
    pub fn output(self, path: &str) -> (r: Self)
        ensures
            r@ == (BuilderView { output: Some(path@), ..self@ }),
    {
        TranscodeBuilder { output: Some(path.to_owned()), ..self }
    }

    /// Desired video codec (e.g. `libx264`).
    pub fn video_codec(self, codec: &str) -> (r: Self)
        ensures
            r@ == (BuilderView { video_codec: Some(codec@), ..self@ }),
    {
        TranscodeBuilder { video_codec: Some(codec.to_owned()), ..self }
    }

    /// Desired audio codec (e.g. `aac`).
    pub fn audio_codec(self, codec: &str) -> (r: Self)
        ensures
            r@ == (BuilderView { audio_codec: Some(codec@), ..self@ }),
    {
        TranscodeBuilder { audio_codec: Some(codec.to_owned()), ..self }
    }

    /// Target video bitrate in kbps.
    pub fn video_bitrate(self, kbps: u32) -> (r: Self)
        ensures
            r@ == (BuilderView { video_bitrate: Some(kbps), ..self@ }),
    {
        TranscodeBuilder { video_bitrate: Some(kbps), ..self }
    }

    /// Target audio bitrate in kbps.
    pub fn audio_bitrate(self, kbps: u32) -> (r: Self)
        ensures
            r@ == (BuilderView { audio_bitrate: Some(kbps), ..self@ }),
    {
        TranscodeBuilder { audio_bitrate: Some(kbps), ..self }
    }

    /// Target frame rate.
    pub fn frame_rate(self, fps: Decimal) -> (r: Self)
        ensures
            r@ == (BuilderView { frame_rate: Some(fps@), ..self@ }),
    {
        TranscodeBuilder { frame_rate: Some(fps), ..self }
    }

    /// Apply a named preset (maps to `-preset`).
    pub fn preset(self, preset: &str) -> (r: Self)
        ensures
            r@ == (BuilderView { preset: Some(preset@), ..self@ }),
    {
        TranscodeBuilder { preset: Some(preset.to_owned()), ..self }
    }

    /// Convenience helper to scale output.
    pub fn size(self, width: u32, height: u32) -> (r: Self)
        ensures
            r@ == (BuilderView {
                video_filters: self@.video_filters.push(VideoFilter::Scale { width, height }),
                ..self@
            }),
    {
        self.add_video_filter(VideoFilter::Scale { width, height })
    }

    /// Push a filter onto the video filter chain.
    pub fn add_video_filter(self, filter: VideoFilter) -> (r: Self)
        ensures
            r@ == (BuilderView { video_filters: self@.video_filters.push(filter), ..self@ }),
    {
        let mut video_filters = self.video_filters;
        video_filters.push(filter);
        TranscodeBuilder { video_filters, ..self }
    }

    /// Push a filter onto the video filter chain (an older name kept
    /// for callers of the first releases).
    pub fn add_filter(self, filter: VideoFilter) -> (r: Self)
        ensures
            r@ == (BuilderView { video_filters: self@.video_filters.push(filter), ..self@ }),
    {
        self.add_video_filter(filter)
    }

    /// Push a filter onto the audio filter chain.
    pub fn add_audio_filter(self, filter: AudioFilter) -> (r: Self)
        ensures
            r@ == (BuilderView { audio_filters: self@.audio_filters.push(filter), ..self@ }),
    {
        let mut audio_filters = self.audio_filters;
        audio_filters.push(filter);
        TranscodeBuilder { audio_filters, ..self }
    }

    /// Pass a raw argument for advanced cases.
    pub fn extra_arg(self, arg: &str) -> (r: Self)
        ensures
            r@ == (BuilderView { extra_args: self@.extra_args.push(arg@), ..self@ }),
    {
        let mut extra_args = self.extra_args;
        extra_args.push(arg.to_owned());
        let r = TranscodeBuilder { extra_args, ..self };
        proof {
            assert(r@.extra_args =~~= self@.extra_args.push(arg@));
        }
        r
    }

    /// Control whether the transcoder may overwrite the output file.
    pub fn overwrite(self, enabled: bool) -> (r: Self)
        ensures
            r@ == (BuilderView { overwrite: enabled, ..self@ }),
    {
        TranscodeBuilder { overwrite: enabled, ..self }
    }

    /// The configured input path.
    pub fn input_path(&self) -> (r: Option<&str>)
        ensures
            match r {
                Some(s) => self@.input == Some(s@),
                None => self@.input is None,
            },
    {
        match &self.input {
            Some(s) => Some(s.as_str()),
            None => None,
        }
    }

    /// The configured output path.
    pub fn output_path(&self) -> (r: Option<&str>)
        ensures
            match r {
                Some(s) => self@.output == Some(s@),
                None => self@.output is None,
            },
    {
        match &self.output {
            Some(s) => Some(s.as_str()),
            None => None,
        }
    }

    /// The configured video codec.
    pub fn video_codec_ref(&self) -> (r: Option<&str>)
        ensures
            match r {
                Some(s) => self@.video_codec == Some(s@),
                None => self@.video_codec is None,
            },
    {
        match &self.video_codec {
            Some(s) => Some(s.as_str()),
            None => None,
        }
    }

    /// The configured audio codec.
    pub fn audio_codec_ref(&self) -> (r: Option<&str>)
        ensures
            match r {
                Some(s) => self@.audio_codec == Some(s@),
                None => self@.audio_codec is None,
            },
    {
        match &self.audio_codec {
            Some(s) => Some(s.as_str()),
            None => None,
        }
    }

    /// The configured video bitrate in kbps.
    pub fn video_bitrate_value(&self) -> (r: Option<u32>)
        ensures
            r == self@.video_bitrate,
    {
        self.video_bitrate
    }

    /// The configured audio bitrate in kbps.
    pub fn audio_bitrate_value(&self) -> (r: Option<u32>)
        ensures
            r == self@.audio_bitrate,
    {
        self.audio_bitrate
    }

    /// The configured frame rate.
    pub fn frame_rate_value(&self) -> (r: Option<Decimal>)
        ensures
            match r {
                Some(d) => self@.frame_rate == Some(d@),
                None => self@.frame_rate is None,
            },
    {
        self.frame_rate
    }

    /// The configured preset label.
    pub fn preset_value(&self) -> (r: Option<&str>)
        ensures
            match r {
                Some(s) => self@.preset == Some(s@),
                None => self@.preset is None,
            },
    {
        match &self.preset {
            Some(s) => Some(s.as_str()),
            None => None,
        }
    }

    /// The video filter chain configured so far.
    pub fn video_filters(&self) -> (r: &Vec<VideoFilter>)
        ensures
            r@ == self@.video_filters,
    {
        &self.video_filters
    }

    /// The audio filter chain configured so far.
    pub fn audio_filters(&self) -> (r: &Vec<AudioFilter>)
        ensures
            r@ == self@.audio_filters,
    {
        &self.audio_filters
    }

    /// Whether the transcoder may overwrite the output file.
    pub fn overwrite_enabled(&self) -> (r: bool)
        ensures
            r == self@.overwrite,
    {
        self.overwrite
    }

    /// Check that the mandatory paths are configured, and resolve the
    /// binaries (from the search path when none were pinned, which
    /// depends on the environment).  The rendered argument order is
    /// fixed by the validated request; no process is spawned here.
    pub fn validate(self) -> (r: FfResult<ValidatedTranscode>)
        ensures
            self@.input is None ==> (r matches Err(e) && e matches Error::InvalidInput(m) && m@
                == "input path is required"@),
            self@.input is Some && self@.output is None ==> (r matches Err(e) && e matches
                Error::InvalidInput(m) && m@ == "output path is required"@),
            self@.input is Some && self@.output is Some ==> match r {
                Ok(v) => {
                    &&& Some(v@.input) == self@.input
                    &&& Some(v@.output) == self@.output
                    &&& v@.video_codec == self@.video_codec
                    &&& v@.audio_codec == self@.audio_codec
                    &&& v@.video_bitrate == self@.video_bitrate
                    &&& v@.audio_bitrate == self@.audio_bitrate
                    &&& v@.frame_rate == self@.frame_rate
                    &&& v@.preset == self@.preset
                    &&& v@.video_filters == self@.video_filters
                    &&& v@.audio_filters == self@.audio_filters
                    &&& v@.extra_args == self@.extra_args
                    &&& v@.overwrite == self@.overwrite
                    &&& (self@.binaries is Some ==> Some(v@.binaries) == self@.binaries)
                },
                Err(e) => self@.binaries is None && e matches Error::FFmpegNotFound { .. },
            },
    {
        let TranscodeBuilder {
            binaries,
            input,
            output,
            video_codec,
            audio_codec,
            video_bitrate,
            audio_bitrate,
            frame_rate,
            preset,
            video_filters,
            audio_filters,
            extra_args,
            overwrite,
        } = self;
        let input = match input {
            Some(p) => p,
            None => {
                let mut m = String::new();
                m.append("input path is required");
                return Err(Error::InvalidInput(m));
            },
        };
        let output = match output {
            Some(p) => p,
            None => {
                let mut m = String::new();
                m.append("output path is required");
                return Err(Error::InvalidInput(m));
            },
        };
        let binaries = match binaries {
            Some(b) => b,
            None => match FfmpegBinaryPaths::auto() {
                Ok(b) => b,
                Err(e) => {
                    return Err(e);
                },
            },
        };
        Ok(
            ValidatedTranscode {
                binaries,
                input,
                output,
                video_codec,
                audio_codec,
                video_bitrate,
                audio_bitrate,
                frame_rate,
                preset,
                video_filters,
                audio_filters,
                extra_args,
                overwrite,
            },
        )
    }
}

impl Default for TranscodeBuilder {
    /// An entirely unconfigured request: every field unset, no filters,
    /// no extra arguments, and overwriting not enabled.
    fn default() -> (r: Self)
        ensures
            r@ == (BuilderView {
                binaries: None,
                input: None,
                output: None,
                video_codec: None,
                audio_codec: None,
                video_bitrate: None,
                audio_bitrate: None,
                frame_rate: None,
                preset: None,
                video_filters: Seq::empty(),
                audio_filters: Seq::empty(),
                extra_args: Seq::empty(),
                overwrite: false,
            }),
    {
        let r = TranscodeBuilder {
            binaries: None,
            input: None,
            output: None,
            video_codec: None,
            audio_codec: None,
            video_bitrate: None,
            audio_bitrate: None,
            frame_rate: None,
            preset: None,
            video_filters: Vec::new(),
            audio_filters: Vec::new(),
            extra_args: Vec::new(),
            overwrite: false,
        };
        proof {
            assert(r@.video_filters =~= Seq::<VideoFilter>::empty());
            assert(r@.audio_filters =~= Seq::<AudioFilter>::empty());
            assert(r@.extra_args =~~= Seq::<Seq<char>>::empty());
        }
        r
    }
}

/// The abstract state of a validated request: as the builder, with the
/// mandatory paths present and the binaries resolved.
pub struct ValidatedView {
    /// Resolved binary paths (transcoder, prober).
    pub binaries: (Seq<char>, Seq<char>),
    /// Input media path.
    pub input: Seq<char>,
    /// Output media path.
    pub output: Seq<char>,
    /// Video codec token.
    pub video_codec: Option<Seq<char>>,
    /// Audio codec token.
    pub audio_codec: Option<Seq<char>>,
    /// Video bitrate in kbps.
    pub video_bitrate: Option<u32>,
    /// Audio bitrate in kbps.
    pub audio_bitrate: Option<u32>,
    /// Frame rate, in thousandths of a frame per second.
    pub frame_rate: Option<int>,
    /// Preset label.
    pub preset: Option<Seq<char>>,
    /// Video filters, in insertion order.
    pub video_filters: Seq<VideoFilter>,
    /// Audio filters, in insertion order.
    pub audio_filters: Seq<AudioFilter>,
    /// Raw extra arguments, in insertion order.
    pub extra_args: Seq<Seq<char>>,
    /// Whether the output may be overwritten.
    pub overwrite: bool,
}

/// A request whose mandatory fields are present and whose binaries are
/// resolved; consumed once to produce one invocation.
#[derive(Debug)]
pub struct ValidatedTranscode {
    binaries: FfmpegBinaryPaths,
    input: String,
    output: String,
    video_codec: Option<String>,
    audio_codec: Option<String>,
    video_bitrate: Option<u32>,
    audio_bitrate: Option<u32>,
    frame_rate: Option<Decimal>,
    preset: Option<String>,
    video_filters: Vec<VideoFilter>,
    audio_filters: Vec<AudioFilter>,
    extra_args: Vec<String>,
    overwrite: bool,
}

impl View for ValidatedTranscode {
    type V = ValidatedView;

    closed spec fn view(&self) -> ValidatedView {
        ValidatedView {
            binaries: (self.binaries.spec_ffmpeg(), self.binaries.spec_ffprobe()),
            input: self.input@,
            output: self.output@,
            video_codec: opt_view(self.video_codec),
            audio_codec: opt_view(self.audio_codec),
            video_bitrate: self.video_bitrate,
            audio_bitrate: self.audio_bitrate,
            frame_rate: match self.frame_rate {
                Some(d) => Some(d@),
                None => None,
            },
            preset: opt_view(self.preset),
            video_filters: self.video_filters@,
            audio_filters: self.audio_filters@,
            extra_args: self.extra_args.deep_view(),
            overwrite: self.overwrite,
        }
    }
}

/// The exact, order-sensitive argument sequence of a validated request:
/// the overwrite flag, the input, then each configured option in its
/// fixed position, the filter chains, the raw extra arguments, and the
/// output path last.
pub open spec fn spec_transcode_args(v: ValidatedView) -> Seq<Seq<char>> {
    seq![
        if v.overwrite {
            "-y"@
        } else {
            "-n"@
        },
        "-i"@,
        v.input,
    ] + (match v.video_codec {
        Some(c) => seq!["-c:v"@, c],
        None => Seq::empty(),
    }) + (match v.audio_codec {
        Some(c) => seq!["-c:a"@, c],
        None => Seq::empty(),
    }) + (match v.video_bitrate {
        Some(k) => seq!["-b:v"@, dec_str(k as nat) + "k"@],
        None => Seq::empty(),
    }) + (match v.audio_bitrate {
        Some(k) => seq!["-b:a"@, dec_str(k as nat) + "k"@],
        None => Seq::empty(),
    }) + (match v.frame_rate {
        Some(m) => seq!["-r"@, spec_render(m)],
        None => Seq::empty(),
    }) + (match v.preset {
        Some(p) => seq!["-preset"@, p],
        None => Seq::empty(),
    }) + (if v.video_filters.len() > 0 {
        seq!["-vf"@, video_chain_str(v.video_filters)]
    } else {
        Seq::empty()
    }) + (if v.audio_filters.len() > 0 {
        seq!["-af"@, audio_chain_str(v.audio_filters)]
    } else {
        Seq::empty()
    }) + v.extra_args + seq![v.output]
}

impl ValidatedTranscode {
    /// The resolved binary paths of this request.
    pub fn binaries(&self) -> (r: &FfmpegBinaryPaths)
        ensures
            r.spec_ffmpeg() == self@.binaries.0,
            r.spec_ffprobe() == self@.binaries.1,
    {
        &self.binaries
    }

    /// Render the full argument sequence of this request, in the fixed
    /// order the external tool expects.
    pub fn args(&self) -> (r: Vec<String>)
        ensures
            r.deep_view() == spec_transcode_args(self@),
    {
        let ghost v = self@;
        let mut out: Vec<String> = Vec::new();
        if self.overwrite {
            push_arg(&mut out, "-y");
        } else {
            push_arg(&mut out, "-n");
        }
        push_arg(&mut out, "-i");
        push_string(&mut out, &self.input);
        proof {
            assert(out.deep_view() =~~= seq![
                if v.overwrite {
                    "-y"@
                } else {
                    "-n"@
                },
                "-i"@,
                v.input,
            ]);
        }
        push_flagged_str(&mut out, "-c:v", &self.video_codec);
        push_flagged_str(&mut out, "-c:a", &self.audio_codec);
        push_bitrate(&mut out, "-b:v", self.video_bitrate);
        push_bitrate(&mut out, "-b:a", self.audio_bitrate);
        push_frame_rate(&mut out, &self.frame_rate);
        push_flagged_str(&mut out, "-preset", &self.preset);
        push_video_chain(&mut out, &self.video_filters);
        push_audio_chain(&mut out, &self.audio_filters);
        push_all(&mut out, &self.extra_args);
        push_tail(&mut out, &self.output);
        proof {
            assert(out.deep_view() == spec_transcode_args(v));
        }
        out
    }
}

/// Appends a flag and an owned value when the value is set.
fn push_flagged_str(out: &mut Vec<String>, flag: &str, val: &Option<String>)
    ensures
        final(out).deep_view() == old(out).deep_view() + (match opt_view(*val) {
            Some(s) => seq![flag@, s],
            None => Seq::<Seq<char>>::empty(),
        }),
{
    if let Some(s) = val {
        push_arg(out, flag);
        push_string(out, s);
        proof {
            assert(out.deep_view() =~= old(out).deep_view() + seq![flag@, s@]);
        }
    } else {
        proof {
            assert(out.deep_view() =~= old(out).deep_view()
                + Seq::<Seq<char>>::empty());
        }
    }
}

/// Appends a bitrate flag and its value in `k` units when set.
fn push_bitrate(out: &mut Vec<String>, flag: &str, val: Option<u32>)
    ensures
        final(out).deep_view() == old(out).deep_view() + (match val {
            Some(k) => seq![flag@, dec_str(k as nat) + "k"@],
            None => Seq::<Seq<char>>::empty(),
        }),
{
    if let Some(k) = val {
        push_arg(out, flag);
        let mut s = u32_to_string(k);
        s.append("k");
        push_string(out, &s);
        proof {
            assert(out.deep_view() =~= old(out).deep_view() + seq![
                flag@,
                dec_str(k as nat) + "k"@,
            ]);
        }
    } else {
        proof {
            assert(out.deep_view() =~= old(out).deep_view()
                + Seq::<Seq<char>>::empty());
        }
    }
}

/// Appends the frame-rate flag and rendered rate when set.
fn push_frame_rate(out: &mut Vec<String>, val: &Option<Decimal>)
    ensures
        final(out).deep_view() == old(out).deep_view() + (match *val {
            Some(d) => seq!["-r"@, spec_render(d@)],
            None => Seq::<Seq<char>>::empty(),
        }),
{
    if let Some(d) = val {
        push_arg(out, "-r");
        push_string(out, &d.render());
        proof {
            assert(out.deep_view() =~= old(out).deep_view() + seq![
                "-r"@,
                spec_render(d@),
            ]);
        }
    } else {
        proof {
            assert(out.deep_view() =~= old(out).deep_view()
                + Seq::<Seq<char>>::empty());
        }
    }
}

/// Appends the video filter flag and joined chain when non-empty.
fn push_video_chain(out: &mut Vec<String>, fs: &Vec<VideoFilter>)
    ensures
        final(out).deep_view() == old(out).deep_view() + (if fs@.len() > 0 {
            seq!["-vf"@, video_chain_str(fs@)]
        } else {
            Seq::<Seq<char>>::empty()
        }),
{
    if fs.len() > 0 {
        push_arg(out, "-vf");
        push_string(out, &join_video_filters(fs));
        proof {
            assert(out.deep_view() =~= old(out).deep_view() + seq![
                "-vf"@,
                video_chain_str(fs@),
            ]);
        }
    } else {
        proof {
            assert(out.deep_view() =~= old(out).deep_view()
                + Seq::<Seq<char>>::empty());
        }
    }
}

/// Appends the audio filter flag and joined chain when non-empty.
fn push_audio_chain(out: &mut Vec<String>, fs: &Vec<AudioFilter>)
    ensures
        final(out).deep_view() == old(out).deep_view() + (if fs@.len() > 0 {
            seq!["-af"@, audio_chain_str(fs@)]
        } else {
            Seq::<Seq<char>>::empty()
        }),
{
    if fs.len() > 0 {
        push_arg(out, "-af");
        push_string(out, &join_audio_filters(fs));
        proof {
            assert(out.deep_view() =~= old(out).deep_view() + seq![
                "-af"@,
                audio_chain_str(fs@),
            ]);
        }
    } else {
        proof {
            assert(out.deep_view() =~= old(out).deep_view()
                + Seq::<Seq<char>>::empty());
        }
    }
}

/// Appends copies of all given arguments, in order.
fn push_all(out: &mut Vec<String>, args: &Vec<String>)
    ensures
        final(out).deep_view() == old(out).deep_view() + args.deep_view(),
{
    let n = args.len();
    let mut i: usize = 0;
    while i < n
        invariant
            n == args@.len(),
            i <= n,
            out.deep_view() == old(out).deep_view() + args.deep_view().take(i as int),
        decreases n - i,
    {
        push_string(out, &args[i]);
        i += 1;
        proof {
            assert(out.deep_view() =~= old(out).deep_view() + args.deep_view().take(i as int));
        }
    }
    proof {
        assert(args.deep_view().take(n as int) =~= args.deep_view());
    }
}

/// Appends one final owned argument.
pub(crate) fn push_tail(out: &mut Vec<String>, s: &String)
    ensures
        final(out).deep_view() == old(out).deep_view() + seq![s@],
{
    push_string(out, s);
    proof {
        assert(out.deep_view() =~= old(out).deep_view() + seq![s@]);
    }
}

/// Appends a literal argument.
pub(crate) fn push_arg(v: &mut Vec<String>, s: &str)
    ensures
        final(v).deep_view() == old(v).deep_view().push(s@),
{
    v.push(s.to_owned());
    proof {
        assert(v.deep_view() =~~= old(v).deep_view().push(s@));
    }
}

/// Appends a copy of an owned argument.
pub(crate) fn push_string(v: &mut Vec<String>, s: &String)
    ensures
        final(v).deep_view() == old(v).deep_view().push(s@),
{
    v.push(s.clone());
    proof {
        assert(v.deep_view() =~~= old(v).deep_view().push(s@));
    }
}

} // verus!
