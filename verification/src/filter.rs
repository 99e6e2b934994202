//! Typed video and audio filter descriptors and their rendering into the
//! external tool's filter-chain mini-language.
//!
//! Each variant renders independently to one comma-chain-safe fragment;
//! a list of fragments of one kind is joined with `,` and passed as a
//! single flag value.

use vstd::prelude::*;

use crate::decimal::spec_render;
use crate::decimal::Decimal;
use crate::strutil::dec_str;
use crate::strutil::scaled_dec_str;
use crate::strutil::scaled_string;
use crate::strutil::u32_to_string;
use crate::types::timestamp_str;
use crate::types::Time;

verus! {

/// Strength presets for the denoise filter; each maps to a fixed
/// parameter string, not independently configurable.
#[derive(Clone, Copy, Debug, PartialEq, Eq, Structural)]
pub enum DenoiseStrength {
    /// Mild smoothing.
    Light,
    /// Moderate smoothing.
    Medium,
    /// Aggressive smoothing.
    Heavy,
}

/// Video filters supported by the high-level API.
#[derive(Clone, Debug)]
pub enum VideoFilter {
    /// Scale video to the provided width/height.
    Scale {
        /// Target width in pixels.
        width: u32,
        /// Target height in pixels.
        height: u32,
    },
    /// Trim video between `start` and optional `end` timestamps.
    Trim {
        /// Starting timestamp for the trim window.
        start: Time,
        /// Optional end timestamp; `None` trims until the end of the input.
        end: Option<Time>,
    },
    /// Crop to a region of the given size at the given offset.
    Crop {
        /// Region width in pixels.
        width: u32,
        /// Region height in pixels.
        height: u32,
        /// Horizontal offset of the region.
        x: u32,
        /// Vertical offset of the region.
        y: u32,
    },
    /// Rotate by an angle given in degrees; rendered in radians.
    Rotate {
        /// The angle in degrees.
        degrees: Decimal,
    },
    /// Mirror the picture.
    Flip {
        /// `'h'` for horizontal, `'v'` for vertical; any other character
        /// falls back to the horizontal behaviour (a documented quirk,
        /// not an error).
        direction: char,
    },
    /// Adjust brightness and/or contrast; renders bare `eq` when both
    /// are absent.
    BrightnessContrast {
        /// Brightness offset.
        brightness: Option<Decimal>,
        /// Contrast factor.
        contrast: Option<Decimal>,
    },
    /// Denoise with one of three fixed presets.
    Denoise {
        /// The preset to use.
        strength: DenoiseStrength,
    },
    /// Deinterlace the picture.
    Deinterlace,
    /// Custom filter string for advanced use-cases; keeping it
    /// comma-chain-safe is the caller's responsibility.
    Custom(String),
}

/// The angle `milli_degrees / 1000` converted to radians and scaled by
/// ten to the ninth, truncated toward zero.
pub open spec fn degrees_to_nano_radians(milli_degrees: int) -> int {
    if milli_degrees >= 0 {
        (milli_degrees * 3_141_592_653_589_793) / 180_000_000_000
    } else {
        -(((-milli_degrees) * 3_141_592_653_589_793) / 180_000_000_000)
    }
}

/// The fragment a video filter renders to.
pub open spec fn video_filter_str(f: VideoFilter) -> Seq<char> {
    match f {
        VideoFilter::Scale { width, height } => "scale="@ + dec_str(width as nat) + ":"@ + dec_str(
            height as nat,
        ),
        VideoFilter::Trim { start, end } => match end {
            Some(e) => "trim=start="@ + timestamp_str(start@) + ":end="@ + timestamp_str(e@),
            None => "trim=start="@ + timestamp_str(start@),
        },
        VideoFilter::Crop { width, height, x, y } => "crop="@ + dec_str(width as nat) + ":"@
            + dec_str(height as nat) + ":"@ + dec_str(x as nat) + ":"@ + dec_str(y as nat),
        VideoFilter::Rotate { degrees } => "rotate="@ + scaled_dec_str(
            degrees_to_nano_radians(degrees@),
            9,
        ),
        VideoFilter::Flip { direction } => if direction == 'v' {
            "vflip"@
        } else {
            "hflip"@
        },
        VideoFilter::BrightnessContrast { brightness, contrast } => match (brightness, contrast) {
            (None, None) => "eq"@,
            (Some(b), None) => "eq=brightness="@ + spec_render(b@),
            (None, Some(c)) => "eq=contrast="@ + spec_render(c@),
            (Some(b), Some(c)) => "eq=brightness="@ + spec_render(b@) + ":contrast="@
                + spec_render(c@),
        },
        VideoFilter::Denoise { strength } => match strength {
            DenoiseStrength::Light => "hqdn3d=1.5:1.5:6:6"@,
            DenoiseStrength::Medium => "hqdn3d=3:3:6:6"@,
            DenoiseStrength::Heavy => "hqdn3d=5:5:6:6"@,
        },
        VideoFilter::Deinterlace => "yadif"@,
        VideoFilter::Custom(raw) => raw@,
    }
}

impl VideoFilter {
    /// Serialize into one fragment of the video filter chain.
    pub fn to_filter_string(&self) -> (s: String)
        ensures
            s@ == video_filter_str(*self),
    {
        match self {
            VideoFilter::Scale { width, height } => {
                let mut s = String::new();
                s.append("scale=");
                s.append(u32_to_string(*width).as_str());
                s.append(":");
                s.append(u32_to_string(*height).as_str());
                proof {
                    assert(s@ =~= video_filter_str(*self));
                }
                s
            },
            VideoFilter::Trim { start, end } => {
                let mut s = String::new();
                s.append("trim=start=");
                s.append(start.to_ffmpeg_timestamp().as_str());
                if let Some(e) = end {
                    s.append(":end=");
                    s.append(e.to_ffmpeg_timestamp().as_str());
                }
                proof {
                    assert(s@ =~= video_filter_str(*self));
                }
                s
            },
            VideoFilter::Crop { width, height, x, y } => {
                let mut s = String::new();
                s.append("crop=");
                s.append(u32_to_string(*width).as_str());
                s.append(":");
                s.append(u32_to_string(*height).as_str());
                s.append(":");
                s.append(u32_to_string(*x).as_str());
                s.append(":");
                s.append(u32_to_string(*y).as_str());
                proof {
                    assert(s@ =~= video_filter_str(*self));
                }
                s
            },
            VideoFilter::Rotate { degrees } => {
                let m = degrees.milli();
                let neg = m < 0;
                let mag: u128 = if m < 0 {
                    (-(m as i128)) as u128
                } else {
                    m as u128
                };
                let nano: u128 = mag * 3_141_592_653_589_793 / 180_000_000_000;
                proof {
                    assert(mag * 3_141_592_653_589_793 < u128::MAX) by (nonlinear_arith)
                        requires
                            mag <= 0xFFFF_FFFF_FFFF_FFFFu128,
                    ;
                    assert(crate::strutil::pow10(9) == 1_000_000_000) by {
                        reveal_with_fuel(crate::strutil::pow10, 10);
                    }
                    assert((if neg {
                        -(nano as int)
                    } else {
                        nano as int
                    }) == degrees_to_nano_radians(m as int));
                }
                let mut s = String::new();
                s.append("rotate=");
                s.append(scaled_string(neg, nano, 9, 1_000_000_000).as_str());
                proof {
                    assert(s@ =~= video_filter_str(*self));
                }
                s
            },
            VideoFilter::Flip { direction } => {
                let s = if *direction == 'v' {
                    let mut t = String::new();
                    t.append("vflip");
                    t
                } else {
                    let mut t = String::new();
                    t.append("hflip");
                    t
                };
                proof {
                    assert(s@ =~= video_filter_str(*self));
                }
                s
            },
            VideoFilter::BrightnessContrast { brightness, contrast } => {
                let mut s = String::new();
                match (brightness, contrast) {
                    (None, None) => {
                        s.append("eq");
                    },
                    (Some(b), None) => {
                        s.append("eq=brightness=");
                        s.append(b.render().as_str());
                    },
                    (None, Some(c)) => {
                        s.append("eq=contrast=");
                        s.append(c.render().as_str());
                    },
                    (Some(b), Some(c)) => {
                        s.append("eq=brightness=");
                        s.append(b.render().as_str());
                        s.append(":contrast=");
                        s.append(c.render().as_str());
                    },
                }
                proof {
                    assert(s@ =~= video_filter_str(*self));
                }
                s
            },
            VideoFilter::Denoise { strength } => {
                let mut s = String::new();
                match strength {
                    DenoiseStrength::Light => {
                        s.append("hqdn3d=1.5:1.5:6:6");
                    },
                    DenoiseStrength::Medium => {
                        s.append("hqdn3d=3:3:6:6");
                    },
                    DenoiseStrength::Heavy => {
                        s.append("hqdn3d=5:5:6:6");
                    },
                }
                proof {
                    assert(s@ =~= video_filter_str(*self));
                }
                s
            },
            VideoFilter::Deinterlace => {
                let mut s = String::new();
                s.append("yadif");
                proof {
                    assert(s@ =~= video_filter_str(*self));
                }
                s
            },
            VideoFilter::Custom(raw) => raw.clone(),
        }
    }
}

/// Audio filters supported by the high-level API.
#[derive(Clone, Debug)]
pub enum AudioFilter {
    /// Multiply the audio volume by a factor.
    Volume(Decimal),
    /// Adjust bass, mid and treble bands; renders the bare filter name
    /// when all three are absent.
    Equalizer {
        /// Bass gain.
        bass: Option<Decimal>,
        /// Mid gain.
        mid: Option<Decimal>,
        /// Treble gain.
        treble: Option<Decimal>,
    },
    /// Loudness normalization toward a target level.
    Normalization {
        /// Integrated loudness target.
        target_level: Decimal,
    },
    /// Attenuate frequencies below the cutoff.
    HighPass {
        /// Cutoff frequency in Hz.
        frequency: Decimal,
    },
    /// Attenuate frequencies above the cutoff.
    LowPass {
        /// Cutoff frequency in Hz.
        frequency: Decimal,
    },
    /// Custom filter string for advanced use-cases; keeping it
    /// comma-chain-safe is the caller's responsibility.
    Custom(String),
}

/// The fragment an audio filter renders to.
pub open spec fn audio_filter_str(f: AudioFilter) -> Seq<char> {
    match f {
        AudioFilter::Volume(v) => "volume="@ + spec_render(v@),
        AudioFilter::Equalizer { bass, mid, treble } => match (bass, mid, treble) {
            (None, None, None) => "superequalizer"@,
            (Some(b), None, None) => "superequalizer"@ + "=b="@ + spec_render(b@),
            (None, Some(m), None) => "superequalizer"@ + "=m="@ + spec_render(m@),
            (None, None, Some(t)) => "superequalizer"@ + "=t="@ + spec_render(t@),
            (Some(b), Some(m), None) => "superequalizer"@ + "=b="@ + spec_render(b@) + ":m="@
                + spec_render(m@),
            (Some(b), None, Some(t)) => "superequalizer"@ + "=b="@ + spec_render(b@) + ":t="@
                + spec_render(t@),
            (None, Some(m), Some(t)) => "superequalizer"@ + "=m="@ + spec_render(m@) + ":t="@
                + spec_render(t@),
            (Some(b), Some(m), Some(t)) => "superequalizer"@ + "=b="@ + spec_render(b@) + ":m="@
                + spec_render(m@) + ":t="@ + spec_render(t@),
        },
        AudioFilter::Normalization { target_level } => "loudnorm=I="@ + spec_render(
            target_level@,
        ),
        AudioFilter::HighPass { frequency } => "highpass=f="@ + spec_render(frequency@),
        AudioFilter::LowPass { frequency } => "lowpass=f="@ + spec_render(frequency@),
        AudioFilter::Custom(raw) => raw@,
    }
}

impl AudioFilter {
    /// Serialize into one fragment of the audio filter chain.
    pub fn to_filter_string(&self) -> (s: String)
        ensures
            s@ == audio_filter_str(*self),
    {
        match self {
            AudioFilter::Volume(v) => {
                let mut s = String::new();
                s.append("volume=");
                s.append(v.render().as_str());
                proof {
                    assert(s@ =~= audio_filter_str(*self));
                }
                s
            },
            AudioFilter::Equalizer { bass, mid, treble } => {
                let mut s = String::new();
                s.append("superequalizer");
                match (bass, mid, treble) {
                    (None, None, None) => {},
                    (Some(b), None, None) => {
                        s.append("=b=");
                        s.append(b.render().as_str());
                    },
                    (None, Some(m), None) => {
                        s.append("=m=");
                        s.append(m.render().as_str());
                    },
                    (None, None, Some(t)) => {
                        s.append("=t=");
                        s.append(t.render().as_str());
                    },
                    (Some(b), Some(m), None) => {
                        s.append("=b=");
                        s.append(b.render().as_str());
                        s.append(":m=");
                        s.append(m.render().as_str());
                    },
                    (Some(b), None, Some(t)) => {
                        s.append("=b=");
                        s.append(b.render().as_str());
                        s.append(":t=");
                        s.append(t.render().as_str());
                    },
                    (None, Some(m), Some(t)) => {
                        s.append("=m=");
                        s.append(m.render().as_str());
                        s.append(":t=");
                        s.append(t.render().as_str());
                    },
                    (Some(b), Some(m), Some(t)) => {
                        s.append("=b=");
                        s.append(b.render().as_str());
                        s.append(":m=");
                        s.append(m.render().as_str());
                        s.append(":t=");
                        s.append(t.render().as_str());
                    },
                }
                proof {
                    assert(s@ =~= audio_filter_str(*self));
                }
                s
            },
            AudioFilter::Normalization { target_level } => {
                let mut s = String::new();
                s.append("loudnorm=I=");
                s.append(target_level.render().as_str());
                proof {
                    assert(s@ =~= audio_filter_str(*self));
                }
                s
            },
            AudioFilter::HighPass { frequency } => {
                let mut s = String::new();
                s.append("highpass=f=");
                s.append(frequency.render().as_str());
                proof {
                    assert(s@ =~= audio_filter_str(*self));
                }
                s
            },
            AudioFilter::LowPass { frequency } => {
                let mut s = String::new();
                s.append("lowpass=f=");
                s.append(frequency.render().as_str());
                proof {
                    assert(s@ =~= audio_filter_str(*self));
                }
                s
            },
            AudioFilter::Custom(raw) => raw.clone(),
        }
    }
}

/// The comma-joined chain of video filter fragments, in order.
pub open spec fn video_chain_str(fs: Seq<VideoFilter>) -> Seq<char>
    decreases fs.len(),
{
    if fs.len() == 0 {
        Seq::empty()
    } else if fs.len() == 1 {
        video_filter_str(fs[0])
    } else {
        video_chain_str(fs.drop_last()) + ","@ + video_filter_str(fs.last())
    }
}

/// The comma-joined chain of audio filter fragments, in order.
pub open spec fn audio_chain_str(fs: Seq<AudioFilter>) -> Seq<char>
    decreases fs.len(),
{
    if fs.len() == 0 {
        Seq::empty()
    } else if fs.len() == 1 {
        audio_filter_str(fs[0])
    } else {
        audio_chain_str(fs.drop_last()) + ","@ + audio_filter_str(fs.last())
    }
}

/// Joins the fragments of all video filters with commas, in order.
pub fn join_video_filters(fs: &Vec<VideoFilter>) -> (s: String)
    ensures
        s@ == video_chain_str(fs@),
{
    let mut s = String::new();
    let n = fs.len();
    let mut i: usize = 0;
    while i < n
        invariant
            n == fs@.len(),
            i <= n,
            s@ == video_chain_str(fs@.take(i as int)),
        decreases n - i,
    {
        if i > 0 {
            s.append(",");
        }
        s.append(fs[i].to_filter_string().as_str());
        i += 1;
        proof {
            let taken = fs@.take(i as int);
            assert(taken.drop_last() =~= fs@.take(i - 1));
            assert(taken.last() == fs@[i - 1]);
            assert(s@ =~= video_chain_str(taken));
        }
    }
    proof {
        assert(fs@.take(n as int) =~= fs@);
    }
    s
}

/// Joins the fragments of all audio filters with commas, in order.
pub fn join_audio_filters(fs: &Vec<AudioFilter>) -> (s: String)
    ensures
        s@ == audio_chain_str(fs@),
{
    let mut s = String::new();
    let n = fs.len();
    let mut i: usize = 0;
    while i < n
        invariant
            n == fs@.len(),
            i <= n,
            s@ == audio_chain_str(fs@.take(i as int)),
        decreases n - i,
    {
        if i > 0 {
            s.append(",");
        }
        s.append(fs[i].to_filter_string().as_str());
        i += 1;
        proof {
            let taken = fs@.take(i as int);
            assert(taken.drop_last() =~= fs@.take(i - 1));
            assert(taken.last() == fs@[i - 1]);
            assert(s@ =~= audio_chain_str(taken));
        }
    }
    proof {
        assert(fs@.take(n as int) =~= fs@);
    }
    s
}

} // verus!
