//! Shared domain types: timestamps, codec names, and stream metadata.

use vstd::prelude::*;
use vstd::utf8::is_ascii_chars;

use crate::strutil::ascii_lower;
use crate::strutil::pad2;
use crate::strutil::pad2_string;
use crate::strutil::pad3;
use crate::strutil::pad3_string;
use crate::strutil::str_eq;

verus! {

/// A non-negative position in time, held as whole seconds plus a
/// sub-second remainder in nanoseconds.
///
/// The view of a `Time` is the total count of nanoseconds.
#[derive(Clone, Copy, Debug, PartialEq, Eq, Structural)]
pub struct Time {
    secs: u64,
    nanos: u32,
}

impl View for Time {
    type V = nat;

    closed spec fn view(&self) -> nat {
        self.secs as nat * 1_000_000_000 + self.nanos as nat
    }
}

/// The timestamp text `HH:MM:SS.mmm` for a duration in nanoseconds:
/// truncating division for hours, minutes and seconds, the sub-second
/// part rounded to the nearest millisecond (carrying into the seconds
/// when it rounds up to a full second).
pub open spec fn timestamp_str(nanos: nat) -> Seq<char> {
    let ms = (nanos + 500_000) / 1_000_000;
    pad2(ms / 3_600_000) + seq![':'] + pad2((ms / 60_000) % 60) + seq![':'] + pad2(
        (ms / 1_000) % 60,
    ) + seq!['.'] + pad3(ms % 1_000)
}

impl Time {
    /// Holds iff the sub-second field is a valid remainder.
    pub closed spec fn wf(&self) -> bool {
        self.nanos < 1_000_000_000
    }

    /// Zero timestamp.
    pub fn zero() -> (r: Self)
        ensures
            r@ == 0,
            r.wf(),
    {
        Time { secs: 0, nanos: 0 }
    }

    /// Create an instance from whole seconds.
    pub fn from_seconds(seconds: u64) -> (r: Self)
        ensures
            r@ == seconds as nat * 1_000_000_000,
            r.wf(),
    {
        Time { secs: seconds, nanos: 0 }
    }

    /// Create an instance from whole seconds and a sub-second remainder.
    pub fn from_parts(seconds: u64, subsec_nanos: u32) -> (r: Self)
        requires
            subsec_nanos < 1_000_000_000,
        ensures
            r@ == seconds as nat * 1_000_000_000 + subsec_nanos as nat,
            r.wf(),
    {
        Time { secs: seconds, nanos: subsec_nanos }
    }

    /// The whole-second part.
    pub fn seconds(&self) -> (r: u64)
        requires
            self.wf(),
        ensures
            r as nat == self@ / 1_000_000_000,
    {
        proof {
            assert(self@ / 1_000_000_000 == self.secs as nat + self.nanos as nat
                / 1_000_000_000);
            assert(self.nanos as nat / 1_000_000_000 == 0);
        }
        self.secs
    }

    /// The sub-second part in nanoseconds.
    pub fn subsec_nanos(&self) -> (r: u32)
        requires
            self.wf(),
        ensures
            r as nat == self@ % 1_000_000_000,
    {
        self.nanos
    }

    /// Create from an existing standard-library duration, losslessly:
    /// the result stands for exactly the given duration's nanoseconds.
    pub fn from_duration(duration: std::time::Duration) -> (r: Self)
        ensures
            r@ == duration_total_nanos(duration),
            r.wf(),
    {
        let secs = duration_secs(&duration);
        let nanos = duration_subsec_nanos(&duration);
        proof {
            vstd::arithmetic::div_mod::lemma_fundamental_div_mod(
                duration_total_nanos(duration) as int,
                1_000_000_000,
            );
        }
        Time { secs, nanos }
    }

    /// Convert to a standard-library duration holding exactly this
    /// value's nanoseconds.
    pub fn as_duration(&self) -> (r: std::time::Duration)
        requires
            self.wf(),
        ensures
            duration_total_nanos(r) == self@,
    {
        duration_from_parts(self.secs, self.nanos)
    }

    /// Convert to the timestamp format expected by the transcoder
    /// (`HH:MM:SS.mmm`).
    pub fn to_ffmpeg_timestamp(&self) -> (s: String)
        ensures
            s@ == timestamp_str(self@),
    {
        let total: u128 = self.secs as u128 * 1_000_000_000 + self.nanos as u128;
        let ms: u128 = (total + 500_000) / 1_000_000;
        proof {
            assert(total as nat == self@);
            reveal_strlit(":");
            reveal_strlit(".");
        }
        let mut s = pad2_string(ms / 3_600_000);
        s.append(":");
        s.append(pad2_string((ms / 60_000) % 60).as_str());
        s.append(":");
        s.append(pad2_string((ms / 1_000) % 60).as_str());
        s.append(".");
        s.append(pad3_string(ms % 1_000).as_str());
        proof {
            assert(s@ =~= timestamp_str(self@));
        }
        s
    }
}

impl Default for Time {
    /// The zero timestamp.
    fn default() -> (r: Self)
        ensures
            r@ == 0,
            r.wf(),
    {
        Time { secs: 0, nanos: 0 }
    }
}

/// The total count of nanoseconds a standard-library duration holds: a
/// pure function of the duration value.
pub uninterp spec fn duration_total_nanos(d: std::time::Duration) -> nat;

/// Relies on `Duration::as_secs`: the number of whole seconds the
/// duration contains.
#[verifier::external_body]
fn duration_secs(d: &std::time::Duration) -> (r: u64)
    ensures
        r as nat == duration_total_nanos(*d) / 1_000_000_000,
{
    d.as_secs()
}

/// Relies on `Duration::subsec_nanos`: the fractional part of the
/// duration in nanoseconds, which its documentation bounds below one
/// billion.
#[verifier::external_body]
fn duration_subsec_nanos(d: &std::time::Duration) -> (r: u32)
    ensures
        r as nat == duration_total_nanos(*d) % 1_000_000_000,
        r < 1_000_000_000,
{
    d.subsec_nanos()
}

/// Relies on `Duration::new`: builds the duration holding the given
/// whole seconds plus the remainder; with the remainder below one
/// second no carry occurs and no panic is possible.
#[verifier::external_body]
fn duration_from_parts(secs: u64, nanos: u32) -> (r: std::time::Duration)
    requires
        nanos < 1_000_000_000,
    ensures
        duration_total_nanos(r) == secs as nat * 1_000_000_000 + nanos as nat,
{
    std::time::Duration::new(secs, nanos)
}

/// What `str::to_lowercase` returns for a given character sequence.
pub uninterp spec fn lower_of(s: Seq<char>) -> Seq<char>;

/// Relies on `str::to_lowercase`: the result is a function of the input
/// characters alone, and ASCII letters map to their ASCII lower-case
/// forms while other ASCII characters are unchanged.
#[verifier::external_body]
fn lowercase(s: &str) -> (r: String)
    ensures
        r@ == lower_of(s@),
        is_ascii_chars(s@) ==> r@ == ascii_lower(s@),
{
    s.to_lowercase()
}

/// High-level codec representation.
#[derive(Clone, Debug, Eq)]
pub enum CodecType {
    /// H.264/AVC video.
    H264,
    /// H.265/HEVC video.
    Hevc,
    /// VP9 video.
    Vp9,
    /// AV1 video.
    Av1,
    /// AAC audio.
    Aac,
    /// MP3 audio.
    Mp3,
    /// Opus audio.
    Opus,
    /// PCM S16LE audio.
    PcmS16Le,
    /// Copy stream without re-encoding.
    Copy,
    /// Any other codec string reported by the external tools.
    Other(String),
}

impl PartialEq for CodecType {
    fn eq(&self, other: &Self) -> (r: bool) {
        match (self, other) {
            (CodecType::H264, CodecType::H264) => true,
            (CodecType::Hevc, CodecType::Hevc) => true,
            (CodecType::Vp9, CodecType::Vp9) => true,
            (CodecType::Av1, CodecType::Av1) => true,
            (CodecType::Aac, CodecType::Aac) => true,
            (CodecType::Mp3, CodecType::Mp3) => true,
            (CodecType::Opus, CodecType::Opus) => true,
            (CodecType::PcmS16Le, CodecType::PcmS16Le) => true,
            (CodecType::Copy, CodecType::Copy) => true,
            (CodecType::Other(a), CodecType::Other(b)) => str_eq(a.as_str(), b.as_str()),
            _ => false,
        }
    }
}

impl vstd::std_specs::cmp::PartialEqSpecImpl for CodecType {
    open spec fn obeys_eq_spec() -> bool {
        true
    }

    open spec fn eq_spec(&self, other: &Self) -> bool {
        match (self, other) {
            (CodecType::H264, CodecType::H264) => true,
            (CodecType::Hevc, CodecType::Hevc) => true,
            (CodecType::Vp9, CodecType::Vp9) => true,
            (CodecType::Av1, CodecType::Av1) => true,
            (CodecType::Aac, CodecType::Aac) => true,
            (CodecType::Mp3, CodecType::Mp3) => true,
            (CodecType::Opus, CodecType::Opus) => true,
            (CodecType::PcmS16Le, CodecType::PcmS16Le) => true,
            (CodecType::Copy, CodecType::Copy) => true,
            (CodecType::Other(a), CodecType::Other(b)) => a@ == b@,
            _ => false,
        }
    }
}

/// Holds iff `l` is one of the names in the fixed codec table.
pub open spec fn known_codec_name(l: Seq<char>) -> bool {
    ||| l == "h264"@
    ||| l == "libx264"@
    ||| l == "hevc"@
    ||| l == "h265"@
    ||| l == "libx265"@
    ||| l == "vp9"@
    ||| l == "av1"@
    ||| l == "aac"@
    ||| l == "mp3"@
    ||| l == "opus"@
    ||| l == "pcm_s16le"@
    ||| l == "copy"@
}

/// Holds iff `c` is the codec that the fixed table assigns to the
/// lower-cased name `l`: known names map to their variant, anything else
/// is wrapped verbatim in the open-ended variant.
pub open spec fn codec_matches(c: CodecType, l: Seq<char>) -> bool {
    match c {
        CodecType::H264 => l == "h264"@ || l == "libx264"@,
        CodecType::Hevc => l == "hevc"@ || l == "h265"@ || l == "libx265"@,
        CodecType::Vp9 => l == "vp9"@,
        CodecType::Av1 => l == "av1"@,
        CodecType::Aac => l == "aac"@,
        CodecType::Mp3 => l == "mp3"@,
        CodecType::Opus => l == "opus"@,
        CodecType::PcmS16Le => l == "pcm_s16le"@,
        CodecType::Copy => l == "copy"@,
        CodecType::Other(s) => s@ == l && !known_codec_name(l),
    }
}

/// The canonical encoder token for each codec.
pub open spec fn encoder_name(c: CodecType) -> Seq<char> {
    match c {
        CodecType::H264 => "libx264"@,
        CodecType::Hevc => "libx265"@,
        CodecType::Vp9 => "libvpx-vp9"@,
        CodecType::Av1 => "libaom-av1"@,
        CodecType::Aac => "aac"@,
        CodecType::Mp3 => "libmp3lame"@,
        CodecType::Opus => "libopus"@,
        CodecType::PcmS16Le => "pcm_s16le"@,
        CodecType::Copy => "copy"@,
        CodecType::Other(name) => name@,
    }
}

impl CodecType {
    /// Create from a codec name string (case insensitive): the name is
    /// lower-cased and looked up in the fixed table; unknown names are
    /// kept, lower-cased, in the open-ended variant.
    pub fn from_name(name: &str) -> (r: Self)
        ensures
            codec_matches(r, lower_of(name@)),
            is_ascii_chars(name@) ==> codec_matches(r, ascii_lower(name@)),
    {
        let lowered = lowercase(name);
        let l = lowered.as_str();
        if str_eq(l, "h264") || str_eq(l, "libx264") {
            CodecType::H264
        } else if str_eq(l, "hevc") || str_eq(l, "h265") || str_eq(l, "libx265") {
            CodecType::Hevc
        } else if str_eq(l, "vp9") {
            CodecType::Vp9
        } else if str_eq(l, "av1") {
            CodecType::Av1
        } else if str_eq(l, "aac") {
            CodecType::Aac
        } else if str_eq(l, "mp3") {
            CodecType::Mp3
        } else if str_eq(l, "opus") {
            CodecType::Opus
        } else if str_eq(l, "pcm_s16le") {
            CodecType::PcmS16Le
        } else if str_eq(l, "copy") {
            CodecType::Copy
        } else {
            CodecType::Other(lowered)
        }
    }

    /// Convert into the codec token passed to the transcoder: the probe
    /// name of a codec and its encoder token differ (a stream probed as
    /// `hevc` re-renders as `libx265`).
    pub fn as_str(&self) -> (r: &str)
        ensures
            r@ == encoder_name(*self),
    {
        match self {
            CodecType::H264 => "libx264",
            CodecType::Hevc => "libx265",
            CodecType::Vp9 => "libvpx-vp9",
            CodecType::Av1 => "libaom-av1",
            CodecType::Aac => "aac",
            CodecType::Mp3 => "libmp3lame",
            CodecType::Opus => "libopus",
            CodecType::PcmS16Le => "pcm_s16le",
            CodecType::Copy => "copy",
            CodecType::Other(name) => name.as_str(),
        }
    }
}

/// Any casing of a known codec name maps to that name's variant, and a
/// name outside the table maps to the open-ended variant carrying the
/// lower-cased original.  Here `l` is the lower-casing of the caller's
/// name, as `CodecType::from_name` establishes for its result.
pub proof fn lemma_codec_from_name_round_trip(c: CodecType, l: Seq<char>)
    requires
        codec_matches(c, l),
    ensures
        l == "h264"@ || l == "libx264"@ ==> c == CodecType::H264,
        l == "hevc"@ || l == "h265"@ || l == "libx265"@ ==> c == CodecType::Hevc,
        l == "vp9"@ ==> c == CodecType::Vp9,
        l == "av1"@ ==> c == CodecType::Av1,
        l == "aac"@ ==> c == CodecType::Aac,
        l == "mp3"@ ==> c == CodecType::Mp3,
        l == "opus"@ ==> c == CodecType::Opus,
        l == "pcm_s16le"@ ==> c == CodecType::PcmS16Le,
        l == "copy"@ ==> c == CodecType::Copy,
        !known_codec_name(l) ==> (c matches CodecType::Other(s) && s@ == l),
{
    lemma_codec_table_facts();
}

/// Lengths and distinguishing characters of the names in the codec
/// table, enough to tell any two of them apart.
proof fn lemma_codec_table_facts()
    ensures
        "h264"@.len() == 4,
        "libx264"@.len() == 7,
        "hevc"@.len() == 4,
        "h265"@.len() == 4,
        "libx265"@.len() == 7,
        "vp9"@.len() == 3,
        "av1"@.len() == 3,
        "aac"@.len() == 3,
        "mp3"@.len() == 3,
        "opus"@.len() == 4,
        "pcm_s16le"@.len() == 9,
        "copy"@.len() == 4,
        "vp9"@[0] == 'v',
        "av1"@[0] == 'a',
        "aac"@[0] == 'a',
        "mp3"@[0] == 'm',
        "av1"@[1] == 'v',
        "aac"@[1] == 'a',
        "h264"@[0] == 'h',
        "hevc"@[0] == 'h',
        "h265"@[0] == 'h',
        "opus"@[0] == 'o',
        "copy"@[0] == 'c',
        "h264"@[1] == '2',
        "hevc"@[1] == 'e',
        "h265"@[1] == '2',
        "h264"@[3] == '4',
        "h265"@[3] == '5',
        "libx264"@[6] == '4',
        "libx265"@[6] == '5',
{
    reveal_strlit("h264");
    reveal_strlit("libx264");
    reveal_strlit("hevc");
    reveal_strlit("h265");
    reveal_strlit("libx265");
    reveal_strlit("vp9");
    reveal_strlit("av1");
    reveal_strlit("aac");
    reveal_strlit("mp3");
    reveal_strlit("opus");
    reveal_strlit("pcm_s16le");
    reveal_strlit("copy");
}

/// Simplified stream classification.
#[derive(Clone, Debug, PartialEq, Eq, Structural)]
pub enum StreamType {
    /// Video stream.
    Video,
    /// Audio stream.
    Audio,
    /// Subtitle stream.
    Subtitle,
    /// Auxiliary data.
    Data,
}

/// A frame rate as an exact fraction of frames per second, kept rational
/// to avoid drift ("30000/1001" stays 30000 over 1001).
#[derive(Clone, Copy, Debug, PartialEq, Eq, Structural)]
pub struct FrameRate {
    /// Frames counted per `den` seconds.
    pub num: u64,
    /// Denominator in seconds; never zero.
    pub den: u64,
}

impl FrameRate {
    /// Holds iff the fraction has a meaningful denominator.
    pub open spec fn wf(&self) -> bool {
        self.den > 0
    }

    /// The fraction `num / den`.
    pub fn new(num: u64, den: u64) -> (r: Self)
        requires
            den > 0,
        ensures
            r.num == num,
            r.den == den,
            r.wf(),
    {
        FrameRate { num, den }
    }
}

/// Container-level metadata reported by the prober.
#[derive(Clone, Debug)]
pub struct FormatInfo {
    /// Name of the format (e.g. "mov,mp4,m4a,3gp,3g2,mj2").
    pub format_name: Option<String>,
    /// Human readable format description.
    pub format_long_name: Option<String>,
    /// Optional duration.
    pub duration: Option<Time>,
    /// Optional overall bitrate in bits per second.
    pub bit_rate: Option<u64>,
    /// Optional file size in bytes.
    pub size: Option<u64>,
}

impl FormatInfo {
    /// Create a new instance from its parts.
    pub fn new(
        format_name: Option<String>,
        format_long_name: Option<String>,
        duration: Option<Time>,
        bit_rate: Option<u64>,
        size: Option<u64>,
    ) -> (r: Self)
        ensures
            r == (FormatInfo { format_name, format_long_name, duration, bit_rate, size }),
    {
        FormatInfo { format_name, format_long_name, duration, bit_rate, size }
    }
}

/// Video stream metadata.
#[derive(Clone, Debug)]
pub struct VideoStreamInfo {
    /// Codec identifier.
    pub codec: CodecType,
    /// Width in pixels.
    pub width: Option<u32>,
    /// Height in pixels.
    pub height: Option<u32>,
    /// Bit rate in bits/sec.
    pub bit_rate: Option<u64>,
    /// Average frame rate (frames per second).
    pub frame_rate: Option<FrameRate>,
}

/// Audio stream metadata.
#[derive(Clone, Debug)]
pub struct AudioStreamInfo {
    /// Codec identifier.
    pub codec: CodecType,
    /// Number of audio channels.
    pub channels: Option<u32>,
    /// Sample rate in Hz.
    pub sample_rate: Option<u32>,
    /// Bit rate in bits/sec.
    pub bit_rate: Option<u64>,
}

/// Subtitle stream metadata.
#[derive(Clone, Debug)]
pub struct SubtitleStreamInfo {
    /// Codec identifier.
    pub codec: CodecType,
    /// Optional language tag (e.g. "eng").
    pub language: Option<String>,
}

/// Misc data stream metadata.
#[derive(Clone, Debug)]
pub struct DataStreamInfo {
    /// Codec identifier.
    pub codec: CodecType,
    /// Optional handler description.
    pub description: Option<String>,
}

/// Stream metadata, tagged by stream kind.
#[derive(Clone, Debug)]
pub enum StreamInfo {
    /// Video stream info.
    Video(VideoStreamInfo),
    /// Audio stream info.
    Audio(AudioStreamInfo),
    /// Subtitle stream info.
    Subtitle(SubtitleStreamInfo),
    /// Auxiliary data stream info.
    Data(DataStreamInfo),
}

/// The first video entry of a stream sequence, if any.
pub open spec fn first_video_of(streams: Seq<StreamInfo>) -> Option<VideoStreamInfo>
    decreases streams.len(),
{
    if streams.len() == 0 {
        None
    } else {
        match streams[0] {
            StreamInfo::Video(v) => Some(v),
            _ => first_video_of(streams.drop_first()),
        }
    }
}

/// The first audio entry of a stream sequence, if any.
pub open spec fn first_audio_of(streams: Seq<StreamInfo>) -> Option<AudioStreamInfo>
    decreases streams.len(),
{
    if streams.len() == 0 {
        None
    } else {
        match streams[0] {
            StreamInfo::Audio(a) => Some(a),
            _ => first_audio_of(streams.drop_first()),
        }
    }
}

/// A prefix free of video entries does not change the first video entry
/// of what follows it.
proof fn lemma_first_video_skip(streams: Seq<StreamInfo>, i: int)
    requires
        0 <= i <= streams.len(),
        forall|j: int| 0 <= j < i ==> !(#[trigger] streams[j] is Video),
    ensures
        first_video_of(streams) == first_video_of(streams.skip(i)),
    decreases i,
{
    if i > 0 {
        assert(!(streams[0] is Video));
        assert(streams.drop_first() =~= streams.skip(1));
        lemma_first_video_skip(streams.skip(1), i - 1);
        assert(streams.skip(1).skip(i - 1) =~= streams.skip(i));
    } else {
        assert(streams.skip(0) =~= streams);
    }
}

/// A prefix free of audio entries does not change the first audio entry
/// of what follows it.
proof fn lemma_first_audio_skip(streams: Seq<StreamInfo>, i: int)
    requires
        0 <= i <= streams.len(),
        forall|j: int| 0 <= j < i ==> !(#[trigger] streams[j] is Audio),
    ensures
        first_audio_of(streams) == first_audio_of(streams.skip(i)),
    decreases i,
{
    if i > 0 {
        assert(!(streams[0] is Audio));
        assert(streams.drop_first() =~= streams.skip(1));
        lemma_first_audio_skip(streams.skip(1), i - 1);
        assert(streams.skip(1).skip(i - 1) =~= streams.skip(i));
    } else {
        assert(streams.skip(0) =~= streams);
    }
}

/// Top-level probe result: container metadata plus the streams in the
/// order the prober reported them.
#[derive(Clone, Debug)]
pub struct ProbeResult {
    format: FormatInfo,
    streams: Vec<StreamInfo>,
}

impl ProbeResult {
    /// The container metadata of this result.
    pub closed spec fn spec_format(&self) -> FormatInfo {
        self.format
    }

    /// The streams of this result, in reported order.
    pub closed spec fn spec_streams(&self) -> Seq<StreamInfo> {
        self.streams@
    }

    /// Create a new result.
    pub fn new(format: FormatInfo, streams: Vec<StreamInfo>) -> (r: Self)
        ensures
            r.spec_format() == format,
            r.spec_streams() == streams@,
    {
        ProbeResult { format, streams }
    }

    /// Format metadata (container-level details).
    pub fn format(&self) -> (r: &FormatInfo)
        ensures
            *r == self.spec_format(),
    {
        &self.format
    }

    /// All streams reported by the prober.
    pub fn streams(&self) -> (r: &Vec<StreamInfo>)
        ensures
            r@ == self.spec_streams(),
    {
        &self.streams
    }

    /// Convenience helper returning the first video stream.
    pub fn first_video(&self) -> (r: Option<&VideoStreamInfo>)
        ensures
            match r {
                Some(v) => first_video_of(self.spec_streams()) == Some(*v),
                None => first_video_of(self.spec_streams()) is None,
            },
    {
        let n = self.streams.len();
        let mut i: usize = 0;
        while i < n
            invariant
                n == self.streams@.len(),
                i <= n,
                forall|j: int| 0 <= j < i ==> !(#[trigger] self.streams@[j] is Video),
            decreases n - i,
        {
            if let StreamInfo::Video(v) = &self.streams[i] {
                proof {
                    lemma_first_video_skip(self.streams@, i as int);
                    assert(self.streams@.skip(i as int)[0] == self.streams@[i as int]);
                }
                return Some(v);
            }
            i += 1;
        }
        proof {
            lemma_first_video_skip(self.streams@, n as int);
        }
        None
    }

    /// Convenience helper returning the first audio stream.
    pub fn first_audio(&self) -> (r: Option<&AudioStreamInfo>)
        ensures
            match r {
                Some(a) => first_audio_of(self.spec_streams()) == Some(*a),
                None => first_audio_of(self.spec_streams()) is None,
            },
    {
        let n = self.streams.len();
        let mut i: usize = 0;
        while i < n
            invariant
                n == self.streams@.len(),
                i <= n,
                forall|j: int| 0 <= j < i ==> !(#[trigger] self.streams@[j] is Audio),
            decreases n - i,
        {
            if let StreamInfo::Audio(a) = &self.streams[i] {
                proof {
                    lemma_first_audio_skip(self.streams@, i as int);
                    assert(self.streams@.skip(i as int)[0] == self.streams@[i as int]);
                }
                return Some(a);
            }
            i += 1;
        }
        proof {
            lemma_first_audio_skip(self.streams@, n as int);
        }
        None
    }

    /// Duration if reported by the prober.
    pub fn duration(&self) -> (r: Option<Time>)
        ensures
            r == self.spec_format().duration,
    {
        self.format.duration
    }
}

} // verus!
