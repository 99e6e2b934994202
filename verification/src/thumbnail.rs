//! Thumbnail requests: a thin special-case consumer of the argument
//! assembly, seeking to a timestamp and requesting a single frame.

use vstd::prelude::*;

use crate::strutil::dec_str;
use crate::strutil::u32_to_string;
use crate::transcode::push_arg;
use crate::transcode::push_string;
use crate::transcode::push_tail;
use crate::types::timestamp_str;
use crate::types::Time;

verus! {

/// Supported thumbnail output formats.
#[derive(Clone, Copy, Debug, PartialEq, Eq, Structural)]
pub enum ThumbnailFormat {
    /// Portable Network Graphics (png).
    Png,
    /// JPEG (jpg/jpeg).
    Jpeg,
}

/// The file extension of a thumbnail format.
pub open spec fn format_ext(f: ThumbnailFormat) -> Seq<char> {
    match f {
        ThumbnailFormat::Png => "png"@,
        ThumbnailFormat::Jpeg => "jpg"@,
    }
}

/// The container selection flags of a thumbnail format.
pub open spec fn format_flag_args(f: ThumbnailFormat) -> Seq<Seq<char>> {
    match f {
        ThumbnailFormat::Png => seq!["-f"@, "image2"@],
        ThumbnailFormat::Jpeg => seq!["-f"@, "mjpeg"@],
    }
}

impl ThumbnailFormat {
    /// The default file extension for this format.
    pub fn extension(&self) -> (r: &'static str)
        ensures
            r@ == format_ext(*self),
    {
        match self {
            ThumbnailFormat::Png => "png",
            ThumbnailFormat::Jpeg => "jpg",
        }
    }

    /// The container selection flags passed for this format.
    pub fn ffmpeg_args(&self) -> (r: Vec<String>)
        ensures
            r.deep_view() == format_flag_args(*self),
    {
        let mut out: Vec<String> = Vec::new();
        push_arg(&mut out, "-f");
        match self {
            ThumbnailFormat::Png => push_arg(&mut out, "image2"),
            ThumbnailFormat::Jpeg => push_arg(&mut out, "mjpeg"),
        }
        proof {
            assert(out.deep_view() =~~= format_flag_args(*self));
        }
        out
    }
}

/// Options for generating a thumbnail.
#[derive(Clone, Debug)]
pub struct ThumbnailOptions {
    time: Time,
    width: Option<u32>,
    height: Option<u32>,
    format: ThumbnailFormat,
}

impl ThumbnailOptions {
    /// The capture timestamp.
    pub closed spec fn spec_time(&self) -> Time {
        self.time
    }

    /// The configured output width.
    pub closed spec fn spec_width(&self) -> Option<u32> {
        self.width
    }

    /// The configured output height.
    pub closed spec fn spec_height(&self) -> Option<u32> {
        self.height
    }

    /// The configured output format.
    pub closed spec fn spec_format(&self) -> ThumbnailFormat {
        self.format
    }

    /// Create with the specified timestamp, no scaling, and the
    /// image default format.
    pub fn new(time: Time) -> (r: Self)
        ensures
            r.spec_time() == time,
            r.spec_width() is None,
            r.spec_height() is None,
            r.spec_format() == ThumbnailFormat::Png,
    {
        ThumbnailOptions { time, width: None, height: None, format: ThumbnailFormat::Png }
    }

    /// The timestamp at which the thumbnail will be captured.
    pub fn time(&self) -> (r: Time)
        ensures
            r == self.spec_time(),
    {
        self.time
    }

    /// Set the output dimensions.
    pub fn size(self, width: u32, height: u32) -> (r: Self)
        ensures
            r.spec_time() == self.spec_time(),
            r.spec_width() == Some(width),
            r.spec_height() == Some(height),
            r.spec_format() == self.spec_format(),
    {
        ThumbnailOptions { width: Some(width), height: Some(height), ..self }
    }

    /// Current width/height configuration, present only when both are
    /// set.
    pub fn dimensions(&self) -> (r: Option<(u32, u32)>)
        ensures
            match (self.spec_width(), self.spec_height()) {
                (Some(w), Some(h)) => r == Some((w, h)),
                _ => r is None,
            },
    {
        match (self.width, self.height) {
            (Some(w), Some(h)) => Some((w, h)),
            _ => None,
        }
    }

    /// Choose a specific output format.
    pub fn format(self, format: ThumbnailFormat) -> (r: Self)
        ensures
            r.spec_time() == self.spec_time(),
            r.spec_width() == self.spec_width(),
            r.spec_height() == self.spec_height(),
            r.spec_format() == format,
    {
        ThumbnailOptions { format, ..self }
    }

    /// Output format getter.
    pub fn output_format(&self) -> (r: &ThumbnailFormat)
        ensures
            *r == self.spec_format(),
    {
        &self.format
    }
}

/// The position of the last occurrence of `c` in `s`, or `-1`.
pub open spec fn rfind_char(s: Seq<char>, c: char) -> int
    decreases s.len(),
{
    if s.len() == 0 {
        -1
    } else if s.last() == c {
        s.len() - 1
    } else {
        rfind_char(s.drop_last(), c)
    }
}

/// The last hit of a backwards character search is where the last
/// occurrence is.
proof fn lemma_rfind_char_hit(s: Seq<char>, c: char, k: int)
    requires
        0 <= k < s.len(),
        s[k] == c,
        forall|j: int| k < j < s.len() ==> s[j] != c,
    ensures
        rfind_char(s, c) == k,
    decreases s.len(),
{
    if k == s.len() - 1 {
    } else {
        assert(s.last() != c);
        assert(s.drop_last()[k] == s[k]);
        assert(forall|j: int|
            k < j < s.len() - 1 ==> #[trigger] s.drop_last()[j] == s[j]);
        lemma_rfind_char_hit(s.drop_last(), c, k);
    }
}

/// A character that occurs nowhere is not found backwards either.
proof fn lemma_rfind_char_none(s: Seq<char>, c: char)
    requires
        forall|j: int| 0 <= j < s.len() ==> s[j] != c,
    ensures
        rfind_char(s, c) == -1,
    decreases s.len(),
{
    if s.len() > 0 {
        assert(forall|j: int|
            0 <= j < s.len() - 1 ==> #[trigger] s.drop_last()[j] == s[j]);
        lemma_rfind_char_none(s.drop_last(), c);
    }
}

/// The position of the last occurrence of `c`, searching right to left.
fn rfind_char_at(s: &str, c: char) -> (r: Option<usize>)
    ensures
        match r {
            Some(i) => rfind_char(s@, c) == i as int && i < s@.len() && s@[i as int] == c,
            None => rfind_char(s@, c) == -1,
        },
{
    let len = s.unicode_len();
    let mut i: usize = len;
    while i > 0
        invariant
            len == s@.len(),
            i <= len,
            forall|j: int| i <= j < len ==> s@[j] != c,
        decreases i,
    {
        i -= 1;
        if s.get_char(i) == c {
            proof {
                lemma_rfind_char_hit(s@, c, i as int);
            }
            return Some(i);
        }
    }
    proof {
        lemma_rfind_char_none(s@, c);
    }
    None
}

/// Whether the final path component has a file extension: a dot that
/// comes after at least one character of the file name.
pub open spec fn has_extension(path: Seq<char>) -> bool {
    rfind_char(path, '.') > rfind_char(path, '/') + 1
}

/// The output path a thumbnail is written to: the caller's path, given
/// the format's default extension when it has none.
pub open spec fn spec_output_path(output: Seq<char>, f: ThumbnailFormat) -> Seq<char> {
    if has_extension(output) {
        output
    } else {
        output + "."@ + format_ext(f)
    }
}

/// The caller's output path with the format's default extension
/// appended when the path has none.
pub fn output_with_extension(output: &str, format: &ThumbnailFormat) -> (r: String)
    ensures
        r@ == spec_output_path(output@, *format),
{
    let slash = rfind_char_at(output, '/');
    let dot = rfind_char_at(output, '.');
    let has = match (dot, slash) {
        (Some(d), Some(sl)) => d > sl && d - sl > 1,
        (Some(d), None) => d > 0,
        _ => false,
    };
    if has {
        output.to_owned()
    } else {
        let mut s = output.to_owned();
        s.append(".");
        s.append(format.extension());
        proof {
            reveal_strlit(".");
            assert(s@ =~= spec_output_path(output@, *format));
        }
        s
    }
}

/// The full ordered argument sequence of a thumbnail invocation: seek
/// to the timestamp, read the input, take a single frame, scale when
/// both dimensions are set, select the container, and write to the
/// output path (given a default extension when it has none).
pub open spec fn spec_thumbnail_args(
    input: Seq<char>,
    output: Seq<char>,
    o: ThumbnailOptions,
) -> Seq<Seq<char>> {
    seq![
        "-y"@,
        "-ss"@,
        timestamp_str(o.spec_time()@),
        "-i"@,
        input,
        "-vframes"@,
        "1"@,
    ] + (match (o.spec_width(), o.spec_height()) {
        (Some(w), Some(h)) => seq![
            "-vf"@,
            "scale="@ + dec_str(w as nat) + ":"@ + dec_str(h as nat),
        ],
        _ => Seq::<Seq<char>>::empty(),
    }) + format_flag_args(o.spec_format()) + seq![spec_output_path(output, o.spec_format())]
}

/// Renders the argument sequence for one thumbnail invocation.
pub fn thumbnail_args(input: &str, output: &str, options: &ThumbnailOptions) -> (r: Vec<String>)
    ensures
        r.deep_view() == spec_thumbnail_args(input@, output@, *options),
{
    let mut out: Vec<String> = Vec::new();
    push_arg(&mut out, "-y");
    push_arg(&mut out, "-ss");
    push_string(&mut out, &options.time().to_ffmpeg_timestamp());
    push_arg(&mut out, "-i");
    push_arg(&mut out, input);
    push_arg(&mut out, "-vframes");
    push_arg(&mut out, "1");
    let ghost head = seq![
        "-y"@,
        "-ss"@,
        timestamp_str(options.spec_time()@),
        "-i"@,
        input@,
        "-vframes"@,
        "1"@,
    ];
    proof {
        assert(out.deep_view() =~~= head);
    }
    let ghost scale = match (options.spec_width(), options.spec_height()) {
        (Some(w), Some(h)) => seq![
            "-vf"@,
            "scale="@ + dec_str(w as nat) + ":"@ + dec_str(h as nat),
        ],
        _ => Seq::<Seq<char>>::empty(),
    };
    if let Some((w, h)) = options.dimensions() {
        push_arg(&mut out, "-vf");
        let mut s = String::new();
        s.append("scale=");
        s.append(u32_to_string(w).as_str());
        s.append(":");
        s.append(u32_to_string(h).as_str());
        push_string(&mut out, &s);
        proof {
            assert(s@ =~= "scale="@ + dec_str(w as nat) + ":"@ + dec_str(h as nat));
            assert(out.deep_view() =~= head + scale);
        }
    } else {
        proof {
            assert(out.deep_view() =~= head + scale);
        }
    }
    let ghost a1 = head + scale;
    push_arg(&mut out, "-f");
    match options.output_format() {
        ThumbnailFormat::Png => push_arg(&mut out, "image2"),
        ThumbnailFormat::Jpeg => push_arg(&mut out, "mjpeg"),
    }
    proof {
        assert(out.deep_view() =~= a1 + format_flag_args(options.spec_format()));
    }
    let ghost a2 = a1 + format_flag_args(options.spec_format());
    push_tail(&mut out, &output_with_extension(output, options.output_format()));
    proof {
        assert(out.deep_view() == a2 + seq![spec_output_path(output@, options.spec_format())]);
        assert(out.deep_view() == spec_thumbnail_args(input@, output@, *options));
    }
    out
}

} // verus!
