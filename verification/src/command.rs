//! Binary locations and command-line assembly for the two external
//! tools.  Everything here is pure bookkeeping over paths and argument
//! lists; spawning the processes is left to the embedding program.

use vstd::prelude::*;

use crate::error::Error;
use crate::error::FfResult;

verus! {

/// Relies on `which::which`: resolves a binary name against the
/// system's command search path.  What it returns depends on the
/// environment, so nothing is promised of the result.
#[verifier::external_body]
fn which_path(name: &str) -> (r: Option<String>) {
    match which::which(name) {
        Ok(path) => path.to_str().map(|s| s.to_owned()),
        Err(_) => None,
    }
}

/// Paths to the transcoder and prober binaries used by the crate.
#[derive(Clone, Debug)]
pub struct FfmpegBinaryPaths {
    ffmpeg: String,
    ffprobe: String,
}

impl FfmpegBinaryPaths {
    /// The transcoder path.
    pub closed spec fn spec_ffmpeg(&self) -> Seq<char> {
        self.ffmpeg@
    }

    /// The prober path.
    pub closed spec fn spec_ffprobe(&self) -> Seq<char> {
        self.ffprobe@
    }

    /// Locate both binaries on the search path.  Discovery depends on
    /// the environment: on failure the error is the discovery error
    /// with its fixed installation hint.
    pub fn auto() -> (r: FfResult<Self>)
        ensures
            (r matches Err(e) ==> (e matches Error::FFmpegNotFound { suggestion } && (
            suggestion matches Some(s) && (s@
                == "install ffmpeg with 'brew install ffmpeg' (macOS), 'apt install ffmpeg' (Linux), or download from ffmpeg.org"@
                || s@ == "ffprobe comes with ffmpeg installation"@)))),
    {
        let ffmpeg = match which_path("ffmpeg") {
            Some(p) => p,
            None => {
                let mut hint = String::new();
                hint.append(
                    "install ffmpeg with 'brew install ffmpeg' (macOS), 'apt install ffmpeg' (Linux), or download from ffmpeg.org",
                );
                return Err(Error::FFmpegNotFound { suggestion: Some(hint) });
            },
        };
        let ffprobe = match which_path("ffprobe") {
            Some(p) => p,
            None => {
                let mut hint = String::new();
                hint.append("ffprobe comes with ffmpeg installation");
                return Err(Error::FFmpegNotFound { suggestion: Some(hint) });
            },
        };
        Ok(FfmpegBinaryPaths { ffmpeg, ffprobe })
    }

    /// Override binaries manually.
    pub fn with_paths(ffmpeg: &str, ffprobe: &str) -> (r: Self)
        ensures
            r.spec_ffmpeg() == ffmpeg@,
            r.spec_ffprobe() == ffprobe@,
    {
        FfmpegBinaryPaths { ffmpeg: ffmpeg.to_owned(), ffprobe: ffprobe.to_owned() }
    }

    /// Path to the transcoder binary.
    pub fn ffmpeg(&self) -> (r: &str)
        ensures
            r@ == self.spec_ffmpeg(),
    {
        self.ffmpeg.as_str()
    }

    /// Path to the prober binary.
    pub fn ffprobe(&self) -> (r: &str)
        ensures
            r@ == self.spec_ffprobe(),
    {
        self.ffprobe.as_str()
    }
}

/// An invocation of the transcoder binary being assembled: the binary
/// path and the arguments collected so far, in order.
#[derive(Clone, Debug)]
pub struct FfmpegCommand {
    binary: String,
    args: Vec<String>,
}

impl FfmpegCommand {
    /// The binary path this command will run.
    pub closed spec fn spec_binary(&self) -> Seq<char> {
        self.binary@
    }

    /// The collected arguments, in order.
    pub closed spec fn spec_args(&self) -> Seq<Seq<char>> {
        self.args.deep_view()
    }

    /// Start building a command using the provided binary path.
    pub fn new(binary: &str) -> (r: Self)
        ensures
            r.spec_binary() == binary@,
            r.spec_args() == Seq::<Seq<char>>::empty(),
    {
        let r = FfmpegCommand { binary: binary.to_owned(), args: Vec::new() };
        proof {
            assert(r.spec_args() =~~= Seq::<Seq<char>>::empty());
        }
        r
    }

    /// Append one argument.
    pub fn arg(&mut self, arg: &str)
        ensures
            final(self).spec_binary() == old(self).spec_binary(),
            final(self).spec_args() == old(self).spec_args().push(arg@),
    {
        self.args.push(arg.to_owned());
        proof {
            assert(self.spec_args() =~~= old(self).spec_args().push(arg@));
        }
    }

    /// Append multiple arguments, in order.
    pub fn args(&mut self, new_args: &Vec<String>)
        ensures
            final(self).spec_binary() == old(self).spec_binary(),
            final(self).spec_args() == old(self).spec_args() + new_args.deep_view(),
    {
        let n = new_args.len();
        let mut i: usize = 0;
        while i < n
            invariant
                n == new_args@.len(),
                i <= n,
                self.spec_binary() == old(self).spec_binary(),
                self.spec_args() == old(self).spec_args() + new_args.deep_view().take(i as int),
            decreases n - i,
        {
            self.arg(new_args[i].as_str());
            i += 1;
            proof {
                assert(old(self).spec_args() + new_args.deep_view().take(i as int) =~~= (old(
                    self,
                ).spec_args() + new_args.deep_view().take(i - 1)).push(new_args@[i - 1]@));
            }
        }
        proof {
            assert(new_args.deep_view().take(n as int) =~~= new_args.deep_view());
        }
    }

    /// The binary path, for the embedding program to spawn.
    pub fn binary(&self) -> (r: &str)
        ensures
            r@ == self.spec_binary(),
    {
        self.binary.as_str()
    }

    /// The collected arguments, for the embedding program to spawn.
    pub fn arg_list(&self) -> (r: &Vec<String>)
        ensures
            r.deep_view() == self.spec_args(),
    {
        &self.args
    }
}

/// The fixed flags the prober is always invoked with: quiet logging and
/// a JSON report of format and streams.
pub open spec fn ffprobe_fixed_args() -> Seq<Seq<char>> {
    seq!["-v"@, "quiet"@, "-print_format"@, "json"@, "-show_format"@, "-show_streams"@]
}

/// An invocation of the prober binary being assembled for one input
/// file, with optional extra arguments.
#[derive(Clone, Debug)]
pub struct FfprobeCommand {
    binary: String,
    input: String,
    extra_args: Vec<String>,
}

impl FfprobeCommand {
    /// The binary path this command will run.
    pub closed spec fn spec_binary(&self) -> Seq<char> {
        self.binary@
    }

    /// The input file to probe.
    pub closed spec fn spec_input(&self) -> Seq<char> {
        self.input@
    }

    /// The extra arguments collected so far, in order.
    pub closed spec fn spec_extra_args(&self) -> Seq<Seq<char>> {
        self.extra_args.deep_view()
    }

    /// Create a command targeting a specific input file.
    pub fn new(binary: &str, input: &str) -> (r: Self)
        ensures
            r.spec_binary() == binary@,
            r.spec_input() == input@,
            r.spec_extra_args() == Seq::<Seq<char>>::empty(),
    {
        let r = FfprobeCommand {
            binary: binary.to_owned(),
            input: input.to_owned(),
            extra_args: Vec::new(),
        };
        proof {
            assert(r.spec_extra_args() =~~= Seq::<Seq<char>>::empty());
        }
        r
    }

    /// Add an extra argument; extra arguments are passed after the fixed
    /// flags and before the input path.
    pub fn arg(&mut self, arg: &str)
        ensures
            final(self).spec_binary() == old(self).spec_binary(),
            final(self).spec_input() == old(self).spec_input(),
            final(self).spec_extra_args() == old(self).spec_extra_args().push(arg@),
    {
        self.extra_args.push(arg.to_owned());
        proof {
            assert(self.spec_extra_args() =~~= old(self).spec_extra_args().push(arg@));
        }
    }

    /// The full ordered argument list of the probe invocation: the fixed
    /// flags, then the extra arguments, then the input path.
    pub fn build_args(&self) -> (r: Vec<String>)
        ensures
            r.deep_view() == ffprobe_fixed_args() + self.spec_extra_args() + seq![
                self.spec_input(),
            ],
    {
        let mut out: Vec<String> = Vec::new();
        out.push(str_to_string("-v"));
        out.push(str_to_string("quiet"));
        out.push(str_to_string("-print_format"));
        out.push(str_to_string("json"));
        out.push(str_to_string("-show_format"));
        out.push(str_to_string("-show_streams"));
        proof {
            assert(out.deep_view() =~~= ffprobe_fixed_args() + self.spec_extra_args().take(0));
        }
        let n = self.extra_args.len();
        let mut i: usize = 0;
        while i < n
            invariant
                n == self.extra_args@.len(),
                i <= n,
                out.deep_view() == ffprobe_fixed_args() + self.spec_extra_args().take(i as int),
            decreases n - i,
        {
            push_owned(&mut out, &self.extra_args[i]);
            i += 1;
            proof {
                assert(ffprobe_fixed_args() + self.spec_extra_args().take(i as int) =~= (
                ffprobe_fixed_args() + self.spec_extra_args().take(i - 1)).push(
                    self.extra_args@[i - 1]@,
                ));
            }
        }
        push_owned(&mut out, &self.input);
        proof {
            assert(self.spec_extra_args().take(n as int) =~~= self.spec_extra_args());
            assert(ffprobe_fixed_args() + self.spec_extra_args() + seq![self.spec_input()] =~= (
            ffprobe_fixed_args() + self.spec_extra_args()).push(self.spec_input()));
        }
        out
    }

    /// The binary path, for the embedding program to spawn.
    pub fn binary(&self) -> (r: &str)
        ensures
            r@ == self.spec_binary(),
    {
        self.binary.as_str()
    }
}

/// Appends a copy of one string to an argument vector.
fn push_owned(v: &mut Vec<String>, s: &String)
    ensures
        final(v).deep_view() == old(v).deep_view().push(s@),
{
    v.push(s.clone());
    proof {
        assert(v.deep_view() =~~= old(v).deep_view().push(s@));
    }
}

/// An owned copy of a string slice.
fn str_to_string(s: &str) -> (r: String)
    ensures
        r@ == s@,
{
    s.to_owned()
}

} // verus!
