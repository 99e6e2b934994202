//! Configuration helpers for locating the external tool binaries.

use vstd::prelude::*;

use crate::command::FfmpegBinaryPaths;
use crate::error::Error;
use crate::error::FfResult;

verus! {

/// Relies on `std::path::Path::exists`: whether the path points at an
/// existing filesystem entity.  The outcome depends on the filesystem,
/// so nothing is promised of the result.
#[verifier::external_body]
fn path_exists(path: &str) -> (r: bool) {
    std::path::Path::new(path).exists()
}

/// Determines how the crate locates the transcoder and prober binaries.
#[derive(Clone, Debug)]
pub struct FfmpegLocator {
    paths: FfmpegBinaryPaths,
}

impl FfmpegLocator {
    /// The binary paths this locator resolved.
    pub closed spec fn spec_binaries(&self) -> FfmpegBinaryPaths {
        self.paths
    }

    /// Use binaries discovered on the current search path.  Discovery
    /// depends on the environment; on failure the discovery error is
    /// passed through, carrying its fixed installation hint.
    pub fn system() -> (r: FfResult<Self>)
        ensures
            (r matches Err(e) ==> (e matches Error::FFmpegNotFound { suggestion } && (
            suggestion matches Some(s) && (s@
                == "install ffmpeg with 'brew install ffmpeg' (macOS), 'apt install ffmpeg' (Linux), or download from ffmpeg.org"@
                || s@ == "ffprobe comes with ffmpeg installation"@)))),
    {
        match FfmpegBinaryPaths::auto() {
            Ok(paths) => Ok(FfmpegLocator { paths }),
            Err(e) => Err(e),
        }
    }

    /// Use explicitly provided binary paths, verifying that both exist
    /// on the filesystem.  Existence depends on the filesystem: on
    /// success the paths are taken verbatim, otherwise the error names
    /// the path that was missing.
    pub fn with_paths(ffmpeg: &str, ffprobe: &str) -> (r: FfResult<Self>)
        ensures
            (r matches Ok(loc) ==> loc.spec_binaries().spec_ffmpeg() == ffmpeg@
                && loc.spec_binaries().spec_ffprobe() == ffprobe@),
            (r matches Err(e) ==> (e matches Error::BinaryNotFound { binary } && (binary@
                == ffmpeg@ || binary@ == ffprobe@))),
    {
        if !path_exists(ffmpeg) {
            return Err(Error::BinaryNotFound { binary: str_owned(ffmpeg) });
        }
        if !path_exists(ffprobe) {
            return Err(Error::BinaryNotFound { binary: str_owned(ffprobe) });
        }
        Ok(FfmpegLocator { paths: FfmpegBinaryPaths::with_paths(ffmpeg, ffprobe) })
    }

    /// Reuse the given binary paths without checking them.
    pub fn from_paths(paths: FfmpegBinaryPaths) -> (r: Self)
        ensures
            r.spec_binaries() == paths,
    {
        FfmpegLocator { paths }
    }

    /// Raw binary paths.
    pub fn binaries(&self) -> (r: &FfmpegBinaryPaths)
        ensures
            *r == self.spec_binaries(),
    {
        &self.paths
    }

    /// Path to the transcoder binary.
    pub fn ffmpeg(&self) -> (r: &str)
        ensures
            r@ == self.spec_binaries().spec_ffmpeg(),
    {
        self.paths.ffmpeg()
    }

    /// Path to the prober binary.
    pub fn ffprobe(&self) -> (r: &str)
        ensures
            r@ == self.spec_binaries().spec_ffprobe(),
    {
        self.paths.ffprobe()
    }
}

/// Helper to detect binaries once and reuse them across operations.
pub fn system_locator() -> (r: FfResult<FfmpegLocator>)
    ensures
        (r matches Err(e) ==> (e matches Error::FFmpegNotFound { suggestion } && (
        suggestion matches Some(s) && (s@
            == "install ffmpeg with 'brew install ffmpeg' (macOS), 'apt install ffmpeg' (Linux), or download from ffmpeg.org"@
            || s@ == "ffprobe comes with ffmpeg installation"@)))),
{
    FfmpegLocator::system()
}

/// An owned copy of a string slice.
fn str_owned(s: &str) -> (r: String)
    ensures
        r@ == s@,
{
    s.to_owned()
}

} // verus!
