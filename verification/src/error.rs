//! The crate's error taxonomy, with rendered messages and advisory
//! remediation suggestions.

use vstd::prelude::*;

use crate::strutil::contains_seq;
use crate::strutil::i64_to_string;
use crate::strutil::int_str;
use crate::strutil::str_contains;

verus! {

/// Result alias used throughout the crate.
pub type FfResult<T> = Result<T, Error>;

/// Errors that can occur when invoking the external tools or parsing
/// their output.
#[derive(Clone, Debug)]
pub enum Error {
    /// The required tools could not be located on the search path.
    FFmpegNotFound {
        /// Optional installation hint.
        suggestion: Option<String>,
    },
    /// An explicitly supplied binary path does not exist.
    BinaryNotFound {
        /// Name or path of the binary that could not be located.
        binary: String,
    },
    /// A spawned command exited with a non-zero status code.
    ProcessingError {
        /// Binary that was executed.
        binary: String,
        /// Exit code if provided by the OS.
        exit_code: Option<i32>,
        /// Captured diagnostic output (truncated when large).
        message: String,
    },
    /// A filesystem or process-spawn failure.
    Io(String),
    /// The prober's report was not well-formed JSON.
    Json(String),
    /// User input does not satisfy the builder requirements.
    InvalidInput(String),
    /// Textual parsing failed (for example, invalid output encodings).
    Parse(String),
    /// A filter configuration was rejected.
    FilterError(String),
    /// An operation ran out of time.
    TimeoutError(String),
    /// Placeholder for functionality that has not been implemented.
    Unsupported(String),
}

/// The rendered message of an error.
pub open spec fn message_of(e: Error) -> Seq<char> {
    match e {
        Error::FFmpegNotFound { suggestion } => "ffmpeg not found on PATH"@,
        Error::BinaryNotFound { binary } => "binary '"@ + binary@ + "' not found"@,
        Error::ProcessingError { binary, exit_code, message } => binary@ + (match exit_code {
            Some(code) => " failed (code: "@ + int_str(code as int) + "): "@,
            None => " failed: "@,
        }) + message@,
        Error::Io(m) => "io error: "@ + m@,
        Error::Json(m) => "malformed report: "@ + m@,
        Error::InvalidInput(m) => "invalid input: "@ + m@,
        Error::Parse(m) => "parse error: "@ + m@,
        Error::FilterError(m) => "filter error: "@ + m@,
        Error::TimeoutError(m) => "timeout: "@ + m@,
        Error::Unsupported(m) => "unsupported operation: "@ + m@,
    }
}

/// The advisory suggestion attached to an error, derived from its kind
/// and, for invalid input, from recognizable substrings of the message.
pub open spec fn suggestion_of(e: Error) -> Option<Seq<char>> {
    match e {
        Error::FFmpegNotFound { suggestion } => match suggestion {
            Some(s) => Some(s@),
            None => None,
        },
        Error::InvalidInput(m) => {
            if contains_seq(m@, "input path"@) {
                Some("provide an input file with input() before running"@)
            } else if contains_seq(m@, "output path"@) {
                Some("provide an output path with output() before running"@)
            } else {
                None
            }
        },
        Error::ProcessingError { binary, exit_code, message } => Some(
            "check that the binary is installed and the arguments are valid"@,
        ),
        Error::FilterError(m) => Some("check the filter syntax against the installed FFmpeg version"@),
        _ => None,
    }
}

impl Error {
    /// The rendered message; what a display of this error shows.
    pub fn message(&self) -> (s: String)
        ensures
            s@ == message_of(*self),
    {
        match self {
            Error::FFmpegNotFound { suggestion } => {
                let mut s = String::new();
                s.append("ffmpeg not found on PATH");
                proof {
                    assert(s@ =~= message_of(*self));
                }
                s
            },
            Error::BinaryNotFound { binary } => {
                let mut s = String::new();
                s.append("binary '");
                s.append(binary.as_str());
                s.append("' not found");
                proof {
                    assert(s@ =~= message_of(*self));
                }
                s
            },
            Error::ProcessingError { binary, exit_code, message } => {
                let mut s = String::new();
                s.append(binary.as_str());
                match exit_code {
                    Some(code) => {
                        s.append(" failed (code: ");
                        s.append(i64_to_string(*code as i64).as_str());
                        s.append("): ");
                    },
                    None => {
                        s.append(" failed: ");
                    },
                }
                s.append(message.as_str());
                proof {
                    assert(s@ =~= message_of(*self));
                }
                s
            },
            Error::Io(m) => {
                let mut s = String::new();
                s.append("io error: ");
                s.append(m.as_str());
                proof {
                    assert(s@ =~= message_of(*self));
                }
                s
            },
            Error::Json(m) => {
                let mut s = String::new();
                s.append("malformed report: ");
                s.append(m.as_str());
                proof {
                    assert(s@ =~= message_of(*self));
                }
                s
            },
            Error::InvalidInput(m) => {
                let mut s = String::new();
                s.append("invalid input: ");
                s.append(m.as_str());
                proof {
                    assert(s@ =~= message_of(*self));
                }
                s
            },
            Error::Parse(m) => {
                let mut s = String::new();
                s.append("parse error: ");
                s.append(m.as_str());
                proof {
                    assert(s@ =~= message_of(*self));
                }
                s
            },
            Error::FilterError(m) => {
                let mut s = String::new();
                s.append("filter error: ");
                s.append(m.as_str());
                proof {
                    assert(s@ =~= message_of(*self));
                }
                s
            },
            Error::TimeoutError(m) => {
                let mut s = String::new();
                s.append("timeout: ");
                s.append(m.as_str());
                proof {
                    assert(s@ =~= message_of(*self));
                }
                s
            },
            Error::Unsupported(m) => {
                let mut s = String::new();
                s.append("unsupported operation: ");
                s.append(m.as_str());
                proof {
                    assert(s@ =~= message_of(*self));
                }
                s
            },
        }
    }

    /// The advisory remediation hint for this error, if any; advisory
    /// text only, never used for control flow.
    pub fn suggestion(&self) -> (r: Option<String>)
        ensures
            match r {
                Some(s) => suggestion_of(*self) == Some(s@),
                None => suggestion_of(*self) is None,
            },
    {
        match self {
            Error::FFmpegNotFound { suggestion } => match suggestion {
                Some(s) => Some(s.clone()),
                None => None,
            },
            Error::InvalidInput(m) => {
                if str_contains(m.as_str(), "input path") {
                    let mut s = String::new();
                    s.append("provide an input file with input() before running");
                    Some(s)
                } else if str_contains(m.as_str(), "output path") {
                    let mut s = String::new();
                    s.append("provide an output path with output() before running");
                    Some(s)
                } else {
                    None
                }
            },
            Error::ProcessingError { binary, exit_code, message } => {
                let mut s = String::new();
                s.append("check that the binary is installed and the arguments are valid");
                Some(s)
            },
            Error::FilterError(m) => {
                let mut s = String::new();
                s.append("check the filter syntax against the installed FFmpeg version");
                Some(s)
            },
            _ => None,
        }
    }
}

/// Captured diagnostic text bounded to 4096 characters, with an ellipsis
/// appended when it was cut.
pub open spec fn truncated(s: Seq<char>) -> Seq<char> {
    if s.len() <= 4096 {
        s
    } else {
        s.take(4096) + seq!['\u{2026}']
    }
}

/// Bounds captured diagnostic output against pathological floods.
pub fn truncate(message: &str) -> (r: String)
    ensures
        r@ == truncated(message@),
{
    let len = message.unicode_len();
    if len <= 4096 {
        message.to_owned()
    } else {
        let head = message.substring_char(0, 4096);
        let mut s = head.to_owned();
        proof {
            reveal_strlit("\u{2026}");
        }
        s.append("\u{2026}");
        proof {
            assert(s@ =~= truncated(message@));
        }
        s
    }
}

/// Builds the process-failure error for a binary from its exit status
/// and captured diagnostic output.
pub fn command_failed(binary: &str, exit_code: Option<i32>, stderr: &str) -> (r: Error)
    ensures
        (r matches Error::ProcessingError { binary: b, exit_code: e, message: m } && b@ == binary@
            && e == exit_code && m@ == truncated(stderr@)),
{
    Error::ProcessingError {
        binary: binary.to_owned(),
        exit_code,
        message: truncate(stderr),
    }
}

} // verus!
